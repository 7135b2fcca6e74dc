//! Errors that the coordinators keep as warnings.

use vstd::prelude::*;

verus! {

/// A failure that a coordinator reports to the operator. None is fatal:
/// repeating the operation may succeed.
#[derive(PartialEq, Eq, Debug)]
pub enum Error {
    /// The daemon refused or failed a request; its message.
    RevaultDError(String),
    /// Pasted text is not base64, or its bytes are not a PSBT.
    InvalidPsbt,
    /// A spend was asked for with no input selected.
    EmptySelection,
    /// An output amount of a spend does not parse.
    ValidationError,
    /// The daemon reported vaults whose amounts add up past `u64::MAX`.
    AmountOverflow,
}

} // verus!
