//! The requests that the coordinators hand to the wallet daemon.

use vstd::prelude::*;
use crate::model::{OutPoint, VaultStatus};
use crate::psbt::Psbt;

verus! {

/// A request for the wallet daemon, which the caller performs before
/// delivering the answer back as an event.
pub enum Command {
    /// Nothing to ask.
    Nothing,
    ListVaults(Option<Vec<VaultStatus>>),
    GetBlockHeight,
    GetOnchainTransactions(OutPoint),
    GetUnvaultTransaction(OutPoint),
    GetRevocationTransactions(OutPoint),
    SetUnvaultTransaction(OutPoint, Psbt),
    SetRevocationTransactions {
        outpoint: OutPoint,
        emergency: Psbt,
        emergency_unvault: Psbt,
        cancel: Psbt,
    },
    /// Ask the daemon to build a spend of `inputs` to `outputs` (address,
    /// amount in satoshis) at `feerate`.
    GetSpendTransaction { inputs: Vec<OutPoint>, outputs: Vec<(String, u64)>, feerate: u32 },
    UpdateSpendTransaction(Psbt),
    ListSpendTransactions,
}

} // verus!
