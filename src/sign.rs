//! Collecting the signature of one transaction.

use vstd::prelude::*;
use crate::psbt::{Psbt, opt_view, psbt_of_text, same_transaction};

verus! {

/// The role of a transaction in the vault protocol.
#[derive(PartialEq, Eq, Structural, Clone, Copy, Debug)]
pub enum TransactionKind {
    Unvault,
    Emergency,
    EmergencyUnvault,
    Cancel,
    Spend,
}

/// Whether the daemon has accepted the signed transaction.
#[derive(PartialEq, Eq, Structural, Clone, Copy, Debug)]
pub enum SignatureSharingStatus {
    Unshared,
    Success,
}

/// Why a pasted signed transaction was refused.
#[derive(PartialEq, Eq, Structural, Clone, Copy, Debug)]
pub enum SignWarning {
    /// The text is not base64, or its bytes are not a PSBT.
    InvalidPsbt,
    /// The PSBT is for another transaction than the one being signed.
    NotTargetedTransaction,
}

impl SignWarning {
    /// The text shown to the operator.
    pub fn message(&self) -> (r: &'static str)
        ensures
            *self == SignWarning::InvalidPsbt ==> r@ == "Please enter valid PSBT"@,
            *self == SignWarning::NotTargetedTransaction ==> r@
                == "PSBT is not the targeted transaction to sign"@,
    {
        match self {
            SignWarning::InvalidPsbt => "Please enter valid PSBT",
            SignWarning::NotTargetedTransaction => "PSBT is not the targeted transaction to sign",
        }
    }
}

/// The way the user signs the PSBT.
pub enum SignMethod {
    /// A signing module attached to this program signs the PSBT and reports
    /// the outcome by itself.
    DirectSignature,
    /// The PSBT is exported, signed elsewhere (an air-gapped device for
    /// example), and pasted back as base64 text.
    IndirectSignature { warning: Option<SignWarning>, psbt_input: String },
}

/// What happens to a signature collector.
pub enum SignMessage {
    /// The daemon accepted the signed transaction.
    Success,
    /// The operator edited the pasted text.
    PsbtEdited(String),
    /// The operator submits the pasted text.
    Sign,
    /// The operator switches between direct and indirect signing.
    ChangeMethod,
    /// The operator copies text; this changes nothing here.
    Clipboard(String),
}

/// What a submission of the decoded PSBT `decoded` leaves in the signed slot
/// and in the warning, for a collector of `original` whose slot holds
/// `kept`: a PSBT for the original transaction replaces the slot and clears
/// the warning; anything else leaves the slot as it was and sets the
/// warning.
pub open spec fn sign_outcome(
    original: Seq<u8>,
    kept: Option<Seq<u8>>,
    decoded: Option<Seq<u8>>,
) -> (Option<Seq<u8>>, Option<SignWarning>) {
    match decoded {
        None => (kept, Some(SignWarning::InvalidPsbt)),
        Some(p) => if same_transaction(p, original) {
            (Some(p), None)
        } else {
            (kept, Some(SignWarning::NotTargetedTransaction))
        },
    }
}

/// The collector of the signature of one transaction: it holds the
/// transaction to sign and, once accepted, the signed one, which always has
/// the same identity.
pub struct SignState {
    pub original_psbt: Psbt,
    pub signed_psbt: Option<Psbt>,
    pub transaction_kind: TransactionKind,
    pub sharing_status: SignatureSharingStatus,
    pub method: SignMethod,
}

impl SignState {
    /// Only a PSBT for the original transaction is ever held as signed.
    pub open spec fn wf(&self) -> bool {
        self.signed_psbt is Some ==> same_transaction(
            self.signed_psbt.unwrap()@,
            self.original_psbt@,
        )
    }

    pub open spec fn signed(&self) -> Option<Seq<u8>> {
        opt_view(self.signed_psbt)
    }

    pub open spec fn is_indirect(&self) -> bool {
        self.method is IndirectSignature
    }

    pub open spec fn warning(&self) -> Option<SignWarning> {
        match self.method {
            SignMethod::IndirectSignature { warning, .. } => warning,
            SignMethod::DirectSignature => None,
        }
    }

    pub open spec fn input(&self) -> Seq<char> {
        match self.method {
            SignMethod::IndirectSignature { psbt_input, .. } => psbt_input@,
            SignMethod::DirectSignature => Seq::empty(),
        }
    }

    /// The signed slot and the warning after a submission of the pasted
    /// text: empty text is no PSBT.
    pub open spec fn submission(&self) -> (Option<Seq<u8>>, Option<SignWarning>) {
        if self.input().len() == 0 {
            (self.signed(), Some(SignWarning::InvalidPsbt))
        } else {
            sign_outcome(self.original_psbt@, self.signed(), psbt_of_text(self.input()))
        }
    }

    /// The signed slot after the event.
    pub open spec fn signed_after(&self, message: SignMessage) -> Option<Seq<u8>> {
        if message is Sign && self.is_indirect() {
            self.submission().0
        } else {
            self.signed()
        }
    }

    /// `post` is the collector `pre` after the event.
    pub open spec fn updated(pre: SignState, post: SignState, message: SignMessage) -> bool {
        &&& post.same_target(&pre)
        &&& post.signed() == pre.signed_after(message)
        &&& match message {
            SignMessage::Success => {
                &&& post.sharing_status == SignatureSharingStatus::Success
                &&& post.method == pre.method
            },
            SignMessage::PsbtEdited(text) => {
                &&& post.sharing_status == pre.sharing_status
                &&& post.is_indirect() == pre.is_indirect()
                &&& pre.is_indirect() ==> post.input() == text@ && post.warning() is None
                &&& !pre.is_indirect() ==> post.method == pre.method
            },
            SignMessage::Sign => {
                &&& post.sharing_status == pre.sharing_status
                &&& post.is_indirect() == pre.is_indirect()
                &&& post.input() == pre.input()
                &&& pre.is_indirect() ==> post.warning() == pre.submission().1
                &&& !pre.is_indirect() ==> post.method == pre.method
            },
            SignMessage::ChangeMethod => {
                &&& post.sharing_status == pre.sharing_status
                &&& post.is_indirect() == !pre.is_indirect()
                &&& post.input().len() == 0
                &&& post.warning() is None
            },
            SignMessage::Clipboard(_) => {
                &&& post.sharing_status == pre.sharing_status
                &&& post.method == pre.method
            },
        }
    }

    /// Both collectors are for the same transaction, of the same kind.
    pub open spec fn same_target(&self, other: &SignState) -> bool {
        self.original_psbt@ == other.original_psbt@ && self.transaction_kind
            == other.transaction_kind
    }

    /// A fresh collector: direct signing, nothing signed, nothing shared.
    pub fn new(original_psbt: Psbt, transaction_kind: TransactionKind) -> (r: SignState)
        ensures
            r.wf(),
            r.original_psbt@ == original_psbt@,
            r.transaction_kind == transaction_kind,
            r.signed_psbt is None,
            r.sharing_status == SignatureSharingStatus::Unshared,
            r.method is DirectSignature,
    {
        SignState {
            original_psbt,
            signed_psbt: None,
            transaction_kind,
            sharing_status: SignatureSharingStatus::Unshared,
            method: SignMethod::DirectSignature,
        }
    }

    /// Takes the outcome of decoding the pasted text: a PSBT for the
    /// original transaction is stored as signed and the warning cleared;
    /// anything else sets the warning and leaves the signed slot as it was.
    /// Outside indirect signing nothing changes.
    pub fn apply_signature(&mut self, decoded: Option<Psbt>)
        requires
            old(self).wf(),
        ensures
            final(self).wf(),
            final(self).same_target(old(self)),
            final(self).sharing_status == old(self).sharing_status,
            final(self).is_indirect() == old(self).is_indirect(),
            final(self).input() == old(self).input(),
            old(self).is_indirect() ==> (final(self).signed(), final(self).warning()) == sign_outcome(
                old(self).original_psbt@,
                old(self).signed(),
                opt_view(decoded),
            ),
            !old(self).is_indirect() ==> *final(self) == *old(self),
    {
        if let SignMethod::IndirectSignature { warning, .. } = &mut self.method {
            match decoded {
                Some(psbt) => {
                    if psbt.same_transaction(&self.original_psbt) {
                        self.signed_psbt = Some(psbt);
                        *warning = None;
                    } else {
                        *warning = Some(SignWarning::NotTargetedTransaction);
                    }
                },
                None => {
                    *warning = Some(SignWarning::InvalidPsbt);
                },
            }
        }
    }

    /// Applies one event to the collector. Submitting empty text sets the
    /// invalid-PSBT warning.
    pub fn update(&mut self, message: SignMessage)
        requires
            old(self).wf(),
        ensures
            final(self).wf(),
            SignState::updated(*old(self), *final(self), message),
    {
        match message {
            SignMessage::Success => {
                self.sharing_status = SignatureSharingStatus::Success;
            },
            SignMessage::PsbtEdited(text) => {
                if let SignMethod::IndirectSignature { psbt_input, warning } = &mut self.method {
                    *warning = None;
                    *psbt_input = text;
                }
            },
            SignMessage::Sign => {
                let input = match &self.method {
                    SignMethod::IndirectSignature { psbt_input, .. } => {
                        if !psbt_input.as_str().is_empty() {
                            Some(Some(Psbt::from_base64(psbt_input.as_str())))
                        } else {
                            Some(None)
                        }
                    },
                    SignMethod::DirectSignature => None,
                };
                match input {
                    Some(Some(decoded)) => self.apply_signature(decoded),
                    Some(None) => {
                        if let SignMethod::IndirectSignature { warning, .. } = &mut self.method {
                            *warning = Some(SignWarning::InvalidPsbt);
                        }
                    },
                    None => {},
                }
            },
            SignMessage::ChangeMethod => {
                if let SignMethod::DirectSignature = self.method {
                    self.method = SignMethod::IndirectSignature {
                        warning: None,
                        psbt_input: String::new(),
                    };
                } else {
                    self.method = SignMethod::DirectSignature;
                }
            },
            SignMessage::Clipboard(_) => {},
        }
    }
}

} // verus!
