//! The revocation chain: emergency, then emergency-unvault, then cancel.

use vstd::prelude::*;
use crate::error::Error;
use crate::model::RevocationTransactions;
use crate::psbt::{Psbt, same_transaction};
use crate::sign::{SignMessage, SignState, TransactionKind, SignatureSharingStatus};

verus! {

/// The three revocation transactions of a vault, signed strictly in order by
/// one active collector, and handed to the daemon in one request once all
/// three are signed.
pub struct RevocationChain {
    /// Each transaction, with whether it is signed; a signed one replaces
    /// the unsigned one.
    pub emergency_tx: (Psbt, bool),
    pub emergency_unvault_tx: (Psbt, bool),
    pub cancel_tx: (Psbt, bool),
    /// The collector of the first unsigned member, or of the cancel
    /// transaction once all are signed.
    pub signer: SignState,
    /// A submission of the chain to the daemon is in flight.
    pub submitting: bool,
    /// The daemon accepted the chain.
    pub done: bool,
    pub warning: Option<Error>,
}

/// The payloads handed to the daemon once the chain is complete.
pub struct SignedRevocations {
    pub emergency: Psbt,
    pub emergency_unvault: Psbt,
    pub cancel: Psbt,
}

/// No member of the chain loses its signed flag, and each keeps the
/// identity of its transaction.
pub open spec fn progresses(pre: RevocationChain, post: RevocationChain) -> bool {
    &&& pre.emergency_tx.1 ==> post.emergency_tx.1
    &&& pre.emergency_unvault_tx.1 ==> post.emergency_unvault_tx.1
    &&& pre.cancel_tx.1 ==> post.cancel_tx.1
    &&& same_transaction(post.emergency_tx.0@, pre.emergency_tx.0@)
    &&& same_transaction(post.emergency_unvault_tx.0@, pre.emergency_unvault_tx.0@)
    &&& same_transaction(post.cancel_tx.0@, pre.cancel_tx.0@)
}

/// A fresh collector for `psbt`, of `kind`: direct signing, nothing signed,
/// nothing shared.
pub open spec fn fresh_signer(s: SignState, psbt: Seq<u8>, kind: TransactionKind) -> bool {
    &&& s.original_psbt@ == psbt
    &&& s.transaction_kind == kind
    &&& s.signed_psbt is None
    &&& s.method is DirectSignature
    &&& s.sharing_status == SignatureSharingStatus::Unshared
}

/// `post` is the chain `pre` after a signing event. While a submission is
/// in flight, or once the chain is accepted, nothing changes. Otherwise the
/// active collector takes the event; if it then holds a signed PSBT, that
/// PSBT becomes the active member, flagged signed, and a fresh collector
/// for the next member takes over, or, after the cancel transaction, the
/// chain is being submitted.
pub open spec fn signed_step(pre: RevocationChain, post: RevocationChain, msg: SignMessage) -> bool {
    &&& post.done == pre.done
    &&& post.warning == pre.warning
    &&& progresses(pre, post)
    &&& if pre.submitting || pre.done {
        post == pre
    } else {
        match pre.signer.signed_after(msg) {
            None => {
                &&& SignState::updated(pre.signer, post.signer, msg)
                &&& post.emergency_tx == pre.emergency_tx
                &&& post.emergency_unvault_tx == pre.emergency_unvault_tx
                &&& post.cancel_tx == pre.cancel_tx
                &&& !post.submitting
            },
            Some(p) => if pre.signer.transaction_kind == TransactionKind::Emergency {
                &&& post.emergency_tx.0@ == p && post.emergency_tx.1
                &&& post.emergency_unvault_tx == pre.emergency_unvault_tx
                &&& post.cancel_tx == pre.cancel_tx
                &&& fresh_signer(
                    post.signer,
                    pre.emergency_unvault_tx.0@,
                    TransactionKind::EmergencyUnvault,
                )
                &&& !post.submitting
            } else if pre.signer.transaction_kind == TransactionKind::EmergencyUnvault {
                &&& post.emergency_tx == pre.emergency_tx
                &&& post.emergency_unvault_tx.0@ == p && post.emergency_unvault_tx.1
                &&& post.cancel_tx == pre.cancel_tx
                &&& fresh_signer(post.signer, pre.cancel_tx.0@, TransactionKind::Cancel)
                &&& !post.submitting
            } else {
                &&& post.emergency_tx == pre.emergency_tx
                &&& post.emergency_unvault_tx == pre.emergency_unvault_tx
                &&& post.cancel_tx.0@ == p && post.cancel_tx.1
                &&& SignState::updated(pre.signer, post.signer, msg)
                &&& post.submitting
            },
        }
    }
}

/// `post` is the chain `pre` after the daemon's answer to its submission:
/// the members never change; on success the chain is done and the signature
/// shared; on failure the error is kept and the collector, with its
/// signature, stays for a retry. Without a submission in flight nothing
/// changes.
pub open spec fn submitted(pre: RevocationChain, post: RevocationChain, res: Result<(), String>) -> bool {
    &&& post.emergency_tx == pre.emergency_tx
    &&& post.emergency_unvault_tx == pre.emergency_unvault_tx
    &&& post.cancel_tx == pre.cancel_tx
    &&& !post.submitting
    &&& if !pre.submitting {
        post == pre
    } else {
        match res {
            Ok(()) => {
                &&& post.done
                &&& post.warning == pre.warning
                &&& SignState::updated(pre.signer, post.signer, SignMessage::Success)
                &&& post.signer.sharing_status == SignatureSharingStatus::Success
            },
            Err(e) => {
                &&& !post.done
                &&& post.warning == Some(Error::RevaultDError(e))
                &&& post.signer == pre.signer
            },
        }
    }
}

impl RevocationChain {
    /// Members become signed strictly in order, and the active collector is
    /// for the first unsigned member.
    pub open spec fn wf(&self) -> bool {
        &&& self.signer.wf()
        &&& self.emergency_unvault_tx.1 ==> self.emergency_tx.1
        &&& self.cancel_tx.1 ==> self.emergency_unvault_tx.1
        &&& self.submitting ==> self.cancel_tx.1
        &&& self.done ==> self.cancel_tx.1 && !self.submitting
        &&& !self.emergency_tx.1 ==> {
            &&& self.signer.transaction_kind == TransactionKind::Emergency
            &&& self.signer.original_psbt@ == self.emergency_tx.0@
        }
        &&& self.emergency_tx.1 && !self.emergency_unvault_tx.1 ==> {
            &&& self.signer.transaction_kind == TransactionKind::EmergencyUnvault
            &&& self.signer.original_psbt@ == self.emergency_unvault_tx.0@
        }
        &&& self.emergency_unvault_tx.1 ==> {
            &&& self.signer.transaction_kind == TransactionKind::Cancel
            &&& same_transaction(self.signer.original_psbt@, self.cancel_tx.0@)
        }
    }

    /// The number of members signed so far.
    pub open spec fn signed_count(&self) -> nat {
        if self.cancel_tx.1 {
            3
        } else if self.emergency_unvault_tx.1 {
            2
        } else if self.emergency_tx.1 {
            1
        } else {
            0
        }
    }

    /// A chain with nothing signed, whose active collector is for the
    /// emergency transaction.
    pub fn new(txs: RevocationTransactions) -> (r: RevocationChain)
        ensures
            r.wf(),
            r.signed_count() == 0,
            !r.submitting && !r.done,
            r.warning is None,
            r.emergency_tx.0@ == txs.emergency_tx@,
            r.emergency_unvault_tx.0@ == txs.emergency_unvault_tx@,
            r.cancel_tx.0@ == txs.cancel_tx@,
            r.signer.signed_psbt is None,
            r.signer.method is DirectSignature,
            fresh_signer(r.signer, txs.emergency_tx@, TransactionKind::Emergency),
    {
        let signer = SignState::new(txs.emergency_tx.duplicate(), TransactionKind::Emergency);
        RevocationChain {
            emergency_tx: (txs.emergency_tx, false),
            emergency_unvault_tx: (txs.emergency_unvault_tx, false),
            cancel_tx: (txs.cancel_tx, false),
            signer,
            submitting: false,
            done: false,
            warning: None,
        }
    }

    /// Passes a signing event to the active collector. When it yields a
    /// signed PSBT, that member is marked signed and the collector for the
    /// next member takes over; when the member is the cancel transaction,
    /// the three signed transactions are returned, to be handed to the
    /// daemon in one request. While a submission is in flight, or once the
    /// chain is accepted, the event is ignored.
    pub fn on_sign(&mut self, msg: SignMessage) -> (r: Option<SignedRevocations>)
        requires
            old(self).wf(),
        ensures
            final(self).wf(),
            final(self).signed_count() >= old(self).signed_count(),
            final(self).signed_count() <= old(self).signed_count() + 1,
            final(self).done == old(self).done,
            final(self).emergency_tx.0@ == old(self).emergency_tx.0@ || !old(self).emergency_tx.1,
            old(self).emergency_tx.1 ==> final(self).emergency_tx.0@ == old(self).emergency_tx.0@,
            old(self).emergency_unvault_tx.1 ==> final(self).emergency_unvault_tx.0@ == old(self).emergency_unvault_tx.0@,
            old(self).submitting || old(self).done ==> {
                &&& r is None
                &&& final(self).submitting == old(self).submitting
                &&& final(self).signed_count() == old(self).signed_count()
            },
            r is Some <==> !old(self).submitting && !old(self).done && final(self).submitting,
            r is Some ==> {
                &&& r.unwrap().emergency@ == final(self).emergency_tx.0@
                &&& r.unwrap().emergency_unvault@ == final(self).emergency_unvault_tx.0@
                &&& r.unwrap().cancel@ == final(self).cancel_tx.0@
                &&& final(self).signed_count() == 3
            },
            final(self).signed_count() > old(self).signed_count() ==> final(self).signer.signed_psbt
                is None || final(self).submitting,
            signed_step(*old(self), *final(self), msg),
            !old(self).emergency_unvault_tx.1 ==> r is None && !final(self).cancel_tx.1,
            same_transaction(final(self).emergency_tx.0@, old(self).emergency_tx.0@),
            same_transaction(
                final(self).emergency_unvault_tx.0@,
                old(self).emergency_unvault_tx.0@,
            ),
            same_transaction(final(self).cancel_tx.0@, old(self).cancel_tx.0@),
            !old(self).emergency_tx.1 ==> !final(self).emergency_unvault_tx.1,
    {
        if self.submitting || self.done {
            return None;
        }
        self.signer.update(msg);
        let signed = match &self.signer.signed_psbt {
            Some(psbt) => psbt.duplicate(),
            None => return None,
        };
        match self.signer.transaction_kind {
            TransactionKind::Emergency => {
                if !self.emergency_tx.1 {
                    self.emergency_tx = (signed, true);
                    self.signer = SignState::new(
                        self.emergency_unvault_tx.0.duplicate(),
                        TransactionKind::EmergencyUnvault,
                    );
                }
                None
            },
            TransactionKind::EmergencyUnvault => {
                if !self.emergency_unvault_tx.1 {
                    self.emergency_unvault_tx = (signed, true);
                    self.signer = SignState::new(
                        self.cancel_tx.0.duplicate(),
                        TransactionKind::Cancel,
                    );
                }
                None
            },
            TransactionKind::Cancel => {
                self.cancel_tx = (signed, true);
                self.submitting = true;
                Some(
                    SignedRevocations {
                        emergency: self.emergency_tx.0.duplicate(),
                        emergency_unvault: self.emergency_unvault_tx.0.duplicate(),
                        cancel: self.cancel_tx.0.duplicate(),
                    },
                )
            },
            _ => None,
        }
    }

    /// Takes the daemon's answer to the submission of the chain. On success
    /// the chain is done; on failure the signed transactions stay and the
    /// error is kept, so that the submission can be retried without signing
    /// again. Without a submission in flight the answer is ignored.
    pub fn on_submitted(&mut self, res: Result<(), String>)
        requires
            old(self).wf(),
        ensures
            final(self).wf(),
            final(self).signed_count() == old(self).signed_count(),
            final(self).emergency_tx.0@ == old(self).emergency_tx.0@,
            final(self).emergency_unvault_tx.0@ == old(self).emergency_unvault_tx.0@,
            final(self).cancel_tx.0@ == old(self).cancel_tx.0@,
            !final(self).submitting,
            submitted(*old(self), *final(self), res),
            old(self).submitting && res is Ok ==> final(self).done
                && final(self).signer.sharing_status == SignatureSharingStatus::Success,
            old(self).submitting && res is Err ==> !final(self).done
                && final(self).warning == Some(Error::RevaultDError(res->Err_0)),
            !old(self).submitting ==> final(self).done == old(self).done,
    {
        if !self.submitting {
            return;
        }
        self.submitting = false;
        match res {
            Ok(()) => {
                self.done = true;
                self.signer.update(SignMessage::Success);
            },
            Err(e) => {
                self.warning = Some(Error::RevaultDError(e));
            },
        }
    }
}

/// The members of a well-formed chain are signed in order: the cancel
/// transaction is never signed while the emergency-unvault one is not, nor
/// the emergency-unvault one while the emergency one is not; and a
/// submission is in flight only once all three are signed.
pub proof fn lemma_signed_in_order(chain: RevocationChain)
    requires
        chain.wf(),
    ensures
        chain.cancel_tx.1 ==> chain.emergency_unvault_tx.1,
        chain.emergency_unvault_tx.1 ==> chain.emergency_tx.1,
        chain.submitting ==> chain.signed_count() == 3,
{
}
} // verus!
