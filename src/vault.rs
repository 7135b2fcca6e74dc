//! The lifecycle of one selected vault: which sub-protocol is active, and
//! which request goes to the daemon next.

use vstd::prelude::*;
use crate::chain::{RevocationChain, fresh_signer, signed_step, submitted};
use crate::command::Command;
use crate::error::Error;
use crate::model::{self, OutPoint, RevocationTransactions, VaultTransactions};
use crate::psbt::Psbt;
use crate::sign::{SignMessage, SignState, SignatureSharingStatus, TransactionKind};

verus! {

/// An event for the selected vault: an operator action, or the daemon's
/// answer to a request, tagged with the outpoint it was made for.
pub enum VaultMessage {
    Select(OutPoint),
    Delegate(OutPoint),
    Acknowledge(OutPoint),
    ListOnchainTransaction,
    OnChainTransactions(OutPoint, Result<VaultTransactions, String>),
    UnvaultTransaction(OutPoint, Result<Psbt, String>),
    RevocationTransactions(OutPoint, Result<RevocationTransactions, String>),
    /// The answer to the submission of a signed transaction of this kind.
    Signed(OutPoint, TransactionKind, Result<(), String>),
    Sign(SignMessage),
}

/// A vault in a list.
pub struct VaultListItem {
    pub vault: model::Vault,
}

impl VaultListItem {
    pub fn new(vault: model::Vault) -> (r: VaultListItem)
        ensures
            r.vault == vault,
    {
        VaultListItem { vault }
    }
}

/// The sub-protocol that is active for the selected vault; only one at a
/// time.
pub enum VaultSection {
    /// Nothing fetched yet.
    Unloaded,
    /// The vault's transactions that the network has seen.
    OnchainTransactions { txs: VaultTransactions },
    /// Signing of the unvault transaction, which delegates the vault.
    Delegate { signer: SignState, warning: Option<Error> },
    /// Signing of the revocation chain, which secures the vault.
    Acknowledge { chain: RevocationChain },
}

/// `post` is the section `pre` of the vault with outpoint `outpoint` after
/// a signing event or the answer to a submission, and `r` the request that
/// follows. A signing event goes to the active collector or chain; a signed
/// unvault transaction is submitted each time the collector holds one, and
/// the chain is submitted once, when complete. An answer goes to the
/// sub-protocol of its kind. Anything else changes nothing.
pub open spec fn section_updated(
    pre: VaultSection,
    post: VaultSection,
    outpoint: (Seq<char>, u32),
    message: VaultMessage,
    r: Command,
) -> bool {
    match message {
        VaultMessage::Sign(msg) => match pre {
            VaultSection::Delegate { signer, warning } => {
                &&& post is Delegate
                &&& SignState::updated(signer, post->Delegate_signer, msg)
                &&& post->Delegate_warning == warning
                &&& r is SetUnvaultTransaction <==> post->Delegate_signer.signed_psbt is Some
                &&& r is SetUnvaultTransaction ==> {
                    &&& r->SetUnvaultTransaction_0@ == outpoint
                    &&& r->SetUnvaultTransaction_1@ == post->Delegate_signer.signed_psbt.unwrap()@
                }
                &&& !(r is SetUnvaultTransaction) ==> r is Nothing
            },
            VaultSection::Acknowledge { chain } => {
                &&& post is Acknowledge
                &&& signed_step(chain, post->Acknowledge_chain, msg)
                &&& r is SetRevocationTransactions <==> !chain.submitting && !chain.done
                    && post->Acknowledge_chain.submitting
                &&& r is SetRevocationTransactions ==> {
                    &&& r->SetRevocationTransactions_outpoint@ == outpoint
                    &&& r->SetRevocationTransactions_emergency@
                        == post->Acknowledge_chain.emergency_tx.0@
                    &&& r->SetRevocationTransactions_emergency_unvault@
                        == post->Acknowledge_chain.emergency_unvault_tx.0@
                    &&& r->SetRevocationTransactions_cancel@ == post->Acknowledge_chain.cancel_tx.0@
                }
                &&& !(r is SetRevocationTransactions) ==> r is Nothing
            },
            _ => post == pre && r is Nothing,
        },
        VaultMessage::Signed(_, kind, res) => {
            &&& r is Nothing
            &&& match pre {
                VaultSection::Delegate { signer, warning } => if kind == TransactionKind::Unvault {
                    &&& post is Delegate
                    &&& match res {
                        Ok(()) => {
                            &&& SignState::updated(signer, post->Delegate_signer, SignMessage::Success)
                            &&& post->Delegate_signer.sharing_status == SignatureSharingStatus::Success
                            &&& post->Delegate_warning == warning
                        },
                        Err(e) => {
                            &&& post->Delegate_signer == signer
                            &&& post->Delegate_warning == Some(Error::RevaultDError(e))
                        },
                    }
                } else {
                    post == pre
                },
                VaultSection::Acknowledge { chain } => if kind == TransactionKind::Cancel {
                    post is Acknowledge && submitted(chain, post->Acknowledge_chain, res)
                } else {
                    post == pre
                },
                _ => post == pre,
            }
        },
        _ => post == pre && r is Nothing,
    }
}

impl VaultSection {
    pub open spec fn wf(&self) -> bool {
        match self {
            VaultSection::Delegate { signer, .. } => signer.wf() && signer.transaction_kind
                == TransactionKind::Unvault,
            VaultSection::Acknowledge { chain } => chain.wf(),
            _ => true,
        }
    }

    pub fn new_onchain_txs_section(txs: VaultTransactions) -> (r: VaultSection)
        ensures
            r == (VaultSection::OnchainTransactions { txs }),
    {
        VaultSection::OnchainTransactions { txs }
    }

    /// A fresh collector for the unvault transaction.
    pub fn new_delegate_section(unvault_tx: Psbt) -> (r: VaultSection)
        ensures
            r.wf(),
            r is Delegate,
            r->Delegate_signer.original_psbt@ == unvault_tx@,
            r->Delegate_signer.signed_psbt is None,
            r->Delegate_signer.method is DirectSignature,
            r->Delegate_signer.sharing_status == SignatureSharingStatus::Unshared,
            r->Delegate_warning is None,
            fresh_signer(r->Delegate_signer, unvault_tx@, TransactionKind::Unvault),
    {
        VaultSection::Delegate {
            signer: SignState::new(unvault_tx, TransactionKind::Unvault),
            warning: None,
        }
    }

    /// A fresh revocation chain, whose active collector is for the emergency
    /// transaction.
    pub fn new_ack_section(txs: RevocationTransactions) -> (r: VaultSection)
        ensures
            r.wf(),
            r is Acknowledge,
            r->Acknowledge_chain.signed_count() == 0,
            !r->Acknowledge_chain.submitting,
            !r->Acknowledge_chain.done,
            r->Acknowledge_chain.emergency_tx.0@ == txs.emergency_tx@,
            r->Acknowledge_chain.emergency_unvault_tx.0@ == txs.emergency_unvault_tx@,
            r->Acknowledge_chain.cancel_tx.0@ == txs.cancel_tx@,
            r->Acknowledge_chain.warning is None,
            fresh_signer(r->Acknowledge_chain.signer, txs.emergency_tx@, TransactionKind::Emergency),
    {
        VaultSection::Acknowledge { chain: RevocationChain::new(txs) }
    }

    /// Routes a signing event, or the answer to a submission, to the active
    /// sub-protocol, and says what to submit to the daemon.
    pub fn update(&mut self, outpoint: &OutPoint, message: VaultMessage) -> (r: Command)
        requires
            old(self).wf(),
        ensures
            final(self).wf(),
            section_updated(*old(self), *final(self), outpoint@, message, r),
            !(message is Sign || message is Signed) ==> *final(self) == *old(self) && r is Nothing,
            (*old(self)) is Unloaded || (*old(self)) is OnchainTransactions ==> *final(self) == *old(self)
                && r is Nothing,
            (*old(self)) is Delegate <==> (*final(self)) is Delegate,
            (*old(self)) is Acknowledge <==> (*final(self)) is Acknowledge,
            (*final(self)) is Delegate ==> (*final(self))->Delegate_signer.same_target(
                &(*old(self))->Delegate_signer,
            ),
            r is SetUnvaultTransaction ==> {
                &&& message is Sign
                &&& (*final(self)) is Delegate
                &&& r->SetUnvaultTransaction_0@ == outpoint@
                &&& (*final(self))->Delegate_signer.signed_psbt is Some
                &&& r->SetUnvaultTransaction_1@ == (*final(self))->Delegate_signer.signed_psbt.unwrap()@
            },
            (*final(self)) is Delegate && message is Sign ==> (r is SetUnvaultTransaction
                <==> (*final(self))->Delegate_signer.signed_psbt is Some),
            r is SetRevocationTransactions ==> {
                &&& message is Sign
                &&& (*final(self)) is Acknowledge
                &&& !(*old(self))->Acknowledge_chain.submitting
                &&& (*final(self))->Acknowledge_chain.submitting
                &&& r->SetRevocationTransactions_outpoint@ == outpoint@
                &&& r->SetRevocationTransactions_emergency@ == (*final(self))->Acknowledge_chain.emergency_tx.0@
                &&& r->SetRevocationTransactions_emergency_unvault@ == (*final(self))->Acknowledge_chain.emergency_unvault_tx.0@
                &&& r->SetRevocationTransactions_cancel@ == (*final(self))->Acknowledge_chain.cancel_tx.0@
            },
            r is Nothing || r is SetUnvaultTransaction || r is SetRevocationTransactions,
            (*final(self)) is Acknowledge && (*old(self))->Acknowledge_chain.submitting ==> r is Nothing,
    {
        match message {
            VaultMessage::Signed(_, kind, res) => {
                match self {
                    VaultSection::Delegate { warning, signer } => {
                        if kind == TransactionKind::Unvault {
                            match res {
                                Ok(()) => signer.update(SignMessage::Success),
                                Err(e) => *warning = Some(Error::RevaultDError(e)),
                            }
                        }
                    },
                    VaultSection::Acknowledge { chain } => {
                        if kind == TransactionKind::Cancel {
                            chain.on_submitted(res);
                        }
                    },
                    _ => {},
                }
                Command::Nothing
            },
            VaultMessage::Sign(msg) => {
                match self {
                    VaultSection::Delegate { signer, .. } => {
                        signer.update(msg);
                        match &signer.signed_psbt {
                            Some(psbt) => Command::SetUnvaultTransaction(
                                outpoint.duplicate(),
                                psbt.duplicate(),
                            ),
                            None => Command::Nothing,
                        }
                    },
                    VaultSection::Acknowledge { chain } => {
                        match chain.on_sign(msg) {
                            Some(signed) => Command::SetRevocationTransactions {
                                outpoint: outpoint.duplicate(),
                                emergency: signed.emergency,
                                emergency_unvault: signed.emergency_unvault,
                                cancel: signed.cancel,
                            },
                            None => Command::Nothing,
                        }
                    },
                    _ => Command::Nothing,
                }
            },
            _ => Command::Nothing,
        }
    }
}

/// A selected vault: a copy of the vault as listed, the active
/// sub-protocol, and the last error the daemon reported.
pub struct Vault {
    pub vault: model::Vault,
    pub warning: Option<Error>,
    pub section: VaultSection,
}

impl Vault {
    pub open spec fn wf(&self) -> bool {
        self.section.wf()
    }

    pub open spec fn outpoint_view(&self) -> (Seq<char>, u32) {
        self.vault.outpoint_view()
    }

    pub fn new(vault: model::Vault) -> (r: Vault)
        ensures
            r.wf(),
            r.vault == vault,
            r.warning is None,
            r.section is Unloaded,
    {
        Vault { vault, warning: None, section: VaultSection::Unloaded }
    }

    /// The first request for a selected vault: its on-chain transactions.
    pub fn load(&self) -> (r: Command)
        ensures
            r is GetOnchainTransactions,
            r->GetOnchainTransactions_0@ == self.outpoint_view(),
    {
        Command::GetOnchainTransactions(self.vault.outpoint())
    }

    /// Applies one event to the selected vault and says which request goes
    /// to the daemon next. Answers for another outpoint, and requests to
    /// delegate or acknowledge another vault, are ignored.
    /// `post` is the selected vault `pre` after the event, and `r` the
    /// request that follows.
    pub open spec fn updated(pre: Vault, post: Vault, message: VaultMessage, r: Command) -> bool {
        &&& post.vault == pre.vault
        &&& match message {
            VaultMessage::Select(_) => post == pre && r is Nothing,
            VaultMessage::ListOnchainTransaction => {
                &&& post == pre
                &&& r is GetOnchainTransactions
                &&& r->GetOnchainTransactions_0@ == pre.outpoint_view()
            },
            VaultMessage::Delegate(o) => {
                &&& post == pre
                &&& if o@ == pre.outpoint_view() {
                    r is GetUnvaultTransaction && r->GetUnvaultTransaction_0@ == o@
                } else {
                    r is Nothing
                }
            },
            VaultMessage::Acknowledge(o) => {
                &&& post == pre
                &&& if o@ == pre.outpoint_view() {
                    r is GetRevocationTransactions && r->GetRevocationTransactions_0@ == o@
                } else {
                    r is Nothing
                }
            },
            VaultMessage::OnChainTransactions(o, res) => {
                &&& r is Nothing
                &&& if o@ != pre.outpoint_view() {
                    post == pre
                } else {
                    match res {
                        Ok(txs) => post.section == (VaultSection::OnchainTransactions {
                            txs,
                        }) && post.warning == pre.warning,
                        Err(e) => post.section == pre.section
                            && post.warning == Some(Error::RevaultDError(e)),
                    }
                }
            },
            VaultMessage::UnvaultTransaction(o, res) => {
                &&& r is Nothing
                &&& if o@ != pre.outpoint_view() {
                    post == pre
                } else {
                    match res {
                        Ok(psbt) => {
                            &&& post.section is Delegate
                            &&& post.section->Delegate_signer.original_psbt@ == psbt@
                            &&& post.section->Delegate_signer.signed_psbt is None
                            &&& post.section->Delegate_warning is None
                            &&& fresh_signer(
                                post.section->Delegate_signer,
                                psbt@,
                                TransactionKind::Unvault,
                            )
                            &&& post.warning == pre.warning
                        },
                        Err(e) => post.section == pre.section
                            && post.warning == Some(Error::RevaultDError(e)),
                    }
                }
            },
            VaultMessage::RevocationTransactions(o, res) => {
                &&& r is Nothing
                &&& if o@ != pre.outpoint_view() {
                    post == pre
                } else {
                    match res {
                        Ok(txs) => {
                            &&& post.section is Acknowledge
                            &&& post.section->Acknowledge_chain.signed_count() == 0
                            &&& !post.section->Acknowledge_chain.submitting
                            &&& post.section->Acknowledge_chain.emergency_tx.0@
                                == txs.emergency_tx@
                            &&& post.section->Acknowledge_chain.emergency_unvault_tx.0@
                                == txs.emergency_unvault_tx@
                            &&& post.section->Acknowledge_chain.cancel_tx.0@
                                == txs.cancel_tx@
                            &&& post.section->Acknowledge_chain.warning is None
                            &&& !post.section->Acknowledge_chain.done
                            &&& fresh_signer(
                                post.section->Acknowledge_chain.signer,
                                txs.emergency_tx@,
                                TransactionKind::Emergency,
                            )
                            &&& post.warning == pre.warning
                        },
                        Err(e) => post.section == pre.section
                            && post.warning == Some(Error::RevaultDError(e)),
                    }
                }
            },
            VaultMessage::Signed(o, _, _) => {
                &&& r is Nothing
                &&& post.warning == pre.warning
                &&& o@ != pre.outpoint_view() ==> post == pre
                &&& o@ == pre.outpoint_view() ==> section_updated(
                    pre.section,
                    post.section,
                    pre.outpoint_view(),
                    message,
                    r,
                )
            },
            VaultMessage::Sign(_) => {
                &&& post.warning == pre.warning
                &&& section_updated(pre.section, post.section, pre.outpoint_view(), message, r)
                &&& (r is Nothing || r is SetUnvaultTransaction || r is SetRevocationTransactions)
                &&& pre.section is Delegate <==> post.section is Delegate
                &&& pre.section is Acknowledge <==> post.section is Acknowledge
                &&& pre.section is Unloaded || pre.section is OnchainTransactions
                    ==> post.section == pre.section && r is Nothing
                &&& r is SetUnvaultTransaction ==> {
                    &&& r->SetUnvaultTransaction_0@ == pre.outpoint_view()
                    &&& post.section->Delegate_signer.signed_psbt is Some
                    &&& r->SetUnvaultTransaction_1@
                        == post.section->Delegate_signer.signed_psbt.unwrap()@
                }
                &&& post.section is Delegate ==> (r is SetUnvaultTransaction
                    <==> post.section->Delegate_signer.signed_psbt is Some)
                &&& r is SetRevocationTransactions ==> {
                    &&& r->SetRevocationTransactions_outpoint@ == pre.outpoint_view()
                    &&& !pre.section->Acknowledge_chain.submitting
                    &&& post.section->Acknowledge_chain.submitting
                    &&& r->SetRevocationTransactions_emergency@
                        == post.section->Acknowledge_chain.emergency_tx.0@
                    &&& r->SetRevocationTransactions_emergency_unvault@
                        == post.section->Acknowledge_chain.emergency_unvault_tx.0@
                    &&& r->SetRevocationTransactions_cancel@
                        == post.section->Acknowledge_chain.cancel_tx.0@
                }
                &&& pre.section is Acknowledge
                    && pre.section->Acknowledge_chain.submitting ==> r is Nothing
            },
        }
    }

    pub fn update(&mut self, message: VaultMessage) -> (r: Command)
        requires
            old(self).wf(),
        ensures
            final(self).wf(),
            final(self).vault == old(self).vault,
            Vault::updated(*old(self), *final(self), message, r),
    {
        let outpoint = self.vault.outpoint();
        match message {
            VaultMessage::Select(_) => Command::Nothing,
            VaultMessage::ListOnchainTransaction => Command::GetOnchainTransactions(outpoint),
            VaultMessage::Delegate(o) => {
                if o.equals(&outpoint) {
                    Command::GetUnvaultTransaction(o)
                } else {
                    Command::Nothing
                }
            },
            VaultMessage::Acknowledge(o) => {
                if o.equals(&outpoint) {
                    Command::GetRevocationTransactions(o)
                } else {
                    Command::Nothing
                }
            },
            VaultMessage::OnChainTransactions(o, res) => {
                if o.equals(&outpoint) {
                    match res {
                        Ok(txs) => self.section = VaultSection::new_onchain_txs_section(txs),
                        Err(e) => self.warning = Some(Error::RevaultDError(e)),
                    }
                }
                Command::Nothing
            },
            VaultMessage::UnvaultTransaction(o, res) => {
                if o.equals(&outpoint) {
                    match res {
                        Ok(psbt) => self.section = VaultSection::new_delegate_section(psbt),
                        Err(e) => self.warning = Some(Error::RevaultDError(e)),
                    }
                }
                Command::Nothing
            },
            VaultMessage::RevocationTransactions(o, res) => {
                if o.equals(&outpoint) {
                    match res {
                        Ok(txs) => self.section = VaultSection::new_ack_section(txs),
                        Err(e) => self.warning = Some(Error::RevaultDError(e)),
                    }
                }
                Command::Nothing
            },
            VaultMessage::Signed(o, kind, res) => {
                if o.equals(&outpoint) {
                    self.section.update(&outpoint, VaultMessage::Signed(o, kind, res))
                } else {
                    Command::Nothing
                }
            },
            VaultMessage::Sign(msg) => self.section.update(&outpoint, VaultMessage::Sign(msg)),
        }
    }
}

} // verus!
