//! The screens that hold a set of vaults: they keep the vaults the daemon
//! reported, select one, and route its events to it.

use vstd::prelude::*;
use crate::command::Command;
use crate::error::Error;
use crate::model::{self, OutPoint, SpendTx, VaultStatus, is_undelegated_status, total_amount};
use crate::psbt::Psbt;
use crate::vault::{Vault, VaultListItem, VaultMessage};

verus! {

/// An event for a screen.
pub enum Message {
    /// The daemon's answer to a listing of vaults.
    Vaults(Result<Vec<model::Vault>, String>),
    Vault(VaultMessage),
    BlockHeight(Result<u64, String>),
    /// Show the vaults with these statuses.
    FilterVaults(Vec<VaultStatus>),
    SpendTransactions(Result<Vec<SpendTx>, String>),
    SelectSpendTx(Psbt),
}

/// The vaults of the list items.
pub open spec fn item_vaults(items: Seq<VaultListItem>) -> Seq<model::Vault> {
    items.map_values(|i: VaultListItem| i.vault)
}

/// Whether a list item holds the vault with this outpoint.
pub open spec fn lists(items: Seq<VaultListItem>, o: (Seq<char>, u32)) -> bool {
    exists|i: int| 0 <= i < items.len() && #[trigger] items[i].vault.outpoint_view() == o
}

/// Whether the selected vault is well formed.
pub open spec fn selection_wf(selected: Option<Vault>) -> bool {
    selected is Some ==> selected.unwrap().wf()
}

/// The index of the first item holding the vault with this outpoint.
pub fn find_vault(items: &Vec<VaultListItem>, o: &OutPoint) -> (r: Option<usize>)
    ensures
        r is Some <==> lists(items@, o@),
        r is Some ==> r.unwrap() < items@.len() && items@[r.unwrap() as int].vault.outpoint_view()
            == o@,
{
    let mut i: usize = 0;
    while i < items.len()
        invariant
            i <= items.len(),
            forall|k: int| 0 <= k < i ==> (#[trigger] items@[k]).vault.outpoint_view() != o@,
        decreases items.len() - i,
    {
        if items[i].vault.outpoint().equals(o) {
            return Some(i);
        }
        i = i + 1;
    }
    None
}

/// The selection after a request to select the vault with outpoint `o`:
/// the selected vault is deselected, a listed one is selected afresh, and
/// anything else changes nothing.
pub open spec fn toggled(
    before: Option<Vault>,
    after: Option<Vault>,
    items: Seq<VaultListItem>,
    o: (Seq<char>, u32),
) -> bool {
    if before is Some && before.unwrap().outpoint_view() == o {
        after is None
    } else if lists(items, o) {
        &&& after is Some
        &&& after.unwrap().vault.outpoint_view() == o
        &&& exists|i: int| 0 <= i < items.len() && items[i].vault == after.unwrap().vault
        &&& after.unwrap().section is Unloaded
        &&& after.unwrap().warning is None
    } else {
        after == before
    }
}

/// The selection and the request after a request to select the vault with
/// outpoint `o`: deselecting answers with a fresh listing where `relist`
/// holds, else with nothing; selecting fetches the vault's revocation
/// transactions where `revocations` holds, else its on-chain transactions.
pub open spec fn selection_answer(
    before: Option<Vault>,
    after: Option<Vault>,
    items: Seq<VaultListItem>,
    o: (Seq<char>, u32),
    r: Command,
    relist: bool,
    revocations: bool,
) -> bool {
    &&& toggled(before, after, items, o)
    &&& if before is Some && before.unwrap().outpoint_view() == o {
        if relist {
            r is ListVaults
        } else {
            r is Nothing
        }
    } else if lists(items, o) {
        if revocations {
            r is GetRevocationTransactions && r->GetRevocationTransactions_0@ == o
        } else {
            r is GetOnchainTransactions && r->GetOnchainTransactions_0@ == o
        }
    } else {
        r is Nothing
    }
}

/// An event handed to the selected vault, if any: the vault follows it, and
/// its request is the screen's.
pub open spec fn forwarded(
    before: Option<Vault>,
    after: Option<Vault>,
    message: VaultMessage,
    r: Command,
) -> bool {
    match before {
        Some(v) => after is Some && Vault::updated(v, after.unwrap(), message, r),
        None => after is None && r is Nothing,
    }
}

/// The selection and the request after a request to delegate (`delegate`)
/// or acknowledge the vault with outpoint `o`: the selected vault starts it
/// if it is this one; else a listed vault is selected afresh and starts it;
/// else nothing happens.
pub open spec fn started(
    before: Option<Vault>,
    after: Option<Vault>,
    items: Seq<VaultListItem>,
    o: (Seq<char>, u32),
    r: Command,
    delegate: bool,
) -> bool {
    if before is Some && before.unwrap().outpoint_view() == o {
        after == before && starts(r, o, delegate)
    } else if lists(items, o) {
        &&& after is Some
        &&& after.unwrap().vault.outpoint_view() == o
        &&& exists|i: int| 0 <= i < items.len() && items[i].vault == after.unwrap().vault
        &&& after.unwrap().section is Unloaded
        &&& after.unwrap().warning is None
        &&& starts(r, o, delegate)
    } else {
        after == before && r is Nothing
    }
}

/// Which request a delegation or acknowledgement of `o` starts with.
pub open spec fn starts(r: Command, o: (Seq<char>, u32), delegate: bool) -> bool {
    if delegate {
        r is GetUnvaultTransaction && r->GetUnvaultTransaction_0@ == o
    } else {
        r is GetRevocationTransactions && r->GetRevocationTransactions_0@ == o
    }
}

/// How a selection request ended.
pub enum SelectOutcome {
    /// The vault was the selected one, and is no longer.
    Deselected,
    /// The vault is listed and now selected, with nothing loaded.
    Selected,
    /// The vault is not listed; the selection is unchanged.
    Ignored,
}

/// Selecting the selected vault again deselects it; selecting a listed
/// vault selects a copy of it.
pub fn select_vault(selected: &mut Option<Vault>, items: &Vec<VaultListItem>, o: &OutPoint) -> (r:
    SelectOutcome)
    requires
        selection_wf(*old(selected)),
    ensures
        selection_wf(*final(selected)),
        (*old(selected)) is Some && (*old(selected)).unwrap().outpoint_view() == o@ ==> {
            &&& r is Deselected
            &&& (*final(selected)) is None
        },
        !((*old(selected)) is Some && (*old(selected)).unwrap().outpoint_view() == o@) ==> if lists(
            items@,
            o@,
        ) {
            &&& r is Selected
            &&& (*final(selected)) is Some
            &&& (*final(selected)).unwrap().vault.outpoint_view() == o@
            &&& exists|i: int| 0 <= i < items@.len() && items@[i].vault == (*final(selected)).unwrap().vault
            &&& (*final(selected)).unwrap().section is Unloaded
            &&& (*final(selected)).unwrap().warning is None
        } else {
            &&& r is Ignored
            &&& *final(selected) == *old(selected)
        },
{
    if let Some(current) = &*selected {
        if current.vault.outpoint().equals(o) {
            *selected = None;
            return SelectOutcome::Deselected;
        }
    }
    match find_vault(items, o) {
        Some(i) => {
            *selected = Some(Vault::new(items[i].vault.duplicate()));
            SelectOutcome::Selected
        },
        None => SelectOutcome::Ignored,
    }
}

/// The vaults whose status is one of `statuses`, in order.
pub open spec fn filtered_in(vaults: Seq<model::Vault>, statuses: Seq<VaultStatus>) -> Seq<
    model::Vault,
>
    decreases vaults.len(),
{
    if vaults.len() == 0 {
        Seq::empty()
    } else if statuses.contains(vaults.last().status) {
        filtered_in(vaults.drop_last(), statuses).push(vaults.last())
    } else {
        filtered_in(vaults.drop_last(), statuses)
    }
}

/// Whether the status is one of `statuses`.
pub fn status_in(status: VaultStatus, statuses: &Vec<VaultStatus>) -> (r: bool)
    ensures
        r == statuses@.contains(status),
{
    let mut i: usize = 0;
    while i < statuses.len()
        invariant
            i <= statuses.len(),
            forall|k: int| 0 <= k < i ==> statuses@[k] != status,
        decreases statuses.len() - i,
    {
        if statuses[i] == status {
            return true;
        }
        i = i + 1;
    }
    false
}

/// List items for the vaults whose status is one of `statuses`, in order.
pub fn items_with_status(vaults: &Vec<model::Vault>, statuses: &Vec<VaultStatus>) -> (r: Vec<
    VaultListItem,
>)
    ensures
        item_vaults(r@) == filtered_in(vaults@, statuses@),
{
    let mut r: Vec<VaultListItem> = Vec::new();
    let mut i: usize = 0;
    while i < vaults.len()
        invariant
            i <= vaults.len(),
            item_vaults(r@) == filtered_in(vaults@.subrange(0, i as int), statuses@),
        decreases vaults.len() - i,
    {
        let ghost before = filtered_in(vaults@.subrange(0, i as int), statuses@);
        assert(vaults@.subrange(0, i + 1).drop_last() =~= vaults@.subrange(0, i as int));
        if status_in(vaults[i].status, statuses) {
            let ghost prev = r@;
            assert(item_vaults(prev).len() == prev.len());
            r.push(VaultListItem::new(vaults[i].duplicate()));
            let ghost after = before.push(vaults@[i as int]);
            assert(item_vaults(r@).len() == r@.len());
            assert forall|k: int| 0 <= k < r@.len() implies #[trigger] item_vaults(r@)[k]
                == after[k] by {
                if k < prev.len() {
                    assert(item_vaults(prev)[k] == before[k]);
                }
            }
            assert(item_vaults(r@) =~= after);
        }
        i = i + 1;
    }
    assert(vaults@.subrange(0, vaults@.len() as int) =~= vaults@);
    r
}

/// List items for all the vaults.
pub fn list_items(vaults: Vec<model::Vault>) -> (r: Vec<VaultListItem>)
    ensures
        item_vaults(r@) == vaults@,
{
    let mut r: Vec<VaultListItem> = Vec::new();
    let mut i: usize = 0;
    while i < vaults.len()
        invariant
            i <= vaults.len(),
            item_vaults(r@) == vaults@.subrange(0, i as int),
        decreases vaults.len() - i,
    {
        let ghost prev = r@;
        assert(item_vaults(prev).len() == prev.len());
        r.push(VaultListItem::new(vaults[i].duplicate()));
        assert(item_vaults(r@).len() == r@.len());
        assert forall|k: int| 0 <= k < i + 1 implies #[trigger] item_vaults(r@)[k]
            == vaults@.subrange(0, i + 1)[k] by {
            if k < i {
                assert(item_vaults(prev)[k] == vaults@.subrange(0, i as int)[k]);
            }
        }
        assert(item_vaults(r@) =~= vaults@.subrange(0, i + 1));
        i = i + 1;
    }
    assert(vaults@.subrange(0, vaults@.len() as int) =~= vaults@);
    r
}

/// A copy of a list of statuses.
pub fn copy_statuses(statuses: &Vec<VaultStatus>) -> (r: Vec<VaultStatus>)
    ensures
        r@ == statuses@,
{
    let mut r: Vec<VaultStatus> = Vec::new();
    let mut i: usize = 0;
    while i < statuses.len()
        invariant
            i <= statuses.len(),
            r@ == statuses@.subrange(0, i as int),
        decreases statuses.len() - i,
    {
        r.push(statuses[i]);
        assert(r@ =~= statuses@.subrange(0, i + 1));
        i = i + 1;
    }
    assert(statuses@.subrange(0, statuses@.len() as int) =~= statuses@);
    r
}

/// The vault list, filtered by status: changing the filter fetches the
/// vaults anew, as each status may need its own listing from the daemon.
pub struct VaultsState {
    pub blockheight: u64,
    pub vault_status_filter: Vec<VaultStatus>,
    pub vaults: Vec<VaultListItem>,
    pub selected_vault: Option<Vault>,
    pub warning: Option<Error>,
    /// True from a listing request until its answer.
    pub loading: bool,
}

impl VaultsState {
    pub open spec fn wf(&self) -> bool {
        selection_wf(self.selected_vault)
    }

    pub fn new() -> (r: VaultsState)
        ensures
            r.wf(),
            forall|s: VaultStatus| r.vault_status_filter@.contains(s) <==> model::is_current_status(s),
            r.vaults@.len() == 0,
            r.selected_vault is None,
            r.loading,
            r.warning is None,
    {
        VaultsState {
            blockheight: 0,
            vault_status_filter: VaultStatus::current(),
            vaults: Vec::new(),
            selected_vault: None,
            warning: None,
            loading: true,
        }
    }

    pub fn update_vaults(&mut self, vaults: Vec<model::Vault>)
        requires
            old(self).wf(),
        ensures
            final(self).wf(),
            item_vaults(final(self).vaults@) == vaults@,
            !final(self).loading,
            final(self).selected_vault == old(self).selected_vault,
            final(self).vault_status_filter == old(self).vault_status_filter,
            final(self).warning == old(self).warning,
    {
        self.vaults = list_items(vaults);
        self.loading = false;
    }

    pub fn on_vault_select(&mut self, outpoint: OutPoint) -> (r: Command)
        requires
            old(self).wf(),
        ensures
            final(self).wf(),
            toggled(old(self).selected_vault, final(self).selected_vault, old(self).vaults@, outpoint@),
            selection_answer(
                old(self).selected_vault,
                final(self).selected_vault,
                old(self).vaults@,
                outpoint@,
                r,
                false,
                false,
            ),
            final(self).vaults == old(self).vaults,
            old(self).selected_vault is Some && old(self).selected_vault.unwrap().outpoint_view()
                == outpoint@ ==> final(self).selected_vault is None && r is Nothing,
            !(old(self).selected_vault is Some && old(self).selected_vault.unwrap().outpoint_view()
                == outpoint@) ==> if lists(old(self).vaults@, outpoint@) {
                &&& final(self).selected_vault is Some
                &&& final(self).selected_vault.unwrap().vault.outpoint_view() == outpoint@
                &&& r is GetOnchainTransactions && r->GetOnchainTransactions_0@ == outpoint@
            } else {
                final(self).selected_vault == old(self).selected_vault && r is Nothing
            },
    {
        match select_vault(&mut self.selected_vault, &self.vaults, &outpoint) {
            SelectOutcome::Selected => match &self.selected_vault {
                Some(v) => v.load(),
                None => Command::Nothing,
            },
            _ => Command::Nothing,
        }
    }

    pub fn update(&mut self, message: Message) -> (r: Command)
        requires
            old(self).wf(),
        ensures
            final(self).wf(),
            message is BlockHeight ==> r is Nothing && match message->BlockHeight_0 {
                Ok(h) => final(self).blockheight == h,
                Err(e) => final(self).warning == Some(Error::RevaultDError(e))
                    && final(self).blockheight == old(self).blockheight,
            },
            message is Vault && !(message->Vault_0 is Select) && old(self).selected_vault is None
                ==> r is Nothing && final(self).selected_vault is None,
            message is Vault && message->Vault_0 is Select ==> toggled(
                old(self).selected_vault,
                final(self).selected_vault,
                old(self).vaults@,
                message->Vault_0->Select_0@,
            ),
            message is Vault && message->Vault_0 is Select ==> selection_answer(
                old(self).selected_vault,
                final(self).selected_vault,
                old(self).vaults@,
                message->Vault_0->Select_0@,
                r,
                false,
                false,
            ),
            message is Vault && !(message->Vault_0 is Select) ==> forwarded(
                old(self).selected_vault,
                final(self).selected_vault,
                message->Vault_0,
                r,
            ),
            message is FilterVaults ==> {
                &&& final(self).loading
                &&& final(self).vault_status_filter@ == message->FilterVaults_0@
                &&& r is ListVaults && r->ListVaults_0 is Some
                &&& r->ListVaults_0.unwrap()@ == message->FilterVaults_0@
                &&& final(self).vaults == old(self).vaults
                &&& final(self).selected_vault == old(self).selected_vault
            },
            message is Vaults ==> match message->Vaults_0 {
                Ok(v) => item_vaults(final(self).vaults@) == v@ && !final(self).loading,
                Err(e) => final(self).warning == Some(Error::RevaultDError(e))
                    && final(self).vaults == old(self).vaults,
            } && r is Nothing,
    {
        match message {
            Message::Vaults(res) => {
                match res {
                    Ok(vaults) => self.update_vaults(vaults),
                    Err(e) => self.warning = Some(Error::RevaultDError(e)),
                }
                Command::Nothing
            },
            Message::Vault(VaultMessage::Select(outpoint)) => self.on_vault_select(outpoint),
            Message::Vault(msg) => match &mut self.selected_vault {
                Some(vault) => vault.update(msg),
                None => Command::Nothing,
            },
            Message::FilterVaults(statuses) => {
                self.loading = true;
                self.vault_status_filter = statuses;
                Command::ListVaults(Some(copy_statuses(&self.vault_status_filter)))
            },
            Message::BlockHeight(res) => {
                match res {
                    Ok(height) => self.blockheight = height,
                    Err(e) => self.warning = Some(Error::RevaultDError(e)),
                }
                Command::Nothing
            },
            _ => Command::Nothing,
        }
    }

    /// The first requests: the block height, and the current vaults.
    pub fn load(&self) -> (r: Vec<Command>)
        ensures
            r@.len() == 2,
            r@[0] is GetBlockHeight,
            r@[1] is ListVaults && r@[1]->ListVaults_0 is Some,
            forall|s: VaultStatus| r@[1]->ListVaults_0.unwrap()@.contains(s)
                <==> model::is_current_status(s),
    {
        vec![Command::GetBlockHeight, Command::ListVaults(Some(VaultStatus::current()))]
    }
}

/// Whether a spend with the identity of `psbt` is listed.
pub open spec fn lists_spend(txs: Seq<SpendTx>, psbt: Seq<u8>) -> bool {
    exists|i: int| 0 <= i < txs.len() && crate::psbt::same_transaction(#[trigger] txs[i].psbt@, psbt)
}

/// The selected spend after a request to select `psbt`: selecting the
/// selected spend again deselects it; selecting a listed spend selects it;
/// anything else is ignored.
pub open spec fn spend_toggled(
    before: Option<Psbt>,
    after: Option<Psbt>,
    txs: Seq<SpendTx>,
    psbt: Seq<u8>,
) -> bool {
    if before is Some && crate::psbt::same_transaction(before.unwrap()@, psbt) {
        after is None
    } else if lists_spend(txs, psbt) {
        after is Some && after.unwrap()@ == psbt
    } else {
        after == before
    }
}

/// The manager's home: the two-bucket balance, the vaults being unvaulted,
/// and the spends being assembled.
pub struct ManagerHomeState {
    /// The active and the inactive balance.
    pub balance: (u64, u64),
    pub blockheight: u64,
    pub warning: Option<Error>,
    pub unvaulting_vaults: Vec<VaultListItem>,
    pub selected_vault: Option<Vault>,
    pub spend_txs: Vec<SpendTx>,
    pub selected_spend_tx: Option<Psbt>,
}

/// The statuses of vaults whose funds are leaving through an unvault.
pub open spec fn unvaulting_statuses() -> Seq<VaultStatus> {
    seq![VaultStatus::Unvaulting, VaultStatus::Unvaulted]
}

/// The statuses of vaults whose funds are moving.
pub open spec fn moving_statuses() -> Seq<VaultStatus> {
    seq![VaultStatus::Canceling, VaultStatus::Spending, VaultStatus::Unvaulting, VaultStatus::Unvaulted]
}

impl ManagerHomeState {
    pub open spec fn wf(&self) -> bool {
        selection_wf(self.selected_vault)
    }

    pub fn new() -> (r: ManagerHomeState)
        ensures
            r.wf(),
            r.balance == (0u64, 0u64),
            r.unvaulting_vaults@.len() == 0,
            r.selected_vault is None,
            r.spend_txs@.len() == 0,
            r.selected_spend_tx is None,
    {
        ManagerHomeState {
            balance: (0, 0),
            blockheight: 0,
            warning: None,
            unvaulting_vaults: Vec::new(),
            selected_vault: None,
            spend_txs: Vec::new(),
            selected_spend_tx: None,
        }
    }

    pub fn update_spend_txs(&mut self, txs: Vec<SpendTx>)
        ensures
            final(self).spend_txs == txs,
            final(self).balance == old(self).balance,
            final(self).selected_vault == old(self).selected_vault,
            final(self).selected_spend_tx == old(self).selected_spend_tx,
    {
        self.spend_txs = txs;
    }

    /// Selecting the selected spend again deselects it; selecting a listed
    /// spend selects it; anything else is ignored.
    pub fn on_spend_tx_select(&mut self, psbt: Psbt) -> (r: Command)
        ensures
            r is Nothing,
            final(self).spend_txs == old(self).spend_txs,
            final(self).selected_vault == old(self).selected_vault,
            spend_toggled(
                old(self).selected_spend_tx,
                final(self).selected_spend_tx,
                old(self).spend_txs@,
                psbt@,
            ),
            old(self).selected_spend_tx is Some && crate::psbt::same_transaction(
                old(self).selected_spend_tx.unwrap()@,
                psbt@,
            ) ==> final(self).selected_spend_tx is None,
            !(old(self).selected_spend_tx is Some && crate::psbt::same_transaction(
                old(self).selected_spend_tx.unwrap()@,
                psbt@,
            )) ==> if exists|i: int|
                0 <= i < old(self).spend_txs@.len() && crate::psbt::same_transaction(
                    #[trigger] old(self).spend_txs@[i].psbt@,
                    psbt@,
                ) {
                final(self).selected_spend_tx is Some && final(self).selected_spend_tx.unwrap()@
                    == psbt@
            } else {
                final(self).selected_spend_tx == old(self).selected_spend_tx
            },
    {
        if let Some(selected) = &self.selected_spend_tx {
            if selected.same_transaction(&psbt) {
                self.selected_spend_tx = None;
                return Command::Nothing;
            }
        }
        let mut i: usize = 0;
        while i < self.spend_txs.len()
            invariant
                i <= self.spend_txs.len(),
                *self == *old(self),
                !(old(self).selected_spend_tx is Some && crate::psbt::same_transaction(
                    old(self).selected_spend_tx.unwrap()@,
                    psbt@,
                )),
                forall|k: int| 0 <= k < i ==> !crate::psbt::same_transaction(
                    #[trigger] self.spend_txs@[k].psbt@,
                    psbt@,
                ),
            decreases self.spend_txs.len() - i,
        {
            if self.spend_txs[i].psbt.same_transaction(&psbt) {
                self.selected_spend_tx = Some(psbt);
                return Command::Nothing;
            }
            i = i + 1;
        }
        Command::Nothing
    }

    /// Sets both buckets of the balance from the vaults.
    pub fn calculate_balance(&mut self, vaults: &[model::Vault])
        requires
            total_amount(vaults@) <= u64::MAX,
        ensures
            final(self).balance.0 == model::amount_in(vaults@, model::active_statuses()),
            final(self).balance.1 == model::amount_in(vaults@, model::inactive_statuses()),
            final(self).unvaulting_vaults == old(self).unvaulting_vaults,
            final(self).selected_vault == old(self).selected_vault,
            final(self).blockheight == old(self).blockheight,
            final(self).warning == old(self).warning,
            final(self).spend_txs == old(self).spend_txs,
            final(self).selected_spend_tx == old(self).selected_spend_tx,
    {
        self.balance = model::active_inactive_balance(vaults);
    }

    pub fn update_vaults(&mut self, vaults: Vec<model::Vault>)
        requires
            old(self).wf(),
            total_amount(vaults@) <= u64::MAX,
        ensures
            final(self).wf(),
            final(self).balance.0 == model::amount_in(vaults@, model::active_statuses()),
            final(self).balance.1 == model::amount_in(vaults@, model::inactive_statuses()),
            item_vaults(final(self).unvaulting_vaults@) == filtered_in(vaults@, unvaulting_statuses()),
            final(self).selected_vault == old(self).selected_vault,
    {
        self.calculate_balance(vaults.as_slice());
        let statuses = vec![VaultStatus::Unvaulting, VaultStatus::Unvaulted];
        assert(statuses@ == unvaulting_statuses());
        self.unvaulting_vaults = items_with_status(&vaults, &statuses);
    }

    pub fn on_vault_select(&mut self, outpoint: OutPoint) -> (r: Command)
        requires
            old(self).wf(),
        ensures
            final(self).wf(),
            toggled(old(self).selected_vault, final(self).selected_vault, old(self).unvaulting_vaults@, outpoint@),
            selection_answer(
                old(self).selected_vault,
                final(self).selected_vault,
                old(self).unvaulting_vaults@,
                outpoint@,
                r,
                false,
                false,
            ),
            final(self).unvaulting_vaults == old(self).unvaulting_vaults,
            old(self).selected_vault is Some && old(self).selected_vault.unwrap().outpoint_view()
                == outpoint@ ==> final(self).selected_vault is None && r is Nothing,
            !(old(self).selected_vault is Some && old(self).selected_vault.unwrap().outpoint_view()
                == outpoint@) ==> if lists(old(self).unvaulting_vaults@, outpoint@) {
                &&& final(self).selected_vault is Some
                &&& final(self).selected_vault.unwrap().vault.outpoint_view() == outpoint@
                &&& r is GetOnchainTransactions && r->GetOnchainTransactions_0@ == outpoint@
            } else {
                final(self).selected_vault == old(self).selected_vault && r is Nothing
            },
    {
        match select_vault(&mut self.selected_vault, &self.unvaulting_vaults, &outpoint) {
            SelectOutcome::Selected => match &self.selected_vault {
                Some(v) => v.load(),
                None => Command::Nothing,
            },
            _ => Command::Nothing,
        }
    }

    pub fn update(&mut self, message: Message) -> (r: Command)
        requires
            old(self).wf(),
        ensures
            final(self).wf(),
            message is SelectSpendTx ==> r is Nothing && spend_toggled(
                old(self).selected_spend_tx,
                final(self).selected_spend_tx,
                old(self).spend_txs@,
                message->SelectSpendTx_0@,
            ) && final(self).spend_txs == old(self).spend_txs,
            message is SpendTransactions ==> r is Nothing && match message->SpendTransactions_0 {
                Ok(txs) => final(self).spend_txs == txs
                    && final(self).selected_spend_tx == old(self).selected_spend_tx,
                Err(e) => final(self).warning == Some(Error::RevaultDError(e))
                    && final(self).spend_txs == old(self).spend_txs,
            },
            message is BlockHeight ==> r is Nothing && match message->BlockHeight_0 {
                Ok(h) => final(self).blockheight == h,
                Err(e) => final(self).warning == Some(Error::RevaultDError(e))
                    && final(self).blockheight == old(self).blockheight,
            },
            message is Vault && !(message->Vault_0 is Select) && old(self).selected_vault is None
                ==> r is Nothing && final(self).selected_vault is None,
            message is Vault && message->Vault_0 is Select ==> toggled(
                old(self).selected_vault,
                final(self).selected_vault,
                old(self).unvaulting_vaults@,
                message->Vault_0->Select_0@,
            ),
            message is Vault && message->Vault_0 is Select ==> selection_answer(
                old(self).selected_vault,
                final(self).selected_vault,
                old(self).unvaulting_vaults@,
                message->Vault_0->Select_0@,
                r,
                false,
                false,
            ),
            message is Vault && !(message->Vault_0 is Select) ==> forwarded(
                old(self).selected_vault,
                final(self).selected_vault,
                message->Vault_0,
                r,
            ),
            message is Vaults ==> r is Nothing && match message->Vaults_0 {
                Ok(v) => if total_amount(v@) <= u64::MAX {
                    &&& final(self).balance.0 == model::amount_in(v@, model::active_statuses())
                    &&& final(self).balance.1 == model::amount_in(v@, model::inactive_statuses())
                    &&& item_vaults(final(self).unvaulting_vaults@) == filtered_in(
                        v@,
                        unvaulting_statuses(),
                    )
                } else {
                    final(self).warning == Some(Error::AmountOverflow) && final(self).balance
                        == old(self).balance
                },
                Err(e) => final(self).warning == Some(Error::RevaultDError(e)),
            },
    {
        match message {
            Message::SelectSpendTx(psbt) => self.on_spend_tx_select(psbt),
            Message::SpendTransactions(res) => {
                match res {
                    Ok(txs) => self.update_spend_txs(txs),
                    Err(e) => self.warning = Some(Error::RevaultDError(e)),
                }
                Command::Nothing
            },
            Message::Vaults(res) => {
                match res {
                    Ok(vaults) => {
                        if model::amounts_fit(vaults.as_slice()) {
                            self.update_vaults(vaults);
                        } else {
                            self.warning = Some(Error::AmountOverflow);
                        }
                    },
                    Err(e) => self.warning = Some(Error::RevaultDError(e)),
                }
                Command::Nothing
            },
            Message::Vault(VaultMessage::Select(outpoint)) => self.on_vault_select(outpoint),
            Message::Vault(msg) => match &mut self.selected_vault {
                Some(vault) => vault.update(msg),
                None => Command::Nothing,
            },
            Message::BlockHeight(res) => {
                match res {
                    Ok(height) => self.blockheight = height,
                    Err(e) => self.warning = Some(Error::RevaultDError(e)),
                }
                Command::Nothing
            },
            Message::FilterVaults(_) => Command::Nothing,
        }
    }

    /// The first requests: the block height, all vaults, and the spends.
    pub fn load(&self) -> (r: Vec<Command>)
        ensures
            r@.len() == 3,
            r@[0] is GetBlockHeight,
            r@[1] is ListVaults && r@[1]->ListVaults_0 is None,
            r@[2] is ListSpendTransactions,
    {
        vec![Command::GetBlockHeight, Command::ListVaults(None), Command::ListSpendTransactions]
    }
}

/// The stakeholder's home: the balance per status, and the vaults whose
/// funds are moving.
pub struct StakeholderHomeState {
    pub warning: Option<Error>,
    /// Per status: the number of vaults and the sum of their amounts.
    pub balance: Vec<(VaultStatus, u64, u64)>,
    pub moving_vaults: Vec<VaultListItem>,
    pub selected_vault: Option<Vault>,
}

impl StakeholderHomeState {
    pub open spec fn wf(&self) -> bool {
        selection_wf(self.selected_vault)
    }

    pub fn new() -> (r: StakeholderHomeState)
        ensures
            r.wf(),
            r.balance@.len() == 0,
            r.moving_vaults@.len() == 0,
            r.selected_vault is None,
    {
        StakeholderHomeState {
            warning: None,
            balance: Vec::new(),
            moving_vaults: Vec::new(),
            selected_vault: None,
        }
    }

    pub fn calculate_balance(&mut self, vaults: &[model::Vault])
        requires
            total_amount(vaults@) <= u64::MAX,
        ensures
            model::is_status_balance(final(self).balance@, vaults@),
            final(self).moving_vaults == old(self).moving_vaults,
            final(self).selected_vault == old(self).selected_vault,
    {
        self.balance = model::balance_by_status(vaults);
    }

    pub fn update_vaults(&mut self, vaults: Vec<model::Vault>)
        requires
            old(self).wf(),
            total_amount(vaults@) <= u64::MAX,
        ensures
            final(self).wf(),
            model::is_status_balance(final(self).balance@, vaults@),
            item_vaults(final(self).moving_vaults@) == filtered_in(vaults@, moving_statuses()),
            final(self).selected_vault == old(self).selected_vault,
    {
        self.calculate_balance(vaults.as_slice());
        let statuses = vec![
            VaultStatus::Canceling,
            VaultStatus::Spending,
            VaultStatus::Unvaulting,
            VaultStatus::Unvaulted,
        ];
        assert(statuses@ == moving_statuses());
        self.moving_vaults = items_with_status(&vaults, &statuses);
    }

    pub fn on_vault_select(&mut self, outpoint: OutPoint) -> (r: Command)
        requires
            old(self).wf(),
        ensures
            final(self).wf(),
            toggled(old(self).selected_vault, final(self).selected_vault, old(self).moving_vaults@, outpoint@),
            selection_answer(
                old(self).selected_vault,
                final(self).selected_vault,
                old(self).moving_vaults@,
                outpoint@,
                r,
                false,
                false,
            ),
            final(self).moving_vaults == old(self).moving_vaults,
            old(self).selected_vault is Some && old(self).selected_vault.unwrap().outpoint_view()
                == outpoint@ ==> final(self).selected_vault is None && r is Nothing,
            !(old(self).selected_vault is Some && old(self).selected_vault.unwrap().outpoint_view()
                == outpoint@) ==> if lists(old(self).moving_vaults@, outpoint@) {
                &&& final(self).selected_vault is Some
                &&& final(self).selected_vault.unwrap().vault.outpoint_view() == outpoint@
                &&& r is GetOnchainTransactions && r->GetOnchainTransactions_0@ == outpoint@
            } else {
                final(self).selected_vault == old(self).selected_vault && r is Nothing
            },
    {
        match select_vault(&mut self.selected_vault, &self.moving_vaults, &outpoint) {
            SelectOutcome::Selected => match &self.selected_vault {
                Some(v) => v.load(),
                None => Command::Nothing,
            },
            _ => Command::Nothing,
        }
    }

    pub fn update(&mut self, message: Message) -> (r: Command)
        requires
            old(self).wf(),
        ensures
            final(self).wf(),
            message is Vault && message->Vault_0 is Select ==> toggled(
                old(self).selected_vault,
                final(self).selected_vault,
                old(self).moving_vaults@,
                message->Vault_0->Select_0@,
            ),
            message is Vault && message->Vault_0 is Select ==> selection_answer(
                old(self).selected_vault,
                final(self).selected_vault,
                old(self).moving_vaults@,
                message->Vault_0->Select_0@,
                r,
                false,
                false,
            ),
            message is Vault && !(message->Vault_0 is Select) ==> forwarded(
                old(self).selected_vault,
                final(self).selected_vault,
                message->Vault_0,
                r,
            ),
            message is Vaults ==> r is Nothing && match message->Vaults_0 {
                Ok(v) => if total_amount(v@) <= u64::MAX {
                    &&& model::is_status_balance(final(self).balance@, v@)
                    &&& item_vaults(final(self).moving_vaults@) == filtered_in(v@, moving_statuses())
                } else {
                    final(self).warning == Some(Error::AmountOverflow)
                },
                Err(e) => final(self).warning == Some(Error::RevaultDError(e)),
            },
    {
        match message {
            Message::Vaults(res) => {
                match res {
                    Ok(vaults) => {
                        if model::amounts_fit(vaults.as_slice()) {
                            self.update_vaults(vaults);
                        } else {
                            self.warning = Some(Error::AmountOverflow);
                        }
                    },
                    Err(e) => self.warning = Some(Error::RevaultDError(e)),
                }
                Command::Nothing
            },
            Message::Vault(VaultMessage::Select(outpoint)) => self.on_vault_select(outpoint),
            Message::Vault(msg) => match &mut self.selected_vault {
                Some(vault) => vault.update(msg),
                None => Command::Nothing,
            },
            _ => Command::Nothing,
        }
    }

    /// The first requests: the block height and all vaults.
    pub fn load(&self) -> (r: Vec<Command>)
        ensures
            r@.len() == 2,
            r@[0] is GetBlockHeight,
            r@[1] is ListVaults && r@[1]->ListVaults_0 is None,
    {
        vec![Command::GetBlockHeight, Command::ListVaults(None)]
    }
}

/// The stakeholder's list of deposits to acknowledge: selecting one fetches
/// its revocation transactions.
pub struct StakeholderACKFundsState {
    pub warning: Option<Error>,
    /// The sum of the amounts of the funded vaults.
    pub balance: u64,
    pub deposits: Vec<VaultListItem>,
    pub selected_vault: Option<Vault>,
}

impl StakeholderACKFundsState {
    pub open spec fn wf(&self) -> bool {
        selection_wf(self.selected_vault)
    }

    pub fn new() -> (r: StakeholderACKFundsState)
        ensures
            r.wf(),
            r.balance == 0,
            r.deposits@.len() == 0,
            r.selected_vault is None,
    {
        StakeholderACKFundsState {
            warning: None,
            balance: 0,
            deposits: Vec::new(),
            selected_vault: None,
        }
    }

    /// The listing of the vaults that may be acknowledged.
    pub fn load(&self) -> (r: Command)
        ensures
            r is ListVaults && r->ListVaults_0 is Some,
            r->ListVaults_0.unwrap()@ == seq![VaultStatus::Securing, VaultStatus::Funded],
    {
        Command::ListVaults(Some(vec![VaultStatus::Securing, VaultStatus::Funded]))
    }

    /// Selecting the selected deposit again deselects it and lists the
    /// deposits anew; selecting a listed deposit fetches its revocation
    /// transactions.
    pub fn on_vault_select(&mut self, outpoint: OutPoint) -> (r: Command)
        requires
            old(self).wf(),
        ensures
            final(self).wf(),
            toggled(old(self).selected_vault, final(self).selected_vault, old(self).deposits@, outpoint@),
            selection_answer(
                old(self).selected_vault,
                final(self).selected_vault,
                old(self).deposits@,
                outpoint@,
                r,
                true,
                true,
            ),
            final(self).deposits == old(self).deposits,
            old(self).selected_vault is Some && old(self).selected_vault.unwrap().outpoint_view()
                == outpoint@ ==> final(self).selected_vault is None && r is ListVaults,
            !(old(self).selected_vault is Some && old(self).selected_vault.unwrap().outpoint_view()
                == outpoint@) ==> if lists(old(self).deposits@, outpoint@) {
                &&& final(self).selected_vault is Some
                &&& final(self).selected_vault.unwrap().vault.outpoint_view() == outpoint@
                &&& r is GetRevocationTransactions && r->GetRevocationTransactions_0@ == outpoint@
            } else {
                final(self).selected_vault == old(self).selected_vault && r is Nothing
            },
    {
        match select_vault(&mut self.selected_vault, &self.deposits, &outpoint) {
            SelectOutcome::Deselected => self.load(),
            SelectOutcome::Selected => Command::GetRevocationTransactions(outpoint),
            SelectOutcome::Ignored => Command::Nothing,
        }
    }

    pub fn calculate_balance(&mut self, vaults: &[model::Vault])
        requires
            total_amount(vaults@) <= u64::MAX,
        ensures
            final(self).balance == model::amount_in(vaults@, set![VaultStatus::Funded]),
            final(self).deposits == old(self).deposits,
            final(self).selected_vault == old(self).selected_vault,
    {
        self.balance = model::balance_of_status(vaults, VaultStatus::Funded);
    }

    pub fn update_deposits(&mut self, vaults: Vec<model::Vault>)
        requires
            old(self).wf(),
            total_amount(vaults@) <= u64::MAX,
        ensures
            final(self).wf(),
            final(self).balance == model::amount_in(vaults@, set![VaultStatus::Funded]),
            item_vaults(final(self).deposits@) == vaults@,
            final(self).selected_vault == old(self).selected_vault,
    {
        self.calculate_balance(vaults.as_slice());
        self.deposits = list_items(vaults);
    }

    pub fn update(&mut self, message: Message) -> (r: Command)
        requires
            old(self).wf(),
        ensures
            final(self).wf(),
            message is Vault && message->Vault_0 is Select ==> toggled(
                old(self).selected_vault,
                final(self).selected_vault,
                old(self).deposits@,
                message->Vault_0->Select_0@,
            ),
            message is Vault && message->Vault_0 is Select ==> selection_answer(
                old(self).selected_vault,
                final(self).selected_vault,
                old(self).deposits@,
                message->Vault_0->Select_0@,
                r,
                true,
                true,
            ),
            message is Vault && !(message->Vault_0 is Select) ==> forwarded(
                old(self).selected_vault,
                final(self).selected_vault,
                message->Vault_0,
                r,
            ),
            message is Vaults ==> r is Nothing && match message->Vaults_0 {
                Ok(v) => if total_amount(v@) <= u64::MAX {
                    &&& final(self).balance == model::amount_in(v@, set![VaultStatus::Funded])
                    &&& item_vaults(final(self).deposits@) == v@
                } else {
                    final(self).warning == Some(Error::AmountOverflow)
                },
                Err(e) => final(self).warning == Some(Error::RevaultDError(e)),
            },
    {
        match message {
            Message::Vault(VaultMessage::Select(outpoint)) => self.on_vault_select(outpoint),
            Message::Vault(msg) => match &mut self.selected_vault {
                Some(vault) => vault.update(msg),
                None => Command::Nothing,
            },
            Message::Vaults(res) => {
                match res {
                    Ok(vaults) => {
                        if model::amounts_fit(vaults.as_slice()) {
                            self.update_deposits(vaults);
                        } else {
                            self.warning = Some(Error::AmountOverflow);
                        }
                    },
                    Err(e) => self.warning = Some(Error::RevaultDError(e)),
                }
                Command::Nothing
            },
            _ => Command::Nothing,
        }
    }
}

/// The stakeholder's list of vaults to delegate: the active balance, the
/// vaults, and the statuses shown.
pub struct StakeholderDelegateFundsState {
    pub active_balance: u64,
    pub vault_status_filter: Vec<VaultStatus>,
    pub vaults: Vec<VaultListItem>,
    pub selected_vault: Option<Vault>,
    pub warning: Option<Error>,
}

impl StakeholderDelegateFundsState {
    pub open spec fn wf(&self) -> bool {
        selection_wf(self.selected_vault)
    }

    pub fn new() -> (r: StakeholderDelegateFundsState)
        ensures
            r.wf(),
            r.active_balance == 0,
            forall|s: VaultStatus| r.vault_status_filter@.contains(s) <==> is_undelegated_status(s),
            r.vaults@.len() == 0,
            r.selected_vault is None,
    {
        StakeholderDelegateFundsState {
            active_balance: 0,
            vault_status_filter: VaultStatus::inactive(),
            vaults: Vec::new(),
            selected_vault: None,
            warning: None,
        }
    }

    /// The listing of the vaults that may be delegated, or are.
    pub fn load(&self) -> (r: Command)
        ensures
            r is ListVaults && r->ListVaults_0 is Some,
            r->ListVaults_0.unwrap()@ == seq![
                VaultStatus::Funded,
                VaultStatus::Securing,
                VaultStatus::Secured,
                VaultStatus::Activating,
                VaultStatus::Active,
            ],
    {
        Command::ListVaults(
            Some(
                vec![
                    VaultStatus::Funded,
                    VaultStatus::Securing,
                    VaultStatus::Secured,
                    VaultStatus::Activating,
                    VaultStatus::Active,
                ],
            ),
        )
    }

    pub fn calculate_balance(&mut self, vaults: &[model::Vault])
        requires
            total_amount(vaults@) <= u64::MAX,
        ensures
            final(self).active_balance == model::amount_in(vaults@, model::active_statuses()),
            final(self).vaults == old(self).vaults,
            final(self).selected_vault == old(self).selected_vault,
            final(self).vault_status_filter == old(self).vault_status_filter,
    {
        self.active_balance = model::active_inactive_balance(vaults).0;
    }

    pub fn update_vaults(&mut self, vaults: Vec<model::Vault>)
        requires
            old(self).wf(),
            total_amount(vaults@) <= u64::MAX,
        ensures
            final(self).wf(),
            final(self).active_balance == model::amount_in(vaults@, model::active_statuses()),
            item_vaults(final(self).vaults@) == vaults@,
            final(self).selected_vault == old(self).selected_vault,
            final(self).vault_status_filter == old(self).vault_status_filter,
    {
        self.calculate_balance(vaults.as_slice());
        self.vaults = list_items(vaults);
    }

    /// Selecting the selected vault again deselects it and lists the vaults
    /// anew; selecting a listed vault loads it.
    pub fn on_vault_select(&mut self, outpoint: OutPoint) -> (r: Command)
        requires
            old(self).wf(),
        ensures
            final(self).wf(),
            toggled(old(self).selected_vault, final(self).selected_vault, old(self).vaults@, outpoint@),
            selection_answer(
                old(self).selected_vault,
                final(self).selected_vault,
                old(self).vaults@,
                outpoint@,
                r,
                true,
                false,
            ),
            final(self).vaults == old(self).vaults,
            old(self).selected_vault is Some && old(self).selected_vault.unwrap().outpoint_view()
                == outpoint@ ==> final(self).selected_vault is None && r is ListVaults,
            !(old(self).selected_vault is Some && old(self).selected_vault.unwrap().outpoint_view()
                == outpoint@) ==> if lists(old(self).vaults@, outpoint@) {
                &&& final(self).selected_vault is Some
                &&& final(self).selected_vault.unwrap().vault.outpoint_view() == outpoint@
                &&& r is GetOnchainTransactions && r->GetOnchainTransactions_0@ == outpoint@
            } else {
                final(self).selected_vault == old(self).selected_vault && r is Nothing
            },
    {
        match select_vault(&mut self.selected_vault, &self.vaults, &outpoint) {
            SelectOutcome::Deselected => self.load(),
            SelectOutcome::Selected => match &self.selected_vault {
                Some(v) => v.load(),
                None => Command::Nothing,
            },
            SelectOutcome::Ignored => Command::Nothing,
        }
    }

    /// Starts the delegation (`delegate`) or the acknowledgement of the
    /// vault: on the selected vault if it is this one, else on a fresh
    /// selection of it if it is listed.
    fn start(&mut self, outpoint: OutPoint, delegate: bool) -> (r: Command)
        requires
            old(self).wf(),
        ensures
            final(self).wf(),
            started(
                old(self).selected_vault,
                final(self).selected_vault,
                old(self).vaults@,
                outpoint@,
                r,
                delegate,
            ),
            final(self).vaults == old(self).vaults,
            old(self).selected_vault is Some && old(self).selected_vault.unwrap().outpoint_view()
                == outpoint@ ==> final(self).selected_vault == old(self).selected_vault && starts(
                r,
                outpoint@,
                delegate,
            ),
            !(old(self).selected_vault is Some && old(self).selected_vault.unwrap().outpoint_view()
                == outpoint@) ==> if lists(old(self).vaults@, outpoint@) {
                &&& final(self).selected_vault is Some
                &&& final(self).selected_vault.unwrap().vault.outpoint_view() == outpoint@
                &&& final(self).selected_vault.unwrap().section is Unloaded
                &&& starts(r, outpoint@, delegate)
            } else {
                final(self).selected_vault == old(self).selected_vault && r is Nothing
            },
    {
        let message = if delegate {
            VaultMessage::Delegate(outpoint.duplicate())
        } else {
            VaultMessage::Acknowledge(outpoint.duplicate())
        };
        if let Some(selected) = &mut self.selected_vault {
            if selected.vault.outpoint().equals(&outpoint) {
                return selected.update(message);
            }
        }
        match find_vault(&self.vaults, &outpoint) {
            Some(i) => {
                let mut selected = Vault::new(self.vaults[i].vault.duplicate());
                let cmd = selected.update(message);
                self.selected_vault = Some(selected);
                cmd
            },
            None => Command::Nothing,
        }
    }

    pub fn on_vault_delegate(&mut self, outpoint: OutPoint) -> (r: Command)
        requires
            old(self).wf(),
        ensures
            final(self).wf(),
            started(
                old(self).selected_vault,
                final(self).selected_vault,
                old(self).vaults@,
                outpoint@,
                r,
                true,
            ),
            old(self).selected_vault is Some && old(self).selected_vault.unwrap().outpoint_view()
                == outpoint@ ==> final(self).selected_vault == old(self).selected_vault && starts(
                r,
                outpoint@,
                true,
            ),
            !(old(self).selected_vault is Some && old(self).selected_vault.unwrap().outpoint_view()
                == outpoint@) ==> if lists(old(self).vaults@, outpoint@) {
                &&& final(self).selected_vault is Some
                &&& final(self).selected_vault.unwrap().vault.outpoint_view() == outpoint@
                &&& starts(r, outpoint@, true)
            } else {
                final(self).selected_vault == old(self).selected_vault && r is Nothing
            },
    {
        self.start(outpoint, true)
    }

    pub fn on_vault_acknowledge(&mut self, outpoint: OutPoint) -> (r: Command)
        requires
            old(self).wf(),
        ensures
            final(self).wf(),
            started(
                old(self).selected_vault,
                final(self).selected_vault,
                old(self).vaults@,
                outpoint@,
                r,
                false,
            ),
            old(self).selected_vault is Some && old(self).selected_vault.unwrap().outpoint_view()
                == outpoint@ ==> final(self).selected_vault == old(self).selected_vault && starts(
                r,
                outpoint@,
                false,
            ),
            !(old(self).selected_vault is Some && old(self).selected_vault.unwrap().outpoint_view()
                == outpoint@) ==> if lists(old(self).vaults@, outpoint@) {
                &&& final(self).selected_vault is Some
                &&& final(self).selected_vault.unwrap().vault.outpoint_view() == outpoint@
                &&& starts(r, outpoint@, false)
            } else {
                final(self).selected_vault == old(self).selected_vault && r is Nothing
            },
    {
        self.start(outpoint, false)
    }

    pub fn update(&mut self, message: Message) -> (r: Command)
        requires
            old(self).wf(),
        ensures
            final(self).wf(),
            message is Vault && message->Vault_0 is Delegate ==> started(
                old(self).selected_vault,
                final(self).selected_vault,
                old(self).vaults@,
                message->Vault_0->Delegate_0@,
                r,
                true,
            ),
            message is Vault && message->Vault_0 is Acknowledge ==> started(
                old(self).selected_vault,
                final(self).selected_vault,
                old(self).vaults@,
                message->Vault_0->Acknowledge_0@,
                r,
                false,
            ),
            message is Vault && message->Vault_0 is Select ==> toggled(
                old(self).selected_vault,
                final(self).selected_vault,
                old(self).vaults@,
                message->Vault_0->Select_0@,
            ),
            message is Vault && message->Vault_0 is Select ==> selection_answer(
                old(self).selected_vault,
                final(self).selected_vault,
                old(self).vaults@,
                message->Vault_0->Select_0@,
                r,
                true,
                false,
            ),
            message is Vault && !(message->Vault_0 is Select) && !(message->Vault_0 is Delegate)
                && !(message->Vault_0 is Acknowledge) ==> forwarded(
                old(self).selected_vault,
                final(self).selected_vault,
                message->Vault_0,
                r,
            ),
            message is FilterVaults ==> final(self).vault_status_filter@ == message->FilterVaults_0@
                && r is Nothing,
            message is Vaults ==> r is Nothing && match message->Vaults_0 {
                Ok(v) => if total_amount(v@) <= u64::MAX {
                    &&& final(self).active_balance == model::amount_in(v@, model::active_statuses())
                    &&& item_vaults(final(self).vaults@) == v@
                } else {
                    final(self).warning == Some(Error::AmountOverflow)
                },
                Err(e) => final(self).warning == Some(Error::RevaultDError(e)),
            },
    {
        match message {
            Message::Vaults(res) => {
                match res {
                    Ok(vaults) => {
                        if model::amounts_fit(vaults.as_slice()) {
                            self.update_vaults(vaults);
                        } else {
                            self.warning = Some(Error::AmountOverflow);
                        }
                    },
                    Err(e) => self.warning = Some(Error::RevaultDError(e)),
                }
                Command::Nothing
            },
            Message::Vault(msg) => match msg {
                VaultMessage::Select(outpoint) => self.on_vault_select(outpoint),
                VaultMessage::Acknowledge(outpoint) => self.on_vault_acknowledge(outpoint),
                VaultMessage::Delegate(outpoint) => self.on_vault_delegate(outpoint),
                _ => match &mut self.selected_vault {
                    Some(vault) => vault.update(msg),
                    None => Command::Nothing,
                },
            },
            Message::FilterVaults(statuses) => {
                self.vault_status_filter = statuses;
                Command::Nothing
            },
            _ => Command::Nothing,
        }
    }
}

/// The manager's view of the network: the block height.
pub struct ManagerNetworkState {
    pub blockheight: Option<u64>,
    pub warning: Option<Error>,
}

impl ManagerNetworkState {
    pub fn new() -> (r: ManagerNetworkState)
        ensures
            r.blockheight is None,
            r.warning is None,
    {
        ManagerNetworkState { blockheight: None, warning: None }
    }

    pub fn update(&mut self, message: Message) -> (r: Command)
        ensures
            r is Nothing,
            match message {
                Message::BlockHeight(Ok(h)) => final(self).blockheight == Some(h)
                    && final(self).warning == old(self).warning,
                Message::BlockHeight(Err(e)) => final(self).warning == Some(Error::RevaultDError(e))
                    && final(self).blockheight == old(self).blockheight,
                _ => *final(self) == *old(self),
            },
    {
        if let Message::BlockHeight(res) = message {
            match res {
                Ok(height) => self.blockheight = Some(height),
                Err(e) => self.warning = Some(Error::RevaultDError(e)),
            }
        }
        Command::Nothing
    }

    pub fn load(&self) -> (r: Command)
        ensures
            r is GetBlockHeight,
    {
        Command::GetBlockHeight
    }
}

/// The stakeholder's view of the network: the block height.
pub struct StakeholderNetworkState {
    pub blockheight: Option<u64>,
    pub warning: Option<Error>,
}

impl StakeholderNetworkState {
    pub fn new() -> (r: StakeholderNetworkState)
        ensures
            r.blockheight is None,
            r.warning is None,
    {
        StakeholderNetworkState { blockheight: None, warning: None }
    }

    pub fn update(&mut self, message: Message) -> (r: Command)
        ensures
            r is Nothing,
            match message {
                Message::BlockHeight(Ok(h)) => final(self).blockheight == Some(h)
                    && final(self).warning == old(self).warning,
                Message::BlockHeight(Err(e)) => final(self).warning == Some(Error::RevaultDError(e))
                    && final(self).blockheight == old(self).blockheight,
                _ => *final(self) == *old(self),
            },
    {
        if let Message::BlockHeight(res) = message {
            match res {
                Ok(height) => self.blockheight = Some(height),
                Err(e) => self.warning = Some(Error::RevaultDError(e)),
            }
        }
        Command::Nothing
    }

    pub fn load(&self) -> (r: Command)
        ensures
            r is GetBlockHeight,
    {
        Command::GetBlockHeight
    }
}

} // verus!
