//! What the wallet daemon reports about vaults, and the sums over them.

use vstd::prelude::*;
use crate::psbt::Psbt;

verus! {

/// The status of a vault, as the daemon reports it.
#[derive(PartialEq, Eq, Structural, Clone, Copy, Debug, Hash)]
pub enum VaultStatus {
    Unconfirmed,
    Funded,
    Securing,
    Secured,
    Activating,
    Active,
    Unvaulting,
    Unvaulted,
    Canceling,
    Canceled,
    EmergencyVaulting,
    EmergencyVaulted,
    Spendable,
    Spending,
    Spent,
}

/// The statuses whose funds count as active: delegated, or on their way out.
pub open spec fn is_active_status(s: VaultStatus) -> bool {
    s == VaultStatus::Active || s == VaultStatus::Unvaulting || s == VaultStatus::Unvaulted
}

/// The statuses whose funds count as inactive: deposited, not yet delegated.
pub open spec fn is_inactive_status(s: VaultStatus) -> bool {
    s == VaultStatus::Secured || s == VaultStatus::Funded || s == VaultStatus::Unconfirmed
}

/// The statuses that a per-status balance leaves out.
pub open spec fn is_excluded_from_balance(s: VaultStatus) -> bool {
    s == VaultStatus::Unconfirmed || s == VaultStatus::Spent || s == VaultStatus::Spending
}

/// The statuses of vaults that still hold funds under the protocol.
pub open spec fn is_current_status(s: VaultStatus) -> bool {
    s != VaultStatus::Canceled && s != VaultStatus::EmergencyVaulted && s != VaultStatus::Spent
}

/// The statuses of vaults deposited but not yet delegated.
pub open spec fn is_undelegated_status(s: VaultStatus) -> bool {
    s == VaultStatus::Funded || s == VaultStatus::Securing || s == VaultStatus::Secured
        || s == VaultStatus::Activating
}

impl VaultStatus {
    pub fn is_active(&self) -> (r: bool)
        ensures
            r == is_active_status(*self),
    {
        match self {
            VaultStatus::Active | VaultStatus::Unvaulting | VaultStatus::Unvaulted => true,
            _ => false,
        }
    }

    pub fn is_inactive(&self) -> (r: bool)
        ensures
            r == is_inactive_status(*self),
    {
        match self {
            VaultStatus::Secured | VaultStatus::Funded | VaultStatus::Unconfirmed => true,
            _ => false,
        }
    }

    /// The statuses that the vault list shows by default.
    pub fn current() -> (r: Vec<VaultStatus>)
        ensures
            forall|s: VaultStatus| r@.contains(s) <==> is_current_status(s),
    {
        let r = vec![
            VaultStatus::Unconfirmed,
            VaultStatus::Funded,
            VaultStatus::Securing,
            VaultStatus::Secured,
            VaultStatus::Activating,
            VaultStatus::Active,
            VaultStatus::Unvaulting,
            VaultStatus::Unvaulted,
            VaultStatus::Canceling,
            VaultStatus::EmergencyVaulting,
            VaultStatus::Spendable,
            VaultStatus::Spending,
        ];
        assert forall|s: VaultStatus| is_current_status(s) implies r@.contains(s) by {
            match s {
                VaultStatus::Unconfirmed => assert(r@[0] == s),
                VaultStatus::Funded => assert(r@[1] == s),
                VaultStatus::Securing => assert(r@[2] == s),
                VaultStatus::Secured => assert(r@[3] == s),
                VaultStatus::Activating => assert(r@[4] == s),
                VaultStatus::Active => assert(r@[5] == s),
                VaultStatus::Unvaulting => assert(r@[6] == s),
                VaultStatus::Unvaulted => assert(r@[7] == s),
                VaultStatus::Canceling => assert(r@[8] == s),
                VaultStatus::EmergencyVaulting => assert(r@[9] == s),
                VaultStatus::Spendable => assert(r@[10] == s),
                VaultStatus::Spending => assert(r@[11] == s),
                _ => {},
            }
        }
        r
    }

    /// The statuses of the vaults that a stakeholder may still delegate.
    pub fn inactive() -> (r: Vec<VaultStatus>)
        ensures
            forall|s: VaultStatus| r@.contains(s) <==> is_undelegated_status(s),
    {
        let r = vec![
            VaultStatus::Funded,
            VaultStatus::Securing,
            VaultStatus::Secured,
            VaultStatus::Activating,
        ];
        assert forall|s: VaultStatus| is_undelegated_status(s) implies r@.contains(s) by {
            match s {
                VaultStatus::Funded => assert(r@[0] == s),
                VaultStatus::Securing => assert(r@[1] == s),
                VaultStatus::Secured => assert(r@[2] == s),
                VaultStatus::Activating => assert(r@[3] == s),
                _ => {},
            }
        }
        r
    }
}

/// A deposit outpoint: the transaction that funds a vault and the index of
/// its output.
pub struct OutPoint {
    pub txid: String,
    pub vout: u32,
}

impl View for OutPoint {
    type V = (Seq<char>, u32);

    open spec fn view(&self) -> (Seq<char>, u32) {
        (self.txid@, self.vout)
    }
}

impl OutPoint {
    pub fn equals(&self, other: &OutPoint) -> (r: bool)
        ensures
            r == (self@ == other@),
    {
        self.vout == other.vout && self.txid == other.txid
    }

    pub fn duplicate(&self) -> (r: OutPoint)
        ensures
            r@ == self@,
    {
        OutPoint { txid: self.txid.clone(), vout: self.vout }
    }
}

/// A vault as the daemon reports it. Its outpoint identifies it for life.
pub struct Vault {
    pub amount: u64,
    pub status: VaultStatus,
    pub txid: String,
    pub vout: u32,
    pub address: String,
    pub updated_at: i64,
}

impl Vault {
    pub open spec fn outpoint_view(&self) -> (Seq<char>, u32) {
        (self.txid@, self.vout)
    }

    pub fn outpoint(&self) -> (r: OutPoint)
        ensures
            r@ == self.outpoint_view(),
    {
        OutPoint { txid: self.txid.clone(), vout: self.vout }
    }

    pub fn duplicate(&self) -> (r: Vault)
        ensures
            r == *self,
    {
        Vault {
            amount: self.amount,
            status: self.status,
            txid: self.txid.clone(),
            vout: self.vout,
            address: self.address.clone(),
            updated_at: self.updated_at,
        }
    }
}

/// The unsigned revocation transactions of a vault, in the order in which
/// they are signed.
pub struct RevocationTransactions {
    pub emergency_tx: Psbt,
    pub emergency_unvault_tx: Psbt,
    pub cancel_tx: Psbt,
}

/// A transaction of a vault that the network has seen.
pub struct BroadcastedTransaction {
    /// Height of the block that holds it, if it is confirmed.
    pub blockheight: Option<u32>,
    /// Time at which it was first seen, in seconds since the epoch.
    pub received_at: i64,
    /// Its consensus serialization.
    pub tx: Vec<u8>,
}

/// The on-chain transactions of a vault.
pub struct VaultTransactions {
    pub deposit: BroadcastedTransaction,
    pub unvault: Option<BroadcastedTransaction>,
    pub cancel: Option<BroadcastedTransaction>,
    pub emergency: Option<BroadcastedTransaction>,
    pub unvault_emergency: Option<BroadcastedTransaction>,
    pub spend: Option<BroadcastedTransaction>,
}

/// A spend transaction that the managers are assembling.
pub struct SpendTx {
    pub psbt: Psbt,
}

/// The statuses whose funds count as active.
pub open spec fn active_statuses() -> Set<VaultStatus> {
    Set::new(|s: VaultStatus| is_active_status(s))
}

/// The statuses whose funds count as inactive.
pub open spec fn inactive_statuses() -> Set<VaultStatus> {
    Set::new(|s: VaultStatus| is_inactive_status(s))
}

/// The sum of the amounts of the vaults whose status is in `statuses`.
pub open spec fn amount_in(vaults: Seq<Vault>, statuses: Set<VaultStatus>) -> nat
    decreases vaults.len(),
{
    if vaults.len() == 0 {
        0
    } else {
        amount_in(vaults.drop_last(), statuses) + if statuses.contains(vaults.last().status) {
            vaults.last().amount as nat
        } else {
            0
        }
    }
}

/// The sum of the amounts of all the vaults.
pub open spec fn total_amount(vaults: Seq<Vault>) -> nat {
    amount_in(vaults, Set::full())
}

/// A partial sum never exceeds the whole.
pub proof fn lemma_amount_in_bounded(vaults: Seq<Vault>, statuses: Set<VaultStatus>)
    ensures
        amount_in(vaults, statuses) <= total_amount(vaults),
    decreases vaults.len(),
{
    if vaults.len() > 0 {
        lemma_amount_in_bounded(vaults.drop_last(), statuses);
    }
}

/// The total of a prefix never exceeds the total of the whole sequence.
pub proof fn lemma_prefix_total_bounded(vaults: Seq<Vault>, n: int)
    requires
        0 <= n <= vaults.len(),
    ensures
        total_amount(vaults.subrange(0, n)) <= total_amount(vaults),
    decreases vaults.len(),
{
    if n < vaults.len() {
        assert(vaults.drop_last() == vaults.subrange(0, vaults.len() - 1));
        assert(vaults.drop_last().subrange(0, n) == vaults.subrange(0, n));
        lemma_prefix_total_bounded(vaults.drop_last(), n);
    } else {
        assert(vaults.subrange(0, n) == vaults);
    }
}

/// What the sums know of one more vault.
proof fn lemma_step(vaults: Seq<Vault>, i: int)
    requires
        0 <= i < vaults.len(),
        total_amount(vaults) <= u64::MAX,
    ensures
        vaults.subrange(0, i + 1).drop_last() == vaults.subrange(0, i),
        vaults.subrange(0, i + 1).last() == vaults[i],
        forall|statuses: Set<VaultStatus>|
            #[trigger] amount_in(vaults.subrange(0, i + 1), statuses) <= u64::MAX,
{
    assert(vaults.subrange(0, i + 1).drop_last() == vaults.subrange(0, i));
    lemma_prefix_total_bounded(vaults, i + 1);
    assert forall|statuses: Set<VaultStatus>|
        #[trigger] amount_in(vaults.subrange(0, i + 1), statuses) <= u64::MAX by {
        lemma_amount_in_bounded(vaults.subrange(0, i + 1), statuses);
    }
}

/// Whether the total amount of the vaults fits in a `u64`, so that every
/// sum over them does too.
pub fn amounts_fit(vaults: &[Vault]) -> (r: bool)
    ensures
        r == (total_amount(vaults@) <= u64::MAX),
{
    let mut sum: u64 = 0;
    let mut i: usize = 0;
    while i < vaults.len()
        invariant
            i <= vaults.len(),
            sum as nat == total_amount(vaults@.subrange(0, i as int)),
        decreases vaults.len() - i,
    {
        assert(vaults@.subrange(0, i + 1).drop_last() == vaults@.subrange(0, i as int));
        match sum.checked_add(vaults[i].amount) {
            Some(s) => sum = s,
            None => {
                proof {
                    lemma_prefix_total_bounded(vaults@, i + 1);
                }
                return false;
            },
        }
        i = i + 1;
    }
    assert(vaults@.subrange(0, vaults@.len() as int) == vaults@);
    true
}

/// The two-bucket balance: the sum of the amounts of the vaults with an
/// active status, and the sum of those with an inactive one.
pub fn active_inactive_balance(vaults: &[Vault]) -> (r: (u64, u64))
    requires
        total_amount(vaults@) <= u64::MAX,
    ensures
        r.0 == amount_in(vaults@, active_statuses()),
        r.1 == amount_in(vaults@, inactive_statuses()),
{
    let mut active_amount: u64 = 0;
    let mut inactive_amount: u64 = 0;
    let mut i: usize = 0;
    while i < vaults.len()
        invariant
            i <= vaults.len(),
            total_amount(vaults@) <= u64::MAX,
            active_amount == amount_in(vaults@.subrange(0, i as int), active_statuses()),
            inactive_amount == amount_in(vaults@.subrange(0, i as int), inactive_statuses()),
        decreases vaults.len() - i,
    {
        proof {
            lemma_step(vaults@, i as int);
            assert(amount_in(vaults@.subrange(0, i + 1), active_statuses()) <= u64::MAX);
            assert(amount_in(vaults@.subrange(0, i + 1), inactive_statuses()) <= u64::MAX);
        }
        let vault = &vaults[i];
        match vault.status {
            VaultStatus::Active | VaultStatus::Unvaulting | VaultStatus::Unvaulted => {
                active_amount = active_amount + vault.amount;
            },
            VaultStatus::Secured | VaultStatus::Funded | VaultStatus::Unconfirmed => {
                inactive_amount = inactive_amount + vault.amount;
            },
            _ => {},
        }
        i = i + 1;
    }
    assert(vaults@.subrange(0, vaults@.len() as int) == vaults@);
    (active_amount, inactive_amount)
}

/// The sum of the amounts of the vaults with the given status.
pub fn balance_of_status(vaults: &[Vault], status: VaultStatus) -> (r: u64)
    requires
        total_amount(vaults@) <= u64::MAX,
    ensures
        r == amount_in(vaults@, set![status]),
{
    let mut sum: u64 = 0;
    let mut i: usize = 0;
    while i < vaults.len()
        invariant
            i <= vaults.len(),
            total_amount(vaults@) <= u64::MAX,
            sum == amount_in(vaults@.subrange(0, i as int), set![status]),
        decreases vaults.len() - i,
    {
        proof {
            lemma_step(vaults@, i as int);
            assert(amount_in(vaults@.subrange(0, i + 1), set![status]) <= u64::MAX);
        }
        if vaults[i].status == status {
            sum = sum + vaults[i].amount;
        }
        i = i + 1;
    }
    assert(vaults@.subrange(0, vaults@.len() as int) == vaults@);
    sum
}

/// The number of vaults with this status.
pub open spec fn count_of(vaults: Seq<Vault>, status: VaultStatus) -> nat
    decreases vaults.len(),
{
    if vaults.len() == 0 {
        0
    } else {
        count_of(vaults.drop_last(), status) + if vaults.last().status == status {
            1nat
        } else {
            0nat
        }
    }
}

/// No vault with a status means no amount with it.
pub proof fn lemma_no_count_no_amount(vaults: Seq<Vault>, status: VaultStatus)
    requires
        count_of(vaults, status) == 0,
    ensures
        amount_in(vaults, set![status]) == 0,
    decreases vaults.len(),
{
    if vaults.len() > 0 {
        lemma_no_count_no_amount(vaults.drop_last(), status);
    }
}

/// There are no more vaults of a status than vaults.
pub proof fn lemma_count_bounded(vaults: Seq<Vault>, status: VaultStatus)
    ensures
        count_of(vaults, status) <= vaults.len(),
    decreases vaults.len(),
{
    if vaults.len() > 0 {
        lemma_count_bounded(vaults.drop_last(), status);
    }
}

/// `balance` holds, once for each status that is not excluded from
/// balances and that some vault has, the number of such vaults and the sum
/// of their amounts.
pub open spec fn is_status_balance(balance: Seq<(VaultStatus, u64, u64)>, vaults: Seq<Vault>) -> bool {
    &&& forall|i: int, j: int|
        0 <= i < j < balance.len() ==> (#[trigger] balance[i]).0 != (#[trigger] balance[j]).0
    &&& forall|i: int|
        0 <= i < balance.len() ==> {
            &&& !is_excluded_from_balance((#[trigger] balance[i]).0)
            &&& balance[i].1 == count_of(vaults, balance[i].0)
            &&& balance[i].1 > 0
            &&& balance[i].2 == amount_in(vaults, set![balance[i].0])
        }
    &&& forall|s: VaultStatus|
        !is_excluded_from_balance(s) && #[trigger] count_of(vaults, s) > 0 ==> exists|i: int|
            0 <= i < balance.len() && balance[i].0 == s
}

/// The per-status balance: for each status that a vault has, except those
/// excluded from balances, the number of vaults and the sum of their
/// amounts, in the order in which the statuses first appear.
pub fn balance_by_status(vaults: &[Vault]) -> (r: Vec<(VaultStatus, u64, u64)>)
    requires
        total_amount(vaults@) <= u64::MAX,
    ensures
        is_status_balance(r@, vaults@),
{
    let mut balance: Vec<(VaultStatus, u64, u64)> = Vec::new();
    let mut i: usize = 0;
    while i < vaults.len()
        invariant
            i <= vaults.len(),
            total_amount(vaults@) <= u64::MAX,
            is_status_balance(balance@, vaults@.subrange(0, i as int)),
        decreases vaults.len() - i,
    {
        let ghost p = vaults@.subrange(0, i as int);
        let ghost q = vaults@.subrange(0, i + 1);
        proof {
            lemma_step(vaults@, i as int);
            lemma_count_bounded(q, vaults@[i as int].status);
        }
        let vault = &vaults[i];
        let status = vault.status;
        let excluded = match status {
            VaultStatus::Unconfirmed | VaultStatus::Spent | VaultStatus::Spending => true,
            _ => false,
        };
        let ghost old_balance = balance@;
        if !excluded {
            let mut j: usize = 0;
            let mut found = false;
            while j < balance.len() && !found
                invariant
                    j <= balance.len(),
                    forall|m: int| 0 <= m < j ==> (#[trigger] balance@[m]).0 != status,
                    found ==> j < balance.len() && balance@[j as int].0 == status,
                decreases balance.len() - j + if found { 0int } else { 1int },
            {
                if balance[j].0 == status {
                    found = true;
                } else {
                    j = j + 1;
                }
            }
            if found {
                let (s, count, amount) = balance[j];
                assert(amount_in(q, set![status]) <= u64::MAX);
                assert(count_of(q, status) <= vaults@.len());
                balance.set(j, (s, count + 1, amount + vault.amount));
            } else {
                proof {
                    if count_of(p, status) > 0 {
                        let m = choose|m: int| 0 <= m < old_balance.len() && old_balance[m].0 == status;
                        assert(old_balance[m].0 != status);
                    }
                    lemma_no_count_no_amount(p, status);
                }
                balance.push((status, 1, vault.amount));
            }
            assert forall|a: int, b: int| 0 <= a < b < balance@.len() implies (
            #[trigger] balance@[a]).0 != (#[trigger] balance@[b]).0 by {
                if b < old_balance.len() {
                    assert(old_balance[a].0 != old_balance[b].0);
                } else {
                    assert(old_balance[a].0 != status);
                }
            }
            assert forall|m: int| 0 <= m < balance@.len() implies {
                &&& !is_excluded_from_balance((#[trigger] balance@[m]).0)
                &&& balance@[m].1 == count_of(q, balance@[m].0)
                &&& balance@[m].1 > 0
                &&& balance@[m].2 == amount_in(q, set![balance@[m].0])
            } by {
                if m < old_balance.len() && old_balance[m].0 != status {
                    assert(balance@[m] == old_balance[m]);
                }
            }
            assert forall|s: VaultStatus|
                !is_excluded_from_balance(s) && #[trigger] count_of(q, s) > 0 implies exists|m: int|
                0 <= m < balance@.len() && balance@[m].0 == s by {
                if s != status {
                    assert(count_of(p, s) > 0);
                    let m = choose|m: int| 0 <= m < old_balance.len() && old_balance[m].0 == s;
                    assert(balance@.len() >= old_balance.len());
                    assert(balance@[m].0 == s);
                } else if found {
                    assert(balance@[j as int].0 == s);
                } else {
                    assert(balance@[old_balance.len() as int].0 == s);
                }
            }
        } else {
            assert forall|m: int| 0 <= m < balance@.len() implies {
                &&& !is_excluded_from_balance((#[trigger] balance@[m]).0)
                &&& balance@[m].1 == count_of(q, balance@[m].0)
                &&& balance@[m].1 > 0
                &&& balance@[m].2 == amount_in(q, set![balance@[m].0])
            } by {
                assert(balance@[m].0 != status);
            }
            assert forall|s: VaultStatus|
                !is_excluded_from_balance(s) && #[trigger] count_of(q, s) > 0 implies exists|m: int|
                0 <= m < balance@.len() && balance@[m].0 == s by {
                assert(count_of(p, s) > 0);
            }
        }
        i = i + 1;
    }
    assert(vaults@.subrange(0, vaults@.len() as int) =~= vaults@);
    balance
}

/// The statuses in neither bucket of the two-bucket balance.
pub open spec fn unbucketed_statuses() -> Set<VaultStatus> {
    Set::new(|s: VaultStatus| !is_active_status(s) && !is_inactive_status(s))
}

/// The two buckets of the balance share no status, and each vault's amount
/// counts in the active bucket, in the inactive bucket, or in neither, and
/// only once: the buckets and the rest add up to the total.
pub proof fn lemma_balance_buckets(vaults: Seq<Vault>)
    ensures
        active_statuses().disjoint(inactive_statuses()),
        amount_in(vaults, active_statuses()) + amount_in(vaults, inactive_statuses()) + amount_in(
            vaults,
            unbucketed_statuses(),
        ) == total_amount(vaults),
    decreases vaults.len(),
{
    if vaults.len() > 0 {
        lemma_balance_buckets(vaults.drop_last());
    }
}

} // verus!
