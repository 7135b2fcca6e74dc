use revault_gui::model::{
    active_inactive_balance, amounts_fit, balance_by_status, balance_of_status, Vault, VaultStatus,
};

fn vault(amount: u64, status: VaultStatus) -> Vault {
    Vault { amount, status, txid: "ab".repeat(32), vout: 0, address: String::new(), updated_at: 0 }
}

fn sample() -> Vec<Vault> {
    vec![
        vault(1, VaultStatus::Active),
        vault(10, VaultStatus::Unvaulting),
        vault(100, VaultStatus::Unvaulted),
        vault(1_000, VaultStatus::Secured),
        vault(10_000, VaultStatus::Funded),
        vault(100_000, VaultStatus::Unconfirmed),
        vault(1_000_000, VaultStatus::Securing),
        vault(10_000_000, VaultStatus::Spending),
        vault(100_000_000, VaultStatus::Spent),
        vault(1_000_000_000, VaultStatus::Canceled),
        vault(2, VaultStatus::Active),
    ]
}

#[test]
fn two_bucket_balance() {
    assert_eq!(active_inactive_balance(&sample()), (113, 111_000));
    assert_eq!(active_inactive_balance(&[]), (0, 0));
}

#[test]
fn balance_of_one_status() {
    assert_eq!(balance_of_status(&sample(), VaultStatus::Funded), 10_000);
    assert_eq!(balance_of_status(&sample(), VaultStatus::Active), 3);
    assert_eq!(balance_of_status(&sample(), VaultStatus::Activating), 0);
}

#[test]
fn per_status_balance_skips_excluded_statuses() {
    let balance = balance_by_status(&sample());
    assert_eq!(
        balance,
        vec![
            (VaultStatus::Active, 2, 3),
            (VaultStatus::Unvaulting, 1, 10),
            (VaultStatus::Unvaulted, 1, 100),
            (VaultStatus::Secured, 1, 1_000),
            (VaultStatus::Funded, 1, 10_000),
            (VaultStatus::Securing, 1, 1_000_000),
            (VaultStatus::Canceled, 1, 1_000_000_000),
        ]
    );
}

#[test]
fn amounts_overflow_is_detected() {
    assert!(amounts_fit(&sample()));
    assert!(amounts_fit(&[vault(u64::MAX, VaultStatus::Active)]));
    assert!(!amounts_fit(&[vault(u64::MAX, VaultStatus::Active), vault(1, VaultStatus::Spent)]));
}

#[test]
fn status_sets() {
    let current = VaultStatus::current();
    assert!(current.contains(&VaultStatus::Unconfirmed));
    assert!(!current.contains(&VaultStatus::Spent));
    assert_eq!(
        VaultStatus::inactive(),
        vec![VaultStatus::Funded, VaultStatus::Securing, VaultStatus::Secured, VaultStatus::Activating]
    );
    assert!(VaultStatus::Unvaulted.is_active());
    assert!(VaultStatus::Unconfirmed.is_inactive());
    assert!(!VaultStatus::Securing.is_active() && !VaultStatus::Securing.is_inactive());
}
