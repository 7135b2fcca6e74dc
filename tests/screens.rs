use revault_gui::command::Command;
use revault_gui::error::Error;
use revault_gui::model::{OutPoint, Vault as VaultInfo, VaultStatus};
use revault_gui::state::{
    ManagerHomeState, ManagerNetworkState, Message, StakeholderACKFundsState,
    StakeholderDelegateFundsState, StakeholderHomeState, StakeholderNetworkState, VaultsState,
};
use revault_gui::vault::{VaultListItem, VaultMessage, VaultSection};

fn vault(byte: &str, amount: u64, status: VaultStatus) -> VaultInfo {
    VaultInfo {
        amount,
        status,
        txid: byte.repeat(32),
        vout: 0,
        address: String::new(),
        updated_at: 0,
    }
}

fn outpoint(byte: &str) -> OutPoint {
    OutPoint { txid: byte.repeat(32), vout: 0 }
}

fn vaults() -> Vec<VaultInfo> {
    vec![
        vault("aa", 100, VaultStatus::Active),
        vault("bb", 200, VaultStatus::Unvaulting),
        vault("cc", 300, VaultStatus::Funded),
        vault("dd", 400, VaultStatus::Canceling),
        vault("ee", 500, VaultStatus::Spending),
    ]
}

#[test]
fn vault_list_filter_refetches() {
    let mut state = VaultsState::new();
    assert!(state.loading);
    state.update(Message::Vaults(Ok(vaults())));
    assert!(!state.loading);
    assert_eq!(state.vaults.len(), 5);
    match state.update(Message::FilterVaults(vec![VaultStatus::Funded])) {
        Command::ListVaults(Some(statuses)) => assert_eq!(statuses, vec![VaultStatus::Funded]),
        _ => panic!("expected a listing"),
    }
    assert!(state.loading);
    assert_eq!(state.vaults.len(), 5);
    let load = state.load();
    assert!(matches!(load[0], Command::GetBlockHeight));
    match &load[1] {
        Command::ListVaults(Some(statuses)) => assert_eq!(statuses, &VaultStatus::current()),
        _ => panic!("expected a listing of current vaults"),
    }
}

#[test]
fn vault_selection_toggles() {
    let mut state = VaultsState::new();
    state.update(Message::Vaults(Ok(vaults())));
    let cmd = state.update(Message::Vault(VaultMessage::Select(outpoint("cc"))));
    assert!(matches!(cmd, Command::GetOnchainTransactions(ref o) if o.txid == "cc".repeat(32)));
    let selected = state.selected_vault.as_ref().unwrap();
    assert_eq!(selected.vault.amount, 300);
    assert!(matches!(selected.section, VaultSection::Unloaded));
    let cmd = state.update(Message::Vault(VaultMessage::Select(outpoint("cc"))));
    assert!(matches!(cmd, Command::Nothing));
    assert!(state.selected_vault.is_none());
    let cmd = state.update(Message::Vault(VaultMessage::Select(outpoint("zz"))));
    assert!(matches!(cmd, Command::Nothing));
    assert!(state.selected_vault.is_none());
}

#[test]
fn manager_home_balance_and_unvaulting_list() {
    let mut state = ManagerHomeState::new();
    state.update(Message::Vaults(Ok(vaults())));
    assert_eq!(state.balance, (300, 300));
    assert_eq!(state.unvaulting_vaults.len(), 1);
    assert_eq!(state.unvaulting_vaults[0].vault.amount, 200);
    state.update(Message::Vaults(Err("down".to_string())));
    assert_eq!(state.warning, Some(Error::RevaultDError("down".to_string())));
    state.update(Message::Vaults(Ok(vec![
        vault("aa", u64::MAX, VaultStatus::Active),
        vault("bb", 1, VaultStatus::Active),
    ])));
    assert_eq!(state.warning, Some(Error::AmountOverflow));
    assert_eq!(state.balance, (300, 300));
    assert_eq!(state.load().len(), 3);
}

#[test]
fn stakeholder_home_moving_vaults() {
    let mut state = StakeholderHomeState::new();
    state.update(Message::Vaults(Ok(vaults())));
    let moving: Vec<u64> = state.moving_vaults.iter().map(|v| v.vault.amount).collect();
    assert_eq!(moving, vec![200, 400, 500]);
    assert_eq!(
        state.balance,
        vec![
            (VaultStatus::Active, 1, 100),
            (VaultStatus::Unvaulting, 1, 200),
            (VaultStatus::Funded, 1, 300),
            (VaultStatus::Canceling, 1, 400),
        ]
    );
}

#[test]
fn acknowledge_screen_fetches_revocations() {
    let mut state = StakeholderACKFundsState::new();
    state.update(Message::Vaults(Ok(vaults())));
    assert_eq!(state.balance, 300);
    let cmd = state.update(Message::Vault(VaultMessage::Select(outpoint("cc"))));
    assert!(matches!(cmd, Command::GetRevocationTransactions(ref o) if o.txid == "cc".repeat(32)));
    let cmd = state.update(Message::Vault(VaultMessage::Select(outpoint("cc"))));
    match cmd {
        Command::ListVaults(Some(statuses)) => {
            assert_eq!(statuses, vec![VaultStatus::Securing, VaultStatus::Funded])
        }
        _ => panic!("expected a listing"),
    }
    assert!(state.selected_vault.is_none());
}

#[test]
fn delegate_screen_starts_delegation() {
    let mut state = StakeholderDelegateFundsState::new();
    state.update(Message::Vaults(Ok(vaults())));
    assert_eq!(state.active_balance, 300);
    let cmd = state.update(Message::Vault(VaultMessage::Delegate(outpoint("cc"))));
    assert!(matches!(cmd, Command::GetUnvaultTransaction(ref o) if o.txid == "cc".repeat(32)));
    assert!(state.selected_vault.is_some());
    let cmd = state.update(Message::Vault(VaultMessage::Acknowledge(outpoint("cc"))));
    assert!(matches!(cmd, Command::GetRevocationTransactions(_)));
    let cmd = state.update(Message::Vault(VaultMessage::Delegate(outpoint("zz"))));
    assert!(matches!(cmd, Command::Nothing));
    state.update(Message::FilterVaults(vec![VaultStatus::Active]));
    assert_eq!(state.vault_status_filter, vec![VaultStatus::Active]);
}

#[test]
fn network_screens_track_block_height() {
    let mut manager = ManagerNetworkState::new();
    manager.update(Message::BlockHeight(Ok(680_000)));
    assert_eq!(manager.blockheight, Some(680_000));
    manager.update(Message::BlockHeight(Err("offline".to_string())));
    assert_eq!(manager.warning, Some(Error::RevaultDError("offline".to_string())));
    assert_eq!(manager.blockheight, Some(680_000));
    let mut stakeholder = StakeholderNetworkState::new();
    assert!(matches!(stakeholder.load(), Command::GetBlockHeight));
    stakeholder.update(Message::BlockHeight(Ok(1)));
    assert_eq!(stakeholder.blockheight, Some(1));
}

#[test]
fn list_item_holds_vault() {
    let item = VaultListItem::new(vault("aa", 42, VaultStatus::Secured));
    assert_eq!(item.vault.amount, 42);
    assert_eq!(item.vault.status, VaultStatus::Secured);
}
