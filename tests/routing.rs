use revault_gui::app::{App, AppMessage, Menu, Role, Screen};
use revault_gui::command::Command;

#[test]
fn synced_daemon_shows_home_of_role() {
    let mut app = App::new();
    assert!(matches!(app.screen, Screen::Charging));
    let cmds = app.update(AppMessage::Synced { stakeholder: true, manager: true });
    assert_eq!(app.role, Role::Stakeholder);
    assert!(app.edit_role && app.network_up);
    assert!(matches!(app.screen, Screen::StakeholderHome(_)));
    assert_eq!(cmds.len(), 2);
    let mut app = App::new();
    app.update(AppMessage::Synced { stakeholder: false, manager: true });
    assert_eq!(app.role, Role::Manager);
    assert!(!app.edit_role);
    assert!(matches!(app.screen, Screen::ManagerHome(_)));
}

#[test]
fn menu_entries_lead_to_their_screens() {
    let mut app = App::new();
    app.update(AppMessage::Synced { stakeholder: false, manager: true });
    app.update(AppMessage::Menu(Menu::Send));
    assert!(matches!(app.screen, Screen::ManagerSend(_)));
    app.update(AppMessage::Menu(Menu::DelegateFunds));
    assert!(matches!(app.screen, Screen::ManagerHome(_)));
    let cmds = app.update(AppMessage::Menu(Menu::Network));
    assert!(matches!(app.screen, Screen::ManagerNetwork(_)));
    assert!(matches!(cmds[..], [Command::GetBlockHeight]));
    app.update(AppMessage::ChangeRole(Role::Stakeholder));
    assert_eq!(app.menu, Menu::Network);
    assert!(matches!(app.screen, Screen::StakeholderNetwork(_)));
    app.update(AppMessage::Menu(Menu::ACKFunds));
    assert!(matches!(app.screen, Screen::StakeholderACKFunds(_)));
    app.update(AppMessage::Menu(Menu::DelegateFunds));
    assert!(matches!(app.screen, Screen::StakeholderDelegateFunds(_)));
    let cmds = app.update(AppMessage::Menu(Menu::Settings));
    assert!(matches!(app.screen, Screen::Settings));
    assert!(cmds.is_empty());
    app.update(AppMessage::Menu(Menu::Vaults));
    assert!(matches!(app.screen, Screen::Vaults(_)));
}
