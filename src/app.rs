//! The application: the operator's role, the menu entry, and the screen
//! that both select.

use vstd::prelude::*;
use crate::command::Command;
use crate::spend::{ManagerSendState, SendMessage};
use crate::state::{
    ManagerHomeState, ManagerNetworkState, Message, StakeholderACKFundsState,
    StakeholderDelegateFundsState, StakeholderHomeState, StakeholderNetworkState, VaultsState,
};

verus! {

/// The operator's role in the protocol.
#[derive(PartialEq, Eq, Structural, Clone, Copy, Debug)]
pub enum Role {
    Manager,
    Stakeholder,
}

/// The menu entries.
#[derive(PartialEq, Eq, Structural, Clone, Copy, Debug)]
pub enum Menu {
    Deposit,
    Home,
    Vaults,
    Network,
    Send,
    DelegateFunds,
    ACKFunds,
    Settings,
}

/// The screen on display, with its state.
pub enum Screen {
    /// Waiting for the daemon to be synchronised.
    Charging,
    /// The deposit addresses.
    Deposit,
    /// The configuration.
    Settings,
    ManagerHome(ManagerHomeState),
    Vaults(VaultsState),
    ManagerNetwork(ManagerNetworkState),
    ManagerSend(ManagerSendState),
    StakeholderHome(StakeholderHomeState),
    StakeholderNetwork(StakeholderNetworkState),
    StakeholderACKFunds(StakeholderACKFundsState),
    StakeholderDelegateFunds(StakeholderDelegateFundsState),
}

/// An event for the application.
pub enum AppMessage {
    /// The daemon is synchronised; whether its configuration has a
    /// stakeholder part and a manager part.
    Synced { stakeholder: bool, manager: bool },
    ChangeRole(Role),
    Menu(Menu),
    /// An event for the screen on display.
    State(Message),
    /// An event for the spend screen.
    Send(SendMessage),
}

/// The screen that a role shows for a menu entry. A manager has no funds to
/// delegate or acknowledge, and a stakeholder does not spend: those entries
/// lead home.
pub open spec fn shows(screen: Screen, role: Role, menu: Menu) -> bool {
    match menu {
        Menu::Deposit => screen is Deposit,
        Menu::Settings => screen is Settings,
        Menu::Vaults => screen is Vaults,
        Menu::Home => if role == Role::Manager {
            screen is ManagerHome
        } else {
            screen is StakeholderHome
        },
        Menu::Network => if role == Role::Manager {
            screen is ManagerNetwork
        } else {
            screen is StakeholderNetwork
        },
        Menu::Send => if role == Role::Manager {
            screen is ManagerSend
        } else {
            screen is StakeholderHome
        },
        Menu::DelegateFunds => if role == Role::Manager {
            screen is ManagerHome
        } else {
            screen is StakeholderDelegateFunds
        },
        Menu::ACKFunds => if role == Role::Manager {
            screen is ManagerHome
        } else {
            screen is StakeholderACKFunds
        },
    }
}

impl Screen {
    pub open spec fn wf(&self) -> bool {
        match self {
            Screen::ManagerHome(s) => s.wf(),
            Screen::Vaults(s) => s.wf(),
            Screen::ManagerSend(s) => s.wf(),
            Screen::StakeholderHome(s) => s.wf(),
            Screen::StakeholderACKFunds(s) => s.wf(),
            Screen::StakeholderDelegateFunds(s) => s.wf(),
            _ => true,
        }
    }

    /// A fresh screen for the role and the menu entry.
    pub fn for_menu(role: Role, menu: Menu) -> (r: Screen)
        ensures
            r.wf(),
            shows(r, role, menu),
    {
        match (role, menu) {
            (_, Menu::Deposit) => Screen::Deposit,
            (_, Menu::Settings) => Screen::Settings,
            (_, Menu::Vaults) => Screen::Vaults(VaultsState::new()),
            (Role::Manager, Menu::Network) => Screen::ManagerNetwork(ManagerNetworkState::new()),
            (Role::Manager, Menu::Send) => Screen::ManagerSend(ManagerSendState::new()),
            (Role::Manager, _) => Screen::ManagerHome(ManagerHomeState::new()),
            (Role::Stakeholder, Menu::Network) => Screen::StakeholderNetwork(
                StakeholderNetworkState::new(),
            ),
            (Role::Stakeholder, Menu::ACKFunds) => Screen::StakeholderACKFunds(
                StakeholderACKFundsState::new(),
            ),
            (Role::Stakeholder, Menu::DelegateFunds) => Screen::StakeholderDelegateFunds(
                StakeholderDelegateFundsState::new(),
            ),
            (Role::Stakeholder, _) => Screen::StakeholderHome(StakeholderHomeState::new()),
        }
    }

    /// The first requests of the screen.
    pub fn load(&self) -> (r: Vec<Command>)
        ensures
            self is Charging || self is Deposit || self is Settings ==> r@.len() == 0,
            self is ManagerHome ==> r@.len() == 3,
            self is Vaults || self is StakeholderHome ==> r@.len() == 2,
            self is ManagerNetwork || self is StakeholderNetwork || self is ManagerSend
                || self is StakeholderACKFunds || self is StakeholderDelegateFunds ==> r@.len() == 1,
    {
        match self {
            Screen::ManagerHome(s) => s.load(),
            Screen::Vaults(s) => s.load(),
            Screen::ManagerNetwork(s) => vec![s.load()],
            Screen::ManagerSend(s) => vec![s.load()],
            Screen::StakeholderHome(s) => s.load(),
            Screen::StakeholderNetwork(s) => vec![s.load()],
            Screen::StakeholderACKFunds(s) => vec![s.load()],
            Screen::StakeholderDelegateFunds(s) => vec![s.load()],
            _ => Vec::new(),
        }
    }

    /// Hands an event to the screen on display.
    pub fn update(&mut self, message: Message) -> (r: Command)
        requires
            old(self).wf(),
        ensures
            final(self).wf(),
            (*old(self)) is Charging || (*old(self)) is Deposit || (*old(self)) is Settings
                || (*old(self)) is ManagerSend ==> *final(self) == *old(self) && r is Nothing,
    {
        match self {
            Screen::ManagerHome(s) => s.update(message),
            Screen::Vaults(s) => s.update(message),
            Screen::ManagerNetwork(s) => s.update(message),
            Screen::StakeholderHome(s) => s.update(message),
            Screen::StakeholderNetwork(s) => s.update(message),
            Screen::StakeholderACKFunds(s) => s.update(message),
            Screen::StakeholderDelegateFunds(s) => s.update(message),
            _ => Command::Nothing,
        }
    }
}

/// The application's state.
pub struct App {
    pub role: Role,
    pub menu: Menu,
    /// Whether the operator may switch roles: both roles are configured.
    pub edit_role: bool,
    pub network_up: bool,
    pub screen: Screen,
}

impl App {
    pub open spec fn wf(&self) -> bool {
        self.screen.wf()
    }

    /// The application before the daemon is synchronised.
    pub fn new() -> (r: App)
        ensures
            r.wf(),
            r.screen is Charging,
            !r.network_up,
            !r.edit_role,
    {
        App {
            role: Role::Manager,
            menu: Menu::Home,
            edit_role: false,
            network_up: false,
            screen: Screen::Charging,
        }
    }

    /// Shows the screen of the role and menu entry, and says what it asks
    /// for first.
    pub fn load_state(&mut self, role: Role, menu: Menu) -> (r: Vec<Command>)
        requires
            old(self).wf(),
        ensures
            final(self).wf(),
            final(self).role == role,
            final(self).menu == menu,
            final(self).edit_role == old(self).edit_role,
            final(self).network_up == old(self).network_up,
            shows(final(self).screen, role, menu),
    {
        self.role = role;
        self.menu = menu;
        self.screen = Screen::for_menu(role, menu);
        self.screen.load()
    }

    /// Once the daemon is synchronised: the role is stakeholder where the
    /// configuration has a stakeholder part, else manager; it may be
    /// switched only where both parts are there; home is shown.
    pub fn on_synced(&mut self, stakeholder: bool, manager: bool) -> (r: Vec<Command>)
        requires
            old(self).wf(),
        ensures
            final(self).wf(),
            final(self).role == if stakeholder {
                Role::Stakeholder
            } else {
                Role::Manager
            },
            final(self).edit_role == (stakeholder && manager),
            final(self).network_up,
            final(self).menu == Menu::Home,
            shows(final(self).screen, final(self).role, Menu::Home),
    {
        let role = if stakeholder {
            Role::Stakeholder
        } else {
            Role::Manager
        };
        self.edit_role = stakeholder && manager;
        self.network_up = true;
        self.load_state(role, Menu::Home)
    }

    pub fn update(&mut self, message: AppMessage) -> (r: Vec<Command>)
        requires
            old(self).wf(),
        ensures
            final(self).wf(),
            message is ChangeRole ==> final(self).role == message->ChangeRole_0 && final(self).menu
                == old(self).menu && shows(final(self).screen, final(self).role, final(self).menu),
            message is Menu ==> final(self).role == old(self).role && final(self).menu
                == message->Menu_0 && shows(final(self).screen, final(self).role, final(self).menu),
    {
        match message {
            AppMessage::Synced { stakeholder, manager } => self.on_synced(stakeholder, manager),
            AppMessage::ChangeRole(role) => {
                let menu = self.menu;
                self.load_state(role, menu)
            },
            AppMessage::Menu(menu) => {
                let role = self.role;
                self.load_state(role, menu)
            },
            AppMessage::State(m) => vec![self.screen.update(m)],
            AppMessage::Send(m) => match &mut self.screen {
                Screen::ManagerSend(s) => vec![s.update(m)],
                _ => Vec::new(),
            },
        }
    }
}

} // verus!
