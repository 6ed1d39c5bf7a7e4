//! What the pages of the interface keep and how they take the actor's
//! events.

pub mod accounts;
pub mod discovery;
pub mod login;
pub mod settings;

use crate::services::{VerdantUiCmd, VerdantUiCmdView};
use vstd::prelude::*;

verus! {

/// The page that is shown.
#[derive(Debug, Clone, Copy, PartialEq, Eq, Structural)]
pub enum ActivePage {
    Login,
    Room,
    Account,
    Settings,
    Discover,
}

/// Where an event of the actor goes.
#[derive(Debug, Clone, Copy, PartialEq, Eq, Structural)]
pub enum Route {
    /// A token has come: the room page takes it and is shown from now on.
    EnterRoom,
    /// The login page takes the event.
    Login,
    /// The page that is shown takes no events.
    Unhandled,
}

impl ActivePage {
    /// Where an event goes while this page is shown: a token opens the
    /// room whatever is shown, anything else goes to the login page if
    /// that is shown.
    pub open spec fn route_of(self, cmd: VerdantUiCmdView) -> Route {
        if cmd is LkToken {
            Route::EnterRoom
        } else if self == ActivePage::Login {
            Route::Login
        } else {
            Route::Unhandled
        }
    }

    /// The page shown after an event.
    pub open spec fn after(self, cmd: VerdantUiCmdView) -> ActivePage {
        if cmd is LkToken {
            ActivePage::Room
        } else {
            self
        }
    }

    /// Decides where an event goes and which page is shown after it.
    pub fn route(&mut self, cmd: &VerdantUiCmd) -> (r: Route)
        ensures
            r == old(self).route_of(cmd@),
            *final(self) == old(self).after(cmd@),
    {
        match cmd {
            VerdantUiCmd::LkToken(_) => {
                *self = ActivePage::Room;
                Route::EnterRoom
            },
            _ => match self {
                ActivePage::Login => Route::Login,
                _ => Route::Unhandled,
            },
        }
    }
}

} // verus!
