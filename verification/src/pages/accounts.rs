//! The account page.

use vstd::prelude::*;

verus! {

/// What the account page knows of the user.
#[derive(Debug)]
pub struct AccountState {
    pub firstname: String,
    pub lastname: String,
    pub username: String,
    pub email: String,
}

impl Default for AccountState {
    fn default() -> (r: AccountState)
        ensures
            r.firstname@.len() == 0,
            r.lastname@.len() == 0,
            r.username@.len() == 0,
            r.email@.len() == 0,
    {
        AccountState { firstname: String::new(), lastname: String::new(), username: String::new(), email: String::new() }
    }
}

impl Clone for AccountState {
    fn clone(&self) -> (r: Self)
        ensures
            r == *self,
    {
        AccountState {
            firstname: self.firstname.clone(),
            lastname: self.lastname.clone(),
            username: self.username.clone(),
            email: self.email.clone(),
        }
    }
}

/// The account page.
#[derive(Debug)]
pub struct AccountPage {
    pub state: AccountState,
}

impl AccountPage {
    /// A page with nothing filled in.
    pub fn new() -> (r: AccountPage)
        ensures
            r.state.firstname@.len() == 0,
            r.state.lastname@.len() == 0,
            r.state.username@.len() == 0,
            r.state.email@.len() == 0,
    {
        AccountPage { state: AccountState::default() }
    }
}

} // verus!
