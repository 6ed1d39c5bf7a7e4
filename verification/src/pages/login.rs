//! The login page: the form, the servers on offer and the message that
//! tells how a login went.

use crate::discovery::DiscoveryView;
use crate::pages::discovery::{with_server, DiscoveryState};
use crate::services::{
    FailedCall, LoginRequestView, LoginResult, LoginResultView, VerdantCmd, VerdantCmdView, VerdantUiCmd,
    VerdantUiCmdView,
};
use vstd::prelude::*;

verus! {

/// What the login page keeps.
#[derive(Debug)]
pub struct LoginState {
    url: String,
    username: String,
    password: String,
    login_message: Option<String>,
    servers: DiscoveryState,
    active: Option<String>,
}

/// The mathematical content of a [`LoginState`].
pub struct LoginStateView {
    pub url: Seq<char>,
    pub username: Seq<char>,
    pub password: Seq<char>,
    pub login_message: Option<Seq<char>>,
    pub servers: Seq<DiscoveryView>,
    pub active: Option<Seq<char>>,
}

/// The view of a text that may be missing.
pub open spec fn text_view(t: Option<String>) -> Option<Seq<char>> {
    match t {
        Some(s) => Some(s@),
        None => None,
    }
}

/// The message that tells the user which call to a server failed, and why.
pub open spec fn failure_message(call: FailedCall, url: Seq<char>, reason: Seq<char>) -> Seq<char> {
    match call {
        FailedCall::Construction => "couldn't reach server "@ + url + ": "@ + reason,
        FailedCall::Login => "login failed: "@ + reason,
        FailedCall::TokenExchange => "couldn't get a session token: "@ + reason,
    }
}

/// Writes the message that tells the user which call to a server failed.
pub fn failure_text(call: FailedCall, url: &String, reason: &String) -> (r: String)
    ensures
        r@ == failure_message(call, url@, reason@),
{
    match call {
        FailedCall::Construction => {
            let mut r = String::from_str("couldn't reach server ");
            r.append(url.as_str());
            r.append(": ");
            r.append(reason.as_str());
            r
        },
        FailedCall::Login => {
            let mut r = String::from_str("login failed: ");
            r.append(reason.as_str());
            r
        },
        FailedCall::TokenExchange => {
            let mut r = String::from_str("couldn't get a session token: ");
            r.append(reason.as_str());
            r
        },
    }
}

/// The message that tells the user how a login went.
pub open spec fn message_for(result: LoginResultView) -> Seq<char> {
    match result {
        LoginResultView::Unauthorized => "incorrect username or password"@,
        LoginResultView::UnknownServer(server) => "couldn't find request server: "@ + server,
        LoginResultView::Success => "login successful"@,
    }
}

/// Writes the message that tells the user how a login went.
pub fn login_message(result: &LoginResult) -> (r: String)
    ensures
        r@ == message_for(result@),
{
    match result {
        LoginResult::Unauthorized => String::from_str("incorrect username or password"),
        LoginResult::UnknownServer(server) => {
            let mut r = String::from_str("couldn't find request server: ");
            r.append(server.as_str());
            r
        },
        LoginResult::Success => String::from_str("login successful"),
    }
}

impl LoginStateView {
    /// The state after an event of the actor: a reported server joins the
    /// servers on offer unless its URL is among them, the result of a
    /// login and the failure of a call set the message, so that no login
    /// stays under way for ever; a token changes nothing.
    pub open spec fn after_event(self, event: VerdantUiCmdView) -> LoginStateView {
        match event {
            VerdantUiCmdView::ServerDiscovered(server) => LoginStateView {
                servers: with_server(self.servers, server),
                ..self
            },
            VerdantUiCmdView::LoginResult(result) => LoginStateView {
                login_message: Some(message_for(result)),
                ..self
            },
            VerdantUiCmdView::LkToken(_) => self,
            VerdantUiCmdView::Failed { call, url, reason } => LoginStateView {
                login_message: Some(failure_message(call, url, reason)),
                ..self
            },
        }
    }

    /// The state after the form was submitted.
    pub open spec fn after_submit(self) -> LoginStateView {
        LoginStateView { login_message: Some("logging in..."@), ..self }
    }

    /// The state after a server on offer was chosen.
    pub open spec fn after_select(self, url: Seq<char>) -> LoginStateView {
        LoginStateView { url, active: Some(url), ..self }
    }
}

impl View for LoginState {
    type V = LoginStateView;

    closed spec fn view(&self) -> LoginStateView {
        LoginStateView {
            url: self.url@,
            username: self.username@,
            password: self.password@,
            login_message: text_view(self.login_message),
            servers: self.servers@,
            active: text_view(self.active),
        }
    }
}

impl LoginState {
    /// An empty form for the server at `url`.
    pub fn new(url: &str) -> (r: LoginState)
        ensures
            r@ == (LoginStateView {
                url: url@,
                username: Seq::empty(),
                password: Seq::empty(),
                login_message: None,
                servers: Seq::empty(),
                active: None,
            }),
    {
        LoginState {
            url: String::from_str(url),
            username: String::new(),
            password: String::new(),
            login_message: None,
            servers: DiscoveryState::new(),
            active: None,
        }
    }

    /// Fills in the name and the password.
    pub fn set_credentials(&mut self, username: &str, password: &str)
        ensures
            final(self)@ == (LoginStateView { username: username@, password: password@, ..old(self)@ }),
    {
        self.username = String::from_str(username);
        self.password = String::from_str(password);
    }

    /// Fills in the URL.
    pub fn set_url(&mut self, url: &str)
        ensures
            final(self)@ == (LoginStateView { url: url@, ..old(self)@ }),
    {
        self.url = String::from_str(url);
    }

    /// Chooses a server on offer: the form is for its URL from now on.
    pub fn select(&mut self, url: &str)
        ensures
            final(self)@ == old(self)@.after_select(url@),
    {
        self.url = String::from_str(url);
        self.active = Some(String::from_str(url));
    }

    /// Submits the form: returns the command for the actor and tells the
    /// user that the login is under way.
    pub fn submit(&mut self) -> (cmd: VerdantCmd)
        ensures
            final(self)@ == old(self)@.after_submit(),
            cmd@ == VerdantCmdView::Login(
                LoginRequestView { url: old(self)@.url, username: old(self)@.username, password: old(self)@.password },
            ),
    {
        self.login_message = Some(String::from_str("logging in..."));
        VerdantCmd::login(self.url.as_str(), self.username.as_str(), self.password.as_str())
    }

    /// Takes an event of the actor: see [`LoginStateView::after_event`].
    pub fn event(&mut self, event: VerdantUiCmd)
        ensures
            final(self)@ == old(self)@.after_event(event@),
    {
        match event {
            VerdantUiCmd::ServerDiscovered(discovery) => {
                self.servers.insert(discovery);
            },
            VerdantUiCmd::LoginResult(result) => {
                self.login_message = Some(login_message(&result));
            },
            VerdantUiCmd::LkToken(_) => {},
            VerdantUiCmd::Failed { call, url, reason } => {
                self.login_message = Some(failure_text(call, &url, &reason));
            },
        }
    }

    pub fn url(&self) -> (r: &String)
        ensures
            r@ == self@.url,
    {
        &self.url
    }

    pub fn username(&self) -> (r: &String)
        ensures
            r@ == self@.username,
    {
        &self.username
    }

    pub fn password(&self) -> (r: &String)
        ensures
            r@ == self@.password,
    {
        &self.password
    }

    pub fn login_message(&self) -> (r: &Option<String>)
        ensures
            text_view(*r) == self@.login_message,
    {
        &self.login_message
    }

    pub fn servers(&self) -> (r: &DiscoveryState)
        ensures
            r@ == self@.servers,
    {
        &self.servers
    }

    pub fn active(&self) -> (r: &Option<String>)
        ensures
            text_view(*r) == self@.active,
    {
        &self.active
    }
}

} // verus!
