//! The session actor: one command at a time, it keeps the registry of
//! known servers and leads a login through to its session token.
//!
//! The actor itself awaits nothing. Its caller performs what an action
//! names (constructing a client, logging in, fetching a token) and reports
//! how it ended; the actor decides what follows and which events the
//! interface receives.

pub mod laws;

use crate::discovery::{Discovery, DiscoveryView};
use crate::text::{distinct, find_text, texts};
use vstd::prelude::*;

verus! {

/// `uuid::Uuid`, the identity of a room. It is carried through and never
/// looked into.
#[verifier::external_type_specification]
#[verifier::external_body]
pub struct ExUuid(uuid::Uuid);

/// The credentials of one login and the server they are meant for.
#[derive(Debug)]
pub struct LoginRequest {
    url: String,
    username: String,
    password: String,
}

/// The mathematical content of a [`LoginRequest`].
pub struct LoginRequestView {
    pub url: Seq<char>,
    pub username: Seq<char>,
    pub password: Seq<char>,
}

impl View for LoginRequest {
    type V = LoginRequestView;

    closed spec fn view(&self) -> LoginRequestView {
        LoginRequestView { url: self.url@, username: self.username@, password: self.password@ }
    }
}

impl LoginRequest {
    pub fn new(url: &str, username: &str, password: &str) -> (r: LoginRequest)
        ensures
            r@ == (LoginRequestView { url: url@, username: username@, password: password@ }),
    {
        LoginRequest {
            username: String::from_str(username),
            url: String::from_str(url),
            password: String::from_str(password),
        }
    }

    pub fn url(&self) -> (r: &String)
        ensures
            r@ == self@.url,
    {
        &self.url
    }

    pub fn username(&self) -> (r: &String)
        ensures
            r@ == self@.username,
    {
        &self.username
    }

    pub fn password(&self) -> (r: &String)
        ensures
            r@ == self@.password,
    {
        &self.password
    }
}

impl Clone for LoginRequest {
    fn clone(&self) -> (r: Self)
        ensures
            r@ == self@,
    {
        LoginRequest { url: self.url.clone(), username: self.username.clone(), password: self.password.clone() }
    }
}

/// How a login ended.
#[derive(Debug)]
pub enum LoginResult {
    /// The server accepted the credentials.
    Success,
    /// The server rejected the credentials.
    Unauthorized,
    /// No server is registered under the URL.
    UnknownServer(String),
}

/// The mathematical content of a [`LoginResult`].
pub enum LoginResultView {
    Success,
    Unauthorized,
    UnknownServer(Seq<char>),
}

impl View for LoginResult {
    type V = LoginResultView;

    open spec fn view(&self) -> LoginResultView {
        match self {
            LoginResult::Success => LoginResultView::Success,
            LoginResult::Unauthorized => LoginResultView::Unauthorized,
            LoginResult::UnknownServer(u) => LoginResultView::UnknownServer(u@),
        }
    }
}

impl Clone for LoginResult {
    fn clone(&self) -> (r: Self)
        ensures
            r@ == self@,
    {
        match self {
            LoginResult::Success => LoginResult::Success,
            LoginResult::Unauthorized => LoginResult::Unauthorized,
            LoginResult::UnknownServer(u) => LoginResult::UnknownServer(u.clone()),
        }
    }
}

/// The credential of one room, as a token exchange hands it out.
#[derive(Debug)]
pub struct TokenResponse {
    pub url: String,
    pub token: String,
    pub room: String,
    pub room_id: uuid::Uuid,
}

/// The mathematical content of a [`TokenResponse`].
pub struct TokenResponseView {
    pub url: Seq<char>,
    pub token: Seq<char>,
    pub room: Seq<char>,
    pub room_id: uuid::Uuid,
}

impl View for TokenResponse {
    type V = TokenResponseView;

    open spec fn view(&self) -> TokenResponseView {
        TokenResponseView { url: self.url@, token: self.token@, room: self.room@, room_id: self.room_id }
    }
}

impl Clone for TokenResponse {
    fn clone(&self) -> (r: Self)
        ensures
            r@ == self@,
    {
        TokenResponse {
            url: self.url.clone(),
            token: self.token.clone(),
            room: self.room.clone(),
            room_id: self.room_id,
        }
    }
}

/// What the actor is asked to do.
#[derive(Debug)]
pub enum VerdantCmd {
    /// Log in to a registered server.
    Login(LoginRequest),
    /// A server was found, by the resolver or by the user's own entry.
    ServerDiscovered(Discovery),
}

/// The mathematical content of a [`VerdantCmd`].
pub enum VerdantCmdView {
    Login(LoginRequestView),
    ServerDiscovered(DiscoveryView),
}

impl View for VerdantCmd {
    type V = VerdantCmdView;

    open spec fn view(&self) -> VerdantCmdView {
        match self {
            VerdantCmd::Login(r) => VerdantCmdView::Login(r@),
            VerdantCmd::ServerDiscovered(d) => VerdantCmdView::ServerDiscovered(d@),
        }
    }
}

impl Clone for VerdantCmd {
    fn clone(&self) -> (r: Self)
        ensures
            r@ == self@,
    {
        match self {
            VerdantCmd::Login(request) => VerdantCmd::Login(request.clone()),
            VerdantCmd::ServerDiscovered(server) => VerdantCmd::ServerDiscovered(server.clone()),
        }
    }
}

impl VerdantCmd {
    /// The command that asks for a login with the given credentials.
    pub fn login(url: &str, username: &str, password: &str) -> (r: VerdantCmd)
        ensures
            r@ == VerdantCmdView::Login(LoginRequestView { url: url@, username: username@, password: password@ }),
    {
        VerdantCmd::Login(LoginRequest::new(url, username, password))
    }
}

/// The call to a server during which something went wrong.
#[derive(Clone, Copy, Debug, PartialEq, Eq, Structural)]
pub enum FailedCall {
    /// The construction of the client of a discovered server.
    Construction,
    /// The login call; the server was not reached or did not answer.
    Login,
    /// The exchange of a login for a session token.
    TokenExchange,
}

/// What the actor tells the interface.
#[derive(Debug)]
pub enum VerdantUiCmd {
    LoginResult(LoginResult),
    /// A server was registered and can be logged in to.
    ServerDiscovered(Discovery),
    /// A token exchange succeeded.
    LkToken(TokenResponse),
    /// A call to the server at `url` failed for the given reason; what was
    /// under way has ended.
    Failed { call: FailedCall, url: String, reason: String },
}

/// The mathematical content of a [`VerdantUiCmd`].
pub enum VerdantUiCmdView {
    LoginResult(LoginResultView),
    ServerDiscovered(DiscoveryView),
    LkToken(TokenResponseView),
    Failed { call: FailedCall, url: Seq<char>, reason: Seq<char> },
}

impl View for VerdantUiCmd {
    type V = VerdantUiCmdView;

    open spec fn view(&self) -> VerdantUiCmdView {
        match self {
            VerdantUiCmd::LoginResult(r) => VerdantUiCmdView::LoginResult(r@),
            VerdantUiCmd::ServerDiscovered(d) => VerdantUiCmdView::ServerDiscovered(d@),
            VerdantUiCmd::LkToken(t) => VerdantUiCmdView::LkToken(t@),
            VerdantUiCmd::Failed { call, url, reason } => VerdantUiCmdView::Failed {
                call: *call,
                url: url@,
                reason: reason@,
            },
        }
    }
}

impl Clone for VerdantUiCmd {
    fn clone(&self) -> (r: Self)
        ensures
            r@ == self@,
    {
        match self {
            VerdantUiCmd::LoginResult(result) => VerdantUiCmd::LoginResult(result.clone()),
            VerdantUiCmd::ServerDiscovered(server) => VerdantUiCmd::ServerDiscovered(server.clone()),
            VerdantUiCmd::LkToken(token) => VerdantUiCmd::LkToken(token.clone()),
            VerdantUiCmd::Failed { call, url, reason } => VerdantUiCmd::Failed {
                call: *call,
                url: url.clone(),
                reason: reason.clone(),
            },
        }
    }
}

/// The contents of a list of events.
pub open spec fn ui_cmds(v: Seq<VerdantUiCmd>) -> Seq<VerdantUiCmdView> {
    v.map_values(|e: VerdantUiCmd| e@)
}

/// What the actor is waiting for.
#[derive(Debug)]
pub enum Pending {
    /// The next command.
    Idle,
    /// The client of a newly found server.
    Constructing(Discovery),
    /// The answer to a login on the client with this handle.
    LoggingIn(usize),
    /// The token from the client with this handle.
    FetchingToken(usize),
    /// Nothing: the actor has ended.
    Stopped,
}

/// The mathematical content of a [`Pending`].
pub enum PendingView {
    Idle,
    Constructing(DiscoveryView),
    LoggingIn(nat),
    FetchingToken(nat),
    Stopped,
}

impl View for Pending {
    type V = PendingView;

    open spec fn view(&self) -> PendingView {
        match self {
            Pending::Idle => PendingView::Idle,
            Pending::Constructing(d) => PendingView::Constructing(d@),
            Pending::LoggingIn(h) => PendingView::LoggingIn(*h as nat),
            Pending::FetchingToken(h) => PendingView::FetchingToken(*h as nat),
            Pending::Stopped => PendingView::Stopped,
        }
    }
}

/// What the caller reports to the actor. Where a call to a server has
/// failed, the report carries the reason as text.
#[derive(Debug)]
pub enum ServiceInput {
    /// A command arrived on the inbound queue.
    Command(VerdantCmd),
    /// The inbound queue is closed: every sender is gone.
    Closed,
    /// The construction of a client ended.
    Constructed(Result<(), String>),
    /// The login call ended: with the server's answer, or without one.
    LoginFinished(Result<LoginResult, String>),
    /// The token exchange ended.
    TokenFinished(Result<TokenResponse, String>),
}

/// The mathematical content of a [`ServiceInput`].
pub enum ServiceInputView {
    Command(VerdantCmdView),
    Closed,
    Constructed(Result<(), Seq<char>>),
    LoginFinished(Result<LoginResultView, Seq<char>>),
    TokenFinished(Result<TokenResponseView, Seq<char>>),
}

impl View for ServiceInput {
    type V = ServiceInputView;

    open spec fn view(&self) -> ServiceInputView {
        match self {
            ServiceInput::Command(c) => ServiceInputView::Command(c@),
            ServiceInput::Closed => ServiceInputView::Closed,
            ServiceInput::Constructed(r) => ServiceInputView::Constructed(
                match r {
                    Ok(_) => Ok(()),
                    Err(reason) => Err(reason@),
                },
            ),
            ServiceInput::LoginFinished(r) => ServiceInputView::LoginFinished(
                match r {
                    Ok(result) => Ok(result@),
                    Err(reason) => Err(reason@),
                },
            ),
            ServiceInput::TokenFinished(r) => ServiceInputView::TokenFinished(
                match r {
                    Ok(t) => Ok(t@),
                    Err(reason) => Err(reason@),
                },
            ),
        }
    }
}

/// What the caller has to do next.
#[derive(Debug)]
pub enum ServiceAction {
    /// Await the next command.
    Receive,
    /// Construct the client of this server; its handle will be `client`.
    Construct { client: usize, server: Discovery },
    /// Log in on the client with this handle.
    Login { client: usize, username: String, password: String },
    /// Ask the client with this handle for a session token.
    FetchToken { client: usize },
    /// The input did not answer what the actor waits for and was dropped.
    Busy,
    /// Leave the loop.
    Halt,
}

/// The mathematical content of a [`ServiceAction`].
pub enum ServiceActionView {
    Receive,
    Construct { client: nat, server: DiscoveryView },
    Login { client: nat, username: Seq<char>, password: Seq<char> },
    FetchToken { client: nat },
    Busy,
    Halt,
}

impl View for ServiceAction {
    type V = ServiceActionView;

    open spec fn view(&self) -> ServiceActionView {
        match self {
            ServiceAction::Receive => ServiceActionView::Receive,
            ServiceAction::Construct { client, server } => ServiceActionView::Construct {
                client: *client as nat,
                server: server@,
            },
            ServiceAction::Login { client, username, password } => ServiceActionView::Login {
                client: *client as nat,
                username: username@,
                password: password@,
            },
            ServiceAction::FetchToken { client } => ServiceActionView::FetchToken { client: *client as nat },
            ServiceAction::Busy => ServiceActionView::Busy,
            ServiceAction::Halt => ServiceActionView::Halt,
        }
    }
}

/// The events of one step and the action that follows it.
#[derive(Debug)]
pub struct ServiceStep {
    pub events: Vec<VerdantUiCmd>,
    pub next: ServiceAction,
}

/// The state of the actor as mathematical values: the canonical URLs of
/// the registered servers, the handle of each being its position, and what
/// the actor waits for.
pub struct ServiceView {
    pub clients: Seq<Seq<char>>,
    pub pending: PendingView,
}

/// A state after one step, with the events and the action of that step.
pub struct Outcome {
    pub state: ServiceView,
    pub events: Seq<VerdantUiCmdView>,
    pub next: ServiceActionView,
}

impl ServiceView {
    /// No URL is registered twice, a handle in use is that of a registered
    /// server, and a server under construction is not registered yet.
    pub open spec fn wf(self) -> bool {
        &&& distinct(self.clients)
        &&& match self.pending {
            PendingView::Constructing(d) => !self.clients.contains(d.url),
            PendingView::LoggingIn(h) => h < self.clients.len(),
            PendingView::FetchingToken(h) => h < self.clients.len(),
            _ => true,
        }
    }

    /// The state with another thing to wait for.
    pub open spec fn waiting(self, pending: PendingView) -> ServiceView {
        ServiceView { clients: self.clients, pending }
    }

    /// A step that changes nothing but what the actor waits for.
    pub open spec fn quiet(self, pending: PendingView, next: ServiceActionView) -> Outcome {
        Outcome { state: self.waiting(pending), events: Seq::empty(), next }
    }

    /// A step that ends what was under way with one event: the actor is
    /// idle again, its registry as it was, and awaits the next command.
    pub open spec fn ended(self, event: VerdantUiCmdView) -> Outcome {
        Outcome { state: self.waiting(PendingView::Idle), events: seq![event], next: ServiceActionView::Receive }
    }

    /// The step for a command that arrives while the actor is idle.
    pub open spec fn on_command(self, cmd: VerdantCmdView) -> Outcome {
        match cmd {
            VerdantCmdView::Login(request) => if self.clients.contains(request.url) {
                let client = self.clients.index_of(request.url) as nat;
                self.quiet(
                    PendingView::LoggingIn(client),
                    ServiceActionView::Login { client, username: request.username, password: request.password },
                )
            } else {
                self.ended(VerdantUiCmdView::LoginResult(LoginResultView::UnknownServer(request.url)))
            },
            VerdantCmdView::ServerDiscovered(server) => if self.clients.contains(server.url) {
                self.quiet(PendingView::Idle, ServiceActionView::Receive)
            } else {
                self.quiet(
                    PendingView::Constructing(server),
                    ServiceActionView::Construct { client: self.clients.len(), server },
                )
            },
        }
    }

    /// One step of the actor.
    ///
    /// Idle, it takes a command: a login for an unregistered URL is
    /// answered at once, one for a registered URL starts the login call; a
    /// server whose URL is registered is passed over, any other has its
    /// client constructed. A client that was constructed registers the
    /// server and announces it. A login that the server granted is
    /// announced and followed by the token exchange; any other answer is
    /// announced and ends the login. A token is announced.
    ///
    /// A call that fails (the construction, the login call, the token
    /// exchange) is reported to the interface with its reason and ends
    /// what was under way; the registry stays as it was and the actor
    /// takes the next command. Only the closing of the queue ends the
    /// actor. An input that does not answer what the actor waits for
    /// changes nothing.
    pub open spec fn step(self, input: ServiceInputView) -> Outcome {
        match (self.pending, input) {
            (PendingView::Idle, ServiceInputView::Command(cmd)) => self.on_command(cmd),
            (PendingView::Idle, ServiceInputView::Closed) => self.quiet(PendingView::Stopped, ServiceActionView::Halt),
            (PendingView::Constructing(server), ServiceInputView::Constructed(done)) => match done {
                Ok(_) => Outcome {
                    state: ServiceView { clients: self.clients.push(server.url), pending: PendingView::Idle },
                    events: seq![VerdantUiCmdView::ServerDiscovered(server)],
                    next: ServiceActionView::Receive,
                },
                Err(reason) => self.ended(
                    VerdantUiCmdView::Failed { call: FailedCall::Construction, url: server.url, reason },
                ),
            },
            (PendingView::LoggingIn(client), ServiceInputView::LoginFinished(done)) => match done {
                Ok(result) => if result == LoginResultView::Success {
                    Outcome {
                        state: self.waiting(PendingView::FetchingToken(client)),
                        events: seq![VerdantUiCmdView::LoginResult(result)],
                        next: ServiceActionView::FetchToken { client },
                    }
                } else {
                    self.ended(VerdantUiCmdView::LoginResult(result))
                },
                Err(reason) => self.ended(
                    VerdantUiCmdView::Failed { call: FailedCall::Login, url: self.clients[client as int], reason },
                ),
            },
            (PendingView::FetchingToken(client), ServiceInputView::TokenFinished(done)) => match done {
                Ok(token) => self.ended(VerdantUiCmdView::LkToken(token)),
                Err(reason) => self.ended(
                    VerdantUiCmdView::Failed {
                        call: FailedCall::TokenExchange,
                        url: self.clients[client as int],
                        reason,
                    },
                ),
            },
            (PendingView::Stopped, _) => self.quiet(PendingView::Stopped, ServiceActionView::Halt),
            _ => self.quiet(self.pending, ServiceActionView::Busy),
        }
    }
}

/// The actor's state: the registry of clients and what the actor waits for.
#[derive(Debug)]
pub struct ServiceState {
    clients: Vec<String>,
    pending: Pending,
}

impl View for ServiceState {
    type V = ServiceView;

    closed spec fn view(&self) -> ServiceView {
        ServiceView { clients: texts(self.clients@), pending: self.pending@ }
    }
}

/// Takes one input in a state given by its parts and returns the parts of
/// the state that follows, with the events and the action of the step.
fn advance(clients: Vec<String>, pending: Pending, input: ServiceInput) -> (r: (
    Vec<String>,
    Pending,
    Vec<VerdantUiCmd>,
    ServiceAction,
))
    requires
        (ServiceView { clients: texts(clients@), pending: pending@ }).wf(),
    ensures
        (Outcome {
            state: ServiceView { clients: texts(r.0@), pending: r.1@ },
            events: ui_cmds(r.2@),
            next: r.3@,
        }) == (ServiceView { clients: texts(clients@), pending: pending@ }).step(input@),
        (ServiceView { clients: texts(r.0@), pending: r.1@ }).wf(),
{
    let mut clients = clients;
    let ghost before = ServiceView { clients: texts(clients@), pending: pending@ };
    match (pending, input) {
        (Pending::Idle, ServiceInput::Command(VerdantCmd::Login(request))) => {
            match find_text(&clients, &request.url) {
                Some(client) => {
                    proof {
                        lemma_index_of_distinct(texts(clients@), client as int);
                    }
                    let next = ServiceAction::Login {
                        client,
                        username: request.username,
                        password: request.password,
                    };
                    (clients, Pending::LoggingIn(client), no_event(), next)
                },
                None => {
                    let event = VerdantUiCmd::LoginResult(LoginResult::UnknownServer(request.url));
                    (clients, Pending::Idle, one_event(event), ServiceAction::Receive)
                },
            }
        },
        (Pending::Idle, ServiceInput::Command(VerdantCmd::ServerDiscovered(server))) => {
            if find_text(&clients, server.canonical_url()).is_some() {
                (clients, Pending::Idle, no_event(), ServiceAction::Receive)
            } else {
                let next = ServiceAction::Construct { client: clients.len(), server: server.clone() };
                (clients, Pending::Constructing(server), no_event(), next)
            }
        },
        (Pending::Idle, ServiceInput::Closed) => (clients, Pending::Stopped, no_event(), ServiceAction::Halt),
        (Pending::Constructing(server), ServiceInput::Constructed(done)) => {
            match done {
                Ok(_) => {
                    clients.push(server.canonical_url().clone());
                    proof {
                        assert(texts(clients@) =~= before.clients.push(server@.url));
                        lemma_push_distinct(before.clients, server@.url);
                    }
                    (clients, Pending::Idle, one_event(VerdantUiCmd::ServerDiscovered(server)), ServiceAction::Receive)
                },
                Err(reason) => {
                    let event = VerdantUiCmd::Failed {
                        call: FailedCall::Construction,
                        url: server.canonical_url().clone(),
                        reason,
                    };
                    (clients, Pending::Idle, one_event(event), ServiceAction::Receive)
                },
            }
        },
        (Pending::LoggingIn(client), ServiceInput::LoginFinished(done)) => {
            match done {
                Ok(result) => {
                    let granted = match &result {
                        LoginResult::Success => true,
                        _ => false,
                    };
                    let events = one_event(VerdantUiCmd::LoginResult(result));
                    if granted {
                        (clients, Pending::FetchingToken(client), events, ServiceAction::FetchToken { client })
                    } else {
                        (clients, Pending::Idle, events, ServiceAction::Receive)
                    }
                },
                Err(reason) => {
                    assert(texts(clients@)[client as int] == clients[client as int]@);
                    let event = VerdantUiCmd::Failed { call: FailedCall::Login, url: clients[client].clone(), reason };
                    (clients, Pending::Idle, one_event(event), ServiceAction::Receive)
                },
            }
        },
        (Pending::FetchingToken(client), ServiceInput::TokenFinished(done)) => {
            match done {
                Ok(token) => (clients, Pending::Idle, one_event(VerdantUiCmd::LkToken(token)), ServiceAction::Receive),
                Err(reason) => {
                    assert(texts(clients@)[client as int] == clients[client as int]@);
                    let event = VerdantUiCmd::Failed {
                        call: FailedCall::TokenExchange,
                        url: clients[client].clone(),
                        reason,
                    };
                    (clients, Pending::Idle, one_event(event), ServiceAction::Receive)
                },
            }
        },
        (Pending::Stopped, _) => (clients, Pending::Stopped, no_event(), ServiceAction::Halt),
        (pending, _) => (clients, pending, no_event(), ServiceAction::Busy),
    }
}

/// The events of a step that tells the interface nothing.
fn no_event() -> (events: Vec<VerdantUiCmd>)
    ensures
        ui_cmds(events@) == Seq::<VerdantUiCmdView>::empty(),
{
    let events: Vec<VerdantUiCmd> = Vec::new();
    assert(ui_cmds(events@) =~= Seq::<VerdantUiCmdView>::empty());
    events
}

/// The events of a step that tells the interface one thing.
fn one_event(event: VerdantUiCmd) -> (events: Vec<VerdantUiCmd>)
    ensures
        ui_cmds(events@) == seq![event@],
{
    let mut events: Vec<VerdantUiCmd> = Vec::new();
    events.push(event);
    assert(ui_cmds(events@) =~= seq![event@]);
    events
}

impl ServiceState {
    #[verifier::type_invariant]
    spec fn inv(self) -> bool {
        self@.wf()
    }

    /// An idle actor with an empty registry.
    pub fn new() -> (r: ServiceState)
        ensures
            r@ == (ServiceView { clients: Seq::empty(), pending: PendingView::Idle }),
    {
        let r = ServiceState { clients: Vec::new(), pending: Pending::Idle };
        assert(texts(r.clients@) =~= Seq::<Seq<char>>::empty());
        r
    }

    /// Number of registered servers. No URL is registered twice.
    pub fn registered(&self) -> (n: usize)
        ensures
            n == self@.clients.len(),
            self@.wf(),
    {
        proof {
            use_type_invariant(self);
        }
        self.clients.len()
    }

    /// The URL registered under a handle.
    pub fn url_of(&self, client: usize) -> (r: Option<&String>)
        ensures
            match r {
                Some(u) => client < self@.clients.len() && u@ == self@.clients[client as int],
                None => client >= self@.clients.len(),
            },
    {
        if client < self.clients.len() {
            Some(&self.clients[client])
        } else {
            None
        }
    }

    /// The handle of the client registered under a URL.
    pub fn client_of(&self, url: &String) -> (r: Option<usize>)
        ensures
            match r {
                Some(h) => self@.clients.contains(url@) && h == self@.clients.index_of(url@),
                None => !self@.clients.contains(url@),
            },
    {
        let r = find_text(&self.clients, url);
        proof {
            use_type_invariant(self);
            if let Some(h) = r {
                lemma_index_of_distinct(texts(self.clients@), h as int);
            }
        }
        r
    }

    /// Whether the actor has ended.
    pub fn is_stopped(&self) -> (b: bool)
        ensures
            b == (self@.pending == PendingView::Stopped),
    {
        match self.pending {
            Pending::Stopped => true,
            _ => false,
        }
    }

    /// Whether the actor waits for the next command.
    pub fn is_idle(&self) -> (b: bool)
        ensures
            b == (self@.pending == PendingView::Idle),
    {
        match self.pending {
            Pending::Idle => true,
            _ => false,
        }
    }

    /// Takes one input and decides what follows: see [`ServiceView::step`].
    /// The state is well formed before and after.
    pub fn handle(&mut self, input: ServiceInput) -> (r: ServiceStep)
        ensures
            old(self)@.wf(),
            final(self)@.wf(),
            (Outcome { state: final(self)@, events: ui_cmds(r.events@), next: r.next@ }) == old(self)@.step(input@),
            r.events@.len() == old(self)@.step(input@).events.len(),
    {
        let mut taken = ServiceState::new();
        core::mem::swap(self, &mut taken);
        proof {
            use_type_invariant(&taken);
        }
        let ServiceState { clients, pending } = taken;
        let (clients, pending, events, next) = advance(clients, pending, input);
        *self = ServiceState { clients, pending };
        assert(ui_cmds(events@).len() == events@.len());
        ServiceStep { events, next }
    }
}

/// In a list without repetition, the position of an element is the first
/// position of its value.
pub proof fn lemma_index_of_distinct(s: Seq<Seq<char>>, i: int)
    requires
        distinct(s),
        0 <= i < s.len(),
    ensures
        s.index_of(s[i]) == i,
{
    let j = s.index_of(s[i]);
    assert(s.contains(s[i]));
    assert(0 <= j < s.len() && s[j] == s[i]);
}

/// Appending a text that is not in a list without repetition keeps the list
/// without repetition.
pub proof fn lemma_push_distinct(s: Seq<Seq<char>>, t: Seq<char>)
    requires
        distinct(s),
        !s.contains(t),
    ensures
        distinct(s.push(t)),
{
    assert forall|i: int, j: int| 0 <= i < j < s.push(t).len() implies s.push(t)[i] != s.push(t)[j] by {
        if j == s.len() {
            assert(s[i] == s.push(t)[i]);
            assert(s.contains(s[i]));
        }
    }
}

} // verus!
