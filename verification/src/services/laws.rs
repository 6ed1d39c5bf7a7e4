//! What holds of the session actor over whole runs.

use crate::discovery::{lemma_screened_distinct, lemma_screened_extends, screened, urls_of, DiscoveryView};
use crate::services::{
    lemma_push_distinct, FailedCall, LoginRequestView, LoginResultView, Outcome, PendingView, ServiceActionView,
    ServiceInputView, ServiceView, TokenResponseView, VerdantCmdView, VerdantUiCmdView,
};
use crate::text::distinct;
use vstd::prelude::*;

verus! {

/// The state after a server was reported and, where the actor asked for
/// it, its client was constructed.
pub open spec fn discover(s: ServiceView, server: DiscoveryView) -> ServiceView {
    let asked = s.step(ServiceInputView::Command(VerdantCmdView::ServerDiscovered(server)));
    if asked.next is Construct {
        asked.state.step(ServiceInputView::Constructed(Ok(()))).state
    } else {
        asked.state
    }
}

/// The state after a list of servers was reported in order, each client
/// constructed where the actor asked for it.
pub open spec fn discover_all(s: ServiceView, servers: Seq<DiscoveryView>) -> ServiceView
    decreases servers.len(),
{
    if servers.len() == 0 {
        s
    } else {
        discover(discover_all(s, servers.drop_last()), servers.last())
    }
}

/// Every step keeps the state well formed: at any time a URL has at most
/// one client.
pub proof fn lemma_step_keeps_wf(s: ServiceView, input: ServiceInputView)
    requires
        s.wf(),
    ensures
        s.step(input).state.wf(),
{
    match (s.pending, input) {
        (PendingView::Idle, ServiceInputView::Command(VerdantCmdView::Login(request))) => {
            if s.clients.contains(request.url) {
                let i = s.clients.index_of(request.url);
                assert(0 <= i < s.clients.len());
            }
        },
        (PendingView::Constructing(server), ServiceInputView::Constructed(Ok(_))) => {
            lemma_push_distinct(s.clients, server.url);
        },
        _ => {},
    }
}

/// Nothing but the closing of the queue ends the actor, and it ends only an
/// idle actor: whatever a call to a server comes to, the actor goes on.
pub proof fn lemma_only_closing_stops(s: ServiceView, input: ServiceInputView)
    requires
        s.pending != PendingView::Stopped,
        s.step(input).state.pending == PendingView::Stopped,
    ensures
        input == ServiceInputView::Closed,
        s.pending == PendingView::Idle,
{
}

/// No step takes a server out of the registry or moves one: what was
/// registered stays registered under its handle.
pub proof fn lemma_registry_only_grows(s: ServiceView, input: ServiceInputView)
    ensures
        s.step(input).state.clients.len() >= s.clients.len(),
        s.step(input).state.clients.take(s.clients.len() as int) == s.clients,
{
    let after = s.step(input).state.clients;
    assert(after.take(s.clients.len() as int) =~= s.clients);
}

/// Whatever servers are reported, in whatever order and however often, the
/// registry holds each of their URLs once: it keeps what it held, in
/// place, holds nothing twice, and holds a URL exactly if it held it
/// before or a reported server has it.
pub proof fn lemma_one_client_per_url(s: ServiceView, servers: Seq<DiscoveryView>)
    requires
        s.wf(),
        s.pending == PendingView::Idle,
    ensures
        discover_all(s, servers).pending == PendingView::Idle,
        discover_all(s, servers).clients == screened(s.clients, servers).0,
        distinct(discover_all(s, servers).clients),
        discover_all(s, servers).clients.take(s.clients.len() as int) == s.clients,
        forall|u: Seq<char>| #[trigger]
            discover_all(s, servers).clients.contains(u) <==> s.clients.contains(u) || urls_of(servers).contains(u),
    decreases servers.len(),
{
    let all = discover_all(s, servers);
    lemma_screened_distinct(s.clients, servers);
    lemma_screened_extends(s.clients, servers);
    if servers.len() == 0 {
        assert(all.clients.take(s.clients.len() as int) =~= s.clients);
        assert forall|u: Seq<char>| #[trigger] all.clients.contains(u) <==> s.clients.contains(u) || urls_of(
            servers,
        ).contains(u) by {}
    } else {
        let rest = servers.drop_last();
        let d = servers.last();
        lemma_one_client_per_url(s, rest);
        let mid = discover_all(s, rest);
        assert(all == discover(mid, d));
        assert(all.clients == screened(s.clients, servers).0);
        assert(all.clients.take(s.clients.len() as int) =~= s.clients);
        assert forall|u: Seq<char>| #[trigger] all.clients.contains(u) <==> s.clients.contains(u) || urls_of(
            servers,
        ).contains(u) by {
            assert(urls_of(servers) =~= urls_of(rest).push(d.url));
            if all.clients.contains(u) {
                let k = choose|k: int| 0 <= k < all.clients.len() && all.clients[k] == u;
                if k < mid.clients.len() {
                    assert(mid.clients[k] == u);
                    assert(mid.clients.contains(u));
                    if urls_of(rest).contains(u) {
                        let j = choose|j: int| 0 <= j < urls_of(rest).len() && urls_of(rest)[j] == u;
                        assert(urls_of(servers)[j] == u);
                    }
                } else {
                    assert(u == d.url);
                    assert(urls_of(servers)[servers.len() - 1] == u);
                }
            }
            if s.clients.contains(u) {
                assert(mid.clients.contains(u));
                let k = choose|k: int| 0 <= k < mid.clients.len() && mid.clients[k] == u;
                assert(all.clients[k] == u);
            }
            if urls_of(servers).contains(u) {
                let j = choose|j: int| 0 <= j < urls_of(servers).len() && urls_of(servers)[j] == u;
                if j < rest.len() {
                    assert(urls_of(rest)[j] == u);
                    assert(mid.clients.contains(u));
                    let k = choose|k: int| 0 <= k < mid.clients.len() && mid.clients[k] == u;
                    assert(all.clients[k] == u);
                } else {
                    assert(u == d.url);
                    if mid.clients.contains(u) {
                    } else {
                        assert(all.clients[mid.clients.len() as int] == u);
                    }
                }
            }
        }
    }
}

/// From an empty registry the reported servers alone decide what is
/// registered: a URL has a client exactly if a reported server has it, and
/// no URL has two.
pub proof fn lemma_registry_of_reports(servers: Seq<DiscoveryView>)
    ensures
        ({
            let start = ServiceView { clients: Seq::empty(), pending: PendingView::Idle };
            let registry = discover_all(start, servers).clients;
            &&& distinct(registry)
            &&& forall|u: Seq<char>| #[trigger] registry.contains(u) <==> urls_of(servers).contains(u)
        }),
{
    let start = ServiceView { clients: Seq::<Seq<char>>::empty(), pending: PendingView::Idle };
    lemma_one_client_per_url(start, servers);
    let registry = discover_all(start, servers).clients;
    assert forall|u: Seq<char>| #[trigger] registry.contains(u) <==> urls_of(servers).contains(u) by {
        assert(!start.clients.contains(u));
    }
}

/// A login for a URL that was never registered is answered by exactly one
/// event, which names the URL as unknown; the registry and what the actor
/// waits for stay as they are.
pub proof fn lemma_unknown_login(s: ServiceView, request: LoginRequestView)
    requires
        s.pending == PendingView::Idle,
        !s.clients.contains(request.url),
    ensures
        s.step(ServiceInputView::Command(VerdantCmdView::Login(request))) == (Outcome {
            state: s,
            events: seq![VerdantUiCmdView::LoginResult(LoginResultView::UnknownServer(request.url))],
            next: ServiceActionView::Receive,
        }),
{
}

/// A login that succeeds and a token exchange that succeeds after it give
/// exactly two events, first the login's result, then the token; the login
/// call and the exchange go to the client registered under the URL, and
/// the actor is idle again with its registry unchanged.
pub proof fn lemma_login_then_token(s: ServiceView, request: LoginRequestView, token: TokenResponseView)
    requires
        s.wf(),
        s.pending == PendingView::Idle,
        s.clients.contains(request.url),
    ensures
        ({
            let client = s.clients.index_of(request.url) as nat;
            let asked = s.step(ServiceInputView::Command(VerdantCmdView::Login(request)));
            let answered = asked.state.step(ServiceInputView::LoginFinished(Ok(LoginResultView::Success)));
            let issued = answered.state.step(ServiceInputView::TokenFinished(Ok(token)));
            &&& asked.next == (ServiceActionView::Login {
                client,
                username: request.username,
                password: request.password,
            })
            &&& answered.next == (ServiceActionView::FetchToken { client })
            &&& issued.next == ServiceActionView::Receive
            &&& asked.events + answered.events + issued.events == seq![
                VerdantUiCmdView::LoginResult(LoginResultView::Success),
                VerdantUiCmdView::LkToken(token),
            ]
            &&& issued.state == s
        }),
{
    let asked = s.step(ServiceInputView::Command(VerdantCmdView::Login(request)));
    let answered = asked.state.step(ServiceInputView::LoginFinished(Ok(LoginResultView::Success)));
    let issued = answered.state.step(ServiceInputView::TokenFinished(Ok(token)));
    assert(asked.events + answered.events + issued.events =~= seq![
        VerdantUiCmdView::LoginResult(LoginResultView::Success),
        VerdantUiCmdView::LkToken(token),
    ]);
}

/// A login that the server grants and a token exchange that fails after it
/// give exactly two events: the login's result, then the failure of the
/// exchange with its reason and the server's URL. No token is announced,
/// and the actor is idle again with its registry unchanged.
pub proof fn lemma_failed_token_exchange_is_reported(s: ServiceView, request: LoginRequestView, reason: Seq<char>)
    requires
        s.wf(),
        s.pending == PendingView::Idle,
        s.clients.contains(request.url),
    ensures
        ({
            let asked = s.step(ServiceInputView::Command(VerdantCmdView::Login(request)));
            let answered = asked.state.step(ServiceInputView::LoginFinished(Ok(LoginResultView::Success)));
            let failed = answered.state.step(ServiceInputView::TokenFinished(Err(reason)));
            &&& asked.events + answered.events + failed.events == seq![
                VerdantUiCmdView::LoginResult(LoginResultView::Success),
                VerdantUiCmdView::Failed { call: FailedCall::TokenExchange, url: request.url, reason },
            ]
            &&& failed.next == ServiceActionView::Receive
            &&& failed.state == s
        }),
{
    let asked = s.step(ServiceInputView::Command(VerdantCmdView::Login(request)));
    let answered = asked.state.step(ServiceInputView::LoginFinished(Ok(LoginResultView::Success)));
    let failed = answered.state.step(ServiceInputView::TokenFinished(Err(reason)));
    let client = s.clients.index_of(request.url);
    assert(s.clients[client] == request.url);
    assert(asked.events + answered.events + failed.events =~= seq![
        VerdantUiCmdView::LoginResult(LoginResultView::Success),
        VerdantUiCmdView::Failed { call: FailedCall::TokenExchange, url: request.url, reason },
    ]);
}

/// A login that does not get through ends with one event and the actor
/// idle, its registry unchanged: the server's answer where it refused, the
/// failure of the call with its reason where no answer came. No token
/// exchange follows either.
pub proof fn lemma_login_that_does_not_succeed(
    s: ServiceView,
    request: LoginRequestView,
    done: Result<LoginResultView, Seq<char>>,
)
    requires
        s.wf(),
        s.pending == PendingView::Idle,
        s.clients.contains(request.url),
        done != Ok::<LoginResultView, Seq<char>>(LoginResultView::Success),
    ensures
        ({
            let asked = s.step(ServiceInputView::Command(VerdantCmdView::Login(request)));
            let answered = asked.state.step(ServiceInputView::LoginFinished(done));
            &&& asked.events.len() == 0
            &&& answered.events == seq![
                match done {
                    Ok(result) => VerdantUiCmdView::LoginResult(result),
                    Err(reason) => VerdantUiCmdView::Failed { call: FailedCall::Login, url: request.url, reason },
                },
            ]
            &&& answered.next == ServiceActionView::Receive
            &&& answered.state == s
        }),
{
    let client = s.clients.index_of(request.url);
    assert(s.clients[client] == request.url);
}

/// A client that cannot be constructed costs that server and nothing else:
/// the failure is reported with its reason, the registry is as it was, and
/// the actor takes the next command.
pub proof fn lemma_failed_construction_is_reported(s: ServiceView, server: DiscoveryView, reason: Seq<char>)
    requires
        s.pending == PendingView::Idle,
        !s.clients.contains(server.url),
    ensures
        ({
            let asked = s.step(ServiceInputView::Command(VerdantCmdView::ServerDiscovered(server)));
            let failed = asked.state.step(ServiceInputView::Constructed(Err(reason)));
            &&& asked.next == (ServiceActionView::Construct { client: s.clients.len(), server })
            &&& asked.events.len() == 0
            &&& failed.events == seq![
                VerdantUiCmdView::Failed { call: FailedCall::Construction, url: server.url, reason },
            ]
            &&& failed.next == ServiceActionView::Receive
            &&& failed.state == s
        }),
{
}

} // verus!
