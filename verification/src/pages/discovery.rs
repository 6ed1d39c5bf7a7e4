//! The servers a page offers, each under its canonical URL.

use crate::discovery::{discoveries, urls_of, Discovery, DiscoveryView};
use crate::text::distinct;
use vstd::prelude::*;

verus! {

/// The servers a page has been told of, in the order they came, one per
/// canonical URL.
#[derive(Debug)]
pub struct DiscoveryState {
    discoveries: Vec<Discovery>,
}

impl View for DiscoveryState {
    type V = Seq<DiscoveryView>;

    closed spec fn view(&self) -> Seq<DiscoveryView> {
        discoveries(self.discoveries@)
    }
}

/// A list of servers after one more was reported: a server whose URL the
/// list has is dropped, any other goes to the end.
pub open spec fn with_server(servers: Seq<DiscoveryView>, server: DiscoveryView) -> Seq<DiscoveryView> {
    if urls_of(servers).contains(server.url) {
        servers
    } else {
        servers.push(server)
    }
}

/// Reporting a server keeps a list free of repeated URLs.
pub proof fn lemma_with_server_distinct(servers: Seq<DiscoveryView>, server: DiscoveryView)
    requires
        distinct(urls_of(servers)),
    ensures
        distinct(urls_of(with_server(servers, server))),
{
    if !urls_of(servers).contains(server.url) {
        assert(urls_of(servers.push(server)) =~= urls_of(servers).push(server.url));
        crate::services::lemma_push_distinct(urls_of(servers), server.url);
    }
}

impl DiscoveryState {
    /// No server is known yet.
    pub fn new() -> (r: DiscoveryState)
        ensures
            r@ == Seq::<DiscoveryView>::empty(),
    {
        let r = DiscoveryState { discoveries: Vec::new() };
        assert(r@ =~= Seq::<DiscoveryView>::empty());
        r
    }

    /// Number of servers.
    pub fn len(&self) -> (n: usize)
        ensures
            n == self@.len(),
    {
        self.discoveries.len()
    }

    /// Position of the server with the given canonical URL.
    pub fn position(&self, url: &String) -> (r: Option<usize>)
        ensures
            match r {
                Some(i) => i < self@.len() && self@[i as int].url == url@ && urls_of(self@).contains(url@),
                None => !urls_of(self@).contains(url@),
            },
    {
        let mut i: usize = 0;
        while i < self.discoveries.len()
            invariant
                i <= self.discoveries.len(),
                forall|k: int| 0 <= k < i ==> self.discoveries[k]@.url != url@,
            decreases self.discoveries.len() - i,
        {
            if *self.discoveries[i].canonical_url() == *url {
                assert(urls_of(self@)[i as int] == url@);
                return Some(i);
            }
            i += 1;
        }
        assert forall|k: int| 0 <= k < urls_of(self@).len() implies urls_of(self@)[k] != url@ by {
            assert(urls_of(self@)[k] == self.discoveries[k]@.url);
        }
        None
    }

    /// The server with the given canonical URL.
    pub fn get(&self, url: &String) -> (r: Option<&Discovery>)
        ensures
            match r {
                Some(d) => urls_of(self@).contains(url@) && d@.url == url@ && self@.contains(d@),
                None => !urls_of(self@).contains(url@),
            },
    {
        match self.position(url) {
            Some(i) => {
                assert(self@[i as int] == self.discoveries[i as int]@);
                Some(&self.discoveries[i])
            },
            None => None,
        }
    }

    /// The server at a position.
    pub fn at(&self, i: usize) -> (r: Option<&Discovery>)
        ensures
            match r {
                Some(d) => i < self@.len() && d@ == self@[i as int],
                None => i >= self@.len(),
            },
    {
        if i < self.discoveries.len() {
            Some(&self.discoveries[i])
        } else {
            None
        }
    }

    /// Takes a reported server unless one with its URL is held; returns
    /// whether it was taken.
    pub fn insert(&mut self, server: Discovery) -> (taken: bool)
        ensures
            final(self)@ == with_server(old(self)@, server@),
            taken == !urls_of(old(self)@).contains(server@.url),
    {
        let ghost was = self@;
        if self.position(server.canonical_url()).is_none() {
            self.discoveries.push(server);
            assert(self@ =~= was.push(server@));
            true
        } else {
            false
        }
    }
}

} // verus!
