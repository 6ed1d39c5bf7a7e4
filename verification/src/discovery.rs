//! Servers found on the local network and the canonical URL that keys them.

use crate::text::{clone_texts, decimal, distinct, find_text, push_decimal, texts};
use vstd::prelude::*;

verus! {

/// The scheme under which a discovered server is reached.
#[derive(Debug)]
pub enum WebProtocol {
    Https,
    Http,
    Ws,
    Wss,
    Custom(String),
}

impl WebProtocol {
    /// The scheme as it stands in front of `://` in a URL.
    pub open spec fn scheme(self) -> Seq<char> {
        match self {
            WebProtocol::Https => seq!['h', 't', 't', 'p', 's'],
            WebProtocol::Http => seq!['h', 't', 't', 'p'],
            WebProtocol::Ws => seq!['w', 's'],
            WebProtocol::Wss => seq!['w', 's', 's'],
            WebProtocol::Custom(s) => s@,
        }
    }

    /// The scheme as text.
    pub fn scheme_text(&self) -> (r: String)
        ensures
            r@ == self.scheme(),
    {
        proof {
            reveal_strlit("https");
            reveal_strlit("http");
            reveal_strlit("ws");
            reveal_strlit("wss");
        }
        let r = match self {
            WebProtocol::Https => String::from_str("https"),
            WebProtocol::Http => String::from_str("http"),
            WebProtocol::Ws => String::from_str("ws"),
            WebProtocol::Wss => String::from_str("wss"),
            WebProtocol::Custom(s) => s.clone(),
        };
        assert(r@ =~= self.scheme());
        r
    }
}

impl Clone for WebProtocol {
    fn clone(&self) -> (r: Self)
        ensures
            r == *self,
    {
        match self {
            WebProtocol::Https => WebProtocol::Https,
            WebProtocol::Http => WebProtocol::Http,
            WebProtocol::Ws => WebProtocol::Ws,
            WebProtocol::Wss => WebProtocol::Wss,
            WebProtocol::Custom(s) => WebProtocol::Custom(s.clone()),
        }
    }
}

/// The URL of a server: scheme, `://`, address, `:` and the port in decimal.
pub open spec fn url_text(scheme: Seq<char>, addr: Seq<char>, port: u16) -> Seq<char> {
    scheme + seq![':', '/', '/'] + addr + seq![':'] + decimal(port as nat)
}

/// Formats the URL of a server.
pub fn format_url(protocol: &WebProtocol, addr: &String, port: u16) -> (r: String)
    ensures
        r@ == url_text(protocol.scheme(), addr@, port),
{
    proof {
        reveal_strlit("://");
        reveal_strlit(":");
    }
    let mut r = protocol.scheme_text();
    r.append("://");
    r.append(addr.as_str());
    r.append(":");
    push_decimal(&mut r, port as u32);
    assert(r@ =~= url_text(protocol.scheme(), addr@, port));
    r
}

/// A server observed on the network. It has at least one address, and its
/// canonical URL, made from the first one, never changes.
#[derive(Debug)]
pub struct Discovery {
    version: String,
    name: String,
    host: String,
    addrs: Vec<String>,
    port: u16,
    protocol: WebProtocol,
    pubkey_hash: String,
    url: String,
}

/// The mathematical content of a [`Discovery`].
pub struct DiscoveryView {
    pub version: Seq<char>,
    pub pubkey_hash: Seq<char>,
    pub name: Seq<char>,
    pub host: Seq<char>,
    pub addrs: Seq<Seq<char>>,
    pub port: u16,
    pub scheme: Seq<char>,
    pub url: Seq<char>,
}

impl DiscoveryView {
    /// The canonical URL is the URL of the first address.
    pub open spec fn wf(self) -> bool {
        &&& self.addrs.len() >= 1
        &&& self.url == url_text(self.scheme, self.addrs[0], self.port)
    }

    /// One URL per address, in the order of the addresses.
    pub open spec fn urls(self) -> Seq<Seq<char>> {
        Seq::new(self.addrs.len(), |i: int| url_text(self.scheme, self.addrs[i], self.port))
    }

    /// The line under which a server is offered for selection: name, host
    /// in brackets, then scheme, first address and port.
    pub open spec fn label(self) -> Seq<char> {
        self.name + seq![' ', '('] + self.host + seq![')', ' ', '-', ' '] + self.url
    }
}

impl View for Discovery {
    type V = DiscoveryView;

    closed spec fn view(&self) -> DiscoveryView {
        DiscoveryView {
            version: self.version@,
            pubkey_hash: self.pubkey_hash@,
            name: self.name@,
            host: self.host@,
            addrs: texts(self.addrs@),
            port: self.port,
            scheme: self.protocol.scheme(),
            url: self.url@,
        }
    }
}

impl Clone for Discovery {
    fn clone(&self) -> (r: Self)
        ensures
            r@ == self@,
    {
        proof {
            use_type_invariant(self);
        }
        Discovery {
            version: self.version.clone(),
            pubkey_hash: self.pubkey_hash.clone(),
            name: self.name.clone(),
            host: self.host.clone(),
            addrs: clone_texts(&self.addrs),
            port: self.port,
            protocol: self.protocol.clone(),
            url: self.url.clone(),
        }
    }
}

impl Discovery {
    #[verifier::type_invariant]
    spec fn inv(self) -> bool {
        self@.wf()
    }

    /// Records an observed server, with no protocol version and no key
    /// hash. A server without an address has no canonical URL and is not
    /// recorded.
    pub fn new(name: &str, host: &str, addrs: Vec<String>, port: u16, protocol: WebProtocol) -> (r: Option<
        Discovery,
    >)
        ensures
            r is Some <==> addrs.len() >= 1,
            r matches Some(d) ==> d@ == (DiscoveryView {
                version: Seq::empty(),
                pubkey_hash: Seq::empty(),
                name: name@,
                host: host@,
                addrs: texts(addrs@),
                port,
                scheme: protocol.scheme(),
                url: url_text(protocol.scheme(), addrs[0]@, port),
            }),
    {
        if addrs.len() == 0 {
            return None;
        }
        let url = format_url(&protocol, &addrs[0], port);
        Some(
            Discovery {
                version: String::new(),
                name: String::from_str(name),
                host: String::from_str(host),
                addrs,
                port,
                protocol,
                pubkey_hash: String::new(),
                url,
            },
        )
    }

    /// The same server with the protocol version and the hash of the
    /// public key that it advertises.
    pub fn with_identity(self, version: &str, pubkey_hash: &str) -> (r: Discovery)
        ensures
            r@ == (DiscoveryView { version: version@, pubkey_hash: pubkey_hash@, ..self@ }),
    {
        proof {
            use_type_invariant(&self);
        }
        Discovery {
            version: String::from_str(version),
            name: self.name,
            host: self.host,
            addrs: self.addrs,
            port: self.port,
            protocol: self.protocol,
            pubkey_hash: String::from_str(pubkey_hash),
            url: self.url,
        }
    }

    pub fn version(&self) -> (r: &String)
        ensures
            r@ == self@.version,
    {
        &self.version
    }

    pub fn pubkey_hash(&self) -> (r: &String)
        ensures
            r@ == self@.pubkey_hash,
    {
        &self.pubkey_hash
    }

    pub fn name(&self) -> (r: &String)
        ensures
            r@ == self@.name,
    {
        &self.name
    }

    pub fn host(&self) -> (r: &String)
        ensures
            r@ == self@.host,
    {
        &self.host
    }

    pub fn addrs(&self) -> (r: &Vec<String>)
        ensures
            texts(r@) == self@.addrs,
    {
        &self.addrs
    }

    /// The address that the canonical URL is made from.
    pub fn first_addr(&self) -> (r: &String)
        ensures
            self@.addrs.len() >= 1,
            r@ == self@.addrs[0],
    {
        proof {
            use_type_invariant(self);
        }
        &self.addrs[0]
    }

    pub fn port(&self) -> (r: u16)
        ensures
            r == self@.port,
    {
        self.port
    }

    pub fn protocol(&self) -> (r: &WebProtocol)
        ensures
            r.scheme() == self@.scheme,
    {
        &self.protocol
    }

    /// The canonical URL: the key under which the server is known.
    pub fn canonical_url(&self) -> (r: &String)
        ensures
            r@ == self@.url,
            self@.wf(),
    {
        proof {
            use_type_invariant(self);
        }
        &self.url
    }

    /// The URL of each address.
    pub fn urls(&self) -> (r: Vec<String>)
        ensures
            texts(r@) == self@.urls(),
    {
        let mut r: Vec<String> = Vec::new();
        let mut i: usize = 0;
        while i < self.addrs.len()
            invariant
                i <= self.addrs.len(),
                r.len() == i,
                forall|k: int| 0 <= k < i ==> r[k]@ == url_text(self.protocol.scheme(), self.addrs[k]@, self.port),
            decreases self.addrs.len() - i,
        {
            r.push(format_url(&self.protocol, &self.addrs[i], self.port));
            i += 1;
        }
        assert(texts(r@) =~= self@.urls());
        r
    }

    /// The URL of the first address; it is the canonical URL.
    pub fn default_url(&self) -> (r: Option<String>)
        ensures
            r matches Some(u) && u@ == self@.url,
    {
        Some(self.url.clone())
    }

    /// The line under which the server is offered for selection.
    pub fn label(&self) -> (r: String)
        ensures
            r@ == self@.label(),
    {
        proof {
            reveal_strlit(" (");
            reveal_strlit(") - ");
        }
        let mut r = self.name.clone();
        r.append(" (");
        r.append(self.host.as_str());
        r.append(") - ");
        r.append(self.url.as_str());
        assert(r@ =~= self@.label());
        r
    }
}

/// The contents of a list of servers.
pub open spec fn discoveries(v: Seq<Discovery>) -> Seq<DiscoveryView> {
    v.map_values(|d: Discovery| d@)
}

/// What becomes of a set of known URLs and the servers passed on so far
/// when a batch of observed servers is gone through in order: a server
/// whose canonical URL is known is dropped, any other is passed on and its
/// URL is known from then on.
pub open spec fn screened(known: Seq<Seq<char>>, batch: Seq<DiscoveryView>) -> (Seq<Seq<char>>, Seq<DiscoveryView>)
    decreases batch.len(),
{
    if batch.len() == 0 {
        (known, Seq::empty())
    } else {
        let before = screened(known, batch.drop_last());
        let d = batch.last();
        if before.0.contains(d.url) {
            before
        } else {
            (before.0.push(d.url), before.1.push(d))
        }
    }
}

/// The canonical URLs of a list of servers.
pub open spec fn urls_of(s: Seq<DiscoveryView>) -> Seq<Seq<char>> {
    s.map_values(|d: DiscoveryView| d.url)
}

/// Going through a batch keeps what was known, in place, and adds exactly
/// the URLs of the servers passed on, in their order.
pub proof fn lemma_screened_extends(known: Seq<Seq<char>>, batch: Seq<DiscoveryView>)
    ensures
        screened(known, batch).0 == known + urls_of(screened(known, batch).1),
        forall|i: int| 0 <= i < batch.len() ==> screened(known, batch).0.contains(#[trigger] batch[i].url),
    decreases batch.len(),
{
    if batch.len() == 0 {
        assert(known + urls_of(Seq::<DiscoveryView>::empty()) =~= known);
    } else {
        let rest = batch.drop_last();
        lemma_screened_extends(known, rest);
        let before = screened(known, rest);
        let after = screened(known, batch);
        let d = batch.last();
        if !before.0.contains(d.url) {
            assert(urls_of(before.1.push(d)) =~= urls_of(before.1).push(d.url));
            assert(known + urls_of(before.1).push(d.url) =~= (known + urls_of(before.1)).push(d.url));
            assert(after.0[after.0.len() - 1] == d.url);
        }
        assert forall|i: int| 0 <= i < batch.len() implies after.0.contains(#[trigger] batch[i].url) by {
            if i < rest.len() {
                assert(rest[i] == batch[i]);
                let k = choose|k: int| 0 <= k < before.0.len() && before.0[k] == batch[i].url;
                assert(after.0[k] == batch[i].url);
            }
        }
    }
}

/// Going through a batch keeps the known URLs free of repetition.
pub proof fn lemma_screened_distinct(known: Seq<Seq<char>>, batch: Seq<DiscoveryView>)
    requires
        distinct(known),
    ensures
        distinct(screened(known, batch).0),
    decreases batch.len(),
{
    if batch.len() > 0 {
        lemma_screened_distinct(known, batch.drop_last());
    }
}

/// The same canonical URL is never passed on twice: the servers passed on
/// from one batch have URLs that were not known before and that differ from
/// each other, and a later batch passes on none of them again.
pub proof fn lemma_never_passed_twice(known: Seq<Seq<char>>, first: Seq<DiscoveryView>, second: Seq<DiscoveryView>)
    requires
        distinct(known),
    ensures
        ({
            let one = screened(known, first);
            let two = screened(one.0, second);
            &&& distinct(urls_of(one.1))
            &&& forall|i: int| 0 <= i < one.1.len() ==> !known.contains(#[trigger] one.1[i].url)
            &&& forall|i: int, j: int|
                0 <= i < one.1.len() && 0 <= j < two.1.len() ==> #[trigger] one.1[i].url != #[trigger] two.1[j].url
        }),
{
    let one = screened(known, first);
    let two = screened(one.0, second);
    lemma_screened_extends(known, first);
    lemma_screened_distinct(known, first);
    lemma_screened_extends(one.0, second);
    lemma_screened_distinct(one.0, second);
    let u1 = urls_of(one.1);
    let u2 = urls_of(two.1);
    assert forall|i: int, j: int| 0 <= i < j < u1.len() implies u1[i] != u1[j] by {
        assert(one.0[known.len() + i] == u1[i]);
        assert(one.0[known.len() + j] == u1[j]);
    }
    assert forall|i: int| 0 <= i < one.1.len() implies !known.contains(#[trigger] one.1[i].url) by {
        assert(one.0[known.len() + i] == u1[i]);
        if known.contains(one.1[i].url) {
            let k = choose|k: int| 0 <= k < known.len() && known[k] == one.1[i].url;
            assert(one.0[k] == known[k]);
        }
    }
    assert forall|i: int, j: int| 0 <= i < one.1.len() && 0 <= j < two.1.len() implies #[trigger] one.1[i].url
        != #[trigger] two.1[j].url by {
        assert(one.0[known.len() + i] == u1[i]);
        assert(two.0[known.len() + i] == one.0[known.len() + i]);
        assert(two.0[one.0.len() + j] == u2[j]);
    }
}

/// How one scan of the network ended. A scan that found nothing has not
/// failed.
#[derive(Debug)]
pub enum Scan {
    /// The probe timed out or the transport failed; the text is the reason.
    Failed(String),
    /// The scan ran; these servers answered, possibly none.
    Found(Vec<Discovery>),
}

impl Scan {
    /// The servers that a scan brings: those it found, none if it failed.
    pub open spec fn servers(self) -> Seq<DiscoveryView> {
        match self {
            Scan::Failed(_) => Seq::empty(),
            Scan::Found(batch) => discoveries(batch@),
        }
    }

    /// Whether the background continuation scans again after this scan:
    /// it goes on after every scan that ran, whatever it found, and ends
    /// with the first scan that fails.
    pub fn keeps_scanning(&self) -> (b: bool)
        ensures
            b == !(self is Failed),
    {
        match self {
            Scan::Failed(_) => false,
            Scan::Found(_) => true,
        }
    }

    /// Whether the scan failed.
    pub fn is_failure(&self) -> (b: bool)
        ensures
            b == (self is Failed),
    {
        match self {
            Scan::Failed(_) => true,
            Scan::Found(_) => false,
        }
    }
}

/// The canonical URLs of the servers seen so far, each once.
#[derive(Debug)]
pub struct KnownServers {
    urls: Vec<String>,
}

impl View for KnownServers {
    type V = Seq<Seq<char>>;

    closed spec fn view(&self) -> Seq<Seq<char>> {
        texts(self.urls@)
    }
}

impl KnownServers {
    #[verifier::type_invariant]
    spec fn inv(self) -> bool {
        distinct(self@)
    }

    /// Nothing is known yet.
    pub fn new() -> (r: KnownServers)
        ensures
            r@ == Seq::<Seq<char>>::empty(),
    {
        let r = KnownServers { urls: Vec::new() };
        assert(r@ =~= Seq::<Seq<char>>::empty());
        r
    }

    /// Number of known URLs. No URL is counted twice.
    pub fn len(&self) -> (n: usize)
        ensures
            n == self@.len(),
            distinct(self@),
    {
        proof {
            use_type_invariant(self);
        }
        self.urls.len()
    }

    /// Whether a URL is known.
    pub fn contains(&self, url: &String) -> (b: bool)
        ensures
            b == self@.contains(url@),
    {
        find_text(&self.urls, url).is_some()
    }

    /// Takes the outcome of a scan: a failed scan brings no server and
    /// changes nothing, so that work goes on with what is known; the
    /// servers of any other scan are gone through as a batch.
    pub fn take_scan(&mut self, scan: &Scan) -> (fresh: Vec<Discovery>)
        ensures
            distinct(old(self)@),
            distinct(final(self)@),
            (final(self)@, discoveries(fresh@)) == screened(old(self)@, scan.servers()),
            scan is Failed ==> final(self)@ == old(self)@ && fresh@.len() == 0,
    {
        match scan {
            Scan::Failed(_) => {
                proof {
                    use_type_invariant(&*self);
                }
                let fresh: Vec<Discovery> = Vec::new();
                assert(discoveries(fresh@) =~= Seq::<DiscoveryView>::empty());
                fresh
            },
            Scan::Found(batch) => self.screen(batch),
        }
    }

    /// Goes through a batch of observed servers and returns those that were
    /// not known, in the order of the batch; their URLs are known afterwards.
    pub fn screen(&mut self, batch: &Vec<Discovery>) -> (fresh: Vec<Discovery>)
        ensures
            distinct(old(self)@),
            distinct(final(self)@),
            (final(self)@, discoveries(fresh@)) == screened(old(self)@, discoveries(batch@)),
    {
        let mut taken = KnownServers::new();
        core::mem::swap(self, &mut taken);
        proof {
            use_type_invariant(&taken);
        }
        let ghost known = taken@;
        let KnownServers { urls } = taken;
        let mut urls = urls;
        let mut fresh: Vec<Discovery> = Vec::new();
        let mut i: usize = 0;
        proof {
            assert(discoveries(batch@).take(0) =~= Seq::<DiscoveryView>::empty());
            assert(discoveries(fresh@) =~= Seq::<DiscoveryView>::empty());
        }
        while i < batch.len()
            invariant
                i <= batch.len(),
                distinct(known),
                distinct(texts(urls@)),
                (texts(urls@), discoveries(fresh@)) == screened(known, discoveries(batch@).take(i as int)),
            decreases batch.len() - i,
        {
            let ghost done = discoveries(batch@).take(i as int);
            let ghost next = discoveries(batch@).take(i + 1);
            let ghost was = texts(urls@);
            let ghost out = discoveries(fresh@);
            proof {
                assert(next.drop_last() =~= done);
                assert(next.last() == batch[i as int]@);
                lemma_screened_distinct(known, next);
            }
            let server = &batch[i];
            if find_text(&urls, server.canonical_url()).is_none() {
                urls.push(server.canonical_url().clone());
                fresh.push(server.clone());
                proof {
                    assert(texts(urls@) =~= was.push(server@.url));
                    assert(discoveries(fresh@) =~= out.push(server@));
                }
            }
            i += 1;
        }
        proof {
            assert(discoveries(batch@).take(batch.len() as int) =~= discoveries(batch@));
        }
        *self = KnownServers { urls };
        fresh
    }
}

} // verus!
