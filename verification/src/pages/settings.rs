//! Settings: the general switches, what is kept per server and the
//! credential of a room.

use crate::discovery::{Discovery, DiscoveryView};
use crate::services::{TokenResponse, TokenResponseView};
use crate::text::{decimal, push_decimal};
use vstd::prelude::*;

verus! {

/// What `base64::engine::general_purpose::STANDARD.encode` returns for
/// the given bytes: their base64 text in the standard alphabet, padded.
pub uninterp spec fn base64_standard(bytes: Seq<u8>) -> Seq<char>;

/// Calls `fill_bytes` of `rand::thread_rng()` on sixteen bytes. Nothing is
/// known of the bytes it returns.
#[verifier::external_body]
fn random_bytes() -> [u8; 16] {
    let mut bytes = [0u8; 16];
    rand::RngCore::fill_bytes(&mut rand::thread_rng(), &mut bytes);
    bytes
}

/// Calls `encode` of base64's `STANDARD` engine. The text depends on the
/// bytes alone, and for sixteen bytes it has the 24 characters that the
/// engine's `encoded_len` works out with padding.
#[verifier::external_body]
fn encode_standard(bytes: &[u8; 16]) -> (r: String)
    ensures
        r@ == base64_standard(bytes@),
        r@.len() == 24,
{
    base64::Engine::encode(&base64::engine::general_purpose::STANDARD, bytes)
}

/// The key material of a room for sixteen bytes of randomness: their
/// base64 text.
pub fn key_from_bytes(bytes: &[u8; 16]) -> (r: String)
    ensures
        r@ == base64_standard(bytes@),
        r@.len() == 24,
{
    encode_standard(bytes)
}

/// Fresh key material: the base64 text of sixteen random bytes.
pub fn random_base64_string() -> (r: String)
    ensures
        exists|bytes: Seq<u8>| bytes.len() == 16 && r@ == base64_standard(bytes),
        r@.len() == 24,
{
    let bytes = random_bytes();
    assert(bytes@.len() == 16);
    key_from_bytes(&bytes)
}

/// The general settings that the application needs to operate. A type that
/// answers none of the questions itself subscribes automatically, does not
/// publish automatically, encrypts end to end and looks for servers.
pub trait Settings {
    /// Whether the tracks of others are subscribed to as they appear; yes,
    /// unless the type says otherwise.
    fn auto_subscribe(&self) -> (b: bool)
        default_ensures
            b,
    {
        true
    }

    /// Whether the own tracks are published on entering a room; no, unless
    /// the type says otherwise.
    fn auto_publish(&self) -> (b: bool)
        default_ensures
            !b,
    {
        false
    }

    /// Whether end-to-end encryption is on; yes, unless the type says
    /// otherwise.
    fn enable_e2ee(&self) -> (b: bool)
        default_ensures
            b,
    {
        true
    }

    /// Whether servers are looked for on the network; yes, unless the type
    /// says otherwise.
    fn use_discovery(&self) -> (b: bool)
        default_ensures
            b,
    {
        true
    }
}

/// The switches that hold for the whole application.
#[derive(Debug, Clone, Copy, PartialEq, Eq, Structural)]
pub struct GeneralSettings {
    pub auto_subscribe: bool,
    pub auto_publish: bool,
    pub enable_e2ee: bool,
    pub use_discovery: bool,
}

impl Default for GeneralSettings {
    fn default() -> (r: GeneralSettings)
        ensures
            r == (GeneralSettings {
                auto_subscribe: true,
                auto_publish: false,
                enable_e2ee: false,
                use_discovery: true,
            }),
    {
        GeneralSettings { auto_subscribe: true, auto_publish: false, enable_e2ee: false, use_discovery: true }
    }
}

impl Settings for GeneralSettings {
    fn auto_publish(&self) -> (b: bool)
        ensures
            b == self.auto_publish,
    {
        self.auto_publish
    }

    fn auto_subscribe(&self) -> (b: bool)
        ensures
            b == self.auto_subscribe,
    {
        self.auto_subscribe
    }

    fn enable_e2ee(&self) -> (b: bool)
        ensures
            b == self.enable_e2ee,
    {
        self.enable_e2ee
    }

    fn use_discovery(&self) -> (b: bool)
        ensures
            b == self.use_discovery,
    {
        self.use_discovery
    }
}

/// What is kept for one server.
#[derive(Debug)]
pub struct ServerSettings {
    pub settings: GeneralSettings,
    pub name: String,
    pub url: String,
    pub token: String,
}

/// The mathematical content of a [`ServerSettings`].
pub struct ServerSettingsView {
    pub settings: GeneralSettings,
    pub name: Seq<char>,
    pub url: Seq<char>,
    pub token: Seq<char>,
}

impl View for ServerSettings {
    type V = ServerSettingsView;

    open spec fn view(&self) -> ServerSettingsView {
        ServerSettingsView { settings: self.settings, name: self.name@, url: self.url@, token: self.token@ }
    }
}

impl Clone for ServerSettings {
    fn clone(&self) -> (r: Self)
        ensures
            r@ == self@,
    {
        ServerSettings {
            settings: self.settings,
            name: self.name.clone(),
            url: self.url.clone(),
            token: self.token.clone(),
        }
    }
}

/// The settings of a server that was found on the network: encryption on,
/// the host as name, the first address and the port as URL, no token.
pub open spec fn settings_of_discovery(d: DiscoveryView) -> ServerSettingsView {
    ServerSettingsView {
        settings: GeneralSettings { auto_subscribe: true, auto_publish: false, enable_e2ee: true, use_discovery: true },
        name: d.host,
        url: d.addrs[0] + seq![':'] + decimal(d.port as nat),
        token: Seq::empty(),
    }
}

/// The settings of a server for which a token was handed out.
pub open spec fn settings_of_response(
    settings: GeneralSettings,
    ident: Seq<char>,
    response: TokenResponseView,
) -> ServerSettingsView {
    ServerSettingsView { settings, name: ident, url: response.url, token: response.token }
}

impl ServerSettings {
    pub fn set_token(&mut self, token: &str)
        ensures
            final(self)@ == (ServerSettingsView { token: token@, ..old(self)@ }),
    {
        self.token = String::from_str(token);
    }

    pub fn set_url(&mut self, url: &str)
        ensures
            final(self)@ == (ServerSettingsView { url: url@, ..old(self)@ }),
    {
        self.url = String::from_str(url);
    }

    pub fn from_discovery(discovery: &Discovery) -> (r: ServerSettings)
        ensures
            r@ == settings_of_discovery(discovery@),
    {
        let mut settings = GeneralSettings::default();
        settings.enable_e2ee = true;
        let name = discovery.host().clone();
        let first = discovery.first_addr();
        proof {
            reveal_strlit(":");
        }
        let mut url = first.clone();
        url.append(":");
        push_decimal(&mut url, discovery.port() as u32);
        assert(url@ =~= discovery@.addrs[0] + seq![':'] + decimal(discovery@.port as nat));
        let r = ServerSettings { settings, name, url, token: String::new() };
        assert(r@.token =~= Seq::<char>::empty());
        r
    }

    pub fn from_response(settings: &GeneralSettings, ident: &str, response: &TokenResponse) -> (r: ServerSettings)
        ensures
            r@ == settings_of_response(*settings, ident@, response@),
    {
        ServerSettings {
            settings: *settings,
            name: String::from_str(ident),
            url: response.url.clone(),
            token: response.token.clone(),
        }
    }
}

impl Settings for ServerSettings {
    fn auto_publish(&self) -> (b: bool)
        ensures
            b == self.settings.auto_publish,
    {
        self.settings.auto_publish()
    }

    fn auto_subscribe(&self) -> (b: bool)
        ensures
            b == self.settings.auto_subscribe,
    {
        self.settings.auto_subscribe()
    }

    fn enable_e2ee(&self) -> (b: bool)
        ensures
            b == self.settings.enable_e2ee,
    {
        self.settings.enable_e2ee()
    }

    fn use_discovery(&self) -> (b: bool)
        ensures
            b == self.settings.use_discovery,
    {
        self.settings.use_discovery()
    }
}

/// The credential of one room: what a successful token exchange gives the
/// interface, with key material for the encryption of the room.
#[derive(Debug)]
pub struct RoomSettings {
    pub id: uuid::Uuid,
    pub server: ServerSettings,
    pub name: String,
    pub key: String,
}

/// The mathematical content of a [`RoomSettings`].
pub struct RoomSettingsView {
    pub id: uuid::Uuid,
    pub server: ServerSettingsView,
    pub name: Seq<char>,
    pub key: Seq<char>,
}

impl View for RoomSettings {
    type V = RoomSettingsView;

    open spec fn view(&self) -> RoomSettingsView {
        RoomSettingsView { id: self.id, server: self.server@, name: self.name@, key: self.key@ }
    }
}

/// The credential that a token response gives under the key material
/// `key`.
pub open spec fn room_of_response(
    settings: GeneralSettings,
    ident: Seq<char>,
    response: TokenResponseView,
    key: Seq<char>,
) -> RoomSettingsView {
    RoomSettingsView {
        id: response.room_id,
        server: settings_of_response(settings, ident, response),
        name: response.room,
        key,
    }
}

impl RoomSettings {
    pub fn id(&self) -> (r: uuid::Uuid)
        ensures
            r == self.id,
    {
        self.id
    }

    pub fn set_token(&mut self, token: &str)
        ensures
            final(self)@ == (RoomSettingsView {
                server: ServerSettingsView { token: token@, ..old(self)@.server },
                ..old(self)@
            }),
    {
        self.server.set_token(token);
    }

    pub fn set_url(&mut self, url: &str)
        ensures
            final(self)@ == (RoomSettingsView {
                server: ServerSettingsView { url: url@, ..old(self)@.server },
                ..old(self)@
            }),
    {
        self.server.set_url(url)
    }

    /// The credential for a token response, with key material made of the
    /// given sixteen bytes.
    pub fn with_key_bytes(settings: &GeneralSettings, ident: &str, response: &TokenResponse, bytes: &[u8; 16]) -> (r:
        RoomSettings)
        ensures
            r@ == room_of_response(*settings, ident@, response@, base64_standard(bytes@)),
            r@.key.len() == 24,
    {
        let server = ServerSettings::from_response(settings, ident, response);
        RoomSettings { id: response.room_id, server, name: response.room.clone(), key: key_from_bytes(bytes) }
    }

    /// The credential for a token response, with fresh key material.
    pub fn from_response(settings: &GeneralSettings, ident: &str, response: &TokenResponse) -> (r: RoomSettings)
        ensures
            exists|bytes: Seq<u8>|
                bytes.len() == 16 && r@ == room_of_response(*settings, ident@, response@, base64_standard(bytes)),
            r@.key.len() == 24,
    {
        let bytes = random_bytes();
        assert(bytes@.len() == 16);
        Self::with_key_bytes(settings, ident, response, &bytes)
    }

    pub fn token(&self) -> (r: &str)
        ensures
            r@ == self@.server.token,
    {
        self.server.token.as_str()
    }

    pub fn key(&self) -> (r: &str)
        ensures
            r@ == self@.key,
    {
        self.key.as_str()
    }

    pub fn url(&self) -> (r: &str)
        ensures
            r@ == self@.server.url,
    {
        self.server.url.as_str()
    }
}

impl Settings for RoomSettings {
    fn auto_publish(&self) -> (b: bool)
        ensures
            b == self.server.settings.auto_publish,
    {
        self.server.auto_publish()
    }

    fn auto_subscribe(&self) -> (b: bool)
        ensures
            b == self.server.settings.auto_subscribe,
    {
        self.server.auto_subscribe()
    }

    fn enable_e2ee(&self) -> (b: bool)
        ensures
            b == self.server.settings.enable_e2ee,
    {
        self.server.enable_e2ee()
    }

    fn use_discovery(&self) -> (b: bool)
        ensures
            b == self.server.settings.use_discovery,
    {
        self.server.use_discovery()
    }
}

/// The settings page.
#[derive(Debug)]
pub struct SettingsPage {
    pub state: GeneralSettings,
    pub servers: Vec<ServerSettings>,
}

impl SettingsPage {
    /// A page with the default switches and no server.
    pub fn new() -> (r: SettingsPage)
        ensures
            r.state == (GeneralSettings {
                auto_subscribe: true,
                auto_publish: false,
                enable_e2ee: false,
                use_discovery: true,
            }),
            r.servers@.len() == 0,
    {
        SettingsPage { state: GeneralSettings::default(), servers: Vec::new() }
    }
}

} // verus!
