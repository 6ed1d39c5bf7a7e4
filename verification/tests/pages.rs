use havendesktop::discovery::{Discovery, WebProtocol};
use havendesktop::pages::accounts::{AccountPage, AccountState};
use havendesktop::pages::discovery::DiscoveryState;
use havendesktop::pages::login::{failure_text, login_message, LoginState};
use havendesktop::pages::settings::{
    key_from_bytes, random_base64_string, GeneralSettings, RoomSettings, ServerSettings, Settings, SettingsPage,
};
use havendesktop::pages::{ActivePage, Route};
use havendesktop::services::{FailedCall, LoginResult, TokenResponse, VerdantCmd, VerdantUiCmd};
use havendesktop::text::{clone_texts, find_text, push_decimal};

fn room_a() -> Discovery {
    Discovery::new("verdant", "room-a", vec!["10.0.0.5".to_string()], 7880, WebProtocol::Http).unwrap()
}

fn token() -> TokenResponse {
    TokenResponse {
        url: "http://10.0.0.5:7880".to_string(),
        token: "abc".to_string(),
        room: "demo".to_string(),
        room_id: uuid::Uuid::from_u128(7),
    }
}

struct Plain;

impl Settings for Plain {}

#[test]
fn settings_defaults() {
    assert!(Plain.auto_subscribe());
    assert!(!Plain.auto_publish());
    assert!(Plain.enable_e2ee());
    assert!(Plain.use_discovery());
    let g = GeneralSettings::default();
    assert_eq!(
        g,
        GeneralSettings { auto_subscribe: true, auto_publish: false, enable_e2ee: false, use_discovery: true }
    );
    assert!(g.auto_subscribe());
    assert!(!g.auto_publish());
    assert!(!g.enable_e2ee());
    assert!(g.use_discovery());
}

#[test]
fn settings_pass_through() {
    let g = GeneralSettings { auto_subscribe: false, auto_publish: true, enable_e2ee: true, use_discovery: false };
    let server = ServerSettings::from_response(&g, "me", &token());
    assert_eq!(
        (server.auto_subscribe(), server.auto_publish(), server.enable_e2ee(), server.use_discovery()),
        (false, true, true, false)
    );
    let room = RoomSettings::with_key_bytes(&g, "me", &token(), &[0; 16]);
    assert_eq!(
        (room.auto_subscribe(), room.auto_publish(), room.enable_e2ee(), room.use_discovery()),
        (false, true, true, false)
    );
}

#[test]
fn server_settings_from_discovery() {
    let s = ServerSettings::from_discovery(&room_a());
    assert_eq!(s.name, "room-a");
    assert_eq!(s.url, "10.0.0.5:7880");
    assert_eq!(s.token, "");
    assert_eq!(
        s.settings,
        GeneralSettings { auto_subscribe: true, auto_publish: false, enable_e2ee: true, use_discovery: true }
    );
}

#[test]
fn server_settings_from_response_and_setters() {
    let g = GeneralSettings::default();
    let mut s = ServerSettings::from_response(&g, "alice", &token());
    assert_eq!((s.name.as_str(), s.url.as_str(), s.token.as_str()), ("alice", "http://10.0.0.5:7880", "abc"));
    assert_eq!(s.settings, g);
    s.set_token("xyz");
    s.set_url("http://other:1");
    assert_eq!((s.name.as_str(), s.url.as_str(), s.token.as_str()), ("alice", "http://other:1", "xyz"));
    let c = s.clone();
    assert_eq!((c.name, c.url, c.token, c.settings), (s.name, s.url, s.token, s.settings));
}

#[test]
fn room_settings_hold_the_credential() {
    let g = GeneralSettings::default();
    let bytes: [u8; 16] = [0, 1, 2, 3, 4, 5, 6, 7, 8, 9, 10, 11, 12, 13, 14, 15];
    let mut room = RoomSettings::with_key_bytes(&g, "alice", &token(), &bytes);
    assert_eq!(room.id(), uuid::Uuid::from_u128(7));
    assert_eq!(room.name, "demo");
    assert_eq!(room.token(), "abc");
    assert_eq!(room.url(), "http://10.0.0.5:7880");
    assert_eq!(room.key(), "AAECAwQFBgcICQoLDA0ODw==");
    assert_eq!(room.server.name, "alice");
    room.set_token("t2");
    room.set_url("u2");
    assert_eq!(room.token(), "t2");
    assert_eq!(room.url(), "u2");
    assert_eq!(room.key(), "AAECAwQFBgcICQoLDA0ODw==");
    assert_eq!(room.name, "demo");
}

#[test]
fn key_material_is_base64_of_the_bytes() {
    assert_eq!(key_from_bytes(&[0; 16]), "AAAAAAAAAAAAAAAAAAAAAA==");
    assert_eq!(key_from_bytes(&[255; 16]), "/////////////////////w==");
    assert_eq!(key_from_bytes(b"sixteen byte key"), "c2l4dGVlbiBieXRlIGtleQ==");
}

#[test]
fn fresh_key_material_has_the_shape_of_sixteen_bytes() {
    for key in [random_base64_string(), RoomSettings::from_response(&GeneralSettings::default(), "a", &token()).key] {
        assert_eq!(key.len(), 24);
        assert!(key.ends_with("=="));
        assert!(key[..22].chars().all(|c| c.is_ascii_alphanumeric() || c == '+' || c == '/'));
    }
    let room = RoomSettings::from_response(&GeneralSettings::default(), "alice", &token());
    assert_eq!(room.name, "demo");
    assert_eq!(room.token(), "abc");
    assert_eq!(room.id(), uuid::Uuid::from_u128(7));
}

#[test]
fn settings_page_starts_empty() {
    let page = SettingsPage::new();
    assert_eq!(page.state, GeneralSettings::default());
    assert!(page.servers.is_empty());
}

#[test]
fn account_page_starts_empty() {
    let page = AccountPage::new();
    assert_eq!(page.state.firstname, "");
    assert_eq!(page.state.email, "");
    let state = AccountState {
        firstname: "A".to_string(),
        lastname: "B".to_string(),
        username: "ab".to_string(),
        email: "a@b".to_string(),
    };
    let copy = state.clone();
    assert_eq!((copy.firstname, copy.lastname, copy.username, copy.email), ("A".into(), "B".into(), "ab".into(), "a@b".into()));
    assert_eq!(AccountState::default().username, "");
}

#[test]
fn discovery_state_holds_one_server_per_url() {
    let mut state = DiscoveryState::new();
    assert_eq!(state.len(), 0);
    assert!(state.insert(room_a()));
    assert!(!state.insert(room_a()));
    let other = Discovery::new("verdant", "room-b", vec!["10.0.0.6".to_string()], 7880, WebProtocol::Http).unwrap();
    assert!(state.insert(other));
    assert_eq!(state.len(), 2);
    assert_eq!(state.position(&"http://10.0.0.6:7880".to_string()), Some(1));
    assert_eq!(state.position(&"http://10.0.0.7:7880".to_string()), None);
    assert_eq!(state.get(&"http://10.0.0.5:7880".to_string()).unwrap().host(), "room-a");
    assert!(state.get(&"http://10.0.0.7:7880".to_string()).is_none());
    assert_eq!(state.at(1).unwrap().host(), "room-b");
    assert!(state.at(2).is_none());
}

#[test]
fn login_messages() {
    assert_eq!(login_message(&LoginResult::Unauthorized), "incorrect username or password");
    assert_eq!(
        login_message(&LoginResult::UnknownServer("http://x:1".to_string())),
        "couldn't find request server: http://x:1"
    );
    assert_eq!(login_message(&LoginResult::Success), "login successful");
}

#[test]
fn login_page_takes_events() {
    let mut page = LoginState::new("http://localhost");
    assert_eq!(page.url(), "http://localhost");
    assert_eq!(page.username(), "");
    assert_eq!(page.password(), "");
    assert!(page.login_message().is_none());
    assert!(page.active().is_none());
    assert_eq!(page.servers().len(), 0);

    page.event(VerdantUiCmd::ServerDiscovered(room_a()));
    page.event(VerdantUiCmd::ServerDiscovered(room_a()));
    assert_eq!(page.servers().len(), 1);
    page.event(VerdantUiCmd::LkToken(token()));
    assert!(page.login_message().is_none());

    page.select("http://10.0.0.5:7880");
    assert_eq!(page.url(), "http://10.0.0.5:7880");
    assert_eq!(page.active().as_deref(), Some("http://10.0.0.5:7880"));
    page.set_credentials("alice", "secret");
    match page.submit() {
        VerdantCmd::Login(request) => {
            assert_eq!(request.url(), "http://10.0.0.5:7880");
            assert_eq!(request.username(), "alice");
            assert_eq!(request.password(), "secret");
        },
        other => panic!("unexpected command {:?}", other),
    }
    assert_eq!(page.login_message().as_deref(), Some("logging in..."));
    page.event(VerdantUiCmd::LoginResult(LoginResult::Unauthorized));
    assert_eq!(page.login_message().as_deref(), Some("incorrect username or password"));
    page.event(VerdantUiCmd::LoginResult(LoginResult::Success));
    assert_eq!(page.login_message().as_deref(), Some("login successful"));
    page.event(VerdantUiCmd::Failed {
        call: FailedCall::TokenExchange,
        url: "http://10.0.0.5:7880".to_string(),
        reason: "denied".to_string(),
    });
    assert_eq!(page.login_message().as_deref(), Some("couldn't get a session token: denied"));
    page.set_url("http://elsewhere");
    assert_eq!(page.url(), "http://elsewhere");
    assert_eq!(page.username(), "alice");
}

#[test]
fn failure_messages() {
    let url = "http://x:1".to_string();
    let reason = "timed out".to_string();
    assert_eq!(failure_text(FailedCall::Construction, &url, &reason), "couldn't reach server http://x:1: timed out");
    assert_eq!(failure_text(FailedCall::Login, &url, &reason), "login failed: timed out");
    assert_eq!(failure_text(FailedCall::TokenExchange, &url, &reason), "couldn't get a session token: timed out");
}

#[test]
fn token_opens_the_room() {
    let mut page = ActivePage::Login;
    assert_eq!(page.route(&VerdantUiCmd::LoginResult(LoginResult::Success)), Route::Login);
    assert_eq!(page, ActivePage::Login);
    assert_eq!(page.route(&VerdantUiCmd::ServerDiscovered(room_a())), Route::Login);
    let failed =
        VerdantUiCmd::Failed { call: FailedCall::Login, url: "u".to_string(), reason: "r".to_string() };
    assert_eq!(page.route(&failed), Route::Login);
    assert_eq!(page, ActivePage::Login);
    assert_eq!(page.route(&VerdantUiCmd::LkToken(token())), Route::EnterRoom);
    assert_eq!(page, ActivePage::Room);
    assert_eq!(page.route(&VerdantUiCmd::LoginResult(LoginResult::Unauthorized)), Route::Unhandled);
    assert_eq!(page, ActivePage::Room);
    let mut settings = ActivePage::Settings;
    assert_eq!(settings.route(&VerdantUiCmd::LkToken(token())), Route::EnterRoom);
    assert_eq!(settings, ActivePage::Room);
}

#[test]
fn decimal_text() {
    for (n, text) in [(0u32, "0"), (7, "7"), (10, "10"), (99, "99"), (100, "100"), (65535, "65535"), (u32::MAX, "4294967295")] {
        let mut out = String::from("p");
        push_decimal(&mut out, n);
        assert_eq!(out, format!("p{}", text));
    }
}

#[test]
fn text_lists() {
    let v = vec!["a".to_string(), "b".to_string(), "a".to_string()];
    assert_eq!(clone_texts(&v), v);
    assert_eq!(find_text(&v, &"a".to_string()), Some(0));
    assert_eq!(find_text(&v, &"b".to_string()), Some(1));
    assert_eq!(find_text(&v, &"c".to_string()), None);
    assert_eq!(find_text(&Vec::new(), &"a".to_string()), None);
}
