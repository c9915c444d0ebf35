use p2p_voice::i18n::{tr, Language};
use p2p_voice::signal::{
    announcement, announcement_step, api_url, auth_url, config_sync_url, http_scheme, parse_announcement,
    relay_address, signal_url, ws_scheme,
};
use p2p_voice::text::{before_first, join_str, contains, decimal_string, parse_u32, split, str_eq};

#[test]
fn text_comparison_and_search() {
    assert!(str_eq("Комната", "Комната"));
    assert!(!str_eq("abc", "abd"));
    assert!(!str_eq("abc", "ab"));
    assert!(contains("http://localhost:8080", "localhost"));
    assert!(contains("abc", ""));
    assert!(!contains("ab", "abc"));
    assert!(contains("регистрация успешна", "успешна"));
    assert_eq!(join_str("ab", "cd"), "abcd");
}

#[test]
fn split_matches_std() {
    for s in ["a|b|c", "", "|", "a||", "||x", "no separator", "日本|語"] {
        let ours = split(s, '|');
        let std: Vec<String> = s.split('|').map(|p| p.to_string()).collect();
        assert_eq!(ours, std, "splitting {:?}", s);
        assert_eq!(before_first(s, '|'), s.split('|').next().unwrap());
    }
}

#[test]
fn u32_parsing_matches_std() {
    for s in [
        "0", "42", "+7", "", "+", "-1", "4294967295", "4294967296", "99999999999", "12a", " 1",
        "0007", "+0", "++1",
    ] {
        assert_eq!(parse_u32(s), s.parse::<u32>().ok(), "parsing {:?}", s);
    }
}

#[test]
fn decimal_text() {
    assert_eq!(decimal_string(0), "0");
    assert_eq!(decimal_string(10), "10");
    assert_eq!(decimal_string(4294967295), "4294967295");
    assert_eq!(parse_u32(&decimal_string(123456789)), Some(123456789));
}

#[test]
fn server_urls() {
    assert_eq!(http_scheme("p2p.tallfly.me"), "https");
    assert_eq!(http_scheme("localhost:3000"), "http");
    assert_eq!(http_scheme("127.0.0.1:3000"), "http");
    assert_eq!(ws_scheme("p2p.tallfly.me"), "wss");
    assert_eq!(ws_scheme("localhost"), "ws");
    assert_eq!(api_url("localhost:3000", "login"), "http://localhost:3000/api/login");
    assert_eq!(auth_url("p2p.tallfly.me", true), "https://p2p.tallfly.me/api/login");
    assert_eq!(auth_url("p2p.tallfly.me", false), "https://p2p.tallfly.me/api/register");
    assert_eq!(config_sync_url("p2p.tallfly.me"), "https://p2p.tallfly.me/api/config");
    assert_eq!(signal_url("p2p.tallfly.me", "abc"), "wss://p2p.tallfly.me/ws/abc");
    assert_eq!(signal_url("127.0.0.1:8000", "h"), "ws://127.0.0.1:8000/ws/h");
}

#[test]
fn relay_address_keeps_host_only() {
    assert_eq!(relay_address("p2p.tallfly.me"), "p2p.tallfly.me:3031");
    assert_eq!(relay_address("localhost:3000"), "localhost:3031");
    assert_eq!(relay_address(""), ":3031");
}

#[test]
fn announcements_roundtrip() {
    let a = announcement("1.2.3.4:5000", "alice", 77);
    assert_eq!(a, "1.2.3.4:5000|alice|77");
    let own = announcement("9.9.9.9:1", "me", 1);
    let p = parse_announcement(&a, &own).unwrap();
    assert_eq!(p.addr, "1.2.3.4:5000");
    assert_eq!(p.name, "alice");
    assert_eq!(p.peer_id, 77);
}

#[test]
fn malformed_or_own_announcements_are_ignored() {
    let own = announcement("9.9.9.9:1", "me", 1);
    assert!(parse_announcement(&own, &own).is_none());
    assert!(parse_announcement("1.2.3.4:5|bob", &own).is_none());
    assert!(parse_announcement("1.2.3.4:5|bob|x", &own).is_none());
    assert!(parse_announcement("1.2.3.4:5|bob|1|2", &own).is_none());
    assert!(parse_announcement("a|b|4294967296", &own).is_none());
    assert_eq!(parse_announcement("a|b|+5", &own).unwrap().peer_id, 5);
}

#[test]
fn interface_texts_by_language() {
    assert_eq!(tr("settings", Language::English), "Settings");
    assert_eq!(tr("settings", Language::Russian), "Настройки");
    assert_eq!(tr("settings", Language::Japanese), "設定");
    assert_eq!(tr("have_account", Language::English), "Already have an account? Log in");
    assert_eq!(tr("btn_register", Language::Japanese), "登録する");
    assert_eq!(tr("waiting", Language::Russian), "Ожидание собеседников...");
    assert_eq!(tr("unknown_key", Language::Japanese), "unknown_key");
    assert_eq!(tr("", Language::English), "");
}

#[test]
fn new_peer_is_added_punched_and_answered() {
    let own = announcement("9.9.9.9:1", "me", 1);
    let peer = parse_announcement("1.2.3.4:5000|alice|77", &own).unwrap();
    let step = announcement_step(peer, false, 25_000, &own);
    assert_eq!(step.peer_id, 77);
    assert_eq!(step.addr, "1.2.3.4:5000");
    let np = step.new_peer.unwrap();
    assert_eq!(np.name, "alice");
    assert_eq!(np.last_seen, 25_000);
    assert_eq!(np.last_spoken, 15_000);
    assert_eq!(np.ping_ms, 0);
    assert_eq!(step.punches.len(), 5);
    assert!(step.punches.iter().all(|p| p.as_slice() == b"HOLE_PUNCH"));
    assert_eq!(step.reannounce.as_deref(), Some(own.as_str()));
}

#[test]
fn new_peer_early_in_the_run_has_not_spoken() {
    let own = announcement("9.9.9.9:1", "me", 1);
    let peer = parse_announcement("1.2.3.4:5000|alice|77", &own).unwrap();
    let step = announcement_step(peer, false, 3_000, &own);
    assert_eq!(step.new_peer.unwrap().last_spoken, 0);
}

#[test]
fn known_peer_only_updates_its_id() {
    let own = announcement("9.9.9.9:1", "me", 1);
    let peer = parse_announcement("1.2.3.4:5000|renamed|78", &own).unwrap();
    let step = announcement_step(peer, true, 25_000, &own);
    assert_eq!(step.peer_id, 78);
    assert_eq!(step.addr, "1.2.3.4:5000");
    assert!(step.new_peer.is_none());
    assert!(step.punches.is_empty());
    assert!(step.reannounce.is_none());
}
