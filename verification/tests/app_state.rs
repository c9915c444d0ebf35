use p2p_voice::account::{
    auth_message_is_success, auth_reply, choose_device, initial_screen, needs_cloud_sync,
    cloud_config_text, wants_cloud_config, AccountState, AppConfig, AppScreen, AuthResponse, HttpOutcome,
};
use p2p_voice::controls::{press_call_button, starts_update};
use p2p_voice::clock::{current_time_ms, epoch_stamp};
use p2p_voice::i18n::Language;
use p2p_voice::liveness::{
    elapsed_secs, is_speaking, keep_direct_route, peer_timed_out, ping_rtt_ms, use_relay,
};
use p2p_voice::update::{
    bin_name, find_asset_url, get_target_match, is_prerelease, update_dialog_visible, ReleaseAsset,
    UpdateInfo,
};
use p2p_voice::voice::{speaker_frame, CleanupTimer, SpeakerFrame, VoiceGate, HANGOVER_FRAMES};

fn response(success: bool, message: &str, token: Option<&str>, json: Option<&str>) -> AuthResponse {
    AuthResponse {
        success,
        message: message.to_string(),
        token: token.map(|t| t.to_string()),
        config_json: json.map(|j| j.to_string()),
    }
}

#[test]
fn default_settings() {
    let c = AppConfig::default();
    assert_eq!(c.server_url, "p2p.tallfly.me");
    assert!(c.username.is_empty() && c.auth_token.is_empty());
    assert!(c.selected_input.is_empty() && c.selected_output.is_empty());
    assert!(!c.show_overlay);
    assert_eq!(c.language, Language::Russian);
    assert_eq!(initial_screen(&c), AppScreen::Login);
}

#[test]
fn saved_token_opens_main_screen() {
    let mut c = AppConfig::default();
    c.auth_token = "tok".to_string();
    let s = AccountState::new(c);
    assert_eq!(s.screen, AppScreen::Main);
}

#[test]
fn device_choice() {
    let devs = vec!["Mic A".to_string(), "Mic B".to_string()];
    assert_eq!(choose_device("Mic B", &devs), "Mic B");
    assert_eq!(choose_device("Gone", &devs), "Mic A");
    assert_eq!(choose_device("", &devs), "Mic A");
    assert_eq!(choose_device("Mic A", &vec![]), "Нет устройств");
}

#[test]
fn http_outcomes() {
    let ok = response(true, "", Some("t"), None);
    let r = auth_reply(HttpOutcome::Reply, Some(ok));
    assert!(r.success && r.token.as_deref() == Some("t"));
    let r = auth_reply(HttpOutcome::Reply, None);
    assert!(!r.success && r.message == "Ошибка обработки ответа");
    let r = auth_reply(HttpOutcome::ErrorStatus(401), Some(response(false, "bad password", None, None)));
    assert_eq!(r.message, "bad password");
    let r = auth_reply(HttpOutcome::ErrorStatus(500), None);
    assert_eq!(r.message, "Ошибка на сервере");
    let r = auth_reply(HttpOutcome::ErrorStatus(302), None);
    assert_eq!(r.message, "Сервер недоступен");
    let r = auth_reply(HttpOutcome::Unreachable, None);
    assert!(!r.success && r.message == "Сервер недоступен" && r.token.is_none());
}

#[test]
fn login_takes_token_and_cloud_settings() {
    let mut s = AccountState::new(AppConfig::default());
    s.password_input = "pw".to_string();
    assert!(s.begin_auth());
    assert!(s.is_authenticating);
    // A second request is not started while the first is under way.
    s.auth_message = "pending".to_string();
    assert!(!s.begin_auth());
    assert_eq!(s.auth_message, "pending");
    let mut cloud = AppConfig::default();
    cloud.selected_input = "Mic".to_string();
    cloud.selected_output = "Speakers".to_string();
    cloud.show_overlay = true;
    cloud.server_url = "elsewhere".to_string();
    s.apply_auth_response(response(true, "", Some("tok"), Some("{...}")), Some(cloud));
    assert!(!s.is_authenticating);
    assert_eq!(s.screen, AppScreen::Main);
    assert_eq!(s.config.auth_token, "tok");
    assert_eq!(s.config.selected_input, "Mic");
    assert_eq!(s.config.selected_output, "Speakers");
    assert!(s.config.show_overlay);
    assert_eq!(s.config.server_url, "p2p.tallfly.me");
    assert!(s.password_input.is_empty());
}

#[test]
fn registration_and_failure() {
    let mut s = AccountState::new(AppConfig::default());
    s.switch_auth_screen(true);
    assert_eq!(s.screen, AppScreen::Register);
    s.apply_auth_response(response(true, "", None, None), None);
    assert_eq!(s.screen, AppScreen::Login);
    assert_eq!(s.auth_message, "Регистрация успешна! Теперь войдите.");
    assert!(auth_message_is_success(&s.auth_message));
    s.apply_auth_response(response(false, "User exists", None, None), None);
    assert_eq!(s.auth_message, "User exists");
    assert!(!auth_message_is_success(&s.auth_message));
    assert!(auth_message_is_success("Success!"));
}

#[test]
fn logout_forgets_token() {
    let mut c = AppConfig::default();
    c.auth_token = "tok".to_string();
    let mut s = AccountState::new(c);
    s.show_settings = true;
    s.logout();
    assert!(s.config.auth_token.is_empty());
    assert_eq!(s.screen, AppScreen::Login);
    assert!(!s.show_settings);
}

#[test]
fn cloud_config_rules() {
    assert!(!wants_cloud_config(""));
    assert!(!wants_cloud_config("{}"));
    assert!(wants_cloud_config("{\"show_overlay\":true}"));
    let a = AppConfig::default();
    let mut b = a.duplicate();
    assert!(!needs_cloud_sync(&a, &b));
    b.show_overlay = true;
    assert!(!needs_cloud_sync(&a, &b));
    b.auth_token = "t".to_string();
    assert!(needs_cloud_sync(&a, &b));
}

#[test]
fn liveness_rules() {
    assert_eq!(elapsed_secs(10_999, 5_000), 5);
    assert_eq!(elapsed_secs(1_000, 5_000), 0);
    assert!(!peer_timed_out(10_999, 5_000));
    assert!(peer_timed_out(11_000, 5_000));
    assert!(use_relay(100_000, None));
    assert!(!use_relay(100_000, Some(97_001)));
    assert!(use_relay(100_000, Some(97_000)));
    assert!(keep_direct_route(20_000, 5_001));
    assert!(!keep_direct_route(20_000, 5_000));
    assert!(is_speaking(1_299, 1_000));
    assert!(!is_speaking(1_300, 1_000));
    assert_eq!(ping_rtt_ms(1_500, 1_000), 500);
    assert_eq!(ping_rtt_ms(1_000, 1_500), 0);
}

#[test]
fn voice_gate_hangover() {
    let mut g = VoiceGate::new();
    assert!(!g.step(false, false, false));
    assert!(g.step(true, false, false));
    assert_eq!(g.hangover(), HANGOVER_FRAMES);
    let mut sent = 0;
    for _ in 0..20 {
        if g.step(false, false, false) {
            sent += 1;
        }
    }
    assert_eq!(sent, 15);
    assert!(!g.step(true, true, false));
    assert!(!g.step(true, false, true));
    assert_eq!(g.hangover(), HANGOVER_FRAMES);
}

#[test]
fn cleanup_every_500_rounds() {
    let mut t = CleanupTimer::new();
    for _ in 0..499 {
        assert!(!t.tick());
    }
    assert!(t.tick());
    assert!(!t.tick());
}

#[test]
fn update_rules() {
    assert_eq!(get_target_match("windows", "x86_64"), "windows");
    assert_eq!(get_target_match("linux", "x86_64"), "linux");
    assert_eq!(get_target_match("freebsd", "x86_64"), "linux");
    assert_eq!(get_target_match("macos", "aarch64"), "macos-arm64");
    assert_eq!(get_target_match("macos", "x86_64"), "macos-x86_64");
    assert_eq!(get_target_match("macos", "powerpc"), "macos");
    assert_eq!(bin_name(".exe"), "p2p-voice.exe");
    assert!(is_prerelease("0.5.0-beta.1"));
    assert!(is_prerelease("1.0-alpha"));
    assert!(!is_prerelease("0.4.0"));
    assert_eq!(bin_name(""), "p2p-voice");
    let assets = vec![
        ReleaseAsset { name: "p2p-voice-macos-arm64".into(), download_url: "u1".into() },
        ReleaseAsset { name: "p2p-voice-linux".into(), download_url: "u2".into() },
        ReleaseAsset { name: "p2p-voice-linux-old".into(), download_url: "u3".into() },
    ];
    assert_eq!(find_asset_url(&assets, "linux"), Some("u2".to_string()));
    assert_eq!(find_asset_url(&assets, "windows"), None);
    let mut info = UpdateInfo::new("0.4.0");
    assert!(!info.update_available());
    assert!(!update_dialog_visible(false, &info));
    info.record_release("0.4.0".into(), &assets, None, "linux");
    assert!(!info.update_available());
    info.record_release("0.5.0".into(), &assets, Some("notes".into()), "linux");
    assert!(info.update_available());
    assert_eq!(info.download_url.as_deref(), Some("u2"));
    assert_eq!(info.release_notes.as_deref(), Some("notes"));
    assert!(update_dialog_visible(false, &info));
    assert!(update_dialog_visible(true, &UpdateInfo::new("1")));
}

#[test]
fn clock_is_after_2020() {
    assert!(current_time_ms().unwrap() > 1_577_836_800_000);
}

#[test]
fn epoch_stamps_truncate_to_64_bits() {
    assert_eq!(epoch_stamp(None), None);
    assert_eq!(epoch_stamp(Some(1_700_000_000_123)), Some(1_700_000_000_123));
    assert_eq!(epoch_stamp(Some((1u128 << 64) + 7)), Some(7));
}

#[test]
fn each_system_finds_its_release_file() {
    let assets = vec![
        ReleaseAsset { name: "p2p-voice-windows.exe".into(), download_url: "w".into() },
        ReleaseAsset { name: "p2p-voice-linux".into(), download_url: "l".into() },
        ReleaseAsset { name: "p2p-voice-macos-arm64".into(), download_url: "ma".into() },
        ReleaseAsset { name: "p2p-voice-macos-x86_64".into(), download_url: "mx".into() },
    ];
    let pick = |os: &str, arch: &str| find_asset_url(&assets, get_target_match(os, arch));
    assert_eq!(pick("windows", "x86_64"), Some("w".to_string()));
    assert_eq!(pick("linux", "x86_64"), Some("l".to_string()));
    assert_eq!(pick("macos", "aarch64"), Some("ma".to_string()));
    assert_eq!(pick("macos", "x86_64"), Some("mx".to_string()));
    let reversed: Vec<ReleaseAsset> = assets
        .iter()
        .rev()
        .map(|a| ReleaseAsset { name: a.name.clone(), download_url: a.download_url.clone() })
        .collect();
    for (os, arch, url) in [
        ("windows", "x86_64", "w"),
        ("linux", "x86_64", "l"),
        ("macos", "aarch64", "ma"),
        ("macos", "x86_64", "mx"),
    ] {
        assert_eq!(find_asset_url(&reversed, get_target_match(os, arch)), Some(url.to_string()));
    }
}

#[test]
fn call_button_connects_and_disconnects() {
    let on = press_call_button(false);
    assert!(on.connected);
    assert!(!on.stop_engine);
    assert!(on.start_engine);
    assert!(!on.clear_peers);
    assert_eq!(on.status, "Инициализация...");
    let off = press_call_button(true);
    assert!(!off.connected);
    assert!(off.stop_engine);
    assert!(!off.start_engine);
    assert!(off.clear_peers);
    assert_eq!(off.status, "Отключено");
}

#[test]
fn download_starts_once() {
    assert!(starts_update(true, false));
    assert!(!starts_update(true, true));
    assert!(!starts_update(false, false));
}

#[test]
fn only_a_login_with_real_settings_carries_cloud_settings() {
    let json = "{\"show_overlay\":true}";
    assert_eq!(cloud_config_text(&response(true, "", Some("tok"), Some(json))), Some(json));
    assert_eq!(cloud_config_text(&response(true, "", Some("tok"), Some("{}"))), None);
    assert_eq!(cloud_config_text(&response(true, "", Some("tok"), Some(""))), None);
    assert_eq!(cloud_config_text(&response(true, "", Some("tok"), None)), None);
    assert_eq!(cloud_config_text(&response(true, "", None, Some(json))), None);
    assert_eq!(cloud_config_text(&response(false, "no", Some("tok"), Some(json))), None);
}

#[test]
fn deafened_speaker_plays_silence() {
    assert!(matches!(speaker_frame(true), SpeakerFrame::Silence));
    assert!(matches!(speaker_frame(false), SpeakerFrame::Mix));
}
