//! Interface languages and the interface texts in each of them.

use vstd::prelude::*;

use crate::text::str_eq;

verus! {

/// Languages of the interface.
#[derive(Clone, Copy, PartialEq, Eq, Structural, Debug)]
pub enum Language {
    Russian,
    English,
    Japanese,
}

/// The text for `lang` among its three language versions.
pub open spec fn pick(lang: Language, ru: Seq<char>, en: Seq<char>, ja: Seq<char>) -> Seq<char> {
    match lang {
        Language::Russian => ru,
        Language::English => en,
        Language::Japanese => ja,
    }
}

fn by_language(lang: Language, ru: &'static str, en: &'static str, ja: &'static str) -> (s: &'static str)
    ensures
        s@ == pick(lang, ru@, en@, ja@),
{
    match lang {
        Language::Russian => ru,
        Language::English => en,
        Language::Japanese => ja,
    }
}

/// The interface text named `key` in `lang`; an unknown key is shown as
/// itself.
pub open spec fn spec_tr(key: Seq<char>, lang: Language) -> Seq<char> {
    if key == "settings"@ {
        pick(lang, "Настройки"@, "Settings"@, "設定"@)
    } else if key == "connect"@ {
        pick(lang, "Подключиться"@, "Connect"@, "接続する"@)
    } else if key == "disconnect"@ {
        pick(lang, "Отключиться"@, "Disconnect"@, "切断する"@)
    } else if key == "mic"@ {
        pick(lang, "Микрофон"@, "Microphone"@, "マイク"@)
    } else if key == "output"@ {
        pick(lang, "Динамики"@, "Speakers"@, "スピーカー"@)
    } else if key == "overlay"@ {
        pick(lang, "Игровой оверлей"@, "Game Overlay"@, "オーバーレイ"@)
    } else if key == "room"@ {
        pick(lang, "Комната"@, "Room"@, "ルーム名"@)
    } else if key == "room_pass"@ {
        pick(lang, "Пароль комнаты"@, "Room Password"@, "ルームのパスワード"@)
    } else if key == "nick"@ {
        pick(lang, "Никнейм"@, "Nickname"@, "ニックネーム"@)
    } else if key == "server"@ {
        pick(lang, "Сервер"@, "Server URL"@, "サーバー"@)
    } else if key == "lang"@ {
        pick(lang, "Язык"@, "Language"@, "言語"@)
    } else if key == "update_list"@ {
        pick(lang, "Обновить устройства"@, "Refresh Devices"@, "デバイスを更新"@)
    } else if key == "waiting"@ {
        pick(lang, "Ожидание собеседников..."@, "Waiting for peers..."@, "待機中..."@)
    } else if key == "logout"@ {
        pick(lang, "Выйти из аккаунта"@, "Log Out"@, "ログアウト"@)
    } else if key == "login_title"@ {
        pick(lang, "Вход в аккаунт"@, "Account Login"@, "ログイン"@)
    } else if key == "register_title"@ {
        pick(lang, "Регистрация"@, "Registration"@, "新規登録"@)
    } else if key == "login"@ {
        pick(lang, "Логин"@, "Username"@, "ユーザー名"@)
    } else if key == "password"@ {
        pick(lang, "Пароль"@, "Password"@, "パスワード"@)
    } else if key == "btn_login"@ {
        pick(lang, "Войти"@, "Log In"@, "ログイン"@)
    } else if key == "btn_register"@ {
        pick(lang, "Зарегистрироваться"@, "Register"@, "登録する"@)
    } else if key == "no_account"@ {
        pick(lang, "Нет аккаунта? Зарегистрироваться"@, "No account? Register here"@, "アカウントがありませんか？登録"@)
    } else if key == "have_account"@ {
        pick(lang, "Уже есть аккаунт? Войти"@, "Already have an account? Log in"@, "すでにアカウントをお持ちですか？ログイン"@)
    } else {
        key
    }
}

/// The interface texts: each key's text in Russian, English and
/// Japanese.
pub proof fn law_interface_texts()
    ensures
        spec_tr("settings"@, Language::Russian) == "Настройки"@,
        spec_tr("settings"@, Language::English) == "Settings"@,
        spec_tr("settings"@, Language::Japanese) == "設定"@,
        spec_tr("connect"@, Language::Russian) == "Подключиться"@,
        spec_tr("connect"@, Language::English) == "Connect"@,
        spec_tr("connect"@, Language::Japanese) == "接続する"@,
        spec_tr("disconnect"@, Language::Russian) == "Отключиться"@,
        spec_tr("disconnect"@, Language::English) == "Disconnect"@,
        spec_tr("disconnect"@, Language::Japanese) == "切断する"@,
        spec_tr("mic"@, Language::Russian) == "Микрофон"@,
        spec_tr("mic"@, Language::English) == "Microphone"@,
        spec_tr("mic"@, Language::Japanese) == "マイク"@,
        spec_tr("output"@, Language::Russian) == "Динамики"@,
        spec_tr("output"@, Language::English) == "Speakers"@,
        spec_tr("output"@, Language::Japanese) == "スピーカー"@,
        spec_tr("overlay"@, Language::Russian) == "Игровой оверлей"@,
        spec_tr("overlay"@, Language::English) == "Game Overlay"@,
        spec_tr("overlay"@, Language::Japanese) == "オーバーレイ"@,
        spec_tr("room"@, Language::Russian) == "Комната"@,
        spec_tr("room"@, Language::English) == "Room"@,
        spec_tr("room"@, Language::Japanese) == "ルーム名"@,
        spec_tr("room_pass"@, Language::Russian) == "Пароль комнаты"@,
        spec_tr("room_pass"@, Language::English) == "Room Password"@,
        spec_tr("room_pass"@, Language::Japanese) == "ルームのパスワード"@,
        spec_tr("nick"@, Language::Russian) == "Никнейм"@,
        spec_tr("nick"@, Language::English) == "Nickname"@,
        spec_tr("nick"@, Language::Japanese) == "ニックネーム"@,
        spec_tr("server"@, Language::Russian) == "Сервер"@,
        spec_tr("server"@, Language::English) == "Server URL"@,
        spec_tr("server"@, Language::Japanese) == "サーバー"@,
        spec_tr("lang"@, Language::Russian) == "Язык"@,
        spec_tr("lang"@, Language::English) == "Language"@,
        spec_tr("lang"@, Language::Japanese) == "言語"@,
        spec_tr("update_list"@, Language::Russian) == "Обновить устройства"@,
        spec_tr("update_list"@, Language::English) == "Refresh Devices"@,
        spec_tr("update_list"@, Language::Japanese) == "デバイスを更新"@,
        spec_tr("waiting"@, Language::Russian) == "Ожидание собеседников..."@,
        spec_tr("waiting"@, Language::English) == "Waiting for peers..."@,
        spec_tr("waiting"@, Language::Japanese) == "待機中..."@,
        spec_tr("logout"@, Language::Russian) == "Выйти из аккаунта"@,
        spec_tr("logout"@, Language::English) == "Log Out"@,
        spec_tr("logout"@, Language::Japanese) == "ログアウト"@,
        spec_tr("login_title"@, Language::Russian) == "Вход в аккаунт"@,
        spec_tr("login_title"@, Language::English) == "Account Login"@,
        spec_tr("login_title"@, Language::Japanese) == "ログイン"@,
        spec_tr("register_title"@, Language::Russian) == "Регистрация"@,
        spec_tr("register_title"@, Language::English) == "Registration"@,
        spec_tr("register_title"@, Language::Japanese) == "新規登録"@,
        spec_tr("login"@, Language::Russian) == "Логин"@,
        spec_tr("login"@, Language::English) == "Username"@,
        spec_tr("login"@, Language::Japanese) == "ユーザー名"@,
        spec_tr("password"@, Language::Russian) == "Пароль"@,
        spec_tr("password"@, Language::English) == "Password"@,
        spec_tr("password"@, Language::Japanese) == "パスワード"@,
        spec_tr("btn_login"@, Language::Russian) == "Войти"@,
        spec_tr("btn_login"@, Language::English) == "Log In"@,
        spec_tr("btn_login"@, Language::Japanese) == "ログイン"@,
        spec_tr("btn_register"@, Language::Russian) == "Зарегистрироваться"@,
        spec_tr("btn_register"@, Language::English) == "Register"@,
        spec_tr("btn_register"@, Language::Japanese) == "登録する"@,
        spec_tr("no_account"@, Language::Russian) == "Нет аккаунта? Зарегистрироваться"@,
        spec_tr("no_account"@, Language::English) == "No account? Register here"@,
        spec_tr("no_account"@, Language::Japanese) == "アカウントがありませんか？登録"@,
        spec_tr("have_account"@, Language::Russian) == "Уже есть аккаунт? Войти"@,
        spec_tr("have_account"@, Language::English) == "Already have an account? Log in"@,
        spec_tr("have_account"@, Language::Japanese) == "すでにアカウントをお持ちですか？ログイン"@,
{
    reveal_strlit("settings");
    assert("settings"@.len() == 8);
    reveal_strlit("connect");
    assert("connect"@.len() == 7);
    reveal_strlit("disconnect");
    assert("disconnect"@.len() == 10);
    reveal_strlit("mic");
    assert("mic"@.len() == 3);
    reveal_strlit("output");
    assert("output"@.len() == 6);
    reveal_strlit("overlay");
    assert("overlay"@.len() == 7);
    reveal_strlit("room");
    assert("room"@.len() == 4);
    reveal_strlit("room_pass");
    assert("room_pass"@.len() == 9);
    reveal_strlit("nick");
    assert("nick"@.len() == 4);
    reveal_strlit("server");
    assert("server"@.len() == 6);
    reveal_strlit("lang");
    assert("lang"@.len() == 4);
    reveal_strlit("update_list");
    assert("update_list"@.len() == 11);
    reveal_strlit("waiting");
    assert("waiting"@.len() == 7);
    reveal_strlit("logout");
    assert("logout"@.len() == 6);
    reveal_strlit("login_title");
    assert("login_title"@.len() == 11);
    reveal_strlit("register_title");
    assert("register_title"@.len() == 14);
    reveal_strlit("login");
    assert("login"@.len() == 5);
    reveal_strlit("password");
    assert("password"@.len() == 8);
    reveal_strlit("btn_login");
    assert("btn_login"@.len() == 9);
    reveal_strlit("btn_register");
    assert("btn_register"@.len() == 12);
    reveal_strlit("no_account");
    assert("no_account"@.len() == 10);
    reveal_strlit("have_account");
    assert("have_account"@.len() == 12);
    assert("overlay"@[0] != "connect"@[0]);
    assert("nick"@[0] != "room"@[0]);
    assert("server"@[0] != "output"@[0]);
    assert("lang"@[0] != "room"@[0]);
    assert("lang"@[0] != "nick"@[0]);
    assert("waiting"@[0] != "connect"@[0]);
    assert("waiting"@[0] != "overlay"@[0]);
    assert("logout"@[0] != "output"@[0]);
    assert("logout"@[0] != "server"@[0]);
    assert("login_title"@[0] != "update_list"@[0]);
    assert("password"@[0] != "settings"@[0]);
    assert("btn_login"@[0] != "room_pass"@[0]);
    assert("no_account"@[0] != "disconnect"@[0]);
    assert("have_account"@[0] != "btn_register"@[0]);
}

/// The interface text named `key` in `lang`; an unknown key is shown as
/// itself.
pub fn tr(key: &str, lang: Language) -> (text: &str)
    ensures
        text@ == spec_tr(key@, lang),
{
    if str_eq(key, "settings") {
        return by_language(lang, "Настройки", "Settings", "設定");
    }
    if str_eq(key, "connect") {
        return by_language(lang, "Подключиться", "Connect", "接続する");
    }
    if str_eq(key, "disconnect") {
        return by_language(lang, "Отключиться", "Disconnect", "切断する");
    }
    if str_eq(key, "mic") {
        return by_language(lang, "Микрофон", "Microphone", "マイク");
    }
    if str_eq(key, "output") {
        return by_language(lang, "Динамики", "Speakers", "スピーカー");
    }
    if str_eq(key, "overlay") {
        return by_language(lang, "Игровой оверлей", "Game Overlay", "オーバーレイ");
    }
    if str_eq(key, "room") {
        return by_language(lang, "Комната", "Room", "ルーム名");
    }
    if str_eq(key, "room_pass") {
        return by_language(lang, "Пароль комнаты", "Room Password", "ルームのパスワード");
    }
    if str_eq(key, "nick") {
        return by_language(lang, "Никнейм", "Nickname", "ニックネーム");
    }
    if str_eq(key, "server") {
        return by_language(lang, "Сервер", "Server URL", "サーバー");
    }
    if str_eq(key, "lang") {
        return by_language(lang, "Язык", "Language", "言語");
    }
    if str_eq(key, "update_list") {
        return by_language(lang, "Обновить устройства", "Refresh Devices", "デバイスを更新");
    }
    if str_eq(key, "waiting") {
        return by_language(lang, "Ожидание собеседников...", "Waiting for peers...", "待機中...");
    }
    if str_eq(key, "logout") {
        return by_language(lang, "Выйти из аккаунта", "Log Out", "ログアウト");
    }
    if str_eq(key, "login_title") {
        return by_language(lang, "Вход в аккаунт", "Account Login", "ログイン");
    }
    if str_eq(key, "register_title") {
        return by_language(lang, "Регистрация", "Registration", "新規登録");
    }
    if str_eq(key, "login") {
        return by_language(lang, "Логин", "Username", "ユーザー名");
    }
    if str_eq(key, "password") {
        return by_language(lang, "Пароль", "Password", "パスワード");
    }
    if str_eq(key, "btn_login") {
        return by_language(lang, "Войти", "Log In", "ログイン");
    }
    if str_eq(key, "btn_register") {
        return by_language(lang, "Зарегистрироваться", "Register", "登録する");
    }
    if str_eq(key, "no_account") {
        return by_language(lang, "Нет аккаунта? Зарегистрироваться", "No account? Register here", "アカウントがありませんか？登録");
    }
    if str_eq(key, "have_account") {
        return by_language(lang, "Уже есть аккаунт? Войти", "Already have an account? Log in", "すでにアカウントをお持ちですか？ログイン");
    }
    key
}

} // verus!
