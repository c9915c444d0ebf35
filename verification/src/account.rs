//! Settings, the login/registration flow and audio device selection.

use vstd::prelude::*;
use vstd::string::StrSliceExecFns;

use crate::i18n::Language;
use crate::text::{contains, spec_contains, str_eq};

verus! {

/// The screen shown by the interface.
#[derive(Clone, Copy, PartialEq, Eq, Structural, Debug)]
pub enum AppScreen {
    Login,
    Register,
    Main,
}

/// The server's answer to a login or registration request.
pub struct AuthResponse {
    pub success: bool,
    pub message: String,
    /// Present on a successful login.
    pub token: Option<String>,
    /// The user's settings stored on the server, as JSON.
    pub config_json: Option<String>,
}

/// The user's settings, saved between sessions.
pub struct AppConfig {
    pub server_url: String,
    pub username: String,
    pub auth_token: String,
    pub selected_input: String,
    pub selected_output: String,
    pub show_overlay: bool,
    pub language: Language,
}

/// Mathematical form of [`AppConfig`].
pub struct ConfigView {
    pub server_url: Seq<char>,
    pub username: Seq<char>,
    pub auth_token: Seq<char>,
    pub selected_input: Seq<char>,
    pub selected_output: Seq<char>,
    pub show_overlay: bool,
    pub language: Language,
}

impl AppConfig {
    pub open spec fn view(&self) -> ConfigView {
        ConfigView {
            server_url: self.server_url@,
            username: self.username@,
            auth_token: self.auth_token@,
            selected_input: self.selected_input@,
            selected_output: self.selected_output@,
            show_overlay: self.show_overlay,
            language: self.language,
        }
    }

    /// Are the two settings the same in every field?
    pub fn same_as(&self, other: &AppConfig) -> (eq: bool)
        ensures
            eq == (self.view() == other.view()),
    {
        self.server_url == other.server_url && self.username == other.username && self.auth_token
            == other.auth_token && self.selected_input == other.selected_input
            && self.selected_output == other.selected_output && self.show_overlay
            == other.show_overlay && self.language == other.language
    }

    /// A copy of the settings.
    pub fn duplicate(&self) -> (c: AppConfig)
        ensures
            c.view() == self.view(),
    {
        AppConfig {
            server_url: self.server_url.clone(),
            username: self.username.clone(),
            auth_token: self.auth_token.clone(),
            selected_input: self.selected_input.clone(),
            selected_output: self.selected_output.clone(),
            show_overlay: self.show_overlay,
            language: self.language,
        }
    }
}

impl Default for AppConfig {
    /// The public server, no user, no device chosen, no overlay, Russian.
    fn default() -> (c: Self)
        ensures
            c.server_url@ == "p2p.tallfly.me"@,
            c.username@ == Seq::<char>::empty(),
            c.auth_token@ == Seq::<char>::empty(),
            c.selected_input@ == Seq::<char>::empty(),
            c.selected_output@ == Seq::<char>::empty(),
            !c.show_overlay,
            c.language == Language::Russian,
    {
        AppConfig {
            server_url: "p2p.tallfly.me".to_owned(),
            username: String::new(),
            auth_token: String::new(),
            selected_input: String::new(),
            selected_output: String::new(),
            show_overlay: false,
            language: Language::Russian,
        }
    }
}

/// Should settings that changed be stored on the server? Only when they
/// changed and the user is logged in.
pub fn needs_cloud_sync(before: &AppConfig, after: &AppConfig) -> (sync: bool)
    ensures
        sync == (before.view() != after.view() && after.auth_token@.len() > 0),
{
    !before.same_as(after) && !after.auth_token.as_str().is_empty()
}

/// Is the settings JSON sent by the server worth reading (not empty and
/// not `{}`)?
pub fn wants_cloud_config(config_json: &str) -> (wanted: bool)
    ensures
        wanted == (config_json@.len() > 0 && config_json@ != "{}"@),
{
    !config_json.is_empty() && !str_eq(config_json, "{}")
}

/// The settings JSON of a successful login that is worth reading: present,
/// not empty and not `{}`.
pub open spec fn spec_cloud_config_text(response: AuthResponse) -> Option<Seq<char>> {
    if response.success && response.token is Some && response.config_json is Some
        && response.config_json->0@.len() > 0 && response.config_json->0@ != "{}"@ {
        Some(response.config_json->0@)
    } else {
        None
    }
}

/// The settings JSON of `response` that is worth reading, if any: only a
/// successful login carries it, and an empty text or `{}` is skipped.
pub fn cloud_config_text(response: &AuthResponse) -> (text: Option<&str>)
    ensures
        text matches Some(t) ==> spec_cloud_config_text(*response) == Some(t@),
        text is None ==> spec_cloud_config_text(*response) is None,
{
    if !response.success || response.token.is_none() {
        return None;
    }
    match &response.config_json {
        Some(j) => {
            if wants_cloud_config(j.as_str()) {
                Some(j.as_str())
            } else {
                None
            }
        },
        None => None,
    }
}

/// Is an authentication message shown as a success?
pub fn auth_message_is_success(message: &str) -> (ok: bool)
    ensures
        ok == (spec_contains(message@, "успешна"@) || spec_contains(message@, "Success"@)),
{
    contains(message, "успешна") || contains(message, "Success")
}

/// The message shown after a successful registration.
pub open spec fn registered_message() -> Seq<char> {
    "Регистрация успешна! Теперь войдите."@
}

/// The state of the account screens.
pub struct AccountState {
    pub config: AppConfig,
    pub screen: AppScreen,
    pub password_input: String,
    pub auth_message: String,
    pub is_authenticating: bool,
    pub show_settings: bool,
}

/// How an HTTP request to the authentication endpoint ended.
#[derive(Clone, Copy, PartialEq, Eq, Structural, Debug)]
pub enum HttpOutcome {
    /// A successful status with a body.
    Reply,
    /// An error status with a body.
    ErrorStatus(u16),
    /// No answer from the server.
    Unreachable,
}

/// A failed response carrying `message`.
pub open spec fn failure_view(r: &AuthResponse, message: Seq<char>) -> bool {
    &&& !r.success
    &&& r.message@ == message
    &&& r.token is None
    &&& r.config_json is None
}

fn failure(message: &str) -> (r: AuthResponse)
    ensures
        failure_view(&r, message@),
{
    AuthResponse { success: false, message: message.to_owned(), token: None, config_json: None }
}

/// The response handed to the interface: the body the server sent when
/// it could be read (for a success or a 4xx/5xx status); otherwise a
/// failure explaining what went wrong.
pub fn auth_reply(outcome: HttpOutcome, parsed: Option<AuthResponse>) -> (r: AuthResponse)
    ensures
        match outcome {
            HttpOutcome::Reply => match parsed {
                Some(p) => r == p,
                None => failure_view(&r, "Ошибка обработки ответа"@),
            },
            HttpOutcome::ErrorStatus(code) => if 400 <= code <= 599 {
                match parsed {
                    Some(p) => r == p,
                    None => failure_view(&r, "Ошибка на сервере"@),
                }
            } else {
                failure_view(&r, "Сервер недоступен"@)
            },
            HttpOutcome::Unreachable => failure_view(&r, "Сервер недоступен"@),
        },
{
    match outcome {
        HttpOutcome::Reply => match parsed {
            Some(p) => p,
            None => failure("Ошибка обработки ответа"),
        },
        HttpOutcome::ErrorStatus(code) => {
            if 400 <= code && code <= 599 {
                match parsed {
                    Some(p) => p,
                    None => failure("Ошибка на сервере"),
                }
            } else {
                failure("Сервер недоступен")
            }
        },
        HttpOutcome::Unreachable => failure("Сервер недоступен"),
    }
}

/// The screen shown at start: the main screen when a token is saved,
/// the login screen otherwise.
pub fn initial_screen(config: &AppConfig) -> (s: AppScreen)
    ensures
        s == if config.auth_token@.len() == 0 {
            AppScreen::Login
        } else {
            AppScreen::Main
        },
{
    if config.auth_token.as_str().is_empty() {
        AppScreen::Login
    } else {
        AppScreen::Main
    }
}

impl AccountState {
    /// The state at start, with the saved settings.
    pub fn new(config: AppConfig) -> (s: Self)
        ensures
            s.config == config,
            s.screen == (if config.auth_token@.len() == 0 {
                AppScreen::Login
            } else {
                AppScreen::Main
            }),
            s.password_input@.len() == 0,
            s.auth_message@.len() == 0,
            !s.is_authenticating,
            !s.show_settings,
    {
        let screen = initial_screen(&config);
        AccountState {
            config,
            screen,
            password_input: String::new(),
            auth_message: String::new(),
            is_authenticating: false,
            show_settings: false,
        }
    }

    /// Start a login or registration request, unless one is under way
    /// already: only one is sent at a time. Says whether it started.
    pub fn begin_auth(&mut self) -> (started: bool)
        ensures
            started == !old(self).is_authenticating,
            final(self).is_authenticating,
            started ==> final(self).auth_message@.len() == 0,
            !started ==> final(self).auth_message == old(self).auth_message,
            final(self).config == old(self).config,
            final(self).screen == old(self).screen,
            final(self).password_input == old(self).password_input,
            final(self).show_settings == old(self).show_settings,
    {
        if self.is_authenticating {
            return false;
        }
        self.is_authenticating = true;
        self.auth_message = String::new();
        true
    }

    /// Switch between the login and registration screens, clearing the
    /// message.
    pub fn switch_auth_screen(&mut self, to_register: bool)
        ensures
            final(self).screen == if to_register {
                AppScreen::Register
            } else {
                AppScreen::Login
            },
            final(self).auth_message@.len() == 0,
            final(self).config == old(self).config,
            final(self).password_input == old(self).password_input,
            final(self).is_authenticating == old(self).is_authenticating,
            final(self).show_settings == old(self).show_settings,
    {
        self.screen = if to_register {
            AppScreen::Register
        } else {
            AppScreen::Login
        };
        self.auth_message = String::new();
    }

    /// Log out: forget the token, go back to the login screen and close
    /// the settings.
    pub fn logout(&mut self)
        ensures
            final(self).config.auth_token@.len() == 0,
            final(self).screen == AppScreen::Login,
            !final(self).show_settings,
            final(self).config.server_url == old(self).config.server_url,
            final(self).config.username == old(self).config.username,
            final(self).config.selected_input == old(self).config.selected_input,
            final(self).config.selected_output == old(self).config.selected_output,
            final(self).config.show_overlay == old(self).config.show_overlay,
            final(self).config.language == old(self).config.language,
            final(self).password_input == old(self).password_input,
            final(self).auth_message == old(self).auth_message,
            final(self).is_authenticating == old(self).is_authenticating,
    {
        self.config.auth_token = String::new();
        self.screen = AppScreen::Login;
        self.show_settings = false;
    }

    /// Apply the server's answer to a login or registration request.
    /// `cloud` is the stored settings read from the answer's JSON, when
    /// [`cloud_config_text`] gives it and it could be read; there are none
    /// to apply otherwise.
    ///
    /// * A successful login stores the token, opens the main screen,
    ///   clears the password and the message, and takes the devices and
    ///   overlay choice from `cloud`, if any.
    /// * A successful registration (no token) returns to the login screen
    ///   with a message saying so.
    /// * A failure shows the server's message.
    pub fn apply_auth_response(&mut self, response: AuthResponse, cloud: Option<AppConfig>)
        requires
            cloud is Some ==> spec_cloud_config_text(response) is Some,
        ensures
            !final(self).is_authenticating,
            final(self).show_settings == old(self).show_settings,
            final(self).config.server_url == old(self).config.server_url,
            final(self).config.username == old(self).config.username,
            final(self).config.language == old(self).config.language,
            response.success && response.token is Some ==> {
                &&& final(self).config.auth_token@ == response.token->0@
                &&& final(self).screen == AppScreen::Main
                &&& final(self).password_input@.len() == 0
                &&& final(self).auth_message@.len() == 0
                &&& match cloud {
                    Some(c) => {
                        &&& final(self).config.selected_input == c.selected_input
                        &&& final(self).config.selected_output == c.selected_output
                        &&& final(self).config.show_overlay == c.show_overlay
                    },
                    None => {
                        &&& final(self).config.selected_input == old(self).config.selected_input
                        &&& final(self).config.selected_output == old(
                            self,
                        ).config.selected_output
                        &&& final(self).config.show_overlay == old(self).config.show_overlay
                    },
                }
            },
            response.success && response.token is None ==> {
                &&& final(self).auth_message@ == registered_message()
                &&& final(self).screen == AppScreen::Login
                &&& final(self).config == old(self).config
                &&& final(self).password_input == old(self).password_input
            },
            !response.success ==> {
                &&& final(self).auth_message@ == response.message@
                &&& final(self).screen == old(self).screen
                &&& final(self).config == old(self).config
                &&& final(self).password_input == old(self).password_input
            },
    {
        self.is_authenticating = false;
        if response.success {
            match response.token {
                Some(token) => {
                    self.config.auth_token = token;
                    self.screen = AppScreen::Main;
                    self.password_input = String::new();
                    self.auth_message = String::new();
                    if let Some(c) = cloud {
                        self.config.selected_input = c.selected_input;
                        self.config.selected_output = c.selected_output;
                        self.config.show_overlay = c.show_overlay;
                    }
                },
                None => {
                    self.auth_message = "Регистрация успешна! Теперь войдите.".to_owned();
                    self.screen = AppScreen::Login;
                },
            }
        } else {
            self.auth_message = response.message;
        }
    }
}

/// The placeholder shown when no audio device is found.
pub open spec fn no_devices() -> Seq<char> {
    "Нет устройств"@
}

/// Is `name` one of `devices`?
fn listed(name: &str, devices: &Vec<String>) -> (found: bool)
    ensures
        found == devices@.map_values(|d: String| d@).contains(name@),
{
    let mut i: usize = 0;
    while i < devices.len()
        invariant
            i <= devices@.len(),
            forall|k: int| 0 <= k < i ==> devices@[k]@ != name@,
        decreases devices@.len() - i,
    {
        if str_eq(devices[i].as_str(), name) {
            assert(devices@.map_values(|d: String| d@)[i as int] == name@);
            return true;
        }
        i = i + 1;
    }
    proof {
        let names = devices@.map_values(|d: String| d@);
        if names.contains(name@) {
            let k = choose|k: int| 0 <= k < names.len() && #[trigger] names[k] == name@;
            assert(devices@[k]@ == name@);
        }
    }
    false
}

/// The device to use: the saved choice when it is still present, else the
/// first device found, else the placeholder `Нет устройств`.
pub fn choose_device(selected: &str, devices: &Vec<String>) -> (device: String)
    ensures
        device@ == if selected@.len() > 0 && devices@.map_values(|d: String| d@).contains(
            selected@,
        ) {
            selected@
        } else if devices@.len() > 0 {
            devices@[0]@
        } else {
            no_devices()
        },
{
    if !selected.is_empty() && listed(selected, devices) {
        selected.to_owned()
    } else if devices.len() > 0 {
        devices[0].clone()
    } else {
        "Нет устройств".to_owned()
    }
}

} // verus!
