//! The client configuration: API base URL, debug mode and hotkeys, with the
//! sanitizing that every loaded or saved configuration goes through.

use vstd::prelude::*;

use crate::accelerators::{
    default_accelerator_for_action, default_accelerators, default_view, normalize_accelerators,
    normalize_accelerators_view, AcceleratorAction, AcceleratorMap, AcceleratorView,
    KeyboardAccelerator,
};
use crate::platform::Platform;
use crate::text::{str_eq, strip_trailing, strip_trailing_spec, trim, trim_spec};
use crate::urls::{parse_url, url_parse_spec};

verus! {

/// The API used when the configuration names none, or none that parses.
pub const DEFAULT_API_BASE_URL: &'static str = "https://api.friendolls.adamcv.com";

/// The client configuration.
#[derive(Debug)]
pub struct AppConfig {
    pub api_base_url: Option<String>,
    pub debug_mode: bool,
    pub accelerators: AcceleratorMap,
}

/// The mathematical value of an [`AppConfig`].
#[verifier::ext_equal]
pub struct AppConfigView {
    pub api_base_url: Option<Seq<char>>,
    pub debug_mode: bool,
    pub accelerators: Map<AcceleratorAction, AcceleratorView>,
}

/// The text of an optional string.
pub open spec fn opt_str_view(o: Option<String>) -> Option<Seq<char>> {
    match o {
        Some(s) => Some(s@),
        None => None,
    }
}

impl View for AppConfig {
    type V = AppConfigView;

    open spec fn view(&self) -> AppConfigView {
        AppConfigView {
            api_base_url: opt_str_view(self.api_base_url),
            debug_mode: self.debug_mode,
            accelerators: self.accelerators@,
        }
    }
}

impl AppConfig {
    /// The configuration a fresh install starts with.
    pub fn default_for(platform: Platform) -> (res: Self)
        ensures
            res@ == (AppConfigView {
                api_base_url: None,
                debug_mode: false,
                accelerators: map![AcceleratorAction::SceneInteractivity => default_view(platform)],
            }),
    {
        AppConfig {
            api_base_url: None,
            debug_mode: false,
            accelerators: default_accelerators(platform),
        }
    }

    /// The configuration with its accelerators normalized (see
    /// [`normalize_accelerators`]); everything else is kept.
    pub fn normalized(self, platform: Platform) -> (res: Self)
        ensures
            res@ == (AppConfigView {
                accelerators: normalize_accelerators_view(self@.accelerators, platform),
                ..self@
            }),
    {
        let AppConfig { api_base_url, debug_mode, accelerators } = self;
        AppConfig {
            api_base_url,
            debug_mode,
            accelerators: normalize_accelerators(accelerators, platform),
        }
    }

    /// The accelerator bound to `action`, or the action's default.
    pub fn accelerator_for(&self, action: AcceleratorAction, platform: Platform) -> (res:
        KeyboardAccelerator)
        ensures
            res@ == if self@.accelerators.contains_key(action) {
                self@.accelerators[action]
            } else {
                default_view(platform)
            },
    {
        match self.accelerators.get(action) {
            Some(a) => a.clone(),
            None => default_accelerator_for_action(action, platform),
        }
    }
}

/// The serialization of what `url::Url::parse` makes of `input`, when it parses
/// with an `http` or `https` scheme.
pub open spec fn http_serialization(input: Seq<char>) -> Option<Seq<char>> {
    match url_parse_spec(input) {
        Some(parts) => if parts.0 == "http"@ || parts.0 == "https"@ {
            Some(parts.1)
        } else {
            None
        },
        None => None,
    }
}

/// An http(s) URL from user input: the input itself if it parses as one, else
/// the input behind `https://`; its serialization without trailing slashes.
pub open spec fn parse_http_url_spec(value: Seq<char>) -> Option<Seq<char>> {
    if value.len() == 0 {
        None
    } else {
        match http_serialization(value) {
            Some(u) => Some(strip_trailing_spec(u, '/')),
            None => match http_serialization("https://"@ + value) {
                Some(u) => Some(strip_trailing_spec(u, '/')),
                None => None,
            },
        }
    }
}

/// The API base URL a sanitized configuration holds.
pub open spec fn sanitized_api_base_url(api_base_url: Option<Seq<char>>) -> Seq<char> {
    let chosen = match api_base_url {
        Some(v) => match parse_http_url_spec(trim_spec(v)) {
            Some(u) => u,
            None => DEFAULT_API_BASE_URL@,
        },
        None => DEFAULT_API_BASE_URL@,
    };
    strip_trailing_spec(chosen, '/')
}

/// `value` without its trailing slashes.
pub fn strip_trailing_slash(value: &str) -> (res: String)
    ensures
        res@ == strip_trailing_spec(value@, '/'),
{
    strip_trailing(value, '/')
}

fn is_http_scheme(scheme: &str) -> (res: bool)
    ensures
        res == (scheme@ == "http"@ || scheme@ == "https"@),
{
    str_eq(scheme, "http") || str_eq(scheme, "https")
}

fn http_url_of(input: &str) -> (res: Option<String>)
    ensures
        opt_str_view(res) == match http_serialization(input@) {
            Some(u) => Some(strip_trailing_spec(u, '/')),
            None => None,
        },
{
    match parse_url(input) {
        Some(parts) => {
            if is_http_scheme(parts.0.as_str()) {
                Some(strip_trailing_slash(parts.1.as_str()))
            } else {
                None
            }
        },
        None => None,
    }
}

/// Reads user input as an http(s) URL: as given, or else behind `https://`.
pub fn parse_http_url(value: &str) -> (res: Option<String>)
    ensures
        opt_str_view(res) == parse_http_url_spec(value@),
{
    if value.is_empty() {
        return None;
    }
    match http_url_of(value) {
        Some(u) => Some(u),
        None => {
            let prefixed = String::from_str("https://").concat(value);
            http_url_of(prefixed.as_str())
        },
    }
}

/// The API base URL after sanitizing: the trimmed input read as an http(s)
/// URL, or the default API; never with a trailing slash.
pub fn sanitize_api_base_url(api_base_url: Option<String>) -> (res: String)
    ensures
        res@ == sanitized_api_base_url(opt_str_view(api_base_url)),
{
    let chosen = match api_base_url {
        Some(v) => {
            let trimmed = trim(v.as_str());
            match parse_http_url(trimmed.as_str()) {
                Some(u) => u,
                None => String::from_str(DEFAULT_API_BASE_URL),
            }
        },
        None => String::from_str(DEFAULT_API_BASE_URL),
    };
    strip_trailing_slash(chosen.as_str())
}

/// Sanitizes a configuration before it is used or stored: the API base URL is
/// replaced by its sanitized form; the rest is kept.
pub fn sanitize(config: AppConfig) -> (res: AppConfig)
    ensures
        res@ == (AppConfigView {
            api_base_url: Some(sanitized_api_base_url(config@.api_base_url)),
            ..config@
        }),
{
    let AppConfig { api_base_url, debug_mode, accelerators } = config;
    AppConfig { api_base_url: Some(sanitize_api_base_url(api_base_url)), debug_mode, accelerators }
}

/// The configuration used when none can be loaded.
pub fn default_app_config(platform: Platform) -> (res: AppConfig)
    ensures
        res@ == (AppConfigView {
            api_base_url: Some(DEFAULT_API_BASE_URL@),
            debug_mode: false,
            accelerators: map![AcceleratorAction::SceneInteractivity => default_view(platform)],
        }),
{
    AppConfig {
        api_base_url: Some(String::from_str(DEFAULT_API_BASE_URL)),
        debug_mode: false,
        accelerators: default_accelerators(platform),
    }
}

/// A sanitized configuration always names an API base URL, and it never ends
/// in a slash.
pub proof fn lemma_sanitized_url_has_no_trailing_slash(api_base_url: Option<Seq<char>>)
    ensures
        sanitized_api_base_url(api_base_url).len() == 0 || sanitized_api_base_url(api_base_url).last()
            != '/',
{
    let chosen = match api_base_url {
        Some(v) => match parse_http_url_spec(trim_spec(v)) {
            Some(u) => u,
            None => DEFAULT_API_BASE_URL@,
        },
        None => DEFAULT_API_BASE_URL@,
    };
    crate::text::lemma_trailing_count_bound(chosen, '/');
}

/// Why a configuration operation failed; outside errors are kept as their
/// messages.
pub enum ClientConfigError {
    ResolvePath(String),
    Io(String),
    Parse(String),
    Dispatch(String),
    Window(String),
    ShowWindow(String),
    MissingParent(String),
}

/// The message of a configuration error: a prefix naming the failed step, then
/// the outside error's message.
pub open spec fn config_error_message_spec(e: ClientConfigError) -> Seq<char> {
    match e {
        ClientConfigError::ResolvePath(m) => "failed to resolve app config dir: "@ + m@,
        ClientConfigError::Io(m) => "io error: "@ + m@,
        ClientConfigError::Parse(m) => "failed to parse client config: "@ + m@,
        ClientConfigError::Dispatch(m) => "failed to run on main thread: "@ + m@,
        ClientConfigError::Window(m) => "failed to build client config window: "@ + m@,
        ClientConfigError::ShowWindow(m) => "failed to show client config window: "@ + m@,
        ClientConfigError::MissingParent(m) => "missing required parent window: "@ + m@,
    }
}

impl ClientConfigError {
    /// The error's message.
    pub fn message(&self) -> (res: String)
        ensures
            res@ == config_error_message_spec(*self),
    {
        let (prefix, detail): (&str, &String) = match self {
            ClientConfigError::ResolvePath(m) => ("failed to resolve app config dir: ", m),
            ClientConfigError::Io(m) => ("io error: ", m),
            ClientConfigError::Parse(m) => ("failed to parse client config: ", m),
            ClientConfigError::Dispatch(m) => ("failed to run on main thread: ", m),
            ClientConfigError::Window(m) => ("failed to build client config window: ", m),
            ClientConfigError::ShowWindow(m) => ("failed to show client config window: ", m),
            ClientConfigError::MissingParent(m) => ("missing required parent window: ", m),
        };
        String::from_str(prefix).concat(detail.as_str())
    }
}

} // verus!
