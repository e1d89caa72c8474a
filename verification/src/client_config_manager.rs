//! The earlier form of the client configuration, which also carries the
//! identity provider's settings, and its sanitizing.

use vstd::prelude::*;

use crate::client_config::{opt_str_view, parse_http_url, parse_http_url_spec};
use crate::text::{strip_trailing, strip_trailing_spec, trim, trim_spec};

verus! {

/// The API used when the configuration names none, or none that parses.
pub const DEFAULT_API_BASE_URL: &'static str = "https://api.fdolls.adamcv.com";

/// The identity provider used when the configuration names none that parses.
pub const DEFAULT_AUTH_URL: &'static str =
    "https://auth.adamcv.com/realms/friendolls/protocol/openid-connect";

/// The token audience used when the configuration names none.
pub const DEFAULT_JWT_AUDIENCE: &'static str = "friendolls-desktop";

/// Settings of the identity provider.
#[derive(Debug, Clone)]
pub struct AuthConfig {
    pub audience: String,
    pub auth_url: String,
}

/// The client configuration.
#[derive(Debug, Clone)]
pub struct AppConfig {
    pub api_base_url: Option<String>,
    pub auth: AuthConfig,
}

/// The API base URL of a sanitized configuration.
pub open spec fn sanitized_api_base_url(api_base_url: Option<Seq<char>>) -> Seq<char> {
    let chosen = match api_base_url {
        Some(v) => match parse_http_url_spec(trim_spec(v)) {
            Some(u) => u,
            None => DEFAULT_API_BASE_URL@,
        },
        None => DEFAULT_API_BASE_URL@,
    };
    strip_trailing_spec(chosen, '/')
}

/// The identity provider URL of a sanitized configuration.
pub open spec fn sanitized_auth_url(auth_url: Seq<char>) -> Seq<char> {
    match parse_http_url_spec(trim_spec(auth_url)) {
        Some(u) => u,
        None => DEFAULT_AUTH_URL@,
    }
}

/// The audience of a sanitized configuration.
pub open spec fn sanitized_audience(audience: Seq<char>) -> Seq<char> {
    if trim_spec(audience).len() == 0 {
        DEFAULT_JWT_AUDIENCE@
    } else {
        trim_spec(audience)
    }
}

/// Sanitizes a configuration before it is used or stored: the API base URL and
/// the identity provider URL are read as http(s) URLs (else the defaults), and
/// the audience is trimmed (an empty one becomes the default).
pub fn sanitize(config: AppConfig) -> (res: AppConfig)
    ensures
        opt_str_view(res.api_base_url) == Some(
            sanitized_api_base_url(opt_str_view(config.api_base_url)),
        ),
        res.auth.auth_url@ == sanitized_auth_url(config.auth.auth_url@),
        res.auth.audience@ == sanitized_audience(config.auth.audience@),
{
    let chosen = match config.api_base_url {
        Some(v) => {
            let trimmed = trim(v.as_str());
            match parse_http_url(trimmed.as_str()) {
                Some(u) => u,
                None => String::from_str(DEFAULT_API_BASE_URL),
            }
        },
        None => String::from_str(DEFAULT_API_BASE_URL),
    };
    let api_base_url = strip_trailing(chosen.as_str(), '/');
    let auth_url_trimmed = trim(config.auth.auth_url.as_str());
    let auth_url = match parse_http_url(auth_url_trimmed.as_str()) {
        Some(u) => u,
        None => String::from_str(DEFAULT_AUTH_URL),
    };
    let audience_trimmed = trim(config.auth.audience.as_str());
    let audience = if audience_trimmed.as_str().is_empty() {
        String::from_str(DEFAULT_JWT_AUDIENCE)
    } else {
        audience_trimmed
    };
    AppConfig { api_base_url: Some(api_base_url), auth: AuthConfig { audience, auth_url } }
}

/// The configuration used when none can be loaded.
pub fn default_app_config() -> (res: AppConfig)
    ensures
        opt_str_view(res.api_base_url) == Some(DEFAULT_API_BASE_URL@),
        res.auth.audience@ == DEFAULT_JWT_AUDIENCE@,
        res.auth.auth_url@ == DEFAULT_AUTH_URL@,
{
    AppConfig {
        api_base_url: Some(String::from_str(DEFAULT_API_BASE_URL)),
        auth: AuthConfig {
            audience: String::from_str(DEFAULT_JWT_AUDIENCE),
            auth_url: String::from_str(DEFAULT_AUTH_URL),
        },
    }
}

} // verus!
