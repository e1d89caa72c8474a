//! Sign-in state: the stored credential, its errors, and the session state
//! transitions on login and logout.

use vstd::prelude::*;

verus! {

/// Why a sign-in operation failed. The payloads of the variants that wrap an
/// error of another component hold that error's message.
#[derive(Debug, Clone)]
pub enum AuthError {
    KeyringError(String),
    NetworkError(String),
    SerializationError(String),
    InvalidConfig,
    RefreshFailed,
    RequestFailed(String),
    IoError(String),
    Cancelled,
    CallbackTimeout,
    MissingParameter(String),
    ServerBindError(String),
}

/// The mathematical value of an [`AuthError`].
pub enum AuthErrorView {
    KeyringError(Seq<char>),
    NetworkError(Seq<char>),
    SerializationError(Seq<char>),
    InvalidConfig,
    RefreshFailed,
    RequestFailed(Seq<char>),
    IoError(Seq<char>),
    Cancelled,
    CallbackTimeout,
    MissingParameter(Seq<char>),
    ServerBindError(Seq<char>),
}

impl View for AuthError {
    type V = AuthErrorView;

    open spec fn view(&self) -> AuthErrorView {
        match self {
            AuthError::KeyringError(m) => AuthErrorView::KeyringError(m@),
            AuthError::NetworkError(m) => AuthErrorView::NetworkError(m@),
            AuthError::SerializationError(m) => AuthErrorView::SerializationError(m@),
            AuthError::InvalidConfig => AuthErrorView::InvalidConfig,
            AuthError::RefreshFailed => AuthErrorView::RefreshFailed,
            AuthError::RequestFailed(m) => AuthErrorView::RequestFailed(m@),
            AuthError::IoError(m) => AuthErrorView::IoError(m@),
            AuthError::Cancelled => AuthErrorView::Cancelled,
            AuthError::CallbackTimeout => AuthErrorView::CallbackTimeout,
            AuthError::MissingParameter(m) => AuthErrorView::MissingParameter(m@),
            AuthError::ServerBindError(m) => AuthErrorView::ServerBindError(m@),
        }
    }
}

/// The credential kept between runs.
#[derive(Debug, Clone)]
pub struct AuthPass {
    pub access_token: String,
    pub expires_in: u64,
    pub issued_at: Option<u64>,
}

/// The seconds since the Unix epoch by the system clock; `None` when the clock
/// reads earlier than the epoch. Nothing is claimed of the value: it is the time.
#[verifier::external_body]
fn unix_now_secs() -> (res: Option<u64>) {
    match std::time::SystemTime::now().duration_since(std::time::UNIX_EPOCH) {
        Ok(d) => Some(d.as_secs()),
        Err(_) => None,
    }
}

/// A credential issued at `now` (seconds since the epoch); a clock that could
/// not be read fails the refresh.
pub fn auth_pass_issued_at(access_token: String, expires_in: u64, now: Option<u64>) -> (res:
    Result<AuthPass, AuthError>)
    ensures
        match now {
            Some(t) => res matches Ok(p) && p.access_token@ == access_token@ && p.expires_in
                == expires_in && p.issued_at == Some(t),
            None => res matches Err(AuthError::RefreshFailed),
        },
{
    match now {
        Some(t) => Ok(AuthPass { access_token, expires_in, issued_at: Some(t) }),
        None => Err(AuthError::RefreshFailed),
    }
}

/// A credential for a freshly issued token, stamped with the current time.
pub fn build_auth_pass(access_token: String, expires_in: u64) -> (res: Result<
    AuthPass,
    AuthError,
>)
    ensures
        match res {
            Ok(p) => p.access_token@ == access_token@ && p.expires_in == expires_in
                && p.issued_at is Some,
            Err(e) => e is RefreshFailed,
        },
{
    auth_pass_issued_at(access_token, expires_in, unix_now_secs())
}

/// The sign-in state of the running client.
#[derive(Debug, Clone)]
pub struct AuthState {
    pub auth_pass: Option<AuthPass>,
}

/// Forgets the credential (the caller also clears the stored copy).
pub fn logout(state: &mut AuthState)
    ensures
        final(state).auth_pass is None,
{
    state.auth_pass = None;
}

/// Keeps `auth_pass` as the current credential and returns the copy to store.
pub fn persist_auth_pass(state: &mut AuthState, auth_pass: &AuthPass) -> (res: AuthPass)
    ensures
        final(state).auth_pass matches Some(p) && p.access_token@ == auth_pass.access_token@
            && p.expires_in == auth_pass.expires_in && p.issued_at == auth_pass.issued_at,
        res.access_token@ == auth_pass.access_token@,
        res.expires_in == auth_pass.expires_in,
        res.issued_at == auth_pass.issued_at,
{
    let kept = AuthPass {
        access_token: auth_pass.access_token.clone(),
        expires_in: auth_pass.expires_in,
        issued_at: auth_pass.issued_at,
    };
    state.auth_pass = Some(kept);
    AuthPass {
        access_token: auth_pass.access_token.clone(),
        expires_in: auth_pass.expires_in,
        issued_at: auth_pass.issued_at,
    }
}

/// The URL of an endpoint of the sign-in service: `route` appended to the
/// configured API base. Without an HTTP client, or without a base URL, the
/// configuration is invalid.
pub fn auth_endpoint(clients_ready: bool, api_base_url: &Option<String>, route: &str) -> (res:
    Result<String, AuthError>)
    ensures
        match res {
            Ok(url) => clients_ready && (api_base_url matches Some(base) && url@ == base@ + route@),
            Err(e) => e is InvalidConfig && (!clients_ready || api_base_url is None),
        },
{
    if !clients_ready {
        return Err(AuthError::InvalidConfig);
    }
    match api_base_url {
        Some(base) => Ok(base.as_str().to_string().concat(route)),
        None => Err(AuthError::InvalidConfig),
    }
}

/// Whether an HTTP status code reports success (the 2xx range).
pub open spec fn is_success_status(status: u16) -> bool {
    200 <= status < 300
}

/// The outcome of a reply of the sign-in service: a success status passes; any
/// other fails the request with the status (as displayed) and the body.
pub fn ensure_success(status: u16, status_text: &str, body: &str) -> (res: Result<(), AuthError>)
    ensures
        is_success_status(status) ==> res is Ok,
        !is_success_status(status) ==> (res matches Err(AuthError::RequestFailed(m)) && m@
            == "Status: "@ + status_text@ + ", Body: "@ + body@),
{
    if 200 <= status && status < 300 {
        Ok(())
    } else {
        let message = String::from_str("Status: ").concat(status_text).concat(", Body: ").concat(
            body,
        );
        Err(AuthError::RequestFailed(message))
    }
}

} // verus!
