//! The browser sign-in flow: reading the provider's redirect to the local
//! callback server, the messages shown for its outcomes, and the decisions the
//! flow takes at each step.

use vstd::prelude::*;

use crate::auth::{AuthError, AuthErrorView};
use crate::text::{
    from_utf8_lossy, is_whitespace, is_ws, leading_ws, lemma_leading_ws_char, starts_with, str_eq,
    strip_trailing, strip_trailing_spec, utf8_lossy_spec,
};
use crate::urls::{
    form_encode_str, form_urlencoded_pair, pairs_view, parse_query_pairs, url_path, url_path_spec,
    url_parts_fit, url_parts_fit_exec, url_query_pairs_spec, url_with_path_and_query,
    url_with_path_and_query_spec,
};

verus! {

/// What the provider reported on the callback.
#[derive(Debug, Clone)]
pub enum OAuthCallbackResult {
    Code(String),
    Error { message: String, cancelled: bool },
}

/// The parameters of a callback request.
#[derive(Debug, Clone)]
pub struct OAuthCallbackParams {
    pub state: String,
    pub result: OAuthCallbackResult,
}

/// A request that reached the local callback server.
#[derive(Debug, Clone)]
pub enum CallbackRequest {
    /// `GET /callback...`: the provider's redirect.
    Callback(OAuthCallbackParams),
    /// `GET /health`: answered with `200 OK`.
    Health,
    /// Anything else: answered with `404 Not Found`.
    NotFound,
}

/// The mathematical value of an [`OAuthCallbackResult`].
pub enum OAuthCallbackResultView {
    Code(Seq<char>),
    Error { message: Seq<char>, cancelled: bool },
}

/// The mathematical value of an [`OAuthCallbackParams`].
pub struct OAuthCallbackParamsView {
    pub state: Seq<char>,
    pub result: OAuthCallbackResultView,
}

/// The mathematical value of a [`CallbackRequest`].
pub enum CallbackRequestView {
    Callback(OAuthCallbackParamsView),
    Health,
    NotFound,
}

impl View for OAuthCallbackResult {
    type V = OAuthCallbackResultView;

    open spec fn view(&self) -> OAuthCallbackResultView {
        match self {
            OAuthCallbackResult::Code(c) => OAuthCallbackResultView::Code(c@),
            OAuthCallbackResult::Error { message, cancelled } => OAuthCallbackResultView::Error {
                message: message@,
                cancelled: *cancelled,
            },
        }
    }
}

impl View for OAuthCallbackParams {
    type V = OAuthCallbackParamsView;

    open spec fn view(&self) -> OAuthCallbackParamsView {
        OAuthCallbackParamsView { state: self.state@, result: self.result@ }
    }
}

impl View for CallbackRequest {
    type V = CallbackRequestView;

    open spec fn view(&self) -> CallbackRequestView {
        match self {
            CallbackRequest::Callback(p) => CallbackRequestView::Callback(p@),
            CallbackRequest::Health => CallbackRequestView::Health,
            CallbackRequest::NotFound => CallbackRequestView::NotFound,
        }
    }
}

/// The mathematical value of a parse outcome.
pub open spec fn result_view(r: Result<CallbackRequest, AuthError>) -> Result<
    CallbackRequestView,
    AuthErrorView,
> {
    match r {
        Ok(c) => Ok(c@),
        Err(e) => Err(e@),
    }
}

/// The provider error codes that mean the user cancelled.
pub open spec fn is_cancellation_code(code: Seq<char>) -> bool {
    code == "access_denied"@ || code == "user_cancelled"@ || code == "authorization_cancelled"@
}

/// The message shown for a provider error: its description when it has a
/// non-empty one, else a message by whether the user cancelled.
pub open spec fn oauth_error_message_spec(code: Seq<char>, description: Option<Seq<char>>) -> Seq<
    char,
> {
    match description {
        Some(d) if d.len() > 0 => d,
        _ => if is_cancellation_code(code) {
            "Sign-in was cancelled."@
        } else {
            "The sign-in provider reported an error. Please try again."@
        },
    }
}

/// Whether a provider error code means the user cancelled.
pub fn is_oauth_cancellation(error_code: &str) -> (res: bool)
    ensures
        res == is_cancellation_code(error_code@),
{
    str_eq(error_code, "access_denied") || str_eq(error_code, "user_cancelled") || str_eq(
        error_code,
        "authorization_cancelled",
    )
}

/// The message shown for a provider error.
pub fn oauth_error_message(error_code: &str, description: Option<&String>) -> (res: String)
    ensures
        res@ == oauth_error_message_spec(
            error_code@,
            match description {
                Some(d) => Some(d@),
                None => None,
            },
        ),
{
    if let Some(d) = description {
        if !d.as_str().is_empty() {
            return d.clone();
        }
    }
    if is_oauth_cancellation(error_code) {
        String::from_str("Sign-in was cancelled.")
    } else {
        String::from_str("The sign-in provider reported an error. Please try again.")
    }
}

/// The message shown when the callback listener stops with an error.
pub open spec fn auth_flow_error_message_spec(err: AuthErrorView) -> Seq<char> {
    match err {
        AuthErrorView::Cancelled => "Sign-in was cancelled."@,
        AuthErrorView::CallbackTimeout => "Sign-in timed out. Please try again."@,
        AuthErrorView::MissingParameter(_) =>
            "Friendolls did not receive a complete sign-in response. Please try again."@,
        _ => "Friendolls could not complete sign-in. Please try again."@,
    }
}

/// The message shown when the callback listener stops with an error.
pub fn auth_flow_error_message(err: &AuthError) -> (res: String)
    ensures
        res@ == auth_flow_error_message_spec(err@),
{
    match err {
        AuthError::Cancelled => String::from_str("Sign-in was cancelled."),
        AuthError::CallbackTimeout => String::from_str("Sign-in timed out. Please try again."),
        AuthError::MissingParameter(_) => String::from_str(
            "Friendolls did not receive a complete sign-in response. Please try again.",
        ),
        _ => String::from_str("Friendolls could not complete sign-in. Please try again."),
    }
}

/// Number of characters before the first newline (the length if there is none).
pub open spec fn newline_index(s: Seq<char>) -> nat
    decreases s.len(),
{
    if s.len() == 0 || s[0] == '\n' {
        0
    } else {
        1 + newline_index(s.drop_first())
    }
}

/// The first line of a text, as `str::lines().next().unwrap_or_default()`
/// gives it: up to the first `\n`, without a `\r` that precedes that `\n`.
pub open spec fn first_line_spec(s: Seq<char>) -> Seq<char> {
    let k = newline_index(s);
    if k < s.len() {
        let l = s.subrange(0, k as int);
        if l.len() > 0 && l.last() == '\r' {
            l.drop_last()
        } else {
            l
        }
    } else {
        s
    }
}

/// Length of the leading run of non-whitespace characters.
pub open spec fn token_len(s: Seq<char>) -> nat
    decreases s.len(),
{
    if s.len() > 0 && !is_ws(s[0]) {
        1 + token_len(s.drop_first())
    } else {
        0
    }
}

/// The first whitespace-separated token and the text after it.
pub open spec fn next_token(s: Seq<char>) -> Option<(Seq<char>, Seq<char>)> {
    let t = s.subrange(leading_ws(s) as int, s.len() as int);
    if t.len() == 0 {
        None
    } else {
        Some((t.subrange(0, token_len(t) as int), t.subrange(token_len(t) as int, t.len() as int)))
    }
}

/// Whether `s` begins with `prefix`.
pub open spec fn starts_with_spec(s: Seq<char>, prefix: Seq<char>) -> bool {
    prefix.len() <= s.len() && s.subrange(0, prefix.len() as int) == prefix
}

/// Where a request goes, by the method and path on its first line.
pub enum CallbackRoute {
    Callback(Seq<char>),
    Health,
    NotFound,
}

/// The route of a request text: its first line's method and path decide.
pub open spec fn callback_route(text: Seq<char>) -> CallbackRoute {
    match next_token(first_line_spec(text)) {
        Some((method, rest)) => match next_token(rest) {
            Some((path, _)) => if method == "GET"@ && starts_with_spec(path, "/callback"@) {
                CallbackRoute::Callback(path)
            } else if method == "GET"@ && path == "/health"@ {
                CallbackRoute::Health
            } else {
                CallbackRoute::NotFound
            },
            None => CallbackRoute::NotFound,
        },
        None => CallbackRoute::NotFound,
    }
}

/// The value of the last pair named `key`: a query collected into a map keeps
/// the last value of a repeated name.
pub open spec fn last_value(pairs: Seq<(Seq<char>, Seq<char>)>, key: Seq<char>) -> Option<
    Seq<char>,
>
    decreases pairs.len(),
{
    if pairs.len() == 0 {
        None
    } else if pairs.last().0 == key {
        Some(pairs.last().1)
    } else {
        last_value(pairs.drop_last(), key)
    }
}

/// The callback parameters carried by a query.
pub open spec fn callback_params_spec(pairs: Seq<(Seq<char>, Seq<char>)>) -> Result<
    CallbackRequestView,
    AuthErrorView,
> {
    match last_value(pairs, "state"@) {
        None => Err(AuthErrorView::MissingParameter("state"@)),
        Some(state) => match last_value(pairs, "error"@) {
            Some(code) => Ok(
                CallbackRequestView::Callback(
                    OAuthCallbackParamsView {
                        state,
                        result: OAuthCallbackResultView::Error {
                            message: oauth_error_message_spec(
                                code,
                                last_value(pairs, "error_description"@),
                            ),
                            cancelled: is_cancellation_code(code),
                        },
                    },
                ),
            ),
            None => match last_value(pairs, "code"@) {
                None => Err(AuthErrorView::MissingParameter("code"@)),
                Some(code) => Ok(
                    CallbackRequestView::Callback(
                        OAuthCallbackParamsView {
                            state,
                            result: OAuthCallbackResultView::Code(code),
                        },
                    ),
                ),
            },
        },
    }
}

/// What the callback server makes of the bytes of a request.
pub open spec fn parse_callback_spec(bytes: Seq<u8>) -> Result<CallbackRequestView, AuthErrorView> {
    match callback_route(utf8_lossy_spec(bytes)) {
        CallbackRoute::NotFound => Ok(CallbackRequestView::NotFound),
        CallbackRoute::Health => Ok(CallbackRequestView::Health),
        CallbackRoute::Callback(path) => match url_query_pairs_spec("http://localhost"@ + path) {
            Err(m) => Err(AuthErrorView::RequestFailed(m)),
            Ok(pairs) => callback_params_spec(pairs),
        },
    }
}

proof fn lemma_newline_index(s: Seq<char>, k: int)
    requires
        0 <= k <= s.len(),
        forall|i: int| 0 <= i < k ==> #[trigger] s[i] != '\n',
        k < s.len() ==> s[k] == '\n',
    ensures
        newline_index(s) == k,
    decreases k,
{
    if k > 0 {
        let t = s.drop_first();
        assert forall|i: int| 0 <= i < k - 1 implies #[trigger] t[i] != '\n' by {
            assert(t[i] == s[i + 1]);
        }
        if k - 1 < t.len() {
            assert(t[k - 1] == s[k]);
        }
        assert(s[0] != '\n');
        lemma_newline_index(t, k - 1);
    }
}

proof fn lemma_token_len(s: Seq<char>, k: int)
    requires
        0 <= k <= s.len(),
        forall|i: int| 0 <= i < k ==> !is_ws(#[trigger] s[i]),
        k < s.len() ==> is_ws(s[k]),
    ensures
        token_len(s) == k,
    decreases k,
{
    if k > 0 {
        let t = s.drop_first();
        assert forall|i: int| 0 <= i < k - 1 implies !is_ws(#[trigger] t[i]) by {
            assert(t[i] == s[i + 1]);
        }
        if k - 1 < t.len() {
            assert(t[k - 1] == s[k]);
        }
        assert(!is_ws(s[0]));
        lemma_token_len(t, k - 1);
    }
}

/// The first line of a text.
pub fn first_line(text: &str) -> (res: String)
    ensures
        res@ == first_line_spec(text@),
{
    let n = text.unicode_len();
    let mut k: usize = 0;
    while k < n && text.get_char(k) != '\n'
        invariant
            n == text@.len(),
            k <= n,
            forall|i: int| 0 <= i < k ==> #[trigger] text@[i] != '\n',
        decreases n - k,
    {
        k = k + 1;
    }
    proof {
        lemma_newline_index(text@, k as int);
    }
    if k < n {
        if k > 0 && text.get_char(k - 1) == '\r' {
            proof {
                assert(text@.subrange(0, k as int).drop_last() =~= text@.subrange(0, k - 1));
            }
            text.substring_char(0, k - 1).to_owned()
        } else {
            text.substring_char(0, k).to_owned()
        }
    } else {
        proof {
            assert(text@.subrange(0, n as int) =~= text@);
        }
        text.to_owned()
    }
}

/// Splits off the first whitespace-separated token.
pub fn split_first_token(s: &str) -> (res: Option<(String, String)>)
    ensures
        match res {
            Some(parts) => next_token(s@) == Some((parts.0@, parts.1@)),
            None => next_token(s@) is None,
        },
{
    let n = s.unicode_len();
    let mut start: usize = 0;
    while start < n && is_whitespace(s.get_char(start))
        invariant
            n == s@.len(),
            start <= n,
            forall|i: int| 0 <= i < start ==> is_ws(#[trigger] s@[i]),
        decreases n - start,
    {
        start = start + 1;
    }
    proof {
        lemma_leading_ws_char(s@, start as int);
    }
    if start == n {
        return None;
    }
    let mut end: usize = start;
    while end < n && !is_whitespace(s.get_char(end))
        invariant
            n == s@.len(),
            start <= end <= n,
            forall|i: int| start <= i < end ==> !is_ws(#[trigger] s@[i]),
        decreases n - end,
    {
        end = end + 1;
    }
    proof {
        let t = s@.subrange(start as int, n as int);
        assert forall|i: int| 0 <= i < end - start implies !is_ws(#[trigger] t[i]) by {
            assert(t[i] == s@[start + i]);
        }
        if end < n {
            assert(t[end - start] == s@[end as int]);
        }
        lemma_token_len(t, (end - start) as int);
        assert(t.subrange(0, (end - start) as int) =~= s@.subrange(start as int, end as int));
        assert(t.subrange((end - start) as int, t.len() as int) =~= s@.subrange(
            end as int,
            n as int,
        ));
    }
    Some((s.substring_char(start, end).to_owned(), s.substring_char(end, n).to_owned()))
}

/// The value of the last pair named `key`.
pub fn lookup_last(pairs: &Vec<(String, String)>, key: &str) -> (res: Option<String>)
    ensures
        match res {
            Some(v) => last_value(pairs_view(pairs@), key@) == Some(v@),
            None => last_value(pairs_view(pairs@), key@) is None,
        },
{
    let ghost pv = pairs_view(pairs@);
    let mut i: usize = pairs.len();
    proof {
        assert(pv.subrange(0, i as int) =~= pv);
    }
    while i > 0
        invariant
            pv == pairs_view(pairs@),
            i <= pairs@.len(),
            last_value(pv, key@) == last_value(pv.subrange(0, i as int), key@),
        decreases i,
    {
        let ghost sub = pv.subrange(0, i as int);
        proof {
            assert(sub.last() == pv[i - 1]);
            assert(sub.drop_last() =~= pv.subrange(0, i - 1));
        }
        if str_eq(pairs[i - 1].0.as_str(), key) {
            return Some(pairs[i - 1].1.clone());
        }
        i = i - 1;
    }
    proof {
        assert(pv.subrange(0, 0).len() == 0);
    }
    None
}

fn callback_params(pairs: &Vec<(String, String)>) -> (res: Result<CallbackRequest, AuthError>)
    ensures
        result_view(res) == callback_params_spec(pairs_view(pairs@)),
{
    let state = match lookup_last(pairs, "state") {
        Some(s) => s,
        None => {
            return Err(AuthError::MissingParameter(String::from_str("state")));
        },
    };
    if let Some(error_code) = lookup_last(pairs, "error") {
        let description = lookup_last(pairs, "error_description");
        let message = match &description {
            Some(d) => oauth_error_message(error_code.as_str(), Some(d)),
            None => oauth_error_message(error_code.as_str(), None),
        };
        let cancelled = is_oauth_cancellation(error_code.as_str());
        return Ok(
            CallbackRequest::Callback(
                OAuthCallbackParams {
                    state,
                    result: OAuthCallbackResult::Error { message, cancelled },
                },
            ),
        );
    }
    match lookup_last(pairs, "code") {
        Some(code) => Ok(
            CallbackRequest::Callback(
                OAuthCallbackParams { state, result: OAuthCallbackResult::Code(code) },
            ),
        ),
        None => Err(AuthError::MissingParameter(String::from_str("code"))),
    }
}

/// Reads a request that reached the local callback server. A redirect to
/// `/callback` yields its parameters (or the error of a malformed one);
/// `/health` and everything else are told apart for the answer they get.
pub fn parse_callback_request(bytes: &[u8]) -> (res: Result<CallbackRequest, AuthError>)
    ensures
        result_view(res) == parse_callback_spec(bytes@),
{
    let text = from_utf8_lossy(bytes);
    let line = first_line(text.as_str());
    let (method, rest) = match split_first_token(line.as_str()) {
        Some(parts) => parts,
        None => {
            return Ok(CallbackRequest::NotFound);
        },
    };
    let path = match split_first_token(rest.as_str()) {
        Some(parts) => parts.0,
        None => {
            return Ok(CallbackRequest::NotFound);
        },
    };
    let is_get = str_eq(method.as_str(), "GET");
    if is_get && starts_with(path.as_str(), "/callback") {
        let url = String::from_str("http://localhost").concat(path.as_str());
        match parse_query_pairs(url.as_str()) {
            Ok(pairs) => callback_params(&pairs),
            Err(m) => Err(AuthError::RequestFailed(m)),
        }
    } else if is_get && str_eq(path.as_str(), "/health") {
        Ok(CallbackRequest::Health)
    } else {
        Ok(CallbackRequest::NotFound)
    }
}

/// The progress reported to the interface during sign-in.
#[derive(Debug, Clone, Copy, PartialEq, Eq, Structural)]
pub enum AuthFlowStatus {
    Started,
    Succeeded,
    Failed,
    Cancelled,
}

/// The page the browser is shown once its redirect has been handled.
#[derive(Debug, Clone, Copy, PartialEq, Eq, Structural)]
pub enum AuthPage {
    Success,
    Cancelled,
    Failed,
}

/// Where a sign-in flow stands.
#[derive(Debug, Clone, Copy, PartialEq, Eq, Structural)]
pub enum FlowStage {
    /// Asking the API to start single sign-on.
    StartingSso,
    /// Opening the provider's page in the browser.
    OpeningBrowser,
    /// Waiting for the browser's redirect to the local callback server.
    AwaitingCallback,
    /// Exchanging the authorization code for a credential.
    ExchangingCode,
    /// Keeping and storing the credential.
    PersistingPass,
    /// Opening the user's session.
    FinishingSession,
    /// The flow is over.
    Done,
}

/// What happened since the last step of a flow.
#[derive(Debug, Clone)]
pub enum FlowEvent {
    SsoStarted { ok: bool },
    BrowserOpened { ok: bool },
    CallbackReceived(OAuthCallbackParams),
    ListenerStopped(AuthError),
    CodeExchanged { ok: bool },
    PassPersisted { ok: bool },
    SessionFinished { ok: bool },
}

/// The mathematical value of a [`FlowEvent`].
pub enum FlowEventView {
    SsoStarted { ok: bool },
    BrowserOpened { ok: bool },
    CallbackReceived(OAuthCallbackParamsView),
    ListenerStopped(AuthErrorView),
    CodeExchanged { ok: bool },
    PassPersisted { ok: bool },
    SessionFinished { ok: bool },
}

impl View for FlowEvent {
    type V = FlowEventView;

    open spec fn view(&self) -> FlowEventView {
        match self {
            FlowEvent::SsoStarted { ok } => FlowEventView::SsoStarted { ok: *ok },
            FlowEvent::BrowserOpened { ok } => FlowEventView::BrowserOpened { ok: *ok },
            FlowEvent::CallbackReceived(p) => FlowEventView::CallbackReceived(p@),
            FlowEvent::ListenerStopped(e) => FlowEventView::ListenerStopped(e@),
            FlowEvent::CodeExchanged { ok } => FlowEventView::CodeExchanged { ok: *ok },
            FlowEvent::PassPersisted { ok } => FlowEventView::PassPersisted { ok: *ok },
            FlowEvent::SessionFinished { ok } => FlowEventView::SessionFinished { ok: *ok },
        }
    }
}

/// What the flow does at a step: the page to answer the browser with, the
/// status to report (with its message), whether to drop the flow's state, and
/// the authorization code to exchange next.
#[derive(Debug, Clone)]
pub struct FlowAction {
    pub page: Option<AuthPage>,
    pub status: Option<AuthFlowStatus>,
    pub message: Option<String>,
    pub clear_flow: bool,
    pub exchange_code: Option<String>,
}

/// The mathematical value of a [`FlowAction`].
#[verifier::ext_equal]
pub struct FlowActionView {
    pub page: Option<AuthPage>,
    pub status: Option<AuthFlowStatus>,
    pub message: Option<Seq<char>>,
    pub clear_flow: bool,
    pub exchange_code: Option<Seq<char>>,
}

impl View for FlowAction {
    type V = FlowActionView;

    open spec fn view(&self) -> FlowActionView {
        FlowActionView {
            page: self.page,
            status: self.status,
            message: match self.message {
                Some(m) => Some(m@),
                None => None,
            },
            clear_flow: self.clear_flow,
            exchange_code: match self.exchange_code {
                Some(c) => Some(c@),
                None => None,
            },
        }
    }
}

/// An action that does nothing.
pub open spec fn no_action() -> FlowActionView {
    FlowActionView { page: None, status: None, message: None, clear_flow: false, exchange_code: None }
}

/// Ends the flow: the browser is shown `page` (if any), `status` is reported
/// with `message`, and the flow's state is dropped.
pub open spec fn finish_action(
    page: Option<AuthPage>,
    status: AuthFlowStatus,
    message: Option<Seq<char>>,
) -> FlowActionView {
    FlowActionView { page, status: Some(status), message, clear_flow: true, exchange_code: None }
}

/// One step of the sign-in flow. `flow_active` tells whether the flow is still
/// the current one (a newer flow or a cancellation supersedes it).
pub open spec fn flow_step_spec(
    stage: FlowStage,
    expected_state: Seq<char>,
    flow_active: bool,
    event: FlowEventView,
) -> (FlowStage, FlowActionView) {
    match (stage, event) {
        (FlowStage::StartingSso, FlowEventView::SsoStarted { ok }) => if ok {
            (FlowStage::OpeningBrowser, no_action())
        } else {
            (FlowStage::Done, FlowActionView { clear_flow: true, ..no_action() })
        },
        (FlowStage::OpeningBrowser, FlowEventView::BrowserOpened { ok }) => if ok {
            (
                FlowStage::AwaitingCallback,
                FlowActionView { status: Some(AuthFlowStatus::Started), ..no_action() },
            )
        } else {
            (
                FlowStage::Done,
                finish_action(
                    None,
                    AuthFlowStatus::Failed,
                    Some("Friendolls could not open your browser for sign-in."@),
                ),
            )
        },
        (FlowStage::AwaitingCallback, FlowEventView::CallbackReceived(params)) => if !flow_active {
            (FlowStage::Done, FlowActionView { page: Some(AuthPage::Cancelled), ..no_action() })
        } else if params.state != expected_state {
            (
                FlowStage::Done,
                finish_action(
                    Some(AuthPage::Failed),
                    AuthFlowStatus::Failed,
                    Some("Sign-in verification failed. Please try again."@),
                ),
            )
        } else {
            match params.result {
                OAuthCallbackResultView::Code(code) => (
                    FlowStage::ExchangingCode,
                    FlowActionView { exchange_code: Some(code), ..no_action() },
                ),
                OAuthCallbackResultView::Error { message, cancelled } => (
                    FlowStage::Done,
                    finish_action(
                        Some(
                            if cancelled {
                                AuthPage::Cancelled
                            } else {
                                AuthPage::Failed
                            },
                        ),
                        if cancelled {
                            AuthFlowStatus::Cancelled
                        } else {
                            AuthFlowStatus::Failed
                        },
                        Some(message),
                    ),
                ),
            }
        },
        (FlowStage::AwaitingCallback, FlowEventView::ListenerStopped(err)) => if !flow_active {
            (FlowStage::Done, no_action())
        } else {
            (
                FlowStage::Done,
                finish_action(
                    None,
                    if err is Cancelled {
                        AuthFlowStatus::Cancelled
                    } else {
                        AuthFlowStatus::Failed
                    },
                    Some(auth_flow_error_message_spec(err)),
                ),
            )
        },
        (FlowStage::ExchangingCode, FlowEventView::CodeExchanged { ok }) => if !ok {
            (
                FlowStage::Done,
                finish_action(
                    Some(AuthPage::Failed),
                    AuthFlowStatus::Failed,
                    Some("Friendolls could not complete sign-in. Please try again."@),
                ),
            )
        } else if !flow_active {
            (FlowStage::Done, FlowActionView { page: Some(AuthPage::Cancelled), ..no_action() })
        } else {
            (FlowStage::PersistingPass, no_action())
        },
        (FlowStage::PersistingPass, FlowEventView::PassPersisted { ok }) => if !ok {
            (
                FlowStage::Done,
                finish_action(
                    Some(AuthPage::Failed),
                    AuthFlowStatus::Failed,
                    Some("Friendolls could not complete sign-in. Please try again."@),
                ),
            )
        } else {
            (FlowStage::FinishingSession, no_action())
        },
        (FlowStage::FinishingSession, FlowEventView::SessionFinished { ok }) => if !ok {
            (
                FlowStage::Done,
                finish_action(
                    Some(AuthPage::Failed),
                    AuthFlowStatus::Failed,
                    Some("Signed in, but Friendolls could not open your session."@),
                ),
            )
        } else {
            (
                FlowStage::Done,
                finish_action(Some(AuthPage::Success), AuthFlowStatus::Succeeded, None),
            )
        },
        _ => (stage, no_action()),
    }
}

fn empty_action() -> (res: FlowAction)
    ensures
        res@ == no_action(),
{
    FlowAction { page: None, status: None, message: None, clear_flow: false, exchange_code: None }
}

fn finishing(page: Option<AuthPage>, status: AuthFlowStatus, message: Option<String>) -> (res:
    FlowAction)
    ensures
        res@ == finish_action(
            page,
            status,
            match message {
                Some(m) => Some(m@),
                None => None,
            },
        ),
{
    FlowAction { page, status: Some(status), message, clear_flow: true, exchange_code: None }
}

/// Takes one step of the sign-in flow: the next stage and what to do.
pub fn auth_flow_step(
    stage: FlowStage,
    expected_state: &str,
    flow_active: bool,
    event: FlowEvent,
) -> (res: (FlowStage, FlowAction))
    ensures
        (res.0, res.1@) == flow_step_spec(stage, expected_state@, flow_active, event@),
{
    match (stage, event) {
        (FlowStage::StartingSso, FlowEvent::SsoStarted { ok }) => {
            if ok {
                (FlowStage::OpeningBrowser, empty_action())
            } else {
                let mut a = empty_action();
                a.clear_flow = true;
                (FlowStage::Done, a)
            }
        },
        (FlowStage::OpeningBrowser, FlowEvent::BrowserOpened { ok }) => {
            if ok {
                let mut a = empty_action();
                a.status = Some(AuthFlowStatus::Started);
                (FlowStage::AwaitingCallback, a)
            } else {
                (
                    FlowStage::Done,
                    finishing(
                        None,
                        AuthFlowStatus::Failed,
                        Some(String::from_str("Friendolls could not open your browser for sign-in.")),
                    ),
                )
            }
        },
        (FlowStage::AwaitingCallback, FlowEvent::CallbackReceived(params)) => {
            if !flow_active {
                let mut a = empty_action();
                a.page = Some(AuthPage::Cancelled);
                (FlowStage::Done, a)
            } else if !str_eq(params.state.as_str(), expected_state) {
                (
                    FlowStage::Done,
                    finishing(
                        Some(AuthPage::Failed),
                        AuthFlowStatus::Failed,
                        Some(String::from_str("Sign-in verification failed. Please try again.")),
                    ),
                )
            } else {
                match params.result {
                    OAuthCallbackResult::Code(code) => {
                        let mut a = empty_action();
                        a.exchange_code = Some(code);
                        (FlowStage::ExchangingCode, a)
                    },
                    OAuthCallbackResult::Error { message, cancelled } => {
                        let page = if cancelled {
                            AuthPage::Cancelled
                        } else {
                            AuthPage::Failed
                        };
                        let status = if cancelled {
                            AuthFlowStatus::Cancelled
                        } else {
                            AuthFlowStatus::Failed
                        };
                        (FlowStage::Done, finishing(Some(page), status, Some(message)))
                    },
                }
            }
        },
        (FlowStage::AwaitingCallback, FlowEvent::ListenerStopped(err)) => {
            if !flow_active {
                (FlowStage::Done, empty_action())
            } else {
                let status = match err {
                    AuthError::Cancelled => AuthFlowStatus::Cancelled,
                    _ => AuthFlowStatus::Failed,
                };
                let message = auth_flow_error_message(&err);
                (FlowStage::Done, finishing(None, status, Some(message)))
            }
        },
        (FlowStage::ExchangingCode, FlowEvent::CodeExchanged { ok }) => {
            if !ok {
                (
                    FlowStage::Done,
                    finishing(
                        Some(AuthPage::Failed),
                        AuthFlowStatus::Failed,
                        Some(
                            String::from_str(
                                "Friendolls could not complete sign-in. Please try again.",
                            ),
                        ),
                    ),
                )
            } else if !flow_active {
                let mut a = empty_action();
                a.page = Some(AuthPage::Cancelled);
                (FlowStage::Done, a)
            } else {
                (FlowStage::PersistingPass, empty_action())
            }
        },
        (FlowStage::PersistingPass, FlowEvent::PassPersisted { ok }) => {
            if !ok {
                (
                    FlowStage::Done,
                    finishing(
                        Some(AuthPage::Failed),
                        AuthFlowStatus::Failed,
                        Some(
                            String::from_str(
                                "Friendolls could not complete sign-in. Please try again.",
                            ),
                        ),
                    ),
                )
            } else {
                (FlowStage::FinishingSession, empty_action())
            }
        },
        (FlowStage::FinishingSession, FlowEvent::SessionFinished { ok }) => {
            if !ok {
                (
                    FlowStage::Done,
                    finishing(
                        Some(AuthPage::Failed),
                        AuthFlowStatus::Failed,
                        Some(String::from_str("Signed in, but Friendolls could not open your session.")),
                    ),
                )
            } else {
                (
                    FlowStage::Done,
                    finishing(Some(AuthPage::Success), AuthFlowStatus::Succeeded, None),
                )
            }
        },
        (stage, _) => (stage, empty_action()),
    }
}

/// A finished flow stays finished and does nothing more.
pub proof fn lemma_done_is_final(expected_state: Seq<char>, flow_active: bool, event: FlowEventView)
    ensures
        flow_step_spec(FlowStage::Done, expected_state, flow_active, event) == (
            FlowStage::Done,
            no_action(),
        ),
{
}

/// Reporting an outcome (success, failure or cancellation) always ends the flow
/// and drops its state; only starting reports without ending.
pub proof fn lemma_outcome_ends_flow(
    stage: FlowStage,
    expected_state: Seq<char>,
    flow_active: bool,
    event: FlowEventView,
)
    ensures
        ({
            let (next, action) = flow_step_spec(stage, expected_state, flow_active, event);
            action.status is Some && action.status != Some(AuthFlowStatus::Started) ==> next
                == FlowStage::Done && action.clear_flow
        }),
        ({
            let (next, action) = flow_step_spec(stage, expected_state, flow_active, event);
            action.clear_flow ==> next == FlowStage::Done
        }),
{
}

/// Success is reported only when the session was opened, after the code was
/// exchanged and the credential kept.
pub proof fn lemma_success_only_after_session(
    stage: FlowStage,
    expected_state: Seq<char>,
    flow_active: bool,
    event: FlowEventView,
)
    ensures
        flow_step_spec(stage, expected_state, flow_active, event).1.status == Some(
            AuthFlowStatus::Succeeded,
        ) ==> stage == FlowStage::FinishingSession && event == (FlowEventView::SessionFinished {
            ok: true,
        }),
{
}

/// The redirect of a superseded flow is answered with the cancelled page and
/// reports nothing.
pub proof fn lemma_inactive_callback_reports_nothing(
    expected_state: Seq<char>,
    params: OAuthCallbackParamsView,
)
    ensures
        flow_step_spec(
            FlowStage::AwaitingCallback,
            expected_state,
            false,
            FlowEventView::CallbackReceived(params),
        ) == (FlowStage::Done, FlowActionView { page: Some(AuthPage::Cancelled), ..no_action() }),
{
}

/// Decimal digits of a number.
pub open spec fn decimal_spec(n: nat) -> Seq<char>
    decreases n,
{
    if n < 10 {
        seq![(0x30 + n) as char]
    } else {
        decimal_spec(n / 10).push((0x30 + n % 10) as char)
    }
}

fn digit(d: usize) -> (res: String)
    requires
        d < 10,
    ensures
        res@ == seq![(0x30 + d) as char],
{
    let digits = "0123456789";
    proof {
        reveal_strlit("0123456789");
    }
    let res = digits.substring_char(d, d + 1).to_owned();
    proof {
        assert(res@ =~= seq![(0x30 + d) as char]);
    }
    res
}

/// A number in decimal.
pub fn decimal(n: usize) -> (res: String)
    ensures
        res@ == decimal_spec(n as nat),
    decreases n,
{
    if n < 10 {
        digit(n)
    } else {
        let head = decimal(n / 10);
        let last = digit(n % 10);
        let res = head.concat(last.as_str());
        proof {
            assert(res@ =~= decimal_spec(n as nat));
        }
        res
    }
}

/// The HTTP response that shows `html` in the browser.
pub fn html_response(html: &str) -> (res: String)
    ensures
        res@ == "HTTP/1.1 200 OK\r\nContent-Type: text/html; charset=utf-8\r\nContent-Length: "@
            + decimal_spec(html.len() as nat) + "\r\n\r\n"@ + html@,
{
    let head = String::from_str(
        "HTTP/1.1 200 OK\r\nContent-Type: text/html; charset=utf-8\r\nContent-Length: ",
    );
    let length = decimal(html.len());
    head.concat(length.as_str()).concat("\r\n\r\n").concat(html)
}

/// What the server answers when a sign-in starts: the state to expect back
/// and, possibly, the provider's page to open.
pub struct StartSsoResponse {
    pub state: String,
    pub authorize_url: Option<String>,
}

/// The provider's sign-in page on the server: the base URL with
/// `/auth/sso/<provider>` after its path (trailing slashes of the path dropped)
/// and the state as the `state` query value. Without a base URL the
/// configuration is invalid; a base URL that does not parse is refused with
/// the parse error; parts too long for a URL (past `url_parts_fit`) are
/// refused as well.
pub open spec fn authorize_url_spec(base: Option<Seq<char>>, provider: Seq<char>, state: Seq<char>) -> Result<
    Seq<char>,
    AuthErrorView,
> {
    match base {
        None => Err(AuthErrorView::InvalidConfig),
        Some(b) => match url_path_spec(b) {
            Err(m) => Err(AuthErrorView::RequestFailed("Invalid API base URL: "@ + m)),
            Ok(path) => {
                let new_path = strip_trailing_spec(path, '/') + "/auth/sso/"@ + provider;
                let query = form_encode_str("state"@) + seq!['='] + form_encode_str(state);
                if url_parts_fit(b.len(), new_path.len(), query.len()) {
                    Ok(url_with_path_and_query_spec(b, new_path, query))
                } else {
                    Err(AuthErrorView::RequestFailed(URL_TOO_LONG_MESSAGE@))
                }
            },
        },
    }
}

/// The message of a sign-in page address too long to build.
pub const URL_TOO_LONG_MESSAGE: &'static str = "Sign-in URL is too long";

/// The provider's sign-in page on the server.
pub fn build_authorize_url(api_base_url: Option<&str>, provider: &str, state: &str) -> (res: Result<
    String,
    AuthError,
>)
    ensures
        match res {
            Ok(u) => authorize_url_spec(opt_str(api_base_url), provider@, state@) == Ok::<
                Seq<char>,
                AuthErrorView,
            >(u@),
            Err(e) => authorize_url_spec(opt_str(api_base_url), provider@, state@) == Err::<
                Seq<char>,
                AuthErrorView,
            >(e@),
        },
{
    let base = match api_base_url {
        Some(b) => b,
        None => {
            return Err(AuthError::InvalidConfig);
        },
    };
    let path = match url_path(base) {
        Ok(p) => p,
        Err(m) => {
            return Err(
                AuthError::RequestFailed(String::from_str("Invalid API base URL: ").concat(m.as_str())),
            );
        },
    };
    let trimmed = strip_trailing(path.as_str(), '/');
    let new_path = trimmed.concat("/auth/sso/").concat(provider);
    let query = form_urlencoded_pair("state", state);
    if !url_parts_fit_exec(base.unicode_len(), new_path.unicode_len(), query.unicode_len()) {
        return Err(AuthError::RequestFailed(String::from_str(URL_TOO_LONG_MESSAGE)));
    }
    match url_with_path_and_query(base, new_path.as_str(), query.as_str()) {
        Some(u) => Ok(u),
        None => Err(AuthError::InvalidConfig),
    }
}

/// The sign-in page to open: the one the server gave, else the one built
/// from the server's address.
pub fn authorize_url_for(
    response: &StartSsoResponse,
    api_base_url: Option<&str>,
    provider: &str,
) -> (res: Result<String, AuthError>)
    ensures
        match &response.authorize_url {
            Some(u) => res matches Ok(v) && v@ == u@,
            None => match res {
                Ok(u) => authorize_url_spec(opt_str(api_base_url), provider@, response.state@) == Ok::<
                    Seq<char>,
                    AuthErrorView,
                >(u@),
                Err(e) => authorize_url_spec(opt_str(api_base_url), provider@, response.state@) == Err::<
                    Seq<char>,
                    AuthErrorView,
                >(e@),
            },
        },
{
    match &response.authorize_url {
        Some(u) => Ok(crate::text::to_owned_string(u.as_str())),
        None => build_authorize_url(api_base_url, provider, response.state.as_str()),
    }
}

/// The text of an optional string slice.
pub open spec fn opt_str(o: Option<&str>) -> Option<Seq<char>> {
    match o {
        Some(s) => Some(s@),
        None => None,
    }
}


/// A provider error on the callback of the current flow (its state matching)
/// ends the flow and drops its state, with the provider's message: a
/// cancellation shows the cancelled page and reports `Cancelled`; any other
/// error shows the failed page and reports `Failed`.
pub proof fn lemma_provider_error_outcome(expected_state: Seq<char>, message: Seq<char>, cancelled: bool)
    ensures
        ({
            let (next, action) = flow_step_spec(
                FlowStage::AwaitingCallback,
                expected_state,
                true,
                FlowEventView::CallbackReceived(
                    OAuthCallbackParamsView {
                        state: expected_state,
                        result: OAuthCallbackResultView::Error { message, cancelled },
                    },
                ),
            );
            &&& next == FlowStage::Done
            &&& action.clear_flow
            &&& action.message == Some(message)
            &&& action.exchange_code is None
            &&& cancelled ==> action.status == Some(AuthFlowStatus::Cancelled) && action.page == Some(
                AuthPage::Cancelled,
            )
            &&& !cancelled ==> action.status == Some(AuthFlowStatus::Failed) && action.page == Some(
                AuthPage::Failed,
            )
        }),
{
}

/// A callback that carries a provider error (and a state) is read as that
/// error: it is marked cancelled exactly for the codes `access_denied`,
/// `user_cancelled` and `authorization_cancelled`. Without a description (or
/// with an empty one) a cancellation reads "Sign-in was cancelled." and any
/// other code the generic failure message; a non-empty description is the
/// message either way.
pub proof fn lemma_provider_error_callback(
    pairs: Seq<(Seq<char>, Seq<char>)>,
    state: Seq<char>,
    code: Seq<char>,
)
    requires
        last_value(pairs, "state"@) == Some(state),
        last_value(pairs, "error"@) == Some(code),
    ensures
        ({
            let listed = code == "access_denied"@ || code == "user_cancelled"@ || code
                == "authorization_cancelled"@;
            let description = last_value(pairs, "error_description"@);
            let message = match description {
                Some(d) if d.len() > 0 => d,
                _ => if listed {
                    "Sign-in was cancelled."@
                } else {
                    "The sign-in provider reported an error. Please try again."@
                },
            };
            callback_params_spec(pairs) == Ok::<CallbackRequestView, AuthErrorView>(
                CallbackRequestView::Callback(
                    OAuthCallbackParamsView {
                        state,
                        result: OAuthCallbackResultView::Error {
                            message,
                            cancelled: listed,
                        },
                    },
                ),
            )
        }),
{
}

/// The same, read from the bytes of the request: a `GET /callback...` whose
/// query holds those pairs is that provider error.
pub proof fn lemma_provider_error_request(
    bytes: Seq<u8>,
    path: Seq<char>,
    pairs: Seq<(Seq<char>, Seq<char>)>,
    state: Seq<char>,
    code: Seq<char>,
)
    requires
        callback_route(utf8_lossy_spec(bytes)) == CallbackRoute::Callback(path),
        url_query_pairs_spec("http://localhost"@ + path) == Ok::<
            Seq<(Seq<char>, Seq<char>)>,
            Seq<char>,
        >(pairs),
        last_value(pairs, "state"@) == Some(state),
        last_value(pairs, "error"@) == Some(code),
    ensures
        parse_callback_spec(bytes) == callback_params_spec(pairs),
        parse_callback_spec(bytes) matches Ok(CallbackRequestView::Callback(p)) && p.state == state
            && (p.result matches OAuthCallbackResultView::Error { cancelled, .. } && cancelled == (
            code == "access_denied"@ || code == "user_cancelled"@ || code
                == "authorization_cancelled"@)),
{
    lemma_provider_error_callback(pairs, state, code);
}

} // verus!
