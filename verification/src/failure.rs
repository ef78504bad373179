//! Why a request failed, and what that says of the account that it was sent for.
use crate::json;
use crate::json::Json;
use crate::text;
use crate::time;
use std::time::SystemTime;
use vstd::prelude::*;
use vstd::string::*;

verus! {

/// How a request to the response service failed.
#[derive(Debug)]
pub enum RequestError {
    /// An answer other than success. The two headers are there if they are text.
    HttpResponse {
        status: u16,
        body: String,
        www_authenticate: Option<String>,
        retry_after: Option<String>,
    },
    /// The request could not be sent.
    HttpSend { message: String },
    /// The answer could not be read.
    ReadResponse { message: String },
    /// Anything else.
    Other { message: String, is_io: bool },
}

/// What a failure says of the account.
#[derive(Debug, PartialEq, Eq)]
pub enum AccountFailure {
    /// The access token was refused.
    Unauthorized,
    /// The user has to sign in again.
    NeedsReauth,
    /// A permission is missing, if it is named.
    Scope(Option<String>),
    /// Too many requests until a time.
    RateLimit(u64),
    /// No quota is left until a time.
    Quota(u64),
    /// The account cannot be billed.
    Billing,
    /// Another try may succeed.
    Transient,
    /// The account is not to blame.
    Other,
}

/// What a failure holds.
#[verifier::ext_equal]
pub enum FailureModel {
    Unauthorized,
    NeedsReauth,
    Scope(Option<Seq<char>>),
    RateLimit(u64),
    Quota(u64),
    Billing,
    Transient,
    Other,
}

impl View for AccountFailure {
    type V = FailureModel;

    open spec fn view(&self) -> FailureModel {
        match *self {
            AccountFailure::Unauthorized => FailureModel::Unauthorized,
            AccountFailure::NeedsReauth => FailureModel::NeedsReauth,
            AccountFailure::Scope(scope) => FailureModel::Scope(scope.deep_view()),
            AccountFailure::RateLimit(until) => FailureModel::RateLimit(until),
            AccountFailure::Quota(until) => FailureModel::Quota(until),
            AccountFailure::Billing => FailureModel::Billing,
            AccountFailure::Transient => FailureModel::Transient,
            AccountFailure::Other => FailureModel::Other,
        }
    }
}

/// What in an answer says that the plan's quota is used up.
pub open spec fn quota_signals() -> Seq<Seq<char>> {
    seq![
        "usage_limit_reached"@,
        "usage limit"@,
        "plan limit"@,
        "limit reached on your plan"@,
        "quota"@,
        "usage cap"@,
    ]
}

/// What in an answer says that the account cannot be billed.
pub open spec fn billing_signals() -> Seq<Seq<char>> {
    seq!["billing"@, "no credit"@, "no_credit"@, "plan expired"@]
}

/// What in an answer says that the user has to sign in again.
pub open spec fn reauth_signals() -> Seq<Seq<char>> {
    seq!["consent_required"@, "interaction_required"@, "login_required"@]
}

/// The part of an answer that describes the error: its member `error`, else all of it.
pub open spec fn error_detail(payload: Json) -> Json {
    match payload.member("error"@) {
        Some(detail) => detail,
        None => payload,
    }
}

/// `n`, or the largest number of 64 bits where `n` is larger.
pub open spec fn capped(n: int) -> u64 {
    if n <= u64::MAX {
        n as u64
    } else {
        u64::MAX
    }
}

/// The time, in seconds, at which an error says that a limit ends.
pub open spec fn stated_reset(detail: Json) -> Option<u64> {
    match detail.member("resets_at"@) {
        Some(value) => value.number(),
        None => match detail.member("reset_at"@) {
            Some(value) => value.number(),
            None => None,
        },
    }
}

/// The time, in milliseconds and after `now`, at which an error says that a limit ends.
pub open spec fn reset_ms(detail: Json, now: u64) -> Option<u64> {
    match stated_reset(detail) {
        Some(seconds) => if capped(seconds * 1000) > now {
            Some(capped(seconds * 1000))
        } else {
            None
        },
        None => None,
    }
}

/// The permission that an error asks for: the one it names, else the one in the header, if it is
/// more than white space.
pub open spec fn missing_scope(detail: Json, www_authenticate: Option<Seq<char>>) -> Option<
    Seq<char>,
> {
    let named = match detail.member("required_scope"@) {
        Some(value) => value.content(),
        None => None,
    };
    let in_header = match www_authenticate {
        Some(header) => match text::second_piece(header, "scope=\""@) {
            Some(rest) => Some(text::before_first(rest, "\""@)),
            None => None,
        },
        None => None,
    };
    let scope = if named is Some {
        named
    } else {
        in_header
    };
    match scope {
        Some(scope) => if text::is_blank(scope) {
            None
        } else {
            Some(scope)
        },
        None => None,
    }
}

/// When requests may be sent again: after the seconds that the header states, thirty where it
/// states none, one at least.
pub open spec fn retry_ms(retry_after: Option<Seq<char>>, now: u64) -> u64 {
    let stated = match retry_after {
        Some(header) => text::parsed_number(header),
        None => None,
    };
    let seconds: u64 = match stated {
        Some(seconds) => if seconds < 1 {
            1
        } else {
            seconds
        },
        None => 30,
    };
    capped(now + capped(seconds * 1000))
}

/// What an answer other than success says of the account, given its body read as JSON.
pub open spec fn response_failure(
    status: u16,
    body: Seq<char>,
    payload: Json,
    www_authenticate: Option<Seq<char>>,
    retry_after: Option<Seq<char>>,
    now: u64,
) -> FailureModel {
    let detail = error_detail(payload);
    if (status == 403 || status == 429) && text::mentions(body, quota_signals()) {
        FailureModel::Quota(
            match reset_ms(detail, now) {
                Some(reset) => reset,
                None => u64::MAX,
            },
        )
    } else if status == 402 || ((status == 403 || status == 429) && text::mentions(
        body,
        billing_signals(),
    )) {
        FailureModel::Billing
    } else if text::mentions(body, reauth_signals()) {
        FailureModel::NeedsReauth
    } else if status == 401 {
        FailureModel::Unauthorized
    } else if status == 403 {
        FailureModel::Scope(missing_scope(detail, www_authenticate))
    } else if status == 429 {
        FailureModel::RateLimit(retry_ms(retry_after, now))
    } else if 500 <= status <= 599 {
        FailureModel::Transient
    } else {
        FailureModel::Other
    }
}

/// The JSON document that the body of an answer is: null where it is none.
pub open spec fn body_payload(error: RequestError) -> Json {
    match error {
        RequestError::HttpResponse { body, .. } => match json::json_of_text(body@) {
            Some(payload) => payload,
            None => Json::Null,
        },
        _ => Json::Null,
    }
}

/// What an error says of the account at `now`, given the body read as JSON.
pub open spec fn failure_of(error: RequestError, payload: Json, now: u64) -> FailureModel {
    match error {
        RequestError::HttpResponse { status, body, www_authenticate, retry_after } =>
            response_failure(
            status,
            body@,
            payload,
            www_authenticate.deep_view(),
            retry_after.deep_view(),
            now,
        ),
        RequestError::HttpSend { .. } => FailureModel::Transient,
        RequestError::ReadResponse { .. } => FailureModel::Transient,
        RequestError::Other { is_io, .. } => if is_io {
            FailureModel::Transient
        } else {
            FailureModel::Other
        },
    }
}

/// A limit that an error speaks of ends after the time of the error.
pub proof fn limits_end_later(error: RequestError, payload: Json, now: u64)
    requires
        now < u64::MAX,
    ensures
        match failure_of(error, payload, now) {
            FailureModel::Quota(until) => until > now,
            FailureModel::RateLimit(until) => until > now,
            _ => true,
        },
{
}

fn milliseconds(seconds: u64) -> (r: u64)
    ensures
        r == capped(seconds * 1000),
{
    match seconds.checked_mul(1000) {
        Some(product) => product,
        None => u64::MAX,
    }
}

fn detail_of(payload: &Json) -> (r: &Json)
    ensures
        *r == error_detail(*payload),
{
    match payload.get("error") {
        Some(detail) => detail,
        None => payload,
    }
}

fn reset_of(detail: &Json, now: u64) -> (r: Option<u64>)
    ensures
        r == reset_ms(*detail, now),
{
    let stated = match detail.get("resets_at") {
        Some(value) => value.as_u64(),
        None => match detail.get("reset_at") {
            Some(value) => value.as_u64(),
            None => None,
        },
    };
    match stated {
        Some(seconds) => {
            let reset: u64 = milliseconds(seconds);
            if reset > now {
                Some(reset)
            } else {
                None
            }
        },
        None => None,
    }
}

fn scope_of(detail: &Json, www_authenticate: &Option<String>) -> (r: Option<String>)
    ensures
        r.deep_view() == missing_scope(*detail, www_authenticate.deep_view()),
{
    let named = match detail.get("required_scope") {
        Some(value) => value.as_str(),
        None => None,
    };
    let scope: Vec<char> = match named {
        Some(scope) => text::chars_of(scope),
        None => match www_authenticate {
            Some(header) => match text::second_piece_of(header, "scope=\"") {
                Some(rest) => text::cut_at(rest.as_slice(), "\"").0,
                None => return None,
            },
            None => return None,
        },
    };
    if text::blank(scope.as_slice()) {
        None
    } else {
        Some(text::string_of(scope.as_slice()))
    }
}

fn retry_of(retry_after: &Option<String>, now: u64) -> (r: u64)
    ensures
        r == retry_ms(retry_after.deep_view(), now),
{
    let stated = match retry_after {
        Some(header) => text::parse_number(header),
        None => None,
    };
    let seconds: u64 = match stated {
        Some(seconds) => if seconds < 1 {
            1
        } else {
            seconds
        },
        None => 30,
    };
    now.saturating_add(milliseconds(seconds))
}

/// What an error says of the account at a time, given the body read as JSON.
pub fn classify_payload(error: &RequestError, payload: &Json, now: u64) -> (r: AccountFailure)
    ensures
        r@ == failure_of(*error, *payload, now),
{
    let (status, body, www_authenticate, retry_after) = match error {
        RequestError::HttpResponse { status, body, www_authenticate, retry_after } => (
            *status,
            body,
            www_authenticate,
            retry_after,
        ),
        RequestError::HttpSend { .. } => return AccountFailure::Transient,
        RequestError::ReadResponse { .. } => return AccountFailure::Transient,
        RequestError::Other { is_io, .. } => return if *is_io {
            AccountFailure::Transient
        } else {
            AccountFailure::Other
        },
    };
    let small = text::lowered_chars(body);
    let detail = detail_of(payload);
    let quota: Vec<&str> = vec![
        "usage_limit_reached",
        "usage limit",
        "plan limit",
        "limit reached on your plan",
        "quota",
        "usage cap",
    ];
    assert(quota.deep_view() =~= quota_signals());
    if (status == 403 || status == 429) && text::mentions_any(&small, &quota) {
        return AccountFailure::Quota(
            match reset_of(detail, now) {
                Some(reset) => reset,
                None => u64::MAX,
            },
        );
    }
    let billing: Vec<&str> = vec!["billing", "no credit", "no_credit", "plan expired"];
    assert(billing.deep_view() =~= billing_signals());
    if status == 402 || ((status == 403 || status == 429) && text::mentions_any(&small, &billing)) {
        return AccountFailure::Billing;
    }
    let reauth: Vec<&str> = vec!["consent_required", "interaction_required", "login_required"];
    assert(reauth.deep_view() =~= reauth_signals());
    if text::mentions_any(&small, &reauth) {
        return AccountFailure::NeedsReauth;
    }
    if status == 401 {
        AccountFailure::Unauthorized
    } else if status == 403 {
        AccountFailure::Scope(scope_of(detail, www_authenticate))
    } else if status == 429 {
        AccountFailure::RateLimit(retry_of(retry_after, now))
    } else if 500 <= status && status <= 599 {
        AccountFailure::Transient
    } else {
        AccountFailure::Other
    }
}

/// What an error says of the account at a time.
pub fn classify_failure_at(error: &RequestError, now: u64) -> (r: AccountFailure)
    ensures
        r@ == failure_of(*error, body_payload(*error), now),
{
    let payload = match error {
        RequestError::HttpResponse { body, .. } => match Json::parse(body) {
            Some(payload) => payload,
            None => Json::Null,
        },
        _ => Json::Null,
    };
    classify_payload(error, &payload, now)
}

/// What an error says of the account by the wall clock.
pub fn classify_failure(error: &RequestError) -> (r: AccountFailure)
    ensures
        exists|reading: SystemTime|
            r@ == failure_of(*error, body_payload(*error), #[trigger] time::read_ms(reading)),
{
    let now = time::now_ms();
    classify_failure_at(error, now)
}

/// An error that the response service reports in a stream.
#[derive(Debug)]
pub struct ResponseError {
    pub code: Option<String>,
    pub error_type: Option<String>,
    pub message: String,
    /// The whole error as a JSON document.
    pub encoded: String,
}

/// An event of a response stream, as far as it matters here.
#[derive(Debug)]
pub enum StreamEvent {
    Created,
    InProgress,
    Unknown,
    Error { error: ResponseError },
    Failed { reason: Option<ResponseError> },
    GenericError { error: ResponseError },
    /// Anything else, such as output.
    Other,
}

impl StreamEvent {
    /// The error that the event reports.
    pub open spec fn reported(self) -> Option<ResponseError> {
        match self {
            StreamEvent::Error { error } => Some(error),
            StreamEvent::Failed { reason } => reason,
            StreamEvent::GenericError { error } => Some(error),
            _ => None,
        }
    }

    /// The event says something of the stream, and is no part of the answer.
    pub open spec fn is_metadata(self) -> bool {
        self is Created || self is InProgress || self is Unknown
    }

    /// Whether the event says something of the stream only.
    pub fn metadata(&self) -> (r: bool)
        ensures
            r == self.is_metadata(),
    {
        match self {
            StreamEvent::Created | StreamEvent::InProgress | StreamEvent::Unknown => true,
            _ => false,
        }
    }
}

/// A text, or none at all.
pub open spec fn or_empty(content: Option<Seq<char>>) -> Seq<char> {
    match content {
        Some(content) => content,
        None => ""@,
    }
}

/// What is searched for signals: the code, the type and the message of an error.
pub open spec fn signal_text(error: ResponseError) -> Seq<char> {
    or_empty(error.code.deep_view()) + " "@ + or_empty(error.error_type.deep_view()) + " "@
        + error.message@
}

/// What in an error says that the access token was refused.
pub open spec fn token_signals() -> Seq<Seq<char>> {
    seq!["invalid_token"@, "expired_token"@, "authentication"@]
}

/// What in an error says that the account cannot be billed.
pub open spec fn credit_signals() -> Seq<Seq<char>> {
    seq!["billing"@, "no credit"@]
}

/// What in an error says that a permission is missing.
pub open spec fn permission_signals() -> Seq<Seq<char>> {
    seq!["scope"@, "permission"@, "consent"@, "login_required"@, "interaction_required"@]
}

/// What in an error says that a limit is reached.
pub open spec fn limit_signals() -> Seq<Seq<char>> {
    seq!["limit"@, "quota"@, "slow_down"@]
}

/// What in an error says that the server itself failed.
pub open spec fn server_signals() -> Seq<Seq<char>> {
    seq!["server_error"@, "timeout"@, "overloaded"@]
}

/// The status that an answer with the same error would have had.
pub open spec fn status_of_signal(signal: Seq<char>) -> u16 {
    if text::mentions(signal, token_signals()) {
        401
    } else if text::mentions(signal, credit_signals()) {
        402
    } else if text::mentions(signal, permission_signals()) {
        403
    } else if text::mentions(signal, limit_signals()) {
        429
    } else if text::mentions(signal, server_signals()) {
        503
    } else {
        400
    }
}

/// The body of the answer that would have reported the error at once.
pub open spec fn answer_body(error: ResponseError) -> Seq<char> {
    "{\"error\":"@ + error.encoded@ + "}"@
}

/// `answer` is the answer that would have reported the error at once.
pub open spec fn answers(error: ResponseError, answer: RequestError) -> bool {
    answer matches RequestError::HttpResponse { status, body, www_authenticate, retry_after }
        && status == status_of_signal(signal_text(error)) && body@ == answer_body(error)
        && www_authenticate is None && retry_after is None
}

/// The time at which a stream event says that the quota is there again is the time until which
/// the account has none. A time that is already past is not used: the quota is then gone until
/// further notice.
pub proof fn stated_reset_is_kept(
    event: StreamEvent,
    error: ResponseError,
    answer: RequestError,
    payload: Json,
    seconds: u64,
    now: u64,
)
    requires
        event.reported() == Some(error),
        answers(error, answer),
        status_of_signal(signal_text(error)) == 403 || status_of_signal(signal_text(error)) == 429,
        text::mentions(answer_body(error), quota_signals()),
        json::json_of_text(answer_body(error)) == Some(payload),
        stated_reset(error_detail(payload)) == Some(seconds),
    ensures
        failure_of(answer, body_payload(answer), now) == FailureModel::Quota(
            if capped(seconds * 1000) > now {
                capped(seconds * 1000)
            } else {
                u64::MAX
            },
        ),
{
}

fn status_for(signal: &str) -> (status: u16)
    ensures
        status == status_of_signal(signal@),
{
    let small = text::lowered_chars(signal);
    let token: Vec<&str> = vec!["invalid_token", "expired_token", "authentication"];
    assert(token.deep_view() =~= token_signals());
    let credit: Vec<&str> = vec!["billing", "no credit"];
    assert(credit.deep_view() =~= credit_signals());
    let permission: Vec<&str> = vec![
        "scope",
        "permission",
        "consent",
        "login_required",
        "interaction_required",
    ];
    assert(permission.deep_view() =~= permission_signals());
    let limit: Vec<&str> = vec!["limit", "quota", "slow_down"];
    assert(limit.deep_view() =~= limit_signals());
    let server: Vec<&str> = vec!["server_error", "timeout", "overloaded"];
    assert(server.deep_view() =~= server_signals());
    if text::mentions_any(&small, &token) {
        401
    } else if text::mentions_any(&small, &credit) {
        402
    } else if text::mentions_any(&small, &permission) {
        403
    } else if text::mentions_any(&small, &limit) {
        429
    } else if text::mentions_any(&small, &server) {
        503
    } else {
        400
    }
}

fn optional_text(content: &Option<String>) -> (r: &str)
    ensures
        r@ == or_empty(content.deep_view()),
{
    match content {
        Some(content) => content.as_str(),
        None => "",
    }
}

/// The error that a stream event reports, as the answer that would have reported it at once.
pub fn stream_event_error(event: &StreamEvent) -> (r: Option<RequestError>)
    ensures
        match r {
            Some(answer) => event.reported() is Some && answers(event.reported()->0, answer),
            None => event.reported() is None,
        },
{
    let error = match event {
        StreamEvent::Error { error } => error,
        StreamEvent::Failed { reason } => match reason {
            Some(error) => error,
            None => return None,
        },
        StreamEvent::GenericError { error } => error,
        _ => return None,
    };
    let mut signal = optional_text(&error.code).to_owned();
    signal.append(" ");
    signal.append(optional_text(&error.error_type));
    signal.append(" ");
    signal.append(&error.message);
    Some(
        RequestError::HttpResponse {
            status: status_for(&signal),
            body: text::joined3("{\"error\":", &error.encoded, "}"),
            www_authenticate: None,
            retry_after: None,
        },
    )
}

} // verus!
