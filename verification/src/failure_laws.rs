//! What failed answers and stream events say of an account.
use crate::failure;
use crate::failure::{AccountFailure, FailureModel, RequestError, ResponseError, StreamEvent};
use crate::json;
use crate::json::Json;
use crate::stream;
use crate::stream::{MonitorStep, Preflight, PreflightStep};
use crate::text;
use crate::text_laws;
use vstd::prelude::*;
use vstd::string::*;

verus! {

/// A text holds another one, whatever the case of its ASCII letters.
pub open spec fn says(body: Seq<char>, what: Seq<char>) -> bool {
    text::contains(text::lowered(body), what)
}

proof fn lemma_mentions_one(body: Seq<char>, signals: Seq<Seq<char>>, i: int)
    requires
        0 <= i < signals.len(),
        says(body, signals[i]),
    ensures
        text::mentions(body, signals),
{
}

proof fn lemma_quota_signals(body: Seq<char>)
    ensures
        text::mentions(body, failure::quota_signals()) <==> (says(body, "usage_limit_reached"@)
            || says(body, "usage limit"@) || says(body, "plan limit"@) || says(
            body,
            "limit reached on your plan"@,
        ) || says(body, "quota"@) || says(body, "usage cap"@)),
{
    let signals = failure::quota_signals();
    assert(signals[0] == "usage_limit_reached"@);
    assert(signals[1] == "usage limit"@);
    assert(signals[2] == "plan limit"@);
    assert(signals[3] == "limit reached on your plan"@);
    assert(signals[4] == "quota"@);
    assert(signals[5] == "usage cap"@);
}

proof fn lemma_billing_signals(body: Seq<char>)
    ensures
        text::mentions(body, failure::billing_signals()) <==> (says(body, "billing"@) || says(
            body,
            "no credit"@,
        ) || says(body, "no_credit"@) || says(body, "plan expired"@)),
{
    let signals = failure::billing_signals();
    assert(signals[0] == "billing"@);
    assert(signals[1] == "no credit"@);
    assert(signals[2] == "no_credit"@);
    assert(signals[3] == "plan expired"@);
}

proof fn lemma_reauth_signals(body: Seq<char>)
    ensures
        text::mentions(body, failure::reauth_signals()) <==> (says(body, "consent_required"@)
            || says(body, "interaction_required"@) || says(body, "login_required"@)),
{
    let signals = failure::reauth_signals();
    assert(signals[0] == "consent_required"@);
    assert(signals[1] == "interaction_required"@);
    assert(signals[2] == "login_required"@);
}

/// An answer with status 403 or 429 that speaks of a used-up quota, in any of these words, says
/// that the account has no quota left; no other failure says so.
pub proof fn used_up_quota_is_told(
    error: &RequestError,
    payload: &Json,
    now: u64,
    r: AccountFailure,
    status: u16,
    body: String,
    www_authenticate: Option<String>,
    retry_after: Option<String>,
)
    requires
        call_ensures(failure::classify_payload, (error, payload, now), r),
        *error == (RequestError::HttpResponse { status, body, www_authenticate, retry_after }),
    ensures
        r is Quota <==> (status == 403 || status == 429) && (says(body@, "usage_limit_reached"@)
            || says(body@, "usage limit"@) || says(body@, "plan limit"@) || says(
            body@,
            "limit reached on your plan"@,
        ) || says(body@, "quota"@) || says(body@, "usage cap"@)),
{
    lemma_quota_signals(body@);
}

/// An answer with status 402, and one with status 403 or 429 that speaks of billing and of no
/// quota, says that the account cannot be billed.
pub proof fn billing_trouble_is_told(
    error: &RequestError,
    payload: &Json,
    now: u64,
    r: AccountFailure,
    status: u16,
    body: String,
    www_authenticate: Option<String>,
    retry_after: Option<String>,
)
    requires
        call_ensures(failure::classify_payload, (error, payload, now), r),
        *error == (RequestError::HttpResponse { status, body, www_authenticate, retry_after }),
    ensures
        status == 402 ==> r is Billing,
        status == 403 || status == 429 ==> (says(body@, "billing"@) || says(body@, "no credit"@)
            || says(body@, "no_credit"@) || says(body@, "plan expired"@)) ==> r is Billing
            || r is Quota,
        r is Billing ==> status == 402 || ((status == 403 || status == 429) && (says(
            body@,
            "billing"@,
        ) || says(body@, "no credit"@) || says(body@, "no_credit"@) || says(
            body@,
            "plan expired"@,
        ))),
{
    lemma_billing_signals(body@);
}

/// An answer that asks for consent, interaction or a login, and speaks neither of a quota nor of
/// billing, says that the user has to sign in again, whatever its status.
pub proof fn demand_for_sign_in_is_told(
    error: &RequestError,
    payload: &Json,
    now: u64,
    r: AccountFailure,
    status: u16,
    body: String,
    www_authenticate: Option<String>,
    retry_after: Option<String>,
)
    requires
        call_ensures(failure::classify_payload, (error, payload, now), r),
        *error == (RequestError::HttpResponse { status, body, www_authenticate, retry_after }),
    ensures
        says(body@, "consent_required"@) || says(body@, "interaction_required"@) || says(
            body@,
            "login_required"@,
        ) ==> r is NeedsReauth || r is Quota || r is Billing,
        r is NeedsReauth ==> says(body@, "consent_required"@) || says(
            body@,
            "interaction_required"@,
        ) || says(body@, "login_required"@),
{
    lemma_reauth_signals(body@);
}

/// An answer that asks for nothing in words is judged by its status: 401 refuses the token, 403
/// misses a permission, 429 stems from too many requests, a failing server may recover, and all
/// else is not the account's fault.
pub proof fn status_decides_without_words(
    error: &RequestError,
    payload: &Json,
    now: u64,
    r: AccountFailure,
    status: u16,
    body: String,
    www_authenticate: Option<String>,
    retry_after: Option<String>,
)
    requires
        call_ensures(failure::classify_payload, (error, payload, now), r),
        *error == (RequestError::HttpResponse { status, body, www_authenticate, retry_after }),
        !(r is Quota) && !(r is Billing) && !(r is NeedsReauth),
    ensures
        r is Unauthorized <==> status == 401,
        r is Scope <==> status == 403,
        r is RateLimit <==> status == 429,
        r is Transient <==> 500 <= status <= 599,
        r is Other <==> status != 401 && status != 403 && status != 429 && !(500 <= status <= 599),
{
}

/// A request that could not be sent, or whose answer could not be read, may succeed when it is
/// tried again, and so may one that failed in input or output; nothing else is the account's
/// fault.
pub proof fn broken_connections_may_recover(
    error: &RequestError,
    payload: &Json,
    now: u64,
    r: AccountFailure,
)
    requires
        call_ensures(failure::classify_payload, (error, payload, now), r),
    ensures
        error is HttpSend ==> r is Transient,
        error is ReadResponse ==> r is Transient,
        *error matches RequestError::Other { is_io, .. } ==> (if is_io {
            r is Transient
        } else {
            r is Other
        }),
{
}

/// A used-up quota is there again at the time that the error states, in seconds since 1970: first
/// under `resets_at`, then under `reset_at`, of the member `error` or of the whole body. A time
/// that is past or missing leaves the end open.
pub proof fn quota_ends_at_stated_time(
    error: &RequestError,
    payload: &Json,
    now: u64,
    r: AccountFailure,
    until: u64,
    detail: Json,
)
    requires
        call_ensures(failure::classify_payload, (error, payload, now), r),
        r == AccountFailure::Quota(until),
        detail == (match payload.member("error"@) {
            Some(member) => member,
            None => *payload,
        }),
    ensures
        detail.member("resets_at"@) matches Some(value) ==> (match value.number() {
            Some(seconds) => if now < seconds * 1000 <= u64::MAX {
                until == seconds * 1000
            } else {
                until == u64::MAX
            },
            None => until == u64::MAX,
        }),
        detail.member("resets_at"@) is None ==> match detail.member("reset_at"@) {
            Some(value) => match value.number() {
                Some(seconds) => if now < seconds * 1000 <= u64::MAX {
                    until == seconds * 1000
                } else {
                    until == u64::MAX
                },
                None => until == u64::MAX,
            },
            None => until == u64::MAX,
        },
{
}

/// Too many requests keep the account waiting for the seconds of the header, for one at least,
/// and for thirty where the header states none.
pub proof fn rate_limit_lasts_as_stated(
    error: &RequestError,
    payload: &Json,
    now: u64,
    r: AccountFailure,
    until: u64,
    status: u16,
    body: String,
    www_authenticate: Option<String>,
    retry_after: Option<String>,
)
    requires
        call_ensures(failure::classify_payload, (error, payload, now), r),
        *error == (RequestError::HttpResponse { status, body, www_authenticate, retry_after }),
        r == AccountFailure::RateLimit(until),
    ensures
        forall|seconds: u64|
            #![trigger text::decimal(seconds as nat)]
            retry_after.deep_view() == Some(text::decimal(seconds as nat)) && seconds >= 1 && now
                + seconds * 1000 <= u64::MAX ==> until == now + seconds * 1000,
        retry_after.deep_view() == Some(text::decimal(0)) && now + 1000 <= u64::MAX ==> until == now
            + 1000,
        retry_after is None && now + 30_000 <= u64::MAX ==> until == now + 30_000,
        now + 1000 > u64::MAX ==> until == u64::MAX,
        until <= u64::MAX && until >= now,
{
    assert forall|seconds: u64|
        #![trigger text::decimal(seconds as nat)]
        retry_after.deep_view() == Some(text::decimal(seconds as nat)) && seconds >= 1 && now
            + seconds * 1000 <= u64::MAX implies until == now + seconds * 1000 by {
        text_laws::lemma_decimal_parses(seconds);
    }
    text_laws::lemma_decimal_parses(0);
}

/// A header that states no number of seconds counts as none.
pub proof fn unreadable_wait_is_thirty_seconds(
    error: &RequestError,
    payload: &Json,
    now: u64,
    r: AccountFailure,
    until: u64,
    status: u16,
    body: String,
    www_authenticate: Option<String>,
    header: String,
    s: &str,
)
    requires
        call_ensures(failure::classify_payload, (error, payload, now), r),
        *error == (RequestError::HttpResponse {
            status,
            body,
            www_authenticate,
            retry_after: Some(header),
        }),
        r == AccountFailure::RateLimit(until),
        s@ == header@,
        call_ensures(text::parse_number, (s,), None),
        now + 30_000 <= u64::MAX,
    ensures
        until == now + 30_000,
{
    let stated: Option<String> = Some(header);
    assert(stated.deep_view() == Some(header@));
}

/// A missing permission is the one that the error names as `required_scope`, unless that is
/// blank.
pub proof fn missing_permission_is_named(
    error: &RequestError,
    payload: &Json,
    now: u64,
    r: AccountFailure,
    scope: Option<String>,
    detail: Json,
    named: Seq<char>,
)
    requires
        call_ensures(failure::classify_payload, (error, payload, now), r),
        r == AccountFailure::Scope(scope),
        detail == (match payload.member("error"@) {
            Some(member) => member,
            None => *payload,
        }),
        detail.member("required_scope"@) matches Some(value) && value.content() == Some(named),
    ensures
        scope.deep_view() == (if forall|i: int|
            0 <= i < named.len() ==> text::is_space(#[trigger] named[i]) {
            None
        } else {
            Some(named)
        }),
{
    assert(text::is_blank(named) == (forall|i: int|
        0 <= i < named.len() ==> text::is_space(#[trigger] named[i])));
}

/// Where the error names no permission, the missing one is that between the quotes after
/// `scope=` in the header, if there is one that is not blank.
pub proof fn missing_permission_stands_in_header(
    error: &RequestError,
    payload: &Json,
    now: u64,
    r: AccountFailure,
    scope: Option<String>,
    status: u16,
    body: String,
    www_authenticate: Option<String>,
    retry_after: Option<String>,
    before: Seq<char>,
    named: Seq<char>,
    rest: Seq<char>,
)
    requires
        call_ensures(failure::classify_payload, (error, payload, now), r),
        *error == (RequestError::HttpResponse { status, body, www_authenticate, retry_after }),
        r == AccountFailure::Scope(scope),
        payload.member("error"@) is None,
        payload.member("required_scope"@) is None,
        www_authenticate.deep_view() == Some(
            before + "scope=\""@ + named + "\""@ + rest,
        ),
        forall|i: int|
            0 <= i < before.len() ==> !text::occurs_at(
                before + "scope=\""@ + named + "\""@ + rest,
                "scope=\""@,
                i,
            ),
        forall|i: int| 0 <= i < named.len() ==> #[trigger] named[i] != '"',
        exists|i: int| 0 <= i < named.len() && !text::is_space(#[trigger] named[i]),
        !text::contains(named + "\""@ + rest, "scope=\""@),
    ensures
        scope.deep_view() == Some(named),
{
    reveal_strlit("scope=\"");
    reveal_strlit("\"");
    let header = before + "scope=\""@ + named + "\""@ + rest;
    let after = named + "\""@ + rest;
    assert(header =~= before + "scope=\""@ + after);
    text_laws::lemma_cut(before, "scope=\""@, after);
    assert(text::after_first(header, "scope=\""@) == Some(after));
    assert(text::second_piece(header, "scope=\""@) == Some(after));
    assert(after =~= named + "\""@ + rest);
    assert forall|i: int| 0 <= i < named.len() implies !text::occurs_at(
        after,
        "\""@,
        i,
    ) by {
        if text::occurs_at(after, "\""@, i) {
            assert(after.subrange(i, i + 1)[0] == after[i]);
            assert(after[i] == named[i]);
            assert("\""@[0] == '"');
        }
    }
    text_laws::lemma_cut(named, "\""@, rest);
}

/// Where neither the error nor a header names a permission, none is named.
pub proof fn missing_permission_may_have_no_name(
    error: &RequestError,
    payload: &Json,
    now: u64,
    r: AccountFailure,
    scope: Option<String>,
    status: u16,
    body: String,
    retry_after: Option<String>,
)
    requires
        call_ensures(failure::classify_payload, (error, payload, now), r),
        *error == (RequestError::HttpResponse {
            status,
            body,
            www_authenticate: None,
            retry_after,
        }),
        r == AccountFailure::Scope(scope),
        payload.member("error"@) is None,
        payload.member("required_scope"@) is None,
    ensures
        scope is None,
{
}

/// What an answer says is read from the JSON document that its body is; a body that is none says
/// no more than a null would.
pub proof fn body_is_read_as_json(
    error: &RequestError,
    now: u64,
    r: AccountFailure,
    status: u16,
    body: String,
    www_authenticate: Option<String>,
    retry_after: Option<String>,
    payload: &Json,
    judged: AccountFailure,
)
    requires
        call_ensures(failure::classify_failure_at, (error, now), r),
        call_ensures(failure::classify_payload, (error, payload, now), judged),
        *error == (RequestError::HttpResponse { status, body, www_authenticate, retry_after }),
        json::json_of_text(body@) == Some(*payload) || (json::json_of_text(body@) is None
            && *payload == Json::Null),
    ensures
        r@ == judged@,
{
}

/// Every kind of stream event that holds an error comes out as an answer with that error: an
/// error event, a failed response with a reason, and an error without a type of its own. No other
/// event does.
pub proof fn stream_errors_come_out(
    event: &StreamEvent,
    r: Option<RequestError>,
    error: ResponseError,
)
    requires
        call_ensures(failure::stream_event_error, (event,), r),
    ensures
        *event == (StreamEvent::Error { error }) ==> r is Some,
        *event == (StreamEvent::Failed { reason: Some(error) }) ==> r is Some,
        *event == (StreamEvent::GenericError { error }) ==> r is Some,
        *event == (StreamEvent::Error { error }) || *event == (StreamEvent::Failed {
            reason: Some(error),
        }) || *event == (StreamEvent::GenericError { error }) ==> (r
            matches Some(RequestError::HttpResponse { body, www_authenticate, retry_after, .. })
            && body@ == "{\"error\":"@ + error.encoded@ + "}"@ && www_authenticate is None
            && retry_after is None),
        event is Created || event is InProgress || event is Unknown || event is Other
            ==> r is None,
        *event == (StreamEvent::Failed { reason: None }) ==> r is None,
{
}

/// The code, the type and the message of an error in a stream, with a space between them.
pub open spec fn spoken(error: ResponseError) -> Seq<char> {
    let code = match error.code {
        Some(code) => code@,
        None => ""@,
    };
    let kind = match error.error_type {
        Some(kind) => kind@,
        None => ""@,
    };
    code + " "@ + kind + " "@ + error.message@
}

proof fn lemma_token_signals(signal: Seq<char>)
    ensures
        text::mentions(signal, failure::token_signals()) <==> (says(signal, "invalid_token"@)
            || says(signal, "expired_token"@) || says(signal, "authentication"@)),
        text::mentions(signal, failure::credit_signals()) <==> (says(signal, "billing"@) || says(
            signal,
            "no credit"@,
        )),
        text::mentions(signal, failure::permission_signals()) <==> (says(signal, "scope"@) || says(
            signal,
            "permission"@,
        ) || says(signal, "consent"@) || says(signal, "login_required"@) || says(
            signal,
            "interaction_required"@,
        )),
        text::mentions(signal, failure::limit_signals()) <==> (says(signal, "limit"@) || says(
            signal,
            "quota"@,
        ) || says(signal, "slow_down"@)),
        text::mentions(signal, failure::server_signals()) <==> (says(signal, "server_error"@)
            || says(signal, "timeout"@) || says(signal, "overloaded"@)),
{
    let token = failure::token_signals();
    assert(token[0] == "invalid_token"@ && token[1] == "expired_token"@ && token[2]
        == "authentication"@);
    let credit = failure::credit_signals();
    assert(credit[0] == "billing"@ && credit[1] == "no credit"@);
    let permission = failure::permission_signals();
    assert(permission[0] == "scope"@ && permission[1] == "permission"@ && permission[2]
        == "consent"@ && permission[3] == "login_required"@ && permission[4]
        == "interaction_required"@);
    let limit = failure::limit_signals();
    assert(limit[0] == "limit"@ && limit[1] == "quota"@ && limit[2] == "slow_down"@);
    let server = failure::server_signals();
    assert(server[0] == "server_error"@ && server[1] == "timeout"@ && server[2] == "overloaded"@);
}

/// The answer that an error in a stream comes out as has the status that fits its words: first
/// those of a refused token, then those of billing, of a missing permission, of a limit and of a
/// failing server.
pub proof fn stream_errors_have_fitting_status(
    event: &StreamEvent,
    r: Option<RequestError>,
    error: ResponseError,
    status: u16,
    body: String,
    www_authenticate: Option<String>,
    retry_after: Option<String>,
)
    requires
        call_ensures(failure::stream_event_error, (event,), r),
        *event == (StreamEvent::Error { error }) || *event == (StreamEvent::Failed {
            reason: Some(error),
        }) || *event == (StreamEvent::GenericError { error }),
        r == Some(RequestError::HttpResponse { status, body, www_authenticate, retry_after }),
    ensures
        status == 401 <==> (says(spoken(error), "invalid_token"@) || says(
            spoken(error),
            "expired_token"@,
        ) || says(spoken(error), "authentication"@)),
        status != 401 ==> (status == 402 <==> (says(spoken(error), "billing"@) || says(
            spoken(error),
            "no credit"@,
        ))),
        status != 401 && status != 402 ==> (status == 403 <==> (says(spoken(error), "scope"@)
            || says(spoken(error), "permission"@) || says(spoken(error), "consent"@) || says(
            spoken(error),
            "login_required"@,
        ) || says(spoken(error), "interaction_required"@))),
        status != 401 && status != 402 && status != 403 ==> (status == 429 <==> (says(
            spoken(error),
            "limit"@,
        ) || says(spoken(error), "quota"@) || says(spoken(error), "slow_down"@))),
        status != 401 && status != 402 && status != 403 && status != 429 ==> (status == 503 <==> (
        says(spoken(error), "server_error"@) || says(spoken(error), "timeout"@) || says(
            spoken(error),
            "overloaded"@,
        ))),
        status == 401 || status == 402 || status == 403 || status == 429 || status == 503 || status
            == 400,
{
    assert(failure::signal_text(error) == spoken(error));
    lemma_token_signals(spoken(error));
}

/// A stream is not handed out when an event reports an error: the request fails with that error,
/// and the event is no part of an answer.
pub proof fn preflight_fails_on_errors<P>(
    preflight: &mut Preflight<P>,
    payload: P,
    event: &StreamEvent,
    step: PreflightStep,
    error: ResponseError,
)
    requires
        call_ensures(Preflight::<P>::accept, (preflight, payload, event), step),
        *event == (StreamEvent::Error { error }) || *event == (StreamEvent::Failed {
            reason: Some(error),
        }) || *event == (StreamEvent::GenericError { error }),
    ensures
        step matches PreflightStep::Fail(RequestError::HttpResponse { body, .. }) && body@
            == "{\"error\":"@ + error.encoded@ + "}"@,
        final(preflight).buffered@ == old(preflight).buffered@,
{
}

/// Events that only say how a stream fares are held back, up to thirty-two of them; any other
/// event without an error has the stream handed out. No event is lost.
pub proof fn preflight_waits_for_output<P>(
    preflight: &mut Preflight<P>,
    payload: P,
    event: &StreamEvent,
    step: PreflightStep,
)
    requires
        call_ensures(Preflight::<P>::accept, (preflight, payload, event), step),
    ensures
        event is Created || event is InProgress || event is Unknown ==> (if old(preflight).buffered@.len() < 31 {
            step is Continue
        } else {
            step is Ready
        }),
        event is Other || *event == (StreamEvent::Failed { reason: None }) ==> step is Ready,
        !(step is Fail) ==> final(preflight).buffered@ == old(preflight).buffered@.push(payload),
{
}

/// While an answer comes, an event without an error is passed on; one with an error is the last,
/// after a refused token was renewed or any other failure recorded; and so is the end of a broken
/// stream.
pub proof fn monitored_answers_end_with_errors(
    event: Option<&StreamEvent>,
    now: u64,
    step: MonitorStep,
    error: ResponseError,
)
    requires
        call_ensures(stream::monitor_event_at, (event, now), step),
    ensures
        event is None ==> step is PassOnAndStop,
        event matches Some(event) ==> {
            &&& *event == (StreamEvent::Error { error }) || *event == (StreamEvent::Failed {
                reason: Some(error),
            }) || *event == (StreamEvent::GenericError { error }) ==> step is RenewAndStop
                || step is RecordAndStop
            &&& event is Created || event is InProgress || event is Unknown || event is Other
                || *event == (StreamEvent::Failed { reason: None }) ==> step is PassOn
        },
{
}

/// What is recorded of an answer that ends with an error is what the same error would say as an
/// answer of its own; a refused token is renewed instead.
pub proof fn monitored_errors_are_judged(
    event: &StreamEvent,
    now: u64,
    step: MonitorStep,
    answer: Option<RequestError>,
    answered: &RequestError,
    failure: AccountFailure,
)
    requires
        call_ensures(stream::monitor_event_at, (Some(event), now), step),
        call_ensures(failure::stream_event_error, (event,), answer),
        answer == Some(*answered),
        call_ensures(failure::classify_failure_at, (answered, now), failure),
    ensures
        failure is Unauthorized ==> step is RenewAndStop,
        !(failure is Unauthorized) ==> (step matches MonitorStep::RecordAndStop(recorded)
            && recorded@ == failure@),
{
    let judged = choose|judged: Option<FailureModel>| #[trigger]
        stream::event_failure(*event, now, judged) && step@ == stream::monitored(false, judged);
    let error = event.reported()->0;
    let other = choose|other: RequestError| #[trigger]
        failure::answers(error, other) && judged == Some(
            failure::failure_of(other, failure::body_payload(other), now),
        );
    assert(failure::answers(error, *answered));
    lemma_same_answer(error, *answered, other, now);
}

proof fn lemma_same_answer(
    error: ResponseError,
    a: RequestError,
    b: RequestError,
    now: u64,
)
    requires
        failure::answers(error, a),
        failure::answers(error, b),
    ensures
        failure::failure_of(a, failure::body_payload(a), now) == failure::failure_of(
            b,
            failure::body_payload(b),
            now,
        ),
{
}

/// A request, a stream and an answer that take too long fail as such, and may succeed later.
pub proof fn timeouts_are_told(request: RequestError, answer: RequestError)
    requires
        call_ensures(stream::request_timed_out, (), request),
        call_ensures(stream::stream_timed_out, (), answer),
    ensures
        request matches RequestError::HttpSend { message } && message@ == "Request timed out"@,
        answer matches RequestError::HttpSend { message } && message@
            == "Response stream timed out"@,
{
}

} // verus!
