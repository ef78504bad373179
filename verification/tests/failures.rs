use openai_subscribed::failure::{
    classify_failure, classify_failure_at, classify_payload, stream_event_error, AccountFailure,
    RequestError, ResponseError, StreamEvent,
};
use openai_subscribed::json::Json;
use openai_subscribed::stream::{
    monitor_event, monitor_event_at, request_timed_out, stream_timed_out, Compaction,
    CompactionEvent, MonitorStep, Preflight, PreflightStep, NO_CONTEXT_MESSAGE,
    SEVERAL_CONTEXTS_MESSAGE,
};
use openai_subscribed::time::now_ms;

fn answer(status: u16, body: &str) -> RequestError {
    RequestError::HttpResponse {
        status,
        body: body.to_string(),
        www_authenticate: None,
        retry_after: None,
    }
}

fn answer_with(
    status: u16,
    body: &str,
    www_authenticate: Option<&str>,
    retry_after: Option<&str>,
) -> RequestError {
    RequestError::HttpResponse {
        status,
        body: body.to_string(),
        www_authenticate: www_authenticate.map(str::to_owned),
        retry_after: retry_after.map(str::to_owned),
    }
}

fn reported(code: Option<&str>, error_type: Option<&str>, message: &str, encoded: &str) -> StreamEvent {
    StreamEvent::Error {
        error: ResponseError {
            code: code.map(str::to_owned),
            error_type: error_type.map(str::to_owned),
            message: message.to_string(),
            encoded: encoded.to_string(),
        },
    }
}

#[test]
fn test_account_failure_classification() {
    for (status, body, expected) in [
        (401, "invalid_token", AccountFailure::Unauthorized),
        (401, "interaction_required", AccountFailure::NeedsReauth),
        (403, "insufficient_scope", AccountFailure::Scope(None)),
        (429, "limit reached on your plan", AccountFailure::Quota(u64::MAX)),
        (403, "usage_limit_reached", AccountFailure::Quota(u64::MAX)),
        (402, "payment required", AccountFailure::Billing),
        (500, "server error", AccountFailure::Transient),
        (400, "bad request", AccountFailure::Other),
    ] {
        let error = answer(status, body);
        assert_eq!(classify_failure(&error), expected, "{status}: {body}");
    }
}

#[test]
fn test_sse_quota_reset_time_is_preserved() {
    let reset_seconds = now_ms() / 1000 + 3600;
    let encoded = format!(
        "{{\"code\":\"usage_limit_reached\",\"message\":\"Plan quota\",\"resets_at\":{reset_seconds}}}"
    );
    let event = reported(Some("usage_limit_reached"), None, "Plan quota", &encoded);
    let error = stream_event_error(&event).expect("error");
    assert_eq!(classify_failure(&error), AccountFailure::Quota(reset_seconds * 1000));
}

#[test]
fn past_reset_time_of_a_stream_is_not_used() {
    let encoded = "{\"code\":\"usage_limit_reached\",\"message\":\"Plan quota\",\"resets_at\":5}";
    let event = reported(Some("usage_limit_reached"), None, "Plan quota", encoded);
    let error = stream_event_error(&event).expect("error");
    assert_eq!(classify_failure_at(&error, 4_999), AccountFailure::Quota(5_000));
    assert_eq!(classify_failure_at(&error, 5_000), AccountFailure::Quota(u64::MAX));
    assert_eq!(classify_failure(&error), AccountFailure::Quota(u64::MAX));
}

#[test]
fn quota_ends_when_the_error_says_so() {
    let body = "{\"error\":{\"code\":\"usage_limit_reached\",\"reset_at\":5}}";
    assert_eq!(classify_failure_at(&answer(429, body), 4_999), AccountFailure::Quota(5_000));
    assert_eq!(classify_failure_at(&answer(429, body), 5_000), AccountFailure::Quota(u64::MAX));
    let both = "{\"message\":\"QUOTA\",\"resets_at\":7,\"reset_at\":9}";
    assert_eq!(classify_failure_at(&answer(403, both), 0), AccountFailure::Quota(7_000));
    let huge = "{\"message\":\"quota\",\"resets_at\":18446744073709551615}";
    assert_eq!(classify_failure_at(&answer(429, huge), 0), AccountFailure::Quota(u64::MAX));
    let unusable = "{\"message\":\"quota\",\"resets_at\":\"7\",\"reset_at\":9}";
    assert_eq!(classify_failure_at(&answer(429, unusable), 0), AccountFailure::Quota(u64::MAX));
}

#[test]
fn quota_needs_a_fitting_status() {
    assert_eq!(classify_failure_at(&answer(401, "quota"), 0), AccountFailure::Unauthorized);
    assert_eq!(classify_failure_at(&answer(500, "quota"), 0), AccountFailure::Transient);
    assert_eq!(classify_failure_at(&answer(403, "Plan Expired"), 0), AccountFailure::Billing);
    assert_eq!(classify_failure_at(&answer(429, "no_credit"), 0), AccountFailure::Billing);
    assert_eq!(classify_failure_at(&answer(400, "billing"), 0), AccountFailure::Other);
    assert_eq!(classify_failure_at(&answer(599, ""), 0), AccountFailure::Transient);
    assert_eq!(classify_failure_at(&answer(600, ""), 0), AccountFailure::Other);
    assert_eq!(classify_failure_at(&answer(200, "login_required"), 0), AccountFailure::NeedsReauth);
}

#[test]
fn missing_scope_is_found_in_body_and_header() {
    let body = "{\"error\":{\"required_scope\":\"responses.write\"}}";
    assert_eq!(
        classify_failure_at(&answer(403, body), 0),
        AccountFailure::Scope(Some("responses.write".to_string()))
    );
    let header = Some("Bearer error=\"x\", scope=\"a b\", realm=\"c\"");
    assert_eq!(
        classify_failure_at(&answer_with(403, "no", header, None), 0),
        AccountFailure::Scope(Some("a b".to_string()))
    );
    assert_eq!(
        classify_failure_at(&answer_with(403, body, header, None), 0),
        AccountFailure::Scope(Some("responses.write".to_string()))
    );
    assert_eq!(
        classify_failure_at(&answer_with(403, "no", Some("scope=\" \t\""), None), 0),
        AccountFailure::Scope(None)
    );
    assert_eq!(
        classify_failure_at(&answer_with(403, "no", Some("Bearer"), None), 0),
        AccountFailure::Scope(None)
    );
}

#[test]
fn rate_limits_follow_the_header() {
    for (header, until) in [
        (None, 31_000),
        (Some("2"), 3_000),
        (Some("+2"), 3_000),
        (Some("0"), 2_000),
        (Some("soon"), 31_000),
        (Some("-1"), 31_000),
        (Some("18446744073709551615"), u64::MAX),
        (Some("18446744073709551616"), 31_000),
    ] {
        let error = answer_with(429, "slow down", None, header);
        assert_eq!(classify_failure_at(&error, 1_000), AccountFailure::RateLimit(until));
    }
}

#[test]
fn errors_without_an_answer() {
    let message = || "broken".to_string();
    assert_eq!(
        classify_failure(&RequestError::HttpSend { message: message() }),
        AccountFailure::Transient
    );
    assert_eq!(
        classify_failure(&RequestError::ReadResponse { message: message() }),
        AccountFailure::Transient
    );
    assert_eq!(
        classify_failure(&RequestError::Other { message: message(), is_io: true }),
        AccountFailure::Transient
    );
    assert_eq!(
        classify_failure(&RequestError::Other { message: message(), is_io: false }),
        AccountFailure::Other
    );
    assert!(matches!(request_timed_out(), RequestError::HttpSend { message } if message == "Request timed out"));
    assert!(
        matches!(stream_timed_out(), RequestError::HttpSend { message } if message == "Response stream timed out")
    );
}

#[test]
fn a_payload_can_be_given() {
    let payload = Json::Object(vec![
        ("resets_at".to_string(), Json::Number(Some(9), "9".to_string())),
    ]);
    assert_eq!(
        classify_payload(&answer(429, "usage cap"), &payload, 8_999),
        AccountFailure::Quota(9_000)
    );
}

#[test]
fn stream_errors_get_a_status() {
    for (code, error_type, message, expected) in [
        (Some("Invalid_Token"), None, "", 401),
        (None, Some("authentication_error"), "quota", 401),
        (None, None, "No Credit left", 402),
        (Some("consent_missing"), None, "", 403),
        (None, Some("slow_down"), "", 429),
        (None, None, "rate LIMIT", 429),
        (Some("server_error"), None, "", 503),
        (None, None, "overloaded", 503),
        (None, None, "odd", 400),
    ] {
        let error = stream_event_error(&reported(code, error_type, message, "{}")).expect("error");
        match error {
            RequestError::HttpResponse { status, body, www_authenticate, retry_after } => {
                assert_eq!(status, expected);
                assert_eq!(body, "{\"error\":{}}");
                assert_eq!(www_authenticate, None);
                assert_eq!(retry_after, None);
            }
            _ => panic!("an answer"),
        }
    }
    for event in [
        StreamEvent::Created,
        StreamEvent::InProgress,
        StreamEvent::Unknown,
        StreamEvent::Other,
        StreamEvent::Failed { reason: None },
    ] {
        assert!(stream_event_error(&event).is_none());
    }
    let failed = StreamEvent::Failed {
        reason: Some(ResponseError {
            code: None,
            error_type: None,
            message: "quota".to_string(),
            encoded: "{}".to_string(),
        }),
    };
    assert!(stream_event_error(&failed).is_some());
}

#[test]
fn preflight_holds_metadata_back() {
    let mut preflight = Preflight::new();
    assert!(matches!(preflight.accept(1, &StreamEvent::Created), PreflightStep::Continue));
    assert!(matches!(preflight.accept(2, &StreamEvent::Unknown), PreflightStep::Continue));
    assert!(matches!(preflight.accept(3, &StreamEvent::Other), PreflightStep::Ready));
    assert_eq!(preflight.buffered, vec![1, 2, 3]);

    let mut long = Preflight::new();
    for i in 1..32 {
        assert!(matches!(long.accept(i, &StreamEvent::InProgress), PreflightStep::Continue));
    }
    assert!(matches!(long.accept(32, &StreamEvent::InProgress), PreflightStep::Ready));
    assert_eq!(long.buffered.len(), 32);

    let mut failing = Preflight::new();
    failing.accept(1, &StreamEvent::Created);
    let step = failing.accept(2, &reported(None, None, "quota", "{}"));
    assert!(matches!(step, PreflightStep::Fail(RequestError::HttpResponse { status: 429, .. })));
    assert_eq!(failing.buffered, vec![1]);
}

#[test]
fn answers_are_watched() {
    assert!(matches!(monitor_event(None), MonitorStep::PassOnAndStop));
    assert!(matches!(monitor_event(Some(&StreamEvent::Other)), MonitorStep::PassOn));
    assert!(matches!(
        monitor_event(Some(&reported(Some("invalid_token"), None, "", "{}"))),
        MonitorStep::RenewAndStop
    ));
    let quota = reported(None, None, "quota", "{\"message\":\"quota\",\"resets_at\":3}");
    assert!(matches!(
        monitor_event_at(Some(&quota), 0),
        MonitorStep::RecordAndStop(AccountFailure::Quota(3_000))
    ));
}

#[test]
fn compaction_needs_one_context() {
    let collect = |events| Compaction::<&str, u64>::collect(0, events);
    assert_eq!(
        collect(vec![
            CompactionEvent::Other,
            CompactionEvent::Usage(4),
            CompactionEvent::Finished("short"),
            CompactionEvent::Usage(7),
        ]),
        Ok(("short", 7))
    );
    assert_eq!(collect(vec![CompactionEvent::Usage(4)]), Err(NO_CONTEXT_MESSAGE.to_string()));
    assert_eq!(
        collect(vec![CompactionEvent::Finished("a"), CompactionEvent::Finished("b")]),
        Err(SEVERAL_CONTEXTS_MESSAGE.to_string())
    );
}
