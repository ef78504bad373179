use openai_subscribed::accounts::{AccountSwitchPolicy, Accounts};
use openai_subscribed::credentials::{CodexCredentials, TokenResponse};
use openai_subscribed::failover::{
    failed, is_eligible, CompletionError, Failover, FailoverAction, FailoverEvent,
};
use openai_subscribed::failure::{RequestError, ResponseError, StreamEvent};
use openai_subscribed::models::ChatGptModel;
use openai_subscribed::oauth::{refresh_outcome, retries_refresh};
use openai_subscribed::provider::create_language_model;
use openai_subscribed::refresh::{refresh_timed_out, settled, CredentialsSource};
use openai_subscribed::requests::{codex_extra_headers, ResponsesRequest};
use openai_subscribed::state::{SignInState, State};
use openai_subscribed::stream::{
    monitor_event, Compaction, CompactionEvent, MonitorStep, Preflight, PreflightStep,
};
use openai_subscribed::time::now_ms;

type Task = u32;

fn make_expired_credentials() -> CodexCredentials {
    CodexCredentials {
        access_token: "old_access".to_string(),
        refresh_token: "old_refresh".to_string(),
        scopes: Vec::new(),
        expires_at_ms: 0,
        account_id: None,
        email: None,
    }
}

fn make_fresh_credentials() -> CodexCredentials {
    CodexCredentials {
        access_token: "fresh_access".to_string(),
        refresh_token: "fresh_refresh".to_string(),
        scopes: Vec::new(),
        expires_at_ms: now_ms() + 3_600_000,
        account_id: None,
        email: None,
    }
}

fn fake_token_response() -> TokenResponse {
    TokenResponse {
        scope: None,
        access_token: "fresh_access".to_string(),
        refresh_token: "fresh_refresh".to_string(),
        id_token: None,
        expires_in: 3600,
        email: None,
    }
}

fn make_state(credentials: Option<CodexCredentials>) -> State<Task> {
    let mut state = State::new(0);
    state.finish_load();
    if let Some(credentials) = credentials {
        state.accounts.insert(credentials);
    }
    state
}

/// The answers of the token endpoint, and what was asked of it.
struct Tokens {
    status: u16,
    body: &'static str,
    access_token: &'static str,
    calls: Vec<String>,
}

fn granting() -> Tokens {
    Tokens { status: 200, body: "", access_token: "fresh_access", calls: Vec::new() }
}

fn refusing(status: u16, body: &'static str) -> Tokens {
    Tokens { status, body, access_token: "", calls: Vec::new() }
}

fn renew(state: &mut State<Task>, id: &str, used: CodexCredentials, tokens: &mut Tokens) -> Result<CodexCredentials, CompletionError> {
    state.keep_refresh(id.to_string(), 1);
    let mut retried = false;
    let result = loop {
        tokens.calls.push(used.refresh_token.clone());
        let mut issued = fake_token_response();
        issued.access_token = tokens.access_token.to_string();
        let result = refresh_outcome(tokens.status, tokens.body, Ok(issued), now_ms());
        if !retries_refresh(&result, retried) {
            break result;
        }
        retried = true;
    };
    let (result, effects) = state.finish_refresh(id, &used, result);
    settled(result, effects.persist.then_some(Ok(()))).map_err(CompletionError::Message)
}

fn account_credentials(
    state: &mut State<Task>,
    id: &str,
    rejected: Option<&str>,
    tokens: &mut Tokens,
) -> Result<CodexCredentials, CompletionError> {
    let used = match state.credentials_source(id, rejected) {
        CredentialsSource::Missing => return Err(CompletionError::NoApiKey),
        CredentialsSource::Join(_) => panic!("no renewal is under way"),
        CredentialsSource::Ready(credentials) => return Ok(credentials),
        CredentialsSource::Renew(credentials) => credentials,
    };
    renew(state, id, used, tokens)
}

fn get_fresh_credentials(state: &mut State<Task>, tokens: &mut Tokens) -> Result<CodexCredentials, CompletionError> {
    let id = state.accounts.selected.clone();
    account_credentials(state, &id, None, tokens)
}

fn account_header(credentials: &CodexCredentials) -> String {
    codex_extra_headers(credentials, None)
        .into_iter()
        .find(|(name, _)| name == "chatgpt-account-id")
        .expect("account header")
        .1
}

/// Sends a request for the model and gives the account and the token that answered it.
fn stream_with_accounts(
    state: &mut State<Task>,
    model: &str,
    preferred: Option<&str>,
    tokens: &mut Tokens,
    calls: &mut Vec<String>,
    answer: &mut dyn FnMut(&str) -> Result<(), RequestError>,
) -> Result<(String, String), CompletionError> {
    let policy = state.switch_policy();
    let mut failover = Failover::new(&state.accounts, policy, preferred, model);
    let mut event = FailoverEvent::Begin;
    loop {
        event = match failover.step(event, &state.accounts) {
            FailoverAction::Authenticate { id } => {
                FailoverEvent::Credentials(account_credentials(state, &id, None, tokens))
            }
            FailoverAction::Refresh { id, rejected } => {
                calls.push("refresh".to_string());
                FailoverEvent::Credentials(account_credentials(state, &id, Some(&rejected), tokens))
            }
            FailoverAction::Send { credentials, .. } => {
                let account = account_header(&credentials);
                calls.push(account.clone());
                match answer(&account) {
                    Ok(()) => FailoverEvent::Answered,
                    Err(error) => failed(error),
                }
            }
            FailoverAction::Wait => FailoverEvent::Waited,
            FailoverAction::Record { id, token, failure } => {
                state.record_account_failure(&id, model, &token, &failure);
                FailoverEvent::Recorded(Ok(()))
            }
            FailoverAction::Deliver { id, token } => return Ok((id, token)),
            FailoverAction::Fail(error) => return Err(error),
        };
    }
}

fn refusal(status: u16, body: &str) -> RequestError {
    RequestError::HttpResponse {
        status,
        body: body.to_string(),
        www_authenticate: None,
        retry_after: None,
    }
}

fn two_accounts() -> State<Task> {
    let mut credentials = make_fresh_credentials();
    credentials.account_id = Some("first".into());
    let mut state = make_state(Some(credentials));
    let mut second = make_fresh_credentials();
    second.account_id = Some("second".into());
    state.accounts.insert(second);
    state.accounts.selected = "first".into();
    state
}

#[test]
fn test_account_failover_signals_and_manual_policy() {
    for (status, body, policy, expected) in [
        (401, "invalid_token", AccountSwitchPolicy::OnError, vec!["first", "refresh", "second"]),
        (429, "rate_limit_exceeded", AccountSwitchPolicy::OnError, vec!["first", "second"]),
        (402, "billing", AccountSwitchPolicy::OnError, vec!["first", "second"]),
        (503, "overloaded", AccountSwitchPolicy::OnError, vec!["first", "first", "second"]),
        (403, "insufficient_scope", AccountSwitchPolicy::OnError, vec!["first"]),
        (
            403,
            r#"{"error":{"code":"insufficient_scope","required_scope":"responses.write"}}"#,
            AccountSwitchPolicy::OnError,
            vec!["first", "second"],
        ),
        (429, "rate_limit_exceeded", AccountSwitchPolicy::Manual, vec!["first"]),
        (400, "invalid_request", AccountSwitchPolicy::OnError, vec!["first"]),
    ] {
        let mut state = two_accounts();
        let mut second = make_fresh_credentials();
        second.account_id = Some("second".into());
        second.scopes = vec!["responses.write".into()];
        state.accounts.insert(second);
        state.accounts.selected = "first".into();
        state.configure_switch_policy(Some(policy));
        let mut calls = Vec::new();
        let result = stream_with_accounts(
            &mut state,
            "gpt-5.4",
            None,
            &mut refusing(400, "invalid_grant"),
            &mut calls,
            &mut |account| if account == "first" { Err(refusal(status, body)) } else { Ok(()) },
        );
        assert_eq!(result.is_ok(), expected.last() == Some(&"second"), "{status}: {body}");
        assert_eq!(calls, expected, "{status}: {body}");
    }
}

#[test]
fn test_sse_quota_failure_uses_other_account() {
    for partial_output in [false, true] {
        let mut state = two_accounts();
        let mut calls = Vec::new();
        let quota = || StreamEvent::Error {
            error: ResponseError {
                code: Some("usage_limit_reached".into()),
                error_type: None,
                message: "limit reached on your plan".into(),
                encoded: "{\"code\":\"usage_limit_reached\",\"message\":\"limit reached on your plan\"}".into(),
            },
        };
        let mut answer = |account: &str| {
            if account != "first" {
                return Ok(());
            }
            let mut preflight = Preflight::new();
            let mut events = Vec::new();
            if partial_output {
                events.push(StreamEvent::Other);
            }
            events.push(StreamEvent::Created);
            events.push(quota());
            for (place, event) in events.iter().enumerate() {
                match preflight.accept(place, event) {
                    PreflightStep::Continue => {}
                    PreflightStep::Ready => return Ok(()),
                    PreflightStep::Fail(error) => return Err(error),
                }
            }
            Ok(())
        };
        let (id, token) = stream_with_accounts(
            &mut state, "gpt-5.4", None, &mut granting(), &mut calls, &mut answer,
        )
        .expect("SSE failure should fail over");
        if partial_output {
            assert!(matches!(monitor_event(Some(&StreamEvent::Created)), MonitorStep::PassOn));
            match monitor_event(Some(&quota())) {
                MonitorStep::RecordAndStop(failure) => {
                    state.record_account_failure(&id, "gpt-5.4", &token, &failure);
                }
                _ => panic!("the failure is recorded"),
            }
            assert_eq!(calls, vec!["first"], "do not replay partial output");
            stream_with_accounts(
                &mut state, "gpt-5.4", None, &mut granting(), &mut calls, &mut answer,
            )
            .expect("next request uses other account");
        }
        assert_eq!(calls, vec!["first", "second"]);
        assert_eq!(
            state.accounts.accounts.get("first").expect("first").quota_until_ms,
            u64::MAX
        );
    }
}

#[test]
fn test_unauthorized_refreshes_same_account_before_failover() {
    let mut state = two_accounts();
    let mut calls = Vec::new();
    stream_with_accounts(
        &mut state,
        "gpt-5.4",
        None,
        &mut granting(),
        &mut calls,
        &mut |account| {
            if account == "first" { Err(refusal(401, "invalid_token")) } else { Ok(()) }
        },
    )
    .expect("failover succeeds");
    assert_eq!(calls, vec!["first", "refresh", "first", "second"]);
    assert!(state.accounts.accounts.get("first").expect("first").needs_reauth);
}

#[test]
fn test_plan_quota_freezes_account_across_requests() {
    let mut state = two_accounts();
    let mut calls = Vec::new();
    for _ in 0..2 {
        stream_with_accounts(
            &mut state,
            "gpt-5.4",
            None,
            &mut granting(),
            &mut calls,
            &mut |account| {
                if account == "first" {
                    Err(refusal(429, "limit reached on your plan"))
                } else {
                    Ok(())
                }
            },
        )
        .expect("failover succeeds");
    }
    assert_eq!(calls, vec!["first", "second", "second"]);
    assert_eq!(
        state.accounts.accounts.get("first").expect("first").quota_until_ms,
        u64::MAX
    );
}

#[test]
fn requests_without_accounts_fail() {
    let mut state = make_state(None);
    let result = stream_with_accounts(
        &mut state, "gpt-5.4", None, &mut granting(), &mut Vec::new(), &mut |_| Ok(()),
    );
    assert!(matches!(
        result,
        Err(CompletionError::Message(message))
            if message == "No eligible ChatGPT account. Check account status in Settings > AI > LLM Providers."
    ));
}

#[test]
fn a_preferred_account_is_tried_first() {
    let mut state = two_accounts();
    let mut calls = Vec::new();
    let (id, token) = stream_with_accounts(
        &mut state, "gpt-5.4", Some("second"), &mut granting(), &mut calls, &mut |_| Ok(()),
    )
    .expect("answer");
    assert_eq!((id.as_str(), token.as_str()), ("second", "fresh_access"));
    assert_eq!(calls, vec!["second"]);
}

#[test]
fn a_request_is_sent_three_times_at_most() {
    let mut state = two_accounts();
    state.configure_switch_policy(Some(AccountSwitchPolicy::Manual));
    let mut calls = Vec::new();
    let mut answers = vec![401, 503, 401].into_iter();
    let result = stream_with_accounts(
        &mut state,
        "gpt-5.4",
        None,
        &mut granting(),
        &mut calls,
        &mut |_| Err(refusal(answers.next().expect("three sends"), "no")),
    );
    assert!(matches!(
        result,
        Err(CompletionError::Request(RequestError::HttpResponse { status: 401, .. }))
    ));
    assert_eq!(calls, vec!["first", "refresh", "first", "first"]);
}

#[test]
fn a_save_that_fails_ends_the_request() {
    let state = two_accounts();
    let mut failover = Failover::new(&state.accounts, AccountSwitchPolicy::OnError, None, "m");
    assert!(matches!(
        failover.step_at(FailoverEvent::Begin, &state.accounts, 0),
        FailoverAction::Authenticate { id } if id == "first"
    ));
    failover.step(FailoverEvent::Credentials(Ok(make_fresh_credentials())), &state.accounts);
    assert!(matches!(
        failover.step(failed(refusal(402, "")), &state.accounts),
        FailoverAction::Record { .. }
    ));
    let error = CompletionError::Message("full".to_string());
    assert!(matches!(
        failover.step(FailoverEvent::Recorded(Err(error)), &state.accounts),
        FailoverAction::Fail(CompletionError::Message(message)) if message == "full"
    ));
}

#[test]
fn scopes_have_to_be_granted() {
    let mut accounts = Accounts::default();
    let mut credentials = make_fresh_credentials();
    credentials.scopes = vec!["a".into(), "b".into()];
    accounts.insert(credentials);
    let eligible = |scope: Option<&str>| {
        is_eligible(&accounts, "legacy", "m", &scope.map(str::to_owned), 0)
    };
    assert!(eligible(None));
    assert!(eligible(Some(" b  a ")));
    assert!(eligible(Some("")));
    assert!(!eligible(Some("a c")));
    assert!(!is_eligible(&accounts, "nobody", "m", &None, 0));
}

#[test]
fn errors_after_output_lose_nothing() {
    let events = [
        StreamEvent::Created,
        StreamEvent::Other,
        StreamEvent::Error {
            error: ResponseError {
                code: None,
                error_type: None,
                message: "late".to_string(),
                encoded: "{}".to_string(),
            },
        },
    ];
    let mut preflight = Preflight::new();
    assert!(matches!(preflight.accept(0, &events[0]), PreflightStep::Continue));
    assert!(matches!(preflight.accept(1, &events[1]), PreflightStep::Ready));
    assert_eq!(preflight.buffered, vec![0, 1]);
    assert!(matches!(monitor_event(Some(&events[2])), MonitorStep::RecordAndStop(_)));
}

#[test]
fn test_concurrent_refresh_deduplicates() {
    let mut state = make_state(Some(make_expired_credentials()));
    let used = match state.credentials_source("legacy", None) {
        CredentialsSource::Renew(credentials) => credentials,
        _ => panic!("a renewal"),
    };
    state.keep_refresh("legacy".to_string(), 7);
    assert!(matches!(
        state.credentials_source("legacy", None),
        CredentialsSource::Join(7)
    ));
    let result = refresh_outcome(200, "", Ok(fake_token_response()), now_ms());
    let (result, _) = state.finish_refresh("legacy", &used, result);
    assert_eq!(result.expect("first refresh should succeed").access_token, "fresh_access");
    match state.credentials_source("legacy", Some("old_access")) {
        CredentialsSource::Ready(credentials) => {
            assert_eq!(credentials.access_token, "fresh_access")
        }
        _ => panic!("the renewed token is at hand"),
    }
}

#[test]
fn test_fresh_credentials_skip_refresh() {
    let mut state = make_state(Some(make_fresh_credentials()));
    let mut tokens = granting();
    let result = get_fresh_credentials(&mut state, &mut tokens);
    assert_eq!(result.expect("credentials").access_token, "fresh_access");
    assert_eq!(tokens.calls.len(), 0, "no refresh should happen when credentials are fresh");
}

#[test]
fn test_no_credentials_returns_no_api_key() {
    let mut state = make_state(None);
    let result = get_fresh_credentials(&mut state, &mut granting());
    assert!(matches!(result, Err(CompletionError::NoApiKey)));
}

#[test]
fn test_fatal_refresh_clears_auth_state() {
    let mut state = make_state(Some(make_expired_credentials()));
    let mut tokens = refusing(401, r#"{"error":"invalid_grant"}"#);
    let result = get_fresh_credentials(&mut state, &mut tokens);
    assert!(result.is_err(), "fatal refresh should return an error");
    assert_eq!(tokens.calls, vec!["old_refresh"]);
    assert!(!state.is_authenticated(), "credentials should be cleared on fatal refresh failure");
    assert!(
        state.last_auth_error().is_some(),
        "last_auth_error should be set on fatal refresh failure"
    );
}

#[test]
fn test_transient_refresh_keeps_credentials() {
    let mut state = make_state(Some(make_expired_credentials()));
    let mut tokens = refusing(500, "Internal Server Error");
    let result = get_fresh_credentials(&mut state, &mut tokens);
    assert!(result.is_err(), "transient refresh should return an error");
    assert_eq!(tokens.calls.len(), 2);
    assert!(state.is_authenticated(), "credentials should be kept on transient refresh failure");
    assert!(
        state.last_auth_error().is_none(),
        "last_auth_error should not be set on transient refresh failure"
    );
}

#[test]
fn test_sign_out_during_refresh_discards_result() {
    let mut state = make_state(Some(make_expired_credentials()));
    let used = match state.credentials_source("legacy", None) {
        CredentialsSource::Renew(credentials) => credentials,
        _ => panic!("a renewal"),
    };
    state.keep_refresh("legacy".to_string(), 1);
    let effects = state.sign_out();
    assert!(effects.persist && effects.notify);
    let result = refresh_outcome(200, "", Ok(fake_token_response()), now_ms());
    let (result, effects) = state.finish_refresh("legacy", &used, result);
    assert_eq!(result.err(), Some("Account was removed".to_string()));
    assert!(!effects.persist);
    assert!(!state.is_authenticated(), "sign-out should have cleared credentials");
}

#[test]
fn renewals_of_other_accounts_are_refused() {
    let mut credentials = make_expired_credentials();
    credentials.account_id = Some("mine".into());
    credentials.email = Some("me@example.com".into());
    credentials.scopes = vec!["s".into()];
    let mut state = make_state(Some(credentials.clone()));
    let mut renewed = make_fresh_credentials();
    renewed.account_id = Some("yours".into());
    let (result, effects) = state.finish_refresh("mine", &credentials, Ok(renewed));
    assert_eq!(
        result.err(),
        Some("Token refresh returned a different ChatGPT account".to_string())
    );
    assert!(effects.persist && !effects.notify);
    let account = state.accounts.accounts.get("mine").expect("mine");
    assert!(account.needs_reauth);
    assert_eq!(account.status, "Account changed during refresh. Sign in again");

    let mut state = make_state(Some(credentials.clone()));
    let (result, _) = state.finish_refresh("mine", &credentials, Ok(make_fresh_credentials()));
    let kept = result.expect("renewed");
    assert_eq!(kept.account_id.as_deref(), Some("mine"));
    assert_eq!(kept.email.as_deref(), Some("me@example.com"));
    assert_eq!(kept.scopes, ["s"]);
    let (result, _) = state.finish_refresh("mine", &credentials, Err(refresh_timed_out()));
    assert_eq!(result.err(), Some("Account changed during token refresh".to_string()));
    assert_eq!(
        settled(Ok(kept), Some(Err("full".to_string()))).err(),
        Some("full".to_string())
    );
}

#[test]
fn test_thread_account_binding_does_not_change_other_models() {
    let state = two_accounts();
    let model = create_language_model(ChatGptModel::Gpt54);
    let second = model.with_account("second".into());
    assert!(model
        .accounts(&state)
        .iter()
        .any(|account| account.id == "first" && account.selected));
    assert!(second
        .accounts(&state)
        .iter()
        .any(|account| account.id == "second" && account.selected));
    assert!(second
        .accounts(&state)
        .iter()
        .all(|account| account.id == "second" || !account.selected));
    assert_eq!(state.accounts.selected, "first");
    assert_eq!(second.account_id(), Some("second"));
    assert_eq!(model.account_id(), None);
    assert_eq!(second.usage_account(&state), "second");
    assert_eq!(model.usage_account(&state), "first");
}

#[test]
fn test_explicit_compaction_streams_with_codex_compaction_trigger() {
    let mut credentials = make_fresh_credentials();
    credentials.account_id = Some("account-123".to_string());
    let headers = codex_extra_headers(&credentials, Some("thread-123"));
    for name in ["session-id", "thread-id"] {
        assert!(headers.contains(&(name.to_string(), "thread-123".to_string())));
    }
    let mut request = ResponsesRequest {
        store: None,
        instructions: None,
        context_management: Some(100_000),
        input: vec!["Hello"],
    };
    request.seal();
    request.ask_for_compaction("compaction_trigger");
    assert_eq!(request.context_management, None);
    assert_eq!(request.input.last(), Some(&"compaction_trigger"));
    assert_eq!(request.store, Some(false));
    assert_eq!(request.instructions.as_deref(), Some(""));

    let mut compaction = Compaction::new(0);
    compaction.accept(CompactionEvent::Other).expect("event");
    compaction.accept(CompactionEvent::Finished("opaque-state")).expect("event");
    compaction.accept(CompactionEvent::Usage(12)).expect("event");
    assert_eq!(compaction.finish(), Ok(("opaque-state", 12)));
}

#[test]
fn test_server_side_compaction_streams_from_codex_responses() {
    let mut credentials = make_fresh_credentials();
    credentials.account_id = Some("account-123".to_string());
    let headers = codex_extra_headers(&credentials, Some("thread-123"));
    for (name, value) in [
        ("chatgpt-account-id", "account-123"),
        ("session-id", "thread-123"),
        ("thread-id", "thread-123"),
    ] {
        assert!(headers.contains(&(name.to_string(), value.to_string())));
    }
    assert_eq!(
        openai_subscribed::requests::authorization(&credentials),
        "Bearer fresh_access"
    );
    let mut request = ResponsesRequest {
        store: None,
        instructions: Some("Be brief".to_string()),
        context_management: Some(100_000),
        input: vec!["Hello"],
    };
    request.seal();
    assert_eq!(request.context_management, Some(100_000));
    assert_eq!(request.instructions.as_deref(), Some("Be brief"));
    let model = create_language_model(ChatGptModel::Gpt55);
    assert!(model.supports_server_side_compaction());
    assert!(model.supports_explicit_compaction());
}

#[test]
fn test_cancel_sign_in_drops_pending_task() {
    let mut state: State<std::rc::Rc<()>> = State::new(std::rc::Rc::new(()));
    let task = std::rc::Rc::new(());
    state.sign_in_state = SignInState::Authorizing(task.clone());
    assert!(state.is_signing_in());
    state.cancel_sign_in();
    assert!(!state.is_signing_in());
    assert_eq!(std::rc::Rc::strong_count(&task), 1, "canceling sign-in should drop the task");
}

#[test]
fn test_sign_in_task_remains_alive_while_persisting_credentials() {
    let mut state: State<std::rc::Rc<()>> = State::new(std::rc::Rc::new(()));
    let task = std::rc::Rc::new(());
    state.sign_in_state = SignInState::Authorizing(task.clone());
    state.begin_persisting_credentials();
    assert!(state.is_signing_in());
    assert!(!state.is_sign_in_cancellable());
    state.cancel_sign_in();
    assert!(state.is_signing_in());
    assert_eq!(
        std::rc::Rc::strong_count(&task),
        2,
        "sign-in task should still be persisting credentials"
    );
    state.sign_in_state = SignInState::Idle;
    assert!(!state.is_signing_in());
}
