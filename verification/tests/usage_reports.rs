use chrono::TimeZone as _;
use openai_subscribed::credentials::{CodexCredentials, TokenResponse};
use openai_subscribed::json::Json;
use openai_subscribed::oauth::{refresh_outcome, retries_refresh};
use openai_subscribed::refresh::CredentialsSource;
use openai_subscribed::requests::{authorization, codex_extra_headers};
use openai_subscribed::state::State;
use openai_subscribed::time::{now_ms, Timestamp};
use openai_subscribed::usage::{
    optional_display_text, reset_time, window_label, AccountUsage, AdditionalRateLimit, Credits,
    IndividualLimit, Percent, QuotaWindow, RateLimit, ReportedPercent, SpendControl, UsageBucket,
    UsageResponse, UsageWindow,
};
use openai_subscribed::usage_fetch::{FetchAction, FetchEvent, UsageFetch, USAGE_TIMEOUT_MESSAGE};
use openai_subscribed::usage_menu::MenuItem;
use openai_subscribed::usage_view::{
    bucket_status, countdown_of, meter, remaining_label, reset_date, reset_label, reset_label_at,
    reset_label_on, usage_error_label, AccountUsageView, Tone,
};

fn stated(value: f64) -> ReportedPercent {
    let rounded: f64 = format!("{value:.0}").parse().expect("number");
    ReportedPercent { bits: value.to_bits(), rounded: rounded as i64 }
}

fn percent(value: f64) -> Percent {
    stated(value).shown().expect("percentage")
}

fn used(value: f64) -> Option<ReportedPercent> {
    Some(stated(100.0 - value))
}

fn left(percent: &Option<Percent>) -> Option<f64> {
    percent.as_ref().map(|percent| f64::from_bits(percent.bits()))
}

fn window(remaining: Option<ReportedPercent>, limit_window_seconds: u64) -> UsageWindow {
    UsageWindow {
        remaining,
        limit_window_seconds: Some(limit_window_seconds),
        reset_after_seconds: None,
        reset_at: None,
    }
}

fn limit(allowed: Option<bool>, limit_reached: Option<bool>) -> RateLimit {
    RateLimit { allowed, limit_reached, ..RateLimit::default() }
}

fn at(seconds: i64) -> Timestamp {
    Timestamp::new(seconds, 0).expect("moment")
}

#[test]
fn normalizes_both_windows_and_server_clock() {
    let response = UsageResponse {
        plan_type: Some("pro".into()),
        rate_limit: Some(RateLimit {
            allowed: Some(true),
            limit_reached: Some(false),
            primary_window: Some(UsageWindow {
                reset_after_seconds: Some(7200),
                reset_at: Some(123),
                ..window(used(25.0), 18000)
            }),
            secondary_window: Some(UsageWindow {
                reset_after_seconds: Some(432000),
                ..window(used(9.0), 604800)
            }),
        }),
        ..UsageResponse::default()
    };
    let fetched_at = at(1000);
    let usage = response.normalize(fetched_at);
    let included = usage.buckets.first().expect("included");
    assert_eq!(included.allowed, Some(true));
    assert_eq!(included.windows.len(), 2);
    let primary = included.windows.first().expect("primary");
    assert_eq!(primary.label, "5h");
    assert_eq!(left(&primary.remaining_percent), Some(75.));
    assert_eq!(primary.resets_at, fetched_at.checked_add(7200));
    let secondary = included.windows.get(1).expect("secondary");
    assert_eq!(secondary.label, "Weekly");
    assert_eq!(left(&secondary.remaining_percent), Some(91.));
}

#[test]
fn free_and_missing_windows_are_not_unlimited() {
    for response in [
        UsageResponse {
            plan_type: Some("free".into()),
            rate_limit: Some(RateLimit {
                primary_window: Some(window(used(60.0), 604800)),
                ..RateLimit::default()
            }),
            ..UsageResponse::default()
        },
        UsageResponse::default(),
    ] {
        let usage = response.normalize(Timestamp::epoch());
        let included = usage.buckets.first().expect("included");
        assert_eq!(included.allowed, None);
        if usage.plan.as_deref() == Some("free") {
            assert_eq!(included.windows.len(), 1);
            assert_eq!(included.windows.first().expect("weekly").label, "Weekly");
            assert_eq!(
                left(&included.windows.first().expect("weekly").remaining_percent),
                Some(40.)
            );
        } else {
            assert!(included.windows.is_empty());
        }
    }
}

#[test]
fn clamps_percentages_and_preserves_unknown_values() {
    for (given, remaining) in
        [(Some(-20.), Some(100.)), (Some(120.), Some(0.)), (None, None)]
    {
        let bucket = RateLimit {
            primary_window: Some(UsageWindow {
                remaining: given.and_then(used),
                ..UsageWindow::default()
            }),
            ..RateLimit::default()
        }
        .normalize("Included".into(), Timestamp::epoch());
        assert_eq!(left(&bucket.windows.first().expect("window").remaining_percent), remaining);
    }
}

#[test]
fn preserves_flags_credits_and_extra_buckets() {
    let usage = UsageResponse {
        rate_limit: Some(RateLimit {
            allowed: Some(false),
            limit_reached: Some(true),
            primary_window: Some(window(used(25.0), 18000)),
            secondary_window: Some(window(used(100.0), 604800)),
        }),
        credits: Some(Credits {
            has_credits: Some(true),
            unlimited: None,
            overage_limit_reached: Some(true),
            balance: Some("766.76".into()),
        }),
        additional_rate_limits: Some(vec![AdditionalRateLimit {
            limit_name: Some("Premium".into()),
            metered_feature: Some("premium".into()),
            rate_limit: Some(limit(Some(false), Some(true))),
        }]),
        spend_control: Some(SpendControl {
            reached: Some(true),
            individual_limit: Some(IndividualLimit {
                remaining: Some("17000".into()),
                limit: Some("25000".into()),
                remaining_percent: Some(stated(68.0)),
                remaining_by_use: None,
                reset_after_seconds: Some(86400),
                reset_at: None,
            }),
        }),
        rate_limit_reset_credits: Some(2),
        ..UsageResponse::default()
    }
    .normalize(Timestamp::epoch());
    let included = usage.buckets.first().expect("included");
    assert_eq!(included.allowed, Some(false));
    assert_eq!(included.limit_reached, Some(true));
    assert_eq!(left(&included.windows.first().expect("primary").remaining_percent), Some(75.));
    assert_eq!(left(&included.windows.get(1).expect("weekly").remaining_percent), Some(0.));
    let premium = usage.buckets.get(1).expect("premium");
    assert_eq!(premium.name, "Premium");
    assert_eq!(premium.limit_reached, Some(true));
    assert!(premium.windows.is_empty());
    assert!(usage.warnings.iter().any(|warning| warning.contains("Monthly spend cap")));
    assert!(usage.warnings.iter().any(|warning| warning.contains("Purchased-credit cap")));
    assert!(usage.details.iter().any(|detail| detail.contains("766.76")));
    assert!(usage.details.iter().any(|detail| detail == "Available usage resets: 2"));
    let monthly = usage.buckets.get(2).expect("monthly");
    assert_eq!(left(&monthly.windows.first().expect("limit").remaining_percent), Some(68.));
    assert_eq!(monthly.allowed, Some(false));
    assert_eq!(monthly.windows[0].resets_at, Some(at(86400)));
}

#[test]
fn evolving_display_metadata_does_not_hide_usage() {
    for metadata in [
        r#"{"type": "weekly", "details": {"limit": "reached"}}"#,
        r#"["weekly"]"#,
        "null",
    ] {
        let metadata = || optional_display_text(&Json::parse(metadata).expect("document"));
        let usage = UsageResponse {
            plan_type: metadata(),
            rate_limit_reached_type: metadata(),
            rate_limit: Some(RateLimit {
                primary_window: Some(window(used(25.0), 18000)),
                ..limit(Some(false), Some(true))
            }),
            additional_rate_limits: Some(vec![AdditionalRateLimit {
                limit_name: metadata(),
                metered_feature: metadata(),
                rate_limit: Some(limit(Some(false), Some(true))),
            }]),
            credits: Some(Credits {
                has_credits: None,
                unlimited: None,
                overage_limit_reached: None,
                balance: metadata(),
            }),
            spend_control: Some(SpendControl {
                reached: Some(true),
                individual_limit: Some(IndividualLimit {
                    remaining: metadata(),
                    limit: metadata(),
                    remaining_percent: None,
                    remaining_by_use: None,
                    reset_after_seconds: None,
                    reset_at: None,
                }),
            }),
            ..UsageResponse::default()
        }
        .normalize(Timestamp::epoch());
        let included = usage.buckets.first().expect("included");
        assert_eq!(included.allowed, Some(false));
        assert_eq!(included.limit_reached, Some(true));
        assert_eq!(
            left(&included.windows.first().expect("window").remaining_percent),
            Some(75.)
        );
        assert_eq!(usage.buckets.get(1).expect("additional").name, "Additional usage");
        assert!(usage.warnings.iter().any(|warning| warning == "Monthly spend cap reached"));
        assert_eq!(
            usage.details,
            ["Purchased-credit availability: unknown", "Purchased credits: unknown"]
        );
    }
}

#[test]
fn display_metadata_accepts_strings_and_numeric_credit_amounts() {
    let metadata = |document: &str| optional_display_text(&Json::parse(document).expect("document"));
    let usage = UsageResponse {
        plan_type: metadata("\"pro\""),
        rate_limit_reached_type: metadata("\"weekly\""),
        credits: Some(Credits {
            has_credits: None,
            unlimited: None,
            overage_limit_reached: None,
            balance: metadata("766.76"),
        }),
        spend_control: Some(SpendControl {
            reached: None,
            individual_limit: Some(IndividualLimit {
                remaining: metadata("17000"),
                limit: metadata("\"25000\""),
                remaining_percent: None,
                remaining_by_use: None,
                reset_after_seconds: None,
                reset_at: None,
            }),
        }),
        ..UsageResponse::default()
    }
    .normalize(Timestamp::epoch());
    assert_eq!(usage.plan.as_deref(), Some("pro"));
    for detail in [
        "Limiter: weekly",
        "Purchased credits: 766.76",
        "Monthly credits remaining: 17000",
        "Monthly credit allowance: 25000",
    ] {
        assert!(usage.details.iter().any(|value| value == detail));
    }
}

#[test]
fn credits_are_described() {
    let details = |unlimited: Option<bool>, has_credits: Option<bool>, balance: Option<&str>| {
        UsageResponse {
            credits: Some(Credits {
                has_credits,
                unlimited,
                overage_limit_reached: None,
                balance: balance.map(str::to_owned),
            }),
            ..UsageResponse::default()
        }
        .normalize(Timestamp::epoch())
        .details
    };
    assert_eq!(
        details(Some(true), Some(false), Some("5")),
        ["Purchased-credit availability: unlimited", "Purchased credits: unlimited"]
    );
    assert_eq!(
        details(Some(false), Some(true), None),
        [
            "Purchased-credit availability: available",
            "Purchased credits available; balance unknown",
        ]
    );
    assert_eq!(
        details(None, Some(false), None),
        ["Purchased-credit availability: unavailable", "No purchased credits available"]
    );
}

#[test]
fn monthly_percentages_prefer_what_is_stated() {
    let remaining = |given: Option<ReportedPercent>, by_use: Option<ReportedPercent>| {
        let usage = UsageResponse {
            spend_control: Some(SpendControl {
                reached: None,
                individual_limit: Some(IndividualLimit {
                    remaining: None,
                    limit: None,
                    remaining_percent: given,
                    remaining_by_use: by_use,
                    reset_after_seconds: None,
                    reset_at: None,
                }),
            }),
            ..UsageResponse::default()
        }
        .normalize(Timestamp::epoch());
        left(&usage.buckets[1].windows[0].remaining_percent)
    };
    assert_eq!(remaining(Some(stated(5.0)), Some(stated(9.0))), Some(5.0));
    assert_eq!(remaining(Some(stated(f64::NAN)), Some(stated(9.0))), None);
    assert_eq!(remaining(None, Some(stated(9.0))), Some(9.0));
    assert_eq!(remaining(None, Some(stated(-9.0))), Some(0.0));
    assert_eq!(remaining(None, None), None);
}

#[test]
fn percentages_are_brought_into_range() {
    for value in [
        -1e300, -20.0, -0.5, -f64::MIN_POSITIVE, 0.0, 5e-324, 0.5, 9.5, 10.0, 10.000001, 42.4, 99.5,
        100.0, 100.00001, 120.0, 1e300,
    ] {
        let shown = percent(value);
        let clamped = value.clamp(0.0, 100.0);
        assert_eq!(shown.bits(), clamped.to_bits(), "{value}");
        assert_eq!(shown.text(), format!("{clamped:.0}"), "{value}");
        assert_eq!(format!("{}", shown.rounded()), format!("{clamped:.0}"), "{value}");
        assert_eq!(shown.is_low(), clamped <= 10.0, "{value}");
    }
    for value in [f64::NAN, -f64::NAN, f64::INFINITY, f64::NEG_INFINITY] {
        assert!(stated(value).shown().is_none());
    }
    let below = percent(-0.0);
    assert_eq!(below.text(), format!("{:.0}", -0.0));
    assert!(below.is_low());
    assert_eq!(below.bits(), (-0.0_f64).to_bits());
}

#[test]
fn windows_are_named_by_their_length() {
    for (seconds, label) in [
        (Some(604800), "Weekly"),
        (Some(86400), "1d"),
        (Some(1209600), "14d"),
        (Some(18000), "5h"),
        (Some(90), "90s"),
        (Some(120), "2m"),
        (Some(0), "Window"),
        (None, "Window"),
    ] {
        assert_eq!(window_label(seconds), label);
    }
}

#[test]
fn relative_resets_are_preferred() {
    assert_eq!(reset_time(Some(5), Some(7), at(10)), Some(at(17)));
    assert_eq!(reset_time(Some(5), None, at(10)), Some(at(5)));
    assert_eq!(reset_time(Some(5), Some(u64::MAX), at(10)), Some(at(5)));
    assert_eq!(reset_time(Some(u64::MAX), None, at(10)), None);
    assert_eq!(reset_time(None, None, at(10)), None);
}

#[test]
fn availability_flags_override_remaining_percentages() {
    let mut bucket = UsageBucket {
        name: "Included usage".into(),
        allowed: Some(true),
        limit_reached: Some(false),
        windows: vec![QuotaWindow {
            label: "5h".into(),
            remaining_percent: Some(percent(75.)),
            resets_at: None,
        }],
    };
    assert_eq!(bucket_status(&bucket), None);
    bucket.allowed = None;
    assert_eq!(bucket_status(&bucket), Some("Availability unknown"));
    bucket.allowed = Some(false);
    assert_eq!(bucket_status(&bucket), Some("Included usage unavailable"));
    bucket.limit_reached = Some(true);
    assert_eq!(bucket_status(&bucket), Some("Included quota exhausted"));
    assert_eq!(remaining_label(bucket.windows.first().expect("window")), "5h: 75% left");
    bucket.name = "Premium".into();
    assert_eq!(bucket_status(&bucket), Some("Quota exhausted"));
    bucket.limit_reached = None;
    assert_eq!(bucket_status(&bucket), Some("Usage currently unavailable"));
}

#[test]
fn reset_date_uses_local_time_and_keeps_countdown() {
    let reset = chrono::Local
        .with_ymd_and_hms(2026, 9, 19, 1, 0, 0)
        .single()
        .expect("local date")
        .timestamp();
    let window = QuotaWindow {
        label: "Weekly".into(),
        remaining_percent: Some(percent(0.)),
        resets_at: Some(at(reset)),
    };
    assert_eq!(
        reset_label_at(&window, at(reset - (5 * 86400 + 3600))).as_deref(),
        Some("Resets on 9/19/2026 at 1:00AM (5d 1h)")
    );
}

#[test]
fn dates_follow_their_resets() {
    for (day, expected) in [(19, "Resets on 9/19/2026 at 1:05PM (1m)"), (20, "Resets on 9/20/2026 at 1:05PM (1m)")] {
        let reset = chrono::Local
            .with_ymd_and_hms(2026, 9, day, 13, 5, 0)
            .single()
            .expect("local date")
            .timestamp();
        let window = QuotaWindow {
            label: "Weekly".into(),
            remaining_percent: None,
            resets_at: Some(at(reset)),
        };
        assert_eq!(reset_label_at(&window, at(reset)).as_deref(), Some(expected));
        let date = reset_date(&window).expect("date");
        assert_eq!(format!("Resets on {date} (1m)"), expected);
    }
}

#[test]
fn usage_errors_hide_raw_request_details() {
    for (error, expected) in [
        (
            "error sending request for url (https://chatgpt.com/backend-api/wham/usage): client error (Connect): operation timed out",
            "connection error",
        ),
        ("ChatGPT usage request timed out", "request timed out"),
        (
            "Could not load ChatGPT account usage (HTTP 401 Unauthorized)",
            "sign-in required",
        ),
        (
            "Could not load ChatGPT account usage (HTTP 429 Too Many Requests)",
            "too many requests",
        ),
        (
            "Invalid ChatGPT usage response: private details",
            "invalid response",
        ),
        ("unexpected private details", "could not refresh"),
    ] {
        assert_eq!(usage_error_label(error), expected);
    }
    assert_eq!(usage_error_label("HTTP 403 Forbidden"), "access denied");
}

#[test]
fn absent_percentage_and_passed_reset_do_not_show_full_quota() {
    let window = QuotaWindow {
        label: "Weekly".into(),
        remaining_percent: None,
        resets_at: Some(Timestamp::epoch()),
    };
    assert_eq!(remaining_label(&window), "Weekly: unavailable");
    assert_eq!(reset_label(&window).as_deref(), Some("Reset time passed; refresh to update"));
}

#[test]
fn countdowns_use_two_units() {
    for (seconds, shown) in [
        (0, "1m"),
        (60, "1m"),
        (61, "2m"),
        (3_540, "59m"),
        (3_541, "1h 0m"),
        (86_399, "1d 0h"),
        (90_000, "1d 1h"),
    ] {
        assert_eq!(countdown_of(seconds), shown);
    }
}

#[test]
fn resets_without_a_date_are_not_shown() {
    let shown = |seconds: i64, now: i64| {
        let window = QuotaWindow {
            label: "5h".into(),
            remaining_percent: None,
            resets_at: Some(at(seconds)),
        };
        reset_label_at(&window, at(now))
    };
    assert!(shown(8_210_266_876_799, 0).is_some());
    assert_eq!(shown(8_210_266_876_800, 0), None);
    assert_eq!(shown(-5, -10), None);
    let never = QuotaWindow { label: "5h".into(), remaining_percent: None, resets_at: None };
    assert_eq!(reset_label(&never), None);
    let soon = QuotaWindow { label: "5h".into(), remaining_percent: None, resets_at: Some(at(60)) };
    assert_eq!(
        reset_label_on(&soon, at(0), &Some("then".to_string())).as_deref(),
        Some("Resets on then (1m)")
    );
}

#[test]
fn meters_are_colored_by_what_is_left() {
    let of = |remaining: Option<f64>| QuotaWindow {
        label: "5h".into(),
        remaining_percent: remaining.map(percent),
        resets_at: None,
    };
    assert_eq!(meter(&of(Some(10.0)), false, true).tone, Tone::Warning);
    assert_eq!(meter(&of(Some(10.5)), false, true).tone, Tone::Info);
    assert_eq!(meter(&of(Some(10.0)), true, true).tone, Tone::Muted);
    assert_eq!(meter(&of(Some(42.4)), false, true).label, "42%");
    assert_eq!(meter(&of(Some(42.4)), false, false).label, "5h: 42% left");
    assert_eq!(meter(&of(None), false, true).label, "—");
    assert_eq!(meter(&of(None), false, true).bar, None);
    assert_eq!(meter(&of(Some(42.4)), false, true).bar, Some(42.4_f64.to_bits()));
}

fn sample() -> AccountUsage {
    UsageResponse {
        plan_type: Some("pro".into()),
        rate_limit: Some(RateLimit {
            allowed: Some(true),
            limit_reached: Some(false),
            primary_window: Some(UsageWindow {
                reset_after_seconds: Some(60),
                ..window(used(25.0), 18000)
            }),
            secondary_window: None,
        }),
        code_review_rate_limit: Some(limit(Some(false), None)),
        ..UsageResponse::default()
    }
    .normalize(at(1000))
}

#[test]
fn the_button_shows_what_matters() {
    let mut view = AccountUsageView::new();
    let empty = view.button(at(0));
    assert!(empty.dash && !empty.warning && !empty.stale);
    assert_eq!(empty.tooltip, "Selected account usage\nRefreshing usage…");
    view.finish_refresh(Ok(sample()));
    let button = view.button(at(1120));
    assert!(button.warning && !button.stale && !button.dash);
    assert_eq!(button.meters.len(), 1);
    assert_eq!(button.meters[0].label, "75%");
    assert_eq!(button.meters[0].tone, Tone::Muted);
    assert_eq!(
        button.tooltip,
        "Selected account usage\n5h: 75% left\nCode review: unavailable"
    );
    assert!(view.button(at(1121)).stale);
    assert!(!view.button(at(900)).stale);
    assert!(!view.refresh_if_due());
    view.mark_due();
    assert!(view.refresh_if_due());
    assert!(view.loading && !view.refresh_due);
    view.finish_refresh(Err("HTTP 429".to_string()));
    assert_eq!(view.error.as_deref(), Some("too many requests"));
    assert!(view.usage.is_some());
    assert!(view.button(at(1000)).stale);
    view.finish_refresh(Ok(sample()));
    assert_eq!(view.error, None);
}

#[test]
fn the_menu_shows_everything() {
    let mut view = AccountUsageView::new();
    view.finish_refresh(Ok(sample()));
    view.error = Some("too many requests".to_string());
    let dates = vec![vec![Some("then".to_string())], Vec::new()];
    let lines: Vec<String> = view
        .menu_on(false, at(1003), &dates)
        .into_iter()
        .map(|item| match item {
            MenuItem::Separator => "--".to_string(),
            MenuItem::Header(content) => format!("# {content}"),
            MenuItem::Label(content) => content,
            MenuItem::Meter(meter) => format!("[{}]", meter.label),
            MenuItem::Refresh(content) => format!("> {content}"),
        })
        .collect();
    assert_eq!(
        lines,
        [
            "# ChatGPT account usage",
            "Usage unavailable: too many requests",
            "Plan: pro",
            "Updated 3 seconds ago",
            "--",
            "# Included usage",
            "[5h: 75% left]",
            "Resets on then (1m)",
            "--",
            "# Code review",
            "Usage currently unavailable",
            "Window data unavailable",
            "--",
            "Included quota and purchased credits are separate.",
            "Usage may lag recent requests. Extra buckets have their own limits.",
            "--",
            "> Refresh usage",
        ]
    );
    assert_eq!(view.menu(true, at(1003)).len(), lines.len());
    let none = AccountUsageView::new();
    assert_eq!(none.menu(false, at(0)).len(), 3);
}

type Task = u32;

fn make_state() -> State<Task> {
    let mut state = State::new(0);
    state.auth_generation = 1;
    for id in ["first", "second"] {
        state.accounts.insert(CodexCredentials {
            access_token: format!("{id}_token"),
            refresh_token: format!("{id}_refresh"),
            account_id: Some(id.into()),
            email: None,
            expires_at_ms: u64::MAX,
            scopes: Vec::new(),
        });
    }
    state
}

type Answer = Result<(u16, UsageResponse), String>;
type Call = (String, String, String);

struct Service<'a> {
    calls: Vec<Call>,
    token_status: u16,
    answer: &'a mut dyn FnMut(usize, &str) -> Answer,
}

fn account_credentials(
    state: &mut State<Task>,
    id: &str,
    rejected: Option<&str>,
    service: &mut Service,
) -> Result<CodexCredentials, String> {
    let used = match state.credentials_source(id, rejected) {
        CredentialsSource::Ready(credentials) => return Ok(credentials),
        CredentialsSource::Renew(credentials) => credentials,
        _ => return Err("no credentials".to_string()),
    };
    service.calls.push(("/oauth/token".into(), String::new(), String::new()));
    let tokens = TokenResponse {
        scope: None,
        access_token: "fresh".into(),
        refresh_token: "fresh_refresh".into(),
        id_token: None,
        expires_in: 3600,
        email: None,
    };
    let result = refresh_outcome(service.token_status, "invalid_grant", Ok(tokens), now_ms());
    assert!(!retries_refresh(&result, false));
    state.finish_refresh(id, &used, result).0
}

fn fetch(state: &mut State<Task>, id: &str, service: &mut Service) -> Result<AccountUsage, String> {
    let generation = state.auth_generation;
    let mut fetch = UsageFetch::new();
    let mut event = FetchEvent::Credentials(account_credentials(state, id, None, service));
    let mut read = None;
    let result = loop {
        event = match fetch.step(event) {
            FetchAction::Refresh { rejected } => {
                FetchEvent::Credentials(account_credentials(state, id, Some(&rejected), service))
            }
            FetchAction::Send { credentials } => {
                let account = codex_extra_headers(&credentials, None)
                    .into_iter()
                    .find(|(name, _)| name == "chatgpt-account-id")
                    .expect("account header")
                    .1;
                let token = authorization(&credentials);
                let count = service.calls.len();
                service.calls.push(("/backend-api/wham/usage".into(), token.clone(), account));
                match (service.answer)(count, &token) {
                    Ok((status, response)) => {
                        read = Some(response);
                        FetchEvent::Answered { status, body: String::new() }
                    }
                    Err(message) => FetchEvent::Unanswered(message),
                }
            }
            FetchAction::Wait => FetchEvent::Waited,
            FetchAction::Read { .. } => {
                FetchEvent::Read(Ok(read.take().expect("answer")), Timestamp::now())
            }
            FetchAction::Done(usage) => break Ok(usage),
            FetchAction::Fail(message) => break Err(message),
        };
    };
    state.usage_result(generation, id, result)
}

fn of_account(id: &str) -> UsageResponse {
    UsageResponse {
        account_id: Some(id.into()),
        rate_limit: Some(limit(Some(true), None)),
        ..UsageResponse::default()
    }
}

#[test]
fn refreshes_selected_account_once_and_coalesces_requests() {
    let mut state = make_state();
    let mut answer = |_: usize, token: &str| -> Answer {
        if token == "Bearer first_token" {
            Ok((401, UsageResponse::default()))
        } else {
            let mut response = of_account("first");
            response.rate_limit = Some(RateLimit {
                primary_window: Some(window(used(12.0), 18000)),
                ..limit(Some(true), None)
            });
            Ok((200, response))
        }
    };
    let mut service = Service { calls: Vec::new(), token_status: 200, answer: &mut answer };
    assert_eq!(state.usage_to_join("first", true, false, 0), None);
    state.keep_usage_request("first".to_string(), 8, 0);
    assert_eq!(state.usage_to_join("first", false, true, 0), Some(&8));
    assert_eq!(state.usage_to_join("second", false, true, 0), None);
    fetch(&mut state, "first", &mut service).expect("first result");
    assert_eq!(state.usage_to_join("first", true, false, 59_999_999_999), Some(&8));
    assert_eq!(
        service.calls,
        vec![
            (
                "/backend-api/wham/usage".to_string(),
                "Bearer first_token".to_string(),
                "first".to_string()
            ),
            ("/oauth/token".to_string(), String::new(), String::new()),
            (
                "/backend-api/wham/usage".to_string(),
                "Bearer fresh".to_string(),
                "first".to_string()
            ),
        ]
    );
    assert_eq!(state.usage_to_join("first", true, false, 60_000_000_000), None);
    assert_eq!(state.usage_to_join("first", true, true, 0), None);
    fetch(&mut state, "first", &mut service).expect("refresh result");
    assert_eq!(service.calls.len(), 4);
}

#[test]
fn retries_transient_usage_failures_once_on_the_same_account() {
    for failure in ["connection", "server", "persistent"] {
        let mut state = make_state();
        let mut answer = |count: usize, token: &str| -> Answer {
            assert_eq!(token, "Bearer first_token");
            if failure == "persistent" || (count == 0 && failure == "connection") {
                return Err("connection timed out".to_string());
            }
            Ok((if count == 0 { 503 } else { 200 }, of_account("first")))
        };
        let mut service = Service { calls: Vec::new(), token_status: 200, answer: &mut answer };
        let result = fetch(&mut state, "first", &mut service);
        assert_eq!(result.is_ok(), failure != "persistent");
        assert_eq!(service.calls.len(), 2);
        assert!(service.calls.iter().all(|(path, _, account)| {
            path == "/backend-api/wham/usage" && account == "first"
        }));
    }
}

#[test]
fn usage_errors_do_not_fail_over_or_disable_completion_scopes() {
    for status in [401, 403, 429] {
        let mut state = make_state();
        let mut answer = |_: usize, _: &str| -> Answer { Ok((status, UsageResponse::default())) };
        let mut service = Service { calls: Vec::new(), token_status: 400, answer: &mut answer };
        let result = fetch(&mut state, "first", &mut service);
        assert!(result.is_err());
        assert_eq!(service.calls.len(), if status == 401 { 2 } else { 1 });
        assert!(service.calls.iter().all(|(_, _, account)| account != "second"));
        assert!(state
            .accounts
            .accounts
            .get("first")
            .expect("first")
            .blocked_models
            .is_empty());
        if status == 429 {
            assert_eq!(
                result.err().as_deref(),
                Some("Could not load ChatGPT account usage (HTTP 429 Too Many Requests)")
            );
        }
    }
}

#[test]
fn rejects_mismatched_account_and_times_out() {
    let mut state = make_state();
    let mut answer = |_: usize, _: &str| -> Answer { Ok((200, of_account("second"))) };
    let mut service = Service { calls: Vec::new(), token_status: 200, answer: &mut answer };
    assert!(fetch(&mut state, "first", &mut service)
        .expect_err("wrong account")
        .contains("different account"));
    let mut answer = |_: usize, _: &str| -> Answer { Err(USAGE_TIMEOUT_MESSAGE.to_string()) };
    let mut service = Service { calls: Vec::new(), token_status: 200, answer: &mut answer };
    assert!(fetch(&mut state, "first", &mut service)
        .expect_err("timeout")
        .contains("timed out"));
}

#[test]
fn unreadable_usage_is_an_error() {
    let mut fetch = UsageFetch::new();
    let credentials = make_state()
        .accounts
        .accounts
        .get("first")
        .expect("first")
        .credentials
        .clone()
        .expect("credentials");
    fetch.step(FetchEvent::Credentials(Ok(credentials)));
    match fetch.step(FetchEvent::Answered { status: 200, body: "odd".to_string() }) {
        FetchAction::Read { body } => assert_eq!(body, "odd"),
        _ => panic!("the answer is read"),
    }
    match fetch.step(FetchEvent::Read(Err("odd".to_string()), at(0))) {
        FetchAction::Fail(message) => assert_eq!(message, "Invalid ChatGPT usage response: odd"),
        _ => panic!("an error"),
    }
}

#[test]
fn sign_out_discards_pending_usage() {
    let mut state = make_state();
    let generation = state.auth_generation;
    state.keep_usage_request("first".to_string(), 8, 0);
    state.sign_out();
    assert_eq!(state.usage_to_join("first", false, false, 0), None);
    let usage = of_account("first").normalize(at(0));
    assert!(state
        .usage_result(generation, "first", Ok(usage))
        .expect_err("discard response")
        .contains("Account changed"));
}
