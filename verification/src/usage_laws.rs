//! What holds of the usage of an account, from the service's report to the quotas that are shown.
use crate::credentials::CodexCredentials;
use crate::encoding;
use crate::json::Json;
use crate::state::State;
use crate::text;
use crate::time;
use crate::time::Timestamp;
use crate::usage;
use crate::usage::{
    AccountUsage, Percent, QuotaWindow, RateLimit, ReportedPercent, UsageBucket, UsageResponse,
    UsageWindow,
};
use crate::usage_fetch::{FetchAction, FetchEvent, FetchPhase, UsageFetch};
use vstd::prelude::*;
use vstd::string::*;

verus! {

/// The moment, if there is one.
pub open spec fn moment_of(at: Option<Timestamp>) -> Option<int> {
    match at {
        Some(at) => Some(at@),
        None => None,
    }
}

/// A quota shows what is reported of it: its own length, percentage and reset.
pub open spec fn shows(shown: QuotaWindow, window: UsageWindow, at: Timestamp) -> bool {
    &&& shown.label@ == usage::label_of_window(window.limit_window_seconds)
    &&& match window.remaining {
        Some(reported) => shown.remaining_percent.deep_view() == usage::shown_percent(reported),
        None => shown.remaining_percent is None,
    }
    &&& moment_of(shown.resets_at) == usage::reset_moment(
        window.reset_at,
        window.reset_after_seconds,
        at@,
    )
}

/// A kind of use shows what is reported of it: its flags, and one quota for each of the two that
/// may be reported, the first one first.
pub open spec fn bucket_shows(
    bucket: UsageBucket,
    name: Seq<char>,
    limit: RateLimit,
    at: Timestamp,
) -> bool {
    &&& bucket.name@ == name
    &&& bucket.allowed == limit.allowed
    &&& bucket.limit_reached == limit.limit_reached
    &&& match (limit.primary_window, limit.secondary_window) {
        (Some(first), Some(second)) => bucket.windows@.len() == 2 && shows(
            bucket.windows@[0],
            first,
            at,
        ) && shows(bucket.windows@[1], second, at),
        (Some(first), None) => bucket.windows@.len() == 1 && shows(bucket.windows@[0], first, at),
        (None, Some(second)) => bucket.windows@.len() == 1 && shows(
            bucket.windows@[0],
            second,
            at,
        ),
        (None, None) => bucket.windows@.len() == 0,
    }
}

/// A kind of use of which nothing is reported shows neither flags nor quotas.
pub open spec fn shows_nothing(bucket: UsageBucket, name: Seq<char>) -> bool {
    bucket.name@ == name && bucket.allowed is None && bucket.limit_reached is None
        && bucket.windows@.len() == 0
}

proof fn lemma_bucket(bucket: UsageBucket, limit: RateLimit, name: Seq<char>, at: Timestamp)
    requires
        bucket.deep_view() == usage::normal_bucket(limit, name, at@),
    ensures
        bucket_shows(bucket, name, limit, at),
{
    let windows = bucket.windows.deep_view();
    assert(windows.len() == bucket.windows@.len());
    let first = usage::normal_windows(limit.primary_window, at@);
    let second = usage::normal_windows(limit.secondary_window, at@);
    assert(windows == first + second);
    assert forall|i: int| 0 <= i < windows.len() implies windows[i]
        == bucket.windows@[i].deep_view() by {}
    if windows.len() > 0 {
        assert(windows[0] == bucket.windows@[0].deep_view());
        assert(windows[windows.len() - 1] == bucket.windows@[windows.len() - 1].deep_view());
    }
}

/// The quotas of one kind of use are shown as they are reported.
pub proof fn reported_quotas_are_shown(
    limit: RateLimit,
    name: String,
    at: Timestamp,
    bucket: UsageBucket,
)
    requires
        call_ensures(RateLimit::normalize, (limit, name, at), bucket),
    ensures
        bucket_shows(bucket, name@, limit, at),
{
    lemma_bucket(bucket, limit, name@, at);
}

/// The usage shows the quotas that are included in the plan first, those for code review second if
/// they are reported, and then every further kind of use in the order of the report, each under its
/// own name and with its own flags and quotas.
pub proof fn every_reported_limit_is_shown(
    response: UsageResponse,
    at: Timestamp,
    shown: AccountUsage,
    k: int,
)
    requires
        call_ensures(UsageResponse::normalize, (response, at), shown),
    ensures
        shown.buckets@.len() > 0,
        response.rate_limit matches Some(limit) ==> bucket_shows(
            shown.buckets@[0],
            "Included usage"@,
            limit,
            at,
        ),
        response.rate_limit is None ==> shows_nothing(shown.buckets@[0], "Included usage"@),
        response.code_review_rate_limit matches Some(limit) ==> shown.buckets@.len() > 1
            && bucket_shows(shown.buckets@[1], "Code review"@, limit, at),
        response.additional_rate_limits matches Some(limits) ==> 0 <= k < limits@.len() ==> ({
            let place = k + (if response.code_review_rate_limit is Some {
                2int
            } else {
                1int
            });
            let name = match limits@[k].limit_name {
                Some(name) => name@,
                None => match limits@[k].metered_feature {
                    Some(name) => name@,
                    None => "Additional usage"@,
                },
            };
            &&& place < shown.buckets@.len()
            &&& limits@[k].rate_limit matches Some(limit) ==> bucket_shows(
                shown.buckets@[place],
                name,
                limit,
                at,
            )
            &&& limits@[k].rate_limit is None ==> shows_nothing(shown.buckets@[place], name)
        }),
        shown.buckets@.len() == 1 + (if response.code_review_rate_limit is Some {
            1int
        } else {
            0int
        }) + (match response.additional_rate_limits {
            Some(limits) => limits@.len() as int,
            None => 0int,
        }) + (if response.spend_control matches Some(control) && control.individual_limit is Some {
            1int
        } else {
            0int
        }),
{
    let buckets = shown.buckets.deep_view();
    assert(buckets.len() == shown.buckets@.len());
    assert(buckets == usage::normal_buckets(response, at@));
    assert forall|i: int| 0 <= i < buckets.len() implies buckets[i]
        == shown.buckets@[i].deep_view() by {}
    assert(buckets[0] == shown.buckets@[0].deep_view());
    let review = usage::review_buckets(response.code_review_rate_limit, at@);
    let further = usage::further_buckets(response.additional_rate_limits, at@);
    let monthly = usage::monthly_buckets(response.spend_control, at@);
    lemma_bucket(
        shown.buckets@[0],
        usage::limit_or_none(response.rate_limit),
        "Included usage"@,
        at,
    );
    if response.code_review_rate_limit is Some {
        assert(buckets[1] == review[0]);
        assert(buckets[1] == shown.buckets@[1].deep_view());
        lemma_bucket(
            shown.buckets@[1],
            response.code_review_rate_limit->0,
            "Code review"@,
            at,
        );
    }
    if let Some(limits) = response.additional_rate_limits {
        if 0 <= k < limits@.len() {
            let place = k + 1 + review.len();
            assert(buckets[place] == further[k]);
            assert(buckets[place] == shown.buckets@[place].deep_view());
            lemma_bucket(
                shown.buckets@[place],
                usage::limit_or_none(limits@[k].rate_limit),
                usage::additional_name(limits@[k]),
                at,
            );
        }
    }
}

/// The monthly limit of a user is shown last, as one quota that can be used unless the limit is
/// reached. What is left of it is what the service states, else what it computes from use.
pub proof fn monthly_limit_is_shown(response: UsageResponse, at: Timestamp, shown: AccountUsage)
    requires
        call_ensures(UsageResponse::normalize, (response, at), shown),
        response.spend_control matches Some(control) && control.individual_limit is Some,
    ensures
        ({
            let control = response.spend_control->0;
            let limit = control.individual_limit->0;
            let bucket = shown.buckets@.last();
            let window = bucket.windows@[0];
            &&& bucket.name@ == "Monthly credit limit"@
            &&& bucket.limit_reached == control.reached
            &&& control.reached == Some(true) ==> bucket.allowed == Some(false)
            &&& control.reached == Some(false) ==> bucket.allowed == Some(true)
            &&& control.reached is None ==> bucket.allowed is None
            &&& bucket.windows@.len() == 1
            &&& window.label@ == "Monthly"@
            &&& limit.remaining_percent matches Some(stated) ==> window.remaining_percent.deep_view()
                == usage::shown_percent(stated)
            &&& limit.remaining_percent is None ==> (limit.remaining_by_use matches Some(computed)
                ==> window.remaining_percent.deep_view() == usage::shown_percent(computed))
            &&& limit.remaining_percent is None && limit.remaining_by_use is None
                ==> window.remaining_percent is None
            &&& moment_of(window.resets_at) == usage::reset_moment(
                limit.reset_at,
                limit.reset_after_seconds,
                at@,
            )
        }),
{
    let buckets = shown.buckets.deep_view();
    let monthly = usage::monthly_buckets(response.spend_control, at@);
    assert(buckets == usage::normal_buckets(response, at@));
    assert(buckets.last() == monthly[0]);
    let bucket = shown.buckets@.last();
    assert(buckets.last() == bucket.deep_view());
    let windows = bucket.windows.deep_view();
    assert(windows.len() == bucket.windows@.len());
    assert(windows[0] == bucket.windows@[0].deep_view());
}

/// The lines about purchased credits: whether they can be used, and how many there are.
pub open spec fn credit_lines(
    unlimited: bool,
    has_credits: Option<bool>,
    balance: Option<Seq<char>>,
) -> Seq<Seq<char>> {
    if unlimited {
        seq!["Purchased-credit availability: unlimited"@, "Purchased credits: unlimited"@]
    } else {
        seq![
            match has_credits {
                Some(true) => "Purchased-credit availability: available"@,
                Some(false) => "Purchased-credit availability: unavailable"@,
                None => "Purchased-credit availability: unknown"@,
            },
            match balance {
                Some(balance) => "Purchased credits: "@ + balance,
                None => match has_credits {
                    Some(true) => "Purchased credits available; balance unknown"@,
                    Some(false) => "No purchased credits available"@,
                    None => "Purchased credits: unknown"@,
                },
            },
        ]
    }
}

/// A line with a prefix for what there may be.
pub open spec fn prefixed(prefix: Seq<char>, content: Option<String>) -> Seq<Seq<char>> {
    match content {
        Some(content) => seq![prefix + content@],
        None => Seq::empty(),
    }
}

/// The details say what is reported of purchased credits, of the monthly limit, of what limits the
/// account, and of the resets that can be had, in this order and nothing else.
pub proof fn details_say_what_is_reported(
    response: UsageResponse,
    at: Timestamp,
    shown: AccountUsage,
)
    requires
        call_ensures(UsageResponse::normalize, (response, at), shown),
    ensures
        shown.details.deep_view() == (match response.credits {
            Some(credits) => credit_lines(
                credits.unlimited == Some(true),
                credits.has_credits,
                credits.balance.deep_view(),
            ),
            None => Seq::empty(),
        }) + (if response.spend_control matches Some(control) && control.individual_limit is Some {
            prefixed(
                "Monthly credits remaining: "@,
                response.spend_control->0.individual_limit->0.remaining,
            ) + prefixed(
                "Monthly credit allowance: "@,
                response.spend_control->0.individual_limit->0.limit,
            )
        } else {
            Seq::empty()
        }) + prefixed("Limiter: "@, response.rate_limit_reached_type) + (match
            response.rate_limit_reset_credits {
            Some(count) => seq!["Available usage resets: "@ + text::decimal(count as nat)],
            None => Seq::empty(),
        }),
        shown.plan.deep_view() == response.plan_type.deep_view(),
        shown.fetched_at@ == at@,
{
    if let Some(credits) = response.credits {
        assert(usage::credit_details(response.credits) =~= credit_lines(
            credits.unlimited == Some(true),
            credits.has_credits,
            credits.balance.deep_view(),
        )) by {
            match credits.has_credits {
                Some(flag) => {
                    assert(flag || credits.has_credits == Some(false));
                },
                None => {},
            }
        }
    }
}

/// Warnings come of a cap on purchased credits and of one on the monthly spending that is reached,
/// and of nothing else.
pub proof fn reached_caps_are_warned_of(
    response: UsageResponse,
    at: Timestamp,
    shown: AccountUsage,
)
    requires
        call_ensures(UsageResponse::normalize, (response, at), shown),
    ensures
        ({
            let credits = response.credits matches Some(credits) && credits.overage_limit_reached
                == Some(true);
            let spending = response.spend_control matches Some(control) && control.reached == Some(
                true,
            );
            let warnings = shown.warnings.deep_view();
            &&& credits && spending ==> warnings == seq![
                "Purchased-credit cap reached"@,
                "Monthly spend cap reached"@,
            ]
            &&& credits && !spending ==> warnings == seq!["Purchased-credit cap reached"@]
            &&& !credits && spending ==> warnings == seq!["Monthly spend cap reached"@]
            &&& !credits && !spending ==> warnings.len() == 0
        }),
{
    let warnings = shown.warnings.deep_view();
    assert(warnings == usage::normal_warnings(response));
    assert(warnings =~= warnings);
    let both = seq!["Purchased-credit cap reached"@, "Monthly spend cap reached"@];
    assert(seq!["Purchased-credit cap reached"@] + seq!["Monthly spend cap reached"@] =~= both);
    assert(seq!["Purchased-credit cap reached"@] + Seq::<Seq<char>>::empty()
        =~= seq!["Purchased-credit cap reached"@]);
    assert(Seq::<Seq<char>>::empty() + seq!["Monthly spend cap reached"@]
        =~= seq!["Monthly spend cap reached"@]);
}

/// A week has a name; another length is told in the largest unit of which it is a whole number; an
/// unknown or empty length has none.
pub proof fn lengths_are_told_in_units(seconds: Option<u64>, label: String, n: u64)
    requires
        call_ensures(usage::window_label, (seconds,), label),
    ensures
        seconds == Some(604_800u64) ==> label@ == "Weekly"@,
        n > 0 && n != 7 && n * 86_400 <= u64::MAX && seconds == Some((n * 86_400) as u64)
            ==> label@ == text::decimal(n as nat) + "d"@,
        n > 0 && n % 24 != 0 && n * 3_600 <= u64::MAX && seconds == Some((n * 3_600) as u64)
            ==> label@ == text::decimal(n as nat) + "h"@,
        n > 0 && n % 60 != 0 && n * 60 <= u64::MAX && seconds == Some((n * 60) as u64) ==> label@
            == text::decimal(n as nat) + "m"@,
        n % 60 != 0 && seconds == Some(n) ==> label@ == text::decimal(n as nat) + "s"@,
        seconds is None || seconds == Some(0u64) ==> label@ == "Window"@,
{
}

/// A quota is there again so many seconds after the report as the service counts, else at the time
/// that it states.
pub proof fn resets_are_counted_first(
    absolute: Option<u64>,
    relative: Option<u64>,
    at: Timestamp,
    r: Option<Timestamp>,
)
    requires
        call_ensures(usage::reset_time, (absolute, relative, at), r),
        at@ / 1_000_000_000 <= 4_000_000_000_000_000_000,
    ensures
        relative matches Some(seconds) ==> seconds <= 5_000_000_000_000_000_000 ==> moment_of(r)
            == Some(at@ + seconds * 1_000_000_000),
        relative is None ==> (absolute matches Some(seconds) ==> seconds <= i64::MAX ==> moment_of(
            r,
        ) == Some(seconds * 1_000_000_000)),
        relative is None ==> (absolute matches Some(seconds) ==> seconds > i64::MAX ==> r is None),
        relative is None && absolute is None ==> r is None,
{
}

/// A percentage that is no number, or infinite, is unknown. Any other is brought between 0 and
/// 100: one below zero to zero, one above a hundred to a hundred.
pub proof fn percentages_are_clamped(reported: &ReportedPercent, r: Option<Percent>)
    requires
        call_ensures(ReportedPercent::shown, (reported,), r),
    ensures
        reported.bits >= 0xfff0_0000_0000_0000 ==> r is None,
        0x7ff0_0000_0000_0000 <= reported.bits < 0x8000_0000_0000_0000 ==> r is None,
        0x8000_0000_0000_0000 < reported.bits < 0xfff0_0000_0000_0000 ==> (r matches Some(percent)
            && percent.deep_view().bits == 0),
        0x4059_0000_0000_0000 < reported.bits < 0x7ff0_0000_0000_0000 ==> (r matches Some(percent)
            && percent.deep_view().bits == 0x4059_0000_0000_0000),
        reported.bits <= 0x4059_0000_0000_0000 ==> (r matches Some(percent)
            && percent.deep_view().bits == reported.bits),
        r matches Some(percent) ==> {
            &&& reported.rounded <= 0 ==> percent.deep_view().rounded == 0
            &&& 0 <= reported.rounded <= 100 ==> percent.deep_view().rounded == reported.rounded
            &&& reported.rounded >= 100 ==> percent.deep_view().rounded == 100
        },
{
    if let Some(percent) = r {
        assert(usage::shown_percent(*reported) == Some(percent.deep_view()));
    }
}

/// A percentage is low up to ten, and is written as the whole number it is rounded to; only a zero
/// that comes from below has a sign.
pub proof fn percentages_are_written(percent: &Percent, low: bool, written: String)
    requires
        call_ensures(Percent::is_low, (percent,), low),
        call_ensures(Percent::text, (percent,), written),
    ensures
        percent.deep_view().bits <= 0x4024_0000_0000_0000 ==> low,
        0x4024_0000_0000_0000 < percent.deep_view().bits < 0x8000_0000_0000_0000 ==> !low,
        percent.deep_view().bits < 0x8000_0000_0000_0000 ==> written@ == text::decimal(
            percent.deep_view().rounded as nat,
        ),
{
}

/// Of metadata whose shape may change, texts and numbers are shown, and nothing else.
pub proof fn plain_metadata_is_shown(value: &Json, r: Option<String>)
    requires
        call_ensures(usage::optional_display_text, (value,), r),
    ensures
        *value matches Json::Text(content) ==> r.deep_view() == Some(content@),
        *value matches Json::Number(_, digits) ==> r.deep_view() == Some(digits@),
        value is Null || value is Bool || value is Array || value is Object ==> r is None,
{
}

/// A request for the usage is sent with the credentials that it waited for, and fails where there
/// are none.
pub proof fn usage_is_asked_for_with_credentials(
    fetch: &mut UsageFetch,
    event: FetchEvent,
    action: FetchAction,
    fresh: UsageFetch,
)
    requires
        call_ensures(UsageFetch::step, (fetch, event), action),
        call_ensures(UsageFetch::new, (), fresh),
        old(fetch).phase is Authenticating,
    ensures
        event matches FetchEvent::Credentials(Ok(credentials)) ==> (action
            matches FetchAction::Send { credentials: used } && used@ == credentials@) && (final(
            fetch).phase matches FetchPhase::Sending { credentials: used, refreshed, retried } && used@
            == credentials@ && (FetchPhase::Authenticating { refreshed, retried }) == old(
            fetch).phase),
        event matches FetchEvent::Credentials(Err(message)) ==> (action
            matches FetchAction::Fail(reason) && reason@ == message@) && final(fetch).phase is Over,
        fresh.phase == (FetchPhase::Authenticating { refreshed: false, retried: false }),
{
}

/// A server that fails, or cannot be reached, is asked once more after a while, with the same
/// credentials. A refused token is renewed once. Any other answer but a success ends the request
/// with its status, and a success is read.
pub proof fn usage_answers_are_judged(
    fetch: &mut UsageFetch,
    event: FetchEvent,
    action: FetchAction,
    credentials: CodexCredentials,
    refreshed: bool,
    retried: bool,
)
    requires
        call_ensures(UsageFetch::step, (fetch, event), action),
        old(fetch).phase == (FetchPhase::Sending { credentials, refreshed, retried }),
    ensures
        event matches FetchEvent::Answered { status, body } ==> {
            &&& 500 <= status < 600 && !retried ==> action is Wait && (final(fetch).phase
                matches FetchPhase::Waiting { credentials: used, refreshed: renewed } && used@
                == credentials@ && renewed == refreshed)
            &&& status == 401 && !refreshed ==> (action matches FetchAction::Refresh { rejected }
                && rejected@ == credentials.access_token@) && final(fetch).phase == (
            FetchPhase::Authenticating { refreshed: true, retried })
            &&& 200 <= status < 300 ==> (action matches FetchAction::Read { body: read } && read@
                == body@) && (final(fetch).phase matches FetchPhase::Reading { account_id }
                && account_id.deep_view() == credentials.account_id.deep_view())
            &&& !(200 <= status < 300) && (status != 401 || refreshed) && (!(500 <= status < 600)
                || retried) ==> (action matches FetchAction::Fail(message) && message@
                == "Could not load ChatGPT account usage (HTTP "@ + encoding::status_text(status)
                + ")"@) && final(fetch).phase is Over
        },
        event matches FetchEvent::Unanswered(message) ==> {
            &&& !retried ==> action is Wait && (final(fetch).phase matches FetchPhase::Waiting {
                credentials: used,
                refreshed: renewed,
            } && used@ == credentials@ && renewed == refreshed)
            &&& retried ==> (action matches FetchAction::Fail(reason) && reason@ == message@)
        },
{
}

/// After the wait the usage is asked for again with the same credentials, and not waited for once
/// more.
pub proof fn usage_is_asked_for_again(
    fetch: &mut UsageFetch,
    action: FetchAction,
    credentials: CodexCredentials,
    refreshed: bool,
)
    requires
        call_ensures(UsageFetch::step, (fetch, FetchEvent::Waited), action),
        old(fetch).phase == (FetchPhase::Waiting { credentials, refreshed }),
    ensures
        action matches FetchAction::Send { credentials: used } && used@ == credentials@,
        final(fetch).phase matches FetchPhase::Sending {
            credentials: used,
            refreshed: renewed,
            retried,
        } && used@ == credentials@ && renewed == refreshed && retried,
{
}

/// A report that could be read is handed out as usage, unless it names another account than the
/// one that was asked for; where either has no name it counts. One that could not be read ends the
/// request.
pub proof fn reports_are_handed_out(
    fetch: &mut UsageFetch,
    response: UsageResponse,
    at: Timestamp,
    action: FetchAction,
    account_id: Option<String>,
    shown: AccountUsage,
)
    requires
        call_ensures(UsageFetch::step, (fetch, FetchEvent::Read(Ok(response), at)), action),
        call_ensures(UsageResponse::normalize, (response, at), shown),
        old(fetch).phase == (FetchPhase::Reading { account_id }),
    ensures
        ({
            let other = response.account_id matches Some(returned) && account_id matches Some(
                expected,
            ) && returned@ != expected@;
            &&& other ==> (action matches FetchAction::Fail(message) && message@
                == "Usage response belongs to a different account"@)
            &&& !other ==> (action matches FetchAction::Done(done) && done@ == shown@)
            &&& final(fetch).phase is Over
        }),
{
}

/// A report that could not be read ends the request, with the reason.
pub proof fn unreadable_reports_are_told(
    fetch: &mut UsageFetch,
    unreadable: String,
    at: Timestamp,
    action: FetchAction,
)
    requires
        call_ensures(UsageFetch::step, (fetch, FetchEvent::Read(Err(unreadable), at)), action),
        old(fetch).phase is Reading,
    ensures
        action matches FetchAction::Fail(message) && message@
            == "Invalid ChatGPT usage response: "@ + unreadable@,
{
}

/// A request for the usage of an account serves all who ask while it is under way, and for less
/// than a minute after its start those who do not demand a newer answer; where there is none, none
/// serves.
pub proof fn recent_usage_is_shared<T>(
    state: &State<T>,
    id: &str,
    finished: bool,
    force: bool,
    now: u64,
    r: Option<&T>,
)
    requires
        call_ensures(State::<T>::usage_to_join, (state, id, finished, force, now), r),
    ensures
        r is Some <==> state.usage_requests@.contains_key(id@) && (!finished || (!force && now
            - state.usage_requests@[id@].started_at < 60_000_000_000)),
        r matches Some(task) ==> *task == state.usage_requests@[id@].task,
{
}

/// A request that is started is the one that serves, from its start on.
pub proof fn started_usage_is_kept<T>(state: &mut State<T>, id: String, task: T, now: u64, r: ())
    requires
        call_ensures(State::<T>::keep_usage_request, (state, id, task, now), r),
    ensures
        final(state)@.usage_requests.contains_key(id@),
        final(state)@.usage_requests[id@].task == task,
        final(state)@.usage_requests[id@].started_at == now,
        final(state)@.accounts == old(state)@.accounts,
        final(state)@.auth_generation == old(state)@.auth_generation,
{
}

/// An answer counts only if nobody signed in or out since it was asked for, and the account is
/// still there.
pub proof fn answers_for_changed_accounts_do_not_count<T, U>(
    state: &State<T>,
    generation: u64,
    id: &str,
    result: Result<U, String>,
    r: Result<U, String>,
)
    requires
        call_ensures(State::<T>::usage_result::<U>, (state, generation, id, result), r),
    ensures
        state.auth_generation == generation && state@.accounts.accounts.contains_key(id@)
            ==> r == result,
        state.auth_generation != generation || !state@.accounts.accounts.contains_key(id@) ==> (r
            matches Err(message) && message@ == "Account changed while loading usage"@),
{
}

/// A moment so many seconds later is just so much later, and the whole seconds between two moments
/// are those that have passed.
pub proof fn moments_add_up(at: &Timestamp, seconds: u64, r: Option<Timestamp>, passed: Option<u64>)
    requires
        call_ensures(Timestamp::checked_add, (at, seconds), r),
        r matches Some(later) && call_ensures(Timestamp::seconds_since, (&later, *at), passed),
    ensures
        r->0@ == at@ + seconds * 1_000_000_000,
        passed == Some(seconds),
{
}

/// The whole seconds since a moment are the largest number of seconds that have passed, and there
/// are none before it.
pub proof fn passed_seconds_are_counted(at: &Timestamp, earlier: Timestamp, r: Option<u64>)
    requires
        call_ensures(Timestamp::seconds_since, (at, earlier), r),
    ensures
        r is Some <==> earlier@ <= at@,
        r matches Some(seconds) ==> seconds * 1_000_000_000 <= at@ - earlier@ < (seconds + 1)
            * 1_000_000_000,
{
}

/// A moment too far away does not exist: a reset that is counted to it is taken from the time that
/// the service states.
pub proof fn far_moments_do_not_exist(
    at: &Timestamp,
    seconds: u64,
    r: Option<Timestamp>,
    absolute: Option<u64>,
    reset: Option<Timestamp>,
    stated: Option<Timestamp>,
)
    requires
        call_ensures(Timestamp::checked_add, (at, seconds), r),
        call_ensures(usage::reset_time, (absolute, Some(seconds), *at), reset),
        call_ensures(usage::reset_time, (absolute, None, *at), stated),
    ensures
        r is Some <==> at@ / 1_000_000_000 + seconds <= 0x7fff_ffff_ffff_ffff,
        r matches Some(counted) ==> moment_of(reset) == Some(counted@),
        r is None ==> moment_of(reset) == moment_of(stated),
{
}

/// A moment is made of its seconds and the nanoseconds past them.
pub proof fn moments_are_made_of_seconds(
    seconds: i64,
    nanos: u32,
    r: Option<Timestamp>,
    at: &Timestamp,
    whole: i64,
    past: u32,
    start: Timestamp,
)
    requires
        call_ensures(Timestamp::new, (seconds, nanos), r),
        call_ensures(Timestamp::seconds, (at,), whole),
        call_ensures(Timestamp::nanos, (at,), past),
        call_ensures(Timestamp::epoch, (), start),
    ensures
        nanos >= 1_000_000_000 ==> r is None,
        nanos < 1_000_000_000 ==> (r matches Some(moment) && moment@ == seconds * 1_000_000_000
            + nanos),
        whole * 1_000_000_000 + past == at@,
        past < 1_000_000_000,
        start@ == 0,
{
}

/// A moment is past another by some seconds if more than those lie between them. A span before or
/// after 1970 ends at that distance from it.
pub proof fn moments_are_compared(
    at: &Timestamp,
    earlier: Timestamp,
    seconds: u32,
    r: bool,
    span: u64,
    nanos: u32,
    before: bool,
    end: Timestamp,
)
    requires
        call_ensures(Timestamp::is_past, (at, earlier, seconds), r),
        call_ensures(Timestamp::from_span, (span, nanos, before), end),
        nanos < 1_000_000_000,
        span < 0x7fff_ffff_ffff_ffff,
    ensures
        r <==> at@ > earlier@ + seconds * 1_000_000_000,
        before ==> end@ == -(span * 1_000_000_000 + nanos),
        !before ==> end@ == span * 1_000_000_000 + nanos,
{
}

/// The clock's milliseconds are those since the start of 1970, none before it.
pub proof fn clock_counts_milliseconds(reading: Option<u128>, r: u64, offset: int)
    requires
        call_ensures(time::clock_ms, (reading,), r),
    ensures
        reading is None ==> r == 0,
        reading matches Some(ms) ==> ms <= u64::MAX ==> r == ms,
        offset < 0 ==> time::epoch_millis(offset) is None,
        0 <= offset < 0x1_0000_0000_0000_0000 ==> (time::epoch_millis(offset) matches Some(ms) && ms
            * 1_000_000 <= offset < (ms + 1) * 1_000_000),
{
}

} // verus!
