//! What holds of what is shown: the usage of an account, its menu, and the settings.
use crate::accounts::AccountSwitchPolicy;
use crate::configuration;
use crate::configuration::Configuration;
use crate::failure_laws::says;
use crate::provider;
use crate::provider::{Authentication, OpenAiSubscribedLanguageModel, OpenAiSubscribedProvider};
use crate::state;
use crate::state::{AccountEntry, State};
use crate::text;
use crate::time::Timestamp;
use crate::usage::{AccountUsage, BucketModel, QuotaWindow, UsageBucket, UsageModel, WindowModel};
use crate::usage_menu;
use crate::usage_menu::{Dates, ItemModel, MenuItem};
use crate::usage_view;
use crate::usage_view::{AccountUsageView, Meter, Tone, UsageButton, ViewModel};
use vstd::prelude::*;
use vstd::string::*;

verus! {

/// Of a kind of use that is exhausted, closed or unknown it is said so, first that it is exhausted;
/// of one that can be used nothing is said.
pub proof fn state_of_quotas_is_told(bucket: &UsageBucket, r: Option<&'static str>)
    requires
        call_ensures(usage_view::bucket_status, (bucket,), r),
    ensures
        bucket.limit_reached == Some(true) ==> (if bucket.name@ == "Included usage"@ {
            r matches Some(status) && status@ == "Included quota exhausted"@
        } else {
            r matches Some(status) && status@ == "Quota exhausted"@
        }),
        bucket.limit_reached != Some(true) && bucket.allowed == Some(false) ==> (if bucket.name@
            == "Included usage"@ {
            r matches Some(status) && status@ == "Included usage unavailable"@
        } else {
            r matches Some(status) && status@ == "Usage currently unavailable"@
        }),
        bucket.limit_reached != Some(true) && bucket.allowed is None ==> (r matches Some(status)
            && status@ == "Availability unknown"@),
        bucket.limit_reached != Some(true) && bucket.allowed == Some(true) ==> r is None,
{
    match bucket.allowed {
        Some(allowed) => {
            assert(allowed || bucket.allowed == Some(false));
        },
        None => {},
    }
}

/// What is left of a quota is told in percent, or that it is unknown.
pub proof fn remaining_percentage_is_told(window: &QuotaWindow, r: String, percent: String)
    requires
        call_ensures(usage_view::remaining_label, (window,), r),
        window.remaining_percent matches Some(left) ==> call_ensures(
            crate::usage::Percent::text,
            (&left,),
            percent,
        ),
    ensures
        window.remaining_percent is Some ==> r@ == window.label@ + ": "@ + percent@ + "% left"@,
        window.remaining_percent is None ==> r@ == window.label@ + ": unavailable"@,
{
}

proof fn lemma_error_signals(error: Seq<char>)
    ensures
        text::mentions(error, usage_view::connection_signals()) <==> says(error, "connect"@)
            || says(error, "dns"@),
        text::mentions(error, usage_view::timeout_signals()) <==> says(error, "timed out"@) || says(
            error,
            "timeout"@,
        ),
        text::mentions(error, usage_view::sign_in_signals()) <==> says(error, "401"@) || says(
            error,
            "authentication"@,
        ) || says(error, "reauth"@) || says(error, "invalid_grant"@),
        text::mentions(error, usage_view::denial_signals()) <==> says(error, "403"@),
        text::mentions(error, usage_view::excess_signals()) <==> says(error, "429"@),
        text::mentions(error, usage_view::response_signals()) <==> says(
            error,
            "invalid chatgpt usage response"@,
        ) || says(error, "different account"@),
{
    let connection = usage_view::connection_signals();
    assert(connection[0] == "connect"@ && connection[1] == "dns"@);
    let timeout = usage_view::timeout_signals();
    assert(timeout[0] == "timed out"@ && timeout[1] == "timeout"@);
    let sign_in = usage_view::sign_in_signals();
    assert(sign_in[0] == "401"@ && sign_in[1] == "authentication"@ && sign_in[2] == "reauth"@
        && sign_in[3] == "invalid_grant"@);
    let denial = usage_view::denial_signals();
    assert(denial[0] == "403"@);
    let excess = usage_view::excess_signals();
    assert(excess[0] == "429"@);
    let response = usage_view::response_signals();
    assert(response[0] == "invalid chatgpt usage response"@ && response[1] == "different account"@);
}

/// An error is told by its kind, in these words and in this order of precedence, and never by what
/// it quotes.
pub proof fn errors_are_told_by_kind(error: &str, r: &'static str)
    requires
        call_ensures(usage_view::usage_error_label, (error,), r),
    ensures
        ({
            let connection = says(error@, "connect"@) || says(error@, "dns"@);
            let timeout = says(error@, "timed out"@) || says(error@, "timeout"@);
            let sign_in = says(error@, "401"@) || says(error@, "authentication"@) || says(
                error@,
                "reauth"@,
            ) || says(error@, "invalid_grant"@);
            let denial = says(error@, "403"@);
            let excess = says(error@, "429"@);
            let response = says(error@, "invalid chatgpt usage response"@) || says(
                error@,
                "different account"@,
            );
            &&& connection ==> r@ == "connection error"@
            &&& !connection && timeout ==> r@ == "request timed out"@
            &&& !connection && !timeout && sign_in ==> r@ == "sign-in required"@
            &&& !connection && !timeout && !sign_in && denial ==> r@ == "access denied"@
            &&& !connection && !timeout && !sign_in && !denial && excess ==> r@
                == "too many requests"@
            &&& !connection && !timeout && !sign_in && !denial && !excess && response ==> r@
                == "invalid response"@
            &&& !connection && !timeout && !sign_in && !denial && !excess && !response ==> r@
                == "could not refresh"@
        }),
{
    lemma_error_signals(error@);
}

/// The time that is left is told in minutes, rounded up and one at least; from an hour on in hours
/// and minutes, and from a day on in days and hours.
pub proof fn time_left_is_told(seconds: u64, r: String, days: int, hours: int, minutes: int)
    requires
        call_ensures(usage_view::countdown_of, (seconds,), r),
        0 <= days,
        0 <= hours < 24,
        0 <= minutes < 60,
        ({
            let all = 1440 * days + 60 * hours + minutes;
            (60 * (all - 1) < seconds <= 60 * all && all >= 1) || (seconds == 0 && all == 1)
        }),
    ensures
        days == 0 && hours == 0 ==> r@ == text::decimal(minutes as nat) + "m"@,
        days == 0 && hours > 0 ==> r@ == text::decimal(hours as nat) + "h "@ + text::decimal(
            minutes as nat,
        ) + "m"@,
        days > 0 ==> r@ == text::decimal(days as nat) + "d "@ + text::decimal(hours as nat) + "h"@,
{
    let all = 1440 * days + 60 * hours + minutes;
    assert(usage_view::minutes_left(seconds as int) == all);
    assert(all % 1440 == 60 * hours + minutes);
}

/// Of a quota that is there again it is said so, and of one that will be, on which date and how
/// long that is; nothing is said where no reset is known or the date is not.
pub proof fn resets_are_told(
    window: &QuotaWindow,
    now: Timestamp,
    date: &Option<String>,
    r: Option<String>,
    seconds: u64,
    left: String,
)
    requires
        call_ensures(usage_view::reset_label_on, (window, now, date), r),
        call_ensures(usage_view::countdown_of, (seconds,), left),
    ensures
        window.resets_at is None ==> r is None,
        window.resets_at matches Some(moment) ==> {
            &&& moment@ < now@ ==> (r matches Some(label) && label@
                == "Reset time passed; refresh to update"@)
            &&& moment@ >= now@ && date is None ==> r is None
            &&& moment@ >= 0 && seconds * 1_000_000_000 <= moment@ - now@ < (seconds + 1)
                * 1_000_000_000 ==> (*date matches Some(day) ==> (r matches Some(label) && label@
                == "Resets on "@ + day@ + " ("@ + left@ + ")"@))
        },
{
}

/// A meter is filled by what is left; it warns from ten percent down, unless it is muted.
pub proof fn meters_show_what_is_left(
    window: &QuotaWindow,
    muted: bool,
    compact: bool,
    r: Meter,
    told: String,
    percent: String,
    low: bool,
    bits: u64,
)
    requires
        call_ensures(usage_view::meter, (window, muted, compact), r),
        call_ensures(usage_view::remaining_label, (window,), told),
        window.remaining_percent matches Some(left) ==> call_ensures(
            crate::usage::Percent::text,
            (&left,),
            percent,
        ) && call_ensures(crate::usage::Percent::is_low, (&left,), low) && call_ensures(
            crate::usage::Percent::bits,
            (&left,),
            bits,
        ),
    ensures
        !compact ==> r.label@ == told@,
        compact && window.remaining_percent is Some ==> r.label@ == percent@ + "%"@,
        compact && window.remaining_percent is None ==> r.label@ == "—"@,
        muted ==> r.tone == Tone::Muted,
        !muted && window.remaining_percent is Some ==> r.tone == (if low {
            Tone::Warning
        } else {
            Tone::Info
        }),
        !muted && window.remaining_percent is None ==> r.tone == Tone::Info,
        window.remaining_percent is Some ==> r.bar == Some(bits),
        window.remaining_percent is None ==> r.bar is None,
{
}

/// A view asks for the usage at its start and when it is told to; what comes replaces what was
/// known, and an error only adds its kind.
pub proof fn refreshes_are_taken_in(
    view: &mut AccountUsageView,
    result: Result<AccountUsage, String>,
    r: (),
    fresh: AccountUsageView,
)
    requires
        call_ensures(AccountUsageView::finish_refresh, (view, result), r),
        call_ensures(AccountUsageView::new, (), fresh),
    ensures
        !final(view).loading,
        final(view).refresh_due == old(view).refresh_due,
        result matches Ok(usage) ==> (final(view)@.usage == Some(usage@)) && final(view).error
            is None,
        result matches Err(error) ==> final(view)@.usage == old(view)@.usage && (final(view).error
            matches Some(kind) && kind@ == usage_view::error_kind(error@)),
        fresh.usage is None && fresh.error is None && fresh.loading && !fresh.refresh_due,
{
}

/// A view that is due asks for the usage when it is shown, and not again until it is due once more.
pub proof fn due_views_are_refreshed(
    view: &mut AccountUsageView,
    due: bool,
)
    requires
        call_ensures(AccountUsageView::refresh_if_due, (view,), due),
    ensures
        due == old(view).refresh_due,
        !final(view).refresh_due,
        final(view).loading == (old(view).loading || due),
        final(view)@.usage == old(view)@.usage,
        final(view)@.error == old(view)@.error,
{
}

/// A view becomes due when it is marked as such; a refresh that is asked for makes it load.
pub proof fn marked_views_are_due(
    marked: &mut AccountUsageView,
    asked: &mut AccountUsageView,
    a: (),
    b: (),
)
    requires
        call_ensures(AccountUsageView::mark_due, (marked,), a),
        call_ensures(AccountUsageView::refresh, (asked,), b),
    ensures
        final(marked).refresh_due,
        final(marked).loading == old(marked).loading,
        final(marked)@.usage == old(marked)@.usage && final(marked)@.error == old(marked)@.error,
        final(asked).loading && !final(asked).refresh_due,
        final(asked)@.usage == old(asked)@.usage && final(asked)@.error == old(asked)@.error,
{
}

/// Usage is stale after two minutes, and as soon as it could not be refreshed.
pub proof fn usage_becomes_stale(view: &AccountUsageView, now: Timestamp, r: bool)
    requires
        call_ensures(AccountUsageView::is_stale, (view, now), r),
    ensures
        view.usage is None ==> !r,
        view.usage matches Some(usage) ==> (r <==> view.error is Some || now@ - usage.fetched_at@
            > 120_000_000_000),
{
}

/// The button shows one meter for each quota that is included in the plan, and a dash where there
/// is none. The meters are muted where the usage is stale or something is to be warned of.
pub proof fn button_shows_included_quotas(
    view: &AccountUsageView,
    now: Timestamp,
    r: UsageButton,
    stale: bool,
    i: int,
    shown: Meter,
)
    requires
        call_ensures(AccountUsageView::button, (view, now), r),
        call_ensures(AccountUsageView::is_stale, (view, now), stale),
        view.usage matches Some(usage) && usage.buckets@.len() > 0 && 0 <= i
            < usage.buckets@[0].windows@.len() ==> call_ensures(
            usage_view::meter,
            (&view.usage->0.buckets@[0].windows@[i], stale || r.warning, true),
            shown,
        ),
    ensures
        r.stale == stale,
        view.error is Some ==> r.warning,
        view.usage matches Some(usage) ==> usage.warnings@.len() > 0 ==> r.warning,
        view.usage matches Some(usage) ==> usage.buckets@.len() > 0 ==> {
            &&& r.meters@.len() == usage.buckets@[0].windows@.len()
            &&& r.dash == (usage.buckets@[0].windows@.len() == 0)
            &&& 0 <= i < usage.buckets@[0].windows@.len() ==> r.meters@[i].deep_view()
                == shown.deep_view()
        },
        view.usage is None ==> r.meters@.len() == 0 && r.dash,
        view.usage is None && view.error is None ==> !r.warning,
{
    let meters = r.meters.deep_view();
    assert(meters.len() == r.meters@.len());
    if let Some(usage) = view.usage {
        let warnings = usage.warnings.deep_view();
        assert(warnings.len() == usage.warnings@.len());
        if usage.buckets@.len() > 0 {
            let buckets = usage.buckets.deep_view();
            assert(buckets[0] == usage.buckets@[0].deep_view());
            let windows = usage.buckets@[0].windows.deep_view();
            assert(windows.len() == usage.buckets@[0].windows@.len());
            assert(usage_view::included_windows(view@.usage) == windows);
            if 0 <= i < windows.len() {
                assert(windows[i] == usage.buckets@[0].windows@[i].deep_view());
                assert(meters[i] == r.meters@[i].deep_view());
            }
        }
    }
}

/// What the user has to know first is a warning, then that the included quotas cannot be used, then
/// the first further kind of use that cannot.
pub proof fn notices_are_ranked(usage: UsageModel, n: int)
    ensures
        usage.warnings.len() > 0 ==> usage_view::notice_of(Some(usage)) == Some(usage.warnings[0]),
        usage.warnings.len() == 0 && usage.buckets.len() > 0 && usage_view::status_text(
            usage.buckets[0],
        ) is Some ==> usage_view::notice_of(Some(usage)) == usage_view::status_text(
            usage.buckets[0],
        ),
        usage.warnings.len() == 0 && usage.buckets.len() > 0 && usage_view::status_text(
            usage.buckets[0],
        ) is None && 1 <= n < usage.buckets.len() && (usage.buckets[n].limit_reached == Some(true)
            || usage.buckets[n].allowed == Some(false)) && (forall|k: int|
            1 <= k < n ==> (#[trigger] usage.buckets[k]).limit_reached != Some(true)
                && usage.buckets[k].allowed != Some(false)) ==> usage_view::notice_of(Some(usage))
            == Some(usage.buckets[n].name + ": unavailable"@),
        usage.warnings.len() == 0 && usage.buckets.len() > 0 && usage_view::status_text(
            usage.buckets[0],
        ) is None && (forall|k: int|
            1 <= k < usage.buckets.len() ==> (#[trigger] usage.buckets[k]).limit_reached != Some(
                true,
            ) && usage.buckets[k].allowed != Some(false)) ==> usage_view::notice_of(Some(usage))
            is None,
{
    lemma_first_unavailable(usage.buckets, 1, n);
    lemma_first_unavailable(usage.buckets, 1, usage.buckets.len() as int);
}

proof fn lemma_first_unavailable(buckets: Seq<BucketModel>, from: int, n: int)
    requires
        from >= 0,
    ensures
        from <= n <= buckets.len() && (forall|k: int|
            from <= k < n ==> (#[trigger] buckets[k]).limit_reached != Some(true)
                && buckets[k].allowed != Some(false)) ==> {
            &&& n == buckets.len() ==> usage_view::first_unavailable(buckets, from) is None
            &&& n < buckets.len() && (buckets[n].limit_reached == Some(true) || buckets[n].allowed
                == Some(false)) ==> usage_view::first_unavailable(buckets, from) == Some(
                buckets[n].name + ": unavailable"@,
            )
        },
    decreases n - from,
{
    if from < n <= buckets.len() {
        lemma_first_unavailable(buckets, from + 1, n);
        if forall|k: int|
            from <= k < n ==> (#[trigger] buckets[k]).limit_reached != Some(true)
                && buckets[k].allowed != Some(false) {
            assert(buckets[from].limit_reached != Some(true) && buckets[from].allowed != Some(
                false,
            ));
        }
    }
}

/// The button warns where the usage could not be refreshed or the user has to know something, and
/// its tooltip tells, line by line, what is left of each included quota, that the usage is loading
/// or stale, and what the user has to know.
pub proof fn tooltip_tells_the_usage(view: &AccountUsageView, now: Timestamp, r: UsageButton)
    requires
        call_ensures(AccountUsageView::button, (view, now), r),
    ensures
        r.warning == (view.error is Some || usage_view::notice_of(view@.usage) is Some),
        ({
            let windows = usage_view::included_windows(view@.usage);
            let told = windows.map_values(|window: WindowModel| usage_view::remaining_text(window));
            let loading = if view.loading {
                seq!["Refreshing usage…"@]
            } else {
                Seq::empty()
            };
            let stale = if r.stale {
                seq!["Stale usage; refresh to update"@]
            } else {
                Seq::empty()
            };
            let notice = match usage_view::notice_of(view@.usage) {
                Some(notice) => seq![notice],
                None => Seq::empty(),
            };
            r.tooltip@ == usage_view::joined_lines(
                seq!["Selected account usage"@] + told + loading + stale + notice,
            )
        }),
{
}

/// Lines are joined with a line break between each and the next.
pub proof fn lines_are_joined(lines: Seq<Seq<char>>, line: Seq<char>)
    ensures
        usage_view::joined_lines(seq![line]) == line,
        lines.len() > 0 ==> usage_view::joined_lines(lines.push(line)) == usage_view::joined_lines(
            lines,
        ) + "\n"@ + line,
{
    assert(lines.push(line).drop_last() =~= lines);
}

/// The included quotas are those of the first kind of use.
pub proof fn included_quotas_come_first(usage: UsageModel)
    ensures
        usage.buckets.len() > 0 ==> usage_view::included_windows(Some(usage))
            == usage.buckets[0].windows,
        usage.buckets.len() == 0 ==> usage_view::included_windows(Some(usage)).len() == 0,
        usage_view::included_windows(None).len() == 0,
{
}

proof fn lemma_window_items(
    windows: Seq<WindowModel>,
    stale: bool,
    now: int,
    dates: Seq<Option<Seq<char>>>,
    count: int,
    i: int,
)
    requires
        0 <= i < count,
    ensures
        ({
            let items = usage_menu::window_items(windows, stale, now, dates, count);
            let meter = ItemModel::Meter(usage_view::meter_of(windows[i], stale, false));
            exists|at: int|
                0 <= at < items.len() && #[trigger] items[at] == meter && (usage_view::reset_text(
                    windows[i],
                    now,
                    usage_menu::date_at(dates, i),
                ) matches Some(label) ==> at + 1 < items.len() && items[at + 1]
                    == ItemModel::Label(label))
        }),
    decreases count,
{
    let items = usage_menu::window_items(windows, stale, now, dates, count);
    let before = usage_menu::window_items(windows, stale, now, dates, count - 1);
    let meter = ItemModel::Meter(usage_view::meter_of(windows[i], stale, false));
    if i < count - 1 {
        lemma_window_items(windows, stale, now, dates, count - 1, i);
        let at = choose|at: int|
            0 <= at < before.len() && #[trigger] before[at] == meter && (usage_view::reset_text(
                windows[i],
                now,
                usage_menu::date_at(dates, i),
            ) matches Some(label) ==> at + 1 < before.len() && before[at + 1] == ItemModel::Label(
                label,
            ));
        assert(items[at] == before[at]);
        if usage_view::reset_text(windows[i], now, usage_menu::date_at(dates, i)) is Some {
            assert(items[at + 1] == before[at + 1]);
        }
    } else {
        let at = before.len() as int;
        assert(items[at] == meter);
    }
}

proof fn lemma_buckets_items(
    buckets: Seq<BucketModel>,
    stale: bool,
    now: int,
    dates: Seq<Seq<Option<Seq<char>>>>,
    count: int,
    i: int,
)
    requires
        0 <= i < count,
    ensures
        ({
            let items = usage_menu::buckets_items(buckets, stale, now, dates, count);
            let part = usage_menu::bucket_items(
                buckets[i],
                stale,
                now,
                usage_menu::dates_at(dates, i),
            );
            exists|at: int|
                0 <= at && at + part.len() <= items.len() && #[trigger] items.subrange(
                    at,
                    at + part.len(),
                ) == part
        }),
    decreases count,
{
    let items = usage_menu::buckets_items(buckets, stale, now, dates, count);
    let before = usage_menu::buckets_items(buckets, stale, now, dates, count - 1);
    let part = usage_menu::bucket_items(buckets[i], stale, now, usage_menu::dates_at(dates, i));
    if i < count - 1 {
        lemma_buckets_items(buckets, stale, now, dates, count - 1, i);
        let at = choose|at: int|
            0 <= at && at + part.len() <= before.len() && #[trigger] before.subrange(
                at,
                at + part.len(),
            ) == part;
        assert(items.subrange(at, at + part.len()) =~= before.subrange(at, at + part.len()));
    } else {
        let at = before.len() as int;
        assert(items.subrange(at, at + part.len()) =~= part);
    }
}

proof fn lemma_bucket_in_menu(
    view: ViewModel,
    stale: bool,
    now: int,
    days: Seq<Seq<Option<Seq<char>>>>,
    n: int,
) -> (first: int)
    requires
        view.usage matches Some(usage) && 0 <= n < usage.buckets.len(),
    ensures
        ({
            let lines = usage_menu::menu_items(view, stale, now, days);
            let part = usage_menu::bucket_items(
                view.usage->0.buckets[n],
                stale,
                now,
                usage_menu::dates_at(days, n),
            );
            &&& 0 <= first
            &&& first + part.len() <= lines.len()
            &&& forall|k: int| 0 <= k < part.len() ==> #[trigger] part[k] == lines[first + k]
        }),
{
    let usage = view.usage->0;
    let count = usage.buckets.len() as int;
    let lines = usage_menu::menu_items(view, stale, now, days);
    let all = usage_menu::buckets_items(usage.buckets, stale, now, days, count);
    let part = usage_menu::bucket_items(
        usage.buckets[n],
        stale,
        now,
        usage_menu::dates_at(days, n),
    );
    lemma_buckets_items(usage.buckets, stale, now, days, count, n);
    let at = choose|at: int|
        0 <= at && at + part.len() <= all.len() && #[trigger] all.subrange(at, at + part.len())
            == part;
    let start = lemma_menu_holds(view, stale, now, days);
    assert forall|k: int| 0 <= k < part.len() implies #[trigger] part[k] == lines[start + at + k] by {
        assert(all.subrange(at, at + part.len())[k] == all[at + k]);
        assert(lines.subrange(start, start + all.len())[at + k] == lines[start + (at + k)]);
    }
    start + at
}

proof fn lemma_bucket_head(
    bucket: BucketModel,
    stale: bool,
    now: int,
    days: Seq<Option<Seq<char>>>,
)
    ensures
        ({
            let part = usage_menu::bucket_items(bucket, stale, now, days);
            let status = usage_view::status_text(bucket);
            let skipped: int = if status is Some {
                3
            } else {
                2
            };
            let shown = usage_menu::window_items(
                bucket.windows,
                stale,
                now,
                days,
                bucket.windows.len() as int,
            );
            &&& part.len() >= skipped
            &&& part[0] == ItemModel::Separator
            &&& part[1] == ItemModel::Header(bucket.name)
            &&& status is Some ==> part[2] == ItemModel::Label(status->0)
            &&& bucket.windows.len() == 0 ==> part.len() == skipped + 1 && part[skipped]
                == ItemModel::Label("Window data unavailable"@)
            &&& bucket.windows.len() > 0 ==> part.len() == skipped + shown.len() && part.subrange(
                skipped,
                part.len() as int,
            ) == shown
        }),
{
    let part = usage_menu::bucket_items(bucket, stale, now, days);
    let status = usage_view::status_text(bucket);
    let skipped: int = if status is Some {
        3
    } else {
        2
    };
    let shown = usage_menu::window_items(
        bucket.windows,
        stale,
        now,
        days,
        bucket.windows.len() as int,
    );
    let head = seq![ItemModel::Separator, ItemModel::Header(bucket.name)]
        + usage_menu::optional_label(status);
    assert(head.len() == skipped);
    if bucket.windows.len() > 0 {
        assert(part =~= head + shown);
        assert(part.subrange(skipped, part.len() as int) =~= shown);
    } else {
        assert(shown =~= Seq::<ItemModel>::empty());
        assert(part =~= head + seq![ItemModel::Label("Window data unavailable"@)]);
    }
}

/// The menu shows every kind of use under its name, and right after that what is said of it; where
/// it has no quotas, that is said.
pub proof fn menu_shows_every_kind_of_use(
    view: &AccountUsageView,
    stale: bool,
    now: Timestamp,
    dates: &Dates,
    items: Vec<MenuItem>,
    n: int,
)
    requires
        call_ensures(AccountUsageView::menu_on, (view, stale, now, dates), items),
        view@.usage matches Some(usage) && 0 <= n < usage.buckets.len(),
    ensures
        ({
            let lines = items.deep_view();
            let bucket = view@.usage->0.buckets[n];
            &&& exists|at: int|
                0 <= at && at + 1 < lines.len() && lines[at] == ItemModel::Separator
                    && #[trigger] lines[at + 1] == ItemModel::Header(bucket.name) && (
                usage_view::status_text(bucket) matches Some(status) ==> at + 2 < lines.len()
                    && lines[at + 2] == ItemModel::Label(status))
            &&& bucket.windows.len() == 0 ==> lines.contains(
                ItemModel::Label("Window data unavailable"@),
            )
        }),
{
    let lines = items.deep_view();
    let days = dates.deep_view();
    let bucket = view@.usage->0.buckets[n];
    let part = usage_menu::bucket_items(bucket, stale, now@, usage_menu::dates_at(days, n));
    let first = lemma_bucket_in_menu(view@, stale, now@, days, n);
    lemma_bucket_head(bucket, stale, now@, usage_menu::dates_at(days, n));
    let skipped: int = if usage_view::status_text(bucket) is Some {
        3
    } else {
        2
    };
    assert(part[0] == lines[first]);
    assert(part[1] == lines[first + 1]);
    if usage_view::status_text(bucket) is Some {
        assert(part[2] == lines[first + 2]);
    }
    if bucket.windows.len() == 0 {
        assert(part[skipped] == lines[first + skipped]);
    }
}

/// The menu shows a meter for every quota, and right after it what is said of its reset.
pub proof fn menu_shows_every_quota(
    view: &AccountUsageView,
    stale: bool,
    now: Timestamp,
    dates: &Dates,
    items: Vec<MenuItem>,
    n: int,
    i: int,
)
    requires
        call_ensures(AccountUsageView::menu_on, (view, stale, now, dates), items),
        view@.usage matches Some(usage) && 0 <= n < usage.buckets.len() && 0 <= i
            < usage.buckets[n].windows.len(),
    ensures
        ({
            let lines = items.deep_view();
            let window = view@.usage->0.buckets[n].windows[i];
            let days = dates.deep_view();
            let day = if n < days.len() && i < days[n].len() {
                days[n][i]
            } else {
                None
            };
            exists|at: int|
                0 <= at < lines.len() && #[trigger] lines[at] == ItemModel::Meter(
                    usage_view::meter_of(window, stale, false),
                ) && (usage_view::reset_text(window, now@, day) matches Some(label) ==> at + 1
                    < lines.len() && lines[at + 1] == ItemModel::Label(label))
        }),
{
    let lines = items.deep_view();
    let days = dates.deep_view();
    let bucket = view@.usage->0.buckets[n];
    let own = usage_menu::dates_at(days, n);
    let count = bucket.windows.len() as int;
    let part = usage_menu::bucket_items(bucket, stale, now@, own);
    let first = lemma_bucket_in_menu(view@, stale, now@, days, n);
    lemma_bucket_head(bucket, stale, now@, own);
    let skipped: int = if usage_view::status_text(bucket) is Some {
        3
    } else {
        2
    };
    let shown = usage_menu::window_items(bucket.windows, stale, now@, own, count);
    lemma_window_items(bucket.windows, stale, now@, own, count, i);
    let meter = ItemModel::Meter(usage_view::meter_of(bucket.windows[i], stale, false));
    let day = usage_menu::date_at(own, i);
    let k = choose|k: int|
        0 <= k < shown.len() && #[trigger] shown[k] == meter && (usage_view::reset_text(
            bucket.windows[i],
            now@,
            day,
        ) matches Some(label) ==> k + 1 < shown.len() && shown[k + 1] == ItemModel::Label(label));
    assert(part.subrange(skipped, part.len() as int)[k] == part[skipped + k]);
    assert(part[skipped + k] == lines[first + (skipped + k)]);
    if usage_view::reset_text(bucket.windows[i], now@, day) is Some {
        assert(part.subrange(skipped, part.len() as int)[k + 1] == part[skipped + k + 1]);
        assert(part[skipped + k + 1] == lines[first + (skipped + k + 1)]);
    }
}

proof fn lemma_menu_holds(
    view: ViewModel,
    stale: bool,
    now: int,
    days: Seq<Seq<Option<Seq<char>>>>,
) -> (start: int)
    requires
        view.usage is Some,
    ensures
        ({
            let usage = view.usage->0;
            let lines = usage_menu::menu_items(view, stale, now, days);
            let all = usage_menu::buckets_items(
                usage.buckets,
                stale,
                now,
                days,
                usage.buckets.len() as int,
            );
            &&& 0 <= start
            &&& start + all.len() <= lines.len()
            &&& lines.subrange(start, start + all.len()) == all
        }),
{
    let usage = view.usage->0;
    let lines = usage_menu::menu_items(view, stale, now, days);
    let all = usage_menu::buckets_items(
        usage.buckets,
        stale,
        now,
        days,
        usage.buckets.len() as int,
    );
    let head = seq![ItemModel::Header("ChatGPT account usage"@)] + usage_menu::optional_label(
        match view.error {
            Some(error) => Some("Usage unavailable: "@ + error),
            None => None,
        },
    );
    let front = usage_menu::optional_label(
        match usage.plan {
            Some(plan) => Some("Plan: "@ + plan),
            None => None,
        },
    ) + usage_menu::optional_label(usage_menu::age_text(usage, now)) + usage_menu::labels(
        usage.warnings,
    );
    let start = (head.len() + front.len()) as int;
    assert(lines.subrange(start, start + all.len()) =~= all);
    start
}

/// The menu goes from its title over the reason for which the usage could not be had, the plan, the
/// age, the warnings and the kinds of use to the details and what is to be known of them; nothing
/// else is in it.
pub proof fn menu_is_in_order(
    view: &AccountUsageView,
    stale: bool,
    now: Timestamp,
    dates: &Dates,
    items: Vec<MenuItem>,
    usage: AccountUsage,
)
    requires
        call_ensures(AccountUsageView::menu_on, (view, stale, now, dates), items),
        view.usage == Some(usage),
    ensures
        items.deep_view() == seq![ItemModel::Header("ChatGPT account usage"@)] + (match view.error {
            Some(error) => seq![ItemModel::Label("Usage unavailable: "@ + error@)],
            None => Seq::empty(),
        }) + ((match usage.plan {
            Some(plan) => seq![ItemModel::Label("Plan: "@ + plan@)],
            None => Seq::empty(),
        }) + (if usage.fetched_at@ <= now@ {
            seq![
                ItemModel::Label(
                    "Updated "@ + text::decimal(
                        ((now@ - usage.fetched_at@) / 1_000_000_000) as nat,
                    ) + " seconds ago"@,
                ),
            ]
        } else {
            Seq::empty()
        }) + usage.warnings.deep_view().map_values(
            |content: Seq<char>| ItemModel::Label(content),
        ) + usage_menu::buckets_items(
            usage.buckets.deep_view(),
            stale,
            now@,
            dates.deep_view(),
            usage.buckets@.len() as int,
        ) + seq![ItemModel::Separator] + usage.details.deep_view().map_values(
            |content: Seq<char>| ItemModel::Label(content),
        ) + seq![
            ItemModel::Label("Included quota and purchased credits are separate."@),
            ItemModel::Label(
                "Usage may lag recent requests. Extra buckets have their own limits."@,
            ),
        ]) + seq![ItemModel::Separator, ItemModel::Refresh("Refresh usage"@)],
{
    let buckets = usage.buckets.deep_view();
    assert(buckets.len() == usage.buckets@.len());
}

/// The kinds of use follow one another in the menu, and within each its name, what is said of it,
/// and its quotas, each with its reset.
pub proof fn menu_shows_quotas_in_order(
    buckets: Seq<BucketModel>,
    stale: bool,
    now: int,
    days: Seq<Seq<Option<Seq<char>>>>,
    n: int,
    windows: Seq<WindowModel>,
    own: Seq<Option<Seq<char>>>,
    i: int,
)
    requires
        0 <= n < buckets.len(),
        n < days.len(),
        0 <= i < windows.len(),
        i < own.len(),
    ensures
        usage_menu::buckets_items(buckets, stale, now, days, 0).len() == 0,
        usage_menu::buckets_items(buckets, stale, now, days, n + 1) == usage_menu::buckets_items(
            buckets,
            stale,
            now,
            days,
            n,
        ) + (seq![ItemModel::Separator, ItemModel::Header(buckets[n].name)] + (match
            usage_view::status_text(buckets[n]) {
            Some(status) => seq![ItemModel::Label(status)],
            None => Seq::empty(),
        }) + (if buckets[n].windows.len() == 0 {
            seq![ItemModel::Label("Window data unavailable"@)]
        } else {
            Seq::empty()
        }) + usage_menu::window_items(
            buckets[n].windows,
            stale,
            now,
            days[n],
            buckets[n].windows.len() as int,
        )),
        usage_menu::window_items(windows, stale, now, own, 0).len() == 0,
        usage_menu::window_items(windows, stale, now, own, i + 1) == usage_menu::window_items(
            windows,
            stale,
            now,
            own,
            i,
        ) + seq![ItemModel::Meter(usage_view::meter_of(windows[i], stale, false))] + (match
            usage_view::reset_text(windows[i], now, own[i]) {
            Some(label) => seq![ItemModel::Label(label)],
            None => Seq::empty(),
        }),
{
}

/// The menu begins with its title and, where the usage could not be had, with the reason; it ends
/// with the entry that asks for the usage anew. Without usage nothing else is in it.
pub proof fn menu_has_title_and_refresh(
    view: &AccountUsageView,
    stale: bool,
    now: Timestamp,
    dates: &Dates,
    items: Vec<MenuItem>,
)
    requires
        call_ensures(AccountUsageView::menu_on, (view, stale, now, dates), items),
    ensures
        ({
            let lines = items.deep_view();
            let count = lines.len() as int;
            &&& lines[0] == ItemModel::Header("ChatGPT account usage"@)
            &&& view.error matches Some(error) ==> lines[1] == ItemModel::Label(
                "Usage unavailable: "@ + error@,
            )
            &&& lines[count - 2] == ItemModel::Separator
            &&& lines[count - 1] == ItemModel::Refresh("Refresh usage"@)
            &&& view.usage is None ==> count == (if view.error is Some {
                4int
            } else {
                3int
            })
        }),
{
}

/// The menu tells the plan, the age of the usage in seconds, all warnings and all details, and how
/// the quotas are to be read.
pub proof fn menu_tells_plan_age_and_details(
    view: &AccountUsageView,
    stale: bool,
    now: Timestamp,
    dates: &Dates,
    items: Vec<MenuItem>,
    usage: AccountUsage,
    seconds: int,
    i: int,
)
    requires
        call_ensures(AccountUsageView::menu_on, (view, stale, now, dates), items),
        view.usage == Some(usage),
    ensures
        ({
            let lines = items.deep_view();
            &&& usage.plan matches Some(plan) ==> lines.contains(
                ItemModel::Label("Plan: "@ + plan@),
            )
            &&& 0 <= seconds && seconds * 1_000_000_000 <= now@ - usage.fetched_at@ < (seconds + 1)
                * 1_000_000_000 ==> lines.contains(
                ItemModel::Label("Updated "@ + text::decimal(seconds as nat) + " seconds ago"@),
            )
            &&& 0 <= i < usage.warnings@.len() ==> lines.contains(
                ItemModel::Label(usage.warnings@[i]@),
            )
            &&& 0 <= i < usage.details@.len() ==> lines.contains(
                ItemModel::Label(usage.details@[i]@),
            )
            &&& lines.contains(
                ItemModel::Label("Included quota and purchased credits are separate."@),
            )
            &&& lines.contains(
                ItemModel::Label(
                    "Usage may lag recent requests. Extra buckets have their own limits."@,
                ),
            )
        }),
{
    let lines = items.deep_view();
    let model = usage@;
    let head = seq![ItemModel::Header("ChatGPT account usage"@)] + usage_menu::optional_label(
        match view@.error {
            Some(error) => Some("Usage unavailable: "@ + error),
            None => None,
        },
    );
    let plan = usage_menu::optional_label(
        match model.plan {
            Some(plan) => Some("Plan: "@ + plan),
            None => None,
        },
    );
    let age = usage_menu::optional_label(usage_menu::age_text(model, now@));
    let warnings = usage_menu::labels(model.warnings);
    let buckets = usage_menu::buckets_items(
        model.buckets,
        stale,
        now@,
        dates.deep_view(),
        model.buckets.len() as int,
    );
    let details = usage_menu::labels(model.details);
    let notes = seq![
        ItemModel::Label("Included quota and purchased credits are separate."@),
        ItemModel::Label("Usage may lag recent requests. Extra buckets have their own limits."@),
    ];
    let h = head.len() as int;
    let p = h + plan.len();
    let a = p + age.len();
    let w = a + warnings.len();
    let b = w + buckets.len();
    let d = b + 1 + details.len();
    assert(lines == usage_menu::menu_items(view@, stale, now@, dates.deep_view()));
    if usage.plan is Some {
        assert(lines[h] == plan[0]);
    }
    if 0 <= seconds && seconds * 1_000_000_000 <= now@ - usage.fetched_at@ < (seconds + 1)
        * 1_000_000_000 {
        assert((now@ - model.fetched_at) / 1_000_000_000 == seconds);
        assert(lines[p] == age[0]);
    }
    if 0 <= i < usage.warnings@.len() {
        assert(model.warnings[i] == usage.warnings@[i]@);
        assert(lines[a + i] == warnings[i]);
    }
    if 0 <= i < usage.details@.len() {
        assert(model.details[i] == usage.details@[i]@);
        assert(lines[b + 1 + i] == details[i]);
    }
    assert(lines[d] == notes[0]);
    assert(lines[d + 1] == notes[1]);
}

/// The settings show one card for each account. It offers to use the account by default, unless
/// it is, and where the account does not fare well it says so and offers to sign in again, and to
/// reset a quota that is used up.
pub proof fn settings_show_every_account<T>(
    state: &State<T>,
    compact: bool,
    now: u64,
    r: Configuration,
    entries: Vec<AccountEntry>,
    i: int,
)
    requires
        call_ensures(configuration::configuration_at::<T>, (state, compact, now), r),
        call_ensures(State::<T>::accounts_at, (state, now), entries),
        0 <= i < entries@.len(),
    ensures
        ({
            let card = r.cards@[i];
            let entry = entries@[i];
            &&& r.cards@.len() == entries@.len()
            &&& card.id@ == entry.id@
            &&& card.label@ == entry.label@
            &&& card.card_id@ == "account-"@ + entry.id@
            &&& card.select_id@ == "select-"@ + entry.id@
            &&& entry.selected ==> card.select_disabled && card.select_label@ == "Default account"@
            &&& !entry.selected ==> !card.select_disabled && card.select_label@ == "Use by default"@
            &&& entry.status@.len() == 0 ==> card.row is None
            &&& entry.status@.len() > 0 ==> (card.row matches Some(row) && row.status@
                == entry.status@ && row.reauth_id@ == "reauth-"@ + entry.id@ && row.reauth_disabled
                == !(state.sign_in_state is Idle) && row.reset_id.deep_view() == (if entry.status@
                == "Plan quota reached"@ {
                Some("reset-"@ + entry.id@)
            } else {
                None
            }))
        }),
{
    let cards = r.cards.deep_view();
    let shown = entries.deep_view();
    assert(cards.len() == r.cards@.len());
    assert(shown.len() == entries@.len());
    assert(cards[i] == r.cards@[i].deep_view());
    assert(shown[i] == entries@[i].deep_view());
    assert(cards[i] == configuration::card(shown[i], !(state@.sign_in_state is Idle)));
    assert(r.cards@[i].row.deep_view() == cards[i].row);
}

/// The settings show the policy as soon as there are accounts, the description unless it stands
/// elsewhere, how a sign-in fares, and what went wrong last.
pub proof fn settings_show_the_state<T>(
    state: &State<T>,
    compact: bool,
    now: u64,
    r: Configuration,
    entries: Vec<AccountEntry>,
    policy: AccountSwitchPolicy,
)
    requires
        call_ensures(configuration::configuration_at::<T>, (state, compact, now), r),
        call_ensures(State::<T>::accounts_at, (state, now), entries),
        call_ensures(State::<T>::switch_policy, (state,), policy),
    ensures
        entries@.len() == 0 ==> r.policy_label is None,
        entries@.len() > 0 ==> (r.policy_label matches Some(label) && label@ == (match policy {
            AccountSwitchPolicy::Manual => "Account switching: Manual"@,
            AccountSwitchPolicy::OnError => "Account switching: On error"@,
        })),
        compact ==> r.description is None && !r.sign_in_full_width,
        !compact ==> r.sign_in_full_width && (r.description matches Some(description)
            && description@
            == "Sign in with your ChatGPT Plus or Pro subscription to use OpenAI models in Zed's agent."@),
        state.sign_in_state is Idle ==> !r.sign_in_disabled && !r.cancellable,
        !(state.sign_in_state is Idle) ==> r.sign_in_disabled && r.sign_in_label@ == "Signing in…"@,
        state.sign_in_state is Idle && entries@.len() > 0 ==> r.sign_in_label@ == "Add Account"@,
        state.sign_in_state is Idle && entries@.len() == 0 ==> r.sign_in_label@ == "Sign In"@,
        r.cancellable == (state.sign_in_state is Authorizing),
        r.catalog_error.deep_view() == state.last_model_catalog_error.deep_view(),
        r.auth_error.deep_view() == state.last_auth_error.deep_view(),
{
    let shown = entries.deep_view();
    assert(shown.len() == entries@.len());
}

/// A policy that is switched is the other one.
pub proof fn policies_switch(policy: AccountSwitchPolicy, r: AccountSwitchPolicy)
    requires
        call_ensures(AccountSwitchPolicy::toggled, (policy,), r),
    ensures
        policy == AccountSwitchPolicy::Manual ==> r == AccountSwitchPolicy::OnError,
        policy == AccountSwitchPolicy::OnError ==> r == AccountSwitchPolicy::Manual,
{
}

/// The policy is the one of the settings, and to switch on errors where they set none.
pub proof fn errors_switch_accounts_by_default<T>(
    state: &State<T>,
    r: AccountSwitchPolicy,
    changed: &mut State<T>,
    policy: Option<AccountSwitchPolicy>,
    effects: state::Effects,
)
    requires
        call_ensures(State::<T>::switch_policy, (state,), r),
        call_ensures(State::<T>::configure_switch_policy, (changed, policy), effects),
    ensures
        state.configured_policy is None ==> r == AccountSwitchPolicy::OnError,
        state.configured_policy matches Some(configured) ==> r == configured,
        final(changed)@.configured_policy == policy,
        final(changed)@.accounts == old(changed)@.accounts,
        effects.notify && !effects.persist && !effects.refresh_catalog,
{
}

/// A model for one account shows just that account as selected.
pub proof fn bound_models_select_their_account<T>(
    model: &OpenAiSubscribedLanguageModel,
    state: &State<T>,
    now: u64,
    shown: Vec<AccountEntry>,
    all: Vec<AccountEntry>,
    i: int,
)
    requires
        call_ensures(OpenAiSubscribedLanguageModel::accounts_at::<T>, (model, state, now), shown),
        call_ensures(State::<T>::accounts_at, (state, now), all),
        0 <= i < all@.len(),
    ensures
        shown@.len() == all@.len(),
        shown@[i].id@ == all@[i].id@,
        shown@[i].label@ == all@[i].label@,
        shown@[i].status@ == all@[i].status@,
        model.account_id is None ==> shown@[i].selected == all@[i].selected,
        model.account_id matches Some(id) ==> shown@[i].selected == (all@[i].id@ == id@),
{
    let a = shown.deep_view();
    let b = all.deep_view();
    assert(a.len() == shown@.len() && b.len() == all@.len());
    assert(b[i] == all@[i].deep_view());
    assert(a[i] == shown@[i].deep_view());
}

/// Signing in by the saved accounts is done where one is signed in, waits while they are loaded,
/// and fails otherwise; while nobody is signed in the settings ask for it.
pub proof fn saved_accounts_sign_in<T>(
    provider: &OpenAiSubscribedProvider<T>,
    r: Authentication<'_, T>,
    signed_in: bool,
    title: Option<&'static str>,
    description: Option<&'static str>,
)
    requires
        call_ensures(OpenAiSubscribedProvider::<T>::authenticate, (provider,), r),
        call_ensures(OpenAiSubscribedProvider::<T>::is_authenticated, (provider,), signed_in),
        call_ensures(OpenAiSubscribedProvider::<T>::settings_title, (provider,), title),
        call_ensures(OpenAiSubscribedProvider::<T>::settings_description, (provider,), description),
    ensures
        signed_in <==> exists|id: Seq<char>| #[trigger]
            provider.state@.accounts.accounts.contains_key(id)
                && provider.state@.accounts.accounts[id].credentials is Some
                && !provider.state@.accounts.accounts[id].needs_reauth,
        signed_in ==> r is Done && title is None && description is None,
        !signed_in && provider.state.load_task is Some ==> r is AwaitLoad,
        !signed_in && provider.state.load_task is None ==> r is CredentialsNotFound,
        !signed_in ==> (title matches Some(content) && content@ == "Configure ChatGPT"@),
        !signed_in ==> (description matches Some(content) && content@
            == "Sign in with your ChatGPT Plus or Pro subscription to use OpenAI models in Zed's agent."@),
{
    let accounts = provider.state@.accounts;
    if exists|id: Seq<char>| #[trigger]
        accounts.accounts.contains_key(id) && accounts.accounts[id].credentials is Some
            && !accounts.accounts[id].needs_reauth {
        let id = choose|id: Seq<char>| #[trigger]
            accounts.accounts.contains_key(id) && accounts.accounts[id].credentials is Some
                && !accounts.accounts[id].needs_reauth;
        assert(accounts.accounts[id].signed_in());
    }
    if accounts.authenticated() {
        let id = choose|id: Seq<char>| #[trigger]
            accounts.accounts.contains_key(id) && accounts.accounts[id].signed_in();
        assert(accounts.accounts.contains_key(id));
    }
}

/// What users are told, and how many requests are sent at once.
pub proof fn users_are_told()
    ensures
        provider::AUTHENTICATION_ERROR_MESSAGE@
            == "Your ChatGPT subscription session is invalid or has expired. Sign in again via Settings > AI > LLM Providers to continue."@,
        provider::MISSING_CREDENTIALS_ERROR_MESSAGE@
            == "You are not signed in to your ChatGPT account. Sign in via Settings > AI > LLM Providers to continue."@,
        provider::FAST_MODE_TITLE@ == "Enable Fast Mode for OpenAI?"@,
        provider::FAST_MODE_MESSAGE@
            == "Fast mode sends requests using OpenAI's Priority processing tier, which targets significantly lower latency than the standard tier and is billed at a premium per-token rate."@,
        provider::REQUEST_LIMIT == 4,
        crate::stream::STALLED_MESSAGE@ == "ChatGPT response stream timed out"@,
        crate::usage_fetch::USAGE_TIMEOUT_MESSAGE@ == "ChatGPT usage request timed out"@,
        crate::models::PROVIDER_ID@ == "openai-subscribed"@,
        crate::models::PROVIDER_NAME@ == "ChatGPT Subscription"@,
{
}

/// Every model can be offered tools, be told to use them, call them in pieces, think, and have its
/// context made shorter; it answers faster on demand if it offers that.
pub proof fn models_can_do_this(
    model: &OpenAiSubscribedLanguageModel,
    tools: bool,
    choice: bool,
    streaming: bool,
    thinking: bool,
    fast: bool,
    server: bool,
    explicit: bool,
)
    requires
        call_ensures(OpenAiSubscribedLanguageModel::supports_tools, (model,), tools),
        call_ensures(OpenAiSubscribedLanguageModel::supports_tool_choice, (model,), choice),
        call_ensures(OpenAiSubscribedLanguageModel::supports_streaming_tools, (model,), streaming),
        call_ensures(OpenAiSubscribedLanguageModel::supports_thinking, (model,), thinking),
        call_ensures(OpenAiSubscribedLanguageModel::supports_fast_mode, (model,), fast),
        call_ensures(
            OpenAiSubscribedLanguageModel::supports_server_side_compaction,
            (model,),
            server,
        ),
        call_ensures(
            OpenAiSubscribedLanguageModel::supports_explicit_compaction,
            (model,),
            explicit,
        ),
    ensures
        tools && choice && streaming && thinking && server && explicit,
        fast == model.model@.supports_priority,
{
}

} // verus!
