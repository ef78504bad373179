//! What holds of functions that read the wall clock: they do what is done at a time, at the time of
//! a reading.
use crate::accounts::{Account, Accounts};
use crate::configuration;
use crate::configuration::Configuration;
use crate::credentials::CodexCredentials;
use crate::failover;
use crate::failover::{EventModel, Failover, FailoverAction, FailoverEvent};
use crate::failure;
use crate::failure::{AccountFailure, FailureModel, RequestError, StreamEvent};
use crate::provider;
use crate::provider::OpenAiSubscribedLanguageModel;
use crate::refresh::CredentialsSource;
use crate::sign_in;
use crate::sign_in::{SignInAction, SignInEvent};
use crate::state;
use crate::state::{AccountEntry, Effects, State};
use crate::stream;
use crate::stream::MonitorStep;
use crate::time;
use crate::time::Timestamp;
use crate::usage::{AccountUsage, QuotaWindow};
use crate::usage_menu;
use crate::usage_menu::{Dates, MenuItem};
use crate::usage_view;
use crate::usage_view::AccountUsageView;
use std::time::SystemTime;
use vstd::prelude::*;
use vstd::string::*;

verus! {

/// The milliseconds of a reading are the whole milliseconds since the start of 1970, and none for a
/// reading before it.
pub proof fn readings_count_from_1970(reading: SystemTime)
    ensures
        time::epoch_offset(reading) < 0 ==> time::read_ms(reading) == 0,
        0 <= time::epoch_offset(reading) < 0x1_0000_0000_0000_0000 * 1_000_000 ==> time::read_ms(
            reading,
        ) * 1_000_000 <= time::epoch_offset(reading) < (time::read_ms(reading) + 1) * 1_000_000,
{
}

/// The clock is read in milliseconds, and as a moment in nanoseconds.
pub proof fn clock_is_read(ms: u64, moment: Timestamp)
    requires
        call_ensures(time::now_ms, (), ms),
        call_ensures(Timestamp::now, (), moment),
    ensures
        exists|reading: SystemTime| ms == #[trigger] time::read_ms(reading),
        exists|reading: SystemTime|
            {
                let offset = #[trigger] time::epoch_offset(reading);
                -9_000_000_000_000_000_000_000_000_000 < offset
                    < 9_000_000_000_000_000_000_000_000_000 ==> moment@ == offset
            },
{
    let reading = choose|reading: SystemTime|
        moment@ == time::nearest(#[trigger] time::epoch_offset(reading));
    assert(moment@ == time::nearest(time::epoch_offset(reading)));
}

/// Whether a token is expired, and whether an account can serve a request, is judged by the clock.
pub proof fn clock_judges_tokens_and_accounts(
    credentials: &CodexCredentials,
    expired: bool,
    account: &Account,
    model: &str,
    available: bool,
)
    requires
        call_ensures(CodexCredentials::is_expired, (credentials,), expired),
        call_ensures(Account::available, (account, model), available),
    ensures
        exists|reading: SystemTime|
            expired == (credentials.expires_at_ms - #[trigger] time::read_ms(reading) <= 300_000),
        exists|reading: SystemTime|
            available == account@.available_at(model@, #[trigger] time::read_ms(reading)),
{
    let reading = choose|reading: SystemTime|
        expired == credentials@.expired_at(#[trigger] time::read_ms(reading));
    assert(expired == (credentials.expires_at_ms - time::read_ms(reading) <= 300_000));
}

/// What an error says of an account, and what a failed request reports, is judged by the clock.
pub proof fn clock_judges_failures(
    error: &RequestError,
    r: AccountFailure,
    failed: RequestError,
    event: FailoverEvent,
)
    requires
        call_ensures(failure::classify_failure, (error,), r),
        call_ensures(failover::failed, (failed,), event),
    ensures
        exists|reading: SystemTime|
            r@ == failure::failure_of(
                *error,
                failure::body_payload(*error),
                #[trigger] time::read_ms(reading),
            ),
        exists|reading: SystemTime|
            event@ == (EventModel::Failed {
                error: failed,
                failure: failure::failure_of(
                    failed,
                    failure::body_payload(failed),
                    #[trigger] time::read_ms(reading),
                ),
            }),
{
}

/// A request goes on by the clock.
pub proof fn clock_moves_requests(
    request: &mut Failover,
    event: FailoverEvent,
    accounts: &Accounts,
    action: FailoverAction,
)
    requires
        call_ensures(Failover::step, (request, event, accounts), action),
    ensures
        exists|reading: SystemTime|
            (final(request)@, action@) == old(request)@.next(
                event@,
                accounts@,
                #[trigger] time::read_ms(reading),
            ),
{
}

/// What an event of a stream means is judged by the clock.
pub proof fn clock_judges_events(event: Option<&StreamEvent>, step: MonitorStep)
    requires
        call_ensures(stream::monitor_event, (event,), step),
    ensures
        event is None ==> step is PassOnAndStop,
        event matches Some(event) ==> {
            &&& event.reported() is None ==> step is PassOn
            &&& exists|reading: SystemTime, judged: Option<FailureModel>| #[trigger]
                stream::event_failure(*event, time::read_ms(reading), judged) && step@
                    == stream::monitored(false, judged)
        },
{
}

/// Accounts are taken in, signed in and shown by the clock.
pub proof fn clock_governs_accounts<T>(
    accounts: &mut Accounts,
    credentials: CodexCredentials,
    r: (),
    state: &State<T>,
    shown: Vec<AccountEntry>,
    stepped: &mut State<T>,
    event: SignInEvent,
    next: (SignInAction, Effects),
)
    requires
        call_ensures(Accounts::insert, (accounts, credentials), r),
        call_ensures(State::<T>::accounts, (state,), shown),
        call_ensures(State::<T>::sign_in_step, (stepped, event), next),
    ensures
        exists|reading: SystemTime|
            final(accounts)@ == old(accounts)@.inserted(
                credentials@,
                #[trigger] time::read_ms(reading),
            ),
        exists|reading: SystemTime|
            shown.deep_view() == state::entries(
                state@.accounts,
                #[trigger] time::read_ms(reading),
            ),
        exists|reading: SystemTime|
            final(stepped)@ == old(stepped)@.after_sign_in_event(
                event,
                #[trigger] time::read_ms(reading),
            ),
        next.0 == sign_in::next_action(event),
        next.1.persist == (event is Authorized) && next.1.refresh_catalog == (event is Saved),
{
}

/// Where credentials come from is judged by the clock.
pub proof fn clock_judges_credentials<T>(
    state: &State<T>,
    id: &str,
    rejected: Option<&str>,
    r: CredentialsSource<'_, T>,
)
    requires
        call_ensures(State::<T>::credentials_source, (state, id, rejected), r),
    ensures
        exists|reading: SystemTime|
            r@ == state@.source(
                id@,
                rejected.deep_view(),
                #[trigger] time::read_ms(reading),
            ),
{
}

/// The settings, and what a model shows of the accounts, are as they are by the clock.
pub proof fn clock_governs_settings<T>(
    state: &State<T>,
    compact: bool,
    r: Configuration,
    model: &OpenAiSubscribedLanguageModel,
    shown: Vec<AccountEntry>,
)
    requires
        call_ensures(configuration::configuration::<T>, (state, compact), r),
        call_ensures(OpenAiSubscribedLanguageModel::accounts::<T>, (model, state), shown),
    ensures
        exists|reading: SystemTime|
            r@ == configuration::configuration_of(
                state@,
                state::entries(state@.accounts, #[trigger] time::read_ms(reading)),
                compact,
            ),
        exists|reading: SystemTime|
            shown.deep_view() == provider::bound_entries(
                state::entries(state@.accounts, #[trigger] time::read_ms(reading)),
                model.account_id.deep_view(),
            ),
{
}

/// The date of a reset is the day and the time of day of that moment, written as month, day, year
/// and time, in a time zone that is less than a day ahead of UTC or behind it.
pub open spec fn dates_reset(date: Seq<char>, moment: int) -> bool {
    exists|offset: int|
        -86_400 < offset < 86_400 && date == #[trigger] usage_view::date_text(
            moment / 1_000_000_000,
            offset,
            "%-m/%-d/%Y at %-I:%M%p"@,
        )
}

/// A reset since 1970 has a date, which is its own.
pub proof fn resets_have_their_own_date(window: &QuotaWindow, date: Option<String>)
    requires
        call_ensures(usage_view::reset_date, (window,), date),
    ensures
        window.resets_at is None ==> date is None,
        window.resets_at matches Some(moment) ==> {
            &&& moment@ < 0 ==> date is None
            &&& 0 <= moment@ < 8_210_266_876_800_000_000_000 ==> date is Some
            &&& date matches Some(day) ==> dates_reset(day@, moment@)
        },
{
}

/// What is said of a reset at a moment is what is said with its own date.
pub proof fn resets_are_told_with_their_date(
    window: &QuotaWindow,
    now: Timestamp,
    r: Option<String>,
    wall: Option<String>,
)
    requires
        call_ensures(usage_view::reset_label_at, (window, now), r),
        call_ensures(usage_view::reset_label, (window,), wall),
    ensures
        exists|date: Option<Seq<char>>| #[trigger]
            usage_view::datable(window.deep_view(), date) && r.deep_view()
                == usage_view::reset_text(window.deep_view(), now@, date),
        exists|reading: SystemTime, date: Option<Seq<char>>| #[trigger]
            usage_view::datable(window.deep_view(), date) && wall.deep_view()
                == usage_view::reset_text(
                window.deep_view(),
                time::nearest(#[trigger] time::epoch_offset(reading)),
                date,
            ),
{
}

/// A date fits a quota if it is that of its reset.
pub proof fn fitting_dates_are_those_of_resets(window: QuotaWindow, date: Seq<char>)
    requires
        usage_view::datable(window.deep_view(), Some(date)),
    ensures
        window.resets_at matches Some(moment) && moment@ >= 0 && dates_reset(date, moment@),
{
}

/// The menu shows each quota with its own date.
pub proof fn menus_show_own_dates(
    usage: &AccountUsage,
    dates: Dates,
    view: &AccountUsageView,
    stale: bool,
    now: Timestamp,
    items: Vec<MenuItem>,
    n: int,
    k: int,
)
    requires
        call_ensures(usage_menu::reset_dates, (usage,), dates),
        call_ensures(AccountUsageView::menu, (view, stale, now), items),
    ensures
        dates@.len() == usage.buckets@.len(),
        0 <= n < usage.buckets@.len() && 0 <= k < usage.buckets@[n].windows@.len()
            ==> usage_view::datable(
            usage.buckets@[n].windows@[k].deep_view(),
            dates.deep_view()[n][k],
        ),
        exists|days: Seq<Seq<Option<Seq<char>>>>|
            (view@.usage matches Some(shown) ==> usage_menu::datable_all(shown.buckets, days))
                && items.deep_view() == #[trigger] usage_menu::menu_items(view@, stale, now@, days),
{
    let buckets = usage.buckets.deep_view();
    assert(buckets.len() == usage.buckets@.len());
    assert(dates.deep_view().len() == dates@.len());
    if 0 <= n < usage.buckets@.len() && 0 <= k < usage.buckets@[n].windows@.len() {
        assert(buckets[n] == usage.buckets@[n].deep_view());
        let windows = usage.buckets@[n].windows.deep_view();
        assert(windows.len() == usage.buckets@[n].windows@.len());
        assert(windows[k] == usage.buckets@[n].windows@[k].deep_view());
    }
}

} // verus!
