//! How the usage of an account is shown.
use crate::text;
use crate::time;
use crate::time::Timestamp;
use crate::usage;
use crate::usage::{
    AccountUsage, BucketModel, QuotaWindow, UsageBucket, UsageModel, WindowModel,
};
use std::time::SystemTime;
use vstd::prelude::*;
use vstd::string::*;

verus! {

/// How a date and a time of day are written.
pub const RESET_FORMAT: &'static str = "%-m/%-d/%Y at %-I:%M%p";

/// The name of the quotas that are included in a plan.
pub const INCLUDED_NAME: &'static str = "Included usage";

pub const RESET_PASSED: &'static str = "Reset time passed; refresh to update";

/// After so many seconds usage is stale.
pub const STALE_SECONDS: u32 = 120;

/// The seconds since 1970 of which `chrono` knows the date: from the start of the year -262143 to
/// the end of the year 262142.
pub open spec fn has_date(seconds: int) -> bool {
    -8_334_601_228_800 <= seconds <= 8_210_266_876_799
}

/// The text that `format` of a `chrono::DateTime` gives for some seconds since 1970 in a time zone
/// that is `offset` seconds ahead of UTC.
pub uninterp spec fn date_text(seconds: int, offset: int, format: Seq<char>) -> Seq<char>;

/// `chrono::DateTime::from_timestamp`, then `with_timezone` for `chrono::Local` and `format`: there
/// is a text for the seconds of which `chrono` knows the date, and none for others.
///
/// The text depends on the seconds, the format and the offset of the local time zone, which is
/// less than a day either way. Which offset that is, is up to the machine's time zone.
#[verifier::external_body]
fn local_date(seconds: i64, format: &str) -> (r: Option<String>)
    requires
        format@ == RESET_FORMAT@,
    ensures
        r is Some == has_date(seconds as int),
        r matches Some(date) ==> exists|offset: int|
            -86_400 < offset < 86_400 && date@ == #[trigger] date_text(
                seconds as int,
                offset,
                format@,
            ),
{
    let date = chrono::DateTime::from_timestamp(seconds, 0)?;
    Some(date.with_timezone(&chrono::Local).format(format).to_string())
}

/// What is said of whether quotas can be used: nothing if they can.
pub open spec fn status_text(bucket: BucketModel) -> Option<Seq<char>> {
    let included = bucket.name == INCLUDED_NAME@;
    if bucket.limit_reached == Some(true) {
        Some(
            if included {
                "Included quota exhausted"@
            } else {
                "Quota exhausted"@
            },
        )
    } else if bucket.allowed == Some(false) {
        Some(
            if included {
                "Included usage unavailable"@
            } else {
                "Usage currently unavailable"@
            },
        )
    } else if bucket.allowed is None {
        Some("Availability unknown"@)
    } else {
        None
    }
}

/// What is said of whether quotas can be used.
pub fn bucket_status(bucket: &UsageBucket) -> (r: Option<&'static str>)
    ensures
        r.deep_view() == status_text(bucket.deep_view()),
{
    let reached = match bucket.limit_reached {
        Some(reached) => reached,
        None => false,
    };
    if reached {
        return Some(
            if text::same(&bucket.name, INCLUDED_NAME) {
                "Included quota exhausted"
            } else {
                "Quota exhausted"
            },
        );
    }
    match bucket.allowed {
        Some(false) => Some(
            if text::same(&bucket.name, INCLUDED_NAME) {
                "Included usage unavailable"
            } else {
                "Usage currently unavailable"
            },
        ),
        Some(true) => None,
        None => Some("Availability unknown"),
    }
}

/// What is said of how much is left of a quota.
pub open spec fn remaining_text(window: WindowModel) -> Seq<char> {
    match window.remaining_percent {
        Some(percent) => window.label + ": "@ + percent.text() + "% left"@,
        None => window.label + ": unavailable"@,
    }
}

/// What is said of how much is left of a quota.
pub fn remaining_label(window: &QuotaWindow) -> (r: String)
    ensures
        r@ == remaining_text(window.deep_view()),
{
    match &window.remaining_percent {
        Some(percent) => {
            let mut r = text::joined(&window.label, ": ");
            r.append(&percent.text());
            r.append("% left");
            r
        },
        None => text::joined(&window.label, ": unavailable"),
    }
}

/// What in an error says that the service could not be reached.
pub open spec fn connection_signals() -> Seq<Seq<char>> {
    seq!["connect"@, "dns"@]
}

/// What in an error says that no answer came in time.
pub open spec fn timeout_signals() -> Seq<Seq<char>> {
    seq!["timed out"@, "timeout"@]
}

/// What in an error says that the user has to sign in.
pub open spec fn sign_in_signals() -> Seq<Seq<char>> {
    seq!["401"@, "authentication"@, "reauth"@, "invalid_grant"@]
}

/// What in an error says that access is denied.
pub open spec fn denial_signals() -> Seq<Seq<char>> {
    seq!["403"@]
}

/// What in an error says that too many requests were sent.
pub open spec fn excess_signals() -> Seq<Seq<char>> {
    seq!["429"@]
}

/// What in an error says that the answer could not be used.
pub open spec fn response_signals() -> Seq<Seq<char>> {
    seq!["invalid chatgpt usage response"@, "different account"@]
}

/// What is said of an error: its kind, and nothing of what it quotes.
pub open spec fn error_kind(error: Seq<char>) -> Seq<char> {
    if text::mentions(error, connection_signals()) {
        "connection error"@
    } else if text::mentions(error, timeout_signals()) {
        "request timed out"@
    } else if text::mentions(error, sign_in_signals()) {
        "sign-in required"@
    } else if text::mentions(error, denial_signals()) {
        "access denied"@
    } else if text::mentions(error, excess_signals()) {
        "too many requests"@
    } else if text::mentions(error, response_signals()) {
        "invalid response"@
    } else {
        "could not refresh"@
    }
}

/// What is said of an error.
pub fn usage_error_label(error: &str) -> (r: &'static str)
    ensures
        r@ == error_kind(error@),
{
    let small = text::lowered_chars(error);
    let connection: Vec<&str> = vec!["connect", "dns"];
    assert(connection.deep_view() =~= connection_signals());
    let timeout: Vec<&str> = vec!["timed out", "timeout"];
    assert(timeout.deep_view() =~= timeout_signals());
    let sign_in: Vec<&str> = vec!["401", "authentication", "reauth", "invalid_grant"];
    assert(sign_in.deep_view() =~= sign_in_signals());
    let denial: Vec<&str> = vec!["403"];
    assert(denial.deep_view() =~= denial_signals());
    let excess: Vec<&str> = vec!["429"];
    assert(excess.deep_view() =~= excess_signals());
    let response: Vec<&str> = vec!["invalid chatgpt usage response", "different account"];
    assert(response.deep_view() =~= response_signals());
    if text::mentions_any(&small, &connection) {
        "connection error"
    } else if text::mentions_any(&small, &timeout) {
        "request timed out"
    } else if text::mentions_any(&small, &sign_in) {
        "sign-in required"
    } else if text::mentions_any(&small, &denial) {
        "access denied"
    } else if text::mentions_any(&small, &excess) {
        "too many requests"
    } else if text::mentions_any(&small, &response) {
        "invalid response"
    } else {
        "could not refresh"
    }
}

/// The minutes in some seconds, rounded up, one at least.
pub open spec fn minutes_left(seconds: int) -> int {
    if seconds <= 60 {
        1
    } else {
        (seconds + 59) / 60
    }
}

/// How long it is until then, in the two largest units.
pub open spec fn countdown(seconds: int) -> Seq<char> {
    let minutes = minutes_left(seconds);
    if minutes >= 1440 {
        text::decimal((minutes / 1440) as nat) + "d "@ + text::decimal(
            ((minutes % 1440) / 60) as nat,
        ) + "h"@
    } else if minutes >= 60 {
        text::decimal((minutes / 60) as nat) + "h "@ + text::decimal((minutes % 60) as nat) + "m"@
    } else {
        text::decimal(minutes as nat) + "m"@
    }
}

/// How long it is until then.
pub fn countdown_of(seconds: u64) -> (r: String)
    ensures
        r@ == countdown(seconds as int),
{
    let minutes: u64 = if seconds <= 60 {
        1
    } else {
        (seconds - 1) / 60 + 1
    };
    assert(minutes == minutes_left(seconds as int));
    let mut r = String::new();
    proof {
        reveal_strlit("");
        assert(r@ =~= Seq::<char>::empty());
    }
    if minutes >= 1440 {
        text::push_decimal(&mut r, minutes / 1440);
        r.append("d ");
        text::push_decimal(&mut r, (minutes % 1440) / 60);
        r.append("h");
    } else if minutes >= 60 {
        text::push_decimal(&mut r, minutes / 60);
        r.append("h ");
        text::push_decimal(&mut r, minutes % 60);
        r.append("m");
    } else {
        text::push_decimal(&mut r, minutes);
        r.append("m");
    }
    assert(r@ =~= countdown(seconds as int));
    r
}

/// What is said of when a quota is there again, given the local date of that moment.
pub open spec fn reset_text(window: WindowModel, now: int, date: Option<Seq<char>>) -> Option<
    Seq<char>,
> {
    match window.resets_at {
        None => None,
        Some(moment) => match time::whole_seconds(moment, now) {
            None => Some(RESET_PASSED@),
            Some(seconds) => match date {
                Some(date) => if moment < 0 {
                    None
                } else {
                    Some("Resets on "@ + date + " ("@ + countdown(seconds) + ")"@)
                },
                None => None,
            },
        },
    }
}

/// `date` can be the local date at which a quota is there again: there is one for a moment since
/// 1970 of which the date is known, and it is the date and the time of that moment in some time
/// zone.
pub open spec fn datable(window: WindowModel, date: Option<Seq<char>>) -> bool {
    &&& date is Some == (window.resets_at matches Some(moment) && moment >= 0 && has_date(
        moment / 1_000_000_000,
    ))
    &&& date matches Some(date) ==> exists|offset: int|
        -86_400 < offset < 86_400 && date == #[trigger] date_text(
            window.resets_at->0 / 1_000_000_000,
            offset,
            RESET_FORMAT@,
        )
}

/// What is said of when a quota is there again, given the local date of that moment.
pub fn reset_label_on(window: &QuotaWindow, now: Timestamp, date: &Option<String>) -> (r: Option<
    String,
>)
    ensures
        r.deep_view() == reset_text(window.deep_view(), now@, date.deep_view()),
{
    let moment = match window.resets_at {
        Some(moment) => moment,
        None => return None,
    };
    let seconds = match moment.seconds_since(now) {
        Some(seconds) => seconds,
        None => return Some(RESET_PASSED.to_owned()),
    };
    match date {
        Some(date) => {
            if moment.seconds() < 0 {
                return None;
            }
            let mut r = text::joined3("Resets on ", date, " (");
            r.append(&countdown_of(seconds));
            r.append(")");
            Some(r)
        },
        None => None,
    }
}

/// The local date at which a quota is there again.
pub fn reset_date(window: &QuotaWindow) -> (date: Option<String>)
    ensures
        datable(window.deep_view(), date.deep_view()),
{
    match window.resets_at {
        Some(moment) => {
            let seconds = moment.seconds();
            if seconds < 0 {
                None
            } else {
                local_date(seconds, RESET_FORMAT)
            }
        },
        None => None,
    }
}

/// What is said, at a moment, of when a quota is there again.
///
/// The date is that of the reset in the machine's time zone. Of the zone nothing is claimed but
/// that it is less than a day ahead of UTC or behind it.
pub fn reset_label_at(window: &QuotaWindow, now: Timestamp) -> (r: Option<String>)
    ensures
        exists|date: Option<Seq<char>>| #[trigger]
            datable(window.deep_view(), date) && r.deep_view() == reset_text(
                window.deep_view(),
                now@,
                date,
            ),
{
    let date = reset_date(window);
    assert(datable(window.deep_view(), date.deep_view()));
    reset_label_on(window, now, &date)
}

/// What is said, by the wall clock, of when a quota is there again.
pub fn reset_label(window: &QuotaWindow) -> (r: Option<String>)
    ensures
        window.resets_at is None ==> r is None,
        exists|reading: SystemTime, date: Option<Seq<char>>| #[trigger]
            datable(window.deep_view(), date) && r.deep_view() == reset_text(
                window.deep_view(),
                time::nearest(#[trigger] time::epoch_offset(reading)),
                date,
            ),
{
    let now = Timestamp::now();
    reset_label_at(window, now)
}

/// The color of a meter.
#[derive(Clone, Copy, Debug, PartialEq, Eq, Structural)]
pub enum Tone {
    Muted,
    Warning,
    Info,
}

/// A meter of what is left of a quota.
#[derive(Debug)]
pub struct Meter {
    pub label: String,
    pub tone: Tone,
    /// How far the meter is filled, as the bits of a 64-bit floating-point percentage; one of
    /// which nothing is known has no bar.
    pub bar: Option<u64>,
}

/// What a meter holds.
#[verifier::ext_equal]
pub struct MeterModel {
    pub label: Seq<char>,
    pub tone: Tone,
    pub bar: Option<u64>,
}

impl DeepView for Meter {
    type V = MeterModel;

    open spec fn deep_view(&self) -> MeterModel {
        MeterModel { label: self.label@, tone: self.tone, bar: self.bar }
    }
}

/// The meter of a quota.
pub open spec fn meter_of(window: WindowModel, muted: bool, compact: bool) -> MeterModel {
    MeterModel {
        label: if compact {
            match window.remaining_percent {
                Some(percent) => percent.text() + "%"@,
                None => "—"@,
            }
        } else {
            remaining_text(window)
        },
        tone: if muted {
            Tone::Muted
        } else if window.remaining_percent matches Some(percent) && percent.low() {
            Tone::Warning
        } else {
            Tone::Info
        },
        bar: match window.remaining_percent {
            Some(percent) => Some(percent.bits),
            None => None,
        },
    }
}

/// The meter of a quota.
pub fn meter(window: &QuotaWindow, muted: bool, compact: bool) -> (r: Meter)
    ensures
        r.deep_view() == meter_of(window.deep_view(), muted, compact),
        r.bar matches Some(bits) ==> usage::is_percentage(bits),
{
    let low = match &window.remaining_percent {
        Some(percent) => percent.is_low(),
        None => false,
    };
    Meter {
        label: if compact {
            match &window.remaining_percent {
                Some(percent) => text::joined(&percent.text(), "%"),
                None => "—".to_owned(),
            }
        } else {
            remaining_label(window)
        },
        tone: if muted {
            Tone::Muted
        } else if low {
            Tone::Warning
        } else {
            Tone::Info
        },
        bar: match &window.remaining_percent {
            Some(percent) => Some(percent.bits()),
            None => None,
        },
    }
}

/// What the view of an account's usage shows.
#[derive(Debug)]
pub struct AccountUsageView {
    pub usage: Option<AccountUsage>,
    pub error: Option<String>,
    pub loading: bool,
    pub refresh_due: bool,
}

/// What the view holds.
#[verifier::ext_equal]
pub struct ViewModel {
    pub usage: Option<UsageModel>,
    pub error: Option<Seq<char>>,
    pub loading: bool,
    pub refresh_due: bool,
}

impl View for AccountUsageView {
    type V = ViewModel;

    open spec fn view(&self) -> ViewModel {
        ViewModel {
            usage: match self.usage {
                Some(usage) => Some(usage@),
                None => None,
            },
            error: self.error.deep_view(),
            loading: self.loading,
            refresh_due: self.refresh_due,
        }
    }
}

impl ViewModel {
    /// The usage is asked for.
    pub open spec fn refreshing(self) -> ViewModel {
        ViewModel { loading: true, refresh_due: false, ..self }
    }

    /// The usage is there, or could not be had: the last known usage stays then.
    pub open spec fn refreshed(self, result: Result<UsageModel, Seq<char>>) -> ViewModel {
        match result {
            Ok(usage) => ViewModel { loading: false, usage: Some(usage), error: None, ..self },
            Err(error) => ViewModel { loading: false, error: Some(error_kind(error)), ..self },
        }
    }

    /// The usage may no longer be what it was.
    pub open spec fn stale(self, now: int) -> bool {
        self.usage matches Some(usage) && (self.error is Some || now - usage.fetched_at
            > STALE_SECONDS * 1_000_000_000)
    }
}

impl AccountUsageView {
    /// A view for which the usage is asked for.
    pub fn new() -> (r: Self)
        ensures
            r@ == (ViewModel { usage: None, error: None, loading: true, refresh_due: false }),
    {
        AccountUsageView { usage: None, error: None, loading: true, refresh_due: false }
    }

    /// Asks for the usage.
    pub fn refresh(&mut self)
        ensures
            final(self)@ == old(self)@.refreshing(),
    {
        self.loading = true;
        self.refresh_due = false;
    }

    /// Takes in the usage, or why it could not be had.
    pub fn finish_refresh(&mut self, result: Result<AccountUsage, String>)
        ensures
            final(self)@ == old(self)@.refreshed(
                match result {
                    Ok(usage) => Ok(usage@),
                    Err(error) => Err(error@),
                },
            ),
    {
        self.loading = false;
        match result {
            Ok(usage) => {
                self.usage = Some(usage);
                self.error = None;
            },
            Err(error) => {
                self.error = Some(usage_error_label(&error).to_owned());
            },
        }
    }

    /// Notes that the usage is to be asked for when the view is shown again.
    pub fn mark_due(&mut self)
        ensures
            final(self)@ == (ViewModel { refresh_due: true, ..old(self)@ }),
    {
        self.refresh_due = true;
    }

    /// Asks for the usage if that is due, and says whether it was.
    pub fn refresh_if_due(&mut self) -> (due: bool)
        ensures
            due == old(self)@.refresh_due,
            final(self)@ == (if old(self)@.refresh_due {
                old(self)@.refreshing()
            } else {
                old(self)@
            }),
    {
        if self.refresh_due {
            self.refresh();
            return true;
        }
        false
    }
}

/// The first of the kinds of use from a place on that cannot be used.
pub open spec fn first_unavailable(buckets: Seq<BucketModel>, from: int) -> Option<Seq<char>>
    decreases buckets.len() - from,
{
    if from < 0 || from >= buckets.len() {
        None
    } else if buckets[from].limit_reached == Some(true) || buckets[from].allowed == Some(false) {
        Some(buckets[from].name + ": unavailable"@)
    } else {
        first_unavailable(buckets, from + 1)
    }
}

/// The quotas that are included in the plan.
pub open spec fn included_bucket(usage: Option<UsageModel>) -> Option<BucketModel> {
    match usage {
        Some(usage) => if usage.buckets.len() > 0 {
            Some(usage.buckets[0])
        } else {
            None
        },
        None => None,
    }
}

/// What the user has to know first: a warning, else the state of the included quotas, else a
/// further kind of use that is unavailable.
pub open spec fn notice_of(usage: Option<UsageModel>) -> Option<Seq<char>> {
    match usage {
        None => None,
        Some(model) => if model.warnings.len() > 0 {
            Some(model.warnings[0])
        } else {
            let status = match included_bucket(usage) {
                Some(bucket) => status_text(bucket),
                None => None,
            };
            if status is Some {
                status
            } else {
                first_unavailable(model.buckets, 1)
            }
        },
    }
}

/// The quotas that stand on the button.
pub open spec fn included_windows(usage: Option<UsageModel>) -> Seq<WindowModel> {
    match included_bucket(usage) {
        Some(bucket) => bucket.windows,
        None => Seq::empty(),
    }
}

/// One line, if there is one.
pub open spec fn optional_line(content: Option<Seq<char>>) -> Seq<Seq<char>> {
    match content {
        Some(content) => seq![content],
        None => Seq::empty(),
    }
}

/// The lines that are shown when the pointer rests on the button.
pub open spec fn tooltip_lines(view: ViewModel, now: int) -> Seq<Seq<char>> {
    seq!["Selected account usage"@] + included_windows(view.usage).map_values(
        |window: WindowModel| remaining_text(window),
    ) + (if view.loading {
        seq!["Refreshing usage…"@]
    } else {
        Seq::empty()
    }) + (if view.stale(now) {
        seq!["Stale usage; refresh to update"@]
    } else {
        Seq::empty()
    }) + optional_line(notice_of(view.usage))
}

/// Lines with line breaks between them.
pub open spec fn joined_lines(lines: Seq<Seq<char>>) -> Seq<char>
    decreases lines.len(),
{
    if lines.len() == 0 {
        Seq::empty()
    } else if lines.len() == 1 {
        lines[0]
    } else {
        joined_lines(lines.drop_last()) + "\n"@ + lines.last()
    }
}

/// The button that stands for the usage of the selected account.
#[derive(Debug)]
pub struct UsageButton {
    pub stale: bool,
    pub warning: bool,
    pub meters: Vec<Meter>,
    /// A dash stands where there are no meters.
    pub dash: bool,
    pub tooltip: String,
}

/// What the button holds.
#[verifier::ext_equal]
pub struct ButtonModel {
    pub stale: bool,
    pub warning: bool,
    pub meters: Seq<MeterModel>,
    pub dash: bool,
    pub tooltip: Seq<char>,
}

impl View for UsageButton {
    type V = ButtonModel;

    open spec fn view(&self) -> ButtonModel {
        ButtonModel {
            stale: self.stale,
            warning: self.warning,
            meters: self.meters.deep_view(),
            dash: self.dash,
            tooltip: self.tooltip@,
        }
    }
}

/// The button at a moment.
pub open spec fn button_of(view: ViewModel, now: int) -> ButtonModel {
    let warning = view.error is Some || notice_of(view.usage) is Some;
    let windows = included_windows(view.usage);
    ButtonModel {
        stale: view.stale(now),
        warning,
        meters: windows.map_values(
            |window: WindowModel| meter_of(window, view.stale(now) || warning, true),
        ),
        dash: windows.len() == 0,
        tooltip: joined_lines(tooltip_lines(view, now)),
    }
}

fn lines_joined(lines: &Vec<String>) -> (r: String)
    ensures
        r@ == joined_lines(lines.deep_view()),
{
    let ghost all = lines.deep_view();
    if lines.len() == 0 {
        let r = String::new();
        proof {
            reveal_strlit("");
            assert(r@ =~= Seq::<char>::empty());
        }
        return r;
    }
    let mut r = lines[0].clone();
    let mut i: usize = 1;
    assert(all.take(1)[0] == lines@[0]@);
    while i < lines.len()
        invariant
            all == lines.deep_view(),
            1 <= i <= lines@.len(),
            r@ == joined_lines(all.take(i as int)),
        decreases lines@.len() - i,
    {
        assert(all.take(i + 1).drop_last() =~= all.take(i as int));
        assert(all.take(i + 1).last() == lines@[i as int]@);
        r.append("\n");
        r.append(&lines[i]);
        i += 1;
    }
    assert(all.take(i as int) =~= all);
    r
}

fn push_copy(lines: &mut Vec<String>, content: &str)
    ensures
        final(lines).deep_view() == old(lines).deep_view().push(content@),
{
    let ghost before = lines.deep_view();
    lines.push(content.to_owned());
    assert(lines.deep_view() =~= before.push(content@));
}

fn unavailable_notice(buckets: &Vec<UsageBucket>) -> (r: Option<String>)
    ensures
        r.deep_view() == first_unavailable(buckets.deep_view(), 1),
{
    let ghost all = buckets.deep_view();
    let mut i: usize = 1;
    while i < buckets.len()
        invariant
            all == buckets.deep_view(),
            1 <= i,
            buckets@.len() > 0 ==> i <= buckets@.len(),
            first_unavailable(all, 1) == first_unavailable(all, i as int),
        decreases buckets@.len() - i,
    {
        let bucket = &buckets[i];
        assert(all[i as int] == bucket.deep_view());
        let reached = match bucket.limit_reached {
            Some(reached) => reached,
            None => false,
        };
        let refused = match bucket.allowed {
            Some(allowed) => !allowed,
            None => false,
        };
        if reached || refused {
            return Some(text::joined(&bucket.name, ": unavailable"));
        }
        i += 1;
    }
    None
}

fn usage_notice(usage: &AccountUsage) -> (r: Option<String>)
    ensures
        r.deep_view() == notice_of(Some(usage@)),
{
    if usage.warnings.len() > 0 {
        assert(usage.warnings.deep_view()[0] == usage.warnings@[0]@);
        return Some(usage.warnings[0].clone());
    }
    if usage.buckets.len() > 0 {
        assert(usage.buckets.deep_view()[0] == usage.buckets@[0].deep_view());
        match bucket_status(&usage.buckets[0]) {
            Some(status) => return Some(status.to_owned()),
            None => {},
        }
    }
    unavailable_notice(&usage.buckets)
}

fn push_remaining(lines: &mut Vec<String>, windows: &Vec<QuotaWindow>)
    ensures
        final(lines).deep_view() == old(lines).deep_view() + windows.deep_view().map_values(
            |window: WindowModel| remaining_text(window),
        ),
{
    let ghost before = lines.deep_view();
    let ghost all = windows.deep_view().map_values(|window: WindowModel| remaining_text(window));
    let mut i: usize = 0;
    assert(lines.deep_view() =~= before + all.take(0));
    while i < windows.len()
        invariant
            all == windows.deep_view().map_values(|window: WindowModel| remaining_text(window)),
            i <= windows@.len(),
            lines.deep_view() == before + all.take(i as int),
        decreases windows@.len() - i,
    {
        let content = remaining_label(&windows[i]);
        assert(all[i as int] == content@);
        push_copy(lines, &content);
        assert(lines.deep_view() =~= before + all.take(i + 1));
        i += 1;
    }
    assert(all.take(i as int) =~= all);
}

fn meters_of(windows: &Vec<QuotaWindow>, muted: bool) -> (r: Vec<Meter>)
    ensures
        r.deep_view() == windows.deep_view().map_values(
            |window: WindowModel| meter_of(window, muted, true),
        ),
{
    let ghost all = windows.deep_view().map_values(
        |window: WindowModel| meter_of(window, muted, true),
    );
    let mut r: Vec<Meter> = Vec::new();
    let mut i: usize = 0;
    while i < windows.len()
        invariant
            all == windows.deep_view().map_values(
                |window: WindowModel| meter_of(window, muted, true),
            ),
            i <= windows@.len(),
            r.deep_view() == all.take(i as int),
        decreases windows@.len() - i,
    {
        let ghost before = r.deep_view();
        let shown = meter(&windows[i], muted, true);
        let ghost model = shown.deep_view();
        assert(all[i as int] == model);
        r.push(shown);
        assert(r.deep_view() =~= before.push(model));
        assert(r.deep_view() =~= all.take(i + 1));
        i += 1;
    }
    assert(all.take(i as int) =~= all);
    r
}

impl AccountUsageView {
    /// Whether the usage may no longer be what it was.
    pub fn is_stale(&self, now: Timestamp) -> (r: bool)
        ensures
            r == self@.stale(now@),
    {
        match &self.usage {
            Some(usage) => self.error.is_some() || now.is_past(usage.fetched_at, STALE_SECONDS),
            None => false,
        }
    }

    /// The button at a moment.
    pub fn button(&self, now: Timestamp) -> (r: UsageButton)
        ensures
            r@ == button_of(self@, now@),
    {
        let stale = self.is_stale(now);
        let notice = match &self.usage {
            Some(usage) => usage_notice(usage),
            None => None,
        };
        let warning = self.error.is_some() || notice.is_some();
        let mut lines: Vec<String> = Vec::new();
        let mut meters: Vec<Meter> = Vec::new();
        assert(lines.deep_view() =~= Seq::<Seq<char>>::empty());
        assert(meters.deep_view() =~= Seq::<MeterModel>::empty());
        push_copy(&mut lines, "Selected account usage");
        assert(lines.deep_view() =~= seq!["Selected account usage"@]);
        let ghost windows = included_windows(self@.usage);
        let ghost texts = windows.map_values(|window: WindowModel| remaining_text(window));
        let ghost models = windows.map_values(
            |window: WindowModel| meter_of(window, self@.stale(now@) || warning, true),
        );
        let mut dash = true;
        match &self.usage {
            Some(usage) => {
                if usage.buckets.len() > 0 {
                    let included = &usage.buckets[0];
                    assert(usage.buckets.deep_view()[0] == included.deep_view());
                    push_remaining(&mut lines, &included.windows);
                    meters = meters_of(&included.windows, stale || warning);
                    dash = included.windows.len() == 0;
                }
            },
            None => {},
        }
        assert(lines.deep_view() =~= seq!["Selected account usage"@] + texts);
        assert(meters.deep_view() =~= models);
        if self.loading {
            push_copy(&mut lines, "Refreshing usage…");
        }
        if stale {
            push_copy(&mut lines, "Stale usage; refresh to update");
        }
        match &notice {
            Some(content) => {
                push_copy(&mut lines, content);
            },
            None => {},
        }
        assert(lines.deep_view() =~= tooltip_lines(self@, now@));
        UsageButton { stale, warning, meters, dash, tooltip: lines_joined(&lines) }
    }
}

} // verus!
