//! How much of an account's quota is used, as the service reports it and as it is shown.
use crate::json::Json;
use crate::text;
use crate::time;
use crate::time::Timestamp;
use vstd::prelude::*;
use vstd::string::*;

verus! {

/// The bits of one hundred as a 64-bit floating-point number.
pub const HUNDRED_BITS: u64 = 0x4059_0000_0000_0000;

/// The bits of ten as a 64-bit floating-point number.
pub const TEN_BITS: u64 = 0x4024_0000_0000_0000;

/// The bits of a zero with a minus sign. Numbers below zero have larger bits, others smaller ones.
pub const MINUS_ZERO_BITS: u64 = 0x8000_0000_0000_0000;

/// From here on, the sign left out, bits stand for no finite number.
pub const INFINITY_BITS: u64 = 0x7ff0_0000_0000_0000;

/// The bits stand for a number between 0 and 100: without a sign, larger numbers have larger bits.
pub open spec fn is_percentage(bits: u64) -> bool {
    bits <= HUNDRED_BITS || bits == MINUS_ZERO_BITS
}

/// The bits of the number between 0 and 100 that is nearest to the one that `bits` stand for,
/// if that one is finite.
pub open spec fn clamped_bits(bits: u64) -> Option<u64> {
    if bits % MINUS_ZERO_BITS >= INFINITY_BITS {
        None
    } else if bits > MINUS_ZERO_BITS {
        Some(0)
    } else if HUNDRED_BITS < bits < MINUS_ZERO_BITS {
        Some(HUNDRED_BITS)
    } else {
        Some(bits)
    }
}

/// The whole number between 0 and 100 that is nearest to `n`.
pub open spec fn clamped_whole(n: i64) -> u8 {
    if n < 0 {
        0
    } else if n > 100 {
        100
    } else {
        n as u8
    }
}

/// A percentage as the service reports it, which may be any number.
#[derive(Clone, Copy, Debug)]
pub struct ReportedPercent {
    /// The bits of the percentage as a 64-bit floating-point number.
    pub bits: u64,
    /// The percentage rounded to a whole number, or the nearest one of 64 bits.
    pub rounded: i64,
}

/// A percentage between 0 and 100.
#[derive(Debug)]
pub struct Percent {
    bits: u64,
    rounded: u8,
}

/// What a percentage holds.
#[verifier::ext_equal]
pub struct PercentModel {
    /// The bits of the percentage as a 64-bit floating-point number.
    pub bits: u64,
    /// The percentage rounded to a whole number.
    pub rounded: u8,
}

impl PercentModel {
    /// The percentage is a number between 0 and 100, and so is what it is rounded to.
    pub open spec fn valid(self) -> bool {
        is_percentage(self.bits) && self.rounded <= 100
    }

    /// The percentage is ten or less.
    pub open spec fn low(self) -> bool {
        self.bits <= TEN_BITS || self.bits == MINUS_ZERO_BITS
    }

    /// The rounded percentage in decimal.
    pub open spec fn text(self) -> Seq<char> {
        if self.bits == MINUS_ZERO_BITS {
            "-"@ + text::decimal(self.rounded as nat)
        } else {
            text::decimal(self.rounded as nat)
        }
    }
}

impl DeepView for Percent {
    type V = PercentModel;

    closed spec fn deep_view(&self) -> PercentModel {
        PercentModel { bits: self.bits, rounded: self.rounded }
    }
}

/// A percentage as it is shown: nothing is known of a number that is not finite, and others are
/// brought between 0 and 100.
pub open spec fn shown_percent(reported: ReportedPercent) -> Option<PercentModel> {
    match clamped_bits(reported.bits) {
        Some(bits) => Some(PercentModel { bits, rounded: clamped_whole(reported.rounded) }),
        None => None,
    }
}

impl ReportedPercent {
    /// The percentage as it is shown.
    pub fn shown(&self) -> (r: Option<Percent>)
        ensures
            r.deep_view() == shown_percent(*self),
    {
        if self.bits % MINUS_ZERO_BITS >= INFINITY_BITS {
            return None;
        }
        let bits: u64 = if self.bits > MINUS_ZERO_BITS {
            0
        } else if self.bits > HUNDRED_BITS && self.bits < MINUS_ZERO_BITS {
            HUNDRED_BITS
        } else {
            self.bits
        };
        let rounded: u8 = if self.rounded < 0 {
            0
        } else if self.rounded > 100 {
            100
        } else {
            self.rounded as u8
        };
        Some(Percent { bits, rounded })
    }
}

impl Percent {
    #[verifier::type_invariant]
    closed spec fn in_range(self) -> bool {
        is_percentage(self.bits) && self.rounded <= 100
    }

    /// The bits of the percentage as a 64-bit floating-point number.
    pub fn bits(&self) -> (bits: u64)
        ensures
            bits == self.deep_view().bits,
            is_percentage(bits),
    {
        proof {
            use_type_invariant(self);
        }
        self.bits
    }

    /// The percentage rounded to a whole number.
    pub fn rounded(&self) -> (rounded: u8)
        ensures
            rounded == self.deep_view().rounded,
            rounded <= 100,
    {
        proof {
            use_type_invariant(self);
        }
        self.rounded
    }

    /// Whether the percentage is ten or less.
    pub fn is_low(&self) -> (r: bool)
        ensures
            r == self.deep_view().low(),
    {
        self.bits <= TEN_BITS || self.bits == MINUS_ZERO_BITS
    }

    /// The rounded percentage in decimal.
    pub fn text(&self) -> (r: String)
        ensures
            r@ == self.deep_view().text(),
    {
        let rounded = text::decimal_of(self.rounded as u64);
        if self.bits == MINUS_ZERO_BITS {
            text::joined("-", &rounded)
        } else {
            rounded
        }
    }
}

/// What the service reports of one quota and the time for which it holds.
#[derive(Debug, Default)]
pub struct UsageWindow {
    /// What is left of the quota, if the service states what is used.
    pub remaining: Option<ReportedPercent>,
    pub limit_window_seconds: Option<u64>,
    pub reset_after_seconds: Option<u64>,
    pub reset_at: Option<u64>,
}

/// What the service reports of the quotas for one kind of use.
#[derive(Debug)]
pub struct RateLimit {
    pub allowed: Option<bool>,
    pub limit_reached: Option<bool>,
    pub primary_window: Option<UsageWindow>,
    pub secondary_window: Option<UsageWindow>,
}

impl Default for RateLimit {
    fn default() -> (r: Self)
        ensures
            r == no_rate_limit(),
    {
        RateLimit {
            allowed: None,
            limit_reached: None,
            primary_window: None,
            secondary_window: None,
        }
    }
}

/// Nothing is reported.
pub open spec fn no_rate_limit() -> RateLimit {
    RateLimit { allowed: None, limit_reached: None, primary_window: None, secondary_window: None }
}

/// What the service reports of the quotas for a further kind of use.
#[derive(Debug)]
pub struct AdditionalRateLimit {
    pub limit_name: Option<String>,
    pub metered_feature: Option<String>,
    pub rate_limit: Option<RateLimit>,
}

/// What the service reports of purchased credits.
#[derive(Debug)]
pub struct Credits {
    pub has_credits: Option<bool>,
    pub unlimited: Option<bool>,
    pub overage_limit_reached: Option<bool>,
    pub balance: Option<String>,
}

/// What the service reports of the spending that is allowed.
#[derive(Debug)]
pub struct SpendControl {
    pub reached: Option<bool>,
    pub individual_limit: Option<IndividualLimit>,
}

/// What the service reports of the monthly limit of one user.
#[derive(Debug)]
pub struct IndividualLimit {
    pub remaining: Option<String>,
    pub limit: Option<String>,
    /// What is left as the service states it, if it does.
    pub remaining_percent: Option<ReportedPercent>,
    /// What is left by what is used, if the service states that.
    pub remaining_by_use: Option<ReportedPercent>,
    pub reset_after_seconds: Option<u64>,
    pub reset_at: Option<u64>,
}

/// What the service reports of the usage of an account.
#[derive(Debug)]
pub struct UsageResponse {
    pub account_id: Option<String>,
    pub plan_type: Option<String>,
    pub rate_limit: Option<RateLimit>,
    pub code_review_rate_limit: Option<RateLimit>,
    pub additional_rate_limits: Option<Vec<AdditionalRateLimit>>,
    pub credits: Option<Credits>,
    pub spend_control: Option<SpendControl>,
    pub rate_limit_reached_type: Option<String>,
    /// How many resets of the usage can be had.
    pub rate_limit_reset_credits: Option<u64>,
}

impl Default for UsageResponse {
    fn default() -> (r: Self)
        ensures
            r.account_id is None,
            r.plan_type is None,
            r.rate_limit is None,
            r.code_review_rate_limit is None,
            r.additional_rate_limits is None,
            r.credits is None,
            r.spend_control is None,
            r.rate_limit_reached_type is None,
            r.rate_limit_reset_credits is None,
    {
        UsageResponse {
            account_id: None,
            plan_type: None,
            rate_limit: None,
            code_review_rate_limit: None,
            additional_rate_limits: None,
            credits: None,
            spend_control: None,
            rate_limit_reached_type: None,
            rate_limit_reset_credits: None,
        }
    }
}

/// What can be shown of a value whose shape may change: a text or a number, and nothing of an
/// opaque object, so that it cannot hide the usage.
pub fn optional_display_text(value: &Json) -> (r: Option<String>)
    ensures
        r.deep_view() == value.shown(),
{
    match value {
        Json::Text(content) => Some(content.clone()),
        Json::Number(_, digits) => Some(digits.clone()),
        _ => None,
    }
}

/// A quota, and how much is left of it.
#[derive(Debug)]
pub struct QuotaWindow {
    pub label: String,
    pub remaining_percent: Option<Percent>,
    pub resets_at: Option<Timestamp>,
}

/// The quotas for one kind of use.
#[derive(Debug)]
pub struct UsageBucket {
    pub name: String,
    pub allowed: Option<bool>,
    pub limit_reached: Option<bool>,
    pub windows: Vec<QuotaWindow>,
}

/// The usage of an account.
#[derive(Debug)]
pub struct AccountUsage {
    pub plan: Option<String>,
    pub buckets: Vec<UsageBucket>,
    pub details: Vec<String>,
    pub warnings: Vec<String>,
    pub fetched_at: Timestamp,
}

/// What a quota holds.
#[verifier::ext_equal]
pub struct WindowModel {
    pub label: Seq<char>,
    pub remaining_percent: Option<PercentModel>,
    pub resets_at: Option<int>,
}

/// What the quotas for one kind of use hold.
#[verifier::ext_equal]
pub struct BucketModel {
    pub name: Seq<char>,
    pub allowed: Option<bool>,
    pub limit_reached: Option<bool>,
    pub windows: Seq<WindowModel>,
}

/// What the usage of an account holds.
#[verifier::ext_equal]
pub struct UsageModel {
    pub plan: Option<Seq<char>>,
    pub buckets: Seq<BucketModel>,
    pub details: Seq<Seq<char>>,
    pub warnings: Seq<Seq<char>>,
    pub fetched_at: int,
}

impl DeepView for QuotaWindow {
    type V = WindowModel;

    open spec fn deep_view(&self) -> WindowModel {
        WindowModel {
            label: self.label@,
            remaining_percent: self.remaining_percent.deep_view(),
            resets_at: match self.resets_at {
                Some(moment) => Some(moment@),
                None => None,
            },
        }
    }
}

impl DeepView for UsageBucket {
    type V = BucketModel;

    open spec fn deep_view(&self) -> BucketModel {
        BucketModel {
            name: self.name@,
            allowed: self.allowed,
            limit_reached: self.limit_reached,
            windows: self.windows.deep_view(),
        }
    }
}

impl View for AccountUsage {
    type V = UsageModel;

    open spec fn view(&self) -> UsageModel {
        UsageModel {
            plan: self.plan.deep_view(),
            buckets: self.buckets.deep_view(),
            details: self.details.deep_view(),
            warnings: self.warnings.deep_view(),
            fetched_at: self.fetched_at@,
        }
    }
}

impl Clone for Percent {
    fn clone(&self) -> (copy: Self)
        ensures
            copy.deep_view() == self.deep_view(),
    {
        proof {
            use_type_invariant(self);
        }
        Percent { bits: self.bits, rounded: self.rounded }
    }
}

impl Clone for QuotaWindow {
    fn clone(&self) -> (copy: Self)
        ensures
            copy.deep_view() == self.deep_view(),
    {
        QuotaWindow {
            label: self.label.clone(),
            remaining_percent: match &self.remaining_percent {
                Some(percent) => Some(percent.clone()),
                None => None,
            },
            resets_at: self.resets_at,
        }
    }
}

impl Clone for UsageBucket {
    fn clone(&self) -> (copy: Self)
        ensures
            copy.deep_view() == self.deep_view(),
    {
        let mut windows: Vec<QuotaWindow> = Vec::new();
        let ghost all = self.windows.deep_view();
        let mut i: usize = 0;
        while i < self.windows.len()
            invariant
                all == self.windows.deep_view(),
                i <= self.windows@.len(),
                windows.deep_view() == all.take(i as int),
            decreases self.windows@.len() - i,
        {
            let ghost before = windows.deep_view();
            windows.push(self.windows[i].clone());
            assert(windows.deep_view() =~= before.push(all[i as int]));
            assert(windows.deep_view() =~= all.take(i + 1));
            i += 1;
        }
        assert(all.take(i as int) =~= all);
        UsageBucket {
            name: self.name.clone(),
            allowed: self.allowed,
            limit_reached: self.limit_reached,
            windows,
        }
    }
}

impl Clone for AccountUsage {
    fn clone(&self) -> (copy: Self)
        ensures
            copy@ == self@,
    {
        let mut buckets: Vec<UsageBucket> = Vec::new();
        let ghost all = self.buckets.deep_view();
        let mut i: usize = 0;
        while i < self.buckets.len()
            invariant
                all == self.buckets.deep_view(),
                i <= self.buckets@.len(),
                buckets.deep_view() == all.take(i as int),
            decreases self.buckets@.len() - i,
        {
            let ghost before = buckets.deep_view();
            buckets.push(self.buckets[i].clone());
            assert(buckets.deep_view() =~= before.push(all[i as int]));
            assert(buckets.deep_view() =~= all.take(i + 1));
            i += 1;
        }
        assert(all.take(i as int) =~= all);
        AccountUsage {
            plan: text::copy_optional(&self.plan),
            buckets,
            details: text::copy_list(&self.details),
            warnings: text::copy_list(&self.warnings),
            fetched_at: self.fetched_at,
        }
    }
}

/// When a quota is there again: after the seconds that the server counts, which do not depend on
/// the local clock, else at the time that it states.
pub open spec fn reset_moment(absolute: Option<u64>, relative: Option<u64>, fetched_at: int) -> Option<
    int,
> {
    let counted = match relative {
        Some(seconds) => time::later(fetched_at, seconds),
        None => None,
    };
    if counted is Some {
        counted
    } else {
        match absolute {
            Some(seconds) => time::later(0, seconds),
            None => None,
        }
    }
}

/// When a quota is there again.
pub fn reset_time(absolute: Option<u64>, relative: Option<u64>, fetched_at: Timestamp) -> (r: Option<
    Timestamp,
>)
    ensures
        (match r {
            Some(moment) => Some(moment@),
            None => None,
        }) == reset_moment(absolute, relative, fetched_at@),
{
    let counted = match relative {
        Some(seconds) => fetched_at.checked_add(seconds),
        None => None,
    };
    if counted.is_some() {
        return counted;
    }
    match absolute {
        Some(seconds) => Timestamp::epoch().checked_add(seconds),
        None => None,
    }
}

/// What a quota is called: by the largest unit of which its time is a whole number.
pub open spec fn label_of_window(seconds: Option<u64>) -> Seq<char> {
    match seconds {
        Some(seconds) => if seconds == 604800 {
            "Weekly"@
        } else if seconds > 0 && seconds % 86400 == 0 {
            text::decimal((seconds / 86400) as nat) + "d"@
        } else if seconds > 0 && seconds % 3600 == 0 {
            text::decimal((seconds / 3600) as nat) + "h"@
        } else if seconds > 0 && seconds % 60 == 0 {
            text::decimal((seconds / 60) as nat) + "m"@
        } else if seconds > 0 {
            text::decimal(seconds as nat) + "s"@
        } else {
            "Window"@
        },
        None => "Window"@,
    }
}

/// What a quota is called.
pub fn window_label(seconds: Option<u64>) -> (r: String)
    ensures
        r@ == label_of_window(seconds),
{
    match seconds {
        Some(seconds) => if seconds == 604800 {
            "Weekly".to_owned()
        } else if seconds > 0 && seconds % 86400 == 0 {
            text::joined(&text::decimal_of(seconds / 86400), "d")
        } else if seconds > 0 && seconds % 3600 == 0 {
            text::joined(&text::decimal_of(seconds / 3600), "h")
        } else if seconds > 0 && seconds % 60 == 0 {
            text::joined(&text::decimal_of(seconds / 60), "m")
        } else if seconds > 0 {
            text::joined(&text::decimal_of(seconds), "s")
        } else {
            "Window".to_owned()
        },
        None => "Window".to_owned(),
    }
}

/// A percentage as it is shown, if the service reports one.
pub open spec fn normal_percent(reported: Option<ReportedPercent>) -> Option<PercentModel> {
    match reported {
        Some(reported) => shown_percent(reported),
        None => None,
    }
}

fn percent_of(reported: Option<ReportedPercent>) -> (r: Option<Percent>)
    ensures
        r.deep_view() == normal_percent(reported),
{
    match reported {
        Some(reported) => reported.shown(),
        None => None,
    }
}

/// A quota as it is shown.
pub open spec fn normal_window(window: UsageWindow, fetched_at: int) -> WindowModel {
    WindowModel {
        label: label_of_window(window.limit_window_seconds),
        remaining_percent: normal_percent(window.remaining),
        resets_at: reset_moment(window.reset_at, window.reset_after_seconds, fetched_at),
    }
}

/// One quota, or none.
pub open spec fn normal_windows(window: Option<UsageWindow>, fetched_at: int) -> Seq<WindowModel> {
    match window {
        Some(window) => seq![normal_window(window, fetched_at)],
        None => Seq::empty(),
    }
}

/// The quotas for one kind of use as they are shown.
pub open spec fn normal_bucket(limit: RateLimit, name: Seq<char>, fetched_at: int) -> BucketModel {
    BucketModel {
        name,
        allowed: limit.allowed,
        limit_reached: limit.limit_reached,
        windows: normal_windows(limit.primary_window, fetched_at) + normal_windows(
            limit.secondary_window,
            fetched_at,
        ),
    }
}

fn push_window(windows: &mut Vec<QuotaWindow>, window: Option<UsageWindow>, fetched_at: Timestamp)
    ensures
        final(windows).deep_view() == old(windows).deep_view() + normal_windows(
            window,
            fetched_at@,
        ),
{
    let ghost before = windows.deep_view();
    match window {
        Some(window) => {
            let shown = QuotaWindow {
                label: window_label(window.limit_window_seconds),
                remaining_percent: percent_of(window.remaining),
                resets_at: reset_time(window.reset_at, window.reset_after_seconds, fetched_at),
            };
            let ghost model = shown.deep_view();
            assert(model =~= normal_window(window, fetched_at@));
            windows.push(shown);
            assert(windows.deep_view() =~= before + seq![model]);
        },
        None => {
            assert(windows.deep_view() =~= before + Seq::<WindowModel>::empty());
        },
    }
}

impl RateLimit {
    /// The quotas for one kind of use as they are shown.
    pub fn normalize(self, name: String, fetched_at: Timestamp) -> (r: UsageBucket)
        ensures
            r.deep_view() == normal_bucket(self, name@, fetched_at@),
    {
        let mut windows: Vec<QuotaWindow> = Vec::new();
        assert(windows.deep_view() =~= Seq::<WindowModel>::empty());
        push_window(&mut windows, self.primary_window, fetched_at);
        push_window(&mut windows, self.secondary_window, fetched_at);
        assert(windows.deep_view() =~= normal_windows(self.primary_window, fetched_at@)
            + normal_windows(self.secondary_window, fetched_at@));
        UsageBucket { name, allowed: self.allowed, limit_reached: self.limit_reached, windows }
    }
}

/// What a further kind of use is called.
pub open spec fn additional_name(limit: AdditionalRateLimit) -> Seq<char> {
    match limit.limit_name {
        Some(name) => name@,
        None => match limit.metered_feature {
            Some(name) => name@,
            None => "Additional usage"@,
        },
    }
}

/// What is reported, or that nothing is.
pub open spec fn limit_or_none(limit: Option<RateLimit>) -> RateLimit {
    match limit {
        Some(limit) => limit,
        None => no_rate_limit(),
    }
}

/// The quotas for the further kinds of use.
pub open spec fn additional_buckets(limits: Seq<AdditionalRateLimit>, fetched_at: int) -> Seq<
    BucketModel,
> {
    limits.map_values(
        |limit: AdditionalRateLimit|
            normal_bucket(limit_or_none(limit.rate_limit), additional_name(limit), fetched_at),
    )
}

/// The quotas for the further kinds of use, if the service reports any.
pub open spec fn further_buckets(limits: Option<Vec<AdditionalRateLimit>>, fetched_at: int) -> Seq<
    BucketModel,
> {
    match limits {
        Some(limits) => additional_buckets(limits@, fetched_at),
        None => Seq::empty(),
    }
}

/// The quotas for code review, if the service reports any.
pub open spec fn review_buckets(limit: Option<RateLimit>, fetched_at: int) -> Seq<BucketModel> {
    match limit {
        Some(limit) => seq![normal_bucket(limit, "Code review"@, fetched_at)],
        None => Seq::empty(),
    }
}

/// One line, or none.
pub open spec fn line(prefix: Seq<char>, content: Option<Seq<char>>) -> Seq<Seq<char>> {
    match content {
        Some(content) => seq![prefix + content],
        None => Seq::empty(),
    }
}

/// A line that is there or not.
pub open spec fn line_if(shown: bool, content: Seq<char>) -> Seq<Seq<char>> {
    if shown {
        seq![content]
    } else {
        Seq::empty()
    }
}

/// Whether purchased credits can be used.
pub open spec fn credit_availability(credits: Credits) -> Seq<char> {
    if credits.unlimited == Some(true) {
        "Purchased-credit availability: unlimited"@
    } else if credits.has_credits == Some(true) {
        "Purchased-credit availability: available"@
    } else if credits.has_credits == Some(false) {
        "Purchased-credit availability: unavailable"@
    } else {
        "Purchased-credit availability: unknown"@
    }
}

/// How many purchased credits there are.
pub open spec fn credit_balance(credits: Credits) -> Seq<char> {
    if credits.unlimited == Some(true) {
        "Purchased credits: unlimited"@
    } else {
        match credits.balance {
            Some(balance) => "Purchased credits: "@ + balance@,
            None => if credits.has_credits == Some(true) {
                "Purchased credits available; balance unknown"@
            } else if credits.has_credits == Some(false) {
                "No purchased credits available"@
            } else {
                "Purchased credits: unknown"@
            },
        }
    }
}

/// What is said of purchased credits.
pub open spec fn credit_details(credits: Option<Credits>) -> Seq<Seq<char>> {
    match credits {
        Some(credits) => seq![credit_availability(credits), credit_balance(credits)],
        None => Seq::empty(),
    }
}

/// The monthly limit of one user.
pub open spec fn individual_limit(control: Option<SpendControl>) -> Option<IndividualLimit> {
    match control {
        Some(control) => control.individual_limit,
        None => None,
    }
}

/// What is said of the monthly limit.
pub open spec fn monthly_details(control: Option<SpendControl>) -> Seq<Seq<char>> {
    match individual_limit(control) {
        Some(limit) => line("Monthly credits remaining: "@, limit.remaining.deep_view()) + line(
            "Monthly credit allowance: "@,
            limit.limit.deep_view(),
        ),
        None => Seq::empty(),
    }
}

/// What is left of the monthly limit: as the service states it, else by what is used.
pub open spec fn monthly_remaining(limit: IndividualLimit) -> Option<PercentModel> {
    match limit.remaining_percent {
        Some(stated) => shown_percent(stated),
        None => normal_percent(limit.remaining_by_use),
    }
}

/// The monthly limit as a quota of its own.
pub open spec fn monthly_buckets(control: Option<SpendControl>, fetched_at: int) -> Seq<
    BucketModel,
> {
    match control {
        Some(control) => match control.individual_limit {
            Some(limit) => seq![
                BucketModel {
                    name: "Monthly credit limit"@,
                    allowed: match control.reached {
                        Some(reached) => Some(!reached),
                        None => None,
                    },
                    limit_reached: control.reached,
                    windows: seq![
                        WindowModel {
                            label: "Monthly"@,
                            remaining_percent: monthly_remaining(limit),
                            resets_at: reset_moment(
                                limit.reset_at,
                                limit.reset_after_seconds,
                                fetched_at,
                            ),
                        },
                    ],
                },
            ],
            None => Seq::empty(),
        },
        None => Seq::empty(),
    }
}

/// The quotas that are shown: those included in the plan first.
pub open spec fn normal_buckets(response: UsageResponse, fetched_at: int) -> Seq<BucketModel> {
    let included = seq![
        normal_bucket(limit_or_none(response.rate_limit), "Included usage"@, fetched_at),
    ];
    included + review_buckets(response.code_review_rate_limit, fetched_at) + further_buckets(
        response.additional_rate_limits,
        fetched_at,
    ) + monthly_buckets(response.spend_control, fetched_at)
}

/// What is said of the usage.
pub open spec fn normal_details(response: UsageResponse) -> Seq<Seq<char>> {
    credit_details(response.credits) + monthly_details(response.spend_control) + line(
        "Limiter: "@,
        response.rate_limit_reached_type.deep_view(),
    ) + line(
        "Available usage resets: "@,
        match response.rate_limit_reset_credits {
            Some(count) => Some(text::decimal(count as nat)),
            None => None,
        },
    )
}

/// What is warned of.
pub open spec fn normal_warnings(response: UsageResponse) -> Seq<Seq<char>> {
    line_if(
        response.credits matches Some(credits) && credits.overage_limit_reached == Some(true),
        "Purchased-credit cap reached"@,
    ) + line_if(
        response.spend_control matches Some(control) && control.reached == Some(true),
        "Monthly spend cap reached"@,
    )
}

/// The usage of an account as it is shown.
pub open spec fn normal_usage(response: UsageResponse, fetched_at: int) -> UsageModel {
    UsageModel {
        plan: response.plan_type.deep_view(),
        buckets: normal_buckets(response, fetched_at),
        details: normal_details(response),
        warnings: normal_warnings(response),
        fetched_at,
    }
}

fn push_line(lines: &mut Vec<String>, prefix: &str, content: &Option<String>)
    ensures
        final(lines).deep_view() == old(lines).deep_view() + line(prefix@, content.deep_view()),
{
    let ghost before = lines.deep_view();
    match content {
        Some(content) => {
            lines.push(text::joined(prefix, content));
            assert(lines.deep_view() =~= before + seq![prefix@ + content@]);
        },
        None => {
            assert(lines.deep_view() =~= before + Seq::<Seq<char>>::empty());
        },
    }
}

fn push_text(lines: &mut Vec<String>, content: &str)
    ensures
        final(lines).deep_view() == old(lines).deep_view() + seq![content@],
{
    let ghost before = lines.deep_view();
    lines.push(content.to_owned());
    assert(lines.deep_view() =~= before + seq![content@]);
}

fn is_true(flag: Option<bool>) -> (r: bool)
    ensures
        r == (flag == Some(true)),
{
    match flag {
        Some(flag) => flag,
        None => false,
    }
}

fn push_credits(details: &mut Vec<String>, credits: &Credits)
    ensures
        final(details).deep_view() == old(details).deep_view() + seq![
            credit_availability(*credits),
            credit_balance(*credits),
        ],
{
    let ghost before = details.deep_view();
    let unlimited = is_true(credits.unlimited);
    push_text(
        details,
        if unlimited {
            "Purchased-credit availability: unlimited"
        } else {
            match credits.has_credits {
                Some(true) => "Purchased-credit availability: available",
                Some(false) => "Purchased-credit availability: unavailable",
                None => "Purchased-credit availability: unknown",
            }
        },
    );
    if unlimited {
        push_text(details, "Purchased credits: unlimited");
    } else {
        match &credits.balance {
            Some(balance) => {
                push_text(details, &text::joined("Purchased credits: ", balance));
            },
            None => {
                push_text(
                    details,
                    match credits.has_credits {
                        Some(true) => "Purchased credits available; balance unknown",
                        Some(false) => "No purchased credits available",
                        None => "Purchased credits: unknown",
                    },
                );
            },
        }
    }
    assert(details.deep_view() =~= before + seq![
        credit_availability(*credits),
        credit_balance(*credits),
    ]);
}

fn push_additional(
    buckets: &mut Vec<UsageBucket>,
    limits: Vec<AdditionalRateLimit>,
    fetched_at: Timestamp,
)
    ensures
        final(buckets).deep_view() == old(buckets).deep_view() + additional_buckets(
            limits@,
            fetched_at@,
        ),
{
    let ghost before = buckets.deep_view();
    let ghost all = limits@;
    let mut left = limits;
    let ghost mut done: int = 0;
    assert(additional_buckets(all, fetched_at@).take(0) =~= Seq::<BucketModel>::empty());
    assert(buckets.deep_view() =~= before + additional_buckets(all, fetched_at@).take(0));
    while left.len() > 0
        invariant
            0 <= done <= all.len(),
            left@ == all.skip(done),
            buckets.deep_view() == before + additional_buckets(all, fetched_at@).take(done),
        decreases left@.len(),
    {
        let limit = left.remove(0);
        assert(limit == all[done]);
        assert(left@ =~= all.skip(done + 1));
        let name: String = match limit.limit_name {
            Some(name) => name,
            None => match limit.metered_feature {
                Some(name) => name,
                None => "Additional usage".to_owned(),
            },
        };
        let rate_limit = match limit.rate_limit {
            Some(rate_limit) => rate_limit,
            None => RateLimit::default(),
        };
        let ghost earlier = buckets.deep_view();
        let bucket = rate_limit.normalize(name, fetched_at);
        let ghost model = bucket.deep_view();
        buckets.push(bucket);
        assert(buckets.deep_view() =~= earlier.push(model));
        proof {
            let shown = additional_buckets(all, fetched_at@);
            assert(shown[done] == model);
            assert(shown.take(done + 1) =~= shown.take(done).push(model));
            assert(buckets.deep_view() =~= before + shown.take(done + 1));
            done = done + 1;
        }
    }
    assert(additional_buckets(all, fetched_at@).take(done) =~= additional_buckets(
        all,
        fetched_at@,
    ));
}

fn monthly_bucket(reached: Option<bool>, limit: IndividualLimit, fetched_at: Timestamp) -> (r:
    UsageBucket)
    ensures
        seq![r.deep_view()] == monthly_buckets(
            Some(SpendControl { reached, individual_limit: Some(limit) }),
            fetched_at@,
        ),
{
    let remaining_percent = match limit.remaining_percent {
        Some(stated) => stated.shown(),
        None => percent_of(limit.remaining_by_use),
    };
    let window = QuotaWindow {
        label: "Monthly".to_owned(),
        remaining_percent,
        resets_at: reset_time(limit.reset_at, limit.reset_after_seconds, fetched_at),
    };
    let ghost model = window.deep_view();
    let windows: Vec<QuotaWindow> = vec![window];
    assert(windows.deep_view() =~= seq![model]);
    UsageBucket {
        name: "Monthly credit limit".to_owned(),
        allowed: match reached {
            Some(reached) => Some(!reached),
            None => None,
        },
        limit_reached: reached,
        windows,
    }
}

impl UsageResponse {
    /// The usage of an account as it is shown.
    pub fn normalize(self, fetched_at: Timestamp) -> (usage: AccountUsage)
        ensures
            usage@ == normal_usage(self, fetched_at@),
    {
        let mut buckets: Vec<UsageBucket> = Vec::new();
        let mut details: Vec<String> = Vec::new();
        let mut warnings: Vec<String> = Vec::new();
        assert(details.deep_view() =~= Seq::<Seq<char>>::empty());
        assert(warnings.deep_view() =~= Seq::<Seq<char>>::empty());
        let included = match self.rate_limit {
            Some(limit) => limit,
            None => RateLimit::default(),
        };
        buckets.push(included.normalize("Included usage".to_owned(), fetched_at));
        let ghost b1 = seq![
            normal_bucket(limit_or_none(self.rate_limit), "Included usage"@, fetched_at@),
        ];
        assert(buckets.deep_view() =~= b1);
        let ghost b2 = review_buckets(self.code_review_rate_limit, fetched_at@);
        match self.code_review_rate_limit {
            Some(limit) => {
                buckets.push(limit.normalize("Code review".to_owned(), fetched_at));
            },
            None => {},
        }
        assert(buckets.deep_view() =~= b1 + b2);
        let ghost b3 = further_buckets(self.additional_rate_limits, fetched_at@);
        match self.additional_rate_limits {
            Some(limits) => {
                push_additional(&mut buckets, limits, fetched_at);
            },
            None => {},
        }
        assert(buckets.deep_view() =~= b1 + b2 + b3);
        match &self.credits {
            Some(credits) => {
                push_credits(&mut details, credits);
                if is_true(credits.overage_limit_reached) {
                    push_text(&mut warnings, "Purchased-credit cap reached");
                }
            },
            None => {},
        }
        let ghost d1 = credit_details(self.credits);
        assert(details.deep_view() =~= d1);
        let ghost w1 = line_if(
            self.credits matches Some(credits) && credits.overage_limit_reached == Some(true),
            "Purchased-credit cap reached"@,
        );
        assert(warnings.deep_view() =~= w1);
        match self.spend_control {
            Some(control) => {
                if is_true(control.reached) {
                    push_text(&mut warnings, "Monthly spend cap reached");
                }
                match control.individual_limit {
                    Some(limit) => {
                        push_line(&mut details, "Monthly credits remaining: ", &limit.remaining);
                        push_line(&mut details, "Monthly credit allowance: ", &limit.limit);
                        assert(details.deep_view() =~= d1 + monthly_details(self.spend_control));
                        buckets.push(monthly_bucket(control.reached, limit, fetched_at));
                    },
                    None => {},
                }
            },
            None => {},
        }
        assert(buckets.deep_view() =~= normal_buckets(self, fetched_at@));
        assert(details.deep_view() =~= d1 + monthly_details(self.spend_control));
        assert(warnings.deep_view() =~= normal_warnings(self));
        push_line(&mut details, "Limiter: ", &self.rate_limit_reached_type);
        let count = match self.rate_limit_reset_credits {
            Some(count) => Some(text::decimal_of(count)),
            None => None,
        };
        push_line(&mut details, "Available usage resets: ", &count);
        AccountUsage { plan: self.plan_type, buckets, details, warnings, fetched_at }
    }
}

/// The quotas included in the plan are shown first, with the service's own word on whether they
/// can be used: what it leaves open is shown as open, never as unlimited.
pub proof fn included_usage_comes_first(response: UsageResponse, fetched_at: int)
    ensures
        ({
            let buckets = normal_usage(response, fetched_at).buckets;
            let reported = limit_or_none(response.rate_limit);
            &&& buckets.len() > 0
            &&& buckets[0].name == "Included usage"@
            &&& buckets[0].allowed == reported.allowed
            &&& buckets[0].limit_reached == reported.limit_reached
            &&& response.rate_limit is None ==> buckets[0].allowed is None
                && buckets[0].windows.len() == 0
        }),
{
}

/// A percentage is shown only where the service reports one.
pub proof fn unknown_percentages_stay_unknown(
    limit: RateLimit,
    name: Seq<char>,
    fetched_at: int,
    i: int,
)
    requires
        0 <= i < normal_bucket(limit, name, fetched_at).windows.len(),
        limit.primary_window matches Some(window) ==> window.remaining is None,
        limit.secondary_window matches Some(window) ==> window.remaining is None,
    ensures
        normal_bucket(limit, name, fetched_at).windows[i].remaining_percent is None,
{
}

/// The percentage of a quota, if it is known, lies between 0 and 100.
pub open spec fn window_in_range(window: WindowModel) -> bool {
    window.remaining_percent matches Some(percent) ==> percent.valid()
}

/// The percentages of all quotas for one kind of use lie between 0 and 100.
pub open spec fn bucket_in_range(bucket: BucketModel) -> bool {
    forall|i: int| 0 <= i < bucket.windows.len() ==> window_in_range(#[trigger] bucket.windows[i])
}

proof fn normal_bucket_in_range(limit: RateLimit, name: Seq<char>, fetched_at: int)
    ensures
        bucket_in_range(normal_bucket(limit, name, fetched_at)),
{
}

/// Every percentage that is shown lies between 0 and 100.
pub proof fn percentages_are_in_range(response: UsageResponse, fetched_at: int, n: int)
    requires
        0 <= n < normal_usage(response, fetched_at).buckets.len(),
    ensures
        bucket_in_range(normal_usage(response, fetched_at).buckets[n]),
{
    let buckets = normal_usage(response, fetched_at).buckets;
    let included = seq![
        normal_bucket(limit_or_none(response.rate_limit), "Included usage"@, fetched_at),
    ];
    let review = review_buckets(response.code_review_rate_limit, fetched_at);
    let further = further_buckets(response.additional_rate_limits, fetched_at);
    let monthly = monthly_buckets(response.spend_control, fetched_at);
    if n < 1 {
        assert(buckets[n] == included[n]);
        normal_bucket_in_range(
            limit_or_none(response.rate_limit),
            "Included usage"@,
            fetched_at,
        );
    } else if n < 1 + review.len() {
        assert(buckets[n] == review[n - 1]);
        normal_bucket_in_range(response.code_review_rate_limit->0, "Code review"@, fetched_at);
    } else if n < 1 + review.len() + further.len() {
        let k = n - 1 - review.len();
        assert(buckets[n] == further[k]);
        let limit = response.additional_rate_limits->0@[k];
        normal_bucket_in_range(
            limit_or_none(limit.rate_limit),
            additional_name(limit),
            fetched_at,
        );
    } else {
        assert(buckets[n] == monthly[n - 1 - review.len() - further.len()]);
    }
}

/// A percentage between 0 and 100 is shown as it is reported.
pub proof fn percentages_in_range_are_kept(reported: ReportedPercent)
    requires
        is_percentage(reported.bits),
        0 <= reported.rounded <= 100,
    ensures
        shown_percent(reported) == Some(
            PercentModel { bits: reported.bits, rounded: reported.rounded as u8 },
        ),
{
}

/// The server's count of seconds is taken before the time that it states.
pub proof fn relative_reset_is_preferred(
    absolute: Option<u64>,
    seconds: u64,
    fetched_at: int,
)
    requires
        time::later(fetched_at, seconds) is Some,
    ensures
        reset_moment(absolute, Some(seconds), fetched_at) == Some(
            fetched_at + seconds * 1_000_000_000,
        ),
{
}

/// What is said of credits, limits and plans changes none of the quotas that are shown.
pub proof fn display_metadata_hides_no_quota(
    response: UsageResponse,
    other: UsageResponse,
    fetched_at: int,
)
    requires
        response.rate_limit == other.rate_limit,
        response.code_review_rate_limit == other.code_review_rate_limit,
        response.additional_rate_limits == other.additional_rate_limits,
        response.spend_control == other.spend_control,
    ensures
        normal_usage(response, fetched_at).buckets == normal_usage(other, fetched_at).buckets,
{
}

} // verus!
