//! The menu that shows the usage of an account in full.
use crate::text;
use crate::time;
use crate::time::Timestamp;
use crate::usage::{AccountUsage, BucketModel, QuotaWindow, UsageBucket, UsageModel, WindowModel};
use crate::usage_view;
use crate::usage_view::{AccountUsageView, Meter, MeterModel, ViewModel};
use vstd::prelude::*;
use vstd::string::*;

verus! {

/// A line of the menu.
#[derive(Debug)]
pub enum MenuItem {
    Separator,
    Header(String),
    Label(String),
    /// A meter that cannot be chosen.
    Meter(Meter),
    /// An entry that asks for the usage anew.
    Refresh(String),
}

/// What a line holds.
#[verifier::ext_equal]
pub enum ItemModel {
    Separator,
    Header(Seq<char>),
    Label(Seq<char>),
    Meter(MeterModel),
    Refresh(Seq<char>),
}

impl DeepView for MenuItem {
    type V = ItemModel;

    open spec fn deep_view(&self) -> ItemModel {
        match *self {
            MenuItem::Separator => ItemModel::Separator,
            MenuItem::Header(content) => ItemModel::Header(content@),
            MenuItem::Label(content) => ItemModel::Label(content@),
            MenuItem::Meter(meter) => ItemModel::Meter(meter.deep_view()),
            MenuItem::Refresh(content) => ItemModel::Refresh(content@),
        }
    }
}

/// The local dates at which the quotas of each kind of use are there again.
pub type Dates = Vec<Vec<Option<String>>>;

/// A label, if there is one.
pub open spec fn optional_label(content: Option<Seq<char>>) -> Seq<ItemModel> {
    match content {
        Some(content) => seq![ItemModel::Label(content)],
        None => Seq::empty(),
    }
}

/// A label for each text.
pub open spec fn labels(contents: Seq<Seq<char>>) -> Seq<ItemModel> {
    contents.map_values(|content: Seq<char>| ItemModel::Label(content))
}

/// The date at a place, if there is one.
pub open spec fn date_at(dates: Seq<Option<Seq<char>>>, i: int) -> Option<Seq<char>> {
    if 0 <= i < dates.len() {
        dates[i]
    } else {
        None
    }
}

/// The dates for the quotas of one kind of use.
pub open spec fn dates_at(dates: Seq<Seq<Option<Seq<char>>>>, i: int) -> Seq<Option<Seq<char>>> {
    if 0 <= i < dates.len() {
        dates[i]
    } else {
        Seq::empty()
    }
}

/// The lines for the first quotas of one kind of use: a meter each, and when the quota is there
/// again.
pub open spec fn window_items(
    windows: Seq<WindowModel>,
    stale: bool,
    now: int,
    dates: Seq<Option<Seq<char>>>,
    count: int,
) -> Seq<ItemModel>
    decreases count,
{
    if count <= 0 {
        Seq::empty()
    } else {
        let i = count - 1;
        window_items(windows, stale, now, dates, i) + seq![
            ItemModel::Meter(usage_view::meter_of(windows[i], stale, false)),
        ] + optional_label(usage_view::reset_text(windows[i], now, date_at(dates, i)))
    }
}

/// The lines for one kind of use.
pub open spec fn bucket_items(
    bucket: BucketModel,
    stale: bool,
    now: int,
    dates: Seq<Option<Seq<char>>>,
) -> Seq<ItemModel> {
    seq![ItemModel::Separator, ItemModel::Header(bucket.name)] + optional_label(
        usage_view::status_text(bucket),
    ) + (if bucket.windows.len() == 0 {
        seq![ItemModel::Label("Window data unavailable"@)]
    } else {
        Seq::empty()
    }) + window_items(bucket.windows, stale, now, dates, bucket.windows.len() as int)
}

/// The lines for the first kinds of use.
pub open spec fn buckets_items(
    buckets: Seq<BucketModel>,
    stale: bool,
    now: int,
    dates: Seq<Seq<Option<Seq<char>>>>,
    count: int,
) -> Seq<ItemModel>
    decreases count,
{
    if count <= 0 {
        Seq::empty()
    } else {
        let i = count - 1;
        buckets_items(buckets, stale, now, dates, i) + bucket_items(
            buckets[i],
            stale,
            now,
            dates_at(dates, i),
        )
    }
}

/// How old the usage is, if it is not from the future.
pub open spec fn age_text(usage: UsageModel, now: int) -> Option<Seq<char>> {
    match time::whole_seconds(now, usage.fetched_at) {
        Some(seconds) => Some(
            "Updated "@ + text::decimal(seconds as nat) + " seconds ago"@,
        ),
        None => None,
    }
}

/// The lines for the usage.
pub open spec fn usage_items(
    usage: UsageModel,
    stale: bool,
    now: int,
    dates: Seq<Seq<Option<Seq<char>>>>,
) -> Seq<ItemModel> {
    optional_label(
        match usage.plan {
            Some(plan) => Some("Plan: "@ + plan),
            None => None,
        },
    ) + optional_label(age_text(usage, now)) + labels(usage.warnings) + buckets_items(
        usage.buckets,
        stale,
        now,
        dates,
        usage.buckets.len() as int,
    ) + seq![ItemModel::Separator] + labels(usage.details) + seq![
        ItemModel::Label("Included quota and purchased credits are separate."@),
        ItemModel::Label(
            "Usage may lag recent requests. Extra buckets have their own limits."@,
        ),
    ]
}

/// All lines of the menu at a moment, where the usage was found stale or not when the view was
/// last shown.
pub open spec fn menu_items(
    view: ViewModel,
    stale: bool,
    now: int,
    dates: Seq<Seq<Option<Seq<char>>>>,
) -> Seq<ItemModel> {
    seq![ItemModel::Header("ChatGPT account usage"@)] + optional_label(
        match view.error {
            Some(error) => Some("Usage unavailable: "@ + error),
            None => None,
        },
    ) + (match view.usage {
        Some(usage) => usage_items(usage, stale, now, dates),
        None => Seq::empty(),
    }) + seq![ItemModel::Separator, ItemModel::Refresh("Refresh usage"@)]
}

/// `dates` can be the local dates for the quotas that are shown.
pub open spec fn datable_all(buckets: Seq<BucketModel>, dates: Seq<Seq<Option<Seq<char>>>>) -> bool {
    &&& dates.len() == buckets.len()
    &&& forall|i: int|
        0 <= i < buckets.len() ==> (#[trigger] dates[i]).len() == buckets[i].windows.len()
    &&& forall|i: int, k: int|
        0 <= i < buckets.len() && 0 <= k < buckets[i].windows.len() ==> usage_view::datable(
            buckets[i].windows[k],
            #[trigger] dates[i][k],
        )
}

fn push_item(items: &mut Vec<MenuItem>, item: MenuItem)
    ensures
        final(items).deep_view() == old(items).deep_view() + seq![item.deep_view()],
{
    let ghost before = items.deep_view();
    let ghost model = item.deep_view();
    items.push(item);
    assert(items.deep_view() =~= before + seq![model]);
}

fn push_label(items: &mut Vec<MenuItem>, content: Option<String>)
    ensures
        final(items).deep_view() == old(items).deep_view() + optional_label(content.deep_view()),
{
    match content {
        Some(content) => {
            push_item(items, MenuItem::Label(content));
        },
        None => {
            assert(items.deep_view() + Seq::<ItemModel>::empty() =~= items.deep_view());
        },
    }
}

fn push_labels(items: &mut Vec<MenuItem>, contents: &Vec<String>)
    ensures
        final(items).deep_view() == old(items).deep_view() + labels(contents.deep_view()),
{
    let ghost before = items.deep_view();
    let ghost all = labels(contents.deep_view());
    let mut i: usize = 0;
    assert(items.deep_view() =~= before + all.take(0));
    while i < contents.len()
        invariant
            all == labels(contents.deep_view()),
            i <= contents@.len(),
            items.deep_view() == before + all.take(i as int),
        decreases contents@.len() - i,
    {
        push_item(items, MenuItem::Label(contents[i].clone()));
        assert(all[i as int] == ItemModel::Label(contents@[i as int]@));
        assert(items.deep_view() =~= before + all.take(i + 1));
        i += 1;
    }
    assert(all.take(i as int) =~= all);
}

fn push_windows(
    items: &mut Vec<MenuItem>,
    windows: &Vec<QuotaWindow>,
    stale: bool,
    now: Timestamp,
    dates: &Vec<Option<String>>,
)
    ensures
        final(items).deep_view() == old(items).deep_view() + window_items(
            windows.deep_view(),
            stale,
            now@,
            dates.deep_view(),
            windows@.len() as int,
        ),
{
    let ghost before = items.deep_view();
    let ghost all = windows.deep_view();
    let mut i: usize = 0;
    assert(before + Seq::<ItemModel>::empty() =~= before);
    while i < windows.len()
        invariant
            all == windows.deep_view(),
            i <= windows@.len(),
            items.deep_view() == before + window_items(
                all,
                stale,
                now@,
                dates.deep_view(),
                i as int,
            ),
        decreases windows@.len() - i,
    {
        let window = &windows[i];
        assert(all[i as int] == window.deep_view());
        let ghost earlier = window_items(all, stale, now@, dates.deep_view(), i as int);
        let none: Option<String> = None;
        let date = if i < dates.len() {
            assert(dates.deep_view()[i as int] == dates@[i as int].deep_view());
            &dates[i]
        } else {
            &none
        };
        let label = usage_view::reset_label_on(window, now, date);
        push_item(items, MenuItem::Meter(usage_view::meter(window, stale, false)));
        push_label(items, label);
        assert(items.deep_view() =~= before + window_items(
            all,
            stale,
            now@,
            dates.deep_view(),
            i + 1,
        ));
        i += 1;
    }
}

fn push_bucket(
    items: &mut Vec<MenuItem>,
    bucket: &UsageBucket,
    stale: bool,
    now: Timestamp,
    dates: &Vec<Option<String>>,
)
    ensures
        final(items).deep_view() == old(items).deep_view() + bucket_items(
            bucket.deep_view(),
            stale,
            now@,
            dates.deep_view(),
        ),
{
    let ghost before = items.deep_view();
    push_item(items, MenuItem::Separator);
    push_item(items, MenuItem::Header(bucket.name.clone()));
    let status = match usage_view::bucket_status(bucket) {
        Some(status) => Some(status.to_owned()),
        None => None,
    };
    push_label(items, status);
    if bucket.windows.len() == 0 {
        push_item(items, MenuItem::Label("Window data unavailable".to_owned()));
    }
    push_windows(items, &bucket.windows, stale, now, dates);
    assert(items.deep_view() =~= before + bucket_items(
        bucket.deep_view(),
        stale,
        now@,
        dates.deep_view(),
    ));
}

fn push_buckets(
    items: &mut Vec<MenuItem>,
    buckets: &Vec<UsageBucket>,
    stale: bool,
    now: Timestamp,
    dates: &Dates,
)
    ensures
        final(items).deep_view() == old(items).deep_view() + buckets_items(
            buckets.deep_view(),
            stale,
            now@,
            dates.deep_view(),
            buckets@.len() as int,
        ),
{
    let ghost before = items.deep_view();
    let ghost all = buckets.deep_view();
    let none: Vec<Option<String>> = Vec::new();
    assert(none.deep_view() =~= Seq::<Option<Seq<char>>>::empty());
    let mut i: usize = 0;
    assert(before + Seq::<ItemModel>::empty() =~= before);
    while i < buckets.len()
        invariant
            all == buckets.deep_view(),
            none.deep_view() == Seq::<Option<Seq<char>>>::empty(),
            i <= buckets@.len(),
            items.deep_view() == before + buckets_items(
                all,
                stale,
                now@,
                dates.deep_view(),
                i as int,
            ),
        decreases buckets@.len() - i,
    {
        assert(all[i as int] == buckets@[i as int].deep_view());
        let ghost earlier = items.deep_view();
        let row = if i < dates.len() {
            assert(dates.deep_view()[i as int] == dates@[i as int].deep_view());
            &dates[i]
        } else {
            &none
        };
        push_bucket(items, &buckets[i], stale, now, row);
        assert(items.deep_view() =~= before + buckets_items(
            all,
            stale,
            now@,
            dates.deep_view(),
            i + 1,
        ));
        i += 1;
    }
}

fn push_usage(
    items: &mut Vec<MenuItem>,
    usage: &AccountUsage,
    stale: bool,
    now: Timestamp,
    dates: &Dates,
)
    ensures
        final(items).deep_view() == old(items).deep_view() + usage_items(
            usage@,
            stale,
            now@,
            dates.deep_view(),
        ),
{
    let ghost before = items.deep_view();
    let plan = match &usage.plan {
        Some(plan) => Some(text::joined("Plan: ", plan)),
        None => None,
    };
    push_label(items, plan);
    let age = match now.seconds_since(usage.fetched_at) {
        Some(seconds) => Some(
            text::joined3("Updated ", &text::decimal_of(seconds), " seconds ago"),
        ),
        None => None,
    };
    push_label(items, age);
    push_labels(items, &usage.warnings);
    push_buckets(items, &usage.buckets, stale, now, dates);
    push_item(items, MenuItem::Separator);
    push_labels(items, &usage.details);
    push_item(
        items,
        MenuItem::Label("Included quota and purchased credits are separate.".to_owned()),
    );
    push_item(
        items,
        MenuItem::Label(
            "Usage may lag recent requests. Extra buckets have their own limits.".to_owned(),
        ),
    );
    assert(items.deep_view() =~= before + usage_items(usage@, stale, now@, dates.deep_view()));
}

fn window_dates(windows: &Vec<QuotaWindow>) -> (dates: Vec<Option<String>>)
    ensures
        dates@.len() == windows@.len(),
        forall|k: int|
            0 <= k < windows@.len() ==> usage_view::datable(
                windows.deep_view()[k],
                #[trigger] dates.deep_view()[k],
            ),
{
    let mut dates: Vec<Option<String>> = Vec::new();
    let mut i: usize = 0;
    while i < windows.len()
        invariant
            i <= windows@.len(),
            dates@.len() == i,
            forall|k: int|
                0 <= k < i ==> usage_view::datable(
                    windows.deep_view()[k],
                    #[trigger] dates.deep_view()[k],
                ),
        decreases windows@.len() - i,
    {
        let ghost before = dates.deep_view();
        let date = usage_view::reset_date(&windows[i]);
        let ghost model = date.deep_view();
        dates.push(date);
        assert(dates.deep_view() =~= before.push(model));
        assert(windows.deep_view()[i as int] == windows@[i as int].deep_view());
        i += 1;
    }
    dates
}

/// The local dates at which the quotas that are shown are there again.
pub fn reset_dates(usage: &AccountUsage) -> (dates: Dates)
    ensures
        datable_all(usage@.buckets, dates.deep_view()),
{
    let mut dates: Dates = Vec::new();
    let ghost buckets = usage@.buckets;
    let mut i: usize = 0;
    while i < usage.buckets.len()
        invariant
            buckets == usage.buckets.deep_view(),
            i <= usage.buckets@.len(),
            dates@.len() == i,
            forall|n: int|
                0 <= n < i ==> (#[trigger] dates.deep_view()[n]).len()
                    == buckets[n].windows.len(),
            forall|n: int, k: int|
                0 <= n < i && 0 <= k < buckets[n].windows.len() ==> usage_view::datable(
                    buckets[n].windows[k],
                    #[trigger] dates.deep_view()[n][k],
                ),
        decreases usage.buckets@.len() - i,
    {
        let ghost before = dates.deep_view();
        let row = window_dates(&usage.buckets[i].windows);
        let ghost model = row.deep_view();
        dates.push(row);
        assert(dates.deep_view() =~= before.push(model));
        assert(buckets[i as int] == usage.buckets@[i as int].deep_view());
        i += 1;
    }
    dates
}

impl AccountUsageView {
    /// The lines of the menu at a moment, given the local dates at which the quotas are there
    /// again.
    pub fn menu_on(&self, stale: bool, now: Timestamp, dates: &Dates) -> (items: Vec<MenuItem>)
        ensures
            items.deep_view() == menu_items(self@, stale, now@, dates.deep_view()),
    {
        let mut items: Vec<MenuItem> = Vec::new();
        assert(items.deep_view() =~= Seq::<ItemModel>::empty());
        push_item(&mut items, MenuItem::Header("ChatGPT account usage".to_owned()));
        let error = match &self.error {
            Some(error) => Some(text::joined("Usage unavailable: ", error)),
            None => None,
        };
        push_label(&mut items, error);
        match &self.usage {
            Some(usage) => {
                push_usage(&mut items, usage, stale, now, dates);
            },
            None => {},
        }
        push_item(&mut items, MenuItem::Separator);
        push_item(&mut items, MenuItem::Refresh("Refresh usage".to_owned()));
        assert(items.deep_view() =~= menu_items(self@, stale, now@, dates.deep_view()));
        items
    }

    /// The lines of the menu at a moment.
    ///
    /// Each date is that of its reset in the machine's time zone. Of the zone nothing is claimed
    /// but that it is less than a day ahead of UTC or behind it.
    pub fn menu(&self, stale: bool, now: Timestamp) -> (items: Vec<MenuItem>)
        ensures
            exists|dates: Seq<Seq<Option<Seq<char>>>>|
                (self@.usage matches Some(usage) ==> datable_all(usage.buckets, dates))
                    && items.deep_view() == #[trigger] menu_items(self@, stale, now@, dates),
    {
        let dates: Dates = match &self.usage {
            Some(usage) => reset_dates(usage),
            None => Vec::new(),
        };
        let items = self.menu_on(stale, now, &dates);
        assert(items.deep_view() == menu_items(self@, stale, now@, dates.deep_view()));
        items
    }
}

/// The last line of the menu, whatever is known, asks for the usage anew.
pub proof fn usage_can_always_be_refreshed(
    view: ViewModel,
    stale: bool,
    now: int,
    dates: Seq<Seq<Option<Seq<char>>>>,
)
    ensures
        menu_items(view, stale, now, dates).last() == ItemModel::Refresh("Refresh usage"@),
{
}

/// What the service says of whether quotas can be used stands before any percentage: quotas that
/// it calls exhausted or closed are never shown as usable.
pub proof fn flags_override_percentages(bucket: BucketModel, windows: Seq<WindowModel>)
    ensures
        usage_view::status_text(BucketModel { windows, ..bucket }) == usage_view::status_text(
            bucket,
        ),
        usage_view::status_text(bucket) is None <==> bucket.allowed == Some(true)
            && bucket.limit_reached != Some(true),
{
    match bucket.allowed {
        Some(allowed) => {
            assert(allowed || bucket.allowed == Some(false));
        },
        None => {},
    }
}

/// A failure to get the usage keeps the last known usage, and marks it as stale.
pub proof fn failed_refresh_keeps_usage(view: ViewModel, error: Seq<char>, now: int)
    ensures
        view.refreshed(Err(error)).usage == view.usage,
        view.usage is Some ==> view.refreshed(Err(error)).stale(now),
        usage_view::button_of(view.refreshed(Err(error)), now).warning,
{
}

} // verus!
