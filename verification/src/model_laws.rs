//! What holds of the models on offer, and of requests to them.
use crate::credentials::CodexCredentials;
use crate::encoding;
use crate::models;
use crate::models::{
    CatalogModel, ChatGptModel, EffortLevel, LevelModel, ModelFacts, ModelVisibility,
    ReasoningEffort,
};
use crate::provider;
use crate::provider::{OpenAiSubscribedLanguageModel, OpenAiSubscribedProvider};
use crate::requests;
use crate::requests::{RequestOptions, ResponsesRequest};
use crate::state::State;
use crate::text;
use vstd::prelude::*;
use vstd::string::*;

verus! {

/// A model of the catalog is offered with the context size that its entry states, else with the
/// largest that it states, and with 272000 tokens only where it states neither.
pub proof fn stated_context_size_is_offered(model: CatalogModel, r: ChatGptModel, count: u64)
    requires
        call_ensures(ChatGptModel::from_catalog, (model,), r),
        call_ensures(ChatGptModel::max_token_count, (&r,), count),
    ensures
        model.context_window matches Some(size) ==> count == size,
        model.context_window is None ==> (model.max_context_window matches Some(size) ==> count
            == size),
        model.context_window is None && model.max_context_window is None ==> count == 272_000,
{
}

/// A model of the catalog keeps the name by which it is asked for, and the one that is shown.
pub proof fn catalog_names_are_kept(
    model: CatalogModel,
    r: ChatGptModel,
    id: &str,
    name: &str,
    counted: String,
)
    requires
        call_ensures(ChatGptModel::from_catalog, (model,), r),
        call_ensures(ChatGptModel::id, (&r,), id),
        call_ensures(ChatGptModel::display_name, (&r,), name),
        call_ensures(ChatGptModel::telemetry_id, (&r,), counted),
    ensures
        id@ == model.slug@,
        name@ == model.display_name@,
        counted@ == "openai-subscribed/"@ + model.slug@,
{
}

/// A model of the catalog takes images unless its entry lists what it takes and leaves them out.
pub proof fn stated_modalities_decide_on_images(model: CatalogModel, r: ChatGptModel, images: bool)
    requires
        call_ensures(ChatGptModel::from_catalog, (model,), r),
        call_ensures(ChatGptModel::supports_images, (&r,), images),
    ensures
        model.input_modalities is None ==> images,
        model.input_modalities matches Some(modalities) ==> (images <==> exists|i: int|
            0 <= i < modalities@.len() && (#[trigger] modalities@[i])@ == "image"@),
{
    if let Some(modalities) = model.input_modalities {
        let all = modalities.deep_view();
        assert(all.len() == modalities@.len());
        if images {
            let i = all.index_of("image"@);
            assert(all[i] == modalities@[i]@);
        }
        if exists|i: int| 0 <= i < modalities@.len() && (#[trigger] modalities@[i])@ == "image"@ {
            let i = choose|i: int|
                0 <= i < modalities@.len() && (#[trigger] modalities@[i])@ == "image"@;
            assert(all[i] == "image"@);
        }
    }
}

/// A model of the catalog answers faster on demand just if it has a fast speed tier or a service
/// tier with priority.
pub proof fn stated_tiers_decide_on_priority(model: CatalogModel, r: ChatGptModel, priority: bool)
    requires
        call_ensures(ChatGptModel::from_catalog, (model,), r),
        call_ensures(ChatGptModel::supports_priority, (&r,), priority),
    ensures
        priority <==> (exists|i: int|
            0 <= i < model.additional_speed_tiers@.len() && (
            #[trigger] model.additional_speed_tiers@[i])@ == "fast"@) || (exists|i: int|
            0 <= i < model.service_tiers@.len() && (#[trigger] model.service_tiers@[i])@
                == "priority"@),
{
    let speeds = model.additional_speed_tiers.deep_view();
    let tiers = model.service_tiers.deep_view();
    if speeds.contains("fast"@) {
        let i = speeds.index_of("fast"@);
        assert(speeds[i] == model.additional_speed_tiers@[i]@);
    }
    if tiers.contains("priority"@) {
        let i = tiers.index_of("priority"@);
        assert(tiers[i] == model.service_tiers@[i]@);
    }
    if exists|i: int|
        0 <= i < model.additional_speed_tiers@.len() && (
        #[trigger] model.additional_speed_tiers@[i])@ == "fast"@ {
        let i = choose|i: int|
            0 <= i < model.additional_speed_tiers@.len() && (
            #[trigger] model.additional_speed_tiers@[i])@ == "fast"@;
        assert(speeds[i] == "fast"@);
    }
    if exists|i: int|
        0 <= i < model.service_tiers@.len() && (#[trigger] model.service_tiers@[i])@
            == "priority"@ {
        let i = choose|i: int|
            0 <= i < model.service_tiers@.len() && (#[trigger] model.service_tiers@[i])@
                == "priority"@;
        assert(tiers[i] == "priority"@);
    }
}

/// Each effort has one name, and other names stand for none.
pub proof fn efforts_have_names(name: &str, r: Option<ReasoningEffort>)
    requires
        call_ensures(models::parse_reasoning_effort, (name,), r),
    ensures
        r == Some(ReasoningEffort::NoEffort) <==> name@ == "none"@,
        r == Some(ReasoningEffort::Minimal) <==> name@ == "minimal"@,
        r == Some(ReasoningEffort::Low) <==> name@ == "low"@,
        r == Some(ReasoningEffort::Medium) <==> name@ == "medium"@,
        r == Some(ReasoningEffort::High) <==> name@ == "high"@,
        r == Some(ReasoningEffort::XHigh) <==> name@ == "xhigh"@,
        r == Some(ReasoningEffort::Max) <==> name@ == "max"@,
{
    lemma_effort_names_differ();
}

proof fn lemma_effort_names_differ()
    ensures
        "none"@ != "minimal"@,
        "none"@ != "low"@,
        "none"@ != "medium"@,
        "none"@ != "high"@,
        "none"@ != "xhigh"@,
        "none"@ != "max"@,
        "minimal"@ != "low"@,
        "minimal"@ != "medium"@,
        "minimal"@ != "high"@,
        "minimal"@ != "xhigh"@,
        "minimal"@ != "max"@,
        "low"@ != "medium"@,
        "low"@ != "high"@,
        "low"@ != "xhigh"@,
        "low"@ != "max"@,
        "medium"@ != "high"@,
        "medium"@ != "xhigh"@,
        "medium"@ != "max"@,
        "high"@ != "xhigh"@,
        "high"@ != "max"@,
        "xhigh"@ != "max"@,
{
    reveal_strlit("none");
    reveal_strlit("minimal");
    reveal_strlit("low");
    reveal_strlit("medium");
    reveal_strlit("high");
    reveal_strlit("xhigh");
    reveal_strlit("max");
    assert("none"@[0] == 'n' && "high"@[0] == 'h' && "low"@[0] == 'l' && "max"@[0] == 'm');
    assert("minimal"@.len() == 7 && "medium"@.len() == 6 && "xhigh"@.len() == 5);
}

proof fn lemma_efforts_in_turn(a: Seq<Seq<char>>, b: Seq<Seq<char>>)
    ensures
        models::efforts_named(a + b) == models::efforts_named(a) + models::efforts_named(b),
    decreases b.len(),
{
    if b.len() == 0 {
        assert(a + b =~= a);
        assert(models::efforts_named(a) + models::efforts_named(b) =~= models::efforts_named(a));
    } else {
        lemma_efforts_in_turn(a, b.drop_last());
        assert((a + b).drop_last() =~= a + b.drop_last());
        assert(models::efforts_named(a + b) =~= models::efforts_named(a) + models::efforts_named(
            b,
        ));
    }
}

/// The efforts of a model of the catalog are those that its entry names, in that order and without
/// the names that stand for none: a name more, at any place, adds its effort at the place, if it
/// has one.
pub proof fn named_efforts_are_offered(
    before: Seq<Seq<char>>,
    name: &str,
    after: Seq<Seq<char>>,
    effort: Option<ReasoningEffort>,
    model: CatalogModel,
    r: ChatGptModel,
    offered: Vec<ReasoningEffort>,
)
    requires
        call_ensures(models::parse_reasoning_effort, (name,), effort),
        call_ensures(ChatGptModel::from_catalog, (model,), r),
        call_ensures(ChatGptModel::supported_reasoning_efforts, (&r,), offered),
        model.supported_reasoning_levels.deep_view() == before + seq![name@] + after,
        effort is Some || model.default_reasoning_level is None,
    ensures
        offered@ == models::efforts_named(before) + (match effort {
            Some(effort) => seq![effort],
            None => Seq::empty(),
        }) + models::efforts_named(after),
        models::efforts_named(Seq::<Seq<char>>::empty()).len() == 0,
{
    let one = seq![name@];
    lemma_efforts_in_turn(before + one, after);
    lemma_efforts_in_turn(before, one);
    assert(one.drop_last() =~= Seq::<Seq<char>>::empty());
    assert(models::efforts_named(one.drop_last()) =~= Seq::<ReasoningEffort>::empty());
    assert(models::efforts_named(one) =~= (match effort {
        Some(effort) => seq![effort],
        None => Seq::empty(),
    }));
    if effort is Some {
        assert(models::efforts_named(before + one + after).len() > 0);
    }
}

/// The effort that an entry of the catalog names as the usual one is the model's own, and the only
/// one that it offers where the entry lists none.
pub proof fn usual_effort_is_offered(
    model: CatalogModel,
    r: ChatGptModel,
    name: &str,
    named: Option<ReasoningEffort>,
    usual: Option<ReasoningEffort>,
    offered: Vec<ReasoningEffort>,
)
    requires
        call_ensures(ChatGptModel::from_catalog, (model,), r),
        call_ensures(ChatGptModel::default_reasoning_effort, (&r,), usual),
        call_ensures(ChatGptModel::supported_reasoning_efforts, (&r,), offered),
        call_ensures(models::parse_reasoning_effort, (name,), named),
    ensures
        model.default_reasoning_level.deep_view() == Some(name@) ==> usual == named,
        model.default_reasoning_level is None ==> usual is None,
        model.supported_reasoning_levels@.len() == 0 ==> offered@ == (match usual {
            Some(effort) => seq![effort],
            None => Seq::empty(),
        }),
{
    assert(model.supported_reasoning_levels@.len() == 0 ==> models::efforts_named(
        model.supported_reasoning_levels.deep_view(),
    ) =~= Seq::<ReasoningEffort>::empty());
}

proof fn lemma_levels_in_turn(
    a: Seq<ReasoningEffort>,
    b: Seq<ReasoningEffort>,
    default: Option<ReasoningEffort>,
)
    ensures
        models::levels(a + b, default) == models::levels(a, default) + models::levels(b, default),
    decreases b.len(),
{
    if b.len() == 0 {
        assert(a + b =~= a);
        assert(models::levels(a, default) + models::levels(b, default) =~= models::levels(
            a,
            default,
        ));
    } else {
        lemma_levels_in_turn(a, b.drop_last(), default);
        assert((a + b).drop_last() =~= a + b.drop_last());
        assert(models::levels(a + b, default) =~= models::levels(a, default) + models::levels(
            b,
            default,
        ));
    }
}

/// How an effort is shown to users.
pub open spec fn shown_name(effort: ReasoningEffort) -> Seq<char> {
    match effort {
        ReasoningEffort::NoEffort => "None"@,
        ReasoningEffort::Minimal => "Minimal"@,
        ReasoningEffort::Low => "Low"@,
        ReasoningEffort::Medium => "Medium"@,
        ReasoningEffort::High => "High"@,
        ReasoningEffort::XHigh => "Extra High"@,
        ReasoningEffort::Max => "Max"@,
    }
}

/// Users can choose each effort that the model offers, at its place, but not that of no effort at
/// all; its value is the name that stands for it, and the usual effort is marked as such.
pub proof fn offered_efforts_can_be_chosen(
    model: &ChatGptModel,
    r: Vec<EffortLevel>,
    before: Seq<ReasoningEffort>,
    effort: ReasoningEffort,
    after: Seq<ReasoningEffort>,
    value: &str,
    named: Option<ReasoningEffort>,
)
    requires
        call_ensures(ChatGptModel::supported_effort_levels, (model,), r),
        call_ensures(models::parse_reasoning_effort, (value,), named),
        named == Some(effort),
        model@.supported_reasoning_efforts == before + seq![effort] + after,
    ensures
        ({
            let usual = model@.default_reasoning_effort;
            let level = LevelModel {
                name: shown_name(effort),
                value: value@,
                is_default: usual == Some(effort),
            };
            r.deep_view() == models::levels(before, usual) + (if effort
                == ReasoningEffort::NoEffort {
                Seq::empty()
            } else {
                seq![level]
            }) + models::levels(after, usual)
        }),
        models::levels(Seq::empty(), model@.default_reasoning_effort).len() == 0,
{
    let usual = model@.default_reasoning_effort;
    let one = seq![effort];
    efforts_have_names(value, named);
    lemma_levels_in_turn(before + one, after, usual);
    lemma_levels_in_turn(before, one, usual);
    assert(one.drop_last() =~= Seq::<ReasoningEffort>::empty());
    assert(models::levels(one.drop_last(), usual) =~= Seq::<LevelModel>::empty());
    let level = LevelModel {
        name: shown_name(effort),
        value: value@,
        is_default: usual == Some(effort),
    };
    assert(models::levels(one, usual) =~= (if effort == ReasoningEffort::NoEffort {
        Seq::empty()
    } else {
        seq![level]
    }));
}

/// The models known from the start are these, in this order.
pub proof fn known_models_are_offered(r: Vec<ChatGptModel>)
    requires
        call_ensures(ChatGptModel::all, (), r),
    ensures
        r@.len() == 6,
        r@[0]@.id == "gpt-5.6-sol"@ && r@[0]@.display_name == "GPT-5.6 Sol"@,
        r@[1]@.id == "gpt-5.6-terra"@ && r@[1]@.display_name == "GPT-5.6 Terra"@,
        r@[2]@.id == "gpt-5.6-luna"@ && r@[2]@.display_name == "GPT-5.6 Luna"@,
        r@[3]@.id == "gpt-5.5"@ && r@[3]@.display_name == "GPT-5.5"@,
        r@[4]@.id == "gpt-5.4"@ && r@[4]@.display_name == "GPT-5.4"@,
        r@[5]@.id == "gpt-5.4-mini"@ && r@[5]@.display_name == "GPT-5.4 Mini"@,
{
}

/// All models known from the start take images, and offer efforts from low to extra high. Those of
/// the newest family have larger contexts and offer the largest effort too. One thinks little by
/// default, and one cannot answer faster on demand.
pub proof fn known_models_differ_in_size(r: Vec<ChatGptModel>, i: int)
    requires
        call_ensures(ChatGptModel::all, (), r),
        0 <= i < r@.len(),
    ensures
        r@[i]@.supports_images,
        r@[i]@.max_token_count == (if i < 3 {
            372_000u64
        } else {
            272_000u64
        }),
        r@[i]@.supports_priority == (i < 5),
        r@[i]@.default_reasoning_effort == (if i == 0 {
            Some(ReasoningEffort::Low)
        } else {
            Some(ReasoningEffort::Medium)
        }),
        r@[i]@.supported_reasoning_efforts == (if i < 3 {
            seq![
                ReasoningEffort::Low,
                ReasoningEffort::Medium,
                ReasoningEffort::High,
                ReasoningEffort::XHigh,
                ReasoningEffort::Max,
            ]
        } else {
            seq![
                ReasoningEffort::Low,
                ReasoningEffort::Medium,
                ReasoningEffort::High,
                ReasoningEffort::XHigh,
            ]
        }),
{
    assert(models::common_efforts().push(ReasoningEffort::Max) =~= seq![
        ReasoningEffort::Low,
        ReasoningEffort::Medium,
        ReasoningEffort::High,
        ReasoningEffort::XHigh,
        ReasoningEffort::Max,
    ]);
}

/// What is told of a model is what is known of it.
pub proof fn known_facts_are_told(
    model: &ChatGptModel,
    id: &str,
    name: &str,
    count: u64,
    images: bool,
    usual: Option<ReasoningEffort>,
    efforts: Vec<ReasoningEffort>,
    priority: bool,
)
    requires
        call_ensures(ChatGptModel::id, (model,), id),
        call_ensures(ChatGptModel::display_name, (model,), name),
        call_ensures(ChatGptModel::max_token_count, (model,), count),
        call_ensures(ChatGptModel::supports_images, (model,), images),
        call_ensures(ChatGptModel::default_reasoning_effort, (model,), usual),
        call_ensures(ChatGptModel::supported_reasoning_efforts, (model,), efforts),
        call_ensures(ChatGptModel::supports_priority, (model,), priority),
    ensures
        model@ == (ModelFacts {
            id: id@,
            display_name: name@,
            max_token_count: count,
            supports_images: images,
            default_reasoning_effort: usual,
            supported_reasoning_efforts: efforts@,
            supports_priority: priority,
        }),
{
}

/// No model states the size of its answers, and every model calls tools in parallel and names a
/// cache for its prompts.
pub proof fn all_models_have_this_in_common(
    model: &ChatGptModel,
    output: Option<u64>,
    parallel: bool,
    cached: bool,
)
    requires
        call_ensures(ChatGptModel::max_output_tokens, (model,), output),
        call_ensures(ChatGptModel::supports_parallel_tool_calls, (model,), parallel),
        call_ensures(ChatGptModel::supports_prompt_cache_key, (model,), cached),
    ensures
        output is None,
        parallel,
        cached,
{
}

/// Requests to a model state its id, its usual effort and whether it can be told not to think; they
/// ask for speed only of a model that offers it.
pub proof fn requests_follow_the_model<S>(
    model: &ChatGptModel,
    r: RequestOptions,
    requested: Option<S>,
    speed: Option<S>,
)
    requires
        call_ensures(ChatGptModel::request_options, (model,), r),
        call_ensures(ChatGptModel::speed::<S>, (model, requested), speed),
    ensures
        r.model@ == model@.id,
        r.parallel_tool_calls && r.prompt_cache_key && r.max_output_tokens is None,
        r.default_reasoning_effort == model@.default_reasoning_effort,
        r.supports_no_effort <==> exists|i: int|
            0 <= i < model@.supported_reasoning_efforts.len()
                && #[trigger] model@.supported_reasoning_efforts[i] == ReasoningEffort::NoEffort,
        model@.supports_priority ==> speed == requested,
        !model@.supports_priority ==> speed is None,
{
}

/// The models on offer are those of the catalog that are to be listed, each as its entry describes
/// it, by priority.
pub proof fn catalog_is_offered(
    status: u16,
    body: &str,
    entries: Vec<CatalogModel>,
    r: Result<Vec<ChatGptModel>, String>,
    listed: Vec<CatalogModel>,
    i: int,
    made: ChatGptModel,
)
    requires
        call_ensures(models::catalog_outcome, (status, body, Ok(entries)), r),
        call_ensures(models::picker_models, (entries,), listed),
        200 <= status < 300,
        0 <= i < listed@.len(),
        call_ensures(ChatGptModel::from_catalog, (listed@[i],), made),
    ensures
        r matches Ok(offered) && offered@.len() == listed@.len() && offered@[i]@ == made@,
{
    assert(models::picked(entries@).len() > 0);
    let offered = r->Ok_0;
    let facts = offered.deep_view();
    assert(facts == models::described_all(listed@));
    assert(facts.len() == offered@.len());
    assert(facts[i] == offered@[i].deep_view());
}

/// Of a catalog those models are listed that are to be listed, each as often as it is there, by
/// priority; models of one priority stand in the order of the catalog.
pub proof fn listed_models_are_picked(entries: Vec<CatalogModel>, listed: Vec<CatalogModel>)
    requires
        call_ensures(models::picker_models, (entries,), listed),
    ensures
        forall|i: int|
            0 <= i < listed@.len() ==> (#[trigger] listed@[i]).visibility == ModelVisibility::List,
        forall|i: int, j: int|
            0 <= i < j < listed@.len() ==> (#[trigger] listed@[i]).priority <= (
            #[trigger] listed@[j]).priority,
        forall|priority: i32| #[trigger]
            models::of_priority(listed@, priority) == entries@.filter(
                |model: CatalogModel|
                    model.visibility == ModelVisibility::List && model.priority == priority,
            ),
{
    models::picked_by_priority(entries@);
    models::picked_keeps_catalog_order(entries@, 0);
    assert forall|priority: i32| #[trigger]
        models::of_priority(listed@, priority) == entries@.filter(
            |model: CatalogModel|
                model.visibility == ModelVisibility::List && model.priority == priority,
        ) by {
        models::picked_keeps_catalog_order(entries@, priority);
        let one = |model: CatalogModel|
            model.visibility == ModelVisibility::List && model.priority == priority;
        assert(one =~= models::has_priority(priority));
    }
}

/// A request for the catalog fails where its answer is no success, cannot be read, or lists
/// nothing, and says so; one that is not answered in time fails as such.
pub proof fn catalog_failures_are_told(
    status: u16,
    body: &str,
    entries: Result<Vec<CatalogModel>, String>,
    r: Result<Vec<ChatGptModel>, String>,
    late: Result<Vec<ChatGptModel>, String>,
    kept: Result<Vec<ChatGptModel>, String>,
)
    requires
        call_ensures(models::catalog_outcome, (status, body, entries), r),
        call_ensures(models::catalog_in_time, (None,), late),
        call_ensures(models::catalog_in_time, (Some(r),), kept),
    ensures
        !(200 <= status < 300) ==> (r matches Err(message) && message@
            == "ChatGPT models request failed (HTTP "@ + encoding::status_text(status) + "): "@
            + body@),
        200 <= status < 300 ==> (entries matches Err(unreadable) ==> (r matches Err(message)
            && message@ == "failed to parse ChatGPT models response: "@ + unreadable@)),
        200 <= status < 300 ==> (entries matches Ok(all) ==> (forall|i: int|
            0 <= i < all@.len() ==> (#[trigger] all@[i]).visibility != ModelVisibility::List) ==> (r
            matches Err(message) && message@
            == "ChatGPT models response did not contain any picker-visible models"@)),
        late matches Err(message) && message@ == "ChatGPT models request timed out after 5s"@,
        kept == r,
{
    reveal_strlit("ChatGPT models request failed");
    reveal_strlit(" (HTTP ");
    reveal_strlit("ChatGPT models request failed (HTTP ");
    assert("ChatGPT models request failed"@ + " (HTTP "@
        =~= "ChatGPT models request failed (HTTP "@);
    reveal_strlit("ChatGPT models request timed out after ");
    reveal_strlit("s");
    reveal_strlit("ChatGPT models request timed out after 5s");
    assert(text::decimal(5) =~= seq!['5']);
    assert("ChatGPT models request timed out after "@ + text::decimal(5) + "s"@
        =~= "ChatGPT models request timed out after 5s"@);
    if let Ok(all) = entries {
        if forall|i: int|
            0 <= i < all@.len() ==> (#[trigger] all@[i]).visibility != ModelVisibility::List {
            lemma_nothing_picked(all@);
        }
    }
}

proof fn lemma_nothing_picked(entries: Seq<CatalogModel>)
    requires
        forall|i: int|
            0 <= i < entries.len() ==> (#[trigger] entries[i]).visibility != ModelVisibility::List,
    ensures
        models::picked(entries).len() == 0,
    decreases entries.len(),
{
    if entries.len() > 0 {
        assert(entries[0].visibility != ModelVisibility::List);
        assert forall|i: int| 0 <= i < entries.skip(1).len() implies (
        #[trigger] entries.skip(1)[i]).visibility != ModelVisibility::List by {
            assert(entries.skip(1)[i] == entries[i + 1]);
        }
        lemma_nothing_picked(entries.skip(1));
    }
}

proof fn lemma_first_named(offered: Seq<ModelFacts>, id: Seq<char>)
    ensures
        match models::first_named(offered, id) {
            Some(model) => model.id == id && offered.contains(model),
            None => forall|i: int| 0 <= i < offered.len() ==> (#[trigger] offered[i]).id != id,
        },
    decreases offered.len(),
{
    if offered.len() > 0 && offered[0].id != id {
        let rest = offered.skip(1);
        lemma_first_named(rest, id);
        match models::first_named(rest, id) {
            Some(model) => {
                assert(offered[rest.index_of(model) + 1] == model);
            },
            None => {
                assert forall|i: int| 0 <= i < offered.len() implies (#[trigger] offered[i]).id
                    != id by {
                    if i > 0 {
                        assert(rest[i - 1] == offered[i]);
                    }
                }
            },
        }
    }
}

/// The model to start with is the first on offer. The one for quick tasks is that with its id, if
/// it is on offer.
pub proof fn default_models_are_on_offer<T>(
    state: &State<T>,
    first: Option<ChatGptModel>,
    fast: Option<ChatGptModel>,
)
    requires
        call_ensures(State::<T>::default_model, (state,), first),
        call_ensures(State::<T>::default_fast_model, (state,), fast),
    ensures
        state@.available_models.len() > 0 ==> (first matches Some(model) && model@
            == state@.available_models[0]),
        state@.available_models.len() == 0 ==> first is None,
        fast matches Some(model) ==> model@.id == "gpt-5.6-luna"@
            && state@.available_models.contains(model@),
        fast is None ==> forall|i: int|
            0 <= i < state@.available_models.len() ==> (#[trigger] state@.available_models[i]).id
                != "gpt-5.6-luna"@,
{
    lemma_first_named(state@.available_models, "gpt-5.6-luna"@);
}

/// The provider offers the models of its state for whichever account is selected, and recommends
/// the first.
pub proof fn provider_offers_models<T>(
    provider: &OpenAiSubscribedProvider<T>,
    provided: Vec<OpenAiSubscribedLanguageModel>,
    recommended: Vec<OpenAiSubscribedLanguageModel>,
    i: int,
)
    requires
        call_ensures(OpenAiSubscribedProvider::<T>::provided_models, (provider,), provided),
        call_ensures(OpenAiSubscribedProvider::<T>::recommended_models, (provider,), recommended),
        0 <= i < provider.state@.available_models.len(),
    ensures
        provided@.len() == provider.state@.available_models.len(),
        provided@[i].model@ == provider.state@.available_models[i] && provided@[i].account_id
            is None,
        recommended@.len() == 1,
        recommended@[0].model@ == provider.state@.available_models[0] && recommended@[0].account_id
            is None,
{
}

/// A model for one account is the same model, and its usage is that of the account; a model for
/// whichever account is selected shows the usage of the selected one.
pub proof fn models_are_bound_to_accounts<T>(
    model: &OpenAiSubscribedLanguageModel,
    id: String,
    bound: OpenAiSubscribedLanguageModel,
    state: &State<T>,
    of_bound: String,
    of_model: String,
    free: ChatGptModel,
    created: OpenAiSubscribedLanguageModel,
)
    requires
        call_ensures(OpenAiSubscribedLanguageModel::with_account, (model, id), bound),
        call_ensures(OpenAiSubscribedLanguageModel::usage_account::<T>, (&bound, state), of_bound),
        call_ensures(OpenAiSubscribedLanguageModel::usage_account::<T>, (model, state), of_model),
        call_ensures(provider::create_language_model, (free,), created),
    ensures
        bound.model@ == model.model@,
        bound.account_id.deep_view() == Some(id@),
        of_bound@ == id@,
        model.account_id is None ==> of_model@ == state.accounts.selected@,
        created.model == free && created.account_id is None,
{
}

/// The header of a request shows the access token of its account.
pub proof fn requests_show_their_token(credentials: &CodexCredentials, r: String)
    requires
        call_ensures(requests::authorization, (credentials,), r),
    ensures
        r@ == "Bearer "@ + credentials.access_token@,
{
}

/// The catalog is asked for at the service's address, under a version.
pub proof fn catalog_is_asked_for(version: &str, r: String)
    requires
        call_ensures(requests::models_uri, (version,), r),
    ensures
        r@ == "https://chatgpt.com/backend-api/codex/models?"@ + encoding::form_urlencoded(
            seq![("client_version"@, version@)],
        ),
{
    reveal_strlit("https://chatgpt.com/backend-api/codex");
    reveal_strlit("/models?");
    reveal_strlit("https://chatgpt.com/backend-api/codex/models?");
    assert("https://chatgpt.com/backend-api/codex"@ + "/models?"@
        =~= "https://chatgpt.com/backend-api/codex/models?"@);
}

/// The text can stand in a header: it holds no control character of ASCII but the tab.
pub open spec fn fits_header(content: Seq<char>) -> bool {
    forall|i: int|
        0 <= i < content.len() ==> #[trigger] content[i] == '\t' || (content[i] as int >= 32
            && content[i] as int != 127)
}

/// Every request names its origin and the interface that it uses. It names its account if that has
/// an id of its own that is not empty and can stand in a header, and its session if that has a name
/// that can. It has no other headers, and none twice.
pub proof fn headers_name_account_and_session(
    credentials: &CodexCredentials,
    session: Option<&str>,
    r: Vec<(String, String)>,
)
    requires
        call_ensures(requests::codex_extra_headers, (credentials, session), r),
    ensures
        ({
            let headers = r.deep_view();
            let account = credentials.account_id matches Some(id) && id@.len() > 0 && fits_header(
                id@,
            );
            let named = session matches Some(name) && fits_header(name@);
            let place: int = if account {
                3
            } else {
                2
            };
            &&& headers[0] == ("originator"@, "zed"@)
            &&& headers[1] == ("openai-beta"@, "responses=experimental"@)
            &&& account ==> headers[2] == ("chatgpt-account-id"@, credentials.account_id->0@)
            &&& named ==> headers[place] == ("session-id"@, session->0@) && headers[place + 1] == (
                "thread-id"@,
                session->0@,
            )
            &&& headers.len() == place + (if named {
                2int
            } else {
                0int
            })
        }),
{
    if let Some(id) = credentials.account_id {
        assert(encoding::header_value_allowed(id@) == fits_header(id@));
    }
    if let Some(name) = session {
        assert(encoding::header_value_allowed(name@) == fits_header(name@));
    }
}

/// A sealed request is not kept by the service and has instructions, which stay if it had any; all
/// else stays.
pub proof fn sealed_requests_are_not_kept<I, C>(request: &mut ResponsesRequest<I, C>, r: ())
    requires
        call_ensures(ResponsesRequest::<I, C>::seal, (request,), r),
    ensures
        final(request).store == Some(false),
        final(request).instructions is Some,
        old(request).instructions is Some ==> final(request).instructions == old(request).instructions,
        old(request).instructions is None ==> final(request).instructions->0@.len() == 0,
        final(request).input == old(request).input,
        final(request).context_management == old(request).context_management,
{
    reveal_strlit("");
}

/// A request for a shorter context ends with the item that asks for it, and sets no rules for the
/// context; all else stays.
pub proof fn compaction_is_asked_for_last<I, C>(
    request: &mut ResponsesRequest<I, C>,
    trigger: I,
    r: (),
)
    requires
        call_ensures(ResponsesRequest::<I, C>::ask_for_compaction, (request, trigger), r),
    ensures
        final(request).input@.len() == old(request).input@.len() + 1,
        final(request).input@.last() == trigger,
        final(request).input@.drop_last() == old(request).input@,
        final(request).context_management is None,
        final(request).store == old(request).store,
        final(request).instructions == old(request).instructions,
{
    assert(final(request).input@.drop_last() =~= old(request).input@);
}

} // verus!
