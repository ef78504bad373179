//! The models of a subscription: those known from the start, and those that the service lists.
use crate::oauth;
use crate::text;
use vstd::prelude::*;
use vstd::string::*;

verus! {

/// The id of this provider of models.
pub const PROVIDER_ID: &'static str = "openai-subscribed";

/// The name of this provider of models.
pub const PROVIDER_NAME: &'static str = "ChatGPT Subscription";

/// The model for quick tasks.
pub const FAST_MODEL_ID: &'static str = "gpt-5.6-luna";

/// The context size of a model of which none is stated.
pub const DEFAULT_CONTEXT_WINDOW: u64 = 272_000;

/// How many seconds a request for the catalog may take.
pub const CATALOG_TIMEOUT_SECONDS: u64 = 5;

/// How long a model thinks before it answers.
#[derive(Clone, Copy, Debug, PartialEq, Eq, Structural)]
pub enum ReasoningEffort {
    NoEffort,
    Minimal,
    Low,
    Medium,
    High,
    XHigh,
    Max,
}

/// The effort that a name stands for.
pub open spec fn named_effort(name: Seq<char>) -> Option<ReasoningEffort> {
    if name == "none"@ {
        Some(ReasoningEffort::NoEffort)
    } else if name == "minimal"@ {
        Some(ReasoningEffort::Minimal)
    } else if name == "low"@ {
        Some(ReasoningEffort::Low)
    } else if name == "medium"@ {
        Some(ReasoningEffort::Medium)
    } else if name == "high"@ {
        Some(ReasoningEffort::High)
    } else if name == "xhigh"@ {
        Some(ReasoningEffort::XHigh)
    } else if name == "max"@ {
        Some(ReasoningEffort::Max)
    } else {
        None
    }
}

/// The effort that a name stands for.
pub fn parse_reasoning_effort(effort: &str) -> (r: Option<ReasoningEffort>)
    ensures
        r == named_effort(effort@),
{
    if text::same(effort, "none") {
        Some(ReasoningEffort::NoEffort)
    } else if text::same(effort, "minimal") {
        Some(ReasoningEffort::Minimal)
    } else if text::same(effort, "low") {
        Some(ReasoningEffort::Low)
    } else if text::same(effort, "medium") {
        Some(ReasoningEffort::Medium)
    } else if text::same(effort, "high") {
        Some(ReasoningEffort::High)
    } else if text::same(effort, "xhigh") {
        Some(ReasoningEffort::XHigh)
    } else if text::same(effort, "max") {
        Some(ReasoningEffort::Max)
    } else {
        None
    }
}

/// A model.
#[derive(Debug, PartialEq)]
pub enum ChatGptModel {
    Gpt56Sol,
    Gpt56Terra,
    Gpt56Luna,
    Gpt55,
    Gpt54,
    Gpt54Mini,
    Discovered(Box<DiscoveredChatGptModel>),
}

/// A model that the service lists.
#[derive(Debug, PartialEq)]
pub struct DiscoveredChatGptModel {
    pub id: String,
    pub display_name: String,
    pub max_token_count: u64,
    pub supports_images: bool,
    pub default_reasoning_effort: Option<ReasoningEffort>,
    pub supported_reasoning_efforts: Vec<ReasoningEffort>,
    pub supports_priority: bool,
}

/// What is known of a model.
#[verifier::ext_equal]
pub struct ModelFacts {
    pub id: Seq<char>,
    pub display_name: Seq<char>,
    pub max_token_count: u64,
    pub supports_images: bool,
    pub default_reasoning_effort: Option<ReasoningEffort>,
    pub supported_reasoning_efforts: Seq<ReasoningEffort>,
    pub supports_priority: bool,
}

impl View for DiscoveredChatGptModel {
    type V = ModelFacts;

    open spec fn view(&self) -> ModelFacts {
        ModelFacts {
            id: self.id@,
            display_name: self.display_name@,
            max_token_count: self.max_token_count,
            supports_images: self.supports_images,
            default_reasoning_effort: self.default_reasoning_effort,
            supported_reasoning_efforts: self.supported_reasoning_efforts@,
            supports_priority: self.supports_priority,
        }
    }
}

/// The efforts from low to the highest but one.
pub open spec fn common_efforts() -> Seq<ReasoningEffort> {
    seq![
        ReasoningEffort::Low,
        ReasoningEffort::Medium,
        ReasoningEffort::High,
        ReasoningEffort::XHigh,
    ]
}

/// A model of the newest family.
pub open spec fn newest(id: Seq<char>, name: Seq<char>, effort: ReasoningEffort) -> ModelFacts {
    ModelFacts {
        id,
        display_name: name,
        max_token_count: 372_000,
        supports_images: true,
        default_reasoning_effort: Some(effort),
        supported_reasoning_efforts: common_efforts().push(ReasoningEffort::Max),
        supports_priority: true,
    }
}

/// A model of an earlier family.
pub open spec fn earlier(id: Seq<char>, name: Seq<char>, priority: bool) -> ModelFacts {
    ModelFacts {
        id,
        display_name: name,
        max_token_count: 272_000,
        supports_images: true,
        default_reasoning_effort: Some(ReasoningEffort::Medium),
        supported_reasoning_efforts: common_efforts(),
        supports_priority: priority,
    }
}

impl View for ChatGptModel {
    type V = ModelFacts;

    open spec fn view(&self) -> ModelFacts {
        match self {
            ChatGptModel::Gpt56Sol => newest(
                "gpt-5.6-sol"@,
                "GPT-5.6 Sol"@,
                ReasoningEffort::Low,
            ),
            ChatGptModel::Gpt56Terra => newest(
                "gpt-5.6-terra"@,
                "GPT-5.6 Terra"@,
                ReasoningEffort::Medium,
            ),
            ChatGptModel::Gpt56Luna => newest(
                "gpt-5.6-luna"@,
                "GPT-5.6 Luna"@,
                ReasoningEffort::Medium,
            ),
            ChatGptModel::Gpt55 => earlier("gpt-5.5"@, "GPT-5.5"@, true),
            ChatGptModel::Gpt54 => earlier("gpt-5.4"@, "GPT-5.4"@, true),
            ChatGptModel::Gpt54Mini => earlier("gpt-5.4-mini"@, "GPT-5.4 Mini"@, false),
            ChatGptModel::Discovered(model) => model@,
        }
    }
}

impl DeepView for ChatGptModel {
    type V = ModelFacts;

    open spec fn deep_view(&self) -> ModelFacts {
        self@
    }
}

fn copied_efforts(source: &Vec<ReasoningEffort>) -> (copy: Vec<ReasoningEffort>)
    ensures
        copy@ == source@,
{
    let mut copy: Vec<ReasoningEffort> = Vec::new();
    let mut i: usize = 0;
    while i < source.len()
        invariant
            i <= source@.len(),
            copy@ == source@.take(i as int),
        decreases source@.len() - i,
    {
        copy.push(source[i]);
        i += 1;
    }
    assert(source@.take(i as int) =~= source@);
    copy
}

impl Clone for DiscoveredChatGptModel {
    fn clone(&self) -> (copy: Self)
        ensures
            copy@ == self@,
    {
        DiscoveredChatGptModel {
            id: self.id.clone(),
            display_name: self.display_name.clone(),
            max_token_count: self.max_token_count,
            supports_images: self.supports_images,
            default_reasoning_effort: self.default_reasoning_effort,
            supported_reasoning_efforts: copied_efforts(&self.supported_reasoning_efforts),
            supports_priority: self.supports_priority,
        }
    }
}

impl Clone for ChatGptModel {
    fn clone(&self) -> (copy: Self)
        ensures
            copy@ == self@,
            copy is Discovered == self is Discovered,
    {
        match self {
            ChatGptModel::Gpt56Sol => ChatGptModel::Gpt56Sol,
            ChatGptModel::Gpt56Terra => ChatGptModel::Gpt56Terra,
            ChatGptModel::Gpt56Luna => ChatGptModel::Gpt56Luna,
            ChatGptModel::Gpt55 => ChatGptModel::Gpt55,
            ChatGptModel::Gpt54 => ChatGptModel::Gpt54,
            ChatGptModel::Gpt54Mini => ChatGptModel::Gpt54Mini,
            ChatGptModel::Discovered(model) => ChatGptModel::Discovered(
                Box::new((&**model).clone()),
            ),
        }
    }
}

/// The models known from the start, in the order in which they are offered.
pub open spec fn known_models() -> Seq<ChatGptModel> {
    seq![
        ChatGptModel::Gpt56Sol,
        ChatGptModel::Gpt56Terra,
        ChatGptModel::Gpt56Luna,
        ChatGptModel::Gpt55,
        ChatGptModel::Gpt54,
        ChatGptModel::Gpt54Mini,
    ]
}

/// What is known of the models known from the start.
pub open spec fn known_facts() -> Seq<ModelFacts> {
    known_models().map_values(|model: ChatGptModel| model@)
}

impl ChatGptModel {
    /// The models known from the start.
    pub fn all() -> (models: Vec<Self>)
        ensures
            models@ == known_models(),
            models.deep_view() == known_facts(),
    {
        let models = vec![
            ChatGptModel::Gpt56Sol,
            ChatGptModel::Gpt56Terra,
            ChatGptModel::Gpt56Luna,
            ChatGptModel::Gpt55,
            ChatGptModel::Gpt54,
            ChatGptModel::Gpt54Mini,
        ];
        assert(models@ =~= known_models());
        assert(models.deep_view() =~= known_facts());
        models
    }

    /// The name by which requests ask for the model.
    pub fn id(&self) -> (id: &str)
        ensures
            id@ == self@.id,
    {
        match self {
            ChatGptModel::Gpt56Sol => "gpt-5.6-sol",
            ChatGptModel::Gpt56Terra => "gpt-5.6-terra",
            ChatGptModel::Gpt56Luna => "gpt-5.6-luna",
            ChatGptModel::Gpt55 => "gpt-5.5",
            ChatGptModel::Gpt54 => "gpt-5.4",
            ChatGptModel::Gpt54Mini => "gpt-5.4-mini",
            ChatGptModel::Discovered(model) => model.id.as_str(),
        }
    }

    /// The name that is shown.
    pub fn display_name(&self) -> (name: &str)
        ensures
            name@ == self@.display_name,
    {
        match self {
            ChatGptModel::Gpt56Sol => "GPT-5.6 Sol",
            ChatGptModel::Gpt56Terra => "GPT-5.6 Terra",
            ChatGptModel::Gpt56Luna => "GPT-5.6 Luna",
            ChatGptModel::Gpt55 => "GPT-5.5",
            ChatGptModel::Gpt54 => "GPT-5.4",
            ChatGptModel::Gpt54Mini => "GPT-5.4 Mini",
            ChatGptModel::Discovered(model) => model.display_name.as_str(),
        }
    }

    /// The size of the context in tokens.
    pub fn max_token_count(&self) -> (count: u64)
        ensures
            count == self@.max_token_count,
    {
        match self {
            ChatGptModel::Gpt56Sol | ChatGptModel::Gpt56Terra | ChatGptModel::Gpt56Luna => 372_000,
            ChatGptModel::Gpt55 | ChatGptModel::Gpt54 | ChatGptModel::Gpt54Mini => 272_000,
            ChatGptModel::Discovered(model) => model.max_token_count,
        }
    }

    /// The largest answer in tokens: none is stated for any model.
    pub fn max_output_tokens(&self) -> (count: Option<u64>)
        ensures
            count is None,
    {
        None
    }

    /// Whether the model takes images.
    pub fn supports_images(&self) -> (r: bool)
        ensures
            r == self@.supports_images,
    {
        match self {
            ChatGptModel::Discovered(model) => model.supports_images,
            _ => true,
        }
    }

    /// The effort where a request asks for none.
    pub fn default_reasoning_effort(&self) -> (r: Option<ReasoningEffort>)
        ensures
            r == self@.default_reasoning_effort,
    {
        match self {
            ChatGptModel::Gpt56Sol => Some(ReasoningEffort::Low),
            ChatGptModel::Gpt56Terra | ChatGptModel::Gpt56Luna | ChatGptModel::Gpt55
            | ChatGptModel::Gpt54 | ChatGptModel::Gpt54Mini => Some(ReasoningEffort::Medium),
            ChatGptModel::Discovered(model) => model.default_reasoning_effort,
        }
    }

    /// The efforts that a request can ask for.
    pub fn supported_reasoning_efforts(&self) -> (r: Vec<ReasoningEffort>)
        ensures
            r@ == self@.supported_reasoning_efforts,
    {
        match self {
            ChatGptModel::Gpt56Sol | ChatGptModel::Gpt56Terra | ChatGptModel::Gpt56Luna => vec![
                ReasoningEffort::Low,
                ReasoningEffort::Medium,
                ReasoningEffort::High,
                ReasoningEffort::XHigh,
                ReasoningEffort::Max,
            ],
            ChatGptModel::Gpt55 | ChatGptModel::Gpt54 | ChatGptModel::Gpt54Mini => vec![
                ReasoningEffort::Low,
                ReasoningEffort::Medium,
                ReasoningEffort::High,
                ReasoningEffort::XHigh,
            ],
            ChatGptModel::Discovered(model) => copied_efforts(&model.supported_reasoning_efforts),
        }
    }

    /// Whether the model can call tools at the same time: every model can.
    pub fn supports_parallel_tool_calls(&self) -> (r: bool)
        ensures
            r,
    {
        true
    }

    /// Whether requests can name a cache for their prompt: for every model they can.
    pub fn supports_prompt_cache_key(&self) -> (r: bool)
        ensures
            r,
    {
        true
    }

    /// Whether requests can ask for faster answers.
    pub fn supports_priority(&self) -> (r: bool)
        ensures
            r == self@.supports_priority,
    {
        match self {
            ChatGptModel::Gpt56Sol | ChatGptModel::Gpt56Terra | ChatGptModel::Gpt56Luna
            | ChatGptModel::Gpt55 | ChatGptModel::Gpt54 => true,
            ChatGptModel::Gpt54Mini => false,
            ChatGptModel::Discovered(model) => model.supports_priority,
        }
    }

    /// The name under which use of the model is counted.
    pub fn telemetry_id(&self) -> (r: String)
        ensures
            r@ == "openai-subscribed/"@ + self@.id,
    {
        text::joined("openai-subscribed/", self.id())
    }
}

/// The first of some models that has an id.
pub open spec fn first_named(models: Seq<ModelFacts>, id: Seq<char>) -> Option<ModelFacts>
    decreases models.len(),
{
    if models.len() == 0 {
        None
    } else if models[0].id == id {
        Some(models[0])
    } else {
        first_named(models.skip(1), id)
    }
}

/// An effort that a user can choose.
#[derive(Debug)]
pub struct EffortLevel {
    pub name: String,
    pub value: String,
    pub is_default: bool,
}

/// What an effort level holds.
#[verifier::ext_equal]
pub struct LevelModel {
    pub name: Seq<char>,
    pub value: Seq<char>,
    pub is_default: bool,
}

impl DeepView for EffortLevel {
    type V = LevelModel;

    open spec fn deep_view(&self) -> LevelModel {
        LevelModel { name: self.name@, value: self.value@, is_default: self.is_default }
    }
}

/// How an effort is shown and named: no effort at all is not offered.
pub open spec fn effort_names(effort: ReasoningEffort) -> Option<(Seq<char>, Seq<char>)> {
    match effort {
        ReasoningEffort::NoEffort => None,
        ReasoningEffort::Minimal => Some(("Minimal"@, "minimal"@)),
        ReasoningEffort::Low => Some(("Low"@, "low"@)),
        ReasoningEffort::Medium => Some(("Medium"@, "medium"@)),
        ReasoningEffort::High => Some(("High"@, "high"@)),
        ReasoningEffort::XHigh => Some(("Extra High"@, "xhigh"@)),
        ReasoningEffort::Max => Some(("Max"@, "max"@)),
    }
}

/// The levels that are offered for some efforts.
pub open spec fn levels(
    efforts: Seq<ReasoningEffort>,
    default: Option<ReasoningEffort>,
) -> Seq<LevelModel>
    decreases efforts.len(),
{
    if efforts.len() == 0 {
        Seq::empty()
    } else {
        let rest = levels(efforts.drop_last(), default);
        match effort_names(efforts.last()) {
            Some((name, value)) => rest.push(
                LevelModel { name, value, is_default: default == Some(efforts.last()) },
            ),
            None => rest,
        }
    }
}

impl ChatGptModel {
    /// The efforts that a user can choose.
    pub fn supported_effort_levels(&self) -> (r: Vec<EffortLevel>)
        ensures
            r.deep_view() == levels(
                self@.supported_reasoning_efforts,
                self@.default_reasoning_effort,
            ),
    {
        let default = self.default_reasoning_effort();
        let efforts = self.supported_reasoning_efforts();
        let mut r: Vec<EffortLevel> = Vec::new();
        let mut i: usize = 0;
        assert(r.deep_view() =~= levels(efforts@.take(0), default));
        while i < efforts.len()
            invariant
                i <= efforts@.len(),
                r.deep_view() == levels(efforts@.take(i as int), default),
            decreases efforts@.len() - i,
        {
            let effort = efforts[i];
            let is_default = match default {
                Some(default) => effort == default,
                None => false,
            };
            let ghost next = efforts@.take(i + 1);
            assert(next.drop_last() =~= efforts@.take(i as int));
            assert(next.last() == effort);
            let names = match effort {
                ReasoningEffort::NoEffort => None,
                ReasoningEffort::Minimal => Some(("Minimal", "minimal")),
                ReasoningEffort::Low => Some(("Low", "low")),
                ReasoningEffort::Medium => Some(("Medium", "medium")),
                ReasoningEffort::High => Some(("High", "high")),
                ReasoningEffort::XHigh => Some(("Extra High", "xhigh")),
                ReasoningEffort::Max => Some(("Max", "max")),
            };
            match names {
                Some((name, value)) => {
                    let ghost before = r.deep_view();
                    let level = EffortLevel {
                        name: name.to_owned(),
                        value: value.to_owned(),
                        is_default,
                    };
                    let ghost model = level.deep_view();
                    r.push(level);
                    assert(r.deep_view() =~= before.push(model));
                },
                None => {},
            }
            i += 1;
        }
        assert(efforts@.take(i as int) =~= efforts@);
        r
    }
}

/// Where a model of the catalog is shown.
#[derive(Clone, Copy, Debug, PartialEq, Eq, Structural)]
pub enum ModelVisibility {
    List,
    Hide,
    Nowhere,
}

/// A model as the catalog describes it.
#[derive(Debug)]
pub struct CatalogModel {
    pub slug: String,
    pub display_name: String,
    pub default_reasoning_level: Option<String>,
    /// The names of the efforts.
    pub supported_reasoning_levels: Vec<String>,
    pub visibility: ModelVisibility,
    pub priority: i32,
    pub additional_speed_tiers: Vec<String>,
    /// The ids of the tiers.
    pub service_tiers: Vec<String>,
    pub context_window: Option<u64>,
    pub max_context_window: Option<u64>,
    pub input_modalities: Option<Vec<String>>,
}

/// The efforts among some names.
pub open spec fn efforts_named(names: Seq<Seq<char>>) -> Seq<ReasoningEffort>
    decreases names.len(),
{
    if names.len() == 0 {
        Seq::empty()
    } else {
        let rest = efforts_named(names.drop_last());
        match named_effort(names.last()) {
            Some(effort) => rest.push(effort),
            None => rest,
        }
    }
}

/// What the catalog says of a model.
pub open spec fn described(model: CatalogModel) -> ModelFacts {
    let default = match model.default_reasoning_level {
        Some(name) => named_effort(name@),
        None => None,
    };
    let efforts = efforts_named(model.supported_reasoning_levels.deep_view());
    ModelFacts {
        id: model.slug@,
        display_name: model.display_name@,
        max_token_count: match model.context_window {
            Some(size) => size,
            None => match model.max_context_window {
                Some(size) => size,
                None => DEFAULT_CONTEXT_WINDOW,
            },
        },
        supports_images: match model.input_modalities {
            Some(modalities) => modalities.deep_view().contains("image"@),
            None => true,
        },
        default_reasoning_effort: default,
        supported_reasoning_efforts: if efforts.len() == 0 && default is Some {
            seq![default->0]
        } else {
            efforts
        },
        supports_priority: model.additional_speed_tiers.deep_view().contains("fast"@)
            || model.service_tiers.deep_view().contains("priority"@),
    }
}

fn efforts_of(names: &Vec<String>) -> (r: Vec<ReasoningEffort>)
    ensures
        r@ == efforts_named(names.deep_view()),
{
    let mut r: Vec<ReasoningEffort> = Vec::new();
    let mut i: usize = 0;
    let ghost all = names.deep_view();
    assert(r@ =~= efforts_named(all.take(0)));
    while i < names.len()
        invariant
            all == names.deep_view(),
            i <= names@.len(),
            r@ == efforts_named(all.take(i as int)),
        decreases names@.len() - i,
    {
        assert(all.take(i + 1).drop_last() =~= all.take(i as int));
        assert(all.take(i + 1).last() == names@[i as int]@);
        match parse_reasoning_effort(&names[i]) {
            Some(effort) => {
                r.push(effort);
            },
            None => {},
        }
        i += 1;
    }
    assert(all.take(i as int) =~= all);
    r
}

impl ChatGptModel {
    /// The model that an entry of the catalog describes.
    pub fn from_catalog(model: CatalogModel) -> (r: ChatGptModel)
        ensures
            r is Discovered,
            r@ == described(model),
    {
        let default_reasoning_effort = match &model.default_reasoning_level {
            Some(name) => parse_reasoning_effort(name),
            None => None,
        };
        let mut supported_reasoning_efforts = efforts_of(&model.supported_reasoning_levels);
        if supported_reasoning_efforts.len() == 0 {
            match default_reasoning_effort {
                Some(effort) => {
                    supported_reasoning_efforts.push(effort);
                },
                None => {},
            }
        }
        let supports_priority = text::listed(&model.additional_speed_tiers, "fast")
            || text::listed(&model.service_tiers, "priority");
        let supports_images = match &model.input_modalities {
            Some(modalities) => text::listed(modalities, "image"),
            None => true,
        };
        let max_token_count = match model.context_window {
            Some(size) => size,
            None => match model.max_context_window {
                Some(size) => size,
                None => DEFAULT_CONTEXT_WINDOW,
            },
        };
        let found = DiscoveredChatGptModel {
            id: model.slug,
            display_name: model.display_name,
            max_token_count,
            supports_images,
            default_reasoning_effort,
            supported_reasoning_efforts,
            supports_priority,
        };
        assert(found@ =~= described(model));
        ChatGptModel::Discovered(Box::new(found))
    }
}

/// `models` with one more, before all whose priority is not smaller.
pub open spec fn placed(models: Seq<CatalogModel>, model: CatalogModel) -> Seq<CatalogModel>
    decreases models.len(),
{
    if models.len() == 0 || model.priority <= models[0].priority {
        seq![model] + models
    } else {
        seq![models[0]] + placed(models.skip(1), model)
    }
}

/// The models that are to be listed, by priority, those of one priority in the order of the
/// catalog.
pub open spec fn picked(models: Seq<CatalogModel>) -> Seq<CatalogModel>
    decreases models.len(),
{
    if models.len() == 0 {
        Seq::empty()
    } else {
        let rest = picked(models.skip(1));
        if models[0].visibility == ModelVisibility::List {
            placed(rest, models[0])
        } else {
            rest
        }
    }
}

proof fn lemma_placed_at(models: Seq<CatalogModel>, model: CatalogModel, at: int)
    requires
        0 <= at <= models.len(),
        forall|i: int| 0 <= i < at ==> (#[trigger] models[i]).priority < model.priority,
        at < models.len() ==> model.priority <= models[at].priority,
    ensures
        placed(models, model) == models.insert(at, model),
    decreases at,
{
    if at == 0 {
        assert(models.insert(0, model) =~= seq![model] + models);
    } else {
        assert(models[0].priority < model.priority);
        let rest = models.skip(1);
        assert forall|i: int| 0 <= i < at - 1 implies (#[trigger] rest[i]).priority
            < model.priority by {
            assert(rest[i] == models[i + 1]);
        }
        lemma_placed_at(rest, model, at - 1);
        assert(models.insert(at, model) =~= seq![models[0]] + rest.insert(at - 1, model));
    }
}

/// The models that are to be listed, in the order in which they are offered.
pub fn picker_models(models: Vec<CatalogModel>) -> (r: Vec<CatalogModel>)
    ensures
        r@ == picked(models@),
{
    let ghost all = models@;
    let mut left = models;
    let mut r: Vec<CatalogModel> = Vec::new();
    assert(all.skip(left@.len() as int) =~= Seq::empty());
    assert(all.take(left@.len() as int) =~= left@);
    while left.len() > 0
        invariant
            left@.len() <= all.len(),
            left@ == all.take(left@.len() as int),
            r@ == picked(all.skip(left@.len() as int)),
        decreases left@.len(),
    {
        let ghost count = left@.len() as int;
        match left.pop() {
            Some(model) => {
                assert(left@ =~= all.take(count - 1));
                assert(all.skip(count - 1)[0] == model);
                assert(all.skip(count - 1).skip(1) =~= all.skip(count));
                if model.visibility == ModelVisibility::List {
                    let mut at: usize = 0;
                    while at < r.len() && r[at].priority < model.priority
                        invariant
                            at <= r@.len(),
                            forall|i: int|
                                0 <= i < at ==> (#[trigger] r@[i]).priority < model.priority,
                        decreases r@.len() - at,
                    {
                        at += 1;
                    }
                    proof {
                        lemma_placed_at(r@, model, at as int);
                    }
                    r.insert(at, model);
                }
            },
            None => {},
        }
    }
    assert(all.skip(0) =~= all);
    r
}

/// The models are offered by priority.
pub proof fn picked_by_priority(models: Seq<CatalogModel>)
    ensures
        forall|i: int, j: int|
            0 <= i < j < picked(models).len() ==> (#[trigger] picked(models)[i]).priority
                <= (#[trigger] picked(models)[j]).priority,
    decreases models.len(),
{
    if models.len() > 0 {
        picked_by_priority(models.skip(1));
        lemma_placed_keeps_order(picked(models.skip(1)), models[0]);
    }
}

proof fn lemma_placed_keeps_order(models: Seq<CatalogModel>, model: CatalogModel)
    requires
        forall|i: int, j: int|
            0 <= i < j < models.len() ==> (#[trigger] models[i]).priority <= (
            #[trigger] models[j]).priority,
    ensures
        forall|i: int, j: int|
            0 <= i < j < placed(models, model).len() ==> (#[trigger] placed(
                models,
                model,
            )[i]).priority <= (#[trigger] placed(models, model)[j]).priority,
{
    let at = lemma_place_exists(models, model, 0);
    lemma_placed_at(models, model, at);
    let after = models.insert(at, model);
    assert forall|i: int, j: int| 0 <= i < j < after.len() implies (#[trigger] after[i]).priority
        <= (#[trigger] after[j]).priority by {
        if at < models.len() && j > at {
            assert(models[at].priority <= models[j - 1].priority);
        }
    }
}

proof fn lemma_place_exists(models: Seq<CatalogModel>, model: CatalogModel, from: int) -> (at: int)
    requires
        0 <= from <= models.len(),
        forall|i: int| 0 <= i < from ==> (#[trigger] models[i]).priority < model.priority,
    ensures
        0 <= at <= models.len(),
        forall|i: int| 0 <= i < at ==> (#[trigger] models[i]).priority < model.priority,
        at < models.len() ==> model.priority <= models[at].priority,
    decreases models.len() - from,
{
    if from == models.len() || model.priority <= models[from].priority {
        from
    } else {
        lemma_place_exists(models, model, from + 1)
    }
}

/// A model is to be listed and has a priority.
pub open spec fn has_priority(priority: i32) -> spec_fn(CatalogModel) -> bool {
    |model: CatalogModel|
        model.visibility == ModelVisibility::List && model.priority == priority
}

/// Those of the models that are to be listed and have a priority.
pub open spec fn of_priority(models: Seq<CatalogModel>, priority: i32) -> Seq<CatalogModel> {
    models.filter(has_priority(priority))
}

/// Every model that is to be listed is offered once, and no other; models of one priority stand in
/// the order of the catalog.
pub proof fn picked_keeps_catalog_order(models: Seq<CatalogModel>, priority: i32)
    ensures
        of_priority(picked(models), priority) == of_priority(models, priority),
        forall|i: int|
            0 <= i < picked(models).len() ==> (#[trigger] picked(models)[i]).visibility
                == ModelVisibility::List,
    decreases models.len(),
{
    if models.len() == 0 {
        assert(picked(models) =~= models);
    } else {
        let first = models[0];
        let rest = picked(models.skip(1));
        picked_keeps_catalog_order(models.skip(1), priority);
        assert(models =~= seq![first] + models.skip(1));
        Seq::filter_distributes_over_add(seq![first], models.skip(1), has_priority(priority));
        lemma_filter_one(first, has_priority(priority));
        if first.visibility == ModelVisibility::List {
            let at = lemma_place_exists(rest, first, 0);
            lemma_placed_at(rest, first, at);
            lemma_filter_placed(rest, first, at, priority);
            assert(picked(models) == rest.insert(at, first));
            assert forall|i: int| 0 <= i < picked(models).len() implies (#[trigger] picked(
                models,
            )[i]).visibility == ModelVisibility::List by {
                if i < at {
                    assert(picked(models)[i] == rest[i]);
                } else if i > at {
                    assert(picked(models)[i] == rest[i - 1]);
                }
            }
        } else {
            assert(Seq::<CatalogModel>::empty() + of_priority(models.skip(1), priority)
                =~= of_priority(models.skip(1), priority));
        }
    }
}

proof fn lemma_filter_placed(
    models: Seq<CatalogModel>,
    model: CatalogModel,
    at: int,
    priority: i32,
)
    requires
        0 <= at <= models.len(),
        forall|i: int| 0 <= i < at ==> (#[trigger] models[i]).priority < model.priority,
    ensures
        of_priority(models.insert(at, model), priority) == seq![model].filter(
            has_priority(priority),
        ) + of_priority(models, priority),
{
    let kept = has_priority(priority);
    let before = models.take(at);
    let after = models.skip(at);
    assert(models =~= before + after);
    assert(models.insert(at, model) =~= before + (seq![model] + after));
    Seq::filter_distributes_over_add(before, after, kept);
    Seq::filter_distributes_over_add(before, seq![model] + after, kept);
    Seq::filter_distributes_over_add(seq![model], after, kept);
    lemma_filter_one(model, kept);
    if kept(model) {
        assert forall|i: int| 0 <= i < before.len() implies !kept(#[trigger] before[i]) by {
            assert(before[i] == models[i]);
        }
        lemma_filter_nothing(before, kept);
        assert(Seq::<CatalogModel>::empty() + (seq![model] + after.filter(kept)) =~= seq![model] + (
        Seq::<CatalogModel>::empty() + after.filter(kept)));
    } else {
        assert(before.filter(kept) + (Seq::<CatalogModel>::empty() + after.filter(kept))
            =~= Seq::<CatalogModel>::empty() + (before.filter(kept) + after.filter(kept)));
    }
}

proof fn lemma_filter_one(model: CatalogModel, kept: spec_fn(CatalogModel) -> bool)
    ensures
        seq![model].filter(kept) == (if kept(model) {
            seq![model]
        } else {
            Seq::empty()
        }),
{
    reveal(Seq::filter);
    let one = seq![model];
    assert(one.drop_last() =~= Seq::empty());
    assert(one.drop_last().filter(kept) =~= Seq::empty());
    assert(one.last() == model);
    assert(Seq::<CatalogModel>::empty().push(model) =~= one);
}

proof fn lemma_filter_nothing(models: Seq<CatalogModel>, kept: spec_fn(CatalogModel) -> bool)
    requires
        forall|i: int| 0 <= i < models.len() ==> !kept(#[trigger] models[i]),
    ensures
        models.filter(kept) == Seq::<CatalogModel>::empty(),
    decreases models.len(),
{
    reveal(Seq::filter);
    if models.len() > 0 {
        assert forall|i: int| 0 <= i < models.drop_last().len() implies !kept(
            #[trigger] models.drop_last()[i],
        ) by {
            assert(models.drop_last()[i] == models[i]);
        }
        lemma_filter_nothing(models.drop_last(), kept);
        assert(!kept(models[models.len() - 1]));
    }
}

/// What is known of some models of the catalog.
pub open spec fn described_all(models: Seq<CatalogModel>) -> Seq<ModelFacts> {
    models.map_values(|model: CatalogModel| described(model))
}

/// The models that come of a request for the catalog, or why there are none.
pub open spec fn catalog_result(
    status: u16,
    body: Seq<char>,
    catalog: Result<Vec<CatalogModel>, String>,
    r: Result<Vec<ChatGptModel>, String>,
) -> bool {
    if !oauth::is_success(status) {
        r matches Err(message) && message@ == oauth::failure_message(
            "ChatGPT models request failed"@,
            status,
            body,
        )
    } else {
        match catalog {
            Err(unreadable) => r matches Err(message) && message@
                == "failed to parse ChatGPT models response: "@ + unreadable@,
            Ok(models) => if picked(models@).len() == 0 {
                r matches Err(message) && message@
                    == "ChatGPT models response did not contain any picker-visible models"@
            } else {
                r matches Ok(offered) && offered.deep_view() == described_all(picked(models@))
            },
        }
    }
}

/// Judges the answer to a request for the catalog, given the catalog that its body was read as.
pub fn catalog_outcome(
    status: u16,
    body: &str,
    catalog: Result<Vec<CatalogModel>, String>,
) -> (r: Result<Vec<ChatGptModel>, String>)
    requires
        100 <= status <= 999,
    ensures
        catalog_result(status, body@, catalog, r),
{
    if !oauth::succeeded(status) {
        return Err(oauth::failure_message_of("ChatGPT models request failed", status, body));
    }
    let models = match catalog {
        Ok(models) => models,
        Err(unreadable) => return Err(
            text::joined("failed to parse ChatGPT models response: ", &unreadable),
        ),
    };
    let mut left = picker_models(models);
    let ghost chosen = left@;
    if left.len() == 0 {
        return Err(
            "ChatGPT models response did not contain any picker-visible models".to_owned(),
        );
    }
    let mut offered: Vec<ChatGptModel> = Vec::new();
    while left.len() > 0
        invariant
            left@.len() <= chosen.len(),
            left@ == chosen.skip(offered@.len() as int),
            offered@.len() + left@.len() == chosen.len(),
            offered.deep_view() == described_all(chosen.take(offered@.len() as int)),
        decreases left@.len(),
    {
        let ghost done = offered@.len() as int;
        let ghost before = offered.deep_view();
        let model = left.remove(0);
        assert(model == chosen[done]);
        offered.push(ChatGptModel::from_catalog(model));
        assert(offered.deep_view() =~= before.push(described(model)));
        assert(offered.deep_view() =~= described_all(chosen.take(done + 1)));
        assert(left@ =~= chosen.skip(done + 1));
    }
    assert(chosen.take(offered@.len() as int) =~= chosen);
    Ok(offered)
}

/// What a request for the catalog comes to: what came of it in time, else an error.
pub fn catalog_in_time(reply: Option<Result<Vec<ChatGptModel>, String>>) -> (r: Result<
    Vec<ChatGptModel>,
    String,
>)
    ensures
        match reply {
            Some(outcome) => r == outcome,
            None => r matches Err(message) && message@ == "ChatGPT models request timed out after "@
                + text::decimal(CATALOG_TIMEOUT_SECONDS as nat) + "s"@,
        },
{
    match reply {
        Some(outcome) => outcome,
        None => Err(
            text::joined3(
                "ChatGPT models request timed out after ",
                &text::decimal_of(CATALOG_TIMEOUT_SECONDS),
                "s",
            ),
        ),
    }
}

} // verus!
