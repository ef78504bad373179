//! The provider of models, and a model that requests are sent to.
use crate::accounts::AccountSwitchPolicy;
use crate::models;
use crate::models::ChatGptModel;
use crate::state;
use crate::state::{AccountEntry, EntryModel, State, StateModel};
use crate::text;
use crate::time;
use std::time::SystemTime;
use vstd::prelude::*;
use vstd::string::*;

verus! {

pub const SUBSCRIPTION_DESCRIPTION: &'static str =
    "Sign in with your ChatGPT Plus or Pro subscription to use OpenAI models in Zed's agent.";

pub const SETTINGS_TITLE: &'static str = "Configure ChatGPT";

pub const AUTHENTICATION_ERROR_MESSAGE: &'static str =
    "Your ChatGPT subscription session is invalid or has expired. Sign in again via Settings > AI > LLM Providers to continue.";

pub const MISSING_CREDENTIALS_ERROR_MESSAGE: &'static str =
    "You are not signed in to your ChatGPT account. Sign in via Settings > AI > LLM Providers to continue.";

pub const FAST_MODE_TITLE: &'static str = "Enable Fast Mode for OpenAI?";

pub const FAST_MODE_MESSAGE: &'static str =
    "Fast mode sends requests using OpenAI's Priority processing tier, which targets significantly lower latency than the standard tier and is billed at a premium per-token rate.";

/// How many requests are sent at the same time at most.
pub const REQUEST_LIMIT: usize = 4;

/// A model that requests are sent to, perhaps for one account only.
#[derive(Debug)]
pub struct OpenAiSubscribedLanguageModel {
    pub account_id: Option<String>,
    pub model: ChatGptModel,
}

/// A model for whichever account is selected.
pub fn create_language_model(model: ChatGptModel) -> (r: OpenAiSubscribedLanguageModel)
    ensures
        r.account_id is None,
        r.model == model,
{
    OpenAiSubscribedLanguageModel { account_id: None, model }
}

/// What is shown of the accounts by a model for one of them: that one is selected.
pub open spec fn bound_entries(
    entries: Seq<EntryModel>,
    account_id: Option<Seq<char>>,
) -> Seq<EntryModel> {
    match account_id {
        Some(id) => entries.map_values(
            |entry: EntryModel| EntryModel { selected: entry.id == id, ..entry },
        ),
        None => entries,
    }
}

impl OpenAiSubscribedLanguageModel {
    /// The same model for one account.
    pub fn with_account(&self, id: String) -> (r: Self)
        ensures
            r.account_id.deep_view() == Some(id@),
            r.model@ == self.model@,
    {
        OpenAiSubscribedLanguageModel { account_id: Some(id), model: self.model.clone() }
    }

    /// The account that the model is for.
    pub fn account_id(&self) -> (r: Option<&str>)
        ensures
            r.deep_view() == self.account_id.deep_view(),
    {
        match &self.account_id {
            Some(id) => Some(id.as_str()),
            None => None,
        }
    }

    /// Whether requests can offer tools: they always can.
    pub fn supports_tools(&self) -> (r: bool)
        ensures
            r,
    {
        true
    }

    /// Whether requests can prescribe the use of tools: they always can.
    pub fn supports_tool_choice(&self) -> (r: bool)
        ensures
            r,
    {
        true
    }

    /// Whether calls of tools come in pieces: they always do.
    pub fn supports_streaming_tools(&self) -> (r: bool)
        ensures
            r,
    {
        true
    }

    /// Whether the model thinks before it answers: it always can.
    pub fn supports_thinking(&self) -> (r: bool)
        ensures
            r,
    {
        true
    }

    /// Whether requests can ask for faster answers.
    pub fn supports_fast_mode(&self) -> (r: bool)
        ensures
            r == self.model@.supports_priority,
    {
        self.model.supports_priority()
    }

    /// Whether the service makes contexts shorter by itself: it always does.
    pub fn supports_server_side_compaction(&self) -> (r: bool)
        ensures
            r,
    {
        true
    }

    /// Whether a request can ask for a shorter context: it always can.
    pub fn supports_explicit_compaction(&self) -> (r: bool)
        ensures
            r,
    {
        true
    }

    /// The account whose usage is shown: the one the model is for, else the selected one.
    pub fn usage_account<T>(&self, state: &State<T>) -> (id: String)
        ensures
            id@ == (match self.account_id {
                Some(id) => id@,
                None => state@.accounts.selected,
            }),
    {
        match &self.account_id {
            Some(id) => id.clone(),
            None => state.accounts.selected.clone(),
        }
    }

    /// What is shown of the accounts at a time.
    pub fn accounts_at<T>(&self, state: &State<T>, now: u64) -> (r: Vec<AccountEntry>)
        ensures
            r.deep_view() == bound_entries(
                state::entries(state@.accounts, now),
                self.account_id.deep_view(),
            ),
    {
        let mut left = state.accounts_at(now);
        let ghost all = left.deep_view();
        let bound = match &self.account_id {
            Some(bound) => bound,
            None => return left,
        };
        let ghost wanted = bound_entries(all, Some(bound@));
        let mut r: Vec<AccountEntry> = Vec::new();
        let ghost mut done: int = 0;
        assert(r.deep_view() =~= wanted.take(0));
        assert(all.skip(0) =~= all);
        while left.len() > 0
            invariant
                wanted == bound_entries(all, Some(bound@)),
                0 <= done <= all.len(),
                left.deep_view() == all.skip(done),
                r.deep_view() == wanted.take(done),
            decreases left@.len(),
        {
            let ghost rest = left.deep_view();
            let mut entry = left.remove(0);
            assert(entry.deep_view() == rest[0]);
            assert(left.deep_view() =~= rest.skip(1));
            entry.selected = text::same(&entry.id, bound);
            let ghost before = r.deep_view();
            let ghost model = entry.deep_view();
            r.push(entry);
            assert(r.deep_view() =~= before.push(model));
            assert(model =~= wanted[done]);
            assert(r.deep_view() =~= wanted.take(done + 1));
            assert(left.deep_view() =~= all.skip(done + 1));
            proof {
                done = done + 1;
            }
        }
        assert(wanted.take(done) =~= wanted);
        r
    }

    /// What is shown of the accounts by the wall clock.
    pub fn accounts<T>(&self, state: &State<T>) -> (r: Vec<AccountEntry>)
        ensures
            exists|reading: SystemTime|
                r.deep_view() == bound_entries(
                    state::entries(state@.accounts, #[trigger] time::read_ms(reading)),
                    self.account_id.deep_view(),
                ),
    {
        let now = time::now_ms();
        self.accounts_at(state, now)
    }
}

/// What signing in by the saved accounts comes to.
pub enum Authentication<'a, T> {
    /// An account is signed in.
    Done,
    /// The saved accounts are still loaded.
    AwaitLoad(&'a T),
    /// Nobody is signed in.
    CredentialsNotFound,
}

/// The provider of models.
pub struct OpenAiSubscribedProvider<T> {
    pub state: State<T>,
}

impl<T> OpenAiSubscribedProvider<T> {
    /// The provider at the start, with the task that loads the saved accounts and the policy of
    /// the settings.
    pub fn new(load_task: T, policy: Option<AccountSwitchPolicy>) -> (r: Self)
        ensures
            r.state@ == (StateModel {
                configured_policy: policy,
                ..StateModel::initial(load_task)
            }),
    {
        let mut state = State::new(load_task);
        state.configure_switch_policy(policy);
        OpenAiSubscribedProvider { state }
    }

    /// The model to start with.
    pub fn default_model(&self) -> (r: Option<OpenAiSubscribedLanguageModel>)
        ensures
            match r {
                Some(model) => self.state@.available_models.len() > 0 && model.model@
                    == self.state@.available_models[0] && model.account_id is None,
                None => self.state@.available_models.len() == 0,
            },
    {
        match self.state.default_model() {
            Some(model) => Some(create_language_model(model)),
            None => None,
        }
    }

    /// The model for quick tasks.
    pub fn default_fast_model(&self) -> (r: Option<OpenAiSubscribedLanguageModel>)
        ensures
            match r {
                Some(model) => models::first_named(
                    self.state@.available_models,
                    models::FAST_MODEL_ID@,
                ) == Some(model.model@) && model.account_id is None,
                None => models::first_named(
                    self.state@.available_models,
                    models::FAST_MODEL_ID@,
                ) is None,
            },
    {
        match self.state.default_fast_model() {
            Some(model) => Some(create_language_model(model)),
            None => None,
        }
    }

    /// The models that are offered.
    pub fn provided_models(&self) -> (r: Vec<OpenAiSubscribedLanguageModel>)
        ensures
            r@.len() == self.state@.available_models.len(),
            forall|i: int|
                0 <= i < r@.len() ==> (#[trigger] r@[i]).model@ == self.state@.available_models[i]
                    && r@[i].account_id is None,
    {
        let offered = self.state.available_models();
        let ghost facts = offered.deep_view();
        let mut r: Vec<OpenAiSubscribedLanguageModel> = Vec::new();
        let mut i: usize = 0;
        while i < offered.len()
            invariant
                facts == offered.deep_view(),
                i <= offered@.len(),
                r@.len() == i,
                forall|k: int|
                    0 <= k < i ==> (#[trigger] r@[k]).model@ == facts[k] && r@[k].account_id
                        is None,
            decreases offered@.len() - i,
        {
            assert(facts[i as int] == offered@[i as int]@);
            r.push(create_language_model(offered[i].clone()));
            i += 1;
        }
        r
    }

    /// The models that are recommended: the one to start with.
    pub fn recommended_models(&self) -> (r: Vec<OpenAiSubscribedLanguageModel>)
        ensures
            r@.len() == (if self.state@.available_models.len() > 0 {
                1nat
            } else {
                0nat
            }),
            r@.len() > 0 ==> r@[0].model@ == self.state@.available_models[0] && r@[0].account_id
                is None,
    {
        let mut r: Vec<OpenAiSubscribedLanguageModel> = Vec::new();
        match self.default_model() {
            Some(model) => {
                r.push(model);
            },
            None => {},
        }
        r
    }

    /// Whether any account is signed in.
    pub fn is_authenticated(&self) -> (r: bool)
        ensures
            r == self.state@.accounts.authenticated(),
    {
        self.state.is_authenticated()
    }

    /// Signs in by the saved accounts, which may still have to be loaded.
    pub fn authenticate(&self) -> (r: Authentication<'_, T>)
        ensures
            match r {
                Authentication::Done => self.state@.accounts.authenticated(),
                Authentication::AwaitLoad(task) => !self.state@.accounts.authenticated()
                    && self.state@.load_task == Some(*task),
                Authentication::CredentialsNotFound => !self.state@.accounts.authenticated()
                    && self.state@.load_task is None,
            },
    {
        if self.is_authenticated() {
            return Authentication::Done;
        }
        match self.state.load_task() {
            Some(task) => Authentication::AwaitLoad(task),
            None => Authentication::CredentialsNotFound,
        }
    }

    /// The title of the settings: there is one while nobody is signed in.
    pub fn settings_title(&self) -> (r: Option<&'static str>)
        ensures
            r.deep_view() == (if self.state@.accounts.authenticated() {
                None
            } else {
                Some(SETTINGS_TITLE@)
            }),
    {
        if self.is_authenticated() {
            None
        } else {
            Some(SETTINGS_TITLE)
        }
    }

    /// The description of the settings: there is one while nobody is signed in.
    pub fn settings_description(&self) -> (r: Option<&'static str>)
        ensures
            r.deep_view() == (if self.state@.accounts.authenticated() {
                None
            } else {
                Some(SUBSCRIPTION_DESCRIPTION@)
            }),
    {
        if self.is_authenticated() {
            None
        } else {
            Some(SUBSCRIPTION_DESCRIPTION)
        }
    }
}

/// A model for one account shows that account as selected, and none other; what is selected for
/// other models stays as it is.
pub proof fn binding_selects_one_account(
    entries: Seq<EntryModel>,
    id: Seq<char>,
    i: int,
)
    requires
        0 <= i < entries.len(),
    ensures
        bound_entries(entries, Some(id)).len() == entries.len(),
        bound_entries(entries, Some(id))[i].selected == (entries[i].id == id),
        bound_entries(entries, Some(id))[i].id == entries[i].id,
        bound_entries(entries, Some(id))[i].status == entries[i].status,
        bound_entries(entries, None)[i] == entries[i],
{
}

} // verus!
