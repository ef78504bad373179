//! Everything that is known of the subscription at a moment, and how it changes.
//!
//! Running tasks are values of a type `T` of the host's own. A change that the host has to follow
//! up with work is reported as [`Effects`].
use crate::accounts;
use crate::accounts::{Account, AccountModel, AccountSwitchPolicy, Accounts, AccountsModel};
use crate::credentials::{CodexCredentials, CredentialsModel};
use crate::id_map;
use crate::id_map::IdMap;
use crate::models;
use crate::models::{ChatGptModel, ModelFacts};
use crate::requests;
use crate::text;
use crate::time;
use std::time::SystemTime;
use vstd::prelude::*;
use vstd::string::*;

verus! {

pub const LOAD_ERROR: &'static str = "Failed to load saved ChatGPT accounts.";

pub const SAVE_ERROR: &'static str = "Failed to save ChatGPT accounts. Please try again.";

pub const PERSIST_ERROR: &'static str = "Failed to save credentials. Please try again.";

pub const SIGN_IN_ERROR: &'static str = "Sign-in failed. Please try again.";

pub const SESSION_ERROR: &'static str = "Your session has expired. Please sign in again.";

/// How far a sign-in has come, and the task that runs it.
pub enum SignInState<T> {
    Idle,
    /// The user is asked in the browser.
    Authorizing(T),
    /// The user agreed, and the account is saved.
    PersistingCredentials(T),
}

/// A request for the usage of an account, and when it was started by a clock that only goes
/// forward, in nanoseconds.
pub struct UsageRequest<T> {
    pub started_at: u64,
    pub task: T,
}

/// What has to be done after a change.
#[derive(Clone, Copy, Debug, PartialEq, Eq, Structural)]
pub struct Effects {
    /// Observers have to be told.
    pub notify: bool,
    /// The accounts have to be saved.
    pub persist: bool,
    /// The catalog of models has to be asked for.
    pub refresh_catalog: bool,
}

/// Nothing has to be done.
pub open spec fn no_effects() -> Effects {
    Effects { notify: false, persist: false, refresh_catalog: false }
}

/// Observers have to be told, and no more.
pub open spec fn only_notify() -> Effects {
    Effects { notify: true, persist: false, refresh_catalog: false }
}

/// Everything that is known of the subscription.
pub struct State<T> {
    pub accounts: Accounts,
    pub usage_requests: IdMap<UsageRequest<T>>,
    pub configured_policy: Option<AccountSwitchPolicy>,
    pub persistence_task: Option<T>,
    pub sign_in_state: SignInState<T>,
    pub refresh_tasks: IdMap<T>,
    pub load_task: Option<T>,
    pub client_version: String,
    pub available_models: Vec<ChatGptModel>,
    pub auth_generation: u64,
    pub model_catalog_generation: u64,
    pub last_auth_error: Option<String>,
    pub last_model_catalog_error: Option<String>,
}

/// What the state holds.
#[verifier::ext_equal]
pub struct StateModel<T> {
    pub accounts: AccountsModel,
    pub usage_requests: Map<Seq<char>, UsageRequest<T>>,
    pub configured_policy: Option<AccountSwitchPolicy>,
    pub persistence_task: Option<T>,
    pub sign_in_state: SignInState<T>,
    pub refresh_tasks: Map<Seq<char>, T>,
    pub load_task: Option<T>,
    pub client_version: Seq<char>,
    pub available_models: Seq<ModelFacts>,
    pub auth_generation: u64,
    pub model_catalog_generation: u64,
    pub last_auth_error: Option<Seq<char>>,
    pub last_model_catalog_error: Option<Seq<char>>,
}

impl<T> View for State<T> {
    type V = StateModel<T>;

    open spec fn view(&self) -> StateModel<T> {
        StateModel {
            accounts: self.accounts@,
            usage_requests: self.usage_requests@,
            configured_policy: self.configured_policy,
            persistence_task: self.persistence_task,
            sign_in_state: self.sign_in_state,
            refresh_tasks: self.refresh_tasks@,
            load_task: self.load_task,
            client_version: self.client_version@,
            available_models: self.available_models.deep_view(),
            auth_generation: self.auth_generation,
            model_catalog_generation: self.model_catalog_generation,
            last_auth_error: self.last_auth_error.deep_view(),
            last_model_catalog_error: self.last_model_catalog_error.deep_view(),
        }
    }
}

/// The number after `n`, where the first follows the last.
pub open spec fn successor(n: u64) -> u64 {
    if n == u64::MAX {
        0
    } else {
        (n + 1) as u64
    }
}

pub(crate) fn next_generation(n: u64) -> (r: u64)
    ensures
        r == successor(n),
{
    if n == u64::MAX {
        0
    } else {
        n + 1
    }
}

impl<T> StateModel<T> {
    /// The state at the start, while the saved accounts are loaded.
    pub open spec fn initial(load_task: T) -> StateModel<T> {
        StateModel {
            accounts: AccountsModel::none(),
            usage_requests: Map::empty(),
            configured_policy: None,
            persistence_task: None,
            sign_in_state: SignInState::Idle,
            refresh_tasks: Map::empty(),
            load_task: Some(load_task),
            client_version: requests::UNGATED_MODEL_CATALOG_CLIENT_VERSION@,
            available_models: models::known_facts(),
            auth_generation: 0,
            model_catalog_generation: 0,
            last_auth_error: None,
            last_model_catalog_error: None,
        }
    }

    /// The policy in force.
    pub open spec fn policy(self) -> AccountSwitchPolicy {
        match self.configured_policy {
            Some(policy) => policy,
            None => AccountSwitchPolicy::OnError,
        }
    }

    /// The models known from the start are offered again, and requests for the catalog that are
    /// under way count no more.
    pub open spec fn catalog_reset(self) -> StateModel<T> {
        StateModel {
            model_catalog_generation: successor(self.model_catalog_generation),
            available_models: models::known_facts(),
            last_model_catalog_error: None,
            ..self
        }
    }

    /// The saved accounts are there, or could not be loaded; both count only if nobody signed in
    /// or out meanwhile.
    pub open spec fn after_load(self, loaded: Option<AccountsModel>) -> StateModel<T> {
        if self.auth_generation != 0 {
            self
        } else {
            match loaded {
                Some(accounts) => StateModel { auth_generation: 1, accounts, ..self },
                None => StateModel { last_auth_error: Some(LOAD_ERROR@), ..self },
            }
        }
    }

    /// An account is selected; one that is not there cannot be.
    pub open spec fn after_select(self, id: Seq<char>) -> StateModel<T> {
        if self.accounts.accounts.contains_key(id) {
            StateModel {
                accounts: AccountsModel { selected: id, ..self.accounts },
                ..self
            }.catalog_reset()
        } else {
            self
        }
    }

    /// The quota of the account can be changed by the user.
    pub open spec fn resettable(self, id: Seq<char>) -> bool {
        self.accounts.accounts.contains_key(id) && !self.accounts.accounts[id].needs_reauth
    }

    /// The user says that there is quota again.
    pub open spec fn after_reset(self, id: Seq<char>) -> StateModel<T> {
        if self.resettable(id) {
            StateModel {
                accounts: self.accounts.with(id, with_quota(self.accounts.accounts[id])),
                ..self
            }
        } else {
            self
        }
    }

    /// The accounts without one of them; where that one was selected, the first of the others is.
    pub open spec fn after_removal(self, id: Seq<char>) -> StateModel<T> {
        let left = self.accounts.accounts.remove(id);
        let order = id_map::key_order(left.dom());
        let forgotten = StateModel {
            usage_requests: self.usage_requests.remove(id),
            refresh_tasks: self.refresh_tasks.remove(id),
            auth_generation: successor(self.auth_generation),
            accounts: AccountsModel {
                accounts: left,
                selected: if self.accounts.selected != id {
                    self.accounts.selected
                } else if order.len() > 0 {
                    order[0]
                } else {
                    Seq::empty()
                },
            },
            ..self
        };
        if self.accounts.selected == id {
            forgotten.catalog_reset()
        } else {
            forgotten
        }
    }

    /// All accounts are gone, and all work that was under way for them.
    pub open spec fn after_sign_out(self) -> StateModel<T> {
        StateModel {
            auth_generation: (self.auth_generation + 1) as u64,
            usage_requests: Map::empty(),
            accounts: AccountsModel::none(),
            sign_in_state: SignInState::Idle,
            refresh_tasks: Map::empty(),
            last_auth_error: None,
            ..self
        }.catalog_reset()
    }

    /// A request for the catalog is started.
    pub open spec fn catalog_requested(self) -> StateModel<T> {
        StateModel {
            model_catalog_generation: successor(self.model_catalog_generation),
            ..self
        }
    }

    /// A request for the catalog that was the last one at its start is answered; the answer counts
    /// only if it still is.
    pub open spec fn after_catalog(
        self,
        generation: u64,
        result: Result<Seq<ModelFacts>, Seq<char>>,
    ) -> StateModel<T> {
        if self.model_catalog_generation != generation {
            self
        } else {
            match result {
                Ok(offered) => StateModel {
                    available_models: offered,
                    last_model_catalog_error: None,
                    ..self
                },
                Err(message) => StateModel {
                    last_model_catalog_error: Some("Failed to load models: "@ + message),
                    ..self
                },
            }
        }
    }

    /// The user agreed to the sign-in.
    pub open spec fn persisting(self) -> StateModel<T> {
        match self.sign_in_state {
            SignInState::Authorizing(task) => StateModel {
                sign_in_state: SignInState::PersistingCredentials(task),
                ..self
            },
            _ => self,
        }
    }

    /// A sign-in that waits for the user is cancelled.
    pub open spec fn cancelled(self) -> StateModel<T> {
        if self.sign_in_state is Authorizing {
            StateModel { sign_in_state: SignInState::Idle, ..self }
        } else {
            self
        }
    }

    /// The account that signed in is there, and nothing under way for the same account before.
    pub open spec fn accepted(self, credentials: CredentialsModel, now: u64) -> StateModel<T> {
        StateModel {
            auth_generation: successor(self.auth_generation),
            refresh_tasks: self.refresh_tasks.remove(credentials.id()),
            usage_requests: self.usage_requests.remove(credentials.id()),
            accounts: self.accounts.inserted(credentials, now),
            ..self
        }
    }
}

/// An account that has quota again.
pub open spec fn with_quota(account: AccountModel) -> AccountModel {
    AccountModel {
        quota_until_ms: 0,
        status: if account.status == accounts::QUOTA_STATUS@ {
            Seq::empty()
        } else {
            account.status
        },
        ..account
    }
}

/// What is shown of an account.
#[derive(Debug)]
pub struct AccountEntry {
    pub id: String,
    pub label: String,
    pub selected: bool,
    pub status: String,
}

/// What an entry holds.
#[verifier::ext_equal]
pub struct EntryModel {
    pub id: Seq<char>,
    pub label: Seq<char>,
    pub selected: bool,
    pub status: Seq<char>,
}

impl DeepView for AccountEntry {
    type V = EntryModel;

    open spec fn deep_view(&self) -> EntryModel {
        EntryModel {
            id: self.id@,
            label: self.label@,
            selected: self.selected,
            status: self.status@,
        }
    }
}

/// What is shown of how an account fares: nothing of a limit that has ended.
pub open spec fn shown_status(account: AccountModel, now: u64) -> Seq<char> {
    if account.needs_reauth {
        accounts::REAUTH_STATUS@
    } else if account.billing_blocked {
        accounts::BILLING_STATUS@
    } else if account.quota_until_ms > now {
        accounts::QUOTA_STATUS@
    } else if (account.status == accounts::RATE_STATUS@ && account.unavailable_until_ms <= now)
        || account.status == accounts::QUOTA_STATUS@ {
        Seq::empty()
    } else {
        account.status
    }
}

/// What is shown of an account under its id.
pub open spec fn entry(accounts: AccountsModel, id: Seq<char>, now: u64) -> EntryModel {
    let account = accounts.accounts[id];
    EntryModel {
        id,
        label: match account.credentials {
            Some(credentials) => match credentials.email {
                Some(email) => email,
                None => id,
            },
            None => id,
        },
        selected: id == accounts.selected,
        status: shown_status(account, now),
    }
}

/// What is shown of all accounts, in the order of their ids.
pub open spec fn entries(accounts: AccountsModel, now: u64) -> Seq<EntryModel> {
    accounts.order().map_values(|id: Seq<char>| entry(accounts, id, now))
}

/// The e-mail address of the selected account.
pub open spec fn selected_email(accounts: AccountsModel) -> Option<Seq<char>> {
    if accounts.accounts.contains_key(accounts.selected) {
        match accounts.accounts[accounts.selected].credentials {
            Some(credentials) => credentials.email,
            None => None,
        }
    } else {
        None
    }
}

fn status_of(account: &Account, now: u64) -> (r: String)
    ensures
        r@ == shown_status(account@, now),
{
    proof {
        reveal_strlit("");
    }
    if account.needs_reauth {
        accounts::REAUTH_STATUS.to_owned()
    } else if account.billing_blocked {
        accounts::BILLING_STATUS.to_owned()
    } else if account.quota_until_ms > now {
        accounts::QUOTA_STATUS.to_owned()
    } else if (text::same(&account.status, accounts::RATE_STATUS) && account.unavailable_until_ms
        <= now) || text::same(&account.status, accounts::QUOTA_STATUS) {
        String::new()
    } else {
        account.status.clone()
    }
}

fn label_of(account: &Account, id: &String) -> (r: String)
    ensures
        r@ == (match account@.credentials {
            Some(credentials) => match credentials.email {
                Some(email) => email,
                None => id@,
            },
            None => id@,
        }),
{
    match &account.credentials {
        Some(credentials) => match &credentials.email {
            Some(email) => email.clone(),
            None => id.clone(),
        },
        None => id.clone(),
    }
}

impl<T> State<T> {
    /// The state at the start, with the task that loads the saved accounts.
    pub fn new(load_task: T) -> (r: Self)
        ensures
            r@ == StateModel::initial(load_task),
    {
        State {
            accounts: Accounts::default(),
            usage_requests: IdMap::new(),
            configured_policy: None,
            persistence_task: None,
            sign_in_state: SignInState::Idle,
            refresh_tasks: IdMap::new(),
            load_task: Some(load_task),
            client_version: requests::UNGATED_MODEL_CATALOG_CLIENT_VERSION.to_owned(),
            available_models: ChatGptModel::all(),
            auth_generation: 0,
            model_catalog_generation: 0,
            last_auth_error: None,
            last_model_catalog_error: None,
        }
    }

    /// Takes in the saved accounts, or that they could not be loaded.
    pub fn apply_loaded(&mut self, loaded: Option<Accounts>) -> (effects: Effects)
        ensures
            final(self)@ == old(self)@.after_load(
                match loaded {
                    Some(accounts) => Some(accounts@),
                    None => None,
                },
            ),
            effects == (Effects {
                refresh_catalog: old(self)@.auth_generation == 0
                    && final(self)@.accounts.authenticated(),
                ..no_effects()
            }),
    {
        if self.auth_generation != 0 {
            return Effects { notify: false, persist: false, refresh_catalog: false };
        }
        match loaded {
            Some(accounts) => {
                self.auth_generation = 1;
                self.accounts = accounts;
            },
            None => {
                self.last_auth_error = Some(LOAD_ERROR.to_owned());
            },
        }
        Effects { notify: false, persist: false, refresh_catalog: self.is_authenticated() }
    }

    /// The saved accounts and their models are loaded.
    pub fn finish_load(&mut self) -> (effects: Effects)
        ensures
            final(self)@ == (StateModel { load_task: None, ..old(self)@ }),
            effects == only_notify(),
    {
        self.load_task = None;
        Effects { notify: true, persist: false, refresh_catalog: false }
    }

    /// Whether any account is signed in.
    pub fn is_authenticated(&self) -> (r: bool)
        ensures
            r == self@.accounts.authenticated(),
    {
        let count = self.accounts.accounts.len();
        let ghost order = id_map::key_order(self.accounts.accounts@.dom());
        let mut i: usize = 0;
        while i < count
            invariant
                count == order.len(),
                order == id_map::key_order(self.accounts.accounts@.dom()),
                i <= count,
                forall|k: int|
                    0 <= k < i ==> !self.accounts.accounts@[#[trigger] order[k]]@.signed_in(),
            decreases count - i,
        {
            if self.accounts.accounts.value_at(i).signed_in() {
                assert(self@.accounts.accounts.contains_key(order[i as int]));
                return true;
            }
            i += 1;
        }
        proof {
            if self@.accounts.authenticated() {
                let id = choose|id: Seq<char>| #[trigger]
                    self@.accounts.accounts.contains_key(id)
                        && self@.accounts.accounts[id].signed_in();
                assert(self.accounts.accounts@.dom().contains(id));
                let k = order.index_of(id);
                assert(order[k] == id);
            }
        }
        false
    }

    /// The e-mail address of the selected account.
    pub fn email(&self) -> (r: Option<&str>)
        ensures
            match r {
                Some(email) => selected_email(self@.accounts) == Some(email@),
                None => selected_email(self@.accounts) is None,
            },
    {
        match self.accounts.accounts.get(&self.accounts.selected) {
            Some(account) => match &account.credentials {
                Some(credentials) => match &credentials.email {
                    Some(email) => Some(email.as_str()),
                    None => None,
                },
                None => None,
            },
            None => None,
        }
    }

    /// What is shown of all accounts at a time.
    pub fn accounts_at(&self, now: u64) -> (r: Vec<AccountEntry>)
        ensures
            r.deep_view() == entries(self@.accounts, now),
    {
        let mut r: Vec<AccountEntry> = Vec::new();
        let count = self.accounts.accounts.len();
        let ghost order = self@.accounts.order();
        assert(self@.accounts.accounts.dom() =~= self.accounts.accounts@.dom());
        let mut i: usize = 0;
        while i < count
            invariant
                order == self@.accounts.order(),
                order == id_map::key_order(self.accounts.accounts@.dom()),
                count == order.len(),
                i <= count,
                r.deep_view() == entries(self@.accounts, now).take(i as int),
            decreases count - i,
        {
            let id = self.accounts.accounts.id_at(i);
            let account = self.accounts.accounts.value_at(i);
            let shown = AccountEntry {
                id: id.clone(),
                label: label_of(account, id),
                selected: text::same(id, &self.accounts.selected),
                status: status_of(account, now),
            };
            let ghost before = r.deep_view();
            let ghost model = shown.deep_view();
            r.push(shown);
            assert(r.deep_view() =~= before.push(model));
            assert(model =~= entry(self@.accounts, order[i as int], now));
            i += 1;
        }
        assert(entries(self@.accounts, now).take(i as int) =~= entries(self@.accounts, now));
        r
    }

    /// What is shown of all accounts by the wall clock.
    pub fn accounts(&self) -> (r: Vec<AccountEntry>)
        ensures
            exists|reading: SystemTime|
                r.deep_view() == entries(self@.accounts, #[trigger] time::read_ms(reading)),
    {
        let now = time::now_ms();
        self.accounts_at(now)
    }

    /// The policy in force.
    pub fn switch_policy(&self) -> (r: AccountSwitchPolicy)
        ensures
            r == self@.policy(),
    {
        match self.configured_policy {
            Some(policy) => policy,
            None => AccountSwitchPolicy::default(),
        }
    }

    /// Sets the policy, or leaves it to the default.
    pub fn configure_switch_policy(&mut self, policy: Option<AccountSwitchPolicy>) -> (effects:
        Effects)
        ensures
            final(self)@ == (StateModel { configured_policy: policy, ..old(self)@ }),
            effects == only_notify(),
    {
        self.configured_policy = policy;
        Effects { notify: true, persist: false, refresh_catalog: false }
    }

    /// Selects an account, if it is there.
    pub fn select_account(&mut self, id: String) -> (effects: Effects)
        ensures
            final(self)@ == old(self)@.after_select(id@),
            effects == (if old(self)@.accounts.accounts.contains_key(id@) {
                Effects { notify: true, persist: true, refresh_catalog: true }
            } else {
                no_effects()
            }),
    {
        if !self.accounts.accounts.contains_key(&id) {
            return Effects { notify: false, persist: false, refresh_catalog: false };
        }
        self.accounts.selected = id;
        self.reset_model_catalog();
        Effects { notify: true, persist: true, refresh_catalog: true }
    }

    /// Takes the user's word that an account has quota again.
    pub fn reset_account_availability(&mut self, id: &str) -> (effects: Effects)
        ensures
            final(self)@ == old(self)@.after_reset(id@),
            effects == (if old(self)@.resettable(id@) {
                Effects { notify: true, persist: true, refresh_catalog: false }
            } else {
                no_effects()
            }),
    {
        let resettable = match self.accounts.accounts.get(id) {
            Some(account) => !account.needs_reauth,
            None => false,
        };
        if !resettable {
            return Effects { notify: false, persist: false, refresh_catalog: false };
        }
        proof {
            reveal_strlit("");
        }
        let ghost before = self.accounts.accounts@;
        match self.accounts.accounts.remove(id) {
            Some(removed) => {
                let mut account = removed;
                account.quota_until_ms = 0;
                if text::same(&account.status, accounts::QUOTA_STATUS) {
                    account.status = String::new();
                }
                proof {
                    accounts::models_of_changed(before, id@, account);
                }
                self.accounts.accounts.insert(id.to_owned(), account);
            },
            None => {},
        }
        Effects { notify: true, persist: true, refresh_catalog: false }
    }

    /// Removes an account.
    pub fn remove_account(&mut self, id: &str) -> (effects: Effects)
        ensures
            final(self)@ == old(self)@.after_removal(id@),
            effects == (Effects {
                notify: true,
                persist: true,
                refresh_catalog: old(self)@.accounts.selected == id@
                    && final(self)@.accounts.authenticated(),
            }),
    {
        proof {
            reveal_strlit("");
        }
        let ghost before = self.accounts.accounts@;
        self.usage_requests.remove(id);
        self.accounts.accounts.remove(id);
        self.refresh_tasks.remove(id);
        self.auth_generation = next_generation(self.auth_generation);
        proof {
            assert(accounts::account_models(before.remove(id@))
                =~= accounts::account_models(before).remove(id@));
            assert(accounts::account_models(before).remove(id@).dom() =~= before.remove(
                id@,
            ).dom());
        }
        let mut refresh_catalog = false;
        if text::same(&self.accounts.selected, id) {
            self.accounts.selected = if self.accounts.accounts.len() > 0 {
                self.accounts.accounts.id_at(0).clone()
            } else {
                String::new()
            };
            self.reset_model_catalog();
            refresh_catalog = self.is_authenticated();
        }
        Effects { notify: true, persist: true, refresh_catalog }
    }

    /// Starts a save: the one that it has to wait for, and the accounts as they are now.
    pub fn begin_persist(&mut self) -> (r: (Option<T>, Accounts))
        ensures
            r.0 == old(self)@.persistence_task,
            r.1@ == old(self)@.accounts,
            final(self)@ == (StateModel { persistence_task: None, ..old(self)@ }),
    {
        let previous = self.persistence_task.take();
        (previous, self.accounts.clone())
    }

    /// Keeps the task of a save that was started.
    pub fn keep_persist(&mut self, task: T)
        ensures
            final(self)@ == (StateModel { persistence_task: Some(task), ..old(self)@ }),
    {
        self.persistence_task = Some(task);
    }

    /// Notes that a save failed.
    pub fn fail_persist(&mut self) -> (effects: Effects)
        ensures
            final(self)@ == (StateModel { last_auth_error: Some(SAVE_ERROR@), ..old(self)@ }),
            effects == only_notify(),
    {
        self.last_auth_error = Some(SAVE_ERROR.to_owned());
        Effects { notify: true, persist: false, refresh_catalog: false }
    }

    /// Whether a sign-in is under way.
    pub fn is_signing_in(&self) -> (r: bool)
        ensures
            r == !(self@.sign_in_state is Idle),
    {
        match self.sign_in_state {
            SignInState::Idle => false,
            _ => true,
        }
    }

    /// Whether a sign-in is under way that can still be cancelled.
    pub fn is_sign_in_cancellable(&self) -> (r: bool)
        ensures
            r == (self@.sign_in_state is Authorizing),
    {
        match self.sign_in_state {
            SignInState::Authorizing(_) => true,
            _ => false,
        }
    }

    /// Notes that the user agreed, after which a sign-in cannot be cancelled.
    pub fn begin_persisting_credentials(&mut self) -> (effects: Effects)
        ensures
            final(self)@ == old(self)@.persisting(),
            effects == (if old(self)@.sign_in_state is Authorizing {
                only_notify()
            } else {
                no_effects()
            }),
    {
        let mut state = SignInState::Idle;
        core::mem::swap(&mut state, &mut self.sign_in_state);
        match state {
            SignInState::Authorizing(task) => {
                self.sign_in_state = SignInState::PersistingCredentials(task);
                Effects { notify: true, persist: false, refresh_catalog: false }
            },
            state => {
                self.sign_in_state = state;
                Effects { notify: false, persist: false, refresh_catalog: false }
            },
        }
    }

    /// What went wrong last with the accounts.
    pub fn last_auth_error(&self) -> (r: Option<String>)
        ensures
            r.deep_view() == self@.last_auth_error,
    {
        text::copy_optional(&self.last_auth_error)
    }

    /// What went wrong last with the catalog of models.
    pub fn model_catalog_error(&self) -> (r: Option<String>)
        ensures
            r.deep_view() == self@.last_model_catalog_error,
    {
        text::copy_optional(&self.last_model_catalog_error)
    }

    /// The models that are offered.
    pub fn available_models(&self) -> (r: &Vec<ChatGptModel>)
        ensures
            r.deep_view() == self@.available_models,
    {
        &self.available_models
    }

    /// The model to start with: the first that is offered.
    pub fn default_model(&self) -> (r: Option<ChatGptModel>)
        ensures
            match r {
                Some(model) => self@.available_models.len() > 0 && model@
                    == self@.available_models[0],
                None => self@.available_models.len() == 0,
            },
    {
        if self.available_models.len() > 0 {
            Some(self.available_models[0].clone())
        } else {
            None
        }
    }

    /// The model for quick tasks, if it is offered.
    pub fn default_fast_model(&self) -> (r: Option<ChatGptModel>)
        ensures
            match r {
                Some(model) => models::first_named(
                    self@.available_models,
                    models::FAST_MODEL_ID@,
                ) == Some(model@),
                None => models::first_named(
                    self@.available_models,
                    models::FAST_MODEL_ID@,
                ) is None,
            },
    {
        let ghost offered = self@.available_models;
        let mut i: usize = 0;
        assert(offered.skip(0) =~= offered);
        while i < self.available_models.len()
            invariant
                offered == self.available_models.deep_view(),
                i <= self.available_models@.len(),
                models::first_named(offered, models::FAST_MODEL_ID@) == models::first_named(
                    offered.skip(i as int),
                    models::FAST_MODEL_ID@,
                ),
                offered == self@.available_models,
            decreases self.available_models@.len() - i,
        {
            assert(offered.skip(i as int)[0] == self.available_models@[i as int]@);
            assert(offered.skip(i as int).skip(1) =~= offered.skip(i + 1));
            if text::same(self.available_models[i].id(), models::FAST_MODEL_ID) {
                return Some(self.available_models[i].clone());
            }
            i += 1;
        }
        None
    }

    /// The task that loads the saved accounts, until they are loaded.
    pub fn load_task(&self) -> (r: Option<&T>)
        ensures
            r == (match self@.load_task {
                Some(task) => Some(&task),
                None => None,
            }),
    {
        match &self.load_task {
            Some(task) => Some(task),
            None => None,
        }
    }

    /// Starts a request for the catalog of models, and numbers it.
    pub fn begin_model_catalog_refresh(&mut self) -> (generation: u64)
        ensures
            final(self)@ == old(self)@.catalog_requested(),
            generation == final(self)@.model_catalog_generation,
    {
        self.model_catalog_generation = next_generation(self.model_catalog_generation);
        self.model_catalog_generation
    }

    /// Takes in the answer to the numbered request for the catalog, unless another came after it.
    pub fn finish_model_catalog_refresh(
        &mut self,
        generation: u64,
        result: Result<Vec<ChatGptModel>, String>,
    ) -> (effects: Effects)
        ensures
            final(self)@ == old(self)@.after_catalog(
                generation,
                match result {
                    Ok(offered) => Ok(offered.deep_view()),
                    Err(message) => Err(message@),
                },
            ),
            effects == (if old(self)@.model_catalog_generation == generation {
                only_notify()
            } else {
                no_effects()
            }),
    {
        if self.model_catalog_generation != generation {
            return Effects { notify: false, persist: false, refresh_catalog: false };
        }
        match result {
            Ok(offered) => {
                self.available_models = offered;
                self.last_model_catalog_error = None;
            },
            Err(message) => {
                self.last_model_catalog_error = Some(
                    text::joined("Failed to load models: ", &message),
                );
            },
        }
        Effects { notify: true, persist: false, refresh_catalog: false }
    }

    /// Offers the models known from the start again.
    pub fn reset_model_catalog(&mut self)
        ensures
            final(self)@ == old(self)@.catalog_reset(),
    {
        self.model_catalog_generation = next_generation(self.model_catalog_generation);
        self.available_models = ChatGptModel::all();
        self.last_model_catalog_error = None;
    }

    /// Cancels a sign-in that waits for the user.
    pub fn cancel_sign_in(&mut self) -> (effects: Effects)
        ensures
            final(self)@ == old(self)@.cancelled(),
            effects == (if old(self)@.sign_in_state is Authorizing {
                only_notify()
            } else {
                no_effects()
            }),
    {
        if self.is_sign_in_cancellable() {
            self.sign_in_state = SignInState::Idle;
            Effects { notify: true, persist: false, refresh_catalog: false }
        } else {
            Effects { notify: false, persist: false, refresh_catalog: false }
        }
    }

    /// Signs all accounts out.
    pub fn sign_out(&mut self) -> (effects: Effects)
        requires
            old(self)@.auth_generation < u64::MAX,
        ensures
            final(self)@ == old(self)@.after_sign_out(),
            effects == (Effects { notify: true, persist: true, refresh_catalog: false }),
    {
        self.auth_generation = self.auth_generation + 1;
        self.usage_requests = IdMap::new();
        self.accounts = Accounts::default();
        self.sign_in_state = SignInState::Idle;
        self.refresh_tasks = IdMap::new();
        self.last_auth_error = None;
        self.reset_model_catalog();
        Effects { notify: true, persist: true, refresh_catalog: false }
    }
}

} // verus!
