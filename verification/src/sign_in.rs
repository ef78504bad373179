//! Signing in, step by step, and what every change of the state keeps.
use crate::accounts;
use crate::accounts::AccountsModel;
use crate::credentials::{CodexCredentials, CredentialsModel};
use crate::id_map;
use crate::models::ModelFacts;
use crate::state;
use crate::state::{Effects, SignInState, State, StateModel};
use crate::time;
use std::time::SystemTime;
use vstd::prelude::*;
use vstd::string::*;

verus! {

/// What happened to a sign-in.
#[derive(Debug)]
pub enum SignInEvent {
    /// The user agreed, and the tokens are there.
    Authorized(CodexCredentials),
    /// The user did not agree, or no tokens were issued.
    Refused,
    /// The accounts are saved.
    Saved,
    /// The accounts could not be saved.
    NotSaved,
    /// The catalog of models was asked for, with or without success.
    CatalogAsked,
}

/// What a sign-in has to wait for next.
#[derive(Clone, Copy, Debug, PartialEq, Eq, Structural)]
pub enum SignInAction {
    /// The accounts to be saved.
    AwaitSave,
    /// The catalog of models.
    AwaitCatalog,
    /// Nothing: the sign-in is over.
    Finish,
}

impl<T> StateModel<T> {
    /// A sign-in starts; one that is under way is not replaced.
    pub open spec fn signing_in(self, task: T) -> StateModel<T> {
        if self.sign_in_state is Idle {
            StateModel {
                last_auth_error: None,
                sign_in_state: SignInState::Authorizing(task),
                ..self
            }
        } else {
            self
        }
    }

    /// A sign-in is over.
    pub open spec fn signed_in(self, error: Option<Seq<char>>) -> StateModel<T> {
        StateModel { sign_in_state: SignInState::Idle, last_auth_error: error, ..self }
    }

    /// The state after something happened to a sign-in.
    pub open spec fn after_sign_in_event(self, event: SignInEvent, now: u64) -> StateModel<T> {
        match event {
            SignInEvent::Authorized(credentials) => self.persisting().accepted(credentials@, now),
            SignInEvent::Refused => self.signed_in(Some(state::SIGN_IN_ERROR@)),
            SignInEvent::Saved => StateModel {
                auth_generation: state::successor(self.auth_generation),
                last_auth_error: None,
                ..self
            },
            SignInEvent::NotSaved => self.signed_in(Some(state::PERSIST_ERROR@)),
            SignInEvent::CatalogAsked => self.signed_in(self.last_auth_error),
        }
    }
}

/// What a sign-in waits for after something happened to it.
pub open spec fn next_action(event: SignInEvent) -> SignInAction {
    match event {
        SignInEvent::Authorized(_) => SignInAction::AwaitSave,
        SignInEvent::Saved => SignInAction::AwaitCatalog,
        _ => SignInAction::Finish,
    }
}

/// What has to be done after something happened to a sign-in.
pub open spec fn sign_in_effects(event: SignInEvent, authorizing: bool) -> Effects {
    Effects {
        notify: match event {
            SignInEvent::Authorized(_) => authorizing,
            SignInEvent::Saved => false,
            _ => true,
        },
        persist: event is Authorized,
        refresh_catalog: event is Saved,
    }
}

impl<T> State<T> {
    /// Starts a sign-in that a task runs.
    ///
    /// While another one is under way, nothing happens and the task is dropped.
    pub fn sign_in(&mut self, task: T) -> (effects: Effects)
        ensures
            final(self)@ == old(self)@.signing_in(task),
            effects == (if old(self)@.sign_in_state is Idle {
                state::only_notify()
            } else {
                state::no_effects()
            }),
    {
        if self.is_signing_in() {
            return Effects { notify: false, persist: false, refresh_catalog: false };
        }
        self.last_auth_error = None;
        self.sign_in_state = SignInState::Authorizing(task);
        Effects { notify: true, persist: false, refresh_catalog: false }
    }

    /// Takes in, at a time, what happened to a sign-in, and says what it waits for next.
    pub fn sign_in_step_at(&mut self, event: SignInEvent, now: u64) -> (r: (SignInAction, Effects))
        ensures
            final(self)@ == old(self)@.after_sign_in_event(event, now),
            r.0 == next_action(event),
            r.1 == sign_in_effects(event, old(self)@.sign_in_state is Authorizing),
    {
        match event {
            SignInEvent::Authorized(credentials) => {
                let begun = self.begin_persisting_credentials();
                let id = credentials.id();
                self.auth_generation = state::next_generation(self.auth_generation);
                self.refresh_tasks.remove(&id);
                self.usage_requests.remove(&id);
                self.accounts.insert_at(credentials, now);
                (
                    SignInAction::AwaitSave,
                    Effects { notify: begun.notify, persist: true, refresh_catalog: false },
                )
            },
            SignInEvent::Refused => {
                self.sign_in_state = SignInState::Idle;
                self.last_auth_error = Some(state::SIGN_IN_ERROR.to_owned());
                (
                    SignInAction::Finish,
                    Effects { notify: true, persist: false, refresh_catalog: false },
                )
            },
            SignInEvent::Saved => {
                self.auth_generation = state::next_generation(self.auth_generation);
                self.last_auth_error = None;
                (
                    SignInAction::AwaitCatalog,
                    Effects { notify: false, persist: false, refresh_catalog: true },
                )
            },
            SignInEvent::NotSaved => {
                self.sign_in_state = SignInState::Idle;
                self.last_auth_error = Some(state::PERSIST_ERROR.to_owned());
                (
                    SignInAction::Finish,
                    Effects { notify: true, persist: false, refresh_catalog: false },
                )
            },
            SignInEvent::CatalogAsked => {
                self.sign_in_state = SignInState::Idle;
                (
                    SignInAction::Finish,
                    Effects { notify: true, persist: false, refresh_catalog: false },
                )
            },
        }
    }

    /// Takes in, by the wall clock, what happened to a sign-in.
    pub fn sign_in_step(&mut self, event: SignInEvent) -> (r: (SignInAction, Effects))
        ensures
            exists|reading: SystemTime|
                final(self)@ == old(self)@.after_sign_in_event(
                    event,
                    #[trigger] time::read_ms(reading),
                ),
            r.0 == next_action(event),
            r.1 == sign_in_effects(event, old(self)@.sign_in_state is Authorizing),
    {
        let now = time::now_ms();
        self.sign_in_step_at(event, now)
    }
}

/// A sign-in that succeeds ends with its account signed in and selected, and with no error.
pub proof fn sign_in_succeeds<T>(
    before: StateModel<T>,
    task: T,
    credentials: CodexCredentials,
    now: u64,
)
    requires
        before.sign_in_state is Idle,
    ensures
        ({
            let asked = before.signing_in(task);
            let agreed = asked.after_sign_in_event(SignInEvent::Authorized(credentials), now);
            let saved = agreed.after_sign_in_event(SignInEvent::Saved, now);
            let after = saved.after_sign_in_event(SignInEvent::CatalogAsked, now);
            &&& asked.sign_in_state == SignInState::Authorizing(task)
            &&& agreed.sign_in_state == SignInState::PersistingCredentials(task)
            &&& after.sign_in_state is Idle
            &&& after.last_auth_error is None
            &&& after.accounts == before.accounts.inserted(credentials@, now)
            &&& after.accounts.authenticated()
            &&& after.accounts.selected == credentials@.id()
        }),
{
    accounts::sign_in_touches_one_account(before.accounts, credentials@, now, credentials@.id());
}

/// A sign-in that changes the accounts has them saved, and waits for that.
pub proof fn new_accounts_are_saved<T>(before: StateModel<T>, event: SignInEvent, now: u64)
    requires
        before.after_sign_in_event(event, now).accounts != before.accounts,
    ensures
        sign_in_effects(event, before.sign_in_state is Authorizing).persist,
        next_action(event) == SignInAction::AwaitSave,
{
}

/// A sign-in that fails leaves the accounts as they were, and says so.
pub proof fn refused_sign_in_keeps_accounts<T>(before: StateModel<T>, task: T, now: u64)
    requires
        before.sign_in_state is Idle,
    ensures
        before.signing_in(task).after_sign_in_event(SignInEvent::Refused, now) == (StateModel {
            last_auth_error: Some(state::SIGN_IN_ERROR@),
            ..before
        }),
{
}

/// A sign-in that waits for the user can be cancelled; one whose account is being saved cannot,
/// and neither can be replaced.
pub proof fn only_waiting_sign_in_is_cancelled<T>(before: StateModel<T>, task: T)
    ensures
        before.sign_in_state is Idle ==> before.signing_in(task).cancelled() == (StateModel {
            last_auth_error: None,
            ..before
        }),
        before.persisting().cancelled() == before.persisting(),
        !(before.sign_in_state is Idle) ==> before.signing_in(task) == before,
{
}

/// Who signs in again finds none of the work that was under way for the account before.
pub proof fn sign_in_discards_earlier_work<T>(
    before: StateModel<T>,
    credentials: CredentialsModel,
    now: u64,
)
    ensures
        !before.accepted(credentials, now).refresh_tasks.contains_key(credentials.id()),
        !before.accepted(credentials, now).usage_requests.contains_key(credentials.id()),
        before.accepted(credentials, now).auth_generation != before.auth_generation,
{
}

/// Accounts that are loaded late do not replace those that signed in, or out, meanwhile.
pub proof fn late_load_is_ignored<T>(before: StateModel<T>, loaded: Option<AccountsModel>)
    requires
        before.auth_generation != 0,
    ensures
        before.after_load(loaded) == before,
{
}

/// An account that is not there cannot be selected.
pub proof fn unknown_account_cannot_be_selected<T>(before: StateModel<T>, id: Seq<char>)
    requires
        !before.accounts.accounts.contains_key(id),
    ensures
        before.after_select(id) == before,
{
}

/// Selecting an account changes the selection, and nothing else of the accounts.
pub proof fn selecting_keeps_accounts<T>(before: StateModel<T>, id: Seq<char>)
    ensures
        before.after_select(id).accounts.accounts == before.accounts.accounts,
        before.accounts.accounts.contains_key(id) ==> before.after_select(id).accounts.selected
            == id,
{
}

/// The selected id stays that of an account, or empty, whatever is selected, removed or reset,
/// whoever signs in, and when all sign out.
pub proof fn selection_stays_valid<T>(
    before: StateModel<T>,
    id: Seq<char>,
    credentials: CredentialsModel,
    now: u64,
)
    requires
        before.accounts.accounts.dom().finite(),
        before.accounts.selection_exists(),
    ensures
        before.after_select(id).accounts.selection_exists(),
        before.after_removal(id).accounts.selection_exists(),
        before.after_reset(id).accounts.selection_exists(),
        before.accepted(credentials, now).accounts.selection_exists(),
        before.after_sign_out().accounts.selection_exists(),
{
    let left = before.accounts.accounts.remove(id);
    let order = id_map::key_order(left.dom());
    id_map::key_order_exists(left.dom());
    if order.len() > 0 {
        assert(order.contains(order[0]));
        assert(left.dom().contains(order[0]));
    }
}

/// A removed account is gone with all work for it, and the others are as they were.
pub proof fn removal_touches_one_account<T>(before: StateModel<T>, id: Seq<char>, other: Seq<char>)
    requires
        other != id,
    ensures
        !before.after_removal(id).accounts.accounts.contains_key(id),
        !before.after_removal(id).refresh_tasks.contains_key(id),
        !before.after_removal(id).usage_requests.contains_key(id),
        before.after_removal(id).accounts.accounts.contains_key(other)
            == before.accounts.accounts.contains_key(other),
        before.accounts.accounts.contains_key(other) ==> before.after_removal(
            id,
        ).accounts.accounts[other] == before.accounts.accounts[other],
        before.after_removal(id).auth_generation != before.auth_generation,
{
}

/// An account whose quota is reset is available again if nothing else keeps it from serving
/// requests, and shows no lack of quota.
pub proof fn reset_ends_quota<T>(
    before: StateModel<T>,
    id: Seq<char>,
    model: Seq<char>,
    now: u64,
)
    requires
        before.resettable(id),
    ensures
        ({
            let account = before.accounts.accounts[id];
            let after = before.after_reset(id).accounts.accounts[id];
            &&& after.available_at(model, now) == (account.entitled(model)
                && account.unavailable_until_ms <= now)
            &&& state::shown_status(after, now) != accounts::QUOTA_STATUS@
        }),
{
    reveal_strlit("Plan quota reached");
    reveal_strlit("Billing requires attention");
    assert(accounts::QUOTA_STATUS@.len() != accounts::BILLING_STATUS@.len());
}

/// An account that has to sign in again is not made available by a reset of its quota.
pub proof fn reset_does_not_replace_sign_in<T>(before: StateModel<T>, id: Seq<char>)
    requires
        before.accounts.accounts.contains_key(id),
        before.accounts.accounts[id].needs_reauth,
    ensures
        before.after_reset(id) == before,
{
}

/// After a sign-out nobody is signed in and nothing is under way, and what was started before
/// belongs to an earlier generation.
pub proof fn sign_out_forgets_everything<T>(before: StateModel<T>)
    requires
        before.auth_generation < u64::MAX,
    ensures
        !before.after_sign_out().accounts.authenticated(),
        before.after_sign_out().accounts == AccountsModel::none(),
        before.after_sign_out().sign_in_state is Idle,
        before.after_sign_out().refresh_tasks == Map::<Seq<char>, T>::empty(),
        before.after_sign_out().usage_requests.dom() == Set::<Seq<char>>::empty(),
        before.after_sign_out().auth_generation != before.auth_generation,
{
    assert(before.after_sign_out().usage_requests.dom() =~= Set::<Seq<char>>::empty());
}

/// The answer to a request for the catalog is ignored once another request was started, or the
/// catalog was reset.
pub proof fn obsolete_catalog_is_ignored<T>(
    before: StateModel<T>,
    answer: Result<Seq<ModelFacts>, Seq<char>>,
)
    ensures
        ({
            let asked = before.catalog_requested();
            let generation = asked.model_catalog_generation;
            &&& asked.catalog_requested().after_catalog(generation, answer)
                == asked.catalog_requested()
            &&& asked.catalog_reset().after_catalog(generation, answer) == asked.catalog_reset()
        }),
{
}

/// A request for the catalog that fails leaves the models that are offered as they were.
pub proof fn failed_catalog_keeps_models<T>(
    before: StateModel<T>,
    generation: u64,
    message: Seq<char>,
)
    ensures
        before.after_catalog(generation, Err(message)).available_models == before.available_models,
{
}

/// A limit that has ended is not shown.
pub proof fn ended_limits_are_not_shown(account: accounts::AccountModel, now: u64)
    requires
        !account.needs_reauth,
        !account.billing_blocked,
        account.unavailable_until_ms <= now,
        account.quota_until_ms <= now,
        account.status == accounts::RATE_STATUS@ || account.status == accounts::QUOTA_STATUS@,
    ensures
        state::shown_status(account, now) == Seq::<char>::empty(),
{
}

} // verus!
