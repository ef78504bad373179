//! What a change leaves alone.
use crate::accounts::{AccountSwitchPolicy, Accounts};
use crate::credentials::CodexCredentials;
use crate::failover::{ErrorModel, Failover, FailoverAction, FailoverEvent, Phase};
use crate::failure::AccountFailure;
use crate::models::ChatGptModel;
use crate::oauth::RefreshError;
use crate::sign_in::{SignInAction, SignInEvent};
use crate::state::{Effects, State, StateModel};
use vstd::prelude::*;
use vstd::string::*;

verus! {

/// The policy and the model of a request never change, and what is required of further accounts
/// changes only with a failure.
pub proof fn requests_keep_their_terms(
    request: &mut Failover,
    event: FailoverEvent,
    accounts: &Accounts,
    now: u64,
    action: FailoverAction,
)
    requires
        call_ensures(Failover::step_at, (request, event, accounts, now), action),
    ensures
        final(request).policy == old(request).policy,
        final(request).model@ == old(request).model@,
        !(event is Failed) ==> final(request).required_scope.deep_view() == old(request).required_scope.deep_view(),
{
}

/// While another account is tried, the reason why the last one could not serve the request is kept.
pub proof fn reasons_are_kept(
    request: &mut Failover,
    event: FailoverEvent,
    accounts: &Accounts,
    now: u64,
    action: FailoverAction,
)
    requires
        call_ensures(Failover::step_at, (request, event, accounts, now), action),
        action is Authenticate,
    ensures
        event matches FailoverEvent::Credentials(Err(error)) ==> final(request)@.last_error == Some(
            error@,
        ),
        old(request).phase matches Phase::Recording { error, .. } ==> final(request)@.last_error
            == Some(ErrorModel::Request(error)),
        event is Begin ==> final(request)@.last_error == old(request)@.last_error,
{
}

/// An event that the request does not wait for ends it.
pub proof fn unexpected_events_end_the_request(
    request: &mut Failover,
    event: FailoverEvent,
    accounts: &Accounts,
    now: u64,
    action: FailoverAction,
)
    requires
        call_ensures(Failover::step_at, (request, event, accounts, now), action),
        match old(request).phase {
            Phase::Start => !(event is Begin),
            Phase::Authenticating { .. } => !(event is Credentials),
            Phase::Sending { .. } => !(event is Answered) && !(event is Failed),
            Phase::Waiting { .. } => !(event is Waited),
            Phase::Refreshing { .. } => !(event is Credentials),
            Phase::Recording { .. } => !(event is Recorded),
            Phase::Over => true,
        },
    ensures
        action is Fail,
        final(request).phase is Over,
{
}

/// Loading the accounts changes the accounts, whether they were changed before, and the last error.
pub proof fn loading_leaves_the_rest<T>(
    state: &mut State<T>,
    loaded: Option<Accounts>,
    effects: Effects,
    ended: &mut State<T>,
    after: Effects,
)
    requires
        call_ensures(State::<T>::apply_loaded, (state, loaded), effects),
        call_ensures(State::<T>::finish_load, (ended,), after),
    ensures
        final(state)@ == (StateModel {
            accounts: final(state)@.accounts,
            auth_generation: final(state)@.auth_generation,
            last_auth_error: final(state)@.last_auth_error,
            ..old(state)@
        }),
        final(ended)@ == (StateModel { load_task: None, ..old(ended)@ }),
{
}

/// Selecting an account changes the selection and the catalog.
pub proof fn selecting_leaves_the_rest<T>(state: &mut State<T>, id: String, effects: Effects)
    requires
        call_ensures(State::<T>::select_account, (state, id), effects),
    ensures
        final(state)@ == (StateModel {
            accounts: final(state)@.accounts,
            available_models: final(state)@.available_models,
            model_catalog_generation: final(state)@.model_catalog_generation,
            last_model_catalog_error: final(state)@.last_model_catalog_error,
            ..old(state)@
        }),
{
}

/// Resetting a quota changes that account.
pub proof fn resetting_leaves_the_rest<T>(
    state: &mut State<T>,
    id: &str,
    effects: Effects,
    other: Seq<char>,
)
    requires
        call_ensures(State::<T>::reset_account_availability, (state, id), effects),
        other != id@,
    ensures
        final(state)@ == (StateModel { accounts: final(state)@.accounts, ..old(state)@ }),
        final(state)@.accounts.accounts.contains_key(other) == old(state)@.accounts.accounts.contains_key(other),
        final(state)@.accounts.accounts[other] == old(state)@.accounts.accounts[other],
{
}

/// Removing an account changes the accounts, the work for that account, and, where it was selected,
/// the catalog.
pub proof fn removing_leaves_the_rest<T>(
    state: &mut State<T>,
    id: &str,
    effects: Effects,
    other: Seq<char>,
)
    requires
        call_ensures(State::<T>::remove_account, (state, id), effects),
        other != id@,
    ensures
        final(state)@ == (StateModel {
            accounts: final(state)@.accounts,
            usage_requests: final(state)@.usage_requests,
            refresh_tasks: final(state)@.refresh_tasks,
            auth_generation: final(state)@.auth_generation,
            available_models: final(state)@.available_models,
            model_catalog_generation: final(state)@.model_catalog_generation,
            last_model_catalog_error: final(state)@.last_model_catalog_error,
            ..old(state)@
        }),
        final(state)@.usage_requests.contains_key(other) == old(state)@.usage_requests.contains_key(other),
        final(state)@.refresh_tasks.contains_key(other) == old(state)@.refresh_tasks.contains_key(
            other,
        ),
        old(state)@.refresh_tasks.contains_key(other) ==> final(state)@.refresh_tasks[other] == old(state)@.refresh_tasks[other],
        old(state)@.usage_requests.contains_key(other) ==> final(state)@.usage_requests[other]
            == old(state)@.usage_requests[other],
        old(state)@.accounts.selected != id@ ==> final(state)@.available_models == old(state)@.available_models && final(state)@.model_catalog_generation == old(state)@.model_catalog_generation && final(state)@.last_model_catalog_error == old(state)@.last_model_catalog_error,
{
}

/// A sign-out leaves the policy, the loading, the saving and the version under which the catalog is
/// asked for.
pub proof fn signing_out_leaves_the_rest<T>(state: &mut State<T>, effects: Effects)
    requires
        call_ensures(State::<T>::sign_out, (state,), effects),
        old(state).auth_generation < u64::MAX,
    ensures
        final(state)@.configured_policy == old(state)@.configured_policy,
        final(state)@.persistence_task == old(state)@.persistence_task,
        final(state)@.load_task == old(state)@.load_task,
        final(state)@.client_version == old(state)@.client_version,
{
}

/// A request for the catalog and its answer change the catalog.
pub proof fn catalogs_leave_the_rest<T>(
    begun: &mut State<T>,
    number: u64,
    ended: &mut State<T>,
    generation: u64,
    result: Result<Vec<ChatGptModel>, String>,
    effects: Effects,
    reset: &mut State<T>,
    r: (),
    known: Vec<ChatGptModel>,
)
    requires
        call_ensures(State::<T>::begin_model_catalog_refresh, (begun,), number),
        call_ensures(State::<T>::finish_model_catalog_refresh, (ended, generation, result), effects),
        call_ensures(State::<T>::reset_model_catalog, (reset,), r),
        call_ensures(ChatGptModel::all, (), known),
    ensures
        final(begun)@ == (StateModel { model_catalog_generation: number, ..old(begun)@ }),
        final(ended)@ == (StateModel {
            available_models: final(ended)@.available_models,
            last_model_catalog_error: final(ended)@.last_model_catalog_error,
            ..old(ended)@
        }),
        final(reset)@ == (StateModel {
            available_models: known.deep_view(),
            last_model_catalog_error: None,
            model_catalog_generation: final(reset)@.model_catalog_generation,
            ..old(reset)@
        }),
        final(reset)@.model_catalog_generation != old(reset)@.model_catalog_generation,
{
}

/// Saves change the task that saves, and the last error where they fail.
pub proof fn saves_leave_the_rest<T>(
    begun: &mut State<T>,
    r: (Option<T>, Accounts),
    kept: &mut State<T>,
    task: T,
    a: (),
    failed: &mut State<T>,
    effects: Effects,
    configured: &mut State<T>,
    policy: Option<AccountSwitchPolicy>,
    told: Effects,
)
    requires
        call_ensures(State::<T>::begin_persist, (begun,), r),
        call_ensures(State::<T>::keep_persist, (kept, task), a),
        call_ensures(State::<T>::fail_persist, (failed,), effects),
        call_ensures(State::<T>::configure_switch_policy, (configured, policy), told),
    ensures
        final(begun)@ == (StateModel { persistence_task: None, ..old(begun)@ }),
        final(kept)@ == (StateModel { persistence_task: Some(task), ..old(kept)@ }),
        final(failed)@ == (StateModel {
            last_auth_error: final(failed)@.last_auth_error,
            ..old(failed)@
        }),
        final(configured)@ == (StateModel { configured_policy: policy, ..old(configured)@ }),
{
}

/// A sign-in that starts, is cancelled or agreed to changes how far it has come, and its start the
/// last error.
pub proof fn sign_ins_leave_the_rest<T>(
    started: &mut State<T>,
    task: T,
    a: Effects,
    cancelled: &mut State<T>,
    b: Effects,
    agreed: &mut State<T>,
    c: Effects,
)
    requires
        call_ensures(State::<T>::sign_in, (started, task), a),
        call_ensures(State::<T>::cancel_sign_in, (cancelled,), b),
        call_ensures(State::<T>::begin_persisting_credentials, (agreed,), c),
    ensures
        final(started)@ == (StateModel {
            sign_in_state: final(started)@.sign_in_state,
            last_auth_error: final(started)@.last_auth_error,
            ..old(started)@
        }),
        final(cancelled)@ == (StateModel {
            sign_in_state: final(cancelled)@.sign_in_state,
            ..old(cancelled)@
        }),
        final(agreed)@ == (StateModel {
            sign_in_state: final(agreed)@.sign_in_state,
            ..old(agreed)@
        }),
        !a.persist && !a.refresh_catalog,
        !b.persist && !b.refresh_catalog,
        !c.persist && !c.refresh_catalog,
{
}

/// Tokens that come of a sign-in change the accounts and the work for the account; all other steps
/// change how far the sign-in has come and the last error.
pub proof fn sign_in_steps_leave_the_rest<T>(
    state: &mut State<T>,
    event: SignInEvent,
    now: u64,
    r: (SignInAction, Effects),
    credentials: CodexCredentials,
    id: String,
    other: Seq<char>,
)
    requires
        call_ensures(State::<T>::sign_in_step_at, (state, event, now), r),
        call_ensures(CodexCredentials::id, (&credentials,), id),
        other != id@,
    ensures
        event == SignInEvent::Authorized(credentials) ==> {
            &&& final(state)@ == (StateModel {
                accounts: final(state)@.accounts,
                usage_requests: final(state)@.usage_requests,
                refresh_tasks: final(state)@.refresh_tasks,
                auth_generation: final(state)@.auth_generation,
                sign_in_state: final(state)@.sign_in_state,
                ..old(state)@
            })
            &&& final(state)@.refresh_tasks.contains_key(other) == old(state)@.refresh_tasks.contains_key(other)
            &&& final(state)@.usage_requests.contains_key(other) == old(state)@.usage_requests.contains_key(other)
            &&& old(state)@.refresh_tasks.contains_key(other) ==> final(state)@.refresh_tasks[other]
                == old(state)@.refresh_tasks[other]
        },
        event is Saved ==> final(state)@ == (StateModel {
            auth_generation: final(state)@.auth_generation,
            last_auth_error: None,
            ..old(state)@
        }),
        event is Refused || event is NotSaved || event is CatalogAsked ==> final(state)@ == (
        StateModel {
            sign_in_state: final(state)@.sign_in_state,
            last_auth_error: final(state)@.last_auth_error,
            ..old(state)@
        }),
{
}

/// A renewal changes its account, its task and, where it fails for good, the last error; no other
/// account and no other renewal.
pub proof fn renewals_leave_the_rest<T>(
    state: &mut State<T>,
    id: &str,
    used: &CodexCredentials,
    result: Result<CodexCredentials, RefreshError>,
    r: (Result<CodexCredentials, String>, Effects),
    kept: &mut State<T>,
    account: String,
    task: T,
    a: (),
    other: Seq<char>,
)
    requires
        call_ensures(State::<T>::finish_refresh, (state, id, used, result), r),
        call_ensures(State::<T>::keep_refresh, (kept, account, task), a),
        other != id@,
    ensures
        final(state)@ == (StateModel {
            accounts: final(state)@.accounts,
            refresh_tasks: final(state)@.refresh_tasks,
            last_auth_error: final(state)@.last_auth_error,
            ..old(state)@
        }),
        !(result matches Err(RefreshError::Fatal(_))) ==> final(state)@.last_auth_error == old(state)@.last_auth_error,
        final(state)@.refresh_tasks.contains_key(other) == old(state)@.refresh_tasks.contains_key(
            other,
        ),
        old(state)@.refresh_tasks.contains_key(other) ==> final(state)@.refresh_tasks[other] == old(state)@.refresh_tasks[other],
        final(state)@.accounts.accounts.contains_key(other) == old(state)@.accounts.accounts.contains_key(other),
        final(state)@.accounts.accounts[other] == old(state)@.accounts.accounts[other],
        final(kept)@ == (StateModel { refresh_tasks: final(kept)@.refresh_tasks, ..old(kept)@ }),
        other != account@ ==> final(kept)@.refresh_tasks.contains_key(other) == old(kept)@.refresh_tasks.contains_key(other),
{
}

/// A failure that is recorded changes its account, and a request for usage that is kept the request
/// of its account.
pub proof fn records_leave_the_rest<T>(
    state: &mut State<T>,
    id: &str,
    model: &str,
    token: &str,
    failure: &AccountFailure,
    effects: Effects,
    asked: &mut State<T>,
    account: String,
    task: T,
    now: u64,
    r: (),
    other: Seq<char>,
)
    requires
        call_ensures(State::<T>::record_account_failure, (state, id, model, token, failure), effects),
        call_ensures(State::<T>::keep_usage_request, (asked, account, task, now), r),
        other != id@,
        other != account@,
    ensures
        final(state)@ == (StateModel { accounts: final(state)@.accounts, ..old(state)@ }),
        final(state)@.accounts.selected == old(state)@.accounts.selected,
        final(state)@.accounts.accounts.contains_key(other) == old(state)@.accounts.accounts.contains_key(other),
        final(state)@.accounts.accounts[other] == old(state)@.accounts.accounts[other],
        final(asked)@ == (StateModel {
            usage_requests: final(asked)@.usage_requests,
            ..old(asked)@
        }),
        final(asked)@.usage_requests.contains_key(other) == old(asked)@.usage_requests.contains_key(
            other,
        ),
        old(asked)@.usage_requests.contains_key(other) ==> final(asked)@.usage_requests[other]
            == old(asked)@.usage_requests[other],
{
}

} // verus!
