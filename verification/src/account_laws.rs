//! What holds of the accounts: what keeps them from serving requests, how they are saved, and how
//! the state changes.
use crate::accounts::{Account, Accounts, AccountsModel};
use crate::credentials::{CodexCredentials, CredentialsModel};
use crate::encoding;
use crate::failure::AccountFailure;
use crate::id_map;
use crate::id_map::IdMap;
use crate::models::ChatGptModel;
use crate::oauth::RefreshError;
use crate::refresh::CredentialsSource;
use crate::sign_in::{SignInAction, SignInEvent};
use crate::state::{AccountEntry, Effects, SignInState, State};
use crate::storage;
use crate::storage::{Entry, StepModel, StoreStep};
use crate::text;
use vstd::prelude::*;
use vstd::string::*;

verus! {

/// An account serves a request for a model just if it has credentials, need not sign in again, can
/// be billed, may use the model, and neither limit has still to end.
pub proof fn every_hindrance_counts(
    account: &Account,
    model: &str,
    now: u64,
    r: bool,
    signed_in: bool,
)
    requires
        call_ensures(Account::available_at, (account, model, now), r),
        call_ensures(Account::signed_in, (account,), signed_in),
    ensures
        r <==> account.credentials is Some && !account.needs_reauth && !account.billing_blocked
            && account.unavailable_until_ms <= now && account.quota_until_ms <= now && !(
        exists|i: int|
            0 <= i < account.blocked_models@.len() && (#[trigger] account.blocked_models@[i])@
                == model@),
        signed_in <==> account.credentials is Some && !account.needs_reauth,
{
    let blocked = account.blocked_models.deep_view();
    if blocked.contains(model@) {
        let i = blocked.index_of(model@);
        assert(blocked[i] == account.blocked_models@[i]@);
    }
    if exists|i: int|
        0 <= i < account.blocked_models@.len() && (#[trigger] account.blocked_models@[i])@
            == model@ {
        let i = choose|i: int|
            0 <= i < account.blocked_models@.len() && (#[trigger] account.blocked_models@[i])@
                == model@;
        assert(blocked[i] == model@);
    }
}

/// A failure of an account leaves it with just what the failure says: it has to sign in again, may
/// not use the model, or waits for the end of a limit, never for less than before; and it is shown
/// so. All else of it stays.
pub proof fn failures_leave_their_mark(
    accounts: &mut Accounts,
    id: &str,
    model: &str,
    token: &str,
    failure: &AccountFailure,
    changed: bool,
)
    requires
        call_ensures(Accounts::record_failure, (accounts, id, model, token, failure), changed),
        old(accounts)@.accounts.contains_key(id@),
    ensures
        ({
            let before = old(accounts)@.accounts[id@];
            let after = final(accounts)@.accounts[id@];
            let own = before.credentials matches Some(credentials) ==> credentials.access_token
                == token@;
            &&& final(accounts)@.accounts.contains_key(id@)
            &&& after.credentials == before.credentials
            &&& final(accounts)@.selected == old(accounts)@.selected
            &&& after.needs_reauth == (before.needs_reauth || ((failure is Unauthorized
                || failure is NeedsReauth) && own))
            &&& (failure is Unauthorized || failure is NeedsReauth) && own ==> after.status
                == "Sign in again"@
            &&& after.billing_blocked == (before.billing_blocked || failure is Billing)
            &&& failure is Billing ==> after.status == "Billing requires attention"@
            &&& *failure matches AccountFailure::Quota(until) ==> after.status
                == "Plan quota reached"@ && after.quota_until_ms >= until && after.quota_until_ms
                >= before.quota_until_ms && (after.quota_until_ms == until || after.quota_until_ms
                == before.quota_until_ms)
            &&& !(failure is Quota) ==> after.quota_until_ms == before.quota_until_ms
            &&& *failure matches AccountFailure::RateLimit(until) ==> after.status
                == "Rate limited"@ && after.unavailable_until_ms >= until
                && after.unavailable_until_ms >= before.unavailable_until_ms && (
            after.unavailable_until_ms == until || after.unavailable_until_ms
                == before.unavailable_until_ms)
            &&& !(failure is RateLimit) ==> after.unavailable_until_ms
                == before.unavailable_until_ms
            &&& failure is Scope ==> after.status == "Missing permission for "@ + model@
                && after.blocked_models.contains(model@)
            &&& failure is Scope && !before.blocked_models.contains(model@)
                ==> after.blocked_models == before.blocked_models.push(model@)
            &&& !(failure is Scope) || before.blocked_models.contains(model@)
                ==> after.blocked_models == before.blocked_models
            &&& failure is Transient || failure is Other || ((failure is Unauthorized
                || failure is NeedsReauth) && !own) ==> !changed && final(accounts)@ == old(accounts)@
            &&& !(failure is Transient) && !(failure is Other) && (!(failure is Unauthorized)
                && !(failure is NeedsReauth) || own) ==> changed
        }),
{
    let before = old(accounts)@.accounts[id@];
    let after = final(accounts)@.accounts[id@];
    if failure is Scope && !before.blocked_models.contains(model@) {
        assert(after.blocked_models.last() == model@);
    }
}

/// A failure of an account that is not there changes nothing.
pub proof fn unknown_accounts_do_not_fail(
    accounts: &mut Accounts,
    id: &str,
    model: &str,
    token: &str,
    failure: &AccountFailure,
    changed: bool,
)
    requires
        call_ensures(Accounts::record_failure, (accounts, id, model, token, failure), changed),
        !old(accounts)@.accounts.contains_key(id@),
    ensures
        !changed,
        final(accounts)@ == old(accounts)@,
{
}

/// A limit keeps an account from serving requests until it ends, and no longer.
pub proof fn limits_end(
    accounts: &mut Accounts,
    id: &str,
    model: &str,
    token: &str,
    failure: &AccountFailure,
    changed: bool,
    until: u64,
    now: u64,
)
    requires
        call_ensures(Accounts::record_failure, (accounts, id, model, token, failure), changed),
        old(accounts)@.accounts.contains_key(id@),
        *failure == AccountFailure::Quota(until) || *failure == AccountFailure::RateLimit(until),
        old(accounts)@.accounts[id@].available_at(model@, now),
    ensures
        final(accounts)@.accounts[id@].available_at(model@, now) <==> until <= now,
{
}

/// Who signs in is there, selected and unhindered but for a quota that was used up before, and is
/// shown so while that lasts.
pub proof fn sign_ins_are_admitted(
    accounts: &mut Accounts,
    credentials: CodexCredentials,
    now: u64,
    r: (),
    id: String,
    other: Seq<char>,
)
    requires
        call_ensures(Accounts::insert_at, (accounts, credentials, now), r),
        call_ensures(CodexCredentials::id, (&credentials,), id),
    ensures
        ({
            let known = old(accounts)@.accounts.contains_key(id@);
            let quota = if known {
                old(accounts)@.accounts[id@].quota_until_ms
            } else {
                0
            };
            let account = final(accounts)@.accounts[id@];
            &&& final(accounts)@.accounts.contains_key(id@)
            &&& final(accounts)@.selected == id@
            &&& account.credentials == Some(credentials@)
            &&& !account.needs_reauth && !account.billing_blocked
            &&& account.unavailable_until_ms == 0
            &&& account.blocked_models.len() == 0
            &&& account.quota_until_ms == quota
            &&& quota > now ==> account.status == "Plan quota reached"@
            &&& quota <= now ==> account.status.len() == 0
            &&& other != id@ ==> final(accounts)@.accounts.contains_key(other) == old(accounts)@.accounts.contains_key(other) && final(accounts)@.accounts[other] == old(accounts)@.accounts[other]
        }),
{
}

/// A saved index stands for the accounts it lists; credentials in its place stand for the one
/// account that they make, selected and unhindered; anything else cannot be read.
pub proof fn saved_accounts_are_decoded(
    index: Option<Accounts>,
    single: Result<CodexCredentials, String>,
    r: Result<Accounts, String>,
    id: String,
)
    requires
        call_ensures(Accounts::decode, (index, single), r),
        single matches Ok(credentials) ==> call_ensures(CodexCredentials::id, (&credentials,), id),
    ensures
        index matches Some(accounts) ==> r == Ok::<Accounts, String>(accounts),
        index is None ==> (single matches Ok(credentials) ==> (r matches Ok(accounts)
            && accounts@.selected == id@ && accounts@.accounts.dom() == set![id@]
            && accounts@.accounts[id@].credentials == Some(credentials@)
            && accounts@.accounts[id@].available_at(id@, 0))),
        index is None ==> (single matches Err(unreadable) ==> r == Err::<Accounts, String>(
            unreadable,
        )),
{
    if index is None && single is Ok {
        assert(r->Ok_0@.accounts.dom() =~= set![id@]);
    }
}

/// The credentials of an account are kept under a key of their own, made of the digest of its id.
pub proof fn records_have_keys(id: &str, key: String)
    requires
        call_ensures(storage::account_credentials_key, (id,), key),
    ensures
        key@ == "https://chatgpt.com/backend-api/codex/accounts/"@ + encoding::base64url(
            encoding::sha256(vstd::utf8::encode_utf8(id@)),
        ),
{
    reveal_strlit("https://chatgpt.com/backend-api/codex");
    reveal_strlit("/accounts/");
    reveal_strlit("https://chatgpt.com/backend-api/codex/accounts/");
    assert("https://chatgpt.com/backend-api/codex"@ + "/accounts/"@
        =~= "https://chatgpt.com/backend-api/codex/accounts/"@);
}

proof fn lemma_unread(order: Seq<Seq<char>>, accounts: AccountsModel, id: Seq<char>)
    ensures
        storage::without_credentials(order, accounts.accounts).contains(id) <==> order.contains(id)
            && accounts.accounts[id].credentials is None,
    decreases order.len(),
{
    let kept = storage::without_credentials(order, accounts.accounts);
    if order.len() > 0 {
        let shorter = order.drop_last();
        let rest = storage::without_credentials(shorter, accounts.accounts);
        lemma_unread(shorter, accounts, id);
        if order.contains(id) {
            let k = order.index_of(id);
            if k < shorter.len() {
                assert(shorter[k] == id);
            }
        }
        if shorter.contains(id) {
            assert(order[shorter.index_of(id)] == id);
        }
        if order.last() == id {
            assert(order[order.len() - 1] == id);
        }
        if rest.contains(id) {
            assert(kept[rest.index_of(id)] == id);
        }
        if kept.contains(id) && !rest.contains(id) {
            let k = kept.index_of(id);
            assert(k < rest.len() ==> rest[k] == id);
        }
        if accounts.accounts[order.last()].credentials is None {
            assert(kept.last() == order.last());
        }
    }
}

/// The records of just the accounts without credentials are read.
pub proof fn missing_credentials_are_read(accounts: &Accounts, r: Vec<String>, id: Seq<char>)
    requires
        call_ensures(Accounts::unread, (accounts,), r),
        accounts@.accounts.dom().finite(),
    ensures
        r.deep_view().contains(id) <==> accounts@.accounts.contains_key(id)
            && accounts@.accounts[id].credentials is None,
{
    id_map::key_order_exists(accounts@.accounts.dom());
    lemma_unread(accounts@.order(), accounts@, id);
    assert(accounts@.accounts.dom().contains(id) <==> accounts@.order().contains(id));
}

/// An account without credentials gets those of its record; where there is none it has to sign in
/// again, and is shown so. One with credentials stays as it is, and so does the selection.
pub proof fn records_complete_accounts(
    accounts: &mut Accounts,
    records: &IdMap<CodexCredentials>,
    r: (),
    id: Seq<char>,
)
    requires
        call_ensures(Accounts::complete, (accounts, records), r),
    ensures
        final(accounts)@.selected == old(accounts)@.selected,
        final(accounts)@.accounts.contains_key(id) == old(accounts)@.accounts.contains_key(id),
        old(accounts)@.accounts.contains_key(id) ==> ({
            let before = old(accounts)@.accounts[id];
            let after = final(accounts)@.accounts[id];
            &&& before.credentials is Some ==> after == before
            &&& before.credentials is None && records@.contains_key(id) ==> after.credentials
                == Some(records@[id]@) && after.needs_reauth == before.needs_reauth && after.status
                == before.status
            &&& before.credentials is None && !records@.contains_key(id) ==> after.credentials
                is None && after.needs_reauth && after.status
                == "Saved credentials are missing. Sign in again"@
            &&& after.quota_until_ms == before.quota_until_ms
            &&& after.unavailable_until_ms == before.unavailable_until_ms
            &&& after.billing_blocked == before.billing_blocked
            &&& after.blocked_models == before.blocked_models
        }),
{
}

/// A save is compared with the accounts of the index in the store. An index that cannot be read is
/// an error, unless all accounts are gone.
pub proof fn saves_compare_with_the_index(
    read: Option<Result<Accounts, String>>,
    current: &Accounts,
    r: Result<Accounts, String>,
)
    requires
        call_ensures(storage::previous_accounts, (read, current), r),
    ensures
        read is None ==> (r matches Ok(previous) && previous@.accounts.dom() == Set::<
            Seq<char>,
        >::empty()),
        read matches Some(Ok(previous)) ==> r == Ok::<Accounts, String>(previous),
        read matches Some(Err(unreadable)) ==> (if current@.accounts.dom() == Set::<
            Seq<char>,
        >::empty() {
            r matches Ok(previous) && previous@.accounts.dom() == Set::<Seq<char>>::empty()
        } else {
            r == Err::<Accounts, String>(unreadable)
        }),
{
    assert(AccountsModel::none().accounts.dom() =~= Set::<Seq<char>>::empty());
}

proof fn lemma_writes_hold_credentials(
    order: Seq<Seq<char>>,
    accounts: AccountsModel,
    step: StepModel,
)
    requires
        storage::record_writes(order, accounts.accounts).contains(step),
    ensures
        exists|id: Seq<char>| #[trigger]
            order.contains(id) && (step matches StepModel::WriteRecord { key, credentials } && key
                == storage::record_key(id) && accounts.accounts[id].credentials == Some(
                credentials,
            )),
    decreases order.len(),
{
    let writes = storage::record_writes(order, accounts.accounts);
    if order.len() > 0 {
        let shorter = order.drop_last();
        let rest = storage::record_writes(shorter, accounts.accounts);
        let k = writes.index_of(step);
        if k < rest.len() {
            assert(rest[k] == step);
            lemma_writes_hold_credentials(shorter, accounts, step);
            let id = choose|id: Seq<char>| #[trigger]
                shorter.contains(id) && (step matches StepModel::WriteRecord { key, credentials }
                    && key == storage::record_key(id) && accounts.accounts[id].credentials == Some(
                    credentials,
                ));
            assert(order[shorter.index_of(id)] == id);
            assert(order.contains(id));
        } else {
            assert(order[order.len() - 1] == order.last());
            assert(order.contains(order.last()));
        }
    }
}

proof fn lemma_deletes_concern_removed(
    order: Seq<Seq<char>>,
    accounts: AccountsModel,
    step: StepModel,
)
    requires
        storage::record_deletes(order, accounts.accounts).contains(step),
    ensures
        exists|id: Seq<char>| #[trigger]
            order.contains(id) && !accounts.accounts.contains_key(id) && (step
                matches StepModel::DeleteRecord { key } && key == storage::record_key(id)),
    decreases order.len(),
{
    let deletes = storage::record_deletes(order, accounts.accounts);
    if order.len() > 0 {
        let shorter = order.drop_last();
        let rest = storage::record_deletes(shorter, accounts.accounts);
        let k = deletes.index_of(step);
        if k < rest.len() {
            assert(rest[k] == step);
            lemma_deletes_concern_removed(shorter, accounts, step);
            let id = choose|id: Seq<char>| #[trigger]
                shorter.contains(id) && !accounts.accounts.contains_key(id) && (step
                    matches StepModel::DeleteRecord { key } && key == storage::record_key(id));
            assert(order[shorter.index_of(id)] == id);
            assert(order.contains(id));
        } else {
            assert(order[order.len() - 1] == order.last());
            assert(order.contains(order.last()));
        }
    }
}

/// A save writes the credentials of accounts under their keys and nowhere else: the index holds
/// none, and is otherwise what the accounts are. What is deleted is the record of an account that
/// was saved and is gone, or the index where no account is left.
pub proof fn secrets_stay_in_records(
    accounts: &Accounts,
    previous: &Accounts,
    steps: Vec<StoreStep>,
    i: int,
)
    requires
        call_ensures(storage::save_plan, (accounts, previous), steps),
        accounts@.accounts.dom().finite(),
        previous@.accounts.dom().finite(),
        0 <= i < steps@.len(),
    ensures
        steps@[i] matches StoreStep::WriteRecord { key, credentials } ==> exists|id: Seq<char>|
            #[trigger]
            accounts@.accounts.contains_key(id) && key@ == storage::record_key(id)
                && accounts@.accounts[id].credentials == Some(credentials@),
        steps@[i] matches StoreStep::WriteIndex { index } ==> index@.selected == accounts@.selected
            && index@.accounts.dom() == accounts@.accounts.dom() && forall|id: Seq<char>|
            #[trigger]
            index@.accounts.contains_key(id) ==> index@.accounts[id].credentials is None
                && index@.accounts[id].needs_reauth == accounts@.accounts[id].needs_reauth
                && index@.accounts[id].billing_blocked == accounts@.accounts[id].billing_blocked
                && index@.accounts[id].quota_until_ms == accounts@.accounts[id].quota_until_ms
                && index@.accounts[id].unavailable_until_ms
                == accounts@.accounts[id].unavailable_until_ms && index@.accounts[id].blocked_models
                == accounts@.accounts[id].blocked_models && index@.accounts[id].status
                == accounts@.accounts[id].status,
        steps@[i] matches StoreStep::DeleteRecord { key } ==> exists|id: Seq<char>| #[trigger]
            previous@.accounts.contains_key(id) && !accounts@.accounts.contains_key(id) && key@
                == storage::record_key(id),
        steps@[i] is DeleteIndex ==> accounts@.accounts.dom() == Set::<Seq<char>>::empty(),
{
    let all = steps.deep_view();
    assert(all.len() == steps@.len());
    assert(all[i] == steps@[i]@);
    id_map::key_order_exists(accounts@.accounts.dom());
    id_map::key_order_exists(previous@.accounts.dom());
    let order = accounts@.order();
    let before = previous@.order();
    let writes = storage::record_writes(order, accounts@.accounts);
    let deletes = storage::record_deletes(before, accounts@.accounts);
    assert(all == writes.push(storage::publication(accounts@)) + deletes);
    if i < writes.len() {
        assert(writes.contains(all[i])) by {
            assert(writes[i] == all[i]);
        }
        lemma_writes_hold_credentials(order, accounts@, all[i]);
        let id = choose|id: Seq<char>| #[trigger]
            order.contains(id) && (all[i] matches StepModel::WriteRecord { key, credentials } && key
                == storage::record_key(id) && accounts@.accounts[id].credentials == Some(
                credentials,
            ));
        assert(accounts@.accounts.dom().contains(id));
        assert(accounts@.accounts.contains_key(id));
    } else if i == writes.len() {
        assert(all[i] == storage::publication(accounts@));
        assert(storage::index_of(accounts@).accounts.dom() =~= accounts@.accounts.dom());
        if order.len() == 0 {
            assert(accounts@.accounts.dom() =~= Set::<Seq<char>>::empty());
        }
    } else {
        let k = i - writes.len() - 1;
        assert(deletes.contains(all[i])) by {
            assert(deletes[k] == all[i]);
        }
        lemma_deletes_concern_removed(before, accounts@, all[i]);
        let id = choose|id: Seq<char>| #[trigger]
            before.contains(id) && !accounts@.accounts.contains_key(id) && (all[i]
                matches StepModel::DeleteRecord { key } && key == storage::record_key(id));
        assert(previous@.accounts.dom().contains(id));
        assert(previous@.accounts.contains_key(id));
    }
}

proof fn lemma_delete_is_there(
    order: Seq<Seq<char>>,
    accounts: AccountsModel,
    id: Seq<char>,
)
    requires
        order.contains(id),
        !accounts.accounts.contains_key(id),
    ensures
        storage::record_deletes(order, accounts.accounts).contains(
            StepModel::DeleteRecord { key: storage::record_key(id) },
        ),
    decreases order.len(),
{
    let deletes = storage::record_deletes(order, accounts.accounts);
    let step = StepModel::DeleteRecord { key: storage::record_key(id) };
    if order.len() > 0 {
        let shorter = order.drop_last();
        let rest = storage::record_deletes(shorter, accounts.accounts);
        if order.last() == id {
            assert(deletes.last() == step);
        } else {
            let k = order.index_of(id);
            assert(shorter[k] == id);
            lemma_delete_is_there(shorter, accounts, id);
            assert(deletes[rest.index_of(step)] == step);
        }
    }
}

/// The record of an account that was saved and is gone is deleted.
pub proof fn removed_accounts_are_deleted(
    accounts: &Accounts,
    previous: &Accounts,
    steps: Vec<StoreStep>,
    id: Seq<char>,
)
    requires
        call_ensures(storage::save_plan, (accounts, previous), steps),
        previous@.accounts.dom().finite(),
        previous@.accounts.contains_key(id),
        !accounts@.accounts.contains_key(id),
    ensures
        exists|i: int|
            0 <= i < steps@.len() && (#[trigger] steps@[i] matches StoreStep::DeleteRecord { key }
                && key@ == storage::record_key(id)),
{
    let all = steps.deep_view();
    assert(all.len() == steps@.len());
    id_map::key_order_exists(previous@.accounts.dom());
    assert(previous@.accounts.dom().contains(id));
    lemma_delete_is_there(previous@.order(), accounts@, id);
    let writes = storage::record_writes(accounts@.order(), accounts@.accounts);
    let deletes = storage::record_deletes(previous@.order(), accounts@.accounts);
    let step = StepModel::DeleteRecord { key: storage::record_key(id) };
    let k = deletes.index_of(step) + writes.len() + 1;
    assert(all[k] == step);
    assert(all[k] == steps@[k]@);
}

/// At the start there are no accounts, the known models are on offer, and the saved accounts are
/// being loaded.
pub proof fn states_start_empty<T>(task: T, r: State<T>, known: Vec<ChatGptModel>)
    requires
        call_ensures(State::<T>::new, (task,), r),
        call_ensures(ChatGptModel::all, (), known),
    ensures
        r@.accounts.accounts.dom() == Set::<Seq<char>>::empty(),
        r.accounts.selected@.len() == 0,
        r.load_task == Some(task),
        r.sign_in_state is Idle,
        r.client_version@ == "0.0.0"@,
        r@.available_models == known.deep_view(),
        r.configured_policy is None && r.persistence_task is None,
        r.last_auth_error is None && r.last_model_catalog_error is None,
        r@.refresh_tasks.dom() == Set::<Seq<char>>::empty(),
        r@.usage_requests.dom() == Set::<Seq<char>>::empty(),
        r.auth_generation == 0,
{
    assert(r@.accounts.accounts.dom() =~= Set::<Seq<char>>::empty());
    assert(r@.refresh_tasks.dom() =~= Set::<Seq<char>>::empty());
    assert(r@.usage_requests.dom() =~= Set::<Seq<char>>::empty());
}

/// Accounts that are loaded are taken in if nobody signed in or out before, and the catalog is then
/// asked for if any of them is signed in; where they cannot be loaded, that is told.
pub proof fn loaded_accounts_are_taken_in<T>(
    state: &mut State<T>,
    loaded: Option<Accounts>,
    effects: Effects,
)
    requires
        call_ensures(State::<T>::apply_loaded, (state, loaded), effects),
    ensures
        old(state).auth_generation != 0 ==> final(state)@ == old(state)@
            && !effects.refresh_catalog,
        old(state).auth_generation == 0 ==> (loaded matches Some(accounts) ==> final(state)@.accounts == accounts@ && final(state)@.auth_generation != 0 && final(state)@.last_auth_error == old(state)@.last_auth_error),
        old(state).auth_generation == 0 && loaded is None ==> final(state)@.accounts == old(state)@.accounts && final(state)@.last_auth_error == Some(
            "Failed to load saved ChatGPT accounts."@,
        ),
        old(state).auth_generation == 0 ==> effects.refresh_catalog == final(state)@.accounts.authenticated(),
        !effects.notify && !effects.persist,
        final(state)@.load_task == old(state)@.load_task,
{
}

/// Once the accounts are loaded, nothing waits for them any more, and observers are told.
pub proof fn loading_ends<T>(state: &mut State<T>, effects: Effects)
    requires
        call_ensures(State::<T>::finish_load, (state,), effects),
    ensures
        final(state)@.load_task is None,
        final(state)@.accounts == old(state)@.accounts,
        final(state)@.available_models == old(state)@.available_models,
        effects.notify && !effects.persist && !effects.refresh_catalog,
{
}

/// What is shown of an account: its e-mail address, else its id; whether it is selected; and first
/// that it has to sign in again, then that it cannot be billed, then that its quota is used up,
/// then what happened last, but for limits that have ended.
pub proof fn accounts_are_shown<T>(state: &State<T>, now: u64, r: Vec<AccountEntry>, i: int)
    requires
        call_ensures(State::<T>::accounts_at, (state, now), r),
        state@.accounts.accounts.dom().finite(),
        0 <= i < r@.len(),
    ensures
        ({
            let id = r@[i].id@;
            let account = state@.accounts.accounts[id];
            let status = r@[i].status@;
            &&& state@.accounts.accounts.contains_key(id)
            &&& r@[i].selected == (id == state.accounts.selected@)
            &&& (account.credentials matches Some(credentials) && credentials.email is Some)
                ==> r@[i].label@ == account.credentials->0.email->0
            &&& !(account.credentials matches Some(credentials) && credentials.email is Some)
                ==> r@[i].label@ == id
            &&& account.needs_reauth ==> status == "Sign in again"@
            &&& !account.needs_reauth && account.billing_blocked ==> status
                == "Billing requires attention"@
            &&& !account.needs_reauth && !account.billing_blocked && account.quota_until_ms > now
                ==> status == "Plan quota reached"@
            &&& !account.needs_reauth && !account.billing_blocked && account.quota_until_ms <= now
                ==> {
                &&& account.status == "Plan quota reached"@ ==> status.len() == 0
                &&& account.status == "Rate limited"@ && account.unavailable_until_ms <= now
                    ==> status.len() == 0
                &&& account.status != "Plan quota reached"@ && (account.status != "Rate limited"@
                    || account.unavailable_until_ms > now) ==> status == account.status
            }
        }),
        r@.len() == state@.accounts.order().len(),
        forall|j: int, k: int|
            0 <= j < k < r@.len() ==> text::precedes(
                (#[trigger] r@[j]).id@,
                (#[trigger] r@[k]).id@,
            ),
{
    let shown = r.deep_view();
    let order = state@.accounts.order();
    assert(shown.len() == r@.len());
    id_map::key_order_exists(state@.accounts.accounts.dom());
    assert(shown[i] == r@[i].deep_view());
    assert(order.contains(order[i]));
    assert(state@.accounts.accounts.dom().contains(order[i]));
    assert forall|j: int, k: int| 0 <= j < k < r@.len() implies text::precedes(
        (#[trigger] r@[j]).id@,
        (#[trigger] r@[k]).id@,
    ) by {
        assert(shown[j] == r@[j].deep_view());
        assert(shown[k] == r@[k].deep_view());
        assert(shown[j].id == order[j] && shown[k].id == order[k]);
    }
}

/// Every account is shown.
pub proof fn no_account_is_hidden<T>(
    state: &State<T>,
    now: u64,
    r: Vec<AccountEntry>,
    id: Seq<char>,
)
    requires
        call_ensures(State::<T>::accounts_at, (state, now), r),
        state@.accounts.accounts.dom().finite(),
        state@.accounts.accounts.contains_key(id),
    ensures
        exists|i: int| 0 <= i < r@.len() && (#[trigger] r@[i]).id@ == id,
{
    let shown = r.deep_view();
    let order = state@.accounts.order();
    id_map::key_order_exists(state@.accounts.accounts.dom());
    assert(state@.accounts.accounts.dom().contains(id));
    let i = order.index_of(id);
    assert(shown.len() == r@.len());
    assert(shown[i] == r@[i].deep_view());
    assert(r@[i].id@ == id);
}

/// The e-mail address is that of the selected account.
pub proof fn email_is_that_of_the_selection<T>(state: &State<T>, r: Option<&str>)
    requires
        call_ensures(State::<T>::email, (state,), r),
    ensures
        ({
            let selected = state.accounts.selected@;
            let known = state@.accounts.accounts.contains_key(selected)
                && state@.accounts.accounts[selected].credentials is Some;
            &&& !known ==> r is None
            &&& known ==> match state@.accounts.accounts[selected].credentials->0.email {
                Some(email) => r matches Some(shown) && shown@ == email,
                None => r is None,
            }
        }),
{
}

/// An account that is there can be selected; the models are then asked for anew, and answers to
/// earlier requests for them no longer count. One that is not there cannot.
pub proof fn known_accounts_can_be_selected<T>(
    state: &mut State<T>,
    id: String,
    effects: Effects,
    known: Vec<ChatGptModel>,
)
    requires
        call_ensures(State::<T>::select_account, (state, id), effects),
        call_ensures(ChatGptModel::all, (), known),
    ensures
        old(state)@.accounts.accounts.contains_key(id@) ==> {
            &&& final(state)@.accounts.selected == id@
            &&& final(state)@.accounts.accounts == old(state)@.accounts.accounts
            &&& final(state)@.available_models == known.deep_view()
            &&& final(state)@.last_model_catalog_error is None
            &&& final(state)@.model_catalog_generation != old(state)@.model_catalog_generation
            &&& effects.notify && effects.persist && effects.refresh_catalog
        },
        !old(state)@.accounts.accounts.contains_key(id@) ==> final(state)@ == old(state)@
            && !effects.notify && !effects.persist && !effects.refresh_catalog,
{
}

/// The user can end the wait for a quota, unless the account has to sign in again. It then shows
/// no lack of quota, and all else of it stays.
pub proof fn quotas_can_be_reset<T>(state: &mut State<T>, id: &str, effects: Effects)
    requires
        call_ensures(State::<T>::reset_account_availability, (state, id), effects),
    ensures
        ({
            let before = old(state)@.accounts.accounts[id@];
            let after = final(state)@.accounts.accounts[id@];
            let can = old(state)@.accounts.accounts.contains_key(id@) && !before.needs_reauth;
            &&& !can ==> final(state)@ == old(state)@ && !effects.notify && !effects.persist
            &&& can ==> {
                &&& after.quota_until_ms == 0
                &&& before.status == "Plan quota reached"@ ==> after.status.len() == 0
                &&& before.status != "Plan quota reached"@ ==> after.status == before.status
                &&& after.credentials == before.credentials
                &&& after.unavailable_until_ms == before.unavailable_until_ms
                &&& after.billing_blocked == before.billing_blocked
                &&& after.blocked_models == before.blocked_models
                &&& !after.needs_reauth
                &&& final(state)@.accounts.selected == old(state)@.accounts.selected
                &&& effects.notify && effects.persist && !effects.refresh_catalog
            }
        }),
{
}

/// A removed account is gone with all work for it. Where it was selected, the first of the others
/// is, and its models are asked for; where none is left, nothing is selected. The other accounts
/// stay as they are.
pub proof fn removed_accounts_are_gone<T>(
    state: &mut State<T>,
    id: &str,
    effects: Effects,
    other: Seq<char>,
)
    requires
        call_ensures(State::<T>::remove_account, (state, id), effects),
        old(state)@.accounts.accounts.dom().finite(),
        other != id@,
    ensures
        ({
            let left = final(state)@.accounts.accounts;
            let selected = final(state)@.accounts.selected;
            &&& !left.contains_key(id@)
            &&& !final(state)@.refresh_tasks.contains_key(id@)
            &&& !final(state)@.usage_requests.contains_key(id@)
            &&& left.contains_key(other) == old(state)@.accounts.accounts.contains_key(other)
            &&& left.contains_key(other) ==> left[other] == old(state)@.accounts.accounts[other]
            &&& final(state)@.refresh_tasks.contains_key(other) == old(state)@.refresh_tasks.contains_key(other)
            &&& old(state)@.accounts.selected != id@ ==> selected == old(state)@.accounts.selected
                && final(state)@.available_models == old(state)@.available_models
                && !effects.refresh_catalog
            &&& old(state)@.accounts.selected == id@ && left.contains_key(other)
                ==> left.contains_key(selected) && (selected == other || text::precedes(
                selected,
                other,
            ))
            &&& old(state)@.accounts.selected == id@ && left.dom() == Set::<Seq<char>>::empty()
                ==> selected.len() == 0
            &&& old(state)@.accounts.selected == id@ ==> effects.refresh_catalog == final(state)@.accounts.authenticated() && final(state)@.model_catalog_generation != old(state)@.model_catalog_generation
            &&& final(state)@.auth_generation != old(state)@.auth_generation
            &&& effects.notify && effects.persist
        }),
{
    let left = old(state)@.accounts.accounts.remove(id@);
    let order = id_map::key_order(left.dom());
    id_map::key_order_exists(left.dom());
    if left.contains_key(other) {
        assert(left.dom().contains(other));
        let k = order.index_of(other);
        assert(order[k] == other);
        assert(order.contains(order[0]));
        assert(left.dom().contains(order[0]));
        if k > 0 {
            assert(text::precedes(order[0], order[k]));
        }
    }
    if left.dom() == Set::<Seq<char>>::empty() {
        if order.len() > 0 {
            assert(order.contains(order[0]));
            assert(left.dom().contains(order[0]));
        }
    }
}

/// A sign-out leaves no account, no work and no error behind, and the known models on offer. What
/// was asked for before no longer counts.
pub proof fn sign_outs_leave_nothing<T>(
    state: &mut State<T>,
    effects: Effects,
    known: Vec<ChatGptModel>,
)
    requires
        call_ensures(State::<T>::sign_out, (state,), effects),
        call_ensures(ChatGptModel::all, (), known),
        old(state).auth_generation < u64::MAX,
    ensures
        final(state)@.accounts.accounts.dom() == Set::<Seq<char>>::empty(),
        final(state)@.accounts.selected.len() == 0,
        final(state)@.refresh_tasks.dom() == Set::<Seq<char>>::empty(),
        final(state)@.usage_requests.dom() == Set::<Seq<char>>::empty(),
        final(state)@.sign_in_state is Idle,
        final(state)@.last_auth_error is None && final(state)@.last_model_catalog_error is None,
        final(state)@.available_models == known.deep_view(),
        final(state)@.auth_generation > old(state)@.auth_generation,
        final(state)@.model_catalog_generation != old(state)@.model_catalog_generation,
        effects.notify && effects.persist && !effects.refresh_catalog,
{
    assert(final(state)@.accounts.accounts.dom() =~= Set::<Seq<char>>::empty());
    assert(final(state)@.refresh_tasks.dom() =~= Set::<Seq<char>>::empty());
    assert(final(state)@.usage_requests.dom() =~= Set::<Seq<char>>::empty());
}

/// The catalog that was asked for last is offered, and with it no error; where it could not be had,
/// that is told and the models stay. An answer to an earlier request does nothing.
pub proof fn last_catalog_is_offered<T>(
    state: &mut State<T>,
    generation: u64,
    result: Result<Vec<ChatGptModel>, String>,
    effects: Effects,
)
    requires
        call_ensures(State::<T>::finish_model_catalog_refresh, (state, generation, result), effects),
    ensures
        old(state).model_catalog_generation != generation ==> final(state)@ == old(state)@
            && !effects.notify,
        old(state).model_catalog_generation == generation ==> {
            &&& result matches Ok(offered) ==> final(state)@.available_models == offered.deep_view()
                && final(state)@.last_model_catalog_error is None
            &&& result matches Err(message) ==> final(state)@.available_models == old(state)@.available_models && final(state)@.last_model_catalog_error == Some(
                "Failed to load models: "@ + message@,
            )
            &&& effects.notify
        },
        final(state)@.accounts == old(state)@.accounts,
        !effects.persist && !effects.refresh_catalog,
{
}

/// Every request for the catalog has a number other than the one before, and is the one that
/// counts.
pub proof fn catalog_requests_are_numbered<T>(state: &mut State<T>, generation: u64)
    requires
        call_ensures(State::<T>::begin_model_catalog_refresh, (state,), generation),
    ensures
        generation != old(state).model_catalog_generation,
        final(state)@.model_catalog_generation == generation,
        final(state)@.available_models == old(state)@.available_models,
        final(state)@.accounts == old(state)@.accounts,
{
}

/// A save takes the accounts as they are, and waits for the one before it; one that fails is told.
pub proof fn saves_come_in_turn<T>(
    begun: &mut State<T>,
    r: (Option<T>, Accounts),
    kept: &mut State<T>,
    task: T,
    a: (),
    failed: &mut State<T>,
    effects: Effects,
)
    requires
        call_ensures(State::<T>::begin_persist, (begun,), r),
        call_ensures(State::<T>::keep_persist, (kept, task), a),
        call_ensures(State::<T>::fail_persist, (failed,), effects),
    ensures
        r.0 == old(begun).persistence_task,
        r.1@ == old(begun)@.accounts,
        final(begun)@.accounts == old(begun)@.accounts,
        final(kept)@.persistence_task == Some(task),
        final(failed)@.last_auth_error == Some(
            "Failed to save ChatGPT accounts. Please try again."@,
        ),
        effects.notify && !effects.persist,
{
}

/// A sign-in starts where none is under way, and forgets the last error; while one is under way it
/// is not replaced. It can be cancelled as long as the user is asked.
pub proof fn sign_ins_start_and_are_cancelled<T>(
    started: &mut State<T>,
    task: T,
    effects: Effects,
    cancelled: &mut State<T>,
    after: Effects,
    state: &State<T>,
    under_way: bool,
    cancellable: bool,
)
    requires
        call_ensures(State::<T>::sign_in, (started, task), effects),
        call_ensures(State::<T>::cancel_sign_in, (cancelled,), after),
        call_ensures(State::<T>::is_signing_in, (state,), under_way),
        call_ensures(State::<T>::is_sign_in_cancellable, (state,), cancellable),
    ensures
        old(started).sign_in_state is Idle ==> final(started)@.sign_in_state
            == SignInState::Authorizing(task) && final(started)@.last_auth_error is None && final(started)@.accounts == old(started)@.accounts && effects.notify,
        !(old(started).sign_in_state is Idle) ==> final(started)@ == old(started)@
            && !effects.notify,
        old(cancelled).sign_in_state is Authorizing ==> final(cancelled)@.sign_in_state is Idle
            && final(cancelled)@.accounts == old(cancelled)@.accounts && after.notify,
        !(old(cancelled).sign_in_state is Authorizing) ==> final(cancelled)@ == old(cancelled)@
            && !after.notify,
        under_way == !(state.sign_in_state is Idle),
        cancellable == (state.sign_in_state is Authorizing),
{
}

/// A sign-in goes on as follows. Tokens make an account, for which no earlier work counts, and which
/// has to be saved; once it is saved the models are asked for; and after that, or where anything
/// went wrong, it is over, with the reason.
pub proof fn sign_ins_go_on<T>(
    state: &mut State<T>,
    event: SignInEvent,
    now: u64,
    r: (SignInAction, Effects),
    accounts: &mut Accounts,
    credentials: CodexCredentials,
    inserted: (),
    id: String,
)
    requires
        call_ensures(State::<T>::sign_in_step_at, (state, event, now), r),
        call_ensures(Accounts::insert_at, (accounts, credentials, now), inserted),
        old(accounts)@ == old(state)@.accounts,
        call_ensures(CodexCredentials::id, (&credentials,), id),
    ensures
        event == SignInEvent::Authorized(credentials) ==> {
            &&& final(state)@.accounts == final(accounts)@
            &&& !final(state)@.refresh_tasks.contains_key(id@)
            &&& !final(state)@.usage_requests.contains_key(id@)
            &&& final(state)@.auth_generation != old(state)@.auth_generation
            &&& old(state).sign_in_state matches SignInState::Authorizing(task) ==> final(state)@.sign_in_state == SignInState::PersistingCredentials(task)
            &&& r.0 == SignInAction::AwaitSave
            &&& r.1.persist
            &&& r.1.notify == (old(state).sign_in_state is Authorizing)
        },
        event is Saved ==> !r.1.notify,
        !(event is Saved) ==> !r.1.refresh_catalog,
        event is Saved ==> r.0 == SignInAction::AwaitCatalog && r.1.refresh_catalog && final(state)@.last_auth_error is None && final(state)@.sign_in_state == old(state)@.sign_in_state
            && final(state)@.auth_generation != old(state)@.auth_generation,
        event is CatalogAsked ==> r.0 == SignInAction::Finish && final(state)@.sign_in_state is Idle
            && final(state)@.last_auth_error == old(state)@.last_auth_error && r.1.notify,
        event is Refused ==> r.0 == SignInAction::Finish && final(state)@.sign_in_state is Idle
            && final(state)@.last_auth_error == Some("Sign-in failed. Please try again."@)
            && r.1.notify,
        event is NotSaved ==> r.0 == SignInAction::Finish && final(state)@.sign_in_state is Idle
            && final(state)@.last_auth_error == Some(
            "Failed to save credentials. Please try again."@,
        ) && r.1.notify,
        !(event is Authorized) ==> final(state)@.accounts == old(state)@.accounts && !r.1.persist,
{
}

/// Once the user agreed, a sign-in is no longer cancelled.
pub proof fn agreed_sign_ins_are_not_cancelled<T>(state: &mut State<T>, effects: Effects)
    requires
        call_ensures(State::<T>::begin_persisting_credentials, (state,), effects),
    ensures
        old(state).sign_in_state matches SignInState::Authorizing(task) ==> final(state)@.sign_in_state == SignInState::PersistingCredentials(task) && effects.notify,
        !(old(state).sign_in_state is Authorizing) ==> final(state)@ == old(state)@
            && !effects.notify,
        final(state)@.accounts == old(state)@.accounts,
{
}

/// Credentials for a request come from the renewal that is under way, else are those at hand if
/// more than five minutes are left of them and they were not refused, else have to be renewed.
/// There are none of an account that is not there or has to sign in again.
pub proof fn credentials_come_from_somewhere<T>(
    state: &State<T>,
    id: &str,
    rejected: Option<&str>,
    now: u64,
    r: CredentialsSource<'_, T>,
)
    requires
        call_ensures(State::<T>::credentials_source_at, (state, id, rejected, now), r),
    ensures
        ({
            let account = state@.accounts.accounts[id@];
            let there = state@.accounts.accounts.contains_key(id@) && !account.needs_reauth
                && account.credentials is Some;
            let held = account.credentials->0;
            let refused = rejected matches Some(token) && token@ == held.access_token;
            &&& !there ==> r is Missing
            &&& there && state@.refresh_tasks.contains_key(id@) ==> (r
                matches CredentialsSource::Join(task) && *task == state@.refresh_tasks[id@])
            &&& there && !state@.refresh_tasks.contains_key(id@) && held.expires_at_ms - now
                > 300_000 && !refused ==> (r matches CredentialsSource::Ready(credentials)
                && credentials@ == held)
            &&& there && !state@.refresh_tasks.contains_key(id@) && (held.expires_at_ms - now
                <= 300_000 || refused) ==> (r matches CredentialsSource::Renew(credentials)
                && credentials@ == held)
        }),
{
}

/// A renewal that is started is the one that others wait for.
pub proof fn started_renewals_are_kept<T>(state: &mut State<T>, id: String, task: T, r: ())
    requires
        call_ensures(State::<T>::keep_refresh, (state, id, task), r),
    ensures
        final(state)@.refresh_tasks.contains_key(id@),
        final(state)@.refresh_tasks[id@] == task,
        final(state)@.accounts == old(state)@.accounts,
{
}

/// What the renewed credentials leave open stays as it was.
pub open spec fn renewed_from(
    after: CredentialsModel,
    renewed: CredentialsModel,
    used: CredentialsModel,
) -> bool {
    &&& after.access_token == renewed.access_token
    &&& after.refresh_token == renewed.refresh_token
    &&& after.expires_at_ms == renewed.expires_at_ms
    &&& renewed.account_id is Some ==> after.account_id == renewed.account_id
    &&& renewed.account_id is None ==> after.account_id == used.account_id
    &&& renewed.email is Some ==> after.email == renewed.email
    &&& renewed.email is None ==> after.email == used.email
    &&& renewed.scopes.len() > 0 ==> after.scopes == renewed.scopes
    &&& renewed.scopes.len() == 0 ==> after.scopes == used.scopes
}

/// A renewal counts only for an account that still has the tokens it started from. It then gives
/// the account its new tokens, unless they belong to another account: that one, and one whose
/// renewal has failed for good, has to sign in again. A failure that may pass changes nothing of
/// the account. Whoever waits gets the new credentials, or the reason.
pub proof fn renewals_are_taken_in<T>(
    state: &mut State<T>,
    id: &str,
    used: &CodexCredentials,
    result: Result<CodexCredentials, RefreshError>,
    r: (Result<CodexCredentials, String>, Effects),
)
    requires
        call_ensures(State::<T>::finish_refresh, (state, id, used, result), r),
    ensures
        ({
            let before = old(state)@.accounts.accounts[id@];
            let after = final(state)@.accounts.accounts[id@];
            let there = old(state)@.accounts.accounts.contains_key(id@);
            let same = before.credentials matches Some(held) && held.access_token
                == used.access_token@ && held.refresh_token == used.refresh_token@;
            let counts = there && same;
            &&& !there ==> (r.0 matches Err(message) && message@ == "Account was removed"@)
            &&& there && !same ==> (r.0 matches Err(message) && message@
                == "Account changed during token refresh"@)
            &&& !counts ==> final(state)@ == old(state)@ && !r.1.persist && !r.1.notify
            &&& counts ==> !final(state)@.refresh_tasks.contains_key(id@)
            &&& counts ==> (result matches Err(RefreshError::Fatal(reason)) ==> after.needs_reauth
                && after.status == "Sign in again"@ && after.credentials == before.credentials
                && final(state)@.last_auth_error == Some(
                "Your session has expired. Please sign in again."@,
            ) && (r.0 matches Err(message) && message@ == reason@) && r.1.persist && r.1.notify)
            &&& counts ==> (result matches Err(RefreshError::Transient(reason)) ==> final(state)@.accounts == old(state)@.accounts && final(state)@.last_auth_error == old(state)@.last_auth_error && (r.0 matches Err(message) && message@ == reason@)
                && !r.1.persist && !r.1.notify)
            &&& counts ==> (result matches Ok(renewed) ==> ({
                let other = renewed.account_id matches Some(new) && used.account_id matches Some(
                    known,
                ) && new@ != known@;
                &&& other ==> after.needs_reauth && after.credentials == before.credentials
                    && after.status == "Account changed during refresh. Sign in again"@ && (r.0
                    matches Err(message) && message@
                    == "Token refresh returned a different ChatGPT account"@) && r.1.persist
                    && !r.1.notify
                &&& !other ==> after.credentials is Some && renewed_from(
                    after.credentials->0,
                    renewed@,
                    used@,
                ) && after.needs_reauth == before.needs_reauth && after.status == before.status
                    && (r.0 matches Ok(fresh) && fresh@ == after.credentials->0) && r.1.persist
                    && r.1.notify
            }))
            &&& counts ==> after.quota_until_ms == before.quota_until_ms
                && after.unavailable_until_ms == before.unavailable_until_ms
                && after.billing_blocked == before.billing_blocked && after.blocked_models
                == before.blocked_models
            &&& final(state)@.accounts.selected == old(state)@.accounts.selected
            &&& !r.1.refresh_catalog
        }),
{
}

/// A failure of an account is recorded in the state as in the accounts, and has to be saved and
/// told where it changed them.
pub proof fn failures_are_recorded<T>(
    state: &mut State<T>,
    id: &str,
    model: &str,
    token: &str,
    failure: &AccountFailure,
    effects: Effects,
    accounts: &mut Accounts,
    changed: bool,
)
    requires
        call_ensures(State::<T>::record_account_failure, (state, id, model, token, failure), effects),
        call_ensures(Accounts::record_failure, (accounts, id, model, token, failure), changed),
        old(accounts)@ == old(state)@.accounts,
    ensures
        final(state)@.accounts == final(accounts)@,
        effects.persist == changed && effects.notify == changed && !effects.refresh_catalog,
        final(state)@.refresh_tasks == old(state)@.refresh_tasks,
        final(state)@.sign_in_state == old(state)@.sign_in_state,
        final(state)@.available_models == old(state)@.available_models,
{
}

/// What went wrong last is told.
pub proof fn last_errors_are_told<T>(
    state: &State<T>,
    auth: Option<String>,
    catalog: Option<String>,
)
    requires
        call_ensures(State::<T>::last_auth_error, (state,), auth),
        call_ensures(State::<T>::model_catalog_error, (state,), catalog),
    ensures
        auth.deep_view() == state.last_auth_error.deep_view(),
        catalog.deep_view() == state.last_model_catalog_error.deep_view(),
{
}

/// What a store keeps under other keys is left alone by a save.
pub proof fn other_entries_are_left_alone(
    store: Map<Seq<char>, Entry>,
    accounts: &Accounts,
    previous: &Accounts,
    steps: Vec<StoreStep>,
    count: int,
    key: Seq<char>,
)
    requires
        call_ensures(storage::save_plan, (accounts, previous), steps),
        accounts@.accounts.dom().finite(),
        previous@.accounts.dom().finite(),
        0 <= count <= steps@.len(),
        key != "https://chatgpt.com/backend-api/codex"@,
        forall|id: Seq<char>| #[trigger]
            accounts@.accounts.contains_key(id) ==> storage::record_key(id) != key,
        forall|id: Seq<char>| #[trigger]
            previous@.accounts.contains_key(id) ==> storage::record_key(id) != key,
    ensures
        ({
            let after = storage::performed(store, steps.deep_view().take(count));
            after.contains_key(key) == store.contains_key(key) && (store.contains_key(key)
                ==> after[key] == store[key])
        }),
    decreases count,
{
    let all = steps.deep_view();
    assert(all.len() == steps@.len());
    if count > 0 {
        other_entries_are_left_alone(store, accounts, previous, steps, count - 1, key);
        assert(all.take(count).drop_last() =~= all.take(count - 1));
        assert(all.take(count).last() == all[count - 1]);
        assert(all[count - 1] == steps@[count - 1]@);
        secrets_stay_in_records(accounts, previous, steps, count - 1);
    } else {
        assert(all.take(0) =~= Seq::<StepModel>::empty());
    }
}

} // verus!
