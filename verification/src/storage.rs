//! How the accounts are kept in a credential store: one record for the credentials of each
//! account, and an index of the accounts without them.
use crate::accounts;
use crate::accounts::{Account, AccountModel, Accounts, AccountsModel};
use crate::credentials::{CodexCredentials, CredentialsModel};
use crate::encoding;
use crate::id_map;
use crate::id_map::IdMap;
use crate::text;
use vstd::prelude::*;
use vstd::string::*;

verus! {

/// The key under which the index is kept.
pub const CREDENTIALS_KEY: &'static str = "https://chatgpt.com/backend-api/codex";

/// The user name that goes with the index.
pub const INDEX_USER: &'static str = "Accounts";

/// The user name that goes with the credentials of an account.
pub const RECORD_USER: &'static str = "Bearer";

/// The key under which the credentials of an account are kept.
pub open spec fn record_key(id: Seq<char>) -> Seq<char> {
    CREDENTIALS_KEY@ + "/accounts/"@ + encoding::base64url(
        encoding::sha256(vstd::utf8::encode_utf8(id)),
    )
}

/// The key under which the credentials of an account are kept.
pub fn account_credentials_key(id: &str) -> (key: String)
    ensures
        key@ == record_key(id@),
{
    let digest = encoding::sha256_of(id.as_bytes());
    text::joined3(CREDENTIALS_KEY, "/accounts/", &encoding::base64url_of(digest.as_slice()))
}

/// The key of an account's credentials is never that of the index.
pub proof fn record_key_is_not_index_key(id: Seq<char>)
    ensures
        record_key(id) != CREDENTIALS_KEY@,
{
    reveal_strlit("/accounts/");
    assert(record_key(id).len() > CREDENTIALS_KEY@.len());
}

/// An account of the index with what its record holds: with the credentials, or without any, and
/// then in need of a new sign-in.
pub open spec fn completed(account: AccountModel, record: Option<CredentialsModel>) -> AccountModel {
    if account.credentials is Some {
        account
    } else {
        match record {
            Some(credentials) => AccountModel { credentials: Some(credentials), ..account },
            None => AccountModel {
                needs_reauth: true,
                status: accounts::MISSING_STATUS@,
                ..account
            },
        }
    }
}

/// The records that were read, by id.
pub open spec fn record_models(records: Map<Seq<char>, CodexCredentials>) -> Map<
    Seq<char>,
    CredentialsModel,
> {
    records.map_values(|credentials: CodexCredentials| credentials@)
}

/// The accounts of an index with what their records hold, by id.
pub open spec fn completed_all(
    index: AccountsModel,
    records: Map<Seq<char>, CredentialsModel>,
) -> AccountsModel {
    AccountsModel {
        accounts: Map::new(
            |id: Seq<char>| index.accounts.contains_key(id),
            |id: Seq<char>|
                completed(
                    index.accounts[id],
                    if records.contains_key(id) {
                        Some(records[id])
                    } else {
                        None
                    },
                ),
        ),
        selected: index.selected,
    }
}

/// Those of the ids whose account has no credentials.
pub open spec fn without_credentials(
    order: Seq<Seq<char>>,
    accounts: Map<Seq<char>, AccountModel>,
) -> Seq<Seq<char>>
    decreases order.len(),
{
    if order.len() == 0 {
        Seq::empty()
    } else {
        let rest = without_credentials(order.drop_last(), accounts);
        if accounts[order.last()].credentials is None {
            rest.push(order.last())
        } else {
            rest
        }
    }
}

impl Accounts {
    /// The ids, in their order, of the accounts whose records have to be read.
    pub fn unread(&self) -> (ids: Vec<String>)
        ensures
            ids.deep_view() == without_credentials(self@.order(), self@.accounts),
    {
        let mut ids: Vec<String> = Vec::new();
        let count = self.accounts.len();
        let ghost order = self@.order();
        assert(self@.accounts.dom() =~= self.accounts@.dom());
        let mut i: usize = 0;
        assert(ids.deep_view() =~= without_credentials(order.take(0), self@.accounts));
        while i < count
            invariant
                order == self@.order(),
                order == id_map::key_order(self.accounts@.dom()),
                count == order.len(),
                i <= count,
                ids.deep_view() == without_credentials(order.take(i as int), self@.accounts),
            decreases count - i,
        {
            proof {
                id_map::take_next(order, i as int);
            }
            if self.accounts.value_at(i).credentials.is_none() {
                let ghost before = ids.deep_view();
                ids.push(self.accounts.id_at(i).clone());
                assert(ids.deep_view() =~= before.push(order[i as int]));
            }
            i += 1;
        }
        assert(order.take(i as int) =~= order);
        ids
    }

    /// Puts the credentials that were read, by id, into the accounts of an index.
    pub fn complete(&mut self, records: &IdMap<CodexCredentials>)
        ensures
            final(self)@ == completed_all(old(self)@, record_models(records@)),
    {
        let ghost before = *self;
        let count = self.accounts.len();
        let ghost order = id_map::key_order(self.accounts@.dom());
        let mut done: IdMap<Account> = IdMap::new();
        let mut i: usize = 0;
        while i < count
            invariant
                count == order.len(),
                order == id_map::key_order(before.accounts@.dom()),
                *self == before,
                i <= count,
                forall|id: Seq<char>| #[trigger]
                    done@.contains_key(id) <==> order.take(i as int).contains(id),
                forall|id: Seq<char>| #[trigger]
                    done@.contains_key(id) ==> before.accounts@.contains_key(id) && done@[id]@
                        == completed_all(before@, record_models(records@)).accounts[id],
            decreases count - i,
        {
            let id = self.accounts.id_at(i).clone();
            let mut account = self.accounts.value_at(i).clone();
            if account.credentials.is_none() {
                match records.get(&id) {
                    Some(credentials) => {
                        account.credentials = Some(credentials.clone());
                    },
                    None => {
                        account.needs_reauth = true;
                        account.status = accounts::MISSING_STATUS.to_owned();
                    },
                }
            }
            proof {
                id_map::take_next(order, i as int);
                assert(account@ == completed_all(
                    before@,
                    record_models(records@),
                ).accounts[id@]);
            }
            done.insert(id, account);
            i += 1;
        }
        assert(order.take(i as int) =~= order);
        assert(accounts::account_models(done@) =~= completed_all(
            before@,
            record_models(records@),
        ).accounts);
        self.accounts = done;
    }
}

/// The accounts to compare with when the accounts are saved: those of the index in the store, none
/// where there is no index, and none where it cannot be read and all accounts are gone.
pub fn previous_accounts(read: Option<Result<Accounts, String>>, current: &Accounts) -> (r: Result<
    Accounts,
    String,
>)
    ensures
        match read {
            None => r matches Ok(previous) && previous@ == AccountsModel::none(),
            Some(Ok(previous)) => r == Ok::<Accounts, String>(previous),
            Some(Err(unreadable)) => if current@.accounts.dom() == Set::<Seq<char>>::empty() {
                r matches Ok(previous) && previous@ == AccountsModel::none()
            } else {
                r == Err::<Accounts, String>(unreadable)
            },
        },
{
    match read {
        None => Ok(Accounts::default()),
        Some(Ok(previous)) => Ok(previous),
        Some(Err(unreadable)) => if no_accounts(current) {
            Ok(Accounts::default())
        } else {
            Err(unreadable)
        },
    }
}

fn no_accounts(accounts: &Accounts) -> (r: bool)
    ensures
        r == (accounts@.accounts.dom() == Set::<Seq<char>>::empty()),
        r == (accounts@.order().len() == 0),
{
    let count = accounts.accounts.len();
    assert(accounts@.accounts.dom() =~= accounts.accounts@.dom());
    proof {
        let order = accounts@.order();
        if order.len() == 0 {
            assert(accounts@.accounts.dom() =~= Set::<Seq<char>>::empty());
        } else {
            assert(order.contains(order[0]));
            assert(accounts@.accounts.dom().contains(order[0]));
        }
    }
    count == 0
}

/// One step of saving the accounts.
pub enum StoreStep {
    /// Write the credentials of an account under a key.
    WriteRecord { key: String, credentials: CodexCredentials },
    /// Write the index.
    WriteIndex { index: Accounts },
    /// Delete the index.
    DeleteIndex,
    /// Delete what is kept under a key.
    DeleteRecord { key: String },
}

/// What a step does.
#[verifier::ext_equal]
pub enum StepModel {
    WriteRecord { key: Seq<char>, credentials: CredentialsModel },
    WriteIndex { index: AccountsModel },
    DeleteIndex,
    DeleteRecord { key: Seq<char> },
}

impl View for StoreStep {
    type V = StepModel;

    open spec fn view(&self) -> StepModel {
        match *self {
            StoreStep::WriteRecord { key, credentials } => StepModel::WriteRecord {
                key: key@,
                credentials: credentials@,
            },
            StoreStep::WriteIndex { index } => StepModel::WriteIndex { index: index@ },
            StoreStep::DeleteIndex => StepModel::DeleteIndex,
            StoreStep::DeleteRecord { key } => StepModel::DeleteRecord { key: key@ },
        }
    }
}

impl DeepView for StoreStep {
    type V = StepModel;

    open spec fn deep_view(&self) -> StepModel {
        self@
    }
}

/// The steps that write the credentials of the accounts that have any.
pub open spec fn record_writes(
    order: Seq<Seq<char>>,
    accounts: Map<Seq<char>, AccountModel>,
) -> Seq<StepModel>
    decreases order.len(),
{
    if order.len() == 0 {
        Seq::empty()
    } else {
        let rest = record_writes(order.drop_last(), accounts);
        match accounts[order.last()].credentials {
            Some(credentials) => rest.push(
                StepModel::WriteRecord { key: record_key(order.last()), credentials },
            ),
            None => rest,
        }
    }
}

/// The accounts without their credentials.
pub open spec fn index_of(accounts: AccountsModel) -> AccountsModel {
    AccountsModel {
        accounts: accounts.accounts.map_values(
            |account: AccountModel| AccountModel { credentials: None, ..account },
        ),
        selected: accounts.selected,
    }
}

/// The step that publishes the accounts: it writes their index, or deletes it where there is none.
pub open spec fn publication(accounts: AccountsModel) -> StepModel {
    if accounts.order().len() == 0 {
        StepModel::DeleteIndex
    } else {
        StepModel::WriteIndex { index: index_of(accounts) }
    }
}

/// The steps that delete the records of accounts that are gone.
pub open spec fn record_deletes(
    order: Seq<Seq<char>>,
    current: Map<Seq<char>, AccountModel>,
) -> Seq<StepModel>
    decreases order.len(),
{
    if order.len() == 0 {
        Seq::empty()
    } else {
        let rest = record_deletes(order.drop_last(), current);
        if current.contains_key(order.last()) {
            rest
        } else {
            rest.push(StepModel::DeleteRecord { key: record_key(order.last()) })
        }
    }
}

/// The steps that save the accounts over those that were saved before.
///
/// The index comes after all records, so that a save that breaks off leaves the index as it was.
pub open spec fn plan(accounts: AccountsModel, previous: AccountsModel) -> Seq<StepModel> {
    record_writes(accounts.order(), accounts.accounts).push(publication(accounts)) + record_deletes(
        previous.order(),
        accounts.accounts,
    )
}

fn indexed(accounts: &Accounts) -> (index: Accounts)
    ensures
        index@ == index_of(accounts@),
{
    let count = accounts.accounts.len();
    let ghost order = id_map::key_order(accounts.accounts@.dom());
    let mut stripped: IdMap<Account> = IdMap::new();
    let mut i: usize = 0;
    while i < count
        invariant
            count == order.len(),
            order == id_map::key_order(accounts.accounts@.dom()),
            i <= count,
            forall|id: Seq<char>| #[trigger]
                stripped@.contains_key(id) <==> order.take(i as int).contains(id),
            forall|id: Seq<char>| #[trigger]
                stripped@.contains_key(id) ==> accounts.accounts@.contains_key(id)
                    && stripped@[id]@ == index_of(accounts@).accounts[id],
        decreases count - i,
    {
        let mut account = accounts.accounts.value_at(i).clone();
        account.credentials = None;
        stripped.insert(accounts.accounts.id_at(i).clone(), account);
        proof {
            id_map::take_next(order, i as int);
        }
        i += 1;
    }
    assert(order.take(i as int) =~= order);
    assert(accounts::account_models(stripped@) =~= index_of(accounts@).accounts);
    Accounts { accounts: stripped, selected: accounts.selected.clone() }
}

/// The steps that save the accounts over those that were saved before.
pub fn save_plan(accounts: &Accounts, previous: &Accounts) -> (steps: Vec<StoreStep>)
    ensures
        steps.deep_view() == plan(accounts@, previous@),
{
    let mut steps: Vec<StoreStep> = Vec::new();
    let count = accounts.accounts.len();
    let ghost order = accounts@.order();
    assert(accounts@.accounts.dom() =~= accounts.accounts@.dom());
    let mut i: usize = 0;
    assert(steps.deep_view() =~= record_writes(order.take(0), accounts@.accounts));
    while i < count
        invariant
            order == accounts@.order(),
            order == id_map::key_order(accounts.accounts@.dom()),
            count == order.len(),
            i <= count,
            steps.deep_view() == record_writes(order.take(i as int), accounts@.accounts),
        decreases count - i,
    {
        proof {
            id_map::take_next(order, i as int);
        }
        match &accounts.accounts.value_at(i).credentials {
            Some(credentials) => {
                let ghost before = steps.deep_view();
                let step = StoreStep::WriteRecord {
                    key: account_credentials_key(accounts.accounts.id_at(i)),
                    credentials: credentials.clone(),
                };
                let ghost model = step@;
                steps.push(step);
                assert(steps.deep_view() =~= before.push(model));
            },
            None => {},
        }
        i += 1;
    }
    assert(order.take(i as int) =~= order);
    let ghost written = steps.deep_view();
    if no_accounts(accounts) {
        steps.push(StoreStep::DeleteIndex);
    } else {
        steps.push(StoreStep::WriteIndex { index: indexed(accounts) });
    }
    let ghost published = steps.deep_view();
    assert(published =~= written.push(publication(accounts@)));
    let count_before = previous.accounts.len();
    let ghost order_before = previous@.order();
    assert(previous@.accounts.dom() =~= previous.accounts@.dom());
    let mut k: usize = 0;
    assert(steps.deep_view() =~= published + record_deletes(
        order_before.take(0),
        accounts@.accounts,
    ));
    while k < count_before
        invariant
            order_before == previous@.order(),
            order_before == id_map::key_order(previous.accounts@.dom()),
            count_before == order_before.len(),
            k <= count_before,
            steps.deep_view() == published + record_deletes(
                order_before.take(k as int),
                accounts@.accounts,
            ),
        decreases count_before - k,
    {
        proof {
            id_map::take_next(order_before, k as int);
        }
        let id = previous.accounts.id_at(k);
        if !accounts.accounts.contains_key(id) {
            let ghost before = steps.deep_view();
            steps.push(StoreStep::DeleteRecord { key: account_credentials_key(id) });
            assert(steps.deep_view() =~= before.push(
                StepModel::DeleteRecord { key: record_key(id@) },
            ));
            assert(steps.deep_view() =~= published + record_deletes(
                order_before.take(k + 1),
                accounts@.accounts,
            ));
        }
        k += 1;
    }
    assert(order_before.take(k as int) =~= order_before);
    steps
}

/// What a credential store keeps under a key.
pub enum Entry {
    Index(AccountsModel),
    Record(CredentialsModel),
}

/// A store after a step.
pub open spec fn stepped(store: Map<Seq<char>, Entry>, step: StepModel) -> Map<Seq<char>, Entry> {
    match step {
        StepModel::WriteRecord { key, credentials } => store.insert(
            key,
            Entry::Record(credentials),
        ),
        StepModel::WriteIndex { index } => store.insert(CREDENTIALS_KEY@, Entry::Index(index)),
        StepModel::DeleteIndex => store.remove(CREDENTIALS_KEY@),
        StepModel::DeleteRecord { key } => store.remove(key),
    }
}

/// A store after some steps.
pub open spec fn performed(store: Map<Seq<char>, Entry>, steps: Seq<StepModel>) -> Map<
    Seq<char>,
    Entry,
>
    decreases steps.len(),
{
    if steps.len() == 0 {
        store
    } else {
        stepped(performed(store, steps.drop_last()), steps.last())
    }
}

/// The accounts that the entry under the index key stands for.
pub open spec fn published(store: Map<Seq<char>, Entry>) -> AccountsModel {
    if store.contains_key(CREDENTIALS_KEY@) {
        match store[CREDENTIALS_KEY@] {
            Entry::Index(index) => index,
            Entry::Record(credentials) => AccountsModel::none().inserted(credentials, 0),
        }
    } else {
        AccountsModel::none()
    }
}

/// The credentials that the store keeps for the account `id`.
pub open spec fn recorded(store: Map<Seq<char>, Entry>, id: Seq<char>) -> Option<CredentialsModel> {
    if store.contains_key(record_key(id)) {
        match store[record_key(id)] {
            Entry::Record(credentials) => Some(credentials),
            Entry::Index(_) => None,
        }
    } else {
        None
    }
}

/// The accounts that are read from a store: those of the index, each with its record.
pub open spec fn loaded(store: Map<Seq<char>, Entry>) -> AccountsModel {
    let index = published(store);
    completed_all(
        index,
        Map::new(
            |id: Seq<char>| index.accounts.contains_key(id) && recorded(store, id) is Some,
            |id: Seq<char>| recorded(store, id)->0,
        ),
    )
}

/// No two of the ids share a key.
pub open spec fn keys_differ(ids: Set<Seq<char>>) -> bool {
    forall|a: Seq<char>, b: Seq<char>|
        ids.contains(a) && ids.contains(b) && #[trigger] record_key(a) == #[trigger] record_key(b)
            ==> a == b
}

proof fn lemma_performed_in_turn(
    store: Map<Seq<char>, Entry>,
    first: Seq<StepModel>,
    then: Seq<StepModel>,
)
    ensures
        performed(store, first + then) == performed(performed(store, first), then),
    decreases then.len(),
{
    if then.len() == 0 {
        assert(first + then =~= first);
    } else {
        assert((first + then).drop_last() =~= first + then.drop_last());
        lemma_performed_in_turn(store, first, then.drop_last());
    }
}

proof fn lemma_writes(
    store: Map<Seq<char>, Entry>,
    order: Seq<Seq<char>>,
    accounts: Map<Seq<char>, AccountModel>,
)
    requires
        forall|i: int, j: int|
            0 <= i < j < order.len() ==> record_key(#[trigger] order[i]) != record_key(
                #[trigger] order[j],
            ),
    ensures
        ({
            let after = performed(store, record_writes(order, accounts));
            &&& forall|i: int|
                0 <= i < order.len() && accounts[#[trigger] order[i]].credentials is Some
                    ==> recorded(after, order[i]) == accounts[order[i]].credentials
            &&& forall|key: Seq<char>|
                (forall|i: int| 0 <= i < order.len() ==> record_key(#[trigger] order[i]) != key)
                    ==> #[trigger] after.contains_key(key) == store.contains_key(key) && after[key]
                    == store[key]
        }),
    decreases order.len(),
{
    if order.len() > 0 {
        let shorter = order.drop_last();
        lemma_writes(store, shorter, accounts);
        let before = performed(store, record_writes(shorter, accounts));
        let after = performed(store, record_writes(order, accounts));
        let last = order.last();
        match accounts[last].credentials {
            Some(credentials) => {
                assert(record_writes(order, accounts).drop_last() =~= record_writes(
                    shorter,
                    accounts,
                ));
                assert(after == before.insert(record_key(last), Entry::Record(credentials)));
            },
            None => {},
        }
        assert forall|i: int|
            0 <= i < order.len() && accounts[#[trigger] order[i]].credentials is Some implies recorded(
            after,
            order[i],
        ) == accounts[order[i]].credentials by {
            if i < shorter.len() {
                assert(shorter[i] == order[i]);
                assert(record_key(order[i]) != record_key(order[order.len() - 1]));
            }
        }
        assert forall|key: Seq<char>|
            (forall|i: int| 0 <= i < order.len() ==> record_key(#[trigger] order[i]) != key) implies (
        #[trigger] after.contains_key(key) == store.contains_key(key) && after[key] == store[key]) by {
            assert(record_key(order[order.len() - 1]) != key);
            assert forall|i: int| 0 <= i < shorter.len() implies record_key(#[trigger] shorter[i])
                != key by {
                assert(shorter[i] == order[i]);
            }
            assert(before.contains_key(key) == store.contains_key(key));
        }
    }
}

proof fn lemma_deletes(
    store: Map<Seq<char>, Entry>,
    order: Seq<Seq<char>>,
    current: Map<Seq<char>, AccountModel>,
)
    ensures
        ({
            let after = performed(store, record_deletes(order, current));
            &&& forall|i: int|
                0 <= i < order.len() && !current.contains_key(#[trigger] order[i])
                    ==> !after.contains_key(record_key(order[i]))
            &&& forall|key: Seq<char>| #[trigger]
                after.contains_key(key) ==> store.contains_key(key) && after[key] == store[key]
            &&& forall|key: Seq<char>|
                (forall|i: int|
                    0 <= i < order.len() && !current.contains_key(#[trigger] order[i])
                        ==> record_key(order[i]) != key) ==> #[trigger] after.contains_key(key)
                    == store.contains_key(key) && after[key] == store[key]
        }),
    decreases order.len(),
{
    if order.len() > 0 {
        let shorter = order.drop_last();
        lemma_deletes(store, shorter, current);
        let before = performed(store, record_deletes(shorter, current));
        let after = performed(store, record_deletes(order, current));
        let last = order.last();
        if !current.contains_key(last) {
            assert(record_deletes(order, current).drop_last() =~= record_deletes(shorter, current));
            assert(after == before.remove(record_key(last)));
        }
        assert forall|i: int|
            0 <= i < order.len() && !current.contains_key(
                #[trigger] order[i],
            ) implies !after.contains_key(record_key(order[i])) by {
            if i < shorter.len() {
                assert(shorter[i] == order[i]);
            }
        }
        assert forall|key: Seq<char>|
            (forall|i: int|
                0 <= i < order.len() && !current.contains_key(#[trigger] order[i]) ==> record_key(
                    order[i],
                ) != key) implies (#[trigger] after.contains_key(key) == store.contains_key(key)
            && after[key] == store[key]) by {
            assert forall|i: int|
                0 <= i < shorter.len() && !current.contains_key(
                    #[trigger] shorter[i],
                ) implies record_key(shorter[i]) != key by {
                assert(shorter[i] == order[i]);
            }
            assert(before.contains_key(key) == store.contains_key(key));
            if !current.contains_key(last) {
                assert(order[order.len() - 1] == last);
            }
        }
    }
}

/// What is loaded after a save is what was saved: the same accounts are there, the same one is
/// selected, and every account with credentials is as it was.
pub proof fn what_is_saved_is_loaded(
    store: Map<Seq<char>, Entry>,
    accounts: AccountsModel,
    previous: AccountsModel,
)
    requires
        accounts.accounts.dom().finite(),
        previous.accounts.dom().finite(),
        keys_differ(accounts.accounts.dom().union(previous.accounts.dom())),
        accounts.accounts.dom().is_empty() ==> accounts.selected == Seq::<char>::empty(),
    ensures
        ({
            let after = loaded(performed(store, plan(accounts, previous)));
            &&& after.accounts.dom() == accounts.accounts.dom()
            &&& after.selected == accounts.selected
            &&& forall|id: Seq<char>| #[trigger]
                accounts.accounts.contains_key(id) && accounts.accounts[id].credentials is Some
                    ==> after.accounts[id] == accounts.accounts[id]
            &&& (forall|id: Seq<char>| #[trigger]
                accounts.accounts.contains_key(id) ==> accounts.accounts[id].credentials is Some)
                ==> after == accounts
        }),
{
    let ids = accounts.accounts.dom();
    id_map::key_order_exists(ids);
    id_map::key_order_exists(previous.accounts.dom());
    let order = accounts.order();
    let order_before = previous.order();
    let writes = record_writes(order, accounts.accounts);
    let deletes = record_deletes(order_before, accounts.accounts);
    let written = performed(store, writes);
    let indexed = performed(store, writes.push(publication(accounts)));
    let after = performed(store, plan(accounts, previous));
    assert forall|i: int, j: int| 0 <= i < j < order.len() implies record_key(#[trigger] order[i])
        != record_key(#[trigger] order[j]) by {
        text::order_is_irreflexive(order[i]);
        assert(order.contains(order[i]) && order.contains(order[j]));
        assert(ids.contains(order[i]) && ids.contains(order[j]));
    }
    lemma_writes(store, order, accounts.accounts);
    assert(writes.push(publication(accounts)).drop_last() =~= writes);
    assert(indexed == stepped(written, publication(accounts)));
    lemma_performed_in_turn(store, writes.push(publication(accounts)), deletes);
    assert(after == performed(indexed, deletes));
    lemma_deletes(indexed, order_before, accounts.accounts);
    assert forall|i: int|
        0 <= i < order_before.len() && !accounts.accounts.contains_key(
            #[trigger] order_before[i],
        ) implies record_key(order_before[i]) != CREDENTIALS_KEY@ by {
        record_key_is_not_index_key(order_before[i]);
    }
    assert(after.contains_key(CREDENTIALS_KEY@) == indexed.contains_key(CREDENTIALS_KEY@));
    if order.len() > 0 {
        assert(published(after) == index_of(accounts));
    } else {
        assert(published(after) == AccountsModel::none());
        assert(accounts.accounts =~= Map::<Seq<char>, AccountModel>::empty()) by {
            assert forall|id: Seq<char>| !ids.contains(id) by {}
        }
        assert(ids =~= Set::<Seq<char>>::empty());
    }
    let result = loaded(after);
    assert(result.accounts.dom() =~= ids);
    assert(result.selected == accounts.selected);
    assert forall|id: Seq<char>| #[trigger]
        accounts.accounts.contains_key(id) && accounts.accounts[id].credentials
            is Some implies result.accounts[id] == accounts.accounts[id] by {
        assert(ids.contains(id));
        assert(order.contains(id));
        let k = order.index_of(id);
        assert(order[k] == id);
        assert(recorded(written, order[k]) == accounts.accounts[order[k]].credentials);
        record_key_is_not_index_key(id);
        assert(recorded(indexed, id) == recorded(written, id));
        assert forall|i: int|
            0 <= i < order_before.len() && !accounts.accounts.contains_key(
                #[trigger] order_before[i],
            ) implies record_key(order_before[i]) != record_key(id) by {
            assert(order_before.contains(order_before[i]));
            assert(previous.accounts.dom().contains(order_before[i]));
        }
        assert(after.contains_key(record_key(id)) == indexed.contains_key(record_key(id)));
        assert(recorded(after, id) == accounts.accounts[id].credentials);
        assert(result.accounts[id] =~= accounts.accounts[id]);
    }
    if forall|id: Seq<char>| #[trigger]
        accounts.accounts.contains_key(id) ==> accounts.accounts[id].credentials is Some {
        assert(result.accounts =~= accounts.accounts);
        assert(result =~= accounts);
    }
}

/// A save that breaks off before the index leaves the index as it was, and one that breaks off
/// after it has written the record of every account with credentials.
pub proof fn index_comes_after_records(
    store: Map<Seq<char>, Entry>,
    accounts: AccountsModel,
    previous: AccountsModel,
    done: int,
)
    requires
        accounts.accounts.dom().finite(),
        0 <= done <= plan(accounts, previous).len(),
    ensures
        ({
            let records = record_writes(accounts.order(), accounts.accounts).len();
            let after = performed(store, plan(accounts, previous).take(done));
            &&& done <= records ==> published(after) == published(store)
            &&& done > records ==> plan(accounts, previous).take(done)[records as int]
                == publication(accounts) && plan(accounts, previous).take(done).take(
                records as int,
            ) == record_writes(accounts.order(), accounts.accounts)
        }),
{
    let writes = record_writes(accounts.order(), accounts.accounts);
    let steps = plan(accounts, previous);
    if done <= writes.len() {
        assert(steps.take(done) =~= writes.take(done));
        lemma_writes_spare_index(store, accounts.order(), accounts.accounts, done);
    } else {
        assert(steps.take(done).take(writes.len() as int) =~= writes);
    }
}

proof fn lemma_writes_are_records(
    order: Seq<Seq<char>>,
    accounts: Map<Seq<char>, AccountModel>,
    i: int,
)
    requires
        0 <= i < record_writes(order, accounts).len(),
    ensures
        record_writes(order, accounts)[i] matches StepModel::WriteRecord { key, .. } && key
            != CREDENTIALS_KEY@,
    decreases order.len(),
{
    if order.len() > 0 {
        record_key_is_not_index_key(order.last());
        if i < record_writes(order.drop_last(), accounts).len() {
            lemma_writes_are_records(order.drop_last(), accounts, i);
        }
    }
}

proof fn lemma_writes_spare_index(
    store: Map<Seq<char>, Entry>,
    order: Seq<Seq<char>>,
    accounts: Map<Seq<char>, AccountModel>,
    done: int,
)
    requires
        0 <= done <= record_writes(order, accounts).len(),
    ensures
        published(performed(store, record_writes(order, accounts).take(done))) == published(store),
    decreases done,
{
    let writes = record_writes(order, accounts);
    if done > 0 {
        lemma_writes_spare_index(store, order, accounts, done - 1);
        lemma_writes_are_records(order, accounts, done - 1);
        assert(writes.take(done).drop_last() =~= writes.take(done - 1));
    }
}

/// A save without accounts leaves neither the index nor the record of any account that was saved
/// before.
pub proof fn nothing_is_left_after_sign_out(
    store: Map<Seq<char>, Entry>,
    previous: AccountsModel,
    id: Seq<char>,
)
    requires
        previous.accounts.dom().finite(),
        previous.accounts.contains_key(id),
    ensures
        ({
            let after = performed(store, plan(AccountsModel::none(), previous));
            &&& !after.contains_key(CREDENTIALS_KEY@)
            &&& !after.contains_key(record_key(id))
            &&& loaded(after) == AccountsModel::none()
        }),
{
    let none = AccountsModel::none();
    assert(none.accounts.dom() =~= Set::<Seq<char>>::empty());
    id_map::key_order_exists(none.accounts.dom());
    assert(none.order().len() == 0) by {
        if none.order().len() > 0 {
            assert(none.order().contains(none.order()[0]));
            assert(none.accounts.dom().contains(none.order()[0]));
        }
    }
    id_map::key_order_exists(previous.accounts.dom());
    let first = record_writes(none.order(), none.accounts).push(publication(none));
    let deletes = record_deletes(previous.order(), none.accounts);
    assert(first.drop_last() =~= Seq::empty());
    assert(performed(store, first.drop_last()) == store);
    assert(performed(store, first) == store.remove(CREDENTIALS_KEY@));
    lemma_performed_in_turn(store, first, deletes);
    lemma_deletes(performed(store, first), previous.order(), none.accounts);
    let after = performed(store, plan(none, previous));
    assert(!after.contains_key(CREDENTIALS_KEY@));
    assert(previous.accounts.dom().contains(id));
    let k = previous.order().index_of(id);
    assert(!none.accounts.contains_key(previous.order()[k]));
    assert(loaded(after).accounts =~= none.accounts);
}

/// An account whose record is missing is loaded as one that has to sign in again.
pub proof fn missing_record_asks_for_sign_in(
    store: Map<Seq<char>, Entry>,
    id: Seq<char>,
)
    requires
        published(store).accounts.contains_key(id),
        published(store).accounts[id].credentials is None,
        !store.contains_key(record_key(id)),
    ensures
        loaded(store).accounts[id].needs_reauth,
        loaded(store).accounts[id].status == accounts::MISSING_STATUS@,
        forall|model: Seq<char>, now: u64|
            !#[trigger] loaded(store).accounts[id].available_at(model, now),
{
}

} // verus!
