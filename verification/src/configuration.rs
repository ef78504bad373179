//! The settings of the subscription as they are shown.
use crate::accounts;
use crate::accounts::AccountSwitchPolicy;
use crate::provider;
use crate::state;
use crate::state::{AccountEntry, EntryModel, State, StateModel};
use crate::text;
use crate::time;
use std::time::SystemTime;
use vstd::prelude::*;
use vstd::string::*;

verus! {

/// What is shown below an account that does not fare well.
#[derive(Debug)]
pub struct StatusRow {
    pub status: String,
    /// The button to sign in again.
    pub reauth_id: String,
    pub reauth_disabled: bool,
    /// The button by which the user says that there is quota again.
    pub reset_id: Option<String>,
}

/// An account in the settings.
#[derive(Debug)]
pub struct AccountCard {
    /// The account that the buttons are for.
    pub id: String,
    pub card_id: String,
    pub label: String,
    /// The button to use the account by default.
    pub select_id: String,
    pub select_label: String,
    pub select_disabled: bool,
    pub row: Option<StatusRow>,
}

/// The settings.
#[derive(Debug)]
pub struct Configuration {
    pub cards: Vec<AccountCard>,
    /// The button for the policy, which is there as soon as there are accounts.
    pub policy_label: Option<String>,
    /// The description, unless it stands elsewhere.
    pub description: Option<String>,
    pub sign_in_label: String,
    pub sign_in_disabled: bool,
    pub sign_in_full_width: bool,
    pub cancellable: bool,
    pub catalog_error: Option<String>,
    pub auth_error: Option<String>,
}

/// What a row holds.
#[verifier::ext_equal]
pub struct RowModel {
    pub status: Seq<char>,
    pub reauth_id: Seq<char>,
    pub reauth_disabled: bool,
    pub reset_id: Option<Seq<char>>,
}

/// What a card holds.
#[verifier::ext_equal]
pub struct CardModel {
    pub id: Seq<char>,
    pub card_id: Seq<char>,
    pub label: Seq<char>,
    pub select_id: Seq<char>,
    pub select_label: Seq<char>,
    pub select_disabled: bool,
    pub row: Option<RowModel>,
}

/// What the settings hold.
#[verifier::ext_equal]
pub struct ConfigurationModel {
    pub cards: Seq<CardModel>,
    pub policy_label: Option<Seq<char>>,
    pub description: Option<Seq<char>>,
    pub sign_in_label: Seq<char>,
    pub sign_in_disabled: bool,
    pub sign_in_full_width: bool,
    pub cancellable: bool,
    pub catalog_error: Option<Seq<char>>,
    pub auth_error: Option<Seq<char>>,
}

impl DeepView for StatusRow {
    type V = RowModel;

    open spec fn deep_view(&self) -> RowModel {
        RowModel {
            status: self.status@,
            reauth_id: self.reauth_id@,
            reauth_disabled: self.reauth_disabled,
            reset_id: self.reset_id.deep_view(),
        }
    }
}

impl DeepView for AccountCard {
    type V = CardModel;

    open spec fn deep_view(&self) -> CardModel {
        CardModel {
            id: self.id@,
            card_id: self.card_id@,
            label: self.label@,
            select_id: self.select_id@,
            select_label: self.select_label@,
            select_disabled: self.select_disabled,
            row: self.row.deep_view(),
        }
    }
}

impl View for Configuration {
    type V = ConfigurationModel;

    open spec fn view(&self) -> ConfigurationModel {
        ConfigurationModel {
            cards: self.cards.deep_view(),
            policy_label: self.policy_label.deep_view(),
            description: self.description.deep_view(),
            sign_in_label: self.sign_in_label@,
            sign_in_disabled: self.sign_in_disabled,
            sign_in_full_width: self.sign_in_full_width,
            cancellable: self.cancellable,
            catalog_error: self.catalog_error.deep_view(),
            auth_error: self.auth_error.deep_view(),
        }
    }
}

/// An account in the settings, while a sign-in is under way or not.
pub open spec fn card(entry: EntryModel, signing_in: bool) -> CardModel {
    CardModel {
        id: entry.id,
        card_id: "account-"@ + entry.id,
        label: entry.label,
        select_id: "select-"@ + entry.id,
        select_label: if entry.selected {
            "Default account"@
        } else {
            "Use by default"@
        },
        select_disabled: entry.selected,
        row: if entry.status.len() == 0 {
            None
        } else {
            Some(
                RowModel {
                    status: entry.status,
                    reauth_id: "reauth-"@ + entry.id,
                    reauth_disabled: signing_in,
                    reset_id: if entry.status == accounts::QUOTA_STATUS@ {
                        Some("reset-"@ + entry.id)
                    } else {
                        None
                    },
                },
            )
        },
    }
}

/// The label of the button for the policy.
pub open spec fn policy_text(policy: AccountSwitchPolicy) -> Seq<char> {
    match policy {
        AccountSwitchPolicy::Manual => "Account switching: Manual"@,
        AccountSwitchPolicy::OnError => "Account switching: On error"@,
    }
}

/// The settings, given what is shown of the accounts.
pub open spec fn configuration_of<T>(
    state: StateModel<T>,
    entries: Seq<EntryModel>,
    compact: bool,
) -> ConfigurationModel {
    let signing_in = !(state.sign_in_state is Idle);
    ConfigurationModel {
        cards: entries.map_values(|entry: EntryModel| card(entry, signing_in)),
        policy_label: if entries.len() > 0 {
            Some(policy_text(state.policy()))
        } else {
            None
        },
        description: if compact {
            None
        } else {
            Some(provider::SUBSCRIPTION_DESCRIPTION@)
        },
        sign_in_label: if signing_in {
            "Signing in…"@
        } else if entries.len() > 0 {
            "Add Account"@
        } else {
            "Sign In"@
        },
        sign_in_disabled: signing_in,
        sign_in_full_width: !compact,
        cancellable: state.sign_in_state is Authorizing,
        catalog_error: state.last_model_catalog_error,
        auth_error: state.last_auth_error,
    }
}

/// The policy that the button switches to.
pub open spec fn other_policy(policy: AccountSwitchPolicy) -> AccountSwitchPolicy {
    match policy {
        AccountSwitchPolicy::Manual => AccountSwitchPolicy::OnError,
        AccountSwitchPolicy::OnError => AccountSwitchPolicy::Manual,
    }
}

impl AccountSwitchPolicy {
    /// The policy that the button switches to.
    pub fn toggled(self) -> (r: AccountSwitchPolicy)
        ensures
            r == other_policy(self),
    {
        match self {
            AccountSwitchPolicy::Manual => AccountSwitchPolicy::OnError,
            AccountSwitchPolicy::OnError => AccountSwitchPolicy::Manual,
        }
    }
}

fn card_of(entry: AccountEntry, signing_in: bool) -> (r: AccountCard)
    ensures
        r.deep_view() == card(entry.deep_view(), signing_in),
{
    let row = if text::empty(&entry.status) {
        None
    } else {
        let reset_id = if text::same(&entry.status, accounts::QUOTA_STATUS) {
            Some(text::joined("reset-", &entry.id))
        } else {
            None
        };
        Some(
            StatusRow {
                status: entry.status,
                reauth_id: text::joined("reauth-", &entry.id),
                reauth_disabled: signing_in,
                reset_id,
            },
        )
    };
    AccountCard {
        card_id: text::joined("account-", &entry.id),
        label: entry.label,
        select_id: text::joined("select-", &entry.id),
        select_label: if entry.selected {
            "Default account".to_owned()
        } else {
            "Use by default".to_owned()
        },
        select_disabled: entry.selected,
        row,
        id: entry.id,
    }
}

/// The settings at a time.
pub fn configuration_at<T>(state: &State<T>, compact: bool, now: u64) -> (r: Configuration)
    ensures
        r@ == configuration_of(state@, state::entries(state@.accounts, now), compact),
{
    let mut left = state.accounts_at(now);
    let ghost entries = left.deep_view();
    let has_accounts = left.len() > 0;
    let signing_in = state.is_signing_in();
    let ghost wanted = entries.map_values(|entry: EntryModel| card(entry, signing_in));
    let mut cards: Vec<AccountCard> = Vec::new();
    let ghost mut done: int = 0;
    assert(cards.deep_view() =~= wanted.take(0));
    assert(entries.skip(0) =~= entries);
    while left.len() > 0
        invariant
            wanted == entries.map_values(|entry: EntryModel| card(entry, signing_in)),
            0 <= done <= entries.len(),
            left.deep_view() == entries.skip(done),
            cards.deep_view() == wanted.take(done),
        decreases left@.len(),
    {
        let ghost rest = left.deep_view();
        let entry = left.remove(0);
        assert(entry.deep_view() == rest[0]);
        assert(left.deep_view() =~= rest.skip(1));
        let ghost before = cards.deep_view();
        let shown = card_of(entry, signing_in);
        let ghost model = shown.deep_view();
        cards.push(shown);
        assert(cards.deep_view() =~= before.push(model));
        assert(model == wanted[done]);
        assert(cards.deep_view() =~= wanted.take(done + 1));
        assert(left.deep_view() =~= entries.skip(done + 1));
        proof {
            done = done + 1;
        }
    }
    assert(wanted.take(done) =~= wanted);
    Configuration {
        cards,
        policy_label: if has_accounts {
            Some(
                match state.switch_policy() {
                    AccountSwitchPolicy::Manual => "Account switching: Manual".to_owned(),
                    AccountSwitchPolicy::OnError => "Account switching: On error".to_owned(),
                },
            )
        } else {
            None
        },
        description: if compact {
            None
        } else {
            Some(provider::SUBSCRIPTION_DESCRIPTION.to_owned())
        },
        sign_in_label: if signing_in {
            "Signing in…".to_owned()
        } else if has_accounts {
            "Add Account".to_owned()
        } else {
            "Sign In".to_owned()
        },
        sign_in_disabled: signing_in,
        sign_in_full_width: !compact,
        cancellable: state.is_sign_in_cancellable(),
        catalog_error: state.model_catalog_error(),
        auth_error: state.last_auth_error(),
    }
}

/// The settings by the wall clock.
pub fn configuration<T>(state: &State<T>, compact: bool) -> (r: Configuration)
    ensures
        exists|reading: SystemTime|
            r@ == configuration_of(
                state@,
                state::entries(state@.accounts, #[trigger] time::read_ms(reading)),
                compact,
            ),
{
    let now = time::now_ms();
    configuration_at(state, compact, now)
}

/// The button for the policy switches back what it switched.
pub proof fn policy_toggles_back(policy: AccountSwitchPolicy)
    ensures
        other_policy(other_policy(policy)) == policy,
        other_policy(policy) != policy,
{
}

/// While a sign-in is under way no other can be started, and it can be cancelled only as long as
/// it waits for the user.
pub proof fn buttons_follow_sign_in<T>(
    state: StateModel<T>,
    entries: Seq<EntryModel>,
    compact: bool,
    i: int,
)
    ensures
        configuration_of(state, entries, compact).sign_in_disabled == !(
        state.sign_in_state is Idle),
        configuration_of(state, entries, compact).cancellable ==> configuration_of(
            state,
            entries,
            compact,
        ).sign_in_disabled,
        0 <= i < entries.len() ==> (configuration_of(state, entries, compact).cards[i].row matches Some(
            row,
        ) ==> row.reauth_disabled == !(state.sign_in_state is Idle)),
{
}

} // verus!
