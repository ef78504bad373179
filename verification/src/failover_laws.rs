//! What holds of a request on its way through the accounts, whatever happens to it.
use crate::accounts::{AccountSwitchPolicy, Accounts, AccountsModel};
use crate::credentials::CodexCredentials;
use crate::failover;
use crate::failover::{
    ActionModel, ErrorModel, Failover, FailoverAction, FailoverEvent, Phase, PhaseModel,
};
use crate::failure::{AccountFailure, RequestError};
use crate::id_map;
use crate::text;
use vstd::prelude::*;
use vstd::string::*;

verus! {

/// An account can serve a request for a model at `now`: it has credentials, need not sign in
/// again, can be billed, may use the model, is under no limit, and is granted every word of the
/// scope that is required.
pub open spec fn can_serve(
    accounts: AccountsModel,
    id: Seq<char>,
    model: Seq<char>,
    scope: Option<Seq<char>>,
    now: u64,
) -> bool {
    let account = accounts.accounts[id];
    &&& accounts.accounts.contains_key(id)
    &&& account.credentials is Some
    &&& !account.needs_reauth
    &&& !account.billing_blocked
    &&& !account.blocked_models.contains(model)
    &&& account.unavailable_until_ms <= now
    &&& account.quota_until_ms <= now
    &&& scope matches Some(scope) ==> forall|i: int|
        0 <= i < text::words(scope).len() ==> account.credentials->0.scopes.contains(
            #[trigger] text::words(scope)[i],
        )
}

/// A request can be sent for just the accounts that can serve it.
pub proof fn eligible_accounts_can_serve(
    accounts: &Accounts,
    id: &str,
    model: &str,
    scope: &Option<String>,
    now: u64,
    r: bool,
)
    requires
        call_ensures(failover::is_eligible, (accounts, id, model, scope, now), r),
    ensures
        r == can_serve(accounts@, id@, model@, scope.deep_view(), now),
{
}

/// The `i`th candidate is the first that can serve the request.
pub open spec fn first_able(request: Failover, accounts: AccountsModel, now: u64, i: int) -> bool {
    &&& 0 <= i < request.candidates@.len()
    &&& can_serve(
        accounts,
        request.candidates@[i]@,
        request.model@,
        request.required_scope.deep_view(),
        now,
    )
    &&& none_able(request, accounts, now, i)
}

/// None of the first `count` candidates can serve the request.
pub open spec fn none_able(request: Failover, accounts: AccountsModel, now: u64, count: int) -> bool {
    forall|k: int|
        0 <= k < count && k < request.candidates@.len() ==> !can_serve(
            accounts,
            (#[trigger] request.candidates@[k])@,
            request.model@,
            request.required_scope.deep_view(),
            now,
        )
}

/// The account that is tried, if any, cannot serve the request after all: it is the turn of the
/// next one.
pub open spec fn moves_on(phase: Phase, event: FailoverEvent) -> bool {
    ||| phase is Start && event is Begin
    ||| phase is Authenticating && event matches FailoverEvent::Credentials(Err(_))
    ||| phase is Refreshing && event matches FailoverEvent::Credentials(Err(_))
    ||| (phase matches Phase::Recording { stop, .. } && !stop) && event
        matches FailoverEvent::Recorded(Ok(_))
}

proof fn lemma_first_able(
    candidates: Seq<Seq<char>>,
    accounts: AccountsModel,
    model: Seq<char>,
    scope: Option<Seq<char>>,
    now: u64,
    i: int,
)
    requires
        0 <= i <= candidates.len(),
        forall|k: int|
            0 <= k < i ==> !can_serve(accounts, #[trigger] candidates[k], model, scope, now),
        i < candidates.len() ==> can_serve(accounts, candidates[i], model, scope, now),
    ensures
        failover::chosen(candidates, accounts, model, scope, now) == (if i < candidates.len() {
            Some((candidates[i], candidates.skip(i + 1)))
        } else {
            None
        }),
    decreases i,
{
    if i > 0 {
        let rest = candidates.skip(1);
        assert(!can_serve(accounts, candidates[0], model, scope, now));
        assert forall|k: int| 0 <= k < i - 1 implies !can_serve(
            accounts,
            #[trigger] rest[k],
            model,
            scope,
            now,
        ) by {
            assert(rest[k] == candidates[k + 1]);
        }
        lemma_first_able(rest, accounts, model, scope, now, i - 1);
        if i < candidates.len() {
            assert(rest.skip(i) =~= candidates.skip(i + 1));
        }
    }
}

proof fn lemma_candidates(request: Failover, accounts: AccountsModel, now: u64, i: int)
    requires
        0 <= i <= request.candidates@.len(),
        none_able(request, accounts, now, i),
        i < request.candidates@.len() ==> can_serve(
            accounts,
            request.candidates@[i]@,
            request.model@,
            request.required_scope.deep_view(),
            now,
        ),
    ensures
        ({
            let all = request@.candidates;
            failover::chosen(all, accounts, request@.model, request@.required_scope, now) == (if i
                < all.len() {
                Some((all[i], all.skip(i + 1)))
            } else {
                None
            })
        }),
{
    let all = request@.candidates;
    assert forall|k: int| 0 <= k < i implies !can_serve(
        accounts,
        #[trigger] all[k],
        request@.model,
        request@.required_scope,
        now,
    ) by {
        assert(all[k] == request.candidates@[k]@);
    }
    lemma_first_able(all, accounts, request@.model, request@.required_scope, now, i);
}

/// At the start, where the credentials of an account cannot be had, and after a failure was
/// recorded that leaves other accounts to try, the first remaining candidate that can serve the
/// request is tried. Those before it are passed over, and those after it remain.
pub proof fn next_able_account_is_tried(
    request: &mut Failover,
    event: FailoverEvent,
    accounts: &Accounts,
    now: u64,
    action: FailoverAction,
    i: int,
)
    requires
        call_ensures(Failover::step_at, (request, event, accounts, now), action),
        moves_on(old(request).phase, event),
        first_able(*old(request), accounts@, now, i),
    ensures
        action matches FailoverAction::Authenticate { id } && id@ == old(request).candidates@[i]@,
        final(request).phase matches Phase::Authenticating { id } && id@ == old(request).candidates@[i]@,
        final(request).candidates.deep_view() == old(request).candidates.deep_view().skip(i + 1),
        final(request).model@ == old(request).model@,
        final(request).policy == old(request).policy,
        final(request).required_scope.deep_view() == old(request).required_scope.deep_view(),
{
    lemma_candidates(*old(request), accounts@, now, i);
}

/// Where no remaining candidate can serve the request, it fails: with the reason for which the
/// last account could not serve it, and where no account was tried, with the advice to look at
/// the accounts.
pub proof fn request_fails_for_want_of_accounts(
    request: &mut Failover,
    event: FailoverEvent,
    accounts: &Accounts,
    now: u64,
    action: FailoverAction,
)
    requires
        call_ensures(Failover::step_at, (request, event, accounts, now), action),
        moves_on(old(request).phase, event),
        none_able(*old(request), accounts@, now, old(request).candidates@.len() as int),
    ensures
        final(request).phase is Over,
        action is Fail,
        event matches FailoverEvent::Credentials(Err(error)) ==> action@ == ActionModel::Fail(
            error@,
        ),
        old(request).phase matches Phase::Recording { error, .. } ==> action@ == ActionModel::Fail(
            ErrorModel::Request(error),
        ),
        event is Begin && old(request).last_error is None ==> action@ == ActionModel::Fail(
            ErrorModel::Message(
                "No eligible ChatGPT account. Check account status in Settings > AI > LLM Providers."@,
            ),
        ),
{
    lemma_candidates(*old(request), accounts@, now, old(request).candidates@.len() as int);
}

/// Credentials that were awaited are used to send the request for the account they were awaited
/// for, at first and after a renewal.
pub proof fn request_is_sent_with_credentials(
    request: &mut Failover,
    credentials: CodexCredentials,
    accounts: &Accounts,
    now: u64,
    action: FailoverAction,
    account: String,
)
    requires
        call_ensures(
            Failover::step_at,
            (request, FailoverEvent::Credentials(Ok(credentials)), accounts, now),
            action,
        ),
        (old(request).phase matches Phase::Authenticating { id } && id == account) || (old(request).phase matches Phase::Refreshing { id, .. } && id == account),
    ensures
        action matches FailoverAction::Send { id, credentials: used } && id@ == account@ && used@
            == credentials@,
        final(request)@.phase matches PhaseModel::Sending {
            id,
            credentials: used,
            refreshed,
            retried,
        } && id == account@ && used == credentials@ && refreshed == (old(request).phase is Refreshing) && retried == (old(request).phase matches Phase::Refreshing {
            retried,
            ..
        } && retried),
        final(request).candidates.deep_view() == old(request).candidates.deep_view(),
{
}

/// After the wait the request is sent again for the same account with the same credentials, and
/// is not waited for a second time.
pub proof fn request_is_sent_again_after_wait(
    request: &mut Failover,
    accounts: &Accounts,
    now: u64,
    action: FailoverAction,
    account: String,
    credentials: CodexCredentials,
    refreshed: bool,
)
    requires
        call_ensures(Failover::step_at, (request, FailoverEvent::Waited, accounts, now), action),
        old(request).phase == (Phase::Waiting { id: account, credentials, refreshed }),
    ensures
        action matches FailoverAction::Send { id, credentials: used } && id@ == account@ && used@
            == credentials@,
        final(request)@.phase == (PhaseModel::Sending {
            id: account@,
            credentials: credentials@,
            refreshed,
            retried: true,
        }),
        final(request).candidates.deep_view() == old(request).candidates.deep_view(),
{
}

/// An answer is handed out for the account that the request was sent for, with the token that it
/// was sent with, and ends the request.
pub proof fn answer_is_delivered(
    request: &mut Failover,
    accounts: &Accounts,
    now: u64,
    action: FailoverAction,
    account: String,
    credentials: CodexCredentials,
    refreshed: bool,
    retried: bool,
)
    requires
        call_ensures(Failover::step_at, (request, FailoverEvent::Answered, accounts, now), action),
        old(request).phase == (Phase::Sending { id: account, credentials, refreshed, retried }),
    ensures
        action matches FailoverAction::Deliver { id, token } && id@ == account@ && token@
            == credentials.access_token@,
        final(request).phase is Over,
{
}

/// A refused token is renewed once, a failure that may pass is waited for once, and every other
/// failure is recorded for the account and the token of the request. Only a failure that is not
/// the account's own, a missing permission without a name, and the policy to switch by hand keep
/// the request from the other accounts. A missing permission that has a name is required of them.
pub proof fn failures_are_handled(
    request: &mut Failover,
    error: RequestError,
    failure: AccountFailure,
    accounts: &Accounts,
    now: u64,
    action: FailoverAction,
    account: String,
    credentials: CodexCredentials,
    refreshed: bool,
    retried: bool,
)
    requires
        call_ensures(
            Failover::step_at,
            (request, FailoverEvent::Failed { error, failure }, accounts, now),
            action,
        ),
        old(request).phase == (Phase::Sending { id: account, credentials, refreshed, retried }),
    ensures
        final(request).candidates.deep_view() == old(request).candidates.deep_view(),
        failure is Unauthorized && !refreshed ==> (action matches FailoverAction::Refresh {
            id,
            rejected,
        } && id@ == account@ && rejected@ == credentials.access_token@) && final(request)@.phase
            == (PhaseModel::Refreshing { id: account@, retried }),
        failure is Transient && !retried ==> action is Wait && final(request)@.phase == (
        PhaseModel::Waiting { id: account@, credentials: credentials@, refreshed }),
        !(failure is Unauthorized && !refreshed) && !(failure is Transient && !retried) ==> {
            &&& action matches FailoverAction::Record { id, token, failure: recorded } && id@
                == account@ && token@ == credentials.access_token@ && recorded@ == failure@
            &&& final(request)@.phase == (PhaseModel::Recording {
                error,
                stop: failure is Other || failure == AccountFailure::Scope(None) || old(request).policy == AccountSwitchPolicy::Manual,
            })
        },
        final(request).required_scope.deep_view() == (match failure {
            AccountFailure::Scope(scope) => scope.deep_view(),
            _ => old(request).required_scope.deep_view(),
        }),
{
}

/// Once a failure that ends the request is recorded, the request fails with the service's own
/// error; where the failure could not be saved, with the reason for that.
pub proof fn recorded_failures_end_the_request(
    request: &mut Failover,
    event: FailoverEvent,
    accounts: &Accounts,
    now: u64,
    action: FailoverAction,
    error: RequestError,
    stop: bool,
)
    requires
        call_ensures(Failover::step_at, (request, event, accounts, now), action),
        old(request).phase == (Phase::Recording { error, stop }),
    ensures
        stop && (event matches FailoverEvent::Recorded(Ok(_))) ==> action@ == ActionModel::Fail(
            ErrorModel::Request(error),
        ) && final(request).phase is Over,
        event matches FailoverEvent::Recorded(Err(reason)) ==> action@ == ActionModel::Fail(
            reason@,
        ) && final(request).phase is Over,
{
}

/// A request that is over stays over, whatever is reported.
pub proof fn ended_requests_stay_ended(
    request: &mut Failover,
    event: FailoverEvent,
    accounts: &Accounts,
    now: u64,
    action: FailoverAction,
)
    requires
        call_ensures(Failover::step_at, (request, event, accounts, now), action),
        old(request).phase is Over,
    ensures
        action is Fail,
        final(request).phase is Over,
{
}

proof fn lemma_others_in_order(order: Seq<Seq<char>>, first: Seq<char>)
    requires
        id_map::increasing(order),
    ensures
        id_map::increasing(failover::others(order, first)),
        forall|id: Seq<char>| #[trigger]
            failover::others(order, first).contains(id) <==> order.contains(id) && id != first,
    decreases order.len(),
{
    let kept = failover::others(order, first);
    if order.len() > 0 {
        let shorter = order.drop_last();
        let last = order.last();
        assert forall|i: int, j: int| 0 <= i < j < shorter.len() implies text::precedes(
            #[trigger] shorter[i],
            #[trigger] shorter[j],
        ) by {
            assert(shorter[i] == order[i] && shorter[j] == order[j]);
        }
        lemma_others_in_order(shorter, first);
        let rest = failover::others(shorter, first);
        assert forall|id: Seq<char>| #[trigger] order.contains(id) <==> shorter.contains(id) || id
            == last by {
            if shorter.contains(id) {
                assert(order[shorter.index_of(id)] == id);
            }
            if id == last {
                assert(order[order.len() - 1] == id);
            }
            if order.contains(id) && id != last {
                assert(shorter[order.index_of(id)] == id);
            }
        }
        if last != first {
            assert(kept =~= rest.push(last));
            assert forall|i: int, j: int| 0 <= i < j < kept.len() implies text::precedes(
                #[trigger] kept[i],
                #[trigger] kept[j],
            ) by {
                assert(rest.contains(rest[i]));
                let k = order.index_of(rest[i]);
                assert(order[k] == rest[i]);
                assert(shorter.contains(rest[i]));
                let s = shorter.index_of(rest[i]);
                assert(order[s] == rest[i]);
                if j == kept.len() - 1 {
                    assert(text::precedes(order[s], order[order.len() - 1]));
                } else {
                    assert(kept[j] == rest[j]);
                }
            }
            assert forall|id: Seq<char>| #[trigger] kept.contains(id) <==> order.contains(id) && id
                != first by {
                if rest.contains(id) {
                    assert(kept[rest.index_of(id)] == id);
                }
                if id == last {
                    assert(kept[kept.len() - 1] == id);
                }
                if kept.contains(id) && id != last {
                    assert(rest[kept.index_of(id)] == id);
                }
            }
        }
    } else {
        assert(kept =~= Seq::<Seq<char>>::empty());
    }
}

/// A request tries the account that it asks for, else the selected one, first. If accounts are
/// switched on errors, all others follow in the order of their ids; if by hand, none does.
pub proof fn candidates_are_in_order(
    accounts: &Accounts,
    policy: AccountSwitchPolicy,
    preferred: Option<&str>,
    model: &str,
    request: Failover,
)
    requires
        call_ensures(Failover::new, (accounts, policy, preferred, model), request),
        accounts@.accounts.dom().finite(),
    ensures
        ({
            let all = request.candidates.deep_view();
            &&& all.len() > 0
            &&& all[0] == (match preferred {
                Some(id) => id@,
                None => accounts.selected@,
            })
            &&& policy == AccountSwitchPolicy::Manual ==> all.len() == 1
            &&& policy == AccountSwitchPolicy::OnError ==> forall|id: Seq<char>| #[trigger]
                all.skip(1).contains(id) <==> id != all[0] && accounts@.accounts.contains_key(id)
            &&& id_map::increasing(all.skip(1))
        }),
        request.policy == policy,
        request.model@ == model@,
        request.last_error is None,
        request.required_scope is None,
        request.phase is Start,
{
    let all = request.candidates.deep_view();
    let first = failover::preference(accounts@, preferred.deep_view());
    assert(all[0] == first);
    id_map::key_order_exists(accounts@.accounts.dom());
    lemma_others_in_order(accounts@.order(), first);
    if policy == AccountSwitchPolicy::OnError {
        let rest = failover::others(accounts@.order(), first);
        assert(all.skip(1) =~= rest);
        assert forall|id: Seq<char>| #[trigger] all.skip(1).contains(id) <==> id != all[0]
            && accounts@.accounts.contains_key(id) by {
            assert(accounts@.accounts.dom().contains(id) <==> accounts@.order().contains(id));
        }
    } else {
        assert(all.skip(1) =~= Seq::<Seq<char>>::empty());
    }
}

/// What is reported of a failed request is its own error, and what that error says of the account
/// at the time.
pub proof fn failed_requests_are_judged(
    error: RequestError,
    now: u64,
    event: FailoverEvent,
)
    requires
        call_ensures(failover::failed_at, (error, now), event),
    ensures
        event matches FailoverEvent::Failed { error: reported, failure } && reported == error
            && failure@ == crate::failure::failure_of(
            error,
            crate::failure::body_payload(error),
            now,
        ),
{
}

} // verus!
