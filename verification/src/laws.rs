//! What holds of the ledger over whole histories of calls.

use vstd::prelude::*;
use crate::state::{snapshot, State};
use crate::types::{AccountId, Balance, CurrencySnapshot, Digest};

verus! {

/// One call of `request_grant`, by its arguments.
pub struct Request {
    pub origin: AccountId,
    pub grant_requester: AccountId,
    pub currency: CurrencySnapshot,
}

/// The ledger after the calls of `requests`, made in order from `state`.
pub open spec fn after_requests(state: State, requests: Seq<Request>) -> State
    decreases requests.len(),
{
    if requests.len() == 0 {
        state
    } else {
        let call = requests.last();
        after_requests(state, requests.drop_last()).after_request(
            call.grant_requester,
            call.currency.free_balance,
        )
    }
}

/// The call at position `i` of `requests` goes through.
pub open spec fn succeeds(state: State, requests: Seq<Request>, i: int) -> bool {
    after_requests(state, requests.take(i)).can_record()
}

/// How many of the calls of `requests` go through.
pub open spec fn successes(state: State, requests: Seq<Request>) -> nat
    decreases requests.len(),
{
    if requests.len() == 0 {
        0
    } else {
        successes(state, requests.drop_last()) + if after_requests(
            state,
            requests.drop_last(),
        ).can_record() {
            1nat
        } else {
            0nat
        }
    }
}

/// The balance observed by the latest call of `requests` that went through
/// for `who`, if there is one.
pub open spec fn latest_balance(
    state: State,
    requests: Seq<Request>,
    who: AccountId,
) -> Option<Balance>
    decreases requests.len(),
{
    if requests.len() == 0 {
        None
    } else {
        let call = requests.last();
        if call.grant_requester == who && after_requests(state, requests.drop_last()).can_record() {
            Some(call.currency.free_balance)
        } else {
            latest_balance(state, requests.drop_last(), who)
        }
    }
}

/// The ledger after attempts to add each of `tasks`, in order, to the
/// completed tasks of `who`.
pub open spec fn after_appends(state: State, who: AccountId, tasks: Seq<Digest>) -> State
    decreases tasks.len(),
{
    if tasks.len() == 0 {
        state
    } else {
        after_appends(state, who, tasks.drop_last()).after_append(who, tasks.last())
    }
}

/// How many of the attempts to add `tasks` go through.
pub open spec fn appended(state: State, who: AccountId, tasks: Seq<Digest>) -> nat
    decreases tasks.len(),
{
    if tasks.len() == 0 {
        0
    } else {
        appended(state, who, tasks.drop_last()) + if after_appends(
            state,
            who,
            tasks.drop_last(),
        ).can_append(who) {
            1nat
        } else {
            0nat
        }
    }
}

/// One more call takes the ledger one step further.
pub proof fn lemma_step(state: State, requests: Seq<Request>, i: int)
    requires
        0 <= i < requests.len(),
    ensures
        after_requests(state, requests.take(i + 1)) == after_requests(
            state,
            requests.take(i),
        ).after_request(requests[i].grant_requester, requests[i].currency.free_balance),
{
    let upto = requests.take(i + 1);
    assert(upto.drop_last() =~= requests.take(i));
    assert(upto.last() == requests[i]);
}

/// Counter safety. After any calls of `request_grant` the counter has grown
/// by the number of calls that went through, and a call that is refused
/// changes nothing at all: not the counter, not any record.
pub proof fn lemma_counter_counts_successes(state: State, requests: Seq<Request>)
    requires
        state.valid(),
    ensures
        after_requests(state, requests).valid(),
        after_requests(state, requests).profile_count == state.profile_count + successes(
            state,
            requests,
        ),
        forall|i: int|
            0 <= i < requests.len() && !succeeds(state, requests, i) ==> #[trigger] after_requests(
                state,
                requests.take(i + 1),
            ) == after_requests(state, requests.take(i)),
    decreases requests.len(),
{
    if requests.len() > 0 {
        lemma_counter_counts_successes(state, requests.drop_last());
    }
    assert forall|i: int|
        0 <= i < requests.len() && !succeeds(state, requests, i) implies #[trigger] after_requests(
        state,
        requests.take(i + 1),
    ) == after_requests(state, requests.take(i)) by {
        lemma_step(state, requests, i);
    }
}

/// Single record. After any calls of `request_grant`, an account for which
/// a call went through has one record, stored under the account, and that
/// record holds the balance observed by the latest such call. An account for
/// which no call went through has what it had before.
pub proof fn lemma_latest_record(state: State, requests: Seq<Request>, who: AccountId)
    requires
        state.valid(),
    ensures
        match latest_balance(state, requests, who) {
            Some(balance) => {
                &&& after_requests(state, requests).requesters.contains_key(who)
                &&& after_requests(state, requests).requesters[who] == snapshot(who, balance)
            },
            None => {
                &&& after_requests(state, requests).requesters.contains_key(who)
                    == state.requesters.contains_key(who)
                &&& after_requests(state, requests).requesters[who] == state.requesters[who]
            },
        },
    decreases requests.len(),
{
    if requests.len() > 0 {
        lemma_latest_record(state, requests.drop_last(), who);
    }
}

/// Query consistency. After any calls of `request_grant`, a request is on
/// record for `who` exactly when one was on record before or one of the
/// calls went through for `who`. From the empty ledger: exactly when a call
/// for `who` went through.
pub proof fn lemma_query_consistency(state: State, requests: Seq<Request>, who: AccountId)
    ensures
        after_requests(state, requests).has_requested(who) <==> state.has_requested(who)
            || exists|i: int|
                0 <= i < requests.len() && (#[trigger] requests[i]).grant_requester == who
                    && succeeds(state, requests, i),
    decreases requests.len(),
{
    if requests.len() > 0 {
        let before = requests.drop_last();
        let n = requests.len() - 1;
        lemma_query_consistency(state, before, who);
        assert(requests.take(n) =~= before);
        assert forall|i: int| 0 <= i < n implies requests.take(i) == before.take(i) by {
            assert(requests.take(i) =~= before.take(i));
        }
        if after_requests(state, requests).has_requested(who) && !state.has_requested(who) {
            if after_requests(state, before).has_requested(who) {
                let i = choose|i: int|
                    0 <= i < before.len() && (#[trigger] before[i]).grant_requester == who
                        && succeeds(state, before, i);
                assert(requests[i].grant_requester == who && succeeds(state, requests, i));
            } else {
                assert(requests[n].grant_requester == who && succeeds(state, requests, n));
            }
        }
        if exists|i: int|
            0 <= i < requests.len() && (#[trigger] requests[i]).grant_requester == who
                && succeeds(state, requests, i) {
            let i = choose|i: int|
                0 <= i < requests.len() && (#[trigger] requests[i]).grant_requester == who
                    && succeeds(state, requests, i);
            if i < n {
                assert(before[i].grant_requester == who && succeeds(state, before, i));
            }
        }
    }
}

/// Archive bound. After any attempts to add completed tasks for `who`, the
/// sequence has grown by the number of attempts that went through and is
/// no longer than the bound, so no more attempts can go through than there
/// was room for; and an attempt made when the sequence is full changes
/// nothing.
pub proof fn lemma_archive_bound(state: State, who: AccountId, tasks: Seq<Digest>)
    requires
        state.valid(),
    ensures
        after_appends(state, who, tasks).valid(),
        after_appends(state, who, tasks).tasks_of(who).len() == state.tasks_of(who).len()
            + appended(state, who, tasks),
        after_appends(state, who, tasks).tasks_of(who).len()
            <= state.config.max_completed_tasks_len,
        appended(state, who, tasks) <= state.config.max_completed_tasks_len,
        forall|i: int|
            0 <= i < tasks.len() && !after_appends(state, who, tasks.take(i)).can_append(who)
                ==> #[trigger] after_appends(state, who, tasks.take(i + 1)) == after_appends(
                state,
                who,
                tasks.take(i),
            ),
    decreases tasks.len(),
{
    if tasks.len() > 0 {
        lemma_archive_bound(state, who, tasks.drop_last());
        lemma_appends_keep_config(state, who, tasks.drop_last());
    }
    lemma_appends_keep_config(state, who, tasks);
    assert forall|i: int|
        0 <= i < tasks.len() && !after_appends(state, who, tasks.take(i)).can_append(
            who,
        ) implies #[trigger] after_appends(state, who, tasks.take(i + 1)) == after_appends(
        state,
        who,
        tasks.take(i),
    ) by {
        let upto = tasks.take(i + 1);
        assert(upto.drop_last() =~= tasks.take(i));
    }
}

/// Adding completed tasks leaves the limits of the ledger as they were.
pub proof fn lemma_appends_keep_config(state: State, who: AccountId, tasks: Seq<Digest>)
    ensures
        after_appends(state, who, tasks).config == state.config,
    decreases tasks.len(),
{
    if tasks.len() > 0 {
        lemma_appends_keep_config(state, who, tasks.drop_last());
    }
}

} // verus!
