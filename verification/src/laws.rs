use crate::model::FreezerState;
use crate::quorum::{quorum, quorum_bounds};
use crate::types::{Action, ActionInfo, BridgeError, VoteOutcome, VoteReceipt};
use vstd::prelude::*;

verus! {

/// The bridge after the accounts in `voters` voted under `id`, one after
/// another, each bringing `action`.
pub open spec fn after_votes(
    start: FreezerState,
    voters: Seq<Seq<u8>>,
    id: Seq<char>,
    action: Action,
) -> FreezerState
    decreases voters.len(),
{
    if voters.len() == 0 {
        start
    } else {
        after_votes(start, voters.drop_last(), id, action).vote(voters.last(), id, action)
    }
}

/// Whether a vote of `caller` under `id` hands back an effect to carry out.
pub open spec fn fires(state: FreezerState, caller: Seq<u8>, id: Seq<char>, action: Action) -> bool {
    match state.vote_result(caller, id, action) {
        Ok(receipt) => receipt.dispatch is Some,
        Err(_) => false,
    }
}

/// How many of the votes of `voters` under `id`, cast one after another, hand
/// back an effect to carry out.
pub open spec fn executions(
    start: FreezerState,
    voters: Seq<Seq<u8>>,
    id: Seq<char>,
    action: Action,
) -> nat
    decreases voters.len(),
{
    if voters.len() == 0 {
        0
    } else {
        let earlier = executions(start, voters.drop_last(), id, action);
        let state = after_votes(start, voters.drop_last(), id, action);
        if fires(state, voters.last(), id, action) {
            earlier + 1
        } else {
            earlier
        }
    }
}

/// The bridge after relays that ended as `faults` says, one after another.
pub open spec fn after_relays(start: FreezerState, faults: Seq<Option<BridgeError>>) -> FreezerState
    decreases faults.len(),
{
    if faults.len() == 0 {
        start
    } else {
        after_relays(start, faults.drop_last()).relay(faults.last())
    }
}

/// How many of the relays went through.
pub open spec fn successes(faults: Seq<Option<BridgeError>>) -> nat
    decreases faults.len(),
{
    if faults.len() == 0 {
        0
    } else if faults.last() is None {
        successes(faults.drop_last()) + 1
    } else {
        successes(faults.drop_last())
    }
}

/// Registering a validator and relaying an event keep the bridge well
/// formed.
pub proof fn subscribe_and_relay_keep_inv(state: FreezerState, who: Seq<u8>)
    requires
        state.inv(),
        state.has_seat(who),
    ensures
        state.subscribe(who).inv(),
        state.relayed().inv(),
        FreezerState::init(state.wrapper).inv(),
{
    if state.validators.contains(who) {
        assert(state.validators.insert(who) =~= state.validators);
    }
}

/// A vote keeps the bridge well formed.
pub proof fn vote_keeps_inv(state: FreezerState, caller: Seq<u8>, id: Seq<char>, action: Action)
    requires
        state.inv(),
        state.has_room(caller, id),
    ensures
        state.vote(caller, id, action).inv(),
{
    if state.validators.contains(caller) {
        if state.votes(id) + 1 == state.count() {
            assert(state.tallies.remove(id).dom() =~= state.tallies.dom().remove(id));
        } else {
            let tally = ActionInfo {
                action: state.payload(id, action),
                validators: (state.votes(id) + 1) as u32,
            };
            assert(state.tallies.insert(id, tally).dom() =~= state.tallies.dom().insert(id));
        }
    }
}

/// A vote of a stranger is turned away and leaves the bridge as it was, the
/// votes under every id included.
pub proof fn stranger_changes_nothing(
    state: FreezerState,
    caller: Seq<u8>,
    id: Seq<char>,
    action: Action,
)
    requires
        !state.validators.contains(caller),
    ensures
        state.vote(caller, id, action) == state,
        state.vote_result(caller, id, action) == Err::<VoteReceipt, BridgeError>(
            BridgeError::NotAuthorized,
        ),
        forall|other: Seq<char>| state.vote(caller, id, action).votes(other) == state.votes(other),
{
}

/// A vote of a validator removes the tally exactly when it is the vote that
/// brings the count to the size of the validator set; any other vote leaves
/// the tally open with one vote more.
pub proof fn retired_exactly_when_all_voted(
    state: FreezerState,
    caller: Seq<u8>,
    id: Seq<char>,
    action: Action,
)
    requires
        state.inv(),
        state.validators.contains(caller),
    ensures
        state.receipt(id, action).retired <==> state.votes(id) + 1 == state.count(),
        state.receipt(id, action).retired <==> !state.vote(caller, id, action).tallies.contains_key(
            id,
        ),
        !state.receipt(id, action).retired ==> state.vote(caller, id, action).votes(id)
            == state.votes(id) + 1,
{
    if state.validators.len() == 0 {
        state.validators.lemma_len0_is_empty();
    }
}

/// After the vote that retired a tally, the next vote under the same id
/// opens a new one: it counts as the first vote, and the action it brings is
/// the one that counts.
pub proof fn vote_after_retirement_starts_afresh(
    state: FreezerState,
    last: Seq<u8>,
    next: Seq<u8>,
    id: Seq<char>,
    action: Action,
    later: Action,
)
    requires
        state.inv(),
        state.validators.contains(last),
        state.validators.contains(next),
        state.receipt(id, action).retired,
    ensures
        state.vote(last, id, action).votes(id) == 0,
        state.vote(last, id, action).receipt(id, later).votes == 1,
        state.vote(last, id, action).payload(id, later) == later,
        state.count() > 1 ==> state.vote(last, id, action).vote(next, id, later).votes(id) == 1,
{
}

/// One round of voting: the bridge has `n >= 1` validators, no tally is open
/// under `id`, and `n` votes of validators arrive under `id`, one after
/// another. Then exactly one of them hands back an effect to carry out: the
/// one that brings the count to the quorum. The votes before the last leave
/// the tally open, the last one retires it, and the bridge is then as it was
/// before the round.
pub proof fn one_execution_per_round(
    start: FreezerState,
    voters: Seq<Seq<u8>>,
    id: Seq<char>,
    action: Action,
)
    requires
        start.inv(),
        !start.tallies.contains_key(id),
        voters.len() == start.count(),
        voters.len() >= 1,
        forall|k: int| 0 <= k < voters.len() ==> start.validators.contains(#[trigger] voters[k]),
    ensures
        executions(start, voters, id, action) == 1,
        forall|k: int|
            0 <= k < voters.len() ==> (#[trigger] fires(
                after_votes(start, voters.take(k), id, action),
                voters[k],
                id,
                action,
            ) <==> k + 1 == quorum(start.count())),
        forall|k: int|
            0 <= k < voters.len() ==> ((#[trigger] after_votes(
                start,
                voters.take(k),
                id,
                action,
            ).receipt(id, action)).outcome == VoteOutcome::Executed <==> k + 1 == quorum(
                start.count(),
            )),
        forall|k: int|
            0 < k < voters.len() ==> (#[trigger] after_votes(start, voters.take(k), id, action)).votes(
                id,
            ) == k,
        after_votes(start, voters, id, action) == start,
{
    let n = voters.len();
    quorum_bounds(n);
    round_prefix(start, voters, id, action, n as int);
    assert(voters.take(n as int) =~= voters);
    assert forall|k: int| 0 <= k < voters.len() implies (#[trigger] fires(
        after_votes(start, voters.take(k), id, action),
        voters[k],
        id,
        action,
    ) <==> k + 1 == quorum(start.count())) by {
        round_prefix(start, voters, id, action, k);
    }
    assert forall|k: int| 0 <= k < voters.len() implies ((#[trigger] after_votes(
        start,
        voters.take(k),
        id,
        action,
    ).receipt(id, action)).outcome == VoteOutcome::Executed <==> k + 1 == quorum(start.count())) by {
        round_prefix(start, voters, id, action, k);
    }
    assert forall|k: int| 0 < k < voters.len() implies (#[trigger] after_votes(
        start,
        voters.take(k),
        id,
        action,
    )).votes(id) == k by {
        round_prefix(start, voters, id, action, k);
    }
}

/// The state of a round after its first `k` votes.
proof fn round_prefix(
    start: FreezerState,
    voters: Seq<Seq<u8>>,
    id: Seq<char>,
    action: Action,
    k: int,
)
    requires
        start.inv(),
        !start.tallies.contains_key(id),
        voters.len() == start.count(),
        voters.len() >= 1,
        forall|j: int| 0 <= j < voters.len() ==> start.validators.contains(#[trigger] voters[j]),
        0 <= k <= voters.len(),
    ensures
        after_votes(start, voters.take(k), id, action) == (if 0 < k < voters.len() {
            FreezerState {
                tallies: start.tallies.insert(id, ActionInfo { action, validators: k as u32 }),
                ..start
            }
        } else {
            start
        }),
        executions(start, voters.take(k), id, action) == (if k >= quorum(start.count()) {
            1nat
        } else {
            0nat
        }),
    decreases k,
{
    let n = voters.len();
    quorum_bounds(n);
    if k > 0 {
        round_prefix(start, voters, id, action, k - 1);
        assert(voters.take(k).drop_last() =~= voters.take(k - 1));
        assert(voters.take(k).last() == voters[k - 1]);
        let state = after_votes(start, voters.take(k - 1), id, action);
        assert(state.validators.contains(voters[k - 1]));
        assert(state.votes(id) == k - 1);
        assert(state.payload(id, action) == action);
        let next = state.vote(voters[k - 1], id, action);
        if k == n {
            assert(next.tallies =~= start.tallies);
        } else {
            assert(next.tallies =~= start.tallies.insert(
                id,
                ActionInfo { action, validators: k as u32 },
            ));
        }
    }
}

/// The counter of events starts at zero, a relay that goes through raises it
/// by exactly one, and a relay that is refused leaves the bridge as it was:
/// after any run of relays the counter is the number of those that went
/// through.
pub proof fn counter_counts_relays(start: FreezerState, faults: Seq<Option<BridgeError>>)
    ensures
        FreezerState::init(start.wrapper).last_action == 0,
        start.relay(None).last_action == start.last_action + 1,
        forall|fault: BridgeError| #[trigger] start.relay(Some(fault)) == start,
        after_relays(start, faults).last_action == start.last_action + successes(faults),
        after_relays(start, faults).validators == start.validators,
        after_relays(start, faults).tallies == start.tallies,
    decreases faults.len(),
{
    if faults.len() > 0 {
        counter_counts_relays(start, faults.drop_last());
    }
}

} // verus!
