//! What call traces a run can produce.
//!
//! A run is the machine of [`crate::workflow`] fed a sequence of replies;
//! its trace is the sequence of mutating calls it asks for along the way.
//! The public lemmas here pin the trace down for every way a run can end:
//! a declined confirmation issues nothing, a failed collection creation
//! issues the collection call alone, a shard-key failure at index `k`
//! issues the collection call and then exactly the keys `0..=k` in order,
//! and a fully affirmative run issues the collection call and every key.

use vstd::prelude::*;

use crate::config::SHARD_KEY_COUNT;
use crate::workflow::Action;
use crate::workflow::Phase;
use crate::workflow::Reply;
use crate::workflow::phase_is_terminal;
use crate::workflow::step_action;
use crate::workflow::step_phase;

verus! {

/// The mutating calls a run asks for, from phase `p`, as the replies arrive
/// in order.  Replies beyond a terminal phase are absorbed without effect.
pub open spec fn run_actions(p: Phase, replies: Seq<Reply>) -> Seq<Action>
    decreases replies.len(),
{
    if replies.len() == 0 {
        Seq::empty()
    } else {
        (match step_action(p, replies[0]) {
            Some(a) => seq![a],
            None => Seq::empty(),
        }) + run_actions(step_phase(p, replies[0]), replies.drop_first())
    }
}

/// The phase a run stands in after the replies are absorbed in order.
pub open spec fn run_phase(p: Phase, replies: Seq<Reply>) -> Phase
    decreases replies.len(),
{
    if replies.len() == 0 {
        p
    } else {
        run_phase(step_phase(p, replies[0]), replies.drop_first())
    }
}

/// `n` affirmative replies in a row.
pub open spec fn yes_replies(n: nat) -> Seq<Reply> {
    Seq::new(n, |i: int| Reply::Flag(true))
}

/// The shard-key calls for `count` consecutive indices starting at `from`.
pub open spec fn shard_key_actions(from: nat, count: nat) -> Seq<Action> {
    Seq::new(count, |j: int| Action::CreateShardKey { index: (from + j) as u64 })
}

/// A run splits at any point: the trace of the whole is the trace of the
/// first part followed by the trace of the rest from where the first ended.
pub proof fn lemma_run_compose(p: Phase, a: Seq<Reply>, b: Seq<Reply>)
    ensures
        run_actions(p, a + b) == run_actions(p, a) + run_actions(run_phase(p, a), b),
        run_phase(p, a + b) == run_phase(run_phase(p, a), b),
    decreases a.len(),
{
    if a.len() == 0 {
        assert(a + b =~= b);
        assert(run_actions(p, a) + run_actions(run_phase(p, a), b) =~= run_actions(p, b));
    } else {
        let p2 = step_phase(p, a[0]);
        assert((a + b)[0] == a[0]);
        assert((a + b).drop_first() =~= a.drop_first() + b);
        lemma_run_compose(p2, a.drop_first(), b);
        assert(run_actions(p, a + b) =~= run_actions(p, a) + run_actions(run_phase(p, a), b));
    }
}

/// From a terminal phase nothing is ever issued and nothing changes.
pub proof fn lemma_run_terminal(p: Phase, replies: Seq<Reply>)
    requires
        phase_is_terminal(p),
    ensures
        run_actions(p, replies) == Seq::<Action>::empty(),
        run_phase(p, replies) == p,
    decreases replies.len(),
{
    if replies.len() > 0 {
        lemma_run_terminal(p, replies.drop_first());
        assert(run_actions(p, replies) =~= Seq::<Action>::empty());
    }
}

/// If the operator's answer is anything but an affirmative flag, the run
/// issues no call at all: no creation, no shard key.
pub proof fn lemma_confirmation_declined(r: Reply, rest: Seq<Reply>)
    requires
        r != Reply::Flag(true),
    ensures
        run_actions(Phase::Confirming, seq![r] + rest) == Seq::<Action>::empty(),
        phase_is_terminal(run_phase(Phase::Confirming, seq![r] + rest)),
{
    let s = seq![r] + rest;
    assert(s[0] == r);
    assert(s.drop_first() =~= rest);
    lemma_run_terminal(step_phase(Phase::Confirming, r), rest);
    assert(run_actions(Phase::Confirming, s) =~= Seq::<Action>::empty());
}

/// If the collection-creation exchange fails — transport error or a false
/// result flag — the run has issued the collection call and nothing else:
/// zero shard-key calls.
pub proof fn lemma_collection_failed(r: Reply, rest: Seq<Reply>)
    requires
        r != Reply::Flag(true),
    ensures
        run_actions(Phase::Confirming, seq![Reply::Flag(true), r] + rest) == seq![
            Action::CreateCollection,
        ],
        run_phase(Phase::Confirming, seq![Reply::Flag(true), r] + rest) == step_phase(
            Phase::CreatingCollection,
            r,
        ),
{
    reveal_with_fuel(run_actions, 3);
    reveal_with_fuel(run_phase, 3);
    let s = seq![Reply::Flag(true), r] + rest;
    assert(s[0] == Reply::Flag(true));
    assert(s.drop_first() =~= seq![r] + rest);
    let s1 = seq![r] + rest;
    assert(s1[0] == r);
    assert(s1.drop_first() =~= rest);
    lemma_run_terminal(step_phase(Phase::CreatingCollection, r), rest);
    assert(run_actions(Phase::Confirming, s) =~= seq![Action::CreateCollection]);
}

/// From the shard-key phase at index `i`, all-affirmative replies carry the
/// run to completion, issuing exactly the keys above `i` in increasing
/// order.
pub proof fn lemma_shard_keys_ok(i: u64)
    requires
        i < SHARD_KEY_COUNT,
    ensures
        run_actions(
            Phase::CreatingShardKey { index: i },
            yes_replies((SHARD_KEY_COUNT - i) as nat),
        ) == shard_key_actions(i as nat + 1, (SHARD_KEY_COUNT - 1 - i) as nat),
        run_phase(
            Phase::CreatingShardKey { index: i },
            yes_replies((SHARD_KEY_COUNT - i) as nat),
        ) == Phase::Complete,
    decreases SHARD_KEY_COUNT - i,
{
    let n = (SHARD_KEY_COUNT - i) as nat;
    let s = yes_replies(n);
    assert(s[0] == Reply::Flag(true));
    assert(s.drop_first() =~= yes_replies((n - 1) as nat));
    if i + 1 < SHARD_KEY_COUNT {
        lemma_shard_keys_ok((i + 1) as u64);
        assert(run_actions(Phase::CreatingShardKey { index: i }, s) =~= shard_key_actions(
            i as nat + 1,
            (SHARD_KEY_COUNT - 1 - i) as nat,
        ));
    } else {
        lemma_run_terminal(Phase::Complete, yes_replies((n - 1) as nat));
        assert(run_actions(Phase::CreatingShardKey { index: i }, s) =~= shard_key_actions(
            i as nat + 1,
            0,
        ));
    }
}

/// From the shard-key phase at index `i`, affirmative replies up to index
/// `k` and then a failure — transport error or a false result flag — issue
/// exactly the keys `i+1..=k` and nothing after.
pub proof fn lemma_shard_keys_fail(i: u64, k: u64, r: Reply, rest: Seq<Reply>)
    requires
        i <= k < SHARD_KEY_COUNT,
        r != Reply::Flag(true),
    ensures
        run_actions(
            Phase::CreatingShardKey { index: i },
            yes_replies((k - i) as nat) + seq![r] + rest,
        ) == shard_key_actions(i as nat + 1, (k - i) as nat),
        run_phase(
            Phase::CreatingShardKey { index: i },
            yes_replies((k - i) as nat) + seq![r] + rest,
        ) == step_phase(Phase::CreatingShardKey { index: k }, r),
    decreases k - i,
{
    let s = yes_replies((k - i) as nat) + seq![r] + rest;
    if i == k {
        assert(s =~= seq![r] + rest);
        assert(s[0] == r);
        assert(s.drop_first() =~= rest);
        lemma_run_terminal(step_phase(Phase::CreatingShardKey { index: k }, r), rest);
        assert(run_actions(Phase::CreatingShardKey { index: i }, s) =~= shard_key_actions(
            i as nat + 1,
            0,
        ));
    } else {
        assert(s[0] == Reply::Flag(true));
        assert(s.drop_first() =~= yes_replies((k - (i + 1)) as nat) + seq![r] + rest);
        lemma_shard_keys_fail((i + 1) as u64, k, r, rest);
        assert(run_actions(Phase::CreatingShardKey { index: i }, s) =~= shard_key_actions(
            i as nat + 1,
            (k - i) as nat,
        ));
    }
}

/// An affirmative confirmation and an affirmative creation result issue the
/// collection call and then the call for shard key `0`.
proof fn lemma_confirm_then_create()
    ensures
        run_actions(Phase::Confirming, seq![Reply::Flag(true), Reply::Flag(true)]) == seq![
            Action::CreateCollection,
            Action::CreateShardKey { index: 0 },
        ],
        run_phase(Phase::Confirming, seq![Reply::Flag(true), Reply::Flag(true)])
            == (Phase::CreatingShardKey { index: 0 }),
{
    reveal_with_fuel(run_actions, 4);
    reveal_with_fuel(run_phase, 4);
    let s = seq![Reply::Flag(true), Reply::Flag(true)];
    assert(s[0] == Reply::Flag(true));
    assert(s.drop_first() =~= seq![Reply::Flag(true)]);
    let s1 = seq![Reply::Flag(true)];
    assert(s1[0] == Reply::Flag(true));
    assert(s1.drop_first() =~= Seq::<Reply>::empty());
    assert(run_actions(Phase::Confirming, s) =~= seq![
        Action::CreateCollection,
        Action::CreateShardKey { index: 0 },
    ]);
}

/// If the shard-key exchange at index `k` fails — transport error or a
/// false result flag — the run has issued the collection call once and the
/// shard-key calls `0..=k` exactly once each, in increasing order, and
/// issues nothing further.
pub proof fn lemma_shard_key_failure(k: u64, r: Reply, rest: Seq<Reply>)
    requires
        k < SHARD_KEY_COUNT,
        r != Reply::Flag(true),
    ensures
        run_actions(
            Phase::Confirming,
            seq![Reply::Flag(true), Reply::Flag(true)] + yes_replies(k as nat) + seq![r] + rest,
        ) == seq![Action::CreateCollection] + shard_key_actions(0, k as nat + 1),
        run_phase(
            Phase::Confirming,
            seq![Reply::Flag(true), Reply::Flag(true)] + yes_replies(k as nat) + seq![r] + rest,
        ) == step_phase(Phase::CreatingShardKey { index: k }, r),
{
    let two = seq![Reply::Flag(true), Reply::Flag(true)];
    let tail = yes_replies(k as nat) + seq![r] + rest;
    assert(two + yes_replies(k as nat) + seq![r] + rest =~= two + tail);
    lemma_run_compose(Phase::Confirming, two, tail);
    lemma_confirm_then_create();
    lemma_shard_keys_fail(0, k, r, rest);
    assert(run_actions(Phase::Confirming, two + tail) =~= seq![Action::CreateCollection]
        + shard_key_actions(0, k as nat + 1));
}

/// A fully affirmative run issues the collection call once and then every
/// shard key `0..SHARD_KEY_COUNT` exactly once, in increasing order, and
/// completes.
pub proof fn lemma_full_success()
    ensures
        run_actions(
            Phase::Confirming,
            seq![Reply::Flag(true), Reply::Flag(true)] + yes_replies(SHARD_KEY_COUNT as nat),
        ) == seq![Action::CreateCollection] + shard_key_actions(0, SHARD_KEY_COUNT as nat),
        run_phase(
            Phase::Confirming,
            seq![Reply::Flag(true), Reply::Flag(true)] + yes_replies(SHARD_KEY_COUNT as nat),
        ) == Phase::Complete,
{
    let two = seq![Reply::Flag(true), Reply::Flag(true)];
    let tail = yes_replies(SHARD_KEY_COUNT as nat);
    lemma_run_compose(Phase::Confirming, two, tail);
    lemma_confirm_then_create();
    lemma_shard_keys_ok(0);
    assert(run_actions(Phase::Confirming, two + tail) =~= seq![Action::CreateCollection]
        + shard_key_actions(0, SHARD_KEY_COUNT as nat));
}

} // verus!
