//! What holds of every token, whatever is done with it.
//!
//! The laws speak of the [`Model`]: of the steps that the contracts of
//! [`State`](crate::state::State) name, and of histories of such steps. One
//! speaks of the deadline that a [`Token`] counts from a start.

use crate::clock::{duration_nanos, instant_nanos};
use crate::model::{Model, Op};
use crate::token::Token;
use std::time::{Duration, Instant};
use vstd::prelude::*;

verus! {

/// No operation of the history is a `cancel`.
pub open spec fn only_polls(ops: Seq<Op>) -> bool {
    forall|i: int| 0 <= i < ops.len() ==> #[trigger] ops[i] is Poll
}

/// Every operation of the history is a `cancel`.
pub open spec fn only_cancels(ops: Seq<Op>) -> bool {
    forall|i: int| 0 <= i < ops.len() ==> #[trigger] ops[i] is Cancel
}

/// No query of the history reads a time later than `limit`.
pub open spec fn polls_by(ops: Seq<Op>, limit: int) -> bool {
    forall|i: int|
        0 <= i < ops.len() ==> ((#[trigger] ops[i]) matches Op::Poll(now) ==> now <= limit)
}

/// Some query of the history reads a time later than `limit`.
pub open spec fn polls_after(ops: Seq<Op>, limit: int) -> bool {
    exists|i: int| 0 <= i < ops.len() && ((#[trigger] ops[i]) matches Op::Poll(now) && now > limit)
}

/// No operation changes the deadline.
pub proof fn law_deadline_is_fixed(m: Model, ops: Seq<Op>)
    ensures
        m.run(ops).deadline == m.deadline,
    decreases ops.len(),
{
    if ops.len() > 0 {
        law_deadline_is_fixed(m, ops.drop_last());
        assert(m.run(ops) == m.run(ops.drop_last()).step(ops.last()));
    }
}

/// The flag never goes back: what is canceled stays canceled under every
/// operation, and nothing else about it changes.
pub proof fn law_flag_never_falls(m: Model, ops: Seq<Op>)
    requires
        m.was_canceled(),
    ensures
        m.run(ops) == m,
        m.run(ops).was_canceled(),
    decreases ops.len(),
{
    if ops.len() > 0 {
        law_flag_never_falls(m, ops.drop_last());
        assert(m.run(ops) == m.run(ops.drop_last()).step(ops.last()));
    }
}

/// A token without a deadline is not canceled as long as nobody cancels it:
/// after any number of queries, at any times, `was_canceled` is false and so
/// is the answer to the next query, whatever the clock reads then.
pub proof fn law_live_until_canceled(ops: Seq<Op>, now: int)
    requires
        only_polls(ops),
    ensures
        Model::fresh(None).run(ops) == Model::fresh(None),
        !Model::fresh(None).run(ops).was_canceled(),
        !Model::fresh(None).run(ops).is_canceled(now),
    decreases ops.len(),
{
    let m = Model::fresh(None);
    if ops.len() > 0 {
        law_live_until_canceled(ops.drop_last(), now);
        assert(ops.last() is Poll);
        assert(m.run(ops) == m.run(ops.drop_last()).step(ops.last()));
    }
}

/// Once `cancel` has been called, the token is canceled for ever: whatever
/// is done with it afterwards, `was_canceled` is true and so is the answer
/// to every query.
pub proof fn law_canceled_for_ever(m: Model, ops: Seq<Op>, now: int)
    ensures
        m.cancel().run(ops) == m.cancel(),
        m.cancel().run(ops).was_canceled(),
        m.cancel().run(ops).is_canceled(now),
{
    law_flag_never_falls(m.cancel(), ops);
}

/// `cancel` is idempotent: one call or many in a row leave the same token,
/// and `was_canceled` is true of it.
pub proof fn law_cancel_is_idempotent(m: Model, ops: Seq<Op>)
    requires
        ops.len() >= 1,
        only_cancels(ops),
    ensures
        m.run(ops) == m.cancel(),
        m.run(ops).was_canceled(),
    decreases ops.len(),
{
    assert(ops.last() is Cancel);
    if ops.len() > 1 {
        law_cancel_is_idempotent(m, ops.drop_last());
    } else {
        assert(m.run(ops.drop_last()) == m);
    }
    assert(m.run(ops) == m.run(ops.drop_last()).step(ops.last()));
}

/// A token made at `start` with a duration is not canceled while the clock
/// has not passed `start + duration`: queries up to that time change nothing
/// and are answered with no, and `was_canceled` stays false.
pub proof fn law_live_until_deadline(start: int, duration: nat, ops: Seq<Op>, now: int)
    requires
        only_polls(ops),
        polls_by(ops, start + duration),
        now <= start + duration,
    ensures
        Model::fresh(Some(start + duration)).run(ops) == Model::fresh(Some(start + duration)),
        !Model::fresh(Some(start + duration)).run(ops).was_canceled(),
        !Model::fresh(Some(start + duration)).run(ops).is_canceled(now),
    decreases ops.len(),
{
    let m = Model::fresh(Some(start + duration));
    if ops.len() > 0 {
        law_live_until_deadline(start, duration, ops.drop_last(), now);
        assert(ops.last() matches Op::Poll(at) && at <= start + duration);
        assert(m.run(ops) == m.run(ops.drop_last()).step(ops.last()));
    }
}

/// A token made at `start` with a duration answers yes to every query that
/// reads a time later than `start + duration`, whatever was done with it
/// before, and that query latches the answer: `was_canceled` is true after
/// it.
pub proof fn law_canceled_after_deadline(start: int, duration: nat, ops: Seq<Op>, now: int)
    requires
        now > start + duration,
    ensures
        Model::fresh(Some(start + duration)).run(ops).is_canceled(now),
        Model::fresh(Some(start + duration)).run(ops).poll(now).was_canceled(),
{
    law_deadline_is_fixed(Model::fresh(Some(start + duration)), ops);
}

/// The passing of the deadline alone does not set the flag: where nobody
/// called `cancel` and `was_canceled` is true, the token has a deadline and
/// some query has read a time later than it.
pub proof fn law_expiry_is_latched_by_a_query(deadline: Option<int>, ops: Seq<Op>)
    requires
        only_polls(ops),
        Model::fresh(deadline).run(ops).was_canceled(),
    ensures
        deadline matches Some(at) && polls_after(ops, at),
    decreases ops.len(),
{
    let m = Model::fresh(deadline);
    if ops.len() > 0 {
        let before = m.run(ops.drop_last());
        law_deadline_is_fixed(m, ops.drop_last());
        assert(m.run(ops) == before.step(ops.last()));
        assert(ops.last() is Poll);
        if before.was_canceled() {
            law_expiry_is_latched_by_a_query(deadline, ops.drop_last());
            let i = choose|i: int|
                0 <= i < ops.drop_last().len() && ((#[trigger] ops.drop_last()[i]) matches Op::Poll(
                    now,
                ) && now > deadline->0);
            assert(ops[i] == ops.drop_last()[i]);
        } else {
            assert(ops[ops.len() - 1] matches Op::Poll(now) && now > deadline->0);
        }
    }
}

/// A token that counts a duration from `start` has expired at exactly the
/// clock readings later than `start` plus the duration, also where that time
/// is beyond every instant and the token has no deadline.
pub proof fn law_expiry_counts_from_start(
    token: Token,
    start: Instant,
    duration: Duration,
    now: Instant,
)
    requires
        token.counts_from(start, duration),
    ensures
        token.expired(now) <==> instant_nanos(now) > instant_nanos(start) + duration_nanos(
            duration,
        ),
{
}

/// `check_cancel` and `is_canceled` never disagree: at one reading of the
/// clock the one succeeds exactly when the other answers no.
pub proof fn law_check_agrees_with_query(m: Model, now: int)
    ensures
        m.check_cancel(now) is Ok <==> !m.is_canceled(now),
        m.check_cancel(now) is Err <==> m.is_canceled(now),
{
}

/// The answer is monotonic: once a query has been answered with yes, every
/// later query is, whatever it reads from the clock and whatever was done in
/// between.
pub proof fn law_yes_is_final(m: Model, now: int, ops: Seq<Op>, later: int)
    requires
        m.is_canceled(now),
    ensures
        m.poll(now).run(ops).was_canceled(),
        m.poll(now).run(ops).is_canceled(later),
{
    law_flag_never_falls(m.poll(now), ops);
}

} // verus!
