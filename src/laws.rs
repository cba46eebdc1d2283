use vstd::prelude::*;

use crate::state::{EmployeeAccount, ErrorCode};
use crate::vesting::{
    after_claim, claim_outcome, lemma_vested_bounded, time_since_start, vested_at,
    vesting_duration, vesting_overflows,
};

verus! {

/// The grant after claims attempted at each of `times`, in order; refused
/// claims leave it as it was.
pub open spec fn claims_from(g: EmployeeAccount, times: Seq<i64>) -> EmployeeAccount
    decreases times.len(),
{
    if times.len() == 0 {
        g
    } else {
        claims_from(after_claim(g, times[0]), times.drop_first())
    }
}

/// A claim never lowers the withdrawal counter, changes nothing else in the
/// grant, and keeps what was withdrawn within what was granted.
pub proof fn lemma_claim_step(g: EmployeeAccount, now: i64)
    ensures
        after_claim(g, now).total_withdrawn >= g.total_withdrawn,
        g.wf() ==> after_claim(g, now).wf(),
        after_claim(g, now) == (EmployeeAccount {
            total_withdrawn: after_claim(g, now).total_withdrawn,
            ..g
        }),
{
    if claim_outcome(g, now) is Ok {
        lemma_vested_bounded(g, now);
    }
}

/// Claims attempted one after another compose: a run over `a + b` is the run
/// over `a` followed by the run over `b`.
pub proof fn lemma_claims_concat(g: EmployeeAccount, a: Seq<i64>, b: Seq<i64>)
    ensures
        claims_from(g, a + b) == claims_from(claims_from(g, a), b),
    decreases a.len(),
{
    if a.len() > 0 {
        assert((a + b).drop_first() =~= a.drop_first() + b);
        lemma_claims_concat(after_claim(g, a[0]), a.drop_first(), b);
    } else {
        assert(a + b =~= b);
    }
}

/// Over any run of claims the withdrawal counter never decreases, only the
/// counter changes, and on a well-formed grant it never exceeds the total.
pub proof fn lemma_claims_monotone(g: EmployeeAccount, times: Seq<i64>)
    ensures
        claims_from(g, times).total_withdrawn >= g.total_withdrawn,
        g.wf() ==> claims_from(g, times).wf(),
        claims_from(g, times) == (EmployeeAccount {
            total_withdrawn: claims_from(g, times).total_withdrawn,
            ..g
        }),
    decreases times.len(),
{
    if times.len() > 0 {
        lemma_claim_step(g, times[0]);
        lemma_claims_monotone(after_claim(g, times[0]), times.drop_first());
    }
}

/// Along any run of claims, the counter observed after a longer prefix is at
/// least the counter observed after a shorter one, and never above the total.
pub proof fn lemma_withdrawn_nondecreasing(g: EmployeeAccount, times: Seq<i64>, i: int, j: int)
    requires
        g.wf(),
        0 <= i <= j <= times.len(),
    ensures
        claims_from(g, times.take(i)).total_withdrawn <= claims_from(
            g,
            times.take(j),
        ).total_withdrawn,
        claims_from(g, times.take(j)).total_withdrawn <= g.total_amount,
{
    let mid = claims_from(g, times.take(i));
    assert(times.take(j) =~= times.take(i) + times.subrange(i, j));
    lemma_claims_concat(g, times.take(i), times.subrange(i, j));
    lemma_claims_monotone(g, times.take(i));
    lemma_claims_monotone(mid, times.subrange(i, j));
}

/// Before the cliff every claim is refused as not available, whatever the
/// amounts and times of the grant, and the grant is left unchanged.
pub proof fn lemma_no_claim_before_cliff(g: EmployeeAccount, now: i64)
    requires
        now < g.cliff_time,
    ensures
        claim_outcome(g, now) == Err::<u64, ErrorCode>(ErrorCode::ClaimNotAvailable),
        after_claim(g, now) == g,
{
}

/// At or after the end of a valid period, once the cliff has passed, one claim
/// brings the counter to exactly the total, and from then on no claim at any
/// time succeeds.
pub proof fn lemma_full_vesting_after_end(g: EmployeeAccount, now: i64)
    requires
        g.wf(),
        vesting_duration(g) > 0,
        now >= g.end_time,
        now >= g.cliff_time,
    ensures
        after_claim(g, now).total_withdrawn == g.total_amount,
        g.total_withdrawn < g.total_amount ==> claim_outcome(g, now) == Ok::<u64, ErrorCode>(
            (g.total_amount - g.total_withdrawn) as u64,
        ),
        forall|later: i64| #[trigger] claim_outcome(after_claim(g, now), later) is Err,
{
    let h = after_claim(g, now);
    assert forall|later: i64| #[trigger] claim_outcome(h, later) is Err by {
        if later >= h.cliff_time && vesting_duration(h) > 0 && !vesting_overflows(h, later) {
            lemma_vested_bounded(h, later);
        }
    }
}

/// From a fresh grant, within the period and past the cliff, a single claim
/// releases exactly the floor of the elapsed share of the total (and is
/// refused as not available when that floor is zero).
pub proof fn lemma_linear_first_claim(g: EmployeeAccount, now: i64)
    requires
        g.total_withdrawn == 0,
        g.start_time < g.end_time,
        g.start_time <= now <= g.end_time,
        g.cliff_time <= now,
        !vesting_overflows(g, now),
    ensures
        ({
            let share = (g.total_amount * (now - g.start_time)) / (g.end_time - g.start_time);
            claim_outcome(g, now) == if share == 0 {
                Err::<u64, ErrorCode>(ErrorCode::ClaimNotAvailable)
            } else {
                Ok::<u64, ErrorCode>(share as u64)
            }
        }),
{
    let a = g.total_amount as int;
    let d = g.end_time - g.start_time;
    assert(time_since_start(g, now) == now - g.start_time);
    if now == g.end_time {
        assert((a * d) / d == a) by (nonlinear_arith)
            requires
                d > 0,
        ;
    }
    lemma_vested_bounded(g, now);
}

/// Once everything granted has been withdrawn, a claim on a valid period that
/// does not overflow is refused as not available and changes nothing.
pub proof fn lemma_exhausted_claims_refused(g: EmployeeAccount, now: i64)
    requires
        g.total_withdrawn == g.total_amount,
        vesting_duration(g) > 0,
        !vesting_overflows(g, now),
    ensures
        claim_outcome(g, now) == Err::<u64, ErrorCode>(ErrorCode::ClaimNotAvailable),
        after_claim(g, now) == g,
{
    lemma_vested_bounded(g, now);
}

/// A grant whose period is empty or reversed refuses every claim made past
/// the cliff as an invalid period, and is left unchanged.
pub proof fn lemma_degenerate_period_refused(g: EmployeeAccount, now: i64)
    requires
        g.end_time <= g.start_time,
        now >= g.cliff_time,
    ensures
        claim_outcome(g, now) == Err::<u64, ErrorCode>(ErrorCode::InvalidVestingPeriod),
        after_claim(g, now) == g,
{
}

} // verus!
