use vstd::prelude::*;

use crate::state::{EmployeeAccount, ErrorCode};

verus! {

/// Time elapsed since the grant started, never negative.
pub open spec fn time_since_start(g: EmployeeAccount, now: i64) -> int {
    if now >= g.start_time {
        now - g.start_time
    } else {
        0
    }
}

/// Length of the vesting period; a grant is claimable only when it is positive.
pub open spec fn vesting_duration(g: EmployeeAccount) -> int {
    g.end_time - g.start_time
}

/// Before the end of the period, the product `total_amount * elapsed` does
/// not fit the amount type.
pub open spec fn vesting_overflows(g: EmployeeAccount, now: i64) -> bool {
    now < g.end_time && g.total_amount * time_since_start(g, now) > u64::MAX
}

/// Amount vested at `now` on the linear curve: everything at or after the end,
/// otherwise the floor of the elapsed share of the total.
pub open spec fn vested_at(g: EmployeeAccount, now: i64) -> int {
    if now >= g.end_time {
        g.total_amount as int
    } else {
        (g.total_amount * time_since_start(g, now)) / vesting_duration(g)
    }
}

/// What a claim at `now` against `g` yields: the amount released, or why none is.
pub open spec fn claim_outcome(g: EmployeeAccount, now: i64) -> Result<u64, ErrorCode> {
    if now < g.cliff_time {
        Err(ErrorCode::ClaimNotAvailable)
    } else if vesting_duration(g) <= 0 {
        Err(ErrorCode::InvalidVestingPeriod)
    } else if vesting_overflows(g, now) {
        Err(ErrorCode::CalculationOverflow)
    } else if vested_at(g, now) <= g.total_withdrawn {
        Err(ErrorCode::ClaimNotAvailable)
    } else {
        Ok((vested_at(g, now) - g.total_withdrawn) as u64)
    }
}

/// The grant after a claim at `now`: the counter advances by what was
/// released, and a refused claim changes nothing.
pub open spec fn after_claim(g: EmployeeAccount, now: i64) -> EmployeeAccount {
    match claim_outcome(g, now) {
        Ok(amount) => EmployeeAccount { total_withdrawn: (g.total_withdrawn + amount) as u64, ..g },
        Err(_) => g,
    }
}

/// On a positive period without overflow, the vested amount never exceeds the total.
pub proof fn lemma_vested_bounded(g: EmployeeAccount, now: i64)
    requires
        vesting_duration(g) > 0,
        !vesting_overflows(g, now),
    ensures
        0 <= vested_at(g, now) <= g.total_amount,
{
    if now < g.end_time {
        let a = g.total_amount as int;
        let t = time_since_start(g, now);
        let d = vesting_duration(g);
        assert(0 <= t < d);
        assert(0 <= (a * t) / d <= a) by (nonlinear_arith)
            requires
                0 <= a,
                0 <= t < d,
        {
            assert(a * t <= a * d);
            assert((a * t) / d <= (a * d) / d);
        }
    }
}

impl EmployeeAccount {
    /// Amount vested at `now`, before the cliff is applied and before prior
    /// withdrawals are subtracted.
    pub fn vested_amount(&self, now: i64) -> (r: Result<u64, ErrorCode>)
        ensures
            vesting_duration(*self) <= 0 ==> r == Err::<u64, ErrorCode>(
                ErrorCode::InvalidVestingPeriod,
            ),
            vesting_duration(*self) > 0 && vesting_overflows(*self, now) ==> r == Err::<
                u64,
                ErrorCode,
            >(ErrorCode::CalculationOverflow),
            vesting_duration(*self) > 0 && !vesting_overflows(*self, now) ==> r == Ok::<
                u64,
                ErrorCode,
            >(vested_at(*self, now) as u64),
            r is Ok ==> r->Ok_0 == vested_at(*self, now) && r->Ok_0 <= self.total_amount,
    {
        let duration: i128 = self.end_time as i128 - self.start_time as i128;
        if duration <= 0 {
            return Err(ErrorCode::InvalidVestingPeriod);
        }
        proof {
            if !vesting_overflows(*self, now) {
                lemma_vested_bounded(*self, now);
            }
        }
        if now >= self.end_time {
            return Ok(self.total_amount);
        }
        let elapsed: u64 = if now >= self.start_time {
            (now as i128 - self.start_time as i128) as u64
        } else {
            0
        };
        match self.total_amount.checked_mul(elapsed) {
            None => Err(ErrorCode::CalculationOverflow),
            Some(product) => Ok(product / (duration as u64)),
        }
    }

    /// Amount a claim at `now` would release, or why it would be refused.
    pub fn claimable_amount(&self, now: i64) -> (r: Result<u64, ErrorCode>)
        ensures
            r == claim_outcome(*self, now),
            r is Ok ==> 0 < r->Ok_0 <= self.total_amount - self.total_withdrawn,
    {
        if now < self.cliff_time {
            return Err(ErrorCode::ClaimNotAvailable);
        }
        let vested = self.vested_amount(now)?;
        let claimable = vested.saturating_sub(self.total_withdrawn);
        if claimable == 0 {
            return Err(ErrorCode::ClaimNotAvailable);
        }
        Ok(claimable)
    }
}

} // verus!
