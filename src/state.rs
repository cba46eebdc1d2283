use vstd::prelude::*;
use vstd::utf8::encode_utf8;

verus! {

/// A 32-byte ledger identity: a wallet, a mint, or a record address.
#[derive(Clone, Copy, Debug, Eq)]
pub struct Pubkey {
    pub bytes: [u8; 32],
}

impl Pubkey {
    pub fn new(bytes: [u8; 32]) -> (r: Pubkey)
        ensures
            r.bytes == bytes,
    {
        Pubkey { bytes }
    }
}

impl PartialEq for Pubkey {
    fn eq(&self, other: &Pubkey) -> (r: bool) {
        let mut i: usize = 0;
        while i < 32
            invariant
                i <= 32,
                forall|j: int| 0 <= j < i ==> self.bytes[j] == other.bytes[j],
            decreases 32 - i,
        {
            if self.bytes[i] != other.bytes[i] {
                return false;
            }
            i = i + 1;
        }
        assert(self.bytes =~= other.bytes);
        true
    }
}

impl vstd::std_specs::cmp::PartialEqSpecImpl for Pubkey {
    open spec fn obeys_eq_spec() -> bool {
        true
    }

    open spec fn eq_spec(&self, other: &Pubkey) -> bool {
        self.bytes == other.bytes
    }
}

/// Why an operation of the vesting core was refused.
#[derive(Clone, Copy, Debug, PartialEq, Eq, Structural)]
pub enum ErrorCode {
    ClaimNotAvailable,
    InvalidVestingPeriod,
    CalculationOverflow,
    Unauthorized,
    InvalidCompanyName,
}

/// Longest organization name, in bytes, that a schedule record holds.
pub const MAX_COMPANY_NAME_LEN: usize = 32;

/// The organization-level schedule: who may create grants, which asset it
/// disburses, and the treasury balance that funds the claims.
#[derive(Clone, Debug)]
pub struct VestingAccount {
    pub owner: Pubkey,
    pub token_mint: Pubkey,
    pub treasury_token_account: Pubkey,
    pub company_name: String,
    pub treasury_bump: u8,
    pub bump: u8,
}

/// One beneficiary's entitlement under a schedule.
#[derive(Clone, Copy, Debug)]
pub struct EmployeeAccount {
    pub beneficiary: Pubkey,
    pub start_time: i64,
    pub end_time: i64,
    pub cliff_time: i64,
    pub vesting_account: Pubkey,
    pub total_amount: u64,
    pub total_withdrawn: u64,
    pub bump: u8,
}

impl VestingAccount {
    /// A schedule record names a non-empty organization of bounded length.
    pub open spec fn wf(&self) -> bool {
        valid_company_name(self.company_name@)
    }
}

impl EmployeeAccount {
    /// What has been withdrawn never exceeds what was granted.
    pub open spec fn wf(&self) -> bool {
        self.total_withdrawn <= self.total_amount
    }

    /// True once everything granted has been withdrawn.
    pub fn is_exhausted(&self) -> (r: bool)
        ensures
            r == (self.total_withdrawn >= self.total_amount),
    {
        self.total_withdrawn >= self.total_amount
    }
}

/// An organization name that a schedule record can hold: non-empty, and at
/// most `MAX_COMPANY_NAME_LEN` bytes once encoded as UTF-8.
pub open spec fn valid_company_name(name: Seq<char>) -> bool {
    0 < encode_utf8(name).len() && encode_utf8(name).len() <= MAX_COMPANY_NAME_LEN
}

} // verus!
