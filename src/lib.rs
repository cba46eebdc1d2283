//! Accounting core of a token-vesting ledger: schedules with a custodial
//! treasury, per-beneficiary grants with a linear-with-cliff curve, and the
//! claim transition that releases what has vested and advances the
//! cumulative-withdrawal counter. A small owner-tagged journal store sits
//! beside it.
mod instructions;
mod journal;
mod laws;
mod state;
mod vesting;

pub use instructions::{
    claim_authorized, claim_tokens, create_employee_account, create_vesting_account,
    TokenTransfer,
};
pub use journal::{
    create_journal_entry, delete_journal_entry, message_fits, title_fits, update_journal_entry,
    JournalEntry, JournalError, MAX_MESSAGE_LEN, MAX_TITLE_LEN,
};
pub use laws::{
    claims_from, lemma_claim_step, lemma_claims_concat, lemma_claims_monotone,
    lemma_degenerate_period_refused, lemma_exhausted_claims_refused, lemma_full_vesting_after_end,
    lemma_linear_first_claim, lemma_no_claim_before_cliff, lemma_withdrawn_nondecreasing,
};
pub use state::{
    valid_company_name, EmployeeAccount, ErrorCode, Pubkey, VestingAccount, MAX_COMPANY_NAME_LEN,
};
pub use vesting::{
    after_claim, claim_outcome, lemma_vested_bounded, time_since_start, vested_at,
    vesting_duration, vesting_overflows,
};
