use vstd::prelude::*;

use crate::state::{valid_company_name, EmployeeAccount, ErrorCode, Pubkey, VestingAccount};
use crate::vesting::{after_claim, claim_outcome};

verus! {

/// A transfer out of a schedule's treasury that a successful claim orders.
/// The treasury signs for it with the authority derived from the schedule's
/// organization name and `signer_bump`; the recipient is the beneficiary's
/// balance for `mint`.
#[derive(Clone, Debug)]
pub struct TokenTransfer {
    pub from: Pubkey,
    pub mint: Pubkey,
    pub to_owner: Pubkey,
    pub amount: u64,
    pub signer_name: String,
    pub signer_bump: u8,
}

/// A claim may proceed only when the caller is the grant's beneficiary, the
/// grant belongs to the presented schedule, and the treasury, mint and
/// organization name presented are the schedule's own.
pub open spec fn claim_authorized(
    vesting: VestingAccount,
    vesting_key: Pubkey,
    employee: EmployeeAccount,
    signer: Pubkey,
    token_mint: Pubkey,
    treasury: Pubkey,
    company_name: Seq<char>,
) -> bool {
    &&& signer == employee.beneficiary
    &&& employee.vesting_account == vesting_key
    &&& vesting.treasury_token_account == treasury
    &&& vesting.token_mint == token_mint
    &&& vesting.company_name@ == company_name
}

/// Creates the schedule record of an organization. Its treasury holds
/// `mint` and is controlled by the schedule itself, not by `payer`.
pub fn create_vesting_account(
    payer: Pubkey,
    mint: Pubkey,
    treasury_token_account: Pubkey,
    company_name: String,
    treasury_bump: u8,
    bump: u8,
) -> (r: Result<VestingAccount, ErrorCode>)
    ensures
        !valid_company_name(company_name@) <==> r == Err::<VestingAccount, ErrorCode>(
            ErrorCode::InvalidCompanyName,
        ),
        valid_company_name(company_name@) <==> r is Ok,
        r is Ok ==> ({
            let v = r->Ok_0;
            &&& v.wf()
            &&& v.owner == payer
            &&& v.token_mint == mint
            &&& v.treasury_token_account == treasury_token_account
            &&& v.company_name@ == company_name@
            &&& v.treasury_bump == treasury_bump
            &&& v.bump == bump
        }),
{
    let len = company_name.as_str().as_bytes().len();
    if len == 0 || len > crate::state::MAX_COMPANY_NAME_LEN {
        return Err(ErrorCode::InvalidCompanyName);
    }
    Ok(
        VestingAccount {
            owner: payer,
            token_mint: mint,
            treasury_token_account,
            company_name,
            treasury_bump,
            bump,
        },
    )
}

/// Creates a grant for `beneficiary` under the schedule at `vesting_key`.
/// Only the schedule's administrator (`owner`) may do so. The times are
/// recorded as given: a degenerate period is refused at claim time.
pub fn create_employee_account(
    vesting_account: &VestingAccount,
    vesting_key: Pubkey,
    owner: Pubkey,
    beneficiary: Pubkey,
    start_time: i64,
    end_time: i64,
    cliff_time: i64,
    total_amount: u64,
    bump: u8,
) -> (r: Result<EmployeeAccount, ErrorCode>)
    ensures
        owner != vesting_account.owner <==> r == Err::<EmployeeAccount, ErrorCode>(
            ErrorCode::Unauthorized,
        ),
        owner == vesting_account.owner ==> r == Ok::<EmployeeAccount, ErrorCode>(
            EmployeeAccount {
                beneficiary,
                start_time,
                end_time,
                cliff_time,
                vesting_account: vesting_key,
                total_amount,
                total_withdrawn: 0,
                bump,
            },
        ),
{
    if owner != vesting_account.owner {
        return Err(ErrorCode::Unauthorized);
    }
    Ok(
        EmployeeAccount {
            beneficiary,
            start_time,
            end_time,
            cliff_time,
            vesting_account: vesting_key,
            total_amount,
            total_withdrawn: 0,
            bump,
        },
    )
}

/// Claims, at time `now`, everything vested and not yet withdrawn on
/// `employee_account`. On success the withdrawal counter has advanced by the
/// released amount, and the returned transfer moves exactly that amount from
/// the treasury to the beneficiary; the caller applies both in one atomic
/// step. On failure nothing changes.
pub fn claim_tokens(
    vesting_account: &VestingAccount,
    vesting_key: Pubkey,
    employee_account: &mut EmployeeAccount,
    beneficiary: Pubkey,
    token_mint: Pubkey,
    treasury_token_account: Pubkey,
    company_name: &String,
    now: i64,
) -> (r: Result<TokenTransfer, ErrorCode>)
    ensures
        !claim_authorized(
            *vesting_account,
            vesting_key,
            *old(employee_account),
            beneficiary,
            token_mint,
            treasury_token_account,
            company_name@,
        ) ==> r is Err && r->Err_0 == ErrorCode::Unauthorized,
        claim_authorized(
            *vesting_account,
            vesting_key,
            *old(employee_account),
            beneficiary,
            token_mint,
            treasury_token_account,
            company_name@,
        ) ==> match claim_outcome(*old(employee_account), now) {
            Ok(amount) => r is Ok && r->Ok_0.amount == amount,
            Err(e) => r is Err && r->Err_0 == e,
        } && *final(employee_account) == after_claim(*old(employee_account), now),
        r is Ok ==> ({
            let t = r->Ok_0;
            &&& t.from == vesting_account.treasury_token_account
            &&& t.mint == vesting_account.token_mint
            &&& t.to_owner == old(employee_account).beneficiary
            &&& t.signer_name@ == vesting_account.company_name@
            &&& t.signer_bump == vesting_account.treasury_bump
            &&& *final(employee_account) == after_claim(*old(employee_account), now)
            &&& final(employee_account).total_withdrawn == old(employee_account).total_withdrawn
                + t.amount
            &&& final(employee_account).total_withdrawn <= final(employee_account).total_amount
        }),
        r is Err ==> *final(employee_account) == *old(employee_account),
{
    if beneficiary != employee_account.beneficiary || employee_account.vesting_account
        != vesting_key || vesting_account.treasury_token_account != treasury_token_account
        || vesting_account.token_mint != token_mint || *company_name
        != vesting_account.company_name {
        return Err(ErrorCode::Unauthorized);
    }
    let amount = employee_account.claimable_amount(now)?;
    let withdrawn = match employee_account.total_withdrawn.checked_add(amount) {
        Some(w) => w,
        None => return Err(ErrorCode::CalculationOverflow),
    };
    employee_account.total_withdrawn = withdrawn;
    Ok(
        TokenTransfer {
            from: vesting_account.treasury_token_account,
            mint: vesting_account.token_mint,
            to_owner: employee_account.beneficiary,
            amount,
            signer_name: vesting_account.company_name.clone(),
            signer_bump: vesting_account.treasury_bump,
        },
    )
}

} // verus!
