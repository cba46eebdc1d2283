use tokenvesting::{
    claim_tokens, create_employee_account, create_vesting_account, EmployeeAccount, ErrorCode,
    Pubkey, TokenTransfer, VestingAccount,
};

fn key(n: u8) -> Pubkey {
    Pubkey::new([n; 32])
}

fn admin() -> Pubkey {
    key(1)
}
fn mint() -> Pubkey {
    key(2)
}
fn treasury() -> Pubkey {
    key(3)
}
fn schedule_key() -> Pubkey {
    key(4)
}
fn alice() -> Pubkey {
    key(5)
}

fn schedule() -> VestingAccount {
    create_vesting_account(admin(), mint(), treasury(), "acme".to_string(), 254, 255).unwrap()
}

fn grant(start: i64, end: i64, cliff: i64, total: u64) -> EmployeeAccount {
    create_employee_account(&schedule(), schedule_key(), admin(), alice(), start, end, cliff, total, 7)
        .unwrap()
}

fn claim(g: &mut EmployeeAccount, now: i64) -> Result<TokenTransfer, ErrorCode> {
    claim_tokens(&schedule(), schedule_key(), g, alice(), mint(), treasury(), &"acme".to_string(), now)
}

#[test]
fn two_claims_follow_the_line() {
    let mut g = grant(0, 1000, 0, 1000);
    let t = claim(&mut g, 250).unwrap();
    assert_eq!(t.amount, 250);
    assert_eq!(g.total_withdrawn, 250);
    let t = claim(&mut g, 500).unwrap();
    assert_eq!(t.amount, 250);
    assert_eq!(g.total_withdrawn, 500);
}

#[test]
fn claim_before_cliff_is_refused() {
    let mut g = grant(0, 1000, 200, 1000);
    assert_eq!(claim(&mut g, 100).unwrap_err(), ErrorCode::ClaimNotAvailable);
    assert_eq!(g.total_withdrawn, 0);
}

#[test]
fn claim_after_end_takes_everything_once() {
    let mut g = grant(0, 1000, 0, 1000);
    let t = claim(&mut g, 1500).unwrap();
    assert_eq!(t.amount, 1000);
    assert_eq!(g.total_withdrawn, 1000);
    assert_eq!(claim(&mut g, 2000).unwrap_err(), ErrorCode::ClaimNotAvailable);
    assert_eq!(g.total_withdrawn, 1000);
    assert!(g.is_exhausted());
}

#[test]
fn overflowing_product_is_refused() {
    let mut g = grant(0, 1000, 0, u64::MAX);
    assert_eq!(claim(&mut g, 500).unwrap_err(), ErrorCode::CalculationOverflow);
    assert_eq!(g.total_withdrawn, 0);
}

#[test]
fn degenerate_period_is_created_but_never_claimable() {
    let mut g = grant(100, 100, 100, 1000);
    assert_eq!(g.total_withdrawn, 0);
    assert_eq!(claim(&mut g, 100).unwrap_err(), ErrorCode::InvalidVestingPeriod);
    assert_eq!(claim(&mut g, 5000).unwrap_err(), ErrorCode::InvalidVestingPeriod);
    assert_eq!(g.total_withdrawn, 0);
}

#[test]
fn reversed_period_is_never_claimable() {
    let mut g = grant(500, 100, 0, 1000);
    assert_eq!(claim(&mut g, 300).unwrap_err(), ErrorCode::InvalidVestingPeriod);
}

#[test]
fn cliff_takes_precedence_over_a_degenerate_period() {
    let mut g = grant(0, 0, 10, 1000);
    assert_eq!(claim(&mut g, 5).unwrap_err(), ErrorCode::ClaimNotAvailable);
}

#[test]
fn withdrawals_never_decrease_over_a_run() {
    let mut g = grant(0, 1000, 100, 997);
    let mut last = 0u64;
    for now in [50, 100, 100, 333, 200, 999, 1000, 1001, 4000] {
        let _ = claim(&mut g, now);
        assert!(g.total_withdrawn >= last);
        assert!(g.total_withdrawn <= g.total_amount);
        last = g.total_withdrawn;
    }
    assert_eq!(g.total_withdrawn, 997);
}

#[test]
fn first_claim_is_floor_of_share() {
    let mut g = grant(10, 310, 10, 1000);
    let t = claim(&mut g, 110).unwrap();
    // 1000 * 100 / 300 = 333.33..
    assert_eq!(t.amount, 333);
    assert_eq!(g.total_withdrawn, 333);
}

#[test]
fn first_claim_at_end_is_the_total() {
    let mut g = grant(10, 310, 10, 1000);
    assert_eq!(claim(&mut g, 310).unwrap().amount, 1000);
}

#[test]
fn share_that_floors_to_zero_is_not_available() {
    let mut g = grant(0, 1000, 0, 3);
    assert_eq!(claim(&mut g, 100).unwrap_err(), ErrorCode::ClaimNotAvailable);
    assert_eq!(claim(&mut g, 334).unwrap().amount, 1);
}

#[test]
fn nothing_new_vested_is_not_available() {
    let mut g = grant(0, 1000, 0, 1000);
    claim(&mut g, 400).unwrap();
    assert_eq!(claim(&mut g, 400).unwrap_err(), ErrorCode::ClaimNotAvailable);
    assert_eq!(claim(&mut g, 300).unwrap_err(), ErrorCode::ClaimNotAvailable);
    assert_eq!(g.total_withdrawn, 400);
}

#[test]
fn exhausted_grant_stays_unchanged() {
    let mut g = grant(0, 1000, 0, 1000);
    claim(&mut g, 1000).unwrap();
    let before = g;
    for now in [0, 500, 1000, i64::MAX] {
        assert_eq!(claim(&mut g, now).unwrap_err(), ErrorCode::ClaimNotAvailable);
        assert_eq!(g.total_withdrawn, before.total_withdrawn);
    }
}

#[test]
fn time_before_start_vests_nothing() {
    let mut g = grant(100, 200, 0, 1000);
    assert_eq!(g.vested_amount(50), Ok(0));
    assert_eq!(claim(&mut g, 50).unwrap_err(), ErrorCode::ClaimNotAvailable);
}

#[test]
fn extreme_times_do_not_wrap() {
    let g = grant(i64::MIN, i64::MAX, i64::MIN, 1);
    assert_eq!(g.vested_amount(0), Ok(0));
    assert_eq!(g.vested_amount(i64::MAX - 1), Ok(0));
    assert_eq!(g.vested_amount(i64::MAX), Ok(1));
    let h = grant(i64::MIN, i64::MAX, i64::MIN, 2);
    assert_eq!(h.vested_amount(0), Err(ErrorCode::CalculationOverflow));
}

#[test]
fn zero_grant_is_never_claimable() {
    let mut g = grant(0, 10, 0, 0);
    assert_eq!(claim(&mut g, 20).unwrap_err(), ErrorCode::ClaimNotAvailable);
}

#[test]
fn vested_amount_reports_each_outcome() {
    let g = grant(0, 1000, 500, 1000);
    assert_eq!(g.vested_amount(250), Ok(250));
    assert_eq!(g.vested_amount(2000), Ok(1000));
    assert_eq!(grant(5, 5, 0, 1).vested_amount(10), Err(ErrorCode::InvalidVestingPeriod));
    assert_eq!(grant(0, 10, 0, u64::MAX).vested_amount(2), Err(ErrorCode::CalculationOverflow));
    assert_eq!(grant(0, 10, 0, u64::MAX).vested_amount(10), Ok(u64::MAX));
}

#[test]
fn claimable_amount_applies_cliff_and_withdrawals() {
    let mut g = grant(0, 1000, 300, 1000);
    assert_eq!(g.claimable_amount(200), Err(ErrorCode::ClaimNotAvailable));
    assert_eq!(g.claimable_amount(300), Ok(300));
    g.total_withdrawn = 100;
    assert_eq!(g.claimable_amount(300), Ok(200));
}

#[test]
fn claim_orders_transfer_from_treasury() {
    let mut g = grant(0, 1000, 0, 1000);
    let t = claim(&mut g, 250).unwrap();
    assert_eq!(t.from, treasury());
    assert_eq!(t.mint, mint());
    assert_eq!(t.to_owner, alice());
    assert_eq!(t.signer_name, "acme");
    assert_eq!(t.signer_bump, 254);
}

#[test]
fn claim_by_someone_else_is_unauthorized() {
    let mut g = grant(0, 1000, 0, 1000);
    let s = schedule();
    let name = "acme".to_string();
    let bad = [
        claim_tokens(&s, schedule_key(), &mut g, key(9), mint(), treasury(), &name, 500),
        claim_tokens(&s, key(9), &mut g, alice(), mint(), treasury(), &name, 500),
        claim_tokens(&s, schedule_key(), &mut g, alice(), key(9), treasury(), &name, 500),
        claim_tokens(&s, schedule_key(), &mut g, alice(), mint(), key(9), &name, 500),
        claim_tokens(&s, schedule_key(), &mut g, alice(), mint(), treasury(), &"other".to_string(), 500),
    ];
    for r in bad {
        assert_eq!(r.unwrap_err(), ErrorCode::Unauthorized);
    }
    assert_eq!(g.total_withdrawn, 0);
}

#[test]
fn only_the_administrator_creates_grants() {
    let r = create_employee_account(&schedule(), schedule_key(), key(9), alice(), 0, 10, 0, 5, 1);
    assert_eq!(r.unwrap_err(), ErrorCode::Unauthorized);
    let g = create_employee_account(&schedule(), schedule_key(), admin(), alice(), 0, 10, 3, 5, 1)
        .unwrap();
    assert_eq!(g.beneficiary, alice());
    assert_eq!(g.vesting_account, schedule_key());
    assert_eq!((g.start_time, g.end_time, g.cliff_time), (0, 10, 3));
    assert_eq!((g.total_amount, g.total_withdrawn, g.bump), (5, 0, 1));
}

#[test]
fn cliff_outside_period_is_accepted() {
    let mut g = grant(0, 100, 150, 1000);
    assert_eq!(claim(&mut g, 120).unwrap_err(), ErrorCode::ClaimNotAvailable);
    assert_eq!(claim(&mut g, 150).unwrap().amount, 1000);
}

#[test]
fn schedule_records_its_fields() {
    let s = schedule();
    assert_eq!(s.owner, admin());
    assert_eq!(s.token_mint, mint());
    assert_eq!(s.treasury_token_account, treasury());
    assert_eq!(s.company_name, "acme");
    assert_eq!((s.treasury_bump, s.bump), (254, 255));
}

#[test]
fn company_name_must_fit() {
    let empty = create_vesting_account(admin(), mint(), treasury(), String::new(), 0, 0);
    assert_eq!(empty.unwrap_err(), ErrorCode::InvalidCompanyName);
    let long = create_vesting_account(admin(), mint(), treasury(), "x".repeat(33), 0, 0);
    assert_eq!(long.unwrap_err(), ErrorCode::InvalidCompanyName);
    assert!(create_vesting_account(admin(), mint(), treasury(), "x".repeat(32), 0, 0).is_ok());
    // counted in bytes of UTF-8, not in characters
    let wide = create_vesting_account(admin(), mint(), treasury(), "é".repeat(17), 0, 0);
    assert_eq!(wide.unwrap_err(), ErrorCode::InvalidCompanyName);
    assert!(create_vesting_account(admin(), mint(), treasury(), "é".repeat(16), 0, 0).is_ok());
}

#[test]
fn keys_compare_by_every_byte() {
    let mut b = [0u8; 32];
    assert_eq!(Pubkey::new(b), Pubkey::new([0; 32]));
    b[31] = 1;
    assert_ne!(Pubkey::new(b), Pubkey::new([0; 32]));
}
