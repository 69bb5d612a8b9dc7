use pinocchio_fundraiser::error::{ContributeRefusal, FundraiserError};
use pinocchio_fundraiser::instructions::contribute::{
    addresses_equal, apply_contribution, check_contribution, check_contribution_amount,
    check_contribution_time, check_contributor_ata, decide_contribution, mint_decimals,
    parse_contribute_data, record_contributor_amount, record_raised_amount, ContributionPlan,
};
use pinocchio_fundraiser::instructions::{decode_instruction, FundraiserInstructions};
use pinocchio_fundraiser::state::{Contributor, Fundraiser};
use pinocchio_fundraiser::{MIN_AMOUNT_TO_RAISE, SECONDS_TO_DAYS};

const DECIMALS: u8 = 6;
const CONTRIBUTOR: [u8; 32] = [1u8; 32];
const MINT: [u8; 32] = [2u8; 32];
const PDA: [u8; 32] = [3u8; 32];
const PROGRAM: [u8; 32] = [4u8; 32];

fn min_raise() -> u64 {
    MIN_AMOUNT_TO_RAISE.checked_mul(10u64.pow(DECIMALS as u32)).unwrap()
}

fn fundraiser(amount_to_raise: u64, duration_days: u8) -> Fundraiser {
    let mut f = Fundraiser::from_account_info(&[0u8; 90]).unwrap();
    f.set_amount_to_raise(amount_to_raise);
    f.set_current_amount(0);
    f.set_time_started(0);
    f.duration = duration_days;
    f
}

fn mint_data(decimals: u8) -> Vec<u8> {
    let mut d = vec![0u8; 82];
    d[44] = decimals;
    d
}

fn contribute_data(amount: u64, bump: u8) -> Vec<u8> {
    let mut data = amount.to_le_bytes().to_vec();
    data.push(bump);
    data
}

fn past_deadline(duration_days: u8) -> i64 {
    (duration_days as i64 + 1) * SECONDS_TO_DAYS
}

/// Decides a contribution with the contributor account at the derived address.
fn decide(
    f: &Fundraiser,
    amount: u64,
    now: i64,
    owned: bool,
) -> Result<ContributionPlan, ContributeRefusal> {
    let mint = mint_data(DECIMALS);
    decide_contribution(
        Some((CONTRIBUTOR, MINT)),
        &CONTRIBUTOR,
        &MINT,
        &PDA,
        owned,
        &contribute_data(amount, 254),
        &f.to_account_data(),
        Some(&mint),
        Some(now),
        &PDA,
    )
}

/// Runs a whole accepted contribution and returns the fundraiser and the
/// contributor after it, with the transferred amount.
fn contribute(
    f: &Fundraiser,
    contributor: &Contributor,
    amount: u64,
    now: i64,
) -> (Fundraiser, Contributor, u64) {
    let plan = decide(f, amount, now, true).unwrap();
    let (c, transfer) = apply_contribution(&plan.fundraiser, &contributor.to_account_data(), plan.amount).unwrap();
    let mut after = plan.fundraiser;
    record_raised_amount(&mut after, plan.amount).unwrap();
    (after, c, transfer)
}

fn new_contributor() -> Contributor {
    Contributor::from_account_info(&[0u8; 8]).unwrap()
}

#[test]
fn test_contribute() {
    let amount_to_raise = min_raise() * 2;
    let contribute_amount = amount_to_raise / 15;
    let f = fundraiser(amount_to_raise, 30);
    let (f, c, transfer) = contribute(&f, &new_contributor(), contribute_amount, past_deadline(30));
    assert_eq!(transfer, contribute_amount, "vault should hold contributed tokens");
    assert_eq!(
        f.current_amount(),
        contribute_amount,
        "current_amount should reflect the contribution"
    );
    assert_eq!(c.amount(), contribute_amount);
    assert_eq!(f.amount_to_raise(), amount_to_raise);
}

#[test]
fn fifteen_contributions_reach_the_target() {
    let amount_to_raise = min_raise();
    let duration_days = 7;
    let mut f = fundraiser(amount_to_raise, duration_days);
    let per_person_limit = amount_to_raise / 15;
    let mut total_in_vault = 0;
    while total_in_vault < amount_to_raise {
        let (after, _, transfer) = contribute(&f, &new_contributor(), per_person_limit, past_deadline(duration_days));
        f = after;
        total_in_vault += transfer;
    }
    assert_eq!(f.current_amount(), amount_to_raise, "all contributions should be raised");
}

#[test]
fn contribution_into_existing_account() {
    // Current amount 15, contributor has given 5, contribution of 10.
    let mut f = fundraiser(1_000_000, 30);
    f.set_current_amount(15);
    let mut c = new_contributor();
    c.set_amount(5);
    let plan = decide(&f, 10, 31 * SECONDS_TO_DAYS, true).unwrap();
    assert!(!plan.create_contributor_account);
    assert_eq!(plan.amount, 10);
    assert_eq!(plan.bump, 254);
    let (c, transfer) = apply_contribution(&plan.fundraiser, &c.to_account_data(), plan.amount).unwrap();
    assert_eq!(transfer, 10);
    assert_eq!(c.amount(), 15);
    let mut after = plan.fundraiser;
    record_raised_amount(&mut after, plan.amount).unwrap();
    assert_eq!(after.current_amount(), 25);
    assert_eq!(after.amount_to_raise(), 1_000_000);
    assert_eq!(after.duration, 30);
}

#[test]
fn new_contributor_account_is_created() {
    let f = fundraiser(1_000_000, 30);
    let plan = decide(&f, 10, 31 * SECONDS_TO_DAYS, false).unwrap();
    assert!(plan.create_contributor_account);
}

#[test]
fn decision_order() {
    let f = fundraiser(6_000_000, 30);
    let fd = f.to_account_data();
    let md = mint_data(DECIMALS);
    let data = contribute_data(400_000, 1);
    let now = Some(past_deadline(30));
    // The token account comes first.
    assert_eq!(
        decide_contribution(None, &CONTRIBUTOR, &MINT, &PDA, true, &[], &[], None, None, &PDA).err(),
        Some(ContributeRefusal::TokenAccountUnreadable)
    );
    assert_eq!(
        decide_contribution(Some(([9; 32], MINT)), &CONTRIBUTOR, &MINT, &PDA, true, &[], &[], None, None, &PDA).err(),
        Some(ContributeRefusal::Refused(FundraiserError::IllegalOwner))
    );
    assert_eq!(
        decide_contribution(Some((CONTRIBUTOR, [9; 32])), &CONTRIBUTOR, &MINT, &PDA, true, &[], &[], None, None, &PDA).err(),
        Some(ContributeRefusal::Refused(FundraiserError::InvalidAccountData))
    );
    // Then the data's length, then the address.
    assert_eq!(
        decide_contribution(Some((CONTRIBUTOR, MINT)), &CONTRIBUTOR, &MINT, &PDA, true, &data[..8], &[], None, None, &PDA).err(),
        Some(ContributeRefusal::DataTooShort)
    );
    assert_eq!(
        decide_contribution(Some((CONTRIBUTOR, MINT)), &CONTRIBUTOR, &MINT, &PDA, true, &data, &[], None, None, &[8; 32]).err(),
        Some(ContributeRefusal::ContributorAccountMismatch)
    );
    // Then the fundraiser, the mint, the amount, the clock and the time.
    assert_eq!(
        decide_contribution(Some((CONTRIBUTOR, MINT)), &CONTRIBUTOR, &MINT, &PDA, true, &data, &fd[..89], None, None, &PDA).err(),
        Some(ContributeRefusal::Refused(FundraiserError::InvalidAccountData))
    );
    assert_eq!(
        decide_contribution(Some((CONTRIBUTOR, MINT)), &CONTRIBUTOR, &MINT, &PDA, true, &data, &fd, None, None, &PDA).err(),
        Some(ContributeRefusal::MintUnreadable)
    );
    assert_eq!(
        decide_contribution(Some((CONTRIBUTOR, MINT)), &CONTRIBUTOR, &MINT, &PDA, true, &data, &fd, Some(&md[..44]), None, &PDA).err(),
        Some(ContributeRefusal::Refused(FundraiserError::InvalidAccountData))
    );
    assert_eq!(
        decide_contribution(Some((CONTRIBUTOR, MINT)), &CONTRIBUTOR, &MINT, &PDA, true, &contribute_data(1, 1), &fd, Some(&md), None, &PDA).err(),
        Some(ContributeRefusal::Refused(FundraiserError::NotEnoughAccountKeys))
    );
    assert_eq!(
        decide_contribution(Some((CONTRIBUTOR, MINT)), &CONTRIBUTOR, &MINT, &PDA, true, &data, &fd, Some(&md), None, &PDA).err(),
        Some(ContributeRefusal::ClockUnavailable)
    );
    assert_eq!(
        decide_contribution(Some((CONTRIBUTOR, MINT)), &CONTRIBUTOR, &MINT, &PDA, true, &data, &fd, Some(&md), Some(0), &PDA).err(),
        Some(ContributeRefusal::Refused(FundraiserError::MaxInstructionTraceLengthExceeded))
    );
    assert!(decide_contribution(Some((CONTRIBUTOR, MINT)), &CONTRIBUTOR, &MINT, &PDA, true, &data, &fd, Some(&md), now, &PDA).is_ok());
}

#[test]
fn check_contribution_refuses_before_deriving() {
    let data = contribute_data(400_000, 1);
    assert_eq!(
        check_contribution(Some(([9; 32], MINT)), &CONTRIBUTOR, &MINT, &PDA, true, &PROGRAM, &data, &[], None, None).err(),
        Some(ContributeRefusal::Refused(FundraiserError::IllegalOwner))
    );
    assert_eq!(
        check_contribution(Some((CONTRIBUTOR, MINT)), &CONTRIBUTOR, &MINT, &PDA, true, &PROGRAM, &data[..5], &[], None, None).err(),
        Some(ContributeRefusal::DataTooShort)
    );
    assert_eq!(
        check_contribution(None, &CONTRIBUTOR, &MINT, &PDA, true, &PROGRAM, &data, &[], None, None).err(),
        Some(ContributeRefusal::TokenAccountUnreadable)
    );
}

#[test]
fn decode_instruction_names_each_instruction() {
    let (ix, rest) = decode_instruction(&[0u8, 1, 2]).unwrap();
    assert_eq!(ix, FundraiserInstructions::Initialize);
    assert_eq!(rest, &[1u8, 2][..]);
    assert_eq!(decode_instruction(&[1u8]).unwrap().0, FundraiserInstructions::Contributor);
    assert_eq!(decode_instruction(&[2u8, 9]).unwrap().0, FundraiserInstructions::Checker);
    assert_eq!(decode_instruction(&[3u8, 9, 9]).unwrap().0, FundraiserInstructions::Refund);
    assert_eq!(decode_instruction(&[4u8]).err(), Some(FundraiserError::InvalidInstructionData));
    assert_eq!(decode_instruction(&[]).err(), Some(FundraiserError::InvalidAccountData));
}

#[test]
fn ata_checks() {
    let me = [1u8; 32];
    let mint = [2u8; 32];
    assert_eq!(check_contributor_ata(&me, &mint, &me, &mint), Ok(()));
    assert_eq!(check_contributor_ata(&[3u8; 32], &mint, &me, &mint), Err(FundraiserError::IllegalOwner));
    assert_eq!(check_contributor_ata(&me, &[3u8; 32], &me, &mint), Err(FundraiserError::InvalidAccountData));
    assert_eq!(
        check_contributor_ata(&[3u8; 32], &[3u8; 32], &me, &mint),
        Err(FundraiserError::IllegalOwner)
    );
    let mut other = me;
    other[31] = 0;
    assert!(!addresses_equal(&me, &other));
    assert!(addresses_equal(&me, &[1u8; 32]));
}

#[test]
fn parse_data_reads_amount_and_bump() {
    let data = [0x10u8, 0x27, 0, 0, 0, 0, 0, 0, 7, 99];
    assert_eq!(parse_contribute_data(&data), (10_000, 7));
}

#[test]
fn mint_decimals_offset() {
    assert_eq!(mint_decimals(&mint_data(9)), Ok(9));
    let short = vec![5u8; 45];
    assert_eq!(mint_decimals(&short), Ok(5));
    assert_eq!(mint_decimals(&[5u8; 44]), Err(FundraiserError::InvalidAccountData));
}

#[test]
fn amount_floor_and_limit() {
    let f = fundraiser(6_000_000, 30);
    let not_enough = Err(ContributeRefusal::Refused(FundraiserError::NotEnoughAccountKeys));
    let too_much = Err(ContributeRefusal::Refused(FundraiserError::ArithmeticOverflow));
    // The floor is one to the power of the decimals, that is one.
    assert_eq!(check_contribution_amount(&f, 1, 6), not_enough);
    assert_eq!(check_contribution_amount(&f, 0, 0), not_enough);
    assert_eq!(check_contribution_amount(&f, 2, 6), Ok(()));
    assert_eq!(check_contribution_amount(&f, 2, 255), Ok(()));
    // The limit is ten percent of the target: 600_000.
    assert_eq!(check_contribution_amount(&f, 600_000, 6), Ok(()));
    assert_eq!(check_contribution_amount(&f, 600_001, 6), too_much);
    let g = fundraiser(19, 30);
    // 19 * 10 / 100 rounds down to 1, below the floor: nothing passes.
    assert_eq!(check_contribution_amount(&g, 2, 6), too_much);
    // A target whose percentage overflows aborts, but only past the floor.
    let h = fundraiser(u64::MAX, 30);
    assert_eq!(check_contribution_amount(&h, 1, 6), not_enough);
    assert_eq!(check_contribution_amount(&h, 2, 6), Err(ContributeRefusal::Overflow));
}

#[test]
fn contribution_window() {
    let f = fundraiser(6_000_000, 30);
    let closed = Err(ContributeRefusal::Refused(FundraiserError::MaxInstructionTraceLengthExceeded));
    assert_eq!(check_contribution_time(&f, 0), closed);
    assert_eq!(check_contribution_time(&f, 30 * SECONDS_TO_DAYS), closed);
    assert_eq!(check_contribution_time(&f, 31 * SECONDS_TO_DAYS - 1), closed);
    assert_eq!(check_contribution_time(&f, 31 * SECONDS_TO_DAYS), Ok(()));
    // Days are taken modulo 256: 286 days count as 30.
    assert_eq!(check_contribution_time(&f, 286 * SECONDS_TO_DAYS), closed);
    // A clock before the start counts whole days toward zero: -40 days is 216.
    assert_eq!(check_contribution_time(&f, -40 * SECONDS_TO_DAYS), Ok(()));
    assert_eq!(check_contribution_time(&f, -SECONDS_TO_DAYS + 1), closed);
    let mut g = fundraiser(6_000_000, 30);
    g.set_time_started(1);
    assert_eq!(check_contribution_time(&g, i64::MIN), Err(ContributeRefusal::Overflow));
}

#[test]
fn contributor_over_limit_is_refused() {
    let f = fundraiser(6_000_000, 0);
    let mut c = new_contributor();
    c.set_amount(600_001);
    assert_eq!(
        record_contributor_amount(&f, &mut c, 5),
        Err(ContributeRefusal::Refused(FundraiserError::InvalidArgument))
    );
    assert_eq!(c.amount(), 600_001);
    // At the limit a contributor may still add.
    c.set_amount(600_000);
    assert_eq!(record_contributor_amount(&f, &mut c, 5), Ok(()));
    assert_eq!(c.amount(), 600_005);
    c.set_amount(u64::MAX);
    assert_eq!(record_contributor_amount(&f, &mut c, 1), Err(ContributeRefusal::Overflow));
    assert_eq!(c.amount(), u64::MAX);
}

#[test]
fn apply_rejects_wrong_contributor_size() {
    let f = fundraiser(6_000_000, 0);
    assert_eq!(
        apply_contribution(&f, &[0u8; 7], 5).err(),
        Some(ContributeRefusal::Refused(FundraiserError::InvalidAccountData))
    );
}

#[test]
fn raised_amount_grows_by_contribution() {
    let mut f = fundraiser(6_000_000, 3);
    f.set_current_amount(1_000);
    f.bump = 17;
    assert_eq!(record_raised_amount(&mut f, 234), Ok(()));
    assert_eq!(f.current_amount(), 1_234);
    assert_eq!(f.amount_to_raise(), 6_000_000);
    assert_eq!(f.duration, 3);
    assert_eq!(f.bump, 17);
    f.set_current_amount(u64::MAX);
    assert_eq!(record_raised_amount(&mut f, 1), Err(ContributeRefusal::Overflow));
    assert_eq!(f.current_amount(), u64::MAX);
}

fn contributor_pda(contributor: &[u8; 32], bump: u8) -> [u8; 32] {
    pinocchio_pubkey::derive_address_const(&[b"contributor", contributor, &[bump]], None, &PROGRAM)
}

#[test]
fn derived_contributor_address() {
    let a = pinocchio_fundraiser::address::derive_contributor_address(&CONTRIBUTOR, 254, &PROGRAM);
    assert_eq!(a, contributor_pda(&CONTRIBUTOR, 254));
    assert_ne!(a, contributor_pda(&CONTRIBUTOR, 253));
    assert_ne!(a, CONTRIBUTOR);
    assert_ne!(a, PROGRAM);
}

#[test]
fn check_contribution_accepts_at_derived_address() {
    let mut f = fundraiser(1_000_000, 30);
    f.set_current_amount(15);
    let md = mint_data(0);
    let bump = 254;
    let account = contributor_pda(&CONTRIBUTOR, bump);
    let plan = check_contribution(
        Some((CONTRIBUTOR, MINT)),
        &CONTRIBUTOR,
        &MINT,
        &account,
        true,
        &PROGRAM,
        &contribute_data(10, bump),
        &f.to_account_data(),
        Some(&md),
        Some(31 * SECONDS_TO_DAYS),
    )
    .unwrap();
    assert_eq!(plan.amount, 10);
    assert_eq!(plan.bump, bump);
    assert!(!plan.create_contributor_account);
    assert_eq!(plan.fundraiser, f);
    // Any other account is refused.
    assert_eq!(
        check_contribution(
            Some((CONTRIBUTOR, MINT)),
            &CONTRIBUTOR,
            &MINT,
            &contributor_pda(&CONTRIBUTOR, bump - 1),
            true,
            &PROGRAM,
            &contribute_data(10, bump),
            &f.to_account_data(),
            Some(&md),
            Some(31 * SECONDS_TO_DAYS),
        )
        .err(),
        Some(ContributeRefusal::ContributorAccountMismatch)
    );
}
