//! The rules of a contribution. `check_contribution` decides, from what the
//! instruction reads, whether a contribution is accepted and what follows;
//! `apply_contribution` records it for the contributor and names the token
//! transfer; `finish_contribution` records it for the fundraiser once the
//! transfer is made. Each is built from the smaller steps below, in the order
//! in which the instruction applies them.

use vstd::prelude::*;
use vstd::arithmetic::power::pow;
use vstd::bytes::spec_u64_from_le_bytes;
use vstd::slice::slice_subrange;

use crate::address::{derive_contributor_address, spec_contributor_pda};
use crate::error::{ContributeRefusal, FundraiserError};
use crate::state::contributor::{parse_contributor, Contributor, ContributorModel};
use crate::state::fundraiser::{parse_fundraiser, Fundraiser, FundraiserModel};
use crate::{MAX_CONTRIBUTION_PERCENTAGE, PERCENTAGE_SCALER, SECONDS_TO_DAYS};

verus! {

/// Offset of the decimals byte in a mint account.
pub const MINT_DECIMALS_OFFSET: usize = 44;

/// Length of a contribution's instruction data: amount (8 bytes) and bump.
pub const CONTRIBUTE_DATA_LEN: usize = 9;

/// Whether two addresses are the same.
pub fn addresses_equal(a: &[u8; 32], b: &[u8; 32]) -> (eq: bool)
    ensures
        eq == (a@ == b@),
{
    let mut i: usize = 0;
    while i < 32
        invariant
            0 <= i <= 32,
            forall|j: int| 0 <= j < i ==> a@[j] == b@[j],
        decreases 32 - i,
    {
        if a[i] != b[i] {
            return false;
        }
        i = i + 1;
    }
    assert(a@ =~= b@);
    true
}

/// The contributor's token account must belong to the contributor
/// (else illegal owner) and hold the token being raised (else invalid
/// account data).
pub fn check_contributor_ata(
    ata_owner: &[u8; 32],
    ata_mint: &[u8; 32],
    contributor: &[u8; 32],
    mint_to_raise: &[u8; 32],
) -> (res: Result<(), FundraiserError>)
    ensures
        res == (if ata_owner@ != contributor@ {
            Err::<(), FundraiserError>(FundraiserError::IllegalOwner)
        } else if ata_mint@ != mint_to_raise@ {
            Err::<(), FundraiserError>(FundraiserError::InvalidAccountData)
        } else {
            Ok::<(), FundraiserError>(())
        }),
{
    if !addresses_equal(ata_owner, contributor) {
        return Err(FundraiserError::IllegalOwner);
    }
    if !addresses_equal(ata_mint, mint_to_raise) {
        return Err(FundraiserError::InvalidAccountData);
    }
    Ok(())
}

/// The amount (little-endian, first eight bytes) and the contributor
/// account's bump (ninth byte) carried by a contribution's data.
pub fn parse_contribute_data(data: &[u8]) -> (res: (u64, u8))
    requires
        data@.len() >= CONTRIBUTE_DATA_LEN,
    ensures
        res.0 == spec_u64_from_le_bytes(data@.subrange(0, 8)),
        res.1 == data@[8],
{
    let amount = vstd::bytes::u64_from_le_bytes(slice_subrange(data, 0, 8));
    let bump = data[8];
    (amount, bump)
}

/// The decimals of a mint, read from its account data; data too short to
/// hold them is refused as invalid account data.
pub fn mint_decimals(mint_data: &[u8]) -> (res: Result<u8, FundraiserError>)
    ensures
        mint_data@.len() <= MINT_DECIMALS_OFFSET ==> res == Err::<u8, FundraiserError>(
            FundraiserError::InvalidAccountData,
        ),
        mint_data@.len() > MINT_DECIMALS_OFFSET ==> res == Ok::<u8, FundraiserError>(
            mint_data@[MINT_DECIMALS_OFFSET as int],
        ),
{
    if mint_data.len() < MINT_DECIMALS_OFFSET + 1 {
        return Err(FundraiserError::InvalidAccountData);
    }
    Ok(mint_data[MINT_DECIMALS_OFFSET])
}

/// `base` raised to `exp`, as `u8::pow` computes it where it does not overflow.
fn u8_pow(base: u8, exp: u32) -> (p: u8)
    requires
        pow(base as int, exp as nat) <= u8::MAX,
    ensures
        p == pow(base as int, exp as nat),
{
    let mut p: u8 = 1;
    let mut i: u32 = 0;
    proof {
        vstd::arithmetic::power::lemma_pow0(base as int);
    }
    while i < exp
        invariant
            i <= exp,
            p == pow(base as int, i as nat),
            pow(base as int, exp as nat) <= u8::MAX,
        decreases exp - i,
    {
        proof {
            reveal(pow);
            assert(pow(base as int, (i + 1) as nat) == base * pow(base as int, i as nat));
            if base > 0 {
                vstd::arithmetic::power::lemma_pow_increases(base as nat, (i + 1) as nat, exp as nat);
            }
            assert(base * p <= u8::MAX) by (nonlinear_arith)
                requires
                    base * p == pow(base as int, (i + 1) as nat),
                    base > 0 ==> pow(base as int, (i + 1) as nat) <= u8::MAX,
            ;
        }
        p = base * p;
        i = i + 1;
    }
    p
}

/// The most that one contribution may bring, for a fundraiser aiming at
/// `amount_to_raise`: the given percentage of the target, rounded down.
pub open spec fn spec_contribution_limit(amount_to_raise: u64) -> int {
    (amount_to_raise * MAX_CONTRIBUTION_PERCENTAGE) / (PERCENTAGE_SCALER as int)
}

/// The smallest amount a contribution must exceed, for a mint with
/// `decimals` decimals. The program computes it as one raised to the
/// decimals, which is one whatever the decimals.
pub open spec fn spec_contribution_floor(decimals: u8) -> int {
    1
}

/// The floor is one raised to the mint's decimals.
pub proof fn lemma_contribution_floor(decimals: u8)
    ensures
        spec_contribution_floor(decimals) == pow(1, decimals as nat),
{
    vstd::arithmetic::power::lemma1_pow(decimals as nat);
}

/// The outcome of the amount checks: a contribution must exceed the floor
/// (else refused as not enough account keys) and may not exceed the limit
/// (else refused as arithmetic overflow). The limit is computed only past the
/// floor, and a target whose percentage does not fit in `u64` aborts.
pub open spec fn spec_check_amount(f: FundraiserModel, amount: u64, decimals: u8) -> Result<
    (),
    ContributeRefusal,
> {
    if amount <= spec_contribution_floor(decimals) {
        Err(ContributeRefusal::Refused(FundraiserError::NotEnoughAccountKeys))
    } else if f.amount_to_raise * MAX_CONTRIBUTION_PERCENTAGE > u64::MAX {
        Err(ContributeRefusal::Overflow)
    } else if amount > spec_contribution_limit(f.amount_to_raise) {
        Err(ContributeRefusal::Refused(FundraiserError::ArithmeticOverflow))
    } else {
        Ok(())
    }
}

/// Checks the amount of a contribution (see `spec_check_amount`).
pub fn check_contribution_amount(fundraiser: &Fundraiser, amount: u64, decimals: u8) -> (res:
    Result<(), ContributeRefusal>)
    ensures
        res == spec_check_amount(fundraiser@, amount, decimals),
{
    proof {
        vstd::arithmetic::power::lemma1_pow(decimals as nat);
    }
    let floor = u8_pow(1u8, decimals as u32);
    if amount <= floor as u64 {
        return Err(ContributeRefusal::Refused(FundraiserError::NotEnoughAccountKeys));
    }
    let scaled = match fundraiser.amount_to_raise().checked_mul(MAX_CONTRIBUTION_PERCENTAGE) {
        Some(scaled) => scaled,
        None => return Err(ContributeRefusal::Overflow),
    };
    let limit = scaled / PERCENTAGE_SCALER;
    if amount > limit {
        return Err(ContributeRefusal::Refused(FundraiserError::ArithmeticOverflow));
    }
    Ok(())
}

/// Integer division that rounds toward zero, as Rust's `/` on signed integers.
pub open spec fn spec_div_toward_zero(x: int, d: int) -> int
    recommends
        d > 0,
{
    if x >= 0 {
        x / d
    } else {
        -((-x) / d)
    }
}

/// Whole days elapsed between the start and `current_time`, rounded toward
/// zero, and then truncated to a byte as the program compares them.
pub open spec fn spec_days_elapsed_byte(time_started: i64, current_time: i64) -> u8 {
    spec_div_toward_zero(current_time - time_started, SECONDS_TO_DAYS as int) as u8
}

/// The outcome of the time check: a contribution is refused while the
/// fundraiser's duration is at least the number of whole days since its start
/// (taken modulo 256); a time difference outside `i64` aborts.
pub open spec fn spec_check_time(f: FundraiserModel, current_time: i64) -> Result<
    (),
    ContributeRefusal,
> {
    if !(i64::MIN <= current_time - f.time_started <= i64::MAX) {
        Err(ContributeRefusal::Overflow)
    } else if f.duration >= spec_days_elapsed_byte(f.time_started, current_time) {
        Err(ContributeRefusal::Refused(FundraiserError::MaxInstructionTraceLengthExceeded))
    } else {
        Ok(())
    }
}

/// Checks the time of a contribution (see `spec_check_time`).
pub fn check_contribution_time(fundraiser: &Fundraiser, current_time: i64) -> (res: Result<
    (),
    ContributeRefusal,
>)
    ensures
        res == spec_check_time(fundraiser@, current_time),
{
    let elapsed = match current_time.checked_sub(fundraiser.time_started()) {
        Some(elapsed) => elapsed,
        None => return Err(ContributeRefusal::Overflow),
    };
    let days = elapsed / SECONDS_TO_DAYS;
    if fundraiser.duration() >= days as u8 {
        return Err(ContributeRefusal::Refused(FundraiserError::MaxInstructionTraceLengthExceeded));
    }
    Ok(())
}

/// Whether a contributor who has given `given` is refused a further
/// `amount`: only when they already hold more than the limit and would go on
/// holding more than it.
pub open spec fn spec_contributor_refused(amount_to_raise: u64, given: u64, amount: u64) -> bool {
    given > spec_contribution_limit(amount_to_raise) && given + amount > spec_contribution_limit(
        amount_to_raise,
    )
}

/// What a contributor holds after a contribution of `amount`: a target whose
/// percentage does not fit, or a total that does not fit, aborts; a refused
/// contributor gets invalid argument; otherwise the amount is added.
pub open spec fn spec_record_contributor(f: FundraiserModel, c: ContributorModel, amount: u64)
    -> Result<ContributorModel, ContributeRefusal> {
    if f.amount_to_raise * MAX_CONTRIBUTION_PERCENTAGE > u64::MAX {
        Err(ContributeRefusal::Overflow)
    } else if c.amount + amount > u64::MAX {
        Err(ContributeRefusal::Overflow)
    } else if spec_contributor_refused(f.amount_to_raise, c.amount, amount) {
        Err(ContributeRefusal::Refused(FundraiserError::InvalidArgument))
    } else {
        Ok(ContributorModel { amount: (c.amount + amount) as u64 })
    }
}

/// Adds a contribution of `amount` to what the contributor has given (see
/// `spec_record_contributor`); when it does not, the contributor is unchanged.
pub fn record_contributor_amount(fundraiser: &Fundraiser, contributor: &mut Contributor, amount: u64)
    -> (res: Result<(), ContributeRefusal>)
    ensures
        match spec_record_contributor(fundraiser@, old(contributor)@, amount) {
            Ok(c) => res == Ok::<(), ContributeRefusal>(()) && final(contributor)@ == c,
            Err(r) => res == Err::<(), ContributeRefusal>(r) && final(contributor)@ == old(
                contributor,
            )@,
        },
{
    let scaled = match fundraiser.amount_to_raise().checked_mul(MAX_CONTRIBUTION_PERCENTAGE) {
        Some(scaled) => scaled,
        None => return Err(ContributeRefusal::Overflow),
    };
    let limit = scaled / PERCENTAGE_SCALER;
    let given = contributor.amount();
    let total = match given.checked_add(amount) {
        Some(total) => total,
        None => return Err(ContributeRefusal::Overflow),
    };
    if given > limit && total > limit {
        return Err(ContributeRefusal::Refused(FundraiserError::InvalidArgument));
    }
    contributor.set_amount(total);
    Ok(())
}

/// What the fundraiser holds once a contribution of `amount` is transferred:
/// the raised amount grows by it and nothing else changes; a raised amount
/// that does not fit aborts.
pub open spec fn spec_record_raised(f: FundraiserModel, amount: u64) -> Result<
    FundraiserModel,
    ContributeRefusal,
> {
    if f.current_amount + amount > u64::MAX {
        Err(ContributeRefusal::Overflow)
    } else {
        Ok(FundraiserModel { current_amount: (f.current_amount + amount) as u64, ..f })
    }
}

/// Adds a transferred contribution to what the fundraiser has collected (see
/// `spec_record_raised`); when it does not, the fundraiser is unchanged. This
/// is the last step of a contribution.
pub fn record_raised_amount(fundraiser: &mut Fundraiser, amount: u64) -> (res: Result<
    (),
    ContributeRefusal,
>)
    ensures
        match spec_record_raised(old(fundraiser)@, amount) {
            Ok(f) => res == Ok::<(), ContributeRefusal>(()) && final(fundraiser)@ == f,
            Err(r) => res == Err::<(), ContributeRefusal>(r) && final(fundraiser)@ == old(
                fundraiser,
            )@,
        },
{
    let raised = fundraiser.current_amount();
    let total = match raised.checked_add(amount) {
        Some(total) => total,
        None => return Err(ContributeRefusal::Overflow),
    };
    fundraiser.set_current_amount(total);
    Ok(())
}

/// What the checks of a contribution decide.
pub struct ContributionPlanModel {
    pub amount: u64,
    pub bump: u8,
    pub fundraiser: FundraiserModel,
    pub create_contributor_account: bool,
}

/// An accepted contribution: its amount and bump, the fundraiser read from its
/// account, and whether the contributor account must first be created.
pub struct ContributionPlan {
    pub amount: u64,
    pub bump: u8,
    pub fundraiser: Fundraiser,
    pub create_contributor_account: bool,
}

/// The model of a plan, or the refusal.
pub open spec fn spec_plan_result(r: Result<ContributionPlan, ContributeRefusal>) -> Result<
    ContributionPlanModel,
    ContributeRefusal,
> {
    match r {
        Ok(p) => Ok(
            ContributionPlanModel {
                amount: p.amount,
                bump: p.bump,
                fundraiser: p.fundraiser@,
                create_contributor_account: p.create_contributor_account,
            },
        ),
        Err(e) => Err(e),
    }
}

/// The owner and mint of a token account, as byte sequences.
pub open spec fn spec_token_account_view(t: Option<([u8; 32], [u8; 32])>) -> Option<
    (Seq<u8>, Seq<u8>),
> {
    match t {
        Some((owner, mint)) => Some((owner@, mint@)),
        None => None,
    }
}

/// Borrowed bytes, as a byte sequence.
pub open spec fn spec_bytes_view(b: Option<&[u8]>) -> Option<Seq<u8>> {
    match b {
        Some(b) => Some(b@),
        None => None,
    }
}

/// What a contribution's checks decide, in the order the instruction applies
/// them: the contributor's token account (its owner and mint, or `None` when
/// it could not be read), the instruction data's length, the contributor
/// account's address against `pda`, the fundraiser account, the mint's
/// decimals, the amount, the clock (`None` when it could not be read) and the
/// time. An accepted contribution asks for the contributor account to be
/// created when the program does not own it yet.
pub open spec fn spec_check_contribution(
    token_account: Option<(Seq<u8>, Seq<u8>)>,
    contributor: Seq<u8>,
    mint_to_raise: Seq<u8>,
    contributor_account: Seq<u8>,
    contributor_account_owned: bool,
    data: Seq<u8>,
    fundraiser_data: Seq<u8>,
    mint_data: Option<Seq<u8>>,
    now: Option<i64>,
    pda: Seq<u8>,
) -> Result<ContributionPlanModel, ContributeRefusal> {
    match token_account {
        None => Err(ContributeRefusal::TokenAccountUnreadable),
        Some((ata_owner, ata_mint)) => {
            if ata_owner != contributor {
                Err(ContributeRefusal::Refused(FundraiserError::IllegalOwner))
            } else if ata_mint != mint_to_raise {
                Err(ContributeRefusal::Refused(FundraiserError::InvalidAccountData))
            } else if data.len() < CONTRIBUTE_DATA_LEN {
                Err(ContributeRefusal::DataTooShort)
            } else if pda != contributor_account {
                Err(ContributeRefusal::ContributorAccountMismatch)
            } else {
                match parse_fundraiser(fundraiser_data) {
                    None => Err(ContributeRefusal::Refused(FundraiserError::InvalidAccountData)),
                    Some(f) => match mint_data {
                        None => Err(ContributeRefusal::MintUnreadable),
                        Some(md) => {
                            let amount = spec_u64_from_le_bytes(data.subrange(0, 8));
                            if md.len() <= MINT_DECIMALS_OFFSET {
                                Err(ContributeRefusal::Refused(FundraiserError::InvalidAccountData))
                            } else if spec_check_amount(f, amount, md[MINT_DECIMALS_OFFSET as int])
                                is Err {
                                Err(spec_check_amount(f, amount, md[MINT_DECIMALS_OFFSET as int])->Err_0)
                            } else {
                                match now {
                                    None => Err(ContributeRefusal::ClockUnavailable),
                                    Some(t) => {
                                        if spec_check_time(f, t) is Err {
                                            Err(spec_check_time(f, t)->Err_0)
                                        } else {
                                            Ok(
                                                ContributionPlanModel {
                                                    amount,
                                                    bump: data[8],
                                                    fundraiser: f,
                                                    create_contributor_account:
                                                        !contributor_account_owned,
                                                },
                                            )
                                        }
                                    },
                                }
                            }
                        },
                    },
                }
            }
        },
    }
}

/// Decides a contribution (see `spec_check_contribution`), given the address
/// `pda` derived for the contributor and the bump.
pub fn decide_contribution(
    token_account: Option<([u8; 32], [u8; 32])>,
    contributor: &[u8; 32],
    mint_to_raise: &[u8; 32],
    contributor_account: &[u8; 32],
    contributor_account_owned: bool,
    data: &[u8],
    fundraiser_data: &[u8],
    mint_data: Option<&[u8]>,
    now: Option<i64>,
    pda: &[u8; 32],
) -> (res: Result<ContributionPlan, ContributeRefusal>)
    ensures
        spec_plan_result(res) == spec_check_contribution(
            spec_token_account_view(token_account),
            contributor@,
            mint_to_raise@,
            contributor_account@,
            contributor_account_owned,
            data@,
            fundraiser_data@,
            spec_bytes_view(mint_data),
            now,
            pda@,
        ),
{
    let (ata_owner, ata_mint) = match token_account {
        Some(t) => t,
        None => return Err(ContributeRefusal::TokenAccountUnreadable),
    };
    if let Err(e) = check_contributor_ata(&ata_owner, &ata_mint, contributor, mint_to_raise) {
        return Err(ContributeRefusal::Refused(e));
    }
    if data.len() < CONTRIBUTE_DATA_LEN {
        return Err(ContributeRefusal::DataTooShort);
    }
    let (amount, bump) = parse_contribute_data(data);
    if !addresses_equal(pda, contributor_account) {
        return Err(ContributeRefusal::ContributorAccountMismatch);
    }
    let fundraiser = match Fundraiser::from_account_info(fundraiser_data) {
        Ok(f) => f,
        Err(e) => return Err(ContributeRefusal::Refused(e)),
    };
    let mint_data = match mint_data {
        Some(d) => d,
        None => return Err(ContributeRefusal::MintUnreadable),
    };
    let decimals = match mint_decimals(mint_data) {
        Ok(d) => d,
        Err(e) => return Err(ContributeRefusal::Refused(e)),
    };
    check_contribution_amount(&fundraiser, amount, decimals)?;
    let now = match now {
        Some(t) => t,
        None => return Err(ContributeRefusal::ClockUnavailable),
    };
    check_contribution_time(&fundraiser, now)?;
    Ok(
        ContributionPlan {
            amount,
            bump,
            fundraiser,
            create_contributor_account: !contributor_account_owned,
        },
    )
}

/// Decides a contribution (see `spec_check_contribution`), deriving the
/// contributor's program address from the bump in the instruction data and
/// the program id once the token account and the data's length pass.
pub fn check_contribution(
    token_account: Option<([u8; 32], [u8; 32])>,
    contributor: &[u8; 32],
    mint_to_raise: &[u8; 32],
    contributor_account: &[u8; 32],
    contributor_account_owned: bool,
    program_id: &[u8; 32],
    data: &[u8],
    fundraiser_data: &[u8],
    mint_data: Option<&[u8]>,
    now: Option<i64>,
) -> (res: Result<ContributionPlan, ContributeRefusal>)
    ensures
        spec_plan_result(res) == spec_check_contribution(
            spec_token_account_view(token_account),
            contributor@,
            mint_to_raise@,
            contributor_account@,
            contributor_account_owned,
            data@,
            fundraiser_data@,
            spec_bytes_view(mint_data),
            now,
            spec_contributor_pda(contributor@, data@[8], program_id@),
        ),
{
    let derive = match token_account {
        Some((ata_owner, ata_mint)) => addresses_equal(&ata_owner, contributor) && addresses_equal(
            &ata_mint,
            mint_to_raise,
        ) && data.len() >= CONTRIBUTE_DATA_LEN,
        None => false,
    };
    if derive {
        let pda = derive_contributor_address(contributor, data[8], program_id);
        decide_contribution(
            token_account,
            contributor,
            mint_to_raise,
            contributor_account,
            contributor_account_owned,
            data,
            fundraiser_data,
            mint_data,
            now,
            &pda,
        )
    } else {
        decide_contribution(
            token_account,
            contributor,
            mint_to_raise,
            contributor_account,
            contributor_account_owned,
            data,
            fundraiser_data,
            mint_data,
            now,
            contributor_account,
        )
    }
}

/// What the contributor account holds after an accepted contribution of
/// `amount`, and the number of tokens to transfer from the contributor's token
/// account to the vault: the contributor account's data must have its size.
pub open spec fn spec_apply_contribution(f: FundraiserModel, contributor_data: Seq<u8>, amount: u64)
    -> Result<(ContributorModel, u64), ContributeRefusal> {
    match parse_contributor(contributor_data) {
        None => Err(ContributeRefusal::Refused(FundraiserError::InvalidAccountData)),
        Some(c) => match spec_record_contributor(f, c, amount) {
            Ok(c2) => Ok((c2, amount)),
            Err(r) => Err(r),
        },
    }
}

/// Records an accepted contribution in the contributor account's data and
/// names the token transfer that follows (see `spec_apply_contribution`).
pub fn apply_contribution(fundraiser: &Fundraiser, contributor_data: &[u8], amount: u64) -> (res:
    Result<(Contributor, u64), ContributeRefusal>)
    ensures
        match spec_apply_contribution(fundraiser@, contributor_data@, amount) {
            Ok((c, t)) => res matches Ok((c2, t2)) && c2@ == c && t2 == t,
            Err(r) => res matches Err(r2) && r2 == r,
        },
{
    let mut contributor = match Contributor::from_account_info(contributor_data) {
        Ok(c) => c,
        Err(e) => return Err(ContributeRefusal::Refused(e)),
    };
    record_contributor_amount(fundraiser, &mut contributor, amount)?;
    Ok((contributor, amount))
}

/// A contribution that the checks accept, that the contributor account takes
/// and whose raised amount fits: its amount is the one in the instruction data,
/// above the floor and at most the limit; the contributor account is the
/// contributor's program address and is created when the program does not own
/// it; the transfer moves exactly that amount; the contributor's total and the
/// fundraiser's raised amount both grow by it, and nothing else in the
/// fundraiser changes.
pub proof fn law_contribution_effect(
    token_account: Option<(Seq<u8>, Seq<u8>)>,
    contributor: Seq<u8>,
    mint_to_raise: Seq<u8>,
    contributor_account: Seq<u8>,
    contributor_account_owned: bool,
    data: Seq<u8>,
    fundraiser_data: Seq<u8>,
    mint_data: Option<Seq<u8>>,
    now: Option<i64>,
    pda: Seq<u8>,
    contributor_data: Seq<u8>,
)
    requires
        spec_check_contribution(
            token_account,
            contributor,
            mint_to_raise,
            contributor_account,
            contributor_account_owned,
            data,
            fundraiser_data,
            mint_data,
            now,
            pda,
        ) is Ok,
        spec_apply_contribution(
            parse_fundraiser(fundraiser_data).unwrap(),
            contributor_data,
            spec_u64_from_le_bytes(data.subrange(0, 8)),
        ) is Ok,
        spec_record_raised(
            parse_fundraiser(fundraiser_data).unwrap(),
            spec_u64_from_le_bytes(data.subrange(0, 8)),
        ) is Ok,
    ensures
        ({
            let plan = spec_check_contribution(
                token_account,
                contributor,
                mint_to_raise,
                contributor_account,
                contributor_account_owned,
                data,
                fundraiser_data,
                mint_data,
                now,
                pda,
            )->Ok_0;
            let amount = spec_u64_from_le_bytes(data.subrange(0, 8));
            let f0 = parse_fundraiser(fundraiser_data).unwrap();
            let (c1, transfer) = spec_apply_contribution(plan.fundraiser, contributor_data, amount)->Ok_0;
            let f1 = spec_record_raised(plan.fundraiser, amount)->Ok_0;
            &&& token_account == Some((contributor, mint_to_raise))
            &&& pda == contributor_account
            &&& plan.amount == amount
            &&& plan.bump == data[8]
            &&& plan.fundraiser == f0
            &&& plan.create_contributor_account == !contributor_account_owned
            &&& spec_contribution_floor(mint_data.unwrap()[MINT_DECIMALS_OFFSET as int]) < amount
            &&& amount <= spec_contribution_limit(f0.amount_to_raise)
            &&& f0.duration < spec_days_elapsed_byte(f0.time_started, now.unwrap())
            &&& transfer == amount
            &&& c1.amount == parse_contributor(contributor_data).unwrap().amount + amount
            &&& f1 == (FundraiserModel { current_amount: (f0.current_amount + amount) as u64, ..f0 })
        }),
{
}

/// A contribution aborts only where an amount or a time difference does not fit
/// its type, the instruction data is short, or the contributor account is not
/// the derived address: with the data long enough, the address right, the
/// target's percentage, the time difference, the contributor's new total and
/// the new raised amount all fitting, no step of the contribution aborts.
pub proof fn law_contribution_no_abort(
    token_account: Option<(Seq<u8>, Seq<u8>)>,
    contributor: Seq<u8>,
    mint_to_raise: Seq<u8>,
    contributor_account: Seq<u8>,
    contributor_account_owned: bool,
    data: Seq<u8>,
    fundraiser_data: Seq<u8>,
    mint_data: Option<Seq<u8>>,
    now: Option<i64>,
    contributor_data: Seq<u8>,
)
    requires
        data.len() >= CONTRIBUTE_DATA_LEN,
        parse_fundraiser(fundraiser_data) is Some,
        parse_fundraiser(fundraiser_data).unwrap().amount_to_raise * MAX_CONTRIBUTION_PERCENTAGE
            <= u64::MAX,
        now is Some ==> i64::MIN <= now.unwrap() - parse_fundraiser(fundraiser_data).unwrap().time_started
            <= i64::MAX,
        parse_contributor(contributor_data) is Some ==> parse_contributor(contributor_data).unwrap().amount
            + spec_u64_from_le_bytes(data.subrange(0, 8)) <= u64::MAX,
        parse_fundraiser(fundraiser_data).unwrap().current_amount + spec_u64_from_le_bytes(
            data.subrange(0, 8),
        ) <= u64::MAX,
    ensures
        ({
            let r = spec_check_contribution(
                token_account,
                contributor,
                mint_to_raise,
                contributor_account,
                contributor_account_owned,
                data,
                fundraiser_data,
                mint_data,
                now,
                contributor_account,
            );
            r is Err ==> r->Err_0 != ContributeRefusal::DataTooShort && r->Err_0
                != ContributeRefusal::ContributorAccountMismatch && r->Err_0
                != ContributeRefusal::Overflow
        }),
        spec_apply_contribution(
            parse_fundraiser(fundraiser_data).unwrap(),
            contributor_data,
            spec_u64_from_le_bytes(data.subrange(0, 8)),
        ) != Err::<(ContributorModel, u64), ContributeRefusal>(ContributeRefusal::Overflow),
        spec_record_raised(
            parse_fundraiser(fundraiser_data).unwrap(),
            spec_u64_from_le_bytes(data.subrange(0, 8)),
        ) is Ok,
{
}

} // verus!
