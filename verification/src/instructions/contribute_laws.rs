//! Laws of a contribution, stated in terms of the inputs: what each check
//! depends on, which inputs it accepts and refuses, and where the fundraiser's
//! fields lie in its account data.

use vstd::prelude::*;
use vstd::arithmetic::div_mod::lemma_fundamental_div_mod_converse;
use vstd::bytes::spec_u64_from_le_bytes;

use crate::error::{ContributeRefusal, FundraiserError};
use crate::address::{spec_contributor_pda, spec_derive_address};
use crate::instructions::contribute::{
    spec_apply_contribution, spec_check_amount, spec_check_contribution, spec_check_time,
    spec_record_contributor, spec_record_raised, ContributionPlanModel,
};
use crate::instructions::{spec_instruction_of, FundraiserInstructions};
use crate::state::contributor::{parse_contributor, ContributorModel};
use crate::state::fundraiser::{fundraiser_layout, parse_fundraiser, FundraiserModel};
use crate::{MAX_CONTRIBUTION_PERCENTAGE, PERCENTAGE_SCALER};

verus! {

/// `k` whole days and `r` more seconds, rounded down to days, are `k` days.
proof fn lemma_whole_days(k: int, r: int)
    requires
        0 <= k,
        0 <= r < 86400,
    ensures
        (k * 86400 + r) / 86400 == k,
        0 <= k * 86400 + r,
{
    lemma_fundamental_div_mod_converse(k * 86400 + r, 86400, k, r);
    assert(0 <= k * 86400) by (nonlinear_arith)
        requires
            0 <= k,
    ;
}

/// At `k` whole days and `r` more seconds after the start, a contribution is
/// refused exactly while the duration is at least `k` (as a byte).
pub proof fn law_time_after_start(f: FundraiserModel, k: int, r: int)
    requires
        0 <= k,
        0 <= r < 86400,
        k * 86400 + r <= i64::MAX,
        f.time_started + k * 86400 + r <= i64::MAX,
    ensures
        spec_check_time(f, (f.time_started + k * 86400 + r) as i64) == (if f.duration >= (k as u8) {
            Err::<(), ContributeRefusal>(
                ContributeRefusal::Refused(FundraiserError::MaxInstructionTraceLengthExceeded),
            )
        } else {
            Ok::<(), ContributeRefusal>(())
        }),
{
    lemma_whole_days(k, r);
}

/// At `k` whole days and `r` more seconds before the start, the day count is
/// `-k` (rounded toward zero), taken as a byte.
pub proof fn law_time_before_start(f: FundraiserModel, k: int, r: int)
    requires
        0 <= k,
        0 <= r < 86400,
        k * 86400 + r <= i64::MAX,
        i64::MIN <= f.time_started - (k * 86400 + r),
    ensures
        spec_check_time(f, (f.time_started - (k * 86400 + r)) as i64) == (if f.duration >= ((-k)
            as u8) {
            Err::<(), ContributeRefusal>(
                ContributeRefusal::Refused(FundraiserError::MaxInstructionTraceLengthExceeded),
            )
        } else {
            Ok::<(), ContributeRefusal>(())
        }),
{
    lemma_whole_days(k, r);
}

/// The time check depends on the clock only through the time elapsed since the
/// start: shifting both the start and the clock by the same amount changes
/// nothing.
pub proof fn law_time_depends_on_elapsed(f: FundraiserModel, t: i64, start: i64, t2: i64)
    requires
        t - f.time_started == t2 - start,
    ensures
        spec_check_time(f, t) == spec_check_time(FundraiserModel { time_started: start, ..f }, t2),
{
}

/// A contributor may add to their total unless it already exceeds the
/// percentage of the target (and would go on exceeding it), whatever the
/// fundraiser has collected so far.
pub proof fn law_contributor_cap(f: FundraiserModel, c: ContributorModel, amount: u64, raised: u64)
    requires
        f.amount_to_raise * MAX_CONTRIBUTION_PERCENTAGE <= u64::MAX,
        c.amount + amount <= u64::MAX,
    ensures
        c.amount <= f.amount_to_raise * MAX_CONTRIBUTION_PERCENTAGE / (PERCENTAGE_SCALER as int)
            ==> spec_record_contributor(f, c, amount) == Ok::<ContributorModel, ContributeRefusal>(
            ContributorModel { amount: (c.amount + amount) as u64 },
        ),
        c.amount > f.amount_to_raise * MAX_CONTRIBUTION_PERCENTAGE / (PERCENTAGE_SCALER as int)
            ==> spec_record_contributor(f, c, amount) == Err::<ContributorModel, ContributeRefusal>(
            ContributeRefusal::Refused(FundraiserError::InvalidArgument),
        ),
        spec_record_contributor(FundraiserModel { current_amount: raised, ..f }, c, amount)
            == spec_record_contributor(f, c, amount),
{
}

/// An amount above one and at most the percentage of the target passes the
/// amount check; one or less is refused as not enough account keys; more than
/// the percentage as arithmetic overflow; what the fundraiser has collected so
/// far plays no part.
pub proof fn law_amount_bounds(f: FundraiserModel, amount: u64, decimals: u8, raised: u64)
    ensures
        amount <= 1 ==> spec_check_amount(f, amount, decimals) == Err::<(), ContributeRefusal>(
            ContributeRefusal::Refused(FundraiserError::NotEnoughAccountKeys),
        ),
        1 < amount && f.amount_to_raise * MAX_CONTRIBUTION_PERCENTAGE <= u64::MAX && amount
            <= f.amount_to_raise * MAX_CONTRIBUTION_PERCENTAGE / (PERCENTAGE_SCALER as int)
            ==> spec_check_amount(f, amount, decimals) == Ok::<(), ContributeRefusal>(()),
        1 < amount && f.amount_to_raise * MAX_CONTRIBUTION_PERCENTAGE <= u64::MAX && amount
            > f.amount_to_raise * MAX_CONTRIBUTION_PERCENTAGE / (PERCENTAGE_SCALER as int)
            ==> spec_check_amount(f, amount, decimals) == Err::<(), ContributeRefusal>(
            ContributeRefusal::Refused(FundraiserError::ArithmeticOverflow),
        ),
        spec_check_amount(FundraiserModel { current_amount: raised, ..f }, amount, decimals)
            == spec_check_amount(f, amount, decimals),
{
}

/// Each field of the fundraiser lies at its own offset in the 90 bytes of the
/// account data: maker 0..32 and mint 32..64 as they are, the amount to raise
/// 64..72, the raised amount 72..80 and the start time 80..88 little-endian,
/// then duration at 88 and bump at 89. Reading and writing agree on it.
pub proof fn law_fundraiser_fields_at_offsets(data: Seq<u8>, m: FundraiserModel)
    ensures
        data.len() == 90 ==> parse_fundraiser(data) is Some,
        data.len() == 90 ==> parse_fundraiser(data).unwrap().maker == data.subrange(0, 32),
        data.len() == 90 ==> parse_fundraiser(data).unwrap().mint_to_raise == data.subrange(32, 64),
        data.len() == 90 ==> parse_fundraiser(data).unwrap().amount_to_raise
            == spec_u64_from_le_bytes(data.subrange(64, 72)),
        data.len() == 90 ==> parse_fundraiser(data).unwrap().current_amount
            == spec_u64_from_le_bytes(data.subrange(72, 80)),
        data.len() == 90 ==> parse_fundraiser(data).unwrap().time_started == spec_u64_from_le_bytes(
            data.subrange(80, 88),
        ) as i64,
        data.len() == 90 ==> parse_fundraiser(data).unwrap().duration == data[88],
        data.len() == 90 ==> parse_fundraiser(data).unwrap().bump == data[89],
        data.len() != 90 ==> parse_fundraiser(data) is None,
        m.wf() ==> fundraiser_layout(m).len() == 90,
        m.wf() ==> fundraiser_layout(m).subrange(0, 32) == m.maker,
        m.wf() ==> fundraiser_layout(m).subrange(32, 64) == m.mint_to_raise,
        m.wf() ==> spec_u64_from_le_bytes(fundraiser_layout(m).subrange(64, 72))
            == m.amount_to_raise,
        m.wf() ==> spec_u64_from_le_bytes(fundraiser_layout(m).subrange(72, 80))
            == m.current_amount,
        m.wf() ==> spec_u64_from_le_bytes(fundraiser_layout(m).subrange(80, 88)) as i64
            == m.time_started,
        m.wf() ==> fundraiser_layout(m)[88] == m.duration,
        m.wf() ==> fundraiser_layout(m)[89] == m.bump,
{
    if m.wf() {
        crate::state::fundraiser::lemma_parse_layout(m);
        let d = fundraiser_layout(m);
        assert(parse_fundraiser(d) == Some(m));
    }
}

/// A contribution whose token account belongs to the contributor and holds the
/// mint, whose data carries amount and bump, whose account is the derived
/// address, whose fundraiser and mint data have their sizes, whose amount is
/// above one and at most the percentage of the target, and that comes `k`
/// whole days (and `r` seconds) after the start with `k` past the duration, is
/// accepted: with the amount and bump of the data, the fundraiser as read, and
/// the contributor account created when the program does not own it.
pub proof fn law_contribution_accepted(
    contributor: Seq<u8>,
    mint_to_raise: Seq<u8>,
    contributor_account: Seq<u8>,
    owned: bool,
    data: Seq<u8>,
    fundraiser_data: Seq<u8>,
    mint_data: Seq<u8>,
    k: int,
    r: int,
)
    requires
        data.len() >= 9,
        fundraiser_data.len() == 90,
        mint_data.len() > 44,
        1 < spec_u64_from_le_bytes(data.subrange(0, 8)),
        spec_u64_from_le_bytes(fundraiser_data.subrange(64, 72)) * MAX_CONTRIBUTION_PERCENTAGE
            <= u64::MAX,
        spec_u64_from_le_bytes(data.subrange(0, 8)) <= spec_u64_from_le_bytes(
            fundraiser_data.subrange(64, 72),
        ) * MAX_CONTRIBUTION_PERCENTAGE / (PERCENTAGE_SCALER as int),
        0 <= k,
        0 <= r < 86400,
        k * 86400 + r <= i64::MAX,
        (spec_u64_from_le_bytes(fundraiser_data.subrange(80, 88)) as i64) + k * 86400 + r
            <= i64::MAX,
        fundraiser_data[88] < (k as u8),
    ensures
        spec_check_contribution(
            Some((contributor, mint_to_raise)),
            contributor,
            mint_to_raise,
            contributor_account,
            owned,
            data,
            fundraiser_data,
            Some(mint_data),
            Some(
                ((spec_u64_from_le_bytes(fundraiser_data.subrange(80, 88)) as i64) + k * 86400
                    + r) as i64,
            ),
            contributor_account,
        ) == Ok::<ContributionPlanModel, ContributeRefusal>(
            ContributionPlanModel {
                amount: spec_u64_from_le_bytes(data.subrange(0, 8)),
                bump: data[8],
                fundraiser: parse_fundraiser(fundraiser_data).unwrap(),
                create_contributor_account: !owned,
            },
        ),
{
    let f = parse_fundraiser(fundraiser_data).unwrap();
    law_fundraiser_fields_at_offsets(fundraiser_data, f);
    law_amount_bounds(
        f,
        spec_u64_from_le_bytes(data.subrange(0, 8)),
        mint_data[44],
        f.current_amount,
    );
    law_time_after_start(f, k, r);
}

/// Recording a transferred contribution adds exactly its amount to what the
/// fundraiser has collected and leaves every other field as it was; only a
/// total beyond `u64` aborts.
pub proof fn law_raised_amount(f: FundraiserModel, amount: u64)
    ensures
        f.current_amount + amount <= u64::MAX ==> spec_record_raised(f, amount) is Ok,
        f.current_amount + amount > u64::MAX ==> spec_record_raised(f, amount) == Err::<
            FundraiserModel,
            ContributeRefusal,
        >(ContributeRefusal::Overflow),
        spec_record_raised(f, amount) is Ok ==> {
            let g = spec_record_raised(f, amount)->Ok_0;
            &&& g.current_amount == f.current_amount + amount
            &&& g.maker == f.maker
            &&& g.mint_to_raise == f.mint_to_raise
            &&& g.amount_to_raise == f.amount_to_raise
            &&& g.time_started == f.time_started
            &&& g.duration == f.duration
            &&& g.bump == f.bump
        },
{
}

/// A contributor account holds the contributed amount little-endian in its
/// eight bytes; other sizes are not a contributor account.
pub proof fn law_contributor_layout(data: Seq<u8>)
    ensures
        data.len() == 8 ==> parse_contributor(data) == Some(
            ContributorModel { amount: spec_u64_from_le_bytes(data) },
        ),
        data.len() != 8 ==> parse_contributor(data) is None,
{
}

/// Applying an accepted contribution to an eight-byte contributor account
/// whose total is within the cap (and stays within `u64`) records the new
/// total and asks for a transfer of exactly the amount; any other size is
/// invalid account data.
pub proof fn law_apply_contribution(f: FundraiserModel, data: Seq<u8>, amount: u64)
    ensures
        data.len() != 8 ==> spec_apply_contribution(f, data, amount) == Err::<
            (ContributorModel, u64),
            ContributeRefusal,
        >(ContributeRefusal::Refused(FundraiserError::InvalidAccountData)),
        data.len() == 8 && f.amount_to_raise * MAX_CONTRIBUTION_PERCENTAGE <= u64::MAX
            && spec_u64_from_le_bytes(data) + amount <= u64::MAX && spec_u64_from_le_bytes(data)
            <= f.amount_to_raise * MAX_CONTRIBUTION_PERCENTAGE / (PERCENTAGE_SCALER as int)
            ==> spec_apply_contribution(f, data, amount) == Ok::<
            (ContributorModel, u64),
            ContributeRefusal,
        >((ContributorModel { amount: (spec_u64_from_le_bytes(data) + amount) as u64 }, amount)),
        spec_apply_contribution(f, data, amount) is Ok ==> spec_apply_contribution(
            f,
            data,
            amount,
        )->Ok_0.1 == amount && spec_apply_contribution(f, data, amount)->Ok_0.0.amount
            == spec_u64_from_le_bytes(data) + amount,
{
}

/// The discriminators 0, 1, 2 and 3 name initialize, contribute, checker and
/// refund; every other byte names no instruction.
pub proof fn law_discriminators(b: u8)
    ensures
        b == 0 ==> spec_instruction_of(b) == Some(FundraiserInstructions::Initialize),
        b == 1 ==> spec_instruction_of(b) == Some(FundraiserInstructions::Contributor),
        b == 2 ==> spec_instruction_of(b) == Some(FundraiserInstructions::Checker),
        b == 3 ==> spec_instruction_of(b) == Some(FundraiserInstructions::Refund),
        b > 3 ==> spec_instruction_of(b) is None,
{
}

/// The contributor account's address is derived from three seeds: the bytes
/// of "contributor", the contributor's address and the bump byte, with no
/// further bump.
pub proof fn law_contributor_pda_seeds(contributor: Seq<u8>, bump: u8, program_id: Seq<u8>)
    ensures
        spec_contributor_pda(contributor, bump, program_id) == spec_derive_address(
            seq![
                seq![99u8, 111u8, 110u8, 116u8, 114u8, 105u8, 98u8, 117u8, 116u8, 111u8, 114u8],
                contributor,
                seq![bump],
            ],
            None,
            program_id,
        ),
{
    assert(crate::address::CONTRIBUTOR_SEED@ =~= seq![
        99u8,
        111u8,
        110u8,
        116u8,
        114u8,
        105u8,
        98u8,
        117u8,
        116u8,
        111u8,
        114u8,
    ]);
}

/// Each refusal of a contribution comes in the order the instruction checks:
/// an unreadable token account, then a foreign owner, then a foreign mint,
/// then short data, then an account that is not the derived address, then
/// fundraiser data of the wrong size, then an unreadable mint, then mint data
/// too short for the decimals, then an amount of one or less.
pub proof fn law_contribution_refusals(
    token_account: Option<(Seq<u8>, Seq<u8>)>,
    contributor: Seq<u8>,
    mint_to_raise: Seq<u8>,
    contributor_account: Seq<u8>,
    owned: bool,
    data: Seq<u8>,
    fundraiser_data: Seq<u8>,
    mint_data: Option<Seq<u8>>,
    now: Option<i64>,
    pda: Seq<u8>,
)
    ensures
        ({
            let res = spec_check_contribution(
                token_account,
                contributor,
                mint_to_raise,
                contributor_account,
                owned,
                data,
                fundraiser_data,
                mint_data,
                now,
                pda,
            );
            let token_ok = token_account == Some((contributor, mint_to_raise));
            let through_address = token_ok && data.len() >= 9 && pda == contributor_account;
            &&& token_account is None ==> res == Err::<ContributionPlanModel, ContributeRefusal>(
                ContributeRefusal::TokenAccountUnreadable,
            )
            &&& (token_account is Some && token_account.unwrap().0 != contributor) ==> res == Err::<
                ContributionPlanModel,
                ContributeRefusal,
            >(ContributeRefusal::Refused(FundraiserError::IllegalOwner))
            &&& (token_account is Some && token_account.unwrap().0 == contributor
                && token_account.unwrap().1 != mint_to_raise) ==> res == Err::<
                ContributionPlanModel,
                ContributeRefusal,
            >(ContributeRefusal::Refused(FundraiserError::InvalidAccountData))
            &&& (token_ok && data.len() < 9) ==> res == Err::<
                ContributionPlanModel,
                ContributeRefusal,
            >(ContributeRefusal::DataTooShort)
            &&& (token_ok && data.len() >= 9 && pda != contributor_account) ==> res == Err::<
                ContributionPlanModel,
                ContributeRefusal,
            >(ContributeRefusal::ContributorAccountMismatch)
            &&& (through_address && fundraiser_data.len() != 90) ==> res == Err::<
                ContributionPlanModel,
                ContributeRefusal,
            >(ContributeRefusal::Refused(FundraiserError::InvalidAccountData))
            &&& (through_address && fundraiser_data.len() == 90 && mint_data is None) ==> res
                == Err::<ContributionPlanModel, ContributeRefusal>(
                ContributeRefusal::MintUnreadable,
            )
            &&& (through_address && fundraiser_data.len() == 90 && mint_data is Some
                && mint_data.unwrap().len() <= 44) ==> res == Err::<
                ContributionPlanModel,
                ContributeRefusal,
            >(ContributeRefusal::Refused(FundraiserError::InvalidAccountData))
            &&& (through_address && fundraiser_data.len() == 90 && mint_data is Some
                && mint_data.unwrap().len() > 44 && spec_u64_from_le_bytes(data.subrange(0, 8))
                <= 1) ==> res == Err::<ContributionPlanModel, ContributeRefusal>(
                ContributeRefusal::Refused(FundraiserError::NotEnoughAccountKeys),
            )
        }),
{
    law_fundraiser_fields_at_offsets(fundraiser_data, parse_fundraiser(fundraiser_data).unwrap());
    if token_account is Some {
        let (o, m) = token_account.unwrap();
        assert(token_account == Some((o, m)));
    }
    if data.len() >= 9 && fundraiser_data.len() == 90 && mint_data is Some {
        law_amount_bounds(
            parse_fundraiser(fundraiser_data).unwrap(),
            spec_u64_from_le_bytes(data.subrange(0, 8)),
            mint_data.unwrap()[44],
            0,
        );
    }
}

} // verus!
