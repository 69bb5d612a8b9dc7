//! The fundraiser account: its byte layout and typed access to its fields.

use vstd::prelude::*;
use vstd::bytes::{spec_u64_from_le_bytes, spec_u64_to_le_bytes};

use crate::error::FundraiserError;
use crate::le::{
    i64_from_le_array, i64_to_le_array, lemma_i64_le_roundtrip, lemma_u64_le_bytes_roundtrip,
    lemma_u64_le_roundtrip, spec_i64_from_le_bytes, spec_i64_to_le_bytes, u64_from_le_array,
    u64_to_le_array,
};

verus! {

/// The fundraiser account as it is stored: fixed-size byte fields in the
/// order in which they lie in the account data.
#[derive(Clone, Copy, Debug, PartialEq)]
pub struct Fundraiser {
    maker: [u8; 32],
    mint_to_raise: [u8; 32],
    amount_to_raise: [u8; 8],
    current_amount: [u8; 8],
    time_started: [u8; 8],
    pub duration: u8,
    pub bump: u8,
}

/// What a fundraiser account holds, with its integers decoded.
pub struct FundraiserModel {
    pub maker: Seq<u8>,
    pub mint_to_raise: Seq<u8>,
    pub amount_to_raise: u64,
    pub current_amount: u64,
    pub time_started: i64,
    pub duration: u8,
    pub bump: u8,
}

impl FundraiserModel {
    /// Both addresses are 32 bytes long.
    pub open spec fn wf(self) -> bool {
        self.maker.len() == 32 && self.mint_to_raise.len() == 32
    }
}

impl View for Fundraiser {
    type V = FundraiserModel;

    closed spec fn view(&self) -> FundraiserModel {
        FundraiserModel {
            maker: self.maker@,
            mint_to_raise: self.mint_to_raise@,
            amount_to_raise: spec_u64_from_le_bytes(self.amount_to_raise@),
            current_amount: spec_u64_from_le_bytes(self.current_amount@),
            time_started: spec_i64_from_le_bytes(self.time_started@),
            duration: self.duration,
            bump: self.bump,
        }
    }
}

/// Size in bytes of a fundraiser account.
pub const FUNDRAISER_LEN: usize = 32 + 32 + 8 + 8 + 8 + 1 + 1;

/// The account data that stores `m`: maker, mint, amount to raise, current
/// amount and start time (the integers little-endian), then duration and bump.
pub open spec fn fundraiser_layout(m: FundraiserModel) -> Seq<u8> {
    m.maker + m.mint_to_raise + spec_u64_to_le_bytes(m.amount_to_raise) + spec_u64_to_le_bytes(
        m.current_amount,
    ) + spec_i64_to_le_bytes(m.time_started) + seq![m.duration, m.bump]
}

/// The fundraiser that account data holds, if the data has the account's size.
pub open spec fn parse_fundraiser(data: Seq<u8>) -> Option<FundraiserModel> {
    if data.len() != FUNDRAISER_LEN {
        None
    } else {
        Some(
            FundraiserModel {
                maker: data.subrange(0, 32),
                mint_to_raise: data.subrange(32, 64),
                amount_to_raise: spec_u64_from_le_bytes(data.subrange(64, 72)),
                current_amount: spec_u64_from_le_bytes(data.subrange(72, 80)),
                time_started: spec_i64_from_le_bytes(data.subrange(80, 88)),
                duration: data[88],
                bump: data[89],
            },
        )
    }
}

/// Reading back the account data written for a fundraiser gives that fundraiser.
pub proof fn lemma_parse_layout(m: FundraiserModel)
    requires
        m.wf(),
    ensures
        fundraiser_layout(m).len() == FUNDRAISER_LEN,
        parse_fundraiser(fundraiser_layout(m)) == Some(m),
{
    lemma_u64_le_roundtrip(m.amount_to_raise);
    lemma_u64_le_roundtrip(m.current_amount);
    lemma_i64_le_roundtrip(m.time_started);
    let d = fundraiser_layout(m);
    assert(d.subrange(0, 32) =~= m.maker);
    assert(d.subrange(32, 64) =~= m.mint_to_raise);
    assert(d.subrange(64, 72) =~= spec_u64_to_le_bytes(m.amount_to_raise));
    assert(d.subrange(72, 80) =~= spec_u64_to_le_bytes(m.current_amount));
    assert(d.subrange(80, 88) =~= spec_i64_to_le_bytes(m.time_started));
}

/// Writing out the fundraiser read from account data gives that data back.
pub proof fn lemma_layout_parse(data: Seq<u8>)
    requires
        data.len() == FUNDRAISER_LEN,
    ensures
        fundraiser_layout(parse_fundraiser(data).unwrap()) == data,
{
    let m = parse_fundraiser(data).unwrap();
    lemma_u64_le_bytes_roundtrip(data.subrange(64, 72));
    lemma_u64_le_bytes_roundtrip(data.subrange(72, 80));
    lemma_u64_le_bytes_roundtrip(data.subrange(80, 88));
    let u = spec_u64_from_le_bytes(data.subrange(80, 88));
    assert(((u as i64) as u64) == u) by (bit_vector);
    assert(fundraiser_layout(m) =~= data);
}

/// Every fundraiser holds 32-byte addresses.
pub proof fn lemma_fundraiser_wf(f: Fundraiser)
    ensures
        f@.wf(),
{
}

/// Storing a fundraiser in account data and reading that data back gives the
/// same fundraiser.
pub proof fn law_fundraiser_account_data_roundtrip(f: Fundraiser)
    ensures
        parse_fundraiser(fundraiser_layout(f@)) == Some(f@),
{
    lemma_parse_layout(f@);
}

impl Fundraiser {
    /// Size in bytes of a fundraiser account.
    pub const LEN: usize = FUNDRAISER_LEN;

    /// Reads a fundraiser from the data of its account; the data must have
    /// exactly the account's size.
    pub fn from_account_info(data: &[u8]) -> (res: Result<Fundraiser, FundraiserError>)
        ensures
            match res {
                Ok(f) => parse_fundraiser(data@) == Some(f@),
                Err(e) => parse_fundraiser(data@) is None && e == FundraiserError::InvalidAccountData,
            },
    {
        if data.len() != FUNDRAISER_LEN {
            return Err(FundraiserError::InvalidAccountData);
        }
        let mut maker = [0u8; 32];
        let mut mint_to_raise = [0u8; 32];
        let mut i: usize = 0;
        while i < 32
            invariant
                data@.len() == FUNDRAISER_LEN,
                0 <= i <= 32,
                forall|j: int| 0 <= j < i ==> maker@[j] == data@[j],
                forall|j: int| 0 <= j < i ==> mint_to_raise@[j] == data@[32 + j],
            decreases 32 - i,
        {
            maker[i] = data[i];
            mint_to_raise[i] = data[32 + i];
            i = i + 1;
        }
        let amount_to_raise: [u8; 8] = [
            data[64], data[65], data[66], data[67], data[68], data[69], data[70], data[71],
        ];
        let current_amount: [u8; 8] = [
            data[72], data[73], data[74], data[75], data[76], data[77], data[78], data[79],
        ];
        let time_started: [u8; 8] = [
            data[80], data[81], data[82], data[83], data[84], data[85], data[86], data[87],
        ];
        let f = Fundraiser {
            maker,
            mint_to_raise,
            amount_to_raise,
            current_amount,
            time_started,
            duration: data[88],
            bump: data[89],
        };
        assert(maker@ =~= data@.subrange(0, 32));
        assert(mint_to_raise@ =~= data@.subrange(32, 64));
        assert(amount_to_raise@ =~= data@.subrange(64, 72));
        assert(current_amount@ =~= data@.subrange(72, 80));
        assert(time_started@ =~= data@.subrange(80, 88));
        Ok(f)
    }

    /// The account data that stores this fundraiser.
    pub fn to_account_data(&self) -> (data: Vec<u8>)
        ensures
            data@ == fundraiser_layout(self@),
            data@.len() == FUNDRAISER_LEN,
    {
        let mut data: Vec<u8> = Vec::new();
        let mut i: usize = 0;
        while i < 32
            invariant
                0 <= i <= 32,
                data@ =~= self.maker@.subrange(0, i as int),
            decreases 32 - i,
        {
            data.push(self.maker[i]);
            i = i + 1;
        }
        i = 0;
        while i < 32
            invariant
                0 <= i <= 32,
                data@ =~= self.maker@ + self.mint_to_raise@.subrange(0, i as int),
            decreases 32 - i,
        {
            data.push(self.mint_to_raise[i]);
            i = i + 1;
        }
        let ghost prefix = data@;
        i = 0;
        while i < 8
            invariant
                0 <= i <= 8,
                prefix == self.maker@ + self.mint_to_raise@,
                data@ =~= prefix + self.amount_to_raise@.subrange(0, i as int),
            decreases 8 - i,
        {
            data.push(self.amount_to_raise[i]);
            i = i + 1;
        }
        let ghost prefix = data@;
        i = 0;
        while i < 8
            invariant
                0 <= i <= 8,
                data@ =~= prefix + self.current_amount@.subrange(0, i as int),
            decreases 8 - i,
        {
            data.push(self.current_amount[i]);
            i = i + 1;
        }
        let ghost prefix = data@;
        i = 0;
        while i < 8
            invariant
                0 <= i <= 8,
                data@ =~= prefix + self.time_started@.subrange(0, i as int),
            decreases 8 - i,
        {
            data.push(self.time_started[i]);
            i = i + 1;
        }
        data.push(self.duration);
        data.push(self.bump);
        proof {
            lemma_u64_le_bytes_roundtrip(self.amount_to_raise@);
            lemma_u64_le_bytes_roundtrip(self.current_amount@);
            lemma_u64_le_bytes_roundtrip(self.time_started@);
            let u = spec_u64_from_le_bytes(self.time_started@);
            assert(((u as i64) as u64) == u) by (bit_vector);
            assert(self.amount_to_raise@.subrange(0, 8) =~= self.amount_to_raise@);
            assert(self.current_amount@.subrange(0, 8) =~= self.current_amount@);
            assert(self.time_started@.subrange(0, 8) =~= self.time_started@);
            assert(self.maker@.subrange(0, 32) =~= self.maker@);
            assert(self.mint_to_raise@.subrange(0, 32) =~= self.mint_to_raise@);
            assert(data@ =~= fundraiser_layout(self@));
        }
        data
    }

    /// The fundraiser's duration in days (also a public field).
    pub fn duration(&self) -> (duration: u8)
        ensures
            duration == self@.duration,
    {
        self.duration
    }

    /// The bump of the fundraiser's program address (also a public field).
    pub fn bump(&self) -> (bump: u8)
        ensures
            bump == self@.bump,
    {
        self.bump
    }

    /// The address of the maker, who receives the raised tokens.
    pub fn maker(&self) -> (maker: [u8; 32])
        ensures
            maker@ == self@.maker,
    {
        self.maker
    }

    /// Records the maker's address.
    pub fn set_maker(&mut self, maker: &[u8; 32])
        ensures
            final(self)@ == (FundraiserModel { maker: maker@, ..old(self)@ }),
    {
        self.maker = *maker;
    }

    /// The address of the mint of the token being raised.
    pub fn _mint_to_raise(&self) -> (mint: [u8; 32])
        ensures
            mint@ == self@.mint_to_raise,
    {
        self.mint_to_raise
    }

    /// Records the address of the mint of the token being raised.
    pub fn set_mint_to_raise(&mut self, mint: &[u8; 32])
        ensures
            final(self)@ == (FundraiserModel { mint_to_raise: mint@, ..old(self)@ }),
    {
        self.mint_to_raise = *mint;
    }

    /// The number of tokens the fundraiser aims to collect.
    pub fn amount_to_raise(&self) -> (amount: u64)
        ensures
            amount == self@.amount_to_raise,
    {
        u64_from_le_array(&self.amount_to_raise)
    }

    /// Records the number of tokens the fundraiser aims to collect.
    pub fn set_amount_to_raise(&mut self, amount: u64)
        ensures
            final(self)@ == (FundraiserModel { amount_to_raise: amount, ..old(self)@ }),
    {
        self.amount_to_raise = u64_to_le_array(amount);
        proof {
            lemma_u64_le_roundtrip(amount);
        }
    }

    /// The number of tokens contributed so far.
    pub fn current_amount(&self) -> (amount: u64)
        ensures
            amount == self@.current_amount,
    {
        u64_from_le_array(&self.current_amount)
    }

    /// Records the number of tokens contributed so far.
    pub fn set_current_amount(&mut self, amount: u64)
        ensures
            final(self)@ == (FundraiserModel { current_amount: amount, ..old(self)@ }),
    {
        self.current_amount = u64_to_le_array(amount);
        proof {
            lemma_u64_le_roundtrip(amount);
        }
    }

    /// The Unix timestamp at which the fundraiser started.
    pub fn time_started(&self) -> (time: i64)
        ensures
            time == self@.time_started,
    {
        i64_from_le_array(&self.time_started)
    }

    /// Records the Unix timestamp at which the fundraiser started.
    pub fn set_time_started(&mut self, time: i64)
        ensures
            final(self)@ == (FundraiserModel { time_started: time, ..old(self)@ }),
    {
        self.time_started = i64_to_le_array(time);
        proof {
            lemma_i64_le_roundtrip(time);
        }
    }
}

} // verus!
