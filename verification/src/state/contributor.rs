//! The contributor account: how much one contributor has given.

use vstd::prelude::*;
use vstd::bytes::{spec_u64_from_le_bytes, spec_u64_to_le_bytes};

use crate::error::FundraiserError;
use crate::le::{lemma_u64_le_bytes_roundtrip, lemma_u64_le_roundtrip, u64_from_le_array, u64_to_le_array};

verus! {

/// The contributor account as it is stored: the contributed amount,
/// little-endian.
#[derive(Clone, Copy, Debug, PartialEq)]
pub struct Contributor {
    amount: [u8; 8],
}

/// What a contributor account holds, decoded.
pub struct ContributorModel {
    pub amount: u64,
}

impl View for Contributor {
    type V = ContributorModel;

    closed spec fn view(&self) -> ContributorModel {
        ContributorModel { amount: spec_u64_from_le_bytes(self.amount@) }
    }
}

/// Size in bytes of a contributor account.
pub const CONTRIBUTOR_LEN: usize = 8;

/// The account data that stores `m`.
pub open spec fn contributor_layout(m: ContributorModel) -> Seq<u8> {
    spec_u64_to_le_bytes(m.amount)
}

/// The contributor that account data holds, if the data has the account's size.
pub open spec fn parse_contributor(data: Seq<u8>) -> Option<ContributorModel> {
    if data.len() != CONTRIBUTOR_LEN {
        None
    } else {
        Some(ContributorModel { amount: spec_u64_from_le_bytes(data) })
    }
}

/// Storing a contributor in account data and reading it back gives the same
/// contributor; writing out what was read from account data gives that data.
pub proof fn law_contributor_account_data_roundtrip(m: ContributorModel, data: Seq<u8>)
    ensures
        parse_contributor(contributor_layout(m)) == Some(m),
        data.len() == CONTRIBUTOR_LEN ==> contributor_layout(parse_contributor(data).unwrap())
            == data,
{
    lemma_u64_le_roundtrip(m.amount);
    if data.len() == CONTRIBUTOR_LEN {
        lemma_u64_le_bytes_roundtrip(data);
    }
}

impl Contributor {
    /// Size in bytes of a contributor account.
    pub const LEN: usize = CONTRIBUTOR_LEN;

    /// Reads a contributor from the data of its account; the data must have
    /// exactly the account's size.
    pub fn from_account_info(data: &[u8]) -> (res: Result<Contributor, FundraiserError>)
        ensures
            match res {
                Ok(c) => parse_contributor(data@) == Some(c@),
                Err(e) => parse_contributor(data@) is None && e == FundraiserError::InvalidAccountData,
            },
    {
        if data.len() != CONTRIBUTOR_LEN {
            return Err(FundraiserError::InvalidAccountData);
        }
        let amount: [u8; 8] = [data[0], data[1], data[2], data[3], data[4], data[5], data[6], data[7]];
        assert(amount@ =~= data@);
        Ok(Contributor { amount })
    }

    /// The account data that stores this contributor.
    pub fn to_account_data(&self) -> (data: Vec<u8>)
        ensures
            data@ == contributor_layout(self@),
            data@.len() == CONTRIBUTOR_LEN,
    {
        let mut data: Vec<u8> = Vec::new();
        let mut i: usize = 0;
        while i < 8
            invariant
                0 <= i <= 8,
                data@ =~= self.amount@.subrange(0, i as int),
            decreases 8 - i,
        {
            data.push(self.amount[i]);
            i = i + 1;
        }
        proof {
            lemma_u64_le_bytes_roundtrip(self.amount@);
            assert(self.amount@.subrange(0, 8) =~= self.amount@);
        }
        data
    }

    /// The number of tokens this contributor has given.
    pub fn amount(&self) -> (amount: u64)
        ensures
            amount == self@.amount,
    {
        u64_from_le_array(&self.amount)
    }

    /// Records the number of tokens this contributor has given.
    pub fn set_amount(&mut self, amount: u64)
        ensures
            final(self)@ == (ContributorModel { amount }),
    {
        self.amount = u64_to_le_array(amount);
        proof {
            lemma_u64_le_roundtrip(amount);
        }
    }
}

} // verus!
