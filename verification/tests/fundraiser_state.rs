use pinocchio_fundraiser::error::FundraiserError;
use pinocchio_fundraiser::state::{Contributor, Fundraiser};
use pinocchio_fundraiser::MIN_AMOUNT_TO_RAISE;

const DECIMALS: u32 = 6;

fn min_raise() -> u64 {
    MIN_AMOUNT_TO_RAISE.checked_mul(10u64.pow(DECIMALS)).unwrap()
}

fn blank_fundraiser() -> Fundraiser {
    Fundraiser::from_account_info(&[0u8; 90]).unwrap()
}

#[test]
fn initialized_fields_lie_at_their_offsets() {
    let amount_to_raise = min_raise() * 2;
    let mut f = blank_fundraiser();
    f.set_maker(&[7u8; 32]);
    f.set_mint_to_raise(&[9u8; 32]);
    f.set_amount_to_raise(amount_to_raise);
    f.set_current_amount(0);
    f.set_time_started(0);
    f.duration = 30;
    f.bump = 254;

    let data = f.to_account_data();
    assert_eq!(data.len(), Fundraiser::LEN, "wrong account size");
    assert_eq!(
        u64::from_le_bytes(data[64..72].try_into().unwrap()),
        amount_to_raise,
        "stored amount_to_raise mismatch"
    );
    assert_eq!(
        u64::from_le_bytes(data[72..80].try_into().unwrap()),
        0,
        "current_amount should be 0 after initialize"
    );
}

#[test]
fn fundraiser_len_is_ninety() {
    assert_eq!(Fundraiser::LEN, 90);
    assert_eq!(Contributor::LEN, 8);
}

#[test]
fn fundraiser_rejects_wrong_length() {
    assert_eq!(Fundraiser::from_account_info(&[0u8; 89]), Err(FundraiserError::InvalidAccountData));
    assert_eq!(Fundraiser::from_account_info(&[0u8; 91]), Err(FundraiserError::InvalidAccountData));
    assert_eq!(Fundraiser::from_account_info(&[]), Err(FundraiserError::InvalidAccountData));
}

#[test]
fn fundraiser_reads_layout() {
    let mut data = [0u8; 90];
    for i in 0..32 {
        data[i] = 1;
        data[32 + i] = 2;
    }
    data[64..72].copy_from_slice(&1_000_000u64.to_le_bytes());
    data[72..80].copy_from_slice(&250u64.to_le_bytes());
    data[80..88].copy_from_slice(&(-5i64).to_le_bytes());
    data[88] = 30;
    data[89] = 255;
    let f = Fundraiser::from_account_info(&data).unwrap();
    assert_eq!(f.maker(), [1u8; 32]);
    assert_eq!(f._mint_to_raise(), [2u8; 32]);
    assert_eq!(f.amount_to_raise(), 1_000_000);
    assert_eq!(f.current_amount(), 250);
    assert_eq!(f.time_started(), -5);
    assert_eq!(f.duration, 30);
    assert_eq!(f.duration(), 30);
    assert_eq!(f.bump, 255);
    assert_eq!(f.bump(), 255);
    assert_eq!(f.to_account_data(), data.to_vec());
}

#[test]
fn setters_then_getters_give_back_values() {
    let mut f = blank_fundraiser();
    f.set_amount_to_raise(u64::MAX);
    f.set_current_amount(0x0102_0304_0506_0708);
    f.set_time_started(i64::MIN);
    f.set_maker(&[0xAB; 32]);
    f.set_mint_to_raise(&[0xCD; 32]);
    assert_eq!(f.amount_to_raise(), u64::MAX);
    assert_eq!(f.current_amount(), 0x0102_0304_0506_0708);
    assert_eq!(f.time_started(), i64::MIN);
    assert_eq!(f.maker(), [0xAB; 32]);
    assert_eq!(f._mint_to_raise(), [0xCD; 32]);
    f.set_time_started(1_725_029_869);
    assert_eq!(f.time_started(), 1_725_029_869);
    assert_eq!(f.amount_to_raise(), u64::MAX);
}

#[test]
fn setter_writes_little_endian() {
    let mut f = blank_fundraiser();
    f.set_current_amount(0x0102_0304_0506_0708);
    let data = f.to_account_data();
    assert_eq!(&data[72..80], &[8, 7, 6, 5, 4, 3, 2, 1]);
    f.set_time_started(-1);
    let data = f.to_account_data();
    assert_eq!(&data[80..88], &[0xFF; 8]);
}

#[test]
fn fundraiser_account_data_roundtrip() {
    let mut f = blank_fundraiser();
    f.set_amount_to_raise(6_000_000);
    f.set_current_amount(400_000);
    f.set_time_started(86_400);
    f.duration = 7;
    f.bump = 200;
    let g = Fundraiser::from_account_info(&f.to_account_data()).unwrap();
    assert_eq!(f, g);
}

#[test]
fn contributor_roundtrip_and_errors() {
    let mut c = Contributor::from_account_info(&[0u8; 8]).unwrap();
    assert_eq!(c.amount(), 0);
    c.set_amount(123_456_789);
    assert_eq!(c.amount(), 123_456_789);
    assert_eq!(c.to_account_data(), 123_456_789u64.to_le_bytes().to_vec());
    let d = Contributor::from_account_info(&c.to_account_data()).unwrap();
    assert_eq!(d, c);
    assert_eq!(Contributor::from_account_info(&[0u8; 9]), Err(FundraiserError::InvalidAccountData));
    assert_eq!(Contributor::from_account_info(&[0u8; 7]), Err(FundraiserError::InvalidAccountData));
}
