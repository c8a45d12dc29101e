use native_amm::codec::{read_i64, read_u16, read_u64};
use native_amm::error::AmmError;
use native_amm::instruction::{
    DepositInstructionData, InitializeInstructionData, InstructionKind, SwapInstructionData,
    WithdrawInstructionData,
};
use native_amm::state::{AmmState, Config, CONFIG_LEN};

fn amounts(a: u64, b: u64, c: u64, expiration: i64) -> Vec<u8> {
    let mut v = Vec::new();
    v.extend_from_slice(&a.to_le_bytes());
    v.extend_from_slice(&b.to_le_bytes());
    v.extend_from_slice(&c.to_le_bytes());
    v.extend_from_slice(&expiration.to_le_bytes());
    v
}

fn swap_payload(is_x: u8, amount: u64, min: u64, expiration: i64) -> Vec<u8> {
    let mut v = vec![is_x];
    v.extend_from_slice(&amount.to_le_bytes());
    v.extend_from_slice(&min.to_le_bytes());
    v.extend_from_slice(&expiration.to_le_bytes());
    v
}

fn initialize_payload(with_authority: bool) -> Vec<u8> {
    let mut v = Vec::new();
    v.extend_from_slice(&0x0102_0304_0506_0708u64.to_le_bytes());
    v.extend_from_slice(&30u16.to_le_bytes());
    v.extend_from_slice(&[0xAA; 32]);
    v.extend_from_slice(&[0xBB; 32]);
    v.push(254);
    v.push(253);
    if with_authority {
        v.extend_from_slice(&[0xCC; 32]);
    }
    v
}

#[test]
fn codec_reads_little_endian() {
    let bytes = [0x08, 0x07, 0x06, 0x05, 0x04, 0x03, 0x02, 0x01, 0xFF, 0xFF, 0xFF, 0xFF, 0xFF, 0xFF, 0xFF, 0xFF];
    assert_eq!(read_u64(&bytes, 0), 0x0102_0304_0506_0708);
    assert_eq!(read_u16(&bytes, 0), 0x0708);
    assert_eq!(read_i64(&bytes, 8), -1);
    assert_eq!(read_i64(&i64::MIN.to_le_bytes(), 0), i64::MIN);
    assert_eq!(read_i64(&i64::MAX.to_le_bytes(), 0), i64::MAX);
}

#[test]
fn deposit_payload_decodes() {
    let d = DepositInstructionData::parse(&amounts(5, 1000, 2000, 77), 70).unwrap();
    assert_eq!(d, DepositInstructionData { amount: 5, max_x: 1000, max_y: 2000, expiration: 77 });
}

#[test]
fn zero_amount_is_malformed() {
    assert_eq!(DepositInstructionData::parse(&amounts(0, 1, 1, 10), 0), Err(AmmError::MalformedInput));
    assert_eq!(WithdrawInstructionData::parse(&amounts(0, 1, 1, 10), 0), Err(AmmError::MalformedInput));
    assert_eq!(SwapInstructionData::parse(&swap_payload(1, 0, 1, 10), 0), Err(AmmError::MalformedInput));
}

#[test]
fn zero_bounds_are_malformed() {
    assert_eq!(DepositInstructionData::parse(&amounts(1, 0, 1, 10), 0), Err(AmmError::MalformedInput));
    assert_eq!(WithdrawInstructionData::parse(&amounts(1, 1, 0, 10), 0), Err(AmmError::MalformedInput));
    assert_eq!(SwapInstructionData::parse(&swap_payload(0, 1, 0, 10), 0), Err(AmmError::MalformedInput));
}

#[test]
fn wrong_lengths_are_malformed() {
    assert_eq!(DepositInstructionData::parse(&[0u8; 31], 0), Err(AmmError::MalformedInput));
    assert_eq!(WithdrawInstructionData::parse(&[1u8; 33], 0), Err(AmmError::MalformedInput));
    assert_eq!(SwapInstructionData::parse(&[1u8; 24], 0), Err(AmmError::MalformedInput));
    assert_eq!(InitializeInstructionData::parse(&[1u8; 77]), Err(AmmError::MalformedInput));
}

#[test]
fn deadline_in_the_past_is_expired() {
    assert_eq!(DepositInstructionData::parse(&amounts(1, 1, 1, 99), 100), Err(AmmError::Expired));
    assert_eq!(WithdrawInstructionData::parse(&amounts(1, 1, 1, -5), 100), Err(AmmError::Expired));
    assert_eq!(SwapInstructionData::parse(&swap_payload(1, 1, 1, 99), 100), Err(AmmError::Expired));
}

#[test]
fn deadline_equal_to_now_is_accepted() {
    assert!(DepositInstructionData::parse(&amounts(1, 1, 1, 100), 100).is_ok());
    assert!(WithdrawInstructionData::parse(&amounts(1, 1, 1, 100), 100).is_ok());
    let s = SwapInstructionData::parse(&swap_payload(0, 3, 2, 100), 100).unwrap();
    assert_eq!(s, SwapInstructionData { is_x: false, amount: 3, min: 2, expiration: 100 });
    assert!(SwapInstructionData::parse(&swap_payload(7, 3, 2, 100), 100).unwrap().is_x);
}

#[test]
fn initialize_payload_both_lengths() {
    let long = InitializeInstructionData::parse(&initialize_payload(true)).unwrap();
    assert_eq!(long.seed, 0x0102_0304_0506_0708);
    assert_eq!(long.fee, 30);
    assert_eq!(long.mint_x, [0xAA; 32]);
    assert_eq!(long.mint_y, [0xBB; 32]);
    assert_eq!(long.config_bump, [254]);
    assert_eq!(long.lp_bump, [253]);
    assert_eq!(long.authority, [0xCC; 32]);
    let short = InitializeInstructionData::parse(&initialize_payload(false)).unwrap();
    assert_eq!(short.authority, [0u8; 32]);
    assert_eq!(InitializeInstructionData { authority: [0xCC; 32], ..short }, long);
}

#[test]
fn discriminator_split() {
    let (k, rest) = InstructionKind::split(&[2, 9, 8]).unwrap();
    assert_eq!(k, InstructionKind::Withdraw);
    assert_eq!(rest, &[9, 8]);
    assert_eq!(InstructionKind::split(&[0]).unwrap().0, InstructionKind::Initialize);
    assert_eq!(InstructionKind::split(&[3]).unwrap().0, InstructionKind::Swap);
    assert_eq!(InstructionKind::split(&[]), Err(AmmError::MalformedInput));
    assert_eq!(InstructionKind::split(&[4, 0]), Err(AmmError::MalformedInput));
}

fn sample_config() -> Config {
    Config {
        state: 1,
        seed: 0xDEAD_BEEF,
        authority: [3; 32],
        mint_x: [4; 32],
        mint_y: [5; 32],
        fee: 300,
        config_bump: [251],
    }
}

#[test]
fn config_layout_round_trip() {
    let c = sample_config();
    let bytes = c.to_bytes();
    assert_eq!(bytes.len(), CONFIG_LEN);
    assert_eq!(bytes[0], 1);
    assert_eq!(&bytes[1..9], &0xDEAD_BEEFu64.to_le_bytes());
    assert_eq!(&bytes[105..107], &300u16.to_le_bytes());
    assert_eq!(bytes[107], 251);
    assert_eq!(Config::from_bytes_unchecked(&bytes), c);
}

#[test]
fn config_load_checks_length_and_owner() {
    let c = sample_config();
    let bytes = c.to_bytes();
    let program = [9u8; 32];
    assert_eq!(Config::load(&program, &bytes, &program), Ok(c));
    assert_eq!(Config::load(&[8u8; 32], &bytes, &program), Err(AmmError::AccountMismatch));
    assert_eq!(Config::load(&program, &bytes[..107], &program), Err(AmmError::AccountMismatch));
}

#[test]
fn config_setters() {
    let mut c = sample_config();
    assert_eq!(c.set_fee(10_000), Err(AmmError::MalformedInput));
    assert_eq!(c.fee(), 300);
    assert_eq!(c.set_fee(9_999), Ok(()));
    assert_eq!(c.fee(), 9_999);
    assert_eq!(c.set_state(AmmState::WithdrawOnly.to_byte()), Err(AmmError::MalformedInput));
    assert_eq!(c.set_state(AmmState::Disabled.to_byte()), Ok(()));
    assert_eq!(c.state(), 2);
    c.set_seed(7);
    c.set_mint_x([1; 32]);
    c.set_mint_y([2; 32]);
    c.set_authority([0; 32]);
    c.set_config_bump([9]);
    assert_eq!((c.seed(), *c.mint_x(), *c.mint_y(), *c.authority(), c.config_bump()), (7, [1; 32], [2; 32], [0; 32], [9]));
}

#[test]
fn config_set_inner_initializes() {
    let mut c = sample_config();
    assert_eq!(c.set_inner(1, [1; 32], [2; 32], [3; 32], 10_000, [4]), Err(AmmError::MalformedInput));
    assert_eq!(c, sample_config());
    assert_eq!(c.set_inner(1, [1; 32], [2; 32], [3; 32], 25, [4]), Ok(()));
    assert_eq!(
        c,
        Config { state: 1, seed: 1, authority: [1; 32], mint_x: [2; 32], mint_y: [3; 32], fee: 25, config_bump: [4] }
    );
}

#[test]
fn config_authority_presence() {
    let mut c = sample_config();
    assert_eq!(c.has_authority(), Some([3; 32]));
    c.set_authority([0; 32]);
    assert_eq!(c.has_authority(), None);
    let mut a = [0u8; 32];
    a[31] = 1;
    c.set_authority(a);
    assert_eq!(c.has_authority(), Some(a));
}
