use vstd::prelude::*;

use crate::codec::{i64_at, read_array32, read_i64, read_u16, read_u64, u16_at, u64_at};
use crate::error::AmmError;

verus! {

/// Payload length of Initialize when it carries an authority.
pub const INITIALIZE_DATA_LEN_WITH_AUTHORITY: usize = 108;

/// Payload length of Initialize without an authority.
pub const INITIALIZE_DATA_LEN: usize = 76;

/// Payload length of Deposit and of Withdraw.
pub const AMOUNTS_DATA_LEN: usize = 32;

/// Payload length of Swap.
pub const SWAP_DATA_LEN: usize = 25;

/// Payload of Initialize.
#[derive(Clone, Copy, Debug, PartialEq, Eq)]
pub struct InitializeInstructionData {
    /// Nonce that makes the pool's derived addresses unique.
    pub seed: u64,
    /// Swap fee in basis points.
    pub fee: u16,
    pub mint_x: [u8; 32],
    pub mint_y: [u8; 32],
    /// Derivation proof of the pool record's address.
    pub config_bump: [u8; 1],
    /// Derivation proof of the liquidity mint's address.
    pub lp_bump: [u8; 1],
    /// Administrator; all zero when there is none.
    pub authority: [u8; 32],
}

/// Payload of Deposit.
#[derive(Clone, Copy, Debug, PartialEq, Eq, Structural)]
pub struct DepositInstructionData {
    /// Liquidity units the depositor asks for.
    pub amount: u64,
    /// Most of X the depositor declares to pay.
    pub max_x: u64,
    /// Most of Y the depositor declares to pay.
    pub max_y: u64,
    /// Deadline, in ledger seconds.
    pub expiration: i64,
}

/// Payload of Withdraw.
#[derive(Clone, Copy, Debug, PartialEq, Eq, Structural)]
pub struct WithdrawInstructionData {
    /// Liquidity units to burn.
    pub amount: u64,
    /// Least of X to receive.
    pub min_x: u64,
    /// Least of Y to receive.
    pub min_y: u64,
    /// Deadline, in ledger seconds.
    pub expiration: i64,
}

/// Payload of Swap.
#[derive(Clone, Copy, Debug, PartialEq, Eq, Structural)]
pub struct SwapInstructionData {
    /// Pay X for Y when set, Y for X otherwise.
    pub is_x: bool,
    /// Amount paid in.
    pub amount: u64,
    /// Least amount to receive.
    pub min: u64,
    /// Deadline, in ledger seconds.
    pub expiration: i64,
}

/// Which instruction a discriminator byte names.
#[derive(Clone, Copy, Debug, PartialEq, Eq, Structural)]
pub enum InstructionKind {
    Initialize,
    Deposit,
    Withdraw,
    Swap,
}

/// The payload `s` of Initialize has one of its two lengths.
pub open spec fn initialize_length_ok(s: Seq<u8>) -> bool {
    s.len() == INITIALIZE_DATA_LEN_WITH_AUTHORITY || s.len() == INITIALIZE_DATA_LEN
}

/// `d` holds the fields laid out in `s`; the short form has the zero authority.
pub open spec fn initialize_fields(d: InitializeInstructionData, s: Seq<u8>) -> bool {
    &&& d.seed == u64_at(s, 0)
    &&& d.fee == u16_at(s, 8)
    &&& d.mint_x@ == s.subrange(10, 42)
    &&& d.mint_y@ == s.subrange(42, 74)
    &&& d.config_bump@ == s.subrange(74, 75)
    &&& d.lp_bump@ == s.subrange(75, 76)
    &&& s.len() == INITIALIZE_DATA_LEN_WITH_AUTHORITY ==> d.authority@ == s.subrange(76, 108)
    &&& s.len() == INITIALIZE_DATA_LEN ==> d.authority@ == Seq::new(32, |i: int| 0u8)
}

/// The outcome of decoding a Deposit payload `s` at ledger time `now`.
pub open spec fn deposit_decoded(s: Seq<u8>, now: i64) -> Result<DepositInstructionData, AmmError> {
    if s.len() != AMOUNTS_DATA_LEN {
        Err(AmmError::MalformedInput)
    } else if u64_at(s, 0) == 0 || u64_at(s, 8) == 0 || u64_at(s, 16) == 0 {
        Err(AmmError::MalformedInput)
    } else if i64_at(s, 24) < now {
        Err(AmmError::Expired)
    } else {
        Ok(
            DepositInstructionData {
                amount: u64_at(s, 0),
                max_x: u64_at(s, 8),
                max_y: u64_at(s, 16),
                expiration: i64_at(s, 24),
            },
        )
    }
}

/// The outcome of decoding a Withdraw payload `s` at ledger time `now`.
pub open spec fn withdraw_decoded(s: Seq<u8>, now: i64) -> Result<WithdrawInstructionData, AmmError> {
    if s.len() != AMOUNTS_DATA_LEN {
        Err(AmmError::MalformedInput)
    } else if u64_at(s, 0) == 0 || u64_at(s, 8) == 0 || u64_at(s, 16) == 0 {
        Err(AmmError::MalformedInput)
    } else if i64_at(s, 24) < now {
        Err(AmmError::Expired)
    } else {
        Ok(
            WithdrawInstructionData {
                amount: u64_at(s, 0),
                min_x: u64_at(s, 8),
                min_y: u64_at(s, 16),
                expiration: i64_at(s, 24),
            },
        )
    }
}

/// The outcome of decoding a Swap payload `s` at ledger time `now`.
pub open spec fn swap_decoded(s: Seq<u8>, now: i64) -> Result<SwapInstructionData, AmmError> {
    if s.len() != SWAP_DATA_LEN {
        Err(AmmError::MalformedInput)
    } else if u64_at(s, 1) == 0 || u64_at(s, 9) == 0 {
        Err(AmmError::MalformedInput)
    } else if i64_at(s, 17) < now {
        Err(AmmError::Expired)
    } else {
        Ok(
            SwapInstructionData {
                is_x: s[0] != 0,
                amount: u64_at(s, 1),
                min: u64_at(s, 9),
                expiration: i64_at(s, 17),
            },
        )
    }
}

impl InitializeInstructionData {
    /// Decodes the payload of Initialize, in either of its two lengths.
    pub fn parse(data: &[u8]) -> (r: Result<InitializeInstructionData, AmmError>)
        ensures
            r is Ok <==> initialize_length_ok(data@),
            r matches Ok(d) ==> initialize_fields(d, data@),
            r is Err ==> r == Err::<InitializeInstructionData, AmmError>(AmmError::MalformedInput),
    {
        let len = data.len();
        if len != INITIALIZE_DATA_LEN_WITH_AUTHORITY && len != INITIALIZE_DATA_LEN {
            return Err(AmmError::MalformedInput);
        }
        let authority = if len == INITIALIZE_DATA_LEN_WITH_AUTHORITY {
            read_array32(data, 76)
        } else {
            let z = [0u8; 32];
            assert(z@ =~= Seq::new(32, |i: int| 0u8));
            z
        };
        let config_bump = [data[74]];
        let lp_bump = [data[75]];
        assert(config_bump@ =~= data@.subrange(74, 75));
        assert(lp_bump@ =~= data@.subrange(75, 76));
        Ok(
            InitializeInstructionData {
                seed: read_u64(data, 0),
                fee: read_u16(data, 8),
                mint_x: read_array32(data, 10),
                mint_y: read_array32(data, 42),
                config_bump,
                lp_bump,
                authority,
            },
        )
    }
}

impl DepositInstructionData {
    /// Decodes the payload of Deposit, refusing zero amounts or bounds and a passed deadline.
    pub fn parse(data: &[u8], now: i64) -> (r: Result<DepositInstructionData, AmmError>)
        ensures
            r == deposit_decoded(data@, now),
            data@.len() == AMOUNTS_DATA_LEN && u64_at(data@, 0) == 0 ==> r == Err::<
                DepositInstructionData,
                AmmError,
            >(AmmError::MalformedInput),
            r matches Ok(d) ==> d.amount > 0 && d.expiration >= now,
    {
        if data.len() != AMOUNTS_DATA_LEN {
            return Err(AmmError::MalformedInput);
        }
        let amount = read_u64(data, 0);
        let max_x = read_u64(data, 8);
        let max_y = read_u64(data, 16);
        let expiration = read_i64(data, 24);
        if amount == 0 || max_x == 0 || max_y == 0 {
            return Err(AmmError::MalformedInput);
        }
        if expiration < now {
            return Err(AmmError::Expired);
        }
        Ok(DepositInstructionData { amount, max_x, max_y, expiration })
    }
}

impl WithdrawInstructionData {
    /// Decodes the payload of Withdraw, refusing zero amounts or bounds and a passed deadline.
    pub fn parse(data: &[u8], now: i64) -> (r: Result<WithdrawInstructionData, AmmError>)
        ensures
            r == withdraw_decoded(data@, now),
            data@.len() == AMOUNTS_DATA_LEN && u64_at(data@, 0) == 0 ==> r == Err::<
                WithdrawInstructionData,
                AmmError,
            >(AmmError::MalformedInput),
            r matches Ok(d) ==> d.amount > 0 && d.expiration >= now,
    {
        if data.len() != AMOUNTS_DATA_LEN {
            return Err(AmmError::MalformedInput);
        }
        let amount = read_u64(data, 0);
        let min_x = read_u64(data, 8);
        let min_y = read_u64(data, 16);
        let expiration = read_i64(data, 24);
        if amount == 0 || min_x == 0 || min_y == 0 {
            return Err(AmmError::MalformedInput);
        }
        if expiration < now {
            return Err(AmmError::Expired);
        }
        Ok(WithdrawInstructionData { amount, min_x, min_y, expiration })
    }
}

impl SwapInstructionData {
    /// Decodes the payload of Swap, refusing a zero amount or bound and a passed deadline.
    pub fn parse(data: &[u8], now: i64) -> (r: Result<SwapInstructionData, AmmError>)
        ensures
            r == swap_decoded(data@, now),
            data@.len() == SWAP_DATA_LEN && u64_at(data@, 1) == 0 ==> r == Err::<
                SwapInstructionData,
                AmmError,
            >(AmmError::MalformedInput),
            r matches Ok(d) ==> d.amount > 0 && d.expiration >= now,
    {
        if data.len() != SWAP_DATA_LEN {
            return Err(AmmError::MalformedInput);
        }
        let is_x = data[0] != 0;
        let amount = read_u64(data, 1);
        let min = read_u64(data, 9);
        let expiration = read_i64(data, 17);
        if amount == 0 || min == 0 {
            return Err(AmmError::MalformedInput);
        }
        if expiration < now {
            return Err(AmmError::Expired);
        }
        Ok(SwapInstructionData { is_x, amount, min, expiration })
    }
}

impl InstructionKind {
    /// The discriminator byte of this instruction.
    pub open spec fn spec_byte(self) -> u8 {
        match self {
            InstructionKind::Initialize => 0,
            InstructionKind::Deposit => 1,
            InstructionKind::Withdraw => 2,
            InstructionKind::Swap => 3,
        }
    }

    /// Splits off the discriminator byte: 0 Initialize, 1 Deposit, 2 Withdraw, 3 Swap.
    /// Returns the instruction it names and the payload after it.
    pub fn split(data: &[u8]) -> (r: Result<(InstructionKind, &[u8]), AmmError>)
        ensures
            data@.len() == 0 || data@[0] > 3 ==> r == Err::<(InstructionKind, &[u8]), AmmError>(
                AmmError::MalformedInput,
            ),
            data@.len() > 0 && data@[0] <= 3 ==> (r matches Ok((k, payload)) && k.spec_byte()
                == data@[0] && payload@ == data@.drop_first()),
    {
        if data.len() == 0 {
            return Err(AmmError::MalformedInput);
        }
        let kind = match data[0] {
            0 => InstructionKind::Initialize,
            1 => InstructionKind::Deposit,
            2 => InstructionKind::Withdraw,
            3 => InstructionKind::Swap,
            _ => {
                return Err(AmmError::MalformedInput);
            },
        };
        let payload = slice_from(data, 1);
        assert(payload@ =~= data@.drop_first());
        Ok((kind, payload))
    }
}

/// The bytes of `data` from offset `at` on.
fn slice_from(data: &[u8], at: usize) -> (r: &[u8])
    requires
        at <= data@.len(),
    ensures
        r@ == data@.subrange(at as int, data@.len() as int),
{
    vstd::slice::slice_subrange(data, at, data.len())
}

} // verus!
