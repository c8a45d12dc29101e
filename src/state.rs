use vstd::prelude::*;

use crate::codec::{
    bytes_of, le_bytes, lemma_le_round_trip, pow256, push_array32, push_le, read_array32,
    read_u16, read_u64, seed_views, u16_at, u64_at,
};
use crate::error::AmmError;

verus! {

/// Bytes of the pool record: state, seed, authority, two mints, fee and bump.
pub const CONFIG_LEN: usize = 108;

/// The pool's lifecycle state.
#[derive(Clone, Copy, Debug, PartialEq, Eq, Structural)]
pub enum AmmState {
    Uninitialized,
    Initialized,
    Disabled,
    WithdrawOnly,
}

impl AmmState {
    /// The byte that stands for this state in the pool record.
    pub open spec fn spec_byte(self) -> u8 {
        match self {
            AmmState::Uninitialized => 0,
            AmmState::Initialized => 1,
            AmmState::Disabled => 2,
            AmmState::WithdrawOnly => 3,
        }
    }

    /// The byte that stands for this state in the pool record.
    pub fn to_byte(self) -> (r: u8)
        ensures
            r == self.spec_byte(),
    {
        match self {
            AmmState::Uninitialized => 0,
            AmmState::Initialized => 1,
            AmmState::Disabled => 2,
            AmmState::WithdrawOnly => 3,
        }
    }
}

/// The persistent record of one pool.
#[derive(Clone, Copy, Debug, PartialEq, Eq)]
pub struct Config {
    pub state: u8,
    pub seed: u64,
    /// Administrator; all zero when there is none.
    pub authority: [u8; 32],
    pub mint_x: [u8; 32],
    pub mint_y: [u8; 32],
    /// Swap fee in basis points, below 10 000 in a well-formed record.
    pub fee: u16,
    pub config_bump: [u8; 1],
}

/// The record's byte layout: fixed-width fields, integers little-endian.
pub open spec fn config_layout(c: Config) -> Seq<u8> {
    seq![c.state] + le_bytes(c.seed as nat, 8) + c.authority@ + c.mint_x@ + c.mint_y@ + le_bytes(
        c.fee as nat,
        2,
    ) + c.config_bump@
}

/// `c` holds the fields laid out in the record bytes `s`.
pub open spec fn config_fields(c: Config, s: Seq<u8>) -> bool {
    &&& c.state == s[0]
    &&& c.seed == u64_at(s, 1)
    &&& c.authority@ == s.subrange(9, 41)
    &&& c.mint_x@ == s.subrange(41, 73)
    &&& c.mint_y@ == s.subrange(73, 105)
    &&& c.fee == u16_at(s, 105)
    &&& c.config_bump@ == s.subrange(107, 108)
}

/// The authority is present when any of its bytes is non-zero.
pub open spec fn authority_present(a: Seq<u8>) -> bool {
    exists|i: int| 0 <= i < a.len() && a[i] != 0
}

/// ASCII "config": the first seed of a pool record's address.
pub open spec fn config_prefix() -> Seq<u8> {
    seq![99u8, 111u8, 110u8, 102u8, 105u8, 103u8]
}

/// The seeds, bump last, that derive a pool record's address and let the pool sign.
pub open spec fn config_seeds(seed: u64, mint_x: Seq<u8>, mint_y: Seq<u8>, bump: Seq<u8>) -> Seq<
    Seq<u8>,
> {
    seq![config_prefix(), le_bytes(seed as nat, 8), mint_x, mint_y, bump]
}

impl Config {
    /// Reads a record from its bytes without checking who owns them.
    pub fn from_bytes_unchecked(bytes: &[u8]) -> (c: Config)
        requires
            bytes@.len() == CONFIG_LEN,
        ensures
            config_fields(c, bytes@),
    {
        let config_bump = [bytes[107]];
        assert(config_bump@ =~= bytes@.subrange(107, 108));
        Config {
            state: bytes[0],
            seed: read_u64(bytes, 1),
            authority: read_array32(bytes, 9),
            mint_x: read_array32(bytes, 41),
            mint_y: read_array32(bytes, 73),
            fee: read_u16(bytes, 105),
            config_bump,
        }
    }

    /// Reads the record held by an account, after checking that the account has the
    /// record's length and is owned by `program_id`.
    pub fn load(owner: &[u8; 32], bytes: &[u8], program_id: &[u8; 32]) -> (r: Result<
        Config,
        AmmError,
    >)
        ensures
            r is Ok <==> bytes@.len() == CONFIG_LEN && owner@ == program_id@,
            r matches Ok(c) ==> config_fields(c, bytes@),
            r is Err ==> r == Err::<Config, AmmError>(AmmError::AccountMismatch),
    {
        if bytes.len() != CONFIG_LEN {
            return Err(AmmError::AccountMismatch);
        }
        if !crate::codec::same_address(owner, program_id) {
            return Err(AmmError::AccountMismatch);
        }
        Ok(Self::from_bytes_unchecked(bytes))
    }

    /// The record's bytes.
    pub fn to_bytes(&self) -> (r: Vec<u8>)
        ensures
            r@ == config_layout(*self),
            r@.len() == CONFIG_LEN,
    {
        let mut out: Vec<u8> = Vec::new();
        out.push(self.state);
        push_le(&mut out, self.seed, 8);
        push_array32(&mut out, &self.authority);
        push_array32(&mut out, &self.mint_x);
        push_array32(&mut out, &self.mint_y);
        push_le(&mut out, self.fee as u64, 2);
        out.push(self.config_bump[0]);
        proof {
            assert(self.config_bump@ =~= seq![self.config_bump[0]]);
            assert(out@ =~= config_layout(*self));
        }
        out
    }

    /// The seeds, bump last, that derive this record's address; the pool signs with them.
    pub fn signer_seeds(&self) -> (r: Vec<Vec<u8>>)
        ensures
            seed_views(r@) == config_seeds(self.seed, self.mint_x@, self.mint_y@, self.config_bump@),
    {
        let prefix: Vec<u8> = vec![99u8, 111u8, 110u8, 102u8, 105u8, 103u8];
        let mut seed_bytes: Vec<u8> = Vec::new();
        push_le(&mut seed_bytes, self.seed, 8);
        assert(seed_bytes@ =~= le_bytes(self.seed as nat, 8));
        let bump_bytes: Vec<u8> = vec![self.config_bump[0]];
        assert(bump_bytes@ =~= self.config_bump@);
        let mut r: Vec<Vec<u8>> = Vec::new();
        r.push(prefix);
        r.push(seed_bytes);
        r.push(bytes_of(&self.mint_x));
        r.push(bytes_of(&self.mint_y));
        r.push(bump_bytes);
        assert(seed_views(r@) =~= config_seeds(
            self.seed,
            self.mint_x@,
            self.mint_y@,
            self.config_bump@,
        ));
        r
    }

    pub fn state(&self) -> (r: u8)
        ensures
            r == self.state,
    {
        self.state
    }

    pub fn seed(&self) -> (r: u64)
        ensures
            r == self.seed,
    {
        self.seed
    }

    pub fn authority(&self) -> (r: &[u8; 32])
        ensures
            *r == self.authority,
    {
        &self.authority
    }

    pub fn mint_x(&self) -> (r: &[u8; 32])
        ensures
            *r == self.mint_x,
    {
        &self.mint_x
    }

    pub fn mint_y(&self) -> (r: &[u8; 32])
        ensures
            *r == self.mint_y,
    {
        &self.mint_y
    }

    pub fn fee(&self) -> (r: u16)
        ensures
            r == self.fee,
    {
        self.fee
    }

    pub fn config_bump(&self) -> (r: [u8; 1])
        ensures
            r == self.config_bump,
    {
        self.config_bump
    }

    /// Sets the state byte; only the states below `WithdrawOnly` can be written.
    pub fn set_state(&mut self, state: u8) -> (r: Result<(), AmmError>)
        ensures
            r is Ok <==> state < AmmState::WithdrawOnly.spec_byte(),
            r is Ok ==> *final(self) == (Config { state, ..*old(self) }),
            r is Err ==> r == Err::<(), AmmError>(AmmError::MalformedInput) && *final(self)
                == *old(self),
    {
        if state >= AmmState::WithdrawOnly.to_byte() {
            return Err(AmmError::MalformedInput);
        }
        self.state = state;
        Ok(())
    }

    pub fn set_seed(&mut self, seed: u64)
        ensures
            *final(self) == (Config { seed, ..*old(self) }),
    {
        self.seed = seed;
    }

    pub fn set_authority(&mut self, authority: [u8; 32])
        ensures
            *final(self) == (Config { authority, ..*old(self) }),
    {
        self.authority = authority;
    }

    pub fn set_mint_x(&mut self, mint_x: [u8; 32])
        ensures
            *final(self) == (Config { mint_x, ..*old(self) }),
    {
        self.mint_x = mint_x;
    }

    pub fn set_mint_y(&mut self, mint_y: [u8; 32])
        ensures
            *final(self) == (Config { mint_y, ..*old(self) }),
    {
        self.mint_y = mint_y;
    }

    /// Sets the fee, which must stay below one whole (10 000 basis points).
    pub fn set_fee(&mut self, fee: u16) -> (r: Result<(), AmmError>)
        ensures
            r is Ok <==> fee < 10_000,
            r is Ok ==> *final(self) == (Config { fee, ..*old(self) }),
            r is Err ==> r == Err::<(), AmmError>(AmmError::MalformedInput) && *final(self)
                == *old(self),
    {
        if fee >= 10_000 {
            return Err(AmmError::MalformedInput);
        }
        self.fee = fee;
        Ok(())
    }

    pub fn set_config_bump(&mut self, config_bump: [u8; 1])
        ensures
            *final(self) == (Config { config_bump, ..*old(self) }),
    {
        self.config_bump = config_bump;
    }

    /// Fills an initialized record; refused, with nothing changed, when the fee is not
    /// below one whole.
    pub fn set_inner(
        &mut self,
        seed: u64,
        authority: [u8; 32],
        mint_x: [u8; 32],
        mint_y: [u8; 32],
        fee: u16,
        config_bump: [u8; 1],
    ) -> (r: Result<(), AmmError>)
        ensures
            r is Ok <==> fee < 10_000,
            r is Ok ==> *final(self) == (Config {
                state: AmmState::Initialized.spec_byte(),
                seed,
                authority,
                mint_x,
                mint_y,
                fee,
                config_bump,
            }),
            r is Err ==> r == Err::<(), AmmError>(AmmError::MalformedInput) && *final(self)
                == *old(self),
    {
        if fee >= 10_000 {
            return Err(AmmError::MalformedInput);
        }
        match self.set_state(AmmState::Initialized.to_byte()) {
            Ok(()) => {},
            Err(e) => {
                return Err(e);
            },
        }
        self.set_seed(seed);
        self.set_authority(authority);
        self.set_mint_x(mint_x);
        self.set_mint_y(mint_y);
        match self.set_fee(fee) {
            Ok(()) => {},
            Err(e) => {
                return Err(e);
            },
        }
        self.set_config_bump(config_bump);
        Ok(())
    }

    /// The authority, unless it is the all-zero identity that means "none".
    pub fn has_authority(&self) -> (r: Option<[u8; 32]>)
        ensures
            authority_present(self.authority@) ==> r == Some(self.authority),
            !authority_present(self.authority@) ==> (r is None),
    {
        let mut i: usize = 0;
        while i < 32
            invariant
                i <= 32,
                forall|j: int| 0 <= j < i ==> self.authority@[j] == 0,
            decreases 32 - i,
        {
            if self.authority[i] != 0 {
                return Some(self.authority);
            }
            i = i + 1;
        }
        None
    }
}

/// Writing a record and reading it back gives the same fields.
pub proof fn lemma_config_round_trip(c: Config)
    ensures
        config_layout(c).len() == CONFIG_LEN,
        config_fields(c, config_layout(c)),
{
    let s = config_layout(c);
    assert(pow256(8) == 0x1_0000_0000_0000_0000 && pow256(2) == 0x1_0000) by {
        reveal_with_fuel(pow256, 9);
    }
    lemma_le_round_trip(c.seed as nat, 8);
    lemma_le_round_trip(c.fee as nat, 2);
    assert(s.subrange(1, 9) =~= le_bytes(c.seed as nat, 8));
    assert(s.subrange(9, 41) =~= c.authority@);
    assert(s.subrange(41, 73) =~= c.mint_x@);
    assert(s.subrange(73, 105) =~= c.mint_y@);
    assert(s.subrange(105, 107) =~= le_bytes(c.fee as nat, 2));
    assert(s.subrange(107, 108) =~= c.config_bump@);
}

} // verus!
