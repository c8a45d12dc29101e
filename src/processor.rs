use vstd::prelude::*;

use crate::accounts::{
    ata_ok, check_vaults, mint_lp_seeds, mint_lp_signer_seeds, mint_ok, program_account_ok,
    vaults_ok, AccountInfo, AssociatedTokenAccount, MintInterface, ProgramAccount, ProgramIds,
    SignerAccount,
};
use crate::codec::seed_views;
use crate::curve::{
    deposit_quote, withdraw_quote, xy_deposit_amounts_from_l,
    xy_withdraw_amounts_from_l, ConstantProduct, LiquidityPair, DEFAULT_PRECISION,
};
use crate::error::AmmError;
use crate::instruction::{
    deposit_decoded, initialize_fields, initialize_length_ok, swap_decoded, withdraw_decoded,
    DepositInstructionData, InitializeInstructionData, SwapInstructionData,
    WithdrawInstructionData,
};
use crate::state::{config_fields, config_layout, config_seeds, AmmState, Config, CONFIG_LEN};

verus! {

/// Decimal places of the liquidity mint.
pub const LP_DECIMALS: u8 = 6;

/// The token program's operations that the handlers ask for.
#[derive(Clone, Copy, Debug, PartialEq, Eq, Structural)]
pub enum TokenOpKind {
    /// Move `amount` from `source` to `destination`.
    Transfer,
    /// Issue `amount` of the mint `source` into `destination`.
    MintTo,
    /// Destroy `amount` held by `source` of the mint `destination`.
    Burn,
}

/// One call into the token program. Accounts are named by their position in the
/// instruction's account list.
#[derive(Clone, Copy, Debug, PartialEq, Eq, Structural)]
pub struct TokenOp {
    pub kind: TokenOpKind,
    pub source: usize,
    pub destination: usize,
    pub authority: usize,
    pub amount: u64,
    /// Signed with the pool record's seeds rather than by a caller's key.
    pub pool_signed: bool,
}

/// The balances read from the vaults and the liquidity mint just before a handler runs.
#[derive(Clone, Copy, Debug, PartialEq, Eq, Structural)]
pub struct PoolBalances {
    pub vault_x: u64,
    pub vault_y: u64,
    pub lp_supply: u64,
}

/// The byte of `Initialized`, which Deposit, Withdraw and Swap require.
pub open spec fn initialized() -> u8 {
    AmmState::Initialized.spec_byte()
}

/// The accounts of Deposit and of Withdraw, in this order.
#[derive(Clone, Copy, Debug, PartialEq, Eq)]
pub struct LiquidityAccounts {
    pub user: AccountInfo,
    pub mint_lp: AccountInfo,
    pub vault_x: AccountInfo,
    pub vault_y: AccountInfo,
    pub user_x_ata: AccountInfo,
    pub user_y_ata: AccountInfo,
    pub user_lp_ata: AccountInfo,
    pub config: AccountInfo,
    pub token_program: AccountInfo,
}

pub type DepositAccounts = LiquidityAccounts;

pub type WithdrawAccounts = LiquidityAccounts;

/// The list `s` names the accounts of `a` in order.
pub open spec fn liquidity_accounts_of(a: LiquidityAccounts, s: Seq<AccountInfo>) -> bool {
    &&& s.len() == 9
    &&& a.user == s[0]
    &&& a.mint_lp == s[1]
    &&& a.vault_x == s[2]
    &&& a.vault_y == s[3]
    &&& a.user_x_ata == s[4]
    &&& a.user_y_ata == s[5]
    &&& a.user_lp_ata == s[6]
    &&& a.config == s[7]
    &&& a.token_program == s[8]
}

/// The outcome of checking the account list of Deposit or Withdraw.
pub open spec fn liquidity_accounts_error(s: Seq<AccountInfo>, ids: ProgramIds) -> Option<
    AmmError,
> {
    if s.len() != 9 {
        Some(AmmError::MalformedInput)
    } else if !s[0].is_signer {
        Some(AmmError::Unauthorized)
    } else if !program_account_ok(s[7], ids) || !mint_ok(s[1], ids) {
        Some(AmmError::AccountMismatch)
    } else {
        None
    }
}

impl LiquidityAccounts {
    /// Takes the nine accounts of Deposit or Withdraw: the user must sign, the pool
    /// record must be this program's, and the liquidity mint must look like a mint.
    pub fn parse(accounts: &[AccountInfo], ids: &ProgramIds) -> (r: Result<
        LiquidityAccounts,
        AmmError,
    >)
        ensures
            liquidity_accounts_error(accounts@, *ids) matches Some(e) ==> r == Err::<
                LiquidityAccounts,
                AmmError,
            >(e),
            liquidity_accounts_error(accounts@, *ids) is None ==> (r matches Ok(a)
                && liquidity_accounts_of(a, accounts@)),
    {
        if accounts.len() != 9 {
            return Err(AmmError::MalformedInput);
        }
        let a = LiquidityAccounts {
            user: accounts[0],
            mint_lp: accounts[1],
            vault_x: accounts[2],
            vault_y: accounts[3],
            user_x_ata: accounts[4],
            user_y_ata: accounts[5],
            user_lp_ata: accounts[6],
            config: accounts[7],
            token_program: accounts[8],
        };
        match SignerAccount::check(&a.user) {
            Ok(()) => {},
            Err(e) => {
                return Err(e);
            },
        }
        match ProgramAccount::check(&a.config, ids) {
            Ok(()) => {},
            Err(e) => {
                return Err(e);
            },
        }
        match MintInterface::check(&a.mint_lp, ids) {
            Ok(()) => {},
            Err(e) => {
                return Err(e);
            },
        }
        Ok(a)
    }

    /// The user's three token accounts and the pool's two vaults all derive as they must.
    pub open spec fn valid_for(self, cfg: Config, ids: ProgramIds) -> bool {
        &&& ata_ok(self.user_x_ata, self.user.address@, cfg.mint_x@, self.token_program.address@, ids)
        &&& ata_ok(self.user_y_ata, self.user.address@, cfg.mint_y@, self.token_program.address@, ids)
        &&& ata_ok(
            self.user_lp_ata,
            self.user.address@,
            self.mint_lp.address@,
            self.token_program.address@,
            ids,
        )
        &&& vaults_ok(cfg, self.config, self.token_program, self.vault_x, self.vault_y, ids)
    }

    /// Checks the user's three token accounts and the pool's two vaults.
    pub fn check_for(&self, cfg: &Config, ids: &ProgramIds) -> (r: Result<(), AmmError>)
        ensures
            r == if self.valid_for(*cfg, *ids) {
                Ok::<(), AmmError>(())
            } else {
                Err::<(), AmmError>(AmmError::AccountMismatch)
            },
    {
        match AssociatedTokenAccount::check(
            &self.user_x_ata,
            &self.user,
            &cfg.mint_x,
            &self.token_program,
            ids,
        ) {
            Ok(()) => {},
            Err(e) => {
                return Err(e);
            },
        }
        match AssociatedTokenAccount::check(
            &self.user_y_ata,
            &self.user,
            &cfg.mint_y,
            &self.token_program,
            ids,
        ) {
            Ok(()) => {},
            Err(e) => {
                return Err(e);
            },
        }
        match AssociatedTokenAccount::check(
            &self.user_lp_ata,
            &self.user,
            &self.mint_lp.address,
            &self.token_program,
            ids,
        ) {
            Ok(()) => {},
            Err(e) => {
                return Err(e);
            },
        }
        check_vaults(cfg, &self.config, &self.token_program, &self.vault_x, &self.vault_y, ids)
    }
}

/// Loads the pool record held by `account`.
fn load_config(account: &AccountInfo, config_data: &[u8], ids: &ProgramIds) -> (r: Result<
    Config,
    AmmError,
>)
    ensures
        r is Ok <==> config_data@.len() == CONFIG_LEN && account.owner@ == ids.program@,
        r matches Ok(c) ==> config_fields(c, config_data@),
        r is Err ==> r == Err::<Config, AmmError>(AmmError::AccountMismatch),
{
    Config::load(&account.owner, config_data, &ids.program)
}

/// A validated Deposit: its accounts, its payload and the pool record.
#[derive(Clone, Copy, Debug, PartialEq, Eq)]
pub struct Deposit {
    pub accounts: DepositAccounts,
    pub instruction_data: DepositInstructionData,
    pub config: Config,
}

impl Deposit {
    /// Checks the accounts, decodes the payload at ledger time `now`, then loads the
    /// pool record from `config_data`, the data of the record's account.
    pub fn parse(
        data: &[u8],
        accounts: &[AccountInfo],
        config_data: &[u8],
        now: i64,
        ids: &ProgramIds,
    ) -> (r: Result<Deposit, AmmError>)
        ensures
            liquidity_accounts_error(accounts@, *ids) matches Some(e) ==> r == Err::<
                Deposit,
                AmmError,
            >(e),
            liquidity_accounts_error(accounts@, *ids) is None ==> (deposit_decoded(data@, now) matches Err(
                e,
            ) ==> r == Err::<Deposit, AmmError>(e)),
            liquidity_accounts_error(accounts@, *ids) is None && deposit_decoded(data@, now) is Ok
                && !(config_data@.len() == CONFIG_LEN && accounts@[7].owner@ == ids.program@) ==> r
                == Err::<Deposit, AmmError>(AmmError::AccountMismatch),
            r matches Ok(d) ==> liquidity_accounts_of(d.accounts, accounts@) && deposit_decoded(
                data@,
                now,
            ) == Ok::<DepositInstructionData, AmmError>(d.instruction_data) && config_fields(
                d.config,
                config_data@,
            ),
            liquidity_accounts_error(accounts@, *ids) is None && deposit_decoded(data@, now) is Ok
                && config_data@.len() == CONFIG_LEN && accounts@[7].owner@ == ids.program@ ==> (r is Ok),
    {
        let accounts = match LiquidityAccounts::parse(accounts, ids) {
            Ok(a) => a,
            Err(e) => {
                return Err(e);
            },
        };
        let instruction_data = match DepositInstructionData::parse(data, now) {
            Ok(d) => d,
            Err(e) => {
                return Err(e);
            },
        };
        let config = match load_config(&accounts.config, config_data, ids) {
            Ok(c) => c,
            Err(e) => {
                return Err(e);
            },
        };
        Ok(Deposit { accounts, instruction_data, config })
    }

    /// What the depositor pays. The first deposit into an empty pool pays the declared
    /// bounds and so sets the price; later ones pay the proportional quote, refused when
    /// it exceeds either declared bound.
    pub open spec fn required(self, b: PoolBalances) -> Result<(u64, u64), AmmError> {
        let d = self.instruction_data;
        if b.lp_supply == 0 && b.vault_x == 0 && b.vault_y == 0 {
            Ok((d.max_x, d.max_y))
        } else {
            match deposit_quote(b.vault_x, b.vault_y, b.lp_supply, d.amount, DEFAULT_PRECISION) {
                Ok((x, y)) => if x <= d.max_x && y <= d.max_y {
                    Ok((x, y))
                } else {
                    Err(AmmError::SlippageExceeded)
                },
                Err(e) => Err(e),
            }
        }
    }

    /// The user pays `x` and `y` into the vaults; the pool issues the liquidity asked for.
    pub open spec fn ops(self, x: u64, y: u64) -> Seq<TokenOp> {
        seq![
            TokenOp {
                kind: TokenOpKind::Transfer,
                source: 4,
                destination: 2,
                authority: 0,
                amount: x,
                pool_signed: false,
            },
            TokenOp {
                kind: TokenOpKind::Transfer,
                source: 5,
                destination: 3,
                authority: 0,
                amount: y,
                pool_signed: false,
            },
            TokenOp {
                kind: TokenOpKind::MintTo,
                source: 1,
                destination: 6,
                authority: 7,
                amount: self.instruction_data.amount,
                pool_signed: true,
            },
        ]
    }

    /// Decides the deposit against the current balances and returns the token calls
    /// that carry it out, in order.
    pub fn process(&self, balances: &PoolBalances, ids: &ProgramIds) -> (r: Result<
        Vec<TokenOp>,
        AmmError,
    >)
        ensures
            self.config.state != initialized() ==> r == Err::<Vec<TokenOp>, AmmError>(
                AmmError::InvalidState,
            ),
            self.config.state == initialized() && !self.accounts.valid_for(self.config, *ids) ==> r
                == Err::<Vec<TokenOp>, AmmError>(AmmError::AccountMismatch),
            self.config.state == initialized() && self.accounts.valid_for(self.config, *ids) ==> match self.required(*balances) {
                Ok((x, y)) => (r matches Ok(ops) && ops@ == self.ops(x, y)),
                Err(e) => r == Err::<Vec<TokenOp>, AmmError>(e),
            },
    {
        if self.config.state != AmmState::Initialized.to_byte() {
            return Err(AmmError::InvalidState);
        }
        match self.accounts.check_for(&self.config, ids) {
            Ok(()) => {},
            Err(e) => {
                return Err(e);
            },
        }
        let d = &self.instruction_data;
        let (x, y) = if balances.lp_supply == 0 && balances.vault_x == 0 && balances.vault_y == 0 {
            (d.max_x, d.max_y)
        } else {
            match xy_deposit_amounts_from_l(
                balances.vault_x,
                balances.vault_y,
                balances.lp_supply,
                d.amount,
                DEFAULT_PRECISION,
            ) {
                Ok((x, y)) => {
                    if x > d.max_x || y > d.max_y {
                        return Err(AmmError::SlippageExceeded);
                    }
                    (x, y)
                },
                Err(e) => {
                    return Err(e);
                },
            }
        };
        let ops = vec![
            TokenOp {
                kind: TokenOpKind::Transfer,
                source: 4,
                destination: 2,
                authority: 0,
                amount: x,
                pool_signed: false,
            },
            TokenOp {
                kind: TokenOpKind::Transfer,
                source: 5,
                destination: 3,
                authority: 0,
                amount: y,
                pool_signed: false,
            },
            TokenOp {
                kind: TokenOpKind::MintTo,
                source: 1,
                destination: 6,
                authority: 7,
                amount: d.amount,
                pool_signed: true,
            },
        ];
        assert(ops@ =~= self.ops(x, y));
        Ok(ops)
    }
}

/// A validated Withdraw: its accounts, its payload and the pool record.
#[derive(Clone, Copy, Debug, PartialEq, Eq)]
pub struct Withdraw {
    pub accounts: WithdrawAccounts,
    pub instruction_data: WithdrawInstructionData,
    pub config: Config,
}

impl Withdraw {
    /// Checks the accounts, decodes the payload at ledger time `now`, then loads the
    /// pool record from `config_data`, the data of the record's account.
    pub fn parse(
        data: &[u8],
        accounts: &[AccountInfo],
        config_data: &[u8],
        now: i64,
        ids: &ProgramIds,
    ) -> (r: Result<Withdraw, AmmError>)
        ensures
            liquidity_accounts_error(accounts@, *ids) matches Some(e) ==> r == Err::<
                Withdraw,
                AmmError,
            >(e),
            liquidity_accounts_error(accounts@, *ids) is None ==> (withdraw_decoded(data@, now) matches Err(
                e,
            ) ==> r == Err::<Withdraw, AmmError>(e)),
            liquidity_accounts_error(accounts@, *ids) is None && withdraw_decoded(data@, now) is Ok
                && !(config_data@.len() == CONFIG_LEN && accounts@[7].owner@ == ids.program@) ==> r
                == Err::<Withdraw, AmmError>(AmmError::AccountMismatch),
            r matches Ok(w) ==> liquidity_accounts_of(w.accounts, accounts@) && withdraw_decoded(
                data@,
                now,
            ) == Ok::<WithdrawInstructionData, AmmError>(w.instruction_data) && config_fields(
                w.config,
                config_data@,
            ),
            liquidity_accounts_error(accounts@, *ids) is None && withdraw_decoded(data@, now) is Ok
                && config_data@.len() == CONFIG_LEN && accounts@[7].owner@ == ids.program@ ==> (r is Ok),
    {
        let accounts = match LiquidityAccounts::parse(accounts, ids) {
            Ok(a) => a,
            Err(e) => {
                return Err(e);
            },
        };
        let instruction_data = match WithdrawInstructionData::parse(data, now) {
            Ok(d) => d,
            Err(e) => {
                return Err(e);
            },
        };
        let config = match load_config(&accounts.config, config_data, ids) {
            Ok(c) => c,
            Err(e) => {
                return Err(e);
            },
        };
        Ok(Withdraw { accounts, instruction_data, config })
    }

    /// What the user receives. Burning the whole supply empties the vaults exactly;
    /// otherwise the proportional quote applies. Either is refused below the bounds.
    pub open spec fn payout(self, b: PoolBalances) -> Result<(u64, u64), AmmError> {
        let d = self.instruction_data;
        let q = if b.lp_supply == d.amount {
            Ok((b.vault_x, b.vault_y))
        } else {
            withdraw_quote(b.vault_x, b.vault_y, b.lp_supply, d.amount, DEFAULT_PRECISION)
        };
        match q {
            Ok((x, y)) => if x >= d.min_x && y >= d.min_y {
                Ok((x, y))
            } else {
                Err(AmmError::SlippageExceeded)
            },
            Err(e) => Err(e),
        }
    }

    /// The vaults pay `x` and `y` to the user under the pool's signature; then the
    /// user's liquidity is burnt.
    pub open spec fn ops(self, x: u64, y: u64) -> Seq<TokenOp> {
        seq![
            TokenOp {
                kind: TokenOpKind::Transfer,
                source: 2,
                destination: 4,
                authority: 7,
                amount: x,
                pool_signed: true,
            },
            TokenOp {
                kind: TokenOpKind::Transfer,
                source: 3,
                destination: 5,
                authority: 7,
                amount: y,
                pool_signed: true,
            },
            TokenOp {
                kind: TokenOpKind::Burn,
                source: 6,
                destination: 1,
                authority: 0,
                amount: self.instruction_data.amount,
                pool_signed: false,
            },
        ]
    }

    /// Decides the withdrawal against the current balances and returns the token calls
    /// that carry it out, in order.
    pub fn process(&self, balances: &PoolBalances, ids: &ProgramIds) -> (r: Result<
        Vec<TokenOp>,
        AmmError,
    >)
        ensures
            self.config.state != initialized() ==> r == Err::<Vec<TokenOp>, AmmError>(
                AmmError::InvalidState,
            ),
            self.config.state == initialized() && !self.accounts.valid_for(self.config, *ids) ==> r
                == Err::<Vec<TokenOp>, AmmError>(AmmError::AccountMismatch),
            self.config.state == initialized() && self.accounts.valid_for(self.config, *ids) ==> match self.payout(*balances) {
                Ok((x, y)) => (r matches Ok(ops) && ops@ == self.ops(x, y)),
                Err(e) => r == Err::<Vec<TokenOp>, AmmError>(e),
            },
            balances.lp_supply == self.instruction_data.amount ==> (r matches Ok(ops) ==> ops@[0].amount
                == balances.vault_x && ops@[1].amount == balances.vault_y),
    {
        if self.config.state != AmmState::Initialized.to_byte() {
            return Err(AmmError::InvalidState);
        }
        match self.accounts.check_for(&self.config, ids) {
            Ok(()) => {},
            Err(e) => {
                return Err(e);
            },
        }
        let d = &self.instruction_data;
        let (x, y) = if balances.lp_supply == d.amount {
            (balances.vault_x, balances.vault_y)
        } else {
            match xy_withdraw_amounts_from_l(
                balances.vault_x,
                balances.vault_y,
                balances.lp_supply,
                d.amount,
                DEFAULT_PRECISION,
            ) {
                Ok((x, y)) => (x, y),
                Err(e) => {
                    return Err(e);
                },
            }
        };
        if !(x >= d.min_x && y >= d.min_y) {
            return Err(AmmError::SlippageExceeded);
        }
        let ops = vec![
            TokenOp {
                kind: TokenOpKind::Transfer,
                source: 2,
                destination: 4,
                authority: 7,
                amount: x,
                pool_signed: true,
            },
            TokenOp {
                kind: TokenOpKind::Transfer,
                source: 3,
                destination: 5,
                authority: 7,
                amount: y,
                pool_signed: true,
            },
            TokenOp {
                kind: TokenOpKind::Burn,
                source: 6,
                destination: 1,
                authority: 0,
                amount: d.amount,
                pool_signed: false,
            },
        ];
        assert(ops@ =~= self.ops(x, y));
        Ok(ops)
    }
}

/// The accounts of Swap, in this order.
#[derive(Clone, Copy, Debug, PartialEq, Eq)]
pub struct SwapAccounts {
    pub user: AccountInfo,
    pub user_x_ata: AccountInfo,
    pub user_y_ata: AccountInfo,
    pub vault_x: AccountInfo,
    pub vault_y: AccountInfo,
    pub config: AccountInfo,
    pub token_program: AccountInfo,
}

/// The list `s` names the accounts of `a` in order.
pub open spec fn swap_accounts_of(a: SwapAccounts, s: Seq<AccountInfo>) -> bool {
    &&& s.len() == 7
    &&& a.user == s[0]
    &&& a.user_x_ata == s[1]
    &&& a.user_y_ata == s[2]
    &&& a.vault_x == s[3]
    &&& a.vault_y == s[4]
    &&& a.config == s[5]
    &&& a.token_program == s[6]
}

/// The outcome of checking the account list of Swap.
pub open spec fn swap_accounts_error(s: Seq<AccountInfo>) -> Option<AmmError> {
    if s.len() != 7 {
        Some(AmmError::MalformedInput)
    } else if !s[0].is_signer {
        Some(AmmError::Unauthorized)
    } else {
        None
    }
}

impl SwapAccounts {
    /// Takes the seven accounts of Swap; the user must sign.
    pub fn parse(accounts: &[AccountInfo]) -> (r: Result<SwapAccounts, AmmError>)
        ensures
            swap_accounts_error(accounts@) matches Some(e) ==> r == Err::<SwapAccounts, AmmError>(e),
            swap_accounts_error(accounts@) is None ==> (r matches Ok(a) && swap_accounts_of(
                a,
                accounts@,
            )),
    {
        if accounts.len() != 7 {
            return Err(AmmError::MalformedInput);
        }
        match SignerAccount::check(&accounts[0]) {
            Ok(()) => {},
            Err(e) => {
                return Err(e);
            },
        }
        Ok(
            SwapAccounts {
                user: accounts[0],
                user_x_ata: accounts[1],
                user_y_ata: accounts[2],
                vault_x: accounts[3],
                vault_y: accounts[4],
                config: accounts[5],
                token_program: accounts[6],
            },
        )
    }

    /// The user's two token accounts and the pool's two vaults derive as they must.
    pub open spec fn valid_for(self, cfg: Config, ids: ProgramIds) -> bool {
        &&& ata_ok(self.user_x_ata, self.user.address@, cfg.mint_x@, self.token_program.address@, ids)
        &&& ata_ok(self.user_y_ata, self.user.address@, cfg.mint_y@, self.token_program.address@, ids)
        &&& vaults_ok(cfg, self.config, self.token_program, self.vault_x, self.vault_y, ids)
    }

    /// Checks the user's two token accounts and the pool's two vaults.
    pub fn check_for(&self, cfg: &Config, ids: &ProgramIds) -> (r: Result<(), AmmError>)
        ensures
            r == if self.valid_for(*cfg, *ids) {
                Ok::<(), AmmError>(())
            } else {
                Err::<(), AmmError>(AmmError::AccountMismatch)
            },
    {
        match AssociatedTokenAccount::check(
            &self.user_x_ata,
            &self.user,
            &cfg.mint_x,
            &self.token_program,
            ids,
        ) {
            Ok(()) => {},
            Err(e) => {
                return Err(e);
            },
        }
        match AssociatedTokenAccount::check(
            &self.user_y_ata,
            &self.user,
            &cfg.mint_y,
            &self.token_program,
            ids,
        ) {
            Ok(()) => {},
            Err(e) => {
                return Err(e);
            },
        }
        check_vaults(cfg, &self.config, &self.token_program, &self.vault_x, &self.vault_y, ids)
    }
}

/// A validated Swap: its accounts, its payload and the pool record.
#[derive(Clone, Copy, Debug, PartialEq, Eq)]
pub struct Swap {
    pub accounts: SwapAccounts,
    pub instruction_data: SwapInstructionData,
    pub config: Config,
}

impl Swap {
    /// Checks the accounts, decodes the payload at ledger time `now`, then loads the
    /// pool record from `config_data`, the data of the record's account.
    pub fn parse(
        data: &[u8],
        accounts: &[AccountInfo],
        config_data: &[u8],
        now: i64,
        ids: &ProgramIds,
    ) -> (r: Result<Swap, AmmError>)
        ensures
            swap_accounts_error(accounts@) matches Some(e) ==> r == Err::<Swap, AmmError>(e),
            swap_accounts_error(accounts@) is None ==> (swap_decoded(data@, now) matches Err(e) ==> r
                == Err::<Swap, AmmError>(e)),
            swap_accounts_error(accounts@) is None && swap_decoded(data@, now) is Ok && !(
            config_data@.len() == CONFIG_LEN && accounts@[5].owner@ == ids.program@) ==> r == Err::<
                Swap,
                AmmError,
            >(AmmError::AccountMismatch),
            r matches Ok(w) ==> swap_accounts_of(w.accounts, accounts@) && swap_decoded(data@, now)
                == Ok::<SwapInstructionData, AmmError>(w.instruction_data) && config_fields(
                w.config,
                config_data@,
            ),
            swap_accounts_error(accounts@) is None && swap_decoded(data@, now) is Ok
                && config_data@.len() == CONFIG_LEN && accounts@[5].owner@ == ids.program@ ==> (r is Ok),
    {
        let accounts = match SwapAccounts::parse(accounts) {
            Ok(a) => a,
            Err(e) => {
                return Err(e);
            },
        };
        let instruction_data = match SwapInstructionData::parse(data, now) {
            Ok(d) => d,
            Err(e) => {
                return Err(e);
            },
        };
        let config = match load_config(&accounts.config, config_data, ids) {
            Ok(c) => c,
            Err(e) => {
                return Err(e);
            },
        };
        Ok(Swap { accounts, instruction_data, config })
    }

    /// The direction the payload asks for.
    pub open spec fn pair(self) -> LiquidityPair {
        if self.instruction_data.is_x {
            LiquidityPair::X
        } else {
            LiquidityPair::Y
        }
    }

    /// The curve over the vault balances, with the pool's fee.
    pub open spec fn curve(self, b: PoolBalances) -> ConstantProduct {
        ConstantProduct {
            x: b.vault_x,
            y: b.vault_y,
            l: b.vault_x,
            fee: self.config.fee,
            precision: DEFAULT_PRECISION,
        }
    }

    /// What the trader receives, or why the swap is refused.
    pub open spec fn output(self, b: PoolBalances) -> Result<u64, AmmError> {
        let c = self.curve(b);
        let a = self.instruction_data.amount;
        if !c.swap_computable(self.pair(), a) {
            Err(AmmError::ArithmeticFailure)
        } else if c.delivered(self.pair(), a) < self.instruction_data.min {
            Err(AmmError::SlippageExceeded)
        } else if a == 0 || c.delivered(self.pair(), a) == 0 {
            Err(AmmError::MalformedInput)
        } else {
            Ok(c.delivered(self.pair(), a) as u64)
        }
    }

    /// The user pays the amount into the vault of the asset paid in; that of the other
    /// asset pays `out` to the user under the pool's signature.
    pub open spec fn ops(self, out: u64) -> Seq<TokenOp> {
        let a = self.instruction_data.amount;
        if self.instruction_data.is_x {
            seq![
                TokenOp {
                    kind: TokenOpKind::Transfer,
                    source: 1,
                    destination: 3,
                    authority: 0,
                    amount: a,
                    pool_signed: false,
                },
                TokenOp {
                    kind: TokenOpKind::Transfer,
                    source: 4,
                    destination: 2,
                    authority: 5,
                    amount: out,
                    pool_signed: true,
                },
            ]
        } else {
            seq![
                TokenOp {
                    kind: TokenOpKind::Transfer,
                    source: 2,
                    destination: 4,
                    authority: 0,
                    amount: a,
                    pool_signed: false,
                },
                TokenOp {
                    kind: TokenOpKind::Transfer,
                    source: 3,
                    destination: 1,
                    authority: 5,
                    amount: out,
                    pool_signed: true,
                },
            ]
        }
    }

    /// Decides the swap against the current vault balances and returns the two token
    /// calls that carry it out, in order. The liquidity supply is not read.
    pub fn process(&self, balances: &PoolBalances, ids: &ProgramIds) -> (r: Result<
        Vec<TokenOp>,
        AmmError,
    >)
        ensures
            self.config.state != initialized() ==> r == Err::<Vec<TokenOp>, AmmError>(
                AmmError::InvalidState,
            ),
            self.config.state == initialized() && !self.accounts.valid_for(self.config, *ids) ==> r
                == Err::<Vec<TokenOp>, AmmError>(AmmError::AccountMismatch),
            self.config.state == initialized() && self.accounts.valid_for(self.config, *ids) ==> match self.output(*balances) {
                Ok(out) => (r matches Ok(ops) && ops@ == self.ops(out)),
                Err(e) => r == Err::<Vec<TokenOp>, AmmError>(e),
            },
    {
        if self.config.state != AmmState::Initialized.to_byte() {
            return Err(AmmError::InvalidState);
        }
        match self.accounts.check_for(&self.config, ids) {
            Ok(()) => {},
            Err(e) => {
                return Err(e);
            },
        }
        let mut curve = match ConstantProduct::init(
            balances.vault_x,
            balances.vault_y,
            balances.vault_x,
            self.config.fee,
            None,
        ) {
            Ok(c) => c,
            Err(e) => {
                return Err(e);
            },
        };
        let d = &self.instruction_data;
        let p = if d.is_x {
            LiquidityPair::X
        } else {
            LiquidityPair::Y
        };
        let (paid, _fee, out) = match curve.swap(p, d.amount, d.min) {
            Ok(t) => t,
            Err(e) => {
                return Err(e);
            },
        };
        if paid == 0 || out == 0 {
            return Err(AmmError::MalformedInput);
        }
        let ops = if d.is_x {
            vec![
                TokenOp {
                    kind: TokenOpKind::Transfer,
                    source: 1,
                    destination: 3,
                    authority: 0,
                    amount: d.amount,
                    pool_signed: false,
                },
                TokenOp {
                    kind: TokenOpKind::Transfer,
                    source: 4,
                    destination: 2,
                    authority: 5,
                    amount: out,
                    pool_signed: true,
                },
            ]
        } else {
            vec![
                TokenOp {
                    kind: TokenOpKind::Transfer,
                    source: 2,
                    destination: 4,
                    authority: 0,
                    amount: d.amount,
                    pool_signed: false,
                },
                TokenOp {
                    kind: TokenOpKind::Transfer,
                    source: 3,
                    destination: 1,
                    authority: 5,
                    amount: out,
                    pool_signed: true,
                },
            ]
        };
        assert(ops@ =~= self.ops(out));
        Ok(ops)
    }
}

/// The accounts of Initialize.
#[derive(Clone, Copy, Debug, PartialEq, Eq)]
pub struct InitializeAccounts {
    /// Pays for the new accounts; need not be the pool's authority.
    pub initializer: AccountInfo,
    pub mint_lp: AccountInfo,
    pub config: AccountInfo,
}

/// The outcome of checking the account list of Initialize.
pub open spec fn initialize_accounts_error(s: Seq<AccountInfo>) -> Option<AmmError> {
    if s.len() != 5 {
        Some(AmmError::MalformedInput)
    } else if !s[0].is_signer {
        Some(AmmError::Unauthorized)
    } else {
        None
    }
}

impl InitializeAccounts {
    /// Takes the five accounts of Initialize: initializer, liquidity mint, pool record
    /// and two program accounts; the initializer must sign.
    pub fn parse(accounts: &[AccountInfo]) -> (r: Result<InitializeAccounts, AmmError>)
        ensures
            initialize_accounts_error(accounts@) matches Some(e) ==> r == Err::<
                InitializeAccounts,
                AmmError,
            >(e),
            initialize_accounts_error(accounts@) is None ==> r == Ok::<InitializeAccounts, AmmError>(
                InitializeAccounts {
                    initializer: accounts@[0],
                    mint_lp: accounts@[1],
                    config: accounts@[2],
                },
            ),
    {
        if accounts.len() != 5 {
            return Err(AmmError::MalformedInput);
        }
        match SignerAccount::check(&accounts[0]) {
            Ok(()) => {},
            Err(e) => {
                return Err(e);
            },
        }
        Ok(InitializeAccounts { initializer: accounts[0], mint_lp: accounts[1], config: accounts[2] })
    }
}

/// A validated Initialize: its accounts and its payload.
#[derive(Clone, Copy, Debug, PartialEq, Eq)]
pub struct Initialize {
    pub accounts: InitializeAccounts,
    pub instruction_data: InitializeInstructionData,
}

/// Position of the pool record in the account list of Initialize.
pub const INITIALIZE_CONFIG_INDEX: usize = 2;

/// What creating a pool takes: the record's bytes, the seeds that create the record's
/// account and the liquidity mint's, the mint's decimal places, and the accounts,
/// named by their position in the instruction's account list, that may mint and
/// freeze the liquidity.
#[derive(Clone, Debug)]
pub struct InitializePlan {
    pub config_data: Vec<u8>,
    pub config_seeds: Vec<Vec<u8>>,
    pub mint_lp_seeds: Vec<Vec<u8>>,
    pub lp_decimals: u8,
    pub mint_authority: usize,
    pub freeze_authority: Option<usize>,
}

impl Initialize {
    /// Checks the accounts, then decodes the payload.
    pub fn parse(data: &[u8], accounts: &[AccountInfo]) -> (r: Result<Initialize, AmmError>)
        ensures
            initialize_accounts_error(accounts@) matches Some(e) ==> r == Err::<Initialize, AmmError>(
                e,
            ),
            initialize_accounts_error(accounts@) is None && !initialize_length_ok(data@) ==> r
                == Err::<Initialize, AmmError>(AmmError::MalformedInput),
            initialize_accounts_error(accounts@) is None && initialize_length_ok(data@) ==> (r matches Ok(
                i,
            ) && i.accounts == (InitializeAccounts {
                initializer: accounts@[0],
                mint_lp: accounts@[1],
                config: accounts@[2],
            }) && initialize_fields(i.instruction_data, data@)),
    {
        let accounts = match InitializeAccounts::parse(accounts) {
            Ok(a) => a,
            Err(e) => {
                return Err(e);
            },
        };
        let instruction_data = match InitializeInstructionData::parse(data) {
            Ok(d) => d,
            Err(e) => {
                return Err(e);
            },
        };
        Ok(Initialize { accounts, instruction_data })
    }

    /// The record the pool starts with.
    pub open spec fn initial_config(self) -> Config {
        let d = self.instruction_data;
        Config {
            state: initialized(),
            seed: d.seed,
            authority: d.authority,
            mint_x: d.mint_x,
            mint_y: d.mint_y,
            fee: d.fee,
            config_bump: d.config_bump,
        }
    }

    /// Builds the new pool's record and the seeds of its two accounts, and makes the pool
    /// record the only account that may mint or freeze the liquidity; refused when the
    /// fee is not below one whole.
    pub fn process(&self) -> (r: Result<InitializePlan, AmmError>)
        ensures
            self.instruction_data.fee >= 10_000 ==> (r matches Err(e) && e == AmmError::MalformedInput),
            self.instruction_data.fee < 10_000 ==> (r matches Ok(p) && p.config_data@ == config_layout(
                self.initial_config(),
            ) && seed_views(p.config_seeds@) == config_seeds(
                self.instruction_data.seed,
                self.instruction_data.mint_x@,
                self.instruction_data.mint_y@,
                self.instruction_data.config_bump@,
            ) && seed_views(p.mint_lp_seeds@) == mint_lp_seeds(
                self.accounts.config.address@,
                self.instruction_data.lp_bump@,
            ) && p.lp_decimals == LP_DECIMALS && p.mint_authority == INITIALIZE_CONFIG_INDEX
                && p.freeze_authority == Some(INITIALIZE_CONFIG_INDEX)),
    {
        let d = &self.instruction_data;
        let mut config = Config {
            state: AmmState::Uninitialized.to_byte(),
            seed: 0,
            authority: [0u8; 32],
            mint_x: [0u8; 32],
            mint_y: [0u8; 32],
            fee: 0,
            config_bump: [0u8; 1],
        };
        match config.set_inner(d.seed, d.authority, d.mint_x, d.mint_y, d.fee, d.config_bump) {
            Ok(()) => {},
            Err(e) => {
                return Err(e);
            },
        }
        let config_seeds = config.signer_seeds();
        let mint_lp_seeds = mint_lp_signer_seeds(&self.accounts.config.address, &d.lp_bump);
        Ok(
            InitializePlan {
                config_data: config.to_bytes(),
                config_seeds,
                mint_lp_seeds,
                lp_decimals: LP_DECIMALS,
                mint_authority: INITIALIZE_CONFIG_INDEX,
                freeze_authority: Some(INITIALIZE_CONFIG_INDEX),
            },
        )
    }
}

} // verus!
