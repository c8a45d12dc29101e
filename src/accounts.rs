use vstd::prelude::*;

use crate::codec::{bytes_of, same_address, seed_views};
use crate::error::AmmError;
use crate::state::{Config, CONFIG_LEN};

verus! {

/// What the library reads of an account handed to an instruction.
#[derive(Clone, Copy, Debug, PartialEq, Eq)]
pub struct AccountInfo {
    pub address: [u8; 32],
    /// The program that owns the account's data.
    pub owner: [u8; 32],
    pub is_signer: bool,
    pub data_len: usize,
}

/// The program identities that ownership and derivation checks compare against.
#[derive(Clone, Copy, Debug, PartialEq, Eq)]
pub struct ProgramIds {
    /// This pool program.
    pub program: [u8; 32],
    pub system_program: [u8; 32],
    pub associated_token_program: [u8; 32],
}

/// The address derived from `seeds` under `program_id`, found by searching the bump
/// seeds downwards from 255; none when no bump gives one or the seeds are out of bounds.
pub uninterp spec fn derived_address(seeds: Seq<Seq<u8>>, program_id: Seq<u8>) -> Option<Seq<u8>>;

/// Relies on `solana_address::Address::try_find_program_address`: the first derived
/// address off the ed25519 curve, bump seeds tried from 255 down, or `None`; it hashes
/// its arguments and nothing else.
#[verifier::external_body]
fn try_find_program_address(seeds: &Vec<Vec<u8>>, program_id: &[u8; 32]) -> (r: Option<[u8; 32]>)
    ensures
        r matches Some(a) ==> derived_address(seed_views(seeds@), program_id@) == Some(a@),
        r is None ==> derived_address(seed_views(seeds@), program_id@) is None,
{
    let refs: Vec<&[u8]> = seeds.iter().map(|s| s.as_slice()).collect();
    let program = solana_address::Address::new_from_array(*program_id);
    solana_address::Address::try_find_program_address(&refs, &program).map(|(a, _)| a.to_bytes())
}

/// Size of the token program's mint record.
pub open spec fn mint_record_len() -> usize {
    82
}

/// Size of the token program's account record.
pub open spec fn token_record_len() -> usize {
    165
}

/// Relies on `pinocchio_token::state::Mint::LEN`: the size of the `repr(C)` mint record,
/// 4 + 32 + 8 + 1 + 1 + 4 + 32 bytes.
#[verifier::external_body]
fn mint_len() -> (r: usize)
    ensures
        r == mint_record_len(),
{
    pinocchio_token::state::Mint::LEN
}

/// Relies on `pinocchio_token::state::Account::LEN`: the size of the `repr(C)`
/// token account record, 32 + 32 + 8 + 4 + 32 + 1 + 4 + 8 + 8 + 4 + 32 bytes.
#[verifier::external_body]
fn token_account_len() -> (r: usize)
    ensures
        r == token_record_len(),
{
    pinocchio_token::state::Account::LEN
}

/// The associated token account of `wallet` for `mint` under `token_program`.
pub open spec fn associated_address(
    wallet: Seq<u8>,
    token_program: Seq<u8>,
    mint: Seq<u8>,
    ids: ProgramIds,
) -> Option<Seq<u8>> {
    derived_address(seq![wallet, token_program, mint], ids.associated_token_program@)
}

/// The associated token account of `wallet` for `mint` under `token_program`.
pub fn associated_token_address(
    wallet: &[u8; 32],
    token_program: &[u8; 32],
    mint: &[u8; 32],
    ids: &ProgramIds,
) -> (r: Option<[u8; 32]>)
    ensures
        r matches Some(a) ==> associated_address(wallet@, token_program@, mint@, *ids) == Some(a@),
        r is None ==> associated_address(wallet@, token_program@, mint@, *ids) is None,
{
    let mut seeds: Vec<Vec<u8>> = Vec::new();
    seeds.push(bytes_of(wallet));
    seeds.push(bytes_of(token_program));
    seeds.push(bytes_of(mint));
    assert(seed_views(seeds@) =~= seq![wallet@, token_program@, mint@]);
    try_find_program_address(&seeds, &ids.associated_token_program)
}

/// The account is the associated token account `expected` names.
pub open spec fn derived_as(a: AccountInfo, expected: Option<Seq<u8>>) -> bool {
    expected == Some(a.address@)
}

/// Checks that an account derives from `wallet`, `token_program` and `mint`.
fn check_associated(
    account: &AccountInfo,
    wallet: &[u8; 32],
    token_program: &[u8; 32],
    mint: &[u8; 32],
    ids: &ProgramIds,
) -> (r: Result<(), AmmError>)
    ensures
        r == if derived_as(*account, associated_address(wallet@, token_program@, mint@, *ids)) {
            Ok::<(), AmmError>(())
        } else {
            Err::<(), AmmError>(AmmError::AccountMismatch)
        },
{
    match associated_token_address(wallet, token_program, mint, ids) {
        Some(a) => {
            if same_address(&a, &account.address) {
                Ok(())
            } else {
                Err(AmmError::AccountMismatch)
            }
        },
        None => Err(AmmError::AccountMismatch),
    }
}

/// The account looks like a mint: not a system account, and a mint record's size.
pub open spec fn mint_ok(a: AccountInfo, ids: ProgramIds) -> bool {
    a.owner@ != ids.system_program@ && a.data_len == mint_record_len()
}

/// The account looks like a token account: not a system account, and a token record's size.
pub open spec fn token_account_ok(a: AccountInfo, ids: ProgramIds) -> bool {
    a.owner@ != ids.system_program@ && a.data_len == token_record_len()
}

/// The account is `wallet`'s token account for `mint`.
pub open spec fn ata_ok(
    a: AccountInfo,
    wallet: Seq<u8>,
    mint: Seq<u8>,
    token_program: Seq<u8>,
    ids: ProgramIds,
) -> bool {
    token_account_ok(a, ids) && derived_as(a, associated_address(wallet, token_program, mint, ids))
}

/// The account holds a pool record of this program.
pub open spec fn program_account_ok(a: AccountInfo, ids: ProgramIds) -> bool {
    a.owner@ == ids.program@ && a.data_len == CONFIG_LEN
}

/// Requires a signature.
pub struct SignerAccount;

impl SignerAccount {
    pub fn check(account: &AccountInfo) -> (r: Result<(), AmmError>)
        ensures
            r == if account.is_signer {
                Ok::<(), AmmError>(())
            } else {
                Err::<(), AmmError>(AmmError::Unauthorized)
            },
    {
        if !account.is_signer {
            return Err(AmmError::Unauthorized);
        }
        Ok(())
    }
}

/// Requires a mint.
pub struct MintInterface;

impl MintInterface {
    pub fn check(account: &AccountInfo, ids: &ProgramIds) -> (r: Result<(), AmmError>)
        ensures
            r == if mint_ok(*account, *ids) {
                Ok::<(), AmmError>(())
            } else {
                Err::<(), AmmError>(AmmError::AccountMismatch)
            },
    {
        if same_address(&account.owner, &ids.system_program) {
            return Err(AmmError::AccountMismatch);
        }
        if account.data_len != mint_len() {
            return Err(AmmError::AccountMismatch);
        }
        Ok(())
    }
}

/// Requires a token account.
pub struct TokenAccount;

impl TokenAccount {
    pub fn check(account: &AccountInfo, ids: &ProgramIds) -> (r: Result<(), AmmError>)
        ensures
            r == if token_account_ok(*account, *ids) {
                Ok::<(), AmmError>(())
            } else {
                Err::<(), AmmError>(AmmError::AccountMismatch)
            },
    {
        if same_address(&account.owner, &ids.system_program) {
            return Err(AmmError::AccountMismatch);
        }
        if account.data_len != token_account_len() {
            return Err(AmmError::AccountMismatch);
        }
        Ok(())
    }
}

/// Requires the associated token account of a wallet for a mint.
pub struct AssociatedTokenAccount;

impl AssociatedTokenAccount {
    pub fn check(
        account: &AccountInfo,
        authority: &AccountInfo,
        mint: &[u8; 32],
        token_program: &AccountInfo,
        ids: &ProgramIds,
    ) -> (r: Result<(), AmmError>)
        ensures
            r == if ata_ok(*account, authority.address@, mint@, token_program.address@, *ids) {
                Ok::<(), AmmError>(())
            } else {
                Err::<(), AmmError>(AmmError::AccountMismatch)
            },
    {
        match TokenAccount::check(account, ids) {
            Ok(()) => {},
            Err(e) => {
                return Err(e);
            },
        }
        check_associated(account, &authority.address, &token_program.address, mint, ids)
    }
}

/// Requires an account holding this program's pool record.
pub struct ProgramAccount;

impl ProgramAccount {
    pub fn check(account: &AccountInfo, ids: &ProgramIds) -> (r: Result<(), AmmError>)
        ensures
            r == if program_account_ok(*account, *ids) {
                Ok::<(), AmmError>(())
            } else {
                Err::<(), AmmError>(AmmError::AccountMismatch)
            },
    {
        if !same_address(&account.owner, &ids.program) {
            return Err(AmmError::AccountMismatch);
        }
        if account.data_len != CONFIG_LEN {
            return Err(AmmError::AccountMismatch);
        }
        Ok(())
    }
}

/// Both vaults are the pool's own token accounts for its two mints.
pub open spec fn vaults_ok(
    cfg: Config,
    config: AccountInfo,
    token_program: AccountInfo,
    vault_x: AccountInfo,
    vault_y: AccountInfo,
    ids: ProgramIds,
) -> bool {
    &&& derived_as(
        vault_x,
        associated_address(config.address@, token_program.address@, cfg.mint_x@, ids),
    )
    &&& derived_as(
        vault_y,
        associated_address(config.address@, token_program.address@, cfg.mint_y@, ids),
    )
}

/// Checks that the two vaults are the pool's own token accounts for its mints.
pub fn check_vaults(
    cfg: &Config,
    config: &AccountInfo,
    token_program: &AccountInfo,
    vault_x: &AccountInfo,
    vault_y: &AccountInfo,
    ids: &ProgramIds,
) -> (r: Result<(), AmmError>)
    ensures
        r == if vaults_ok(*cfg, *config, *token_program, *vault_x, *vault_y, *ids) {
            Ok::<(), AmmError>(())
        } else {
            Err::<(), AmmError>(AmmError::AccountMismatch)
        },
{
    match check_associated(vault_x, &config.address, &token_program.address, &cfg.mint_x, ids) {
        Ok(()) => {},
        Err(e) => {
            return Err(e);
        },
    }
    check_associated(vault_y, &config.address, &token_program.address, &cfg.mint_y, ids)
}

/// ASCII "mint_lp": the first seed of a liquidity mint's address.
pub open spec fn mint_lp_prefix() -> Seq<u8> {
    seq![109u8, 105u8, 110u8, 116u8, 95u8, 108u8, 112u8]
}

/// The seeds, bump last, that derive the liquidity mint of the pool record at `config`.
pub open spec fn mint_lp_seeds(config: Seq<u8>, bump: Seq<u8>) -> Seq<Seq<u8>> {
    seq![mint_lp_prefix(), config, bump]
}

/// The seeds the liquidity mint of the pool record at `config` is created with.
pub fn mint_lp_signer_seeds(config: &[u8; 32], bump: &[u8; 1]) -> (r: Vec<Vec<u8>>)
    ensures
        seed_views(r@) == mint_lp_seeds(config@, bump@),
{
    let prefix: Vec<u8> = vec![109u8, 105u8, 110u8, 116u8, 95u8, 108u8, 112u8];
    let bump_bytes: Vec<u8> = vec![bump[0]];
    assert(bump_bytes@ =~= bump@);
    let mut r: Vec<Vec<u8>> = Vec::new();
    r.push(prefix);
    r.push(bytes_of(config));
    r.push(bump_bytes);
    assert(seed_views(r@) =~= mint_lp_seeds(config@, bump@));
    r
}

} // verus!
