use crate::account::AccountInfo;
use crate::error::{ErrorCode, ProgramError};
use crate::pubkey::Pubkey;
use anchor_lang::solana_program::program_pack::{IsInitialized, Pack};
use vstd::prelude::*;

verus! {

/// What this program reads of an account of the token program.
#[derive(Clone, Copy, Debug)]
pub struct TokenAccount {
    /// The mint whose tokens the account holds.
    pub mint: Pubkey,
    /// How many of them it holds.
    pub amount: u64,
    /// Whether the account has been set up.
    pub is_initialized: bool,
}

/// What the bytes of a token account say, where they are those of one: its
/// mint, its amount and whether it has been set up.
pub uninterp spec fn token_account_in(data: Seq<u8>) -> Option<(Seq<u8>, u64, bool)>;

/// Whether a mint has been set up, where the bytes are those of a mint.
pub uninterp spec fn mint_in(data: Seq<u8>) -> Option<bool>;

/// `Account::unpack_unchecked` of spl_token, with `is_initialized`: reads
/// the bytes of a token account. It gives nothing where the bytes are not
/// those of a token account; what it gives depends on the bytes alone.
#[verifier::external_body]
fn unpack_token_account(data: &Vec<u8>) -> (account: Option<TokenAccount>)
    ensures
        match account {
            Some(a) => token_account_in(data@) == Some((a.mint@, a.amount, a.is_initialized)),
            None => token_account_in(data@) is None,
        },
{
    let read = spl_token::state::Account::unpack_unchecked(data).ok()?;
    Some(TokenAccount {
        mint: Pubkey { bytes: read.mint.to_bytes() },
        amount: read.amount,
        is_initialized: read.is_initialized(),
    })
}

/// `Mint::unpack_unchecked` of spl_token: reads the bytes of a mint and says
/// whether it has been set up. It gives nothing where the bytes are not
/// those of a mint; what it gives depends on the bytes alone.
#[verifier::external_body]
fn unpack_mint(data: &Vec<u8>) -> (initialized: Option<bool>)
    ensures
        initialized == mint_in(data@),
{
    Some(spl_token::state::Mint::unpack_unchecked(data).ok()?.is_initialized())
}

/// Whether reading a token account from `data` is refused, and why.
pub open spec fn token_account_refusal(data: Seq<u8>) -> Option<ProgramError> {
    match token_account_in(data) {
        None => Some(ProgramError::InvalidAccountData),
        Some((_, _, false)) => Some(ProgramError::Custom(ErrorCode::Uninitialized)),
        Some((_, _, true)) => None,
    }
}

/// Whether reading a mint from `data` is refused, and why.
pub open spec fn mint_account_refusal(data: Seq<u8>) -> Option<ProgramError> {
    match mint_in(data) {
        None => Some(ProgramError::InvalidAccountData),
        Some(false) => Some(ProgramError::Custom(ErrorCode::Uninitialized)),
        Some(true) => None,
    }
}

/// Reads a token account that must have been set up.
pub fn assert_initialized_token_account(info: &AccountInfo) -> (read: Result<TokenAccount, ProgramError>)
    ensures
        match read {
            Ok(a) => token_account_in(info.data@) == Some((a.mint@, a.amount, true)),
            Err(e) => token_account_refusal(info.data@) == Some(e),
        },
{
    match unpack_token_account(&info.data) {
        None => Err(ProgramError::InvalidAccountData),
        Some(account) => {
            if !account.is_initialized {
                Err(ProgramError::Custom(ErrorCode::Uninitialized))
            } else {
                Ok(account)
            }
        },
    }
}

/// Checks that the bytes of an account are those of a mint that has been
/// set up.
pub fn assert_initialized_mint(info: &AccountInfo) -> (read: Result<(), ProgramError>)
    ensures
        match read {
            Ok(_) => mint_in(info.data@) == Some(true),
            Err(e) => mint_account_refusal(info.data@) == Some(e),
        },
{
    match unpack_mint(&info.data) {
        None => Err(ProgramError::InvalidAccountData),
        Some(initialized) => {
            if !initialized {
                Err(ProgramError::Custom(ErrorCode::Uninitialized))
            } else {
                Ok(())
            }
        },
    }
}

/// Checks that an account belongs to the program `owner`.
pub fn assert_owned_by(account: &AccountInfo, owner: &Pubkey) -> (checked: Result<(), ProgramError>)
    ensures
        checked == (if account.owner == *owner {
            Ok::<(), ProgramError>(())
        } else {
            Err(ProgramError::Custom(ErrorCode::IncorrectOwner))
        }),
{
    if account.owner != *owner {
        Err(ProgramError::Custom(ErrorCode::IncorrectOwner))
    } else {
        Ok(())
    }
}

} // verus!
