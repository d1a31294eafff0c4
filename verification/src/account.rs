use crate::pubkey::Pubkey;
use vstd::prelude::*;

verus! {

/// An account as the ledger hands it to an operation: its address, whether
/// its holder signed, whether it may be changed, its balance in the native
/// currency, the program that owns it and its bytes.
#[derive(Clone, Debug)]
pub struct AccountInfo {
    pub key: Pubkey,
    pub is_signer: bool,
    pub is_writable: bool,
    pub lamports: u64,
    pub owner: Pubkey,
    pub data: Vec<u8>,
}

impl AccountInfo {
    /// Whether the account holds no bytes at all.
    pub fn data_is_empty(&self) -> (empty: bool)
        ensures
            empty == (self.data@.len() == 0),
    {
        self.data.len() == 0
    }

    /// Whether the account is a plain purse: no bytes, and a balance.
    pub open spec fn is_wallet(&self) -> bool {
        self.data@.len() == 0 && self.lamports > 0
    }
}

/// An account whose bytes are a record of this program, read into a value.
#[derive(Clone, Debug)]
pub struct Account<T> {
    pub key: Pubkey,
    pub lamports: u64,
    pub state: T,
}

/// What an operation is handed: the address of this program, the accounts
/// that the operation declares, and those that follow them.
#[derive(Clone, Debug)]
pub struct Context<T> {
    pub program_id: Pubkey,
    pub accounts: T,
    pub remaining_accounts: Vec<AccountInfo>,
}

} // verus!
