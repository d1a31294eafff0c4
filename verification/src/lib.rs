pub mod account;
pub mod address;
pub mod admin;
pub mod context;
pub mod error;
pub mod instruction;
pub mod issuance;
pub mod laws;
pub mod mint;
pub mod pubkey;
pub mod state;
pub mod store;
pub mod text;
pub mod token;

pub use crate::account::{Account, AccountInfo, Context};
pub use crate::admin::{
    create_collection_nft, initialize_candy_machine, initialize_config, update_authority,
    withdraw_funds,
};
pub use crate::context::{
    CreateCollectionNFT, InitializeCandyMachine, InitializeConfig, MintNFT, UpdateCandyMachine,
    WithdrawFunds,
};
pub use crate::error::{ErrorCode, ProgramError};
pub use crate::instruction::{AccountMeta, Instruction, Invocation};
pub use crate::mint::mint_nft;
pub use crate::pubkey::Pubkey;
pub use crate::state::{
    CandyMachine, CandyMachineData, ClaimStatus, Config, ConfigData, CONFIG_ARRAY_START,
};
