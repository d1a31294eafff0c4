use crate::pubkey::{system_program, Pubkey};
use crate::text::{byte_len, MAX_SYMBOL_LENGTH};
use vstd::prelude::*;

verus! {

/// First seed of the address of every candy machine.
pub const PREFIX: &'static str = "candy_machine";

/// First seed of the address of every claim record.
pub const CLAIM_PREFIX: &'static str = "ClaimStatus";

/// The number of bytes that the identifier of a deployment must have.
pub const UUID_LENGTH: usize = 6;

/// The greatest number of creators that an asset can list.
pub const MAX_CREATOR_LIMIT: usize = 5;

/// The number of bytes that one creator takes in a stored record.
pub const MAX_CREATOR_LEN: usize = 32 + 1 + 1;

/// Where the lines begin in the account of a line store: behind the
/// authority, the identifier and the symbol with their length prefixes, the
/// seller fee, the creators, the greatest supply, the two flags and the
/// greatest number of lines.
pub const CONFIG_ARRAY_START: usize = 32 + 4 + 6 + 4 + MAX_SYMBOL_LENGTH + 2 + 1 + 4
    + MAX_CREATOR_LIMIT * MAX_CREATOR_LEN + 8 + 1 + 1 + 4;

/// What an authority lays down for a collection when it creates the line
/// store.
#[derive(Clone, Debug)]
pub struct ConfigData {
    pub uuid: String,
    /// The symbol for the asset
    pub symbol: String,
    pub is_mutable: bool,
    pub retain_authority: bool,
    pub uri: String,
}

/// The head of a line store. Behind it, in the same account, stand the count
/// of the lines written, the lines themselves and the mask of the lines
/// written: none of them is ever read into this value.
#[derive(Clone, Debug)]
pub struct Config {
    pub authority: Pubkey,
    pub data: ConfigData,
}

/// The identifier and the price of a candy machine.
#[derive(Clone, Debug)]
pub struct CandyMachineData {
    pub uuid: String,
    pub price: u64,
}

/// One deployment: who rules it, where payment goes and in what currency,
/// which store holds its lines, and how many items it has handed out.
#[derive(Clone, Debug)]
pub struct CandyMachine {
    pub authority: Pubkey,
    pub wallet: Pubkey,
    pub token_mint: Option<Pubkey>,
    pub collection: Option<Pubkey>,
    pub config: Pubkey,
    pub data: CandyMachineData,
    pub items_redeemed: u64,
    pub bump: u8,
}

/// The record that an item has been handed out, and to whom.
#[derive(Clone, Debug)]
pub struct ClaimStatus {
    /// If true, the tokens have been claimed.
    pub is_claimed: bool,
    pub sol_address: String,
    pub eth_address: String,
}

/// Whether an identifier has the length that a deployment asks for.
pub open spec fn uuid_ok(uuid: Seq<char>) -> bool {
    byte_len(uuid) == UUID_LENGTH
}

impl Default for ConfigData {
    /// Empty texts, and both flags down.
    fn default() -> (data: ConfigData)
        ensures
            data.uuid@ == Seq::<char>::empty(),
            data.symbol@ == Seq::<char>::empty(),
            !data.is_mutable,
            !data.retain_authority,
            data.uri@ == Seq::<char>::empty(),
    {
        ConfigData {
            uuid: String::new(),
            symbol: String::new(),
            is_mutable: false,
            retain_authority: false,
            uri: String::new(),
        }
    }
}

impl Default for Config {
    /// The head of a store that nobody has laid down yet.
    fn default() -> (config: Config)
        ensures
            config.authority == system_program(),
            config.data.uuid@ == Seq::<char>::empty(),
            config.data.symbol@ == Seq::<char>::empty(),
            !config.data.is_mutable,
            !config.data.retain_authority,
            config.data.uri@ == Seq::<char>::empty(),
    {
        Config { authority: Pubkey::default(), data: ConfigData::default() }
    }
}

impl Default for CandyMachineData {
    /// No identifier, and no price.
    fn default() -> (data: CandyMachineData)
        ensures
            data.uuid@ == Seq::<char>::empty(),
            data.price == 0,
    {
        CandyMachineData { uuid: String::new(), price: 0 }
    }
}

impl Default for CandyMachine {
    /// A candy machine that nobody has set up yet.
    fn default() -> (machine: CandyMachine)
        ensures
            machine.authority == system_program(),
            machine.wallet == system_program(),
            machine.token_mint is None,
            machine.collection is None,
            machine.config == system_program(),
            machine.data.uuid@ == Seq::<char>::empty(),
            machine.data.price == 0,
            machine.items_redeemed == 0,
            machine.bump == 0,
    {
        CandyMachine {
            authority: Pubkey::default(),
            wallet: Pubkey::default(),
            token_mint: None,
            collection: None,
            config: Pubkey::default(),
            data: CandyMachineData::default(),
            items_redeemed: 0,
            bump: 0,
        }
    }
}

impl Default for ClaimStatus {
    /// The record of an item that nobody has claimed.
    fn default() -> (claim: ClaimStatus)
        ensures
            !claim.is_claimed,
            claim.sol_address@ == Seq::<char>::empty(),
            claim.eth_address@ == Seq::<char>::empty(),
    {
        ClaimStatus { is_claimed: false, sol_address: String::new(), eth_address: String::new() }
    }
}

} // verus!
