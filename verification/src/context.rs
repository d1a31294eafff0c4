use crate::account::{Account, AccountInfo};
use crate::address::{
    authority_seeds, authority_seeds_spec, check_derived, claim_seeds, claim_seeds_spec,
    is_derived,
};
use crate::pubkey::{
    clock_sysvar, clock_sysvar_id, rent_sysvar, rent_sysvar_id, system_program,
    system_program_id, token_metadata_program, token_metadata_program_id, token_program,
    token_program_id, Pubkey,
};
use crate::state::{CandyMachine, ClaimStatus, Config, CONFIG_ARRAY_START};
use vstd::prelude::*;

verus! {

/// The accounts of `initialize_candy_machine`.
#[derive(Clone, Debug)]
pub struct InitializeCandyMachine {
    /// The candy machine to create; it holds nothing while the address is
    /// free.
    pub candy_machine: Account<Option<CandyMachine>>,
    pub wallet: AccountInfo,
    pub config: Account<Config>,
    pub authority: AccountInfo,
    pub payer: AccountInfo,
    pub system_program: AccountInfo,
    pub rent: AccountInfo,
}

/// The accounts of `initialize_config`.
#[derive(Clone, Debug)]
pub struct InitializeConfig {
    pub config: AccountInfo,
    pub authority: AccountInfo,
    pub payer: AccountInfo,
    pub rent: AccountInfo,
}

/// The accounts of `withdraw_funds`.
#[derive(Clone, Debug)]
pub struct WithdrawFunds {
    pub config: Account<Config>,
    pub authority: AccountInfo,
}

/// The accounts of `mint_nft`.
#[derive(Clone, Debug)]
pub struct MintNFT {
    pub config: Account<Config>,
    pub candy_machine: Account<CandyMachine>,
    /// The claim record to create; it holds nothing while the item has not
    /// been handed out.
    pub claim_status: Account<Option<ClaimStatus>>,
    pub payer: AccountInfo,
    pub wallet: AccountInfo,
    pub metadata: AccountInfo,
    pub mint: AccountInfo,
    pub mint_authority: AccountInfo,
    pub update_authority: AccountInfo,
    pub master_edition: AccountInfo,
    pub token_metadata_program: AccountInfo,
    pub token_program: AccountInfo,
    pub system_program: AccountInfo,
    pub rent: AccountInfo,
    pub clock: AccountInfo,
    /// The mint of the collection; read only where the candy machine has a
    /// collection.
    pub collection_mint: AccountInfo,
    /// The metadata of the collection; read only where the candy machine has
    /// a collection.
    pub collection_metadata: AccountInfo,
    /// The master edition of the collection; read only where the candy
    /// machine has a collection.
    pub collection_master_edition: AccountInfo,
}

/// The accounts of `create_collection_nft`.
#[derive(Clone, Debug)]
pub struct CreateCollectionNFT {
    pub config: Account<Config>,
    pub candy_machine: Account<CandyMachine>,
    pub payer: AccountInfo,
    pub wallet: AccountInfo,
    pub metadata: AccountInfo,
    pub mint: AccountInfo,
    pub mint_authority: AccountInfo,
    pub update_authority: AccountInfo,
    pub master_edition: AccountInfo,
    pub token_metadata_program: AccountInfo,
    pub token_program: AccountInfo,
    pub system_program: AccountInfo,
    pub rent: AccountInfo,
    pub clock: AccountInfo,
}

/// The accounts of `update_authority`.
#[derive(Clone, Debug)]
pub struct UpdateCandyMachine {
    pub candy_machine: Account<CandyMachine>,
    pub authority: AccountInfo,
}

impl InitializeCandyMachine {
    /// The rules that these accounts must keep: the candy machine stands at
    /// the address derived from its store, its identifier and its bump; the
    /// wallet is a token account or a plain purse; the authority is that of
    /// the store, a plain purse, and has signed; the payer has signed.
    pub open spec fn constraints(&self, program_id: Pubkey, bump: u8, uuid: Seq<char>) -> bool {
        &&& is_derived(
            self.candy_machine.key,
            authority_seeds_spec(self.config.key, uuid, bump),
            program_id,
        )
        &&& (self.wallet.owner == token_program() || self.wallet.is_wallet())
        &&& self.config.state.authority == self.authority.key
        &&& self.authority.is_signer
        &&& self.authority.is_wallet()
        &&& self.payer.is_signer
        &&& self.payer.is_writable
        &&& self.system_program.key == system_program()
        &&& self.rent.key == rent_sysvar()
    }

    /// Tells whether the accounts keep their rules.
    pub fn check_constraints(&self, program_id: &Pubkey, bump: u8, uuid: &String) -> (kept: bool)
        ensures
            kept == self.constraints(*program_id, bump, uuid@),
    {
        let seeds = authority_seeds(&self.config.key, uuid, bump);
        check_derived(&self.candy_machine.key, &seeds, program_id)
            && (self.wallet.owner == token_program_id() || (self.wallet.data_is_empty()
            && self.wallet.lamports > 0))
            && self.config.state.authority == self.authority.key
            && self.authority.is_signer
            && self.authority.data_is_empty()
            && self.authority.lamports > 0
            && self.payer.is_signer
            && self.payer.is_writable
            && self.system_program.key == system_program_id()
            && self.rent.key == rent_sysvar_id()
    }
}

impl InitializeConfig {
    /// The rules that these accounts must keep: the store belongs to this
    /// program, may be changed and has room for more than its head; the
    /// authority is a plain purse; the payer has signed.
    pub open spec fn constraints(&self, program_id: Pubkey) -> bool {
        &&& self.config.is_writable
        &&& self.config.owner == program_id
        &&& self.config.data@.len() >= CONFIG_ARRAY_START + 4 + 4
        &&& self.authority.is_wallet()
        &&& self.payer.is_signer
        &&& self.payer.is_writable
        &&& self.rent.key == rent_sysvar()
    }

    /// Tells whether the accounts keep their rules.
    pub fn check_constraints(&self, program_id: &Pubkey) -> (kept: bool)
        ensures
            kept == self.constraints(*program_id),
    {
        self.config.is_writable
            && self.config.owner == *program_id
            && self.config.data.len() >= CONFIG_ARRAY_START + 4 + 4
            && self.authority.data_is_empty()
            && self.authority.lamports > 0
            && self.payer.is_signer
            && self.payer.is_writable
            && self.rent.key == rent_sysvar_id()
    }
}

impl WithdrawFunds {
    /// The rules that these accounts must keep: the authority is that of the
    /// store, and has signed.
    pub open spec fn constraints(&self) -> bool {
        &&& self.config.state.authority == self.authority.key
        &&& self.authority.is_signer
    }

    /// Tells whether the accounts keep their rules.
    pub fn check_constraints(&self) -> (kept: bool)
        ensures
            kept == self.constraints(),
    {
        self.config.state.authority == self.authority.key && self.authority.is_signer
    }
}

impl UpdateCandyMachine {
    /// The rules that these accounts must keep: the candy machine stands at
    /// its derived address; the authority is that of the candy machine, and
    /// has signed.
    pub open spec fn constraints(&self, program_id: Pubkey) -> bool {
        &&& self.candy_machine.state.authority == self.authority.key
        &&& is_derived(
            self.candy_machine.key,
            authority_seeds_spec(
                self.candy_machine.state.config,
                self.candy_machine.state.data.uuid@,
                self.candy_machine.state.bump,
            ),
            program_id,
        )
        &&& self.authority.is_signer
    }

    /// Tells whether the accounts keep their rules.
    pub fn check_constraints(&self, program_id: &Pubkey) -> (kept: bool)
        ensures
            kept == self.constraints(*program_id),
    {
        let seeds = authority_seeds(
            &self.candy_machine.state.config,
            &self.candy_machine.state.data.uuid,
            self.candy_machine.state.bump,
        );
        self.candy_machine.state.authority == self.authority.key
            && check_derived(&self.candy_machine.key, &seeds, program_id)
            && self.authority.is_signer
    }
}

/// The rules that `mint_nft` and `create_collection_nft` share: the candy
/// machine belongs to the store and pays into the wallet, and stands at its
/// derived address; the payer and the two authorities have signed; what is
/// to be changed may be changed; the programs and the ledger's own accounts
/// are the right ones.
pub open spec fn issuance_constraints(
    program_id: Pubkey,
    config: Account<Config>,
    candy_machine: Account<CandyMachine>,
    payer: AccountInfo,
    wallet: AccountInfo,
    metadata: AccountInfo,
    mint: AccountInfo,
    mint_authority: AccountInfo,
    update_authority: AccountInfo,
    master_edition: AccountInfo,
    programs: (Pubkey, Pubkey, Pubkey, Pubkey, Pubkey),
) -> bool {
    &&& candy_machine.state.config == config.key
    &&& candy_machine.state.wallet == wallet.key
    &&& is_derived(
        candy_machine.key,
        authority_seeds_spec(config.key, candy_machine.state.data.uuid@, candy_machine.state.bump),
        program_id,
    )
    &&& payer.is_signer
    &&& payer.is_writable
    &&& wallet.is_writable
    &&& metadata.is_writable
    &&& mint.is_writable
    &&& mint_authority.is_signer
    &&& update_authority.is_signer
    &&& master_edition.is_writable
    &&& programs.0 == token_metadata_program()
    &&& programs.1 == token_program()
    &&& programs.2 == system_program()
    &&& programs.3 == rent_sysvar()
    &&& programs.4 == clock_sysvar()
}

/// Tells whether the rules that `mint_nft` and `create_collection_nft` share
/// are kept.
fn check_issuance_constraints(
    program_id: &Pubkey,
    config: &Account<Config>,
    candy_machine: &Account<CandyMachine>,
    payer: &AccountInfo,
    wallet: &AccountInfo,
    metadata: &AccountInfo,
    mint: &AccountInfo,
    mint_authority: &AccountInfo,
    update_authority: &AccountInfo,
    master_edition: &AccountInfo,
    programs: (Pubkey, Pubkey, Pubkey, Pubkey, Pubkey),
) -> (kept: bool)
    ensures
        kept == issuance_constraints(
            *program_id,
            *config,
            *candy_machine,
            *payer,
            *wallet,
            *metadata,
            *mint,
            *mint_authority,
            *update_authority,
            *master_edition,
            programs,
        ),
{
    let seeds = authority_seeds(
        &config.key,
        &candy_machine.state.data.uuid,
        candy_machine.state.bump,
    );
    candy_machine.state.config == config.key
        && candy_machine.state.wallet == wallet.key
        && check_derived(&candy_machine.key, &seeds, program_id)
        && payer.is_signer
        && payer.is_writable
        && wallet.is_writable
        && metadata.is_writable
        && mint.is_writable
        && mint_authority.is_signer
        && update_authority.is_signer
        && master_edition.is_writable
        && programs.0 == token_metadata_program_id()
        && programs.1 == token_program_id()
        && programs.2 == system_program_id()
        && programs.3 == rent_sysvar_id()
        && programs.4 == clock_sysvar_id()
}

impl MintNFT {
    /// The rules that these accounts must keep: those of every issuance; the
    /// claim record stands at the address derived from the index of the item
    /// and the candy machine; and where the candy machine has a collection,
    /// the mint of the collection is that one.
    pub open spec fn constraints(&self, program_id: Pubkey, bump: u8, token_index: u64) -> bool {
        &&& issuance_constraints(
            program_id,
            self.config,
            self.candy_machine,
            self.payer,
            self.wallet,
            self.metadata,
            self.mint,
            self.mint_authority,
            self.update_authority,
            self.master_edition,
            (
                self.token_metadata_program.key,
                self.token_program.key,
                self.system_program.key,
                self.rent.key,
                self.clock.key,
            ),
        )
        &&& is_derived(
            self.claim_status.key,
            claim_seeds_spec(token_index, self.candy_machine.key, bump),
            program_id,
        )
        &&& (self.candy_machine.state.collection matches Some(collection)
            ==> self.collection_mint.key == collection)
    }

    /// Tells whether the accounts keep their rules.
    pub fn check_constraints(&self, program_id: &Pubkey, bump: u8, token_index: u64) -> (kept: bool)
        ensures
            kept == self.constraints(*program_id, bump, token_index),
    {
        let seeds = claim_seeds(token_index, &self.candy_machine.key, bump);
        let collection_kept = match self.candy_machine.state.collection {
            Some(collection) => self.collection_mint.key == collection,
            None => true,
        };
        check_issuance_constraints(
            program_id,
            &self.config,
            &self.candy_machine,
            &self.payer,
            &self.wallet,
            &self.metadata,
            &self.mint,
            &self.mint_authority,
            &self.update_authority,
            &self.master_edition,
            (
                self.token_metadata_program.key,
                self.token_program.key,
                self.system_program.key,
                self.rent.key,
                self.clock.key,
            ),
        ) && check_derived(&self.claim_status.key, &seeds, program_id) && collection_kept
    }
}

impl CreateCollectionNFT {
    /// The rules that these accounts must keep: those of every issuance.
    pub open spec fn constraints(&self, program_id: Pubkey) -> bool {
        issuance_constraints(
            program_id,
            self.config,
            self.candy_machine,
            self.payer,
            self.wallet,
            self.metadata,
            self.mint,
            self.mint_authority,
            self.update_authority,
            self.master_edition,
            (
                self.token_metadata_program.key,
                self.token_program.key,
                self.system_program.key,
                self.rent.key,
                self.clock.key,
            ),
        )
    }

    /// Tells whether the accounts keep their rules.
    pub fn check_constraints(&self, program_id: &Pubkey) -> (kept: bool)
        ensures
            kept == self.constraints(*program_id),
    {
        check_issuance_constraints(
            program_id,
            &self.config,
            &self.candy_machine,
            &self.payer,
            &self.wallet,
            &self.metadata,
            &self.mint,
            &self.mint_authority,
            &self.update_authority,
            &self.master_edition,
            (
                self.token_metadata_program.key,
                self.token_program.key,
                self.system_program.key,
                self.rent.key,
                self.clock.key,
            ),
        )
    }
}

} // verus!
