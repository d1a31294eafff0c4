use crate::account::{Account, AccountInfo, Context};
use crate::address::authority_seeds_spec;
use crate::context::{
    CreateCollectionNFT, InitializeCandyMachine, InitializeConfig, UpdateCandyMachine,
    WithdrawFunds,
};
use crate::error::{ErrorCode, ProgramError};
use crate::instruction::{Invocation, InvocationView};
use crate::issuance::{issue, issuance_spec, plan_view, IssuanceKeys, IssuanceOrder};
use crate::mint::final_update_authority;
use crate::pubkey::{lemma_pubkey_by_bytes, token_program, token_program_id, Pubkey};
use crate::state::{uuid_ok, CandyMachine, CandyMachineData, Config, ConfigData, UUID_LENGTH};
use crate::store::{encode_header, header_bytes, with_header, write_header};
use crate::text::{byte_len, byte_length, pad_symbol, padded_symbol, MAX_SYMBOL_LENGTH};
use crate::token::{
    assert_initialized_mint, assert_initialized_token_account, assert_owned_by, mint_in,
    token_account_in,
};
use vstd::prelude::*;
use vstd::string::*;
use vstd::utf8::*;

verus! {

/// How many copies of the asset that stands for a collection can be printed.
pub const COLLECTION_MAX_SUPPLY: u64 = 0;

/// The line store as `initialize_config` records it: under the authority
/// handed in, with the symbol filled up to its full width.
pub open spec fn stored_config(authority: Pubkey, data: ConfigData, symbol: String) -> Config {
    Config { authority, data: ConfigData { symbol, ..data } }
}

/// The head that `initialize_config` writes for `data` under `authority`.
pub open spec fn initial_header(discriminator: Seq<u8>, authority: Pubkey, data: ConfigData) -> Seq<
    u8,
> {
    header_bytes(
        discriminator,
        authority,
        data.uuid@,
        padded_symbol(data.symbol@),
        data.is_mutable,
        data.retain_authority,
        data.uri@,
    )
}

/// Why the creation of a line store is refused, if it is: the accounts break
/// their rules, or the identifier has not the length asked for.
pub open spec fn config_refusal(ctx: Context<InitializeConfig>, data: ConfigData) -> Option<
    ProgramError,
> {
    if !ctx.accounts.constraints(ctx.program_id) {
        Some(ProgramError::ConstraintViolated)
    } else if !uuid_ok(data.uuid@) {
        Some(ProgramError::Custom(ErrorCode::UuidMustBeExactly6Length))
    } else {
        None
    }
}

/// Whether the head of the store can be written: the symbol is no longer
/// than its full width, the base uri can be counted in four bytes, and the
/// account has room for the head.
pub open spec fn config_writable(
    ctx: Context<InitializeConfig>,
    data: ConfigData,
    discriminator: Seq<u8>,
) -> bool {
    &&& byte_len(data.symbol@) <= MAX_SYMBOL_LENGTH
    &&& byte_len(data.uri@) <= u32::MAX
    &&& initial_header(discriminator, ctx.accounts.authority.key, data).len()
        <= ctx.accounts.config.data@.len()
}

/// Creates a line store: writes its head at the start of the account and
/// leaves what stands behind the head untouched.
///
/// It is refused for the reason that `config_refusal` names, and then
/// nothing is changed. The symbol is stored filled up with null characters
/// to its full width. The tag of the record is handed in by the caller.
/// Where the store is not refused, its head must be such as can be written.
pub fn initialize_config(
    ctx: &mut Context<InitializeConfig>,
    data: ConfigData,
    discriminator: [u8; 8],
) -> (res: Result<(), ProgramError>)
    requires
        config_refusal(*old(ctx), data) is None ==> config_writable(
            *old(ctx),
            data,
            discriminator@,
        ),
    ensures
        match res {
            Ok(_) => {
                &&& config_refusal(*old(ctx), data) is None
                &&& final(ctx).accounts.config.data@ == with_header(
                    old(ctx).accounts.config.data@,
                    initial_header(discriminator@, old(ctx).accounts.authority.key, data),
                )
                &&& final(ctx).accounts.config.data@.len() == old(ctx).accounts.config.data@.len()
                &&& final(ctx).accounts.config.key == old(ctx).accounts.config.key
                &&& final(ctx).accounts.config.owner == old(ctx).accounts.config.owner
                &&& final(ctx).accounts.config.lamports == old(ctx).accounts.config.lamports
                &&& final(ctx).accounts.config.is_signer == old(ctx).accounts.config.is_signer
                &&& final(ctx).accounts.config.is_writable == old(ctx).accounts.config.is_writable
                &&& final(ctx).accounts.authority == old(ctx).accounts.authority
                &&& final(ctx).accounts.payer == old(ctx).accounts.payer
                &&& final(ctx).accounts.rent == old(ctx).accounts.rent
                &&& final(ctx).program_id == old(ctx).program_id
                &&& final(ctx).remaining_accounts == old(ctx).remaining_accounts
            },
            Err(e) => {
                &&& config_refusal(*old(ctx), data) == Some(e)
                &&& *final(ctx) == *old(ctx)
            },
        },
{
    if !ctx.accounts.check_constraints(&ctx.program_id) {
        return Err(ProgramError::ConstraintViolated);
    }
    if byte_length(&data.uuid) != UUID_LENGTH {
        return Err(ProgramError::Custom(ErrorCode::UuidMustBeExactly6Length));
    }
    let symbol = pad_symbol(&data.symbol);
    let config = Config {
        authority: ctx.accounts.authority.key,
        data: ConfigData {
            uuid: data.uuid,
            symbol,
            is_mutable: data.is_mutable,
            retain_authority: data.retain_authority,
            uri: data.uri,
        },
    };
    let header = encode_header(&discriminator, &config);
    write_header(&mut ctx.accounts.config.data, &header);
    Ok(())
}

/// Whether the candy machine to create is to take tokens: it is where an
/// account follows those that the operation declares.
pub open spec fn takes_tokens(ctx: Context<InitializeCandyMachine>) -> bool {
    ctx.remaining_accounts@.len() > 0
}

/// Why the mint of the tokens that a candy machine is to take is refused, if
/// it is. The account that follows must hold a mint that has been set up;
/// the wallet must hold a token account that has been set up; both must
/// belong to the token program; and the token account must be one of that
/// mint.
pub open spec fn token_mint_refusal(ctx: Context<InitializeCandyMachine>) -> Option<ProgramError> {
    let mint = ctx.remaining_accounts@[0];
    let wallet = ctx.accounts.wallet;
    match mint_in(mint.data@) {
        None => Some(ProgramError::InvalidAccountData),
        Some(false) => Some(ProgramError::Custom(ErrorCode::Uninitialized)),
        Some(true) => match token_account_in(wallet.data@) {
            None => Some(ProgramError::InvalidAccountData),
            Some((_, _, false)) => Some(ProgramError::Custom(ErrorCode::Uninitialized)),
            Some((held_mint, _, true)) => {
                if mint.owner != token_program() || wallet.owner != token_program() {
                    Some(ProgramError::Custom(ErrorCode::IncorrectOwner))
                } else if held_mint != mint.key@ {
                    Some(ProgramError::Custom(ErrorCode::MintMismatch))
                } else {
                    None
                }
            },
        },
    }
}

/// Why the creation of a candy machine is refused, if it is: the first of
/// these that holds. The accounts break their rules; a candy machine stands
/// at the address already; the identifier has not the length asked for; the
/// mint of the tokens to take is refused.
pub open spec fn candy_machine_refusal(
    ctx: Context<InitializeCandyMachine>,
    bump: u8,
    data: CandyMachineData,
) -> Option<ProgramError> {
    if !ctx.accounts.constraints(ctx.program_id, bump, data.uuid@) {
        Some(ProgramError::ConstraintViolated)
    } else if ctx.accounts.candy_machine.state is Some {
        Some(ProgramError::AccountAlreadyInUse)
    } else if !uuid_ok(data.uuid@) {
        Some(ProgramError::Custom(ErrorCode::UuidMustBeExactly6Length))
    } else if takes_tokens(ctx) {
        token_mint_refusal(ctx)
    } else {
        None
    }
}

/// The candy machine that `initialize_candy_machine` creates: under the
/// authority, paying into the wallet, bound to the store, with nothing
/// handed out and no collection; it takes the tokens of the mint that
/// follows the declared accounts, or the native currency where none follows.
pub open spec fn created_candy_machine(
    ctx: Context<InitializeCandyMachine>,
    bump: u8,
    data: CandyMachineData,
) -> CandyMachine {
    CandyMachine {
        authority: ctx.accounts.authority.key,
        wallet: ctx.accounts.wallet.key,
        token_mint: if takes_tokens(ctx) {
            Some(ctx.remaining_accounts@[0].key)
        } else {
            None
        },
        collection: None,
        config: ctx.accounts.config.key,
        data,
        items_redeemed: 0,
        bump,
    }
}

/// What the creation of a candy machine leaves behind.
pub open spec fn candy_machine_outcome(
    ctx: Context<InitializeCandyMachine>,
    bump: u8,
    data: CandyMachineData,
) -> Context<InitializeCandyMachine> {
    Context {
        accounts: InitializeCandyMachine {
            candy_machine: Account {
                state: Some(created_candy_machine(ctx, bump, data)),
                ..ctx.accounts.candy_machine
            },
            ..ctx.accounts
        },
        ..ctx
    }
}

/// Checks the mint of the tokens that a candy machine is to take.
fn check_token_mint(ctx: &Context<InitializeCandyMachine>) -> (res: Result<Pubkey, ProgramError>)
    requires
        takes_tokens(*ctx),
    ensures
        match res {
            Ok(key) => token_mint_refusal(*ctx) is None && key == ctx.remaining_accounts@[0].key,
            Err(e) => token_mint_refusal(*ctx) == Some(e),
        },
{
    let token_mint_info = &ctx.remaining_accounts[0];
    match assert_initialized_mint(token_mint_info) {
        Ok(_) => {},
        Err(e) => {
            return Err(e);
        },
    }
    let token_account = match assert_initialized_token_account(&ctx.accounts.wallet) {
        Ok(account) => account,
        Err(e) => {
            return Err(e);
        },
    };
    match assert_owned_by(token_mint_info, &token_program_id()) {
        Ok(_) => {},
        Err(e) => {
            return Err(e);
        },
    }
    match assert_owned_by(&ctx.accounts.wallet, &token_program_id()) {
        Ok(_) => {},
        Err(e) => {
            return Err(e);
        },
    }
    proof {
        lemma_pubkey_by_bytes(token_account.mint, token_mint_info.key);
    }
    if token_account.mint != token_mint_info.key {
        return Err(ProgramError::Custom(ErrorCode::MintMismatch));
    }
    Ok(token_mint_info.key)
}

/// Creates a candy machine for a line store.
///
/// It is refused for the first reason that `candy_machine_refusal` names,
/// and then nothing is changed. Else the candy machine of
/// `created_candy_machine` stands at the address.
pub fn initialize_candy_machine(
    ctx: &mut Context<InitializeCandyMachine>,
    bump: u8,
    data: CandyMachineData,
) -> (res: Result<(), ProgramError>)
    ensures
        match res {
            Ok(_) => {
                &&& candy_machine_refusal(*old(ctx), bump, data) is None
                &&& *final(ctx) == candy_machine_outcome(*old(ctx), bump, data)
            },
            Err(e) => {
                &&& candy_machine_refusal(*old(ctx), bump, data) == Some(e)
                &&& *final(ctx) == *old(ctx)
            },
        },
{
    if !ctx.accounts.check_constraints(&ctx.program_id, bump, &data.uuid) {
        return Err(ProgramError::ConstraintViolated);
    }
    if ctx.accounts.candy_machine.state.is_some() {
        return Err(ProgramError::AccountAlreadyInUse);
    }
    if byte_length(&data.uuid) != UUID_LENGTH {
        return Err(ProgramError::Custom(ErrorCode::UuidMustBeExactly6Length));
    }
    let token_mint = if ctx.remaining_accounts.len() > 0 {
        match check_token_mint(ctx) {
            Ok(key) => Some(key),
            Err(e) => {
                return Err(e);
            },
        }
    } else {
        None
    };
    ctx.accounts.candy_machine.state = Some(
        CandyMachine {
            authority: ctx.accounts.authority.key,
            wallet: ctx.accounts.wallet.key,
            token_mint,
            collection: None,
            config: ctx.accounts.config.key,
            data,
            items_redeemed: 0,
            bump,
        },
    );
    Ok(())
}

/// Why a change of authority is refused, if it is: the accounts break their
/// rules, so that the one who asks is not the authority.
pub open spec fn update_refusal(ctx: Context<UpdateCandyMachine>) -> Option<ProgramError> {
    if !ctx.accounts.constraints(ctx.program_id) {
        Some(ProgramError::ConstraintViolated)
    } else {
        None
    }
}

/// What a change of authority leaves behind: the new authority where one is
/// named, else the candy machine as it was.
pub open spec fn update_outcome(
    ctx: Context<UpdateCandyMachine>,
    new_authority: Option<Pubkey>,
) -> Context<UpdateCandyMachine> {
    match new_authority {
        Some(authority) => Context {
            accounts: UpdateCandyMachine {
                candy_machine: Account {
                    state: CandyMachine { authority, ..ctx.accounts.candy_machine.state },
                    ..ctx.accounts.candy_machine
                },
                ..ctx.accounts
            },
            ..ctx
        },
        None => ctx,
    }
}

/// Hands a candy machine to a new authority, or leaves it with the present
/// one where none is named. Only the present authority can do so.
pub fn update_authority(ctx: &mut Context<UpdateCandyMachine>, new_authority: Option<Pubkey>) -> (res:
    Result<(), ProgramError>)
    ensures
        match res {
            Ok(_) => {
                &&& update_refusal(*old(ctx)) is None
                &&& *final(ctx) == update_outcome(*old(ctx), new_authority)
            },
            Err(e) => {
                &&& update_refusal(*old(ctx)) == Some(e)
                &&& *final(ctx) == *old(ctx)
            },
        },
{
    if !ctx.accounts.check_constraints(&ctx.program_id) {
        return Err(ProgramError::ConstraintViolated);
    }
    if let Some(new_auth) = new_authority {
        ctx.accounts.candy_machine.state.authority = new_auth;
    }
    Ok(())
}

/// Why a withdrawal is refused, if it is: the accounts break their rules, so
/// that the one who asks is not the authority of the store; or the balance
/// of the authority cannot take what the store holds.
pub open spec fn withdraw_refusal(ctx: Context<WithdrawFunds>) -> Option<ProgramError> {
    if !ctx.accounts.constraints() {
        Some(ProgramError::ConstraintViolated)
    } else if ctx.accounts.authority.lamports + ctx.accounts.config.lamports > u64::MAX {
        Some(ProgramError::Custom(ErrorCode::NumericalOverflowError))
    } else {
        None
    }
}

/// What a withdrawal leaves behind: the store holds nothing, and the
/// authority holds what both held.
pub open spec fn withdraw_outcome(ctx: Context<WithdrawFunds>) -> Context<WithdrawFunds> {
    Context {
        accounts: WithdrawFunds {
            config: Account { lamports: 0, ..ctx.accounts.config },
            authority: AccountInfo {
                lamports: (ctx.accounts.authority.lamports + ctx.accounts.config.lamports) as u64,
                ..ctx.accounts.authority
            },
        },
        ..ctx
    }
}

/// Moves all that the account of a line store holds in the native currency
/// to the authority of the store. Only that authority can do so.
pub fn withdraw_funds(ctx: &mut Context<WithdrawFunds>) -> (res: Result<(), ProgramError>)
    ensures
        match res {
            Ok(_) => {
                &&& withdraw_refusal(*old(ctx)) is None
                &&& *final(ctx) == withdraw_outcome(*old(ctx))
            },
            Err(e) => {
                &&& withdraw_refusal(*old(ctx)) == Some(e)
                &&& *final(ctx) == *old(ctx)
            },
        },
{
    if !ctx.accounts.check_constraints() {
        return Err(ProgramError::ConstraintViolated);
    }
    let snapshot: u64 = ctx.accounts.config.lamports;
    let raised = match ctx.accounts.authority.lamports.checked_add(snapshot) {
        Some(sum) => sum,
        None => {
            return Err(ProgramError::Custom(ErrorCode::NumericalOverflowError));
        },
    };
    ctx.accounts.config.lamports = 0;
    ctx.accounts.authority.lamports = raised;
    Ok(())
}

/// The name of the asset that stands for a collection.
pub const COLLECTION_NAME: &'static str = "Collection NFT";

/// The uri of the asset that stands for a collection.
pub const COLLECTION_URI: &'static str = " ";

/// Why the issuance of the asset that stands for a collection is refused, if
/// it is: the accounts break their rules.
pub open spec fn collection_refusal(ctx: Context<CreateCollectionNFT>) -> Option<ProgramError> {
    if !ctx.accounts.constraints(ctx.program_id) {
        Some(ProgramError::ConstraintViolated)
    } else {
        None
    }
}

/// The addresses that the issuance of the collection asset goes by.
pub open spec fn collection_issuance_keys(a: CreateCollectionNFT) -> IssuanceKeys {
    IssuanceKeys {
        token_metadata_program: a.token_metadata_program.key,
        metadata: a.metadata.key,
        mint: a.mint.key,
        mint_authority: a.mint_authority.key,
        payer: a.payer.key,
        master_edition: a.master_edition.key,
        token_program: a.token_program.key,
        system_program: a.system_program.key,
        rent: a.rent.key,
        candy_machine: a.candy_machine.key,
    }
}

/// The requests by which the asset that stands for a collection is issued:
/// those of an issuance of which no copy can be printed, under the fixed
/// name and uri, with the symbol of the store, never to be changed, and in no
/// collection itself.
pub open spec fn collection_plan(ctx: Context<CreateCollectionNFT>) -> Seq<InvocationView> {
    let a = ctx.accounts;
    issuance_spec(
        collection_issuance_keys(a),
        authority_seeds_spec(
            a.config.key,
            a.candy_machine.state.data.uuid@,
            a.candy_machine.state.bump,
        ),
        COLLECTION_NAME@,
        a.config.state.data.symbol@,
        COLLECTION_URI@,
        false,
        None,
        COLLECTION_MAX_SUPPLY,
        final_update_authority(
            a.config.state.data.retain_authority,
            a.candy_machine.state.authority,
            a.update_authority.key,
        ),
    )
}

/// What the issuance of the collection asset leaves behind: the candy
/// machine names the mint of the asset as its collection.
pub open spec fn collection_outcome(ctx: Context<CreateCollectionNFT>) -> Context<
    CreateCollectionNFT,
> {
    let machine = ctx.accounts.candy_machine;
    Context {
        accounts: CreateCollectionNFT {
            candy_machine: Account {
                state: CandyMachine { collection: Some(ctx.accounts.mint.key), ..machine.state },
                ..machine
            },
            ..ctx.accounts
        },
        ..ctx
    }
}

/// Issues the asset that stands for the collection of a candy machine, and
/// binds the candy machine to it.
///
/// It is refused where the accounts break their rules, and then nothing is
/// changed. Else the requests of `collection_plan` come back in the order in
/// which the ledger is to carry them out, and the candy machine names the
/// mint as its collection. Where it is not refused, the symbol of the store
/// must be such as can be written down.
pub fn create_collection_nft(ctx: &mut Context<CreateCollectionNFT>) -> (res: Result<
    Vec<Invocation>,
    ProgramError,
>)
    requires
        collection_refusal(*old(ctx)) is None ==> byte_len(
            old(ctx).accounts.config.state.data.symbol@,
        ) <= u32::MAX,
    ensures
        match res {
            Ok(plan) => {
                &&& collection_refusal(*old(ctx)) is None
                &&& plan_view(plan@) == collection_plan(*old(ctx))
                &&& *final(ctx) == collection_outcome(*old(ctx))
            },
            Err(e) => {
                &&& collection_refusal(*old(ctx)) == Some(e)
                &&& *final(ctx) == *old(ctx)
            },
        },
{
    if !ctx.accounts.check_constraints(&ctx.program_id) {
        return Err(ProgramError::ConstraintViolated);
    }
    let new_update_authority = if ctx.accounts.config.state.data.retain_authority {
        ctx.accounts.candy_machine.state.authority
    } else {
        ctx.accounts.update_authority.key
    };
    let keys = IssuanceKeys {
        token_metadata_program: ctx.accounts.token_metadata_program.key,
        metadata: ctx.accounts.metadata.key,
        mint: ctx.accounts.mint.key,
        mint_authority: ctx.accounts.mint_authority.key,
        payer: ctx.accounts.payer.key,
        master_edition: ctx.accounts.master_edition.key,
        token_program: ctx.accounts.token_program.key,
        system_program: ctx.accounts.system_program.key,
        rent: ctx.accounts.rent.key,
        candy_machine: ctx.accounts.candy_machine.key,
    };
    let order = IssuanceOrder {
        name: String::from_str(COLLECTION_NAME),
        symbol: ctx.accounts.config.state.data.symbol.clone(),
        uri: String::from_str(COLLECTION_URI),
        is_mutable: false,
        collection: None,
        max_supply: COLLECTION_MAX_SUPPLY,
        new_update_authority,
    };
    proof {
        reveal_strlit("Collection NFT");
        reveal_strlit(" ");
        assert(is_ascii_chars(COLLECTION_NAME@));
        assert(is_ascii_chars(COLLECTION_URI@));
        is_ascii_chars_encode_utf8(COLLECTION_NAME@);
        is_ascii_chars_encode_utf8(COLLECTION_URI@);
    }
    let plan = issue(
        keys,
        &ctx.accounts.config.key,
        &ctx.accounts.candy_machine.state.data.uuid,
        ctx.accounts.candy_machine.state.bump,
        order,
    );
    ctx.accounts.candy_machine.state.collection = Some(ctx.accounts.mint.key);
    Ok(plan)
}

} // verus!
