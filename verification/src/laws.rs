use crate::account::Context;
use crate::address::{claim_seeds_spec, is_derived};
use crate::admin::{
    candy_machine_refusal, collection_outcome, config_refusal, initial_header, takes_tokens,
    token_mint_refusal, update_outcome, update_refusal, withdraw_outcome, withdraw_refusal,
};
use crate::context::{
    CreateCollectionNFT, InitializeCandyMachine, InitializeConfig, MintNFT, UpdateCandyMachine,
    WithdrawFunds,
};
use crate::error::{ErrorCode, ProgramError};
use crate::instruction::{system_transfer_spec, token_transfer_spec};
use crate::mint::{mint_admitted, mint_outcome, mint_plan, mint_refusal, payment_refusal};
use crate::pubkey::{lemma_pubkey_by_bytes, token_program, Pubkey};
use crate::state::{uuid_ok, CandyMachine, CandyMachineData, ConfigData};
use crate::text::{
    byte_len, lemma_byte_len_concat, lemma_nulls_byte_len, nulls, padded_symbol, trim_nulls,
    MAX_SYMBOL_LENGTH,
};
use crate::store::{lemma_prefixed_len, DISCRIMINATOR_LENGTH};
use crate::token::token_account_in;
use vstd::prelude::*;

verus! {

/// With accounts that keep their rules, at an address that is free, and with
/// no mint of tokens that could be refused, the creation of a candy machine
/// is refused if and only if its identifier has not six bytes, whatever its
/// price; and it is then refused for that reason.
pub proof fn law_candy_machine_needs_six_byte_uuid(
    ctx: Context<InitializeCandyMachine>,
    bump: u8,
    data: CandyMachineData,
)
    requires
        ctx.accounts.constraints(ctx.program_id, bump, data.uuid@),
        ctx.accounts.candy_machine.state is None,
        takes_tokens(ctx) ==> token_mint_refusal(ctx) is None,
    ensures
        candy_machine_refusal(ctx, bump, data) is Some <==> byte_len(data.uuid@) != 6,
        byte_len(data.uuid@) != 6 ==> candy_machine_refusal(ctx, bump, data) == Some(
            ProgramError::Custom(ErrorCode::UuidMustBeExactly6Length),
        ),
{
}

/// With accounts that keep their rules, the creation of a line store is
/// refused if and only if its identifier has not six bytes.
pub proof fn law_config_needs_six_byte_uuid(ctx: Context<InitializeConfig>, data: ConfigData)
    requires
        ctx.accounts.constraints(ctx.program_id),
    ensures
        config_refusal(ctx, data) is Some <==> byte_len(data.uuid@) != 6,
{
}

/// A mint that is not refused leaves exactly one more item handed out than
/// there was, and the count stays a 64-bit number: where it stands at the
/// greatest of them, the mint is refused.
pub proof fn law_mint_counts_one(
    ctx: Context<MintNFT>,
    bump: u8,
    token_index: u64,
    eth_address: String,
    sol_address: String,
)
    ensures
        mint_refusal(ctx, bump, token_index) is None ==> mint_outcome(
            ctx,
            eth_address,
            sol_address,
        ).accounts.candy_machine.state.items_redeemed
            == ctx.accounts.candy_machine.state.items_redeemed + 1,
        ctx.accounts.candy_machine.state.items_redeemed == u64::MAX ==> mint_refusal(
            ctx,
            bump,
            token_index,
        ) is Some,
        ctx.accounts.candy_machine.state.items_redeemed == u64::MAX && mint_admitted(
            ctx,
            bump,
            token_index,
        ) && payment_refusal(ctx) is None ==> mint_refusal(ctx, bump, token_index) == Some(
            ProgramError::Custom(ErrorCode::NumericalOverflowError),
        ),
{
}

/// What binds a candy machine for good: its line store, its wallet, the mint
/// of the tokens it takes, its identifier and price, and its bump.
pub open spec fn bindings_kept(before: CandyMachine, after: CandyMachine) -> bool {
    &&& after.config == before.config
    &&& after.wallet == before.wallet
    &&& after.token_mint == before.token_mint
    &&& after.data == before.data
    &&& after.bump == before.bump
}

/// No operation on a candy machine that stands loosens what binds it, nor
/// lowers the count of the items handed out: not a mint, not the issuance of
/// its collection asset, not a change of authority. The mint of the tokens it
/// takes, once set, is never cleared.
pub proof fn law_bindings_are_kept(
    mint: Context<MintNFT>,
    eth_address: String,
    sol_address: String,
    collection: Context<CreateCollectionNFT>,
    update: Context<UpdateCandyMachine>,
    new_authority: Option<Pubkey>,
)
    requires
        mint.accounts.candy_machine.state.items_redeemed < u64::MAX,
    ensures
        bindings_kept(
            mint.accounts.candy_machine.state,
            mint_outcome(mint, eth_address, sol_address).accounts.candy_machine.state,
        ),
        mint_outcome(mint, eth_address, sol_address).accounts.candy_machine.state.items_redeemed
            > mint.accounts.candy_machine.state.items_redeemed,
        bindings_kept(
            collection.accounts.candy_machine.state,
            collection_outcome(collection).accounts.candy_machine.state,
        ),
        collection_outcome(collection).accounts.candy_machine.state.items_redeemed
            == collection.accounts.candy_machine.state.items_redeemed,
        bindings_kept(
            update.accounts.candy_machine.state,
            update_outcome(update, new_authority).accounts.candy_machine.state,
        ),
        update_outcome(update, new_authority).accounts.candy_machine.state.items_redeemed
            == update.accounts.candy_machine.state.items_redeemed,
{
}

/// Two claim records derived from the same index, candy machine and bump
/// stand at the same address.
pub proof fn law_claim_address_is_one(
    first: Pubkey,
    second: Pubkey,
    token_index: u64,
    candy_machine: Pubkey,
    bump: u8,
    program_id: Pubkey,
)
    requires
        is_derived(first, claim_seeds_spec(token_index, candy_machine, bump), program_id),
        is_derived(second, claim_seeds_spec(token_index, candy_machine, bump), program_id),
    ensures
        first == second,
{
    lemma_pubkey_by_bytes(first, second);
}

/// An item is handed out once: a mint that is not refused leaves a claim
/// record, and every later mint that meets this record is refused, whoever
/// asks and whatever else it is handed.
pub proof fn law_claim_once(
    ctx: Context<MintNFT>,
    bump: u8,
    token_index: u64,
    eth_address: String,
    sol_address: String,
    later: Context<MintNFT>,
    later_bump: u8,
    later_index: u64,
)
    requires
        mint_refusal(ctx, bump, token_index) is None,
        later.accounts.claim_status == mint_outcome(
            ctx,
            eth_address,
            sol_address,
        ).accounts.claim_status,
    ensures
        mint_outcome(ctx, eth_address, sol_address).accounts.claim_status.state matches Some(claim)
            && claim.is_claimed,
        mint_refusal(later, later_bump, later_index) is Some,
{
}

/// Where the candy machine takes the native currency, a mint that has got
/// as far as its payment is refused for want of funds if and only if the
/// payer holds less than the price; and a mint that is not refused has a
/// payer who holds the price, and asks first for the transfer of exactly the
/// price from the payer to the wallet.
pub proof fn law_native_payment(ctx: Context<MintNFT>, bump: u8, token_index: u64)
    requires
        mint_admitted(ctx, bump, token_index),
        ctx.accounts.candy_machine.state.token_mint is None,
    ensures
        mint_refusal(ctx, bump, token_index) == Some(
            ProgramError::Custom(ErrorCode::NotEnoughSOL),
        ) <==> ctx.accounts.payer.lamports < ctx.accounts.candy_machine.state.data.price,
        mint_refusal(ctx, bump, token_index) is None ==> ctx.accounts.payer.lamports
            >= ctx.accounts.candy_machine.state.data.price,
        mint_refusal(ctx, bump, token_index) is None ==> mint_plan(
            ctx,
            token_index,
        )[0].instruction == system_transfer_spec(
            ctx.accounts.payer.key,
            ctx.accounts.wallet.key,
            ctx.accounts.candy_machine.state.data.price,
        ),
{
}

/// Where the candy machine takes tokens and the account to pay from is a
/// token account of the token program that has been set up, a mint that has
/// got as far as its payment is refused with `MintMismatch` if and only if
/// the account holds tokens of another mint, and with `NotEnoughTokens` if
/// and only if it holds the right tokens but fewer than the price; and a
/// mint that is not refused pays from an account that holds the price in the
/// right tokens, and asks first for the transfer of exactly the price from
/// that account to the wallet.
pub proof fn law_token_payment(
    ctx: Context<MintNFT>,
    bump: u8,
    token_index: u64,
    mint: Pubkey,
    held_mint: Seq<u8>,
    amount: u64,
)
    requires
        mint_admitted(ctx, bump, token_index),
        ctx.accounts.candy_machine.state.token_mint == Some(mint),
        ctx.remaining_accounts@.len() >= 2,
        token_account_in(ctx.remaining_accounts@[0].data@) == Some((held_mint, amount, true)),
        ctx.remaining_accounts@[0].owner == token_program(),
    ensures
        mint_refusal(ctx, bump, token_index) == Some(
            ProgramError::Custom(ErrorCode::MintMismatch),
        ) <==> held_mint != mint@,
        mint_refusal(ctx, bump, token_index) == Some(
            ProgramError::Custom(ErrorCode::NotEnoughTokens),
        ) <==> held_mint == mint@ && amount < ctx.accounts.candy_machine.state.data.price,
        mint_refusal(ctx, bump, token_index) is None ==> held_mint == mint@ && amount
            >= ctx.accounts.candy_machine.state.data.price,
        mint_refusal(ctx, bump, token_index) is None ==> mint_plan(
            ctx,
            token_index,
        )[0].instruction == token_transfer_spec(
            ctx.remaining_accounts@[0].key,
            ctx.accounts.wallet.key,
            ctx.remaining_accounts@[1].key,
            ctx.accounts.candy_machine.state.data.price,
        ),
{
}

/// A withdrawal drains the store: the store is left with nothing, and a
/// second withdrawal right after the first is not refused and moves nothing.
pub proof fn law_withdraw_twice(ctx: Context<WithdrawFunds>)
    requires
        withdraw_refusal(ctx) is None,
    ensures
        withdraw_outcome(ctx).accounts.config.lamports == 0,
        withdraw_outcome(ctx).accounts.authority.lamports == ctx.accounts.authority.lamports
            + ctx.accounts.config.lamports,
        withdraw_refusal(withdraw_outcome(ctx)) is None,
        withdraw_outcome(withdraw_outcome(ctx)) == withdraw_outcome(ctx),
{
}

/// Dropping the null characters at the end of a text that is followed by a
/// run of null characters gives what is left of the text itself.
pub proof fn lemma_trim_after_nulls(text: Seq<char>, count: nat)
    ensures
        trim_nulls(text + nulls(count)) == trim_nulls(text),
    decreases count,
{
    if count == 0 {
        assert(text + nulls(0) =~= text);
    } else {
        let whole = text + nulls(count);
        assert(whole.last() == '\0');
        assert(whole.drop_last() =~= text + nulls((count - 1) as nat));
        lemma_trim_after_nulls(text, (count - 1) as nat);
    }
}

/// A symbol of at most the full width is stored in exactly the full width;
/// and where it does not itself end in a null character, dropping the null
/// characters at the end of what is stored gives the symbol back.
pub proof fn law_symbol_padding(symbol: Seq<char>)
    requires
        byte_len(symbol) <= MAX_SYMBOL_LENGTH,
    ensures
        byte_len(padded_symbol(symbol)) == MAX_SYMBOL_LENGTH,
        symbol.len() == 0 || symbol.last() != '\0' ==> trim_nulls(padded_symbol(symbol)) == symbol,
{
    let missing = (MAX_SYMBOL_LENGTH - byte_len(symbol)) as nat;
    lemma_byte_len_concat(symbol, nulls(missing));
    lemma_nulls_byte_len(missing);
    lemma_trim_after_nulls(symbol, missing);
}

/// The head of a line store as it is first written takes seventy bytes and
/// those of the base uri: the tag, the authority, the identifier and the
/// symbol with their counts, the two flags, and the count of the base uri.
pub proof fn law_header_length(discriminator: Seq<u8>, authority: Pubkey, data: ConfigData)
    requires
        discriminator.len() == DISCRIMINATOR_LENGTH,
        uuid_ok(data.uuid@),
        byte_len(data.symbol@) <= MAX_SYMBOL_LENGTH,
    ensures
        initial_header(discriminator, authority, data).len() == 70 + byte_len(data.uri@),
{
    law_symbol_padding(data.symbol@);
    lemma_prefixed_len(data.uuid@);
    lemma_prefixed_len(padded_symbol(data.symbol@));
    lemma_prefixed_len(data.uri@);
}

/// A change of authority that names no one leaves the candy machine as it
/// was.
pub proof fn law_update_to_none_keeps_authority(ctx: Context<UpdateCandyMachine>)
    ensures
        update_outcome(ctx, None) == ctx,
{
}

/// Once a candy machine has been handed to a new authority, that one rules
/// it: the next change of authority is refused unless the new authority
/// asks and has signed, and a mint is refused unless the new authority pays.
pub proof fn law_update_hands_over(
    ctx: Context<UpdateCandyMachine>,
    new_authority: Pubkey,
    next: Context<UpdateCandyMachine>,
    mint: Context<MintNFT>,
    bump: u8,
    token_index: u64,
)
    requires
        update_refusal(ctx) is None,
        next.accounts.candy_machine == update_outcome(ctx, Some(new_authority)).accounts.candy_machine,
        mint.accounts.candy_machine == update_outcome(ctx, Some(new_authority)).accounts.candy_machine,
    ensures
        update_outcome(ctx, Some(new_authority)).accounts.candy_machine.state.authority
            == new_authority,
        update_refusal(next) is None ==> next.accounts.authority.key == new_authority
            && next.accounts.authority.is_signer,
        mint_refusal(mint, bump, token_index) is None ==> mint.accounts.payer.key == new_authority
            && mint.accounts.payer.is_signer,
{
}

/// A withdrawal is refused unless the authority of the line store asks and
/// has signed. So where a candy machine has been handed to the authority of
/// its store, a withdrawal goes through for that one alone.
pub proof fn law_withdraw_is_for_the_authority(
    ctx: Context<UpdateCandyMachine>,
    new_authority: Pubkey,
    withdrawal: Context<WithdrawFunds>,
)
    requires
        update_refusal(ctx) is None,
        withdrawal.accounts.config.state.authority == update_outcome(
            ctx,
            Some(new_authority),
        ).accounts.candy_machine.state.authority,
    ensures
        withdraw_refusal(withdrawal) is None ==> withdrawal.accounts.authority.key == new_authority
            && withdrawal.accounts.authority.is_signer,
{
}

} // verus!
