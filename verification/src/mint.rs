use crate::account::{Account, Context};
use crate::address::{authority_seeds, authority_seeds_spec};
use crate::context::MintNFT;
use crate::error::{ErrorCode, ProgramError};
use crate::instruction::{
    collection_verification_spec, metadata_encodable, system_transfer, system_transfer_spec,
    token_transfer, token_transfer_spec, verify_collection_item, Collection, CollectionKeys,
    Invocation, InvocationView,
};
use crate::issuance::{issue, issuance_spec, plan_view, sole_creator, IssuanceKeys, IssuanceOrder};
use crate::pubkey::{lemma_pubkey_by_bytes, token_program, token_program_id, Pubkey};
use crate::state::{CandyMachine, ClaimStatus};
use crate::text::{decimal, decimal_string};
use crate::token::{assert_initialized_token_account, assert_owned_by, token_account_in};
use vstd::prelude::*;
use vstd::string::*;

verus! {

/// How many copies of an item can ever exist.
pub const ITEM_MAX_SUPPLY: u64 = 1;

/// The name of the item with the given index: the stored symbol, a blank and
/// the index in decimal.
pub open spec fn item_name(symbol: Seq<char>, token_index: u64) -> Seq<char> {
    symbol + seq![' '] + decimal(token_index as nat)
}

/// The uri of the item with the given index: the base uri and the index in
/// decimal.
pub open spec fn item_uri(base: Seq<char>, token_index: u64) -> Seq<char> {
    base + decimal(token_index as nat)
}

/// Why the payment for an item is refused, if it is. Where the candy machine
/// takes tokens, the first of the accounts that follow is the token account
/// to pay from: it must be a token account that has been set up, belong to
/// the token program, hold tokens of the right mint, and enough of them.
/// Where it takes the native currency, the payer must hold the price.
pub open spec fn payment_refusal(ctx: Context<MintNFT>) -> Option<ProgramError> {
    let price = ctx.accounts.candy_machine.state.data.price;
    match ctx.accounts.candy_machine.state.token_mint {
        Some(mint) => {
            let source = ctx.remaining_accounts@[0];
            match token_account_in(source.data@) {
                None => Some(ProgramError::InvalidAccountData),
                Some((_, _, false)) => Some(ProgramError::Custom(ErrorCode::Uninitialized)),
                Some((held_mint, amount, true)) => {
                    if source.owner != token_program() {
                        Some(ProgramError::Custom(ErrorCode::IncorrectOwner))
                    } else if held_mint != mint@ {
                        Some(ProgramError::Custom(ErrorCode::MintMismatch))
                    } else if amount < price {
                        Some(ProgramError::Custom(ErrorCode::NotEnoughTokens))
                    } else {
                        None
                    }
                },
            }
        },
        None => {
            if ctx.accounts.payer.lamports < price {
                Some(ProgramError::Custom(ErrorCode::NotEnoughSOL))
            } else {
                None
            }
        },
    }
}

/// Whether the mint gets as far as its payment: the accounts keep their
/// rules, the item has not been handed out, and the payer is the authority.
pub open spec fn mint_admitted(ctx: Context<MintNFT>, bump: u8, token_index: u64) -> bool {
    &&& ctx.accounts.constraints(ctx.program_id, bump, token_index)
    &&& ctx.accounts.claim_status.state is None
    &&& ctx.accounts.payer.key == ctx.accounts.candy_machine.state.authority
}

/// Why a mint is refused, if it is: the first of these that holds. The
/// accounts break their rules; the item has been handed out already; the
/// payer is not the authority of the candy machine; the payment is refused;
/// the count of the items handed out cannot grow.
pub open spec fn mint_refusal(ctx: Context<MintNFT>, bump: u8, token_index: u64) -> Option<
    ProgramError,
> {
    if !ctx.accounts.constraints(ctx.program_id, bump, token_index) {
        Some(ProgramError::ConstraintViolated)
    } else if ctx.accounts.claim_status.state is Some {
        Some(ProgramError::AccountAlreadyInUse)
    } else if ctx.accounts.payer.key != ctx.accounts.candy_machine.state.authority {
        Some(ProgramError::Custom(ErrorCode::MustBeAuthority))
    } else if payment_refusal(ctx) is Some {
        payment_refusal(ctx)
    } else if ctx.accounts.candy_machine.state.items_redeemed == u64::MAX {
        Some(ProgramError::Custom(ErrorCode::NumericalOverflowError))
    } else {
        None
    }
}

/// The request by which the price is paid into the wallet of the candy
/// machine: in tokens, from the first of the accounts that follow and under
/// the second; else in the native currency, from the payer.
pub open spec fn payment_spec(ctx: Context<MintNFT>) -> InvocationView {
    let a = ctx.accounts;
    let price = a.candy_machine.state.data.price;
    match a.candy_machine.state.token_mint {
        Some(_) => {
            let source = ctx.remaining_accounts@[0].key;
            let authority = ctx.remaining_accounts@[1].key;
            InvocationView {
                instruction: token_transfer_spec(source, a.wallet.key, authority, price),
                account_keys: seq![source, a.wallet.key, authority, a.token_program.key],
                signer_seeds: seq![],
            }
        },
        None => InvocationView {
            instruction: system_transfer_spec(a.payer.key, a.wallet.key, price),
            account_keys: seq![a.payer.key, a.wallet.key, a.system_program.key],
            signer_seeds: seq![],
        },
    }
}

/// The addresses that the issuance of the item goes by.
pub open spec fn mint_issuance_keys(a: MintNFT) -> IssuanceKeys {
    IssuanceKeys {
        token_metadata_program: a.token_metadata_program.key,
        metadata: a.metadata.key,
        mint: a.mint.key,
        mint_authority: a.mint_authority.key,
        payer: a.payer.key,
        master_edition: a.master_edition.key,
        token_program: a.token_program.key,
        system_program: a.system_program.key,
        rent: a.rent.key,
        candy_machine: a.candy_machine.key,
    }
}

/// The seeds under which the candy machine of a mint signs.
pub open spec fn mint_seeds(a: MintNFT) -> Seq<Seq<u8>> {
    authority_seeds_spec(a.config.key, a.candy_machine.state.data.uuid@, a.candy_machine.state.bump)
}

/// Who holds the metadata of what is issued in the end: the authority of the
/// candy machine where the store says that it retains it, else the update
/// authority handed in.
pub open spec fn final_update_authority(
    retain_authority: bool,
    authority: Pubkey,
    update_authority: Pubkey,
) -> Pubkey {
    if retain_authority {
        authority
    } else {
        update_authority
    }
}

/// The collection that an item names: that of the candy machine, not yet
/// verified.
pub open spec fn named_collection(collection: Option<Pubkey>) -> Option<Collection> {
    match collection {
        Some(key) => Some(Collection { verified: false, key }),
        None => None,
    }
}

/// The request that verifies the item against the collection of the candy
/// machine, signed by the candy machine as authority of the collection.
pub open spec fn verification_spec(a: MintNFT) -> InvocationView {
    InvocationView {
        instruction: collection_verification_spec(
            CollectionKeys {
                program_id: a.token_metadata_program.key,
                metadata: a.metadata.key,
                collection_authority: a.candy_machine.key,
                payer: a.payer.key,
                collection_mint: a.collection_mint.key,
                collection_metadata: a.collection_metadata.key,
                collection_master_edition: a.collection_master_edition.key,
            },
        ),
        account_keys: seq![
            a.token_metadata_program.key,
            a.metadata.key,
            a.candy_machine.key,
            a.payer.key,
            a.collection_mint.key,
            a.collection_metadata.key,
            a.collection_master_edition.key,
        ],
        signer_seeds: mint_seeds(a),
    }
}

/// The requests that a mint asks the ledger to carry out, in order: the
/// payment, the three requests of the issuance of a single copy, and, where
/// the candy machine has a collection, the verification against it.
pub open spec fn mint_plan(ctx: Context<MintNFT>, token_index: u64) -> Seq<InvocationView> {
    let a = ctx.accounts;
    let data = a.config.state.data;
    let issued = issuance_spec(
        mint_issuance_keys(a),
        mint_seeds(a),
        item_name(data.symbol@, token_index),
        data.symbol@,
        item_uri(data.uri@, token_index),
        data.is_mutable,
        named_collection(a.candy_machine.state.collection),
        ITEM_MAX_SUPPLY,
        final_update_authority(
            data.retain_authority,
            a.candy_machine.state.authority,
            a.update_authority.key,
        ),
    );
    let paid_and_issued = seq![payment_spec(ctx)] + issued;
    if a.candy_machine.state.collection is Some {
        paid_and_issued.push(verification_spec(a))
    } else {
        paid_and_issued
    }
}

/// What a mint leaves behind: one more item handed out, and the claim record
/// of the item, which names the two addresses it was claimed for.
pub open spec fn mint_outcome(
    ctx: Context<MintNFT>,
    eth_address: String,
    sol_address: String,
) -> Context<MintNFT> {
    let machine = ctx.accounts.candy_machine;
    Context {
        accounts: MintNFT {
            candy_machine: Account {
                state: CandyMachine {
                    items_redeemed: (machine.state.items_redeemed + 1) as u64,
                    ..machine.state
                },
                ..machine
            },
            claim_status: Account {
                state: Some(ClaimStatus { is_claimed: true, sol_address, eth_address }),
                ..ctx.accounts.claim_status
            },
            ..ctx.accounts
        },
        ..ctx
    }
}

/// Whether the texts of the item can be written down. This is asked only of
/// a mint that is not refused.
pub open spec fn item_encodable(ctx: Context<MintNFT>, token_index: u64) -> bool {
    let data = ctx.accounts.config.state.data;
    metadata_encodable(
        item_name(data.symbol@, token_index),
        data.symbol@,
        item_uri(data.uri@, token_index),
        Some(sole_creator(ctx.accounts.candy_machine.key)),
    )
}

/// Plans the payment of the price.
fn plan_payment(ctx: &Context<MintNFT>) -> (res: Result<Invocation, ProgramError>)
    requires
        ctx.accounts.token_program.key == token_program(),
        ctx.accounts.candy_machine.state.token_mint is Some ==> ctx.remaining_accounts@.len() >= 2,
    ensures
        match res {
            Ok(payment) => payment_refusal(*ctx) is None && payment@ == payment_spec(*ctx),
            Err(e) => payment_refusal(*ctx) == Some(e),
        },
{
    let price = ctx.accounts.candy_machine.state.data.price;
    match ctx.accounts.candy_machine.state.token_mint {
        Some(mint) => {
            let source = &ctx.remaining_accounts[0];
            let transfer_authority = &ctx.remaining_accounts[1];
            let token_account = match assert_initialized_token_account(source) {
                Ok(account) => account,
                Err(e) => {
                    return Err(e);
                },
            };
            match assert_owned_by(source, &token_program_id()) {
                Ok(_) => {},
                Err(e) => {
                    return Err(e);
                },
            }
            proof {
                lemma_pubkey_by_bytes(token_account.mint, mint);
            }
            if token_account.mint != mint {
                return Err(ProgramError::Custom(ErrorCode::MintMismatch));
            }
            if token_account.amount < price {
                return Err(ProgramError::Custom(ErrorCode::NotEnoughTokens));
            }
            let made = token_transfer(
                ctx.accounts.token_program.key,
                source.key,
                ctx.accounts.wallet.key,
                transfer_authority.key,
                price,
            );
            match made {
                Some(instruction) => {
                    let mut account_keys: Vec<Pubkey> = Vec::new();
                    account_keys.push(source.key);
                    account_keys.push(ctx.accounts.wallet.key);
                    account_keys.push(transfer_authority.key);
                    account_keys.push(ctx.accounts.token_program.key);
                    let payment = Invocation { instruction, account_keys, signer_seeds: Vec::new() };
                    assert(payment@.account_keys =~= payment_spec(*ctx).account_keys);
                    assert(payment@.signer_seeds =~= payment_spec(*ctx).signer_seeds);
                    Ok(payment)
                },
                None => Err(ProgramError::ConstraintViolated),
            }
        },
        None => {
            if ctx.accounts.payer.lamports < price {
                return Err(ProgramError::Custom(ErrorCode::NotEnoughSOL));
            }
            let instruction = system_transfer(
                ctx.accounts.payer.key,
                ctx.accounts.wallet.key,
                price,
            );
            let mut account_keys: Vec<Pubkey> = Vec::new();
            account_keys.push(ctx.accounts.payer.key);
            account_keys.push(ctx.accounts.wallet.key);
            account_keys.push(ctx.accounts.system_program.key);
            let payment = Invocation { instruction, account_keys, signer_seeds: Vec::new() };
            assert(payment@.account_keys =~= payment_spec(*ctx).account_keys);
            assert(payment@.signer_seeds =~= payment_spec(*ctx).signer_seeds);
            Ok(payment)
        },
    }
}

/// Plans the verification of the item against the collection of the candy
/// machine.
fn plan_verification(a: &MintNFT) -> (step: Invocation)
    ensures
        step@ == verification_spec(*a),
{
    let instruction = verify_collection_item(
        CollectionKeys {
            program_id: a.token_metadata_program.key,
            metadata: a.metadata.key,
            collection_authority: a.candy_machine.key,
            payer: a.payer.key,
            collection_mint: a.collection_mint.key,
            collection_metadata: a.collection_metadata.key,
            collection_master_edition: a.collection_master_edition.key,
        },
    );
    let mut account_keys: Vec<Pubkey> = Vec::new();
    account_keys.push(a.token_metadata_program.key);
    account_keys.push(a.metadata.key);
    account_keys.push(a.candy_machine.key);
    account_keys.push(a.payer.key);
    account_keys.push(a.collection_mint.key);
    account_keys.push(a.collection_metadata.key);
    account_keys.push(a.collection_master_edition.key);
    let signer_seeds = authority_seeds(
        &a.config.key,
        &a.candy_machine.state.data.uuid,
        a.candy_machine.state.bump,
    );
    let step = Invocation { instruction, account_keys, signer_seeds };
    assert(step@.account_keys =~= verification_spec(*a).account_keys);
    step
}

/// Hands out one item of a candy machine to its authority, against payment
/// of the price.
///
/// A mint is refused for the first reason that `mint_refusal` names, and
/// then nothing is changed. Else the count of the items handed out grows by
/// one, the claim record of the item is written with the two addresses, and
/// the requests of `mint_plan` come back in the order in which the ledger is
/// to carry them out; should it turn one of them down, it undoes the whole
/// mint.
///
/// Where the candy machine takes tokens, the mint reads the first two of the
/// accounts that follow: they must be there once the mint gets as far as its
/// payment. The texts of the item must be such as can be written down.
pub fn mint_nft(
    ctx: &mut Context<MintNFT>,
    _bump: u8,
    token_index: u64,
    eth_address: String,
    sol_address: String,
) -> (res: Result<Vec<Invocation>, ProgramError>)
    requires
        mint_admitted(*old(ctx), _bump, token_index)
            && old(ctx).accounts.candy_machine.state.token_mint is Some
            ==> old(ctx).remaining_accounts@.len() >= 2,
        mint_refusal(*old(ctx), _bump, token_index) is None ==> item_encodable(
            *old(ctx),
            token_index,
        ),
    ensures
        match res {
            Ok(plan) => {
                &&& mint_refusal(*old(ctx), _bump, token_index) is None
                &&& plan_view(plan@) == mint_plan(*old(ctx), token_index)
                &&& *final(ctx) == mint_outcome(*old(ctx), eth_address, sol_address)
            },
            Err(e) => {
                &&& mint_refusal(*old(ctx), _bump, token_index) == Some(e)
                &&& *final(ctx) == *old(ctx)
            },
        },
{
    if !ctx.accounts.check_constraints(&ctx.program_id, _bump, token_index) {
        return Err(ProgramError::ConstraintViolated);
    }
    if ctx.accounts.claim_status.state.is_some() {
        return Err(ProgramError::AccountAlreadyInUse);
    }
    if ctx.accounts.payer.key != ctx.accounts.candy_machine.state.authority {
        return Err(ProgramError::Custom(ErrorCode::MustBeAuthority));
    }
    let payment = match plan_payment(ctx) {
        Ok(payment) => payment,
        Err(e) => {
            return Err(e);
        },
    };
    let redeemed = match ctx.accounts.candy_machine.state.items_redeemed.checked_add(1) {
        Some(count) => count,
        None => {
            return Err(ProgramError::Custom(ErrorCode::NumericalOverflowError));
        },
    };

    let index_text = decimal_string(token_index);
    let symbol = ctx.accounts.config.state.data.symbol.clone();
    let mut name = ctx.accounts.config.state.data.symbol.clone();
    proof {
        reveal_strlit(" ");
    }
    name.append(" ");
    name.append(index_text.as_str());
    let mut uri = ctx.accounts.config.state.data.uri.clone();
    uri.append(index_text.as_str());
    assert(name@ =~= item_name(ctx.accounts.config.state.data.symbol@, token_index));
    assert(uri@ =~= item_uri(ctx.accounts.config.state.data.uri@, token_index));

    let collection = match ctx.accounts.candy_machine.state.collection {
        Some(key) => Some(Collection { verified: false, key }),
        None => None,
    };
    let new_update_authority = if ctx.accounts.config.state.data.retain_authority {
        ctx.accounts.candy_machine.state.authority
    } else {
        ctx.accounts.update_authority.key
    };
    let keys = IssuanceKeys {
        token_metadata_program: ctx.accounts.token_metadata_program.key,
        metadata: ctx.accounts.metadata.key,
        mint: ctx.accounts.mint.key,
        mint_authority: ctx.accounts.mint_authority.key,
        payer: ctx.accounts.payer.key,
        master_edition: ctx.accounts.master_edition.key,
        token_program: ctx.accounts.token_program.key,
        system_program: ctx.accounts.system_program.key,
        rent: ctx.accounts.rent.key,
        candy_machine: ctx.accounts.candy_machine.key,
    };
    let order = IssuanceOrder {
        name,
        symbol,
        uri,
        is_mutable: ctx.accounts.config.state.data.is_mutable,
        collection,
        max_supply: ITEM_MAX_SUPPLY,
        new_update_authority,
    };
    let mut issued = issue(
        keys,
        &ctx.accounts.config.key,
        &ctx.accounts.candy_machine.state.data.uuid,
        ctx.accounts.candy_machine.state.bump,
        order,
    );
    let ghost issued_view = plan_view(issued@);
    let mut plan: Vec<Invocation> = Vec::new();
    plan.push(payment);
    plan.append(&mut issued);
    assert(plan_view(plan@) =~= seq![payment_spec(*old(ctx))] + issued_view);
    if ctx.accounts.candy_machine.state.collection.is_some() {
        let step = plan_verification(&ctx.accounts);
        plan.push(step);
        assert(plan_view(plan@) =~= (seq![payment_spec(*old(ctx))] + issued_view).push(
            verification_spec(old(ctx).accounts),
        ));
    }
    ctx.accounts.candy_machine.state.items_redeemed = redeemed;
    ctx.accounts.claim_status.state = Some(
        ClaimStatus { is_claimed: true, sol_address, eth_address },
    );
    Ok(plan)
}

} // verus!
