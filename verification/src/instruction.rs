use crate::pubkey::{system_program, token_program, Pubkey};
use crate::text::byte_len;
use anchor_lang::solana_program::pubkey::Pubkey as Address;
use anchor_lang::solana_program::system_instruction;
use mpl_token_metadata::instruction::{
    create_master_edition_v3, create_metadata_accounts_v2, update_metadata_accounts,
    verify_collection,
};
use mpl_token_metadata::state::{Collection as IssuedCollection, Creator as IssuedCreator};
use vstd::prelude::*;

verus! {

/// One account that an instruction names, and what the instruction may do
/// with it.
#[derive(Clone, Copy, Debug)]
pub struct AccountMeta {
    pub pubkey: Pubkey,
    pub is_signer: bool,
    pub is_writable: bool,
}

/// A request to another program: which program, on which accounts, with
/// which bytes.
#[derive(Clone, Debug)]
pub struct Instruction {
    pub program_id: Pubkey,
    pub accounts: Vec<AccountMeta>,
    pub data: Vec<u8>,
}

/// An instruction as a mathematical value.
pub struct InstructionView {
    pub program_id: Pubkey,
    pub accounts: Seq<AccountMeta>,
    pub data: Seq<u8>,
}

impl View for Instruction {
    type V = InstructionView;

    open spec fn view(&self) -> InstructionView {
        InstructionView { program_id: self.program_id, accounts: self.accounts@, data: self.data@ }
    }
}

/// An instruction that is to be carried out: on which accounts of the
/// operation, and under which seeds this program signs it. Without seeds the
/// instruction goes out as it is.
#[derive(Clone, Debug)]
pub struct Invocation {
    pub instruction: Instruction,
    pub account_keys: Vec<Pubkey>,
    pub signer_seeds: Vec<Vec<u8>>,
}

/// An invocation as a mathematical value.
pub struct InvocationView {
    pub instruction: InstructionView,
    pub account_keys: Seq<Pubkey>,
    pub signer_seeds: Seq<Seq<u8>>,
}

impl View for Invocation {
    type V = InvocationView;

    open spec fn view(&self) -> InvocationView {
        InvocationView {
            instruction: self.instruction@,
            account_keys: self.account_keys@,
            signer_seeds: self.signer_seeds@.map_values(|seed: Vec<u8>| seed@),
        }
    }
}

/// An account that the instruction may change.
pub open spec fn writable(pubkey: Pubkey, is_signer: bool) -> AccountMeta {
    AccountMeta { pubkey, is_signer, is_writable: true }
}

/// An account that the instruction only reads.
pub open spec fn readonly(pubkey: Pubkey, is_signer: bool) -> AccountMeta {
    AccountMeta { pubkey, is_signer, is_writable: false }
}

/// One who made an asset, and the share of the proceeds that is theirs.
#[derive(Clone, Copy, Debug)]
pub struct Creator {
    pub address: Pubkey,
    pub verified: bool,
    pub share: u8,
}

/// The collection that an asset says it belongs to.
#[derive(Clone, Copy, Debug)]
pub struct Collection {
    pub verified: bool,
    pub key: Pubkey,
}

/// The creators that a list holds, where there is a list.
pub open spec fn creators_in(creators: Option<Vec<Creator>>) -> Option<Seq<Creator>> {
    match creators {
        Some(all) => Some(all@),
        None => None,
    }
}

/// The creators of an asset as plain values: address, verified, share.
pub open spec fn creators_plain(creators: Option<Seq<Creator>>) -> Option<Seq<(Seq<u8>, bool, u8)>> {
    match creators {
        Some(all) => Some(all.map_values(|c: Creator| (c.address@, c.verified, c.share))),
        None => None,
    }
}

/// The collection of an asset as plain values: verified, address.
pub open spec fn collection_plain(collection: Option<Collection>) -> Option<(bool, Seq<u8>)> {
    match collection {
        Some(c) => Some((c.verified, c.key@)),
        None => None,
    }
}

/// The address in an optional value, as bytes.
pub open spec fn key_plain(key: Option<Pubkey>) -> Option<Seq<u8>> {
    match key {
        Some(k) => Some(k@),
        None => None,
    }
}

/// The bytes by which the system program is asked to move `lamports`.
pub uninterp spec fn system_transfer_data(lamports: u64) -> Seq<u8>;

/// The bytes by which the token program is asked to move `amount` tokens.
pub uninterp spec fn token_transfer_data(amount: u64) -> Seq<u8>;

/// The bytes by which the token metadata program is asked to create the
/// metadata of an asset that has no limit on its uses.
pub uninterp spec fn metadata_creation_data(
    name: Seq<char>,
    symbol: Seq<char>,
    uri: Seq<char>,
    creators: Option<Seq<(Seq<u8>, bool, u8)>>,
    seller_fee_basis_points: u16,
    is_mutable: bool,
    collection: Option<(bool, Seq<u8>)>,
) -> Seq<u8>;

/// The bytes by which the token metadata program is asked to create a master
/// edition with the given greatest supply.
pub uninterp spec fn master_edition_data(max_supply: Option<u64>) -> Seq<u8>;

/// The bytes by which the token metadata program is asked to change the
/// update authority of a metadata record, and to note whether the first sale
/// has happened, leaving name, symbol, uri and creators as they are.
pub uninterp spec fn metadata_update_data(
    new_update_authority: Option<Seq<u8>>,
    primary_sale_happened: Option<bool>,
) -> Seq<u8>;

/// An instruction in loose parts: the program, the accounts (address,
/// whether it signs, whether it may be changed) and the bytes.
type Parts = ([u8; 32], Vec<([u8; 32], bool, bool)>, Vec<u8>);

/// The account that the loose part `part` stands for.
spec fn meta_of(part: ([u8; 32], bool, bool)) -> AccountMeta {
    AccountMeta { pubkey: Pubkey { bytes: part.0 }, is_signer: part.1, is_writable: part.2 }
}

/// Puts the loose parts of an instruction together.
fn assemble(parts: Parts) -> (ix: Instruction)
    ensures
        ix.program_id.bytes == parts.0,
        ix.accounts@ == parts.1@.map_values(|part: ([u8; 32], bool, bool)| meta_of(part)),
        ix.data == parts.2,
{
    let (program_id, listed, data) = parts;
    let mut accounts: Vec<AccountMeta> = Vec::new();
    let mut i: usize = 0;
    while i < listed.len()
        invariant
            i <= listed.len(),
            accounts@ == listed@.take(i as int).map_values(
                |part: ([u8; 32], bool, bool)| meta_of(part),
            ),
        decreases listed.len() - i,
    {
        let part = listed[i];
        accounts.push(
            AccountMeta { pubkey: Pubkey { bytes: part.0 }, is_signer: part.1, is_writable: part.2 },
        );
        i = i + 1;
        assert(listed@.take(i as int) == listed@.take(i - 1).push(listed@[i - 1]));
    }
    assert(listed@.take(listed.len() as int) == listed@);
    Instruction { program_id: Pubkey { bytes: program_id }, accounts, data }
}

/// `system_instruction::transfer` of solana_program: the instruction that
/// moves `lamports` from one account to another. It goes to the system
/// program and names the source, which signs and is changed, and then the
/// destination, which is changed. Its bytes depend on the amount alone.
#[verifier::external_body]
fn system_transfer_parts(from: [u8; 32], to: [u8; 32], lamports: u64) -> (parts: Parts)
    ensures
        parts.0 == system_program().bytes,
        parts.1@ == seq![(from, true, true), (to, false, true)],
        parts.2@ == system_transfer_data(lamports),
{
    let made = system_instruction::transfer(
        &Address::new_from_array(from),
        &Address::new_from_array(to),
        lamports,
    );
    let listed = made.accounts.iter().map(|m| (m.pubkey.to_bytes(), m.is_signer, m.is_writable));
    (made.program_id.to_bytes(), listed.collect(), made.data)
}

/// `instruction::transfer` of spl_token, with no further signers: the
/// instruction that moves `amount` tokens from one token account to another
/// under an authority. It is refused unless the program named is the token
/// program. It names the source and the destination, which are changed, and
/// then the authority, which signs. Its bytes depend on the amount alone.
#[verifier::external_body]
fn token_transfer_parts(keys: [[u8; 32]; 4], amount: u64) -> (made: Option<Parts>)
    ensures
        made is Some <==> keys[0] == token_program().bytes,
        made matches Some(parts) ==> {
            &&& parts.0 == keys[0]
            &&& parts.1@ == seq![(keys[1], false, true), (keys[2], false, true), (keys[3], true, false)]
            &&& parts.2@ == token_transfer_data(amount)
        },
{
    let [program, source, destination, authority] = keys.map(Address::new_from_array);
    let made = spl_token::instruction::transfer(
        &program, &source, &destination, &authority, &[], amount,
    ).ok()?;
    let listed = made.accounts.iter().map(|m| (m.pubkey.to_bytes(), m.is_signer, m.is_writable));
    Some((made.program_id.to_bytes(), listed.collect(), made.data))
}

/// `create_metadata_accounts_v2` of mpl_token_metadata, for an asset with no
/// limit on its uses. The keys are those of the program, the metadata
/// account, the mint, the mint authority, the payer and the update
/// authority. The instruction goes to the program and lists the metadata
/// account, which is changed; the mint; the mint authority, which signs; the
/// payer, which signs and is changed; the update authority, which signs if
/// the caller says so; and the system program. Its bytes depend on the
/// content alone. The call panics where a text or the list of creators is
/// too long to be counted in four bytes.
#[verifier::external_body]
fn metadata_creation_parts(
    keys: [[u8; 32]; 6],
    name: String,
    symbol: String,
    uri: String,
    creators: Option<Vec<Creator>>,
    seller_fee_basis_points: u16,
    update_authority_is_signer: bool,
    is_mutable: bool,
    collection: Option<Collection>,
) -> (parts: Parts)
    requires
        byte_len(name@) <= u32::MAX,
        byte_len(symbol@) <= u32::MAX,
        byte_len(uri@) <= u32::MAX,
        creators matches Some(all) ==> all@.len() <= u32::MAX,
    ensures
        parts.0 == keys[0],
        parts.1@ == seq![
            (keys[1], false, true),
            (keys[2], false, false),
            (keys[3], true, false),
            (keys[4], true, true),
            (keys[5], update_authority_is_signer, false),
            (system_program().bytes, false, false),
        ],
        parts.2@ == metadata_creation_data(
            name@,
            symbol@,
            uri@,
            creators_plain(creators_in(creators)),
            seller_fee_basis_points,
            is_mutable,
            collection_plain(collection),
        ),
{
    let [program, metadata, mint, mint_authority, payer, update_authority] = keys.map(Address::new_from_array);
    let creators = creators.map(|all| all.iter().map(|c| IssuedCreator {
        address: Address::new_from_array(c.address.bytes), verified: c.verified, share: c.share
    }).collect());
    let collection = collection.map(|c| IssuedCollection {
        verified: c.verified, key: Address::new_from_array(c.key.bytes)
    });
    let made = create_metadata_accounts_v2(
        program, metadata, mint, mint_authority, payer, update_authority, name, symbol, uri,
        creators, seller_fee_basis_points, update_authority_is_signer, is_mutable, collection, None
    );
    (made.program_id.to_bytes(), made.accounts.iter().map(
        |m| (m.pubkey.to_bytes(), m.is_signer, m.is_writable)
    ).collect(), made.data)
}

/// `create_master_edition_v3` of mpl_token_metadata. The keys are those of
/// the program, the edition account, the mint, the update authority, the
/// mint authority, the metadata account and the payer. The instruction goes
/// to the program and lists the edition and the mint, which are changed; the
/// update authority and the mint authority, which sign; the payer, which
/// signs and is changed; the metadata account, which is changed; the token
/// program and the system program. Its bytes depend on the greatest supply
/// alone.
#[verifier::external_body]
fn master_edition_parts(keys: [[u8; 32]; 7], max_supply: Option<u64>) -> (parts: Parts)
    ensures
        parts.0 == keys[0],
        parts.1@ == seq![
            (keys[1], false, true),
            (keys[2], false, true),
            (keys[3], true, false),
            (keys[4], true, false),
            (keys[6], true, true),
            (keys[5], false, true),
            (token_program().bytes, false, false),
            (system_program().bytes, false, false),
        ],
        parts.2@ == master_edition_data(max_supply),
{
    let [program, edition, mint, update_authority, mint_authority, metadata, payer] = keys.map(Address::new_from_array);
    let made = create_master_edition_v3(
        program, edition, mint, update_authority, mint_authority, metadata, payer, max_supply,
    );
    let listed = made.accounts.iter().map(|m| (m.pubkey.to_bytes(), m.is_signer, m.is_writable));
    (made.program_id.to_bytes(), listed.collect(), made.data)
}

/// `update_metadata_accounts` of mpl_token_metadata, with no new name,
/// symbol, uri or creators. The keys are those of the program, the metadata
/// account and the update authority. The instruction goes to the program and
/// lists the metadata account, which is changed, and the update authority,
/// which signs. Its bytes depend on the new update authority and on the note
/// of the first sale alone.
#[verifier::external_body]
fn metadata_update_parts(
    keys: [[u8; 32]; 3],
    new_update_authority: Option<Pubkey>,
    primary_sale_happened: Option<bool>,
) -> (parts: Parts)
    ensures
        parts.0 == keys[0],
        parts.1@ == seq![(keys[1], false, true), (keys[2], true, false)],
        parts.2@ == metadata_update_data(key_plain(new_update_authority), primary_sale_happened),
{
    let [program, metadata, update_authority] = keys.map(Address::new_from_array);
    let made = update_metadata_accounts(
        program, metadata, update_authority,
        new_update_authority.map(|k| Address::new_from_array(k.bytes)), None, primary_sale_happened,
    );
    let listed = made.accounts.iter().map(|m| (m.pubkey.to_bytes(), m.is_signer, m.is_writable));
    (made.program_id.to_bytes(), listed.collect(), made.data)
}

/// `verify_collection` of mpl_token_metadata, with no record of a delegated
/// authority. The keys are those of the program, the metadata account of the
/// item, the authority of the collection, the payer, the mint of the
/// collection, its metadata account and its master edition. The instruction
/// goes to the program and lists the metadata account of the item, which is
/// changed; the authority and the payer, which sign and are changed; and the
/// three accounts of the collection. Its bytes are the one byte that stands
/// for this request.
#[verifier::external_body]
fn collection_verification_parts(keys: [[u8; 32]; 7]) -> (parts: Parts)
    ensures
        parts.0 == keys[0],
        parts.1@ == seq![
            (keys[1], false, true),
            (keys[2], true, true),
            (keys[3], true, true),
            (keys[4], false, false),
            (keys[5], false, false),
            (keys[6], false, false),
        ],
        parts.2@ == seq![18u8],
{
    let [program, metadata, authority, payer, mint, collection, edition] = keys.map(Address::new_from_array);
    let made = verify_collection(program, metadata, authority, payer, mint, collection, edition, None);
    let listed = made.accounts.iter().map(|m| (m.pubkey.to_bytes(), m.is_signer, m.is_writable));
    (made.program_id.to_bytes(), listed.collect(), made.data)
}

/// The instruction that moves `lamports` of the native currency.
pub open spec fn system_transfer_spec(from: Pubkey, to: Pubkey, lamports: u64) -> InstructionView {
    InstructionView {
        program_id: system_program(),
        accounts: seq![writable(from, true), writable(to, false)],
        data: system_transfer_data(lamports),
    }
}

/// Makes the instruction that moves `lamports` of the native currency from
/// one account to another.
pub fn system_transfer(from: Pubkey, to: Pubkey, lamports: u64) -> (ix: Instruction)
    ensures
        ix@ == system_transfer_spec(from, to, lamports),
{
    let ix = assemble(system_transfer_parts(from.bytes, to.bytes, lamports));
    assert(ix.accounts@ =~= system_transfer_spec(from, to, lamports).accounts);
    ix
}

/// The instruction that moves `amount` tokens under an authority.
pub open spec fn token_transfer_spec(
    source: Pubkey,
    destination: Pubkey,
    authority: Pubkey,
    amount: u64,
) -> InstructionView {
    InstructionView {
        program_id: token_program(),
        accounts: seq![
            writable(source, false),
            writable(destination, false),
            readonly(authority, true),
        ],
        data: token_transfer_data(amount),
    }
}

/// Makes the instruction that moves `amount` tokens from one token account
/// to another under an authority. None is made unless `token_program_id` is
/// the token program.
pub fn token_transfer(
    token_program_id: Pubkey,
    source: Pubkey,
    destination: Pubkey,
    authority: Pubkey,
    amount: u64,
) -> (made: Option<Instruction>)
    ensures
        made is Some <==> token_program_id == token_program(),
        made matches Some(ix) ==> ix@ == token_transfer_spec(source, destination, authority, amount),
{
    let keys = [token_program_id.bytes, source.bytes, destination.bytes, authority.bytes];
    match token_transfer_parts(keys, amount) {
        None => None,
        Some(parts) => {
            let ix = assemble(parts);
            assert(ix.accounts@ =~= token_transfer_spec(
                source,
                destination,
                authority,
                amount,
            ).accounts);
            Some(ix)
        },
    }
}

/// The accounts of a request to create the metadata of an asset.
#[derive(Clone, Copy, Debug)]
pub struct MetadataKeys {
    pub program_id: Pubkey,
    pub metadata: Pubkey,
    pub mint: Pubkey,
    pub mint_authority: Pubkey,
    pub payer: Pubkey,
    pub update_authority: Pubkey,
}

/// Whether the content of a metadata record can be written down: the length
/// of each text and of the list of creators is counted in four bytes.
pub open spec fn metadata_encodable(
    name: Seq<char>,
    symbol: Seq<char>,
    uri: Seq<char>,
    creators: Option<Seq<Creator>>,
) -> bool {
    &&& byte_len(name) <= u32::MAX
    &&& byte_len(symbol) <= u32::MAX
    &&& byte_len(uri) <= u32::MAX
    &&& (creators matches Some(all) ==> all.len() <= u32::MAX)
}

/// The instruction that creates the metadata of an asset.
pub open spec fn metadata_creation_spec(
    keys: MetadataKeys,
    name: Seq<char>,
    symbol: Seq<char>,
    uri: Seq<char>,
    creators: Option<Seq<Creator>>,
    seller_fee_basis_points: u16,
    update_authority_is_signer: bool,
    is_mutable: bool,
    collection: Option<Collection>,
) -> InstructionView {
    InstructionView {
        program_id: keys.program_id,
        accounts: seq![
            writable(keys.metadata, false),
            readonly(keys.mint, false),
            readonly(keys.mint_authority, true),
            writable(keys.payer, true),
            readonly(keys.update_authority, update_authority_is_signer),
            readonly(system_program(), false),
        ],
        data: metadata_creation_data(
            name,
            symbol,
            uri,
            creators_plain(creators),
            seller_fee_basis_points,
            is_mutable,
            collection_plain(collection),
        ),
    }
}

/// Makes the instruction that creates the metadata of an asset, with no
/// limit on its uses.
pub fn create_metadata(
    keys: MetadataKeys,
    name: String,
    symbol: String,
    uri: String,
    creators: Option<Vec<Creator>>,
    seller_fee_basis_points: u16,
    update_authority_is_signer: bool,
    is_mutable: bool,
    collection: Option<Collection>,
) -> (ix: Instruction)
    requires
        metadata_encodable(name@, symbol@, uri@, creators_in(creators)),
    ensures
        ix@ == metadata_creation_spec(
            keys,
            name@,
            symbol@,
            uri@,
            creators_in(creators),
            seller_fee_basis_points,
            update_authority_is_signer,
            is_mutable,
            collection,
        ),
{
    let ghost expected = metadata_creation_spec(
        keys,
        name@,
        symbol@,
        uri@,
        creators_in(creators),
        seller_fee_basis_points,
        update_authority_is_signer,
        is_mutable,
        collection,
    );
    let listed = [
        keys.program_id.bytes,
        keys.metadata.bytes,
        keys.mint.bytes,
        keys.mint_authority.bytes,
        keys.payer.bytes,
        keys.update_authority.bytes,
    ];
    let ix = assemble(
        metadata_creation_parts(
            listed,
            name,
            symbol,
            uri,
            creators,
            seller_fee_basis_points,
            update_authority_is_signer,
            is_mutable,
            collection,
        ),
    );
    assert(ix.accounts@ =~= expected.accounts);
    ix
}

/// The accounts of a request to create the master edition of an asset.
#[derive(Clone, Copy, Debug)]
pub struct EditionKeys {
    pub program_id: Pubkey,
    pub edition: Pubkey,
    pub mint: Pubkey,
    pub update_authority: Pubkey,
    pub mint_authority: Pubkey,
    pub metadata: Pubkey,
    pub payer: Pubkey,
}

/// The instruction that creates the master edition of an asset.
pub open spec fn master_edition_spec(keys: EditionKeys, max_supply: Option<u64>) -> InstructionView {
    InstructionView {
        program_id: keys.program_id,
        accounts: seq![
            writable(keys.edition, false),
            writable(keys.mint, false),
            readonly(keys.update_authority, true),
            readonly(keys.mint_authority, true),
            writable(keys.payer, true),
            writable(keys.metadata, false),
            readonly(token_program(), false),
            readonly(system_program(), false),
        ],
        data: master_edition_data(max_supply),
    }
}

/// Makes the instruction that creates the master edition of an asset, of
/// which at most `max_supply` copies can be printed.
pub fn create_master_edition(keys: EditionKeys, max_supply: Option<u64>) -> (ix: Instruction)
    ensures
        ix@ == master_edition_spec(keys, max_supply),
{
    let listed = [
        keys.program_id.bytes,
        keys.edition.bytes,
        keys.mint.bytes,
        keys.update_authority.bytes,
        keys.mint_authority.bytes,
        keys.metadata.bytes,
        keys.payer.bytes,
    ];
    let ix = assemble(master_edition_parts(listed, max_supply));
    assert(ix.accounts@ =~= master_edition_spec(keys, max_supply).accounts);
    ix
}

/// The instruction that hands the metadata of an asset to a new update
/// authority.
pub open spec fn metadata_update_spec(
    program_id: Pubkey,
    metadata: Pubkey,
    update_authority: Pubkey,
    new_update_authority: Option<Pubkey>,
    primary_sale_happened: Option<bool>,
) -> InstructionView {
    InstructionView {
        program_id,
        accounts: seq![writable(metadata, false), readonly(update_authority, true)],
        data: metadata_update_data(key_plain(new_update_authority), primary_sale_happened),
    }
}

/// Makes the instruction that hands the metadata of an asset to a new update
/// authority and notes whether its first sale has happened.
pub fn update_metadata(
    program_id: Pubkey,
    metadata: Pubkey,
    update_authority: Pubkey,
    new_update_authority: Option<Pubkey>,
    primary_sale_happened: Option<bool>,
) -> (ix: Instruction)
    ensures
        ix@ == metadata_update_spec(
            program_id,
            metadata,
            update_authority,
            new_update_authority,
            primary_sale_happened,
        ),
{
    let listed = [program_id.bytes, metadata.bytes, update_authority.bytes];
    let ix = assemble(metadata_update_parts(listed, new_update_authority, primary_sale_happened));
    assert(ix.accounts@ =~= metadata_update_spec(
        program_id,
        metadata,
        update_authority,
        new_update_authority,
        primary_sale_happened,
    ).accounts);
    ix
}

/// The accounts of a request to verify that an asset belongs to a
/// collection.
#[derive(Clone, Copy, Debug)]
pub struct CollectionKeys {
    pub program_id: Pubkey,
    pub metadata: Pubkey,
    pub collection_authority: Pubkey,
    pub payer: Pubkey,
    pub collection_mint: Pubkey,
    pub collection_metadata: Pubkey,
    pub collection_master_edition: Pubkey,
}

/// The instruction that verifies that an asset belongs to a collection.
pub open spec fn collection_verification_spec(keys: CollectionKeys) -> InstructionView {
    InstructionView {
        program_id: keys.program_id,
        accounts: seq![
            writable(keys.metadata, false),
            writable(keys.collection_authority, true),
            writable(keys.payer, true),
            readonly(keys.collection_mint, false),
            readonly(keys.collection_metadata, false),
            readonly(keys.collection_master_edition, false),
        ],
        data: seq![18u8],
    }
}

/// Makes the instruction that verifies, under the authority of a
/// collection, that an asset belongs to it.
pub fn verify_collection_item(keys: CollectionKeys) -> (ix: Instruction)
    ensures
        ix@ == collection_verification_spec(keys),
{
    let listed = [
        keys.program_id.bytes,
        keys.metadata.bytes,
        keys.collection_authority.bytes,
        keys.payer.bytes,
        keys.collection_mint.bytes,
        keys.collection_metadata.bytes,
        keys.collection_master_edition.bytes,
    ];
    let ix = assemble(collection_verification_parts(listed));
    assert(ix.accounts@ =~= collection_verification_spec(keys).accounts);
    ix
}

} // verus!
