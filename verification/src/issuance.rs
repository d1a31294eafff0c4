use crate::address::{authority_seeds, authority_seeds_spec};
use crate::instruction::{
    create_master_edition, create_metadata, master_edition_spec,
    metadata_creation_spec, metadata_encodable, metadata_update_spec, update_metadata, Collection,
    Creator, EditionKeys, Invocation, InvocationView, MetadataKeys,
};
use crate::pubkey::Pubkey;
use vstd::prelude::*;

verus! {

/// The share of the proceeds, in hundredths, that goes to the candy machine
/// as the one creator of what it issues.
pub const CREATOR_SHARE: u8 = 100;

/// The seller fee, in hundredths of a hundredth, of what a candy machine
/// issues.
pub const SELLER_FEE_BASIS_POINTS: u16 = 0;

/// The addresses that the issuance of one asset goes by.
#[derive(Clone, Copy, Debug)]
pub struct IssuanceKeys {
    pub token_metadata_program: Pubkey,
    pub metadata: Pubkey,
    pub mint: Pubkey,
    pub mint_authority: Pubkey,
    pub payer: Pubkey,
    pub master_edition: Pubkey,
    pub token_program: Pubkey,
    pub system_program: Pubkey,
    pub rent: Pubkey,
    pub candy_machine: Pubkey,
}

/// What is issued: the texts of the asset, whether its metadata may change
/// later, the collection it names, how many copies may be printed, and who
/// holds its metadata in the end.
pub struct IssuanceOrder {
    pub name: String,
    pub symbol: String,
    pub uri: String,
    pub is_mutable: bool,
    pub collection: Option<Collection>,
    pub max_supply: u64,
    pub new_update_authority: Pubkey,
}

impl IssuanceKeys {
    /// The accounts of the request that creates the metadata.
    pub open spec fn metadata_keys(self) -> MetadataKeys {
        MetadataKeys {
            program_id: self.token_metadata_program,
            metadata: self.metadata,
            mint: self.mint,
            mint_authority: self.mint_authority,
            payer: self.payer,
            update_authority: self.candy_machine,
        }
    }

    /// The accounts of the request that creates the master edition.
    pub open spec fn edition_keys(self) -> EditionKeys {
        EditionKeys {
            program_id: self.token_metadata_program,
            edition: self.master_edition,
            mint: self.mint,
            update_authority: self.candy_machine,
            mint_authority: self.mint_authority,
            metadata: self.metadata,
            payer: self.payer,
        }
    }

    /// The accounts handed over with the request that creates the metadata.
    pub open spec fn metadata_infos(self) -> Seq<Pubkey> {
        seq![
            self.metadata,
            self.mint,
            self.mint_authority,
            self.payer,
            self.token_metadata_program,
            self.token_program,
            self.system_program,
            self.rent,
            self.candy_machine,
        ]
    }

    /// The accounts handed over with the request that creates the master
    /// edition.
    pub open spec fn master_edition_infos(self) -> Seq<Pubkey> {
        seq![
            self.master_edition,
            self.mint,
            self.mint_authority,
            self.payer,
            self.metadata,
            self.token_metadata_program,
            self.token_program,
            self.system_program,
            self.rent,
            self.candy_machine,
        ]
    }

    /// The accounts handed over with the request that hands the metadata to
    /// its final authority.
    pub open spec fn update_infos(self) -> Seq<Pubkey> {
        seq![self.token_metadata_program, self.metadata, self.candy_machine]
    }
}

/// The one creator of what a candy machine issues: the candy machine itself,
/// verified, with the whole share.
pub open spec fn sole_creator(candy_machine: Pubkey) -> Seq<Creator> {
    seq![Creator { address: candy_machine, verified: true, share: CREATOR_SHARE }]
}

impl IssuanceOrder {
    /// Whether the texts of the order can be written down.
    pub open spec fn encodable(&self, candy_machine: Pubkey) -> bool {
        metadata_encodable(self.name@, self.symbol@, self.uri@, Some(sole_creator(candy_machine)))
    }
}

/// The views of the invocations in a plan.
pub open spec fn plan_view(plan: Seq<Invocation>) -> Seq<InvocationView> {
    plan.map_values(|step: Invocation| step@)
}

/// The three requests by which an asset is issued, each signed by the candy
/// machine under `seeds`: create the metadata, with the candy machine as the
/// one creator and as update authority; create the master edition; hand the
/// metadata to its final authority and note that the first sale has happened.
pub open spec fn issuance_spec(
    keys: IssuanceKeys,
    seeds: Seq<Seq<u8>>,
    name: Seq<char>,
    symbol: Seq<char>,
    uri: Seq<char>,
    is_mutable: bool,
    collection: Option<Collection>,
    max_supply: u64,
    new_update_authority: Pubkey,
) -> Seq<InvocationView> {
    seq![
        InvocationView {
            instruction: metadata_creation_spec(
                keys.metadata_keys(),
                name,
                symbol,
                uri,
                Some(sole_creator(keys.candy_machine)),
                SELLER_FEE_BASIS_POINTS,
                true,
                is_mutable,
                collection,
            ),
            account_keys: keys.metadata_infos(),
            signer_seeds: seeds,
        },
        InvocationView {
            instruction: master_edition_spec(keys.edition_keys(), Some(max_supply)),
            account_keys: keys.master_edition_infos(),
            signer_seeds: seeds,
        },
        InvocationView {
            instruction: metadata_update_spec(
                keys.token_metadata_program,
                keys.metadata,
                keys.candy_machine,
                Some(new_update_authority),
                Some(true),
            ),
            account_keys: keys.update_infos(),
            signer_seeds: seeds,
        },
    ]
}

/// Plans the three requests by which an asset is issued under the signature
/// of the candy machine with the given store, identifier and bump.
pub fn issue(
    keys: IssuanceKeys,
    config: &Pubkey,
    uuid: &String,
    bump: u8,
    order: IssuanceOrder,
) -> (plan: Vec<Invocation>)
    requires
        order.encodable(keys.candy_machine),
    ensures
        plan_view(plan@) == issuance_spec(
            keys,
            authority_seeds_spec(*config, uuid@, bump),
            order.name@,
            order.symbol@,
            order.uri@,
            order.is_mutable,
            order.collection,
            order.max_supply,
            order.new_update_authority,
        ),
{
    let ghost expected = issuance_spec(
        keys,
        authority_seeds_spec(*config, uuid@, bump),
        order.name@,
        order.symbol@,
        order.uri@,
        order.is_mutable,
        order.collection,
        order.max_supply,
        order.new_update_authority,
    );
    let mut creators: Vec<Creator> = Vec::new();
    creators.push(Creator { address: keys.candy_machine, verified: true, share: CREATOR_SHARE });
    assert(creators@ =~= sole_creator(keys.candy_machine));
    let creation = create_metadata(
        MetadataKeys {
            program_id: keys.token_metadata_program,
            metadata: keys.metadata,
            mint: keys.mint,
            mint_authority: keys.mint_authority,
            payer: keys.payer,
            update_authority: keys.candy_machine,
        },
        order.name,
        order.symbol,
        order.uri,
        Some(creators),
        SELLER_FEE_BASIS_POINTS,
        true,
        order.is_mutable,
        order.collection,
    );
    let mut creation_keys: Vec<Pubkey> = Vec::new();
    creation_keys.push(keys.metadata);
    creation_keys.push(keys.mint);
    creation_keys.push(keys.mint_authority);
    creation_keys.push(keys.payer);
    creation_keys.push(keys.token_metadata_program);
    creation_keys.push(keys.token_program);
    creation_keys.push(keys.system_program);
    creation_keys.push(keys.rent);
    creation_keys.push(keys.candy_machine);
    assert(creation_keys@ =~= keys.metadata_infos());
    let first = Invocation {
        instruction: creation,
        account_keys: creation_keys,
        signer_seeds: authority_seeds(config, uuid, bump),
    };
    assert(first@ == expected[0]);

    let edition = create_master_edition(
        EditionKeys {
            program_id: keys.token_metadata_program,
            edition: keys.master_edition,
            mint: keys.mint,
            update_authority: keys.candy_machine,
            mint_authority: keys.mint_authority,
            metadata: keys.metadata,
            payer: keys.payer,
        },
        Some(order.max_supply),
    );
    let mut edition_keys: Vec<Pubkey> = Vec::new();
    edition_keys.push(keys.master_edition);
    edition_keys.push(keys.mint);
    edition_keys.push(keys.mint_authority);
    edition_keys.push(keys.payer);
    edition_keys.push(keys.metadata);
    edition_keys.push(keys.token_metadata_program);
    edition_keys.push(keys.token_program);
    edition_keys.push(keys.system_program);
    edition_keys.push(keys.rent);
    edition_keys.push(keys.candy_machine);
    assert(edition_keys@ =~= keys.master_edition_infos());
    let second = Invocation {
        instruction: edition,
        account_keys: edition_keys,
        signer_seeds: authority_seeds(config, uuid, bump),
    };
    assert(second@ == expected[1]);

    let update = update_metadata(
        keys.token_metadata_program,
        keys.metadata,
        keys.candy_machine,
        Some(order.new_update_authority),
        Some(true),
    );
    let mut update_keys: Vec<Pubkey> = Vec::new();
    update_keys.push(keys.token_metadata_program);
    update_keys.push(keys.metadata);
    update_keys.push(keys.candy_machine);
    assert(update_keys@ =~= keys.update_infos());
    let third = Invocation {
        instruction: update,
        account_keys: update_keys,
        signer_seeds: authority_seeds(config, uuid, bump),
    };
    assert(third@ == expected[2]);

    let mut plan: Vec<Invocation> = Vec::new();
    plan.push(first);
    plan.push(second);
    plan.push(third);
    assert(plan_view(plan@) =~= expected);
    plan
}

} // verus!
