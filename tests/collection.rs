use token_nft::errors::ProgramError;
use token_nft::derivation::{DerivationProof, Namespace};
use token_nft::spl_token::{
    create_collection, initialize, mint_nft, CreateCollection, Initialize, Invocation, Ledger, MintNft,
};

const PROGRAM: [u8; 32] = [9u8; 32];
const ADMIN: [u8; 32] = [1u8; 32];
const USER: [u8; 32] = [5u8; 32];
const ITEM: [u8; 32] = [6u8; 32];

fn s(x: &str) -> String {
    x.to_string()
}

fn fresh() -> Ledger {
    let mut l = Ledger::new(PROGRAM);
    initialize(&mut l, &Initialize { admin: ADMIN }, [2u8; 32]).unwrap();
    l
}

fn pk(b: [u8; 32]) -> solana_program::pubkey::Pubkey {
    solana_program::pubkey::Pubkey::new_from_array(b)
}

#[test]
fn collection_and_item_scenario() {
    let mut l = fresh();
    assert_eq!(create_collection(&mut l, &CreateCollection { admin: ADMIN }, s("Set"), s("SET"), s("uri://c")), Ok(()));
    assert_eq!(mint_nft(&mut l, &MintNft { user: USER, mint: ITEM }, s("Item1"), s("IT1"), s("uri://1")), Ok(()));
    let c = l.collection.as_ref().unwrap();
    let item = &l.items[0];
    let r = item.metadata.collection.unwrap();
    assert_eq!(r.key, c.address);
    assert!(r.verified);
    assert_eq!(item.owner, USER);
    assert_eq!(item.decimals, 0);
    assert_eq!(item.supply, 1);
    assert_eq!(item.owner_account, anchor_spl::associated_token::get_associated_token_address(&pk(USER), &pk(ITEM)).to_bytes());
    assert_eq!(item.metadata.name, "Item1");
    assert_eq!(item.metadata.symbol, "IT1");
    assert_eq!(item.metadata.uri, "uri://1");
    assert!(item.metadata.creators.is_empty());
    assert_eq!(item.edition.max_supply, 0);
    assert_eq!(c.metadata.collection_size, Some(1));
    let (record, _) = mpl_token_metadata::accounts::Metadata::find_pda(&pk(ITEM));
    let (edition, _) = mpl_token_metadata::accounts::MasterEdition::find_pda(&pk(ITEM));
    assert_eq!(item.metadata.address, record.to_bytes());
    assert_eq!(item.edition.address, edition.to_bytes());
}

#[test]
fn create_collection_records() {
    let mut l = fresh();
    create_collection(&mut l, &CreateCollection { admin: ADMIN }, s("Set"), s("SET"), s("uri://c")).unwrap();
    let c = l.collection.as_ref().unwrap();
    let (expected, bump) = solana_program::pubkey::Pubkey::find_program_address(&[b"collection"], &pk(PROGRAM));
    assert_eq!(c.address, expected.to_bytes());
    assert_eq!(c.bump, bump);
    assert_eq!(c.owner, ADMIN);
    assert_eq!(c.decimals, 0);
    assert_eq!(c.supply, 1);
    assert_eq!(c.metadata.collection_size, Some(0));
    assert_eq!(c.metadata.creators.len(), 1);
    assert!(c.metadata.creators[0].verified);
    assert_eq!(c.metadata.creators[0].share, 100);
    assert_eq!(c.edition.max_supply, 0);
    let (edition, _) = mpl_token_metadata::accounts::MasterEdition::find_pda(&pk(c.address));
    assert_eq!(c.edition.address, edition.to_bytes());
}

#[test]
fn create_collection_twice_fails() {
    let mut l = fresh();
    create_collection(&mut l, &CreateCollection { admin: ADMIN }, s("Set"), s("SET"), s("uri://c")).unwrap();
    assert_eq!(
        create_collection(&mut l, &CreateCollection { admin: ADMIN }, s("Set2"), s("SET2"), s("uri://d")),
        Err(ProgramError::AlreadyInitialized)
    );
    assert_eq!(l.collection.as_ref().unwrap().metadata.name, "Set");
}

#[test]
fn create_collection_with_long_symbol_is_rejected() {
    let mut l = fresh();
    assert_eq!(
        create_collection(&mut l, &CreateCollection { admin: ADMIN }, s("Set"), s("SYMBOLTOOLONG"), s("uri://c")),
        Err(ProgramError::RegistryRejected)
    );
    assert!(l.collection.is_none());
}

#[test]
fn mint_nft_without_collection_fails() {
    let mut l = fresh();
    assert_eq!(
        mint_nft(&mut l, &MintNft { user: USER, mint: ITEM }, s("Item1"), s("IT1"), s("uri://1")),
        Err(ProgramError::CollectionNotCreated)
    );
    assert!(l.items.is_empty());
}

#[test]
fn mint_nft_reusing_a_mint_fails() {
    let mut l = fresh();
    create_collection(&mut l, &CreateCollection { admin: ADMIN }, s("Set"), s("SET"), s("uri://c")).unwrap();
    mint_nft(&mut l, &MintNft { user: USER, mint: ITEM }, s("Item1"), s("IT1"), s("uri://1")).unwrap();
    assert_eq!(
        mint_nft(&mut l, &MintNft { user: USER, mint: ITEM }, s("Item2"), s("IT2"), s("uri://2")),
        Err(ProgramError::AlreadyInitialized)
    );
    let collection_mint = l.collection.as_ref().unwrap().address;
    assert_eq!(
        mint_nft(&mut l, &MintNft { user: USER, mint: collection_mint }, s("Item3"), s("IT3"), s("uri://3")),
        Err(ProgramError::AlreadyInitialized)
    );
    assert_eq!(l.items.len(), 1);
    assert_eq!(l.collection.as_ref().unwrap().metadata.collection_size, Some(1));
}

#[test]
fn mint_nft_rejected_at_verification_leaves_nothing() {
    let mut l = fresh();
    create_collection(&mut l, &CreateCollection { admin: ADMIN }, s("Set"), s("SET"), s("uri://c")).unwrap();
    // A collection that is not sized cannot certify members.
    l.collection.as_mut().unwrap().metadata.collection_size = None;
    assert_eq!(
        mint_nft(&mut l, &MintNft { user: USER, mint: ITEM }, s("Item1"), s("IT1"), s("uri://1")),
        Err(ProgramError::RegistryRejected)
    );
    assert!(l.items.is_empty());
    assert_eq!(l.collection.as_ref().unwrap().metadata.collection_size, None);
}

#[test]
fn mint_nft_with_long_uri_leaves_nothing() {
    let mut l = fresh();
    create_collection(&mut l, &CreateCollection { admin: ADMIN }, s("Set"), s("SET"), s("uri://c")).unwrap();
    let uri = "u".repeat(201);
    assert_eq!(
        mint_nft(&mut l, &MintNft { user: USER, mint: ITEM }, s("Item1"), s("IT1"), uri),
        Err(ProgramError::RegistryRejected)
    );
    assert!(l.items.is_empty());
    assert_eq!(l.collection.as_ref().unwrap().metadata.collection_size, Some(0));
}

#[test]
fn two_items_count_in_collection() {
    let mut l = fresh();
    create_collection(&mut l, &CreateCollection { admin: ADMIN }, s("Set"), s("SET"), s("uri://c")).unwrap();
    mint_nft(&mut l, &MintNft { user: USER, mint: ITEM }, s("Item1"), s("IT1"), s("uri://1")).unwrap();
    mint_nft(&mut l, &MintNft { user: ADMIN, mint: [8u8; 32] }, s("Item2"), s("IT2"), s("uri://2")).unwrap();
    assert_eq!(l.items.len(), 2);
    assert_eq!(l.items[1].owner, ADMIN);
    assert_eq!(l.collection.as_ref().unwrap().metadata.collection_size, Some(2));
}

#[test]
fn mint_nft_plans_four_registry_and_token_calls() {
    let mut l = fresh();
    create_collection(&mut l, &CreateCollection { admin: ADMIN }, s("Set"), s("SET"), s("uri://c")).unwrap();
    assert_eq!(l.invocations.len(), 4);
    mint_nft(&mut l, &MintNft { user: USER, mint: ITEM }, s("Item1"), s("IT1"), s("uri://1")).unwrap();
    assert_eq!(l.invocations.len(), 8);
    let c = l.collection.as_ref().unwrap();
    let item = &l.items[0];
    let proof = Some(DerivationProof { namespace: Namespace::Collection, bump: c.bump });
    assert!(matches!(l.invocations[0], Invocation::MintTo { mint, to, amount: 1, signer, .. }
        if mint == c.address && to == c.owner_account && signer == proof));
    assert_eq!(c.owner_account, anchor_spl::associated_token::get_associated_token_address(&pk(ADMIN), &pk(c.address)).to_bytes());
    assert!(matches!(l.invocations[2], Invocation::CreateMasterEdition { max_supply: Some(0), .. }));
    assert!(matches!(l.invocations[3], Invocation::SignMetadata { creator_address, .. } if creator_address == ADMIN));
    assert!(matches!(l.invocations[4], Invocation::MintTo { mint, to, authority, amount: 1, signer }
        if mint == ITEM && to == item.owner_account && authority == c.address && signer == proof));
    assert!(matches!(&l.invocations[5], Invocation::CreateMetadata { creator: None, update_authority, .. }
        if *update_authority == c.address));
    assert!(matches!(l.invocations[7], Invocation::VerifySizedCollectionItem {
        metadata, collection_mint, collection_metadata, collection_edition, authority, signer, ..
    } if metadata == item.metadata.address && collection_mint == c.address
        && collection_metadata == c.metadata.address && collection_edition == c.edition.address
        && authority == c.address && signer == proof));
}

#[test]
fn rejected_mint_nft_plans_nothing() {
    let mut l = fresh();
    create_collection(&mut l, &CreateCollection { admin: ADMIN }, s("Set"), s("SET"), s("uri://c")).unwrap();
    l.collection.as_mut().unwrap().metadata.collection_size = None;
    assert!(mint_nft(&mut l, &MintNft { user: USER, mint: ITEM }, s("Item1"), s("IT1"), s("uri://1")).is_err());
    assert_eq!(l.invocations.len(), 4);
}

#[test]
fn create_collection_by_stranger_is_unauthorized() {
    let mut l = fresh();
    assert_eq!(
        create_collection(&mut l, &CreateCollection { admin: USER }, s("Set"), s("SET"), s("uri://c")),
        Err(ProgramError::Unauthorized)
    );
    assert!(l.collection.is_none());
    assert!(l.invocations.is_empty());
}

#[test]
fn create_collection_before_initialize_fails() {
    let mut l = Ledger::new(PROGRAM);
    assert_eq!(
        create_collection(&mut l, &CreateCollection { admin: ADMIN }, s("Set"), s("SET"), s("uri://c")),
        Err(ProgramError::NotInitialized)
    );
    assert!(l.collection.is_none());
}
