use vstd::prelude::*;

verus! {

/// Namespace of the fungible mint singleton: "token".
pub open spec fn token_seed() -> Seq<u8> {
    seq![116u8, 111u8, 107u8, 101u8, 110u8]
}

/// Namespace of the collection mint singleton: "collection".
pub open spec fn collection_seed() -> Seq<u8> {
    seq![99u8, 111u8, 108u8, 108u8, 101u8, 99u8, 116u8, 105u8, 111u8, 110u8]
}

/// Namespace of the configuration record: "init".
pub open spec fn init_seed() -> Seq<u8> {
    seq![105u8, 110u8, 105u8, 116u8]
}

/// The metadata registry's namespace: "metadata".
pub open spec fn metadata_seed() -> Seq<u8> {
    seq![109u8, 101u8, 116u8, 97u8, 100u8, 97u8, 116u8, 97u8]
}

/// The metadata registry's edition suffix: "edition".
pub open spec fn edition_seed() -> Seq<u8> {
    seq![101u8, 100u8, 105u8, 116u8, 105u8, 111u8, 110u8]
}

pub fn token_seed_bytes() -> (r: Vec<u8>)
    ensures
        r@ == token_seed(),
{
    let r = vec![116u8, 111u8, 107u8, 101u8, 110u8];
    assert(r@ =~= token_seed());
    r
}

pub fn collection_seed_bytes() -> (r: Vec<u8>)
    ensures
        r@ == collection_seed(),
{
    let r = vec![99u8, 111u8, 108u8, 108u8, 101u8, 99u8, 116u8, 105u8, 111u8, 110u8];
    assert(r@ =~= collection_seed());
    r
}

pub fn init_seed_bytes() -> (r: Vec<u8>)
    ensures
        r@ == init_seed(),
{
    let r = vec![105u8, 110u8, 105u8, 116u8];
    assert(r@ =~= init_seed());
    r
}

pub fn metadata_seed_bytes() -> (r: Vec<u8>)
    ensures
        r@ == metadata_seed(),
{
    let r = vec![109u8, 101u8, 116u8, 97u8, 100u8, 97u8, 116u8, 97u8];
    assert(r@ =~= metadata_seed());
    r
}

pub fn edition_seed_bytes() -> (r: Vec<u8>)
    ensures
        r@ == edition_seed(),
{
    let r = vec![101u8, 100u8, 105u8, 116u8, 105u8, 111u8, 110u8];
    assert(r@ =~= edition_seed());
    r
}

/// Relies on mpl_token_metadata's `MAX_NAME_LENGTH`, declared as 32.
#[verifier::external_body]
pub(crate) fn max_name_length() -> (r: usize)
    ensures
        r == MAX_NAME_LENGTH,
{
    mpl_token_metadata::MAX_NAME_LENGTH
}

/// Relies on mpl_token_metadata's `MAX_SYMBOL_LENGTH`, declared as 10.
#[verifier::external_body]
pub(crate) fn max_symbol_length() -> (r: usize)
    ensures
        r == MAX_SYMBOL_LENGTH,
{
    mpl_token_metadata::MAX_SYMBOL_LENGTH
}

/// Relies on mpl_token_metadata's `MAX_URI_LENGTH`, declared as 200.
#[verifier::external_body]
pub(crate) fn max_uri_length() -> (r: usize)
    ensures
        r == MAX_URI_LENGTH,
{
    mpl_token_metadata::MAX_URI_LENGTH
}

/// The metadata registry program's id ("metaqbxxUerdq28cj1RbAWkYQm3ybzjb6a8bt518x1s").
pub open spec fn registry_program_id() -> Seq<u8> {
    seq![11u8, 112u8, 101u8, 177u8, 227u8, 209u8, 124u8, 69u8, 56u8, 157u8, 82u8, 127u8, 107u8, 4u8, 195u8, 205u8, 88u8, 184u8, 108u8, 115u8, 26u8, 160u8, 253u8, 181u8, 73u8, 182u8, 209u8, 188u8, 3u8, 248u8, 41u8, 70u8]
}

/// Relies on mpl_token_metadata's `ID`, declared as "metaqbxxUerdq28cj1RbAWkYQm3ybzjb6a8bt518x1s".
#[verifier::external_body]
pub(crate) fn registry_program_address() -> (r: [u8; 32])
    ensures
        r@ == registry_program_id(),
{
    mpl_token_metadata::ID.to_bytes()
}

/// The token program's id ("TokenkegQfeZyiNwAJbNbGKPFXCWuBvf9Ss623VQ5DA").
pub open spec fn token_program_id() -> Seq<u8> {
    seq![6u8, 221u8, 246u8, 225u8, 215u8, 101u8, 161u8, 147u8, 217u8, 203u8, 225u8, 70u8, 206u8, 235u8, 121u8, 172u8, 28u8, 180u8, 133u8, 237u8, 95u8, 91u8, 55u8, 145u8, 58u8, 140u8, 245u8, 133u8, 126u8, 255u8, 0u8, 169u8]
}

/// Relies on anchor_spl's `token::ID` (spl_token's id), declared as
/// "TokenkegQfeZyiNwAJbNbGKPFXCWuBvf9Ss623VQ5DA".
#[verifier::external_body]
pub(crate) fn token_program_address() -> (r: [u8; 32])
    ensures
        r@ == token_program_id(),
{
    anchor_spl::token::ID.to_bytes()
}

/// The associated token account program's id ("ATokenGPvbdGVxr1b2hvZbsiqW5xWH25efTNsLJA8knL").
pub open spec fn associated_token_program_id() -> Seq<u8> {
    seq![140u8, 151u8, 37u8, 143u8, 78u8, 36u8, 137u8, 241u8, 187u8, 61u8, 16u8, 41u8, 20u8, 142u8, 13u8, 131u8, 11u8, 90u8, 19u8, 153u8, 218u8, 255u8, 16u8, 132u8, 4u8, 142u8, 123u8, 216u8, 219u8, 233u8, 248u8, 89u8]
}

/// Relies on anchor_spl's `associated_token::ID`, declared as
/// "ATokenGPvbdGVxr1b2hvZbsiqW5xWH25efTNsLJA8knL".
#[verifier::external_body]
pub(crate) fn associated_token_program_address() -> (r: [u8; 32])
    ensures
        r@ == associated_token_program_id(),
{
    anchor_spl::associated_token::ID.to_bytes()
}

/// Longest display name the metadata registry stores.
pub const MAX_NAME_LENGTH: usize = 32;

/// Longest symbol the metadata registry stores.
pub const MAX_SYMBOL_LENGTH: usize = 10;

/// Longest URI the metadata registry stores.
pub const MAX_URI_LENGTH: usize = 200;

} // verus!
