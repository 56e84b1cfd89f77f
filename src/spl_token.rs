use vstd::prelude::*;
use vstd::string::StrSliceExecFns;
use crate::constants::{
    collection_seed, init_seed, max_name_length, max_symbol_length, max_uri_length,
    registry_program_address, registry_program_id, token_seed, associated_token_program_id, MAX_NAME_LENGTH,
    MAX_SYMBOL_LENGTH, MAX_URI_LENGTH,
};
use crate::derivation::{
    derivation, edition_seeds, find_master_edition_account, find_metadata_account,
    metadata_seeds, namespace_bytes, associated_seeds, find_associated_token_account, same_address, single_seed, authority_proof, Address,
    DerivationProof, Derived, Namespace,
};
use crate::errors::ProgramError;

verus! {

/// The configuration singleton: who administers the program, and its vault.
#[derive(Clone, Copy, Debug)]
pub struct Config {
    pub address: Address,
    pub bump: u8,
    pub admin: Address,
    pub vault: Address,
}

/// The fungible token's mint. Its authorities are its own derived address while present.
#[derive(Clone, Copy, Debug)]
pub struct FungibleMint {
    pub address: Address,
    pub bump: u8,
    pub decimals: u8,
    pub mint_authority: Option<Address>,
    pub freeze_authority: Option<Address>,
    pub supply: u64,
}

/// A creator entry of a metadata record.
#[derive(Clone, Copy, Debug)]
pub struct Creator {
    pub address: Address,
    pub verified: bool,
    pub share: u8,
}

/// The collection a metadata record claims, and whether the collection certified it.
#[derive(Clone, Copy, Debug)]
pub struct CollectionRef {
    pub key: Address,
    pub verified: bool,
}

/// A metadata record of the registry, attached to one mint.
#[derive(Debug)]
pub struct MetadataRecord {
    pub address: Address,
    pub mint: Address,
    pub update_authority: Address,
    pub seller_fee_basis_points: u16,
    pub name: String,
    pub symbol: String,
    pub uri: String,
    pub creators: Vec<Creator>,
    pub collection: Option<CollectionRef>,
    pub collection_size: Option<u64>,
}

/// The registry's proof that a mint is a single edition.
#[derive(Clone, Copy, Debug)]
pub struct EditionMarker {
    pub address: Address,
    pub mint: Address,
    pub max_supply: u64,
}

/// What one wallet holds of the fungible token.
#[derive(Clone, Copy, Debug)]
pub struct Holding {
    pub owner: Address,
    pub amount: u64,
}

/// The collection's 1-of-1 mint, held by the administrator who created it.
#[derive(Debug)]
pub struct CollectionMint {
    pub address: Address,
    pub bump: u8,
    pub decimals: u8,
    pub supply: u64,
    pub owner: Address,
    /// The owner's associated token account, which holds the one unit.
    pub owner_account: Address,
    pub metadata: MetadataRecord,
    pub edition: EditionMarker,
}

/// A 1-of-1 item of the collection.
#[derive(Debug)]
pub struct NftItem {
    pub mint: Address,
    pub decimals: u8,
    pub supply: u64,
    pub owner: Address,
    /// The owner's associated token account, which holds the one unit.
    pub owner_account: Address,
    pub metadata: MetadataRecord,
    pub edition: EditionMarker,
}

/// A delegated invocation into the token program or the metadata registry, with the
/// derivation proof that signs it for a program-owned authority.
#[derive(Debug)]
pub enum Invocation {
    /// Token program: mint `amount` units of `mint` into the associated account of `to`.
    MintTo { mint: Address, to: Address, authority: Address, amount: u64, signer: Option<DerivationProof> },
    /// Token program: burn `amount` units of `mint` from the associated account of `from`.
    Burn { mint: Address, from: Address, authority: Address, amount: u64 },
    /// Token program: replace the mint authority of `mint`.
    SetMintAuthority {
        mint: Address,
        current_authority: Address,
        new_authority: Option<Address>,
        signer: Option<DerivationProof>,
    },
    /// Registry: create the metadata record of `mint`.
    CreateMetadata {
        metadata: Address,
        mint: Address,
        mint_authority: Address,
        update_authority: Address,
        payer: Address,
        name: String,
        symbol: String,
        uri: String,
        seller_fee_basis_points: u16,
        creator: Option<Creator>,
        collection_size: Option<u64>,
        signer: Option<DerivationProof>,
    },
    /// Registry: create the edition marker of `mint`.
    CreateMasterEdition {
        edition: Address,
        mint: Address,
        metadata: Address,
        authority: Address,
        payer: Address,
        max_supply: Option<u64>,
        signer: Option<DerivationProof>,
    },
    /// Registry: the creator signs their entry of a metadata record.
    SignMetadata { creator_address: Address, metadata: Address },
    /// Registry: certify an item as a member of a sized collection.
    VerifySizedCollectionItem {
        metadata: Address,
        collection_mint: Address,
        collection_metadata: Address,
        collection_edition: Address,
        authority: Address,
        payer: Address,
        signer: Option<DerivationProof>,
    },
}

/// The records that the program drives on the ledger, and the delegated invocations made
/// so far, in order.
#[derive(Debug)]
pub struct Ledger {
    pub program_id: Address,
    pub registry: Address,
    pub config: Option<Config>,
    pub token: Option<FungibleMint>,
    pub token_metadata: Option<MetadataRecord>,
    pub holdings: Vec<Holding>,
    pub collection: Option<CollectionMint>,
    pub items: Vec<NftItem>,
    pub invocations: Vec<Invocation>,
}

/// Accounts of `initialize`: the signer who becomes administrator.
#[derive(Clone, Copy, Debug)]
pub struct Initialize {
    pub admin: Address,
}

/// Accounts of `create_collection`: the signer who pays and receives the collection unit.
#[derive(Clone, Copy, Debug)]
pub struct CreateCollection {
    pub admin: Address,
}

/// Accounts of `mint_nft`: the signer who receives the item, and the item's fresh mint.
#[derive(Clone, Copy, Debug)]
pub struct MintNft {
    pub user: Address,
    pub mint: Address,
}

/// Accounts of `create_token`: the signer, who must be the administrator.
#[derive(Clone, Copy, Debug)]
pub struct CreateToken {
    pub admin: Address,
}

/// Accounts of `mint_token`: the signer, who must be the administrator, and the recipient wallet.
#[derive(Clone, Copy, Debug)]
pub struct MintToken {
    pub admin: Address,
    pub to: Address,
}

/// Accounts of `revoke_mint_authority`: the signer, who must be the administrator.
#[derive(Clone, Copy, Debug)]
pub struct RevokeMintAuthority {
    pub admin: Address,
}

/// Accounts of `burn_token`: the holder who burns from their own balance.
#[derive(Clone, Copy, Debug)]
pub struct BurnToken {
    pub owner: Address,
}

/// Emitted by `mint_token`.
#[derive(Clone, Copy, Debug, PartialEq, Eq)]
pub struct MintTokenEvent {
    pub mint: Address,
    pub token_account_to: Address,
    pub amount: u64,
}

/// Emitted by `burn_token`.
#[derive(Clone, Copy, Debug, PartialEq, Eq)]
pub struct BurnTokenEvent {
    pub mint: Address,
    pub token_account: Address,
    pub amount: u64,
}

/// No two holdings belong to the same wallet.
pub open spec fn owners_unique(h: Seq<Holding>) -> bool {
    forall|i: int, j: int|
        0 <= i < h.len() && 0 <= j < h.len() && i != j ==> h[i].owner@ != h[j].owner@
}

/// The units held over all wallets.
pub open spec fn total(h: Seq<Holding>) -> nat
    decreases h.len(),
{
    if h.len() == 0 {
        0
    } else {
        total(h.drop_last()) + h.last().amount as nat
    }
}

/// Whether a wallet has a balance record (its associated token account) at all.
pub open spec fn has_holding(h: Seq<Holding>, owner: Seq<u8>) -> bool {
    exists|i: int| 0 <= i < h.len() && h[i].owner@ == owner
}

/// The fungible balance of a wallet: its holding's amount, or zero without one.
pub open spec fn balance_of(h: Seq<Holding>, owner: Seq<u8>) -> nat {
    if exists|i: int| 0 <= i < h.len() && h[i].owner@ == owner {
        h[choose|i: int| 0 <= i < h.len() && h[i].owner@ == owner].amount as nat
    } else {
        0
    }
}

/// The registry stores the name, symbol and URI only within its length limits.
pub open spec fn fields_fit(name: Seq<char>, symbol: Seq<char>, uri: Seq<char>) -> bool {
    name.len() <= MAX_NAME_LENGTH && symbol.len() <= MAX_SYMBOL_LENGTH && uri.len() <= MAX_URI_LENGTH
}

/// The mint authority was revoked: no unit can be minted any more.
pub open spec fn authority_revoked(l: Ledger) -> bool {
    l.token is Some && l.token->0.mint_authority is None
}

pub open spec fn is_admin(l: Ledger, caller: Address) -> bool {
    l.config is Some && l.config->0.admin@ == caller@
}

/// Why `initialize` fails, if it does.
pub open spec fn initialize_error(l: Ledger) -> Option<ProgramError> {
    if l.config is Some {
        Some(ProgramError::AlreadyInitialized)
    } else if derivation(seq![init_seed()], l.program_id@) is Err {
        Some(ProgramError::NoValidDerivation)
    } else {
        None
    }
}

/// Why `create_token` fails, if it does.
pub open spec fn create_token_error(l: Ledger, ctx: CreateToken, name: Seq<char>, symbol: Seq<char>, uri: Seq<char>) -> Option<ProgramError> {
    if l.config is None {
        Some(ProgramError::NotInitialized)
    } else if !is_admin(l, ctx.admin) {
        Some(ProgramError::Unauthorized)
    } else if l.token is Some {
        Some(ProgramError::AlreadyInitialized)
    } else {
        match derivation(seq![token_seed()], l.program_id@) {
            Err(e) => Some(e),
            Ok((mint, _)) => if derivation(metadata_seeds(l.registry@, mint), l.registry@) is Err {
                Some(ProgramError::NoValidDerivation)
            } else if !fields_fit(name, symbol, uri) {
                Some(ProgramError::RegistryRejected)
            } else {
                None
            },
        }
    }
}

/// Why `mint_token` fails, if it does.
pub open spec fn mint_token_error(l: Ledger, ctx: MintToken, amount: u64) -> Option<ProgramError> {
    if l.config is None {
        Some(ProgramError::NotInitialized)
    } else if !is_admin(l, ctx.admin) {
        Some(ProgramError::Unauthorized)
    } else if l.token is None {
        Some(ProgramError::TokenNotCreated)
    } else if l.token->0.mint_authority is None {
        Some(ProgramError::AuthorityRevoked)
    } else if l.token->0.supply + amount > u64::MAX {
        Some(ProgramError::Overflow)
    } else if derivation(associated_seeds(ctx.to@, l.token->0.address@), associated_token_program_id()) is Err {
        Some(ProgramError::NoValidDerivation)
    } else {
        None
    }
}

/// Why `revoke_mint_authority` fails, if it does.
pub open spec fn revoke_error(l: Ledger, ctx: RevokeMintAuthority) -> Option<ProgramError> {
    if l.config is None {
        Some(ProgramError::NotInitialized)
    } else if !is_admin(l, ctx.admin) {
        Some(ProgramError::Unauthorized)
    } else if l.token is None {
        Some(ProgramError::TokenNotCreated)
    } else if l.token->0.mint_authority is None {
        Some(ProgramError::AuthorityRevoked)
    } else {
        None
    }
}

/// Why `burn_token` fails, if it does.
pub open spec fn burn_error(l: Ledger, ctx: BurnToken, amount: u64) -> Option<ProgramError> {
    if l.token is None {
        Some(ProgramError::TokenNotCreated)
    } else if derivation(associated_seeds(ctx.owner@, l.token->0.address@), associated_token_program_id()) is Err {
        Some(ProgramError::NoValidDerivation)
    } else if !has_holding(l.holdings@, ctx.owner@) || amount > balance_of(l.holdings@, ctx.owner@) {
        Some(ProgramError::InsufficientBalance)
    } else {
        None
    }
}

impl Ledger {
    /// Holdings are keyed by wallet.
    pub open spec fn wf(&self) -> bool {
        &&& owners_unique(self.holdings@)
        &&& self.token is None ==> self.holdings@.len() == 0
        &&& self.token is Some ==> total(self.holdings@) == self.token->0.supply
        &&& self.config is Some ==> derivation(seq![init_seed()], self.program_id@) == Ok::<(Seq<u8>, u8), ProgramError>(
            (self.config->0.address@, self.config->0.bump),
        )
        &&& self.token is Some ==> derivation(seq![token_seed()], self.program_id@) == Ok::<(Seq<u8>, u8), ProgramError>(
            (self.token->0.address@, self.token->0.bump),
        )
        &&& self.collection is Some ==> derivation(seq![collection_seed()], self.program_id@) == Ok::<
            (Seq<u8>, u8),
            ProgramError,
        >((self.collection->0.address@, self.collection->0.bump))
    }

    /// An empty ledger for the program at `program_id`, driving the metadata registry.
    pub fn new(program_id: Address) -> (r: Ledger)
        ensures
            r.wf(),
            r.program_id == program_id,
            r.config is None,
            r.token is None,
            r.token_metadata is None,
            r.holdings@.len() == 0,
            r.collection is None,
            r.items@.len() == 0,
            r.invocations@.len() == 0,
            r.registry@ == registry_program_id(),
    {
        Ledger {
            program_id,
            registry: registry_program_address(),
            config: None,
            token: None,
            token_metadata: None,
            holdings: Vec::new(),
            collection: None,
            items: Vec::new(),
            invocations: Vec::new(),
        }
    }

    /// The fungible balance of `owner`.
    pub fn balance(&self, owner: &Address) -> (r: u64)
        requires
            self.wf(),
        ensures
            r as nat == balance_of(self.holdings@, owner@),
    {
        match find_holding(&self.holdings, owner) {
            Some(i) => {
                proof {
                    lemma_balance_at(self.holdings@, i as int);
                }
                self.holdings[i].amount
            },
            None => {
                proof {
                    lemma_balance_absent(self.holdings@, owner@);
                }
                0
            },
        }
    }
}

proof fn lemma_balance_at(h: Seq<Holding>, i: int)
    requires
        owners_unique(h),
        0 <= i < h.len(),
    ensures
        balance_of(h, h[i].owner@) == h[i].amount as nat,
{
    let o = h[i].owner@;
    assert(exists|k: int| 0 <= k < h.len() && h[k].owner@ == o);
    let k = choose|k: int| 0 <= k < h.len() && h[k].owner@ == o;
    assert(k == i);
}

proof fn lemma_balance_absent(h: Seq<Holding>, o: Seq<u8>)
    requires
        forall|k: int| 0 <= k < h.len() ==> h[k].owner@ != o,
    ensures
        balance_of(h, o) == 0,
{
}

/// Changes one wallet's holding; every other balance stays.
proof fn lemma_balance_update(h: Seq<Holding>, i: int, v: Holding)
    requires
        owners_unique(h),
        0 <= i < h.len(),
        v.owner@ == h[i].owner@,
    ensures
        owners_unique(h.update(i, v)),
        balance_of(h.update(i, v), v.owner@) == v.amount as nat,
        forall|o: Seq<u8>| o != v.owner@ ==> balance_of(h.update(i, v), o) == balance_of(h, o),
{
    let h2 = h.update(i, v);
    assert(owners_unique(h2));
    lemma_balance_at(h2, i);
    assert forall|o: Seq<u8>| o != v.owner@ implies balance_of(h2, o) == balance_of(h, o) by {
        if exists|k: int| 0 <= k < h.len() && h[k].owner@ == o {
            let k = choose|k: int| 0 <= k < h.len() && h[k].owner@ == o;
            lemma_balance_at(h, k);
            lemma_balance_at(h2, k);
        } else {
            lemma_balance_absent(h2, o);
        }
    }
}

/// Adds a holding for a wallet that had none; every other balance stays.
proof fn lemma_balance_push(h: Seq<Holding>, v: Holding)
    requires
        owners_unique(h),
        forall|k: int| 0 <= k < h.len() ==> h[k].owner@ != v.owner@,
    ensures
        owners_unique(h.push(v)),
        balance_of(h.push(v), v.owner@) == v.amount as nat,
        forall|o: Seq<u8>| o != v.owner@ ==> balance_of(h.push(v), o) == balance_of(h, o),
{
    let h2 = h.push(v);
    assert(owners_unique(h2));
    lemma_balance_at(h2, h.len() as int);
    assert forall|o: Seq<u8>| o != v.owner@ implies balance_of(h2, o) == balance_of(h, o) by {
        if exists|k: int| 0 <= k < h.len() && h[k].owner@ == o {
            let k = choose|k: int| 0 <= k < h.len() && h[k].owner@ == o;
            lemma_balance_at(h, k);
            lemma_balance_at(h2, k);
        } else {
            lemma_balance_absent(h, o);
            lemma_balance_absent(h2, o);
        }
    }
}

proof fn lemma_total_update(h: Seq<Holding>, i: int, v: Holding)
    requires
        0 <= i < h.len(),
    ensures
        total(h.update(i, v)) == total(h) - h[i].amount + v.amount,
    decreases h.len(),
{
    if i == h.len() - 1 {
        assert(h.update(i, v).drop_last() =~= h.drop_last());
    } else {
        lemma_total_update(h.drop_last(), i, v);
        assert(h.update(i, v).drop_last() =~= h.drop_last().update(i, v));
    }
}

proof fn lemma_total_push(h: Seq<Holding>, v: Holding)
    ensures
        total(h.push(v)) == total(h) + v.amount,
{
    assert(h.push(v).drop_last() =~= h);
}

proof fn lemma_amount_within_total(h: Seq<Holding>, i: int)
    requires
        0 <= i < h.len(),
    ensures
        h[i].amount <= total(h),
    decreases h.len(),
{
    if i < h.len() - 1 {
        lemma_amount_within_total(h.drop_last(), i);
    }
}

fn find_holding(h: &Vec<Holding>, owner: &Address) -> (r: Option<usize>)
    ensures
        match r {
            Some(i) => i < h@.len() && h@[i as int].owner@ == owner@,
            None => forall|k: int| 0 <= k < h@.len() ==> h@[k].owner@ != owner@,
        },
{
    let mut i: usize = 0;
    while i < h.len()
        invariant
            0 <= i <= h@.len(),
            forall|k: int| 0 <= k < i ==> h@[k].owner@ != owner@,
        decreases h@.len() - i,
    {
        if same_address(&h[i].owner, owner) {
            return Some(i);
        }
        i = i + 1;
    }
    None
}

fn fields_fit_exec(name: &String, symbol: &String, uri: &String) -> (r: bool)
    ensures
        r == fields_fit(name@, symbol@, uri@),
{
    name.as_str().unicode_len() <= max_name_length() && symbol.as_str().unicode_len()
        <= max_symbol_length() && uri.as_str().unicode_len() <= max_uri_length()
}

fn admin_check(l: &Ledger, caller: &Address) -> (r: Result<(), ProgramError>)
    ensures
        l.config is None ==> r == Err::<(), ProgramError>(ProgramError::NotInitialized),
        l.config is Some ==> (r is Ok <==> is_admin(*l, *caller)),
        l.config is Some && r is Err ==> r == Err::<(), ProgramError>(ProgramError::Unauthorized),
{
    match &l.config {
        None => Err(ProgramError::NotInitialized),
        Some(c) => if same_address(&c.admin, caller) {
            Ok(())
        } else {
            Err(ProgramError::Unauthorized)
        },
    }
}


/// The registry marks as verified each creator entry of `signer`.
fn sign_metadata(record: &mut MetadataRecord, signer: &Address)
    ensures
        final(record).address == old(record).address,
        final(record).mint == old(record).mint,
        final(record).update_authority == old(record).update_authority,
        final(record).seller_fee_basis_points == old(record).seller_fee_basis_points,
        final(record).name == old(record).name,
        final(record).symbol == old(record).symbol,
        final(record).uri == old(record).uri,
        final(record).collection == old(record).collection,
        final(record).collection_size == old(record).collection_size,
        final(record).creators@.len() == old(record).creators@.len(),
        forall|k: int|
            0 <= k < old(record).creators@.len() ==> final(record).creators@[k] == (Creator {
                address: old(record).creators@[k].address,
                verified: old(record).creators@[k].verified || old(record).creators@[k].address@
                    == signer@,
                share: old(record).creators@[k].share,
            }),
{
    let ghost start = record.creators@;
    let mut i: usize = 0;
    while i < record.creators.len()
        invariant
            0 <= i <= start.len(),
            record.creators@.len() == start.len(),
            record.address == old(record).address,
            record.mint == old(record).mint,
            record.update_authority == old(record).update_authority,
            record.seller_fee_basis_points == old(record).seller_fee_basis_points,
            record.name == old(record).name,
            record.symbol == old(record).symbol,
            record.uri == old(record).uri,
            record.collection == old(record).collection,
            record.collection_size == old(record).collection_size,
            start == old(record).creators@,
            forall|k: int|
                0 <= k < i ==> record.creators@[k] == (Creator {
                    address: start[k].address,
                    verified: start[k].verified || start[k].address@ == signer@,
                    share: start[k].share,
                }),
            forall|k: int| i <= k < start.len() ==> record.creators@[k] == start[k],
        decreases start.len() - i,
    {
        let c = record.creators[i];
        if same_address(&c.address, signer) {
            record.creators.set(i, Creator { address: c.address, verified: true, share: c.share });
        }
        i = i + 1;
    }
}

/// Creates the configuration singleton, fixing the administrator and the vault.
pub fn initialize(ledger: &mut Ledger, ctx: &Initialize, vault: Address) -> (r: Result<(), ProgramError>)
    requires
        old(ledger).wf(),
    ensures
        final(ledger).wf(),
        match initialize_error(*old(ledger)) {
            Some(e) => r == Err::<(), ProgramError>(e) && *final(ledger) == *old(ledger),
            None => {
                &&& r is Ok
                &&& final(ledger).config is Some
                &&& final(ledger).config->0.address@ == derivation(seq![init_seed()], old(ledger).program_id@)->Ok_0.0
                &&& final(ledger).config->0.bump == derivation(seq![init_seed()], old(ledger).program_id@)->Ok_0.1
                &&& final(ledger).config->0.admin == ctx.admin
                &&& final(ledger).config->0.vault == vault
                &&& final(ledger).invocations == old(ledger).invocations
                &&& final(ledger).program_id == old(ledger).program_id
                &&& final(ledger).registry == old(ledger).registry
                &&& final(ledger).token == old(ledger).token
                &&& final(ledger).token_metadata == old(ledger).token_metadata
                &&& final(ledger).holdings == old(ledger).holdings
                &&& final(ledger).collection == old(ledger).collection
                &&& final(ledger).items == old(ledger).items
            },
        },
{
    if ledger.config.is_some() {
        return Err(ProgramError::AlreadyInitialized);
    }
    let seeds = single_seed(namespace_bytes(Namespace::Init));
    let d = match crate::derivation::derive(&seeds, &ledger.program_id) {
        Ok(d) => d,
        Err(e) => return Err(e),
    };
    ledger.config = Some(Config { address: d.address, bump: d.bump, admin: ctx.admin, vault });
    Ok(())
}

/// The state after a successful `create_token`.
pub open spec fn token_created(
    before: Ledger,
    after: Ledger,
    ctx: CreateToken,
    decimals: u8,
    name: Seq<char>,
    symbol: Seq<char>,
    uri: Seq<char>,
) -> bool {
    let found = derivation(seq![token_seed()], before.program_id@)->Ok_0;
    let record = derivation(metadata_seeds(before.registry@, found.0), before.registry@)->Ok_0;
    &&& after.token is Some
    &&& after.token->0.address@ == found.0
    &&& after.token->0.bump == found.1
    &&& after.token->0.decimals == decimals
    &&& after.token->0.mint_authority == Some(after.token->0.address)
    &&& after.token->0.freeze_authority == Some(after.token->0.address)
    &&& after.token->0.supply == 0
    &&& after.token_metadata is Some
    &&& after.token_metadata->0.update_authority == after.token->0.address
    &&& after.token_metadata->0.seller_fee_basis_points == 0
    &&& after.token_metadata->0.address@ == record.0
    &&& after.token_metadata->0.mint == after.token->0.address
    &&& after.token_metadata->0.name@ == name
    &&& after.token_metadata->0.symbol@ == symbol
    &&& after.token_metadata->0.uri@ == uri
    &&& after.token_metadata->0.creators@ == seq![Creator { address: ctx.admin, verified: true, share: 100 }]
    &&& after.token_metadata->0.collection is None
    &&& after.token_metadata->0.collection_size is None
    &&& after.program_id == before.program_id
    &&& after.registry == before.registry
    &&& after.config == before.config
    &&& after.holdings == before.holdings
    &&& after.collection == before.collection
    &&& after.items == before.items
}

/// Creates the fungible mint singleton with its metadata, the administrator as its one
/// creator, signed by them.
pub fn create_token(
    ledger: &mut Ledger,
    ctx: &CreateToken,
    decimals: u8,
    name: String,
    symbol: String,
    uri: String,
) -> (r: Result<(), ProgramError>)
    requires
        old(ledger).wf(),
    ensures
        final(ledger).wf(),
        match create_token_error(*old(ledger), *ctx, name@, symbol@, uri@) {
            Some(e) => r == Err::<(), ProgramError>(e) && *final(ledger) == *old(ledger),
            None => {
                &&& r is Ok
                &&& token_created(*old(ledger), *final(ledger), *ctx, decimals, name@, symbol@, uri@)
                &&& final(ledger).invocations@ == old(ledger).invocations@ + seq![
                    Invocation::CreateMetadata {
                        metadata: final(ledger).token_metadata->0.address,
                        mint: final(ledger).token->0.address,
                        mint_authority: final(ledger).token->0.address,
                        update_authority: final(ledger).token->0.address,
                        payer: ctx.admin,
                        name: name,
                        symbol: symbol,
                        uri: uri,
                        seller_fee_basis_points: 0,
                        creator: Some(Creator { address: ctx.admin, verified: false, share: 100 }),
                        collection_size: None,
                        signer: Some(DerivationProof { namespace: Namespace::Token, bump: final(ledger).token->0.bump }),
                    },
                    Invocation::SignMetadata {
                        metadata: final(ledger).token_metadata->0.address,
                        creator_address: ctx.admin,
                    },
                ]
            },
        },
{
    match admin_check(ledger, &ctx.admin) {
        Err(e) => return Err(e),
        Ok(()) => {},
    }
    if ledger.token.is_some() {
        return Err(ProgramError::AlreadyInitialized);
    }
    let seeds = single_seed(namespace_bytes(Namespace::Token));
    let mint = match crate::derivation::derive(&seeds, &ledger.program_id) {
        Ok(d) => d,
        Err(e) => return Err(e),
    };
    let record = match find_metadata_account(&ledger.registry, &mint.address) {
        Ok(d) => d,
        Err(e) => return Err(e),
    };
    if !fields_fit_exec(&name, &symbol, &uri) {
        return Err(ProgramError::RegistryRejected);
    }
    let proof = authority_proof(Namespace::Token, &mint);
    let ghost before = ledger.invocations@;
    ledger.invocations.push(
        Invocation::CreateMetadata {
            metadata: record.address,
            mint: mint.address,
            mint_authority: mint.address,
            update_authority: mint.address,
            payer: ctx.admin,
            name: name.clone(),
            symbol: symbol.clone(),
            uri: uri.clone(),
            seller_fee_basis_points: 0,
            creator: Some(Creator { address: ctx.admin, verified: false, share: 100 }),
            collection_size: None,
            signer: Some(proof),
        },
    );
    ledger.invocations.push(Invocation::SignMetadata { metadata: record.address, creator_address: ctx.admin });
    let mut metadata = MetadataRecord {
        address: record.address,
        mint: mint.address,
        update_authority: mint.address,
        seller_fee_basis_points: 0,
        name,
        symbol,
        uri,
        creators: vec![Creator { address: ctx.admin, verified: false, share: 100 }],
        collection: None,
        collection_size: None,
    };
    sign_metadata(&mut metadata, &ctx.admin);
    assert(metadata.creators@ =~= seq![Creator { address: ctx.admin, verified: true, share: 100 }]);
    ledger.token = Some(
        FungibleMint {
            address: mint.address,
            bump: mint.bump,
            decimals,
            mint_authority: Some(mint.address),
            freeze_authority: Some(mint.address),
            supply: 0,
        },
    );
    ledger.token_metadata = Some(metadata);
    assert(ledger.invocations@ =~= before + seq![
        Invocation::CreateMetadata {
            metadata: record.address,
            mint: mint.address,
            mint_authority: mint.address,
            update_authority: mint.address,
            payer: ctx.admin,
            name: name,
            symbol: symbol,
            uri: uri,
            seller_fee_basis_points: 0,
            creator: Some(Creator { address: ctx.admin, verified: false, share: 100 }),
            collection_size: None,
            signer: Some(proof),
        },
        Invocation::SignMetadata { metadata: record.address, creator_address: ctx.admin },
    ]);
    Ok(())
}

/// The records other than the fungible mint and the holdings are the same.
pub open spec fn same_except_token(a: Ledger, b: Ledger) -> bool {
    &&& a.program_id == b.program_id
    &&& a.registry == b.registry
    &&& a.config == b.config
    &&& a.token_metadata == b.token_metadata
    &&& a.collection == b.collection
    &&& a.items == b.items
}

/// Mints `amount` units to the recipient's balance, which is opened when absent, signing
/// as the mint's own derived authority.
pub fn mint_token(ledger: &mut Ledger, ctx: &MintToken, amount: u64) -> (r: Result<MintTokenEvent, ProgramError>)
    requires
        old(ledger).wf(),
    ensures
        final(ledger).wf(),
        match mint_token_error(*old(ledger), *ctx, amount) {
            Some(e) => r == Err::<MintTokenEvent, ProgramError>(e) && *final(ledger) == *old(ledger),
            None => {
                let t = old(ledger).token->0;
                let account = r->Ok_0.token_account_to;
                &&& r is Ok
                &&& r->Ok_0.mint == t.address
                &&& r->Ok_0.amount == amount
                &&& account@ == derivation(associated_seeds(ctx.to@, t.address@), associated_token_program_id())->Ok_0.0
                &&& final(ledger).token == Some(FungibleMint { supply: (t.supply + amount) as u64, ..t })
                &&& balance_of(final(ledger).holdings@, ctx.to@) == balance_of(old(ledger).holdings@, ctx.to@) + amount
                &&& forall|o: Seq<u8>|
                    o != ctx.to@ ==> balance_of(final(ledger).holdings@, o) == balance_of(old(ledger).holdings@, o)
                &&& same_except_token(*old(ledger), *final(ledger))
                &&& final(ledger).invocations@ == old(ledger).invocations@.push(
                    Invocation::MintTo {
                        mint: t.address,
                        to: account,
                        authority: t.address,
                        amount,
                        signer: Some(DerivationProof { namespace: Namespace::Token, bump: t.bump }),
                    },
                )
            },
        },
{
    match admin_check(ledger, &ctx.admin) {
        Err(e) => return Err(e),
        Ok(()) => {},
    }
    let t = match &ledger.token {
        None => return Err(ProgramError::TokenNotCreated),
        Some(t) => *t,
    };
    if t.mint_authority.is_none() {
        return Err(ProgramError::AuthorityRevoked);
    }
    if t.supply > u64::MAX - amount {
        return Err(ProgramError::Overflow);
    }
    let account = match find_associated_token_account(&ctx.to, &t.address) {
        Ok(d) => d,
        Err(e) => return Err(e),
    };
    let ghost h = ledger.holdings@;
    match find_holding(&ledger.holdings, &ctx.to) {
        Some(i) => {
            let cur = ledger.holdings[i];
            proof {
                lemma_balance_at(h, i as int);
                lemma_amount_within_total(h, i as int);
            }
            let next = Holding { owner: cur.owner, amount: cur.amount + amount };
            ledger.holdings.set(i, next);
            proof {
                lemma_balance_update(h, i as int, next);
                lemma_total_update(h, i as int, next);
            }
        },
        None => {
            proof {
                lemma_balance_absent(h, ctx.to@);
            }
            let next = Holding { owner: ctx.to, amount };
            ledger.holdings.push(next);
            proof {
                lemma_balance_push(h, next);
                lemma_total_push(h, next);
            }
        },
    }
    ledger.token = Some(FungibleMint { supply: t.supply + amount, ..t });
    let proof = DerivationProof { namespace: Namespace::Token, bump: t.bump };
    ledger.invocations.push(
        Invocation::MintTo { mint: t.address, to: account.address, authority: t.address, amount, signer: Some(proof) },
    );
    Ok(MintTokenEvent { mint: t.address, token_account_to: account.address, amount })
}

/// Sets the mint authority to none, signing as the mint's own derived authority. This
/// cannot be undone: no unit can be minted afterwards.
pub fn revoke_mint_authority(ledger: &mut Ledger, ctx: &RevokeMintAuthority) -> (r: Result<(), ProgramError>)
    requires
        old(ledger).wf(),
    ensures
        final(ledger).wf(),
        match revoke_error(*old(ledger), *ctx) {
            Some(e) => r == Err::<(), ProgramError>(e) && *final(ledger) == *old(ledger),
            None => {
                let t = old(ledger).token->0;
                &&& r is Ok
                &&& authority_revoked(*final(ledger))
                &&& final(ledger).token == Some(FungibleMint { mint_authority: None, ..t })
                &&& final(ledger).holdings == old(ledger).holdings
                &&& same_except_token(*old(ledger), *final(ledger))
                &&& final(ledger).invocations@ == old(ledger).invocations@.push(
                    Invocation::SetMintAuthority {
                        mint: t.address,
                        current_authority: t.address,
                        new_authority: None,
                        signer: Some(DerivationProof { namespace: Namespace::Token, bump: t.bump }),
                    },
                )
            },
        },
{
    match admin_check(ledger, &ctx.admin) {
        Err(e) => return Err(e),
        Ok(()) => {},
    }
    let t = match &ledger.token {
        None => return Err(ProgramError::TokenNotCreated),
        Some(t) => *t,
    };
    if t.mint_authority.is_none() {
        return Err(ProgramError::AuthorityRevoked);
    }
    ledger.token = Some(FungibleMint { mint_authority: None, ..t });
    let proof = DerivationProof { namespace: Namespace::Token, bump: t.bump };
    ledger.invocations.push(
        Invocation::SetMintAuthority {
            mint: t.address,
            current_authority: t.address,
            new_authority: None,
            signer: Some(proof),
        },
    );
    Ok(())
}

/// Burns `amount` units from the holder's own balance, signed by the holder.
pub fn burn_token(ledger: &mut Ledger, ctx: &BurnToken, amount: u64) -> (r: Result<BurnTokenEvent, ProgramError>)
    requires
        old(ledger).wf(),
    ensures
        final(ledger).wf(),
        match burn_error(*old(ledger), *ctx, amount) {
            Some(e) => r == Err::<BurnTokenEvent, ProgramError>(e) && *final(ledger) == *old(ledger),
            None => {
                let t = old(ledger).token->0;
                let account = r->Ok_0.token_account;
                &&& r is Ok
                &&& r->Ok_0.mint == t.address
                &&& r->Ok_0.amount == amount
                &&& account@ == derivation(associated_seeds(ctx.owner@, t.address@), associated_token_program_id())->Ok_0.0
                &&& final(ledger).token == Some(FungibleMint { supply: (t.supply - amount) as u64, ..t })
                &&& balance_of(final(ledger).holdings@, ctx.owner@) == balance_of(old(ledger).holdings@, ctx.owner@) - amount
                &&& forall|o: Seq<u8>|
                    o != ctx.owner@ ==> balance_of(final(ledger).holdings@, o) == balance_of(old(ledger).holdings@, o)
                &&& same_except_token(*old(ledger), *final(ledger))
                &&& final(ledger).invocations@ == old(ledger).invocations@.push(
                    Invocation::Burn { mint: t.address, from: account, authority: ctx.owner, amount },
                )
            },
        },
{
    let t = match &ledger.token {
        None => return Err(ProgramError::TokenNotCreated),
        Some(t) => *t,
    };
    let account = match find_associated_token_account(&ctx.owner, &t.address) {
        Ok(d) => d,
        Err(e) => return Err(e),
    };
    let ghost h = ledger.holdings@;
    match find_holding(&ledger.holdings, &ctx.owner) {
        Some(i) => {
            let cur = ledger.holdings[i];
            proof {
                lemma_balance_at(h, i as int);
                lemma_amount_within_total(h, i as int);
            }
            if amount > cur.amount {
                return Err(ProgramError::InsufficientBalance);
            }
            let next = Holding { owner: cur.owner, amount: cur.amount - amount };
            ledger.holdings.set(i, next);
            proof {
                lemma_balance_update(h, i as int, next);
                lemma_total_update(h, i as int, next);
            }
        },
        None => {
            proof {
                lemma_balance_absent(h, ctx.owner@);
            }
            return Err(ProgramError::InsufficientBalance);
        },
    }
    ledger.token = Some(FungibleMint { supply: t.supply - amount, ..t });
    ledger.invocations.push(
        Invocation::Burn { mint: t.address, from: account.address, authority: ctx.owner, amount },
    );
    Ok(BurnTokenEvent { mint: t.address, token_account: account.address, amount })
}

/// Why `create_collection` fails, if it does.
pub open spec fn create_collection_error(l: Ledger, admin: Address, name: Seq<char>, symbol: Seq<char>, uri: Seq<char>) -> Option<ProgramError> {
    if l.config is None {
        Some(ProgramError::NotInitialized)
    } else if !is_admin(l, admin) {
        Some(ProgramError::Unauthorized)
    } else if l.collection is Some {
        Some(ProgramError::AlreadyInitialized)
    } else {
        match derivation(seq![collection_seed()], l.program_id@) {
            Err(e) => Some(e),
            Ok((mint, _)) => if derivation(metadata_seeds(l.registry@, mint), l.registry@) is Err
                || derivation(edition_seeds(l.registry@, mint), l.registry@) is Err
                || derivation(associated_seeds(admin@, mint), associated_token_program_id()) is Err {
                Some(ProgramError::NoValidDerivation)
            } else if !fields_fit(name, symbol, uri) {
                Some(ProgramError::RegistryRejected)
            } else {
                None
            },
        }
    }
}

/// The state after a successful `create_collection`.
pub open spec fn collection_created(
    before: Ledger,
    after: Ledger,
    ctx: CreateCollection,
    name: Seq<char>,
    symbol: Seq<char>,
    uri: Seq<char>,
) -> bool {
    let found = derivation(seq![collection_seed()], before.program_id@)->Ok_0;
    let record = derivation(metadata_seeds(before.registry@, found.0), before.registry@)->Ok_0;
    let edition = derivation(edition_seeds(before.registry@, found.0), before.registry@)->Ok_0;
    let c = after.collection->0;
    &&& after.collection is Some
    &&& c.address@ == found.0
    &&& c.bump == found.1
    &&& c.owner == ctx.admin
    &&& c.decimals == 0
    &&& c.supply == 1
    &&& c.owner_account@ == derivation(associated_seeds(ctx.admin@, found.0), associated_token_program_id())->Ok_0.0
    &&& c.metadata.address@ == record.0
    &&& c.metadata.mint == c.address
    &&& c.metadata.update_authority == c.address
    &&& c.metadata.seller_fee_basis_points == 0
    &&& c.metadata.name@ == name
    &&& c.metadata.symbol@ == symbol
    &&& c.metadata.uri@ == uri
    &&& c.metadata.creators@ == seq![Creator { address: ctx.admin, verified: true, share: 100 }]
    &&& c.metadata.collection is None
    &&& c.metadata.collection_size == Some(0u64)
    &&& c.edition.address@ == edition.0
    &&& c.edition.mint == c.address
    &&& c.edition.max_supply == 0
    &&& after.program_id == before.program_id
    &&& after.registry == before.registry
    &&& after.config == before.config
    &&& after.token == before.token
    &&& after.token_metadata == before.token_metadata
    &&& after.holdings == before.holdings
    &&& after.items == before.items
}

/// Creates the collection singleton: one unit minted to the signer, metadata flagged as a
/// sized collection of no members, an edition marker of no further supply, and the
/// signer's creator entry signed.
pub fn create_collection(
    ledger: &mut Ledger,
    ctx: &CreateCollection,
    name: String,
    symbol: String,
    uri: String,
) -> (r: Result<(), ProgramError>)
    requires
        old(ledger).wf(),
    ensures
        final(ledger).wf(),
        match create_collection_error(*old(ledger), ctx.admin, name@, symbol@, uri@) {
            Some(e) => r == Err::<(), ProgramError>(e) && *final(ledger) == *old(ledger),
            None => {
                let c = final(ledger).collection->0;
                let proof = Some(DerivationProof { namespace: Namespace::Collection, bump: c.bump });
                &&& r is Ok
                &&& collection_created(*old(ledger), *final(ledger), *ctx, name@, symbol@, uri@)
                &&& final(ledger).invocations@ == old(ledger).invocations@ + seq![
                    Invocation::MintTo { mint: c.address, to: c.owner_account, authority: c.address, amount: 1, signer: proof },
                    Invocation::CreateMetadata {
                        metadata: c.metadata.address,
                        mint: c.address,
                        mint_authority: c.address,
                        update_authority: c.address,
                        payer: ctx.admin,
                        name: name,
                        symbol: symbol,
                        uri: uri,
                        seller_fee_basis_points: 0,
                        creator: Some(Creator { address: ctx.admin, verified: false, share: 100 }),
                        collection_size: Some(0u64),
                        signer: proof,
                    },
                    Invocation::CreateMasterEdition {
                        edition: c.edition.address,
                        mint: c.address,
                        metadata: c.metadata.address,
                        authority: c.address,
                        payer: ctx.admin,
                        max_supply: Some(0u64),
                        signer: proof,
                    },
                    Invocation::SignMetadata { metadata: c.metadata.address, creator_address: ctx.admin },
                ]
            },
        },
{
    match admin_check(ledger, &ctx.admin) {
        Err(e) => return Err(e),
        Ok(()) => {},
    }
    if ledger.collection.is_some() {
        return Err(ProgramError::AlreadyInitialized);
    }
    let seeds = single_seed(namespace_bytes(Namespace::Collection));
    let mint = match crate::derivation::derive(&seeds, &ledger.program_id) {
        Ok(d) => d,
        Err(e) => return Err(e),
    };
    let record = match find_metadata_account(&ledger.registry, &mint.address) {
        Ok(d) => d,
        Err(e) => return Err(e),
    };
    let edition = match find_master_edition_account(&ledger.registry, &mint.address) {
        Ok(d) => d,
        Err(e) => return Err(e),
    };
    let holder = match find_associated_token_account(&ctx.admin, &mint.address) {
        Ok(d) => d,
        Err(e) => return Err(e),
    };
    if !fields_fit_exec(&name, &symbol, &uri) {
        return Err(ProgramError::RegistryRejected);
    }
    let proof = Some(authority_proof(Namespace::Collection, &mint));
    let ghost before = ledger.invocations@;
    ledger.invocations.push(
        Invocation::MintTo { mint: mint.address, to: holder.address, authority: mint.address, amount: 1, signer: proof },
    );
    ledger.invocations.push(
        Invocation::CreateMetadata {
            metadata: record.address,
            mint: mint.address,
            mint_authority: mint.address,
            update_authority: mint.address,
            payer: ctx.admin,
            name: name.clone(),
            symbol: symbol.clone(),
            uri: uri.clone(),
            seller_fee_basis_points: 0,
            creator: Some(Creator { address: ctx.admin, verified: false, share: 100 }),
            collection_size: Some(0),
            signer: proof,
        },
    );
    ledger.invocations.push(
        Invocation::CreateMasterEdition {
            edition: edition.address,
            mint: mint.address,
            metadata: record.address,
            authority: mint.address,
            payer: ctx.admin,
            max_supply: Some(0),
            signer: proof,
        },
    );
    ledger.invocations.push(Invocation::SignMetadata { metadata: record.address, creator_address: ctx.admin });
    assert(ledger.invocations@ =~= before + seq![
        Invocation::MintTo { mint: mint.address, to: holder.address, authority: mint.address, amount: 1, signer: proof },
        Invocation::CreateMetadata {
            metadata: record.address,
            mint: mint.address,
            mint_authority: mint.address,
            update_authority: mint.address,
            payer: ctx.admin,
            name: name,
            symbol: symbol,
            uri: uri,
            seller_fee_basis_points: 0,
            creator: Some(Creator { address: ctx.admin, verified: false, share: 100 }),
            collection_size: Some(0u64),
            signer: proof,
        },
        Invocation::CreateMasterEdition {
            edition: edition.address,
            mint: mint.address,
            metadata: record.address,
            authority: mint.address,
            payer: ctx.admin,
            max_supply: Some(0u64),
            signer: proof,
        },
        Invocation::SignMetadata { metadata: record.address, creator_address: ctx.admin },
    ]);
    let mut metadata = MetadataRecord {
        address: record.address,
        mint: mint.address,
        update_authority: mint.address,
        seller_fee_basis_points: 0,
        name,
        symbol,
        uri,
        creators: vec![Creator { address: ctx.admin, verified: false, share: 100 }],
        collection: None,
        collection_size: Some(0),
    };
    sign_metadata(&mut metadata, &ctx.admin);
    assert(metadata.creators@ =~= seq![Creator { address: ctx.admin, verified: true, share: 100 }]);
    ledger.collection = Some(
        CollectionMint {
            address: mint.address,
            bump: mint.bump,
            decimals: 0,
            supply: 1,
            owner: ctx.admin,
            owner_account: holder.address,
            metadata,
            edition: EditionMarker { address: edition.address, mint: mint.address, max_supply: 0 },
        },
    );
    Ok(())
}

/// Whether an address is already the mint of the token, the collection or an item.
pub open spec fn mint_in_use(l: Ledger, mint: Seq<u8>) -> bool {
    ||| l.token is Some && l.token->0.address@ == mint
    ||| l.collection is Some && l.collection->0.address@ == mint
    ||| exists|k: int| 0 <= k < l.items@.len() && l.items@[k].mint@ == mint
}

/// Why `mint_nft` fails, if it does.
pub open spec fn mint_nft_error(l: Ledger, ctx: MintNft, name: Seq<char>, symbol: Seq<char>, uri: Seq<char>) -> Option<ProgramError> {
    if l.collection is None {
        Some(ProgramError::CollectionNotCreated)
    } else if mint_in_use(l, ctx.mint@) {
        Some(ProgramError::AlreadyInitialized)
    } else if derivation(metadata_seeds(l.registry@, ctx.mint@), l.registry@) is Err
        || derivation(edition_seeds(l.registry@, ctx.mint@), l.registry@) is Err
        || derivation(associated_seeds(ctx.user@, ctx.mint@), associated_token_program_id()) is Err {
        Some(ProgramError::NoValidDerivation)
    } else if !fields_fit(name, symbol, uri) {
        Some(ProgramError::RegistryRejected)
    } else if l.collection->0.metadata.collection_size is None
        || l.collection->0.metadata.collection_size->0 == u64::MAX {
        Some(ProgramError::RegistryRejected)
    } else {
        None
    }
}

/// The state after a successful `mint_nft`.
pub open spec fn nft_minted(
    before: Ledger,
    after: Ledger,
    ctx: MintNft,
    name: Seq<char>,
    symbol: Seq<char>,
    uri: Seq<char>,
) -> bool {
    let record = derivation(metadata_seeds(before.registry@, ctx.mint@), before.registry@)->Ok_0;
    let edition = derivation(edition_seeds(before.registry@, ctx.mint@), before.registry@)->Ok_0;
    let c0 = before.collection->0;
    let c = after.collection->0;
    let n = before.items@.len();
    let it = after.items@[n as int];
    &&& after.items@.len() == n + 1
    &&& forall|k: int| 0 <= k < n ==> after.items@[k] == before.items@[k]
    &&& it.mint == ctx.mint
    &&& it.owner == ctx.user
    &&& it.decimals == 0
    &&& it.supply == 1
    &&& it.owner_account@ == derivation(associated_seeds(ctx.user@, ctx.mint@), associated_token_program_id())->Ok_0.0
    &&& it.metadata.address@ == record.0
    &&& it.metadata.mint == ctx.mint
    &&& it.metadata.update_authority == c0.address
    &&& it.metadata.seller_fee_basis_points == 0
    &&& it.metadata.name@ == name
    &&& it.metadata.symbol@ == symbol
    &&& it.metadata.uri@ == uri
    &&& it.metadata.creators@.len() == 0
    &&& it.metadata.collection == Some(CollectionRef { key: c0.address, verified: true })
    &&& it.metadata.collection_size is None
    &&& it.edition.address@ == edition.0
    &&& it.edition.mint == ctx.mint
    &&& it.edition.max_supply == 0
    &&& after.collection is Some
    &&& c.address == c0.address
    &&& c.bump == c0.bump
    &&& c.decimals == c0.decimals
    &&& c.supply == c0.supply
    &&& c.owner == c0.owner
    &&& c.edition == c0.edition
    &&& c.metadata.address == c0.metadata.address
    &&& c.metadata.mint == c0.metadata.mint
    &&& c.metadata.name == c0.metadata.name
    &&& c.metadata.symbol == c0.metadata.symbol
    &&& c.metadata.uri == c0.metadata.uri
    &&& c.metadata.creators == c0.metadata.creators
    &&& c.metadata.collection == c0.metadata.collection
    &&& c.metadata.collection_size == Some((c0.metadata.collection_size->0 + 1) as u64)
    &&& after.program_id == before.program_id
    &&& after.registry == before.registry
    &&& after.config == before.config
    &&& after.token == before.token
    &&& after.token_metadata == before.token_metadata
    &&& after.holdings == before.holdings
}

fn mint_in_use_exec(l: &Ledger, mint: &Address) -> (r: bool)
    ensures
        r == mint_in_use(*l, mint@),
{
    if let Some(t) = &l.token {
        if same_address(&t.address, mint) {
            return true;
        }
    }
    if let Some(c) = &l.collection {
        if same_address(&c.address, mint) {
            return true;
        }
    }
    let mut i: usize = 0;
    while i < l.items.len()
        invariant
            0 <= i <= l.items@.len(),
            forall|k: int| 0 <= k < i ==> l.items@[k].mint@ != mint@,
        decreases l.items@.len() - i,
    {
        if same_address(&l.items[i].mint, mint) {
            return true;
        }
        i = i + 1;
    }
    false
}

/// Mints a 1-of-1 item to the signer, attaches its metadata and edition marker, and
/// certifies it as a member of the collection with the collection's own authority. All
/// steps happen or none does.
pub fn mint_nft(
    ledger: &mut Ledger,
    ctx: &MintNft,
    name: String,
    symbol: String,
    uri: String,
) -> (r: Result<(), ProgramError>)
    requires
        old(ledger).wf(),
    ensures
        final(ledger).wf(),
        match mint_nft_error(*old(ledger), *ctx, name@, symbol@, uri@) {
            Some(e) => r == Err::<(), ProgramError>(e) && *final(ledger) == *old(ledger),
            None => {
                let c = old(ledger).collection->0;
                let it = final(ledger).items@[old(ledger).items@.len() as int];
                let proof = Some(DerivationProof { namespace: Namespace::Collection, bump: c.bump });
                &&& r is Ok
                &&& nft_minted(*old(ledger), *final(ledger), *ctx, name@, symbol@, uri@)
                &&& final(ledger).invocations@ == old(ledger).invocations@ + seq![
                    Invocation::MintTo { mint: ctx.mint, to: it.owner_account, authority: c.address, amount: 1, signer: proof },
                    Invocation::CreateMetadata {
                        metadata: it.metadata.address,
                        mint: ctx.mint,
                        mint_authority: c.address,
                        update_authority: c.address,
                        payer: ctx.user,
                        name: name,
                        symbol: symbol,
                        uri: uri,
                        seller_fee_basis_points: 0,
                        creator: None,
                        collection_size: None,
                        signer: proof,
                    },
                    Invocation::CreateMasterEdition {
                        edition: it.edition.address,
                        mint: ctx.mint,
                        metadata: it.metadata.address,
                        authority: c.address,
                        payer: ctx.user,
                        max_supply: Some(0u64),
                        signer: proof,
                    },
                    Invocation::VerifySizedCollectionItem {
                        metadata: it.metadata.address,
                        collection_mint: c.address,
                        collection_metadata: c.metadata.address,
                        collection_edition: c.edition.address,
                        authority: c.address,
                        payer: ctx.user,
                        signer: proof,
                    },
                ]
            },
        },
{
    let (collection_address, collection_bump, collection_metadata, collection_edition, size) =
        match &ledger.collection {
        None => return Err(ProgramError::CollectionNotCreated),
        Some(c) => (c.address, c.bump, c.metadata.address, c.edition.address, c.metadata.collection_size),
    };
    if mint_in_use_exec(ledger, &ctx.mint) {
        return Err(ProgramError::AlreadyInitialized);
    }
    let record = match find_metadata_account(&ledger.registry, &ctx.mint) {
        Ok(d) => d,
        Err(e) => return Err(e),
    };
    let edition = match find_master_edition_account(&ledger.registry, &ctx.mint) {
        Ok(d) => d,
        Err(e) => return Err(e),
    };
    let holder = match find_associated_token_account(&ctx.user, &ctx.mint) {
        Ok(d) => d,
        Err(e) => return Err(e),
    };
    if !fields_fit_exec(&name, &symbol, &uri) {
        return Err(ProgramError::RegistryRejected);
    }
    let members = match size {
        None => return Err(ProgramError::RegistryRejected),
        Some(n) => {
            if n == u64::MAX {
                return Err(ProgramError::RegistryRejected);
            }
            n + 1
        },
    };
    let proof = Some(DerivationProof { namespace: Namespace::Collection, bump: collection_bump });
    let ghost before = ledger.invocations@;
    ledger.invocations.push(
        Invocation::MintTo { mint: ctx.mint, to: holder.address, authority: collection_address, amount: 1, signer: proof },
    );
    ledger.invocations.push(
        Invocation::CreateMetadata {
            metadata: record.address,
            mint: ctx.mint,
            mint_authority: collection_address,
            update_authority: collection_address,
            payer: ctx.user,
            name: name.clone(),
            symbol: symbol.clone(),
            uri: uri.clone(),
            seller_fee_basis_points: 0,
            creator: None,
            collection_size: None,
            signer: proof,
        },
    );
    ledger.invocations.push(
        Invocation::CreateMasterEdition {
            edition: edition.address,
            mint: ctx.mint,
            metadata: record.address,
            authority: collection_address,
            payer: ctx.user,
            max_supply: Some(0),
            signer: proof,
        },
    );
    ledger.invocations.push(
        Invocation::VerifySizedCollectionItem {
            metadata: record.address,
            collection_mint: collection_address,
            collection_metadata,
            collection_edition,
            authority: collection_address,
            payer: ctx.user,
            signer: proof,
        },
    );
    assert(ledger.invocations@ =~= before + seq![
        Invocation::MintTo { mint: ctx.mint, to: holder.address, authority: collection_address, amount: 1, signer: proof },
        Invocation::CreateMetadata {
            metadata: record.address,
            mint: ctx.mint,
            mint_authority: collection_address,
            update_authority: collection_address,
            payer: ctx.user,
            name: name,
            symbol: symbol,
            uri: uri,
            seller_fee_basis_points: 0,
            creator: None,
            collection_size: None,
            signer: proof,
        },
        Invocation::CreateMasterEdition {
            edition: edition.address,
            mint: ctx.mint,
            metadata: record.address,
            authority: collection_address,
            payer: ctx.user,
            max_supply: Some(0u64),
            signer: proof,
        },
        Invocation::VerifySizedCollectionItem {
            metadata: record.address,
            collection_mint: collection_address,
            collection_metadata,
            collection_edition,
            authority: collection_address,
            payer: ctx.user,
            signer: proof,
        },
    ]);
    let item = NftItem {
        mint: ctx.mint,
        decimals: 0,
        supply: 1,
        owner: ctx.user,
        owner_account: holder.address,
        metadata: MetadataRecord {
            address: record.address,
            mint: ctx.mint,
            update_authority: collection_address,
            seller_fee_basis_points: 0,
            name,
            symbol,
            uri,
            creators: Vec::new(),
            collection: Some(CollectionRef { key: collection_address, verified: true }),
            collection_size: None,
        },
        edition: EditionMarker { address: edition.address, mint: ctx.mint, max_supply: 0 },
    };
    if let Some(c) = &mut ledger.collection {
        c.metadata.collection_size = Some(members);
    }
    ledger.items.push(item);
    Ok(())
}


/// The fungible mint and the collection are singletons: once created, a second creation
/// fails.
pub proof fn lemma_singletons_created_once(
    before: Ledger,
    after: Ledger,
    token_ctx: CreateToken,
    decimals: u8,
    collection_ctx: CreateCollection,
    name: Seq<char>,
    symbol: Seq<char>,
    uri: Seq<char>,
    name2: Seq<char>,
    symbol2: Seq<char>,
    uri2: Seq<char>,
)
    ensures
        create_token_error(before, token_ctx, name, symbol, uri) is None && token_created(
            before,
            after,
            token_ctx,
            decimals,
            name,
            symbol,
            uri,
        ) ==> create_token_error(
            after,
            token_ctx,
            name2,
            symbol2,
            uri2,
        ) == Some(ProgramError::AlreadyInitialized),
        create_collection_error(before, collection_ctx.admin, name, symbol, uri) is None
            && collection_created(before, after, collection_ctx, name, symbol, uri)
            ==> create_collection_error(
            after,
            collection_ctx.admin,
            name2,
            symbol2,
            uri2,
        ) == Some(ProgramError::AlreadyInitialized),
{
}

/// Minting, revoking and creating the token are refused to anyone but the stored
/// administrator; burning needs only a balance record that covers the amount (once the
/// holder's associated account address exists).
pub proof fn lemma_authority_gating(
    l: Ledger,
    caller: Address,
    to: Address,
    amount: u64,
    decimals: u8,
    name: Seq<char>,
    symbol: Seq<char>,
    uri: Seq<char>,
)
    requires
        l.config is Some,
        !is_admin(l, caller),
    ensures
        mint_token_error(l, MintToken { admin: caller, to }, amount) == Some(ProgramError::Unauthorized),
        revoke_error(l, RevokeMintAuthority { admin: caller }) == Some(ProgramError::Unauthorized),
        create_token_error(l, CreateToken { admin: caller }, name, symbol, uri) == Some(
            ProgramError::Unauthorized,
        ),
        l.token is Some && derivation(associated_seeds(caller@, l.token->0.address@), associated_token_program_id()) is Ok
            ==> (burn_error(l, BurnToken { owner: caller }, amount) is None <==> has_holding(
            l.holdings@,
            caller@,
        ) && amount <= balance_of(l.holdings@, caller@)),
        l.token is Some && derivation(associated_seeds(caller@, l.token->0.address@), associated_token_program_id()) is Ok
            && amount > balance_of(l.holdings@, caller@) ==> burn_error(
            l,
            BurnToken { owner: caller },
            amount,
        ) == Some(ProgramError::InsufficientBalance),
{
}

/// Once the mint authority is revoked, every later mint and every later revocation fails,
/// and no workflow that succeeds brings the authority back.
pub proof fn lemma_revocation_is_final(
    l: Ledger,
    next: Ledger,
    mint_ctx: MintToken,
    amount: u64,
    revoke_ctx: RevokeMintAuthority,
    collection_ctx: CreateCollection,
    nft_ctx: MintNft,
    name: Seq<char>,
    symbol: Seq<char>,
    uri: Seq<char>,
)
    requires
        authority_revoked(l),
    ensures
        mint_token_error(l, mint_ctx, amount) is Some,
        revoke_error(l, revoke_ctx) is Some,
        is_admin(l, mint_ctx.admin) ==> mint_token_error(l, mint_ctx, amount) == Some(
            ProgramError::AuthorityRevoked,
        ),
        next.token is Some && next.token->0.mint_authority == l.token->0.mint_authority ==> authority_revoked(next),
        collection_created(l, next, collection_ctx, name, symbol, uri) ==> authority_revoked(next),
        nft_minted(l, next, nft_ctx, name, symbol, uri) ==> authority_revoked(next),
{
}

/// A collection that cannot certify members (it is not sized) makes every item mint fail,
/// whatever the earlier steps would have done; `mint_nft` then leaves the ledger as it was.
pub proof fn lemma_rejected_verification_leaves_no_trace(
    l: Ledger,
    ctx: MintNft,
    name: Seq<char>,
    symbol: Seq<char>,
    uri: Seq<char>,
)
    requires
        l.collection is Some,
        l.collection->0.metadata.collection_size is None,
    ensures
        mint_nft_error(l, ctx, name, symbol, uri) is Some,
{
}

} // verus!
