use vstd::prelude::*;

use crate::effects::Role;
use crate::error::ErrorMessage;
use crate::state::{Config, Pubkey};

verus! {

/// What creating a token reads of its accounts.
#[derive(Clone, Copy, Debug)]
pub struct TokenInit {
    pub payer: Pubkey,
    pub config: Config,
    pub mint: Pubkey,
}

/// A creator credited in token metadata.
#[derive(Clone, Copy, Debug, PartialEq, Eq)]
pub struct MetadataCreator {
    pub address: Pubkey,
    pub verified: bool,
    /// Share of royalties, in percent.
    pub share: u8,
}

/// The collection a token belongs to.
#[derive(Clone, Copy, Debug, PartialEq, Eq)]
pub struct MetadataCollection {
    pub verified: bool,
    pub key: Pubkey,
}

/// How a token's uses are consumed.
#[derive(Clone, Copy, Debug, PartialEq, Eq)]
pub enum MetadataUseMethod {
    Burn,
    Multiple,
    Single,
}

/// The uses of a token.
#[derive(Clone, Copy, Debug, PartialEq, Eq)]
pub struct MetadataUses {
    pub use_method: MetadataUseMethod,
    pub remaining: u64,
    pub total: u64,
}

/// The details of a collection token.
#[derive(Clone, Copy, Debug, PartialEq, Eq)]
pub enum MetadataCollectionDetails {
    V1 { size: u64 },
}

/// The metadata record to create for a new token, and the accounts that
/// play each part in creating it.
#[derive(Clone, Debug)]
pub struct TokenMetadata {
    pub name: String,
    pub symbol: String,
    pub uri: String,
    /// Royalty in basis points.
    pub seller_fee_basis_points: u16,
    pub creators: Option<Vec<MetadataCreator>>,
    pub collection: Option<MetadataCollection>,
    pub uses: Option<MetadataUses>,
    pub is_mutable: bool,
    pub update_authority_is_signer: bool,
    pub collection_details: Option<MetadataCollectionDetails>,
    /// The account that pays for the record.
    pub payer: Role,
    /// The authority of the mint, which signs with its seeds.
    pub mint_authority: Role,
    /// The authority that may later update the record.
    pub update_authority: Role,
}

/// Whether `md` is the metadata of a new token under the given name, ticker
/// and uri: no royalty, no creators, no collection, no uses, mutable, no
/// collection details, paid by the payer, with the program's mint authority
/// as mint authority and as signing update authority.
pub open spec fn is_new_token_metadata(md: TokenMetadata, name: String, ticker: String, uri: String) -> bool {
    &&& md.name@ == name@
    &&& md.symbol@ == ticker@
    &&& md.uri@ == uri@
    &&& md.seller_fee_basis_points == 0
    &&& md.creators is None
    &&& md.collection is None
    &&& md.uses is None
    &&& md.is_mutable
    &&& md.update_authority_is_signer
    &&& md.collection_details is None
    &&& md.payer == Role::User
    &&& md.mint_authority == Role::MintAuthority
    &&& md.update_authority == Role::MintAuthority
}

/// Describes a new token: its metadata under the given name, ticker and uri,
/// with no royalty, creators, collection or uses, mutable, with no
/// collection details, paid by the payer, and with the program's mint
/// authority as mint authority and signing update authority. Returns the
/// mint, the payer as creator and the configured supply, and the metadata to
/// create.
pub fn handler_create(accounts: &TokenInit, name: String, ticker: String, uri: String) -> (res:
    Result<((Pubkey, Pubkey, u64), TokenMetadata), ErrorMessage>)
    ensures
        res matches Ok((out, metadata)) && {
            &&& out == (accounts.mint, accounts.payer, accounts.config.initial_token_reserve)
            &&& is_new_token_metadata(metadata, name, ticker, uri)
        },
{
    let metadata = TokenMetadata {
        name,
        symbol: ticker,
        uri,
        seller_fee_basis_points: 0,
        creators: None,
        collection: None,
        uses: None,
        is_mutable: true,
        update_authority_is_signer: true,
        collection_details: None,
        payer: Role::User,
        mint_authority: Role::MintAuthority,
        update_authority: Role::MintAuthority,
    };
    Ok(((accounts.mint, accounts.payer, accounts.config.initial_token_reserve), metadata))
}

} // verus!
