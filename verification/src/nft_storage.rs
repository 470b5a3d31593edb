//! The asset metadata registry: descriptive records for assets.
//!
//! A record names an asset and says where its content lives. Creating one
//! goes with minting the asset and registering its metadata, both done by
//! the host; updating one replaces the fields that the request supplies.

use vstd::prelude::*;
use crate::identity::Identity;

verus! {

/// The descriptive record of one asset.
#[derive(Clone, Debug, PartialEq, Eq)]
pub struct NFTData {
    pub name: String,
    pub symbol: String,
    pub uri: String,
    pub image_cid: String,
    pub mint: Identity,
    pub owner: Identity,
}

/// Emitted when a record is created.
#[derive(Clone, Debug, PartialEq, Eq)]
pub struct NFTCreated {
    pub mint: Identity,
    pub name: String,
    pub symbol: String,
    pub uri: String,
    pub image_cid: String,
}

/// Emitted when a record is updated.
#[derive(Clone, Debug, PartialEq, Eq)]
pub struct NFTUpdated {
    pub mint: Identity,
    pub name: String,
    pub symbol: String,
    pub uri: String,
    pub image_cid: String,
}

/// The texts of a record or of an event, as contracts see them.
pub struct Texts {
    pub name: Seq<char>,
    pub symbol: Seq<char>,
    pub uri: Seq<char>,
    pub image_cid: Seq<char>,
}

impl NFTData {
    /// The four texts of the record.
    pub open spec fn texts(&self) -> Texts {
        Texts {
            name: self.name@,
            symbol: self.symbol@,
            uri: self.uri@,
            image_cid: self.image_cid@,
        }
    }
}

impl NFTCreated {
    /// The four texts of the event.
    pub open spec fn texts(&self) -> Texts {
        Texts {
            name: self.name@,
            symbol: self.symbol@,
            uri: self.uri@,
            image_cid: self.image_cid@,
        }
    }
}

impl NFTUpdated {
    /// The four texts of the event.
    pub open spec fn texts(&self) -> Texts {
        Texts {
            name: self.name@,
            symbol: self.symbol@,
            uri: self.uri@,
            image_cid: self.image_cid@,
        }
    }
}

/// How a call that the host makes for an operation went.
#[derive(Clone, Copy, Debug, PartialEq, Eq, Structural)]
pub enum HostCall {
    /// The call took effect.
    Completed,
    /// The call was rejected and changed nothing.
    Rejected,
}

/// Why a record was not created.
#[derive(Clone, Copy, Debug, PartialEq, Eq, Structural)]
pub enum NFTError {
    /// The asset was not minted.
    MintFailed,
    /// The asset's metadata was not registered.
    MetadataFailed,
}

/// A request to create an asset and its record.
#[derive(Clone, Copy, Debug, PartialEq, Eq)]
pub struct CreateNFT {
    /// The asset.
    pub mint: Identity,
    /// The signer, who pays, owns the record and is the asset's creator.
    pub payer: Identity,
    /// The account that receives the asset's registered metadata.
    pub metadata: Identity,
    /// Outcome of minting one unit of the asset to the payer.
    pub mint_to: HostCall,
    /// Outcome of registering the asset's metadata.
    pub register: HostCall,
}

/// The minting that goes with a creation request, for the host to make.
#[derive(Clone, Copy, Debug, PartialEq, Eq)]
pub struct MintOrder {
    /// The asset to mint.
    pub mint: Identity,
    /// The token account that receives the units minted.
    pub to: Identity,
    /// The identity that signs as the asset's mint authority.
    pub authority: Identity,
    /// Units to mint.
    pub amount: u64,
}

/// The minting that goes with a creation request: one unit of the asset,
/// to the given token account, under the payer's authority.
pub fn mint_order(ctx: &CreateNFT, token_account: &Identity) -> (order: MintOrder)
    ensures
        order.mint == ctx.mint,
        order.to == *token_account,
        order.authority == ctx.payer,
        order.amount == 1,
{
    MintOrder { mint: ctx.mint, to: *token_account, authority: ctx.payer, amount: 1 }
}

/// A party credited with an asset, and its share of the proceeds.
#[derive(Clone, Copy, Debug, PartialEq, Eq)]
pub struct Creator {
    pub address: Identity,
    pub verified: bool,
    pub share: u8,
}

/// What is registered as an asset's metadata.
#[derive(Clone, Debug, PartialEq, Eq)]
pub struct MetadataRegistration {
    pub metadata: Identity,
    pub mint: Identity,
    pub mint_authority: Identity,
    pub payer: Identity,
    pub update_authority: Identity,
    pub name: String,
    pub symbol: String,
    pub uri: String,
    pub creators: Vec<Creator>,
    pub seller_fee_basis_points: u16,
    pub update_authority_is_signer: bool,
    pub is_mutable: bool,
}

/// The metadata registered for a new asset: the payer holds every role and
/// is the sole, unverified creator with the whole share; no seller fee; the
/// metadata stays mutable.
pub fn metadata_registration(ctx: &CreateNFT, name: &String, symbol: &String, uri: &String) -> (r:
    MetadataRegistration)
    ensures
        r.metadata == ctx.metadata,
        r.mint == ctx.mint,
        r.mint_authority == ctx.payer,
        r.payer == ctx.payer,
        r.update_authority == ctx.payer,
        r.name@ == name@,
        r.symbol@ == symbol@,
        r.uri@ == uri@,
        r.creators@ == seq![Creator { address: ctx.payer, verified: false, share: 100 }],
        r.seller_fee_basis_points == 0,
        r.update_authority_is_signer,
        r.is_mutable,
{
    let mut creators: Vec<Creator> = Vec::new();
    creators.push(Creator { address: ctx.payer, verified: false, share: 100 });
    assert(creators@ =~= seq![Creator { address: ctx.payer, verified: false, share: 100 }]);
    MetadataRegistration {
        metadata: ctx.metadata,
        mint: ctx.mint,
        mint_authority: ctx.payer,
        payer: ctx.payer,
        update_authority: ctx.payer,
        name: name.clone(),
        symbol: symbol.clone(),
        uri: uri.clone(),
        creators,
        seller_fee_basis_points: 0,
        update_authority_is_signer: true,
        is_mutable: true,
    }
}

/// Why a creation request is refused, if it is.
pub open spec fn create_error(ctx: CreateNFT) -> Option<NFTError> {
    if ctx.mint_to is Rejected {
        Some(NFTError::MintFailed)
    } else if ctx.register is Rejected {
        Some(NFTError::MetadataFailed)
    } else {
        None
    }
}

/// Creates the record of a new asset, owned by the payer, with the texts
/// given, and the event that announces it.
///
/// Refused with `MintFailed` where the asset was not minted, else with
/// `MetadataFailed` where its metadata was not registered.
pub fn create_nft(
    ctx: &CreateNFT,
    name: String,
    symbol: String,
    uri: String,
    image_cid: String,
) -> (r: Result<(NFTData, NFTCreated), NFTError>)
    ensures
        match create_error(*ctx) {
            Some(e) => r == Err::<(NFTData, NFTCreated), NFTError>(e),
            None => r matches Ok((data, event)) && data.mint == ctx.mint && data.owner == ctx.payer
                && data.texts() == (Texts {
                name: name@,
                symbol: symbol@,
                uri: uri@,
                image_cid: image_cid@,
            }) && event.mint == ctx.mint && event.texts() == data.texts(),
        },
{
    match ctx.mint_to {
        HostCall::Rejected => {
            return Err(NFTError::MintFailed);
        },
        HostCall::Completed => {},
    }
    match ctx.register {
        HostCall::Rejected => {
            return Err(NFTError::MetadataFailed);
        },
        HostCall::Completed => {},
    }
    let event = NFTCreated {
        mint: ctx.mint,
        name: name.clone(),
        symbol: symbol.clone(),
        uri: uri.clone(),
        image_cid: image_cid.clone(),
    };
    let data = NFTData { name, symbol, uri, image_cid, mint: ctx.mint, owner: ctx.payer };
    Ok((data, event))
}

/// The text that an update leaves in a field: the new one where the request
/// supplies one, the old one otherwise.
pub open spec fn replaced(current: Seq<char>, new: Option<String>) -> Seq<char> {
    match new {
        Some(text) => text@,
        None => current,
    }
}

/// Updates a record: each text that the request supplies replaces the
/// record's; the others, the asset and the owner stay. Returns the event
/// that announces the record as it is after the update.
pub fn update_nft_data(
    nft_data: &mut NFTData,
    name: Option<String>,
    symbol: Option<String>,
    uri: Option<String>,
    image_cid: Option<String>,
) -> (event: NFTUpdated)
    ensures
        final(nft_data).mint == old(nft_data).mint,
        final(nft_data).owner == old(nft_data).owner,
        final(nft_data).texts() == (Texts {
            name: replaced(old(nft_data).name@, name),
            symbol: replaced(old(nft_data).symbol@, symbol),
            uri: replaced(old(nft_data).uri@, uri),
            image_cid: replaced(old(nft_data).image_cid@, image_cid),
        }),
        event.mint == old(nft_data).mint,
        event.texts() == final(nft_data).texts(),
{
    if let Some(new_name) = name {
        nft_data.name = new_name;
    }
    if let Some(new_symbol) = symbol {
        nft_data.symbol = new_symbol;
    }
    if let Some(new_uri) = uri {
        nft_data.uri = new_uri;
    }
    if let Some(new_image_cid) = image_cid {
        nft_data.image_cid = new_image_cid;
    }
    NFTUpdated {
        mint: nft_data.mint,
        name: nft_data.name.clone(),
        symbol: nft_data.symbol.clone(),
        uri: nft_data.uri.clone(),
        image_cid: nft_data.image_cid.clone(),
    }
}

} // verus!
