//! The account records of the token-metadata program, and the token-program records it reads.

use crate::pubkey::Pubkey;
use vstd::prelude::*;

verus! {

/// Longest name, in bytes.
pub const MAX_NAME_LENGTH: usize = 32;

/// Longest symbol, in bytes.
pub const MAX_SYMBOL_LENGTH: usize = 10;

/// Longest URI, in bytes.
pub const MAX_URI_LENGTH: usize = 200;

/// Most creators a metadata record may list.
pub const MAX_CREATOR_LIMIT: usize = 5;

/// Size of a metadata account once its variable fields are padded.
pub const MAX_METADATA_LEN: usize = 679;

/// Size of a print edition account.
pub const MAX_EDITION_LEN: usize = 241;

/// Size of a master edition account.
pub const MAX_MASTER_EDITION_LEN: usize = 282;

/// Size of an edition marker account.
pub const MAX_EDITION_MARKER_SIZE: usize = 32;

/// Number of editions one edition marker tracks.
pub const EDITION_MARKER_BIT_SIZE: u64 = 248;

/// Size of a use authority record account.
pub const USE_AUTHORITY_RECORD_SIZE: usize = 18;

/// Size of a collection authority record account.
pub const COLLECTION_AUTHORITY_RECORD_SIZE: usize = 11;

/// Highest seller fee, in basis points.
pub const MAX_SELLER_FEE_BASIS_POINTS: u16 = 10000;

/// The type tag in the first byte of every account of the program.
#[derive(Clone, Copy, Debug, PartialEq, Eq, Structural)]
pub enum Key {
    Uninitialized,
    EditionV1,
    MasterEditionV1,
    ReservationListV1,
    MetadataV1,
    ReservationListV2,
    MasterEditionV2,
    EditionMarker,
    UseAuthorityRecord,
    CollectionAuthorityRecord,
}

/// The byte that encodes a key.
pub open spec fn key_byte(k: Key) -> u8 {
    match k {
        Key::Uninitialized => 0,
        Key::EditionV1 => 1,
        Key::MasterEditionV1 => 2,
        Key::ReservationListV1 => 3,
        Key::MetadataV1 => 4,
        Key::ReservationListV2 => 5,
        Key::MasterEditionV2 => 6,
        Key::EditionMarker => 7,
        Key::UseAuthorityRecord => 8,
        Key::CollectionAuthorityRecord => 9,
    }
}

/// The key a byte encodes, if any.
pub open spec fn key_of_byte(b: u8) -> Option<Key> {
    if b == 0 {
        Some(Key::Uninitialized)
    } else if b == 1 {
        Some(Key::EditionV1)
    } else if b == 2 {
        Some(Key::MasterEditionV1)
    } else if b == 3 {
        Some(Key::ReservationListV1)
    } else if b == 4 {
        Some(Key::MetadataV1)
    } else if b == 5 {
        Some(Key::ReservationListV2)
    } else if b == 6 {
        Some(Key::MasterEditionV2)
    } else if b == 7 {
        Some(Key::EditionMarker)
    } else if b == 8 {
        Some(Key::UseAuthorityRecord)
    } else if b == 9 {
        Some(Key::CollectionAuthorityRecord)
    } else {
        None
    }
}

impl Key {
    /// The byte that encodes this key.
    pub fn to_byte(&self) -> (b: u8)
        ensures
            b == key_byte(*self),
    {
        match self {
            Key::Uninitialized => 0,
            Key::EditionV1 => 1,
            Key::MasterEditionV1 => 2,
            Key::ReservationListV1 => 3,
            Key::MetadataV1 => 4,
            Key::ReservationListV2 => 5,
            Key::MasterEditionV2 => 6,
            Key::EditionMarker => 7,
            Key::UseAuthorityRecord => 8,
            Key::CollectionAuthorityRecord => 9,
        }
    }

    /// The key that a byte encodes, if any.
    pub fn from_byte(b: u8) -> (k: Option<Key>)
        ensures
            k == key_of_byte(b),
    {
        if b == 0 {
            Some(Key::Uninitialized)
        } else if b == 1 {
            Some(Key::EditionV1)
        } else if b == 2 {
            Some(Key::MasterEditionV1)
        } else if b == 3 {
            Some(Key::ReservationListV1)
        } else if b == 4 {
            Some(Key::MetadataV1)
        } else if b == 5 {
            Some(Key::ReservationListV2)
        } else if b == 6 {
            Some(Key::MasterEditionV2)
        } else if b == 7 {
            Some(Key::EditionMarker)
        } else if b == 8 {
            Some(Key::UseAuthorityRecord)
        } else if b == 9 {
            Some(Key::CollectionAuthorityRecord)
        } else {
            None
        }
    }
}

/// A creator listed on a metadata record, with its share of royalties.
#[derive(Clone, Copy, Debug, PartialEq, Eq, Structural)]
pub struct Creator {
    pub address: Pubkey,
    pub verified: bool,
    pub share: u8,
}

/// The collection a metadata record claims to belong to.
#[derive(Clone, Copy, Debug, PartialEq, Eq, Structural)]
pub struct Collection {
    pub verified: bool,
    pub key: Pubkey,
}

/// How uses of a token are consumed.
#[derive(Clone, Copy, Debug, PartialEq, Eq, Structural)]
pub enum UseMethod {
    Burn,
    Multiple,
    Single,
}

/// The uses a token has.
#[derive(Clone, Copy, Debug, PartialEq, Eq, Structural)]
pub struct Uses {
    pub use_method: UseMethod,
    pub remaining: u64,
    pub total: u64,
}

/// The kind of token a mint stands for.
#[derive(Clone, Copy, Debug, PartialEq, Eq, Structural)]
pub enum TokenStandard {
    NonFungible,
    FungibleAsset,
    Fungible,
    NonFungibleEdition,
}

/// Details kept on the parent of a collection.
#[derive(Clone, Copy, Debug, PartialEq, Eq, Structural)]
pub enum CollectionDetails {
    V1 { size: u64 },
}

/// The descriptive fields of a metadata record. Strings are held as their UTF-8 bytes.
#[derive(Clone, Debug)]
pub struct Data {
    pub name: Vec<u8>,
    pub symbol: Vec<u8>,
    pub uri: Vec<u8>,
    pub seller_fee_basis_points: u16,
    pub creators: Option<Vec<Creator>>,
}

/// What a `Data` value holds.
#[verifier::ext_equal]
pub struct DataView {
    pub name: Seq<u8>,
    pub symbol: Seq<u8>,
    pub uri: Seq<u8>,
    pub seller_fee_basis_points: u16,
    pub creators: Option<Seq<Creator>>,
}

/// The view of an optional list of creators.
pub open spec fn creators_view(c: Option<Vec<Creator>>) -> Option<Seq<Creator>> {
    match c {
        Some(v) => Some(v@),
        None => None,
    }
}

impl View for Data {
    type V = DataView;

    open spec fn view(&self) -> DataView {
        DataView {
            name: self.name@,
            symbol: self.symbol@,
            uri: self.uri@,
            seller_fee_basis_points: self.seller_fee_basis_points,
            creators: creators_view(self.creators),
        }
    }
}

/// The arguments with which metadata is created or updated.
#[derive(Clone, Debug)]
pub struct DataV2 {
    pub name: Vec<u8>,
    pub symbol: Vec<u8>,
    pub uri: Vec<u8>,
    pub seller_fee_basis_points: u16,
    pub creators: Option<Vec<Creator>>,
    pub collection: Option<Collection>,
    pub uses: Option<Uses>,
}

/// What a `DataV2` value holds.
#[verifier::ext_equal]
pub struct DataV2View {
    pub data: DataView,
    pub collection: Option<Collection>,
    pub uses: Option<Uses>,
}

impl View for DataV2 {
    type V = DataV2View;

    open spec fn view(&self) -> DataV2View {
        DataV2View {
            data: DataView {
                name: self.name@,
                symbol: self.symbol@,
                uri: self.uri@,
                seller_fee_basis_points: self.seller_fee_basis_points,
                creators: creators_view(self.creators),
            },
            collection: self.collection,
            uses: self.uses,
        }
    }
}

impl Data {
    /// A copy of these fields.
    pub fn copy(&self) -> (d: Data)
        ensures
            d@ == self@,
    {
        Data {
            name: self.name.clone(),
            symbol: self.symbol.clone(),
            uri: self.uri.clone(),
            seller_fee_basis_points: self.seller_fee_basis_points,
            creators: self.creators.clone(),
        }
    }
}

impl Metadata {
    /// A copy of this record.
    pub fn copy(&self) -> (m: Metadata)
        ensures
            m@ == self@,
    {
        Metadata {
            key: self.key,
            update_authority: self.update_authority,
            mint: self.mint,
            data: self.data.copy(),
            primary_sale_happened: self.primary_sale_happened,
            is_mutable: self.is_mutable,
            edition_nonce: self.edition_nonce,
            token_standard: self.token_standard,
            collection: self.collection,
            uses: self.uses,
            collection_details: self.collection_details,
        }
    }
}

impl DataV2 {
    /// The descriptive fields alone.
    pub fn to_v1(&self) -> (d: Data)
        ensures
            d@ == self@.data,
    {
        Data {
            name: self.name.clone(),
            symbol: self.symbol.clone(),
            uri: self.uri.clone(),
            seller_fee_basis_points: self.seller_fee_basis_points,
            creators: self.creators.clone(),
        }
    }
}

/// The metadata record of a mint.
#[derive(Clone, Debug)]
pub struct Metadata {
    pub key: Key,
    pub update_authority: Pubkey,
    pub mint: Pubkey,
    pub data: Data,
    pub primary_sale_happened: bool,
    pub is_mutable: bool,
    pub edition_nonce: Option<u8>,
    pub token_standard: Option<TokenStandard>,
    pub collection: Option<Collection>,
    pub uses: Option<Uses>,
    pub collection_details: Option<CollectionDetails>,
}

/// What a `Metadata` value holds.
#[verifier::ext_equal]
pub struct MetadataView {
    pub key: Key,
    pub update_authority: Pubkey,
    pub mint: Pubkey,
    pub data: DataView,
    pub primary_sale_happened: bool,
    pub is_mutable: bool,
    pub edition_nonce: Option<u8>,
    pub token_standard: Option<TokenStandard>,
    pub collection: Option<Collection>,
    pub uses: Option<Uses>,
    pub collection_details: Option<CollectionDetails>,
}

impl View for Metadata {
    type V = MetadataView;

    open spec fn view(&self) -> MetadataView {
        MetadataView {
            key: self.key,
            update_authority: self.update_authority,
            mint: self.mint,
            data: self.data@,
            primary_sale_happened: self.primary_sale_happened,
            is_mutable: self.is_mutable,
            edition_nonce: self.edition_nonce,
            token_standard: self.token_standard,
            collection: self.collection,
            uses: self.uses,
            collection_details: self.collection_details,
        }
    }
}

/// A master edition record (current layout).
#[derive(Clone, Copy, Debug, PartialEq, Eq, Structural)]
pub struct MasterEditionV2 {
    pub key: Key,
    pub supply: u64,
    pub max_supply: Option<u64>,
}

/// A master edition record (old layout, with printing mints).
#[derive(Clone, Copy, Debug, PartialEq, Eq, Structural)]
pub struct MasterEditionV1 {
    pub key: Key,
    pub supply: u64,
    pub max_supply: Option<u64>,
    pub printing_mint: Pubkey,
    pub one_time_printing_authorization_mint: Pubkey,
}

/// A print edition record.
#[derive(Clone, Copy, Debug, PartialEq, Eq, Structural)]
pub struct Edition {
    pub key: Key,
    pub parent: Pubkey,
    pub edition: u64,
}

/// A bit ledger of which editions of one range have been printed.
#[derive(Clone, Debug)]
pub struct EditionMarker {
    pub key: Key,
    pub ledger: Vec<u8>,
}

/// What an `EditionMarker` holds.
#[verifier::ext_equal]
pub struct EditionMarkerView {
    pub key: Key,
    pub ledger: Seq<u8>,
}

impl View for EditionMarker {
    type V = EditionMarkerView;

    open spec fn view(&self) -> EditionMarkerView {
        EditionMarkerView { key: self.key, ledger: self.ledger@ }
    }
}

/// Number of bytes in an edition marker ledger.
pub const EDITION_MARKER_LEDGER_LEN: usize = 31;

/// A record that lets a user spend uses of a token.
#[derive(Clone, Copy, Debug, PartialEq, Eq, Structural)]
pub struct UseAuthorityRecord {
    pub key: Key,
    pub allowed_uses: u64,
    pub bump: u8,
}

/// A record that delegates authority over a collection.
#[derive(Clone, Copy, Debug, PartialEq, Eq, Structural)]
pub struct CollectionAuthorityRecord {
    pub key: Key,
    pub bump: u8,
}

/// The state of a token-program mint.
#[derive(Clone, Copy, Debug, PartialEq, Eq, Structural)]
pub struct Mint {
    pub mint_authority: Option<Pubkey>,
    pub supply: u64,
    pub decimals: u8,
    pub is_initialized: bool,
    pub freeze_authority: Option<Pubkey>,
}

/// The state of a token-program account.
#[derive(Clone, Copy, Debug, PartialEq, Eq, Structural)]
pub enum AccountState {
    Uninitialized,
    Initialized,
    Frozen,
}

/// A token-program account.
#[derive(Clone, Copy, Debug, PartialEq, Eq, Structural)]
pub struct TokenAccount {
    pub mint: Pubkey,
    pub owner: Pubkey,
    pub amount: u64,
    pub delegate: Option<Pubkey>,
    pub state: AccountState,
    pub is_native: Option<u64>,
    pub delegated_amount: u64,
    pub close_authority: Option<Pubkey>,
}

} // verus!
