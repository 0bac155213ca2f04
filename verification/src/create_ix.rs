//! Creating metadata records, and the first-generation create and update instructions.

use crate::account::{accounts_view, effects_view, outcome_view, single, single_effect, write_account, write_effect, AccountInfo, AccountView, Effect, EffectView};
use crate::checks::{assert_mint_authority_matches_mint, assert_owned_by, assert_update_authority_is_correct, chk_find_address, chk_mint_authority, chk_mint_authority_field, chk_mint_decimals, chk_update_authority, find_address, get_mint_authority, get_mint_decimals};
use crate::codec::{en_metadata, metadata_of_data};
use crate::collection_ix::{push_bump, with_bump};
use crate::decode::metadata_from_data;
use crate::encode::{encode_metadata, metadata_write, write_metadata};
use crate::error::{merr, to_program_error, MetadataError, ProgramError};
use crate::ids::{lemma_byte_vec_deep_view, prefix, prefix_seed, seed_authority, seed_authority_key, spl_token_program_id, token_program_id};
use crate::pubkey::Pubkey;
use crate::rules::{assert_collection_update_is_valid, assert_data_valid, assert_valid_use, chk_collection_update, chk_data_valid, chk_valid_use, edition_seeds, make_edition_seeds, puff_out_data_fields, puffed_metadata};
use crate::state::{CollectionDetails, Data, DataV2, DataV2View, DataView, Key, Metadata, MetadataView, TokenStandard, MAX_METADATA_LEN};
use vstd::prelude::*;

verus! {

/// The seeds of a mint's metadata address.
pub open spec fn metadata_seeds(program_id: Pubkey, mint: Pubkey) -> Seq<Seq<u8>> {
    seq![prefix_seed(), program_id.bytes(), mint.bytes()]
}

pub fn make_metadata_seeds(program_id: &Pubkey, mint: &Pubkey) -> (v: Vec<Vec<u8>>)
    ensures
        v.deep_view() == metadata_seeds(*program_id, *mint),
{
    let (a, b, c) = (prefix(), program_id.to_bytes(), mint.to_bytes());
    proof {
        lemma_byte_vec_deep_view(a);
        lemma_byte_vec_deep_view(b);
        lemma_byte_vec_deep_view(c);
    }
    let v = vec![a, b, c];
    assert(v.deep_view() =~= metadata_seeds(*program_id, *mint));
    v
}

/// The record that a freshly allocated (all-zero) metadata account reads as.
pub open spec fn blank_metadata() -> MetadataView {
    MetadataView {
        key: Key::Uninitialized,
        update_authority: Pubkey { w0: 0, w1: 0, w2: 0, w3: 0 },
        mint: Pubkey { w0: 0, w1: 0, w2: 0, w3: 0 },
        data: DataView {
            name: Seq::empty(),
            symbol: Seq::empty(),
            uri: Seq::empty(),
            seller_fee_basis_points: 0,
            creators: None,
        },
        primary_sale_happened: false,
        is_mutable: false,
        edition_nonce: None,
        token_standard: None,
        collection: None,
        uses: None,
        collection_details: None,
    }
}

pub fn blank_metadata_record() -> (m: Metadata)
    ensures
        m@ == blank_metadata(),
{
    let m = Metadata {
        key: Key::Uninitialized,
        update_authority: Pubkey::zero(),
        mint: Pubkey::zero(),
        data: Data {
            name: Vec::new(),
            symbol: Vec::new(),
            uri: Vec::new(),
            seller_fee_basis_points: 0,
            creators: None,
        },
        primary_sale_happened: false,
        is_mutable: false,
        edition_nonce: None,
        token_standard: None,
        collection: None,
        uses: None,
        collection_details: None,
    };
    assert(m@ =~= blank_metadata());
    m
}

/// The mint's authority must sign for the new record; failing that, the seeding authority may
/// sign, and the record then takes the mint's authority as update authority and is mutable.
/// Gives the update authority and mutability of the record.
pub open spec fn chk_create_authority(mint: AccountView, mint_authority: AccountView, update_authority: Pubkey, is_mutable: bool) -> Result<
    (Pubkey, bool),
    ProgramError,
> {
    match chk_mint_authority_field(mint) {
        Err(e) => Err(e),
        Ok(existing) => match chk_mint_authority(existing, mint_authority) {
            Ok(_) => Ok((update_authority, is_mutable)),
            Err(e) => if mint_authority.key == seed_authority_key() && mint_authority.is_signer {
                match existing {
                    Some(a) => Ok((a, true)),
                    None => Ok((update_authority, is_mutable)),
                }
            } else {
                Err(e)
            },
        },
    }
}

pub fn assert_create_authority(mint: &AccountInfo, mint_authority: &AccountInfo, update_authority: &Pubkey, is_mutable: bool) -> (r: Result<
    (Pubkey, bool),
    ProgramError,
>)
    ensures
        r == chk_create_authority(mint@, mint_authority@, *update_authority, is_mutable),
{
    let existing = get_mint_authority(mint)?;
    match assert_mint_authority_matches_mint(&existing, mint_authority) {
        Ok(_) => Ok((*update_authority, is_mutable)),
        Err(e) => {
            if mint_authority.key == seed_authority() && mint_authority.is_signer {
                match existing {
                    Some(a) => Ok((a, true)),
                    None => Ok((*update_authority, is_mutable)),
                }
            } else {
                Err(e)
            }
        },
    }
}

/// The token standard a new record gets: none unless asked for; a print edition for an edition,
/// otherwise fungible asset or fungible by the mint's decimals.
pub open spec fn token_standard_for(add: bool, is_edition: bool, decimals: u8) -> Option<TokenStandard> {
    if !add {
        None
    } else if is_edition {
        Some(TokenStandard::NonFungibleEdition)
    } else if decimals == 0 {
        Some(TokenStandard::FungibleAsset)
    } else {
        Some(TokenStandard::Fungible)
    }
}

/// A new collection parent starts with size zero, whatever size was asked for.
pub open spec fn fresh_details(d: Option<CollectionDetails>) -> Option<CollectionDetails> {
    match d {
        Some(_) => Some(CollectionDetails::V1 { size: 0 }),
        None => None,
    }
}

/// Where the accounts of a metadata creation stand in the instruction's account list.
#[derive(Clone, Copy, Debug, PartialEq, Eq, Structural)]
pub struct CreateIndices {
    pub metadata: usize,
    pub mint: usize,
    pub mint_authority: usize,
    pub payer: usize,
    pub update_authority: usize,
    pub system: usize,
}

/// All indices stand within the account list.
pub open spec fn indices_in(ix: CreateIndices, n: nat) -> bool {
    &&& ix.metadata < n
    &&& ix.mint < n
    &&& ix.mint_authority < n
    &&& ix.payer < n
    &&& ix.update_authority < n
    &&& ix.system < n
}

/// The record a creation writes, before padding.
pub open spec fn created_record(
    data: DataV2View,
    update_authority: Pubkey,
    mint: Pubkey,
    is_mutable: bool,
    token_standard: Option<TokenStandard>,
    details: Option<CollectionDetails>,
) -> MetadataView {
    MetadataView {
        key: Key::MetadataV1,
        update_authority,
        mint,
        data: data.data,
        primary_sale_happened: false,
        is_mutable,
        edition_nonce: None,
        token_standard,
        collection: data.collection,
        uses: data.uses,
        collection_details: fresh_details(details),
    }
}

/// Creating a mint's metadata record at its derived address: the mint's authority (or the
/// seeding authority) signs, the data and uses and collection must be valid, and the record is
/// written padded, with its edition nonce, after the account is created.
pub open spec fn create_metadata_logic(
    program_id: Pubkey,
    accs: Seq<AccountView>,
    ix: CreateIndices,
    data: DataV2View,
    allow_direct_creator_writes: bool,
    is_mutable: bool,
    is_edition: bool,
    add_token_standard: bool,
    details: Option<CollectionDetails>,
) -> Result<Seq<EffectView>, ProgramError> {
    let (mi, mint, mint_auth, ua) = (accs[ix.metadata as int], accs[ix.mint as int], accs[ix.mint_authority as int], accs[ix.update_authority as int]);
    match chk_create_authority(mint, mint_auth, ua.key, is_mutable) {
        Err(e) => Err(e),
        Ok((ua_key, is_mut)) => if mint.owner != spl_token_program_id() {
            Err(merr(MetadataError::IncorrectOwner))
        } else {
            match chk_find_address(metadata_seeds(program_id, mint.key), program_id) {
                Err(e) => Err(e),
                Ok((mkey, bump)) => if mi.key != mkey {
                    Err(merr(MetadataError::InvalidMetadataKey))
                } else {
                    match chk_data_valid(data.data, ua_key, blank_metadata(), allow_direct_creator_writes, ua.is_signer) {
                        Err(e) => Err(e),
                        Ok(_) => match chk_mint_decimals(mint) {
                            Err(e) => Err(e),
                            Ok(decimals) => match chk_valid_use(data.uses, None) {
                                Err(e) => Err(e),
                                Ok(_) => match chk_collection_update(is_edition, None, data.collection) {
                                    Err(e) => Err(e),
                                    Ok(_) => match puffed_metadata(
                                        created_record(
                                            data,
                                            ua_key,
                                            mint.key,
                                            is_mut,
                                            token_standard_for(add_token_standard, is_edition, decimals),
                                            details,
                                        ),
                                    ) {
                                        Err(e) => Err(e),
                                        Ok(p) => match chk_find_address(edition_seeds(program_id, mint.key), program_id) {
                                            Err(e) => Err(e),
                                            Ok((_, ebump)) => match write_effect(
                                                ix.metadata as int,
                                                MAX_METADATA_LEN as nat,
                                                en_metadata(MetadataView { edition_nonce: Some(ebump), ..p }),
                                                false,
                                            ) {
                                                Err(e) => Err(e),
                                                Ok(w) => Ok(
                                                    seq![
                                                        EffectView::CreateAccount {
                                                            account: ix.metadata,
                                                            payer: ix.payer,
                                                            system: ix.system,
                                                            size: MAX_METADATA_LEN,
                                                            seeds: with_bump(metadata_seeds(program_id, mint.key), bump),
                                                        },
                                                        w,
                                                    ],
                                                ),
                                            },
                                        },
                                    },
                                },
                            },
                        },
                    }
                },
            }
        },
    }
}

pub fn process_create_metadata_accounts_logic(
    program_id: &Pubkey,
    accounts: &Vec<AccountInfo>,
    ix: CreateIndices,
    data: DataV2,
    allow_direct_creator_writes: bool,
    is_mutable: bool,
    is_edition: bool,
    add_token_standard: bool,
    details: Option<CollectionDetails>,
) -> (r: Result<Vec<Effect>, ProgramError>)
    requires
        indices_in(ix, accounts@.len()),
    ensures
        outcome_view(r) == create_metadata_logic(
            *program_id,
            accounts_view(accounts@),
            ix,
            data@,
            allow_direct_creator_writes,
            is_mutable,
            is_edition,
            add_token_standard,
            details,
        ),
{
    let (mi, mint, mint_auth, ua) = (&accounts[ix.metadata], &accounts[ix.mint], &accounts[ix.mint_authority], &accounts[ix.update_authority]);
    let (ua_key, is_mut) = assert_create_authority(mint, mint_auth, &ua.key, is_mutable)?;
    assert_owned_by(mint, &token_program_id())?;
    let mut seeds = make_metadata_seeds(program_id, &mint.key);
    let (mkey, bump) = find_address(&seeds, program_id)?;
    if mi.key != mkey {
        return Err(to_program_error(MetadataError::InvalidMetadataKey));
    }
    let blank = blank_metadata_record();
    let v1 = data.to_v1();
    assert_data_valid(&v1, &ua_key, &blank, allow_direct_creator_writes, ua.is_signer)?;
    let decimals = get_mint_decimals(mint)?;
    let no_uses: Option<crate::state::Uses> = None;
    assert_valid_use(&data.uses, &no_uses)?;
    let no_collection: Option<crate::state::Collection> = None;
    assert_collection_update_is_valid(is_edition, &no_collection, &data.collection)?;
    let ts = if !add_token_standard {
        None
    } else if is_edition {
        Some(TokenStandard::NonFungibleEdition)
    } else if decimals == 0 {
        Some(TokenStandard::FungibleAsset)
    } else {
        Some(TokenStandard::Fungible)
    };
    let cd = match details {
        Some(_) => Some(CollectionDetails::V1 { size: 0 }),
        None => None,
    };
    let mut m = Metadata {
        key: Key::MetadataV1,
        update_authority: ua_key,
        mint: mint.key,
        data: v1,
        primary_sale_happened: false,
        is_mutable: is_mut,
        edition_nonce: None,
        token_standard: ts,
        collection: data.collection,
        uses: data.uses,
        collection_details: cd,
    };
    assert(m@ =~= created_record(data@, ua_key, mint.key, is_mut, token_standard_for(add_token_standard, is_edition, decimals), details));
    puff_out_data_fields(&mut m)?;
    let es = make_edition_seeds(program_id, &mint.key);
    let (_, ebump) = find_address(&es, program_id)?;
    m.edition_nonce = Some(ebump);
    let w = write_account(ix.metadata, MAX_METADATA_LEN, encode_metadata(&m), false)?;
    push_bump(&mut seeds, bump);
    let v = vec![
        Effect::CreateAccount { account: ix.metadata, payer: ix.payer, system: ix.system, size: MAX_METADATA_LEN, seeds },
        w,
    ];
    assert(effects_view(v@) =~= seq![v@[0]@, v@[1]@]);
    Ok(v)
}

/// The account indices of the create instructions: metadata, mint, mint authority, payer,
/// update authority, system program.
pub open spec fn first_six() -> CreateIndices {
    CreateIndices { metadata: 0, mint: 1, mint_authority: 2, payer: 3, update_authority: 4, system: 5 }
}

/// Creates a mint's metadata record (no collection parent details).
pub open spec fn create_metadata_accounts_v2_spec(program_id: Pubkey, accs: Seq<AccountView>, data: DataV2View, is_mutable: bool) -> Result<
    Seq<EffectView>,
    ProgramError,
> {
    if accs.len() < 6 {
        Err(ProgramError::NotEnoughAccountKeys)
    } else {
        create_metadata_logic(program_id, accs, first_six(), data, false, is_mutable, false, true, None)
    }
}

pub fn process_create_metadata_accounts_v2(program_id: &Pubkey, accounts: &Vec<AccountInfo>, data: DataV2, is_mutable: bool) -> (r: Result<
    Vec<Effect>,
    ProgramError,
>)
    ensures
        outcome_view(r) == create_metadata_accounts_v2_spec(*program_id, accounts_view(accounts@), data@, is_mutable),
{
    if accounts.len() < 6 {
        return Err(ProgramError::NotEnoughAccountKeys);
    }
    let ix = CreateIndices { metadata: 0, mint: 1, mint_authority: 2, payer: 3, update_authority: 4, system: 5 };
    process_create_metadata_accounts_logic(program_id, accounts, ix, data, false, is_mutable, false, true, None)
}

/// Creates a mint's metadata record, a collection parent (of size zero) when details are given.
pub open spec fn create_metadata_accounts_v3_spec(
    program_id: Pubkey,
    accs: Seq<AccountView>,
    data: DataV2View,
    is_mutable: bool,
    details: Option<CollectionDetails>,
) -> Result<Seq<EffectView>, ProgramError> {
    if accs.len() < 6 {
        Err(ProgramError::NotEnoughAccountKeys)
    } else {
        create_metadata_logic(program_id, accs, first_six(), data, false, is_mutable, false, true, details)
    }
}

pub fn process_create_metadata_accounts_v3(
    program_id: &Pubkey,
    accounts: &Vec<AccountInfo>,
    data: DataV2,
    is_mutable: bool,
    details: Option<CollectionDetails>,
) -> (r: Result<Vec<Effect>, ProgramError>)
    ensures
        outcome_view(r) == create_metadata_accounts_v3_spec(*program_id, accounts_view(accounts@), data@, is_mutable, details),
{
    if accounts.len() < 6 {
        return Err(ProgramError::NotEnoughAccountKeys);
    }
    let ix = CreateIndices { metadata: 0, mint: 1, mint_authority: 2, payer: 3, update_authority: 4, system: 5 };
    process_create_metadata_accounts_logic(program_id, accounts, ix, data, false, is_mutable, false, true, details)
}

// ---------------------------------------------------------------- first-generation instructions

/// First-generation data as creation arguments: no collection, no uses.
pub open spec fn data_as_v2(d: DataView) -> DataV2View {
    DataV2View { data: d, collection: None, uses: None }
}

pub fn data_to_v2(d: Data) -> (r: DataV2)
    ensures
        r@ == data_as_v2(d@),
{
    let r = DataV2 {
        name: d.name,
        symbol: d.symbol,
        uri: d.uri,
        seller_fee_basis_points: d.seller_fee_basis_points,
        creators: d.creators,
        collection: None,
        uses: None,
    };
    assert(r@ =~= data_as_v2(d@));
    r
}

/// The first-generation create: seven accounts (the last the rent sysvar), and no token
/// standard recorded.
pub open spec fn deprecated_create_metadata_accounts_spec(program_id: Pubkey, accs: Seq<AccountView>, data: DataView, is_mutable: bool) -> Result<
    Seq<EffectView>,
    ProgramError,
> {
    if accs.len() < 7 {
        Err(ProgramError::NotEnoughAccountKeys)
    } else {
        create_metadata_logic(program_id, accs, first_six(), data_as_v2(data), false, is_mutable, false, false, None)
    }
}

pub fn process_deprecated_create_metadata_accounts(program_id: &Pubkey, accounts: &Vec<AccountInfo>, data: Data, is_mutable: bool) -> (r: Result<
    Vec<Effect>,
    ProgramError,
>)
    ensures
        outcome_view(r) == deprecated_create_metadata_accounts_spec(*program_id, accounts_view(accounts@), data@, is_mutable),
{
    if accounts.len() < 7 {
        return Err(ProgramError::NotEnoughAccountKeys);
    }
    let ix = CreateIndices { metadata: 0, mint: 1, mint_authority: 2, payer: 3, update_authority: 4, system: 5 };
    process_create_metadata_accounts_logic(program_id, accounts, ix, data_to_v2(data), false, is_mutable, false, false, None)
}

/// The optional new first-generation data.
pub open spec fn opt_data_view(d: Option<Data>) -> Option<DataView> {
    match d {
        Some(v) => Some(v@),
        None => None,
    }
}

/// The first-generation update: new data (on a mutable record), a new update authority, and the
/// primary sale flag, which can only be given as set; the record is written back padded.
pub open spec fn deprecated_update_metadata_accounts_spec(
    program_id: Pubkey,
    accs: Seq<AccountView>,
    data: Option<DataView>,
    update_authority: Option<Pubkey>,
    primary_sale_happened: Option<bool>,
) -> Result<Seq<EffectView>, ProgramError> {
    if accs.len() < 2 {
        Err(ProgramError::NotEnoughAccountKeys)
    } else {
        let (mi, ua) = (accs[0], accs[1]);
        match metadata_of_data(mi.data) {
            None => Err(merr(MetadataError::DataTypeMismatch)),
            Some(m) => if mi.owner != program_id {
                Err(merr(MetadataError::IncorrectOwner))
            } else {
                match chk_update_authority(m, ua) {
                    Err(e) => Err(e),
                    Ok(_) => {
                        let m1: Result<MetadataView, ProgramError> = match data {
                            None => Ok(m),
                            Some(d) => if !m.is_mutable {
                                Err(merr(MetadataError::DataIsImmutable))
                            } else {
                                match chk_data_valid(d, ua.key, m, false, ua.is_signer) {
                                    Err(e) => Err(e),
                                    Ok(_) => Ok(MetadataView { data: d, ..m }),
                                }
                            },
                        };
                        match m1 {
                            Err(e) => Err(e),
                            Ok(m1) => {
                                let m2 = match update_authority {
                                    Some(k) => MetadataView { update_authority: k, ..m1 },
                                    None => m1,
                                };
                                if primary_sale_happened == Some(false) {
                                    Err(merr(MetadataError::PrimarySaleCanOnlyBeFlippedToTrue))
                                } else {
                                    let m3 = if primary_sale_happened == Some(true) {
                                        MetadataView { primary_sale_happened: true, ..m2 }
                                    } else {
                                        m2
                                    };
                                    match puffed_metadata(m3) {
                                        Err(e) => Err(e),
                                        Ok(p) => single(metadata_write(0, mi, p, false)),
                                    }
                                }
                            },
                        }
                    },
                }
            },
        }
    }
}

pub fn process_deprecated_update_metadata_accounts(
    program_id: &Pubkey,
    accounts: &Vec<AccountInfo>,
    data: Option<Data>,
    update_authority: Option<Pubkey>,
    primary_sale_happened: Option<bool>,
) -> (r: Result<Vec<Effect>, ProgramError>)
    ensures
        outcome_view(r) == deprecated_update_metadata_accounts_spec(
            *program_id,
            accounts_view(accounts@),
            opt_data_view(data),
            update_authority,
            primary_sale_happened,
        ),
{
    if accounts.len() < 2 {
        return Err(ProgramError::NotEnoughAccountKeys);
    }
    let (mi, ua) = (&accounts[0], &accounts[1]);
    let mut m = metadata_from_data(mi.data.as_slice())?;
    assert_owned_by(mi, program_id)?;
    assert_update_authority_is_correct(&m, ua)?;
    if let Some(d) = data {
        if !m.is_mutable {
            return Err(to_program_error(MetadataError::DataIsImmutable));
        }
        assert_data_valid(&d, &ua.key, &m, false, ua.is_signer)?;
        m.data = d;
    }
    if let Some(k) = update_authority {
        m.update_authority = k;
    }
    if let Some(v) = primary_sale_happened {
        if v {
            m.primary_sale_happened = true;
        } else {
            return Err(to_program_error(MetadataError::PrimarySaleCanOnlyBeFlippedToTrue));
        }
    }
    puff_out_data_fields(&mut m)?;
    single_effect(write_metadata(0, mi, &m, false))
}

} // verus!
