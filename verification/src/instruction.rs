//! The program's instructions: their encoding, and the entry point that decodes one and runs it.

use crate::account::{accounts_view, outcome_view, AccountInfo, AccountView, Effect, EffectView};
use crate::burn_ix::{
    burn_edition_nft_spec, burn_nft_spec, freeze_thaw_delegated_spec, process_burn_edition_nft,
    process_burn_nft, process_freeze_delegated_account, process_thaw_delegated_account,
};
use crate::codec::{
    sp_bool, sp_data, sp_opt_u64, sp_pubkey, sp_u32, sp_u64, sp_u8, tp_collection,
    tp_collection_details, tp_uses,
};
use crate::collection_ix::{
    approve_collection_authority_spec, bubblegum_set_collection_size,
    bubblegum_set_collection_size_spec, process_approve_collection_authority,
    process_revoke_collection_authority, revoke_collection_authority_spec,
    set_and_verify_collection, set_and_verify_collection_spec,
    set_and_verify_sized_collection_item, set_and_verify_sized_collection_item_spec,
    set_collection_size, set_collection_size_spec, unverify_collection, unverify_collection_spec,
    unverify_sized_collection_item, unverify_sized_collection_item_spec, verify_collection,
    verify_collection_spec, verify_sized_collection_item, verify_sized_collection_item_spec,
};
use crate::create_ix::{
    create_metadata_accounts_v2_spec, create_metadata_accounts_v3_spec,
    deprecated_create_metadata_accounts_spec, deprecated_update_metadata_accounts_spec,
    opt_data_view, process_create_metadata_accounts_v2, process_create_metadata_accounts_v3,
    process_deprecated_create_metadata_accounts, process_deprecated_update_metadata_accounts,
};
use crate::decode::{
    rd_bool, rd_data, rd_opt_u64, rd_pubkey, rd_u32, rd_u64, rd_u8, read_ok, tr_collection,
    tr_collection_details, tr_uses,
};
use crate::edition_ix::{
    convert_master_edition_v1_to_v2_spec, create_master_edition_spec,
    mint_new_edition_via_token_spec, mint_new_edition_via_vault_proxy_spec,
    process_convert_master_edition_v1_to_v2, process_create_master_edition,
    process_deprecated_mint_new_edition_from_master_edition_via_vault_proxy,
    process_mint_new_edition_from_master_edition_via_token,
};
use crate::error::{merr, to_program_error, MetadataError, ProgramError};
use crate::metadata_ix::{
    creator_verification_spec, opt_data_v2_view, process_puff_metadata_account,
    process_remove_creator_verification, process_sign_metadata,
    process_update_metadata_accounts_v2, process_update_primary_sale_happened_via_token,
    puff_metadata_account_spec, set_token_standard, set_token_standard_spec,
    update_metadata_accounts_v2_spec, update_primary_sale_happened_via_token_spec,
};
use crate::pubkey::Pubkey;
use crate::state::{
    Collection, CollectionDetails, Data, DataV2, DataV2View, DataView, Uses,
};
use crate::use_ix::{
    approve_use_authority_spec, process_approve_use_authority, process_revoke_use_authority,
    process_utilize, revoke_use_authority_spec, utilize_spec,
};
use vstd::prelude::*;

verus! {

// ---------------------------------------------------------------- argument encodings

/// A collection: a tag byte, then whether verified and the collection mint.
#[verifier::opaque]
pub open spec fn sp_opt_collection(s: Seq<u8>) -> Option<(Option<Collection>, Seq<u8>)> {
    match tp_collection(s) {
        (Some(v), r) => Some((v, r)),
        (None, _) => None,
    }
}

/// Optional uses: a tag byte, then the method and the remaining and total uses.
#[verifier::opaque]
pub open spec fn sp_opt_uses(s: Seq<u8>) -> Option<(Option<Uses>, Seq<u8>)> {
    match tp_uses(s) {
        (Some(v), r) => Some((v, r)),
        (None, _) => None,
    }
}

/// Optional collection details: a tag byte, then the details (variant byte and size).
#[verifier::opaque]
pub open spec fn sp_opt_details(s: Seq<u8>) -> Option<(Option<CollectionDetails>, Seq<u8>)> {
    match tp_collection_details(s) {
        (Some(v), r) => Some((v, r)),
        (None, _) => None,
    }
}

/// Creation arguments: the data, then the optional collection and uses.
#[verifier::opaque]
pub open spec fn sp_data_v2(s: Seq<u8>) -> Option<(DataV2View, Seq<u8>)> {
    match sp_data(s) {
        None => None,
        Some((d, r1)) => match sp_opt_collection(r1) {
            None => None,
            Some((c, r2)) => match sp_opt_uses(r2) {
                None => None,
                Some((u, r3)) => Some((DataV2View { data: d, collection: c, uses: u }, r3)),
            },
        },
    }
}

/// An optional value: tag 0 for none, 1 followed by the value.
#[verifier::opaque]
pub open spec fn sp_opt_data(s: Seq<u8>) -> Option<(Option<DataView>, Seq<u8>)> {
    match sp_u8(s) {
        Some((t, r)) => if t == 0 {
            Some((None, r))
        } else if t == 1 {
            match sp_data(r) {
                Some((x, r2)) => Some((Some(x), r2)),
                None => None,
            }
        } else {
            None
        },
        None => None,
    }
}

#[verifier::opaque]
pub open spec fn sp_opt_data_v2(s: Seq<u8>) -> Option<(Option<DataV2View>, Seq<u8>)> {
    match sp_u8(s) {
        Some((t, r)) => if t == 0 {
            Some((None, r))
        } else if t == 1 {
            match sp_data_v2(r) {
                Some((x, r2)) => Some((Some(x), r2)),
                None => None,
            }
        } else {
            None
        },
        None => None,
    }
}

#[verifier::opaque]
pub open spec fn sp_opt_pubkey(s: Seq<u8>) -> Option<(Option<Pubkey>, Seq<u8>)> {
    match sp_u8(s) {
        Some((t, r)) => if t == 0 {
            Some((None, r))
        } else if t == 1 {
            match sp_pubkey(r) {
                Some((x, r2)) => Some((Some(x), r2)),
                None => None,
            }
        } else {
            None
        },
        None => None,
    }
}

#[verifier::opaque]
pub open spec fn sp_opt_bool(s: Seq<u8>) -> Option<(Option<bool>, Seq<u8>)> {
    match sp_u8(s) {
        Some((t, r)) => if t == 0 {
            Some((None, r))
        } else if t == 1 {
            match sp_bool(r) {
                Some((x, r2)) => Some((Some(x), r2)),
                None => None,
            }
        } else {
            None
        },
        None => None,
    }
}

/// The arguments of the removed reservation-list instruction: a list of reservations (each an
/// address and two eight-byte counts), an optional total, and two offsets. Only their length
/// matters.
#[verifier::opaque]
pub open spec fn sp_reservation_args(s: Seq<u8>) -> Option<((), Seq<u8>)> {
    match sp_u32(s) {
        None => None,
        Some((n, r)) => if r.len() < 48 * n {
            None
        } else {
            match sp_opt_u64(r.skip(48 * n)) {
                None => None,
                Some((_, r2)) => match sp_u64(r2) {
                    None => None,
                    Some((_, r3)) => match sp_u64(r3) {
                        None => None,
                        Some((_, r4)) => Some(((), r4)),
                    },
                },
            }
        },
    }
}

pub fn rd_opt_collection(s: &[u8], p: usize) -> (r: Option<(Option<Collection>, usize)>)
    requires
        p <= s@.len(),
    ensures
        match r {
            Some((x, q)) => read_ok(s@, p, q, x, sp_opt_collection(s@.skip(p as int))),
            None => sp_opt_collection(s@.skip(p as int)) is None,
        },
{
    reveal(sp_opt_collection);
    let (v, q) = tr_collection(s, p);
    match v {
        Some(x) => Some((x, q)),
        None => None,
    }
}

pub fn rd_opt_uses(s: &[u8], p: usize) -> (r: Option<(Option<Uses>, usize)>)
    requires
        p <= s@.len(),
    ensures
        match r {
            Some((x, q)) => read_ok(s@, p, q, x, sp_opt_uses(s@.skip(p as int))),
            None => sp_opt_uses(s@.skip(p as int)) is None,
        },
{
    reveal(sp_opt_uses);
    let (v, q) = tr_uses(s, p);
    match v {
        Some(x) => Some((x, q)),
        None => None,
    }
}

pub fn rd_opt_details(s: &[u8], p: usize) -> (r: Option<(Option<CollectionDetails>, usize)>)
    requires
        p <= s@.len(),
    ensures
        match r {
            Some((x, q)) => read_ok(s@, p, q, x, sp_opt_details(s@.skip(p as int))),
            None => sp_opt_details(s@.skip(p as int)) is None,
        },
{
    reveal(sp_opt_details);
    let (v, q) = tr_collection_details(s, p);
    match v {
        Some(x) => Some((x, q)),
        None => None,
    }
}

pub fn rd_data_v2(s: &[u8], p: usize) -> (r: Option<(DataV2, usize)>)
    requires
        p <= s@.len(),
    ensures
        match r {
            Some((x, q)) => read_ok(s@, p, q, x@, sp_data_v2(s@.skip(p as int))),
            None => sp_data_v2(s@.skip(p as int)) is None,
        },
{
    reveal(sp_data_v2);
    let (d, q1) = match rd_data(s, p) {
        Some(v) => v,
        None => return None,
    };
    let (c, q2) = match rd_opt_collection(s, q1) {
        Some(v) => v,
        None => return None,
    };
    let (u, q3) = match rd_opt_uses(s, q2) {
        Some(v) => v,
        None => return None,
    };
    let ghost dv = d@;
    let d2 = DataV2 {
        name: d.name,
        symbol: d.symbol,
        uri: d.uri,
        seller_fee_basis_points: d.seller_fee_basis_points,
        creators: d.creators,
        collection: c,
        uses: u,
    };
    assert(d2@ =~= DataV2View { data: dv, collection: c, uses: u });
    Some((d2, q3))
}

pub fn rd_opt_data(s: &[u8], p: usize) -> (r: Option<(Option<Data>, usize)>)
    requires
        p <= s@.len(),
    ensures
        match r {
            Some((x, q)) => read_ok(s@, p, q, opt_data_view(x), sp_opt_data(s@.skip(p as int))),
            None => sp_opt_data(s@.skip(p as int)) is None,
        },
{
    reveal(sp_opt_data);
    match rd_u8(s, p) {
        Some((t, q)) => if t == 0 {
            Some((None, q))
        } else if t == 1 {
            match rd_data(s, q) {
                Some((x, q2)) => Some((Some(x), q2)),
                None => None,
            }
        } else {
            None
        },
        None => None,
    }
}

pub fn rd_opt_data_v2(s: &[u8], p: usize) -> (r: Option<(Option<DataV2>, usize)>)
    requires
        p <= s@.len(),
    ensures
        match r {
            Some((x, q)) => read_ok(s@, p, q, opt_data_v2_view(x), sp_opt_data_v2(s@.skip(p as int))),
            None => sp_opt_data_v2(s@.skip(p as int)) is None,
        },
{
    reveal(sp_opt_data_v2);
    match rd_u8(s, p) {
        Some((t, q)) => if t == 0 {
            Some((None, q))
        } else if t == 1 {
            match rd_data_v2(s, q) {
                Some((x, q2)) => Some((Some(x), q2)),
                None => None,
            }
        } else {
            None
        },
        None => None,
    }
}

pub fn rd_opt_pubkey(s: &[u8], p: usize) -> (r: Option<(Option<Pubkey>, usize)>)
    requires
        p <= s@.len(),
    ensures
        match r {
            Some((x, q)) => read_ok(s@, p, q, x, sp_opt_pubkey(s@.skip(p as int))),
            None => sp_opt_pubkey(s@.skip(p as int)) is None,
        },
{
    reveal(sp_opt_pubkey);
    match rd_u8(s, p) {
        Some((t, q)) => if t == 0 {
            Some((None, q))
        } else if t == 1 {
            match rd_pubkey(s, q) {
                Some((x, q2)) => Some((Some(x), q2)),
                None => None,
            }
        } else {
            None
        },
        None => None,
    }
}

pub fn rd_opt_bool(s: &[u8], p: usize) -> (r: Option<(Option<bool>, usize)>)
    requires
        p <= s@.len(),
    ensures
        match r {
            Some((x, q)) => read_ok(s@, p, q, x, sp_opt_bool(s@.skip(p as int))),
            None => sp_opt_bool(s@.skip(p as int)) is None,
        },
{
    reveal(sp_opt_bool);
    match rd_u8(s, p) {
        Some((t, q)) => if t == 0 {
            Some((None, q))
        } else if t == 1 {
            match rd_bool(s, q) {
                Some((x, q2)) => Some((Some(x), q2)),
                None => None,
            }
        } else {
            None
        },
        None => None,
    }
}

pub fn rd_reservation_args(s: &[u8], p: usize) -> (r: Option<((), usize)>)
    requires
        p <= s@.len(),
    ensures
        match r {
            Some((x, q)) => read_ok(s@, p, q, x, sp_reservation_args(s@.skip(p as int))),
            None => sp_reservation_args(s@.skip(p as int)) is None,
        },
{
    reveal(sp_reservation_args);
    let (n, q) = match rd_u32(s, p) {
        Some(v) => v,
        None => return None,
    };
    let need: u64 = 48 * (n as u64);
    let left: u64 = (s.len() - q) as u64;
    if left < need {
        return None;
    }
    let q1 = q + (need as usize);
    assert(s@.skip(q as int).skip(48 * n) =~= s@.skip(q1 as int));
    let (_, q2) = match rd_opt_u64(s, q1) {
        Some(v) => v,
        None => return None,
    };
    let (_, q3) = match rd_u64(s, q2) {
        Some(v) => v,
        None => return None,
    };
    let (_, q4) = match rd_u64(s, q3) {
        Some(v) => v,
        None => return None,
    };
    Some(((), q4))
}

// ---------------------------------------------------------------- instructions

/// An instruction of the program, with its arguments. The variants stand in the order of
/// their tag byte, from 0.
#[derive(Clone, Debug)]
pub enum MetadataInstruction {
    CreateMetadataAccount { data: Data, is_mutable: bool },
    UpdateMetadataAccount {
        data: Option<Data>,
        update_authority: Option<Pubkey>,
        primary_sale_happened: Option<bool>,
    },
    DeprecatedCreateMasterEdition { max_supply: Option<u64> },
    DeprecatedMintNewEditionFromMasterEditionViaPrintingToken,
    UpdatePrimarySaleHappenedViaToken,
    DeprecatedSetReservationList,
    DeprecatedCreateReservationList,
    SignMetadata,
    DeprecatedMintPrintingTokensViaToken { supply: u64 },
    DeprecatedMintPrintingTokens { supply: u64 },
    CreateMasterEdition { max_supply: Option<u64> },
    MintNewEditionFromMasterEditionViaToken { edition: u64 },
    ConvertMasterEditionV1ToV2,
    MintNewEditionFromMasterEditionViaVaultProxy { edition: u64 },
    PuffMetadata,
    UpdateMetadataAccountV2 {
        data: Option<DataV2>,
        update_authority: Option<Pubkey>,
        primary_sale_happened: Option<bool>,
        is_mutable: Option<bool>,
    },
    CreateMetadataAccountV2 { data: DataV2, is_mutable: bool },
    CreateMasterEditionV3 { max_supply: Option<u64> },
    VerifyCollection,
    Utilize { number_of_uses: u64 },
    ApproveUseAuthority { number_of_uses: u64 },
    RevokeUseAuthority,
    UnverifyCollection,
    ApproveCollectionAuthority,
    RevokeCollectionAuthority,
    SetAndVerifyCollection,
    FreezeDelegatedAccount,
    ThawDelegatedAccount,
    RemoveCreatorVerification,
    BurnNft,
    VerifySizedCollectionItem,
    UnverifySizedCollectionItem,
    SetAndVerifySizedCollectionItem,
    CreateMetadataAccountV3 { data: DataV2, is_mutable: bool, collection_details: Option<CollectionDetails> },
    SetCollectionSize { size: u64 },
    SetTokenStandard,
    BubblegumSetCollectionSize { size: u64 },
    BurnEditionNft,
}

/// What a `MetadataInstruction` holds.
pub enum InstructionView {
    CreateMetadataAccount { data: DataView, is_mutable: bool },
    UpdateMetadataAccount {
        data: Option<DataView>,
        update_authority: Option<Pubkey>,
        primary_sale_happened: Option<bool>,
    },
    DeprecatedCreateMasterEdition { max_supply: Option<u64> },
    DeprecatedMintNewEditionFromMasterEditionViaPrintingToken,
    UpdatePrimarySaleHappenedViaToken,
    DeprecatedSetReservationList,
    DeprecatedCreateReservationList,
    SignMetadata,
    DeprecatedMintPrintingTokensViaToken { supply: u64 },
    DeprecatedMintPrintingTokens { supply: u64 },
    CreateMasterEdition { max_supply: Option<u64> },
    MintNewEditionFromMasterEditionViaToken { edition: u64 },
    ConvertMasterEditionV1ToV2,
    MintNewEditionFromMasterEditionViaVaultProxy { edition: u64 },
    PuffMetadata,
    UpdateMetadataAccountV2 {
        data: Option<DataV2View>,
        update_authority: Option<Pubkey>,
        primary_sale_happened: Option<bool>,
        is_mutable: Option<bool>,
    },
    CreateMetadataAccountV2 { data: DataV2View, is_mutable: bool },
    CreateMasterEditionV3 { max_supply: Option<u64> },
    VerifyCollection,
    Utilize { number_of_uses: u64 },
    ApproveUseAuthority { number_of_uses: u64 },
    RevokeUseAuthority,
    UnverifyCollection,
    ApproveCollectionAuthority,
    RevokeCollectionAuthority,
    SetAndVerifyCollection,
    FreezeDelegatedAccount,
    ThawDelegatedAccount,
    RemoveCreatorVerification,
    BurnNft,
    VerifySizedCollectionItem,
    UnverifySizedCollectionItem,
    SetAndVerifySizedCollectionItem,
    CreateMetadataAccountV3 { data: DataV2View, is_mutable: bool, collection_details: Option<CollectionDetails> },
    SetCollectionSize { size: u64 },
    SetTokenStandard,
    BubblegumSetCollectionSize { size: u64 },
    BurnEditionNft,
}

impl View for MetadataInstruction {
    type V = InstructionView;

    open spec fn view(&self) -> InstructionView {
        match self {
            MetadataInstruction::CreateMetadataAccount { data, is_mutable } => InstructionView::CreateMetadataAccount {
                data: data@,
                is_mutable: *is_mutable,
            },
            MetadataInstruction::UpdateMetadataAccount { data, update_authority, primary_sale_happened } => InstructionView::UpdateMetadataAccount {
                data: opt_data_view(*data),
                update_authority: *update_authority,
                primary_sale_happened: *primary_sale_happened,
            },
            MetadataInstruction::DeprecatedCreateMasterEdition { max_supply } => InstructionView::DeprecatedCreateMasterEdition {
                max_supply: *max_supply,
            },
            MetadataInstruction::DeprecatedMintNewEditionFromMasterEditionViaPrintingToken => InstructionView::DeprecatedMintNewEditionFromMasterEditionViaPrintingToken,
            MetadataInstruction::UpdatePrimarySaleHappenedViaToken => InstructionView::UpdatePrimarySaleHappenedViaToken,
            MetadataInstruction::DeprecatedSetReservationList => InstructionView::DeprecatedSetReservationList,
            MetadataInstruction::DeprecatedCreateReservationList => InstructionView::DeprecatedCreateReservationList,
            MetadataInstruction::SignMetadata => InstructionView::SignMetadata,
            MetadataInstruction::DeprecatedMintPrintingTokensViaToken { supply } => InstructionView::DeprecatedMintPrintingTokensViaToken {
                supply: *supply,
            },
            MetadataInstruction::DeprecatedMintPrintingTokens { supply } => InstructionView::DeprecatedMintPrintingTokens {
                supply: *supply,
            },
            MetadataInstruction::CreateMasterEdition { max_supply } => InstructionView::CreateMasterEdition {
                max_supply: *max_supply,
            },
            MetadataInstruction::MintNewEditionFromMasterEditionViaToken { edition } => InstructionView::MintNewEditionFromMasterEditionViaToken {
                edition: *edition,
            },
            MetadataInstruction::ConvertMasterEditionV1ToV2 => InstructionView::ConvertMasterEditionV1ToV2,
            MetadataInstruction::MintNewEditionFromMasterEditionViaVaultProxy { edition } => InstructionView::MintNewEditionFromMasterEditionViaVaultProxy {
                edition: *edition,
            },
            MetadataInstruction::PuffMetadata => InstructionView::PuffMetadata,
            MetadataInstruction::UpdateMetadataAccountV2 { data, update_authority, primary_sale_happened, is_mutable } => InstructionView::UpdateMetadataAccountV2 {
                data: opt_data_v2_view(*data),
                update_authority: *update_authority,
                primary_sale_happened: *primary_sale_happened,
                is_mutable: *is_mutable,
            },
            MetadataInstruction::CreateMetadataAccountV2 { data, is_mutable } => InstructionView::CreateMetadataAccountV2 {
                data: data@,
                is_mutable: *is_mutable,
            },
            MetadataInstruction::CreateMasterEditionV3 { max_supply } => InstructionView::CreateMasterEditionV3 {
                max_supply: *max_supply,
            },
            MetadataInstruction::VerifyCollection => InstructionView::VerifyCollection,
            MetadataInstruction::Utilize { number_of_uses } => InstructionView::Utilize { number_of_uses: *number_of_uses },
            MetadataInstruction::ApproveUseAuthority { number_of_uses } => InstructionView::ApproveUseAuthority {
                number_of_uses: *number_of_uses,
            },
            MetadataInstruction::RevokeUseAuthority => InstructionView::RevokeUseAuthority,
            MetadataInstruction::UnverifyCollection => InstructionView::UnverifyCollection,
            MetadataInstruction::ApproveCollectionAuthority => InstructionView::ApproveCollectionAuthority,
            MetadataInstruction::RevokeCollectionAuthority => InstructionView::RevokeCollectionAuthority,
            MetadataInstruction::SetAndVerifyCollection => InstructionView::SetAndVerifyCollection,
            MetadataInstruction::FreezeDelegatedAccount => InstructionView::FreezeDelegatedAccount,
            MetadataInstruction::ThawDelegatedAccount => InstructionView::ThawDelegatedAccount,
            MetadataInstruction::RemoveCreatorVerification => InstructionView::RemoveCreatorVerification,
            MetadataInstruction::BurnNft => InstructionView::BurnNft,
            MetadataInstruction::VerifySizedCollectionItem => InstructionView::VerifySizedCollectionItem,
            MetadataInstruction::UnverifySizedCollectionItem => InstructionView::UnverifySizedCollectionItem,
            MetadataInstruction::SetAndVerifySizedCollectionItem => InstructionView::SetAndVerifySizedCollectionItem,
            MetadataInstruction::CreateMetadataAccountV3 { data, is_mutable, collection_details } => InstructionView::CreateMetadataAccountV3 {
                data: data@,
                is_mutable: *is_mutable,
                collection_details: *collection_details,
            },
            MetadataInstruction::SetCollectionSize { size } => InstructionView::SetCollectionSize { size: *size },
            MetadataInstruction::SetTokenStandard => InstructionView::SetTokenStandard,
            MetadataInstruction::BubblegumSetCollectionSize { size } => InstructionView::BubblegumSetCollectionSize {
                size: *size,
            },
            MetadataInstruction::BurnEditionNft => InstructionView::BurnEditionNft,
        }
    }
}

/// The arguments of the instruction with tag `tag`, read from `s`.
#[verifier::opaque]
pub open spec fn sp_args(tag: u8, s: Seq<u8>) -> Option<(InstructionView, Seq<u8>)> {
    if tag == 0 {
        match sp_data(s) {
            None => None,
            Some((d, r)) => match sp_bool(r) {
                None => None,
                Some((m, r2)) => Some((InstructionView::CreateMetadataAccount { data: d, is_mutable: m }, r2)),
            },
        }
    } else if tag == 1 {
        match sp_opt_data(s) {
            None => None,
            Some((d, r)) => match sp_opt_pubkey(r) {
                None => None,
                Some((k, r2)) => match sp_opt_bool(r2) {
                    None => None,
                    Some((p, r3)) => Some(
                        (
                            InstructionView::UpdateMetadataAccount {
                                data: d,
                                update_authority: k,
                                primary_sale_happened: p,
                            },
                            r3,
                        ),
                    ),
                },
            },
        }
    } else if tag == 2 || tag == 10 || tag == 17 {
        match sp_opt_u64(s) {
            None => None,
            Some((x, r)) => Some(
                (
                    if tag == 2 {
                        InstructionView::DeprecatedCreateMasterEdition { max_supply: x }
                    } else if tag == 10 {
                        InstructionView::CreateMasterEdition { max_supply: x }
                    } else {
                        InstructionView::CreateMasterEditionV3 { max_supply: x }
                    },
                    r,
                ),
            ),
        }
    } else if tag == 3 {
        Some((InstructionView::DeprecatedMintNewEditionFromMasterEditionViaPrintingToken, s))
    } else if tag == 4 {
        Some((InstructionView::UpdatePrimarySaleHappenedViaToken, s))
    } else if tag == 5 {
        match sp_reservation_args(s) {
            None => None,
            Some((_, r)) => Some((InstructionView::DeprecatedSetReservationList, r)),
        }
    } else if tag == 6 {
        Some((InstructionView::DeprecatedCreateReservationList, s))
    } else if tag == 7 {
        Some((InstructionView::SignMetadata, s))
    } else if tag == 8 || tag == 9 || tag == 11 || tag == 13 || tag == 19 || tag == 20 || tag == 34
        || tag == 36 {
        match sp_u64(s) {
            None => None,
            Some((x, r)) => Some(
                (
                    if tag == 8 {
                        InstructionView::DeprecatedMintPrintingTokensViaToken { supply: x }
                    } else if tag == 9 {
                        InstructionView::DeprecatedMintPrintingTokens { supply: x }
                    } else if tag == 11 {
                        InstructionView::MintNewEditionFromMasterEditionViaToken { edition: x }
                    } else if tag == 13 {
                        InstructionView::MintNewEditionFromMasterEditionViaVaultProxy { edition: x }
                    } else if tag == 19 {
                        InstructionView::Utilize { number_of_uses: x }
                    } else if tag == 20 {
                        InstructionView::ApproveUseAuthority { number_of_uses: x }
                    } else if tag == 34 {
                        InstructionView::SetCollectionSize { size: x }
                    } else {
                        InstructionView::BubblegumSetCollectionSize { size: x }
                    },
                    r,
                ),
            ),
        }
    } else if tag == 12 {
        Some((InstructionView::ConvertMasterEditionV1ToV2, s))
    } else if tag == 14 {
        Some((InstructionView::PuffMetadata, s))
    } else if tag == 15 {
        match sp_opt_data_v2(s) {
            None => None,
            Some((d, r)) => match sp_opt_pubkey(r) {
                None => None,
                Some((k, r2)) => match sp_opt_bool(r2) {
                    None => None,
                    Some((p, r3)) => match sp_opt_bool(r3) {
                        None => None,
                        Some((m, r4)) => Some(
                            (
                                InstructionView::UpdateMetadataAccountV2 {
                                    data: d,
                                    update_authority: k,
                                    primary_sale_happened: p,
                                    is_mutable: m,
                                },
                                r4,
                            ),
                        ),
                    },
                },
            },
        }
    } else if tag == 16 || tag == 33 {
        match sp_data_v2(s) {
            None => None,
            Some((d, r)) => match sp_bool(r) {
                None => None,
                Some((m, r2)) => if tag == 16 {
                    Some((InstructionView::CreateMetadataAccountV2 { data: d, is_mutable: m }, r2))
                } else {
                    match sp_opt_details(r2) {
                        None => None,
                        Some((c, r3)) => Some(
                            (
                                InstructionView::CreateMetadataAccountV3 {
                                    data: d,
                                    is_mutable: m,
                                    collection_details: c,
                                },
                                r3,
                            ),
                        ),
                    }
                },
            },
        }
    } else if tag == 18 {
        Some((InstructionView::VerifyCollection, s))
    } else if tag == 21 {
        Some((InstructionView::RevokeUseAuthority, s))
    } else if tag == 22 {
        Some((InstructionView::UnverifyCollection, s))
    } else if tag == 23 {
        Some((InstructionView::ApproveCollectionAuthority, s))
    } else if tag == 24 {
        Some((InstructionView::RevokeCollectionAuthority, s))
    } else if tag == 25 {
        Some((InstructionView::SetAndVerifyCollection, s))
    } else if tag == 26 {
        Some((InstructionView::FreezeDelegatedAccount, s))
    } else if tag == 27 {
        Some((InstructionView::ThawDelegatedAccount, s))
    } else if tag == 28 {
        Some((InstructionView::RemoveCreatorVerification, s))
    } else if tag == 29 {
        Some((InstructionView::BurnNft, s))
    } else if tag == 30 {
        Some((InstructionView::VerifySizedCollectionItem, s))
    } else if tag == 31 {
        Some((InstructionView::UnverifySizedCollectionItem, s))
    } else if tag == 32 {
        Some((InstructionView::SetAndVerifySizedCollectionItem, s))
    } else if tag == 35 {
        Some((InstructionView::SetTokenStandard, s))
    } else if tag == 37 {
        Some((InstructionView::BurnEditionNft, s))
    } else {
        None
    }
}

/// The instruction that instruction data encodes: its tag byte, then its arguments, with
/// nothing left over.
pub open spec fn instruction_of_bytes(s: Seq<u8>) -> Option<InstructionView> {
    match sp_u8(s) {
        None => None,
        Some((tag, r)) => match sp_args(tag, r) {
            None => None,
            Some((ix, rest)) => if rest.len() == 0 {
                Some(ix)
            } else {
                None
            },
        },
    }
}

fn rd_args(tag: u8, s: &[u8], p: usize) -> (r: Option<(MetadataInstruction, usize)>)
    requires
        p <= s@.len(),
    ensures
        match r {
            Some((x, q)) => read_ok(s@, p, q, x@, sp_args(tag, s@.skip(p as int))),
            None => sp_args(tag, s@.skip(p as int)) is None,
        },
{
    reveal(sp_args);
    proof {
        assert(s@.skip(p as int) =~= s@.skip(p as int));
    }
    if tag == 0 {
        let (d, q) = match rd_data(s, p) {
            Some(v) => v,
            None => return None,
        };
        let (m, q2) = match rd_bool(s, q) {
            Some(v) => v,
            None => return None,
        };
        Some((MetadataInstruction::CreateMetadataAccount { data: d, is_mutable: m }, q2))
    } else if tag == 1 {
        let (d, q) = match rd_opt_data(s, p) {
            Some(v) => v,
            None => return None,
        };
        let (k, q2) = match rd_opt_pubkey(s, q) {
            Some(v) => v,
            None => return None,
        };
        let (ps, q3) = match rd_opt_bool(s, q2) {
            Some(v) => v,
            None => return None,
        };
        Some((MetadataInstruction::UpdateMetadataAccount { data: d, update_authority: k, primary_sale_happened: ps }, q3))
    } else if tag == 2 || tag == 10 || tag == 17 {
        let (x, q) = match rd_opt_u64(s, p) {
            Some(v) => v,
            None => return None,
        };
        let ix = if tag == 2 {
            MetadataInstruction::DeprecatedCreateMasterEdition { max_supply: x }
        } else if tag == 10 {
            MetadataInstruction::CreateMasterEdition { max_supply: x }
        } else {
            MetadataInstruction::CreateMasterEditionV3 { max_supply: x }
        };
        Some((ix, q))
    } else if tag == 3 {
        Some((MetadataInstruction::DeprecatedMintNewEditionFromMasterEditionViaPrintingToken, p))
    } else if tag == 4 {
        Some((MetadataInstruction::UpdatePrimarySaleHappenedViaToken, p))
    } else if tag == 5 {
        let (_, q) = match rd_reservation_args(s, p) {
            Some(v) => v,
            None => return None,
        };
        Some((MetadataInstruction::DeprecatedSetReservationList, q))
    } else if tag == 6 {
        Some((MetadataInstruction::DeprecatedCreateReservationList, p))
    } else if tag == 7 {
        Some((MetadataInstruction::SignMetadata, p))
    } else if tag == 8 || tag == 9 || tag == 11 || tag == 13 || tag == 19 || tag == 20 || tag == 34
        || tag == 36 {
        let (x, q) = match rd_u64(s, p) {
            Some(v) => v,
            None => return None,
        };
        let ix = if tag == 8 {
            MetadataInstruction::DeprecatedMintPrintingTokensViaToken { supply: x }
        } else if tag == 9 {
            MetadataInstruction::DeprecatedMintPrintingTokens { supply: x }
        } else if tag == 11 {
            MetadataInstruction::MintNewEditionFromMasterEditionViaToken { edition: x }
        } else if tag == 13 {
            MetadataInstruction::MintNewEditionFromMasterEditionViaVaultProxy { edition: x }
        } else if tag == 19 {
            MetadataInstruction::Utilize { number_of_uses: x }
        } else if tag == 20 {
            MetadataInstruction::ApproveUseAuthority { number_of_uses: x }
        } else if tag == 34 {
            MetadataInstruction::SetCollectionSize { size: x }
        } else {
            MetadataInstruction::BubblegumSetCollectionSize { size: x }
        };
        Some((ix, q))
    } else if tag == 12 {
        Some((MetadataInstruction::ConvertMasterEditionV1ToV2, p))
    } else if tag == 14 {
        Some((MetadataInstruction::PuffMetadata, p))
    } else if tag == 15 {
        let (d, q) = match rd_opt_data_v2(s, p) {
            Some(v) => v,
            None => return None,
        };
        let (k, q2) = match rd_opt_pubkey(s, q) {
            Some(v) => v,
            None => return None,
        };
        let (ps, q3) = match rd_opt_bool(s, q2) {
            Some(v) => v,
            None => return None,
        };
        let (m, q4) = match rd_opt_bool(s, q3) {
            Some(v) => v,
            None => return None,
        };
        Some((
            MetadataInstruction::UpdateMetadataAccountV2 {
                data: d,
                update_authority: k,
                primary_sale_happened: ps,
                is_mutable: m,
            },
            q4,
        ))
    } else if tag == 16 || tag == 33 {
        let (d, q) = match rd_data_v2(s, p) {
            Some(v) => v,
            None => return None,
        };
        let (m, q2) = match rd_bool(s, q) {
            Some(v) => v,
            None => return None,
        };
        if tag == 16 {
            Some((MetadataInstruction::CreateMetadataAccountV2 { data: d, is_mutable: m }, q2))
        } else {
            let (c, q3) = match rd_opt_details(s, q2) {
                Some(v) => v,
                None => return None,
            };
            Some((MetadataInstruction::CreateMetadataAccountV3 { data: d, is_mutable: m, collection_details: c }, q3))
        }
    } else if tag == 18 {
        Some((MetadataInstruction::VerifyCollection, p))
    } else if tag == 21 {
        Some((MetadataInstruction::RevokeUseAuthority, p))
    } else if tag == 22 {
        Some((MetadataInstruction::UnverifyCollection, p))
    } else if tag == 23 {
        Some((MetadataInstruction::ApproveCollectionAuthority, p))
    } else if tag == 24 {
        Some((MetadataInstruction::RevokeCollectionAuthority, p))
    } else if tag == 25 {
        Some((MetadataInstruction::SetAndVerifyCollection, p))
    } else if tag == 26 {
        Some((MetadataInstruction::FreezeDelegatedAccount, p))
    } else if tag == 27 {
        Some((MetadataInstruction::ThawDelegatedAccount, p))
    } else if tag == 28 {
        Some((MetadataInstruction::RemoveCreatorVerification, p))
    } else if tag == 29 {
        Some((MetadataInstruction::BurnNft, p))
    } else if tag == 30 {
        Some((MetadataInstruction::VerifySizedCollectionItem, p))
    } else if tag == 31 {
        Some((MetadataInstruction::UnverifySizedCollectionItem, p))
    } else if tag == 32 {
        Some((MetadataInstruction::SetAndVerifySizedCollectionItem, p))
    } else if tag == 35 {
        Some((MetadataInstruction::SetTokenStandard, p))
    } else if tag == 37 {
        Some((MetadataInstruction::BurnEditionNft, p))
    } else {
        None
    }
}

/// Decodes instruction data; `None` exactly when it encodes no instruction.
pub fn decode_instruction(input: &[u8]) -> (r: Option<MetadataInstruction>)
    ensures
        match r {
            Some(ix) => instruction_of_bytes(input@) == Some(ix@),
            None => instruction_of_bytes(input@) is None,
        },
{
    assert(input@.skip(0) =~= input@);
    let (tag, p) = match rd_u8(input, 0) {
        Some(v) => v,
        None => return None,
    };
    let (ix, q) = match rd_args(tag, input, p) {
        Some(v) => v,
        None => return None,
    };
    if q == input.len() {
        Some(ix)
    } else {
        None
    }
}

/// What running an instruction does: data that encodes no instruction fails to deserialize;
/// removed instructions fail with `Removed`; every other instruction does what its handler does.
pub open spec fn process_instruction_spec(program_id: Pubkey, accs: Seq<AccountView>, input: Seq<u8>) -> Result<
    Seq<EffectView>,
    ProgramError,
> {
    match instruction_of_bytes(input) {
        None => Err(ProgramError::BorshIoError),
        Some(ix) => match ix {
            InstructionView::CreateMetadataAccount { data, is_mutable } => deprecated_create_metadata_accounts_spec(
                program_id,
                accs,
                data,
                is_mutable,
            ),
            InstructionView::UpdateMetadataAccount { data, update_authority, primary_sale_happened } => deprecated_update_metadata_accounts_spec(
                program_id,
                accs,
                data,
                update_authority,
                primary_sale_happened,
            ),
            InstructionView::CreateMetadataAccountV2 { data, is_mutable } => create_metadata_accounts_v2_spec(
                program_id,
                accs,
                data,
                is_mutable,
            ),
            InstructionView::CreateMetadataAccountV3 { data, is_mutable, collection_details } => create_metadata_accounts_v3_spec(
                program_id,
                accs,
                data,
                is_mutable,
                collection_details,
            ),
            InstructionView::UpdateMetadataAccountV2 { data, update_authority, primary_sale_happened, is_mutable } => update_metadata_accounts_v2_spec(
                program_id,
                accs,
                data,
                update_authority,
                primary_sale_happened,
                is_mutable,
            ),
            InstructionView::DeprecatedCreateMasterEdition { .. } => Err(merr(MetadataError::Removed)),
            InstructionView::DeprecatedMintNewEditionFromMasterEditionViaPrintingToken => Err(merr(MetadataError::Removed)),
            InstructionView::UpdatePrimarySaleHappenedViaToken => update_primary_sale_happened_via_token_spec(program_id, accs),
            InstructionView::DeprecatedSetReservationList => Err(merr(MetadataError::Removed)),
            InstructionView::DeprecatedCreateReservationList => Err(merr(MetadataError::Removed)),
            InstructionView::SignMetadata => creator_verification_spec(program_id, accs, true),
            InstructionView::RemoveCreatorVerification => creator_verification_spec(program_id, accs, false),
            InstructionView::DeprecatedMintPrintingTokensViaToken { .. } => Err(merr(MetadataError::Removed)),
            InstructionView::DeprecatedMintPrintingTokens { .. } => Err(merr(MetadataError::Removed)),
            InstructionView::CreateMasterEdition { max_supply } => create_master_edition_spec(program_id, accs, max_supply),
            InstructionView::CreateMasterEditionV3 { max_supply } => create_master_edition_spec(program_id, accs, max_supply),
            InstructionView::MintNewEditionFromMasterEditionViaToken { edition } => mint_new_edition_via_token_spec(
                program_id,
                accs,
                edition,
                false,
            ),
            InstructionView::ConvertMasterEditionV1ToV2 => convert_master_edition_v1_to_v2_spec(program_id, accs),
            InstructionView::MintNewEditionFromMasterEditionViaVaultProxy { edition } => mint_new_edition_via_vault_proxy_spec(
                program_id,
                accs,
                edition,
            ),
            InstructionView::PuffMetadata => puff_metadata_account_spec(program_id, accs),
            InstructionView::VerifyCollection => verify_collection_spec(program_id, accs),
            InstructionView::SetAndVerifyCollection => set_and_verify_collection_spec(program_id, accs),
            InstructionView::UnverifyCollection => unverify_collection_spec(program_id, accs),
            InstructionView::Utilize { number_of_uses } => utilize_spec(program_id, accs, number_of_uses),
            InstructionView::ApproveUseAuthority { number_of_uses } => approve_use_authority_spec(
                program_id,
                accs,
                number_of_uses,
            ),
            InstructionView::RevokeUseAuthority => revoke_use_authority_spec(program_id, accs),
            InstructionView::ApproveCollectionAuthority => approve_collection_authority_spec(program_id, accs),
            InstructionView::RevokeCollectionAuthority => revoke_collection_authority_spec(program_id, accs),
            InstructionView::FreezeDelegatedAccount => freeze_thaw_delegated_spec(program_id, accs, true),
            InstructionView::ThawDelegatedAccount => freeze_thaw_delegated_spec(program_id, accs, false),
            InstructionView::BurnNft => burn_nft_spec(program_id, accs),
            InstructionView::BurnEditionNft => burn_edition_nft_spec(program_id, accs),
            InstructionView::VerifySizedCollectionItem => verify_sized_collection_item_spec(program_id, accs),
            InstructionView::SetAndVerifySizedCollectionItem => set_and_verify_sized_collection_item_spec(
                program_id,
                accs,
            ),
            InstructionView::UnverifySizedCollectionItem => unverify_sized_collection_item_spec(program_id, accs),
            InstructionView::SetCollectionSize { size } => set_collection_size_spec(program_id, accs, size),
            InstructionView::SetTokenStandard => set_token_standard_spec(program_id, accs),
            InstructionView::BubblegumSetCollectionSize { size } => bubblegum_set_collection_size_spec(
                program_id,
                accs,
                size,
            ),
        },
    }
}

/// The program's entry point: decodes the instruction data and runs the instruction.
pub fn process_instruction(program_id: &Pubkey, accounts: &Vec<AccountInfo>, input: &[u8]) -> (r: Result<
    Vec<Effect>,
    ProgramError,
>)
    ensures
        outcome_view(r) == process_instruction_spec(*program_id, accounts_view(accounts@), input@),
{
    let ix = match decode_instruction(input) {
        None => return Err(ProgramError::BorshIoError),
        Some(ix) => ix,
    };
    match ix {
        MetadataInstruction::CreateMetadataAccount { data, is_mutable } => process_deprecated_create_metadata_accounts(
            program_id,
            accounts,
            data,
            is_mutable,
        ),
        MetadataInstruction::UpdateMetadataAccount { data, update_authority, primary_sale_happened } => process_deprecated_update_metadata_accounts(
            program_id,
            accounts,
            data,
            update_authority,
            primary_sale_happened,
        ),
        MetadataInstruction::CreateMetadataAccountV2 { data, is_mutable } => process_create_metadata_accounts_v2(
            program_id,
            accounts,
            data,
            is_mutable,
        ),
        MetadataInstruction::CreateMetadataAccountV3 { data, is_mutable, collection_details } => process_create_metadata_accounts_v3(
            program_id,
            accounts,
            data,
            is_mutable,
            collection_details,
        ),
        MetadataInstruction::UpdateMetadataAccountV2 { data, update_authority, primary_sale_happened, is_mutable } => process_update_metadata_accounts_v2(
            program_id,
            accounts,
            data,
            update_authority,
            primary_sale_happened,
            is_mutable,
        ),
        MetadataInstruction::DeprecatedCreateMasterEdition { .. } => Err(to_program_error(MetadataError::Removed)),
        MetadataInstruction::DeprecatedMintNewEditionFromMasterEditionViaPrintingToken => Err(to_program_error(MetadataError::Removed)),
        MetadataInstruction::UpdatePrimarySaleHappenedViaToken => process_update_primary_sale_happened_via_token(program_id, accounts),
        MetadataInstruction::DeprecatedSetReservationList => Err(to_program_error(MetadataError::Removed)),
        MetadataInstruction::DeprecatedCreateReservationList => Err(to_program_error(MetadataError::Removed)),
        MetadataInstruction::SignMetadata => process_sign_metadata(program_id, accounts),
        MetadataInstruction::RemoveCreatorVerification => process_remove_creator_verification(program_id, accounts),
        MetadataInstruction::DeprecatedMintPrintingTokensViaToken { .. } => Err(to_program_error(MetadataError::Removed)),
        MetadataInstruction::DeprecatedMintPrintingTokens { .. } => Err(to_program_error(MetadataError::Removed)),
        MetadataInstruction::CreateMasterEdition { max_supply } => process_create_master_edition(program_id, accounts, max_supply),
        MetadataInstruction::CreateMasterEditionV3 { max_supply } => process_create_master_edition(program_id, accounts, max_supply),
        MetadataInstruction::MintNewEditionFromMasterEditionViaToken { edition } => process_mint_new_edition_from_master_edition_via_token(
            program_id,
            accounts,
            edition,
            false,
        ),
        MetadataInstruction::ConvertMasterEditionV1ToV2 => process_convert_master_edition_v1_to_v2(program_id, accounts),
        MetadataInstruction::MintNewEditionFromMasterEditionViaVaultProxy { edition } => process_deprecated_mint_new_edition_from_master_edition_via_vault_proxy(
            program_id,
            accounts,
            edition,
        ),
        MetadataInstruction::PuffMetadata => process_puff_metadata_account(program_id, accounts),
        MetadataInstruction::VerifyCollection => verify_collection(program_id, accounts),
        MetadataInstruction::SetAndVerifyCollection => set_and_verify_collection(program_id, accounts),
        MetadataInstruction::UnverifyCollection => unverify_collection(program_id, accounts),
        MetadataInstruction::Utilize { number_of_uses } => process_utilize(program_id, accounts, number_of_uses),
        MetadataInstruction::ApproveUseAuthority { number_of_uses } => process_approve_use_authority(program_id, accounts, number_of_uses),
        MetadataInstruction::RevokeUseAuthority => process_revoke_use_authority(program_id, accounts),
        MetadataInstruction::ApproveCollectionAuthority => process_approve_collection_authority(program_id, accounts),
        MetadataInstruction::RevokeCollectionAuthority => process_revoke_collection_authority(program_id, accounts),
        MetadataInstruction::FreezeDelegatedAccount => process_freeze_delegated_account(program_id, accounts),
        MetadataInstruction::ThawDelegatedAccount => process_thaw_delegated_account(program_id, accounts),
        MetadataInstruction::BurnNft => process_burn_nft(program_id, accounts),
        MetadataInstruction::BurnEditionNft => process_burn_edition_nft(program_id, accounts),
        MetadataInstruction::VerifySizedCollectionItem => verify_sized_collection_item(program_id, accounts),
        MetadataInstruction::SetAndVerifySizedCollectionItem => set_and_verify_sized_collection_item(program_id, accounts),
        MetadataInstruction::UnverifySizedCollectionItem => unverify_sized_collection_item(program_id, accounts),
        MetadataInstruction::SetCollectionSize { size } => set_collection_size(program_id, accounts, size),
        MetadataInstruction::SetTokenStandard => set_token_standard(program_id, accounts),
        MetadataInstruction::BubblegumSetCollectionSize { size } => bubblegum_set_collection_size(program_id, accounts, size),
    }
}

} // verus!
