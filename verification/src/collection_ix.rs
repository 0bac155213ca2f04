//! Instructions on collections: verifying and unverifying members, setting a member's
//! collection, sizing a collection, and delegating collection authority.

use crate::account::{accounts_view, drain_effect, drain_lamports, no_effects, optional_last, optional_last_account, outcome_view, pair, pair_effects, single, single_effect, AccountInfo, AccountView, Effect, EffectView};
use crate::checks::{assert_derivation, assert_owned_by, chk_derivation};
use crate::codec::metadata_of_data;
use crate::decode::metadata_from_data;
use crate::encode::{metadata_write, write_metadata};
use crate::error::{merr, to_program_error, MetadataError, ProgramError};
use crate::ids::{bubblegum_id, bubblegum_program_id, collection_authority, collection_authority_seed, lemma_byte_vec_deep_view, prefix, prefix_seed, spl_token_program_id, token_program_id, BUBBLEGUM_ACTIVATED};
use crate::pubkey::Pubkey;
use crate::records::{en_collection_authority_record, encode_collection_authority_record};
use crate::rules::{assert_collection_verify_is_valid, assert_has_collection_authority, chk_collection_verify, chk_has_collection_authority, decrement_collection_size, decremented_size, increment_collection_size, incremented_size};
use crate::state::{Collection, CollectionAuthorityRecord, CollectionDetails, Key, Metadata, MetadataView, COLLECTION_AUTHORITY_RECORD_SIZE, USE_AUTHORITY_RECORD_SIZE};
use vstd::prelude::*;

verus! {

/// The item, the collection parent and the parent's edition are owned by the program, and the
/// collection mint by the token program.
pub open spec fn chk_collection_owners(
    program_id: Pubkey,
    item: AccountView,
    parent: AccountView,
    mint: AccountView,
    edition: AccountView,
) -> Result<(), ProgramError> {
    if item.owner != program_id {
        Err(merr(MetadataError::IncorrectOwner))
    } else if parent.owner != program_id {
        Err(merr(MetadataError::IncorrectOwner))
    } else if mint.owner != spl_token_program_id() {
        Err(merr(MetadataError::IncorrectOwner))
    } else if edition.owner != program_id {
        Err(merr(MetadataError::IncorrectOwner))
    } else {
        Ok(())
    }
}

pub fn assert_collection_owners(
    program_id: &Pubkey,
    item: &AccountInfo,
    parent: &AccountInfo,
    mint: &AccountInfo,
    edition: &AccountInfo,
) -> (r: Result<(), ProgramError>)
    ensures
        r == chk_collection_owners(*program_id, item@, parent@, mint@, edition@),
{
    assert_owned_by(item, program_id)?;
    assert_owned_by(parent, program_id)?;
    assert_owned_by(mint, &token_program_id())?;
    assert_owned_by(edition, program_id)?;
    Ok(())
}

/// The item with its collection's verified flag set to `v` (no change without a collection).
pub open spec fn with_collection_verified(m: MetadataView, v: bool) -> MetadataView {
    match m.collection {
        Some(c) => MetadataView { collection: Some(Collection { verified: v, ..c }), ..m },
        None => m,
    }
}

pub fn set_collection_verified(m: &Metadata, v: bool) -> (n: Metadata)
    ensures
        n@ == with_collection_verified(m@, v),
{
    let mut n = m.copy();
    match m.collection {
        Some(c) => {
            n.collection = Some(Collection { verified: v, key: c.key });
        },
        None => {},
    }
    n
}

// ---------------------------------------------------------------- unsized collections

/// The collection authority verifies an item of an unsized collection.
pub open spec fn verify_collection_spec(program_id: Pubkey, accs: Seq<AccountView>) -> Result<
    Seq<EffectView>,
    ProgramError,
> {
    if accs.len() < 6 {
        Err(ProgramError::NotEnoughAccountKeys)
    } else {
        let (mi, cai, payer, cmint, ci, ei) = (accs[0], accs[1], accs[2], accs[3], accs[4], accs[5]);
        if !cai.is_signer || !payer.is_signer {
            Err(ProgramError::MissingRequiredSignature)
        } else {
            match chk_collection_owners(program_id, mi, ci, cmint, ei) {
                Err(e) => Err(e),
                Ok(_) => match metadata_of_data(mi.data) {
                    None => Err(merr(MetadataError::DataTypeMismatch)),
                    Some(m) => match metadata_of_data(ci.data) {
                        None => Err(merr(MetadataError::DataTypeMismatch)),
                        Some(c) => match chk_collection_verify(m.collection, c, cmint, ei) {
                            Err(e) => Err(e),
                            Ok(_) => match chk_has_collection_authority(cai, c, cmint.key, optional_last(accs, 7)) {
                                Err(e) => Err(e),
                                Ok(_) => if c.collection_details is Some {
                                    Err(merr(MetadataError::SizedCollection))
                                } else if m.collection is Some {
                                    single(metadata_write(0, mi, with_collection_verified(m, true), false))
                                } else {
                                    Ok(Seq::empty())
                                },
                            },
                        },
                    },
                },
            }
        }
    }
}

pub fn verify_collection(program_id: &Pubkey, accounts: &Vec<AccountInfo>) -> (r: Result<
    Vec<Effect>,
    ProgramError,
>)
    ensures
        outcome_view(r) == verify_collection_spec(*program_id, accounts_view(accounts@)),
{
    if accounts.len() < 6 {
        return Err(ProgramError::NotEnoughAccountKeys);
    }
    let (mi, cai, payer, cmint, ci, ei) = (&accounts[0], &accounts[1], &accounts[2], &accounts[3], &accounts[4], &accounts[5]);
    if !cai.is_signer || !payer.is_signer {
        return Err(ProgramError::MissingRequiredSignature);
    }
    assert_collection_owners(program_id, mi, ci, cmint, ei)?;
    let m = metadata_from_data(mi.data.as_slice())?;
    let c = metadata_from_data(ci.data.as_slice())?;
    assert_collection_verify_is_valid(&m.collection, &c, cmint, ei)?;
    assert_has_collection_authority(cai, &c, &cmint.key, optional_last_account(accounts, 7))?;
    if c.collection_details.is_some() {
        return Err(to_program_error(MetadataError::SizedCollection));
    }
    if m.collection.is_some() {
        let n = set_collection_verified(&m, true);
        single_effect(write_metadata(0, mi, &n, false))
    } else {
        Ok(no_effects())
    }
}

/// The collection authority unverifies an item of an unsized collection.
pub open spec fn unverify_collection_spec(program_id: Pubkey, accs: Seq<AccountView>) -> Result<
    Seq<EffectView>,
    ProgramError,
> {
    if accs.len() < 5 {
        Err(ProgramError::NotEnoughAccountKeys)
    } else {
        let (mi, cai, cmint, ci, ei) = (accs[0], accs[1], accs[2], accs[3], accs[4]);
        if !cai.is_signer {
            Err(ProgramError::MissingRequiredSignature)
        } else {
            match chk_collection_owners(program_id, mi, ci, cmint, ei) {
                Err(e) => Err(e),
                Ok(_) => match metadata_of_data(mi.data) {
                    None => Err(merr(MetadataError::DataTypeMismatch)),
                    Some(m) => match metadata_of_data(ci.data) {
                        None => Err(merr(MetadataError::DataTypeMismatch)),
                        Some(c) => match chk_collection_verify(m.collection, c, cmint, ei) {
                            Err(e) => Err(e),
                            Ok(_) => match chk_has_collection_authority(cai, c, cmint.key, optional_last(accs, 6)) {
                                Err(e) => Err(e),
                                Ok(_) => if c.collection_details is Some {
                                    Err(merr(MetadataError::SizedCollection))
                                } else {
                                    single(metadata_write(0, mi, with_collection_verified(m, false), false))
                                },
                            },
                        },
                    },
                },
            }
        }
    }
}

pub fn unverify_collection(program_id: &Pubkey, accounts: &Vec<AccountInfo>) -> (r: Result<
    Vec<Effect>,
    ProgramError,
>)
    ensures
        outcome_view(r) == unverify_collection_spec(*program_id, accounts_view(accounts@)),
{
    if accounts.len() < 5 {
        return Err(ProgramError::NotEnoughAccountKeys);
    }
    let (mi, cai, cmint, ci, ei) = (&accounts[0], &accounts[1], &accounts[2], &accounts[3], &accounts[4]);
    if !cai.is_signer {
        return Err(ProgramError::MissingRequiredSignature);
    }
    assert_collection_owners(program_id, mi, ci, cmint, ei)?;
    let m = metadata_from_data(mi.data.as_slice())?;
    let c = metadata_from_data(ci.data.as_slice())?;
    assert_collection_verify_is_valid(&m.collection, &c, cmint, ei)?;
    assert_has_collection_authority(cai, &c, &cmint.key, optional_last_account(accounts, 6))?;
    if c.collection_details.is_some() {
        return Err(to_program_error(MetadataError::SizedCollection));
    }
    let n = set_collection_verified(&m, false);
    single_effect(write_metadata(0, mi, &n, false))
}

// ---------------------------------------------------------------- sized collections

/// The collection authority verifies an unverified item of a sized collection: the parent's
/// size grows by one, then the item is marked verified.
pub open spec fn verify_sized_collection_item_spec(program_id: Pubkey, accs: Seq<AccountView>) -> Result<
    Seq<EffectView>,
    ProgramError,
> {
    if accs.len() < 6 {
        Err(ProgramError::NotEnoughAccountKeys)
    } else {
        let (mi, cai, payer, cmint, ci, ei) = (accs[0], accs[1], accs[2], accs[3], accs[4], accs[5]);
        if !cai.is_signer || !payer.is_signer {
            Err(ProgramError::MissingRequiredSignature)
        } else {
            match chk_collection_owners(program_id, mi, ci, cmint, ei) {
                Err(e) => Err(e),
                Ok(_) => match metadata_of_data(mi.data) {
                    None => Err(merr(MetadataError::DataTypeMismatch)),
                    Some(m) => match metadata_of_data(ci.data) {
                        None => Err(merr(MetadataError::DataTypeMismatch)),
                        Some(c) => if (m.collection matches Some(col) && col.verified) {
                            Err(merr(MetadataError::AlreadyVerified))
                        } else {
                            match chk_collection_verify(m.collection, c, cmint, ei) {
                                Err(e) => Err(e),
                                Ok(_) => match chk_has_collection_authority(cai, c, cmint.key, optional_last(accs, 7)) {
                                    Err(e) => Err(e),
                                    Ok(_) => if m.collection is None {
                                        Err(merr(MetadataError::CollectionNotFound))
                                    } else {
                                        match incremented_size(c) {
                                            Err(e) => Err(e),
                                            Ok(c2) => pair(
                                                metadata_write(4, ci, c2, true),
                                                metadata_write(0, mi, with_collection_verified(m, true), true),
                                            ),
                                        }
                                    },
                                },
                            }
                        },
                    },
                },
            }
        }
    }
}

pub fn verify_sized_collection_item(program_id: &Pubkey, accounts: &Vec<AccountInfo>) -> (r: Result<
    Vec<Effect>,
    ProgramError,
>)
    ensures
        outcome_view(r) == verify_sized_collection_item_spec(*program_id, accounts_view(accounts@)),
{
    if accounts.len() < 6 {
        return Err(ProgramError::NotEnoughAccountKeys);
    }
    let (mi, cai, payer, cmint, ci, ei) = (&accounts[0], &accounts[1], &accounts[2], &accounts[3], &accounts[4], &accounts[5]);
    if !cai.is_signer || !payer.is_signer {
        return Err(ProgramError::MissingRequiredSignature);
    }
    assert_collection_owners(program_id, mi, ci, cmint, ei)?;
    let m = metadata_from_data(mi.data.as_slice())?;
    let c = metadata_from_data(ci.data.as_slice())?;
    if let Some(col) = m.collection {
        if col.verified {
            return Err(to_program_error(MetadataError::AlreadyVerified));
        }
    }
    assert_collection_verify_is_valid(&m.collection, &c, cmint, ei)?;
    assert_has_collection_authority(cai, &c, &cmint.key, optional_last_account(accounts, 7))?;
    if m.collection.is_none() {
        return Err(to_program_error(MetadataError::CollectionNotFound));
    }
    let c2 = increment_collection_size(&c)?;
    let n = set_collection_verified(&m, true);
    pair_effects(write_metadata(4, ci, &c2, true), write_metadata(0, mi, &n, true))
}

/// The collection authority unverifies a verified item of a sized collection: the parent's
/// size shrinks by one, then the item is marked unverified.
pub open spec fn unverify_sized_collection_item_spec(program_id: Pubkey, accs: Seq<AccountView>) -> Result<
    Seq<EffectView>,
    ProgramError,
> {
    if accs.len() < 6 {
        Err(ProgramError::NotEnoughAccountKeys)
    } else {
        let (mi, cai, payer, cmint, ci, ei) = (accs[0], accs[1], accs[2], accs[3], accs[4], accs[5]);
        if !cai.is_signer || !payer.is_signer {
            Err(ProgramError::MissingRequiredSignature)
        } else {
            match chk_collection_owners(program_id, mi, ci, cmint, ei) {
                Err(e) => Err(e),
                Ok(_) => match metadata_of_data(mi.data) {
                    None => Err(merr(MetadataError::DataTypeMismatch)),
                    Some(m) => match metadata_of_data(ci.data) {
                        None => Err(merr(MetadataError::DataTypeMismatch)),
                        Some(c) => if (m.collection matches Some(col) && !col.verified) {
                            Err(merr(MetadataError::AlreadyUnverified))
                        } else {
                            match chk_collection_verify(m.collection, c, cmint, ei) {
                                Err(e) => Err(e),
                                Ok(_) => match chk_has_collection_authority(cai, c, cmint.key, optional_last(accs, 7)) {
                                    Err(e) => Err(e),
                                    Ok(_) => if m.collection is None {
                                        Err(merr(MetadataError::CollectionNotFound))
                                    } else {
                                        match decremented_size(c) {
                                            Err(e) => Err(e),
                                            Ok(c2) => pair(
                                                metadata_write(4, ci, c2, true),
                                                metadata_write(0, mi, with_collection_verified(m, false), true),
                                            ),
                                        }
                                    },
                                },
                            }
                        },
                    },
                },
            }
        }
    }
}

pub fn unverify_sized_collection_item(program_id: &Pubkey, accounts: &Vec<AccountInfo>) -> (r: Result<
    Vec<Effect>,
    ProgramError,
>)
    ensures
        outcome_view(r) == unverify_sized_collection_item_spec(*program_id, accounts_view(accounts@)),
{
    if accounts.len() < 6 {
        return Err(ProgramError::NotEnoughAccountKeys);
    }
    let (mi, cai, payer, cmint, ci, ei) = (&accounts[0], &accounts[1], &accounts[2], &accounts[3], &accounts[4], &accounts[5]);
    if !cai.is_signer || !payer.is_signer {
        return Err(ProgramError::MissingRequiredSignature);
    }
    assert_collection_owners(program_id, mi, ci, cmint, ei)?;
    let m = metadata_from_data(mi.data.as_slice())?;
    let c = metadata_from_data(ci.data.as_slice())?;
    if let Some(col) = m.collection {
        if !col.verified {
            return Err(to_program_error(MetadataError::AlreadyUnverified));
        }
    }
    assert_collection_verify_is_valid(&m.collection, &c, cmint, ei)?;
    assert_has_collection_authority(cai, &c, &cmint.key, optional_last_account(accounts, 7))?;
    if m.collection.is_none() {
        return Err(to_program_error(MetadataError::CollectionNotFound));
    }
    let c2 = decrement_collection_size(&c)?;
    let n = set_collection_verified(&m, false);
    pair_effects(write_metadata(4, ci, &c2, true), write_metadata(0, mi, &n, true))
}

// ---------------------------------------------------------------- set and verify

/// The item's new collection: the collection mint, verified.
pub open spec fn with_new_collection(m: MetadataView, mint: Pubkey) -> MetadataView {
    MetadataView { collection: Some(Collection { verified: true, key: mint }), ..m }
}

pub fn set_new_collection(m: &Metadata, mint: &Pubkey) -> (n: Metadata)
    ensures
        n@ == with_new_collection(m@, *mint),
{
    let mut n = m.copy();
    n.collection = Some(Collection { verified: true, key: *mint });
    n
}

/// The shared update authority of item and parent sets the item's collection to the
/// collection mint, verified, for an unsized collection.
pub open spec fn set_and_verify_collection_spec(program_id: Pubkey, accs: Seq<AccountView>) -> Result<
    Seq<EffectView>,
    ProgramError,
> {
    if accs.len() < 7 {
        Err(ProgramError::NotEnoughAccountKeys)
    } else {
        let (mi, cai, payer, ua, cmint, ci, ei) = (accs[0], accs[1], accs[2], accs[3], accs[4], accs[5], accs[6]);
        if !cai.is_signer || !payer.is_signer {
            Err(ProgramError::MissingRequiredSignature)
        } else {
            match chk_collection_owners(program_id, mi, ci, cmint, ei) {
                Err(e) => Err(e),
                Ok(_) => match metadata_of_data(mi.data) {
                    None => Err(merr(MetadataError::DataTypeMismatch)),
                    Some(m) => match metadata_of_data(ci.data) {
                        None => Err(merr(MetadataError::DataTypeMismatch)),
                        Some(c) => if m.update_authority != ua.key || m.update_authority != c.update_authority {
                            Err(merr(MetadataError::UpdateAuthorityIncorrect))
                        } else if (m.collection matches Some(col) && col.key != cmint.key && col.verified) {
                            Err(merr(MetadataError::MustUnverify))
                        } else {
                            match chk_has_collection_authority(cai, c, cmint.key, optional_last(accs, 8)) {
                                Err(e) => Err(e),
                                Ok(_) => {
                                    let n = with_new_collection(m, cmint.key);
                                    match chk_collection_verify(n.collection, c, cmint, ei) {
                                        Err(e) => Err(e),
                                        Ok(_) => if c.collection_details is Some {
                                            Err(merr(MetadataError::SizedCollection))
                                        } else {
                                            single(metadata_write(0, mi, n, false))
                                        },
                                    }
                                },
                            }
                        },
                    },
                },
            }
        }
    }
}

pub fn set_and_verify_collection(program_id: &Pubkey, accounts: &Vec<AccountInfo>) -> (r: Result<
    Vec<Effect>,
    ProgramError,
>)
    ensures
        outcome_view(r) == set_and_verify_collection_spec(*program_id, accounts_view(accounts@)),
{
    if accounts.len() < 7 {
        return Err(ProgramError::NotEnoughAccountKeys);
    }
    let (mi, cai, payer, ua, cmint, ci, ei) = (&accounts[0], &accounts[1], &accounts[2], &accounts[3], &accounts[4], &accounts[5], &accounts[6]);
    if !cai.is_signer || !payer.is_signer {
        return Err(ProgramError::MissingRequiredSignature);
    }
    assert_collection_owners(program_id, mi, ci, cmint, ei)?;
    let m = metadata_from_data(mi.data.as_slice())?;
    let c = metadata_from_data(ci.data.as_slice())?;
    if m.update_authority != ua.key || m.update_authority != c.update_authority {
        return Err(to_program_error(MetadataError::UpdateAuthorityIncorrect));
    }
    if let Some(col) = m.collection {
        if col.key != cmint.key && col.verified {
            return Err(to_program_error(MetadataError::MustUnverify));
        }
    }
    assert_has_collection_authority(cai, &c, &cmint.key, optional_last_account(accounts, 8))?;
    let n = set_new_collection(&m, &cmint.key);
    assert_collection_verify_is_valid(&n.collection, &c, cmint, ei)?;
    if c.collection_details.is_some() {
        return Err(to_program_error(MetadataError::SizedCollection));
    }
    single_effect(write_metadata(0, mi, &n, false))
}

/// The shared update authority sets an unverified item's collection to the collection mint,
/// verified, and the sized parent grows by one.
pub open spec fn set_and_verify_sized_collection_item_spec(program_id: Pubkey, accs: Seq<AccountView>) -> Result<
    Seq<EffectView>,
    ProgramError,
> {
    if accs.len() < 7 {
        Err(ProgramError::NotEnoughAccountKeys)
    } else {
        let (mi, cai, payer, ua, cmint, ci, ei) = (accs[0], accs[1], accs[2], accs[3], accs[4], accs[5], accs[6]);
        if !cai.is_signer || !payer.is_signer {
            Err(ProgramError::MissingRequiredSignature)
        } else {
            match chk_collection_owners(program_id, mi, ci, cmint, ei) {
                Err(e) => Err(e),
                Ok(_) => match metadata_of_data(mi.data) {
                    None => Err(merr(MetadataError::DataTypeMismatch)),
                    Some(m) => match metadata_of_data(ci.data) {
                        None => Err(merr(MetadataError::DataTypeMismatch)),
                        Some(c) => if (m.collection matches Some(col) && col.verified) {
                            Err(merr(MetadataError::MustUnverify))
                        } else if m.update_authority != ua.key || m.update_authority != c.update_authority {
                            Err(merr(MetadataError::UpdateAuthorityIncorrect))
                        } else {
                            match chk_has_collection_authority(cai, c, cmint.key, optional_last(accs, 8)) {
                                Err(e) => Err(e),
                                Ok(_) => {
                                    let n = with_new_collection(m, cmint.key);
                                    match chk_collection_verify(n.collection, c, cmint, ei) {
                                        Err(e) => Err(e),
                                        Ok(_) => match incremented_size(c) {
                                            Err(e) => Err(e),
                                            Ok(c2) => pair(metadata_write(5, ci, c2, true), metadata_write(0, mi, n, true)),
                                        },
                                    }
                                },
                            }
                        },
                    },
                },
            }
        }
    }
}

pub fn set_and_verify_sized_collection_item(program_id: &Pubkey, accounts: &Vec<AccountInfo>) -> (r: Result<
    Vec<Effect>,
    ProgramError,
>)
    ensures
        outcome_view(r) == set_and_verify_sized_collection_item_spec(*program_id, accounts_view(accounts@)),
{
    if accounts.len() < 7 {
        return Err(ProgramError::NotEnoughAccountKeys);
    }
    let (mi, cai, payer, ua, cmint, ci, ei) = (&accounts[0], &accounts[1], &accounts[2], &accounts[3], &accounts[4], &accounts[5], &accounts[6]);
    if !cai.is_signer || !payer.is_signer {
        return Err(ProgramError::MissingRequiredSignature);
    }
    assert_collection_owners(program_id, mi, ci, cmint, ei)?;
    let m = metadata_from_data(mi.data.as_slice())?;
    let c = metadata_from_data(ci.data.as_slice())?;
    if let Some(col) = m.collection {
        if col.verified {
            return Err(to_program_error(MetadataError::MustUnverify));
        }
    }
    if m.update_authority != ua.key || m.update_authority != c.update_authority {
        return Err(to_program_error(MetadataError::UpdateAuthorityIncorrect));
    }
    assert_has_collection_authority(cai, &c, &cmint.key, optional_last_account(accounts, 8))?;
    let n = set_new_collection(&m, &cmint.key);
    assert_collection_verify_is_valid(&n.collection, &c, cmint, ei)?;
    let c2 = increment_collection_size(&c)?;
    pair_effects(write_metadata(5, ci, &c2, true), write_metadata(0, mi, &n, true))
}

// ---------------------------------------------------------------- collection size

/// The parent with its collection details set to a size.
pub open spec fn with_size(m: MetadataView, size: u64) -> MetadataView {
    MetadataView { collection_details: Some(CollectionDetails::V1 { size }), ..m }
}

pub fn set_size(m: &Metadata, size: u64) -> (n: Metadata)
    ensures
        n@ == with_size(m@, size),
{
    let mut n = m.copy();
    n.collection_details = Some(CollectionDetails::V1 { size });
    n
}

/// The collection authority sizes an unsized collection, once.
pub open spec fn set_collection_size_spec(program_id: Pubkey, accs: Seq<AccountView>, size: u64) -> Result<
    Seq<EffectView>,
    ProgramError,
> {
    if accs.len() < 3 {
        Err(ProgramError::NotEnoughAccountKeys)
    } else {
        let (pmi, cua, cmint) = (accs[0], accs[1], accs[2]);
        if pmi.owner != program_id {
            Err(merr(MetadataError::IncorrectOwner))
        } else if cmint.owner != spl_token_program_id() {
            Err(merr(MetadataError::IncorrectOwner))
        } else {
            match metadata_of_data(pmi.data) {
                None => Err(merr(MetadataError::DataTypeMismatch)),
                Some(m) => if !cua.is_signer {
                    Err(merr(MetadataError::UpdateAuthorityIsNotSigner))
                } else {
                    match chk_has_collection_authority(cua, m, cmint.key, optional_last(accs, 4)) {
                        Err(e) => Err(e),
                        Ok(_) => if m.collection_details is Some {
                            Err(merr(MetadataError::SizedCollection))
                        } else {
                            single(metadata_write(0, pmi, with_size(m, size), true))
                        },
                    }
                },
            }
        }
    }
}

pub fn set_collection_size(program_id: &Pubkey, accounts: &Vec<AccountInfo>, size: u64) -> (r: Result<
    Vec<Effect>,
    ProgramError,
>)
    ensures
        outcome_view(r) == set_collection_size_spec(*program_id, accounts_view(accounts@), size),
{
    if accounts.len() < 3 {
        return Err(ProgramError::NotEnoughAccountKeys);
    }
    let (pmi, cua, cmint) = (&accounts[0], &accounts[1], &accounts[2]);
    assert_owned_by(pmi, program_id)?;
    assert_owned_by(cmint, &token_program_id())?;
    let m = metadata_from_data(pmi.data.as_slice())?;
    if !cua.is_signer {
        return Err(to_program_error(MetadataError::UpdateAuthorityIsNotSigner));
    }
    assert_has_collection_authority(cua, &m, &cmint.key, optional_last_account(accounts, 4))?;
    if m.collection_details.is_some() {
        return Err(to_program_error(MetadataError::SizedCollection));
    }
    let n = set_size(&m, size);
    single_effect(write_metadata(0, pmi, &n, true))
}

/// The compressed-NFT program sets a collection's size (refused while that program is not
/// activated).
pub open spec fn bubblegum_set_collection_size_spec(program_id: Pubkey, accs: Seq<AccountView>, size: u64) -> Result<
    Seq<EffectView>,
    ProgramError,
> {
    if accs.len() < 4 {
        Err(ProgramError::NotEnoughAccountKeys)
    } else if !BUBBLEGUM_ACTIVATED {
        Err(merr(MetadataError::InvalidOperation))
    } else {
        let (pmi, cua, cmint, bsigner) = (accs[0], accs[1], accs[2], accs[3]);
        if bsigner.owner != bubblegum_program_id() {
            Err(merr(MetadataError::IncorrectOwner))
        } else if !bsigner.is_signer {
            Err(ProgramError::MissingRequiredSignature)
        } else if pmi.owner != program_id {
            Err(merr(MetadataError::IncorrectOwner))
        } else if cmint.owner != spl_token_program_id() {
            Err(merr(MetadataError::IncorrectOwner))
        } else {
            match metadata_of_data(pmi.data) {
                None => Err(merr(MetadataError::DataTypeMismatch)),
                Some(m) => if !cua.is_signer {
                    Err(merr(MetadataError::UpdateAuthorityIsNotSigner))
                } else {
                    match chk_has_collection_authority(cua, m, cmint.key, optional_last(accs, 5)) {
                        Err(e) => Err(e),
                        Ok(_) => single(metadata_write(0, pmi, with_size(m, size), true)),
                    }
                },
            }
        }
    }
}

pub fn bubblegum_set_collection_size(program_id: &Pubkey, accounts: &Vec<AccountInfo>, size: u64) -> (r: Result<
    Vec<Effect>,
    ProgramError,
>)
    ensures
        outcome_view(r) == bubblegum_set_collection_size_spec(*program_id, accounts_view(accounts@), size),
{
    if accounts.len() < 4 {
        return Err(ProgramError::NotEnoughAccountKeys);
    }
    if !BUBBLEGUM_ACTIVATED {
        return Err(to_program_error(MetadataError::InvalidOperation));
    }
    let (pmi, cua, cmint, bsigner) = (&accounts[0], &accounts[1], &accounts[2], &accounts[3]);
    assert_owned_by(bsigner, &bubblegum_id())?;
    if !bsigner.is_signer {
        return Err(ProgramError::MissingRequiredSignature);
    }
    assert_owned_by(pmi, program_id)?;
    assert_owned_by(cmint, &token_program_id())?;
    let m = metadata_from_data(pmi.data.as_slice())?;
    if !cua.is_signer {
        return Err(to_program_error(MetadataError::UpdateAuthorityIsNotSigner));
    }
    assert_has_collection_authority(cua, &m, &cmint.key, optional_last_account(accounts, 5))?;
    let n = set_size(&m, size);
    single_effect(write_metadata(0, pmi, &n, true))
}

// ---------------------------------------------------------------- collection authority records

/// The seeds of the record that delegates collection authority over `mint` to `authority`.
pub open spec fn collection_authority_path(program_id: Pubkey, mint: Pubkey, authority: Pubkey) -> Seq<Seq<u8>> {
    seq![prefix_seed(), program_id.bytes(), mint.bytes(), collection_authority_seed(), authority.bytes()]
}

pub fn make_collection_authority_path(program_id: &Pubkey, mint: &Pubkey, authority: &Pubkey) -> (v: Vec<Vec<u8>>)
    ensures
        v.deep_view() == collection_authority_path(*program_id, *mint, *authority),
{
    let (a, b, c, d, e) = (prefix(), program_id.to_bytes(), mint.to_bytes(), collection_authority(), authority.to_bytes());
    proof {
        lemma_byte_vec_deep_view(a);
        lemma_byte_vec_deep_view(b);
        lemma_byte_vec_deep_view(c);
        lemma_byte_vec_deep_view(d);
        lemma_byte_vec_deep_view(e);
    }
    let v = vec![a, b, c, d, e];
    assert(v.deep_view() =~= collection_authority_path(*program_id, *mint, *authority));
    v
}

/// Seeds with the bump seed added.
pub open spec fn with_bump(seeds: Seq<Seq<u8>>, bump: u8) -> Seq<Seq<u8>> {
    seeds.push(seq![bump])
}

pub fn push_bump(seeds: &mut Vec<Vec<u8>>, bump: u8)
    ensures
        final(seeds).deep_view() == with_bump(old(seeds).deep_view(), bump),
{
    let b = vec![bump];
    proof {
        lemma_byte_vec_deep_view(b);
    }
    let ghost before = seeds@;
    seeds.push(b);
    assert(seeds@ == before.push(b));
    assert(seeds.deep_view().len() == before.len() + 1);
    assert forall|i: int| 0 <= i < seeds@.len() implies #[trigger] seeds.deep_view()[i] == with_bump(old(seeds).deep_view(), bump)[i] by {
        if i < before.len() {
            assert(seeds@[i] == before[i]);
        }
    }
    assert(seeds.deep_view() =~= with_bump(old(seeds).deep_view(), bump));
}

/// The update authority delegates collection authority to a new authority by creating its
/// record at the derived address.
pub open spec fn approve_collection_authority_spec(program_id: Pubkey, accs: Seq<AccountView>) -> Result<
    Seq<EffectView>,
    ProgramError,
> {
    if accs.len() < 7 {
        Err(ProgramError::NotEnoughAccountKeys)
    } else {
        let (rec, new_auth, ua, payer, mi, mint) = (accs[0], accs[1], accs[2], accs[3], accs[4], accs[5]);
        match metadata_of_data(mi.data) {
            None => Err(merr(MetadataError::DataTypeMismatch)),
            Some(m) => if mi.owner != program_id {
                Err(merr(MetadataError::IncorrectOwner))
            } else if mint.owner != spl_token_program_id() {
                Err(merr(MetadataError::IncorrectOwner))
            } else if !ua.is_signer || !payer.is_signer {
                Err(ProgramError::MissingRequiredSignature)
            } else if m.update_authority != ua.key {
                Err(merr(MetadataError::UpdateAuthorityIncorrect))
            } else if m.mint != mint.key {
                Err(merr(MetadataError::MintMismatch))
            } else if rec.data.len() != 0 {
                Err(merr(MetadataError::CollectionAuthorityRecordAlreadyExists))
            } else {
                let path = collection_authority_path(program_id, mint.key, new_auth.key);
                match chk_derivation(program_id, rec, path) {
                    Err(e) => Err(e),
                    Ok(bump) => Ok(
                        seq![
                            EffectView::CreateAccount {
                                account: 0,
                                payer: 3,
                                system: 6,
                                size: COLLECTION_AUTHORITY_RECORD_SIZE,
                                seeds: with_bump(path, bump),
                            },
                            EffectView::Write {
                                account: 0,
                                bytes: en_collection_authority_record(
                                    CollectionAuthorityRecord { key: Key::CollectionAuthorityRecord, bump },
                                ),
                                clean: false,
                            },
                        ],
                    ),
                }
            },
        }
    }
}

pub fn process_approve_collection_authority(program_id: &Pubkey, accounts: &Vec<AccountInfo>) -> (r: Result<
    Vec<Effect>,
    ProgramError,
>)
    ensures
        outcome_view(r) == approve_collection_authority_spec(*program_id, accounts_view(accounts@)),
{
    if accounts.len() < 7 {
        return Err(ProgramError::NotEnoughAccountKeys);
    }
    let (rec, new_auth, ua, payer, mi, mint) = (&accounts[0], &accounts[1], &accounts[2], &accounts[3], &accounts[4], &accounts[5]);
    let m = metadata_from_data(mi.data.as_slice())?;
    assert_owned_by(mi, program_id)?;
    assert_owned_by(mint, &token_program_id())?;
    if !ua.is_signer || !payer.is_signer {
        return Err(ProgramError::MissingRequiredSignature);
    }
    if m.update_authority != ua.key {
        return Err(to_program_error(MetadataError::UpdateAuthorityIncorrect));
    }
    if m.mint != mint.key {
        return Err(to_program_error(MetadataError::MintMismatch));
    }
    if rec.data.len() != 0 {
        return Err(to_program_error(MetadataError::CollectionAuthorityRecordAlreadyExists));
    }
    let mut seeds = make_collection_authority_path(program_id, &mint.key, &new_auth.key);
    let bump = assert_derivation(program_id, rec, &seeds)?;
    push_bump(&mut seeds, bump);
    let record = CollectionAuthorityRecord { key: Key::CollectionAuthorityRecord, bump };
    let v = vec![
        Effect::CreateAccount { account: 0, payer: 3, system: 6, size: COLLECTION_AUTHORITY_RECORD_SIZE, seeds },
        Effect::Write { account: 0, bytes: encode_collection_authority_record(&record), clean: false },
    ];
    assert(crate::account::effects_view(v@) =~= seq![v@[0]@, v@[1]@]);
    Ok(v)
}

/// The update authority or the delegate itself closes a collection authority record, sending
/// its lamports to the signer.
pub open spec fn revoke_collection_authority_spec(program_id: Pubkey, accs: Seq<AccountView>) -> Result<
    Seq<EffectView>,
    ProgramError,
> {
    if accs.len() < 5 {
        Err(ProgramError::NotEnoughAccountKeys)
    } else {
        let (rec, delegate, revoker, mi, mint) = (accs[0], accs[1], accs[2], accs[3], accs[4]);
        match metadata_of_data(mi.data) {
            None => Err(merr(MetadataError::DataTypeMismatch)),
            Some(m) => if mi.owner != program_id {
                Err(merr(MetadataError::IncorrectOwner))
            } else if mint.owner != spl_token_program_id() {
                Err(merr(MetadataError::IncorrectOwner))
            } else if !revoker.is_signer {
                Err(ProgramError::MissingRequiredSignature)
            } else if m.update_authority != revoker.key && delegate.key != revoker.key {
                Err(merr(MetadataError::RevokeCollectionAuthoritySignerIncorrect))
            } else if m.mint != mint.key {
                Err(merr(MetadataError::MintMismatch))
            } else if rec.data.len() == 0 {
                Err(merr(MetadataError::CollectionAuthorityDoesNotExist))
            } else {
                match chk_has_collection_authority(delegate, m, mint.key, Some(rec)) {
                    Err(e) => Err(e),
                    Ok(_) => match drain_effect(0, 2, rec.lamports, revoker.lamports) {
                        Err(e) => Err(e),
                        Ok((d, _)) => Ok(
                            seq![d, EffectView::Zero { account: 0, len: USE_AUTHORITY_RECORD_SIZE }],
                        ),
                    },
                }
            },
        }
    }
}

pub fn process_revoke_collection_authority(program_id: &Pubkey, accounts: &Vec<AccountInfo>) -> (r: Result<
    Vec<Effect>,
    ProgramError,
>)
    ensures
        outcome_view(r) == revoke_collection_authority_spec(*program_id, accounts_view(accounts@)),
{
    if accounts.len() < 5 {
        return Err(ProgramError::NotEnoughAccountKeys);
    }
    let (rec, delegate, revoker, mi, mint) = (&accounts[0], &accounts[1], &accounts[2], &accounts[3], &accounts[4]);
    let m = metadata_from_data(mi.data.as_slice())?;
    assert_owned_by(mi, program_id)?;
    assert_owned_by(mint, &token_program_id())?;
    if !revoker.is_signer {
        return Err(ProgramError::MissingRequiredSignature);
    }
    if m.update_authority != revoker.key && delegate.key != revoker.key {
        return Err(to_program_error(MetadataError::RevokeCollectionAuthoritySignerIncorrect));
    }
    if m.mint != mint.key {
        return Err(to_program_error(MetadataError::MintMismatch));
    }
    if rec.data.len() == 0 {
        return Err(to_program_error(MetadataError::CollectionAuthorityDoesNotExist));
    }
    assert_has_collection_authority(delegate, &m, &mint.key, Some(rec))?;
    let (d, _) = drain_lamports(0, 2, rec.lamports, revoker.lamports)?;
    let v = vec![d, Effect::Zero { account: 0, len: USE_AUTHORITY_RECORD_SIZE }];
    assert(crate::account::effects_view(v@) =~= seq![v@[0]@, v@[1]@]);
    Ok(v)
}

} // verus!
