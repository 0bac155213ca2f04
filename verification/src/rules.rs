//! The rules that metadata records obey: valid data, uses and collections.

use crate::account::{AccountInfo, AccountView};
use crate::checks::{chk_find_address, find_address};
use crate::error::{merr, to_program_error, MetadataError, ProgramError};
use crate::ids::{
    collection_authority, collection_authority_seed, edition, edition_seed, lemma_byte_vec_deep_view,
    metadata_program_id, prefix, prefix_seed, program_id,
};
use crate::pubkey::Pubkey;
use crate::records::{
    collection_authority_record_from_data, collection_authority_record_of_data,
    master_edition_v2_from_data, master_edition_v2_of_data,
};
use crate::state::{
    Collection, CollectionDetails, Creator, Data, DataView, Metadata, MetadataView, TokenStandard,
    UseMethod, Uses, MAX_CREATOR_LIMIT, MAX_NAME_LENGTH, MAX_SELLER_FEE_BASIS_POINTS,
    MAX_SYMBOL_LENGTH, MAX_URI_LENGTH,
};
use vstd::prelude::*;

verus! {

// ---------------------------------------------------------------- creators and data

/// The verified flag recorded for `a` in a creator list (the last entry for `a` wins).
pub open spec fn creator_lookup(cs: Seq<Creator>, a: Pubkey) -> Option<bool>
    decreases cs.len(),
{
    if cs.len() == 0 {
        None
    } else if cs.last().address == a {
        Some(cs.last().verified)
    } else {
        creator_lookup(cs.drop_last(), a)
    }
}

/// Two entries of the list name the same address.
pub open spec fn has_duplicate_address(cs: Seq<Creator>) -> bool {
    exists|i: int, j: int| 0 <= i < j < cs.len() && cs[i].address == cs[j].address
}

/// Some entry of the list names `a`.
pub open spec fn lists_address(cs: Seq<Creator>, a: Pubkey) -> bool {
    exists|i: int| 0 <= i < cs.len() && cs[i].address == a
}

/// The per-creator checks from creator `i` on, with the share total so far; gives the total.
pub open spec fn chk_creators_from(
    cs: Seq<Creator>,
    i: int,
    total: u8,
    update_authority: Pubkey,
    existing: Option<Seq<Creator>>,
    allow_direct_creator_writes: bool,
    update_authority_is_signer: bool,
) -> Result<u8, ProgramError>
    decreases cs.len() - i,
{
    if i < 0 || i >= cs.len() {
        Ok(total)
    } else {
        let c = cs[i];
        if total + c.share > u8::MAX {
            Err(merr(MetadataError::NumericalOverflowError))
        } else {
            let t2 = (total + c.share) as u8;
            let step: Result<(), ProgramError> = if allow_direct_creator_writes {
                Ok(())
            } else if update_authority_is_signer && update_authority == c.address {
                Ok(())
            } else {
                match existing {
                    Some(ex) => match creator_lookup(ex, c.address) {
                        Some(v) => if c.verified && !v {
                            Err(merr(MetadataError::CannotVerifyAnotherCreator))
                        } else if !c.verified && v {
                            Err(merr(MetadataError::CannotUnverifyAnotherCreator))
                        } else {
                            Ok(())
                        },
                        None => if c.verified {
                            Err(merr(MetadataError::CannotVerifyAnotherCreator))
                        } else {
                            Ok(())
                        },
                    },
                    None => if c.verified {
                        Err(merr(MetadataError::CannotVerifyAnotherCreator))
                    } else {
                        Ok(())
                    },
                }
            };
            match step {
                Err(e) => Err(e),
                Ok(_) => chk_creators_from(
                    cs,
                    i + 1,
                    t2,
                    update_authority,
                    existing,
                    allow_direct_creator_writes,
                    update_authority_is_signer,
                ),
            }
        }
    }
}

/// Some creator verified in the existing list is missing from the new list.
pub open spec fn drops_verified_creator(existing: Seq<Creator>, new: Seq<Creator>) -> bool {
    exists|i: int|
        0 <= i < existing.len() && creator_lookup(existing, #[trigger] existing[i].address) == Some(
            true,
        ) && !lists_address(new, existing[i].address)
}

/// The descriptive fields must be within their limits; a new creator list must have one to
/// five distinct creators whose shares total 100, and may change verified flags only of the
/// signing update authority (unless direct writes are allowed).
pub open spec fn chk_data_valid(
    d: DataView,
    update_authority: Pubkey,
    existing: MetadataView,
    allow_direct_creator_writes: bool,
    update_authority_is_signer: bool,
) -> Result<(), ProgramError> {
    if d.name.len() > MAX_NAME_LENGTH {
        Err(merr(MetadataError::NameTooLong))
    } else if d.symbol.len() > MAX_SYMBOL_LENGTH {
        Err(merr(MetadataError::SymbolTooLong))
    } else if d.uri.len() > MAX_URI_LENGTH {
        Err(merr(MetadataError::UriTooLong))
    } else if d.seller_fee_basis_points > MAX_SELLER_FEE_BASIS_POINTS {
        Err(merr(MetadataError::InvalidBasisPoints))
    } else {
        match d.creators {
            None => Ok(()),
            Some(cs) => if cs.len() > MAX_CREATOR_LIMIT {
                Err(merr(MetadataError::CreatorsTooLong))
            } else if cs.len() == 0 {
                Err(merr(MetadataError::CreatorsMustBeAtleastOne))
            } else if has_duplicate_address(cs) {
                Err(merr(MetadataError::DuplicateCreatorAddress))
            } else {
                match chk_creators_from(
                    cs,
                    0,
                    0,
                    update_authority,
                    existing.data.creators,
                    allow_direct_creator_writes,
                    update_authority_is_signer,
                ) {
                    Err(e) => Err(e),
                    Ok(total) => if total != 100 {
                        Err(merr(MetadataError::ShareTotalMustBe100))
                    } else if !allow_direct_creator_writes && (existing.data.creators matches Some(ex)
                        && drops_verified_creator(ex, cs)) {
                        Err(merr(MetadataError::CannotUnverifyAnotherCreator))
                    } else {
                        Ok(())
                    },
                }
            },
        }
    }
}

/// The verified flag recorded for `a` (the last entry for `a` wins).
pub fn lookup_creator(cs: &Vec<Creator>, a: &Pubkey) -> (r: Option<bool>)
    ensures
        r == creator_lookup(cs@, *a),
{
    let mut i = cs.len();
    assert(cs@.take(i as int) =~= cs@);
    while i > 0
        invariant
            i <= cs@.len(),
            creator_lookup(cs@, *a) == creator_lookup(cs@.take(i as int), *a),
        decreases i,
    {
        let c = &cs[i - 1];
        assert(cs@.take(i as int).drop_last() =~= cs@.take(i - 1));
        if c.address == *a {
            return Some(c.verified);
        }
        i = i - 1;
    }
    None
}

/// Whether two entries name the same address.
pub fn has_duplicates(cs: &Vec<Creator>) -> (r: bool)
    ensures
        r == has_duplicate_address(cs@),
{
    let mut i: usize = 0;
    while i < cs.len()
        invariant
            i <= cs@.len(),
            forall|a: int, b: int| 0 <= a < i && a < b < cs@.len() ==> cs@[a].address != cs@[b].address,
        decreases cs@.len() - i,
    {
        let mut j: usize = i + 1;
        while j < cs.len()
            invariant
                i < cs@.len(),
                i + 1 <= j <= cs@.len(),
                forall|b: int| i < b < j ==> cs@[i as int].address != cs@[b].address,
            decreases cs@.len() - j,
        {
            if cs[i].address == cs[j].address {
                return true;
            }
            j = j + 1;
        }
        i = i + 1;
    }
    false
}

/// Whether some entry names `a`.
pub fn lists(cs: &Vec<Creator>, a: &Pubkey) -> (r: bool)
    ensures
        r == lists_address(cs@, *a),
{
    let mut i: usize = 0;
    while i < cs.len()
        invariant
            i <= cs@.len(),
            forall|b: int| 0 <= b < i ==> cs@[b].address != *a,
        decreases cs@.len() - i,
    {
        if cs[i].address == *a {
            return true;
        }
        i = i + 1;
    }
    false
}

#[verifier::loop_isolation(false)]
pub fn assert_data_valid(
    d: &Data,
    update_authority: &Pubkey,
    existing: &Metadata,
    allow_direct_creator_writes: bool,
    update_authority_is_signer: bool,
) -> (r: Result<(), ProgramError>)
    ensures
        r == chk_data_valid(
            d@,
            *update_authority,
            existing@,
            allow_direct_creator_writes,
            update_authority_is_signer,
        ),
{
    if d.name.len() > MAX_NAME_LENGTH {
        return Err(to_program_error(MetadataError::NameTooLong));
    }
    if d.symbol.len() > MAX_SYMBOL_LENGTH {
        return Err(to_program_error(MetadataError::SymbolTooLong));
    }
    if d.uri.len() > MAX_URI_LENGTH {
        return Err(to_program_error(MetadataError::UriTooLong));
    }
    if d.seller_fee_basis_points > MAX_SELLER_FEE_BASIS_POINTS {
        return Err(to_program_error(MetadataError::InvalidBasisPoints));
    }
    let cs = match &d.creators {
        None => return Ok(()),
        Some(cs) => cs,
    };
    if cs.len() > MAX_CREATOR_LIMIT {
        return Err(to_program_error(MetadataError::CreatorsTooLong));
    }
    if cs.len() == 0 {
        return Err(to_program_error(MetadataError::CreatorsMustBeAtleastOne));
    }
    if has_duplicates(cs) {
        return Err(to_program_error(MetadataError::DuplicateCreatorAddress));
    }
    let ghost ex = existing@.data.creators;
    let mut total: u8 = 0;
    let mut i: usize = 0;
    while i < cs.len()
        invariant
            i <= cs@.len(),
            ex == existing@.data.creators,
            chk_creators_from(cs@, 0, 0, *update_authority, ex, allow_direct_creator_writes,
                update_authority_is_signer) == chk_creators_from(cs@, i as int, total,
                *update_authority, ex, allow_direct_creator_writes, update_authority_is_signer),
        decreases cs@.len() - i,
    {
        let c = cs[i];
        if total as u16 + c.share as u16 > 255 {
            return Err(to_program_error(MetadataError::NumericalOverflowError));
        }
        total = total + c.share;
        if allow_direct_creator_writes {
        } else if update_authority_is_signer && *update_authority == c.address {
        } else {
            match &existing.data.creators {
                Some(exv) => match lookup_creator(exv, &c.address) {
                    Some(v) => {
                        if c.verified && !v {
                            return Err(to_program_error(MetadataError::CannotVerifyAnotherCreator));
                        } else if !c.verified && v {
                            return Err(
                                to_program_error(MetadataError::CannotUnverifyAnotherCreator),
                            );
                        }
                    },
                    None => {
                        if c.verified {
                            return Err(to_program_error(MetadataError::CannotVerifyAnotherCreator));
                        }
                    },
                },
                None => {
                    if c.verified {
                        return Err(to_program_error(MetadataError::CannotVerifyAnotherCreator));
                    }
                },
            }
        }
        i = i + 1;
    }
    if total != 100 {
        return Err(to_program_error(MetadataError::ShareTotalMustBe100));
    }
    if !allow_direct_creator_writes {
        if let Some(exv) = &existing.data.creators {
            let mut k: usize = 0;
            while k < exv.len()
                invariant
                    k <= exv@.len(),
                    forall|b: int|
                        0 <= b < k ==> !(creator_lookup(exv@, #[trigger] exv@[b].address)
                            == Some(true) && !lists_address(cs@, exv@[b].address)),
                decreases exv@.len() - k,
            {
                let a = exv[k].address;
                if lookup_creator(exv, &a) == Some(true) && !lists(cs, &a) {
                    return Err(to_program_error(MetadataError::CannotUnverifyAnotherCreator));
                }
                k = k + 1;
            }
        }
    }
    Ok(())
}

// ---------------------------------------------------------------- uses

/// New uses must be well formed for their method, and once a token has been used, its method,
/// total and remaining uses can no longer be changed.
pub open spec fn chk_valid_use(incoming: Option<Uses>, current: Option<Uses>) -> Result<(), ProgramError> {
    if (incoming matches Some(i) && i.use_method == UseMethod::Single && (i.total != 1
        || i.remaining != 1)) {
        Err(merr(MetadataError::InvalidUseMethod))
    } else if (incoming matches Some(i) && i.use_method == UseMethod::Multiple && (i.total < 2
        || i.total < i.remaining)) {
        Err(merr(MetadataError::InvalidUseMethod))
    } else {
        match (incoming, current) {
            (Some(i), Some(c)) => if i.use_method != c.use_method && c.total != c.remaining {
                Err(merr(MetadataError::CannotChangeUseMethodAfterFirstUse))
            } else if i.total != c.total && c.total != c.remaining {
                Err(merr(MetadataError::CannotChangeUsesAfterFirstUse))
            } else if i.remaining != c.remaining && c.total != c.remaining {
                Err(merr(MetadataError::CannotChangeUsesAfterFirstUse))
            } else {
                Ok(())
            },
            _ => Ok(()),
        }
    }
}

pub fn assert_valid_use(incoming: &Option<Uses>, current: &Option<Uses>) -> (r: Result<(), ProgramError>)
    ensures
        r == chk_valid_use(*incoming, *current),
{
    if let Some(i) = incoming {
        if i.use_method == UseMethod::Single && (i.total != 1 || i.remaining != 1) {
            return Err(to_program_error(MetadataError::InvalidUseMethod));
        }
        if i.use_method == UseMethod::Multiple && (i.total < 2 || i.total < i.remaining) {
            return Err(to_program_error(MetadataError::InvalidUseMethod));
        }
    }
    match (incoming, current) {
        (Some(i), Some(c)) => {
            if i.use_method != c.use_method && c.total != c.remaining {
                Err(to_program_error(MetadataError::CannotChangeUseMethodAfterFirstUse))
            } else if i.total != c.total && c.total != c.remaining {
                Err(to_program_error(MetadataError::CannotChangeUsesAfterFirstUse))
            } else if i.remaining != c.remaining && c.total != c.remaining {
                Err(to_program_error(MetadataError::CannotChangeUsesAfterFirstUse))
            } else {
                Ok(())
            }
        },
        _ => Ok(()),
    }
}

// ---------------------------------------------------------------- collections

/// A verified collection may be set only where it exactly matches the existing one (or on an
/// edition).
pub open spec fn chk_collection_update(edition: bool, existing: Option<Collection>, incoming: Option<Collection>) -> Result<
    (),
    ProgramError,
> {
    let incoming_verified = (incoming matches Some(c) && c.verified);
    if incoming_verified && existing != incoming && !edition {
        Err(merr(MetadataError::CollectionCannotBeVerifiedInThisInstruction))
    } else {
        Ok(())
    }
}

pub fn assert_collection_update_is_valid(
    edition: bool,
    existing: &Option<Collection>,
    incoming: &Option<Collection>,
) -> (r: Result<(), ProgramError>)
    ensures
        r == chk_collection_update(edition, *existing, *incoming),
{
    let incoming_verified = match incoming {
        Some(c) => c.verified,
        None => false,
    };
    let same = match (existing, incoming) {
        (Some(a), Some(b)) => a.verified == b.verified && a.key == b.key,
        (None, None) => true,
        _ => false,
    };
    if incoming_verified && !same && !edition {
        Err(to_program_error(MetadataError::CollectionCannotBeVerifiedInThisInstruction))
    } else {
        Ok(())
    }
}

/// The seeds of a mint's edition address.
pub open spec fn edition_seeds(program: Pubkey, mint: Pubkey) -> Seq<Seq<u8>> {
    seq![prefix_seed(), program.bytes(), mint.bytes(), edition_seed()]
}

pub fn make_edition_seeds(program: &Pubkey, mint: &Pubkey) -> (v: Vec<Vec<u8>>)
    ensures
        v.deep_view() == edition_seeds(*program, *mint),
{
    let (a, b, c, d) = (prefix(), program.to_bytes(), mint.to_bytes(), edition());
    proof {
        lemma_byte_vec_deep_view(a);
        lemma_byte_vec_deep_view(b);
        lemma_byte_vec_deep_view(c);
        lemma_byte_vec_deep_view(d);
    }
    let v = vec![a, b, c, d];
    assert(v.deep_view() =~= edition_seeds(*program, *mint));
    v
}

/// The collection parent's edition must be a master edition with a supply limit of zero, and
/// the parent (when its token standard is known) non-fungible.
pub open spec fn chk_master_edition(collection_data: MetadataView, edition_info: AccountView) -> Result<
    (),
    ProgramError,
> {
    match master_edition_v2_of_data(edition_info.data) {
        None => Err(merr(MetadataError::CollectionMustBeAUniqueMasterEdition)),
        Some(me) => if (collection_data.token_standard matches Some(t) && t
            != TokenStandard::NonFungible) {
            Err(merr(MetadataError::CollectionMustBeAUniqueMasterEdition))
        } else if me.max_supply != Some(0u64) {
            Err(merr(MetadataError::CollectionMustBeAUniqueMasterEdition))
        } else {
            Ok(())
        },
    }
}

/// An item's collection must name the collection mint, the collection parent must be that
/// mint's metadata, and the edition account must be the parent's unique master edition.
pub open spec fn chk_collection_verify(
    collection: Option<Collection>,
    collection_data: MetadataView,
    collection_mint: AccountView,
    edition_info: AccountView,
) -> Result<(), ProgramError> {
    match collection {
        None => Err(merr(MetadataError::CollectionNotFound)),
        Some(c) => if c.key != collection_mint.key || collection_data.mint != collection_mint.key {
            Err(merr(MetadataError::CollectionNotFound))
        } else {
            match chk_find_address(
                edition_seeds(metadata_program_id(), collection_data.mint),
                metadata_program_id(),
            ) {
                Err(e) => Err(e),
                Ok((pda, _)) => if pda != edition_info.key {
                    Err(merr(MetadataError::CollectionMasterEditionAccountInvalid))
                } else {
                    chk_master_edition(collection_data, edition_info)
                },
            }
        },
    }
}

pub fn assert_collection_verify_is_valid(
    collection: &Option<Collection>,
    collection_data: &Metadata,
    collection_mint: &AccountInfo,
    edition_info: &AccountInfo,
) -> (r: Result<(), ProgramError>)
    ensures
        r == chk_collection_verify(*collection, collection_data@, collection_mint@, edition_info@),
{
    match collection {
        None => return Err(to_program_error(MetadataError::CollectionNotFound)),
        Some(c) => {
            if c.key != collection_mint.key || collection_data.mint != collection_mint.key {
                return Err(to_program_error(MetadataError::CollectionNotFound));
            }
        },
    }
    let id = program_id();
    let seeds = make_edition_seeds(&id, &collection_data.mint);
    let (pda, _) = find_address(&seeds, &id)?;
    if pda != edition_info.key {
        return Err(to_program_error(MetadataError::CollectionMasterEditionAccountInvalid));
    }
    let me = match master_edition_v2_from_data(edition_info.data.as_slice()) {
        Ok(me) => me,
        Err(_) => return Err(to_program_error(MetadataError::CollectionMustBeAUniqueMasterEdition)),
    };
    match collection_data.token_standard {
        Some(t) => {
            if t != TokenStandard::NonFungible {
                return Err(to_program_error(MetadataError::CollectionMustBeAUniqueMasterEdition));
            }
        },
        None => {},
    }
    if me.max_supply != Some(0u64) {
        return Err(to_program_error(MetadataError::CollectionMustBeAUniqueMasterEdition));
    }
    Ok(())
}

/// The seeds of a collection authority record's address.
pub open spec fn collection_authority_seeds(mint: Pubkey, authority: Pubkey) -> Seq<Seq<u8>> {
    seq![prefix_seed(), metadata_program_id().bytes(), mint.bytes(), collection_authority_seed(), authority.bytes()]
}

/// The signer must be the collection's update authority, or, with a record given, a delegate
/// whose record is at its derived address and holds the derivation's bump.
pub open spec fn chk_has_collection_authority(
    authority: AccountView,
    data: MetadataView,
    mint: Pubkey,
    record: Option<AccountView>,
) -> Result<(), ProgramError> {
    match record {
        Some(rec) => match chk_find_address(
            collection_authority_seeds(mint, authority.key),
            metadata_program_id(),
        ) {
            Err(e) => Err(e),
            Ok((pda, bump)) => if pda != rec.key {
                Err(merr(MetadataError::DerivedKeyInvalid))
            } else if rec.data.len() == 0 {
                Err(merr(MetadataError::InvalidCollectionUpdateAuthority))
            } else {
                match collection_authority_record_of_data(rec.data) {
                    None => Err(merr(MetadataError::DataTypeMismatch)),
                    Some(r) => if r.bump != bump {
                        Err(merr(MetadataError::InvalidCollectionUpdateAuthority))
                    } else {
                        Ok(())
                    },
                }
            },
        },
        None => if data.update_authority != authority.key {
            Err(merr(MetadataError::InvalidCollectionUpdateAuthority))
        } else {
            Ok(())
        },
    }
}

pub fn make_collection_authority_seeds(mint: &Pubkey, authority: &Pubkey) -> (v: Vec<Vec<u8>>)
    ensures
        v.deep_view() == collection_authority_seeds(*mint, *authority),
{
    let id = program_id();
    let (a, b, c, d, e) = (prefix(), id.to_bytes(), mint.to_bytes(), collection_authority(), authority.to_bytes());
    proof {
        lemma_byte_vec_deep_view(a);
        lemma_byte_vec_deep_view(b);
        lemma_byte_vec_deep_view(c);
        lemma_byte_vec_deep_view(d);
        lemma_byte_vec_deep_view(e);
    }
    let v = vec![a, b, c, d, e];
    assert(v.deep_view() =~= collection_authority_seeds(*mint, *authority));
    v
}

pub fn assert_has_collection_authority(
    authority: &AccountInfo,
    data: &Metadata,
    mint: &Pubkey,
    record: Option<&AccountInfo>,
) -> (r: Result<(), ProgramError>)
    ensures
        r == chk_has_collection_authority(
            authority@,
            data@,
            *mint,
            match record {
                Some(a) => Some(a@),
                None => None,
            },
        ),
{
    match record {
        Some(rec) => {
            let seeds = make_collection_authority_seeds(mint, &authority.key);
            let id = program_id();
            let (pda, bump) = find_address(&seeds, &id)?;
            if pda != rec.key {
                return Err(to_program_error(MetadataError::DerivedKeyInvalid));
            }
            if rec.data.len() == 0 {
                return Err(to_program_error(MetadataError::InvalidCollectionUpdateAuthority));
            }
            let r = collection_authority_record_from_data(rec.data.as_slice())?;
            if r.bump != bump {
                return Err(to_program_error(MetadataError::InvalidCollectionUpdateAuthority));
            }
            Ok(())
        },
        None => {
            if data.update_authority != authority.key {
                Err(to_program_error(MetadataError::InvalidCollectionUpdateAuthority))
            } else {
                Ok(())
            }
        },
    }
}

/// The item must name the collection parent's mint as a verified collection.
pub open spec fn chk_verified_member(item: MetadataView, collection: MetadataView) -> Result<
    (),
    ProgramError,
> {
    match item.collection {
        None => Err(merr(MetadataError::NotAMemberOfCollection)),
        Some(c) => if collection.mint != c.key {
            Err(merr(MetadataError::NotAMemberOfCollection))
        } else if !c.verified {
            Err(merr(MetadataError::NotVerifiedMemberOfCollection))
        } else {
            Ok(())
        },
    }
}

pub fn assert_verified_member_of_collection(item: &Metadata, collection: &Metadata) -> (r: Result<
    (),
    ProgramError,
>)
    ensures
        r == chk_verified_member(item@, collection@),
{
    match &item.collection {
        None => Err(to_program_error(MetadataError::NotAMemberOfCollection)),
        Some(c) => {
            if collection.mint != c.key {
                Err(to_program_error(MetadataError::NotAMemberOfCollection))
            } else if !c.verified {
                Err(to_program_error(MetadataError::NotVerifiedMemberOfCollection))
            } else {
                Ok(())
            }
        },
    }
}

/// The collection parent with its size one larger; fails on an unsized parent or overflow.
pub open spec fn incremented_size(m: MetadataView) -> Result<MetadataView, ProgramError> {
    match m.collection_details {
        None => Err(merr(MetadataError::UnsizedCollection)),
        Some(CollectionDetails::V1 { size }) => if size == u64::MAX {
            Err(merr(MetadataError::NumericalOverflowError))
        } else {
            Ok(
                MetadataView {
                    collection_details: Some(CollectionDetails::V1 { size: (size + 1) as u64 }),
                    ..m
                },
            )
        },
    }
}

/// The collection parent with its size one smaller; fails on an unsized parent or underflow.
pub open spec fn decremented_size(m: MetadataView) -> Result<MetadataView, ProgramError> {
    match m.collection_details {
        None => Err(merr(MetadataError::UnsizedCollection)),
        Some(CollectionDetails::V1 { size }) => if size == 0 {
            Err(merr(MetadataError::NumericalOverflowError))
        } else {
            Ok(
                MetadataView {
                    collection_details: Some(CollectionDetails::V1 { size: (size - 1) as u64 }),
                    ..m
                },
            )
        },
    }
}

pub fn increment_collection_size(m: &Metadata) -> (r: Result<Metadata, ProgramError>)
    ensures
        match r {
            Ok(n) => incremented_size(m@) == Ok::<MetadataView, ProgramError>(n@),
            Err(e) => incremented_size(m@) == Err::<MetadataView, ProgramError>(e),
        },
{
    match m.collection_details {
        None => Err(to_program_error(MetadataError::UnsizedCollection)),
        Some(CollectionDetails::V1 { size }) => {
            if size == u64::MAX {
                return Err(to_program_error(MetadataError::NumericalOverflowError));
            }
            let mut n = m.copy();
            n.collection_details = Some(CollectionDetails::V1 { size: size + 1 });
            assert(n@ =~= MetadataView {
                collection_details: Some(CollectionDetails::V1 { size: (size + 1) as u64 }),
                ..m@
            });
            Ok(n)
        },
    }
}

pub fn decrement_collection_size(m: &Metadata) -> (r: Result<Metadata, ProgramError>)
    ensures
        match r {
            Ok(n) => decremented_size(m@) == Ok::<MetadataView, ProgramError>(n@),
            Err(e) => decremented_size(m@) == Err::<MetadataView, ProgramError>(e),
        },
{
    match m.collection_details {
        None => Err(to_program_error(MetadataError::UnsizedCollection)),
        Some(CollectionDetails::V1 { size }) => {
            if size == 0 {
                return Err(to_program_error(MetadataError::NumericalOverflowError));
            }
            let mut n = m.copy();
            n.collection_details = Some(CollectionDetails::V1 { size: size - 1 });
            assert(n@ =~= MetadataView {
                collection_details: Some(CollectionDetails::V1 { size: (size - 1) as u64 }),
                ..m@
            });
            Ok(n)
        },
    }
}

// ---------------------------------------------------------------- padding

/// A string padded with zero bytes to `size`; padding a longer string stops the program.
pub open spec fn puffed(v: Seq<u8>, size: nat) -> Result<Seq<u8>, ProgramError> {
    if v.len() > size {
        Err(ProgramError::Aborted)
    } else {
        Ok(v + Seq::new((size - v.len()) as nat, |i: int| 0u8))
    }
}

/// The metadata with name, symbol and URI padded to their full lengths.
pub open spec fn puffed_metadata(m: MetadataView) -> Result<MetadataView, ProgramError> {
    match puffed(m.data.name, MAX_NAME_LENGTH as nat) {
        Err(e) => Err(e),
        Ok(name) => match puffed(m.data.symbol, MAX_SYMBOL_LENGTH as nat) {
            Err(e) => Err(e),
            Ok(symbol) => match puffed(m.data.uri, MAX_URI_LENGTH as nat) {
                Err(e) => Err(e),
                Ok(uri) => Ok(MetadataView { data: DataView { name, symbol, uri, ..m.data }, ..m }),
            },
        },
    }
}

pub fn puff_string(v: &mut Vec<u8>, size: usize) -> (r: Result<(), ProgramError>)
    ensures
        match r {
            Ok(_) => puffed(old(v)@, size as nat) == Ok::<Seq<u8>, ProgramError>(final(v)@),
            Err(e) => puffed(old(v)@, size as nat) == Err::<Seq<u8>, ProgramError>(e),
        },
{
    if v.len() > size {
        return Err(ProgramError::Aborted);
    }
    let ghost start = v@;
    while v.len() < size
        invariant
            start.len() <= v@.len() <= size,
            v@.subrange(0, start.len() as int) == start,
            forall|i: int| start.len() <= i < v@.len() ==> v@[i] == 0u8,
        decreases size - v@.len(),
    {
        v.push(0u8);
    }
    assert(v@ =~= start + Seq::new((size - start.len()) as nat, |i: int| 0u8));
    Ok(())
}

pub fn puff_out_data_fields(m: &mut Metadata) -> (r: Result<(), ProgramError>)
    ensures
        match r {
            Ok(_) => puffed_metadata(old(m)@) == Ok::<MetadataView, ProgramError>(final(m)@),
            Err(e) => puffed_metadata(old(m)@) == Err::<MetadataView, ProgramError>(e),
        },
{
    puff_string(&mut m.data.name, MAX_NAME_LENGTH)?;
    puff_string(&mut m.data.symbol, MAX_SYMBOL_LENGTH)?;
    puff_string(&mut m.data.uri, MAX_URI_LENGTH)?;
    Ok(())
}

} // verus!
