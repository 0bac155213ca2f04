//! Instructions that change a metadata record in place: primary sale, creator verification,
//! padding, token standard and the general update.

use crate::account::{accounts_view, outcome_view, single, single_effect, AccountInfo, AccountView, Effect, EffectView};
use crate::checks::{assert_derivation, assert_initialized_token_account, assert_owned_by, assert_update_authority_is_correct, chk_derivation, chk_find_address, chk_initialized_token_account, chk_is_master_edition, chk_is_print_edition, chk_mint_decimals, chk_mint_supply, chk_update_authority, find_address, get_mint_decimals, get_mint_supply, is_master_edition, is_print_edition};
use crate::codec::{data_encodable, metadata_of_data};
use crate::decode::metadata_from_data;
use crate::encode::{metadata_write, write_metadata};
use crate::error::{merr, to_program_error, MetadataError, ProgramError};
use crate::ids::{metadata_program_id, program_id as this_program_id, spl_token_program_id, token_program_id};
use crate::outside::{spl_mint_of_data, unpack_mint};
use crate::pubkey::Pubkey;
use crate::rules::{assert_collection_update_is_valid, assert_data_valid, assert_valid_use, chk_collection_update, chk_data_valid, chk_valid_use, edition_seeds, lists, lists_address, make_edition_seeds, puff_out_data_fields, puffed_metadata};
use crate::state::{Collection, Creator, DataV2, DataV2View, DataView, Metadata, MetadataView, TokenStandard};
use vstd::prelude::*;
use vstd::slice::slice_subrange;

verus! {

// ---------------------------------------------------------------- primary sale

/// The holder of a token of the mint marks the primary sale as happened.
pub open spec fn update_primary_sale_happened_via_token_spec(program_id: Pubkey, accs: Seq<AccountView>) -> Result<
    Seq<EffectView>,
    ProgramError,
> {
    if accs.len() < 3 {
        Err(ProgramError::NotEnoughAccountKeys)
    } else {
        let metadata_info = accs[0];
        let owner_info = accs[1];
        let token_info = accs[2];
        match chk_initialized_token_account(token_info) {
            Err(e) => Err(e),
            Ok(t) => match metadata_of_data(metadata_info.data) {
                None => Err(merr(MetadataError::DataTypeMismatch)),
                Some(m) => if metadata_info.owner != program_id {
                    Err(merr(MetadataError::IncorrectOwner))
                } else if token_info.owner != spl_token_program_id() {
                    Err(merr(MetadataError::IncorrectOwner))
                } else if !owner_info.is_signer {
                    Err(ProgramError::MissingRequiredSignature)
                } else if t.owner != owner_info.key {
                    Err(merr(MetadataError::OwnerMismatch))
                } else if t.amount == 0 {
                    Err(merr(MetadataError::NoBalanceInAccountForAuthorization))
                } else if t.mint != m.mint {
                    Err(merr(MetadataError::MintMismatch))
                } else {
                    single(
                        metadata_write(0, metadata_info, MetadataView { primary_sale_happened: true, ..m }, false),
                    )
                },
            },
        }
    }
}

pub fn process_update_primary_sale_happened_via_token(program_id: &Pubkey, accounts: &Vec<AccountInfo>) -> (r: Result<
    Vec<Effect>,
    ProgramError,
>)
    ensures
        outcome_view(r) == update_primary_sale_happened_via_token_spec(*program_id, accounts_view(accounts@)),
{
    if accounts.len() < 3 {
        return Err(ProgramError::NotEnoughAccountKeys);
    }
    let metadata_info = &accounts[0];
    let owner_info = &accounts[1];
    let token_info = &accounts[2];
    let t = assert_initialized_token_account(token_info)?;
    let mut m = metadata_from_data(metadata_info.data.as_slice())?;
    assert_owned_by(metadata_info, program_id)?;
    assert_owned_by(token_info, &token_program_id())?;
    if !owner_info.is_signer {
        return Err(ProgramError::MissingRequiredSignature);
    }
    if t.owner != owner_info.key {
        return Err(to_program_error(MetadataError::OwnerMismatch));
    }
    if t.amount == 0 {
        return Err(to_program_error(MetadataError::NoBalanceInAccountForAuthorization));
    }
    if t.mint != m.mint {
        return Err(to_program_error(MetadataError::MintMismatch));
    }
    m.primary_sale_happened = true;
    single_effect(write_metadata(0, metadata_info, &m, false))
}

// ---------------------------------------------------------------- creator verification

/// Entry `i` is the first entry of the list that names `a`.
pub open spec fn first_match(cs: Seq<Creator>, a: Pubkey, i: int) -> bool {
    &&& 0 <= i < cs.len()
    &&& cs[i].address == a
    &&& forall|j: int| 0 <= j < i ==> (#[trigger] cs[j]).address != a
}

/// The list with the verified flag of the first entry naming `a` set to `v`.
pub open spec fn with_verified(cs: Seq<Creator>, a: Pubkey, v: bool) -> Seq<Creator> {
    let i = choose|i: int| first_match(cs, a, i);
    cs.update(i, Creator { verified: v, ..cs[i] })
}

/// The record with the verified flag of creator `a` set to `v`: fails when the record lists no
/// creators, or not `a`.
pub open spec fn creator_verified(m: MetadataView, a: Pubkey, v: bool) -> Result<MetadataView, ProgramError> {
    match m.data.creators {
        None => Err(merr(MetadataError::NoCreatorsPresentOnMetadata)),
        Some(cs) => if !lists_address(cs, a) {
            Err(merr(MetadataError::CreatorNotFound))
        } else {
            Ok(MetadataView { data: DataView { creators: Some(with_verified(cs, a, v)), ..m.data }, ..m })
        },
    }
}

proof fn lemma_first_match_unique(cs: Seq<Creator>, a: Pubkey, i: int, k: int)
    requires
        first_match(cs, a, i),
        first_match(cs, a, k),
    ensures
        i == k,
{
    if i < k {
        assert(cs[i].address != a);
    } else if k < i {
        assert(cs[k].address != a);
    }
}

pub fn set_creator_verified(m: &Metadata, a: &Pubkey, v: bool) -> (r: Result<Metadata, ProgramError>)
    requires
        data_encodable(m@.data),
    ensures
        match r {
            Ok(n) => creator_verified(m@, *a, v) == Ok::<MetadataView, ProgramError>(n@)
                && data_encodable(n@.data),
            Err(e) => creator_verified(m@, *a, v) == Err::<MetadataView, ProgramError>(e),
        },
{
    let mut cs = match &m.data.creators {
        None => return Err(to_program_error(MetadataError::NoCreatorsPresentOnMetadata)),
        Some(cs) => cs.clone(),
    };
    let ghost orig = cs@;
    let mut i: usize = 0;
    while i < cs.len()
        invariant
            cs@ == orig,
            i <= cs@.len(),
            forall|j: int| 0 <= j < i ==> (#[trigger] cs@[j]).address != *a,
        ensures
            i < cs@.len() ==> cs@[i as int].address == *a,
        decreases cs@.len() - i,
    {
        if cs[i].address == *a {
            break;
        }
        i = i + 1;
    }
    if i == cs.len() {
        assert(!lists_address(orig, *a));
        return Err(to_program_error(MetadataError::CreatorNotFound));
    }
    let c = cs[i];
    assert(first_match(orig, *a, i as int));
    proof {
        let k = choose|k: int| first_match(orig, *a, k);
        lemma_first_match_unique(orig, *a, i as int, k);
    }
    cs.set(i, Creator { address: c.address, verified: v, share: c.share });
    let mut n = m.copy();
    n.data.creators = Some(cs);
    assert(n@ =~= MetadataView {
        data: DataView { creators: Some(with_verified(orig, *a, v)), ..m@.data },
        ..m@
    });
    Ok(n)
}

/// A creator of the record signs to set (`v` true) or clear its verified flag.
pub open spec fn creator_verification_spec(program_id: Pubkey, accs: Seq<AccountView>, v: bool) -> Result<
    Seq<EffectView>,
    ProgramError,
> {
    if accs.len() < 2 {
        Err(ProgramError::NotEnoughAccountKeys)
    } else {
        let metadata_info = accs[0];
        let creator_info = accs[1];
        if !creator_info.is_signer {
            Err(ProgramError::MissingRequiredSignature)
        } else if metadata_info.owner != program_id {
            Err(merr(MetadataError::IncorrectOwner))
        } else {
            match metadata_of_data(metadata_info.data) {
                None => Err(merr(MetadataError::DataTypeMismatch)),
                Some(m) => match creator_verified(m, creator_info.key, v) {
                    Err(e) => Err(e),
                    Ok(n) => single(metadata_write(0, metadata_info, n, false)),
                },
            }
        }
    }
}

fn creator_verification(program_id: &Pubkey, accounts: &Vec<AccountInfo>, v: bool) -> (r: Result<
    Vec<Effect>,
    ProgramError,
>)
    ensures
        outcome_view(r) == creator_verification_spec(*program_id, accounts_view(accounts@), v),
{
    if accounts.len() < 2 {
        return Err(ProgramError::NotEnoughAccountKeys);
    }
    let metadata_info = &accounts[0];
    let creator_info = &accounts[1];
    if !creator_info.is_signer {
        return Err(ProgramError::MissingRequiredSignature);
    }
    assert_owned_by(metadata_info, program_id)?;
    let m = metadata_from_data(metadata_info.data.as_slice())?;
    let n = set_creator_verified(&m, &creator_info.key, v)?;
    single_effect(write_metadata(0, metadata_info, &n, false))
}

/// A creator signs the record, marking itself verified.
pub fn process_sign_metadata(program_id: &Pubkey, accounts: &Vec<AccountInfo>) -> (r: Result<
    Vec<Effect>,
    ProgramError,
>)
    ensures
        outcome_view(r) == creator_verification_spec(*program_id, accounts_view(accounts@), true),
{
    creator_verification(program_id, accounts, true)
}

/// A creator removes its own verification from the record.
pub fn process_remove_creator_verification(program_id: &Pubkey, accounts: &Vec<AccountInfo>) -> (r: Result<
    Vec<Effect>,
    ProgramError,
>)
    ensures
        outcome_view(r) == creator_verification_spec(*program_id, accounts_view(accounts@), false),
{
    creator_verification(program_id, accounts, false)
}

// ---------------------------------------------------------------- padding

/// Anyone pads the record's name, symbol and URI to full length and records the bump seed of
/// the mint's edition address.
pub open spec fn puff_metadata_account_spec(program_id: Pubkey, accs: Seq<AccountView>) -> Result<
    Seq<EffectView>,
    ProgramError,
> {
    if accs.len() < 1 {
        Err(ProgramError::NotEnoughAccountKeys)
    } else {
        let metadata_info = accs[0];
        match metadata_of_data(metadata_info.data) {
            None => Err(merr(MetadataError::DataTypeMismatch)),
            Some(m) => if metadata_info.owner != program_id {
                Err(merr(MetadataError::IncorrectOwner))
            } else {
                match puffed_metadata(m) {
                    Err(e) => Err(e),
                    Ok(p) => match chk_find_address(edition_seeds(program_id, p.mint), program_id) {
                        Err(e) => Err(e),
                        Ok((_, bump)) => single(
                            metadata_write(0, metadata_info, MetadataView { edition_nonce: Some(bump), ..p }, false),
                        ),
                    },
                }
            },
        }
    }
}

pub fn process_puff_metadata_account(program_id: &Pubkey, accounts: &Vec<AccountInfo>) -> (r: Result<
    Vec<Effect>,
    ProgramError,
>)
    ensures
        outcome_view(r) == puff_metadata_account_spec(*program_id, accounts_view(accounts@)),
{
    if accounts.len() < 1 {
        return Err(ProgramError::NotEnoughAccountKeys);
    }
    let metadata_info = &accounts[0];
    let mut m = metadata_from_data(metadata_info.data.as_slice())?;
    assert_owned_by(metadata_info, program_id)?;
    puff_out_data_fields(&mut m)?;
    let seeds = make_edition_seeds(program_id, &m.mint);
    let (_, bump) = find_address(&seeds, program_id)?;
    m.edition_nonce = Some(bump);
    single_effect(write_metadata(0, metadata_info, &m, false))
}

// ---------------------------------------------------------------- token standard

/// The token standard that a mint and (optionally) its edition account show: with an edition,
/// a master edition makes a non-fungible token and a print edition a non-fungible edition;
/// without one, the mint's authority must not be its edition address, and the decimals decide
/// between fungible asset and fungible.
pub open spec fn chk_token_standard(mint_info: AccountView, edition: Option<AccountView>) -> Result<
    TokenStandard,
    ProgramError,
> {
    match chk_mint_decimals(mint_info) {
        Err(e) => Err(e),
        Ok(decimals) => match chk_mint_supply(mint_info) {
            Err(e) => Err(e),
            Ok(supply) => match edition {
                Some(ed) => match chk_is_master_edition(ed, decimals, supply) {
                    Err(e) => Err(e),
                    Ok(true) => Ok(TokenStandard::NonFungible),
                    Ok(false) => match chk_is_print_edition(ed, decimals, supply) {
                        Err(e) => Err(e),
                        Ok(true) => Ok(TokenStandard::NonFungibleEdition),
                        Ok(false) => Err(merr(MetadataError::CouldNotDetermineTokenStandard)),
                    },
                },
                None => if mint_info.data.len() < 82 {
                    Err(ProgramError::Aborted)
                } else {
                    match spl_mint_of_data(mint_info.data.take(82)) {
                    None => Err(ProgramError::InvalidAccountData),
                    Some(mint) => match chk_find_address(
                        edition_seeds(metadata_program_id(), mint_info.key),
                        metadata_program_id(),
                    ) {
                        Err(e) => Err(e),
                        Ok((pda, _)) => match mint.mint_authority {
                            None => Err(ProgramError::Aborted),
                            Some(auth) => if pda == auth {
                                Err(merr(MetadataError::MissingEditionAccount))
                            } else if decimals == 0 {
                                Ok(TokenStandard::FungibleAsset)
                            } else {
                                Ok(TokenStandard::Fungible)
                            },
                        },
                    },
                    }
                },
            },
        },
    }
}

pub fn check_token_standard(mint_info: &AccountInfo, edition: Option<&AccountInfo>) -> (r: Result<
    TokenStandard,
    ProgramError,
>)
    ensures
        r == chk_token_standard(
            mint_info@,
            match edition {
                Some(a) => Some(a@),
                None => None,
            },
        ),
{
    let decimals = get_mint_decimals(mint_info)?;
    let supply = get_mint_supply(mint_info)?;
    match edition {
        Some(ed) => {
            if is_master_edition(ed, decimals, supply)? {
                Ok(TokenStandard::NonFungible)
            } else if is_print_edition(ed, decimals, supply)? {
                Ok(TokenStandard::NonFungibleEdition)
            } else {
                Err(to_program_error(MetadataError::CouldNotDetermineTokenStandard))
            }
        },
        None => {
            if mint_info.data.len() < 82 {
                return Err(ProgramError::Aborted);
            }
            let head = slice_subrange(mint_info.data.as_slice(), 0, 82);
            assert(head@ =~= mint_info@.data.take(82));
            let mint = match unpack_mint(head) {
                None => return Err(ProgramError::InvalidAccountData),
                Some(mint) => mint,
            };
            let id = this_program_id();
            let seeds = make_edition_seeds(&id, &mint_info.key);
            let (pda, _) = find_address(&seeds, &id)?;
            match mint.mint_authority {
                None => Err(ProgramError::Aborted),
                Some(auth) => {
                    if pda == auth {
                        Err(to_program_error(MetadataError::MissingEditionAccount))
                    } else if decimals == 0 {
                        Ok(TokenStandard::FungibleAsset)
                    } else {
                        Ok(TokenStandard::Fungible)
                    }
                },
            }
        },
    }
}

/// The update authority records the token standard that the mint (and, with four accounts, its
/// edition account) shows.
pub open spec fn set_token_standard_spec(program_id: Pubkey, accs: Seq<AccountView>) -> Result<
    Seq<EffectView>,
    ProgramError,
> {
    if accs.len() < 3 {
        Err(ProgramError::NotEnoughAccountKeys)
    } else {
        let metadata_info = accs[0];
        let update_authority_info = accs[1];
        let mint_info = accs[2];
        if metadata_info.owner != program_id {
            Err(merr(MetadataError::IncorrectOwner))
        } else {
            match metadata_of_data(metadata_info.data) {
                None => Err(merr(MetadataError::DataTypeMismatch)),
                Some(m) => if m.mint != mint_info.key {
                    Err(merr(MetadataError::MintMismatch))
                } else {
                    match chk_update_authority(m, update_authority_info) {
                        Err(e) => Err(e),
                        Ok(_) => {
                            let ts = if accs.len() == 4 {
                                let ed = accs[3];
                                if ed.owner != program_id {
                                    Err(merr(MetadataError::IncorrectOwner))
                                } else {
                                    match chk_derivation(program_id, ed, edition_seeds(program_id, mint_info.key)) {
                                        Err(e) => Err(e),
                                        Ok(_) => chk_token_standard(mint_info, Some(ed)),
                                    }
                                }
                            } else {
                                chk_token_standard(mint_info, None)
                            };
                            match ts {
                                Err(e) => Err(e),
                                Ok(t) => single(
                                    metadata_write(0, metadata_info, MetadataView { token_standard: Some(t), ..m }, true),
                                ),
                            }
                        },
                    }
                },
            }
        }
    }
}

pub fn set_token_standard(program_id: &Pubkey, accounts: &Vec<AccountInfo>) -> (r: Result<
    Vec<Effect>,
    ProgramError,
>)
    ensures
        outcome_view(r) == set_token_standard_spec(*program_id, accounts_view(accounts@)),
{
    if accounts.len() < 3 {
        return Err(ProgramError::NotEnoughAccountKeys);
    }
    let metadata_info = &accounts[0];
    let update_authority_info = &accounts[1];
    let mint_info = &accounts[2];
    assert_owned_by(metadata_info, program_id)?;
    let mut m = metadata_from_data(metadata_info.data.as_slice())?;
    if m.mint != mint_info.key {
        return Err(to_program_error(MetadataError::MintMismatch));
    }
    assert_update_authority_is_correct(&m, update_authority_info)?;
    let ts = if accounts.len() == 4 {
        let ed = &accounts[3];
        assert_owned_by(ed, program_id)?;
        let seeds = make_edition_seeds(program_id, &mint_info.key);
        assert_derivation(program_id, ed, &seeds)?;
        check_token_standard(mint_info, Some(ed))?
    } else {
        check_token_standard(mint_info, None)?
    };
    m.token_standard = Some(ts);
    single_effect(write_metadata(0, metadata_info, &m, true))
}

// ---------------------------------------------------------------- general update

/// The record with new data applied: the data must be valid and the record mutable; a new
/// collection must pass the collection rules, and without one a verified collection stays
/// (an error) while an unverified one is dropped; new uses must pass the use rules.
pub open spec fn data_updated(m: MetadataView, data: Option<DataV2View>, ua: AccountView) -> Result<
    MetadataView,
    ProgramError,
> {
    match data {
        None => Ok(m),
        Some(d) => if !m.is_mutable {
            Err(merr(MetadataError::DataIsImmutable))
        } else {
            match chk_data_valid(d.data, ua.key, m, false, ua.is_signer) {
                Err(e) => Err(e),
                Ok(_) => {
                    let col: Result<Option<Collection>, ProgramError> = if d.collection is Some {
                        match chk_collection_update(false, m.collection, d.collection) {
                            Err(e) => Err(e),
                            Ok(_) => Ok(d.collection),
                        }
                    } else {
                        match m.collection {
                            Some(c) => if c.verified {
                                Err(merr(MetadataError::CannotUpdateVerifiedCollection))
                            } else {
                                Ok(None)
                            },
                            None => Ok(None),
                        }
                    };
                    match col {
                        Err(e) => Err(e),
                        Ok(c) => match chk_valid_use(d.uses, m.uses) {
                            Err(e) => Err(e),
                            Ok(_) => Ok(MetadataView { data: d.data, collection: c, uses: d.uses, ..m }),
                        },
                    }
                },
            }
        },
    }
}

/// The record with new flags applied: a new update authority is taken as given; the primary
/// sale flag can only be set, and the mutable flag only cleared.
pub open spec fn flags_updated(
    m: MetadataView,
    update_authority: Option<Pubkey>,
    primary_sale_happened: Option<bool>,
    is_mutable: Option<bool>,
) -> Result<MetadataView, ProgramError> {
    let m1 = match update_authority {
        Some(k) => MetadataView { update_authority: k, ..m },
        None => m,
    };
    match primary_sale_happened {
        Some(v) if !v && m1.primary_sale_happened => Err(merr(MetadataError::PrimarySaleCanOnlyBeFlippedToTrue)),
        _ => {
            let m2 = match primary_sale_happened {
                Some(v) => MetadataView { primary_sale_happened: v, ..m1 },
                None => m1,
            };
            match is_mutable {
                Some(v) if v && !m2.is_mutable => Err(merr(MetadataError::IsMutableCanOnlyBeFlippedToFalse)),
                Some(v) => Ok(MetadataView { is_mutable: v, ..m2 }),
                None => Ok(m2),
            }
        },
    }
}

/// The update authority changes data, update authority and flags, and the record is written
/// back padded.
pub open spec fn update_metadata_accounts_v2_spec(
    program_id: Pubkey,
    accs: Seq<AccountView>,
    data: Option<DataV2View>,
    update_authority: Option<Pubkey>,
    primary_sale_happened: Option<bool>,
    is_mutable: Option<bool>,
) -> Result<Seq<EffectView>, ProgramError> {
    if accs.len() < 2 {
        Err(ProgramError::NotEnoughAccountKeys)
    } else {
        let metadata_info = accs[0];
        let ua = accs[1];
        match metadata_of_data(metadata_info.data) {
            None => Err(merr(MetadataError::DataTypeMismatch)),
            Some(m) => if metadata_info.owner != program_id {
                Err(merr(MetadataError::IncorrectOwner))
            } else {
                match chk_update_authority(m, ua) {
                    Err(e) => Err(e),
                    Ok(_) => match data_updated(m, data, ua) {
                        Err(e) => Err(e),
                        Ok(m1) => match flags_updated(m1, update_authority, primary_sale_happened, is_mutable) {
                            Err(e) => Err(e),
                            Ok(m2) => match puffed_metadata(m2) {
                                Err(e) => Err(e),
                                Ok(p) => single(metadata_write(0, metadata_info, p, true)),
                            },
                        },
                    },
                }
            },
        }
    }
}

/// The view of optional new data.
pub open spec fn opt_data_v2_view(d: Option<DataV2>) -> Option<DataV2View> {
    match d {
        Some(v) => Some(v@),
        None => None,
    }
}

pub fn update_data(m: &Metadata, data: Option<DataV2>, ua: &AccountInfo) -> (r: Result<Metadata, ProgramError>)
    requires
        data_encodable(m@.data),
    ensures
        match r {
            Ok(n) => data_updated(m@, opt_data_v2_view(data), ua@) == Ok::<MetadataView, ProgramError>(n@)
                && data_encodable(n@.data),
            Err(e) => data_updated(m@, opt_data_v2_view(data), ua@) == Err::<MetadataView, ProgramError>(e),
        },
{
    let d = match data {
        None => return Ok(m.copy()),
        Some(d) => d,
    };
    if !m.is_mutable {
        return Err(to_program_error(MetadataError::DataIsImmutable));
    }
    let v1 = d.to_v1();
    assert_data_valid(&v1, &ua.key, m, false, ua.is_signer)?;
    let col = if d.collection.is_some() {
        assert_collection_update_is_valid(false, &m.collection, &d.collection)?;
        d.collection
    } else {
        match m.collection {
            Some(c) => {
                if c.verified {
                    return Err(to_program_error(MetadataError::CannotUpdateVerifiedCollection));
                }
                None
            },
            None => None,
        }
    };
    assert_valid_use(&d.uses, &m.uses)?;
    let mut n = m.copy();
    n.data = v1;
    n.collection = col;
    n.uses = d.uses;
    assert(n@ =~= MetadataView { data: d@.data, collection: col, uses: d@.uses, ..m@ });
    Ok(n)
}

pub fn update_flags(
    m: &Metadata,
    update_authority: Option<Pubkey>,
    primary_sale_happened: Option<bool>,
    is_mutable: Option<bool>,
) -> (r: Result<Metadata, ProgramError>)
    ensures
        match r {
            Ok(n) => flags_updated(m@, update_authority, primary_sale_happened, is_mutable) == Ok::<
                MetadataView,
                ProgramError,
            >(n@) && n@.data == m@.data,
            Err(e) => flags_updated(m@, update_authority, primary_sale_happened, is_mutable) == Err::<
                MetadataView,
                ProgramError,
            >(e),
        },
{
    let mut n = m.copy();
    if let Some(k) = update_authority {
        n.update_authority = k;
    }
    if let Some(v) = primary_sale_happened {
        if v || !n.primary_sale_happened {
            n.primary_sale_happened = v;
        } else {
            return Err(to_program_error(MetadataError::PrimarySaleCanOnlyBeFlippedToTrue));
        }
    }
    if let Some(v) = is_mutable {
        if !v || n.is_mutable {
            n.is_mutable = v;
        } else {
            return Err(to_program_error(MetadataError::IsMutableCanOnlyBeFlippedToFalse));
        }
    }
    Ok(n)
}

pub fn process_update_metadata_accounts_v2(
    program_id: &Pubkey,
    accounts: &Vec<AccountInfo>,
    data: Option<DataV2>,
    update_authority: Option<Pubkey>,
    primary_sale_happened: Option<bool>,
    is_mutable: Option<bool>,
) -> (r: Result<Vec<Effect>, ProgramError>)
    ensures
        outcome_view(r) == update_metadata_accounts_v2_spec(
            *program_id,
            accounts_view(accounts@),
            opt_data_v2_view(data),
            update_authority,
            primary_sale_happened,
            is_mutable,
        ),
{
    if accounts.len() < 2 {
        return Err(ProgramError::NotEnoughAccountKeys);
    }
    let metadata_info = &accounts[0];
    let ua = &accounts[1];
    let m = metadata_from_data(metadata_info.data.as_slice())?;
    assert_owned_by(metadata_info, program_id)?;
    assert_update_authority_is_correct(&m, ua)?;
    let m1 = update_data(&m, data, ua)?;
    let mut m2 = update_flags(&m1, update_authority, primary_sale_happened, is_mutable)?;
    puff_out_data_fields(&mut m2)?;
    single_effect(write_metadata(0, metadata_info, &m2, true))
}

} // verus!
