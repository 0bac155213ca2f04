//! Burning master and print editions, and freezing or thawing a delegated token account.

use crate::account::{accounts_view, drain_effect, drain_lamports, effects_view, no_effects, outcome_view, push_effect, write_account, write_effect, AccountInfo, AccountView, Effect, EffectView};
use crate::checks::{assert_currently_holding, assert_delegated_tokens, assert_derivation, assert_freeze_authority_matches_mint, assert_initialized_mint, assert_initialized_token_account, assert_owned_by, chk_currently_holding, chk_delegated_tokens, chk_derivation, chk_freeze_authority, chk_initialized_mint, chk_initialized_token_account, chk_is_master_edition, chk_is_print_edition, chk_mint_decimals, chk_mint_supply, get_mint_decimals, get_mint_supply, is_master_edition, is_print_edition};
use crate::codec::metadata_of_data;
use crate::collection_ix::{push_bump, with_bump};
use crate::cpi::{burn_effect, close_effect, freeze_thaw_effect, spl_token_burn, spl_token_close, spl_token_freeze_thaw};
use crate::decode::metadata_from_data;
use crate::encode::{metadata_write, write_metadata};
use crate::error::{merr, to_program_error, MetadataError, ProgramError};
use crate::ids::{spl_token_program_id, token_program_id};
use crate::pubkey::Pubkey;
use crate::records::{edition_from_data, edition_marker_from_data, edition_marker_of_data, edition_of_data, en_edition_marker, en_master_edition_v2, encode_edition_marker, encode_master_edition_v2, master_edition_v2_from_data, master_edition_v2_of_data};
use crate::rules::{assert_verified_member_of_collection, chk_verified_member, edition_seeds, make_edition_seeds};
use crate::state::{CollectionDetails, Metadata, MetadataView, MasterEditionV2, EDITION_MARKER_BIT_SIZE, EDITION_MARKER_LEDGER_LEN, MAX_METADATA_LEN};
use vstd::bytes::{spec_u64_from_le_bytes, u64_from_le_bytes};
use vstd::prelude::*;
use vstd::slice::slice_subrange;

verus! {

// ---------------------------------------------------------------- edition marker ledger

/// The ledger byte that records `edition`.
pub open spec fn marker_index(edition: u64) -> int {
    ((edition % 248) / 8) as int
}

/// The bit of that byte that records `edition` (most significant bit first).
pub open spec fn marker_mask(edition: u64) -> u8 {
    1u8 << ((7 - (edition % 248) % 8) as u8)
}

/// The ledger with the bit of `edition` flipped.
pub open spec fn toggled(ledger: Seq<u8>, edition: u64) -> Seq<u8> {
    ledger.update(marker_index(edition), ledger[marker_index(edition)] ^ marker_mask(edition))
}

/// Whether the ledger records `edition`.
pub open spec fn edition_taken(ledger: Seq<u8>, edition: u64) -> bool {
    ledger[marker_index(edition)] & marker_mask(edition) != 0
}

/// The byte index and the bit mask of an edition in its marker's ledger.
pub fn index_and_mask(edition: u64) -> (r: (usize, u8))
    ensures
        r.0 == marker_index(edition),
        r.0 < EDITION_MARKER_LEDGER_LEN,
        r.1 == marker_mask(edition),
{
    let offset = edition % EDITION_MARKER_BIT_SIZE;
    let index = (offset / 8) as usize;
    let k: u8 = (7 - offset % 8) as u8;
    (index, 1u8 << k)
}

pub fn toggle_edition(ledger: &mut Vec<u8>, edition: u64)
    requires
        old(ledger)@.len() == EDITION_MARKER_LEDGER_LEN,
    ensures
        final(ledger)@ == toggled(old(ledger)@, edition),
{
    let (i, mask) = index_and_mask(edition);
    let b = ledger[i];
    ledger.set(i, b ^ mask);
}

/// Toggling an edition's bit twice leaves the ledger as it was.
pub proof fn lemma_toggle_twice(ledger: Seq<u8>, edition: u64)
    requires
        0 <= marker_index(edition) < ledger.len(),
    ensures
        toggled(toggled(ledger, edition), edition) == ledger,
{
    let i = marker_index(edition);
    let x = ledger[i];
    let m = marker_mask(edition);
    assert((x ^ m) ^ m == x) by (bit_vector);
    assert(toggled(toggled(ledger, edition), edition) =~= ledger);
}

/// Every byte of the ledger is zero.
pub open spec fn all_zero(ledger: Seq<u8>) -> bool {
    forall|i: int| 0 <= i < ledger.len() ==> ledger[i] == 0
}

pub fn is_all_zero(ledger: &Vec<u8>) -> (b: bool)
    ensures
        b == all_zero(ledger@),
{
    let mut i: usize = 0;
    while i < ledger.len()
        invariant
            i <= ledger@.len(),
            forall|j: int| 0 <= j < i ==> ledger@[j] == 0,
        decreases ledger@.len() - i,
    {
        if ledger[i] != 0 {
            return false;
        }
        i = i + 1;
    }
    true
}

// ---------------------------------------------------------------- burn a master edition

/// The master edition's first byte and its supply (bytes 1 to 9): no byte is an invalid
/// master edition, another key is not a master edition, a supply above zero has prints, and
/// too short data stops the program.
pub open spec fn chk_unprinted_master(edition: AccountView) -> Result<(), ProgramError> {
    if edition.data.len() == 0 {
        Err(merr(MetadataError::InvalidMasterEdition))
    } else if edition.data[0] != 2 && edition.data[0] != 6 {
        Err(merr(MetadataError::NotAMasterEdition))
    } else if edition.data.len() < 9 {
        Err(ProgramError::Aborted)
    } else if spec_u64_from_le_bytes(edition.data.subrange(1, 9)) > 0 {
        Err(merr(MetadataError::MasterEditionHasPrints))
    } else {
        Ok(())
    }
}

pub fn assert_unprinted_master(edition: &AccountInfo) -> (r: Result<(), ProgramError>)
    ensures
        r == chk_unprinted_master(edition@),
{
    let d = edition.data.as_slice();
    if d.len() == 0 {
        return Err(to_program_error(MetadataError::InvalidMasterEdition));
    }
    if d[0] != 2 && d[0] != 6 {
        return Err(to_program_error(MetadataError::NotAMasterEdition));
    }
    if d.len() < 9 {
        return Err(ProgramError::Aborted);
    }
    if u64_from_le_bytes(slice_subrange(d, 1, 9)) > 0 {
        return Err(to_program_error(MetadataError::MasterEditionHasPrints));
    }
    Ok(())
}

/// The collection parent after one of its items is burned: a sized parent shrinks by one
/// (written back), an unsized one is left alone.
pub open spec fn parent_after_burn(i: int, parent: AccountView, c: MetadataView) -> Result<
    Seq<EffectView>,
    ProgramError,
> {
    match c.collection_details {
        None => Ok(Seq::empty()),
        Some(CollectionDetails::V1 { size }) => if size == 0 {
            Err(merr(MetadataError::NumericalOverflowError))
        } else {
            match metadata_write(
                i,
                parent,
                MetadataView { collection_details: Some(CollectionDetails::V1 { size: (size - 1) as u64 }), ..c },
                true,
            ) {
                Err(e) => Err(e),
                Ok(w) => Ok(seq![w]),
            }
        },
    }
}

/// The holder burns a master edition without prints: the token is burned and its account
/// closed, the metadata and edition accounts are emptied into the holder, and a verified item
/// of a sized collection leaves its parent one smaller.
pub open spec fn burn_nft_spec(program_id: Pubkey, accs: Seq<AccountView>) -> Result<Seq<EffectView>, ProgramError> {
    if accs.len() < 6 {
        Err(ProgramError::NotEnoughAccountKeys)
    } else {
        let (mi, owner, mint, token, edition, tp) = (accs[0], accs[1], accs[2], accs[3], accs[4], accs[5]);
        let collection_provided = accs.len() == 7;
        match metadata_of_data(mi.data) {
            None => Err(merr(MetadataError::DataTypeMismatch)),
            Some(m) => if !collection_provided && (m.collection matches Some(c) && c.verified) {
                Err(merr(MetadataError::MissingCollectionMetadata))
            } else {
                match chk_unprinted_master(edition) {
                    Err(e) => Err(e),
                    Ok(_) => match chk_currently_holding(program_id, owner, mi, m, mint, token) {
                        Err(e) => Err(e),
                        Ok(_) => if edition.owner != program_id {
                            Err(merr(MetadataError::IncorrectOwner))
                        } else if !owner.is_signer {
                            Err(ProgramError::MissingRequiredSignature)
                        } else {
                            match chk_derivation(program_id, edition, edition_seeds(program_id, mint.key)) {
                                Err(e) => Err(e),
                                Ok(_) => match burn_effect(tp.key, token.key, mint.key, owner.key, Seq::empty()) {
                                    Err(e) => Err(e),
                                    Ok(b) => match close_effect(tp.key, token.key, owner.key, owner.key) {
                                        Err(e) => Err(e),
                                        Ok(c) => match drain_effect(0, 1, mi.lamports, owner.lamports) {
                                            Err(e) => Err(e),
                                            Ok((d1, o1)) => match drain_effect(4, 1, edition.lamports, o1) {
                                                Err(e) => Err(e),
                                                Ok((d2, _)) => {
                                                    let base = seq![
                                                        b,
                                                        c,
                                                        d1,
                                                        d2,
                                                        EffectView::Zero { account: 0, len: MAX_METADATA_LEN },
                                                        EffectView::Zero { account: 4, len: edition.data.len() as usize },
                                                    ];
                                                    if collection_provided {
                                                        let ci = accs[6];
                                                        match metadata_of_data(ci.data) {
                                                            None => Err(merr(MetadataError::DataTypeMismatch)),
                                                            Some(cm) => if ci.owner != program_id {
                                                                Err(merr(MetadataError::IncorrectOwner))
                                                            } else {
                                                                match chk_verified_member(m, cm) {
                                                                    Err(e) => Err(e),
                                                                    Ok(_) => match parent_after_burn(6, ci, cm) {
                                                                        Err(e) => Err(e),
                                                                        Ok(tail) => Ok(base + tail),
                                                                    },
                                                                }
                                                            },
                                                        }
                                                    } else {
                                                        Ok(base)
                                                    }
                                                },
                                            },
                                        },
                                    },
                                },
                            }
                        },
                    },
                }
            },
        }
    }
}

fn shrink_parent(i: usize, parent: &AccountInfo, c: &Metadata) -> (r: Result<Vec<Effect>, ProgramError>)
    requires
        crate::codec::data_encodable(c@.data),
    ensures
        outcome_view(r) == parent_after_burn(i as int, parent@, c@),
{
    match c.collection_details {
        None => Ok(no_effects()),
        Some(CollectionDetails::V1 { size }) => {
            if size == 0 {
                return Err(to_program_error(MetadataError::NumericalOverflowError));
            }
            let mut n = c.copy();
            n.collection_details = Some(CollectionDetails::V1 { size: size - 1 });
            assert(n@ == MetadataView { collection_details: Some(CollectionDetails::V1 { size: (size - 1) as u64 }), ..c@ });
            let w = write_metadata(i, parent, &n, true)?;
            let v = vec![w];
            assert(effects_view(v@) =~= seq![v@[0]@]);
            Ok(v)
        },
    }
}

pub fn process_burn_nft(program_id: &Pubkey, accounts: &Vec<AccountInfo>) -> (r: Result<Vec<Effect>, ProgramError>)
    ensures
        outcome_view(r) == burn_nft_spec(*program_id, accounts_view(accounts@)),
{
    if accounts.len() < 6 {
        return Err(ProgramError::NotEnoughAccountKeys);
    }
    let (mi, owner, mint, token, edition, tp) = (&accounts[0], &accounts[1], &accounts[2], &accounts[3], &accounts[4], &accounts[5]);
    let collection_provided = accounts.len() == 7;
    let m = metadata_from_data(mi.data.as_slice())?;
    if !collection_provided {
        if let Some(c) = m.collection {
            if c.verified {
                return Err(to_program_error(MetadataError::MissingCollectionMetadata));
            }
        }
    }
    assert_unprinted_master(edition)?;
    assert_currently_holding(program_id, owner, mi, &m, mint, token)?;
    assert_owned_by(edition, program_id)?;
    if !owner.is_signer {
        return Err(ProgramError::MissingRequiredSignature);
    }
    let seeds = make_edition_seeds(program_id, &mint.key);
    assert_derivation(program_id, edition, &seeds)?;
    let no_seeds: Vec<Vec<Vec<u8>>> = Vec::new();
    assert(no_seeds.deep_view() =~= Seq::<Seq<Seq<u8>>>::empty());
    let b = spl_token_burn(&tp.key, &token.key, &mint.key, &owner.key, no_seeds)?;
    let c = spl_token_close(&tp.key, &token.key, &owner.key, &owner.key)?;
    let (d1, o1) = drain_lamports(0, 1, mi.lamports, owner.lamports)?;
    let (d2, _) = drain_lamports(4, 1, edition.lamports, o1)?;
    let mut out = vec![
        b,
        c,
        d1,
        d2,
        Effect::Zero { account: 0, len: MAX_METADATA_LEN },
        Effect::Zero { account: 4, len: edition.data.len() },
    ];
    let ghost base = effects_view(out@);
    assert(base =~= seq![out@[0]@, out@[1]@, out@[2]@, out@[3]@, out@[4]@, out@[5]@]);
    if collection_provided {
        let ci = &accounts[6];
        let cm = metadata_from_data(ci.data.as_slice())?;
        assert_owned_by(ci, program_id)?;
        assert_verified_member_of_collection(&m, &cm)?;
        let mut tail = shrink_parent(6, ci, &cm)?;
        let ghost tv = effects_view(tail@);
        out.append(&mut tail);
        assert(effects_view(out@) =~= base + tv);
    }
    Ok(out)
}

// ---------------------------------------------------------------- burn a print edition

/// The decimal digits of `n`, most significant first, as ASCII bytes (as `u64::to_string`
/// writes the number).
pub open spec fn decimal(n: nat) -> Seq<u8>
    decreases n,
{
    if n < 10 {
        seq![(48 + n) as u8]
    } else {
        decimal(n / 10).push((48 + n % 10) as u8)
    }
}

/// The decimal digits of `n` as ASCII bytes.
pub fn decimal_string(n: u64) -> (v: Vec<u8>)
    ensures
        v@ == decimal(n as nat),
    decreases n,
{
    if n < 10 {
        vec![48u8 + n as u8]
    } else {
        let mut v = decimal_string(n / 10);
        v.push(48u8 + (n % 10) as u8);
        v
    }
}

/// The seeds of the edition marker that records edition `n`: the master mint's edition seeds
/// and the decimal digits of `n / 248`.
pub open spec fn edition_marker_seeds(program_id: Pubkey, master_mint: Pubkey, n: u64) -> Seq<Seq<u8>> {
    edition_seeds(program_id, master_mint).push(decimal((n / 248) as nat))
}

pub fn make_edition_marker_seeds(program_id: &Pubkey, master_mint: &Pubkey, n: u64) -> (v: Vec<Vec<u8>>)
    ensures
        v.deep_view() == edition_marker_seeds(*program_id, *master_mint, n),
{
    let mut v = make_edition_seeds(program_id, master_mint);
    let d = decimal_string(n / EDITION_MARKER_BIT_SIZE);
    proof {
        crate::ids::lemma_byte_vec_deep_view(d);
    }
    let ghost before = v@;
    v.push(d);
    assert forall|i: int| 0 <= i < v@.len() implies #[trigger] v.deep_view()[i] == edition_marker_seeds(*program_id, *master_mint, n)[i] by {
        if i < before.len() {
            assert(v@[i] == before[i]);
        }
    }
    assert(v.deep_view() =~= edition_marker_seeds(*program_id, *master_mint, n));
    v
}

/// A failed derivation reported as `e` instead.
pub open spec fn derivation_or(r: Result<u8, ProgramError>, e: MetadataError) -> Result<u8, ProgramError> {
    match r {
        Ok(b) => Ok(b),
        Err(_) => Err(merr(e)),
    }
}

/// The edition marker after a print is burned, and the master edition after it: the print's
/// bit is cleared when the holder also holds the master (and the master's supply limit shrinks
/// otherwise); an empty marker is closed into the holder, and the master's supply shrinks.
pub open spec fn ledger_and_master(
    accs: Seq<AccountView>,
    print_edition: u64,
    owner_is_master_holder: bool,
    owner_lamports: u64,
) -> Result<Seq<EffectView>, ProgramError> {
    let (marker, me) = (accs[8], accs[6]);
    match edition_marker_of_data(marker.data) {
        None => Err(merr(MetadataError::DataTypeMismatch)),
        Some((key, ledger)) => {
            let ledger2 = if owner_is_master_holder {
                toggled(ledger, print_edition)
            } else {
                ledger
            };
            let marker_effects = if all_zero(ledger2) {
                match drain_effect(8, 1, marker.lamports, owner_lamports) {
                    Err(e) => Err(e),
                    Ok((d, _)) => Ok(seq![d, EffectView::Zero { account: 8, len: marker.data.len() as usize }]),
                }
            } else {
                match write_effect(8, marker.data.len(), en_edition_marker(key, ledger2), true) {
                    Err(e) => Err(e),
                    Ok(w) => Ok(seq![w]),
                }
            };
            match marker_effects {
                Err(e) => Err(e),
                Ok(pre) => match master_edition_v2_of_data(me.data) {
                    None => Err(merr(MetadataError::DataTypeMismatch)),
                    Some(master) => if master.supply == 0 {
                        Err(merr(MetadataError::NumericalOverflowError))
                    } else if (master.max_supply matches Some(x) && !owner_is_master_holder && x == 0) {
                        Err(merr(MetadataError::NumericalOverflowError))
                    } else {
                        let max2 = match master.max_supply {
                            Some(x) => if owner_is_master_holder {
                                Some(x)
                            } else {
                                Some((x - 1) as u64)
                            },
                            None => None,
                        };
                        let m2 = MasterEditionV2 { supply: (master.supply - 1) as u64, max_supply: max2, ..master };
                        match write_effect(6, me.data.len(), en_master_edition_v2(m2), false) {
                            Err(e) => Err(e),
                            Ok(w) => Ok(pre + seq![w]),
                        }
                    },
                },
            }
        },
    }
}

/// The holder burns a print edition: the master and print accounts must be what they claim,
/// the print must belong to the master, and the edition marker must be the print's; then the
/// print token is burned and its account closed, the metadata and print edition accounts are
/// emptied into the holder, and the marker and master edition are updated.
pub open spec fn burn_edition_nft_spec(program_id: Pubkey, accs: Seq<AccountView>) -> Result<
    Seq<EffectView>,
    ProgramError,
> {
    if accs.len() < 10 {
        Err(ProgramError::NotEnoughAccountKeys)
    } else {
        let (mi, owner, pmint, mmint, ptoken, mtoken, me, pe, marker, tp) = (
            accs[0],
            accs[1],
            accs[2],
            accs[3],
            accs[4],
            accs[5],
            accs[6],
            accs[7],
            accs[8],
            accs[9],
        );
        match chk_mint_decimals(mmint) {
            Err(e) => Err(e),
            Ok(md) => match chk_mint_supply(mmint) {
                Err(e) => Err(e),
                Ok(ms) => match chk_is_master_edition(me, md, ms) {
                    Err(e) => Err(e),
                    Ok(false) => Err(merr(MetadataError::NotAMasterEdition)),
                    Ok(true) => match chk_mint_decimals(pmint) {
                        Err(e) => Err(e),
                        Ok(pd) => match chk_mint_supply(pmint) {
                            Err(e) => Err(e),
                            Ok(ps) => match chk_is_print_edition(pe, pd, ps) {
                                Err(e) => Err(e),
                                Ok(false) => Err(merr(MetadataError::NotAPrintEdition)),
                                Ok(true) => burn_edition_checked(program_id, accs),
                            },
                        },
                    },
                },
            },
        }
    }
}

/// The rest of a print edition burn, once master and print edition have been recognised.
pub open spec fn burn_edition_checked(program_id: Pubkey, accs: Seq<AccountView>) -> Result<
    Seq<EffectView>,
    ProgramError,
> {
    let (mi, owner, pmint, mmint, ptoken, mtoken, me, pe, marker, tp) = (
        accs[0],
        accs[1],
        accs[2],
        accs[3],
        accs[4],
        accs[5],
        accs[6],
        accs[7],
        accs[8],
        accs[9],
    );
    match metadata_of_data(mi.data) {
        None => Err(merr(MetadataError::DataTypeMismatch)),
        Some(m) => match chk_currently_holding(program_id, owner, mi, m, pmint, ptoken) {
            Err(e) => Err(e),
            Ok(_) => if me.owner != program_id || pe.owner != program_id || marker.owner != program_id {
                Err(merr(MetadataError::IncorrectOwner))
            } else if mmint.owner != spl_token_program_id() || mtoken.owner != spl_token_program_id() {
                Err(merr(MetadataError::IncorrectOwner))
            } else {
                match chk_initialized_token_account(mtoken) {
                    Err(e) => Err(e),
                    Ok(mt) => if mt.mint != mmint.key {
                        Err(merr(MetadataError::MintMismatch))
                    } else if mt.amount < 1 {
                        Err(merr(MetadataError::NotEnoughTokens))
                    } else if !owner.is_signer {
                        Err(ProgramError::MissingRequiredSignature)
                    } else {
                        match derivation_or(
                            chk_derivation(program_id, me, edition_seeds(program_id, mmint.key)),
                            MetadataError::InvalidMasterEdition,
                        ) {
                            Err(e) => Err(e),
                            Ok(_) => match derivation_or(
                                chk_derivation(program_id, pe, edition_seeds(program_id, pmint.key)),
                                MetadataError::InvalidPrintEdition,
                            ) {
                                Err(e) => Err(e),
                                Ok(_) => match edition_of_data(pe.data) {
                                    None => Err(merr(MetadataError::DataTypeMismatch)),
                                    Some(print) => if print.parent != me.key {
                                        Err(merr(MetadataError::PrintEditionDoesNotMatchMasterEdition))
                                    } else {
                                        match derivation_or(
                                            chk_derivation(
                                                program_id,
                                                marker,
                                                edition_marker_seeds(program_id, mmint.key, print.edition),
                                            ),
                                            MetadataError::InvalidEditionMarker,
                                        ) {
                                            Err(e) => Err(e),
                                            Ok(_) => match burn_effect(tp.key, ptoken.key, pmint.key, owner.key, Seq::empty()) {
                                                Err(e) => Err(e),
                                                Ok(b) => match close_effect(tp.key, ptoken.key, owner.key, owner.key) {
                                                    Err(e) => Err(e),
                                                    Ok(c) => match drain_effect(0, 1, mi.lamports, owner.lamports) {
                                                        Err(e) => Err(e),
                                                        Ok((d1, o1)) => match drain_effect(7, 1, pe.lamports, o1) {
                                                            Err(e) => Err(e),
                                                            Ok((d2, o2)) => match ledger_and_master(
                                                                accs,
                                                                print.edition,
                                                                owner.key == mt.owner,
                                                                o2,
                                                            ) {
                                                                Err(e) => Err(e),
                                                                Ok(tail) => Ok(
                                                                    seq![
                                                                        b,
                                                                        c,
                                                                        d1,
                                                                        d2,
                                                                        EffectView::Zero { account: 0, len: MAX_METADATA_LEN },
                                                                        EffectView::Zero { account: 7, len: pe.data.len() as usize },
                                                                    ] + tail,
                                                                ),
                                                            },
                                                        },
                                                    },
                                                },
                                            },
                                        }
                                    },
                                },
                            },
                        }
                    },
                }
            },
        },
    }
}

fn update_ledger_and_master(
    accounts: &Vec<AccountInfo>,
    print_edition: u64,
    owner_is_master_holder: bool,
    owner_lamports: u64,
) -> (r: Result<Vec<Effect>, ProgramError>)
    requires
        accounts@.len() >= 10,
    ensures
        outcome_view(r) == ledger_and_master(accounts_view(accounts@), print_edition, owner_is_master_holder, owner_lamports),
{
    let (marker, me) = (&accounts[8], &accounts[6]);
    let mut em = edition_marker_from_data(marker.data.as_slice())?;
    if owner_is_master_holder {
        toggle_edition(&mut em.ledger, print_edition);
    }
    let mut out = no_effects();
    if is_all_zero(&em.ledger) {
        let (d, _) = drain_lamports(8, 1, marker.lamports, owner_lamports)?;
        let ghost dv = d@;
        push_effect(&mut out, d);
        push_effect(&mut out, Effect::Zero { account: 8, len: marker.data.len() });
        assert(effects_view(out@) =~= seq![dv, EffectView::Zero { account: 8, len: marker.data.len() }]);
    } else {
        let w = write_account(8, marker.data.len(), encode_edition_marker(&em), true)?;
        let ghost wv = w@;
        push_effect(&mut out, w);
        assert(effects_view(out@) =~= seq![wv]);
    }
    let ghost pre = effects_view(out@);
    let master = master_edition_v2_from_data(me.data.as_slice())?;
    if master.supply == 0 {
        return Err(to_program_error(MetadataError::NumericalOverflowError));
    }
    let max2 = match master.max_supply {
        Some(x) => {
            if owner_is_master_holder {
                Some(x)
            } else {
                if x == 0 {
                    return Err(to_program_error(MetadataError::NumericalOverflowError));
                }
                Some(x - 1)
            }
        },
        None => None,
    };
    let m2 = MasterEditionV2 { key: master.key, supply: master.supply - 1, max_supply: max2 };
    let w = write_account(6, me.data.len(), encode_master_edition_v2(&m2), false)?;
    let ghost wv = w@;
    push_effect(&mut out, w);
    assert(effects_view(out@) =~= pre + seq![wv]);
    Ok(out)
}

fn burn_edition_after_checks(program_id: &Pubkey, accounts: &Vec<AccountInfo>) -> (r: Result<
    Vec<Effect>,
    ProgramError,
>)
    requires
        accounts@.len() >= 10,
    ensures
        outcome_view(r) == burn_edition_checked(*program_id, accounts_view(accounts@)),
{
    let (mi, owner, pmint, mmint, ptoken, mtoken, me, pe, marker, tp) = (
        &accounts[0],
        &accounts[1],
        &accounts[2],
        &accounts[3],
        &accounts[4],
        &accounts[5],
        &accounts[6],
        &accounts[7],
        &accounts[8],
        &accounts[9],
    );
    let m = metadata_from_data(mi.data.as_slice())?;
    assert_currently_holding(program_id, owner, mi, &m, pmint, ptoken)?;
    if me.owner != *program_id || pe.owner != *program_id || marker.owner != *program_id {
        return Err(to_program_error(MetadataError::IncorrectOwner));
    }
    let spl = token_program_id();
    if mmint.owner != spl || mtoken.owner != spl {
        return Err(to_program_error(MetadataError::IncorrectOwner));
    }
    let mt = assert_initialized_token_account(mtoken)?;
    if mt.mint != mmint.key {
        return Err(to_program_error(MetadataError::MintMismatch));
    }
    if mt.amount < 1 {
        return Err(to_program_error(MetadataError::NotEnoughTokens));
    }
    if !owner.is_signer {
        return Err(ProgramError::MissingRequiredSignature);
    }
    let ms = make_edition_seeds(program_id, &mmint.key);
    if assert_derivation(program_id, me, &ms).is_err() {
        return Err(to_program_error(MetadataError::InvalidMasterEdition));
    }
    let ps = make_edition_seeds(program_id, &pmint.key);
    if assert_derivation(program_id, pe, &ps).is_err() {
        return Err(to_program_error(MetadataError::InvalidPrintEdition));
    }
    let print = edition_from_data(pe.data.as_slice())?;
    if print.parent != me.key {
        return Err(to_program_error(MetadataError::PrintEditionDoesNotMatchMasterEdition));
    }
    let mks = make_edition_marker_seeds(program_id, &mmint.key, print.edition);
    if assert_derivation(program_id, marker, &mks).is_err() {
        return Err(to_program_error(MetadataError::InvalidEditionMarker));
    }
    let no_seeds: Vec<Vec<Vec<u8>>> = Vec::new();
    assert(no_seeds.deep_view() =~= Seq::<Seq<Seq<u8>>>::empty());
    let b = spl_token_burn(&tp.key, &ptoken.key, &pmint.key, &owner.key, no_seeds)?;
    let c = spl_token_close(&tp.key, &ptoken.key, &owner.key, &owner.key)?;
    let (d1, o1) = drain_lamports(0, 1, mi.lamports, owner.lamports)?;
    let (d2, o2) = drain_lamports(7, 1, pe.lamports, o1)?;
    let mut tail = update_ledger_and_master(accounts, print.edition, owner.key == mt.owner, o2)?;
    let ghost tv = effects_view(tail@);
    let mut out = vec![
        b,
        c,
        d1,
        d2,
        Effect::Zero { account: 0, len: MAX_METADATA_LEN },
        Effect::Zero { account: 7, len: pe.data.len() },
    ];
    let ghost base = effects_view(out@);
    assert(base =~= seq![out@[0]@, out@[1]@, out@[2]@, out@[3]@, out@[4]@, out@[5]@]);
    out.append(&mut tail);
    assert(effects_view(out@) =~= base + tv);
    Ok(out)
}

pub fn process_burn_edition_nft(program_id: &Pubkey, accounts: &Vec<AccountInfo>) -> (r: Result<
    Vec<Effect>,
    ProgramError,
>)
    ensures
        outcome_view(r) == burn_edition_nft_spec(*program_id, accounts_view(accounts@)),
{
    if accounts.len() < 10 {
        return Err(ProgramError::NotEnoughAccountKeys);
    }
    let (pmint, mmint, me, pe) = (&accounts[2], &accounts[3], &accounts[6], &accounts[7]);
    let md = get_mint_decimals(mmint)?;
    let ms = get_mint_supply(mmint)?;
    if !is_master_edition(me, md, ms)? {
        return Err(to_program_error(MetadataError::NotAMasterEdition));
    }
    let pd = get_mint_decimals(pmint)?;
    let ps = get_mint_supply(pmint)?;
    if !is_print_edition(pe, pd, ps)? {
        return Err(to_program_error(MetadataError::NotAPrintEdition));
    }
    burn_edition_after_checks(program_id, accounts)
}

// ---------------------------------------------------------------- freeze and thaw

/// A delegate of all tokens of a token account freezes (or thaws) it through the mint's edition,
/// which must be the mint's freeze authority.
pub open spec fn freeze_thaw_delegated_spec(program_id: Pubkey, accs: Seq<AccountView>, freeze: bool) -> Result<
    Seq<EffectView>,
    ProgramError,
> {
    if accs.len() < 5 {
        Err(ProgramError::NotEnoughAccountKeys)
    } else {
        let (delegate, token, edition, mint_info, tp) = (accs[0], accs[1], accs[2], accs[3], accs[4]);
        if tp.key != spl_token_program_id() {
            Err(merr(MetadataError::InvalidTokenProgram))
        } else {
            match chk_initialized_mint(mint_info) {
                Err(e) => Err(e),
                Ok(mint) => if edition.owner != program_id {
                    Err(merr(MetadataError::IncorrectOwner))
                } else {
                    match chk_freeze_authority(mint.freeze_authority, edition) {
                        Err(e) => Err(e),
                        Ok(_) => if !delegate.is_signer {
                            Err(ProgramError::MissingRequiredSignature)
                        } else {
                            match chk_delegated_tokens(delegate, mint_info, token) {
                                Err(e) => Err(e),
                                Ok(_) => {
                                    let seeds = edition_seeds(program_id, mint_info.key);
                                    match chk_derivation(program_id, edition, seeds) {
                                        Err(e) => Err(e),
                                        Ok(bump) => match freeze_thaw_effect(
                                            tp.key,
                                            token.key,
                                            mint_info.key,
                                            edition.key,
                                            freeze,
                                            with_bump(seeds, bump),
                                        ) {
                                            Err(e) => Err(e),
                                            Ok(x) => Ok(seq![x]),
                                        },
                                    }
                                },
                            }
                        },
                    }
                },
            }
        }
    }
}

fn freeze_thaw_delegated(program_id: &Pubkey, accounts: &Vec<AccountInfo>, freeze: bool) -> (r: Result<
    Vec<Effect>,
    ProgramError,
>)
    ensures
        outcome_view(r) == freeze_thaw_delegated_spec(*program_id, accounts_view(accounts@), freeze),
{
    if accounts.len() < 5 {
        return Err(ProgramError::NotEnoughAccountKeys);
    }
    let (delegate, token, edition, mint_info, tp) = (&accounts[0], &accounts[1], &accounts[2], &accounts[3], &accounts[4]);
    if tp.key != token_program_id() {
        return Err(to_program_error(MetadataError::InvalidTokenProgram));
    }
    let mint = assert_initialized_mint(mint_info)?;
    assert_owned_by(edition, program_id)?;
    assert_freeze_authority_matches_mint(&mint.freeze_authority, edition)?;
    if !delegate.is_signer {
        return Err(ProgramError::MissingRequiredSignature);
    }
    assert_delegated_tokens(delegate, mint_info, token)?;
    let mut seeds = make_edition_seeds(program_id, &mint_info.key);
    let bump = assert_derivation(program_id, edition, &seeds)?;
    push_bump(&mut seeds, bump);
    let x = spl_token_freeze_thaw(&tp.key, &token.key, &mint_info.key, &edition.key, freeze, seeds)?;
    let v = vec![x];
    assert(effects_view(v@) =~= seq![v@[0]@]);
    Ok(v)
}

/// A delegate freezes a token account through the mint's edition.
pub fn process_freeze_delegated_account(program_id: &Pubkey, accounts: &Vec<AccountInfo>) -> (r: Result<
    Vec<Effect>,
    ProgramError,
>)
    ensures
        outcome_view(r) == freeze_thaw_delegated_spec(*program_id, accounts_view(accounts@), true),
{
    freeze_thaw_delegated(program_id, accounts, true)
}

/// A delegate thaws a token account through the mint's edition.
pub fn process_thaw_delegated_account(program_id: &Pubkey, accounts: &Vec<AccountInfo>) -> (r: Result<
    Vec<Effect>,
    ProgramError,
>)
    ensures
        outcome_view(r) == freeze_thaw_delegated_spec(*program_id, accounts_view(accounts@), false),
{
    freeze_thaw_delegated(program_id, accounts, false)
}

} // verus!
