//! The fixed-size records: master editions, print editions, edition markers and authority
//! records. Each is read from an account whose first byte is its key and whose size is fixed.

use crate::codec::{account_type_is, en_opt_u64, lemma_sp_opt_u64, lemma_sp_u64, lemma_sp_u8, sp_opt_u64, sp_pubkey, sp_u64, sp_u8};
use crate::decode::{rd_opt_u64, rd_pubkey, rd_u64, rd_u8};
use crate::encode::{wr_opt_u64, wr_u64, wr_u8};
use crate::error::{merr, to_program_error, MetadataError, ProgramError};
use crate::state::{key_byte, key_of_byte, CollectionAuthorityRecord, Edition, EditionMarker, Key, MasterEditionV1, MasterEditionV2, UseAuthorityRecord, COLLECTION_AUTHORITY_RECORD_SIZE, EDITION_MARKER_LEDGER_LEN, MAX_EDITION_LEN, MAX_EDITION_MARKER_SIZE, MAX_MASTER_EDITION_LEN, USE_AUTHORITY_RECORD_SIZE};
use vstd::bytes::*;
use vstd::prelude::*;
use vstd::slice::slice_subrange;

verus! {

// ---------------------------------------------------------------- spec

pub open spec fn sp_master_edition_v2(s: Seq<u8>) -> Option<MasterEditionV2> {
    match sp_u8(s) {
        Some((kb, r)) => match key_of_byte(kb) {
            Some(key) => match sp_u64(r) {
                Some((supply, r2)) => match sp_opt_u64(r2) {
                    Some((max_supply, _)) => Some(MasterEditionV2 { key, supply, max_supply }),
                    None => None,
                },
                None => None,
            },
            None => None,
        },
        None => None,
    }
}

/// The master edition an account holds, if it holds one.
pub open spec fn master_edition_v2_of_data(d: Seq<u8>) -> Option<MasterEditionV2> {
    if account_type_is(d, Key::MasterEditionV2, MAX_MASTER_EDITION_LEN as nat) {
        sp_master_edition_v2(d)
    } else {
        None
    }
}

pub open spec fn en_master_edition_v2(me: MasterEditionV2) -> Seq<u8> {
    seq![key_byte(me.key)] + spec_u64_to_le_bytes(me.supply) + en_opt_u64(me.max_supply)
}

pub open spec fn sp_master_edition_v1(s: Seq<u8>) -> Option<MasterEditionV1> {
    match sp_u8(s) {
        Some((kb, r)) => match key_of_byte(kb) {
            Some(key) => match sp_u64(r) {
                Some((supply, r2)) => match sp_opt_u64(r2) {
                    Some((max_supply, r3)) => match sp_pubkey(r3) {
                        Some((printing_mint, r4)) => match sp_pubkey(r4) {
                            Some((one_time_printing_authorization_mint, _)) => Some(
                                MasterEditionV1 {
                                    key,
                                    supply,
                                    max_supply,
                                    printing_mint,
                                    one_time_printing_authorization_mint,
                                },
                            ),
                            None => None,
                        },
                        None => None,
                    },
                    None => None,
                },
                None => None,
            },
            None => None,
        },
        None => None,
    }
}

/// The old-layout master edition an account holds, if it holds one.
pub open spec fn master_edition_v1_of_data(d: Seq<u8>) -> Option<MasterEditionV1> {
    if account_type_is(d, Key::MasterEditionV1, MAX_MASTER_EDITION_LEN as nat) {
        sp_master_edition_v1(d)
    } else {
        None
    }
}

pub open spec fn sp_edition(s: Seq<u8>) -> Option<Edition> {
    match sp_u8(s) {
        Some((kb, r)) => match key_of_byte(kb) {
            Some(key) => match sp_pubkey(r) {
                Some((parent, r2)) => match sp_u64(r2) {
                    Some((edition, _)) => Some(Edition { key, parent, edition }),
                    None => None,
                },
                None => None,
            },
            None => None,
        },
        None => None,
    }
}

/// The print edition an account holds, if it holds one.
pub open spec fn edition_of_data(d: Seq<u8>) -> Option<Edition> {
    if account_type_is(d, Key::EditionV1, MAX_EDITION_LEN as nat) {
        sp_edition(d)
    } else {
        None
    }
}

/// The edition marker an account holds: its key and the 31 ledger bytes after it.
pub open spec fn edition_marker_of_data(d: Seq<u8>) -> Option<(Key, Seq<u8>)> {
    if account_type_is(d, Key::EditionMarker, MAX_EDITION_MARKER_SIZE as nat) {
        Some((key_of_byte(d[0]).unwrap(), d.subrange(1, 32)))
    } else {
        None
    }
}

pub open spec fn en_edition_marker(key: Key, ledger: Seq<u8>) -> Seq<u8> {
    seq![key_byte(key)] + ledger
}

/// The use authority record an account's data holds, if it holds one.
pub open spec fn use_authority_record_of_data(d: Seq<u8>) -> Option<UseAuthorityRecord> {
    if account_type_is(d, Key::UseAuthorityRecord, USE_AUTHORITY_RECORD_SIZE as nat) {
        Some(
            UseAuthorityRecord {
                key: key_of_byte(d[0]).unwrap(),
                allowed_uses: spec_u64_from_le_bytes(d.subrange(1, 9)),
                bump: d[9],
            },
        )
    } else {
        None
    }
}

pub open spec fn en_use_authority_record(r: UseAuthorityRecord) -> Seq<u8> {
    seq![key_byte(r.key)] + spec_u64_to_le_bytes(r.allowed_uses) + seq![r.bump]
}

/// The collection authority record an account's data holds, if it holds one.
pub open spec fn collection_authority_record_of_data(d: Seq<u8>) -> Option<CollectionAuthorityRecord> {
    if account_type_is(d, Key::CollectionAuthorityRecord, COLLECTION_AUTHORITY_RECORD_SIZE as nat) {
        Some(CollectionAuthorityRecord { key: key_of_byte(d[0]).unwrap(), bump: d[1] })
    } else {
        None
    }
}

pub open spec fn en_collection_authority_record(r: CollectionAuthorityRecord) -> Seq<u8> {
    seq![key_byte(r.key), r.bump]
}

/// A master edition written at the start of an account of the right size reads back as itself.
pub proof fn lemma_master_edition_v2_roundtrip(me: MasterEditionV2, t: Seq<u8>)
    requires
        me.key == Key::MasterEditionV2 || me.key == Key::Uninitialized,
        en_master_edition_v2(me).len() + t.len() == MAX_MASTER_EDITION_LEN,
    ensures
        master_edition_v2_of_data(en_master_edition_v2(me) + t) == Some(me),
{
    let a = spec_u64_to_le_bytes(me.supply);
    let b = en_opt_u64(me.max_supply);
    assert(en_master_edition_v2(me) + t =~= seq![key_byte(me.key)] + (a + (b + t)));
    lemma_sp_u8(key_byte(me.key), a + (b + t));
    lemma_sp_u64(me.supply, b + t);
    lemma_sp_opt_u64(me.max_supply, t);
}

// ---------------------------------------------------------------- exec

/// The first byte is a key, that key is `key` or the uninitialized key, and the size is `size`.
pub fn is_account_type(d: &[u8], key: Key, size: usize) -> (b: bool)
    ensures
        b == account_type_is(d@, key, size as nat),
{
    if d.len() == 0 {
        return false;
    }
    let k = match Key::from_byte(d[0]) {
        Some(k) => k,
        None => return false,
    };
    (k == key || k == Key::Uninitialized) && (d.len() == size || size == 0)
}

/// Reads a master edition; a data type mismatch when the account does not hold one.
pub fn master_edition_v2_from_data(d: &[u8]) -> (r: Result<MasterEditionV2, ProgramError>)
    ensures
        match r {
            Ok(me) => master_edition_v2_of_data(d@) == Some(me),
            Err(e) => master_edition_v2_of_data(d@) is None && e == merr(
                MetadataError::DataTypeMismatch,
            ),
        },
{
    if !is_account_type(d, Key::MasterEditionV2, MAX_MASTER_EDITION_LEN) {
        return Err(to_program_error(MetadataError::DataTypeMismatch));
    }
    assert(d@.skip(0) =~= d@);
    let (kb, q) = match rd_u8(d, 0) {
        Some(v) => v,
        None => return Err(to_program_error(MetadataError::DataTypeMismatch)),
    };
    let key = match Key::from_byte(kb) {
        Some(k) => k,
        None => return Err(to_program_error(MetadataError::DataTypeMismatch)),
    };
    let (supply, q2) = match rd_u64(d, q) {
        Some(v) => v,
        None => return Err(to_program_error(MetadataError::DataTypeMismatch)),
    };
    let (max_supply, _q3) = match rd_opt_u64(d, q2) {
        Some(v) => v,
        None => return Err(to_program_error(MetadataError::DataTypeMismatch)),
    };
    Ok(MasterEditionV2 { key, supply, max_supply })
}

/// The bytes of a master edition.
pub fn encode_master_edition_v2(me: &MasterEditionV2) -> (out: Vec<u8>)
    ensures
        out@ == en_master_edition_v2(*me),
{
    let mut out: Vec<u8> = Vec::new();
    wr_u8(me.key.to_byte(), &mut out);
    wr_u64(me.supply, &mut out);
    wr_opt_u64(me.max_supply, &mut out);
    assert(out@ =~= en_master_edition_v2(*me));
    out
}

/// Reads an old-layout master edition; a data type mismatch when the account does not hold one.
pub fn master_edition_v1_from_data(d: &[u8]) -> (r: Result<MasterEditionV1, ProgramError>)
    ensures
        match r {
            Ok(me) => master_edition_v1_of_data(d@) == Some(me),
            Err(e) => master_edition_v1_of_data(d@) is None && e == merr(
                MetadataError::DataTypeMismatch,
            ),
        },
{
    if !is_account_type(d, Key::MasterEditionV1, MAX_MASTER_EDITION_LEN) {
        return Err(to_program_error(MetadataError::DataTypeMismatch));
    }
    assert(d@.skip(0) =~= d@);
    let (kb, q) = match rd_u8(d, 0) {
        Some(v) => v,
        None => return Err(to_program_error(MetadataError::DataTypeMismatch)),
    };
    let key = match Key::from_byte(kb) {
        Some(k) => k,
        None => return Err(to_program_error(MetadataError::DataTypeMismatch)),
    };
    let (supply, q2) = match rd_u64(d, q) {
        Some(v) => v,
        None => return Err(to_program_error(MetadataError::DataTypeMismatch)),
    };
    let (max_supply, q3) = match rd_opt_u64(d, q2) {
        Some(v) => v,
        None => return Err(to_program_error(MetadataError::DataTypeMismatch)),
    };
    let (printing_mint, q4) = match rd_pubkey(d, q3) {
        Some(v) => v,
        None => return Err(to_program_error(MetadataError::DataTypeMismatch)),
    };
    let (one_time_printing_authorization_mint, _q5) = match rd_pubkey(d, q4) {
        Some(v) => v,
        None => return Err(to_program_error(MetadataError::DataTypeMismatch)),
    };
    Ok(
        MasterEditionV1 {
            key,
            supply,
            max_supply,
            printing_mint,
            one_time_printing_authorization_mint,
        },
    )
}

/// Reads a print edition; a data type mismatch when the account does not hold one.
pub fn edition_from_data(d: &[u8]) -> (r: Result<Edition, ProgramError>)
    ensures
        match r {
            Ok(e) => edition_of_data(d@) == Some(e),
            Err(e) => edition_of_data(d@) is None && e == merr(MetadataError::DataTypeMismatch),
        },
{
    if !is_account_type(d, Key::EditionV1, MAX_EDITION_LEN) {
        return Err(to_program_error(MetadataError::DataTypeMismatch));
    }
    assert(d@.skip(0) =~= d@);
    let (kb, q) = match rd_u8(d, 0) {
        Some(v) => v,
        None => return Err(to_program_error(MetadataError::DataTypeMismatch)),
    };
    let key = match Key::from_byte(kb) {
        Some(k) => k,
        None => return Err(to_program_error(MetadataError::DataTypeMismatch)),
    };
    let (parent, q2) = match rd_pubkey(d, q) {
        Some(v) => v,
        None => return Err(to_program_error(MetadataError::DataTypeMismatch)),
    };
    let (edition, _q3) = match rd_u64(d, q2) {
        Some(v) => v,
        None => return Err(to_program_error(MetadataError::DataTypeMismatch)),
    };
    Ok(Edition { key, parent, edition })
}

/// Reads an edition marker; a data type mismatch when the account does not hold one.
pub fn edition_marker_from_data(d: &[u8]) -> (r: Result<EditionMarker, ProgramError>)
    ensures
        match r {
            Ok(m) => edition_marker_of_data(d@) == Some((m.key, m.ledger@)) && m.ledger@.len()
                == EDITION_MARKER_LEDGER_LEN,
            Err(e) => edition_marker_of_data(d@) is None && e == merr(
                MetadataError::DataTypeMismatch,
            ),
        },
{
    if !is_account_type(d, Key::EditionMarker, MAX_EDITION_MARKER_SIZE) {
        return Err(to_program_error(MetadataError::DataTypeMismatch));
    }
    let key = Key::from_byte(d[0]).unwrap();
    let mut ledger: Vec<u8> = Vec::new();
    ledger.extend_from_slice(slice_subrange(d, 1, 32));
    assert(ledger@ =~= d@.subrange(1, 32));
    Ok(EditionMarker { key, ledger })
}

/// The bytes of an edition marker.
pub fn encode_edition_marker(m: &EditionMarker) -> (out: Vec<u8>)
    ensures
        out@ == en_edition_marker(m.key, m.ledger@),
{
    let mut out: Vec<u8> = Vec::new();
    wr_u8(m.key.to_byte(), &mut out);
    out.extend_from_slice(m.ledger.as_slice());
    assert(out@ =~= en_edition_marker(m.key, m.ledger@));
    out
}

/// Reads a use authority record; a data type mismatch when the account does not hold one.
pub fn use_authority_record_from_data(d: &[u8]) -> (r: Result<UseAuthorityRecord, ProgramError>)
    ensures
        match r {
            Ok(rec) => use_authority_record_of_data(d@) == Some(rec),
            Err(e) => use_authority_record_of_data(d@) is None && e == merr(
                MetadataError::DataTypeMismatch,
            ),
        },
{
    if !is_account_type(d, Key::UseAuthorityRecord, USE_AUTHORITY_RECORD_SIZE) {
        return Err(to_program_error(MetadataError::DataTypeMismatch));
    }
    let key = Key::from_byte(d[0]).unwrap();
    let allowed_uses = u64_from_le_bytes(slice_subrange(d, 1, 9));
    Ok(UseAuthorityRecord { key, allowed_uses, bump: d[9] })
}

/// The bytes of a use authority record.
pub fn encode_use_authority_record(rec: &UseAuthorityRecord) -> (out: Vec<u8>)
    ensures
        out@ == en_use_authority_record(*rec),
{
    let mut out: Vec<u8> = Vec::new();
    wr_u8(rec.key.to_byte(), &mut out);
    wr_u64(rec.allowed_uses, &mut out);
    wr_u8(rec.bump, &mut out);
    assert(out@ =~= en_use_authority_record(*rec));
    out
}

/// Reads a collection authority record; a data type mismatch when the account does not hold one.
pub fn collection_authority_record_from_data(d: &[u8]) -> (r: Result<
    CollectionAuthorityRecord,
    ProgramError,
>)
    ensures
        match r {
            Ok(rec) => collection_authority_record_of_data(d@) == Some(rec),
            Err(e) => collection_authority_record_of_data(d@) is None && e == merr(
                MetadataError::DataTypeMismatch,
            ),
        },
{
    if !is_account_type(d, Key::CollectionAuthorityRecord, COLLECTION_AUTHORITY_RECORD_SIZE) {
        return Err(to_program_error(MetadataError::DataTypeMismatch));
    }
    let key = Key::from_byte(d[0]).unwrap();
    Ok(CollectionAuthorityRecord { key, bump: d[1] })
}

/// The bytes of a collection authority record.
pub fn encode_collection_authority_record(rec: &CollectionAuthorityRecord) -> (out: Vec<u8>)
    ensures
        out@ == en_collection_authority_record(*rec),
{
    let mut out: Vec<u8> = Vec::new();
    wr_u8(rec.key.to_byte(), &mut out);
    wr_u8(rec.bump, &mut out);
    assert(out@ =~= en_collection_authority_record(*rec));
    out
}

} // verus!
