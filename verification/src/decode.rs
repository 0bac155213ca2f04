//! Reading records from account data.

use crate::codec::{data_encodable, data_is_utf8, sp_bool, sp_creator, sp_creators, sp_data, sp_opt_creators, sp_opt_u64, sp_opt_u8, sp_pubkey, sp_string, sp_u16, sp_u32, sp_u64, sp_u8, metadata_of_data, sp_metadata, sp_metadata_head, tp_collection, tp_collection_details, tp_token_standard, tp_uses};
use crate::error::{merr, MetadataError, ProgramError};
use crate::outside::is_utf8;
use crate::pubkey::Pubkey;
use crate::state::{Collection, CollectionDetails, Creator, Data, Key, Metadata, TokenStandard, UseMethod, Uses};
use vstd::bytes::*;
use vstd::prelude::*;
use vstd::slice::slice_subrange;
use vstd::utf8::valid_utf8;

verus! {

/// What a reader that gives a value and the position after it promises: the value and the rest
/// are what the spec reader gives on the bytes from `p`.
pub open spec fn read_ok<T>(s: Seq<u8>, p: usize, q: usize, x: T, spec: Option<(T, Seq<u8>)>) -> bool {
    &&& p <= q <= s.len()
    &&& spec == Some((x, s.skip(q as int)))
}

pub fn rd_u8(s: &[u8], p: usize) -> (r: Option<(u8, usize)>)
    requires
        p <= s@.len(),
    ensures
        match r {
            Some((x, q)) => read_ok(s@, p, q, x, sp_u8(s@.skip(p as int))),
            None => sp_u8(s@.skip(p as int)) is None,
        },
{
    if p < s.len() {
        assert(s@.skip(p as int).skip(1) =~= s@.skip(p + 1));
        Some((s[p], p + 1))
    } else {
        None
    }
}

pub fn rd_u16(s: &[u8], p: usize) -> (r: Option<(u16, usize)>)
    requires
        p <= s@.len(),
    ensures
        match r {
            Some((x, q)) => read_ok(s@, p, q, x, sp_u16(s@.skip(p as int))),
            None => sp_u16(s@.skip(p as int)) is None,
        },
{
    let n = s.len();
    if n - p >= 2 {
        assert(s@.skip(p as int).skip(2) =~= s@.skip(p + 2));
        assert(s@.skip(p as int).take(2) =~= s@.subrange(p as int, p + 2));
        Some((u16_from_le_bytes(slice_subrange(s, p, p + 2)), p + 2))
    } else {
        None
    }
}

pub fn rd_u32(s: &[u8], p: usize) -> (r: Option<(u32, usize)>)
    requires
        p <= s@.len(),
    ensures
        match r {
            Some((x, q)) => read_ok(s@, p, q, x, sp_u32(s@.skip(p as int))),
            None => sp_u32(s@.skip(p as int)) is None,
        },
{
    let n = s.len();
    if n - p >= 4 {
        assert(s@.skip(p as int).skip(4) =~= s@.skip(p + 4));
        assert(s@.skip(p as int).take(4) =~= s@.subrange(p as int, p + 4));
        Some((u32_from_le_bytes(slice_subrange(s, p, p + 4)), p + 4))
    } else {
        None
    }
}

pub fn rd_u64(s: &[u8], p: usize) -> (r: Option<(u64, usize)>)
    requires
        p <= s@.len(),
    ensures
        match r {
            Some((x, q)) => read_ok(s@, p, q, x, sp_u64(s@.skip(p as int))),
            None => sp_u64(s@.skip(p as int)) is None,
        },
{
    let n = s.len();
    if n - p >= 8 {
        assert(s@.skip(p as int).skip(8) =~= s@.skip(p + 8));
        assert(s@.skip(p as int).take(8) =~= s@.subrange(p as int, p + 8));
        Some((u64_from_le_bytes(slice_subrange(s, p, p + 8)), p + 8))
    } else {
        None
    }
}

pub fn rd_pubkey(s: &[u8], p: usize) -> (r: Option<(Pubkey, usize)>)
    requires
        p <= s@.len(),
    ensures
        match r {
            Some((x, q)) => read_ok(s@, p, q, x, sp_pubkey(s@.skip(p as int))),
            None => sp_pubkey(s@.skip(p as int)) is None,
        },
{
    reveal(sp_pubkey);
    let n = s.len();
    if n - p >= 32 {
        let k = Pubkey::from_bytes_at(s, p);
        let ghost t = s@.skip(p as int);
        assert(t.skip(32) =~= s@.skip(p + 32));
        assert(t.subrange(0, 8) =~= s@.subrange(p as int, p + 8));
        assert(t.subrange(8, 16) =~= s@.subrange(p + 8, p + 16));
        assert(t.subrange(16, 24) =~= s@.subrange(p + 16, p + 24));
        assert(t.subrange(24, 32) =~= s@.subrange(p + 24, p + 32));
        Some((k, p + 32))
    } else {
        None
    }
}

pub fn rd_bool(s: &[u8], p: usize) -> (r: Option<(bool, usize)>)
    requires
        p <= s@.len(),
    ensures
        match r {
            Some((x, q)) => read_ok(s@, p, q, x, sp_bool(s@.skip(p as int))),
            None => sp_bool(s@.skip(p as int)) is None,
        },
{
    reveal(sp_bool);
    match rd_u8(s, p) {
        Some((b, q)) => if b == 0 {
            Some((false, q))
        } else if b == 1 {
            Some((true, q))
        } else {
            None
        },
        None => None,
    }
}

pub fn rd_string(s: &[u8], p: usize) -> (r: Option<(Vec<u8>, usize)>)
    requires
        p <= s@.len(),
    ensures
        match r {
            Some((x, q)) => read_ok(s@, p, q, x@, sp_string(s@.skip(p as int))) && x@.len()
                <= u32::MAX && valid_utf8(x@),
            None => sp_string(s@.skip(p as int)) is None,
        },
{
    reveal(sp_string);
    match rd_u32(s, p) {
        Some((n, q)) => {
            let len = s.len();
            let nn = n as usize;
            if len - q >= nn {
                let part = slice_subrange(s, q, q + nn);
                let ghost r = s@.skip(q as int);
                assert(part@ =~= r.take(nn as int));
                if is_utf8(part) {
                    let mut v: Vec<u8> = Vec::new();
                    v.extend_from_slice(part);
                    assert(v@ =~= part@);
                    assert(r.skip(nn as int) =~= s@.skip(q + nn));
                    Some((v, q + nn))
                } else {
                    None
                }
            } else {
                None
            }
        },
        None => None,
    }
}

pub fn rd_creator(s: &[u8], p: usize) -> (r: Option<(Creator, usize)>)
    requires
        p <= s@.len(),
    ensures
        match r {
            Some((x, q)) => read_ok(s@, p, q, x, sp_creator(s@.skip(p as int))),
            None => sp_creator(s@.skip(p as int)) is None,
        },
{
    reveal(sp_creator);
    match rd_pubkey(s, p) {
        Some((a, q1)) => match rd_bool(s, q1) {
            Some((v, q2)) => match rd_u8(s, q2) {
                Some((sh, q3)) => Some((Creator { address: a, verified: v, share: sh }, q3)),
                None => None,
            },
            None => None,
        },
        None => None,
    }
}

/// Reads `n` creators one after the other.
pub fn rd_creators(s: &[u8], p: usize, n: u32) -> (r: Option<(Vec<Creator>, usize)>)
    requires
        p <= s@.len(),
    ensures
        match r {
            Some((x, q)) => read_ok(s@, p, q, x@, sp_creators(s@.skip(p as int), n as nat)),
            None => sp_creators(s@.skip(p as int), n as nat) is None,
        },
{
    let mut out: Vec<Creator> = Vec::new();
    let mut pos = p;
    let mut i: u32 = 0;
    while i < n
        invariant
            p <= pos <= s@.len(),
            i <= n,
            sp_creators(s@.skip(p as int), n as nat) == match sp_creators(
                s@.skip(pos as int),
                (n - i) as nat,
            ) {
                Some((cs, r)) => Some((out@ + cs, r)),
                None => None,
            },
        decreases n - i,
    {
        let ghost before = out@;
        match rd_creator(s, pos) {
            Some((c, q)) => {
                assert(sp_creators(s@.skip(pos as int), (n - i) as nat) == match sp_creators(
                    s@.skip(q as int),
                    (n - i - 1) as nat,
                ) {
                    Some((cs, r)) => Some((seq![c] + cs, r)),
                    None => None,
                });
                out.push(c);
                pos = q;
                i = i + 1;
                assert forall|cs: Seq<Creator>| before + (seq![c] + cs) =~= out@ + cs by {}
            },
            None => {
                return None;
            },
        }
    }
    assert(out@ + Seq::<Creator>::empty() =~= out@);
    Some((out, pos))
}

pub fn rd_opt_creators(s: &[u8], p: usize) -> (r: Option<(Option<Vec<Creator>>, usize)>)
    requires
        p <= s@.len(),
    ensures
        match r {
            Some((x, q)) => read_ok(s@, p, q, creators_view_of(x), sp_opt_creators(s@.skip(p as int)))
                && (x matches Some(v) ==> v@.len() <= u32::MAX),
            None => sp_opt_creators(s@.skip(p as int)) is None,
        },
{
    reveal(sp_opt_creators);
    match rd_u8(s, p) {
        Some((t, q)) => if t == 0 {
            Some((None, q))
        } else if t == 1 {
            match rd_u32(s, q) {
                Some((n, q2)) => match rd_creators(s, q2, n) {
                    Some((cs, q3)) => {
                        proof {
                            let ghost sp = sp_creators(s@.skip(q2 as int), n as nat);
                            lemma_sp_creators_len(s@.skip(q2 as int), n as nat);
                        }
                        Some((Some(cs), q3))
                    },
                    None => None,
                },
                None => None,
            }
        } else {
            None
        },
        None => None,
    }
}

/// The view of an optional list of creators.
pub open spec fn creators_view_of(c: Option<Vec<Creator>>) -> Option<Seq<Creator>> {
    match c {
        Some(v) => Some(v@),
        None => None,
    }
}

/// The creators read are as many as asked for.
pub proof fn lemma_sp_creators_len(s: Seq<u8>, n: nat)
    ensures
        sp_creators(s, n) matches Some((cs, _)) ==> cs.len() == n,
    decreases n,
{
    if n > 0 {
        if let Some((c, r)) = sp_creator(s) {
            lemma_sp_creators_len(r, (n - 1) as nat);
        }
    }
}

pub fn rd_data(s: &[u8], p: usize) -> (r: Option<(Data, usize)>)
    requires
        p <= s@.len(),
    ensures
        match r {
            Some((x, q)) => read_ok(s@, p, q, x@, sp_data(s@.skip(p as int))) && data_encodable(
                x@,
            ) && data_is_utf8(x@),
            None => sp_data(s@.skip(p as int)) is None,
        },
{
    reveal(sp_data);
    let (name, q1) = match rd_string(s, p) {
        Some(v) => v,
        None => return None,
    };
    let (symbol, q2) = match rd_string(s, q1) {
        Some(v) => v,
        None => return None,
    };
    let (uri, q3) = match rd_string(s, q2) {
        Some(v) => v,
        None => return None,
    };
    let (fee, q4) = match rd_u16(s, q3) {
        Some(v) => v,
        None => return None,
    };
    let (creators, q5) = match rd_opt_creators(s, q4) {
        Some(v) => v,
        None => return None,
    };
    let d = Data { name, symbol, uri, seller_fee_basis_points: fee, creators };
    assert(creators_view_of(d.creators) == crate::state::creators_view(d.creators));
    Some((d, q5))
}

pub fn rd_opt_u8(s: &[u8], p: usize) -> (r: Option<(Option<u8>, usize)>)
    requires
        p <= s@.len(),
    ensures
        match r {
            Some((x, q)) => read_ok(s@, p, q, x, sp_opt_u8(s@.skip(p as int))),
            None => sp_opt_u8(s@.skip(p as int)) is None,
        },
{
    reveal(sp_opt_u8);
    match rd_u8(s, p) {
        Some((t, q)) => if t == 0 {
            Some((None, q))
        } else if t == 1 {
            match rd_u8(s, q) {
                Some((x, q2)) => Some((Some(x), q2)),
                None => None,
            }
        } else {
            None
        },
        None => None,
    }
}

pub fn rd_opt_u64(s: &[u8], p: usize) -> (r: Option<(Option<u64>, usize)>)
    requires
        p <= s@.len(),
    ensures
        match r {
            Some((x, q)) => read_ok(s@, p, q, x, sp_opt_u64(s@.skip(p as int))),
            None => sp_opt_u64(s@.skip(p as int)) is None,
        },
{
    reveal(sp_opt_u64);
    match rd_u8(s, p) {
        Some((t, q)) => if t == 0 {
            Some((None, q))
        } else if t == 1 {
            match rd_u64(s, q) {
                Some((x, q2)) => Some((Some(x), q2)),
                None => None,
            }
        } else {
            None
        },
        None => None,
    }
}


/// What a reader of a trailing optional field promises: result and rest are the spec reader's.
pub open spec fn tail_ok<T>(s: Seq<u8>, p: usize, r: (Option<T>, usize), spec: (Option<T>, Seq<u8>)) -> bool {
    &&& p <= r.1 <= s.len()
    &&& spec == (r.0, s.skip(r.1 as int))
}

pub fn tr_token_standard(s: &[u8], p: usize) -> (r: (Option<Option<TokenStandard>>, usize))
    requires
        p <= s@.len(),
    ensures
        tail_ok(s@, p, r, tp_token_standard(s@.skip(p as int))),
{
    reveal(tp_token_standard);
    let ghost t = s@.skip(p as int);
    let n = s.len();
    if p >= n {
        return (None, p);
    }
    assert(t.skip(1) =~= s@.skip(p + 1));
    assert(t[0] == s[p as int]);
    if s[p] == 0 {
        (Some(None), p + 1)
    } else if s[p] == 1 {
        let q = p + 1;
        if q >= n {
            return (None, q);
        }
        assert(t.skip(1)[0] == s[q as int]);
        assert(t.skip(1).skip(1) =~= s@.skip(q + 1));
        let b = s[q];
        if b == 0 {
            (Some(Some(TokenStandard::NonFungible)), q + 1)
        } else if b == 1 {
            (Some(Some(TokenStandard::FungibleAsset)), q + 1)
        } else if b == 2 {
            (Some(Some(TokenStandard::Fungible)), q + 1)
        } else if b == 3 {
            (Some(Some(TokenStandard::NonFungibleEdition)), q + 1)
        } else {
            (None, q + 1)
        }
    } else {
        (None, p + 1)
    }
}

pub fn tr_collection(s: &[u8], p: usize) -> (r: (Option<Option<Collection>>, usize))
    requires
        p <= s@.len(),
    ensures
        tail_ok(s@, p, r, tp_collection(s@.skip(p as int))),
{
    reveal(tp_collection);
    let ghost t = s@.skip(p as int);
    let n = s.len();
    if p >= n {
        return (None, p);
    }
    assert(t.skip(1) =~= s@.skip(p + 1));
    assert(t[0] == s[p as int]);
    if s[p] == 0 {
        (Some(None), p + 1)
    } else if s[p] == 1 {
        let q = p + 1;
        if q >= n {
            return (None, q);
        }
        assert(t.skip(1)[0] == s[q as int]);
        assert(t.skip(1).skip(1) =~= s@.skip(q + 1));
        let b = s[q];
        if b > 1 {
            return (None, q + 1);
        }
        let q2 = q + 1;
        if n - q2 < 32 {
            return (None, q2);
        }
        let k = Pubkey::from_bytes_at(s, q2);
        let ghost t2 = s@.skip(q2 as int);
        assert(t2.skip(32) =~= s@.skip(q2 + 32));
        assert(t2.subrange(0, 8) =~= s@.subrange(q2 as int, q2 + 8));
        assert(t2.subrange(8, 16) =~= s@.subrange(q2 + 8, q2 + 16));
        assert(t2.subrange(16, 24) =~= s@.subrange(q2 + 16, q2 + 24));
        assert(t2.subrange(24, 32) =~= s@.subrange(q2 + 24, q2 + 32));
        (Some(Some(Collection { verified: b == 1, key: k })), q2 + 32)
    } else {
        (None, p + 1)
    }
}

pub fn tr_uses(s: &[u8], p: usize) -> (r: (Option<Option<Uses>>, usize))
    requires
        p <= s@.len(),
    ensures
        tail_ok(s@, p, r, tp_uses(s@.skip(p as int))),
{
    reveal(tp_uses);
    let ghost t = s@.skip(p as int);
    let n = s.len();
    if p >= n {
        return (None, p);
    }
    assert(t.skip(1) =~= s@.skip(p + 1));
    assert(t[0] == s[p as int]);
    if s[p] == 0 {
        (Some(None), p + 1)
    } else if s[p] == 1 {
        let q = p + 1;
        if q >= n {
            return (None, q);
        }
        assert(t.skip(1)[0] == s[q as int]);
        assert(t.skip(1).skip(1) =~= s@.skip(q + 1));
        let b = s[q];
        let m = if b == 0 {
            UseMethod::Burn
        } else if b == 1 {
            UseMethod::Multiple
        } else if b == 2 {
            UseMethod::Single
        } else {
            return (None, q + 1);
        };
        let q2 = q + 1;
        let (remaining, q3) = match rd_u64(s, q2) {
            Some(v) => v,
            None => return (None, q2),
        };
        let (total, q4) = match rd_u64(s, q3) {
            Some(v) => v,
            None => return (None, q3),
        };
        (Some(Some(Uses { use_method: m, remaining, total })), q4)
    } else {
        (None, p + 1)
    }
}

pub fn tr_collection_details(s: &[u8], p: usize) -> (r: (Option<Option<CollectionDetails>>, usize))
    requires
        p <= s@.len(),
    ensures
        tail_ok(s@, p, r, tp_collection_details(s@.skip(p as int))),
{
    reveal(tp_collection_details);
    let ghost t = s@.skip(p as int);
    let n = s.len();
    if p >= n {
        return (None, p);
    }
    assert(t.skip(1) =~= s@.skip(p + 1));
    assert(t[0] == s[p as int]);
    if s[p] == 0 {
        (Some(None), p + 1)
    } else if s[p] == 1 {
        let q = p + 1;
        if q >= n {
            return (None, q);
        }
        assert(t.skip(1)[0] == s[q as int]);
        assert(t.skip(1).skip(1) =~= s@.skip(q + 1));
        if s[q] != 0 {
            return (None, q + 1);
        }
        let q2 = q + 1;
        match rd_u64(s, q2) {
            Some((size, q3)) => (Some(Some(CollectionDetails::V1 { size })), q3),
            None => (None, q2),
        }
    } else {
        (None, p + 1)
    }
}

/// Reads the metadata record at the start of `s`.
pub fn rd_metadata(s: &[u8]) -> (r: Option<Metadata>)
    ensures
        match r {
            Some(m) => sp_metadata(s@) == Some(m@) && data_encodable(m@.data) && data_is_utf8(
                m@.data,
            ),
            None => sp_metadata(s@) is None,
        },
{
    reveal(sp_metadata_head);
    assert(s@.skip(0) =~= s@);
    let (kb, q0) = match rd_u8(s, 0) {
        Some(v) => v,
        None => return None,
    };
    let key = match Key::from_byte(kb) {
        Some(k) => k,
        None => return None,
    };
    let (update_authority, q1) = match rd_pubkey(s, q0) {
        Some(v) => v,
        None => return None,
    };
    let (mint, q2) = match rd_pubkey(s, q1) {
        Some(v) => v,
        None => return None,
    };
    let (data, q3) = match rd_data(s, q2) {
        Some(v) => v,
        None => return None,
    };
    let (primary_sale_happened, q4) = match rd_bool(s, q3) {
        Some(v) => v,
        None => return None,
    };
    let (is_mutable, q5) = match rd_bool(s, q4) {
        Some(v) => v,
        None => return None,
    };
    let (edition_nonce, q6) = match rd_opt_u8(s, q5) {
        Some(v) => v,
        None => return None,
    };
    let (ts, q7) = tr_token_standard(s, q6);
    let (col, q8) = tr_collection(s, q7);
    let (us, q9) = tr_uses(s, q8);
    let (det, _q10) = tr_collection_details(s, q9);
    let all = ts.is_some() && col.is_some() && us.is_some();
    let (token_standard, collection, uses) = if all {
        (ts.unwrap(), col.unwrap(), us.unwrap())
    } else {
        (None, None, None)
    };
    let collection_details = match det {
        Some(d) => d,
        None => None,
    };
    let m = Metadata {
        key,
        update_authority,
        mint,
        data,
        primary_sale_happened,
        is_mutable,
        edition_nonce,
        token_standard,
        collection,
        uses,
        collection_details,
    };
    assert(sp_metadata(s@) =~= Some(m@));
    Some(m)
}

/// The metadata record an account's data holds: fails with a data type mismatch when the
/// data is empty, starts with another record's key, or does not read as a metadata record.
pub fn metadata_from_data(data: &[u8]) -> (r: Result<Metadata, ProgramError>)
    ensures
        match r {
            Ok(m) => metadata_of_data(data@) == Some(m@) && data_encodable(m@.data) && data_is_utf8(
                m@.data,
            ),
            Err(e) => metadata_of_data(data@) is None && e == merr(MetadataError::DataTypeMismatch),
        },
{
    let n = data.len();
    if n == 0 {
        return Err(crate::error::to_program_error(MetadataError::DataTypeMismatch));
    }
    let ok_type = match Key::from_byte(data[0]) {
        Some(k) => k == Key::MetadataV1 || k == Key::Uninitialized,
        None => false,
    };
    if !ok_type {
        return Err(crate::error::to_program_error(MetadataError::DataTypeMismatch));
    }
    match rd_metadata(data) {
        Some(m) => Ok(m),
        None => Err(crate::error::to_program_error(MetadataError::DataTypeMismatch)),
    }
}

} // verus!
