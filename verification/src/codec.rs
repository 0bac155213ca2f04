//! The byte layout of the program's records: how each is read from account data and written back.
//!
//! Readers are stated over the unread rest of the input: a reader takes the bytes that remain
//! and gives the value read with the bytes that remain after it.

use crate::pubkey::Pubkey;
use crate::state::{
    key_byte, key_of_byte, Collection, CollectionDetails, Creator, DataView, Key, MetadataView,
    TokenStandard, UseMethod, Uses,
};
use vstd::bytes::*;
use vstd::prelude::*;
use vstd::utf8::valid_utf8;

verus! {

broadcast use vstd::seq_lib::group_seq_properties;

// ---------------------------------------------------------------- readers (spec)

pub open spec fn sp_u8(s: Seq<u8>) -> Option<(u8, Seq<u8>)> {
    if s.len() >= 1 {
        Some((s[0], s.skip(1)))
    } else {
        None
    }
}

pub open spec fn sp_u16(s: Seq<u8>) -> Option<(u16, Seq<u8>)> {
    if s.len() >= 2 {
        Some((spec_u16_from_le_bytes(s.take(2)), s.skip(2)))
    } else {
        None
    }
}

pub open spec fn sp_u32(s: Seq<u8>) -> Option<(u32, Seq<u8>)> {
    if s.len() >= 4 {
        Some((spec_u32_from_le_bytes(s.take(4)), s.skip(4)))
    } else {
        None
    }
}

pub open spec fn sp_u64(s: Seq<u8>) -> Option<(u64, Seq<u8>)> {
    if s.len() >= 8 {
        Some((spec_u64_from_le_bytes(s.take(8)), s.skip(8)))
    } else {
        None
    }
}

#[verifier::opaque]
pub open spec fn sp_pubkey(s: Seq<u8>) -> Option<(Pubkey, Seq<u8>)> {
    if s.len() >= 32 {
        Some((Pubkey::spec_from_bytes_at(s, 0), s.skip(32)))
    } else {
        None
    }
}

#[verifier::opaque]
pub open spec fn sp_bool(s: Seq<u8>) -> Option<(bool, Seq<u8>)> {
    match sp_u8(s) {
        Some((b, r)) => if b == 0 {
            Some((false, r))
        } else if b == 1 {
            Some((true, r))
        } else {
            None
        },
        None => None,
    }
}

/// A string: its length as four bytes, then that many bytes of UTF-8.
#[verifier::opaque]
pub open spec fn sp_string(s: Seq<u8>) -> Option<(Seq<u8>, Seq<u8>)> {
    match sp_u32(s) {
        Some((n, r)) => if r.len() >= n && valid_utf8(r.take(n as int)) {
            Some((r.take(n as int), r.skip(n as int)))
        } else {
            None
        },
        None => None,
    }
}

#[verifier::opaque]
pub open spec fn sp_creator(s: Seq<u8>) -> Option<(Creator, Seq<u8>)> {
    match sp_pubkey(s) {
        Some((a, r1)) => match sp_bool(r1) {
            Some((v, r2)) => match sp_u8(r2) {
                Some((sh, r3)) => Some((Creator { address: a, verified: v, share: sh }, r3)),
                None => None,
            },
            None => None,
        },
        None => None,
    }
}

/// `n` creators one after the other.
pub open spec fn sp_creators(s: Seq<u8>, n: nat) -> Option<(Seq<Creator>, Seq<u8>)>
    decreases n,
{
    if n == 0 {
        Some((Seq::empty(), s))
    } else {
        match sp_creator(s) {
            Some((c, r)) => match sp_creators(r, (n - 1) as nat) {
                Some((cs, r2)) => Some((seq![c] + cs, r2)),
                None => None,
            },
            None => None,
        }
    }
}

/// An optional list of creators: a tag byte, then the count as four bytes and the creators.
#[verifier::opaque]
pub open spec fn sp_opt_creators(s: Seq<u8>) -> Option<(Option<Seq<Creator>>, Seq<u8>)> {
    match sp_u8(s) {
        Some((t, r)) => if t == 0 {
            Some((None, r))
        } else if t == 1 {
            match sp_u32(r) {
                Some((n, r2)) => match sp_creators(r2, n as nat) {
                    Some((cs, r3)) => Some((Some(cs), r3)),
                    None => None,
                },
                None => None,
            }
        } else {
            None
        },
        None => None,
    }
}

#[verifier::opaque]
pub open spec fn sp_data(s: Seq<u8>) -> Option<(DataView, Seq<u8>)> {
    match sp_string(s) {
        Some((name, r1)) => match sp_string(r1) {
            Some((symbol, r2)) => match sp_string(r2) {
                Some((uri, r3)) => match sp_u16(r3) {
                    Some((fee, r4)) => match sp_opt_creators(r4) {
                        Some((creators, r5)) => Some(
                            (
                                DataView {
                                    name,
                                    symbol,
                                    uri,
                                    seller_fee_basis_points: fee,
                                    creators,
                                },
                                r5,
                            ),
                        ),
                        None => None,
                    },
                    None => None,
                },
                None => None,
            },
            None => None,
        },
        None => None,
    }
}

#[verifier::opaque]
pub open spec fn sp_opt_u8(s: Seq<u8>) -> Option<(Option<u8>, Seq<u8>)> {
    match sp_u8(s) {
        Some((t, r)) => if t == 0 {
            Some((None, r))
        } else if t == 1 {
            match sp_u8(r) {
                Some((x, r2)) => Some((Some(x), r2)),
                None => None,
            }
        } else {
            None
        },
        None => None,
    }
}

#[verifier::opaque]
pub open spec fn sp_opt_u64(s: Seq<u8>) -> Option<(Option<u64>, Seq<u8>)> {
    match sp_u8(s) {
        Some((t, r)) => if t == 0 {
            Some((None, r))
        } else if t == 1 {
            match sp_u64(r) {
                Some((x, r2)) => Some((Some(x), r2)),
                None => None,
            }
        } else {
            None
        },
        None => None,
    }
}

// ---------------------------------------------------------------- writers (spec)

pub open spec fn en_bool(b: bool) -> Seq<u8> {
    if b {
        seq![1u8]
    } else {
        seq![0u8]
    }
}

#[verifier::opaque]
pub open spec fn en_string(v: Seq<u8>) -> Seq<u8> {
    spec_u32_to_le_bytes(v.len() as u32) + v
}

#[verifier::opaque]
pub open spec fn en_creator(c: Creator) -> Seq<u8> {
    c.address.bytes() + en_bool(c.verified) + seq![c.share]
}

pub open spec fn en_creators(cs: Seq<Creator>) -> Seq<u8>
    decreases cs.len(),
{
    if cs.len() == 0 {
        Seq::empty()
    } else {
        en_creator(cs[0]) + en_creators(cs.drop_first())
    }
}

#[verifier::opaque]
pub open spec fn en_opt_creators(o: Option<Seq<Creator>>) -> Seq<u8> {
    match o {
        None => seq![0u8],
        Some(cs) => seq![1u8] + spec_u32_to_le_bytes(cs.len() as u32) + en_creators(cs),
    }
}

#[verifier::opaque]
pub open spec fn en_data(d: DataView) -> Seq<u8> {
    en_string(d.name) + en_string(d.symbol) + en_string(d.uri) + spec_u16_to_le_bytes(
        d.seller_fee_basis_points,
    ) + en_opt_creators(d.creators)
}

pub open spec fn en_opt_u8(o: Option<u8>) -> Seq<u8> {
    match o {
        None => seq![0u8],
        Some(x) => seq![1u8, x],
    }
}

pub open spec fn en_opt_u64(o: Option<u64>) -> Seq<u8> {
    match o {
        None => seq![0u8],
        Some(x) => seq![1u8] + spec_u64_to_le_bytes(x),
    }
}

/// The descriptive fields can be written: each string fits the four-byte length, and the
/// creator count fits four bytes.
pub open spec fn data_encodable(d: DataView) -> bool {
    &&& d.name.len() <= u32::MAX
    &&& d.symbol.len() <= u32::MAX
    &&& d.uri.len() <= u32::MAX
    &&& d.creators matches Some(cs) ==> cs.len() <= u32::MAX
}

/// The strings of the descriptive fields are UTF-8, as reading them requires.
pub open spec fn data_is_utf8(d: DataView) -> bool {
    &&& valid_utf8(d.name)
    &&& valid_utf8(d.symbol)
    &&& valid_utf8(d.uri)
}

// ---------------------------------------------------------------- lemmas

/// Reading a prefix: the rest after `a` in `a + t` is `t`.
pub proof fn lemma_skip_prefix(a: Seq<u8>, t: Seq<u8>)
    ensures
        (a + t).skip(a.len() as int) == t,
        (a + t).take(a.len() as int) == a,
{
    assert((a + t).skip(a.len() as int) =~= t);
    assert((a + t).take(a.len() as int) =~= a);
}

pub proof fn lemma_sp_u16(x: u16, t: Seq<u8>)
    ensures
        sp_u16(spec_u16_to_le_bytes(x) + t) == Some((x, t)),
{
    lemma_auto_spec_u16_to_from_le_bytes();
    lemma_skip_prefix(spec_u16_to_le_bytes(x), t);
}

pub proof fn lemma_sp_u32(x: u32, t: Seq<u8>)
    ensures
        sp_u32(spec_u32_to_le_bytes(x) + t) == Some((x, t)),
{
    lemma_auto_spec_u32_to_from_le_bytes();
    lemma_skip_prefix(spec_u32_to_le_bytes(x), t);
}

pub proof fn lemma_sp_u64(x: u64, t: Seq<u8>)
    ensures
        sp_u64(spec_u64_to_le_bytes(x) + t) == Some((x, t)),
{
    lemma_auto_spec_u64_to_from_le_bytes();
    lemma_skip_prefix(spec_u64_to_le_bytes(x), t);
}

pub proof fn lemma_pubkey_bytes_len(k: Pubkey)
    ensures
        k.bytes().len() == 32,
{
    lemma_auto_spec_u64_to_from_le_bytes();
}

pub proof fn lemma_sp_pubkey(k: Pubkey, t: Seq<u8>)
    ensures
        sp_pubkey(k.bytes() + t) == Some((k, t)),
{
    reveal(sp_pubkey);
    lemma_auto_spec_u64_to_from_le_bytes();
    let s = k.bytes() + t;
    lemma_skip_prefix(k.bytes(), t);
    assert(s.subrange(0, 8) =~= spec_u64_to_le_bytes(k.w0));
    assert(s.subrange(8, 16) =~= spec_u64_to_le_bytes(k.w1));
    assert(s.subrange(16, 24) =~= spec_u64_to_le_bytes(k.w2));
    assert(s.subrange(24, 32) =~= spec_u64_to_le_bytes(k.w3));
}

pub proof fn lemma_sp_bool(b: bool, t: Seq<u8>)
    ensures
        sp_bool(en_bool(b) + t) == Some((b, t)),
{
    reveal(sp_bool);
    lemma_skip_prefix(en_bool(b), t);
}

pub proof fn lemma_sp_u8(x: u8, t: Seq<u8>)
    ensures
        sp_u8(seq![x] + t) == Some((x, t)),
{
    lemma_skip_prefix(seq![x], t);
}

pub proof fn lemma_sp_string(v: Seq<u8>, t: Seq<u8>)
    requires
        v.len() <= u32::MAX,
        valid_utf8(v),
    ensures
        sp_string(en_string(v) + t) == Some((v, t)),
{
    reveal(sp_string);
    reveal(en_string);
    let lb = spec_u32_to_le_bytes(v.len() as u32);
    assert(en_string(v) + t =~= lb + (v + t));
    lemma_sp_u32(v.len() as u32, v + t);
    lemma_skip_prefix(v, t);
}

pub proof fn lemma_sp_creator(c: Creator, t: Seq<u8>)
    ensures
        sp_creator(en_creator(c) + t) == Some((c, t)),
{
    reveal(sp_creator);
    reveal(en_creator);
    assert(en_creator(c) + t =~= c.address.bytes() + (en_bool(c.verified) + (seq![c.share] + t)));
    lemma_sp_pubkey(c.address, en_bool(c.verified) + (seq![c.share] + t));
    lemma_sp_bool(c.verified, seq![c.share] + t);
    lemma_sp_u8(c.share, t);
}

pub proof fn lemma_sp_creators(cs: Seq<Creator>, t: Seq<u8>)
    ensures
        sp_creators(en_creators(cs) + t, cs.len()) == Some((cs, t)),
    decreases cs.len(),
{
    if cs.len() > 0 {
        let rest = cs.drop_first();
        assert(en_creators(cs) + t =~= en_creator(cs[0]) + (en_creators(rest) + t));
        lemma_sp_creator(cs[0], en_creators(rest) + t);
        lemma_sp_creators(rest, t);
        assert(seq![cs[0]] + rest =~= cs);
    } else {
        assert(en_creators(cs) + t =~= t);
        assert(cs =~= Seq::<Creator>::empty());
    }
}

pub proof fn lemma_sp_opt_creators(o: Option<Seq<Creator>>, t: Seq<u8>)
    requires
        o matches Some(cs) ==> cs.len() <= u32::MAX,
    ensures
        sp_opt_creators(en_opt_creators(o) + t) == Some((o, t)),
{
    reveal(sp_opt_creators);
    reveal(en_opt_creators);
    match o {
        None => {
            lemma_sp_u8(0, t);
        },
        Some(cs) => {
            let lb = spec_u32_to_le_bytes(cs.len() as u32);
            assert(en_opt_creators(o) + t =~= seq![1u8] + (lb + (en_creators(cs) + t)));
            lemma_sp_u8(1, lb + (en_creators(cs) + t));
            lemma_sp_u32(cs.len() as u32, en_creators(cs) + t);
            lemma_sp_creators(cs, t);
        },
    }
}

pub proof fn lemma_sp_data(d: DataView, t: Seq<u8>)
    requires
        data_encodable(d),
        data_is_utf8(d),
    ensures
        sp_data(en_data(d) + t) == Some((d, t)),
{
    reveal(sp_data);
    reveal(en_data);
    let fee = spec_u16_to_le_bytes(d.seller_fee_basis_points);
    let c = en_opt_creators(d.creators);
    assert(en_data(d) + t =~= en_string(d.name) + (en_string(d.symbol) + (en_string(d.uri) + (fee
        + (c + t)))));
    lemma_sp_string(d.name, en_string(d.symbol) + (en_string(d.uri) + (fee + (c + t))));
    lemma_sp_string(d.symbol, en_string(d.uri) + (fee + (c + t)));
    lemma_sp_string(d.uri, fee + (c + t));
    lemma_sp_u16(d.seller_fee_basis_points, c + t);
    lemma_sp_opt_creators(d.creators, t);
}

pub proof fn lemma_sp_opt_u8(o: Option<u8>, t: Seq<u8>)
    ensures
        sp_opt_u8(en_opt_u8(o) + t) == Some((o, t)),
{
    reveal(sp_opt_u8);
    match o {
        None => lemma_sp_u8(0, t),
        Some(x) => {
            assert(en_opt_u8(o) + t =~= seq![1u8] + (seq![x] + t));
            lemma_sp_u8(1, seq![x] + t);
            lemma_sp_u8(x, t);
        },
    }
}

pub proof fn lemma_sp_opt_u64(o: Option<u64>, t: Seq<u8>)
    ensures
        sp_opt_u64(en_opt_u64(o) + t) == Some((o, t)),
{
    reveal(sp_opt_u64);
    match o {
        None => lemma_sp_u8(0, t),
        Some(x) => {
            assert(en_opt_u64(o) + t =~= seq![1u8] + (spec_u64_to_le_bytes(x) + t));
            lemma_sp_u8(1, spec_u64_to_le_bytes(x) + t);
            lemma_sp_u64(x, t);
        },
    }
}


// ---------------------------------------------------------------- the metadata record

pub open spec fn token_standard_byte(t: TokenStandard) -> u8 {
    match t {
        TokenStandard::NonFungible => 0,
        TokenStandard::FungibleAsset => 1,
        TokenStandard::Fungible => 2,
        TokenStandard::NonFungibleEdition => 3,
    }
}

pub open spec fn token_standard_of_byte(b: u8) -> Option<TokenStandard> {
    if b == 0 {
        Some(TokenStandard::NonFungible)
    } else if b == 1 {
        Some(TokenStandard::FungibleAsset)
    } else if b == 2 {
        Some(TokenStandard::Fungible)
    } else if b == 3 {
        Some(TokenStandard::NonFungibleEdition)
    } else {
        None
    }
}

pub open spec fn use_method_byte(m: UseMethod) -> u8 {
    match m {
        UseMethod::Burn => 0,
        UseMethod::Multiple => 1,
        UseMethod::Single => 2,
    }
}

pub open spec fn use_method_of_byte(b: u8) -> Option<UseMethod> {
    if b == 0 {
        Some(UseMethod::Burn)
    } else if b == 1 {
        Some(UseMethod::Multiple)
    } else if b == 2 {
        Some(UseMethod::Single)
    } else {
        None
    }
}

/// The trailing optional fields are read even where an earlier read failed, from wherever that
/// read stopped; each of these readers gives its result (`None` on failure) and the rest.
#[verifier::opaque]
pub open spec fn tp_token_standard(s: Seq<u8>) -> (Option<Option<TokenStandard>>, Seq<u8>) {
    if s.len() == 0 {
        (None, s)
    } else if s[0] == 0 {
        (Some(None), s.skip(1))
    } else if s[0] == 1 {
        let r = s.skip(1);
        if r.len() == 0 {
            (None, r)
        } else {
            match token_standard_of_byte(r[0]) {
                Some(t) => (Some(Some(t)), r.skip(1)),
                None => (None, r.skip(1)),
            }
        }
    } else {
        (None, s.skip(1))
    }
}

#[verifier::opaque]
pub open spec fn tp_collection(s: Seq<u8>) -> (Option<Option<Collection>>, Seq<u8>) {
    if s.len() == 0 {
        (None, s)
    } else if s[0] == 0 {
        (Some(None), s.skip(1))
    } else if s[0] == 1 {
        let r = s.skip(1);
        if r.len() == 0 {
            (None, r)
        } else if r[0] > 1 {
            (None, r.skip(1))
        } else {
            let r2 = r.skip(1);
            if r2.len() < 32 {
                (None, r2)
            } else {
                (
                    Some(Some(Collection { verified: r[0] == 1, key: Pubkey::spec_from_bytes_at(r2, 0) })),
                    r2.skip(32),
                )
            }
        }
    } else {
        (None, s.skip(1))
    }
}

#[verifier::opaque]
pub open spec fn tp_uses(s: Seq<u8>) -> (Option<Option<Uses>>, Seq<u8>) {
    if s.len() == 0 {
        (None, s)
    } else if s[0] == 0 {
        (Some(None), s.skip(1))
    } else if s[0] == 1 {
        let r = s.skip(1);
        if r.len() == 0 {
            (None, r)
        } else {
            match use_method_of_byte(r[0]) {
                None => (None, r.skip(1)),
                Some(m) => {
                    let r2 = r.skip(1);
                    if r2.len() < 8 {
                        (None, r2)
                    } else {
                        let r3 = r2.skip(8);
                        if r3.len() < 8 {
                            (None, r3)
                        } else {
                            (
                                Some(
                                    Some(
                                        Uses {
                                            use_method: m,
                                            remaining: spec_u64_from_le_bytes(r2.take(8)),
                                            total: spec_u64_from_le_bytes(r3.take(8)),
                                        },
                                    ),
                                ),
                                r3.skip(8),
                            )
                        }
                    }
                },
            }
        }
    } else {
        (None, s.skip(1))
    }
}

#[verifier::opaque]
pub open spec fn tp_collection_details(s: Seq<u8>) -> (Option<Option<CollectionDetails>>, Seq<u8>) {
    if s.len() == 0 {
        (None, s)
    } else if s[0] == 0 {
        (Some(None), s.skip(1))
    } else if s[0] == 1 {
        let r = s.skip(1);
        if r.len() == 0 {
            (None, r)
        } else if r[0] != 0 {
            (None, r.skip(1))
        } else {
            let r2 = r.skip(1);
            if r2.len() < 8 {
                (None, r2)
            } else {
                (
                    Some(Some(CollectionDetails::V1 { size: spec_u64_from_le_bytes(r2.take(8)) })),
                    r2.skip(8),
                )
            }
        }
    } else {
        (None, s.skip(1))
    }
}

/// The fields before the trailing optional ones: key, authorities, data, flags and nonce.
#[verifier::opaque]
pub open spec fn sp_metadata_head(s: Seq<u8>) -> Option<(MetadataView, Seq<u8>)> {
    match sp_u8(s) {
        Some((kb, r0)) => match key_of_byte(kb) {
            Some(key) => match sp_pubkey(r0) {
                Some((update_authority, r1)) => match sp_pubkey(r1) {
                    Some((mint, r2)) => match sp_data(r2) {
                        Some((data, r3)) => match sp_bool(r3) {
                            Some((primary_sale_happened, r4)) => match sp_bool(r4) {
                                Some((is_mutable, r5)) => match sp_opt_u8(r5) {
                                    Some((edition_nonce, r6)) => Some(
                                        (
                                            MetadataView {
                                                key,
                                                update_authority,
                                                mint,
                                                data,
                                                primary_sale_happened,
                                                is_mutable,
                                                edition_nonce,
                                                token_standard: None,
                                                collection: None,
                                                uses: None,
                                                collection_details: None,
                                            },
                                            r6,
                                        ),
                                    ),
                                    None => None,
                                },
                                None => None,
                            },
                            None => None,
                        },
                        None => None,
                    },
                    None => None,
                },
                None => None,
            },
            None => None,
        },
        None => None,
    }
}

/// The metadata record at the start of `s`. Token standard, collection and uses are kept only
/// when all three read; the collection details are kept when they read.
pub open spec fn sp_metadata(s: Seq<u8>) -> Option<MetadataView> {
    match sp_metadata_head(s) {
        Some((head, r)) => {
            let (ts, r1) = tp_token_standard(r);
            let (col, r2) = tp_collection(r1);
            let (us, r3) = tp_uses(r2);
            let (det, _r4) = tp_collection_details(r3);
            let all = ts is Some && col is Some && us is Some;
            Some(
                MetadataView {
                    token_standard: if all {
                        ts.unwrap()
                    } else {
                        None
                    },
                    collection: if all {
                        col.unwrap()
                    } else {
                        None
                    },
                    uses: if all {
                        us.unwrap()
                    } else {
                        None
                    },
                    collection_details: match det {
                        Some(d) => d,
                        None => None,
                    },
                    ..head
                },
            )
        },
        None => None,
    }
}

/// An account holds a record of type `key` when its first byte is that key (or the
/// uninitialized key) and its size is `size` (any size when `size` is 0).
pub open spec fn account_type_is(data: Seq<u8>, key: Key, size: nat) -> bool {
    &&& data.len() > 0
    &&& key_of_byte(data[0]) matches Some(k) && (k == key || k == Key::Uninitialized)
    &&& (data.len() == size || size == 0)
}

/// The metadata record an account holds, if it holds one.
pub open spec fn metadata_of_data(data: Seq<u8>) -> Option<MetadataView> {
    if account_type_is(data, Key::MetadataV1, 0) {
        sp_metadata(data)
    } else {
        None
    }
}

#[verifier::opaque]
pub open spec fn en_opt_token_standard(o: Option<TokenStandard>) -> Seq<u8> {
    match o {
        None => seq![0u8],
        Some(t) => seq![1u8, token_standard_byte(t)],
    }
}

#[verifier::opaque]
pub open spec fn en_opt_collection(o: Option<Collection>) -> Seq<u8> {
    match o {
        None => seq![0u8],
        Some(c) => seq![1u8] + en_bool(c.verified) + c.key.bytes(),
    }
}

#[verifier::opaque]
pub open spec fn en_opt_uses(o: Option<Uses>) -> Seq<u8> {
    match o {
        None => seq![0u8],
        Some(u) => seq![1u8, use_method_byte(u.use_method)] + spec_u64_to_le_bytes(u.remaining)
            + spec_u64_to_le_bytes(u.total),
    }
}

#[verifier::opaque]
pub open spec fn en_opt_collection_details(o: Option<CollectionDetails>) -> Seq<u8> {
    match o {
        None => seq![0u8],
        Some(CollectionDetails::V1 { size }) => seq![1u8, 0u8] + spec_u64_to_le_bytes(size),
    }
}

/// The bytes of a metadata record.
pub open spec fn en_metadata(m: MetadataView) -> Seq<u8> {
    en_metadata_head(m) + en_opt_token_standard(m.token_standard) + en_opt_collection(m.collection)
        + en_opt_uses(m.uses) + en_opt_collection_details(m.collection_details)
}

pub proof fn lemma_key_byte(k: Key)
    ensures
        key_of_byte(key_byte(k)) == Some(k),
{
}

#[verifier::rlimit(40)]
pub proof fn lemma_tp_token_standard(o: Option<TokenStandard>, t: Seq<u8>)
    ensures
        tp_token_standard(en_opt_token_standard(o) + t) == (Some(o), t),
{
    reveal(tp_token_standard);
    reveal(en_opt_token_standard);
    match o {
        None => {
            let s = seq![0u8] + t;
            assert(s[0] == 0);
            assert(s.skip(1) =~= t);
        },
        Some(x) => {
            let b = token_standard_byte(x);
            let s = seq![1u8, b] + t;
            assert(s[0] == 1);
            let r = s.skip(1);
            assert(r =~= seq![b] + t);
            assert(r[0] == b);
            assert(r.skip(1) =~= t);
            assert(token_standard_of_byte(b) == Some(x));
        },
    }
}

#[verifier::rlimit(40)]
pub proof fn lemma_tp_collection(o: Option<Collection>, t: Seq<u8>)
    ensures
        tp_collection(en_opt_collection(o) + t) == (Some(o), t),
{
    reveal(tp_collection);
    reveal(en_opt_collection);
    reveal(sp_pubkey);
    lemma_skip_prefix(en_opt_collection(o), t);
    if let Some(c) = o {
        let s = en_opt_collection(o) + t;
        lemma_pubkey_bytes_len(c.key);
        assert(s.skip(1) =~= en_bool(c.verified) + (c.key.bytes() + t));
        assert(s.skip(1).skip(1) =~= c.key.bytes() + t);
        lemma_sp_pubkey(c.key, t);
    }
}

#[verifier::rlimit(40)]
pub proof fn lemma_tp_uses(o: Option<Uses>, t: Seq<u8>)
    ensures
        tp_uses(en_opt_uses(o) + t) == (Some(o), t),
{
    reveal(tp_uses);
    reveal(en_opt_uses);
    lemma_skip_prefix(en_opt_uses(o), t);
    if let Some(u) = o {
        let s = en_opt_uses(o) + t;
        let a = spec_u64_to_le_bytes(u.remaining);
        let b = spec_u64_to_le_bytes(u.total);
        lemma_sp_u64(u.remaining, b + t);
        lemma_sp_u64(u.total, t);
        assert(s.skip(1).skip(1) =~= a + (b + t));
    }
}

#[verifier::rlimit(40)]
pub proof fn lemma_tp_collection_details(o: Option<CollectionDetails>, t: Seq<u8>)
    ensures
        tp_collection_details(en_opt_collection_details(o) + t) == (Some(o), t),
{
    reveal(tp_collection_details);
    reveal(en_opt_collection_details);
    lemma_skip_prefix(en_opt_collection_details(o), t);
    if let Some(CollectionDetails::V1 { size }) = o {
        let s = en_opt_collection_details(o) + t;
        lemma_sp_u64(size, t);
        assert(s.skip(1).skip(1) =~= spec_u64_to_le_bytes(size) + t);
    }
}

/// The bytes of the fields before the trailing optional ones.
#[verifier::opaque]
pub open spec fn en_metadata_head(m: MetadataView) -> Seq<u8> {
    seq![key_byte(m.key)] + m.update_authority.bytes() + m.mint.bytes() + en_data(m.data) + en_bool(
        m.primary_sale_happened,
    ) + en_bool(m.is_mutable) + en_opt_u8(m.edition_nonce)
}

#[verifier::rlimit(60)]
pub proof fn lemma_metadata_head_roundtrip(m: MetadataView, t: Seq<u8>)
    requires
        data_encodable(m.data),
        data_is_utf8(m.data),
    ensures
        sp_metadata_head(en_metadata_head(m) + t) == Some(
            (
                MetadataView {
                    token_standard: None,
                    collection: None,
                    uses: None,
                    collection_details: None,
                    ..m
                },
                t,
            ),
        ),
{
    reveal(sp_metadata_head);
    reveal(en_metadata_head);
    let a0 = seq![key_byte(m.key)];
    let a1 = m.update_authority.bytes();
    let a2 = m.mint.bytes();
    let a3 = en_data(m.data);
    let a4 = en_bool(m.primary_sale_happened);
    let a5 = en_bool(m.is_mutable);
    let a6 = en_opt_u8(m.edition_nonce);
    let t5 = a6 + t;
    let t4 = a5 + t5;
    let t3 = a4 + t4;
    let t2 = a3 + t3;
    let t1 = a2 + t2;
    let t0 = a1 + t1;
    assert(en_metadata_head(m) + t =~= a0 + t0);
    lemma_sp_u8(key_byte(m.key), t0);
    lemma_key_byte(m.key);
    lemma_sp_pubkey(m.update_authority, t1);
    lemma_sp_pubkey(m.mint, t2);
    lemma_sp_data(m.data, t3);
    lemma_sp_bool(m.primary_sale_happened, t4);
    lemma_sp_bool(m.is_mutable, t5);
    lemma_sp_opt_u8(m.edition_nonce, t);
}

/// A metadata record written out reads back as itself, whatever follows it in the account.
#[verifier::rlimit(40)]
pub proof fn lemma_metadata_roundtrip(m: MetadataView, t: Seq<u8>)
    requires
        data_encodable(m.data),
        data_is_utf8(m.data),
    ensures
        sp_metadata(en_metadata(m) + t) == Some(m),
{
    let a7 = en_opt_token_standard(m.token_standard);
    let a8 = en_opt_collection(m.collection);
    let a9 = en_opt_uses(m.uses);
    let a10 = en_opt_collection_details(m.collection_details);
    let t9 = a10 + t;
    let t8 = a9 + t9;
    let t7 = a8 + t8;
    let t6 = a7 + t7;
    assert(en_metadata(m) + t =~= en_metadata_head(m) + t6);
    lemma_metadata_head_roundtrip(m, t6);
    lemma_tp_token_standard(m.token_standard, t7);
    lemma_tp_collection(m.collection, t8);
    lemma_tp_uses(m.uses, t9);
    lemma_tp_collection_details(m.collection_details, t);
    assert(sp_metadata(en_metadata(m) + t) =~= Some(m));
}

/// An account whose data starts with a written metadata record holds that record.
pub proof fn lemma_metadata_of_written_data(m: MetadataView, t: Seq<u8>)
    requires
        data_encodable(m.data),
        data_is_utf8(m.data),
        m.key == Key::MetadataV1 || m.key == Key::Uninitialized,
    ensures
        metadata_of_data(en_metadata(m) + t) == Some(m),
{
    lemma_metadata_roundtrip(m, t);
    reveal(en_metadata_head);
    let s = en_metadata(m) + t;
    assert(s[0] == key_byte(m.key));
    lemma_key_byte(m.key);
}

} // verus!
