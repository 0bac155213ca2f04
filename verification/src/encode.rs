//! Writing records out as account data.

use crate::codec::{data_encodable, en_bool, en_creator, en_creators, en_data, en_metadata, en_metadata_head, en_opt_collection, en_opt_collection_details, en_opt_creators, en_opt_token_standard, en_opt_u64, en_opt_u8, en_opt_uses, en_string};
use crate::account::{effect_result_view, write_account, write_effect, AccountInfo, AccountView, Effect, EffectView};
use crate::error::ProgramError;

use crate::state::{MetadataView, Collection, CollectionDetails, Creator, Data, Metadata, TokenStandard, UseMethod, Uses};
use vstd::bytes::*;
use vstd::prelude::*;


verus! {

pub fn wr_u8(x: u8, out: &mut Vec<u8>)
    ensures
        final(out)@ == old(out)@ + seq![x],
{
    out.push(x);
    assert(final(out)@ =~= old(out)@ + seq![x]);
}

pub fn wr_u16(x: u16, out: &mut Vec<u8>)
    ensures
        final(out)@ == old(out)@ + spec_u16_to_le_bytes(x),
{
    let mut b = u16_to_le_bytes(x);
    out.append(&mut b);
}

pub fn wr_u32(x: u32, out: &mut Vec<u8>)
    ensures
        final(out)@ == old(out)@ + spec_u32_to_le_bytes(x),
{
    let mut b = u32_to_le_bytes(x);
    out.append(&mut b);
}

pub fn wr_u64(x: u64, out: &mut Vec<u8>)
    ensures
        final(out)@ == old(out)@ + spec_u64_to_le_bytes(x),
{
    let mut b = u64_to_le_bytes(x);
    out.append(&mut b);
}

pub fn wr_bool(b: bool, out: &mut Vec<u8>)
    ensures
        final(out)@ == old(out)@ + en_bool(b),
{
    if b {
        wr_u8(1, out);
    } else {
        wr_u8(0, out);
    }
}

pub fn wr_string(v: &Vec<u8>, out: &mut Vec<u8>)
    requires
        v@.len() <= u32::MAX,
    ensures
        final(out)@ == old(out)@ + en_string(v@),
{
    reveal(en_string);
    wr_u32(v.len() as u32, out);
    let ghost mid = out@;
    out.extend_from_slice(v.as_slice());
    assert(out@ =~= mid + v@);
    assert(final(out)@ =~= old(out)@ + en_string(v@));
}

pub fn wr_creator(c: &Creator, out: &mut Vec<u8>)
    ensures
        final(out)@ == old(out)@ + en_creator(*c),
{
    reveal(en_creator);
    c.address.write_to(out);
    wr_bool(c.verified, out);
    wr_u8(c.share, out);
    assert(final(out)@ =~= old(out)@ + en_creator(*c));
}

/// Writing a list of creators one after another appends the writing of the last one.
proof fn lemma_en_creators_push(cs: Seq<Creator>, c: Creator)
    ensures
        en_creators(cs.push(c)) == en_creators(cs) + en_creator(c),
    decreases cs.len(),
{
    if cs.len() == 0 {
        assert(cs.push(c).drop_first() =~= Seq::<Creator>::empty());
        assert(en_creators(Seq::<Creator>::empty()) == Seq::<u8>::empty());
        assert(cs.push(c)[0] == c);
        assert(en_creators(cs.push(c)) == en_creator(c) + en_creators(Seq::<Creator>::empty()));
        assert(en_creators(cs.push(c)) =~= en_creator(c));
        assert(en_creators(cs) + en_creator(c) =~= en_creator(c));
    } else {
        lemma_en_creators_push(cs.drop_first(), c);
        assert(cs.push(c).drop_first() =~= cs.drop_first().push(c));
        assert(cs.push(c)[0] == cs[0]);
        assert(en_creators(cs.push(c)) == en_creator(cs[0]) + en_creators(cs.drop_first().push(c)));
        assert(en_creators(cs) == en_creator(cs[0]) + en_creators(cs.drop_first()));
        assert(en_creators(cs.push(c)) =~= en_creators(cs) + en_creator(c));
    }
}

pub fn wr_opt_creators(o: &Option<Vec<Creator>>, out: &mut Vec<u8>)
    requires
        o matches Some(v) ==> v@.len() <= u32::MAX,
    ensures
        final(out)@ == old(out)@ + en_opt_creators(crate::state::creators_view(*o)),
{
    reveal(en_opt_creators);
    match o {
        None => wr_u8(0, out),
        Some(v) => {
            wr_u8(1, out);
            wr_u32(v.len() as u32, out);
            let ghost start = out@;
            let mut i: usize = 0;
            while i < v.len()
                invariant
                    0 <= i <= v@.len(),
                    out@ == start + en_creators(v@.take(i as int)),
                decreases v@.len() - i,
            {
                let ghost before = out@;
                wr_creator(&v[i], out);
                proof {
                    lemma_en_creators_push(v@.take(i as int), v@[i as int]);
                    assert(v@.take(i as int).push(v@[i as int]) =~= v@.take(i + 1));
                }
                i = i + 1;
            }
            assert(v@.take(v@.len() as int) =~= v@);
            assert(final(out)@ =~= old(out)@ + en_opt_creators(crate::state::creators_view(*o)));
        },
    }
}

pub fn wr_data(d: &Data, out: &mut Vec<u8>)
    requires
        data_encodable(d@),
    ensures
        final(out)@ == old(out)@ + en_data(d@),
{
    reveal(en_data);
    wr_string(&d.name, out);
    wr_string(&d.symbol, out);
    wr_string(&d.uri, out);
    wr_u16(d.seller_fee_basis_points, out);
    wr_opt_creators(&d.creators, out);
    assert(final(out)@ =~= old(out)@ + en_data(d@));
}

pub fn wr_opt_u8(o: Option<u8>, out: &mut Vec<u8>)
    ensures
        final(out)@ == old(out)@ + en_opt_u8(o),
{
    match o {
        None => wr_u8(0, out),
        Some(x) => {
            wr_u8(1, out);
            wr_u8(x, out);
            assert(final(out)@ =~= old(out)@ + en_opt_u8(o));
        },
    }
}

pub fn wr_opt_u64(o: Option<u64>, out: &mut Vec<u8>)
    ensures
        final(out)@ == old(out)@ + en_opt_u64(o),
{
    match o {
        None => wr_u8(0, out),
        Some(x) => {
            wr_u8(1, out);
            wr_u64(x, out);
            assert(final(out)@ =~= old(out)@ + en_opt_u64(o));
        },
    }
}

pub fn wr_opt_token_standard(o: Option<TokenStandard>, out: &mut Vec<u8>)
    ensures
        final(out)@ == old(out)@ + en_opt_token_standard(o),
{
    reveal(en_opt_token_standard);
    match o {
        None => wr_u8(0, out),
        Some(t) => {
            wr_u8(1, out);
            let b: u8 = match t {
                TokenStandard::NonFungible => 0,
                TokenStandard::FungibleAsset => 1,
                TokenStandard::Fungible => 2,
                TokenStandard::NonFungibleEdition => 3,
            };
            wr_u8(b, out);
            assert(final(out)@ =~= old(out)@ + en_opt_token_standard(o));
        },
    }
}

pub fn wr_opt_collection(o: Option<Collection>, out: &mut Vec<u8>)
    ensures
        final(out)@ == old(out)@ + en_opt_collection(o),
{
    reveal(en_opt_collection);
    match o {
        None => wr_u8(0, out),
        Some(c) => {
            wr_u8(1, out);
            wr_bool(c.verified, out);
            c.key.write_to(out);
            assert(final(out)@ =~= old(out)@ + en_opt_collection(o));
        },
    }
}

pub fn wr_opt_uses(o: Option<Uses>, out: &mut Vec<u8>)
    ensures
        final(out)@ == old(out)@ + en_opt_uses(o),
{
    reveal(en_opt_uses);
    match o {
        None => wr_u8(0, out),
        Some(u) => {
            wr_u8(1, out);
            let b: u8 = match u.use_method {
                UseMethod::Burn => 0,
                UseMethod::Multiple => 1,
                UseMethod::Single => 2,
            };
            wr_u8(b, out);
            wr_u64(u.remaining, out);
            wr_u64(u.total, out);
            assert(final(out)@ =~= old(out)@ + en_opt_uses(o));
        },
    }
}

pub fn wr_opt_collection_details(o: Option<CollectionDetails>, out: &mut Vec<u8>)
    ensures
        final(out)@ == old(out)@ + en_opt_collection_details(o),
{
    reveal(en_opt_collection_details);
    match o {
        None => wr_u8(0, out),
        Some(CollectionDetails::V1 { size }) => {
            wr_u8(1, out);
            wr_u8(0, out);
            wr_u64(size, out);
            assert(final(out)@ =~= old(out)@ + en_opt_collection_details(o));
        },
    }
}

/// The bytes of a metadata record.
pub fn encode_metadata(m: &Metadata) -> (out: Vec<u8>)
    requires
        data_encodable(m@.data),
    ensures
        out@ == en_metadata(m@),
{
    reveal(en_metadata_head);
    let mut out: Vec<u8> = Vec::new();
    wr_u8(m.key.to_byte(), &mut out);
    m.update_authority.write_to(&mut out);
    m.mint.write_to(&mut out);
    wr_data(&m.data, &mut out);
    wr_bool(m.primary_sale_happened, &mut out);
    wr_bool(m.is_mutable, &mut out);
    wr_opt_u8(m.edition_nonce, &mut out);
    let ghost head = out@;
    assert(head =~= en_metadata_head(m@));
    wr_opt_token_standard(m.token_standard, &mut out);
    wr_opt_collection(m.collection, &mut out);
    wr_opt_uses(m.uses, &mut out);
    wr_opt_collection_details(m.collection_details, &mut out);
    assert(out@ =~= en_metadata(m@));
    out
}

/// Writing a metadata record at the start of account `i`.
pub open spec fn metadata_write(i: int, a: AccountView, m: MetadataView, clean: bool) -> Result<
    EffectView,
    ProgramError,
> {
    write_effect(i, a.data.len(), en_metadata(m), clean)
}

pub fn write_metadata(i: usize, a: &AccountInfo, m: &Metadata, clean: bool) -> (r: Result<
    Effect,
    ProgramError,
>)
    requires
        data_encodable(m@.data),
    ensures
        effect_result_view(r) == metadata_write(i as int, a@, m@, clean),
{
    write_account(i, a.data.len(), encode_metadata(m), clean)
}

} // verus!
