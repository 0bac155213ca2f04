//! Properties that relate the program's operations to each other.

use crate::burn_ix::{edition_taken, marker_index, marker_mask, toggled};
use crate::codec::{data_encodable, data_is_utf8, en_bool, en_data, en_opt_collection, en_opt_uses, lemma_sp_bool, lemma_sp_data, lemma_sp_u8, lemma_tp_collection, lemma_tp_uses};
use crate::error::ProgramError;
use crate::fuser::{create_master_edition_v3_ix, create_metadata_v2_ix};
use crate::instruction::{instruction_of_bytes, sp_args, sp_data_v2, sp_opt_collection, sp_opt_uses, InstructionView};
use crate::codec::{lemma_sp_opt_u64, en_opt_u64};
use crate::metadata_ix::{creator_verified, first_match, flags_updated, with_verified, data_updated};
use crate::pubkey::Pubkey;
use crate::account::{AccountView, EffectView};
use crate::codec::lemma_key_byte;
use crate::collection_ix::approve_collection_authority_spec;
use crate::ids::metadata_program_id;
use crate::records::{
    collection_authority_record_of_data, edition_marker_of_data, en_collection_authority_record,
    en_edition_marker, en_use_authority_record, use_authority_record_of_data,
};
use crate::rules::chk_has_collection_authority;
use crate::state::{CollectionAuthorityRecord, Key, UseAuthorityRecord, COLLECTION_AUTHORITY_RECORD_SIZE, EDITION_MARKER_LEDGER_LEN};
use vstd::bytes::lemma_auto_spec_u64_to_from_le_bytes;
use crate::burn_ix::burn_nft_spec;
use crate::checks::{chk_master_max_supply_field, chk_master_supply_field};
use crate::edition_ix::supply_change;
use crate::codec::metadata_of_data;
use crate::collection_ix::{set_collection_size_spec, unverify_sized_collection_item_spec, verify_sized_collection_item_spec};
use crate::rules::{decremented_size, incremented_size, puffed, puffed_metadata};
use crate::state::{CollectionDetails, Creator, DataV2View, DataView, MetadataView, Uses, MAX_NAME_LENGTH, MAX_SYMBOL_LENGTH, MAX_URI_LENGTH};
use crate::use_ix::spent;

use vstd::bytes::spec_u64_to_le_bytes;
use vstd::prelude::*;

verus! {

// ---------------------------------------------------------------- updates

/// Through an update, the primary sale flag can only go from unset to set, and the mutable flag
/// only from set to unset.
pub proof fn law_update_flags_only_one_way(
    m: MetadataView,
    update_authority: Option<Pubkey>,
    primary_sale_happened: Option<bool>,
    is_mutable: Option<bool>,
)
    ensures
        match flags_updated(m, update_authority, primary_sale_happened, is_mutable) {
            Ok(n) => (m.primary_sale_happened ==> n.primary_sale_happened) && (!m.is_mutable ==> !n.is_mutable),
            Err(_) => true,
        },
{
}

/// New data is accepted only on a mutable record.
pub proof fn law_data_update_needs_mutable(m: MetadataView, data: DataV2View, ua: crate::account::AccountView)
    ensures
        data_updated(m, Some(data), ua) is Ok ==> m.is_mutable,
{
}

/// An update never brings in or changes a verified collection: when the updated record has a
/// verified collection, it is the collection the record already had.
pub proof fn law_update_keeps_verified_collection(m: MetadataView, data: DataV2View, ua: AccountView)
    ensures
        match data_updated(m, Some(data), ua) {
            Ok(n) => (n.collection matches Some(c) && c.verified) ==> n.collection == m.collection,
            Err(_) => true,
        },
{
}

/// Padding a padded record changes nothing.
pub proof fn law_puff_idempotent(m: MetadataView)
    ensures
        match puffed_metadata(m) {
            Ok(p) => puffed_metadata(p) == Ok::<MetadataView, ProgramError>(p),
            Err(_) => true,
        },
{
    if let Ok(p) = puffed_metadata(m) {
        assert(p.data.name.len() == MAX_NAME_LENGTH);
        assert(p.data.symbol.len() == MAX_SYMBOL_LENGTH);
        assert(p.data.uri.len() == MAX_URI_LENGTH);
        assert(puffed(p.data.name, MAX_NAME_LENGTH as nat) == Ok::<Seq<u8>, ProgramError>(p.data.name)) by {
            assert(p.data.name + Seq::new(0, |i: int| 0u8) =~= p.data.name);
        }
        assert(puffed(p.data.symbol, MAX_SYMBOL_LENGTH as nat) == Ok::<Seq<u8>, ProgramError>(p.data.symbol)) by {
            assert(p.data.symbol + Seq::new(0, |i: int| 0u8) =~= p.data.symbol);
        }
        assert(puffed(p.data.uri, MAX_URI_LENGTH as nat) == Ok::<Seq<u8>, ProgramError>(p.data.uri)) by {
            assert(p.data.uri + Seq::new(0, |i: int| 0u8) =~= p.data.uri);
        }
        assert(puffed_metadata(p) =~= Ok::<MetadataView, ProgramError>(p));
    }
}

// ---------------------------------------------------------------- creator verification

proof fn lemma_first_match_kept(cs: Seq<Creator>, a: Pubkey, v: bool, i: int)
    requires
        first_match(cs, a, i),
    ensures
        first_match(cs.update(i, Creator { verified: v, ..cs[i] }), a, i),
{
    let u = cs.update(i, Creator { verified: v, ..cs[i] });
    assert forall|j: int| 0 <= j < i implies (#[trigger] u[j]).address != a by {
        assert(u[j] == cs[j]);
    }
}

pub(crate) proof fn lemma_first_match_exists(cs: Seq<Creator>, a: Pubkey, k: int)
    requires
        0 <= k < cs.len(),
        cs[k].address == a,
    ensures
        exists|i: int| first_match(cs, a, i),
    decreases k,
{
    if exists|l: int| 0 <= l < k && cs[l].address == a {
        let l = choose|l: int| 0 <= l < k && cs[l].address == a;
        lemma_first_match_exists(cs, a, l);
    } else {
        assert(first_match(cs, a, k));
    }
}

/// Removing a creator's verification after the creator signed leaves the record as removing it
/// directly would.
pub proof fn law_remove_after_sign(m: MetadataView, a: Pubkey)
    ensures
        match creator_verified(m, a, true) {
            Ok(signed) => creator_verified(signed, a, false) == creator_verified(m, a, false),
            Err(_) => true,
        },
{
    if let Ok(signed) = creator_verified(m, a, true) {
        let cs = m.data.creators.unwrap();
        let i = choose|i: int| first_match(cs, a, i);
        let k = choose|k: int| 0 <= k < cs.len() && cs[k].address == a;
        lemma_first_match_exists(cs, a, k);
        assert(first_match(cs, a, i));
        let s1 = with_verified(cs, a, true);
        assert(s1 == cs.update(i, Creator { verified: true, ..cs[i] }));
        lemma_first_match_kept(cs, a, true, i);
        let i2 = choose|i2: int| first_match(s1, a, i2);
        assert(first_match(s1, a, i));
        assert(i2 == i) by {
            if i2 < i {
                assert(s1[i2].address != a);
            } else if i < i2 {
                assert(s1[i].address != a);
            }
        }
        assert(with_verified(s1, a, false) =~= with_verified(cs, a, false));
        assert(crate::rules::lists_address(s1, a)) by {
            assert(s1[i].address == a);
        }
    }
}

// ---------------------------------------------------------------- collections

/// Verifying an item of a sized collection and then unverifying it leaves the parent as it was.
pub proof fn law_size_increment_then_decrement(m: MetadataView)
    ensures
        match incremented_size(m) {
            Ok(m1) => decremented_size(m1) == Ok::<MetadataView, ProgramError>(m),
            Err(_) => true,
        },
{
    if let Ok(m1) = incremented_size(m) {
        if let Some(CollectionDetails::V1 { size }) = m.collection_details {
            assert(m1.collection_details == Some(CollectionDetails::V1 { size: (size + 1) as u64 }));
            assert(decremented_size(m1) =~= Ok::<MetadataView, ProgramError>(m));
        }
    }
}

/// A sized collection counts each item once: verifying succeeds only on an item that is not yet
/// verified, unverifying only on one that is.
pub proof fn law_sized_verification_toggles(program_id: Pubkey, accs: Seq<AccountView>)
    ensures
        verify_sized_collection_item_spec(program_id, accs) is Ok ==> (metadata_of_data(accs[0].data) matches Some(
            m,
        ) && m.collection matches Some(c) && !c.verified),
        unverify_sized_collection_item_spec(program_id, accs) is Ok ==> (metadata_of_data(accs[0].data) matches Some(
            m,
        ) && m.collection matches Some(c) && c.verified),
{
}

/// A collection's size can be set only while it has none.
pub proof fn law_collection_sized_once(program_id: Pubkey, accs: Seq<AccountView>, size: u64)
    ensures
        set_collection_size_spec(program_id, accs, size) is Ok ==> (metadata_of_data(accs[0].data) matches Some(
            m,
        ) && m.collection_details is None),
{
}

/// A master edition is burned only when it has no prints.
pub proof fn law_burn_needs_no_prints(program_id: Pubkey, accs: Seq<AccountView>)
    ensures
        burn_nft_spec(program_id, accs) is Ok ==> chk_master_supply_field(accs[4]) == Ok::<u64, ProgramError>(0),
{
}

// ---------------------------------------------------------------- uses

/// Using a token spends exactly the uses asked for, and only when enough remain.
pub proof fn law_uses_spent(u: Uses, n: u64)
    ensures
        spent(u, n) is Err <==> (n > u.total || n > u.remaining),
        match spent(u, n) {
            Ok(u2) => u2.remaining + n == u.remaining && u2.total == u.total && u2.use_method
                == u.use_method,
            Err(_) => true,
        },
{
}

// ---------------------------------------------------------------- editions

/// Once an edition is recorded in its marker, the marker shows it as taken (so it cannot be
/// printed again), and the other bits of the ledger are unchanged.
pub proof fn law_recorded_edition_is_taken(ledger: Seq<u8>, e: u64)
    requires
        0 <= marker_index(e) < ledger.len(),
        !edition_taken(ledger, e),
    ensures
        edition_taken(toggled(ledger, e), e),
        forall|i: int| 0 <= i < ledger.len() && i != marker_index(e) ==> toggled(ledger, e)[i] == ledger[i],
{
    let x = ledger[marker_index(e)];
    let m = marker_mask(e);
    let k = (7 - (e % 248) % 8) as u8;
    assert(m == 1u8 << k);
    assert(k < 8);
    assert(x & m == 0 && k < 8 && m == 1u8 << k ==> (x ^ m) & m != 0) by (bit_vector);
}

/// Printing never takes a master edition's supply beyond its limit: the new supply is the
/// larger of the edition number and the old supply, and it is within the limit.
pub proof fn law_prints_within_max_supply(i: int, me: AccountView, edition: u64, me_supply: u64)
    ensures
        supply_change(i, me, edition, me_supply) is Ok ==> {
            let new_supply = if edition > me_supply {
                edition
            } else {
                me_supply
            };
            &&& edition != 0
            &&& chk_master_max_supply_field(me) matches Ok(max)
            &&& (max matches Some(x) ==> new_supply <= x)
        },
{
}

/// When the holder of the master burns a print, its bit is cleared again, so the edition may
/// be reprinted.
pub proof fn law_burned_edition_is_free(ledger: Seq<u8>, e: u64)
    requires
        0 <= marker_index(e) < ledger.len(),
        edition_taken(ledger, e),
    ensures
        !edition_taken(toggled(ledger, e), e),
{
    let x = ledger[marker_index(e)];
    let m = marker_mask(e);
    let k = (7 - (e % 248) % 8) as u8;
    assert(m == 1u8 << k);
    assert(x & m != 0 && k < 8 && m == 1u8 << k ==> (x ^ m) & m == 0) by (bit_vector);
}

// ---------------------------------------------------------------- records read back

/// A use authority record written into its (zeroed) account reads back as itself.
pub proof fn law_use_authority_record_round_trip(r: UseAuthorityRecord)
    requires
        r.key == Key::UseAuthorityRecord || r.key == Key::Uninitialized,
    ensures
        use_authority_record_of_data(en_use_authority_record(r) + Seq::new(8, |i: int| 0u8)) == Some(r),
{
    lemma_auto_spec_u64_to_from_le_bytes();
    lemma_key_byte(r.key);
    let d = en_use_authority_record(r) + Seq::new(8, |i: int| 0u8);
    assert(d.subrange(1, 9) =~= spec_u64_to_le_bytes(r.allowed_uses));
    assert(d[9] == r.bump);
}

/// A collection authority record written into its (zeroed) account reads back as itself.
pub proof fn law_collection_authority_record_round_trip(r: CollectionAuthorityRecord)
    requires
        r.key == Key::CollectionAuthorityRecord || r.key == Key::Uninitialized,
    ensures
        collection_authority_record_of_data(en_collection_authority_record(r) + Seq::new(9, |i: int| 0u8)) == Some(r),
{
    lemma_key_byte(r.key);
}

/// An edition marker written out reads back as its key and ledger.
pub proof fn law_edition_marker_round_trip(key: Key, ledger: Seq<u8>)
    requires
        key == Key::EditionMarker || key == Key::Uninitialized,
        ledger.len() == EDITION_MARKER_LEDGER_LEN,
    ensures
        edition_marker_of_data(en_edition_marker(key, ledger)) == Some((key, ledger)),
{
    lemma_key_byte(key);
    assert(en_edition_marker(key, ledger).subrange(1, 32) =~= ledger);
}

/// An account after it is created with `size` zero bytes and then written with a write effect.
pub open spec fn after_write(e: EffectView, size: nat) -> Seq<u8> {
    match e {
        EffectView::Write { bytes, .. } => bytes + Seq::new((size - bytes.len()) as nat, |i: int| 0u8),
        _ => Seq::empty(),
    }
}

/// A delegate whose collection authority the update authority approved is then accepted as the
/// collection's authority, through the record the approval created.
pub proof fn law_approved_delegate_is_collection_authority(accs: Seq<AccountView>, record: AccountView)
    requires
        (approve_collection_authority_spec(metadata_program_id(), accs) matches Ok(effects) && record.data
            == after_write(effects[1], COLLECTION_AUTHORITY_RECORD_SIZE as nat)),
        record.key == accs[0].key,
    ensures
        chk_has_collection_authority(accs[1], metadata_of_data(accs[4].data).unwrap(), accs[5].key, Some(record)) is Ok,
{
    let pid = metadata_program_id();
    let (rec, new_auth, mint) = (accs[0], accs[1], accs[5]);
    let path = crate::collection_ix::collection_authority_path(pid, mint.key, new_auth.key);
    assert(crate::rules::collection_authority_seeds(mint.key, new_auth.key) =~= path);
    let bump = crate::checks::chk_derivation(pid, rec, path)->Ok_0;
    let r = CollectionAuthorityRecord { key: Key::CollectionAuthorityRecord, bump };
    law_collection_authority_record_round_trip(r);
    assert(record.data =~= en_collection_authority_record(r) + Seq::new(9, |i: int| 0u8));
}

// ---------------------------------------------------------------- the fuser and the metadata program

/// The metadata creation that the fuser asks of the metadata program is decoded by that program
/// as a creation of the fused data, with no collection or uses.
pub proof fn law_fused_metadata_instruction_decodes(
    program: Pubkey,
    metadata: Pubkey,
    mint: Pubkey,
    mint_authority: Pubkey,
    payer: Pubkey,
    update_authority: Pubkey,
    d: DataView,
    update_authority_is_signer: bool,
    is_mutable: bool,
)
    requires
        data_encodable(d),
        data_is_utf8(d),
    ensures
        instruction_of_bytes(
            create_metadata_v2_ix(
                program,
                metadata,
                mint,
                mint_authority,
                payer,
                update_authority,
                d,
                update_authority_is_signer,
                is_mutable,
            ).data,
        ) == Some(
            InstructionView::CreateMetadataAccountV2 {
                data: DataV2View { data: d, collection: None, uses: None },
                is_mutable,
            },
        ),
{
    reveal(sp_args);
    reveal(sp_data_v2);
    reveal(sp_opt_collection);
    reveal(sp_opt_uses);
    let e = Seq::<u8>::empty();
    let t4 = en_bool(is_mutable);
    let t3 = en_opt_uses(None) + t4;
    let t2 = en_opt_collection(None) + t3;
    let t1 = en_data(d) + t2;
    let s = seq![16u8] + en_data(d) + en_opt_collection(None) + en_opt_uses(None) + en_bool(is_mutable);
    assert(s =~= seq![16u8] + t1);
    lemma_sp_u8(16, t1);
    lemma_sp_data(d, t2);
    lemma_tp_collection(None, t3);
    lemma_tp_uses(None, t4);
    assert(t4 =~= t4 + e);
    lemma_sp_bool(is_mutable, e);
}

/// The master edition creation that the fuser asks of the metadata program is decoded by that
/// program as a master edition with a supply limit.
pub proof fn law_fused_master_edition_instruction_decodes(
    program: Pubkey,
    edition: Pubkey,
    mint: Pubkey,
    update_authority: Pubkey,
    mint_authority: Pubkey,
    metadata: Pubkey,
    payer: Pubkey,
    max_supply: u64,
)
    ensures
        instruction_of_bytes(
            create_master_edition_v3_ix(program, edition, mint, update_authority, mint_authority, metadata, payer, max_supply).data,
        ) == Some(InstructionView::CreateMasterEditionV3 { max_supply: Some(max_supply) }),
{
    reveal(sp_args);
    let e = Seq::<u8>::empty();
    let s = seq![17u8, 1u8] + spec_u64_to_le_bytes(max_supply);
    let t = en_opt_u64(Some(max_supply));
    assert(t =~= seq![1u8] + spec_u64_to_le_bytes(max_supply));
    assert(s =~= seq![17u8] + t);
    lemma_sp_u8(17, t);
    assert(t =~= t + e);
    lemma_sp_opt_u64(Some(max_supply), e);
}

} // verus!
