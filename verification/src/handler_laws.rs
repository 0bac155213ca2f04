//! Properties of whole instructions, run one after the other on the accounts as the first one
//! leaves them (each account taken by its position in the instruction's account list).

use crate::account::{AccountView, EffectView};
use crate::codec::{data_encodable, data_is_utf8, en_metadata, lemma_metadata_of_written_data, metadata_of_data};
use crate::collection_ix::{
    unverify_sized_collection_item_spec, verify_collection_spec, verify_sized_collection_item_spec,
    with_collection_verified,
};
use crate::codec::{en_opt_collection, en_opt_collection_details};
use crate::error::{merr, MetadataError, ProgramError};
use crate::laws::law_size_increment_then_decrement;
use crate::rules::{decremented_size, incremented_size};
use crate::runtime::lemma_apply_two_writes;
use crate::laws::law_puff_idempotent;
use crate::codec::{en_creator, en_creators, en_data, en_metadata_head, en_opt_creators};
use crate::laws::{law_remove_after_sign, lemma_first_match_exists};
use crate::metadata_ix::{update_metadata_accounts_v2_spec, flags_updated, data_updated,
    creator_verification_spec, creator_verified, first_match, puff_metadata_account_spec};
use crate::pubkey::Pubkey;
use crate::rules::{puffed, puffed_metadata};
use crate::runtime::{
    apply_effects, lemma_apply_single_write, lemma_metadata_of_data_valid, lemma_rewrite_same,
    with_data, with_lamports, written,
};
use crate::records::{en_use_authority_record, use_authority_record_of_data};
use crate::laws::law_use_authority_record_round_trip;
use crate::use_ix::{approve_use_authority_spec, revoke_use_authority_spec};
use crate::runtime::{apply_effect, zeros};
use crate::cpi::{approve_ix, invoke_view, revoke_ix};
use crate::outside::spl_account_of_data;
use crate::state::TokenAccount;
use crate::state::{UseAuthorityRecord, UseMethod, USE_AUTHORITY_RECORD_SIZE};
use crate::state::{CollectionDetails, Creator, DataV2View, DataView, Key, MetadataView};
use vstd::bytes::spec_u64_to_le_bytes;
use vstd::prelude::*;
use vstd::utf8::{valid_utf8, valid_utf8_concat, valid_first_scalar, pop_first_scalar};

verus! {

/// The accounts after a write of metadata record `m` at the start of account 0 (after zeroing
/// the account's data, when `clean`): the account then holds `m`.
proof fn lemma_metadata_written(accs: Seq<AccountView>, m: MetadataView, clean: bool)
    requires
        accs.len() > 0,
        data_encodable(m.data),
        data_is_utf8(m.data),
        m.key == Key::MetadataV1 || m.key == Key::Uninitialized,
        en_metadata(m).len() <= accs[0].data.len(),
    ensures
        apply_effects(accs, seq![EffectView::Write { account: 0, bytes: en_metadata(m), clean }])
            == Some(accs.update(0, with_data(accs[0], written(accs[0].data, en_metadata(m), clean)))),
        metadata_of_data(written(accs[0].data, en_metadata(m), clean)) == Some(m),
        written(accs[0].data, en_metadata(m), clean).len() == accs[0].data.len(),
{
    lemma_apply_single_write(accs, 0, en_metadata(m), clean);
    let base = if clean {
        crate::runtime::zeros(accs[0].data.len())
    } else {
        accs[0].data
    };
    let t = base.skip(en_metadata(m).len() as int);
    lemma_metadata_of_written_data(m, t);
}

proof fn lemma_metadata_rewritten(accs: Seq<AccountView>, m: MetadataView)
    requires
        accs.len() > 0,
        data_encodable(m.data),
        data_is_utf8(m.data),
        m.key == Key::MetadataV1 || m.key == Key::Uninitialized,
        en_metadata(m).len() <= accs[0].data.len(),
    ensures
        apply_effects(accs, seq![EffectView::Write { account: 0, bytes: en_metadata(m), clean: false }])
            == Some(accs.update(0, with_data(accs[0], written(accs[0].data, en_metadata(m), false)))),
        metadata_of_data(written(accs[0].data, en_metadata(m), false)) == Some(m),
        written(accs[0].data, en_metadata(m), false).len() == accs[0].data.len(),
{
    lemma_metadata_written(accs, m, false);
}

/// Verifying an item of an unsized collection a second time, on the accounts as the first
/// verification left them, succeeds again and changes nothing: the item's collection stays
/// verified.
pub proof fn law_verify_collection_twice(program_id: Pubkey, accs: Seq<AccountView>)
    requires
        verify_collection_spec(program_id, accs) is Ok,
    ensures
        verify_collection_spec(program_id, accs) matches Ok(effs) && apply_effects(accs, effs) matches Some(
            after,
        ) && verify_collection_spec(program_id, after) matches Ok(effs2) && apply_effects(after, effs2)
            == Some(after) && metadata_of_data(after[0].data) == Some(
            with_collection_verified(metadata_of_data(accs[0].data).unwrap(), true),
        ),
{
    let m = metadata_of_data(accs[0].data).unwrap();
    let m1 = with_collection_verified(m, true);
    if m.collection is None {
        assert(apply_effects(accs, Seq::empty()) == Some(accs));
    } else {
        lemma_metadata_of_data_valid(accs[0].data);
        lemma_metadata_rewritten(accs, m1);
        let after = accs.update(0, with_data(accs[0], written(accs[0].data, en_metadata(m1), false)));
        assert(with_collection_verified(m1, true) == m1);
        let t = accs[0].data.skip(en_metadata(m1).len() as int);
        lemma_rewrite_same(en_metadata(m1), t);
        lemma_metadata_rewritten(after, m1);
        assert(after.update(0, with_data(after[0], written(after[0].data, en_metadata(m1), false))) =~= after);
    }
}

/// Zero bytes are UTF-8.
proof fn lemma_zero_bytes_utf8(n: nat)
    ensures
        valid_utf8(Seq::new(n, |i: int| 0u8)),
    decreases n,
{
    let z = Seq::new(n, |i: int| 0u8);
    if n > 0 {
        assert(valid_first_scalar(z));
        assert(pop_first_scalar(z) =~= Seq::new((n - 1) as nat, |i: int| 0u8));
        lemma_zero_bytes_utf8((n - 1) as nat);
    }
}

/// A UTF-8 string padded with zero bytes is UTF-8.
proof fn lemma_puffed_utf8(v: Seq<u8>, size: nat)
    requires
        valid_utf8(v),
    ensures
        puffed(v, size) matches Ok(p) ==> valid_utf8(p) && p.len() == size,
{
    if v.len() <= size {
        let k = (size - v.len()) as nat;
        lemma_zero_bytes_utf8(k);
        valid_utf8_concat(v, Seq::new(k, |i: int| 0u8));
    }
}

/// Padding a record's strings a second time, on the account as the first padding left it,
/// succeeds again and leaves the account as it was.
pub proof fn law_puff_twice(program_id: Pubkey, accs: Seq<AccountView>)
    requires
        puff_metadata_account_spec(program_id, accs) is Ok,
    ensures
        puff_metadata_account_spec(program_id, accs) matches Ok(effs) && apply_effects(accs, effs) matches Some(
            after,
        ) && puff_metadata_account_spec(program_id, after) matches Ok(effs2) && apply_effects(
            after,
            effs2,
        ) == Some(after),
{
    let m = metadata_of_data(accs[0].data).unwrap();
    let p = puffed_metadata(m).unwrap();
    let bump = crate::checks::chk_find_address(
        crate::rules::edition_seeds(program_id, p.mint),
        program_id,
    ).unwrap().1;
    let m2 = MetadataView { edition_nonce: Some(bump), ..p };
    lemma_metadata_of_data_valid(accs[0].data);
    lemma_puffed_utf8(m.data.name, crate::state::MAX_NAME_LENGTH as nat);
    lemma_puffed_utf8(m.data.symbol, crate::state::MAX_SYMBOL_LENGTH as nat);
    lemma_puffed_utf8(m.data.uri, crate::state::MAX_URI_LENGTH as nat);
    lemma_metadata_rewritten(accs, m2);
    let after = accs.update(0, with_data(accs[0], written(accs[0].data, en_metadata(m2), false)));
    law_puff_idempotent(m);
    assert(puffed_metadata(m2) == Ok::<MetadataView, crate::error::ProgramError>(m2));
    assert(MetadataView { edition_nonce: Some(bump), ..m2 } == m2);
    let t = accs[0].data.skip(en_metadata(m2).len() as int);
    lemma_rewrite_same(en_metadata(m2), t);
    lemma_metadata_rewritten(after, m2);
    assert(after.update(0, with_data(after[0], written(after[0].data, en_metadata(m2), false))) =~= after);
}

/// A creator entry takes 34 bytes.
proof fn lemma_en_creators_len(cs: Seq<Creator>)
    ensures
        en_creators(cs).len() == 34 * cs.len(),
    decreases cs.len(),
{
    if cs.len() > 0 {
        reveal(en_creator);
        crate::pubkey::lemma_bytes_len(cs[0].address);
        lemma_en_creators_len(cs.drop_first());
    }
}

/// Two records that differ only in their creators' verified flags take as many bytes.
proof fn lemma_en_metadata_len_same_creators(m: MetadataView, cs: Seq<Creator>)
    requires
        m.data.creators matches Some(old) && old.len() == cs.len(),
    ensures
        en_metadata(MetadataView { data: DataView { creators: Some(cs), ..m.data }, ..m }).len()
            == en_metadata(m).len(),
{
    let n = MetadataView { data: DataView { creators: Some(cs), ..m.data }, ..m };
    reveal(en_metadata_head);
    reveal(en_data);
    reveal(en_opt_creators);
    lemma_en_creators_len(cs);
    lemma_en_creators_len(m.data.creators.unwrap());
}

/// A creator that was not verified signs the record and then removes its verification, each
/// on the account as the step before left it: both succeed, and the record is as it was before
/// the creator signed.
pub proof fn law_sign_then_remove(program_id: Pubkey, accs: Seq<AccountView>)
    requires
        creator_verification_spec(program_id, accs, true) is Ok,
        metadata_of_data(accs[0].data) matches Some(m) && m.data.creators matches Some(cs) && forall|i: int|
            first_match(cs, accs[1].key, i) ==> !cs[i].verified,
    ensures
        creator_verification_spec(program_id, accs, true) matches Ok(effs) && apply_effects(accs, effs) matches Some(
            after,
        ) && creator_verification_spec(program_id, after, false) matches Ok(effs2) && apply_effects(
            after,
            effs2,
        ) matches Some(last) && metadata_of_data(last[0].data) == metadata_of_data(accs[0].data),
{
    let m = metadata_of_data(accs[0].data).unwrap();
    let cs = m.data.creators.unwrap();
    let a = accs[1].key;
    let m1 = creator_verified(m, a, true).unwrap();
    let k = choose|k: int| 0 <= k < cs.len() && cs[k].address == a;
    lemma_first_match_exists(cs, a, k);
    let i = choose|i: int| first_match(cs, a, i);
    assert(first_match(cs, a, i));
    assert(crate::metadata_ix::with_verified(cs, a, false) =~= cs);
    assert(creator_verified(m, a, false) == Ok::<MetadataView, crate::error::ProgramError>(m));
    law_remove_after_sign(m, a);
    lemma_metadata_of_data_valid(accs[0].data);
    lemma_metadata_rewritten(accs, m1);
    let after = accs.update(0, with_data(accs[0], written(accs[0].data, en_metadata(m1), false)));
    lemma_en_metadata_len_same_creators(m, m1.data.creators.unwrap());
    lemma_metadata_rewritten(after, m);
}

/// The record that a successful update writes, padded, from the start of the zeroed account.
pub open spec fn update_written(effs: Seq<EffectView>, p: MetadataView) -> bool {
    effs == seq![EffectView::Write { account: 0, bytes: en_metadata(p), clean: true }]
}

/// An update that succeeds writes one record, in which the primary sale flag is set if it was
/// set before and the mutable flag is clear if it was clear before; the account then holds that
/// record whenever the new data's strings are UTF-8 with lengths that fit in four bytes (as any
/// data an instruction carries is).
pub proof fn law_update_flags_at_handler(
    program_id: Pubkey,
    accs: Seq<AccountView>,
    data: Option<DataV2View>,
    update_authority: Option<Pubkey>,
    primary_sale_happened: Option<bool>,
    is_mutable: Option<bool>,
)
    requires
        update_metadata_accounts_v2_spec(program_id, accs, data, update_authority, primary_sale_happened, is_mutable) is Ok,
    ensures
        ({
            let effs = update_metadata_accounts_v2_spec(
                program_id,
                accs,
                data,
                update_authority,
                primary_sale_happened,
                is_mutable,
            ).unwrap();
            let m = metadata_of_data(accs[0].data).unwrap();
            exists|p: MetadataView|
                #[trigger] update_written(effs, p) && (m.primary_sale_happened ==> p.primary_sale_happened) && (
                !m.is_mutable ==> !p.is_mutable) && ((data matches Some(d) ==> data_encodable(d.data)
                    && data_is_utf8(d.data)) ==> (apply_effects(accs, effs) matches Some(after)
                    && metadata_of_data(after[0].data) == Some(p)))
        }),
{
    let m = metadata_of_data(accs[0].data).unwrap();
    let m1 = data_updated(m, data, accs[1]).unwrap();
    let m2 = flags_updated(m1, update_authority, primary_sale_happened, is_mutable).unwrap();
    let p = puffed_metadata(m2).unwrap();
    let effs = update_metadata_accounts_v2_spec(
        program_id,
        accs,
        data,
        update_authority,
        primary_sale_happened,
        is_mutable,
    ).unwrap();
    assert(update_written(effs, p));
    if data matches Some(d) ==> data_encodable(d.data) && data_is_utf8(d.data) {
        lemma_metadata_of_data_valid(accs[0].data);
        lemma_puffed_utf8(m2.data.name, crate::state::MAX_NAME_LENGTH as nat);
        lemma_puffed_utf8(m2.data.symbol, crate::state::MAX_SYMBOL_LENGTH as nat);
        lemma_puffed_utf8(m2.data.uri, crate::state::MAX_URI_LENGTH as nat);
        lemma_metadata_written(accs, p, true);
    }
}

/// Once the record, its owner, the update authority and any new data have passed their checks,
/// an update that would clear the primary sale flag is refused, and otherwise one that would set
/// the mutable flag again is refused.
pub proof fn law_update_flag_errors(
    program_id: Pubkey,
    accs: Seq<AccountView>,
    data: Option<DataV2View>,
    update_authority: Option<Pubkey>,
    primary_sale_happened: Option<bool>,
    is_mutable: Option<bool>,
)
    requires
        accs.len() >= 2,
        accs[0].owner == program_id,
        metadata_of_data(accs[0].data) matches Some(m) && crate::checks::chk_update_authority(m, accs[1]) is Ok
            && data_updated(m, data, accs[1]) is Ok,
    ensures
        ({
            let m = metadata_of_data(accs[0].data).unwrap();
            let r = update_metadata_accounts_v2_spec(
                program_id,
                accs,
                data,
                update_authority,
                primary_sale_happened,
                is_mutable,
            );
            &&& primary_sale_happened == Some(false) && m.primary_sale_happened ==> r == Err::<
                Seq<EffectView>,
                ProgramError,
            >(merr(MetadataError::PrimarySaleCanOnlyBeFlippedToTrue))
            &&& !(primary_sale_happened == Some(false) && m.primary_sale_happened) && is_mutable == Some(
                true,
            ) && !m.is_mutable ==> r == Err::<Seq<EffectView>, ProgramError>(
                merr(MetadataError::IsMutableCanOnlyBeFlippedToFalse),
            )
        }),
{
}

/// Records that differ only in a present collection, or only in a present size, take as many
/// bytes.
proof fn lemma_en_metadata_len_same_shape(m: MetadataView, n: MetadataView)
    requires
        n == (MetadataView { collection: n.collection, collection_details: n.collection_details, ..m }),
        m.collection is Some <==> n.collection is Some,
        m.collection_details is Some <==> n.collection_details is Some,
    ensures
        en_metadata(n).len() == en_metadata(m).len(),
{
    reveal(en_opt_collection);
    reveal(en_opt_collection_details);
    reveal(en_metadata_head);
    assert(en_metadata_head(n) == en_metadata_head(m));
    vstd::bytes::lemma_auto_spec_u64_to_from_le_bytes();
    if let Some(c) = m.collection {
        let c2 = n.collection.unwrap();
        crate::pubkey::lemma_bytes_len(c.key);
        crate::pubkey::lemma_bytes_len(c2.key);
        assert(en_opt_collection(n.collection).len() == en_opt_collection(m.collection).len());
    }
    if let Some(CollectionDetails::V1 { size }) = m.collection_details {
        let CollectionDetails::V1 { size: s2 } = n.collection_details.unwrap();
        assert(spec_u64_to_le_bytes(size).len() == 8);
        assert(spec_u64_to_le_bytes(s2).len() == 8);
        assert(en_opt_collection_details(n.collection_details).len()
            == en_opt_collection_details(m.collection_details).len());
    }
}

/// Verifying an item of a sized collection and then unverifying it, each on the accounts as the
/// step before left them, both succeed and leave the item and the collection parent holding
/// the records they held before; unverifying once more is refused.
pub proof fn law_sized_verify_then_unverify(program_id: Pubkey, accs: Seq<AccountView>)
    requires
        verify_sized_collection_item_spec(program_id, accs) is Ok,
    ensures
        verify_sized_collection_item_spec(program_id, accs) matches Ok(effs) && apply_effects(accs, effs) matches Some(
            after,
        ) && unverify_sized_collection_item_spec(program_id, after) matches Ok(effs2) && apply_effects(
            after,
            effs2,
        ) matches Some(last) && metadata_of_data(last[0].data) == metadata_of_data(accs[0].data)
            && metadata_of_data(last[4].data) == metadata_of_data(accs[4].data)
            && unverify_sized_collection_item_spec(program_id, last) == Err::<Seq<EffectView>, ProgramError>(
            merr(MetadataError::AlreadyUnverified),
        ),
{
    let m = metadata_of_data(accs[0].data).unwrap();
    let c = metadata_of_data(accs[4].data).unwrap();
    let c2 = incremented_size(c).unwrap();
    let m1 = with_collection_verified(m, true);
    lemma_metadata_of_data_valid(accs[0].data);
    lemma_metadata_of_data_valid(accs[4].data);
    law_size_increment_then_decrement(c);
    assert(with_collection_verified(m1, false) == m);
    lemma_en_metadata_len_same_shape(m, m1);
    lemma_en_metadata_len_same_shape(c, c2);
    let (b4, b0) = (en_metadata(c2), en_metadata(m1));
    lemma_apply_two_writes(accs, 4, b4, true, 0, b0, true);
    let after = accs.update(4, with_data(accs[4], written(accs[4].data, b4, true))).update(
        0,
        with_data(accs[0], written(accs[0].data, b0, true)),
    );
    let base4 = crate::runtime::zeros(accs[4].data.len());
    let base0 = crate::runtime::zeros(accs[0].data.len());
    lemma_metadata_of_written_data(c2, base4.skip(b4.len() as int));
    lemma_metadata_of_written_data(m1, base0.skip(b0.len() as int));
    assert(after[4].data.len() == accs[4].data.len());
    assert(after[0].data.len() == accs[0].data.len());
    let (e4, e0) = (en_metadata(c), en_metadata(m));
    lemma_apply_two_writes(after, 4, e4, true, 0, e0, true);
    let last = after.update(4, with_data(after[4], written(after[4].data, e4, true))).update(
        0,
        with_data(after[0], written(after[0].data, e0, true)),
    );
    lemma_metadata_of_written_data(c, crate::runtime::zeros(after[4].data.len()).skip(e4.len() as int));
    lemma_metadata_of_written_data(m, crate::runtime::zeros(after[0].data.len()).skip(e0.len() as int));
}

/// An account as the runtime leaves it after creating it for the program: owned by the program,
/// holding `size` zero bytes, and funded with `lamports` (what rent asks; not the library's to
/// say).
pub open spec fn created_account(program_id: Pubkey, a: AccountView, size: nat, lamports: u64) -> AccountView {
    AccountView { owner: program_id, data: zeros(size), lamports, ..a }
}

/// The accounts that revoking takes, in its order, from those that approving took: record,
/// owner, user, token account, mint, metadata, token program.
pub open spec fn revoke_accounts(a: Seq<AccountView>) -> Seq<AccountView> {
    seq![a[0], a[1], a[3], a[4], a[6], a[5], a[8]]
}

/// The holder of a token whose uses are not spent by burning approves a use authority and then
/// revokes it, on the accounts as approving left them (the record created by the runtime with
/// `rent` lamports): both succeed; the record ends with no lamports and zeroed data, its
/// lamports go to the owner, and the metadata account is never touched.
pub proof fn law_approve_then_revoke_use_authority(
    program_id: Pubkey,
    accs: Seq<AccountView>,
    number_of_uses: u64,
    rent: u64,
)
    requires
        approve_use_authority_spec(program_id, accs, number_of_uses) is Ok,
        metadata_of_data(accs[5].data) matches Some(m) && m.uses matches Some(u) && u.use_method
            != UseMethod::Burn,
        rent + accs[1].lamports <= u64::MAX,
    ensures
        ({
            let effs = approve_use_authority_spec(program_id, accs, number_of_uses).unwrap();
            let created = accs.update(
                0,
                created_account(program_id, accs[0], USE_AUTHORITY_RECORD_SIZE as nat, rent),
            );
            &&& effs.len() == 2
            &&& effs[0] is CreateAccount
            &&& apply_effects(created, effs.skip(1)) is Some
            &&& apply_effects(created, effs.skip(1)).unwrap()[5] == accs[5]
            &&& {
                let r = revoke_accounts(apply_effects(created, effs.skip(1)).unwrap());
                &&& revoke_use_authority_spec(program_id, r) is Ok
                &&& apply_effects(r, revoke_use_authority_spec(program_id, r).unwrap()) matches Some(last)
                    && last[0].lamports == 0 && last[0].data == zeros(USE_AUTHORITY_RECORD_SIZE as nat)
                    && last[1].lamports == accs[1].lamports + rent && last[5] == accs[5]
            }
        }),
{
    let effs = approve_use_authority_spec(program_id, accs, number_of_uses).unwrap();
    let size = USE_AUTHORITY_RECORD_SIZE as nat;
    let created = accs.update(0, created_account(program_id, accs[0], size, rent));
    let bump = crate::checks::chk_derivation(
        program_id,
        accs[0],
        crate::use_ix::use_authority_path(program_id, accs[6].key, accs[3].key),
    ).unwrap();
    let rec = UseAuthorityRecord { key: Key::UseAuthorityRecord, allowed_uses: number_of_uses, bump };
    let bytes = en_use_authority_record(rec);
    vstd::bytes::lemma_auto_spec_u64_to_from_le_bytes();
    assert(bytes.len() == 10);
    assert(effs.skip(1) =~= seq![EffectView::Write { account: 0, bytes, clean: false }]);
    lemma_apply_single_write(created, 0, bytes, false);
    let after = created.update(0, with_data(created[0], written(created[0].data, bytes, false)));
    assert(after[0].data =~= bytes + Seq::new(8, |i: int| 0u8));
    law_use_authority_record_round_trip(rec);
    let r = revoke_accounts(after);
    assert(use_authority_record_of_data(r[0].data) == Some(rec));
    let effs2 = revoke_use_authority_spec(program_id, r).unwrap();
    let d = EffectView::DrainLamports { from: 0, to: 1 };
    let z = EffectView::Zero { account: 0, len: USE_AUTHORITY_RECORD_SIZE };
    assert(effs2 =~= seq![d, z]);
    let drained = r.update(0, with_lamports(r[0], 0));
    let mid = drained.update(1, with_lamports(drained[1], (drained[1].lamports + r[0].lamports) as u64));
    assert(apply_effect(r, d) == Some(mid));
    let last = mid.update(0, with_data(mid[0], crate::runtime::zeroed_prefix(mid[0].data, size)));
    assert(apply_effect(mid, z) == Some(last));
    assert(seq![d, z].skip(1) =~= seq![z]);
    assert(seq![z].skip(1) =~= Seq::<EffectView>::empty());
    reveal_with_fuel(apply_effects, 3);
    assert(crate::runtime::zeroed_prefix(mid[0].data, size) =~= zeros(size));
}

/// The holder of a token whose uses are spent by burning approves a use authority and then
/// revokes it, on the accounts as approving left them. The runtime creates the record with `rent`
/// lamports; the token program's approval leaves the token account with `approved_token_data`,
/// which reads as before with the program's burn authority as delegate of one token (what the
/// token program's approve does), and its revocation leaves whatever `revoked_token_data` is.
/// Both succeed; approving makes exactly one call into the token program, approving the burn
/// authority, and revoking exactly one, revoking it; the record ends with no lamports and zeroed
/// data, its lamports go to the owner, and the metadata account is never touched.
pub proof fn law_approve_then_revoke_burned_use_authority(
    program_id: Pubkey,
    accs: Seq<AccountView>,
    number_of_uses: u64,
    rent: u64,
    approved_token_data: Seq<u8>,
    revoked_token_data: Seq<u8>,
)
    requires
        approve_use_authority_spec(program_id, accs, number_of_uses) is Ok,
        metadata_of_data(accs[5].data) matches Some(m) && m.uses matches Some(u) && u.use_method
            == UseMethod::Burn,
        rent + accs[1].lamports <= u64::MAX,
        spl_account_of_data(accs[4].data) matches Some(t) && spl_account_of_data(approved_token_data)
            == Some(TokenAccount { delegate: Some(accs[7].key), delegated_amount: 1, ..t }),
    ensures
        ({
            let effs = approve_use_authority_spec(program_id, accs, number_of_uses).unwrap();
            let created = accs.update(
                0,
                created_account(program_id, accs[0], USE_AUTHORITY_RECORD_SIZE as nat, rent),
            ).update(4, with_data(accs[4], approved_token_data));
            &&& effs.len() == 3
            &&& effs[0] is CreateAccount
            &&& effs[1] == invoke_view(approve_ix(accs[8].key, accs[4].key, accs[7].key, accs[1].key), Seq::empty(), None)
            &&& effs[2] is Write
            &&& apply_effects(created, effs.skip(2)) is Some
            &&& apply_effects(created, effs.skip(2)).unwrap()[5] == accs[5]
            &&& {
                let r = revoke_accounts(apply_effects(created, effs.skip(2)).unwrap());
                let effs2 = revoke_use_authority_spec(program_id, r).unwrap();
                &&& revoke_use_authority_spec(program_id, r) is Ok
                &&& effs2.len() == 3
                &&& effs2[0] == invoke_view(revoke_ix(accs[8].key, accs[4].key, accs[1].key), Seq::empty(), None)
                &&& apply_effects(r.update(3, with_data(r[3], revoked_token_data)), effs2.skip(1)) matches Some(last)
                    && last[0].lamports == 0 && last[0].data == zeros(USE_AUTHORITY_RECORD_SIZE as nat)
                    && last[1].lamports == accs[1].lamports + rent && last[5] == accs[5]
            }
        }),
{
    let effs = approve_use_authority_spec(program_id, accs, number_of_uses).unwrap();
    let size = USE_AUTHORITY_RECORD_SIZE as nat;
    let created = accs.update(0, created_account(program_id, accs[0], size, rent)).update(
        4,
        with_data(accs[4], approved_token_data),
    );
    let bump = crate::checks::chk_derivation(
        program_id,
        accs[0],
        crate::use_ix::use_authority_path(program_id, accs[6].key, accs[3].key),
    ).unwrap();
    let rec = UseAuthorityRecord { key: Key::UseAuthorityRecord, allowed_uses: number_of_uses, bump };
    let bytes = en_use_authority_record(rec);
    vstd::bytes::lemma_auto_spec_u64_to_from_le_bytes();
    assert(bytes.len() == 10);
    assert(effs.skip(2) =~= seq![EffectView::Write { account: 0, bytes, clean: false }]);
    lemma_apply_single_write(created, 0, bytes, false);
    let after = created.update(0, with_data(created[0], written(created[0].data, bytes, false)));
    assert(after[0].data =~= bytes + Seq::new(8, |i: int| 0u8));
    law_use_authority_record_round_trip(rec);
    let r = revoke_accounts(after);
    assert(use_authority_record_of_data(r[0].data) == Some(rec));
    let effs2 = revoke_use_authority_spec(program_id, r).unwrap();
    let v = invoke_view(revoke_ix(accs[8].key, accs[4].key, accs[1].key), Seq::empty(), None);
    let d = EffectView::DrainLamports { from: 0, to: 1 };
    let z = EffectView::Zero { account: 0, len: USE_AUTHORITY_RECORD_SIZE };
    assert(effs2 =~= seq![v, d, z]);
    let r2 = r.update(3, with_data(r[3], revoked_token_data));
    let drained = r2.update(0, with_lamports(r2[0], 0));
    let mid = drained.update(1, with_lamports(drained[1], (drained[1].lamports + r2[0].lamports) as u64));
    assert(apply_effect(r2, d) == Some(mid));
    let last = mid.update(0, with_data(mid[0], crate::runtime::zeroed_prefix(mid[0].data, size)));
    assert(apply_effect(mid, z) == Some(last));
    assert(effs2.skip(1) =~= seq![d, z]);
    assert(seq![d, z].skip(1) =~= seq![z]);
    assert(seq![z].skip(1) =~= Seq::<EffectView>::empty());
    reveal_with_fuel(apply_effects, 3);
    assert(crate::runtime::zeroed_prefix(mid[0].data, size) =~= zeros(size));
}

} // verus!
