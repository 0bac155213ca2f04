//! What a successful instruction leaves in the accounts it writes, stated in terms of what those
//! accounts held before.

use crate::account::{AccountView, EffectView};
use crate::burn_ix::{burn_edition_nft_spec, burn_nft_spec};
use crate::codec::{data_encodable, data_is_utf8, en_metadata, lemma_metadata_of_written_data, metadata_of_data};
use crate::collection_ix::set_and_verify_collection_spec;
use crate::fuser::{create_fused_metadata_spec, MintNFT};
use crate::instruction::{instruction_of_bytes, InstructionView};
use crate::pubkey::Pubkey;
use crate::records::{en_master_edition_v2, lemma_master_edition_v2_roundtrip, en_use_authority_record, master_edition_v2_of_data, use_authority_record_of_data};
use crate::codec::lemma_key_byte;
use crate::state::{key_byte, MasterEditionV2, UseAuthorityRecord};
use crate::codec::sp_u8;
use crate::outside::spl_account_of_data;
use vstd::bytes::spec_u64_to_le_bytes;
use crate::runtime::{lemma_metadata_of_data_valid, written, zeros};
use crate::state::{Collection, CollectionDetails, DataV2View, DataView, Key, MetadataView};
use crate::laws::law_fused_metadata_instruction_decodes;
use crate::use_ix::{approved_is_using, record_index, utilize_spec};
use vstd::prelude::*;
use vstd::utf8::valid_utf8;

verus! {

/// The data of account `i` after effect `e`, when `e` writes to it.
pub open spec fn data_after_write(e: EffectView, i: usize, data: Seq<u8>) -> Option<Seq<u8>> {
    match e {
        EffectView::Write { account, bytes, clean } => if account == i {
            Some(written(data, bytes, clean))
        } else {
            None
        },
        _ => None,
    }
}

/// A metadata record written at the start of an account reads back from the account.
proof fn lemma_metadata_reads_back(data: Seq<u8>, m: MetadataView, clean: bool)
    requires
        data_encodable(m.data),
        data_is_utf8(m.data),
        m.key == Key::MetadataV1 || m.key == Key::Uninitialized,
        en_metadata(m).len() <= data.len(),
    ensures
        metadata_of_data(written(data, en_metadata(m), clean)) == Some(m),
{
    let base = if clean {
        zeros(data.len())
    } else {
        data
    };
    lemma_metadata_of_written_data(m, base.skip(en_metadata(m).len() as int));
}

/// Setting and verifying an item's collection writes the item back, and only it, with the
/// collection mint as its collection, verified, and every other field as it was.
pub proof fn law_set_and_verify_collection_writes_verified_member(program_id: Pubkey, accs: Seq<AccountView>)
    requires
        set_and_verify_collection_spec(program_id, accs) is Ok,
    ensures
        ({
            let effs = set_and_verify_collection_spec(program_id, accs).unwrap();
            &&& effs.len() == 1
            &&& data_after_write(effs[0], 0, accs[0].data) matches Some(d) && metadata_of_data(d) == Some(
                MetadataView {
                    collection: Some(Collection { key: accs[4].key, verified: true }),
                    ..metadata_of_data(accs[0].data).unwrap()
                },
            )
        }),
{
    let m = metadata_of_data(accs[0].data).unwrap();
    let n = MetadataView { collection: Some(Collection { key: accs[4].key, verified: true }), ..m };
    lemma_metadata_of_data_valid(accs[0].data);
    lemma_metadata_reads_back(accs[0].data, n, false);
}

/// When an approved use authority spends `n` uses, the instruction's first effect writes the
/// authority's record back with its allowance `n` smaller and its kind as it was.
pub proof fn law_utilize_spends_the_allowance(program_id: Pubkey, accs: Seq<AccountView>, n: u64)
    requires
        utilize_spec(program_id, accs, n) is Ok,
        approved_is_using(accs),
    ensures
        ({
            let effs = utilize_spec(program_id, accs, n).unwrap();
            let i = record_index(accs);
            &&& effs.len() > 0
            &&& data_after_write(effs[0], i as usize, accs[i].data) matches Some(d)
                && use_authority_record_of_data(accs[i].data) matches Some(old)
                && use_authority_record_of_data(d) matches Some(new)
                && new.allowed_uses == old.allowed_uses - n && new.key == old.key
        }),
{
    let i = record_index(accs);
    let rec = accs[i];
    let r = crate::use_ix::chk_use_record(program_id, rec, accs[2].key, accs[3].key).unwrap();
    let rw = UseAuthorityRecord { allowed_uses: (r.allowed_uses - n) as u64, ..r };
    let bytes = en_use_authority_record(rw);
    vstd::bytes::lemma_auto_spec_u64_to_from_le_bytes();
    lemma_key_byte(rw.key);
    let d = written(rec.data, bytes, false);
    assert(d.subrange(1, 9) =~= spec_u64_to_le_bytes(rw.allowed_uses));
    assert(d[0] == key_byte(rw.key));
    assert(d[9] == rw.bump);
}

/// Creating the fused token's metadata asks the metadata program, in its second effect, for a
/// metadata record carrying the fuse request's name, symbol and URI with the base token's
/// seller fee and creators, mutable, without collection or uses (the request's strings being
/// UTF-8, as stored strings are).
pub proof fn law_fused_metadata_carries_the_request(ctx: MintNFT)
    requires
        create_fused_metadata_spec(ctx) is Ok,
        valid_utf8(ctx.fuse_request@.name),
        valid_utf8(ctx.fuse_request@.symbol),
        valid_utf8(ctx.fuse_request@.uri),
    ensures
        ({
            let effs = create_fused_metadata_spec(ctx).unwrap();
            let fr = ctx.fuse_request@;
            let base = metadata_of_data(ctx.base_metadata_data@).unwrap().data;
            &&& effs.len() == 3
            &&& effs[1] matches EffectView::Invoke { instruction, .. } && instruction.program_id
                == ctx.token_metadata_program && instruction_of_bytes(instruction.data) == Some(
                InstructionView::CreateMetadataAccountV2 {
                    data: DataV2View {
                        data: DataView {
                            name: fr.name,
                            symbol: fr.symbol,
                            uri: fr.uri,
                            seller_fee_basis_points: base.seller_fee_basis_points,
                            creators: base.creators,
                        },
                        collection: None,
                        uses: None,
                    },
                    is_mutable: true,
                },
            )
        }),
{
    let fr = ctx.fuse_request@;
    let base = metadata_of_data(ctx.base_metadata_data@).unwrap().data;
    let d = DataView {
        name: fr.name,
        symbol: fr.symbol,
        uri: fr.uri,
        seller_fee_basis_points: base.seller_fee_basis_points,
        creators: base.creators,
    };
    law_fused_metadata_instruction_decodes(
        ctx.token_metadata_program,
        ctx.metadata,
        ctx.mint,
        ctx.fuse_request_address,
        ctx.payer,
        ctx.fuse_request_address,
        d,
        true,
        true,
    );
}

/// Burning a verified item of a sized collection, with the collection's metadata passed as the
/// seventh account, writes that parent back as the instruction's last effect, with its size one
/// smaller and every other field as it was.
pub proof fn law_burn_shrinks_the_sized_parent(program_id: Pubkey, accs: Seq<AccountView>)
    requires
        burn_nft_spec(program_id, accs) is Ok,
        accs.len() == 7,
        metadata_of_data(accs[6].data) matches Some(cm) && cm.collection_details is Some,
    ensures
        ({
            let effs = burn_nft_spec(program_id, accs).unwrap();
            let cm = metadata_of_data(accs[6].data).unwrap();
            let size = cm.collection_details.unwrap()->size;
            &&& effs.len() > 0
            &&& size > 0
            &&& data_after_write(effs.last(), 6, accs[6].data) matches Some(d) && metadata_of_data(d)
                == Some(
                MetadataView { collection_details: Some(CollectionDetails::V1 { size: (size - 1) as u64 }), ..cm },
            )
        }),
{
    let cm = metadata_of_data(accs[6].data).unwrap();
    let size = cm.collection_details.unwrap()->size;
    let n = MetadataView { collection_details: Some(CollectionDetails::V1 { size: (size - 1) as u64 }), ..cm };
    lemma_metadata_of_data_valid(accs[6].data);
    lemma_metadata_reads_back(accs[6].data, n, true);
    let effs = burn_nft_spec(program_id, accs).unwrap();
    let w = crate::encode::metadata_write(6, accs[6], n, true).unwrap();
    assert(effs.last() == w);
}

/// The master edition's supply limit after a print is burned: kept when the burner also holds
/// the master edition's token, one smaller otherwise.
pub open spec fn limit_after_burn(max_supply: Option<u64>, holds_master: bool) -> Option<u64> {
    match max_supply {
        Some(x) => if holds_master {
            Some(x)
        } else {
            Some((x - 1) as u64)
        },
        None => None,
    }
}

/// The last effect of the marker and master update writes the master edition back with one
/// print fewer.
proof fn lemma_master_after_burn(accs: Seq<AccountView>, edition: u64, holds: bool, lamports: u64)
    requires
        accs.len() >= 10,
        crate::burn_ix::ledger_and_master(accs, edition, holds, lamports) is Ok,
    ensures
        ({
            let tail = crate::burn_ix::ledger_and_master(accs, edition, holds, lamports).unwrap();
            &&& tail.len() > 0
            &&& master_edition_v2_of_data(accs[6].data) matches Some(old)
                && data_after_write(tail.last(), 6, accs[6].data) matches Some(d)
                && master_edition_v2_of_data(d) matches Some(new)
                && old.supply > 0 && new.supply == old.supply - 1 && new.key == old.key
                && new.max_supply == limit_after_burn(old.max_supply, holds)
        }),
{
    let me = accs[6];
    let old = master_edition_v2_of_data(me.data).unwrap();
    let m2 = MasterEditionV2 {
        supply: (old.supply - 1) as u64,
        max_supply: limit_after_burn(old.max_supply, holds),
        ..old
    };
    let bytes = en_master_edition_v2(m2);
    let tail = crate::burn_ix::ledger_and_master(accs, edition, holds, lamports).unwrap();
    assert(tail.last() == EffectView::Write { account: 6, bytes, clean: false });
    assert(sp_u8(me.data) == Some((me.data[0], me.data.skip(1))));
    lemma_key_byte(old.key);
    let t = me.data.skip(bytes.len() as int);
    lemma_master_edition_v2_roundtrip(m2, t);
}

/// Burning a print edition writes the master edition back, as the instruction's last effect,
/// with its supply one smaller, and its supply limit kept when the burner also holds the master
/// edition's token and one smaller otherwise.
pub proof fn law_burn_print_returns_a_print(program_id: Pubkey, accs: Seq<AccountView>)
    requires
        burn_edition_nft_spec(program_id, accs) is Ok,
    ensures
        ({
            let effs = burn_edition_nft_spec(program_id, accs).unwrap();
            let holds = spl_account_of_data(accs[5].data) matches Some(t) && t.owner == accs[1].key;
            &&& effs.len() > 0
            &&& master_edition_v2_of_data(accs[6].data) matches Some(old)
                && data_after_write(effs.last(), 6, accs[6].data) matches Some(d)
                && master_edition_v2_of_data(d) matches Some(new)
                && old.supply > 0 && new.supply == old.supply - 1 && new.key == old.key
                && new.max_supply == limit_after_burn(old.max_supply, holds)
        }),
{
    let effs = burn_edition_nft_spec(program_id, accs).unwrap();
    assert(crate::burn_ix::burn_edition_checked(program_id, accs) == Ok::<Seq<EffectView>, crate::error::ProgramError>(effs));
    let mt = crate::checks::chk_initialized_token_account(accs[5]).unwrap();
    let print = crate::records::edition_of_data(accs[7].data).unwrap();
    let o1 = (accs[1].lamports + accs[0].lamports) as u64;
    let o2 = (o1 + accs[7].lamports) as u64;
    let holds = accs[1].key == mt.owner;
    let tail = crate::burn_ix::ledger_and_master(accs, print.edition, holds, o2).unwrap();
    lemma_master_after_burn(accs, print.edition, holds, o2);
    assert(effs.last() == tail.last());
}

} // verus!
