//! The token-fuser program: filter settings, fuse requests with a token bounty, and the
//! creation of the fused token's metadata and master edition through the metadata program.
//!
//! Each instruction takes the accounts it was given, already checked against their
//! constraints, updates the records it owns and gives the instructions it invokes.

use crate::account::{effects_view, AccountMeta, Effect, EffectView, Instruction, InstructionView};
use crate::codec::{data_encodable, en_bool, en_data, en_opt_collection, en_opt_uses, metadata_of_data};
use crate::cpi::{invoke_view, set_authority_ix};
use crate::decode::metadata_from_data;
use crate::encode::{wr_bool, wr_data, wr_opt_collection, wr_opt_uses, wr_u8};
use crate::error::{fuse_error_code, merr, FuseError, MetadataError, ProgramError};
use crate::ids::{lemma_byte_vec_deep_view, rent_id, rent_sysvar_id, spl_token_program_id};
use crate::outside::{meta, token_set_authority, token_transfer, TokenAuthority};
use crate::pubkey::Pubkey;
use crate::state::{Data, DataView};
use vstd::bytes::spec_u64_to_le_bytes;
use vstd::prelude::*;

verus! {

/// `fuse_request`
pub open spec fn fuse_info_prefix() -> Seq<u8> {
    seq![102u8, 117, 115, 101, 95, 114, 101, 113, 117, 101, 115, 116]
}

pub fn fuse_info_prefix_bytes() -> (v: Vec<u8>)
    ensures
        v@ == fuse_info_prefix(),
{
    let v = vec![102u8, 117, 115, 101, 95, 114, 101, 113, 117, 101, 115, 116];
    assert(v@ =~= fuse_info_prefix());
    v
}

/// The event a fuse request announces.
#[derive(Clone, Copy, Debug, PartialEq, Eq, Structural)]
pub struct FuseRequestEvent {
    pub filter_mint: Pubkey,
    pub base_mint: Pubkey,
    pub creator: Pubkey,
    pub bounty: u64,
}

impl FuseRequestEvent {
    pub fn init(filter_mint: &Pubkey, base_mint: &Pubkey, creator: &Pubkey, bounty: u64) -> (e: Self)
        ensures
            e == (FuseRequestEvent { filter_mint: *filter_mint, base_mint: *base_mint, creator: *creator, bounty }),
    {
        FuseRequestEvent { filter_mint: *filter_mint, base_mint: *base_mint, creator: *creator, bounty }
    }
}

/// A request to fuse a token with a filter, with the bounty paid to whoever fulfils it.
/// Strings are held as their bytes.
#[derive(Clone, Debug)]
pub struct FuseRequest {
    pub bump: u8,
    pub mint: Pubkey,
    pub filter: Pubkey,
    pub requester: Pubkey,
    /// Has URI been set yet
    pub completed: bool,
    /// Who is authorized to set the completed result
    pub crank_authority: Pubkey,
    /// How much do they get paid for doing so
    pub bounty_amount: u64,
    pub uri: Vec<u8>,
    pub name: Vec<u8>,
    pub symbol: Vec<u8>,
}

/// What a `FuseRequest` holds.
#[verifier::ext_equal]
pub struct FuseRequestView {
    pub bump: u8,
    pub mint: Pubkey,
    pub filter: Pubkey,
    pub requester: Pubkey,
    pub completed: bool,
    pub crank_authority: Pubkey,
    pub bounty_amount: u64,
    pub uri: Seq<u8>,
    pub name: Seq<u8>,
    pub symbol: Seq<u8>,
}

impl View for FuseRequest {
    type V = FuseRequestView;

    open spec fn view(&self) -> FuseRequestView {
        FuseRequestView {
            bump: self.bump,
            mint: self.mint,
            filter: self.filter,
            requester: self.requester,
            completed: self.completed,
            crank_authority: self.crank_authority,
            bounty_amount: self.bounty_amount,
            uri: self.uri@,
            name: self.name@,
            symbol: self.symbol@,
        }
    }
}

/// The settings of a filter: where its price is paid, and who uploads its results.
#[derive(Clone, Copy, Debug, PartialEq, Eq, Structural)]
pub struct FilterSettings {
    pub bump: u8,
    pub filter_mint: Pubkey,
    pub treasury_mint: Pubkey,
    pub treasury_address: Pubkey,
    pub price: u64,
    pub pays_every_time: bool,
    pub crank_authority: Pubkey,
}

/// The accounts of `create_filter_settings`.
#[derive(Clone, Copy, Debug, PartialEq, Eq, Structural)]
pub struct CreateFilterSettings {
    pub payer: Pubkey,
    pub filter_settings: FilterSettings,
    pub treasury_mint: Pubkey,
    pub treasury: Pubkey,
    pub crank_authority: Pubkey,
    pub filter_mint: Pubkey,
    pub system_program: Pubkey,
}

/// The accounts of `request_fuse`; the request account's address and its record.
#[derive(Clone, Debug)]
pub struct RequestFuse {
    pub payer: Pubkey,
    pub mint: Pubkey,
    pub filter: Pubkey,
    pub fuse_request_address: Pubkey,
    pub fuse_request: FuseRequest,
    pub system_program: Pubkey,
    pub token_program: Pubkey,
}

/// The accounts of `fulfill_fuse_request`.
#[derive(Clone, Debug)]
pub struct FulfillFuseRequest {
    pub mint: Pubkey,
    pub fuse_request_address: Pubkey,
    pub fuse_request: FuseRequest,
    pub claimer: Pubkey,
    pub requester: Pubkey,
    pub token_program: Pubkey,
}

/// The accounts of `create_fused_metadata`, with the mint's supply and the base metadata
/// account's data.
#[derive(Clone, Debug)]
pub struct MintNFT {
    pub filter_mint: Pubkey,
    pub fuse_request_address: Pubkey,
    pub fuse_request: FuseRequest,
    pub filter_settings: FilterSettings,
    pub fuse_creator: Pubkey,
    pub payer: Pubkey,
    pub base_metadata: Pubkey,
    pub base_metadata_data: Vec<u8>,
    pub metadata: Pubkey,
    pub mint: Pubkey,
    pub mint_supply: u64,
    pub mint_authority: Pubkey,
    pub update_authority: Pubkey,
    pub master_edition: Pubkey,
    pub token_metadata_program: Pubkey,
    pub token_program: Pubkey,
    pub system_program: Pubkey,
    pub rent: Pubkey,
    pub clock: Pubkey,
}

/// The accounts of `entangle_base_and_fused`.
#[derive(Clone, Copy, Debug, PartialEq, Eq, Structural)]
pub struct EntangleComponents {
    pub filter_mint: Pubkey,
    pub fuse_request: Pubkey,
    pub filter_settings: Pubkey,
    pub payer: Pubkey,
    pub treasury_mint: Pubkey,
    pub transfer_authority: Pubkey,
    pub authority: Pubkey,
    pub mint_original: Pubkey,
    pub metadata_original: Pubkey,
    pub edition_original: Pubkey,
    pub mint_filtered: Pubkey,
    pub metadata_filtered: Pubkey,
    pub edition_filtered: Pubkey,
    pub token_b: Pubkey,
    pub token_a_escrow: Pubkey,
    pub token_b_escrow: Pubkey,
    pub entangled_pair: Pubkey,
    pub reverse_entangled_pair: Pubkey,
    pub token_program: Pubkey,
    pub system_program: Pubkey,
    pub rent: Pubkey,
}

// ---------------------------------------------------------------- filter settings

/// The settings record the filter's mint, crank authority, treasury mint and treasury, the
/// price and whether it is paid every time; its bump is kept.
pub open spec fn filter_settings_created(old: FilterSettings, ctx: CreateFilterSettings, price: u64, pays_every_time: bool) -> FilterSettings {
    FilterSettings {
        filter_mint: ctx.filter_mint,
        crank_authority: ctx.crank_authority,
        treasury_mint: ctx.treasury_mint,
        treasury_address: ctx.treasury,
        pays_every_time,
        price,
        ..old
    }
}

pub fn create_filter_settings(ctx: &mut CreateFilterSettings, price: u64, pays_every_time: bool) -> (r: Result<
    (),
    ProgramError,
>)
    ensures
        r is Ok,
        *final(ctx) == (CreateFilterSettings {
            filter_settings: filter_settings_created(old(ctx).filter_settings, *old(ctx), price, pays_every_time),
            ..*old(ctx)
        }),
{
    ctx.filter_settings.filter_mint = ctx.filter_mint;
    ctx.filter_settings.crank_authority = ctx.crank_authority;
    ctx.filter_settings.treasury_mint = ctx.treasury_mint;
    ctx.filter_settings.treasury_address = ctx.treasury;
    ctx.filter_settings.pays_every_time = pays_every_time;
    ctx.filter_settings.price = price;
    Ok(())
}

// ---------------------------------------------------------------- fuse requests

/// The token transfer from `source` to `destination`, signed by `authority`.
pub open spec fn transfer_ix(tp: Pubkey, source: Pubkey, destination: Pubkey, authority: Pubkey, amount: u64) -> InstructionView {
    InstructionView {
        program_id: tp,
        accounts: seq![meta(source, false, true), meta(destination, false, true), meta(authority, true, false)],
        data: seq![3u8] + spec_u64_to_le_bytes(amount),
    }
}

/// The request after `request_fuse`: it names the mint and the payer as requester, is not
/// completed, and holds the crank authority, bump and bounty.
pub open spec fn fuse_requested(old: FuseRequestView, mint: Pubkey, payer: Pubkey, crank_authority: Pubkey, bump: u8, bounty_amount: u64) -> FuseRequestView {
    FuseRequestView {
        mint,
        requester: payer,
        completed: false,
        crank_authority,
        bump,
        bounty_amount,
        ..old
    }
}

/// A payer requests a fuse of a mint, paying the bounty into the request account; gives the
/// transfer to invoke (an incorrect program id unless the token program is given).
pub fn request_fuse(ctx: &mut RequestFuse, bump: u8, crank_authority: Pubkey, bounty_amount: u64) -> (r: Result<
    Effect,
    ProgramError,
>)
    ensures
        match r {
            Ok(e) => old(ctx).token_program == spl_token_program_id() && e@ == invoke_view(
                transfer_ix(
                    old(ctx).token_program,
                    old(ctx).payer,
                    old(ctx).fuse_request_address,
                    old(ctx).payer,
                    bounty_amount,
                ),
                Seq::empty(),
                None,
            ) && final(ctx).fuse_request@ == fuse_requested(
                old(ctx).fuse_request@,
                old(ctx).mint,
                old(ctx).payer,
                crank_authority,
                bump,
                bounty_amount,
            ) && final(ctx).payer == old(ctx).payer && final(ctx).mint == old(ctx).mint && final(ctx).filter
                == old(ctx).filter && final(ctx).fuse_request_address == old(ctx).fuse_request_address
                && final(ctx).system_program == old(ctx).system_program && final(ctx).token_program
                == old(ctx).token_program,
            Err(e) => old(ctx).token_program != spl_token_program_id() && e == ProgramError::IncorrectProgramId,
        },
{
    ctx.fuse_request.mint = ctx.mint;
    ctx.fuse_request.requester = ctx.payer;
    ctx.fuse_request.completed = false;
    ctx.fuse_request.crank_authority = crank_authority;
    ctx.fuse_request.bump = bump;
    let ix = token_transfer(&ctx.token_program, &ctx.payer, &ctx.fuse_request_address, &ctx.payer, bounty_amount)?;
    ctx.fuse_request.bounty_amount = bounty_amount;
    let seeds: Vec<Vec<Vec<u8>>> = Vec::new();
    assert(seeds.deep_view() =~= Seq::<Seq<Seq<u8>>>::empty());
    Ok(Effect::Invoke { instruction: ix, signer_seeds: seeds, failure: None })
}

/// The seeds with which the request account signs: prefix, mint, requester and bump.
pub open spec fn fuse_request_signer_seeds(mint: Pubkey, requester: Pubkey, bump: u8) -> Seq<Seq<u8>> {
    seq![fuse_info_prefix(), mint.bytes(), requester.bytes(), seq![bump]]
}

/// The request after it is fulfilled: the fused token's URI, name and symbol are recorded, and
/// it is completed.
pub open spec fn fuse_fulfilled(old: FuseRequestView, uri: Seq<u8>, name: Seq<u8>, symbol: Seq<u8>) -> FuseRequestView {
    FuseRequestView { uri, name, symbol, completed: true, ..old }
}

/// The crank authority fulfils a request, recording the fused token's URI, name and symbol, and
/// claims the bounty from the request account; gives the transfer to invoke.
pub fn fulfill_fuse_request(ctx: &mut FulfillFuseRequest, uri: Vec<u8>, name: Vec<u8>, symbol: Vec<u8>) -> (r: Result<
    Effect,
    ProgramError,
>)
    ensures
        match r {
            Ok(e) => old(ctx).token_program == spl_token_program_id() && e@ == invoke_view(
                transfer_ix(
                    old(ctx).token_program,
                    old(ctx).fuse_request_address,
                    old(ctx).claimer,
                    old(ctx).claimer,
                    old(ctx).fuse_request.bounty_amount,
                ),
                seq![fuse_request_signer_seeds(old(ctx).mint, old(ctx).requester, old(ctx).fuse_request.bump)],
                None,
            ) && final(ctx).fuse_request@ == fuse_fulfilled(old(ctx).fuse_request@, uri@, name@, symbol@)
                && final(ctx).mint == old(ctx).mint && final(ctx).fuse_request_address == old(
                ctx,
            ).fuse_request_address && final(ctx).claimer == old(ctx).claimer && final(ctx).requester == old(
                ctx,
            ).requester && final(ctx).token_program == old(ctx).token_program,
            Err(e) => old(ctx).token_program != spl_token_program_id() && e == ProgramError::IncorrectProgramId,
        },
{
    ctx.fuse_request.uri = uri;
    ctx.fuse_request.name = name;
    ctx.fuse_request.symbol = symbol;
    let (a, b, c, d) = (fuse_info_prefix_bytes(), ctx.mint.to_bytes(), ctx.requester.to_bytes(), vec![ctx.fuse_request.bump]);
    proof {
        lemma_byte_vec_deep_view(a);
        lemma_byte_vec_deep_view(b);
        lemma_byte_vec_deep_view(c);
        lemma_byte_vec_deep_view(d);
    }
    assert(d@ =~= seq![ctx.fuse_request.bump]);
    let seeds = vec![a, b, c, d];
    let ghost sv = seeds.deep_view();
    assert(sv[3] == seq![ctx.fuse_request.bump]);
    assert(sv =~= fuse_request_signer_seeds(ctx.mint, ctx.requester, ctx.fuse_request.bump));
    let ix = token_transfer(
        &ctx.token_program,
        &ctx.fuse_request_address,
        &ctx.claimer,
        &ctx.claimer,
        ctx.fuse_request.bounty_amount,
    )?;
    let all = vec![seeds];
    assert(all.deep_view() =~= seq![sv]);
    ctx.fuse_request.completed = true;
    Ok(Effect::Invoke { instruction: ix, signer_seeds: all, failure: None })
}

// ---------------------------------------------------------------- fused metadata

/// The system program: 32 zero bytes.
pub open spec fn system_program_id() -> Pubkey {
    Pubkey { w0: 0, w1: 0, w2: 0, w3: 0 }
}

/// The metadata program's instruction that creates metadata (tag 16): metadata writable, mint,
/// mint authority signing, payer signing and writable, update authority (signing when asked),
/// system program, rent sysvar; data is the tag, the creation arguments and the mutable flag.
pub open spec fn create_metadata_v2_ix(
    program: Pubkey,
    metadata: Pubkey,
    mint: Pubkey,
    mint_authority: Pubkey,
    payer: Pubkey,
    update_authority: Pubkey,
    data: DataView,
    update_authority_is_signer: bool,
    is_mutable: bool,
) -> InstructionView {
    InstructionView {
        program_id: program,
        accounts: seq![
            meta(metadata, false, true),
            meta(mint, false, false),
            meta(mint_authority, true, false),
            meta(payer, true, true),
            meta(update_authority, update_authority_is_signer, false),
            meta(system_program_id(), false, false),
            meta(rent_sysvar_id(), false, false),
        ],
        data: seq![16u8] + en_data(data) + en_opt_collection(None) + en_opt_uses(None) + en_bool(is_mutable),
    }
}

/// The metadata program's instruction that creates a master edition (tag 17): edition and mint
/// writable, update and mint authorities signing, payer signing and writable, metadata
/// writable, token program, system program, rent sysvar; data is the tag and the supply limit.
pub open spec fn create_master_edition_v3_ix(
    program: Pubkey,
    edition: Pubkey,
    mint: Pubkey,
    update_authority: Pubkey,
    mint_authority: Pubkey,
    metadata: Pubkey,
    payer: Pubkey,
    max_supply: u64,
) -> InstructionView {
    InstructionView {
        program_id: program,
        accounts: seq![
            meta(edition, false, true),
            meta(mint, false, true),
            meta(update_authority, true, false),
            meta(mint_authority, true, false),
            meta(payer, true, true),
            meta(metadata, false, true),
            meta(spl_token_program_id(), false, false),
            meta(system_program_id(), false, false),
            meta(rent_sysvar_id(), false, false),
        ],
        data: seq![17u8, 1u8] + spec_u64_to_le_bytes(max_supply),
    }
}

/// The fused token's descriptive fields: the request's name, symbol and URI with the base
/// token's creators and seller fee.
pub open spec fn fused_data(fr: FuseRequestView, base: DataView) -> DataView {
    DataView {
        name: fr.name,
        symbol: fr.symbol,
        uri: fr.uri,
        seller_fee_basis_points: base.seller_fee_basis_points,
        creators: base.creators,
    }
}

/// Creating the fused token's metadata: exactly one token of the mint must have been minted; its
/// minting authority moves to the request account, then the metadata program creates the metadata (the request
/// account signing as mint and update authority, with the base token's creators and fee) and a
/// master edition with a supply limit of one.
pub open spec fn create_fused_metadata_spec(ctx: MintNFT) -> Result<Seq<EffectView>, ProgramError> {
    let fr = ctx.fuse_request@;
    if ctx.mint_supply != 1 {
        Err(ProgramError::Custom(fuse_error_code(FuseError::MintSupplyIncorrect)))
    } else if ctx.token_program != spl_token_program_id() {
        Err(ProgramError::IncorrectProgramId)
    } else {
        match metadata_of_data(ctx.base_metadata_data@) {
            None => Err(merr(MetadataError::DataTypeMismatch)),
            Some(base) => {
                let d = fused_data(fr, base.data);
                if !data_encodable(d) {
                    Err(ProgramError::Aborted)
                } else {
                    Ok(
                        seq![
                            invoke_view(
                                set_authority_ix(ctx.token_program, ctx.mint, ctx.fuse_request_address, TokenAuthority::MintTokens, ctx.payer),
                                Seq::empty(),
                                None,
                            ),
                            invoke_view(
                                create_metadata_v2_ix(
                                    ctx.token_metadata_program,
                                    ctx.metadata,
                                    ctx.mint,
                                    ctx.fuse_request_address,
                                    ctx.payer,
                                    ctx.fuse_request_address,
                                    d,
                                    true,
                                    true,
                                ),
                                seq![seq![fuse_info_prefix(), fr.mint.bytes(), fr.requester.bytes()]],
                                None,
                            ),
                            invoke_view(
                                create_master_edition_v3_ix(
                                    ctx.token_metadata_program,
                                    ctx.master_edition,
                                    ctx.mint,
                                    ctx.fuse_request_address,
                                    ctx.fuse_request_address,
                                    ctx.metadata,
                                    ctx.payer,
                                    1,
                                ),
                                Seq::empty(),
                                None,
                            ),
                        ],
                    )
                }
            },
        }
    }
}

fn instruction_of(program_id: Pubkey, metas: Vec<AccountMeta>, data: Vec<u8>) -> (ix: Instruction)
    ensures
        ix@ == (InstructionView { program_id, accounts: metas@, data: data@ }),
{
    Instruction { program_id, accounts: metas, data }
}

pub fn create_fused_metadata(ctx: &MintNFT) -> (r: Result<Vec<Effect>, ProgramError>)
    ensures
        match r {
            Ok(v) => create_fused_metadata_spec(*ctx) == Ok::<Seq<EffectView>, ProgramError>(effects_view(v@)),
            Err(e) => create_fused_metadata_spec(*ctx) == Err::<Seq<EffectView>, ProgramError>(e),
        },
{
    if ctx.mint_supply != 1 {
        return Err(ProgramError::Custom(FuseError::MintSupplyIncorrect.code()));
    }
    let set_auth = token_set_authority(
        &ctx.token_program,
        &ctx.mint,
        &ctx.fuse_request_address,
        TokenAuthority::MintTokens,
        &ctx.payer,
    )?;
    let base = metadata_from_data(ctx.base_metadata_data.as_slice())?;
    let d = Data {
        name: ctx.fuse_request.name.clone(),
        symbol: ctx.fuse_request.symbol.clone(),
        uri: ctx.fuse_request.uri.clone(),
        seller_fee_basis_points: base.data.seller_fee_basis_points,
        creators: base.data.creators.clone(),
    };
    assert(d@ =~= fused_data(ctx.fuse_request@, base@.data));
    if d.name.len() > 0xffff_ffff || d.symbol.len() > 0xffff_ffff || d.uri.len() > 0xffff_ffff {
        return Err(ProgramError::Aborted);
    }
    let mut data: Vec<u8> = Vec::new();
    wr_u8(16, &mut data);
    wr_data(&d, &mut data);
    wr_opt_collection(None, &mut data);
    wr_opt_uses(None, &mut data);
    wr_bool(true, &mut data);
    let metas = vec![
        AccountMeta { pubkey: ctx.metadata, is_signer: false, is_writable: true },
        AccountMeta { pubkey: ctx.mint, is_signer: false, is_writable: false },
        AccountMeta { pubkey: ctx.fuse_request_address, is_signer: true, is_writable: false },
        AccountMeta { pubkey: ctx.payer, is_signer: true, is_writable: true },
        AccountMeta { pubkey: ctx.fuse_request_address, is_signer: true, is_writable: false },
        AccountMeta { pubkey: Pubkey::zero(), is_signer: false, is_writable: false },
        AccountMeta { pubkey: rent_id(), is_signer: false, is_writable: false },
    ];
    let create_md = instruction_of(ctx.token_metadata_program, metas, data);
    assert(create_md@ =~= create_metadata_v2_ix(
        ctx.token_metadata_program,
        ctx.metadata,
        ctx.mint,
        ctx.fuse_request_address,
        ctx.payer,
        ctx.fuse_request_address,
        d@,
        true,
        true,
    ));
    let (a, b, c) = (fuse_info_prefix_bytes(), ctx.fuse_request.mint.to_bytes(), ctx.fuse_request.requester.to_bytes());
    proof {
        lemma_byte_vec_deep_view(a);
        lemma_byte_vec_deep_view(b);
        lemma_byte_vec_deep_view(c);
    }
    let inner = vec![a, b, c];
    let ghost iv = inner.deep_view();
    assert(iv =~= seq![fuse_info_prefix(), ctx.fuse_request@.mint.bytes(), ctx.fuse_request@.requester.bytes()]);
    let fuse_seeds = vec![inner];
    assert(fuse_seeds.deep_view() =~= seq![iv]);
    let mut edata: Vec<u8> = vec![17u8, 1u8];
    let mut sb = vstd::bytes::u64_to_le_bytes(1);
    edata.append(&mut sb);
    let emetas = vec![
        AccountMeta { pubkey: ctx.master_edition, is_signer: false, is_writable: true },
        AccountMeta { pubkey: ctx.mint, is_signer: false, is_writable: true },
        AccountMeta { pubkey: ctx.fuse_request_address, is_signer: true, is_writable: false },
        AccountMeta { pubkey: ctx.fuse_request_address, is_signer: true, is_writable: false },
        AccountMeta { pubkey: ctx.payer, is_signer: true, is_writable: true },
        AccountMeta { pubkey: ctx.metadata, is_signer: false, is_writable: true },
        AccountMeta { pubkey: crate::ids::token_program_id(), is_signer: false, is_writable: false },
        AccountMeta { pubkey: Pubkey::zero(), is_signer: false, is_writable: false },
        AccountMeta { pubkey: rent_id(), is_signer: false, is_writable: false },
    ];
    let create_me = instruction_of(ctx.token_metadata_program, emetas, edata);
    assert(create_me@ =~= create_master_edition_v3_ix(
        ctx.token_metadata_program,
        ctx.master_edition,
        ctx.mint,
        ctx.fuse_request_address,
        ctx.fuse_request_address,
        ctx.metadata,
        ctx.payer,
        1,
    ));
    let no1: Vec<Vec<Vec<u8>>> = Vec::new();
    let no2: Vec<Vec<Vec<u8>>> = Vec::new();
    assert(no1.deep_view() =~= Seq::<Seq<Seq<u8>>>::empty());
    assert(no2.deep_view() =~= Seq::<Seq<Seq<u8>>>::empty());
    let v = vec![
        Effect::Invoke { instruction: set_auth, signer_seeds: no1, failure: None },
        Effect::Invoke { instruction: create_md, signer_seeds: fuse_seeds, failure: None },
        Effect::Invoke { instruction: create_me, signer_seeds: no2, failure: None },
    ];
    assert(effects_view(v@) =~= seq![v@[0]@, v@[1]@, v@[2]@]);
    Ok(v)
}

/// Entangling the base and fused tokens does nothing yet.
pub fn entangle_base_and_fused(ctx: &EntangleComponents) -> (r: Result<(), ProgramError>)
    ensures
        r is Ok,
{
    Ok(())
}

} // verus!
