//! Master editions and prints: creating a master edition, converting the old layout, and
//! printing new editions (through the holder's token or a vault).

use crate::account::{accounts_view, effects_view, no_effects, outcome_view, push_effect, single, single_effect, write_account, write_effect, AccountInfo, AccountView, Effect, EffectView};
use crate::burn_ix::{edition_marker_seeds, edition_taken, index_and_mask, make_edition_marker_seeds, toggle_edition, toggled};
use crate::checks::{assert_derivation, assert_initialized_mint, assert_initialized_token_account, assert_mint_authority_matches_mint, assert_owned_by, assert_update_authority_is_correct, chk_derivation, chk_find_address, chk_initialized_mint, chk_initialized_token_account, chk_master_max_supply_field, chk_master_supply_field, chk_mint_authority, chk_mint_authority_field, chk_mint_freeze_authority_field, chk_mint_supply, chk_update_authority, find_address, get_master_max_supply, get_master_supply, get_mint_authority, get_mint_freeze_authority, get_mint_supply};
use crate::codec::metadata_of_data;
use crate::collection_ix::{push_bump, with_bump};
use crate::cpi::{set_authority_effect, spl_token_set_authority};
use crate::create_ix::{create_metadata_logic, process_create_metadata_accounts_logic, CreateIndices};
use crate::decode::metadata_from_data;
use crate::encode::{metadata_write, write_metadata};
use crate::error::{merr, to_program_error, MetadataError, ProgramError, VaultError};
use crate::ids::{lemma_byte_vec_deep_view, spl_token_program_id, token_program_id};
use crate::outside::TokenAuthority;
use crate::pubkey::Pubkey;
use crate::records::{edition_marker_from_data, edition_marker_of_data, en_edition_marker, en_master_edition_v2, encode_edition_marker, encode_master_edition_v2, master_edition_v1_from_data, master_edition_v1_of_data};
use crate::rules::{edition_seeds, make_edition_seeds};
use crate::state::{DataV2, DataV2View, EditionMarker, Key, MasterEditionV2, Metadata, MetadataView, TokenStandard, Uses, MAX_EDITION_LEN, MAX_EDITION_MARKER_SIZE, MAX_MASTER_EDITION_LEN};
use vstd::bytes::{spec_u64_to_le_bytes, u64_to_le_bytes};
use vstd::prelude::*;

verus! {

// ---------------------------------------------------------------- create master edition

/// The mint's update authority and mint authority turn a one-token, no-decimal mint into a
/// master edition: the edition account is created at its derived address, the record is
/// written, the metadata (when writable) is marked non-fungible, and the mint's minting and
/// freezing authorities move to the edition.
pub open spec fn create_master_edition_spec(program_id: Pubkey, accs: Seq<AccountView>, max_supply: Option<u64>) -> Result<
    Seq<EffectView>,
    ProgramError,
> {
    if accs.len() < 8 {
        Err(ProgramError::NotEnoughAccountKeys)
    } else {
        let (ed, mint_info, ua, mint_auth, mi, tp) = (accs[0], accs[1], accs[2], accs[3], accs[5], accs[6]);
        match metadata_of_data(mi.data) {
            None => Err(merr(MetadataError::DataTypeMismatch)),
            Some(m) => match chk_initialized_mint(mint_info) {
                Err(e) => Err(e),
                Ok(mint) => {
                    let seeds = edition_seeds(program_id, mint_info.key);
                    match chk_derivation(program_id, ed, seeds) {
                        Err(e) => Err(e),
                        Ok(bump) => if tp.key != spl_token_program_id() {
                            Err(merr(MetadataError::InvalidTokenProgram))
                        } else {
                            match chk_mint_authority(mint.mint_authority, mint_auth) {
                                Err(e) => Err(e),
                                Ok(_) => if mi.owner != program_id {
                                    Err(merr(MetadataError::IncorrectOwner))
                                } else if mint_info.owner != spl_token_program_id() {
                                    Err(merr(MetadataError::IncorrectOwner))
                                } else if m.mint != mint_info.key {
                                    Err(merr(MetadataError::MintMismatch))
                                } else if mint.decimals != 0 {
                                    Err(merr(MetadataError::EditionMintDecimalsShouldBeZero))
                                } else {
                                    match chk_update_authority(m, ua) {
                                        Err(e) => Err(e),
                                        Ok(_) => if mint.supply != 1 {
                                            Err(merr(MetadataError::EditionsMustHaveExactlyOneToken))
                                        } else {
                                            let create = EffectView::CreateAccount {
                                                account: 0,
                                                payer: 4,
                                                system: 7,
                                                size: MAX_MASTER_EDITION_LEN,
                                                seeds: with_bump(seeds, bump),
                                            };
                                            let record = EffectView::Write {
                                                account: 0,
                                                bytes: en_master_edition_v2(
                                                    MasterEditionV2 { key: Key::MasterEditionV2, supply: 0, max_supply },
                                                ),
                                                clean: false,
                                            };
                                            let meta: Result<Seq<EffectView>, ProgramError> = if mi.is_writable {
                                                match metadata_write(
                                                    5,
                                                    mi,
                                                    MetadataView { token_standard: Some(TokenStandard::NonFungible), ..m },
                                                    false,
                                                ) {
                                                    Err(e) => Err(e),
                                                    Ok(w) => Ok(seq![w]),
                                                }
                                            } else {
                                                Ok(Seq::empty())
                                            };
                                            match meta {
                                                Err(e) => Err(e),
                                                Ok(mw) => match mint_authority_moved(tp.key, mint_info.key, ed.key, mint_auth.key, mint.freeze_authority) {
                                                    Err(e) => Err(e),
                                                    Ok(moved) => Ok(seq![create, record] + mw + moved),
                                                },
                                            }
                                        },
                                    }
                                },
                            }
                        },
                    }
                },
            },
        }
    }
}

/// Moving a mint's minting authority, and its freezing authority when it has one, to `edition`.
pub open spec fn mint_authority_moved(tp: Pubkey, mint: Pubkey, edition: Pubkey, current: Pubkey, freeze: Option<Pubkey>) -> Result<
    Seq<EffectView>,
    ProgramError,
> {
    match set_authority_effect(tp, mint, edition, TokenAuthority::MintTokens, current) {
        Err(e) => Err(e),
        Ok(a) => if freeze is Some {
            match set_authority_effect(tp, mint, edition, TokenAuthority::FreezeAccount, current) {
                Err(e) => Err(e),
                Ok(b) => Ok(seq![a, b]),
            }
        } else {
            Ok(seq![a])
        },
    }
}

pub fn transfer_mint_authority(tp: &Pubkey, mint: &Pubkey, edition: &Pubkey, current: &Pubkey, freeze: Option<Pubkey>) -> (r: Result<
    Vec<Effect>,
    ProgramError,
>)
    ensures
        outcome_view(r) == mint_authority_moved(*tp, *mint, *edition, *current, freeze),
{
    let a = spl_token_set_authority(tp, mint, edition, TokenAuthority::MintTokens, current)?;
    if freeze.is_some() {
        let b = spl_token_set_authority(tp, mint, edition, TokenAuthority::FreezeAccount, current)?;
        let v = vec![a, b];
        assert(effects_view(v@) =~= seq![v@[0]@, v@[1]@]);
        Ok(v)
    } else {
        let v = vec![a];
        assert(effects_view(v@) =~= seq![v@[0]@]);
        Ok(v)
    }
}

pub fn process_create_master_edition(program_id: &Pubkey, accounts: &Vec<AccountInfo>, max_supply: Option<u64>) -> (r: Result<
    Vec<Effect>,
    ProgramError,
>)
    ensures
        outcome_view(r) == create_master_edition_spec(*program_id, accounts_view(accounts@), max_supply),
{
    if accounts.len() < 8 {
        return Err(ProgramError::NotEnoughAccountKeys);
    }
    let (ed, mint_info, ua, mint_auth, mi, tp) = (&accounts[0], &accounts[1], &accounts[2], &accounts[3], &accounts[5], &accounts[6]);
    let m = metadata_from_data(mi.data.as_slice())?;
    let mint = assert_initialized_mint(mint_info)?;
    let mut seeds = make_edition_seeds(program_id, &mint_info.key);
    let bump = assert_derivation(program_id, ed, &seeds)?;
    if tp.key != token_program_id() {
        return Err(to_program_error(MetadataError::InvalidTokenProgram));
    }
    assert_mint_authority_matches_mint(&mint.mint_authority, mint_auth)?;
    assert_owned_by(mi, program_id)?;
    assert_owned_by(mint_info, &token_program_id())?;
    if m.mint != mint_info.key {
        return Err(to_program_error(MetadataError::MintMismatch));
    }
    if mint.decimals != 0 {
        return Err(to_program_error(MetadataError::EditionMintDecimalsShouldBeZero));
    }
    assert_update_authority_is_correct(&m, ua)?;
    if mint.supply != 1 {
        return Err(to_program_error(MetadataError::EditionsMustHaveExactlyOneToken));
    }
    push_bump(&mut seeds, bump);
    let me = MasterEditionV2 { key: Key::MasterEditionV2, supply: 0, max_supply };
    let mut out = vec![
        Effect::CreateAccount { account: 0, payer: 4, system: 7, size: MAX_MASTER_EDITION_LEN, seeds },
        Effect::Write { account: 0, bytes: encode_master_edition_v2(&me), clean: false },
    ];
    let ghost base = effects_view(out@);
    assert(base =~= seq![out@[0]@, out@[1]@]);
    let ghost mw: Seq<EffectView> = Seq::empty();
    if mi.is_writable {
        let mut n = m.copy();
        n.token_standard = Some(TokenStandard::NonFungible);
        let w = write_metadata(5, mi, &n, false)?;
        proof {
            mw = seq![w@];
        }
        push_effect(&mut out, w);
    }
    assert(effects_view(out@) =~= base + mw);
    let ghost mid = effects_view(out@);
    let mut moved = transfer_mint_authority(&tp.key, &mint_info.key, &ed.key, &mint_auth.key, mint.freeze_authority)?;
    let ghost mv = effects_view(moved@);
    out.append(&mut moved);
    assert(effects_view(out@) =~= mid + mv);
    Ok(out)
}

// ---------------------------------------------------------------- convert old layout

/// A master edition in the old layout whose printing and one-time authorization mints have no
/// supply left is rewritten in the current layout.
pub open spec fn convert_master_edition_v1_to_v2_spec(program_id: Pubkey, accs: Seq<AccountView>) -> Result<
    Seq<EffectView>,
    ProgramError,
> {
    if accs.len() < 3 {
        Err(ProgramError::NotEnoughAccountKeys)
    } else {
        let (me, auth_mint_info, printing_mint_info) = (accs[0], accs[1], accs[2]);
        if me.owner != program_id {
            Err(merr(MetadataError::IncorrectOwner))
        } else if auth_mint_info.owner != spl_token_program_id() || printing_mint_info.owner
            != spl_token_program_id() {
            Err(merr(MetadataError::IncorrectOwner))
        } else {
            match master_edition_v1_of_data(me.data) {
                None => Err(merr(MetadataError::DataTypeMismatch)),
                Some(v1) => match chk_initialized_mint(printing_mint_info) {
                    Err(e) => Err(e),
                    Ok(printing) => match chk_initialized_mint(auth_mint_info) {
                        Err(e) => Err(e),
                        Ok(auth) => if v1.one_time_printing_authorization_mint != auth_mint_info.key {
                            Err(merr(MetadataError::OneTimePrintingAuthMintMismatch))
                        } else if v1.printing_mint != printing_mint_info.key {
                            Err(merr(MetadataError::PrintingMintMismatch))
                        } else if printing.supply != 0 {
                            Err(merr(MetadataError::PrintingMintSupplyMustBeZeroForConversion))
                        } else if auth.supply != 0 {
                            Err(merr(MetadataError::OneTimeAuthMintSupplyMustBeZeroForConversion))
                        } else {
                            single(
                                write_effect(
                                    0,
                                    me.data.len(),
                                    en_master_edition_v2(
                                        MasterEditionV2 {
                                            key: Key::MasterEditionV2,
                                            supply: v1.supply,
                                            max_supply: v1.max_supply,
                                        },
                                    ),
                                    false,
                                ),
                            )
                        },
                    },
                },
            }
        }
    }
}

pub fn process_convert_master_edition_v1_to_v2(program_id: &Pubkey, accounts: &Vec<AccountInfo>) -> (r: Result<
    Vec<Effect>,
    ProgramError,
>)
    ensures
        outcome_view(r) == convert_master_edition_v1_to_v2_spec(*program_id, accounts_view(accounts@)),
{
    if accounts.len() < 3 {
        return Err(ProgramError::NotEnoughAccountKeys);
    }
    let (me, auth_mint_info, printing_mint_info) = (&accounts[0], &accounts[1], &accounts[2]);
    assert_owned_by(me, program_id)?;
    let spl = token_program_id();
    if auth_mint_info.owner != spl || printing_mint_info.owner != spl {
        return Err(to_program_error(MetadataError::IncorrectOwner));
    }
    let v1 = master_edition_v1_from_data(me.data.as_slice())?;
    let printing = assert_initialized_mint(printing_mint_info)?;
    let auth = assert_initialized_mint(auth_mint_info)?;
    if v1.one_time_printing_authorization_mint != auth_mint_info.key {
        return Err(to_program_error(MetadataError::OneTimePrintingAuthMintMismatch));
    }
    if v1.printing_mint != printing_mint_info.key {
        return Err(to_program_error(MetadataError::PrintingMintMismatch));
    }
    if printing.supply != 0 {
        return Err(to_program_error(MetadataError::PrintingMintSupplyMustBeZeroForConversion));
    }
    if auth.supply != 0 {
        return Err(to_program_error(MetadataError::OneTimeAuthMintSupplyMustBeZeroForConversion));
    }
    let v2 = MasterEditionV2 { key: Key::MasterEditionV2, supply: v1.supply, max_supply: v1.max_supply };
    single_effect(write_account(0, me.data.len(), encode_master_edition_v2(&v2), false))
}

// ---------------------------------------------------------------- print a new edition

/// Where the accounts of a print stand in the instruction's account list.
#[derive(Clone, Copy, Debug, PartialEq, Eq, Structural)]
pub struct PrintIndices {
    pub new_metadata: usize,
    pub new_edition: usize,
    pub master_edition: usize,
    pub mint: usize,
    pub edition_marker: usize,
    pub mint_authority: usize,
    pub payer: usize,
    pub owner: usize,
    pub token: usize,
    pub update_authority: usize,
    pub master_metadata: usize,
    pub token_program: usize,
    pub system: usize,
}

/// All indices stand within the account list.
pub open spec fn print_indices_in(ix: PrintIndices, n: nat) -> bool {
    &&& ix.new_metadata < n
    &&& ix.new_edition < n
    &&& ix.master_edition < n
    &&& ix.mint < n
    &&& ix.edition_marker < n
    &&& ix.mint_authority < n
    &&& ix.payer < n
    &&& ix.owner < n
    &&& ix.token < n
    &&& ix.update_authority < n
    &&& ix.master_metadata < n
    &&& ix.token_program < n
    &&& ix.system < n
}

/// The edition marker records the new edition: created (empty) at its derived address when
/// missing, refused when the edition is already recorded, written back with its bit set.
pub open spec fn marker_recorded(program_id: Pubkey, accs: Seq<AccountView>, ix: PrintIndices, master_mint: Pubkey, edition: u64) -> Result<
    Seq<EffectView>,
    ProgramError,
> {
    let marker = accs[ix.edition_marker as int];
    let seeds = edition_marker_seeds(program_id, master_mint, edition);
    match chk_derivation(program_id, marker, seeds) {
        Err(e) => Err(e),
        Ok(bump) => {
            let created = marker.data.len() == 0;
            let data = if created {
                Seq::new(MAX_EDITION_MARKER_SIZE as nat, |i: int| 0u8)
            } else {
                marker.data
            };
            let pre = if created {
                seq![
                    EffectView::CreateAccount {
                        account: ix.edition_marker,
                        payer: ix.payer,
                        system: ix.system,
                        size: MAX_EDITION_MARKER_SIZE,
                        seeds: with_bump(seeds, bump),
                    },
                ]
            } else {
                Seq::empty()
            };
            match edition_marker_of_data(data) {
                None => Err(merr(MetadataError::DataTypeMismatch)),
                Some((_, ledger)) => if edition_taken(ledger, edition) {
                    Err(merr(MetadataError::AlreadyInitialized))
                } else {
                    match write_effect(
                        ix.edition_marker as int,
                        data.len(),
                        en_edition_marker(Key::EditionMarker, toggled(ledger, edition)),
                        false,
                    ) {
                        Err(e) => Err(e),
                        Ok(w) => Ok(pre + seq![w]),
                    }
                },
            }
        },
    }
}

/// The master's data as the print's creation arguments: same data and collection, uses reset to
/// their total.
pub open spec fn print_data(mm: MetadataView) -> DataV2View {
    DataV2View {
        data: mm.data,
        collection: mm.collection,
        uses: match mm.uses {
            Some(u) => Some(Uses { remaining: u.total, ..u }),
            None => None,
        },
    }
}

/// The print edition record: key, parent master edition and edition number.
pub open spec fn en_print_edition(parent: Pubkey, edition: u64) -> Seq<u8> {
    seq![1u8] + parent.bytes() + spec_u64_to_le_bytes(edition)
}

/// The master edition's new supply: the larger of the edition and the old supply, within the
/// supply limit; the edition number must not be zero.
pub open spec fn supply_change(i: int, me: AccountView, edition: u64, me_supply: u64) -> Result<EffectView, ProgramError> {
    if edition == 0 {
        Err(merr(MetadataError::EditionOverrideCannotBeZero))
    } else {
        let new_supply = if edition > me_supply {
            edition
        } else {
            me_supply
        };
        match chk_master_max_supply_field(me) {
            Err(e) => Err(e),
            Ok(max) => if (max matches Some(x) && new_supply > x) {
                Err(merr(MetadataError::MaxEditionsMintedAlready))
            } else if me.data.len() < MAX_MASTER_EDITION_LEN {
                Err(ProgramError::Aborted)
            } else {
                Ok(EffectView::Write {
                    account: i as usize,
                    bytes: seq![me.data[0]] + spec_u64_to_le_bytes(new_supply),
                    clean: false,
                })
            },
        }
    }
}

/// The print itself: the mint (of one token, signed for by its authority) gets metadata copied
/// from the master and an edition record naming the master, its authorities move to the new
/// edition, and the master's supply is updated.
pub open spec fn limited_edition_minted(program_id: Pubkey, accs: Seq<AccountView>, ix: PrintIndices, mm: MetadataView, edition: u64) -> Result<
    Seq<EffectView>,
    ProgramError,
> {
    let (me, mint, mint_auth, new_ed, tp) = (
        accs[ix.master_edition as int],
        accs[ix.mint as int],
        accs[ix.mint_authority as int],
        accs[ix.new_edition as int],
        accs[ix.token_program as int],
    );
    match chk_master_supply_field(me) {
        Err(e) => Err(e),
        Ok(me_supply) => match chk_mint_authority_field(mint) {
            Err(e) => Err(e),
            Ok(auth) => match chk_mint_supply(mint) {
                Err(e) => Err(e),
                Ok(mint_supply) => match chk_mint_authority(auth, mint_auth) {
                    Err(e) => Err(e),
                    Ok(_) => match chk_find_address(edition_seeds(program_id, mm.mint), program_id) {
                        Err(e) => Err(e),
                        Ok((master_key, _)) => if master_key != me.key {
                            Err(merr(MetadataError::InvalidEditionKey))
                        } else {
                            match chk_find_address(edition_seeds(program_id, mint.key), program_id) {
                                Err(e) => Err(e),
                                Ok((edition_key, bump)) => if edition_key != new_ed.key {
                                    Err(merr(MetadataError::InvalidEditionKey))
                                } else if mint_supply != 1 {
                                    Err(merr(MetadataError::EditionsMustHaveExactlyOneToken))
                                } else {
                                    match create_metadata_logic(
                                        program_id,
                                        accs,
                                        CreateIndices {
                                            metadata: ix.new_metadata,
                                            mint: ix.mint,
                                            mint_authority: ix.mint_authority,
                                            payer: ix.payer,
                                            update_authority: ix.update_authority,
                                            system: ix.system,
                                        },
                                        print_data(mm),
                                        true,
                                        false,
                                        true,
                                        true,
                                        None,
                                    ) {
                                        Err(e) => Err(e),
                                        Ok(created) => match chk_mint_freeze_authority_field(mint) {
                                            Err(e) => Err(e),
                                            Ok(freeze) => match mint_authority_moved(tp.key, mint.key, edition_key, mint_auth.key, freeze) {
                                                Err(e) => Err(e),
                                                Ok(moved) => match supply_change(ix.master_edition as int, me, edition, me_supply) {
                                                    Err(e) => Err(e),
                                                    Ok(sc) => Ok(
                                                        created + seq![
                                                            EffectView::CreateAccount {
                                                                account: ix.new_edition,
                                                                payer: ix.payer,
                                                                system: ix.system,
                                                                size: MAX_EDITION_LEN,
                                                                seeds: with_bump(edition_seeds(program_id, mint.key), bump),
                                                            },
                                                            EffectView::Write {
                                                                account: ix.new_edition,
                                                                bytes: en_print_edition(me.key, edition),
                                                                clean: false,
                                                            },
                                                        ] + moved + seq![sc],
                                                    ),
                                                },
                                            },
                                        },
                                    }
                                },
                            }
                        },
                    },
                },
            },
        },
    }
}

/// Printing edition `edition` of a master edition: the holder of the master's token (or, for a
/// vault, the vault's authority) asks for a fresh metadata and edition account; the edition
/// marker records the edition, then the print is minted.
pub open spec fn mint_new_edition_logic(
    program_id: Pubkey,
    accs: Seq<AccountView>,
    ix: PrintIndices,
    edition: u64,
    ignore_owner_signer: bool,
) -> Result<Seq<EffectView>, ProgramError> {
    let (new_mi, new_ed, me, mint, owner, token, mmi, tp) = (
        accs[ix.new_metadata as int],
        accs[ix.new_edition as int],
        accs[ix.master_edition as int],
        accs[ix.mint as int],
        accs[ix.owner as int],
        accs[ix.token as int],
        accs[ix.master_metadata as int],
        accs[ix.token_program as int],
    );
    if tp.key != spl_token_program_id() {
        Err(merr(MetadataError::InvalidTokenProgram))
    } else if mint.owner != spl_token_program_id() || token.owner != spl_token_program_id() {
        Err(merr(MetadataError::IncorrectOwner))
    } else if me.owner != program_id || mmi.owner != program_id {
        Err(merr(MetadataError::IncorrectOwner))
    } else {
        match metadata_of_data(mmi.data) {
            None => Err(merr(MetadataError::DataTypeMismatch)),
            Some(mm) => match chk_initialized_token_account(token) {
                Err(e) => Err(e),
                Ok(t) => if !ignore_owner_signer && !owner.is_signer {
                    Err(ProgramError::MissingRequiredSignature)
                } else if !ignore_owner_signer && t.owner != owner.key {
                    Err(merr(MetadataError::InvalidOwner))
                } else if t.mint != mm.mint {
                    Err(merr(MetadataError::TokenAccountMintMismatchV2))
                } else if t.amount < 1 {
                    Err(merr(MetadataError::NotEnoughTokens))
                } else if new_mi.data.len() != 0 || new_ed.data.len() != 0 {
                    Err(merr(MetadataError::AlreadyInitialized))
                } else {
                    match marker_recorded(program_id, accs, ix, mm.mint, edition) {
                        Err(e) => Err(e),
                        Ok(pre) => match limited_edition_minted(program_id, accs, ix, mm, edition) {
                            Err(e) => Err(e),
                            Ok(rest) => Ok(pre + rest),
                        },
                    }
                },
            },
        }
    }
}

fn record_in_marker(program_id: &Pubkey, accounts: &Vec<AccountInfo>, ix: PrintIndices, master_mint: &Pubkey, edition: u64) -> (r: Result<
    Vec<Effect>,
    ProgramError,
>)
    requires
        print_indices_in(ix, accounts@.len()),
    ensures
        outcome_view(r) == marker_recorded(*program_id, accounts_view(accounts@), ix, *master_mint, edition),
{
    let marker = &accounts[ix.edition_marker];
    let mut seeds = make_edition_marker_seeds(program_id, master_mint, edition);
    let bump = assert_derivation(program_id, marker, &seeds)?;
    let created = marker.data.len() == 0;
    let mut out = no_effects();
    let data: Vec<u8> = if created {
        push_bump(&mut seeds, bump);
        push_effect(
            &mut out,
            Effect::CreateAccount { account: ix.edition_marker, payer: ix.payer, system: ix.system, size: MAX_EDITION_MARKER_SIZE, seeds },
        );
        let z = vec![0u8; MAX_EDITION_MARKER_SIZE];
        assert(z@ =~= Seq::new(MAX_EDITION_MARKER_SIZE as nat, |i: int| 0u8));
        z
    } else {
        marker.data.clone()
    };
    let ghost pre = effects_view(out@);
    let mut em = edition_marker_from_data(data.as_slice())?;
    let (i, mask) = index_and_mask(edition);
    if em.ledger[i] & mask != 0 {
        return Err(to_program_error(MetadataError::AlreadyInitialized));
    }
    toggle_edition(&mut em.ledger, edition);
    em.key = Key::EditionMarker;
    let w = write_account(ix.edition_marker, data.len(), encode_edition_marker(&em), false)?;
    let ghost wv = w@;
    push_effect(&mut out, w);
    assert(effects_view(out@) =~= pre + seq![wv]);
    Ok(out)
}

fn mint_limited_edition(program_id: &Pubkey, accounts: &Vec<AccountInfo>, ix: PrintIndices, mm: &Metadata, edition: u64) -> (r: Result<
    Vec<Effect>,
    ProgramError,
>)
    requires
        print_indices_in(ix, accounts@.len()),
    ensures
        outcome_view(r) == limited_edition_minted(*program_id, accounts_view(accounts@), ix, mm@, edition),
{
    let (me, mint, mint_auth, new_ed, tp) = (
        &accounts[ix.master_edition],
        &accounts[ix.mint],
        &accounts[ix.mint_authority],
        &accounts[ix.new_edition],
        &accounts[ix.token_program],
    );
    let me_supply = get_master_supply(me)?;
    let auth = get_mint_authority(mint)?;
    let mint_supply = get_mint_supply(mint)?;
    assert_mint_authority_matches_mint(&auth, mint_auth)?;
    let ms = make_edition_seeds(program_id, &mm.mint);
    let (master_key, _) = find_address(&ms, program_id)?;
    if master_key != me.key {
        return Err(to_program_error(MetadataError::InvalidEditionKey));
    }
    let mut es = make_edition_seeds(program_id, &mint.key);
    let (edition_key, bump) = find_address(&es, program_id)?;
    if edition_key != new_ed.key {
        return Err(to_program_error(MetadataError::InvalidEditionKey));
    }
    if mint_supply != 1 {
        return Err(to_program_error(MetadataError::EditionsMustHaveExactlyOneToken));
    }
    let uses = match mm.uses {
        Some(u) => Some(Uses { use_method: u.use_method, remaining: u.total, total: u.total }),
        None => None,
    };
    let data = DataV2 {
        name: mm.data.name.clone(),
        symbol: mm.data.symbol.clone(),
        uri: mm.data.uri.clone(),
        seller_fee_basis_points: mm.data.seller_fee_basis_points,
        creators: mm.data.creators.clone(),
        collection: mm.collection,
        uses,
    };
    assert(data@ =~= print_data(mm@));
    let cix = CreateIndices {
        metadata: ix.new_metadata,
        mint: ix.mint,
        mint_authority: ix.mint_authority,
        payer: ix.payer,
        update_authority: ix.update_authority,
        system: ix.system,
    };
    let mut out = process_create_metadata_accounts_logic(program_id, accounts, cix, data, true, false, true, true, None)?;
    let ghost created = effects_view(out@);
    let freeze = get_mint_freeze_authority(mint)?;
    let mut moved = transfer_mint_authority(&tp.key, &mint.key, &edition_key, &mint_auth.key, freeze)?;
    let ghost mv = effects_view(moved@);
    if edition == 0 {
        return Err(to_program_error(MetadataError::EditionOverrideCannotBeZero));
    }
    let new_supply = if edition > me_supply {
        edition
    } else {
        me_supply
    };
    let max = get_master_max_supply(me)?;
    if let Some(x) = max {
        if new_supply > x {
            return Err(to_program_error(MetadataError::MaxEditionsMintedAlready));
        }
    }
    if me.data.len() < MAX_MASTER_EDITION_LEN {
        return Err(ProgramError::Aborted);
    }
    push_bump(&mut es, bump);
    let mut record: Vec<u8> = vec![1u8];
    me.key.write_to(&mut record);
    let mut eb = u64_to_le_bytes(edition);
    record.append(&mut eb);
    assert(record@ =~= en_print_edition(me.key, edition));
    let ce = Effect::CreateAccount { account: ix.new_edition, payer: ix.payer, system: ix.system, size: MAX_EDITION_LEN, seeds: es };
    let we = Effect::Write { account: ix.new_edition, bytes: record, clean: false };
    let ghost (cv, wv) = (ce@, we@);
    push_effect(&mut out, ce);
    push_effect(&mut out, we);
    let ghost mid = effects_view(out@);
    assert(mid =~= created + seq![cv, wv]);
    out.append(&mut moved);
    assert(effects_view(out@) =~= mid + mv);
    let mut supply_bytes: Vec<u8> = vec![me.data[0]];
    let mut sb = u64_to_le_bytes(new_supply);
    supply_bytes.append(&mut sb);
    assert(supply_bytes@ =~= seq![me@.data[0]] + spec_u64_to_le_bytes(new_supply));
    let se = Effect::Write { account: ix.master_edition, bytes: supply_bytes, clean: false };
    let ghost sv = se@;
    push_effect(&mut out, se);
    assert(effects_view(out@) =~= created + seq![cv, wv] + mv + seq![sv]);
    Ok(out)
}

pub fn process_mint_new_edition_from_master_edition_via_token_logic(
    program_id: &Pubkey,
    accounts: &Vec<AccountInfo>,
    ix: PrintIndices,
    edition: u64,
    ignore_owner_signer: bool,
) -> (r: Result<Vec<Effect>, ProgramError>)
    requires
        print_indices_in(ix, accounts@.len()),
    ensures
        outcome_view(r) == mint_new_edition_logic(*program_id, accounts_view(accounts@), ix, edition, ignore_owner_signer),
{
    let (new_mi, new_ed, me, mint, owner, token, mmi, tp) = (
        &accounts[ix.new_metadata],
        &accounts[ix.new_edition],
        &accounts[ix.master_edition],
        &accounts[ix.mint],
        &accounts[ix.owner],
        &accounts[ix.token],
        &accounts[ix.master_metadata],
        &accounts[ix.token_program],
    );
    let spl = token_program_id();
    if tp.key != spl {
        return Err(to_program_error(MetadataError::InvalidTokenProgram));
    }
    if mint.owner != spl || token.owner != spl {
        return Err(to_program_error(MetadataError::IncorrectOwner));
    }
    if me.owner != *program_id || mmi.owner != *program_id {
        return Err(to_program_error(MetadataError::IncorrectOwner));
    }
    let mm = metadata_from_data(mmi.data.as_slice())?;
    let t = assert_initialized_token_account(token)?;
    if !ignore_owner_signer {
        if !owner.is_signer {
            return Err(ProgramError::MissingRequiredSignature);
        }
        if t.owner != owner.key {
            return Err(to_program_error(MetadataError::InvalidOwner));
        }
    }
    if t.mint != mm.mint {
        return Err(to_program_error(MetadataError::TokenAccountMintMismatchV2));
    }
    if t.amount < 1 {
        return Err(to_program_error(MetadataError::NotEnoughTokens));
    }
    if new_mi.data.len() != 0 || new_ed.data.len() != 0 {
        return Err(to_program_error(MetadataError::AlreadyInitialized));
    }
    let mut out = record_in_marker(program_id, accounts, ix, &mm.mint, edition)?;
    let ghost pre = effects_view(out@);
    let mut rest = mint_limited_edition(program_id, accounts, ix, &mm, edition)?;
    let ghost rv = effects_view(rest@);
    out.append(&mut rest);
    assert(effects_view(out@) =~= pre + rv);
    Ok(out)
}

/// The indices of a print through the holder's token.
pub open spec fn via_token_indices() -> PrintIndices {
    PrintIndices {
        new_metadata: 0,
        new_edition: 1,
        master_edition: 2,
        mint: 3,
        edition_marker: 4,
        mint_authority: 5,
        payer: 6,
        owner: 7,
        token: 8,
        update_authority: 9,
        master_metadata: 10,
        token_program: 11,
        system: 12,
    }
}

/// The holder of a master edition's token prints edition `edition` (with `ignore_owner_signer`,
/// the token's owner need not sign nor own the token account).
pub open spec fn mint_new_edition_via_token_spec(
    program_id: Pubkey,
    accs: Seq<AccountView>,
    edition: u64,
    ignore_owner_signer: bool,
) -> Result<
    Seq<EffectView>,
    ProgramError,
> {
    if accs.len() < 13 {
        Err(ProgramError::NotEnoughAccountKeys)
    } else {
        mint_new_edition_logic(program_id, accs, via_token_indices(), edition, ignore_owner_signer)
    }
}

pub fn process_mint_new_edition_from_master_edition_via_token(
    program_id: &Pubkey,
    accounts: &Vec<AccountInfo>,
    edition: u64,
    ignore_owner_signer: bool,
) -> (r: Result<Vec<Effect>, ProgramError>)
    ensures
        outcome_view(r) == mint_new_edition_via_token_spec(*program_id, accounts_view(accounts@), edition, ignore_owner_signer),
{
    if accounts.len() < 13 {
        return Err(ProgramError::NotEnoughAccountKeys);
    }
    let ix = PrintIndices {
        new_metadata: 0,
        new_edition: 1,
        master_edition: 2,
        mint: 3,
        edition_marker: 4,
        mint_authority: 5,
        payer: 6,
        owner: 7,
        token: 8,
        update_authority: 9,
        master_metadata: 10,
        token_program: 11,
        system: 12,
    };
    process_mint_new_edition_from_master_edition_via_token_logic(program_id, accounts, ix, edition, ignore_owner_signer)
}

// ---------------------------------------------------------------- print through a vault

/// `vault`
pub open spec fn vault_seed() -> Seq<u8> {
    seq![118u8, 97, 117, 108, 116]
}

/// The seeds of a vault's authority address under the vault program.
pub open spec fn vault_authority_seeds(vault_program: Pubkey, vault: Pubkey) -> Seq<Seq<u8>> {
    seq![vault_seed(), vault_program.bytes(), vault.bytes()]
}

pub fn make_vault_authority_seeds(vault_program: &Pubkey, vault: &Pubkey) -> (v: Vec<Vec<u8>>)
    ensures
        v.deep_view() == vault_authority_seeds(*vault_program, *vault),
{
    let a = vec![118u8, 97, 117, 108, 116];
    assert(a@ =~= vault_seed());
    let (b, c) = (vault_program.to_bytes(), vault.to_bytes());
    proof {
        lemma_byte_vec_deep_view(a);
        lemma_byte_vec_deep_view(b);
        lemma_byte_vec_deep_view(c);
    }
    let v = vec![a, b, c];
    assert(v.deep_view() =~= vault_authority_seeds(*vault_program, *vault));
    v
}

/// The indices of a print through a vault: the vault authority stands for the holder and the
/// vault's token store for the token account.
pub open spec fn via_vault_indices() -> PrintIndices {
    PrintIndices {
        new_metadata: 0,
        new_edition: 1,
        master_edition: 2,
        mint: 3,
        edition_marker: 4,
        mint_authority: 5,
        payer: 6,
        owner: 7,
        token: 8,
        update_authority: 11,
        master_metadata: 12,
        token_program: 13,
        system: 15,
    }
}

/// The vault checks before a print: the vault and safety deposit box are what they claim (by
/// their first byte), the store is owned by the vault's authority address, the vault authority
/// signs and matches the vault, the vault is combined, and box, vault and store belong together.
pub open spec fn chk_vault(accs: Seq<AccountView>) -> Result<(), ProgramError> {
    let (vault_auth, store, sd, vault, tp, vault_program) = (accs[7], accs[8], accs[9], accs[10], accs[13], accs[14]);
    if vault.data.len() == 0 || sd.data.len() == 0 {
        Err(ProgramError::Aborted)
    } else if vault.data[0] != 3 {
        Err(ProgramError::Vault(VaultError::DataTypeMismatch))
    } else if sd.data[0] != 1 {
        Err(ProgramError::Vault(VaultError::DataTypeMismatch))
    } else if vault.data.len() < 97 || sd.data.len() < 97 || store.data.len() < 64 {
        Err(ProgramError::Aborted)
    } else {
        let token_program = Pubkey::spec_from_bytes_at(vault.data, 1);
        let vault_authority = Pubkey::spec_from_bytes_at(vault.data, 65);
        let store_on_sd = Pubkey::spec_from_bytes_at(sd.data, 65);
        let vault_on_sd = Pubkey::spec_from_bytes_at(sd.data, 1);
        let owner = Pubkey::spec_from_bytes_at(store.data, 32);
        match chk_find_address(vault_authority_seeds(vault_program.key, vault.key), vault_program.key) {
            Err(e) => Err(e),
            Ok((authority, _)) => if owner != authority {
                Err(merr(MetadataError::InvalidOwner))
            } else if !vault_auth.is_signer {
                Err(ProgramError::MissingRequiredSignature)
            } else if vault.owner != vault_program.key || sd.owner != vault_program.key || store.owner != tp.key {
                Err(merr(MetadataError::IncorrectOwner))
            } else if token_program != tp.key {
                Err(ProgramError::Vault(VaultError::TokenProgramProvidedDoesNotMatchVault))
            } else if vault_auth.key != vault_authority {
                Err(ProgramError::Vault(VaultError::AuthorityDoesNotMatch))
            } else if vault.data.len() <= 195 {
                Err(ProgramError::Aborted)
            } else if vault.data[195] != 2 {
                Err(ProgramError::Vault(VaultError::VaultShouldBeCombined))
            } else if vault_on_sd != vault.key {
                Err(ProgramError::Vault(VaultError::SafetyDepositBoxVaultMismatch))
            } else if store.key != store_on_sd {
                Err(ProgramError::Vault(VaultError::StoreDoesNotMatchSafetyDepositBox))
            } else {
                Ok(())
            },
        }
    }
}

fn assert_vault(accounts: &Vec<AccountInfo>) -> (r: Result<(), ProgramError>)
    requires
        accounts@.len() >= 16,
    ensures
        r == chk_vault(accounts_view(accounts@)),
{
    let (vault_auth, store, sd, vault, tp, vault_program) = (&accounts[7], &accounts[8], &accounts[9], &accounts[10], &accounts[13], &accounts[14]);
    let (vd, sdd, std) = (vault.data.as_slice(), sd.data.as_slice(), store.data.as_slice());
    if vd.len() == 0 || sdd.len() == 0 {
        return Err(ProgramError::Aborted);
    }
    if vd[0] != 3 {
        return Err(ProgramError::Vault(VaultError::DataTypeMismatch));
    }
    if sdd[0] != 1 {
        return Err(ProgramError::Vault(VaultError::DataTypeMismatch));
    }
    if vd.len() < 97 || sdd.len() < 97 || std.len() < 64 {
        return Err(ProgramError::Aborted);
    }
    let token_program = Pubkey::from_bytes_at(vd, 1);
    let vault_authority = Pubkey::from_bytes_at(vd, 65);
    let store_on_sd = Pubkey::from_bytes_at(sdd, 65);
    let vault_on_sd = Pubkey::from_bytes_at(sdd, 1);
    let owner = Pubkey::from_bytes_at(std, 32);
    let seeds = make_vault_authority_seeds(&vault_program.key, &vault.key);
    let (authority, _) = find_address(&seeds, &vault_program.key)?;
    if owner != authority {
        return Err(to_program_error(MetadataError::InvalidOwner));
    }
    if !vault_auth.is_signer {
        return Err(ProgramError::MissingRequiredSignature);
    }
    if vault.owner != vault_program.key || sd.owner != vault_program.key || store.owner != tp.key {
        return Err(to_program_error(MetadataError::IncorrectOwner));
    }
    if token_program != tp.key {
        return Err(ProgramError::Vault(VaultError::TokenProgramProvidedDoesNotMatchVault));
    }
    if vault_auth.key != vault_authority {
        return Err(ProgramError::Vault(VaultError::AuthorityDoesNotMatch));
    }
    if vd.len() <= 195 {
        return Err(ProgramError::Aborted);
    }
    if vd[195] != 2 {
        return Err(ProgramError::Vault(VaultError::VaultShouldBeCombined));
    }
    if vault_on_sd != vault.key {
        return Err(ProgramError::Vault(VaultError::SafetyDepositBoxVaultMismatch));
    }
    if store.key != store_on_sd {
        return Err(ProgramError::Vault(VaultError::StoreDoesNotMatchSafetyDepositBox));
    }
    Ok(())
}

/// A vault holding a master edition's token prints edition `edition`, its authority signing.
pub open spec fn mint_new_edition_via_vault_proxy_spec(program_id: Pubkey, accs: Seq<AccountView>, edition: u64) -> Result<
    Seq<EffectView>,
    ProgramError,
> {
    if accs.len() < 16 {
        Err(ProgramError::NotEnoughAccountKeys)
    } else {
        match chk_vault(accs) {
            Err(e) => Err(e),
            Ok(_) => mint_new_edition_logic(program_id, accs, via_vault_indices(), edition, true),
        }
    }
}

pub fn process_deprecated_mint_new_edition_from_master_edition_via_vault_proxy(
    program_id: &Pubkey,
    accounts: &Vec<AccountInfo>,
    edition: u64,
) -> (r: Result<Vec<Effect>, ProgramError>)
    ensures
        outcome_view(r) == mint_new_edition_via_vault_proxy_spec(*program_id, accounts_view(accounts@), edition),
{
    if accounts.len() < 16 {
        return Err(ProgramError::NotEnoughAccountKeys);
    }
    assert_vault(accounts)?;
    let ix = PrintIndices {
        new_metadata: 0,
        new_edition: 1,
        master_edition: 2,
        mint: 3,
        edition_marker: 4,
        mint_authority: 5,
        payer: 6,
        owner: 7,
        token: 8,
        update_authority: 11,
        master_metadata: 12,
        token_program: 13,
        system: 15,
    };
    process_mint_new_edition_from_master_edition_via_token_logic(program_id, accounts, ix, edition, true)
}

} // verus!
