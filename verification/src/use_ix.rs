//! Instructions on the uses of a token: approving and revoking a use authority, and using.

use crate::account::{accounts_view, drain_effect, drain_lamports, effect_result_view, effects_view, no_effects, outcome_view, push_effect, write_account, write_effect, AccountInfo, AccountView, Effect, EffectView};
use crate::checks::{assert_currently_holding, assert_derivation, assert_owned_by, chk_currently_holding, chk_derivation, chk_find_address, find_address};
use crate::codec::metadata_of_data;
use crate::collection_ix::{push_bump, with_bump};
use crate::cpi::{approve_effect, burn_effect, revoke_effect, spl_token_approve_one, spl_token_burn, spl_token_revoke};
use crate::decode::metadata_from_data;
use crate::encode::{metadata_write, write_metadata};
use crate::error::{merr, to_program_error, MetadataError, ProgramError};
use crate::ids::{burn, burn_seed, lemma_byte_vec_deep_view, metadata_program_id, prefix, prefix_seed, program_id as this_program_id, rent_id, rent_sysvar_id, spl_token_program_id, user, user_seed};
use crate::pubkey::Pubkey;
use crate::records::{en_use_authority_record, encode_use_authority_record, use_authority_record_from_data, use_authority_record_of_data};
use crate::state::{Key, MetadataView, UseAuthorityRecord, UseMethod, Uses, USE_AUTHORITY_RECORD_SIZE};
use vstd::prelude::*;

verus! {

/// The seeds of the record that lets `user` spend uses of `mint`.
pub open spec fn use_authority_path(program_id: Pubkey, mint: Pubkey, user: Pubkey) -> Seq<Seq<u8>> {
    seq![prefix_seed(), program_id.bytes(), mint.bytes(), user_seed(), user.bytes()]
}

pub fn make_use_authority_path(program_id: &Pubkey, mint: &Pubkey, u: &Pubkey) -> (v: Vec<Vec<u8>>)
    ensures
        v.deep_view() == use_authority_path(*program_id, *mint, *u),
{
    let (a, b, c, d, e) = (prefix(), program_id.to_bytes(), mint.to_bytes(), user(), u.to_bytes());
    proof {
        lemma_byte_vec_deep_view(a);
        lemma_byte_vec_deep_view(b);
        lemma_byte_vec_deep_view(c);
        lemma_byte_vec_deep_view(d);
        lemma_byte_vec_deep_view(e);
    }
    let v = vec![a, b, c, d, e];
    assert(v.deep_view() =~= use_authority_path(*program_id, *mint, *u));
    v
}

/// The seeds of the program's burn authority, without and with its bump seed.
pub open spec fn burner_path(program_id: Pubkey) -> Seq<Seq<u8>> {
    seq![prefix_seed(), program_id.bytes(), burn_seed()]
}

pub fn make_burner_path(program_id: &Pubkey) -> (v: Vec<Vec<u8>>)
    ensures
        v.deep_view() == burner_path(*program_id),
{
    let (a, b, c) = (prefix(), program_id.to_bytes(), burn());
    proof {
        lemma_byte_vec_deep_view(a);
        lemma_byte_vec_deep_view(b);
        lemma_byte_vec_deep_view(c);
    }
    let v = vec![a, b, c];
    assert(v.deep_view() =~= burner_path(*program_id));
    v
}

/// The account must be the program's burn authority; gives its bump seed.
pub open spec fn chk_burner(k: Pubkey) -> Result<u8, ProgramError> {
    match chk_find_address(burner_path(metadata_program_id()), metadata_program_id()) {
        Err(e) => Err(e),
        Ok((pda, bump)) => if pda != k {
            Err(merr(MetadataError::DerivedKeyInvalid))
        } else {
            Ok(bump)
        },
    }
}

pub fn assert_burner(k: &Pubkey) -> (r: Result<u8, ProgramError>)
    ensures
        r == chk_burner(*k),
{
    let id = this_program_id();
    let path = make_burner_path(&id);
    let (pda, bump) = find_address(&path, &id)?;
    if pda != *k {
        return Err(to_program_error(MetadataError::DerivedKeyInvalid));
    }
    Ok(bump)
}

/// A record account must be empty (when creating) or not (otherwise).
pub open spec fn chk_use_authority_validation(len: nat, must_be_empty: bool) -> Result<(), ProgramError> {
    if must_be_empty && len != 0 {
        Err(merr(MetadataError::UseAuthorityRecordAlreadyExists))
    } else if !must_be_empty && len == 0 {
        Err(merr(MetadataError::UseAuthorityRecordAlreadyRevoked))
    } else {
        Ok(())
    }
}

/// The use authority record of `user` for `mint`: present, owned by the program, at its derived
/// address, readable, and holding the derivation's bump (a record without one takes it).
pub open spec fn chk_use_record(program_id: Pubkey, rec: AccountView, mint: Pubkey, user: Pubkey) -> Result<
    UseAuthorityRecord,
    ProgramError,
> {
    match chk_use_authority_validation(rec.data.len(), false) {
        Err(e) => Err(e),
        Ok(_) => if rec.owner != program_id {
            Err(merr(MetadataError::IncorrectOwner))
        } else {
            match chk_derivation(program_id, rec, use_authority_path(program_id, mint, user)) {
                Err(e) => Err(e),
                Ok(canonical) => match use_authority_record_of_data(rec.data) {
                    None => Err(merr(MetadataError::DataTypeMismatch)),
                    Some(r) => {
                        let r2 = if r.bump == 0 && r.key == Key::UseAuthorityRecord {
                            UseAuthorityRecord { bump: canonical, ..r }
                        } else {
                            r
                        };
                        if canonical != r2.bump {
                            Err(merr(MetadataError::InvalidUseAuthorityRecord))
                        } else {
                            Ok(r2)
                        }
                    },
                },
            }
        },
    }
}

pub fn check_use_record(program_id: &Pubkey, rec: &AccountInfo, mint: &Pubkey, u: &Pubkey) -> (r: Result<
    UseAuthorityRecord,
    ProgramError,
>)
    ensures
        r == chk_use_record(*program_id, rec@, *mint, *u),
{
    if rec.data.len() == 0 {
        return Err(to_program_error(MetadataError::UseAuthorityRecordAlreadyRevoked));
    }
    assert_owned_by(rec, program_id)?;
    let path = make_use_authority_path(program_id, mint, u);
    let canonical = assert_derivation(program_id, rec, &path)?;
    let mut r = use_authority_record_from_data(rec.data.as_slice())?;
    if r.bump == 0 && r.key == Key::UseAuthorityRecord {
        r.bump = canonical;
    }
    if canonical != r.bump {
        return Err(to_program_error(MetadataError::InvalidUseAuthorityRecord));
    }
    Ok(r)
}

// ---------------------------------------------------------------- approve

/// The holder of a usable token lets a user spend up to `number_of_uses` uses, creating the
/// user's record; for burn-on-use tokens the program's burn authority is approved for the token.
pub open spec fn approve_use_authority_spec(program_id: Pubkey, accs: Seq<AccountView>, number_of_uses: u64) -> Result<
    Seq<EffectView>,
    ProgramError,
> {
    if accs.len() < 10 {
        Err(ProgramError::NotEnoughAccountKeys)
    } else {
        let (rec, owner, payer, user, token, mi, mint, burner, tp) = (
            accs[0],
            accs[1],
            accs[2],
            accs[3],
            accs[4],
            accs[5],
            accs[6],
            accs[7],
            accs[8],
        );
        match metadata_of_data(mi.data) {
            None => Err(merr(MetadataError::DataTypeMismatch)),
            Some(m) => if m.uses is None {
                Err(merr(MetadataError::Unusable))
            } else if tp.key != spl_token_program_id() {
                Err(merr(MetadataError::InvalidTokenProgram))
            } else if !owner.is_signer || !payer.is_signer {
                Err(ProgramError::MissingRequiredSignature)
            } else {
                match chk_currently_holding(program_id, owner, mi, m, mint, token) {
                    Err(e) => Err(e),
                    Ok(_) => {
                        let u = m.uses.unwrap();
                        let path = use_authority_path(program_id, mint.key, user.key);
                        match chk_derivation(program_id, rec, path) {
                            Err(e) => Err(e),
                            Ok(bump) => match chk_use_authority_validation(rec.data.len(), true) {
                                Err(e) => Err(e),
                                Ok(_) => if number_of_uses > u.remaining {
                                    Err(merr(MetadataError::NotEnoughUses))
                                } else {
                                    let create = EffectView::CreateAccount {
                                        account: 0,
                                        payer: 2,
                                        system: 9,
                                        size: USE_AUTHORITY_RECORD_SIZE,
                                        seeds: with_bump(path, bump),
                                    };
                                    let write = EffectView::Write {
                                        account: 0,
                                        bytes: en_use_authority_record(
                                            UseAuthorityRecord { key: Key::UseAuthorityRecord, allowed_uses: number_of_uses, bump },
                                        ),
                                        clean: false,
                                    };
                                    if u.use_method == UseMethod::Burn {
                                        match chk_burner(burner.key) {
                                            Err(e) => Err(e),
                                            Ok(_) => match approve_effect(tp.key, token.key, burner.key, owner.key) {
                                                Err(e) => Err(e),
                                                Ok(a) => Ok(seq![create, a, write]),
                                            },
                                        }
                                    } else {
                                        Ok(seq![create, write])
                                    }
                                },
                            },
                        }
                    },
                }
            },
        }
    }
}

pub fn process_approve_use_authority(program_id: &Pubkey, accounts: &Vec<AccountInfo>, number_of_uses: u64) -> (r: Result<
    Vec<Effect>,
    ProgramError,
>)
    ensures
        outcome_view(r) == approve_use_authority_spec(*program_id, accounts_view(accounts@), number_of_uses),
{
    if accounts.len() < 10 {
        return Err(ProgramError::NotEnoughAccountKeys);
    }
    let (rec, owner, payer, u_info, token, mi, mint, burner, tp) = (
        &accounts[0],
        &accounts[1],
        &accounts[2],
        &accounts[3],
        &accounts[4],
        &accounts[5],
        &accounts[6],
        &accounts[7],
        &accounts[8],
    );
    let m = metadata_from_data(mi.data.as_slice())?;
    let u = match m.uses {
        None => return Err(to_program_error(MetadataError::Unusable)),
        Some(u) => u,
    };
    if tp.key != crate::ids::token_program_id() {
        return Err(to_program_error(MetadataError::InvalidTokenProgram));
    }
    if !owner.is_signer || !payer.is_signer {
        return Err(ProgramError::MissingRequiredSignature);
    }
    assert_currently_holding(program_id, owner, mi, &m, mint, token)?;
    let mut seeds = make_use_authority_path(program_id, &mint.key, &u_info.key);
    let bump = assert_derivation(program_id, rec, &seeds)?;
    if rec.data.len() != 0 {
        return Err(to_program_error(MetadataError::UseAuthorityRecordAlreadyExists));
    }
    if number_of_uses > u.remaining {
        return Err(to_program_error(MetadataError::NotEnoughUses));
    }
    push_bump(&mut seeds, bump);
    let record = UseAuthorityRecord { key: Key::UseAuthorityRecord, allowed_uses: number_of_uses, bump };
    let create = Effect::CreateAccount { account: 0, payer: 2, system: 9, size: USE_AUTHORITY_RECORD_SIZE, seeds };
    let write = Effect::Write { account: 0, bytes: encode_use_authority_record(&record), clean: false };
    if u.use_method == UseMethod::Burn {
        assert_burner(&burner.key)?;
        let a = spl_token_approve_one(&tp.key, &token.key, &burner.key, &owner.key)?;
        let v = vec![create, a, write];
        assert(effects_view(v@) =~= seq![v@[0]@, v@[1]@, v@[2]@]);
        Ok(v)
    } else {
        let v = vec![create, write];
        assert(effects_view(v@) =~= seq![v@[0]@, v@[1]@]);
        Ok(v)
    }
}

// ---------------------------------------------------------------- revoke

/// The holder of a usable token closes a user's record, sending its lamports to the holder;
/// for burn-on-use tokens the token's delegate is revoked first.
pub open spec fn revoke_use_authority_spec(program_id: Pubkey, accs: Seq<AccountView>) -> Result<
    Seq<EffectView>,
    ProgramError,
> {
    if accs.len() < 7 {
        Err(ProgramError::NotEnoughAccountKeys)
    } else {
        let (rec, owner, user, token, mint, mi, tp) = (accs[0], accs[1], accs[2], accs[3], accs[4], accs[5], accs[6]);
        match metadata_of_data(mi.data) {
            None => Err(merr(MetadataError::DataTypeMismatch)),
            Some(m) => if m.uses is None {
                Err(merr(MetadataError::Unusable))
            } else if tp.key != spl_token_program_id() {
                Err(merr(MetadataError::InvalidTokenProgram))
            } else if !owner.is_signer {
                Err(ProgramError::MissingRequiredSignature)
            } else {
                match chk_currently_holding(program_id, owner, mi, m, mint, token) {
                    Err(e) => Err(e),
                    Ok(_) => match chk_use_record(program_id, rec, mint.key, user.key) {
                        Err(e) => Err(e),
                        Ok(_) => {
                            let revoked: Result<Seq<EffectView>, ProgramError> = if m.uses.unwrap().use_method
                                == UseMethod::Burn {
                                match revoke_effect(tp.key, token.key, owner.key) {
                                    Err(e) => Err(e),
                                    Ok(x) => Ok(seq![x]),
                                }
                            } else {
                                Ok(Seq::empty())
                            };
                            match revoked {
                                Err(e) => Err(e),
                                Ok(pre) => match drain_effect(0, 1, rec.lamports, owner.lamports) {
                                    Err(e) => Err(e),
                                    Ok((d, _)) => Ok(
                                        pre + seq![d, EffectView::Zero { account: 0, len: USE_AUTHORITY_RECORD_SIZE }],
                                    ),
                                },
                            }
                        },
                    },
                }
            },
        }
    }
}

pub fn process_revoke_use_authority(program_id: &Pubkey, accounts: &Vec<AccountInfo>) -> (r: Result<
    Vec<Effect>,
    ProgramError,
>)
    ensures
        outcome_view(r) == revoke_use_authority_spec(*program_id, accounts_view(accounts@)),
{
    if accounts.len() < 7 {
        return Err(ProgramError::NotEnoughAccountKeys);
    }
    let (rec, owner, u_info, token, mint, mi, tp) = (&accounts[0], &accounts[1], &accounts[2], &accounts[3], &accounts[4], &accounts[5], &accounts[6]);
    let m = metadata_from_data(mi.data.as_slice())?;
    let u = match m.uses {
        None => return Err(to_program_error(MetadataError::Unusable)),
        Some(u) => u,
    };
    if tp.key != crate::ids::token_program_id() {
        return Err(to_program_error(MetadataError::InvalidTokenProgram));
    }
    if !owner.is_signer {
        return Err(ProgramError::MissingRequiredSignature);
    }
    assert_currently_holding(program_id, owner, mi, &m, mint, token)?;
    check_use_record(program_id, rec, &mint.key, &u_info.key)?;
    let mut out = no_effects();
    if u.use_method == UseMethod::Burn {
        let x = spl_token_revoke(&tp.key, &token.key, &owner.key)?;
        push_effect(&mut out, x);
    }
    let ghost pre = effects_view(out@);
    let (d, _) = drain_lamports(0, 1, rec.lamports, owner.lamports)?;
    push_effect(&mut out, d);
    push_effect(&mut out, Effect::Zero { account: 0, len: USE_AUTHORITY_RECORD_SIZE });
    assert(effects_view(out@) =~= pre + seq![d@, EffectView::Zero { account: 0, len: USE_AUTHORITY_RECORD_SIZE }]);
    Ok(out)
}

// ---------------------------------------------------------------- utilize

/// Whether the optional rent sysvar was passed as the ninth account.
pub open spec fn rent_passed(accs: Seq<AccountView>) -> bool {
    accs.len() > 8 && accs[8].key == rent_sysvar_id()
}

/// Whether an approved use authority (rather than the holder) is using the token.
pub open spec fn approved_is_using(accs: Seq<AccountView>) -> bool {
    if rent_passed(accs) {
        accs.len() == 11
    } else {
        accs.len() == 10
    }
}

/// The index of the use authority record (the burn authority follows it).
pub open spec fn record_index(accs: Seq<AccountView>) -> int {
    if rent_passed(accs) {
        9
    } else {
        8
    }
}

/// The uses after spending `n` of them.
pub open spec fn spent(u: Uses, n: u64) -> Result<Uses, ProgramError> {
    if n > u.total || n > u.remaining {
        Err(merr(MetadataError::NotEnoughUses))
    } else {
        Ok(Uses { remaining: (u.remaining - n) as u64, ..u })
    }
}

/// The record's effect when an approved authority uses the token: its allowance shrinks.
pub open spec fn record_spent(program_id: Pubkey, accs: Seq<AccountView>, mint: Pubkey, user: Pubkey, n: u64) -> Result<
    Seq<EffectView>,
    ProgramError,
> {
    let i = record_index(accs);
    let rec = accs[i];
    match chk_use_record(program_id, rec, mint, user) {
        Err(e) => Err(e),
        Ok(r) => if r.allowed_uses < n {
            Err(merr(MetadataError::NotEnoughUses))
        } else {
            match write_effect(
                i,
                rec.data.len(),
                en_use_authority_record(UseAuthorityRecord { allowed_uses: (r.allowed_uses - n) as u64, ..r }),
                false,
            ) {
                Err(e) => Err(e),
                Ok(w) => Ok(seq![w]),
            }
        },
    }
}

/// The burn at the last use of a burn-on-use token: by the program's burn authority (signing
/// with its seeds) for an approved user, by the holder otherwise.
pub open spec fn final_burn(program_id: Pubkey, accs: Seq<AccountView>) -> Result<EffectView, ProgramError> {
    let (token, mint, owner, tp) = (accs[1], accs[2], accs[4], accs[5]);
    if approved_is_using(accs) {
        let burner = accs[record_index(accs) + 1];
        match chk_burner(burner.key) {
            Err(e) => Err(e),
            Ok(seed) => burn_effect(tp.key, token.key, mint.key, burner.key, seq![with_bump(burner_path(program_id), seed)]),
        }
    } else {
        burn_effect(tp.key, token.key, mint.key, owner.key, Seq::empty())
    }
}

/// A user spends `number_of_uses` uses of a token: the holder itself, or a user with an
/// approved record whose allowance shrinks; a burn-on-use token is burned at its last use.
pub open spec fn utilize_spec(program_id: Pubkey, accs: Seq<AccountView>, number_of_uses: u64) -> Result<
    Seq<EffectView>,
    ProgramError,
> {
    if accs.len() < 8 {
        Err(ProgramError::NotEnoughAccountKeys)
    } else {
        let (mi, token, mint, user, owner, tp) = (accs[0], accs[1], accs[2], accs[3], accs[4], accs[5]);
        match metadata_of_data(mi.data) {
            None => Err(merr(MetadataError::DataTypeMismatch)),
            Some(m) => if m.uses is None {
                Err(merr(MetadataError::Unusable))
            } else if tp.key != spl_token_program_id() {
                Err(merr(MetadataError::InvalidTokenProgram))
            } else if !user.is_signer {
                Err(ProgramError::MissingRequiredSignature)
            } else {
                match chk_currently_holding(program_id, owner, mi, m, mint, token) {
                    Err(e) => Err(e),
                    Ok(_) => match spent(m.uses.unwrap(), number_of_uses) {
                        Err(e) => Err(e),
                        Ok(u2) => {
                            let rec_effects = if approved_is_using(accs) {
                                record_spent(program_id, accs, mint.key, user.key, number_of_uses)
                            } else if user.key != owner.key {
                                Err(merr(MetadataError::InvalidUser))
                            } else {
                                Ok(Seq::empty())
                            };
                            match rec_effects {
                                Err(e) => Err(e),
                                Ok(pre) => match metadata_write(0, mi, MetadataView { uses: Some(u2), ..m }, false) {
                                    Err(e) => Err(e),
                                    Ok(w) => if u2.remaining == 0 && u2.use_method == UseMethod::Burn {
                                        match final_burn(program_id, accs) {
                                            Err(e) => Err(e),
                                            Ok(b) => Ok(pre + seq![w, b]),
                                        }
                                    } else {
                                        Ok(pre + seq![w])
                                    },
                                },
                            }
                        },
                    },
                }
            },
        }
    }
}

fn spend_record(program_id: &Pubkey, accounts: &Vec<AccountInfo>, mint: &Pubkey, u: &Pubkey, n: u64) -> (r: Result<
    Effect,
    ProgramError,
>)
    requires
        accounts@.len() >= 8,
        approved_is_using(accounts_view(accounts@)),
    ensures
        match r {
            Ok(e) => record_spent(*program_id, accounts_view(accounts@), *mint, *u, n) == Ok::<
                Seq<EffectView>,
                ProgramError,
            >(seq![e@]),
            Err(e) => record_spent(*program_id, accounts_view(accounts@), *mint, *u, n) == Err::<
                Seq<EffectView>,
                ProgramError,
            >(e),
        },
{
    let i: usize = if accounts.len() > 8 && accounts[8].key == rent_id() {
        9
    } else {
        8
    };
    let rec = &accounts[i];
    let r = check_use_record(program_id, rec, mint, u)?;
    if r.allowed_uses < n {
        return Err(to_program_error(MetadataError::NotEnoughUses));
    }
    let updated = UseAuthorityRecord { key: r.key, allowed_uses: r.allowed_uses - n, bump: r.bump };
    write_account(i, rec.data.len(), encode_use_authority_record(&updated), false)
}

fn burn_at_last_use(program_id: &Pubkey, accounts: &Vec<AccountInfo>) -> (r: Result<Effect, ProgramError>)
    requires
        accounts@.len() >= 8,
    ensures
        effect_result_view(r) == final_burn(*program_id, accounts_view(accounts@)),
{
    let (token, mint, owner, tp) = (&accounts[1], &accounts[2], &accounts[4], &accounts[5]);
    let rent = accounts.len() > 8 && accounts[8].key == rent_id();
    let approved = if rent {
        accounts.len() == 11
    } else {
        accounts.len() == 10
    };
    if approved {
        let i: usize = if rent {
            10
        } else {
            9
        };
        let burner = &accounts[i];
        let seed = assert_burner(&burner.key)?;
        let mut seeds = make_burner_path(program_id);
        push_bump(&mut seeds, seed);
        let all = vec![seeds];
        assert(all.deep_view() =~= seq![all@[0].deep_view()]);
        spl_token_burn(&tp.key, &token.key, &mint.key, &burner.key, all)
    } else {
        let all: Vec<Vec<Vec<u8>>> = Vec::new();
        assert(all.deep_view() =~= Seq::<Seq<Seq<u8>>>::empty());
        spl_token_burn(&tp.key, &token.key, &mint.key, &owner.key, all)
    }
}

pub fn process_utilize(program_id: &Pubkey, accounts: &Vec<AccountInfo>, number_of_uses: u64) -> (r: Result<
    Vec<Effect>,
    ProgramError,
>)
    ensures
        outcome_view(r) == utilize_spec(*program_id, accounts_view(accounts@), number_of_uses),
{
    if accounts.len() < 8 {
        return Err(ProgramError::NotEnoughAccountKeys);
    }
    let (mi, token, mint, u_info, owner, tp) = (&accounts[0], &accounts[1], &accounts[2], &accounts[3], &accounts[4], &accounts[5]);
    let rent = accounts.len() > 8 && accounts[8].key == rent_id();
    let approved = if rent {
        accounts.len() == 11
    } else {
        accounts.len() == 10
    };
    let m = metadata_from_data(mi.data.as_slice())?;
    let u = match m.uses {
        None => return Err(to_program_error(MetadataError::Unusable)),
        Some(u) => u,
    };
    if tp.key != crate::ids::token_program_id() {
        return Err(to_program_error(MetadataError::InvalidTokenProgram));
    }
    if !u_info.is_signer {
        return Err(ProgramError::MissingRequiredSignature);
    }
    assert_currently_holding(program_id, owner, mi, &m, mint, token)?;
    if number_of_uses > u.total || number_of_uses > u.remaining {
        return Err(to_program_error(MetadataError::NotEnoughUses));
    }
    let u2 = Uses { use_method: u.use_method, remaining: u.remaining - number_of_uses, total: u.total };
    let mut out = no_effects();
    if approved {
        let e = spend_record(program_id, accounts, &mint.key, &u_info.key, number_of_uses)?;
        push_effect(&mut out, e);
    } else if u_info.key != owner.key {
        return Err(to_program_error(MetadataError::InvalidUser));
    }
    let ghost pre = effects_view(out@);
    let mut m2 = m.copy();
    m2.uses = Some(u2);
    assert(m2@ == MetadataView { uses: Some(u2), ..m@ });
    let w = write_metadata(0, mi, &m2, false)?;
    let ghost wv = w@;
    push_effect(&mut out, w);
    if u2.remaining == 0 && u2.use_method == UseMethod::Burn {
        let b = burn_at_last_use(program_id, accounts)?;
        let ghost bv = b@;
        push_effect(&mut out, b);
        assert(effects_view(out@) =~= pre + seq![wv, bv]);
    } else {
        assert(effects_view(out@) =~= pre + seq![wv]);
    }
    Ok(out)
}

} // verus!
