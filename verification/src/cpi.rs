//! The calls that instructions make into the token program, as effects.

use crate::account::{effect_result_view, Effect, EffectView, InstructionView};
use crate::error::{merr, to_program_error, MetadataError, ProgramError};
use crate::ids::spl_token_program_id;
use crate::outside::{meta, set_authority_data, set_authority_metas, token_approve, token_burn, token_close_account, token_freeze_account, token_revoke, token_set_authority, token_thaw_account, TokenAuthority};
use crate::pubkey::Pubkey;
use vstd::bytes::spec_u64_to_le_bytes;
use vstd::prelude::*;

verus! {

/// An effect that invokes a token-program instruction.
pub open spec fn invoke_view(
    ix: InstructionView,
    seeds: Seq<Seq<Seq<u8>>>,
    failure: Option<ProgramError>,
) -> EffectView {
    EffectView::Invoke { instruction: ix, signer_seeds: seeds, failure }
}

/// Burn `amount` tokens of `mint` from `source`, signed by `authority`.
pub open spec fn burn_ix(tp: Pubkey, source: Pubkey, mint: Pubkey, authority: Pubkey, amount: u64) -> InstructionView {
    InstructionView {
        program_id: tp,
        accounts: seq![meta(source, false, true), meta(mint, false, true), meta(authority, true, false)],
        data: seq![8u8] + spec_u64_to_le_bytes(amount),
    }
}

/// Burning one token: an incorrect program id when `tp` is not the token program; a failed
/// burn fails the instruction with `TokenBurnFailed`.
pub open spec fn burn_effect(tp: Pubkey, source: Pubkey, mint: Pubkey, authority: Pubkey, seeds: Seq<Seq<Seq<u8>>>) -> Result<
    EffectView,
    ProgramError,
> {
    if tp != spl_token_program_id() {
        Err(ProgramError::IncorrectProgramId)
    } else {
        Ok(invoke_view(burn_ix(tp, source, mint, authority, 1), seeds, Some(merr(MetadataError::TokenBurnFailed))))
    }
}

pub fn spl_token_burn(
    tp: &Pubkey,
    source: &Pubkey,
    mint: &Pubkey,
    authority: &Pubkey,
    seeds: Vec<Vec<Vec<u8>>>,
) -> (r: Result<Effect, ProgramError>)
    ensures
        effect_result_view(r) == burn_effect(*tp, *source, *mint, *authority, seeds.deep_view()),
{
    let ix = token_burn(tp, source, mint, authority, 1)?;
    Ok(Effect::Invoke { instruction: ix, signer_seeds: seeds, failure: Some(to_program_error(MetadataError::TokenBurnFailed)) })
}

/// Close `account`, sending its lamports to `destination`, signed by `owner`.
pub open spec fn close_ix(tp: Pubkey, account: Pubkey, destination: Pubkey, owner: Pubkey) -> InstructionView {
    InstructionView {
        program_id: tp,
        accounts: seq![meta(account, false, true), meta(destination, false, true), meta(owner, true, false)],
        data: seq![9u8],
    }
}

/// Closing a token account: an incorrect program id when `tp` is not the token program; a
/// failed close fails the instruction with `TokenCloseFailed`.
pub open spec fn close_effect(tp: Pubkey, account: Pubkey, destination: Pubkey, owner: Pubkey) -> Result<
    EffectView,
    ProgramError,
> {
    if tp != spl_token_program_id() {
        Err(ProgramError::IncorrectProgramId)
    } else {
        Ok(invoke_view(close_ix(tp, account, destination, owner), Seq::empty(), Some(merr(MetadataError::TokenCloseFailed))))
    }
}

pub fn spl_token_close(tp: &Pubkey, account: &Pubkey, destination: &Pubkey, owner: &Pubkey) -> (r: Result<
    Effect,
    ProgramError,
>)
    ensures
        effect_result_view(r) == close_effect(*tp, *account, *destination, *owner),
{
    let ix = token_close_account(tp, account, destination, owner)?;
    let seeds: Vec<Vec<Vec<u8>>> = Vec::new();
    assert(seeds.deep_view() =~= Seq::<Seq<Seq<u8>>>::empty());
    Ok(Effect::Invoke { instruction: ix, signer_seeds: seeds, failure: Some(to_program_error(MetadataError::TokenCloseFailed)) })
}

/// Approve `delegate` for one token of `source`, signed by `owner`.
pub open spec fn approve_ix(tp: Pubkey, source: Pubkey, delegate: Pubkey, owner: Pubkey) -> InstructionView {
    InstructionView {
        program_id: tp,
        accounts: seq![meta(source, false, true), meta(delegate, false, false), meta(owner, true, false)],
        data: seq![4u8] + spec_u64_to_le_bytes(1),
    }
}

/// Approving a delegate for one token; the instruction is built only for the token program
/// (any other program id stops the program).
pub open spec fn approve_effect(tp: Pubkey, source: Pubkey, delegate: Pubkey, owner: Pubkey) -> Result<
    EffectView,
    ProgramError,
> {
    if tp != spl_token_program_id() {
        Err(ProgramError::Aborted)
    } else {
        Ok(invoke_view(approve_ix(tp, source, delegate, owner), Seq::empty(), None))
    }
}

pub fn spl_token_approve_one(tp: &Pubkey, source: &Pubkey, delegate: &Pubkey, owner: &Pubkey) -> (r: Result<
    Effect,
    ProgramError,
>)
    ensures
        effect_result_view(r) == approve_effect(*tp, *source, *delegate, *owner),
{
    let ix = match token_approve(tp, source, delegate, owner, 1) {
        Ok(ix) => ix,
        Err(_) => return Err(ProgramError::Aborted),
    };
    let seeds: Vec<Vec<Vec<u8>>> = Vec::new();
    assert(seeds.deep_view() =~= Seq::<Seq<Seq<u8>>>::empty());
    Ok(Effect::Invoke { instruction: ix, signer_seeds: seeds, failure: None })
}

/// Revoke the delegate of `source`, signed by `owner`.
pub open spec fn revoke_ix(tp: Pubkey, source: Pubkey, owner: Pubkey) -> InstructionView {
    InstructionView {
        program_id: tp,
        accounts: seq![meta(source, false, true), meta(owner, true, false)],
        data: seq![5u8],
    }
}

/// Revoking a delegate; built only for the token program (any other id stops the program).
pub open spec fn revoke_effect(tp: Pubkey, source: Pubkey, owner: Pubkey) -> Result<EffectView, ProgramError> {
    if tp != spl_token_program_id() {
        Err(ProgramError::Aborted)
    } else {
        Ok(invoke_view(revoke_ix(tp, source, owner), Seq::empty(), None))
    }
}

pub fn spl_token_revoke(tp: &Pubkey, source: &Pubkey, owner: &Pubkey) -> (r: Result<Effect, ProgramError>)
    ensures
        effect_result_view(r) == revoke_effect(*tp, *source, *owner),
{
    let ix = match token_revoke(tp, source, owner) {
        Ok(ix) => ix,
        Err(_) => return Err(ProgramError::Aborted),
    };
    let seeds: Vec<Vec<Vec<u8>>> = Vec::new();
    assert(seeds.deep_view() =~= Seq::<Seq<Seq<u8>>>::empty());
    Ok(Effect::Invoke { instruction: ix, signer_seeds: seeds, failure: None })
}

/// Freeze (data 10) or thaw (data 11) `account` of `mint`, signed by the freeze authority.
pub open spec fn freeze_thaw_ix(tp: Pubkey, account: Pubkey, mint: Pubkey, authority: Pubkey, freeze: bool) -> InstructionView {
    InstructionView {
        program_id: tp,
        accounts: seq![meta(account, false, true), meta(mint, false, false), meta(authority, true, false)],
        data: if freeze {
            seq![10u8]
        } else {
            seq![11u8]
        },
    }
}

/// Freezing or thawing, signing for the authority's program address with `seeds`; built only
/// for the token program (any other id stops the program).
pub open spec fn freeze_thaw_effect(
    tp: Pubkey,
    account: Pubkey,
    mint: Pubkey,
    authority: Pubkey,
    freeze: bool,
    seeds: Seq<Seq<u8>>,
) -> Result<EffectView, ProgramError> {
    if tp != spl_token_program_id() {
        Err(ProgramError::Aborted)
    } else {
        Ok(invoke_view(freeze_thaw_ix(tp, account, mint, authority, freeze), seq![seeds], None))
    }
}

pub fn spl_token_freeze_thaw(
    tp: &Pubkey,
    account: &Pubkey,
    mint: &Pubkey,
    authority: &Pubkey,
    freeze: bool,
    seeds: Vec<Vec<u8>>,
) -> (r: Result<Effect, ProgramError>)
    ensures
        effect_result_view(r) == freeze_thaw_effect(*tp, *account, *mint, *authority, freeze, seeds.deep_view()),
{
    let built = if freeze {
        token_freeze_account(tp, account, mint, authority)
    } else {
        token_thaw_account(tp, account, mint, authority)
    };
    let ix = match built {
        Ok(ix) => ix,
        Err(_) => return Err(ProgramError::Aborted),
    };
    let all = vec![seeds];
    assert(all.deep_view() =~= seq![all@[0].deep_view()]);
    Ok(Effect::Invoke { instruction: ix, signer_seeds: all, failure: None })
}

/// Move the minting (or freezing) authority of `mint` to `new_authority`, signed by
/// `current` as the single multisig signer.
pub open spec fn set_authority_ix(tp: Pubkey, mint: Pubkey, new_authority: Pubkey, kind: TokenAuthority, current: Pubkey) -> InstructionView {
    InstructionView {
        program_id: tp,
        accounts: set_authority_metas(mint, current, seq![current]),
        data: set_authority_data(kind, Some(new_authority)),
    }
}

/// Moving an authority; built only for the token program (any other id stops the program).
pub open spec fn set_authority_effect(tp: Pubkey, mint: Pubkey, new_authority: Pubkey, kind: TokenAuthority, current: Pubkey) -> Result<
    EffectView,
    ProgramError,
> {
    if tp != spl_token_program_id() {
        Err(ProgramError::Aborted)
    } else {
        Ok(invoke_view(set_authority_ix(tp, mint, new_authority, kind, current), Seq::empty(), None))
    }
}

pub fn spl_token_set_authority(
    tp: &Pubkey,
    mint: &Pubkey,
    new_authority: &Pubkey,
    kind: TokenAuthority,
    current: &Pubkey,
) -> (r: Result<Effect, ProgramError>)
    ensures
        effect_result_view(r) == set_authority_effect(*tp, *mint, *new_authority, kind, *current),
{
    let ix = match token_set_authority(tp, mint, new_authority, kind, current) {
        Ok(ix) => ix,
        Err(_) => return Err(ProgramError::Aborted),
    };
    let seeds: Vec<Vec<Vec<u8>>> = Vec::new();
    assert(seeds.deep_view() =~= Seq::<Seq<Seq<u8>>>::empty());
    Ok(Effect::Invoke { instruction: ix, signer_seeds: seeds, failure: None })
}

} // verus!
