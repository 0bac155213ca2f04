//! What an instruction handler sees of its accounts, and what it asks the runtime to do.

use crate::error::{merr, to_program_error, MetadataError, ProgramError};
use crate::pubkey::Pubkey;
use vstd::prelude::*;

verus! {

/// An account passed to an instruction, as it stands when the instruction starts.
#[derive(Clone, Debug)]
pub struct AccountInfo {
    pub key: Pubkey,
    pub owner: Pubkey,
    pub is_signer: bool,
    pub is_writable: bool,
    pub lamports: u64,
    pub data: Vec<u8>,
}

/// What an `AccountInfo` holds.
#[verifier::ext_equal]
pub struct AccountView {
    pub key: Pubkey,
    pub owner: Pubkey,
    pub is_signer: bool,
    pub is_writable: bool,
    pub lamports: u64,
    pub data: Seq<u8>,
}

impl View for AccountInfo {
    type V = AccountView;

    open spec fn view(&self) -> AccountView {
        AccountView {
            key: self.key,
            owner: self.owner,
            is_signer: self.is_signer,
            is_writable: self.is_writable,
            lamports: self.lamports,
            data: self.data@,
        }
    }
}

impl AccountInfo {
    /// A copy of the account.
    pub fn clone_account(&self) -> (c: AccountInfo)
        ensures
            c@ == self@,
    {
        AccountInfo {
            key: self.key,
            owner: self.owner,
            is_signer: self.is_signer,
            is_writable: self.is_writable,
            lamports: self.lamports,
            data: self.data.clone(),
        }
    }
}

/// The views of a list of accounts.
pub open spec fn accounts_view(v: Seq<AccountInfo>) -> Seq<AccountView> {
    v.map_values(|a: AccountInfo| a@)
}

/// An account named by an instruction, with how the instruction uses it.
#[derive(Clone, Copy, Debug, PartialEq, Eq, Structural)]
pub struct AccountMeta {
    pub pubkey: Pubkey,
    pub is_signer: bool,
    pub is_writable: bool,
}

/// An instruction for another program.
#[derive(Clone, Debug)]
pub struct Instruction {
    pub program_id: Pubkey,
    pub accounts: Vec<AccountMeta>,
    pub data: Vec<u8>,
}

/// What an `Instruction` holds.
#[verifier::ext_equal]
pub struct InstructionView {
    pub program_id: Pubkey,
    pub accounts: Seq<AccountMeta>,
    pub data: Seq<u8>,
}

impl View for Instruction {
    type V = InstructionView;

    open spec fn view(&self) -> InstructionView {
        InstructionView { program_id: self.program_id, accounts: self.accounts@, data: self.data@ }
    }
}

/// A step that a successful instruction asks the runtime to take, in order.
#[derive(Clone, Debug)]
pub enum Effect {
    /// Create (or allocate and assign) the account at index `account` with `size` zero bytes,
    /// owned by the program, funded by `payer` through the system program at index `system`,
    /// signing for the program address of `seeds`.
    CreateAccount { account: usize, payer: usize, system: usize, size: usize, seeds: Vec<Vec<u8>> },
    /// Write `bytes` at the start of the account's data; zero the whole data first when `clean`.
    Write { account: usize, bytes: Vec<u8>, clean: bool },
    /// Invoke another program's instruction, signing for the program addresses of `signer_seeds`.
    /// When the invoked program fails, the instruction fails with `failure`, or with the invoked
    /// program's own error when `failure` is `None`.
    Invoke {
        instruction: Instruction,
        signer_seeds: Vec<Vec<Vec<u8>>>,
        failure: Option<ProgramError>,
    },
    /// Move all lamports of account `from` to account `to`.
    DrainLamports { from: usize, to: usize },
    /// Zero the first `len` bytes of the account's data (all of it where it is shorter).
    Zero { account: usize, len: usize },
}

/// What an `Effect` holds.
pub enum EffectView {
    CreateAccount { account: usize, payer: usize, system: usize, size: usize, seeds: Seq<Seq<u8>> },
    Write { account: usize, bytes: Seq<u8>, clean: bool },
    Invoke {
        instruction: InstructionView,
        signer_seeds: Seq<Seq<Seq<u8>>>,
        failure: Option<ProgramError>,
    },
    DrainLamports { from: usize, to: usize },
    Zero { account: usize, len: usize },
}

impl View for Effect {
    type V = EffectView;

    open spec fn view(&self) -> EffectView {
        match self {
            Effect::CreateAccount { account, payer, system, size, seeds } => EffectView::CreateAccount {
                account: *account,
                payer: *payer,
                system: *system,
                size: *size,
                seeds: seeds.deep_view(),
            },
            Effect::Write { account, bytes, clean } => EffectView::Write {
                account: *account,
                bytes: bytes@,
                clean: *clean,
            },
            Effect::Invoke { instruction, signer_seeds, failure } => EffectView::Invoke {
                instruction: instruction@,
                signer_seeds: signer_seeds.deep_view(),
                failure: *failure,
            },
            Effect::DrainLamports { from, to } => EffectView::DrainLamports { from: *from, to: *to },
            Effect::Zero { account, len } => EffectView::Zero { account: *account, len: *len },
        }
    }
}

/// The views of a list of effects.
pub open spec fn effects_view(v: Seq<Effect>) -> Seq<EffectView> {
    v.map_values(|e: Effect| e@)
}

/// What an instruction handler's result holds.
pub open spec fn outcome_view(r: Result<Vec<Effect>, ProgramError>) -> Result<
    Seq<EffectView>,
    ProgramError,
> {
    match r {
        Ok(v) => Ok(effects_view(v@)),
        Err(e) => Err(e),
    }
}

/// Appends an effect to a list, which then views as the old list with the effect's view added.
pub fn push_effect(v: &mut Vec<Effect>, e: Effect)
    ensures
        effects_view(final(v)@) == effects_view(old(v)@).push(e@),
{
    v.push(e);
    assert(effects_view(final(v)@) =~= effects_view(old(v)@).push(e@));
}

/// The view of a single effect, or the error in its place.
pub open spec fn effect_result_view(r: Result<Effect, ProgramError>) -> Result<EffectView, ProgramError> {
    match r {
        Ok(e) => Ok(e@),
        Err(e) => Err(e),
    }
}

/// A list of one effect, or the error in its place.
pub open spec fn single(r: Result<EffectView, ProgramError>) -> Result<Seq<EffectView>, ProgramError> {
    match r {
        Ok(e) => Ok(seq![e]),
        Err(e) => Err(e),
    }
}

pub fn single_effect(r: Result<Effect, ProgramError>) -> (o: Result<Vec<Effect>, ProgramError>)
    ensures
        outcome_view(o) == single(effect_result_view(r)),
{
    match r {
        Ok(e) => {
            let v = vec![e];
            assert(effects_view(v@) =~= seq![v@[0]@]);
            Ok(v)
        },
        Err(e) => Err(e),
    }
}

/// A list of two effects, or the first error in their place.
pub open spec fn pair(a: Result<EffectView, ProgramError>, b: Result<EffectView, ProgramError>) -> Result<
    Seq<EffectView>,
    ProgramError,
> {
    match a {
        Err(e) => Err(e),
        Ok(x) => match b {
            Err(e) => Err(e),
            Ok(y) => Ok(seq![x, y]),
        },
    }
}

pub fn pair_effects(a: Result<Effect, ProgramError>, b: Result<Effect, ProgramError>) -> (o: Result<
    Vec<Effect>,
    ProgramError,
>)
    ensures
        outcome_view(o) == pair(effect_result_view(a), effect_result_view(b)),
{
    let x = a?;
    let y = b?;
    let v = vec![x, y];
    assert(effects_view(v@) =~= seq![v@[0]@, v@[1]@]);
    Ok(v)
}

/// The optional last account: present when exactly `n` accounts were passed.
pub open spec fn optional_last(accs: Seq<AccountView>, n: int) -> Option<AccountView> {
    if accs.len() == n {
        Some(accs[n - 1])
    } else {
        None
    }
}

pub fn optional_last_account(accounts: &Vec<AccountInfo>, n: usize) -> (r: Option<&AccountInfo>)
    requires
        n >= 1,
    ensures
        match r {
            Some(a) => optional_last(accounts_view(accounts@), n as int) == Some(a@),
            None => optional_last(accounts_view(accounts@), n as int) is None,
        },
{
    if accounts.len() == n {
        Some(&accounts[n - 1])
    } else {
        None
    }
}

/// An empty list of effects.
pub fn no_effects() -> (v: Vec<Effect>)
    ensures
        effects_view(v@) == Seq::<EffectView>::empty(),
{
    let v: Vec<Effect> = Vec::new();
    assert(effects_view(v@) =~= Seq::<EffectView>::empty());
    v
}

/// Writing a record at the start of an account whose data has `data_len` bytes: the record
/// must fit (a write that runs past the end of the data fails).
pub open spec fn write_effect(i: int, data_len: nat, bytes: Seq<u8>, clean: bool) -> Result<
    EffectView,
    ProgramError,
> {
    if bytes.len() > data_len {
        Err(ProgramError::BorshIoError)
    } else {
        Ok(EffectView::Write { account: i as usize, bytes, clean })
    }
}

pub fn write_account(i: usize, data_len: usize, bytes: Vec<u8>, clean: bool) -> (r: Result<
    Effect,
    ProgramError,
>)
    ensures
        effect_result_view(r) == write_effect(i as int, data_len as nat, bytes@, clean),
{
    if bytes.len() > data_len {
        Err(ProgramError::BorshIoError)
    } else {
        Ok(Effect::Write { account: i, bytes, clean })
    }
}

/// Moving all lamports of account `from` to account `to`, whose balance must not overflow:
/// gives the effect and the new balance of `to`.
pub open spec fn drain_effect(from: int, to: int, from_lamports: u64, to_lamports: u64) -> Result<
    (EffectView, u64),
    ProgramError,
> {
    if to_lamports + from_lamports > u64::MAX {
        Err(merr(MetadataError::NumericalOverflowError))
    } else {
        Ok((EffectView::DrainLamports { from: from as usize, to: to as usize }, (to_lamports + from_lamports) as u64))
    }
}

pub fn drain_lamports(from: usize, to: usize, from_lamports: u64, to_lamports: u64) -> (r: Result<
    (Effect, u64),
    ProgramError,
>)
    ensures
        match r {
            Ok((e, n)) => drain_effect(from as int, to as int, from_lamports, to_lamports) == Ok::<
                (EffectView, u64),
                ProgramError,
            >((e@, n)),
            Err(e) => drain_effect(from as int, to as int, from_lamports, to_lamports) == Err::<
                (EffectView, u64),
                ProgramError,
            >(e),
        },
{
    match to_lamports.checked_add(from_lamports) {
        None => Err(to_program_error(MetadataError::NumericalOverflowError)),
        Some(n) => Ok((Effect::DrainLamports { from, to }, n)),
    }
}

impl Instruction {
    /// An instruction from the bytes of its program id, its accounts (address bytes, signer,
    /// writable) and its data.
    pub fn from_parts(program_id: [u8; 32], metas: Vec<([u8; 32], bool, bool)>, data: Vec<u8>) -> (ix:
        Instruction)
        ensures
            ix@.program_id.bytes() == program_id@,
            ix@.accounts.len() == metas@.len(),
            forall|i: int|
                0 <= i < metas@.len() ==> {
                    &&& (#[trigger] ix@.accounts[i]).pubkey.bytes() == metas@[i].0@
                    &&& ix@.accounts[i].is_signer == metas@[i].1
                    &&& ix@.accounts[i].is_writable == metas@[i].2
                },
            ix@.data == data@,
    {
        let mut accounts: Vec<AccountMeta> = Vec::new();
        let mut i: usize = 0;
        while i < metas.len()
            invariant
                0 <= i <= metas@.len(),
                accounts@.len() == i,
                forall|j: int|
                    0 <= j < i ==> {
                        &&& (#[trigger] accounts@[j]).pubkey.bytes() == metas@[j].0@
                        &&& accounts@[j].is_signer == metas@[j].1
                        &&& accounts@[j].is_writable == metas@[j].2
                    },
            decreases metas@.len() - i,
        {
            let m = &metas[i];
            accounts.push(
                AccountMeta { pubkey: Pubkey::from_array(&m.0), is_signer: m.1, is_writable: m.2 },
            );
            i = i + 1;
        }
        Instruction { program_id: Pubkey::from_array(&program_id), accounts, data }
    }
}

} // verus!
