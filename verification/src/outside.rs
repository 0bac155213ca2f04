//! Calls into the standard library, the Solana program library and the token program,
//! each with the contract that this library relies on.

use crate::account::{AccountMeta, Instruction, InstructionView};
use crate::error::ProgramError;
use crate::ids::spl_token_program_id;
use crate::pubkey::Pubkey;
use crate::state::{AccountState, Mint, TokenAccount};
use solana_program::pubkey::Pubkey as SolKey;
use spl_token::instruction::AuthorityType as T;
use spl_token::state::{Account as SplAccount, AccountState as SplState, Mint as SplMint};
use solana_program::program_pack::Pack;
use vstd::bytes::{spec_u64_from_le_bytes, spec_u64_to_le_bytes};
use vstd::prelude::*;
use vstd::utf8::valid_utf8;

verus! {

/// `std::str::from_utf8`: succeeds exactly when the bytes are UTF-8. This wrapper reports
/// whether it succeeded; validity is stated with vstd's definition of UTF-8.
#[verifier::external_body]
pub(crate) fn is_utf8(bytes: &[u8]) -> (b: bool)
    ensures
        b == valid_utf8(bytes@),
{
    std::str::from_utf8(bytes).is_ok()
}


/// The program address derived from `seeds` and a program id, with its bump seed, as
/// `Pubkey::try_find_program_address` computes it (`None` when no bump from 255 down to 1 gives
/// an address off the curve, or the seeds are too many or too long).
pub uninterp spec fn program_address(seeds: Seq<Seq<u8>>, program_id: Pubkey) -> Option<(Pubkey, u8)>;

/// `solana_program::pubkey::Pubkey::try_find_program_address`: its result is a function of the
/// seeds and the program id alone.
#[verifier::external_body]
pub(crate) fn find_program_address(seeds: &Vec<Vec<u8>>, program_id: &Pubkey) -> (r: Option<(Pubkey, u8)>)
    ensures
        r == program_address(seeds.deep_view(), *program_id),
{
    let refs: Vec<&[u8]> = seeds.iter().map(|s| s.as_slice()).collect();
    let pid = SolKey::new_from_array(program_id.to_array());
    SolKey::try_find_program_address(&refs, &pid).map(|(k, b)| (Pubkey::from_array(&k.to_bytes()), b))
}

/// An optional address as the token program lays it out: a four-byte little-endian tag (0 for
/// none, 1 for some; any other tag is invalid) and the address's 32 bytes.
pub open spec fn coption_key_at(d: Seq<u8>, p: int) -> Option<Option<Pubkey>> {
    if d[p + 1] != 0 || d[p + 2] != 0 || d[p + 3] != 0 {
        None
    } else if d[p] == 0 {
        Some(None)
    } else if d[p] == 1 {
        Some(Some(Pubkey::spec_from_bytes_at(d, p + 4)))
    } else {
        None
    }
}

/// An optional number as the token program lays it out: a four-byte tag and eight bytes.
pub open spec fn coption_u64_at(d: Seq<u8>, p: int) -> Option<Option<u64>> {
    if d[p + 1] != 0 || d[p + 2] != 0 || d[p + 3] != 0 {
        None
    } else if d[p] == 0 {
        Some(None)
    } else if d[p] == 1 {
        Some(Some(spec_u64_from_le_bytes(d.subrange(p + 4, p + 12))))
    } else {
        None
    }
}

/// The mint that token-program data holds, as `Mint::unpack_unchecked` reads it: exactly 82
/// bytes, the mint authority (bytes 0..36), supply (36..44), decimals (44), the initialized
/// flag (45, 0 or 1) and the freeze authority (46..82).
pub open spec fn spl_mint_of_data(data: Seq<u8>) -> Option<Mint> {
    if data.len() != 82 || data[45] > 1 {
        None
    } else {
        match (coption_key_at(data, 0), coption_key_at(data, 46)) {
            (Some(mint_authority), Some(freeze_authority)) => Some(
                Mint {
                    mint_authority,
                    supply: spec_u64_from_le_bytes(data.subrange(36, 44)),
                    decimals: data[44],
                    is_initialized: data[45] == 1,
                    freeze_authority,
                },
            ),
            _ => None,
        }
    }
}

/// `spl_token::state::Mint::unpack_unchecked`: reads the mint laid out as `spl_mint_of_data`
/// states, and fails where that gives none (wrong length, invalid tag or flag).
#[verifier::external_body]
pub(crate) fn unpack_mint(data: &[u8]) -> (r: Option<Mint>)
    ensures
        r == spl_mint_of_data(data@),
        r is Some ==> data@.len() == 82,
{
    SplMint::unpack_unchecked(data).ok().map(|m| Mint {
        mint_authority: Option::from(m.mint_authority).map(|k: SolKey| Pubkey::from_array(&k.to_bytes())),
        supply: m.supply,
        decimals: m.decimals,
        is_initialized: m.is_initialized,
        freeze_authority: Option::from(m.freeze_authority).map(|k: SolKey| Pubkey::from_array(&k.to_bytes())),
    })
}

/// A token account's state byte: 0, 1 and 2 are uninitialized, initialized and frozen.
pub open spec fn account_state_of_byte(b: u8) -> Option<AccountState> {
    if b == 0 {
        Some(AccountState::Uninitialized)
    } else if b == 1 {
        Some(AccountState::Initialized)
    } else if b == 2 {
        Some(AccountState::Frozen)
    } else {
        None
    }
}

/// The token account that token-program data holds, as `Account::unpack_unchecked` reads it:
/// exactly 165 bytes, the mint (0..32), owner (32..64), amount (64..72), delegate (72..108),
/// state (108), native reserve (109..121), delegated amount (121..129) and close authority
/// (129..165).
pub open spec fn spl_account_of_data(data: Seq<u8>) -> Option<TokenAccount> {
    if data.len() != 165 {
        None
    } else {
        match (
            coption_key_at(data, 72),
            account_state_of_byte(data[108]),
            coption_u64_at(data, 109),
            coption_key_at(data, 129),
        ) {
            (Some(delegate), Some(state), Some(is_native), Some(close_authority)) => Some(
                TokenAccount {
                    mint: Pubkey::spec_from_bytes_at(data, 0),
                    owner: Pubkey::spec_from_bytes_at(data, 32),
                    amount: spec_u64_from_le_bytes(data.subrange(64, 72)),
                    delegate,
                    state,
                    is_native,
                    delegated_amount: spec_u64_from_le_bytes(data.subrange(121, 129)),
                    close_authority,
                },
            ),
            _ => None,
        }
    }
}

/// `spl_token::state::Account::unpack_unchecked`: reads the token account laid out as
/// `spl_account_of_data` states, and fails where that gives none (wrong length, invalid tag or
/// state).
#[verifier::external_body]
pub(crate) fn unpack_token_account(data: &[u8]) -> (r: Option<TokenAccount>)
    ensures
        r == spl_account_of_data(data@),
        r is Some ==> data@.len() == 165,
{
    let key = |k: SolKey| Pubkey::from_array(&k.to_bytes());
    SplAccount::unpack_unchecked(data).ok().map(|a| TokenAccount {
        mint: key(a.mint), owner: key(a.owner), amount: a.amount,
        delegate: Option::from(a.delegate).map(key),
        state: match a.state { SplState::Uninitialized => AccountState::Uninitialized, SplState::Initialized => AccountState::Initialized, SplState::Frozen => AccountState::Frozen },
        is_native: Option::from(a.is_native), delegated_amount: a.delegated_amount,
        close_authority: Option::from(a.close_authority).map(key),
    })
}

/// An account named by an instruction.
pub open spec fn meta(k: Pubkey, is_signer: bool, is_writable: bool) -> AccountMeta {
    AccountMeta { pubkey: k, is_signer, is_writable }
}

/// What a token-program instruction builder gives: the instruction when the program id is
/// the token program's, and an incorrect program id error otherwise.
pub open spec fn token_ix_ok(
    r: Result<Instruction, ProgramError>,
    token_program: Pubkey,
    accounts: Seq<AccountMeta>,
    data: Seq<u8>,
) -> bool {
    match r {
        Ok(ix) => token_program == spl_token_program_id() && ix@ == InstructionView {
            program_id: token_program,
            accounts,
            data,
        },
        Err(e) => token_program != spl_token_program_id() && e == ProgramError::IncorrectProgramId,
    }
}

/// `spl_token::instruction::transfer` with no multisig signers: source and destination writable,
/// the authority signing; data is 3 and the amount in eight little-endian bytes.
#[verifier::external_body]
pub(crate) fn token_transfer(
    token_program: &Pubkey,
    source: &Pubkey,
    destination: &Pubkey,
    authority: &Pubkey,
    amount: u64,
) -> (r: Result<Instruction, ProgramError>)
    ensures
        token_ix_ok(
            r,
            *token_program,
            seq![meta(*source, false, true), meta(*destination, false, true), meta(*authority, true, false)],
            seq![3u8] + spec_u64_to_le_bytes(amount),
        ),
{
    let k = |p: &Pubkey| SolKey::new_from_array(p.to_array());
    let r = spl_token::instruction::transfer(&k(token_program), &k(source), &k(destination), &k(authority), &[], amount);
    r.map(|ix| Instruction::from_parts(ix.program_id.to_bytes(), ix.accounts.iter().map(|m| (m.pubkey.to_bytes(), m.is_signer, m.is_writable)).collect(), ix.data))
        .map_err(|_| ProgramError::IncorrectProgramId)
}


/// `spl_token::instruction::approve` with no multisig signers: source writable, delegate
/// read-only, owner signing; data is 4 and the amount in eight little-endian bytes.
#[verifier::external_body]
pub(crate) fn token_approve(
    token_program: &Pubkey,
    source: &Pubkey,
    delegate: &Pubkey,
    owner: &Pubkey,
    amount: u64,
) -> (r: Result<Instruction, ProgramError>)
    ensures
        token_ix_ok(
            r,
            *token_program,
            seq![meta(*source, false, true), meta(*delegate, false, false), meta(*owner, true, false)],
            seq![4u8] + spec_u64_to_le_bytes(amount),
        ),
{
    let k = |p: &Pubkey| SolKey::new_from_array(p.to_array());
    let r = spl_token::instruction::approve(&k(token_program), &k(source), &k(delegate), &k(owner), &[], amount);
    r.map(|ix| Instruction::from_parts(ix.program_id.to_bytes(), ix.accounts.iter().map(|m| (m.pubkey.to_bytes(), m.is_signer, m.is_writable)).collect(), ix.data))
        .map_err(|_| ProgramError::IncorrectProgramId)
}

/// `spl_token::instruction::revoke` with no multisig signers: source writable, owner signing;
/// data is 5.
#[verifier::external_body]
pub(crate) fn token_revoke(
    token_program: &Pubkey,
    source: &Pubkey,
    owner: &Pubkey,
) -> (r: Result<Instruction, ProgramError>)
    ensures
        token_ix_ok(
            r,
            *token_program,
            seq![meta(*source, false, true), meta(*owner, true, false)],
            seq![5u8],
        ),
{
    let k = |p: &Pubkey| SolKey::new_from_array(p.to_array());
    let r = spl_token::instruction::revoke(&k(token_program), &k(source), &k(owner), &[]);
    r.map(|ix| Instruction::from_parts(ix.program_id.to_bytes(), ix.accounts.iter().map(|m| (m.pubkey.to_bytes(), m.is_signer, m.is_writable)).collect(), ix.data))
        .map_err(|_| ProgramError::IncorrectProgramId)
}

/// `spl_token::instruction::burn` with no multisig signers: account and mint writable, the
/// authority signing; data is 8 and the amount in eight little-endian bytes.
#[verifier::external_body]
pub(crate) fn token_burn(
    token_program: &Pubkey,
    account: &Pubkey,
    mint: &Pubkey,
    authority: &Pubkey,
    amount: u64,
) -> (r: Result<Instruction, ProgramError>)
    ensures
        token_ix_ok(
            r,
            *token_program,
            seq![meta(*account, false, true), meta(*mint, false, true), meta(*authority, true, false)],
            seq![8u8] + spec_u64_to_le_bytes(amount),
        ),
{
    let k = |p: &Pubkey| SolKey::new_from_array(p.to_array());
    let r = spl_token::instruction::burn(&k(token_program), &k(account), &k(mint), &k(authority), &[], amount);
    r.map(|ix| Instruction::from_parts(ix.program_id.to_bytes(), ix.accounts.iter().map(|m| (m.pubkey.to_bytes(), m.is_signer, m.is_writable)).collect(), ix.data))
        .map_err(|_| ProgramError::IncorrectProgramId)
}

/// `spl_token::instruction::close_account` with no multisig signers: account and destination
/// writable, owner signing; data is 9.
#[verifier::external_body]
pub(crate) fn token_close_account(
    token_program: &Pubkey,
    account: &Pubkey,
    destination: &Pubkey,
    owner: &Pubkey,
) -> (r: Result<Instruction, ProgramError>)
    ensures
        token_ix_ok(
            r,
            *token_program,
            seq![meta(*account, false, true), meta(*destination, false, true), meta(*owner, true, false)],
            seq![9u8],
        ),
{
    let k = |p: &Pubkey| SolKey::new_from_array(p.to_array());
    let r = spl_token::instruction::close_account(&k(token_program), &k(account), &k(destination), &k(owner), &[]);
    r.map(|ix| Instruction::from_parts(ix.program_id.to_bytes(), ix.accounts.iter().map(|m| (m.pubkey.to_bytes(), m.is_signer, m.is_writable)).collect(), ix.data))
        .map_err(|_| ProgramError::IncorrectProgramId)
}

/// `spl_token::instruction::freeze_account` with no multisig signers: account writable, mint
/// read-only, freeze authority signing; data is 10.
#[verifier::external_body]
pub(crate) fn token_freeze_account(
    token_program: &Pubkey,
    account: &Pubkey,
    mint: &Pubkey,
    owner: &Pubkey,
) -> (r: Result<Instruction, ProgramError>)
    ensures
        token_ix_ok(
            r,
            *token_program,
            seq![meta(*account, false, true), meta(*mint, false, false), meta(*owner, true, false)],
            seq![10u8],
        ),
{
    let k = |p: &Pubkey| SolKey::new_from_array(p.to_array());
    let r = spl_token::instruction::freeze_account(&k(token_program), &k(account), &k(mint), &k(owner), &[]);
    r.map(|ix| Instruction::from_parts(ix.program_id.to_bytes(), ix.accounts.iter().map(|m| (m.pubkey.to_bytes(), m.is_signer, m.is_writable)).collect(), ix.data))
        .map_err(|_| ProgramError::IncorrectProgramId)
}

/// `spl_token::instruction::thaw_account` with no multisig signers: account writable, mint
/// read-only, freeze authority signing; data is 11.
#[verifier::external_body]
pub(crate) fn token_thaw_account(
    token_program: &Pubkey,
    account: &Pubkey,
    mint: &Pubkey,
    owner: &Pubkey,
) -> (r: Result<Instruction, ProgramError>)
    ensures
        token_ix_ok(
            r,
            *token_program,
            seq![meta(*account, false, true), meta(*mint, false, false), meta(*owner, true, false)],
            seq![11u8],
        ),
{
    let k = |p: &Pubkey| SolKey::new_from_array(p.to_array());
    let r = spl_token::instruction::thaw_account(&k(token_program), &k(account), &k(mint), &k(owner), &[]);
    r.map(|ix| Instruction::from_parts(ix.program_id.to_bytes(), ix.accounts.iter().map(|m| (m.pubkey.to_bytes(), m.is_signer, m.is_writable)).collect(), ix.data))
        .map_err(|_| ProgramError::IncorrectProgramId)
}

/// Which authority of a mint or token account a set-authority instruction moves.
#[derive(Clone, Copy, Debug, PartialEq, Eq, Structural)]
pub enum TokenAuthority {
    MintTokens,
    FreezeAccount,
    AccountOwner,
    CloseAccount,
}

pub open spec fn token_authority_byte(t: TokenAuthority) -> u8 {
    match t {
        TokenAuthority::MintTokens => 0,
        TokenAuthority::FreezeAccount => 1,
        TokenAuthority::AccountOwner => 2,
        TokenAuthority::CloseAccount => 3,
    }
}

/// The instruction data that moves an authority: 6, the authority type, then 0 for no new
/// authority or 1 and the new authority's bytes.
pub open spec fn set_authority_data(t: TokenAuthority, new_authority: Option<Pubkey>) -> Seq<u8> {
    match new_authority {
        Some(a) => seq![6u8, token_authority_byte(t), 1u8] + a.bytes(),
        None => seq![6u8, token_authority_byte(t), 0u8],
    }
}

/// The accounts of a set-authority instruction: the owned account writable, the current
/// authority (signing only when there are no multisig signers), then each multisig signer.
pub open spec fn set_authority_metas(owned: Pubkey, owner: Pubkey, signers: Seq<Pubkey>) -> Seq<AccountMeta> {
    seq![meta(owned, false, true), meta(owner, signers.len() == 0, false)] + signers.map_values(
        |s: Pubkey| meta(s, true, false),
    )
}

/// `spl_token::instruction::set_authority` with the current authority as its one multisig
/// signer, moving the authority to `new_authority`.
#[verifier::external_body]
pub(crate) fn token_set_authority(
    token_program: &Pubkey,
    owned: &Pubkey,
    new_authority: &Pubkey,
    authority_type: TokenAuthority,
    owner: &Pubkey,
) -> (r: Result<Instruction, ProgramError>)
    ensures
        token_ix_ok(
            r,
            *token_program,
            set_authority_metas(*owned, *owner, seq![*owner]),
            set_authority_data(authority_type, Some(*new_authority)),
        ),
{
    let k = |p: &Pubkey| SolKey::new_from_array(p.to_array());
    let at = match authority_type {
        TokenAuthority::MintTokens => T::MintTokens,
        TokenAuthority::FreezeAccount => T::FreezeAccount,
        TokenAuthority::AccountOwner => T::AccountOwner,
        TokenAuthority::CloseAccount => T::CloseAccount,
    };
    let r = spl_token::instruction::set_authority(&k(token_program), &k(owned), Some(&k(new_authority)), at, &k(owner), &[&k(owner)]);
    r.map(|ix| Instruction::from_parts(ix.program_id.to_bytes(), ix.accounts.iter().map(|m| (m.pubkey.to_bytes(), m.is_signer, m.is_writable)).collect(), ix.data))
        .map_err(|_| ProgramError::IncorrectProgramId)
}

} // verus!
