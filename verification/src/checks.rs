//! The checks that instructions make of their accounts, each with the error it fails with.

use crate::account::{AccountInfo, AccountView};
use crate::error::{merr, to_program_error, MetadataError, ProgramError};
use crate::ids::{spl_token_program_id, token_program_id};
use crate::outside::{
    find_program_address, program_address, spl_account_of_data, spl_mint_of_data, unpack_mint,
    unpack_token_account,
};
use crate::pubkey::Pubkey;
use crate::state::{key_byte, AccountState, Key, Metadata, MetadataView, Mint, TokenAccount};
use vstd::bytes::{spec_u64_from_le_bytes, u64_from_le_bytes};
use vstd::slice::slice_subrange;
use vstd::prelude::*;

verus! {

/// The account must be owned by `owner`.
pub open spec fn chk_owned_by(a: AccountView, owner: Pubkey) -> Result<(), ProgramError> {
    if a.owner != owner {
        Err(merr(MetadataError::IncorrectOwner))
    } else {
        Ok(())
    }
}

pub fn assert_owned_by(a: &AccountInfo, owner: &Pubkey) -> (r: Result<(), ProgramError>)
    ensures
        r == chk_owned_by(a@, *owner),
{
    if a.owner != *owner {
        Err(to_program_error(MetadataError::IncorrectOwner))
    } else {
        Ok(())
    }
}

/// The account must sign.
pub open spec fn chk_signer(a: AccountView) -> Result<(), ProgramError> {
    if !a.is_signer {
        Err(ProgramError::MissingRequiredSignature)
    } else {
        Ok(())
    }
}

pub fn assert_signer(a: &AccountInfo) -> (r: Result<(), ProgramError>)
    ensures
        r == chk_signer(a@),
{
    if !a.is_signer {
        Err(ProgramError::MissingRequiredSignature)
    } else {
        Ok(())
    }
}

/// The account must be the metadata's update authority, and sign.
pub open spec fn chk_update_authority(m: MetadataView, a: AccountView) -> Result<(), ProgramError> {
    if m.update_authority != a.key {
        Err(merr(MetadataError::UpdateAuthorityIncorrect))
    } else if !a.is_signer {
        Err(merr(MetadataError::UpdateAuthorityIsNotSigner))
    } else {
        Ok(())
    }
}

pub fn assert_update_authority_is_correct(m: &Metadata, a: &AccountInfo) -> (r: Result<
    (),
    ProgramError,
>)
    ensures
        r == chk_update_authority(m@, a@),
{
    if m.update_authority != a.key {
        Err(to_program_error(MetadataError::UpdateAuthorityIncorrect))
    } else if !a.is_signer {
        Err(to_program_error(MetadataError::UpdateAuthorityIsNotSigner))
    } else {
        Ok(())
    }
}

/// The initialized mint an account holds: invalid account data when the data does not unpack,
/// uninitialized when it unpacks but is not initialized.
pub open spec fn chk_initialized_mint(a: AccountView) -> Result<Mint, ProgramError> {
    match spl_mint_of_data(a.data) {
        None => Err(ProgramError::InvalidAccountData),
        Some(m) => if !m.is_initialized {
            Err(merr(MetadataError::Uninitialized))
        } else {
            Ok(m)
        },
    }
}

pub fn assert_initialized_mint(a: &AccountInfo) -> (r: Result<Mint, ProgramError>)
    ensures
        r == chk_initialized_mint(a@),
{
    match unpack_mint(a.data.as_slice()) {
        None => Err(ProgramError::InvalidAccountData),
        Some(m) => if !m.is_initialized {
            Err(to_program_error(MetadataError::Uninitialized))
        } else {
            Ok(m)
        },
    }
}

/// The initialized token account an account holds, as for mints.
pub open spec fn chk_initialized_token_account(a: AccountView) -> Result<TokenAccount, ProgramError> {
    match spl_account_of_data(a.data) {
        None => Err(ProgramError::InvalidAccountData),
        Some(t) => if t.state == AccountState::Uninitialized {
            Err(merr(MetadataError::Uninitialized))
        } else {
            Ok(t)
        },
    }
}

pub fn assert_initialized_token_account(a: &AccountInfo) -> (r: Result<TokenAccount, ProgramError>)
    ensures
        r == chk_initialized_token_account(a@),
{
    match unpack_token_account(a.data.as_slice()) {
        None => Err(ProgramError::InvalidAccountData),
        Some(t) => if t.state == AccountState::Uninitialized {
            Err(to_program_error(MetadataError::Uninitialized))
        } else {
            Ok(t)
        },
    }
}

/// The account must be the program address of `seeds`; gives the bump seed. The derivation
/// finding no address stops the program.
pub open spec fn chk_derivation(program_id: Pubkey, a: AccountView, seeds: Seq<Seq<u8>>) -> Result<
    u8,
    ProgramError,
> {
    match program_address(seeds, program_id) {
        None => Err(ProgramError::Aborted),
        Some((k, bump)) => if k != a.key {
            Err(merr(MetadataError::DerivedKeyInvalid))
        } else {
            Ok(bump)
        },
    }
}

pub fn assert_derivation(program_id: &Pubkey, a: &AccountInfo, seeds: &Vec<Vec<u8>>) -> (r: Result<
    u8,
    ProgramError,
>)
    ensures
        r == chk_derivation(*program_id, a@, seeds.deep_view()),
{
    match find_program_address(seeds, program_id) {
        None => Err(ProgramError::Aborted),
        Some((k, bump)) => if k != a.key {
            Err(to_program_error(MetadataError::DerivedKeyInvalid))
        } else {
            Ok(bump)
        },
    }
}

/// The program address of `seeds`; finding none stops the program.
pub open spec fn chk_find_address(seeds: Seq<Seq<u8>>, program_id: Pubkey) -> Result<
    (Pubkey, u8),
    ProgramError,
> {
    match program_address(seeds, program_id) {
        None => Err(ProgramError::Aborted),
        Some(r) => Ok(r),
    }
}

pub fn find_address(seeds: &Vec<Vec<u8>>, program_id: &Pubkey) -> (r: Result<(Pubkey, u8), ProgramError>)
    ensures
        r == chk_find_address(seeds.deep_view(), *program_id),
{
    match find_program_address(seeds, program_id) {
        None => Err(ProgramError::Aborted),
        Some(v) => Ok(v),
    }
}

/// The account must be the mint's minting authority, and sign.
pub open spec fn chk_mint_authority(auth: Option<Pubkey>, a: AccountView) -> Result<(), ProgramError> {
    match auth {
        None => Err(merr(MetadataError::InvalidMintAuthority)),
        Some(k) => if a.key != k {
            Err(merr(MetadataError::InvalidMintAuthority))
        } else if !a.is_signer {
            Err(merr(MetadataError::NotMintAuthority))
        } else {
            Ok(())
        },
    }
}

pub fn assert_mint_authority_matches_mint(auth: &Option<Pubkey>, a: &AccountInfo) -> (r: Result<
    (),
    ProgramError,
>)
    ensures
        r == chk_mint_authority(*auth, a@),
{
    match auth {
        None => Err(to_program_error(MetadataError::InvalidMintAuthority)),
        Some(k) => if a.key != *k {
            Err(to_program_error(MetadataError::InvalidMintAuthority))
        } else if !a.is_signer {
            Err(to_program_error(MetadataError::NotMintAuthority))
        } else {
            Ok(())
        },
    }
}

/// The account must be the mint's freeze authority.
pub open spec fn chk_freeze_authority(auth: Option<Pubkey>, a: AccountView) -> Result<(), ProgramError> {
    match auth {
        None => Err(merr(MetadataError::InvalidFreezeAuthority)),
        Some(k) => if a.key != k {
            Err(merr(MetadataError::InvalidFreezeAuthority))
        } else {
            Ok(())
        },
    }
}

pub fn assert_freeze_authority_matches_mint(auth: &Option<Pubkey>, a: &AccountInfo) -> (r: Result<
    (),
    ProgramError,
>)
    ensures
        r == chk_freeze_authority(*auth, a@),
{
    match auth {
        None => Err(to_program_error(MetadataError::InvalidFreezeAuthority)),
        Some(k) => if a.key != *k {
            Err(to_program_error(MetadataError::InvalidFreezeAuthority))
        } else {
            Ok(())
        },
    }
}

/// The owner must hold at least one token of the metadata's mint in the token account.
/// Gives the token account.
pub open spec fn chk_currently_holding(
    program_id: Pubkey,
    owner: AccountView,
    metadata_info: AccountView,
    m: MetadataView,
    mint_info: AccountView,
    token_info: AccountView,
) -> Result<TokenAccount, ProgramError> {
    if chk_owned_by(metadata_info, program_id) is Err {
        Err(merr(MetadataError::IncorrectOwner))
    } else if chk_owned_by(mint_info, spl_token_program_id()) is Err {
        Err(merr(MetadataError::IncorrectOwner))
    } else {
        match chk_initialized_token_account(token_info) {
            Err(e) => Err(e),
            Ok(t) => if chk_owned_by(token_info, spl_token_program_id()) is Err {
                Err(merr(MetadataError::IncorrectOwner))
            } else if t.owner != owner.key {
                Err(merr(MetadataError::InvalidOwner))
            } else if t.mint != mint_info.key {
                Err(merr(MetadataError::MintMismatch))
            } else if t.amount < 1 {
                Err(merr(MetadataError::NotEnoughTokens))
            } else if t.mint != m.mint {
                Err(merr(MetadataError::MintMismatch))
            } else {
                Ok(t)
            },
        }
    }
}

pub fn assert_currently_holding(
    program_id: &Pubkey,
    owner: &AccountInfo,
    metadata_info: &AccountInfo,
    m: &Metadata,
    mint_info: &AccountInfo,
    token_info: &AccountInfo,
) -> (r: Result<TokenAccount, ProgramError>)
    ensures
        r == chk_currently_holding(*program_id, owner@, metadata_info@, m@, mint_info@, token_info@),
{
    if metadata_info.owner != *program_id {
        return Err(to_program_error(MetadataError::IncorrectOwner));
    }
    let spl = token_program_id();
    assert_owned_by(mint_info, &spl)?;
    let t = assert_initialized_token_account(token_info)?;
    assert_owned_by(token_info, &spl)?;
    if t.owner != owner.key {
        return Err(to_program_error(MetadataError::InvalidOwner));
    }
    if t.mint != mint_info.key {
        return Err(to_program_error(MetadataError::MintMismatch));
    }
    if t.amount < 1 {
        return Err(to_program_error(MetadataError::NotEnoughTokens));
    }
    if t.mint != m.mint {
        return Err(to_program_error(MetadataError::MintMismatch));
    }
    Ok(t)
}

/// The delegate must have been delegated every token of the mint in the token account.
pub open spec fn chk_delegated_tokens(delegate: AccountView, mint_info: AccountView, token_info: AccountView) -> Result<
    (),
    ProgramError,
> {
    if chk_owned_by(mint_info, spl_token_program_id()) is Err {
        Err(merr(MetadataError::IncorrectOwner))
    } else {
        match chk_initialized_token_account(token_info) {
            Err(e) => Err(e),
            Ok(t) => if chk_owned_by(token_info, spl_token_program_id()) is Err {
                Err(merr(MetadataError::IncorrectOwner))
            } else if t.mint != mint_info.key {
                Err(merr(MetadataError::MintMismatch))
            } else if t.amount < 1 {
                Err(merr(MetadataError::NotEnoughTokens))
            } else if t.delegate is None || t.delegated_amount != t.amount || t.delegate.unwrap()
                != delegate.key {
                Err(merr(MetadataError::InvalidDelegate))
            } else {
                Ok(())
            },
        }
    }
}

pub fn assert_delegated_tokens(delegate: &AccountInfo, mint_info: &AccountInfo, token_info: &AccountInfo) -> (r: Result<
    (),
    ProgramError,
>)
    ensures
        r == chk_delegated_tokens(delegate@, mint_info@, token_info@),
{
    let spl = token_program_id();
    assert_owned_by(mint_info, &spl)?;
    let t = assert_initialized_token_account(token_info)?;
    assert_owned_by(token_info, &spl)?;
    if t.mint != mint_info.key {
        return Err(to_program_error(MetadataError::MintMismatch));
    }
    if t.amount < 1 {
        return Err(to_program_error(MetadataError::NotEnoughTokens));
    }
    let bad = match t.delegate {
        None => true,
        Some(d) => t.delegated_amount != t.amount || d != delegate.key,
    };
    if bad {
        return Err(to_program_error(MetadataError::InvalidDelegate));
    }
    Ok(())
}

// ---------------------------------------------------------------- raw mint fields

/// The decimals byte of a mint's data (byte 44); shorter data stops the program.
pub open spec fn chk_mint_decimals(a: AccountView) -> Result<u8, ProgramError> {
    if a.data.len() <= 44 {
        Err(ProgramError::Aborted)
    } else {
        Ok(a.data[44])
    }
}

pub fn get_mint_decimals(a: &AccountInfo) -> (r: Result<u8, ProgramError>)
    ensures
        r == chk_mint_decimals(a@),
{
    if a.data.len() <= 44 {
        Err(ProgramError::Aborted)
    } else {
        Ok(a.data[44])
    }
}

/// The supply of a mint's data (bytes 36 to 44, little endian); shorter data stops the program.
pub open spec fn chk_mint_supply(a: AccountView) -> Result<u64, ProgramError> {
    if a.data.len() < 44 {
        Err(ProgramError::Aborted)
    } else {
        Ok(spec_u64_from_le_bytes(a.data.subrange(36, 44)))
    }
}

pub fn get_mint_supply(a: &AccountInfo) -> (r: Result<u64, ProgramError>)
    ensures
        r == chk_mint_supply(a@),
{
    if a.data.len() < 44 {
        Err(ProgramError::Aborted)
    } else {
        Ok(u64_from_le_bytes(slice_subrange(a.data.as_slice(), 36, 44)))
    }
}

/// The mint authority of a mint's data (a four-byte tag, then the key); shorter data stops
/// the program, a tag other than 0 or 1 is invalid account data.
pub open spec fn chk_mint_authority_field(a: AccountView) -> Result<Option<Pubkey>, ProgramError> {
    if a.data.len() < 36 {
        Err(ProgramError::Aborted)
    } else if a.data.subrange(0, 4) == seq![0u8, 0, 0, 0] {
        Ok(None)
    } else if a.data.subrange(0, 4) == seq![1u8, 0, 0, 0] {
        Ok(Some(Pubkey::spec_from_bytes_at(a.data, 4)))
    } else {
        Err(ProgramError::InvalidAccountData)
    }
}

pub fn get_mint_authority(a: &AccountInfo) -> (r: Result<Option<Pubkey>, ProgramError>)
    ensures
        r == chk_mint_authority_field(a@),
{
    if a.data.len() < 36 {
        return Err(ProgramError::Aborted);
    }
    let d = a.data.as_slice();
    let ghost tag = a@.data.subrange(0, 4);
    if d[0] == 0 && d[1] == 0 && d[2] == 0 && d[3] == 0 {
        assert(tag =~= seq![0u8, 0, 0, 0]);
        Ok(None)
    } else if d[0] == 1 && d[1] == 0 && d[2] == 0 && d[3] == 0 {
        assert(tag =~= seq![1u8, 0, 0, 0]);
        Ok(Some(Pubkey::from_bytes_at(d, 4)))
    } else {
        assert(tag != seq![0u8, 0, 0, 0] ==> tag[0] != 0 || tag[1] != 0 || tag[2] != 0 || tag[3] != 0);
        assert(tag != seq![0u8, 0, 0, 0]) by {
            if tag == seq![0u8, 0, 0, 0] {
                assert(tag[0] == 0 && tag[1] == 0 && tag[2] == 0 && tag[3] == 0);
            }
        }
        assert(tag != seq![1u8, 0, 0, 0]) by {
            if tag == seq![1u8, 0, 0, 0] {
                assert(tag[0] == 1 && tag[1] == 0 && tag[2] == 0 && tag[3] == 0);
            }
        }
        Err(ProgramError::InvalidAccountData)
    }
}

/// An account holds a master edition (either layout) of a mint with no decimals and a supply
/// of one; empty data stops the program.
pub open spec fn chk_is_master_edition(edition: AccountView, decimals: u8, supply: u64) -> Result<bool, ProgramError> {
    if edition.data.len() == 0 {
        Err(ProgramError::Aborted)
    } else {
        Ok((edition.data[0] == key_byte(Key::MasterEditionV1) || edition.data[0] == key_byte(Key::MasterEditionV2))
            && decimals == 0 && supply == 1)
    }
}

pub fn is_master_edition(edition: &AccountInfo, decimals: u8, supply: u64) -> (r: Result<bool, ProgramError>)
    ensures
        r == chk_is_master_edition(edition@, decimals, supply),
{
    if edition.data.len() == 0 {
        return Err(ProgramError::Aborted);
    }
    let k = edition.data[0];
    Ok((k == 2 || k == 6) && decimals == 0 && supply == 1)
}

/// An account holds a print edition of a mint with no decimals and a supply of one; empty data
/// stops the program.
pub open spec fn chk_is_print_edition(edition: AccountView, decimals: u8, supply: u64) -> Result<bool, ProgramError> {
    if edition.data.len() == 0 {
        Err(ProgramError::Aborted)
    } else {
        Ok(edition.data[0] == key_byte(Key::EditionV1) && decimals == 0 && supply == 1)
    }
}

pub fn is_print_edition(edition: &AccountInfo, decimals: u8, supply: u64) -> (r: Result<bool, ProgramError>)
    ensures
        r == chk_is_print_edition(edition@, decimals, supply),
{
    if edition.data.len() == 0 {
        return Err(ProgramError::Aborted);
    }
    let k = edition.data[0];
    Ok(k == 1 && decimals == 0 && supply == 1)
}

/// The freeze authority of a mint's data (a four-byte tag at byte 46, then the key); data
/// shorter than a mint stops the program, a tag other than 0 or 1 is invalid account data.
pub open spec fn chk_mint_freeze_authority_field(a: AccountView) -> Result<Option<Pubkey>, ProgramError> {
    if a.data.len() < 82 {
        Err(ProgramError::Aborted)
    } else if a.data.subrange(46, 50) == seq![0u8, 0, 0, 0] {
        Ok(None)
    } else if a.data.subrange(46, 50) == seq![1u8, 0, 0, 0] {
        Ok(Some(Pubkey::spec_from_bytes_at(a.data, 50)))
    } else {
        Err(ProgramError::InvalidAccountData)
    }
}

pub fn get_mint_freeze_authority(a: &AccountInfo) -> (r: Result<Option<Pubkey>, ProgramError>)
    ensures
        r == chk_mint_freeze_authority_field(a@),
{
    if a.data.len() < 82 {
        return Err(ProgramError::Aborted);
    }
    let d = a.data.as_slice();
    let ghost tag = a@.data.subrange(46, 50);
    if d[46] == 0 && d[47] == 0 && d[48] == 0 && d[49] == 0 {
        assert(tag =~= seq![0u8, 0, 0, 0]);
        Ok(None)
    } else if d[46] == 1 && d[47] == 0 && d[48] == 0 && d[49] == 0 {
        assert(tag =~= seq![1u8, 0, 0, 0]);
        Ok(Some(Pubkey::from_bytes_at(d, 50)))
    } else {
        assert(tag != seq![0u8, 0, 0, 0]) by {
            if tag == seq![0u8, 0, 0, 0] {
                assert(tag[0] == 0 && tag[1] == 0 && tag[2] == 0 && tag[3] == 0);
            }
        }
        assert(tag != seq![1u8, 0, 0, 0]) by {
            if tag == seq![1u8, 0, 0, 0] {
                assert(tag[0] == 1 && tag[1] == 0 && tag[2] == 0 && tag[3] == 0);
            }
        }
        Err(ProgramError::InvalidAccountData)
    }
}

/// The supply field of a master edition's data (bytes 1 to 9); shorter data stops the program.
pub open spec fn chk_master_supply_field(a: AccountView) -> Result<u64, ProgramError> {
    if a.data.len() < 9 {
        Err(ProgramError::Aborted)
    } else {
        Ok(spec_u64_from_le_bytes(a.data.subrange(1, 9)))
    }
}

pub fn get_master_supply(a: &AccountInfo) -> (r: Result<u64, ProgramError>)
    ensures
        r == chk_master_supply_field(a@),
{
    if a.data.len() < 9 {
        Err(ProgramError::Aborted)
    } else {
        Ok(u64_from_le_bytes(slice_subrange(a.data.as_slice(), 1, 9)))
    }
}

/// The supply limit of a master edition's data (a tag at byte 9, then the limit); short data
/// stops the program, a tag other than 0 or 1 is invalid account data.
pub open spec fn chk_master_max_supply_field(a: AccountView) -> Result<Option<u64>, ProgramError> {
    if a.data.len() < 10 {
        Err(ProgramError::Aborted)
    } else if a.data[9] == 0 {
        Ok(None)
    } else if a.data[9] != 1 {
        Err(ProgramError::InvalidAccountData)
    } else if a.data.len() < 18 {
        Err(ProgramError::Aborted)
    } else {
        Ok(Some(spec_u64_from_le_bytes(a.data.subrange(10, 18))))
    }
}

pub fn get_master_max_supply(a: &AccountInfo) -> (r: Result<Option<u64>, ProgramError>)
    ensures
        r == chk_master_max_supply_field(a@),
{
    let d = a.data.as_slice();
    if d.len() < 10 {
        Err(ProgramError::Aborted)
    } else if d[9] == 0 {
        Ok(None)
    } else if d[9] != 1 {
        Err(ProgramError::InvalidAccountData)
    } else if d.len() < 18 {
        Err(ProgramError::Aborted)
    } else {
        Ok(Some(u64_from_le_bytes(slice_subrange(d, 10, 18))))
    }
}

} // verus!
