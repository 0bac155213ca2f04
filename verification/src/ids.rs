//! Well-known program and sysvar addresses, and the seeds of the program's addresses.

use crate::pubkey::Pubkey;
use vstd::prelude::*;

verus! {

/// The token program: `TokenkegQfeZyiNwAJbNbGKPFXCWuBvf9Ss623VQ5DA`.
pub open spec fn spl_token_program_id() -> Pubkey {
    Pubkey {
        w0: 10637895772709248262,
        w1: 12428223917890587609,
        w2: 10463932726783620124,
        w3: 12178014311288245306,
    }
}

/// The token program's address.
pub fn token_program_id() -> (k: Pubkey)
    ensures
        k == spl_token_program_id(),
{
    Pubkey {
        w0: 10637895772709248262,
        w1: 12428223917890587609,
        w2: 10463932726783620124,
        w3: 12178014311288245306,
    }
}

/// The rent sysvar: `SysvarRent111111111111111111111111111111111`.
pub open spec fn rent_sysvar_id() -> Pubkey {
    Pubkey { w0: 5862609301215225606, w1: 9219231539345853473, w2: 4971307250928769624, w3: 2329533411 }
}

/// The rent sysvar's address.
pub fn rent_id() -> (k: Pubkey)
    ensures
        k == rent_sysvar_id(),
{
    Pubkey { w0: 5862609301215225606, w1: 9219231539345853473, w2: 4971307250928769624, w3: 2329533411 }
}

/// The token-metadata program: `metaqbxxUerdq28cj1RbAWkYQm3ybzjb6a8bt518x1s`.
pub open spec fn metadata_program_id() -> Pubkey {
    Pubkey {
        w0: 5007107661593145355,
        w1: 14826699257977937208,
        w2: 13113813725438851160,
        w3: 5055844751636543049,
    }
}

/// The token-metadata program's address.
pub fn program_id() -> (k: Pubkey)
    ensures
        k == metadata_program_id(),
{
    Pubkey {
        w0: 5007107661593145355,
        w1: 14826699257977937208,
        w2: 13113813725438851160,
        w3: 5055844751636543049,
    }
}

/// The compressed-NFT program: `BGUMAp9Gq7iTEuizy4pqaxsTyUCBK68MDfK752saRPUY`.
pub open spec fn bubblegum_program_id() -> Pubkey {
    Pubkey {
        w0: 7577365170809244568,
        w1: 9997953073709065394,
        w2: 2414326169681418278,
        w3: 11936158626145383718,
    }
}

/// The compressed-NFT program's address.
pub fn bubblegum_id() -> (k: Pubkey)
    ensures
        k == bubblegum_program_id(),
{
    Pubkey {
        w0: 7577365170809244568,
        w1: 9997953073709065394,
        w2: 2414326169681418278,
        w3: 11936158626145383718,
    }
}

/// The authority that may seed metadata for mints whose authority has not created it:
/// `AqH29mZfQFgRpfwaPoTMWSKJ5kqauoc1FwVBRksZyQrt`.
pub open spec fn seed_authority_key() -> Pubkey {
    Pubkey {
        w0: 4737889555492640658,
        w1: 2739420380019875321,
        w2: 18076449456980726528,
        w3: 5278397524046484084,
    }
}

/// The seeding authority's address.
pub fn seed_authority() -> (k: Pubkey)
    ensures
        k == seed_authority_key(),
{
    Pubkey {
        w0: 4737889555492640658,
        w1: 2739420380019875321,
        w2: 18076449456980726528,
        w3: 5278397524046484084,
    }
}

/// Whether the compressed-NFT program may set collection sizes.
pub const BUBBLEGUM_ACTIVATED: bool = false;

/// A byte vector's deep view is its view.
pub proof fn lemma_byte_vec_deep_view(v: Vec<u8>)
    ensures
        v.deep_view() == v@,
{
    assert(v.deep_view() =~= v@);
}

/// `metadata`
pub open spec fn prefix_seed() -> Seq<u8> {
    seq![109u8, 101, 116, 97, 100, 97, 116, 97]
}

/// `edition`
pub open spec fn edition_seed() -> Seq<u8> {
    seq![101u8, 100, 105, 116, 105, 111, 110]
}

/// `user`
pub open spec fn user_seed() -> Seq<u8> {
    seq![117u8, 115, 101, 114]
}

/// `burn`
pub open spec fn burn_seed() -> Seq<u8> {
    seq![98u8, 117, 114, 110]
}

/// `collection_authority`
pub open spec fn collection_authority_seed() -> Seq<u8> {
    seq![99u8, 111, 108, 108, 101, 99, 116, 105, 111, 110, 95, 97, 117, 116, 104, 111, 114, 105, 116, 121]
}

pub fn prefix() -> (v: Vec<u8>)
    ensures
        v@ == prefix_seed(),
{
    let v = vec![109u8, 101, 116, 97, 100, 97, 116, 97];
    assert(v@ =~= prefix_seed());
    v
}

pub fn edition() -> (v: Vec<u8>)
    ensures
        v@ == edition_seed(),
{
    let v = vec![101u8, 100, 105, 116, 105, 111, 110];
    assert(v@ =~= edition_seed());
    v
}

pub fn user() -> (v: Vec<u8>)
    ensures
        v@ == user_seed(),
{
    let v = vec![117u8, 115, 101, 114];
    assert(v@ =~= user_seed());
    v
}

pub fn burn() -> (v: Vec<u8>)
    ensures
        v@ == burn_seed(),
{
    let v = vec![98u8, 117, 114, 110];
    assert(v@ =~= burn_seed());
    v
}

pub fn collection_authority() -> (v: Vec<u8>)
    ensures
        v@ == collection_authority_seed(),
{
    let v = vec![99u8, 111, 108, 108, 101, 99, 116, 105, 111, 110, 95, 97, 117, 116, 104, 111, 114, 105, 116, 121];
    assert(v@ =~= collection_authority_seed());
    v
}

} // verus!
