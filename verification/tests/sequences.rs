use solana_program::program_option::COption;
use solana_program::program_pack::Pack;
use solana_program::pubkey::Pubkey as SolKey;
use token_metadata::account::{AccountInfo, Effect};
use token_metadata::collection_ix::{unverify_sized_collection_item, verify_collection, verify_sized_collection_item};
use token_metadata::decode::metadata_from_data;
use token_metadata::encode::encode_metadata;
use token_metadata::error::{MetadataError, ProgramError};
use token_metadata::ids::{program_id, token_program_id};
use token_metadata::metadata_ix::{
    process_puff_metadata_account, process_remove_creator_verification, process_sign_metadata,
    process_update_metadata_accounts_v2,
};
use token_metadata::pubkey::Pubkey;
use token_metadata::runtime::{apply_effect_to, apply_effects_to};
use token_metadata::state::{Collection, CollectionDetails, Creator, Data, Key, Metadata, UseMethod, Uses, MAX_METADATA_LEN};
use token_metadata::use_ix::{process_approve_use_authority, process_revoke_use_authority};

fn key(n: u8) -> Pubkey {
    Pubkey::from_array(&[n; 32])
}

fn sol(k: &Pubkey) -> SolKey {
    SolKey::new_from_array(k.to_array())
}

fn lib(k: &SolKey) -> Pubkey {
    Pubkey::from_array(&k.to_bytes())
}

fn account(k: Pubkey, owner: Pubkey, signer: bool, data: Vec<u8>) -> AccountInfo {
    AccountInfo { key: k, owner, is_signer: signer, is_writable: true, lamports: 1000, data }
}

fn record(update_authority: Pubkey, mint: Pubkey, creators: Option<Vec<Creator>>) -> Metadata {
    Metadata {
        key: Key::MetadataV1,
        update_authority,
        mint,
        data: Data {
            name: b"Name".to_vec(),
            symbol: b"SYM".to_vec(),
            uri: b"https://example.com".to_vec(),
            seller_fee_basis_points: 500,
            creators,
        },
        primary_sale_happened: false,
        is_mutable: true,
        edition_nonce: None,
        token_standard: None,
        collection: None,
        uses: None,
        collection_details: None,
    }
}

fn metadata_data(m: &Metadata) -> Vec<u8> {
    let mut d = encode_metadata(m);
    d.resize(MAX_METADATA_LEN, 0);
    d
}

fn mint_data(authority: Option<Pubkey>) -> Vec<u8> {
    let m = spl_token::state::Mint {
        mint_authority: match authority {
            Some(a) => COption::Some(sol(&a)),
            None => COption::None,
        },
        supply: 1,
        decimals: 0,
        is_initialized: true,
        freeze_authority: COption::None,
    };
    let mut d = vec![0u8; 82];
    spl_token::state::Mint::pack(m, &mut d).unwrap();
    d
}

fn token_data(mint: Pubkey, owner: Pubkey) -> Vec<u8> {
    let a = spl_token::state::Account {
        mint: sol(&mint),
        owner: sol(&owner),
        amount: 1,
        delegate: COption::None,
        state: spl_token::state::AccountState::Initialized,
        is_native: COption::None,
        delegated_amount: 0,
        close_authority: COption::None,
    };
    let mut d = vec![0u8; 165];
    spl_token::state::Account::pack(a, &mut d).unwrap();
    d
}

fn edition_pda(mint: &Pubkey) -> Pubkey {
    let pid = sol(&program_id());
    lib(&SolKey::find_program_address(&[b"metadata", pid.as_ref(), sol(mint).as_ref(), b"edition"], &pid).0)
}

fn apply(accounts: &mut Vec<AccountInfo>, effects: &Vec<Effect>) {
    assert!(apply_effects_to(accounts, effects));
}

fn collection_accounts(item: &Metadata, parent: &Metadata) -> Vec<AccountInfo> {
    let pid = program_id();
    let cmint = parent.mint;
    let ed = edition_pda(&cmint);
    let mut me_data = vec![6u8, 0, 0, 0, 0, 0, 0, 0, 0, 1, 0, 0, 0, 0, 0, 0, 0, 0];
    me_data.resize(282, 0);
    vec![
        account(key(3), pid, false, metadata_data(item)),
        account(key(1), key(9), true, vec![]),
        account(key(1), key(9), true, vec![]),
        account(cmint, token_program_id(), false, mint_data(Some(ed))),
        account(key(21), pid, false, metadata_data(parent)),
        account(ed, pid, false, me_data),
    ]
}

#[test]
fn verifying_a_collection_twice_changes_nothing() {
    let pid = program_id();
    let mut item = record(key(1), key(2), None);
    item.collection = Some(Collection { verified: false, key: key(20) });
    let mut accounts = collection_accounts(&item, &record(key(1), key(20), None));
    let first = verify_collection(&pid, &accounts).unwrap();
    apply(&mut accounts, &first);
    let after = accounts[0].data.clone();
    assert_eq!(metadata_from_data(&after).unwrap().collection, Some(Collection { verified: true, key: key(20) }));
    let second = verify_collection(&pid, &accounts).unwrap();
    apply(&mut accounts, &second);
    assert_eq!(accounts[0].data, after);
}

#[test]
fn puffing_twice_changes_nothing() {
    let pid = program_id();
    let mut accounts = vec![account(key(3), pid, false, metadata_data(&record(key(1), key(2), None)))];
    let first = process_puff_metadata_account(&pid, &accounts).unwrap();
    apply(&mut accounts, &first);
    let after = accounts[0].data.clone();
    assert_ne!(after, metadata_data(&record(key(1), key(2), None)));
    let second = process_puff_metadata_account(&pid, &accounts).unwrap();
    apply(&mut accounts, &second);
    assert_eq!(accounts[0].data, after);
}

#[test]
fn signing_then_removing_restores_the_record() {
    let pid = program_id();
    let creators = vec![
        Creator { address: key(7), verified: true, share: 50 },
        Creator { address: key(8), verified: false, share: 50 },
    ];
    let m = record(key(1), key(2), Some(creators));
    let mut accounts = vec![account(key(3), pid, false, metadata_data(&m)), account(key(8), key(9), true, vec![])];
    let signed = process_sign_metadata(&pid, &accounts).unwrap();
    apply(&mut accounts, &signed);
    assert!(metadata_from_data(&accounts[0].data).unwrap().data.creators.unwrap()[1].verified);
    let removed = process_remove_creator_verification(&pid, &accounts).unwrap();
    apply(&mut accounts, &removed);
    assert_eq!(encode_metadata(&metadata_from_data(&accounts[0].data).unwrap()), encode_metadata(&m));
}

#[test]
fn updates_only_set_the_sale_flag_and_clear_the_mutable_flag() {
    let pid = program_id();
    let mut accounts = vec![
        account(key(3), pid, false, metadata_data(&record(key(1), key(2), None))),
        account(key(1), key(9), true, vec![]),
    ];
    let first = process_update_metadata_accounts_v2(&pid, &accounts, None, None, Some(true), Some(false)).unwrap();
    apply(&mut accounts, &first);
    let m = metadata_from_data(&accounts[0].data).unwrap();
    assert!(m.primary_sale_happened && !m.is_mutable);
    assert_eq!(
        process_update_metadata_accounts_v2(&pid, &accounts, None, None, Some(false), None).unwrap_err(),
        ProgramError::Custom(MetadataError::PrimarySaleCanOnlyBeFlippedToTrue.code())
    );
    assert_eq!(
        process_update_metadata_accounts_v2(&pid, &accounts, None, None, None, Some(true)).unwrap_err(),
        ProgramError::Custom(MetadataError::IsMutableCanOnlyBeFlippedToFalse.code())
    );
    let again = process_update_metadata_accounts_v2(&pid, &accounts, None, None, Some(true), Some(false)).unwrap();
    apply(&mut accounts, &again);
    let m2 = metadata_from_data(&accounts[0].data).unwrap();
    assert!(m2.primary_sale_happened && !m2.is_mutable);
}

#[test]
fn sized_verify_then_unverify_restores_item_and_parent() {
    let pid = program_id();
    let mut item = record(key(1), key(2), None);
    item.collection = Some(Collection { verified: false, key: key(20) });
    let mut parent = record(key(1), key(20), None);
    parent.collection_details = Some(CollectionDetails::V1 { size: 5 });
    let mut accounts = collection_accounts(&item, &parent);
    let verified = verify_sized_collection_item(&pid, &accounts).unwrap();
    apply(&mut accounts, &verified);
    assert_eq!(
        metadata_from_data(&accounts[4].data).unwrap().collection_details,
        Some(CollectionDetails::V1 { size: 6 })
    );
    let undone = unverify_sized_collection_item(&pid, &accounts).unwrap();
    apply(&mut accounts, &undone);
    assert_eq!(encode_metadata(&metadata_from_data(&accounts[0].data).unwrap()), encode_metadata(&item));
    assert_eq!(encode_metadata(&metadata_from_data(&accounts[4].data).unwrap()), encode_metadata(&parent));
    assert_eq!(
        unverify_sized_collection_item(&pid, &accounts).unwrap_err(),
        ProgramError::Custom(MetadataError::AlreadyUnverified.code())
    );
}

#[test]
fn use_authority_approved_then_revoked_closes_the_record() {
    let pid = program_id();
    let mint = key(2);
    let holder = key(8);
    let user = key(14);
    let mut m = record(key(1), mint, None);
    m.uses = Some(Uses { use_method: UseMethod::Multiple, remaining: 5, total: 5 });
    let sp = sol(&pid);
    let (rec, _) = SolKey::find_program_address(&[b"metadata", sp.as_ref(), sol(&mint).as_ref(), b"user", sol(&user).as_ref()], &sp);
    let mut accounts = vec![
        account(lib(&rec), key(0), false, vec![]),
        account(holder, key(9), true, vec![]),
        account(key(15), key(9), true, vec![]),
        account(user, key(9), false, vec![]),
        account(key(4), token_program_id(), false, token_data(mint, holder)),
        account(key(3), pid, false, metadata_data(&m)),
        account(mint, token_program_id(), false, mint_data(None)),
        account(key(17), key(9), false, vec![]),
        account(token_program_id(), key(9), false, vec![]),
        account(key(16), key(9), false, vec![]),
    ];
    let approved = process_approve_use_authority(&pid, &accounts, 3).unwrap();
    assert_eq!(approved.len(), 2);
    assert!(matches!(approved[0], Effect::CreateAccount { account: 0, size: 18, .. }));
    // What the runtime does when it creates the record: owned by the program, zeroed, funded.
    accounts[0] = AccountInfo { owner: pid, data: vec![0u8; 18], lamports: 700, ..accounts[0].clone() };
    assert!(apply_effect_to(&mut accounts, &approved[1]));
    let meta_before = accounts[5].data.clone();
    let mut revoke: Vec<AccountInfo> = [0usize, 1, 3, 4, 6, 5, 8].iter().map(|&i| accounts[i].clone()).collect();
    let revoked = process_revoke_use_authority(&pid, &revoke).unwrap();
    apply(&mut revoke, &revoked);
    assert_eq!(revoke[0].lamports, 0);
    assert_eq!(revoke[0].data, vec![0u8; 18]);
    assert_eq!(revoke[1].lamports, 1700);
    assert_eq!(revoke[5].data, meta_before);
    assert_eq!(
        process_revoke_use_authority(&pid, &revoke).unwrap_err(),
        ProgramError::Custom(MetadataError::InvalidUseAuthorityRecord.code())
    );
}

#[test]
fn effects_that_cannot_be_carried_out_here_are_refused() {
    let mut accounts = vec![account(key(1), key(9), false, vec![1, 2, 3])];
    let too_long = Effect::Write { account: 0, bytes: vec![0; 4], clean: false };
    assert!(!apply_effect_to(&mut accounts, &too_long));
    assert_eq!(accounts[0].data, vec![1, 2, 3]);
    let zero = Effect::Zero { account: 0, len: 2 };
    assert!(apply_effect_to(&mut accounts, &zero));
    assert_eq!(accounts[0].data, vec![0, 0, 3]);
    accounts.push(AccountInfo { lamports: u64::MAX, ..account(key(2), key(9), false, vec![]) });
    assert!(!apply_effect_to(&mut accounts, &Effect::DrainLamports { from: 0, to: 1 }));
    assert!(apply_effect_to(&mut accounts, &Effect::DrainLamports { from: 1, to: 1 }));
    assert_eq!(accounts[1].lamports, u64::MAX);
}

fn delegated_token_data(mint: Pubkey, owner: Pubkey, delegate: Option<Pubkey>) -> Vec<u8> {
    let a = spl_token::state::Account {
        mint: sol(&mint),
        owner: sol(&owner),
        amount: 1,
        delegate: match delegate {
            Some(d) => COption::Some(sol(&d)),
            None => COption::None,
        },
        state: spl_token::state::AccountState::Initialized,
        is_native: COption::None,
        delegated_amount: if delegate.is_some() { 1 } else { 0 },
        close_authority: COption::None,
    };
    let mut d = vec![0u8; 165];
    spl_token::state::Account::pack(a, &mut d).unwrap();
    d
}

#[test]
fn burned_use_authority_approved_then_revoked_closes_the_record() {
    let pid = program_id();
    let mint = key(2);
    let holder = key(8);
    let user = key(14);
    let mut m = record(key(1), mint, None);
    m.uses = Some(Uses { use_method: UseMethod::Burn, remaining: 5, total: 5 });
    let sp = sol(&pid);
    let (rec, _) = SolKey::find_program_address(&[b"metadata", sp.as_ref(), sol(&mint).as_ref(), b"user", sol(&user).as_ref()], &sp);
    let burner = lib(&SolKey::find_program_address(&[b"metadata", sp.as_ref(), b"burn"], &sp).0);
    let mut accounts = vec![
        account(lib(&rec), key(0), false, vec![]),
        account(holder, key(9), true, vec![]),
        account(key(15), key(9), true, vec![]),
        account(user, key(9), false, vec![]),
        account(key(4), token_program_id(), false, token_data(mint, holder)),
        account(key(3), pid, false, metadata_data(&m)),
        account(mint, token_program_id(), false, mint_data(None)),
        account(burner, key(9), false, vec![]),
        account(token_program_id(), key(9), false, vec![]),
        account(key(16), key(9), false, vec![]),
    ];
    let approved = process_approve_use_authority(&pid, &accounts, 3).unwrap();
    assert_eq!(approved.len(), 3);
    match &approved[1] {
        Effect::Invoke { instruction, .. } => {
            assert_eq!(instruction.data[0], 4);
            assert_eq!(instruction.accounts[1].pubkey, burner);
        }
        other => panic!("expected an invocation, got {:?}", other),
    }
    // What the runtime and the token program do: create the record, approve the burn authority.
    accounts[0] = AccountInfo { owner: pid, data: vec![0u8; 18], lamports: 700, ..accounts[0].clone() };
    accounts[4].data = delegated_token_data(mint, holder, Some(burner));
    assert!(apply_effect_to(&mut accounts, &approved[2]));
    let meta_before = accounts[5].data.clone();
    let mut revoke: Vec<AccountInfo> = [0usize, 1, 3, 4, 6, 5, 8].iter().map(|&i| accounts[i].clone()).collect();
    let revoked = process_revoke_use_authority(&pid, &revoke).unwrap();
    assert_eq!(revoked.len(), 3);
    assert!(matches!(&revoked[0], Effect::Invoke { instruction, .. } if instruction.data == vec![5u8]));
    // The token program's revocation.
    revoke[3].data = delegated_token_data(mint, holder, None);
    let rest: Vec<Effect> = revoked[1..].to_vec();
    apply(&mut revoke, &rest);
    assert_eq!(revoke[0].lamports, 0);
    assert_eq!(revoke[0].data, vec![0u8; 18]);
    assert_eq!(revoke[1].lamports, 1700);
    assert_eq!(revoke[5].data, meta_before);
}
