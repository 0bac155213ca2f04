use solana_program::program_option::COption;
use solana_program::program_pack::Pack;
use solana_program::pubkey::Pubkey as SolKey;
use token_metadata::account::{AccountInfo, Effect};
use token_metadata::burn_ix::process_burn_edition_nft;
use token_metadata::burn_ix::process_burn_nft;
use token_metadata::collection_ix::{
    process_approve_collection_authority, set_collection_size, unverify_sized_collection_item,
    verify_collection, verify_sized_collection_item,
};
use token_metadata::rules::assert_has_collection_authority;
use token_metadata::create_ix::process_create_metadata_accounts_v3;
use token_metadata::decode::metadata_from_data;
use token_metadata::edition_ix::process_create_master_edition;
use token_metadata::encode::encode_metadata;
use token_metadata::error::{MetadataError, ProgramError};
use token_metadata::ids::{program_id, token_program_id};
use token_metadata::metadata_ix::{
    process_puff_metadata_account, process_remove_creator_verification, process_sign_metadata,
    process_update_metadata_accounts_v2, process_update_primary_sale_happened_via_token,
    set_token_standard,
};
use token_metadata::pubkey::Pubkey;
use token_metadata::state::{
    Collection, CollectionDetails, Creator, Data, DataV2, Key, Metadata, TokenStandard, UseMethod,
    Uses, MAX_METADATA_LEN,
};
use token_metadata::burn_ix::{process_freeze_delegated_account, process_thaw_delegated_account};
use token_metadata::use_ix::{process_approve_use_authority, process_revoke_use_authority, process_utilize};

fn key(n: u8) -> Pubkey {
    Pubkey::from_array(&[n; 32])
}

fn sol(k: &Pubkey) -> SolKey {
    SolKey::new_from_array(k.to_array())
}

fn lib(k: &SolKey) -> Pubkey {
    Pubkey::from_array(&k.to_bytes())
}

fn err(e: MetadataError) -> ProgramError {
    ProgramError::Custom(e.code())
}

fn account(k: Pubkey, owner: Pubkey, signer: bool, data: Vec<u8>) -> AccountInfo {
    AccountInfo { key: k, owner, is_signer: signer, is_writable: true, lamports: 1000, data }
}

fn record(update_authority: Pubkey, mint: Pubkey, creators: Option<Vec<Creator>>) -> Metadata {
    Metadata {
        key: Key::MetadataV1,
        update_authority,
        mint,
        data: Data {
            name: b"Name".to_vec(),
            symbol: b"SYM".to_vec(),
            uri: b"https://example.com".to_vec(),
            seller_fee_basis_points: 500,
            creators,
        },
        primary_sale_happened: false,
        is_mutable: true,
        edition_nonce: None,
        token_standard: None,
        collection: None,
        uses: None,
        collection_details: None,
    }
}

fn metadata_data(m: &Metadata) -> Vec<u8> {
    let mut d = encode_metadata(m);
    d.resize(MAX_METADATA_LEN, 0);
    d
}

fn mint_data(authority: Option<Pubkey>, supply: u64, decimals: u8, freeze: Option<Pubkey>) -> Vec<u8> {
    let m = spl_token::state::Mint {
        mint_authority: match authority {
            Some(a) => COption::Some(sol(&a)),
            None => COption::None,
        },
        supply,
        decimals,
        is_initialized: true,
        freeze_authority: match freeze {
            Some(a) => COption::Some(sol(&a)),
            None => COption::None,
        },
    };
    let mut d = vec![0u8; 82];
    spl_token::state::Mint::pack(m, &mut d).unwrap();
    d
}

fn token_data(mint: Pubkey, owner: Pubkey, amount: u64) -> Vec<u8> {
    let a = spl_token::state::Account {
        mint: sol(&mint),
        owner: sol(&owner),
        amount,
        delegate: COption::None,
        state: spl_token::state::AccountState::Initialized,
        is_native: COption::None,
        delegated_amount: 0,
        close_authority: COption::None,
    };
    let mut d = vec![0u8; 165];
    spl_token::state::Account::pack(a, &mut d).unwrap();
    d
}

fn written(effects: &[Effect], i: usize) -> Vec<u8> {
    match &effects[i] {
        Effect::Write { bytes, .. } => bytes.clone(),
        other => panic!("expected a write, got {:?}", other),
    }
}

fn edition_pda(mint: &Pubkey) -> (Pubkey, u8) {
    let pid = sol(&program_id());
    let (k, b) = SolKey::find_program_address(&[b"metadata", pid.as_ref(), sol(mint).as_ref(), b"edition"], &pid);
    (lib(&k), b)
}

// ---------------------------------------------------------------- creator verification

#[test]
fn sign_metadata_marks_the_signing_creator_verified() {
    let pid = program_id();
    let creators = vec![
        Creator { address: key(7), verified: false, share: 60 },
        Creator { address: key(8), verified: false, share: 40 },
    ];
    let m = record(key(1), key(2), Some(creators));
    let accounts = vec![account(key(3), pid, false, metadata_data(&m)), account(key(8), key(9), true, vec![])];
    let effects = process_sign_metadata(&pid, &accounts).unwrap();
    assert_eq!(effects.len(), 1);
    let after = metadata_from_data(&written(&effects, 0)).unwrap();
    let cs = after.data.creators.unwrap();
    assert!(!cs[0].verified);
    assert!(cs[1].verified);
    assert_eq!(cs[1].share, 40);
}

#[test]
fn sign_metadata_errors() {
    let pid = program_id();
    let m = record(key(1), key(2), Some(vec![Creator { address: key(7), verified: false, share: 100 }]));
    let unlisted = vec![account(key(3), pid, false, metadata_data(&m)), account(key(8), key(9), true, vec![])];
    assert_eq!(process_sign_metadata(&pid, &unlisted).unwrap_err(), err(MetadataError::CreatorNotFound));
    let unsigned = vec![account(key(3), pid, false, metadata_data(&m)), account(key(7), key(9), false, vec![])];
    assert_eq!(process_sign_metadata(&pid, &unsigned).unwrap_err(), ProgramError::MissingRequiredSignature);
    let foreign = vec![account(key(3), key(4), false, metadata_data(&m)), account(key(7), key(9), true, vec![])];
    assert_eq!(process_sign_metadata(&pid, &foreign).unwrap_err(), err(MetadataError::IncorrectOwner));
    let none = record(key(1), key(2), None);
    let no_creators = vec![account(key(3), pid, false, metadata_data(&none)), account(key(7), key(9), true, vec![])];
    assert_eq!(
        process_sign_metadata(&pid, &no_creators).unwrap_err(),
        err(MetadataError::NoCreatorsPresentOnMetadata)
    );
    assert_eq!(process_sign_metadata(&pid, &vec![]).unwrap_err(), ProgramError::NotEnoughAccountKeys);
    let garbage = vec![account(key(3), pid, false, vec![9, 9, 9]), account(key(7), key(9), true, vec![])];
    assert_eq!(process_sign_metadata(&pid, &garbage).unwrap_err(), err(MetadataError::DataTypeMismatch));
}

#[test]
fn remove_after_sign_equals_remove() {
    let pid = program_id();
    let m = record(key(1), key(2), Some(vec![Creator { address: key(7), verified: false, share: 100 }]));
    let signer = account(key(7), key(9), true, vec![]);
    let signed = process_sign_metadata(&pid, &vec![account(key(3), pid, false, metadata_data(&m)), signer.clone()]).unwrap();
    let mut signed_data = written(&signed, 0);
    signed_data.resize(MAX_METADATA_LEN, 0);
    let removed_after = process_remove_creator_verification(&pid, &vec![account(key(3), pid, false, signed_data), signer.clone()]).unwrap();
    let removed_direct = process_remove_creator_verification(&pid, &vec![account(key(3), pid, false, metadata_data(&m)), signer]).unwrap();
    assert_eq!(written(&removed_after, 0), written(&removed_direct, 0));
    assert_eq!(written(&removed_direct, 0), encode_metadata(&m));
}

// ---------------------------------------------------------------- updates

#[test]
fn primary_sale_can_only_be_set() {
    let pid = program_id();
    let mut m = record(key(1), key(2), None);
    m.primary_sale_happened = true;
    let accounts = vec![account(key(3), pid, false, metadata_data(&m)), account(key(1), key(9), true, vec![])];
    let r = process_update_metadata_accounts_v2(&pid, &accounts, None, None, Some(false), None);
    assert_eq!(r.unwrap_err(), err(MetadataError::PrimarySaleCanOnlyBeFlippedToTrue));
    let ok = process_update_metadata_accounts_v2(&pid, &accounts, None, None, Some(true), None).unwrap();
    assert!(metadata_from_data(&written(&ok, 0)).unwrap().primary_sale_happened);
}

#[test]
fn immutable_stays_immutable() {
    let pid = program_id();
    let mut m = record(key(1), key(2), None);
    m.is_mutable = false;
    let accounts = vec![account(key(3), pid, false, metadata_data(&m)), account(key(1), key(9), true, vec![])];
    let r = process_update_metadata_accounts_v2(&pid, &accounts, None, None, None, Some(true));
    assert_eq!(r.unwrap_err(), err(MetadataError::IsMutableCanOnlyBeFlippedToFalse));
    let data = DataV2 {
        name: b"New".to_vec(),
        symbol: b"N".to_vec(),
        uri: b"u".to_vec(),
        seller_fee_basis_points: 0,
        creators: None,
        collection: None,
        uses: None,
    };
    let r = process_update_metadata_accounts_v2(&pid, &accounts, Some(data), None, None, None);
    assert_eq!(r.unwrap_err(), err(MetadataError::DataIsImmutable));
}

#[test]
fn update_replaces_data_and_pads_it() {
    let pid = program_id();
    let m = record(key(1), key(2), None);
    let accounts = vec![account(key(3), pid, false, metadata_data(&m)), account(key(1), key(9), true, vec![])];
    let data = DataV2 {
        name: b"New".to_vec(),
        symbol: b"N".to_vec(),
        uri: b"u".to_vec(),
        seller_fee_basis_points: 250,
        creators: Some(vec![Creator { address: key(1), verified: true, share: 100 }]),
        collection: Some(Collection { verified: false, key: key(5) }),
        uses: Some(Uses { use_method: UseMethod::Multiple, remaining: 3, total: 3 }),
    };
    let effects = process_update_metadata_accounts_v2(&pid, &accounts, Some(data), Some(key(6)), None, Some(false)).unwrap();
    assert!(matches!(effects[0], Effect::Write { account: 0, clean: true, .. }));
    let after = metadata_from_data(&written(&effects, 0)).unwrap();
    assert_eq!(after.data.name.len(), 32);
    assert_eq!(&after.data.name[..3], b"New");
    assert_eq!(after.data.uri.len(), 200);
    assert_eq!(after.update_authority, key(6));
    assert!(!after.is_mutable);
    assert_eq!(after.collection, Some(Collection { verified: false, key: key(5) }));
    assert_eq!(after.data.seller_fee_basis_points, 250);
}

#[test]
fn update_refuses_bad_data() {
    let pid = program_id();
    let m = record(key(1), key(2), None);
    let accounts = vec![account(key(3), pid, false, metadata_data(&m)), account(key(1), key(9), true, vec![])];
    let base = DataV2 {
        name: b"n".to_vec(),
        symbol: b"s".to_vec(),
        uri: b"u".to_vec(),
        seller_fee_basis_points: 0,
        creators: None,
        collection: None,
        uses: None,
    };
    let mut long = base.clone();
    long.name = vec![b'a'; 33];
    assert_eq!(process_update_metadata_accounts_v2(&pid, &accounts, Some(long), None, None, None).unwrap_err(), err(MetadataError::NameTooLong));
    let mut fee = base.clone();
    fee.seller_fee_basis_points = 10001;
    assert_eq!(process_update_metadata_accounts_v2(&pid, &accounts, Some(fee), None, None, None).unwrap_err(), err(MetadataError::InvalidBasisPoints));
    let mut shares = base.clone();
    shares.creators = Some(vec![Creator { address: key(1), verified: false, share: 50 }]);
    assert_eq!(process_update_metadata_accounts_v2(&pid, &accounts, Some(shares), None, None, None).unwrap_err(), err(MetadataError::ShareTotalMustBe100));
    let mut dup = base.clone();
    dup.creators = Some(vec![Creator { address: key(1), verified: false, share: 50 }, Creator { address: key(1), verified: false, share: 50 }]);
    assert_eq!(process_update_metadata_accounts_v2(&pid, &accounts, Some(dup), None, None, None).unwrap_err(), err(MetadataError::DuplicateCreatorAddress));
    let mut other = base.clone();
    other.creators = Some(vec![Creator { address: key(4), verified: true, share: 100 }]);
    assert_eq!(process_update_metadata_accounts_v2(&pid, &accounts, Some(other), None, None, None).unwrap_err(), err(MetadataError::CannotVerifyAnotherCreator));
    let mut verified_col = base.clone();
    verified_col.collection = Some(Collection { verified: true, key: key(5) });
    assert_eq!(process_update_metadata_accounts_v2(&pid, &accounts, Some(verified_col), None, None, None).unwrap_err(), err(MetadataError::CollectionCannotBeVerifiedInThisInstruction));
    let mut single = base.clone();
    single.uses = Some(Uses { use_method: UseMethod::Single, remaining: 2, total: 2 });
    assert_eq!(process_update_metadata_accounts_v2(&pid, &accounts, Some(single), None, None, None).unwrap_err(), err(MetadataError::InvalidUseMethod));
    let wrong = vec![account(key(3), pid, false, metadata_data(&m)), account(key(4), key(9), true, vec![])];
    assert_eq!(process_update_metadata_accounts_v2(&pid, &wrong, None, None, None, None).unwrap_err(), err(MetadataError::UpdateAuthorityIncorrect));
}

#[test]
fn primary_sale_via_token_needs_a_held_token() {
    let pid = program_id();
    let m = record(key(1), key(2), None);
    let holder = key(8);
    let token = account(key(4), token_program_id(), false, token_data(key(2), holder, 1));
    let accounts = vec![account(key(3), pid, false, metadata_data(&m)), account(holder, key(9), true, vec![]), token];
    let effects = process_update_primary_sale_happened_via_token(&pid, &accounts).unwrap();
    assert!(metadata_from_data(&written(&effects, 0)).unwrap().primary_sale_happened);
    let empty = vec![
        account(key(3), pid, false, metadata_data(&m)),
        account(holder, key(9), true, vec![]),
        account(key(4), token_program_id(), false, token_data(key(2), holder, 0)),
    ];
    assert_eq!(process_update_primary_sale_happened_via_token(&pid, &empty).unwrap_err(), err(MetadataError::NoBalanceInAccountForAuthorization));
    let other = vec![
        account(key(3), pid, false, metadata_data(&m)),
        account(key(7), key(9), true, vec![]),
        account(key(4), token_program_id(), false, token_data(key(2), holder, 1)),
    ];
    assert_eq!(process_update_primary_sale_happened_via_token(&pid, &other).unwrap_err(), err(MetadataError::OwnerMismatch));
    let bad_token = vec![
        account(key(3), pid, false, metadata_data(&m)),
        account(holder, key(9), true, vec![]),
        account(key(4), token_program_id(), false, vec![1, 2, 3]),
    ];
    assert_eq!(process_update_primary_sale_happened_via_token(&pid, &bad_token).unwrap_err(), ProgramError::InvalidAccountData);
}

#[test]
fn puff_pads_and_records_the_edition_nonce() {
    let pid = program_id();
    let m = record(key(1), key(2), None);
    let accounts = vec![account(key(3), pid, false, metadata_data(&m))];
    let effects = process_puff_metadata_account(&pid, &accounts).unwrap();
    let after = metadata_from_data(&written(&effects, 0)).unwrap();
    assert_eq!(after.data.name.len(), 32);
    assert_eq!(after.data.symbol.len(), 10);
    assert_eq!(after.data.uri.len(), 200);
    assert_eq!(after.edition_nonce, Some(edition_pda(&key(2)).1));
    let mut again_data = written(&effects, 0);
    again_data.resize(MAX_METADATA_LEN, 0);
    let again = process_puff_metadata_account(&pid, &vec![account(key(3), pid, false, again_data)]).unwrap();
    assert_eq!(written(&again, 0), written(&effects, 0));
}

#[test]
fn token_standard_of_a_fungible_mint() {
    let pid = program_id();
    let mint = key(2);
    let m = record(key(1), mint, None);
    let accounts = vec![
        account(key(3), pid, false, metadata_data(&m)),
        account(key(1), key(9), true, vec![]),
        account(mint, token_program_id(), false, mint_data(Some(key(1)), 1000, 6, None)),
    ];
    let effects = set_token_standard(&pid, &accounts).unwrap();
    assert_eq!(metadata_from_data(&written(&effects, 0)).unwrap().token_standard, Some(TokenStandard::Fungible));
    let asset = vec![
        account(key(3), pid, false, metadata_data(&m)),
        account(key(1), key(9), true, vec![]),
        account(mint, token_program_id(), false, mint_data(Some(key(1)), 1000, 0, None)),
    ];
    let effects = set_token_standard(&pid, &asset).unwrap();
    assert_eq!(metadata_from_data(&written(&effects, 0)).unwrap().token_standard, Some(TokenStandard::FungibleAsset));
    let edition_is_authority = vec![
        account(key(3), pid, false, metadata_data(&m)),
        account(key(1), key(9), true, vec![]),
        account(mint, token_program_id(), false, mint_data(Some(edition_pda(&mint).0), 1, 0, None)),
    ];
    assert_eq!(set_token_standard(&pid, &edition_is_authority).unwrap_err(), err(MetadataError::MissingEditionAccount));
    let mut padded = mint_data(Some(key(1)), 1000, 6, None);
    padded.extend_from_slice(&[7u8; 8]);
    let longer = vec![
        account(key(3), pid, false, metadata_data(&m)),
        account(key(1), key(9), true, vec![]),
        account(mint, token_program_id(), false, padded),
    ];
    let effects = set_token_standard(&pid, &longer).unwrap();
    assert_eq!(metadata_from_data(&written(&effects, 0)).unwrap().token_standard, Some(TokenStandard::Fungible));
}

// ---------------------------------------------------------------- collections

#[test]
fn collection_size_is_set_once() {
    let pid = program_id();
    let mint = key(2);
    let m = record(key(1), mint, None);
    let accounts = vec![
        account(key(3), pid, false, metadata_data(&m)),
        account(key(1), key(9), true, vec![]),
        account(mint, token_program_id(), false, mint_data(Some(key(1)), 1, 0, None)),
    ];
    let effects = set_collection_size(&pid, &accounts, 42).unwrap();
    let sized = metadata_from_data(&written(&effects, 0)).unwrap();
    assert_eq!(sized.collection_details, Some(CollectionDetails::V1 { size: 42 }));
    let again = vec![
        account(key(3), pid, false, metadata_data(&sized)),
        account(key(1), key(9), true, vec![]),
        account(mint, token_program_id(), false, mint_data(Some(key(1)), 1, 0, None)),
    ];
    assert_eq!(set_collection_size(&pid, &again, 7).unwrap_err(), err(MetadataError::SizedCollection));
    let not_signer = vec![
        account(key(3), pid, false, metadata_data(&m)),
        account(key(1), key(9), false, vec![]),
        account(mint, token_program_id(), false, mint_data(Some(key(1)), 1, 0, None)),
    ];
    assert_eq!(set_collection_size(&pid, &not_signer, 7).unwrap_err(), err(MetadataError::UpdateAuthorityIsNotSigner));
}

#[test]
fn verify_collection_checks_the_parent_edition() {
    let pid = program_id();
    let cmint = key(20);
    let mut item = record(key(1), key(2), None);
    item.collection = Some(Collection { verified: false, key: cmint });
    let parent = record(key(1), cmint, None);
    let (ed, _) = edition_pda(&cmint);
    let mut me_data = vec![6u8, 0, 0, 0, 0, 0, 0, 0, 0, 1, 0, 0, 0, 0, 0, 0, 0, 0];
    me_data.resize(282, 0);
    let accounts = vec![
        account(key(3), pid, false, metadata_data(&item)),
        account(key(1), key(9), true, vec![]),
        account(key(1), key(9), true, vec![]),
        account(cmint, token_program_id(), false, mint_data(Some(ed), 1, 0, None)),
        account(key(21), pid, false, metadata_data(&parent)),
        account(ed, pid, false, me_data.clone()),
    ];
    let effects = verify_collection(&pid, &accounts).unwrap();
    let after = metadata_from_data(&written(&effects, 0)).unwrap();
    assert_eq!(after.collection, Some(Collection { verified: true, key: cmint }));
    let mut printable = me_data.clone();
    printable[10] = 5;
    let mut wrong = accounts.clone();
    wrong[5] = account(ed, pid, false, printable);
    assert_eq!(verify_collection(&pid, &wrong).unwrap_err(), err(MetadataError::CollectionMustBeAUniqueMasterEdition));
    let mut elsewhere = accounts.clone();
    elsewhere[5] = account(key(22), pid, false, me_data);
    assert_eq!(verify_collection(&pid, &elsewhere).unwrap_err(), err(MetadataError::CollectionMasterEditionAccountInvalid));
}

// ---------------------------------------------------------------- creation

#[test]
fn create_v3_makes_a_collection_parent_of_size_zero() {
    let pid = program_id();
    let mint = key(2);
    let sol_pid = sol(&pid);
    let (md, bump) = SolKey::find_program_address(&[b"metadata", sol_pid.as_ref(), sol(&mint).as_ref()], &sol_pid);
    let accounts = vec![
        account(lib(&md), key(0), false, vec![]),
        account(mint, token_program_id(), false, mint_data(Some(key(1)), 0, 0, None)),
        account(key(1), key(9), true, vec![]),
        account(key(4), key(9), true, vec![]),
        account(key(5), key(9), true, vec![]),
        account(key(6), key(9), false, vec![]),
    ];
    let data = DataV2 {
        name: b"Coll".to_vec(),
        symbol: b"C".to_vec(),
        uri: b"u".to_vec(),
        seller_fee_basis_points: 0,
        creators: Some(vec![Creator { address: key(5), verified: true, share: 100 }]),
        collection: None,
        uses: None,
    };
    let effects = process_create_metadata_accounts_v3(&pid, &accounts, data, true, Some(CollectionDetails::V1 { size: 9 })).unwrap();
    match &effects[0] {
        Effect::CreateAccount { account, payer, system, size, seeds } => {
            assert_eq!((*account, *payer, *system, *size), (0, 3, 5, MAX_METADATA_LEN));
            assert_eq!(seeds[3], vec![bump]);
        }
        other => panic!("expected an account creation, got {:?}", other),
    }
    let after = metadata_from_data(&written(&effects, 1)).unwrap();
    assert_eq!(after.key, Key::MetadataV1);
    assert_eq!(after.update_authority, key(5));
    assert_eq!(after.collection_details, Some(CollectionDetails::V1 { size: 0 }));
    assert_eq!(after.token_standard, Some(TokenStandard::FungibleAsset));
    assert_eq!(after.edition_nonce, Some(edition_pda(&mint).1));
    let mut wrong_address = accounts.clone();
    wrong_address[0] = account(key(8), key(0), false, vec![]);
    let data2 = DataV2 { name: b"n".to_vec(), symbol: b"s".to_vec(), uri: b"u".to_vec(), seller_fee_basis_points: 0, creators: None, collection: None, uses: None };
    assert_eq!(
        process_create_metadata_accounts_v3(&pid, &wrong_address, data2.clone(), true, None).unwrap_err(),
        err(MetadataError::InvalidMetadataKey)
    );
    let mut no_authority = accounts.clone();
    no_authority[2] = account(key(1), key(9), false, vec![]);
    assert_eq!(
        process_create_metadata_accounts_v3(&pid, &no_authority, data2, true, None).unwrap_err(),
        err(MetadataError::NotMintAuthority)
    );
}

#[test]
fn create_master_edition_moves_the_mint_authorities() {
    let pid = program_id();
    let mint = key(2);
    let (ed, bump) = edition_pda(&mint);
    let m = record(key(1), mint, None);
    let accounts = vec![
        account(ed, key(0), false, vec![]),
        account(mint, token_program_id(), false, mint_data(Some(key(3)), 1, 0, Some(key(3)))),
        account(key(1), key(9), true, vec![]),
        account(key(3), key(9), true, vec![]),
        account(key(4), key(9), true, vec![]),
        account(key(5), pid, false, metadata_data(&m)),
        account(token_program_id(), key(9), false, vec![]),
        account(key(6), key(9), false, vec![]),
    ];
    let effects = process_create_master_edition(&pid, &accounts, Some(10)).unwrap();
    assert_eq!(effects.len(), 5);
    match &effects[0] {
        Effect::CreateAccount { size, seeds, .. } => {
            assert_eq!(*size, 282);
            assert_eq!(seeds[4], vec![bump]);
        }
        other => panic!("expected an account creation, got {:?}", other),
    }
    assert_eq!(written(&effects, 1), vec![6u8, 0, 0, 0, 0, 0, 0, 0, 0, 1, 10, 0, 0, 0, 0, 0, 0, 0]);
    assert_eq!(metadata_from_data(&written(&effects, 2)).unwrap().token_standard, Some(TokenStandard::NonFungible));
    let expected = spl_token::instruction::set_authority(
        &spl_token::id(),
        &sol(&mint),
        Some(&sol(&ed)),
        spl_token::instruction::AuthorityType::MintTokens,
        &sol(&key(3)),
        &[&sol(&key(3))],
    )
    .unwrap();
    match &effects[3] {
        Effect::Invoke { instruction, .. } => assert_eq!(instruction.data, expected.data),
        other => panic!("expected an invocation, got {:?}", other),
    }
    let mut two = accounts.clone();
    two[1] = account(mint, token_program_id(), false, mint_data(Some(key(3)), 2, 0, None));
    assert_eq!(process_create_master_edition(&pid, &two, None).unwrap_err(), err(MetadataError::EditionsMustHaveExactlyOneToken));
    let mut decimals = accounts.clone();
    decimals[1] = account(mint, token_program_id(), false, mint_data(Some(key(3)), 1, 2, None));
    assert_eq!(process_create_master_edition(&pid, &decimals, None).unwrap_err(), err(MetadataError::EditionMintDecimalsShouldBeZero));
}

// ---------------------------------------------------------------- uses and burning

#[test]
fn utilize_spends_uses_and_burns_at_the_last() {
    let pid = program_id();
    let mint = key(2);
    let holder = key(8);
    let mut m = record(key(1), mint, None);
    m.uses = Some(Uses { use_method: UseMethod::Burn, remaining: 2, total: 2 });
    let accounts = |m: &Metadata| {
        vec![
            account(key(3), pid, false, metadata_data(m)),
            account(key(4), token_program_id(), false, token_data(mint, holder, 1)),
            account(mint, token_program_id(), false, mint_data(None, 1, 0, None)),
            account(holder, key(9), true, vec![]),
            account(holder, key(9), true, vec![]),
            account(token_program_id(), key(9), false, vec![]),
            account(key(10), key(9), false, vec![]),
            account(key(11), key(9), false, vec![]),
        ]
    };
    let effects = process_utilize(&pid, &accounts(&m), 1).unwrap();
    assert_eq!(effects.len(), 1);
    let after = metadata_from_data(&written(&effects, 0)).unwrap();
    assert_eq!(after.uses, Some(Uses { use_method: UseMethod::Burn, remaining: 1, total: 2 }));
    assert_eq!(process_utilize(&pid, &accounts(&m), 3).unwrap_err(), err(MetadataError::NotEnoughUses));
    let last = process_utilize(&pid, &accounts(&after), 1).unwrap();
    assert_eq!(last.len(), 2);
    match &last[1] {
        Effect::Invoke { instruction, failure, .. } => {
            assert_eq!(instruction.data, vec![8u8, 1, 0, 0, 0, 0, 0, 0, 0]);
            assert_eq!(*failure, Some(err(MetadataError::TokenBurnFailed)));
        }
        other => panic!("expected an invocation, got {:?}", other),
    }
    let mut unusable = m.clone();
    unusable.uses = None;
    assert_eq!(process_utilize(&pid, &accounts(&unusable), 1).unwrap_err(), err(MetadataError::Unusable));
}

#[test]
fn burn_edition_needs_a_master_edition() {
    let pid = program_id();
    let accounts: Vec<AccountInfo> = (0..10u8)
        .map(|i| account(key(i + 30), pid, true, mint_data(None, 1, 0, None)))
        .collect();
    assert_eq!(process_burn_edition_nft(&pid, &accounts).unwrap_err(), err(MetadataError::NotAMasterEdition));
    assert_eq!(process_burn_edition_nft(&pid, &accounts[..9].to_vec()).unwrap_err(), ProgramError::NotEnoughAccountKeys);
}

#[test]
fn sized_collection_counts_each_item_once() {
    let pid = program_id();
    let cmint = key(20);
    let mut item = record(key(1), key(2), None);
    item.collection = Some(Collection { verified: false, key: cmint });
    let mut parent = record(key(1), cmint, None);
    parent.collection_details = Some(CollectionDetails::V1 { size: 5 });
    let (ed, _) = edition_pda(&cmint);
    let mut me_data = vec![6u8, 0, 0, 0, 0, 0, 0, 0, 0, 1, 0, 0, 0, 0, 0, 0, 0, 0];
    me_data.resize(282, 0);
    let accounts = |item: &Metadata, parent: &Metadata| {
        vec![
            account(key(3), pid, false, metadata_data(item)),
            account(key(1), key(9), true, vec![]),
            account(key(1), key(9), true, vec![]),
            account(cmint, token_program_id(), false, mint_data(Some(ed), 1, 0, None)),
            account(key(21), pid, false, metadata_data(parent)),
            account(ed, pid, false, me_data.clone()),
        ]
    };
    let effects = verify_sized_collection_item(&pid, &accounts(&item, &parent)).unwrap();
    let grown = metadata_from_data(&written(&effects, 0)).unwrap();
    let verified = metadata_from_data(&written(&effects, 1)).unwrap();
    assert_eq!(grown.collection_details, Some(CollectionDetails::V1 { size: 6 }));
    assert_eq!(verified.collection, Some(Collection { verified: true, key: cmint }));
    assert_eq!(
        verify_sized_collection_item(&pid, &accounts(&verified, &grown)).unwrap_err(),
        err(MetadataError::AlreadyVerified)
    );
    let undone = unverify_sized_collection_item(&pid, &accounts(&verified, &grown)).unwrap();
    let shrunk = metadata_from_data(&written(&undone, 0)).unwrap();
    assert_eq!(shrunk.collection_details, Some(CollectionDetails::V1 { size: 5 }));
    assert_eq!(
        unverify_sized_collection_item(&pid, &accounts(&item, &parent)).unwrap_err(),
        err(MetadataError::AlreadyUnverified)
    );
    assert_eq!(verify_collection(&pid, &accounts(&item, &parent)).unwrap_err(), err(MetadataError::SizedCollection));
}

#[test]
fn approved_delegate_acts_as_collection_authority() {
    let pid = program_id();
    let mint = key(2);
    let delegate = key(30);
    let m = record(key(1), mint, None);
    let sp = sol(&pid);
    let (rec, bump) = SolKey::find_program_address(
        &[b"metadata", sp.as_ref(), sol(&mint).as_ref(), b"collection_authority", sol(&delegate).as_ref()],
        &sp,
    );
    let accounts = vec![
        account(lib(&rec), key(0), false, vec![]),
        account(delegate, key(9), false, vec![]),
        account(key(1), key(9), true, vec![]),
        account(key(4), key(9), true, vec![]),
        account(key(5), pid, false, metadata_data(&m)),
        account(mint, token_program_id(), false, mint_data(Some(key(1)), 1, 0, None)),
        account(key(6), key(9), false, vec![]),
    ];
    let effects = process_approve_collection_authority(&pid, &accounts).unwrap();
    let mut data = written(&effects, 1);
    assert_eq!(data, vec![9u8, bump]);
    data.resize(11, 0);
    let record_account = account(lib(&rec), pid, false, data);
    let delegate_account = account(delegate, key(9), true, vec![]);
    assert!(assert_has_collection_authority(&delegate_account, &m, &mint, Some(&record_account)).is_ok());
    let stranger = account(key(31), key(9), true, vec![]);
    assert_eq!(
        assert_has_collection_authority(&stranger, &m, &mint, Some(&record_account)).unwrap_err(),
        err(MetadataError::DerivedKeyInvalid)
    );
    let mut taken = accounts.clone();
    taken[0] = account(lib(&rec), pid, false, vec![9, bump, 0, 0, 0, 0, 0, 0, 0, 0, 0]);
    assert_eq!(
        process_approve_collection_authority(&pid, &taken).unwrap_err(),
        err(MetadataError::CollectionAuthorityRecordAlreadyExists)
    );
}

#[test]
fn master_edition_with_prints_is_not_burned() {
    let pid = program_id();
    let mint = key(2);
    let holder = key(8);
    let m = record(key(1), mint, None);
    let (ed, _) = edition_pda(&mint);
    let mut me_data = vec![6u8, 3, 0, 0, 0, 0, 0, 0, 0, 0];
    me_data.resize(282, 0);
    let mut accounts = vec![
        account(key(3), pid, false, metadata_data(&m)),
        account(holder, key(9), true, vec![]),
        account(mint, token_program_id(), false, mint_data(Some(ed), 1, 0, None)),
        account(key(4), token_program_id(), false, token_data(mint, holder, 1)),
        account(ed, pid, false, me_data.clone()),
        account(token_program_id(), key(9), false, vec![]),
    ];
    assert_eq!(process_burn_nft(&pid, &accounts).unwrap_err(), err(MetadataError::MasterEditionHasPrints));
    me_data[1] = 0;
    accounts[4] = account(ed, pid, false, me_data);
    let effects = process_burn_nft(&pid, &accounts).unwrap();
    assert_eq!(effects.len(), 6);
    match &effects[1] {
        Effect::Invoke { instruction, failure, .. } => {
            assert_eq!(instruction.data, vec![9u8]);
            assert_eq!(instruction.accounts[0].pubkey, key(4));
            assert_eq!(instruction.accounts[1].pubkey, holder);
            assert_eq!(*failure, Some(err(MetadataError::TokenCloseFailed)));
        }
        other => panic!("expected an invocation, got {:?}", other),
    }
    assert!(matches!(effects[2], Effect::DrainLamports { from: 0, to: 1 }));
    assert!(matches!(effects[5], Effect::Zero { account: 4, len: 282 }));
    let mut verified = m.clone();
    verified.collection = Some(Collection { verified: true, key: key(20) });
    accounts[0] = account(key(3), pid, false, metadata_data(&verified));
    assert_eq!(process_burn_nft(&pid, &accounts).unwrap_err(), err(MetadataError::MissingCollectionMetadata));
}

fn delegated_token_data(mint: Pubkey, owner: Pubkey, delegate: Pubkey, amount: u64) -> Vec<u8> {
    let a = spl_token::state::Account {
        mint: sol(&mint),
        owner: sol(&owner),
        amount,
        delegate: COption::Some(sol(&delegate)),
        state: spl_token::state::AccountState::Initialized,
        is_native: COption::None,
        delegated_amount: amount,
        close_authority: COption::None,
    };
    let mut d = vec![0u8; 165];
    spl_token::state::Account::pack(a, &mut d).unwrap();
    d
}

#[test]
fn delegate_freezes_and_thaws_through_the_edition() {
    let pid = program_id();
    let mint = key(2);
    let delegate = key(12);
    let (ed, bump) = edition_pda(&mint);
    let accounts = vec![
        account(delegate, key(9), true, vec![]),
        account(key(4), token_program_id(), false, delegated_token_data(mint, key(8), delegate, 1)),
        account(ed, pid, false, vec![]),
        account(mint, token_program_id(), false, mint_data(Some(ed), 1, 0, Some(ed))),
        account(token_program_id(), key(9), false, vec![]),
    ];
    let frozen = process_freeze_delegated_account(&pid, &accounts).unwrap();
    match &frozen[0] {
        Effect::Invoke { instruction, signer_seeds, .. } => {
            assert_eq!(instruction.data, vec![10u8]);
            assert_eq!(instruction.accounts[2].pubkey, ed);
            assert!(instruction.accounts[2].is_signer);
            assert_eq!(signer_seeds[0][4], vec![bump]);
        }
        other => panic!("expected an invocation, got {:?}", other),
    }
    let thawed = process_thaw_delegated_account(&pid, &accounts).unwrap();
    assert!(matches!(&thawed[0], Effect::Invoke { instruction, .. } if instruction.data == vec![11u8]));
    let mut partial = accounts.clone();
    partial[1] = account(key(4), token_program_id(), false, {
        let mut d = delegated_token_data(mint, key(8), delegate, 1);
        d[64] = 2;
        d
    });
    assert_eq!(process_freeze_delegated_account(&pid, &partial).unwrap_err(), err(MetadataError::InvalidDelegate));
    let mut other_authority = accounts.clone();
    other_authority[3] = account(mint, token_program_id(), false, mint_data(Some(ed), 1, 0, Some(key(13))));
    assert_eq!(process_freeze_delegated_account(&pid, &other_authority).unwrap_err(), err(MetadataError::InvalidFreezeAuthority));
}

#[test]
fn use_authority_is_approved_and_revoked() {
    let pid = program_id();
    let mint = key(2);
    let holder = key(8);
    let user = key(14);
    let mut m = record(key(1), mint, None);
    m.uses = Some(Uses { use_method: UseMethod::Burn, remaining: 5, total: 5 });
    let sp = sol(&pid);
    let (rec, bump) = SolKey::find_program_address(&[b"metadata", sp.as_ref(), sol(&mint).as_ref(), b"user", sol(&user).as_ref()], &sp);
    let (burner, _) = SolKey::find_program_address(&[b"metadata", sp.as_ref(), b"burn"], &sp);
    let accounts = vec![
        account(lib(&rec), key(0), false, vec![]),
        account(holder, key(9), true, vec![]),
        account(key(15), key(9), true, vec![]),
        account(user, key(9), false, vec![]),
        account(key(4), token_program_id(), false, token_data(mint, holder, 1)),
        account(key(3), pid, false, metadata_data(&m)),
        account(mint, token_program_id(), false, mint_data(None, 1, 0, None)),
        account(lib(&burner), key(9), false, vec![]),
        account(token_program_id(), key(9), false, vec![]),
        account(key(16), key(9), false, vec![]),
    ];
    let effects = process_approve_use_authority(&pid, &accounts, 3).unwrap();
    assert_eq!(effects.len(), 3);
    match &effects[1] {
        Effect::Invoke { instruction, .. } => {
            assert_eq!(instruction.data, vec![4u8, 1, 0, 0, 0, 0, 0, 0, 0]);
            assert_eq!(instruction.accounts[1].pubkey, lib(&burner));
        }
        other => panic!("expected an invocation, got {:?}", other),
    }
    let mut rec_data = written(&effects, 2);
    assert_eq!(rec_data, vec![8u8, 3, 0, 0, 0, 0, 0, 0, 0, bump]);
    assert_eq!(process_approve_use_authority(&pid, &accounts, 6).unwrap_err(), err(MetadataError::NotEnoughUses));
    rec_data.resize(18, 0);
    let revoke_accounts = vec![
        account(lib(&rec), pid, false, rec_data),
        account(holder, key(9), true, vec![]),
        account(user, key(9), false, vec![]),
        account(key(4), token_program_id(), false, token_data(mint, holder, 1)),
        account(mint, token_program_id(), false, mint_data(None, 1, 0, None)),
        account(key(3), pid, false, metadata_data(&m)),
        account(token_program_id(), key(9), false, vec![]),
    ];
    let revoked = process_revoke_use_authority(&pid, &revoke_accounts).unwrap();
    assert_eq!(revoked.len(), 3);
    assert!(matches!(&revoked[0], Effect::Invoke { instruction, .. } if instruction.data == vec![5u8]));
    assert!(matches!(revoked[1], Effect::DrainLamports { from: 0, to: 1 }));
    assert!(matches!(revoked[2], Effect::Zero { account: 0, len: 18 }));
    let mut gone = revoke_accounts.clone();
    gone[0] = account(lib(&rec), pid, false, vec![]);
    assert_eq!(process_revoke_use_authority(&pid, &gone).unwrap_err(), err(MetadataError::UseAuthorityRecordAlreadyRevoked));
}
