use solana_program::pubkey::Pubkey as SolKey;
use token_metadata::account::AccountInfo;
use token_metadata::burn_ix::{index_and_mask, make_edition_marker_seeds, toggle_edition};
use token_metadata::checks::{assert_initialized_mint, assert_initialized_token_account, find_address};
use token_metadata::decode::{metadata_from_data, rd_string};
use token_metadata::encode::encode_metadata;
use token_metadata::error::{MetadataError, ProgramError};
use token_metadata::ids::{program_id, rent_id, token_program_id};
use token_metadata::instruction::{decode_instruction, process_instruction, MetadataInstruction};
use token_metadata::pubkey::Pubkey;
use token_metadata::records::{
    collection_authority_record_from_data, edition_marker_from_data, encode_collection_authority_record,
    encode_edition_marker, encode_master_edition_v2, encode_use_authority_record,
    master_edition_v2_from_data, use_authority_record_from_data,
};
use token_metadata::state::{AccountState, CollectionAuthorityRecord, EditionMarker, UseAuthorityRecord};
use token_metadata::rules::{decrement_collection_size, increment_collection_size};
use token_metadata::state::{
    Collection, CollectionDetails, Creator, Data, Key, MasterEditionV2, Metadata, TokenStandard,
    UseMethod, Uses,
};

fn key(n: u8) -> Pubkey {
    Pubkey::from_array(&[n; 32])
}

fn full_record() -> Metadata {
    Metadata {
        key: Key::MetadataV1,
        update_authority: key(1),
        mint: key(2),
        data: Data {
            name: "Ünïcode name".as_bytes().to_vec(),
            symbol: b"SYM".to_vec(),
            uri: b"https://example.com/x.json".to_vec(),
            seller_fee_basis_points: 1234,
            creators: Some(vec![
                Creator { address: key(3), verified: true, share: 30 },
                Creator { address: key(4), verified: false, share: 70 },
            ]),
        },
        primary_sale_happened: true,
        is_mutable: false,
        edition_nonce: Some(254),
        token_standard: Some(TokenStandard::NonFungible),
        collection: Some(Collection { verified: true, key: key(5) }),
        uses: Some(Uses { use_method: UseMethod::Multiple, remaining: 4, total: 9 }),
        collection_details: Some(CollectionDetails::V1 { size: 77 }),
    }
}

fn same(a: &Metadata, b: &Metadata) -> bool {
    encode_metadata(a) == encode_metadata(b)
}

#[test]
fn metadata_reads_back_what_was_written() {
    let m = full_record();
    let mut bytes = encode_metadata(&m);
    assert!(same(&metadata_from_data(&bytes).unwrap(), &m));
    bytes.resize(679, 0);
    let back = metadata_from_data(&bytes).unwrap();
    assert!(same(&back, &m));
    assert_eq!(back.collection_details, Some(CollectionDetails::V1 { size: 77 }));
}

#[test]
fn metadata_bytes_layout() {
    let mut m = full_record();
    m.data.creators = None;
    m.token_standard = None;
    m.collection = None;
    m.uses = None;
    m.collection_details = None;
    m.edition_nonce = None;
    m.data.name = b"A".to_vec();
    m.data.symbol = b"".to_vec();
    m.data.uri = b"".to_vec();
    let bytes = encode_metadata(&m);
    let mut expected = vec![4u8];
    expected.extend_from_slice(&[1u8; 32]);
    expected.extend_from_slice(&[2u8; 32]);
    expected.extend_from_slice(&[1, 0, 0, 0, b'A', 0, 0, 0, 0, 0, 0, 0, 0]);
    expected.extend_from_slice(&[0xd2, 0x04, 0, 1, 0, 0, 0, 0, 0, 0]);
    assert_eq!(bytes, expected);
}

#[test]
fn metadata_of_other_records_is_a_type_mismatch() {
    let mut bytes = encode_metadata(&full_record());
    bytes[0] = 6;
    assert_eq!(metadata_from_data(&bytes).unwrap_err(), ProgramError::Custom(MetadataError::DataTypeMismatch.code()));
    assert!(metadata_from_data(&[]).is_err());
    let mut bad_utf8 = encode_metadata(&full_record());
    bad_utf8[69] = 0xff;
    assert!(metadata_from_data(&bad_utf8).is_err());
}

#[test]
fn trailing_fields_are_dropped_together_when_one_is_unreadable() {
    let m = full_record();
    let mut bytes = encode_metadata(&m);
    let n = bytes.len();
    bytes[n - 10] = 9;
    let back = metadata_from_data(&bytes).unwrap();
    assert_eq!(back.token_standard, Some(TokenStandard::NonFungible));
    assert_eq!(back.collection_details, None);
}

#[test]
fn master_edition_round_trip() {
    let me = MasterEditionV2 { key: Key::MasterEditionV2, supply: 3, max_supply: Some(10) };
    let mut bytes = encode_master_edition_v2(&me);
    assert_eq!(bytes, vec![6u8, 3, 0, 0, 0, 0, 0, 0, 0, 1, 10, 0, 0, 0, 0, 0, 0, 0]);
    assert!(master_edition_v2_from_data(&bytes).is_err());
    bytes.resize(282, 0);
    assert_eq!(master_edition_v2_from_data(&bytes).unwrap(), me);
}

#[test]
fn error_codes_round_trip() {
    assert_eq!(MetadataError::InstructionUnpackError.code(), 0);
    assert_eq!(MetadataError::TokenBurnFailed.code(), 25);
    assert_eq!(MetadataError::Removed.code(), 75);
    assert_eq!(MetadataError::TokenCloseFailed.code(), 100);
    assert_eq!(MetadataError::MustUnverify.code(), 123);
    for n in 0..124u32 {
        assert_eq!(MetadataError::from_code(n).unwrap().code(), n);
    }
    assert_eq!(MetadataError::from_code(124), None);
    assert_eq!(ProgramError::from(MetadataError::Removed), ProgramError::Custom(75));
}

#[test]
fn well_known_addresses() {
    assert_eq!(token_program_id().to_array(), spl_token::id().to_bytes());
    assert_eq!(rent_id().to_array(), solana_program::sysvar::rent::id().to_bytes());
    let metaplex: SolKey = "metaqbxxUerdq28cj1RbAWkYQm3ybzjb6a8bt518x1s".parse().unwrap();
    assert_eq!(program_id().to_array(), metaplex.to_bytes());
}

#[test]
fn program_addresses_match_the_runtime() {
    let pid = program_id();
    let seeds = vec![b"metadata".to_vec(), pid.to_bytes(), key(2).to_bytes()];
    let (k, bump) = find_address(&seeds, &pid).unwrap();
    let sp = SolKey::new_from_array(pid.to_array());
    let (expected, eb) = SolKey::find_program_address(&[b"metadata", sp.as_ref(), &[2u8; 32]], &sp);
    assert_eq!(k.to_array(), expected.to_bytes());
    assert_eq!(bump, eb);
}

#[test]
fn mints_are_read_with_the_token_program_layout() {
    let m = spl_token::state::Mint {
        mint_authority: solana_program::program_option::COption::None,
        supply: 42,
        decimals: 3,
        is_initialized: true,
        freeze_authority: solana_program::program_option::COption::None,
    };
    let mut d = vec![0u8; 82];
    solana_program::program_pack::Pack::pack(m, &mut d).unwrap();
    let a = AccountInfo { key: key(2), owner: token_program_id(), is_signer: false, is_writable: false, lamports: 0, data: d.clone() };
    let read = assert_initialized_mint(&a).unwrap();
    assert_eq!((read.supply, read.decimals, read.mint_authority), (42, 3, None));
    let mut short = a.clone();
    short.data.truncate(81);
    assert_eq!(assert_initialized_mint(&short).unwrap_err(), ProgramError::InvalidAccountData);
    let mut blank = a.clone();
    blank.data = vec![0u8; 82];
    assert_eq!(assert_initialized_mint(&blank).unwrap_err(), ProgramError::Custom(MetadataError::Uninitialized.code()));
    let mut bad_tag = a.clone();
    bad_tag.data[0] = 2;
    assert_eq!(assert_initialized_mint(&bad_tag).unwrap_err(), ProgramError::InvalidAccountData);
    let mut bad_flag = a.clone();
    bad_flag.data[45] = 2;
    assert_eq!(assert_initialized_mint(&bad_flag).unwrap_err(), ProgramError::InvalidAccountData);
    let mut with_authority = a.clone();
    with_authority.data[0] = 1;
    with_authority.data[4..36].copy_from_slice(&[7u8; 32]);
    assert_eq!(assert_initialized_mint(&with_authority).unwrap().mint_authority, Some(key(7)));
}

#[test]
fn token_accounts_are_read_with_the_token_program_layout() {
    let t = spl_token::state::Account {
        mint: solana_program::pubkey::Pubkey::new_from_array([2u8; 32]),
        owner: solana_program::pubkey::Pubkey::new_from_array([3u8; 32]),
        amount: 9,
        delegate: solana_program::program_option::COption::Some(solana_program::pubkey::Pubkey::new_from_array([4u8; 32])),
        state: spl_token::state::AccountState::Frozen,
        is_native: solana_program::program_option::COption::Some(5),
        delegated_amount: 6,
        close_authority: solana_program::program_option::COption::None,
    };
    let mut d = vec![0u8; 165];
    solana_program::program_pack::Pack::pack(t, &mut d).unwrap();
    let a = AccountInfo { key: key(5), owner: token_program_id(), is_signer: false, is_writable: false, lamports: 0, data: d };
    let read = assert_initialized_token_account(&a).unwrap();
    assert_eq!((read.mint, read.owner, read.amount, read.delegate), (key(2), key(3), 9, Some(key(4))));
    assert_eq!((read.state, read.is_native, read.delegated_amount, read.close_authority), (AccountState::Frozen, Some(5), 6, None));
    let mut bad_state = a.clone();
    bad_state.data[108] = 3;
    assert_eq!(assert_initialized_token_account(&bad_state).unwrap_err(), ProgramError::InvalidAccountData);
}

#[test]
fn strings_and_numbers() {
    let pid = key(1);
    let mint = key(2);
    let marker = |n: u64| make_edition_marker_seeds(&pid, &mint, n).last().unwrap().clone();
    assert_eq!(marker(0), b"0".to_vec());
    assert_eq!(marker(247), b"0".to_vec());
    assert_eq!(marker(248 * 1234), b"1234".to_vec());
    assert_eq!(marker(u64::MAX), (u64::MAX / 248).to_string().into_bytes());
    let seeds = make_edition_marker_seeds(&pid, &mint, 500);
    assert_eq!(seeds.len(), 5);
    assert_eq!(seeds[0], b"metadata".to_vec());
    assert_eq!(seeds[3], b"edition".to_vec());

    let word = "héllo".as_bytes();
    let mut framed = (word.len() as u32).to_le_bytes().to_vec();
    framed.extend_from_slice(word);
    assert_eq!(rd_string(&framed, 0), Some((word.to_vec(), framed.len())));
    let bad = vec![1u8, 0, 0, 0, 0xc3];
    assert_eq!(rd_string(&bad, 0), None);
}

#[test]
fn edition_marker_bits() {
    assert_eq!(index_and_mask(0), (0, 128));
    assert_eq!(index_and_mask(7), (0, 1));
    assert_eq!(index_and_mask(9), (1, 64));
    assert_eq!(index_and_mask(247), (30, 1));
    assert_eq!(index_and_mask(248), (0, 128));
    let initial: Vec<u8> = (0..31u8).collect();
    let mut ledger = initial.clone();
    toggle_edition(&mut ledger, 9);
    assert_eq!(ledger[1], 1 ^ 64);
    toggle_edition(&mut ledger, 9);
    assert_eq!(ledger, initial);
}

#[test]
fn sized_collection_verify_then_unverify_restores_the_size() {
    let mut m = full_record();
    m.collection_details = Some(CollectionDetails::V1 { size: 5 });
    let up = increment_collection_size(&m).unwrap();
    assert_eq!(up.collection_details, Some(CollectionDetails::V1 { size: 6 }));
    let down = decrement_collection_size(&up).unwrap();
    assert!(same(&down, &m));
    m.collection_details = Some(CollectionDetails::V1 { size: 0 });
    assert_eq!(decrement_collection_size(&m).unwrap_err(), ProgramError::Custom(MetadataError::NumericalOverflowError.code()));
    m.collection_details = None;
    assert_eq!(increment_collection_size(&m).unwrap_err(), ProgramError::Custom(MetadataError::UnsizedCollection.code()));
}

#[test]
fn instructions_decode_by_tag() {
    let mut v3 = vec![17u8, 1];
    v3.extend_from_slice(&5u64.to_le_bytes());
    assert!(matches!(decode_instruction(&v3), Some(MetadataInstruction::CreateMasterEditionV3 { max_supply: Some(5) })));
    assert!(matches!(decode_instruction(&[7]), Some(MetadataInstruction::SignMetadata)));
    assert!(decode_instruction(&[7, 0]).is_none());
    assert!(decode_instruction(&[38]).is_none());
    assert!(decode_instruction(&[]).is_none());
    let mut use_ix = vec![19u8];
    use_ix.extend_from_slice(&3u64.to_le_bytes());
    assert!(matches!(decode_instruction(&use_ix), Some(MetadataInstruction::Utilize { number_of_uses: 3 })));
}

#[test]
fn removed_and_undecodable_instructions() {
    let pid = program_id();
    assert_eq!(process_instruction(&pid, &vec![], &[3]).unwrap_err(), ProgramError::Custom(MetadataError::Removed.code()));
    assert_eq!(process_instruction(&pid, &vec![], &[6]).unwrap_err(), ProgramError::Custom(MetadataError::Removed.code()));
    assert_eq!(process_instruction(&pid, &vec![], &[2, 0]).unwrap_err(), ProgramError::Custom(MetadataError::Removed.code()));
    assert_eq!(process_instruction(&pid, &vec![], &[2, 7]).unwrap_err(), ProgramError::BorshIoError);
    assert_eq!(process_instruction(&pid, &vec![], &[200]).unwrap_err(), ProgramError::BorshIoError);
    assert_eq!(process_instruction(&pid, &vec![], &[7]).unwrap_err(), ProgramError::NotEnoughAccountKeys);
    let mut reservations = vec![5u8, 1, 0, 0, 0];
    reservations.extend_from_slice(&[0u8; 48]);
    reservations.extend_from_slice(&[0u8; 17]);
    assert_eq!(process_instruction(&pid, &vec![], &reservations).unwrap_err(), ProgramError::Custom(MetadataError::Removed.code()));
    reservations.pop();
    assert_eq!(process_instruction(&pid, &vec![], &reservations).unwrap_err(), ProgramError::BorshIoError);
}

#[test]
fn small_records_read_back() {
    let u = UseAuthorityRecord { key: Key::UseAuthorityRecord, allowed_uses: 77, bump: 250 };
    let mut d = encode_use_authority_record(&u);
    d.resize(18, 0);
    assert_eq!(use_authority_record_from_data(&d).unwrap(), u);
    let c = CollectionAuthorityRecord { key: Key::CollectionAuthorityRecord, bump: 3 };
    let mut d = encode_collection_authority_record(&c);
    d.resize(11, 0);
    assert_eq!(collection_authority_record_from_data(&d).unwrap(), c);
    let e = EditionMarker { key: Key::EditionMarker, ledger: (0..31u8).collect() };
    let back = edition_marker_from_data(&encode_edition_marker(&e)).unwrap();
    assert_eq!(back.ledger, e.ledger);
    assert_eq!(back.key, Key::EditionMarker);
}
