use token_metadata::account::Effect;
use token_metadata::encode::encode_metadata;
use token_metadata::error::{FuseError, MetadataError, ProgramError};
use token_metadata::fuser::{
    create_filter_settings, create_fused_metadata, entangle_base_and_fused, fulfill_fuse_request,
    request_fuse, CreateFilterSettings, EntangleComponents, FilterSettings, FulfillFuseRequest,
    FuseRequest, FuseRequestEvent, MintNFT, RequestFuse,
};
use token_metadata::ids::token_program_id;
use token_metadata::instruction::{decode_instruction, MetadataInstruction};
use token_metadata::pubkey::Pubkey;
use token_metadata::state::{Creator, Data, Key, Metadata};

fn key(n: u8) -> Pubkey {
    Pubkey::from_array(&[n; 32])
}

fn blank_request() -> FuseRequest {
    FuseRequest {
        bump: 0,
        mint: Pubkey::zero(),
        filter: key(40),
        requester: Pubkey::zero(),
        completed: true,
        crank_authority: Pubkey::zero(),
        bounty_amount: 0,
        uri: vec![],
        name: vec![],
        symbol: vec![],
    }
}

fn settings() -> FilterSettings {
    FilterSettings {
        bump: 9,
        filter_mint: Pubkey::zero(),
        treasury_mint: Pubkey::zero(),
        treasury_address: Pubkey::zero(),
        price: 0,
        pays_every_time: false,
        crank_authority: Pubkey::zero(),
    }
}

fn invoked(e: &Effect) -> (Vec<u8>, usize) {
    match e {
        Effect::Invoke { instruction, signer_seeds, .. } => (instruction.data.clone(), signer_seeds.len()),
        other => panic!("expected an invocation, got {:?}", other),
    }
}

#[test]
fn event_init_copies_its_arguments() {
    let e = FuseRequestEvent::init(&key(1), &key(2), &key(3), 50);
    assert_eq!(e, FuseRequestEvent { filter_mint: key(1), base_mint: key(2), creator: key(3), bounty: 50 });
}

#[test]
fn filter_settings_are_recorded() {
    let mut ctx = CreateFilterSettings {
        payer: key(1),
        filter_settings: settings(),
        treasury_mint: key(2),
        treasury: key(3),
        crank_authority: key(4),
        filter_mint: key(5),
        system_program: Pubkey::zero(),
    };
    create_filter_settings(&mut ctx, 700, true).unwrap();
    assert_eq!(
        ctx.filter_settings,
        FilterSettings {
            bump: 9,
            filter_mint: key(5),
            treasury_mint: key(2),
            treasury_address: key(3),
            price: 700,
            pays_every_time: true,
            crank_authority: key(4),
        }
    );
}

#[test]
fn request_then_fulfill_pays_the_bounty() {
    let mut req = RequestFuse {
        payer: key(1),
        mint: key(2),
        filter: key(40),
        fuse_request_address: key(3),
        fuse_request: blank_request(),
        system_program: Pubkey::zero(),
        token_program: token_program_id(),
    };
    let e = request_fuse(&mut req, 254, key(4), 1_000).unwrap();
    let (data, seeds) = invoked(&e);
    let mut expected = vec![3u8];
    expected.extend_from_slice(&1_000u64.to_le_bytes());
    assert_eq!(data, expected);
    assert_eq!(seeds, 0);
    assert_eq!(req.fuse_request.requester, key(1));
    assert_eq!(req.fuse_request.mint, key(2));
    assert!(!req.fuse_request.completed);
    assert_eq!(req.fuse_request.bounty_amount, 1_000);
    let mut ful = FulfillFuseRequest {
        mint: key(2),
        fuse_request_address: key(3),
        fuse_request: req.fuse_request.clone(),
        claimer: key(4),
        requester: key(1),
        token_program: token_program_id(),
    };
    let e = fulfill_fuse_request(&mut ful, b"uri".to_vec(), b"name".to_vec(), b"SYM".to_vec()).unwrap();
    let (data, seeds) = invoked(&e);
    assert_eq!(data, expected);
    assert_eq!(seeds, 1);
    assert!(ful.fuse_request.completed);
    assert_eq!(ful.fuse_request.name, b"name".to_vec());
    let mut wrong = RequestFuse { token_program: key(9), ..req.clone() };
    assert_eq!(request_fuse(&mut wrong, 1, key(4), 5).unwrap_err(), ProgramError::IncorrectProgramId);
}

fn mint_nft(supply: u64) -> MintNFT {
    let mut fr = blank_request();
    fr.name = b"Fused".to_vec();
    fr.symbol = b"FU".to_vec();
    fr.uri = b"https://fuse".to_vec();
    let base = Metadata {
        key: Key::MetadataV1,
        update_authority: key(1),
        mint: key(2),
        data: Data {
            name: b"Base".to_vec(),
            symbol: b"B".to_vec(),
            uri: b"u".to_vec(),
            seller_fee_basis_points: 321,
            creators: Some(vec![Creator { address: key(7), verified: true, share: 100 }]),
        },
        primary_sale_happened: false,
        is_mutable: true,
        edition_nonce: None,
        token_standard: None,
        collection: None,
        uses: None,
        collection_details: None,
    };
    MintNFT {
        filter_mint: key(40),
        fuse_request_address: key(3),
        fuse_request: fr,
        filter_settings: settings(),
        fuse_creator: key(5),
        payer: key(6),
        base_metadata: key(8),
        base_metadata_data: encode_metadata(&base),
        metadata: key(10),
        mint: key(11),
        mint_supply: supply,
        mint_authority: key(6),
        update_authority: key(6),
        master_edition: key(12),
        token_metadata_program: token_metadata::ids::program_id(),
        token_program: token_program_id(),
        system_program: Pubkey::zero(),
        rent: token_metadata::ids::rent_id(),
        clock: key(13),
    }
}

#[test]
fn fused_metadata_is_created_through_the_metadata_program() {
    let effects = create_fused_metadata(&mint_nft(1)).unwrap();
    assert_eq!(effects.len(), 3);
    let (create_md, seeds) = invoked(&effects[1]);
    assert_eq!(seeds, 1);
    match decode_instruction(&create_md) {
        Some(MetadataInstruction::CreateMetadataAccountV2 { data, is_mutable }) => {
            assert!(is_mutable);
            assert_eq!(data.name, b"Fused".to_vec());
            assert_eq!(data.uri, b"https://fuse".to_vec());
            assert_eq!(data.seller_fee_basis_points, 321);
            assert_eq!(data.creators.unwrap()[0].address, key(7));
            assert!(data.collection.is_none() && data.uses.is_none());
        }
        other => panic!("unexpected instruction {:?}", other),
    }
    let (create_me, _) = invoked(&effects[2]);
    assert!(matches!(decode_instruction(&create_me), Some(MetadataInstruction::CreateMasterEditionV3 { max_supply: Some(1) })));
}

#[test]
fn fused_metadata_needs_exactly_one_minted_token() {
    for supply in [0u64, 2, u64::MAX] {
        assert_eq!(
            create_fused_metadata(&mint_nft(supply)).unwrap_err(),
            ProgramError::Custom(FuseError::MintSupplyIncorrect.code())
        );
    }
    assert_eq!(FuseError::MintSupplyIncorrect.code(), 6000);
    assert_eq!(FuseError::FilterAuthorityIsNotMintAuthority.code(), 6001);
    let mut bad_base = mint_nft(1);
    bad_base.base_metadata_data = vec![1, 2, 3];
    assert_eq!(
        create_fused_metadata(&bad_base).unwrap_err(),
        ProgramError::Custom(MetadataError::DataTypeMismatch.code())
    );
}

#[test]
fn entangling_does_nothing() {
    let ctx = EntangleComponents {
        filter_mint: key(1),
        fuse_request: key(2),
        filter_settings: key(3),
        payer: key(4),
        treasury_mint: key(5),
        transfer_authority: key(6),
        authority: key(7),
        mint_original: key(8),
        metadata_original: key(9),
        edition_original: key(10),
        mint_filtered: key(11),
        metadata_filtered: key(12),
        edition_filtered: key(13),
        token_b: key(14),
        token_a_escrow: key(15),
        token_b_escrow: key(16),
        entangled_pair: key(17),
        reverse_entangled_pair: key(18),
        token_program: token_program_id(),
        system_program: Pubkey::zero(),
        rent: key(19),
    };
    assert!(entangle_base_and_fused(&ctx).is_ok());
}
