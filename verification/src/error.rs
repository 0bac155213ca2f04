//! Errors of the programs, and the program error that a failed instruction returns.

use vstd::prelude::*;

verus! {

/// Errors that may be returned by the token-metadata program.
#[derive(Clone, Copy, Debug, PartialEq, Eq, Structural)]
pub enum MetadataError {
    InstructionUnpackError,
    InstructionPackError,
    NotRentExempt,
    AlreadyInitialized,
    Uninitialized,
    InvalidMetadataKey,
    InvalidEditionKey,
    UpdateAuthorityIncorrect,
    UpdateAuthorityIsNotSigner,
    NotMintAuthority,
    InvalidMintAuthority,
    NameTooLong,
    SymbolTooLong,
    UriTooLong,
    UpdateAuthorityMustBeEqualToMetadataAuthorityAndSigner,
    MintMismatch,
    EditionsMustHaveExactlyOneToken,
    MaxEditionsMintedAlready,
    TokenMintToFailed,
    MasterRecordMismatch,
    DestinationMintMismatch,
    EditionAlreadyMinted,
    PrintingMintDecimalsShouldBeZero,
    OneTimePrintingAuthorizationMintDecimalsShouldBeZero,
    EditionMintDecimalsShouldBeZero,
    TokenBurnFailed,
    TokenAccountOneTimeAuthMintMismatch,
    DerivedKeyInvalid,
    PrintingMintMismatch,
    OneTimePrintingAuthMintMismatch,
    TokenAccountMintMismatch,
    TokenAccountMintMismatchV2,
    NotEnoughTokens,
    PrintingMintAuthorizationAccountMismatch,
    AuthorizationTokenAccountOwnerMismatch,
    Disabled,
    CreatorsTooLong,
    CreatorsMustBeAtleastOne,
    MustBeOneOfCreators,
    NoCreatorsPresentOnMetadata,
    CreatorNotFound,
    InvalidBasisPoints,
    PrimarySaleCanOnlyBeFlippedToTrue,
    OwnerMismatch,
    NoBalanceInAccountForAuthorization,
    ShareTotalMustBe100,
    ReservationExists,
    ReservationDoesNotExist,
    ReservationNotSet,
    ReservationAlreadyMade,
    BeyondMaxAddressSize,
    NumericalOverflowError,
    ReservationBreachesMaximumSupply,
    AddressNotInReservation,
    CannotVerifyAnotherCreator,
    CannotUnverifyAnotherCreator,
    SpotMismatch,
    IncorrectOwner,
    PrintingWouldBreachMaximumSupply,
    DataIsImmutable,
    DuplicateCreatorAddress,
    ReservationSpotsRemainingShouldMatchTotalSpotsAtStart,
    InvalidTokenProgram,
    DataTypeMismatch,
    BeyondAlottedAddressSize,
    ReservationNotComplete,
    TriedToReplaceAnExistingReservation,
    InvalidOperation,
    InvalidOwner,
    PrintingMintSupplyMustBeZeroForConversion,
    OneTimeAuthMintSupplyMustBeZeroForConversion,
    InvalidEditionIndex,
    ReservationArrayShouldBeSizeOne,
    IsMutableCanOnlyBeFlippedToFalse,
    CollectionCannotBeVerifiedInThisInstruction,
    Removed,
    MustBeBurned,
    InvalidUseMethod,
    CannotChangeUseMethodAfterFirstUse,
    CannotChangeUsesAfterFirstUse,
    CollectionNotFound,
    InvalidCollectionUpdateAuthority,
    CollectionMustBeAUniqueMasterEdition,
    UseAuthorityRecordAlreadyExists,
    UseAuthorityRecordAlreadyRevoked,
    Unusable,
    NotEnoughUses,
    CollectionAuthorityRecordAlreadyExists,
    CollectionAuthorityDoesNotExist,
    InvalidUseAuthorityRecord,
    InvalidCollectionAuthorityRecord,
    InvalidFreezeAuthority,
    InvalidDelegate,
    CannotAdjustVerifiedCreator,
    CannotRemoveVerifiedCreator,
    CannotWipeVerifiedCreators,
    NotAllowedToChangeSellerFeeBasisPoints,
    EditionOverrideCannotBeZero,
    InvalidUser,
    RevokeCollectionAuthoritySignerIncorrect,
    TokenCloseFailed,
    UnsizedCollection,
    SizedCollection,
    MissingCollectionMetadata,
    NotAMemberOfCollection,
    NotVerifiedMemberOfCollection,
    NotACollectionParent,
    CouldNotDetermineTokenStandard,
    MissingEditionAccount,
    NotAMasterEdition,
    MasterEditionHasPrints,
    BorshDeserializationError,
    CannotUpdateVerifiedCollection,
    CollectionMasterEditionAccountInvalid,
    AlreadyVerified,
    AlreadyUnverified,
    NotAPrintEdition,
    InvalidMasterEdition,
    InvalidPrintEdition,
    InvalidEditionMarker,
    ReservationListDeprecated,
    PrintEditionDoesNotMatchMasterEdition,
    EditionNumberGreaterThanMaxSupply,
    MustUnverify,
}

/// The number that identifies a metadata error in a failed instruction.
pub open spec fn metadata_error_code(e: MetadataError) -> u32 {
    match e {
        MetadataError::InstructionUnpackError => 0,
        MetadataError::InstructionPackError => 1,
        MetadataError::NotRentExempt => 2,
        MetadataError::AlreadyInitialized => 3,
        MetadataError::Uninitialized => 4,
        MetadataError::InvalidMetadataKey => 5,
        MetadataError::InvalidEditionKey => 6,
        MetadataError::UpdateAuthorityIncorrect => 7,
        MetadataError::UpdateAuthorityIsNotSigner => 8,
        MetadataError::NotMintAuthority => 9,
        MetadataError::InvalidMintAuthority => 10,
        MetadataError::NameTooLong => 11,
        MetadataError::SymbolTooLong => 12,
        MetadataError::UriTooLong => 13,
        MetadataError::UpdateAuthorityMustBeEqualToMetadataAuthorityAndSigner => 14,
        MetadataError::MintMismatch => 15,
        MetadataError::EditionsMustHaveExactlyOneToken => 16,
        MetadataError::MaxEditionsMintedAlready => 17,
        MetadataError::TokenMintToFailed => 18,
        MetadataError::MasterRecordMismatch => 19,
        MetadataError::DestinationMintMismatch => 20,
        MetadataError::EditionAlreadyMinted => 21,
        MetadataError::PrintingMintDecimalsShouldBeZero => 22,
        MetadataError::OneTimePrintingAuthorizationMintDecimalsShouldBeZero => 23,
        MetadataError::EditionMintDecimalsShouldBeZero => 24,
        MetadataError::TokenBurnFailed => 25,
        MetadataError::TokenAccountOneTimeAuthMintMismatch => 26,
        MetadataError::DerivedKeyInvalid => 27,
        MetadataError::PrintingMintMismatch => 28,
        MetadataError::OneTimePrintingAuthMintMismatch => 29,
        MetadataError::TokenAccountMintMismatch => 30,
        MetadataError::TokenAccountMintMismatchV2 => 31,
        MetadataError::NotEnoughTokens => 32,
        MetadataError::PrintingMintAuthorizationAccountMismatch => 33,
        MetadataError::AuthorizationTokenAccountOwnerMismatch => 34,
        MetadataError::Disabled => 35,
        MetadataError::CreatorsTooLong => 36,
        MetadataError::CreatorsMustBeAtleastOne => 37,
        MetadataError::MustBeOneOfCreators => 38,
        MetadataError::NoCreatorsPresentOnMetadata => 39,
        MetadataError::CreatorNotFound => 40,
        MetadataError::InvalidBasisPoints => 41,
        MetadataError::PrimarySaleCanOnlyBeFlippedToTrue => 42,
        MetadataError::OwnerMismatch => 43,
        MetadataError::NoBalanceInAccountForAuthorization => 44,
        MetadataError::ShareTotalMustBe100 => 45,
        MetadataError::ReservationExists => 46,
        MetadataError::ReservationDoesNotExist => 47,
        MetadataError::ReservationNotSet => 48,
        MetadataError::ReservationAlreadyMade => 49,
        MetadataError::BeyondMaxAddressSize => 50,
        MetadataError::NumericalOverflowError => 51,
        MetadataError::ReservationBreachesMaximumSupply => 52,
        MetadataError::AddressNotInReservation => 53,
        MetadataError::CannotVerifyAnotherCreator => 54,
        MetadataError::CannotUnverifyAnotherCreator => 55,
        MetadataError::SpotMismatch => 56,
        MetadataError::IncorrectOwner => 57,
        MetadataError::PrintingWouldBreachMaximumSupply => 58,
        MetadataError::DataIsImmutable => 59,
        MetadataError::DuplicateCreatorAddress => 60,
        MetadataError::ReservationSpotsRemainingShouldMatchTotalSpotsAtStart => 61,
        MetadataError::InvalidTokenProgram => 62,
        MetadataError::DataTypeMismatch => 63,
        MetadataError::BeyondAlottedAddressSize => 64,
        MetadataError::ReservationNotComplete => 65,
        MetadataError::TriedToReplaceAnExistingReservation => 66,
        MetadataError::InvalidOperation => 67,
        MetadataError::InvalidOwner => 68,
        MetadataError::PrintingMintSupplyMustBeZeroForConversion => 69,
        MetadataError::OneTimeAuthMintSupplyMustBeZeroForConversion => 70,
        MetadataError::InvalidEditionIndex => 71,
        MetadataError::ReservationArrayShouldBeSizeOne => 72,
        MetadataError::IsMutableCanOnlyBeFlippedToFalse => 73,
        MetadataError::CollectionCannotBeVerifiedInThisInstruction => 74,
        MetadataError::Removed => 75,
        MetadataError::MustBeBurned => 76,
        MetadataError::InvalidUseMethod => 77,
        MetadataError::CannotChangeUseMethodAfterFirstUse => 78,
        MetadataError::CannotChangeUsesAfterFirstUse => 79,
        MetadataError::CollectionNotFound => 80,
        MetadataError::InvalidCollectionUpdateAuthority => 81,
        MetadataError::CollectionMustBeAUniqueMasterEdition => 82,
        MetadataError::UseAuthorityRecordAlreadyExists => 83,
        MetadataError::UseAuthorityRecordAlreadyRevoked => 84,
        MetadataError::Unusable => 85,
        MetadataError::NotEnoughUses => 86,
        MetadataError::CollectionAuthorityRecordAlreadyExists => 87,
        MetadataError::CollectionAuthorityDoesNotExist => 88,
        MetadataError::InvalidUseAuthorityRecord => 89,
        MetadataError::InvalidCollectionAuthorityRecord => 90,
        MetadataError::InvalidFreezeAuthority => 91,
        MetadataError::InvalidDelegate => 92,
        MetadataError::CannotAdjustVerifiedCreator => 93,
        MetadataError::CannotRemoveVerifiedCreator => 94,
        MetadataError::CannotWipeVerifiedCreators => 95,
        MetadataError::NotAllowedToChangeSellerFeeBasisPoints => 96,
        MetadataError::EditionOverrideCannotBeZero => 97,
        MetadataError::InvalidUser => 98,
        MetadataError::RevokeCollectionAuthoritySignerIncorrect => 99,
        MetadataError::TokenCloseFailed => 100,
        MetadataError::UnsizedCollection => 101,
        MetadataError::SizedCollection => 102,
        MetadataError::MissingCollectionMetadata => 103,
        MetadataError::NotAMemberOfCollection => 104,
        MetadataError::NotVerifiedMemberOfCollection => 105,
        MetadataError::NotACollectionParent => 106,
        MetadataError::CouldNotDetermineTokenStandard => 107,
        MetadataError::MissingEditionAccount => 108,
        MetadataError::NotAMasterEdition => 109,
        MetadataError::MasterEditionHasPrints => 110,
        MetadataError::BorshDeserializationError => 111,
        MetadataError::CannotUpdateVerifiedCollection => 112,
        MetadataError::CollectionMasterEditionAccountInvalid => 113,
        MetadataError::AlreadyVerified => 114,
        MetadataError::AlreadyUnverified => 115,
        MetadataError::NotAPrintEdition => 116,
        MetadataError::InvalidMasterEdition => 117,
        MetadataError::InvalidPrintEdition => 118,
        MetadataError::InvalidEditionMarker => 119,
        MetadataError::ReservationListDeprecated => 120,
        MetadataError::PrintEditionDoesNotMatchMasterEdition => 121,
        MetadataError::EditionNumberGreaterThanMaxSupply => 122,
        MetadataError::MustUnverify => 123,
    }
}

/// The metadata error that a number identifies, if any.
pub open spec fn metadata_error_of_code(n: u32) -> Option<MetadataError> {
    if n == 0 {
        Some(MetadataError::InstructionUnpackError)
    } else if n == 1 {
        Some(MetadataError::InstructionPackError)
    } else if n == 2 {
        Some(MetadataError::NotRentExempt)
    } else if n == 3 {
        Some(MetadataError::AlreadyInitialized)
    } else if n == 4 {
        Some(MetadataError::Uninitialized)
    } else if n == 5 {
        Some(MetadataError::InvalidMetadataKey)
    } else if n == 6 {
        Some(MetadataError::InvalidEditionKey)
    } else if n == 7 {
        Some(MetadataError::UpdateAuthorityIncorrect)
    } else if n == 8 {
        Some(MetadataError::UpdateAuthorityIsNotSigner)
    } else if n == 9 {
        Some(MetadataError::NotMintAuthority)
    } else if n == 10 {
        Some(MetadataError::InvalidMintAuthority)
    } else if n == 11 {
        Some(MetadataError::NameTooLong)
    } else if n == 12 {
        Some(MetadataError::SymbolTooLong)
    } else if n == 13 {
        Some(MetadataError::UriTooLong)
    } else if n == 14 {
        Some(MetadataError::UpdateAuthorityMustBeEqualToMetadataAuthorityAndSigner)
    } else if n == 15 {
        Some(MetadataError::MintMismatch)
    } else if n == 16 {
        Some(MetadataError::EditionsMustHaveExactlyOneToken)
    } else if n == 17 {
        Some(MetadataError::MaxEditionsMintedAlready)
    } else if n == 18 {
        Some(MetadataError::TokenMintToFailed)
    } else if n == 19 {
        Some(MetadataError::MasterRecordMismatch)
    } else if n == 20 {
        Some(MetadataError::DestinationMintMismatch)
    } else if n == 21 {
        Some(MetadataError::EditionAlreadyMinted)
    } else if n == 22 {
        Some(MetadataError::PrintingMintDecimalsShouldBeZero)
    } else if n == 23 {
        Some(MetadataError::OneTimePrintingAuthorizationMintDecimalsShouldBeZero)
    } else if n == 24 {
        Some(MetadataError::EditionMintDecimalsShouldBeZero)
    } else if n == 25 {
        Some(MetadataError::TokenBurnFailed)
    } else if n == 26 {
        Some(MetadataError::TokenAccountOneTimeAuthMintMismatch)
    } else if n == 27 {
        Some(MetadataError::DerivedKeyInvalid)
    } else if n == 28 {
        Some(MetadataError::PrintingMintMismatch)
    } else if n == 29 {
        Some(MetadataError::OneTimePrintingAuthMintMismatch)
    } else if n == 30 {
        Some(MetadataError::TokenAccountMintMismatch)
    } else if n == 31 {
        Some(MetadataError::TokenAccountMintMismatchV2)
    } else if n == 32 {
        Some(MetadataError::NotEnoughTokens)
    } else if n == 33 {
        Some(MetadataError::PrintingMintAuthorizationAccountMismatch)
    } else if n == 34 {
        Some(MetadataError::AuthorizationTokenAccountOwnerMismatch)
    } else if n == 35 {
        Some(MetadataError::Disabled)
    } else if n == 36 {
        Some(MetadataError::CreatorsTooLong)
    } else if n == 37 {
        Some(MetadataError::CreatorsMustBeAtleastOne)
    } else if n == 38 {
        Some(MetadataError::MustBeOneOfCreators)
    } else if n == 39 {
        Some(MetadataError::NoCreatorsPresentOnMetadata)
    } else if n == 40 {
        Some(MetadataError::CreatorNotFound)
    } else if n == 41 {
        Some(MetadataError::InvalidBasisPoints)
    } else if n == 42 {
        Some(MetadataError::PrimarySaleCanOnlyBeFlippedToTrue)
    } else if n == 43 {
        Some(MetadataError::OwnerMismatch)
    } else if n == 44 {
        Some(MetadataError::NoBalanceInAccountForAuthorization)
    } else if n == 45 {
        Some(MetadataError::ShareTotalMustBe100)
    } else if n == 46 {
        Some(MetadataError::ReservationExists)
    } else if n == 47 {
        Some(MetadataError::ReservationDoesNotExist)
    } else if n == 48 {
        Some(MetadataError::ReservationNotSet)
    } else if n == 49 {
        Some(MetadataError::ReservationAlreadyMade)
    } else if n == 50 {
        Some(MetadataError::BeyondMaxAddressSize)
    } else if n == 51 {
        Some(MetadataError::NumericalOverflowError)
    } else if n == 52 {
        Some(MetadataError::ReservationBreachesMaximumSupply)
    } else if n == 53 {
        Some(MetadataError::AddressNotInReservation)
    } else if n == 54 {
        Some(MetadataError::CannotVerifyAnotherCreator)
    } else if n == 55 {
        Some(MetadataError::CannotUnverifyAnotherCreator)
    } else if n == 56 {
        Some(MetadataError::SpotMismatch)
    } else if n == 57 {
        Some(MetadataError::IncorrectOwner)
    } else if n == 58 {
        Some(MetadataError::PrintingWouldBreachMaximumSupply)
    } else if n == 59 {
        Some(MetadataError::DataIsImmutable)
    } else if n == 60 {
        Some(MetadataError::DuplicateCreatorAddress)
    } else if n == 61 {
        Some(MetadataError::ReservationSpotsRemainingShouldMatchTotalSpotsAtStart)
    } else if n == 62 {
        Some(MetadataError::InvalidTokenProgram)
    } else if n == 63 {
        Some(MetadataError::DataTypeMismatch)
    } else if n == 64 {
        Some(MetadataError::BeyondAlottedAddressSize)
    } else if n == 65 {
        Some(MetadataError::ReservationNotComplete)
    } else if n == 66 {
        Some(MetadataError::TriedToReplaceAnExistingReservation)
    } else if n == 67 {
        Some(MetadataError::InvalidOperation)
    } else if n == 68 {
        Some(MetadataError::InvalidOwner)
    } else if n == 69 {
        Some(MetadataError::PrintingMintSupplyMustBeZeroForConversion)
    } else if n == 70 {
        Some(MetadataError::OneTimeAuthMintSupplyMustBeZeroForConversion)
    } else if n == 71 {
        Some(MetadataError::InvalidEditionIndex)
    } else if n == 72 {
        Some(MetadataError::ReservationArrayShouldBeSizeOne)
    } else if n == 73 {
        Some(MetadataError::IsMutableCanOnlyBeFlippedToFalse)
    } else if n == 74 {
        Some(MetadataError::CollectionCannotBeVerifiedInThisInstruction)
    } else if n == 75 {
        Some(MetadataError::Removed)
    } else if n == 76 {
        Some(MetadataError::MustBeBurned)
    } else if n == 77 {
        Some(MetadataError::InvalidUseMethod)
    } else if n == 78 {
        Some(MetadataError::CannotChangeUseMethodAfterFirstUse)
    } else if n == 79 {
        Some(MetadataError::CannotChangeUsesAfterFirstUse)
    } else if n == 80 {
        Some(MetadataError::CollectionNotFound)
    } else if n == 81 {
        Some(MetadataError::InvalidCollectionUpdateAuthority)
    } else if n == 82 {
        Some(MetadataError::CollectionMustBeAUniqueMasterEdition)
    } else if n == 83 {
        Some(MetadataError::UseAuthorityRecordAlreadyExists)
    } else if n == 84 {
        Some(MetadataError::UseAuthorityRecordAlreadyRevoked)
    } else if n == 85 {
        Some(MetadataError::Unusable)
    } else if n == 86 {
        Some(MetadataError::NotEnoughUses)
    } else if n == 87 {
        Some(MetadataError::CollectionAuthorityRecordAlreadyExists)
    } else if n == 88 {
        Some(MetadataError::CollectionAuthorityDoesNotExist)
    } else if n == 89 {
        Some(MetadataError::InvalidUseAuthorityRecord)
    } else if n == 90 {
        Some(MetadataError::InvalidCollectionAuthorityRecord)
    } else if n == 91 {
        Some(MetadataError::InvalidFreezeAuthority)
    } else if n == 92 {
        Some(MetadataError::InvalidDelegate)
    } else if n == 93 {
        Some(MetadataError::CannotAdjustVerifiedCreator)
    } else if n == 94 {
        Some(MetadataError::CannotRemoveVerifiedCreator)
    } else if n == 95 {
        Some(MetadataError::CannotWipeVerifiedCreators)
    } else if n == 96 {
        Some(MetadataError::NotAllowedToChangeSellerFeeBasisPoints)
    } else if n == 97 {
        Some(MetadataError::EditionOverrideCannotBeZero)
    } else if n == 98 {
        Some(MetadataError::InvalidUser)
    } else if n == 99 {
        Some(MetadataError::RevokeCollectionAuthoritySignerIncorrect)
    } else if n == 100 {
        Some(MetadataError::TokenCloseFailed)
    } else if n == 101 {
        Some(MetadataError::UnsizedCollection)
    } else if n == 102 {
        Some(MetadataError::SizedCollection)
    } else if n == 103 {
        Some(MetadataError::MissingCollectionMetadata)
    } else if n == 104 {
        Some(MetadataError::NotAMemberOfCollection)
    } else if n == 105 {
        Some(MetadataError::NotVerifiedMemberOfCollection)
    } else if n == 106 {
        Some(MetadataError::NotACollectionParent)
    } else if n == 107 {
        Some(MetadataError::CouldNotDetermineTokenStandard)
    } else if n == 108 {
        Some(MetadataError::MissingEditionAccount)
    } else if n == 109 {
        Some(MetadataError::NotAMasterEdition)
    } else if n == 110 {
        Some(MetadataError::MasterEditionHasPrints)
    } else if n == 111 {
        Some(MetadataError::BorshDeserializationError)
    } else if n == 112 {
        Some(MetadataError::CannotUpdateVerifiedCollection)
    } else if n == 113 {
        Some(MetadataError::CollectionMasterEditionAccountInvalid)
    } else if n == 114 {
        Some(MetadataError::AlreadyVerified)
    } else if n == 115 {
        Some(MetadataError::AlreadyUnverified)
    } else if n == 116 {
        Some(MetadataError::NotAPrintEdition)
    } else if n == 117 {
        Some(MetadataError::InvalidMasterEdition)
    } else if n == 118 {
        Some(MetadataError::InvalidPrintEdition)
    } else if n == 119 {
        Some(MetadataError::InvalidEditionMarker)
    } else if n == 120 {
        Some(MetadataError::ReservationListDeprecated)
    } else if n == 121 {
        Some(MetadataError::PrintEditionDoesNotMatchMasterEdition)
    } else if n == 122 {
        Some(MetadataError::EditionNumberGreaterThanMaxSupply)
    } else if n == 123 {
        Some(MetadataError::MustUnverify)
    } else {
        None
    }
}

impl MetadataError {
    /// The name under which these errors are decoded and reported.
    pub fn type_of() -> (s: &'static str)
        ensures
            s@ == "Metadata Error"@,
    {
        "Metadata Error"
    }

    /// The number that identifies this error in a failed instruction.
    pub fn code(&self) -> (c: u32)
        ensures
            c == metadata_error_code(*self),
    {
        match self {
            MetadataError::InstructionUnpackError => 0,
            MetadataError::InstructionPackError => 1,
            MetadataError::NotRentExempt => 2,
            MetadataError::AlreadyInitialized => 3,
            MetadataError::Uninitialized => 4,
            MetadataError::InvalidMetadataKey => 5,
            MetadataError::InvalidEditionKey => 6,
            MetadataError::UpdateAuthorityIncorrect => 7,
            MetadataError::UpdateAuthorityIsNotSigner => 8,
            MetadataError::NotMintAuthority => 9,
            MetadataError::InvalidMintAuthority => 10,
            MetadataError::NameTooLong => 11,
            MetadataError::SymbolTooLong => 12,
            MetadataError::UriTooLong => 13,
            MetadataError::UpdateAuthorityMustBeEqualToMetadataAuthorityAndSigner => 14,
            MetadataError::MintMismatch => 15,
            MetadataError::EditionsMustHaveExactlyOneToken => 16,
            MetadataError::MaxEditionsMintedAlready => 17,
            MetadataError::TokenMintToFailed => 18,
            MetadataError::MasterRecordMismatch => 19,
            MetadataError::DestinationMintMismatch => 20,
            MetadataError::EditionAlreadyMinted => 21,
            MetadataError::PrintingMintDecimalsShouldBeZero => 22,
            MetadataError::OneTimePrintingAuthorizationMintDecimalsShouldBeZero => 23,
            MetadataError::EditionMintDecimalsShouldBeZero => 24,
            MetadataError::TokenBurnFailed => 25,
            MetadataError::TokenAccountOneTimeAuthMintMismatch => 26,
            MetadataError::DerivedKeyInvalid => 27,
            MetadataError::PrintingMintMismatch => 28,
            MetadataError::OneTimePrintingAuthMintMismatch => 29,
            MetadataError::TokenAccountMintMismatch => 30,
            MetadataError::TokenAccountMintMismatchV2 => 31,
            MetadataError::NotEnoughTokens => 32,
            MetadataError::PrintingMintAuthorizationAccountMismatch => 33,
            MetadataError::AuthorizationTokenAccountOwnerMismatch => 34,
            MetadataError::Disabled => 35,
            MetadataError::CreatorsTooLong => 36,
            MetadataError::CreatorsMustBeAtleastOne => 37,
            MetadataError::MustBeOneOfCreators => 38,
            MetadataError::NoCreatorsPresentOnMetadata => 39,
            MetadataError::CreatorNotFound => 40,
            MetadataError::InvalidBasisPoints => 41,
            MetadataError::PrimarySaleCanOnlyBeFlippedToTrue => 42,
            MetadataError::OwnerMismatch => 43,
            MetadataError::NoBalanceInAccountForAuthorization => 44,
            MetadataError::ShareTotalMustBe100 => 45,
            MetadataError::ReservationExists => 46,
            MetadataError::ReservationDoesNotExist => 47,
            MetadataError::ReservationNotSet => 48,
            MetadataError::ReservationAlreadyMade => 49,
            MetadataError::BeyondMaxAddressSize => 50,
            MetadataError::NumericalOverflowError => 51,
            MetadataError::ReservationBreachesMaximumSupply => 52,
            MetadataError::AddressNotInReservation => 53,
            MetadataError::CannotVerifyAnotherCreator => 54,
            MetadataError::CannotUnverifyAnotherCreator => 55,
            MetadataError::SpotMismatch => 56,
            MetadataError::IncorrectOwner => 57,
            MetadataError::PrintingWouldBreachMaximumSupply => 58,
            MetadataError::DataIsImmutable => 59,
            MetadataError::DuplicateCreatorAddress => 60,
            MetadataError::ReservationSpotsRemainingShouldMatchTotalSpotsAtStart => 61,
            MetadataError::InvalidTokenProgram => 62,
            MetadataError::DataTypeMismatch => 63,
            MetadataError::BeyondAlottedAddressSize => 64,
            MetadataError::ReservationNotComplete => 65,
            MetadataError::TriedToReplaceAnExistingReservation => 66,
            MetadataError::InvalidOperation => 67,
            MetadataError::InvalidOwner => 68,
            MetadataError::PrintingMintSupplyMustBeZeroForConversion => 69,
            MetadataError::OneTimeAuthMintSupplyMustBeZeroForConversion => 70,
            MetadataError::InvalidEditionIndex => 71,
            MetadataError::ReservationArrayShouldBeSizeOne => 72,
            MetadataError::IsMutableCanOnlyBeFlippedToFalse => 73,
            MetadataError::CollectionCannotBeVerifiedInThisInstruction => 74,
            MetadataError::Removed => 75,
            MetadataError::MustBeBurned => 76,
            MetadataError::InvalidUseMethod => 77,
            MetadataError::CannotChangeUseMethodAfterFirstUse => 78,
            MetadataError::CannotChangeUsesAfterFirstUse => 79,
            MetadataError::CollectionNotFound => 80,
            MetadataError::InvalidCollectionUpdateAuthority => 81,
            MetadataError::CollectionMustBeAUniqueMasterEdition => 82,
            MetadataError::UseAuthorityRecordAlreadyExists => 83,
            MetadataError::UseAuthorityRecordAlreadyRevoked => 84,
            MetadataError::Unusable => 85,
            MetadataError::NotEnoughUses => 86,
            MetadataError::CollectionAuthorityRecordAlreadyExists => 87,
            MetadataError::CollectionAuthorityDoesNotExist => 88,
            MetadataError::InvalidUseAuthorityRecord => 89,
            MetadataError::InvalidCollectionAuthorityRecord => 90,
            MetadataError::InvalidFreezeAuthority => 91,
            MetadataError::InvalidDelegate => 92,
            MetadataError::CannotAdjustVerifiedCreator => 93,
            MetadataError::CannotRemoveVerifiedCreator => 94,
            MetadataError::CannotWipeVerifiedCreators => 95,
            MetadataError::NotAllowedToChangeSellerFeeBasisPoints => 96,
            MetadataError::EditionOverrideCannotBeZero => 97,
            MetadataError::InvalidUser => 98,
            MetadataError::RevokeCollectionAuthoritySignerIncorrect => 99,
            MetadataError::TokenCloseFailed => 100,
            MetadataError::UnsizedCollection => 101,
            MetadataError::SizedCollection => 102,
            MetadataError::MissingCollectionMetadata => 103,
            MetadataError::NotAMemberOfCollection => 104,
            MetadataError::NotVerifiedMemberOfCollection => 105,
            MetadataError::NotACollectionParent => 106,
            MetadataError::CouldNotDetermineTokenStandard => 107,
            MetadataError::MissingEditionAccount => 108,
            MetadataError::NotAMasterEdition => 109,
            MetadataError::MasterEditionHasPrints => 110,
            MetadataError::BorshDeserializationError => 111,
            MetadataError::CannotUpdateVerifiedCollection => 112,
            MetadataError::CollectionMasterEditionAccountInvalid => 113,
            MetadataError::AlreadyVerified => 114,
            MetadataError::AlreadyUnverified => 115,
            MetadataError::NotAPrintEdition => 116,
            MetadataError::InvalidMasterEdition => 117,
            MetadataError::InvalidPrintEdition => 118,
            MetadataError::InvalidEditionMarker => 119,
            MetadataError::ReservationListDeprecated => 120,
            MetadataError::PrintEditionDoesNotMatchMasterEdition => 121,
            MetadataError::EditionNumberGreaterThanMaxSupply => 122,
            MetadataError::MustUnverify => 123,
        }
    }

    /// The error that a number identifies, if any.
    pub fn from_code(n: u32) -> (e: Option<MetadataError>)
        ensures
            e == metadata_error_of_code(n),
    {
        if n == 0 {
            Some(MetadataError::InstructionUnpackError)
        } else if n == 1 {
            Some(MetadataError::InstructionPackError)
        } else if n == 2 {
            Some(MetadataError::NotRentExempt)
        } else if n == 3 {
            Some(MetadataError::AlreadyInitialized)
        } else if n == 4 {
            Some(MetadataError::Uninitialized)
        } else if n == 5 {
            Some(MetadataError::InvalidMetadataKey)
        } else if n == 6 {
            Some(MetadataError::InvalidEditionKey)
        } else if n == 7 {
            Some(MetadataError::UpdateAuthorityIncorrect)
        } else if n == 8 {
            Some(MetadataError::UpdateAuthorityIsNotSigner)
        } else if n == 9 {
            Some(MetadataError::NotMintAuthority)
        } else if n == 10 {
            Some(MetadataError::InvalidMintAuthority)
        } else if n == 11 {
            Some(MetadataError::NameTooLong)
        } else if n == 12 {
            Some(MetadataError::SymbolTooLong)
        } else if n == 13 {
            Some(MetadataError::UriTooLong)
        } else if n == 14 {
            Some(MetadataError::UpdateAuthorityMustBeEqualToMetadataAuthorityAndSigner)
        } else if n == 15 {
            Some(MetadataError::MintMismatch)
        } else if n == 16 {
            Some(MetadataError::EditionsMustHaveExactlyOneToken)
        } else if n == 17 {
            Some(MetadataError::MaxEditionsMintedAlready)
        } else if n == 18 {
            Some(MetadataError::TokenMintToFailed)
        } else if n == 19 {
            Some(MetadataError::MasterRecordMismatch)
        } else if n == 20 {
            Some(MetadataError::DestinationMintMismatch)
        } else if n == 21 {
            Some(MetadataError::EditionAlreadyMinted)
        } else if n == 22 {
            Some(MetadataError::PrintingMintDecimalsShouldBeZero)
        } else if n == 23 {
            Some(MetadataError::OneTimePrintingAuthorizationMintDecimalsShouldBeZero)
        } else if n == 24 {
            Some(MetadataError::EditionMintDecimalsShouldBeZero)
        } else if n == 25 {
            Some(MetadataError::TokenBurnFailed)
        } else if n == 26 {
            Some(MetadataError::TokenAccountOneTimeAuthMintMismatch)
        } else if n == 27 {
            Some(MetadataError::DerivedKeyInvalid)
        } else if n == 28 {
            Some(MetadataError::PrintingMintMismatch)
        } else if n == 29 {
            Some(MetadataError::OneTimePrintingAuthMintMismatch)
        } else if n == 30 {
            Some(MetadataError::TokenAccountMintMismatch)
        } else if n == 31 {
            Some(MetadataError::TokenAccountMintMismatchV2)
        } else if n == 32 {
            Some(MetadataError::NotEnoughTokens)
        } else if n == 33 {
            Some(MetadataError::PrintingMintAuthorizationAccountMismatch)
        } else if n == 34 {
            Some(MetadataError::AuthorizationTokenAccountOwnerMismatch)
        } else if n == 35 {
            Some(MetadataError::Disabled)
        } else if n == 36 {
            Some(MetadataError::CreatorsTooLong)
        } else if n == 37 {
            Some(MetadataError::CreatorsMustBeAtleastOne)
        } else if n == 38 {
            Some(MetadataError::MustBeOneOfCreators)
        } else if n == 39 {
            Some(MetadataError::NoCreatorsPresentOnMetadata)
        } else if n == 40 {
            Some(MetadataError::CreatorNotFound)
        } else if n == 41 {
            Some(MetadataError::InvalidBasisPoints)
        } else if n == 42 {
            Some(MetadataError::PrimarySaleCanOnlyBeFlippedToTrue)
        } else if n == 43 {
            Some(MetadataError::OwnerMismatch)
        } else if n == 44 {
            Some(MetadataError::NoBalanceInAccountForAuthorization)
        } else if n == 45 {
            Some(MetadataError::ShareTotalMustBe100)
        } else if n == 46 {
            Some(MetadataError::ReservationExists)
        } else if n == 47 {
            Some(MetadataError::ReservationDoesNotExist)
        } else if n == 48 {
            Some(MetadataError::ReservationNotSet)
        } else if n == 49 {
            Some(MetadataError::ReservationAlreadyMade)
        } else if n == 50 {
            Some(MetadataError::BeyondMaxAddressSize)
        } else if n == 51 {
            Some(MetadataError::NumericalOverflowError)
        } else if n == 52 {
            Some(MetadataError::ReservationBreachesMaximumSupply)
        } else if n == 53 {
            Some(MetadataError::AddressNotInReservation)
        } else if n == 54 {
            Some(MetadataError::CannotVerifyAnotherCreator)
        } else if n == 55 {
            Some(MetadataError::CannotUnverifyAnotherCreator)
        } else if n == 56 {
            Some(MetadataError::SpotMismatch)
        } else if n == 57 {
            Some(MetadataError::IncorrectOwner)
        } else if n == 58 {
            Some(MetadataError::PrintingWouldBreachMaximumSupply)
        } else if n == 59 {
            Some(MetadataError::DataIsImmutable)
        } else if n == 60 {
            Some(MetadataError::DuplicateCreatorAddress)
        } else if n == 61 {
            Some(MetadataError::ReservationSpotsRemainingShouldMatchTotalSpotsAtStart)
        } else if n == 62 {
            Some(MetadataError::InvalidTokenProgram)
        } else if n == 63 {
            Some(MetadataError::DataTypeMismatch)
        } else if n == 64 {
            Some(MetadataError::BeyondAlottedAddressSize)
        } else if n == 65 {
            Some(MetadataError::ReservationNotComplete)
        } else if n == 66 {
            Some(MetadataError::TriedToReplaceAnExistingReservation)
        } else if n == 67 {
            Some(MetadataError::InvalidOperation)
        } else if n == 68 {
            Some(MetadataError::InvalidOwner)
        } else if n == 69 {
            Some(MetadataError::PrintingMintSupplyMustBeZeroForConversion)
        } else if n == 70 {
            Some(MetadataError::OneTimeAuthMintSupplyMustBeZeroForConversion)
        } else if n == 71 {
            Some(MetadataError::InvalidEditionIndex)
        } else if n == 72 {
            Some(MetadataError::ReservationArrayShouldBeSizeOne)
        } else if n == 73 {
            Some(MetadataError::IsMutableCanOnlyBeFlippedToFalse)
        } else if n == 74 {
            Some(MetadataError::CollectionCannotBeVerifiedInThisInstruction)
        } else if n == 75 {
            Some(MetadataError::Removed)
        } else if n == 76 {
            Some(MetadataError::MustBeBurned)
        } else if n == 77 {
            Some(MetadataError::InvalidUseMethod)
        } else if n == 78 {
            Some(MetadataError::CannotChangeUseMethodAfterFirstUse)
        } else if n == 79 {
            Some(MetadataError::CannotChangeUsesAfterFirstUse)
        } else if n == 80 {
            Some(MetadataError::CollectionNotFound)
        } else if n == 81 {
            Some(MetadataError::InvalidCollectionUpdateAuthority)
        } else if n == 82 {
            Some(MetadataError::CollectionMustBeAUniqueMasterEdition)
        } else if n == 83 {
            Some(MetadataError::UseAuthorityRecordAlreadyExists)
        } else if n == 84 {
            Some(MetadataError::UseAuthorityRecordAlreadyRevoked)
        } else if n == 85 {
            Some(MetadataError::Unusable)
        } else if n == 86 {
            Some(MetadataError::NotEnoughUses)
        } else if n == 87 {
            Some(MetadataError::CollectionAuthorityRecordAlreadyExists)
        } else if n == 88 {
            Some(MetadataError::CollectionAuthorityDoesNotExist)
        } else if n == 89 {
            Some(MetadataError::InvalidUseAuthorityRecord)
        } else if n == 90 {
            Some(MetadataError::InvalidCollectionAuthorityRecord)
        } else if n == 91 {
            Some(MetadataError::InvalidFreezeAuthority)
        } else if n == 92 {
            Some(MetadataError::InvalidDelegate)
        } else if n == 93 {
            Some(MetadataError::CannotAdjustVerifiedCreator)
        } else if n == 94 {
            Some(MetadataError::CannotRemoveVerifiedCreator)
        } else if n == 95 {
            Some(MetadataError::CannotWipeVerifiedCreators)
        } else if n == 96 {
            Some(MetadataError::NotAllowedToChangeSellerFeeBasisPoints)
        } else if n == 97 {
            Some(MetadataError::EditionOverrideCannotBeZero)
        } else if n == 98 {
            Some(MetadataError::InvalidUser)
        } else if n == 99 {
            Some(MetadataError::RevokeCollectionAuthoritySignerIncorrect)
        } else if n == 100 {
            Some(MetadataError::TokenCloseFailed)
        } else if n == 101 {
            Some(MetadataError::UnsizedCollection)
        } else if n == 102 {
            Some(MetadataError::SizedCollection)
        } else if n == 103 {
            Some(MetadataError::MissingCollectionMetadata)
        } else if n == 104 {
            Some(MetadataError::NotAMemberOfCollection)
        } else if n == 105 {
            Some(MetadataError::NotVerifiedMemberOfCollection)
        } else if n == 106 {
            Some(MetadataError::NotACollectionParent)
        } else if n == 107 {
            Some(MetadataError::CouldNotDetermineTokenStandard)
        } else if n == 108 {
            Some(MetadataError::MissingEditionAccount)
        } else if n == 109 {
            Some(MetadataError::NotAMasterEdition)
        } else if n == 110 {
            Some(MetadataError::MasterEditionHasPrints)
        } else if n == 111 {
            Some(MetadataError::BorshDeserializationError)
        } else if n == 112 {
            Some(MetadataError::CannotUpdateVerifiedCollection)
        } else if n == 113 {
            Some(MetadataError::CollectionMasterEditionAccountInvalid)
        } else if n == 114 {
            Some(MetadataError::AlreadyVerified)
        } else if n == 115 {
            Some(MetadataError::AlreadyUnverified)
        } else if n == 116 {
            Some(MetadataError::NotAPrintEdition)
        } else if n == 117 {
            Some(MetadataError::InvalidMasterEdition)
        } else if n == 118 {
            Some(MetadataError::InvalidPrintEdition)
        } else if n == 119 {
            Some(MetadataError::InvalidEditionMarker)
        } else if n == 120 {
            Some(MetadataError::ReservationListDeprecated)
        } else if n == 121 {
            Some(MetadataError::PrintEditionDoesNotMatchMasterEdition)
        } else if n == 122 {
            Some(MetadataError::EditionNumberGreaterThanMaxSupply)
        } else if n == 123 {
            Some(MetadataError::MustUnverify)
        } else {
            None
        }
    }
}
/// Every metadata error is identified by its number: decoding the number gives the error back.
pub proof fn lemma_metadata_error_code_roundtrip(e: MetadataError)
    ensures
        metadata_error_of_code(metadata_error_code(e)) == Some(e),
        metadata_error_code(e) < 124,
{
}

/// A number identifies a metadata error exactly when it is below 124, and then that error's number is it.
#[verifier::rlimit(50)]
pub proof fn lemma_metadata_error_of_code(n: u32)
    ensures
        metadata_error_of_code(n) is Some <==> n < 124,
        metadata_error_of_code(n) matches Some(e) ==> metadata_error_code(e) == n,
{
}

/// Errors of the token-vault program that this program reports.
#[derive(Clone, Copy, Debug, PartialEq, Eq, Structural)]
pub enum VaultError {
    DataTypeMismatch,
    TokenProgramProvidedDoesNotMatchVault,
    AuthorityIsNotSigner,
    AuthorityDoesNotMatch,
    VaultShouldBeCombined,
    SafetyDepositBoxVaultMismatch,
    StoreDoesNotMatchSafetyDepositBox,
}

/// Errors of the token-fuser program.
#[derive(Clone, Copy, Debug, PartialEq, Eq, Structural)]
pub enum FuseError {
    MintSupplyIncorrect,
    FilterAuthorityIsNotMintAuthority,
}

/// The first number of errors that a program declares with its own error codes.
pub const FUSE_ERROR_CODE_OFFSET: u32 = 6000;

/// The number that identifies a fuse error in a failed instruction.
pub open spec fn fuse_error_code(e: FuseError) -> u32 {
    match e {
        FuseError::MintSupplyIncorrect => 6000,
        FuseError::FilterAuthorityIsNotMintAuthority => 6001,
    }
}

impl FuseError {
    /// The number that identifies this error in a failed instruction.
    pub fn code(&self) -> (c: u32)
        ensures
            c == fuse_error_code(*self),
    {
        match self {
            FuseError::MintSupplyIncorrect => FUSE_ERROR_CODE_OFFSET,
            FuseError::FilterAuthorityIsNotMintAuthority => FUSE_ERROR_CODE_OFFSET + 1,
        }
    }
}

/// Why an instruction failed.
#[derive(Clone, Copy, Debug, PartialEq, Eq, Structural)]
pub enum ProgramError {
    /// A program's own error, by number.
    Custom(u32),
    /// An account's data could not be read as the record it should hold.
    InvalidAccountData,
    /// A program id is not the one expected.
    IncorrectProgramId,
    /// An account that must sign did not.
    MissingRequiredSignature,
    /// Fewer accounts were passed than the instruction reads.
    NotEnoughAccountKeys,
    /// Instruction data could not be decoded, or a record did not fit its account.
    BorshIoError,
    /// An error of the token-vault program.
    Vault(VaultError),
    /// The program stops without an error of its own (the runtime fails the instruction).
    Aborted,
}

/// The program error that carries a metadata error.
pub open spec fn merr(e: MetadataError) -> ProgramError {
    ProgramError::Custom(metadata_error_code(e))
}

/// The program error that carries a metadata error.
pub fn to_program_error(e: MetadataError) -> (p: ProgramError)
    ensures
        p == merr(e),
{
    ProgramError::Custom(e.code())
}

impl From<MetadataError> for ProgramError {
    fn from(e: MetadataError) -> (p: ProgramError) {
        ProgramError::Custom(e.code())
    }
}

impl vstd::std_specs::convert::FromSpecImpl<MetadataError> for ProgramError {
    open spec fn obeys_from_spec() -> bool {
        true
    }

    open spec fn from_spec(e: MetadataError) -> ProgramError {
        ProgramError::Custom(metadata_error_code(e))
    }
}

} // verus!
