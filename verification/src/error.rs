//! The errors of the crafting program and their stable numeric codes.

use vstd::prelude::*;
use vstd::std_specs::convert::FromSpecImpl;

verus! {

/// Every way in which the crafting rules can reject an instruction.
#[derive(Clone, Copy, Debug, PartialEq, Eq, Structural)]
pub enum TokenRecipesError {
    /// Error deserializing an account
    DeserializationError,
    /// Error serializing an account
    SerializationError,
    /// Invalid program owner. This likely mean the provided account does not exist
    InvalidProgramOwner,
    /// Invalid PDA derivation
    InvalidPda,
    /// Expected empty account
    ExpectedEmptyAccount,
    /// Expected signer account
    ExpectedSignerAccount,
    /// Expected writable account
    ExpectedWritableAccount,
    /// Account mismatch
    AccountMismatch,
    /// Invalid data size
    InvalidDataSize,
    /// Invalid account key
    InvalidAccountKey,
    /// Ingredient already added
    IngredientAlreadyAdded,
    /// Missing ingredient
    MissingIngredient,
    /// Invalid mint authority
    InvalidMintAuthority,
    /// Recipe is not active
    RecipeIsNotActive,
    /// Numerical overflow
    NumericalOverflow,
    /// Not enough tokens
    NotEnoughTokens,
    /// Maximum supply reached
    MaximumSupplyReached,
    /// Recipe must be empty before it can be deleted
    RecipeMustBeEmptyBeforeItCanBeDeleted,
    /// Cannot add an ingredient with zero amount
    CannotAddIngredientWithZeroAmount,
    /// Missing destination argument
    MissingDestinationArgument,
    /// Missing max supply argument
    MissingMaxSupplyArgument,
    /// Invalid fees feature
    InvalidFeesFeature,
    /// Invalid additional outputs feature
    InvalidAdditionalOutputsFeature,
    /// Invalid transfer inputs feature
    InvalidTransferInputsFeature,
    /// Invalid max supply feature
    InvalidMaxSupplyFeature,
    /// Invalid sol payment feature
    InvalidSolPaymentFeature,
    /// Max feature level reached
    MaxFeatureLevelReached,
    /// Invalid mint to level up feature
    InvalidMintToLevelUpFeature,
}

impl TokenRecipesError {
    /// The stable numeric code of the error: its position in the declaration.
    pub open spec fn spec_code(self) -> u32 {
        match self {
            TokenRecipesError::DeserializationError => 0,
            TokenRecipesError::SerializationError => 1,
            TokenRecipesError::InvalidProgramOwner => 2,
            TokenRecipesError::InvalidPda => 3,
            TokenRecipesError::ExpectedEmptyAccount => 4,
            TokenRecipesError::ExpectedSignerAccount => 5,
            TokenRecipesError::ExpectedWritableAccount => 6,
            TokenRecipesError::AccountMismatch => 7,
            TokenRecipesError::InvalidDataSize => 8,
            TokenRecipesError::InvalidAccountKey => 9,
            TokenRecipesError::IngredientAlreadyAdded => 10,
            TokenRecipesError::MissingIngredient => 11,
            TokenRecipesError::InvalidMintAuthority => 12,
            TokenRecipesError::RecipeIsNotActive => 13,
            TokenRecipesError::NumericalOverflow => 14,
            TokenRecipesError::NotEnoughTokens => 15,
            TokenRecipesError::MaximumSupplyReached => 16,
            TokenRecipesError::RecipeMustBeEmptyBeforeItCanBeDeleted => 17,
            TokenRecipesError::CannotAddIngredientWithZeroAmount => 18,
            TokenRecipesError::MissingDestinationArgument => 19,
            TokenRecipesError::MissingMaxSupplyArgument => 20,
            TokenRecipesError::InvalidFeesFeature => 21,
            TokenRecipesError::InvalidAdditionalOutputsFeature => 22,
            TokenRecipesError::InvalidTransferInputsFeature => 23,
            TokenRecipesError::InvalidMaxSupplyFeature => 24,
            TokenRecipesError::InvalidSolPaymentFeature => 25,
            TokenRecipesError::MaxFeatureLevelReached => 26,
            TokenRecipesError::InvalidMintToLevelUpFeature => 27,
        }
    }

    /// The stable numeric code of the error.
    pub fn code(&self) -> (code: u32)
        ensures
            code == self.spec_code(),
            code < 28,
    {
        match self {
            TokenRecipesError::DeserializationError => 0,
            TokenRecipesError::SerializationError => 1,
            TokenRecipesError::InvalidProgramOwner => 2,
            TokenRecipesError::InvalidPda => 3,
            TokenRecipesError::ExpectedEmptyAccount => 4,
            TokenRecipesError::ExpectedSignerAccount => 5,
            TokenRecipesError::ExpectedWritableAccount => 6,
            TokenRecipesError::AccountMismatch => 7,
            TokenRecipesError::InvalidDataSize => 8,
            TokenRecipesError::InvalidAccountKey => 9,
            TokenRecipesError::IngredientAlreadyAdded => 10,
            TokenRecipesError::MissingIngredient => 11,
            TokenRecipesError::InvalidMintAuthority => 12,
            TokenRecipesError::RecipeIsNotActive => 13,
            TokenRecipesError::NumericalOverflow => 14,
            TokenRecipesError::NotEnoughTokens => 15,
            TokenRecipesError::MaximumSupplyReached => 16,
            TokenRecipesError::RecipeMustBeEmptyBeforeItCanBeDeleted => 17,
            TokenRecipesError::CannotAddIngredientWithZeroAmount => 18,
            TokenRecipesError::MissingDestinationArgument => 19,
            TokenRecipesError::MissingMaxSupplyArgument => 20,
            TokenRecipesError::InvalidFeesFeature => 21,
            TokenRecipesError::InvalidAdditionalOutputsFeature => 22,
            TokenRecipesError::InvalidTransferInputsFeature => 23,
            TokenRecipesError::InvalidMaxSupplyFeature => 24,
            TokenRecipesError::InvalidSolPaymentFeature => 25,
            TokenRecipesError::MaxFeatureLevelReached => 26,
            TokenRecipesError::InvalidMintToLevelUpFeature => 27,
        }
    }

    /// The error that a numeric code stands for, if any.
    pub fn from_code(code: u32) -> (error: Option<TokenRecipesError>)
        ensures
            match error {
                Some(e) => e.spec_code() == code,
                None => code >= 28,
            },
    {
        match code {
            0 => Some(TokenRecipesError::DeserializationError),
            1 => Some(TokenRecipesError::SerializationError),
            2 => Some(TokenRecipesError::InvalidProgramOwner),
            3 => Some(TokenRecipesError::InvalidPda),
            4 => Some(TokenRecipesError::ExpectedEmptyAccount),
            5 => Some(TokenRecipesError::ExpectedSignerAccount),
            6 => Some(TokenRecipesError::ExpectedWritableAccount),
            7 => Some(TokenRecipesError::AccountMismatch),
            8 => Some(TokenRecipesError::InvalidDataSize),
            9 => Some(TokenRecipesError::InvalidAccountKey),
            10 => Some(TokenRecipesError::IngredientAlreadyAdded),
            11 => Some(TokenRecipesError::MissingIngredient),
            12 => Some(TokenRecipesError::InvalidMintAuthority),
            13 => Some(TokenRecipesError::RecipeIsNotActive),
            14 => Some(TokenRecipesError::NumericalOverflow),
            15 => Some(TokenRecipesError::NotEnoughTokens),
            16 => Some(TokenRecipesError::MaximumSupplyReached),
            17 => Some(TokenRecipesError::RecipeMustBeEmptyBeforeItCanBeDeleted),
            18 => Some(TokenRecipesError::CannotAddIngredientWithZeroAmount),
            19 => Some(TokenRecipesError::MissingDestinationArgument),
            20 => Some(TokenRecipesError::MissingMaxSupplyArgument),
            21 => Some(TokenRecipesError::InvalidFeesFeature),
            22 => Some(TokenRecipesError::InvalidAdditionalOutputsFeature),
            23 => Some(TokenRecipesError::InvalidTransferInputsFeature),
            24 => Some(TokenRecipesError::InvalidMaxSupplyFeature),
            25 => Some(TokenRecipesError::InvalidSolPaymentFeature),
            26 => Some(TokenRecipesError::MaxFeatureLevelReached),
            27 => Some(TokenRecipesError::InvalidMintToLevelUpFeature),
            _ => None,
        }
    }

    /// The human-readable diagnostic of the error.
    pub open spec fn spec_message(self) -> Seq<char> {
        match self {
            TokenRecipesError::DeserializationError => ("Error deserializing an account")@,
            TokenRecipesError::SerializationError => ("Error serializing an account")@,
            TokenRecipesError::InvalidProgramOwner =>
                ("Invalid program owner. This likely mean the provided account does not exist")@,
            TokenRecipesError::InvalidPda => ("Invalid PDA derivation")@,
            TokenRecipesError::ExpectedEmptyAccount => ("Expected empty account")@,
            TokenRecipesError::ExpectedSignerAccount => ("Expected signer account")@,
            TokenRecipesError::ExpectedWritableAccount => ("Expected writable account")@,
            TokenRecipesError::AccountMismatch => ("Account mismatch")@,
            TokenRecipesError::InvalidDataSize => ("Invalid data size")@,
            TokenRecipesError::InvalidAccountKey => ("Invalid account key")@,
            TokenRecipesError::IngredientAlreadyAdded => ("Ingredient already added")@,
            TokenRecipesError::MissingIngredient => ("Missing ingredient")@,
            TokenRecipesError::InvalidMintAuthority => ("Invalid mint authority")@,
            TokenRecipesError::RecipeIsNotActive => ("Recipe is not active")@,
            TokenRecipesError::NumericalOverflow => ("Numerical overflow")@,
            TokenRecipesError::NotEnoughTokens => ("Not enough tokens")@,
            TokenRecipesError::MaximumSupplyReached => ("Maximum supply reached")@,
            TokenRecipesError::RecipeMustBeEmptyBeforeItCanBeDeleted =>
                ("Recipe must be empty before it can be deleted")@,
            TokenRecipesError::CannotAddIngredientWithZeroAmount =>
                ("Cannot add an ingredient with zero amount")@,
            TokenRecipesError::MissingDestinationArgument => ("Missing destination argument")@,
            TokenRecipesError::MissingMaxSupplyArgument => ("Missing max supply argument")@,
            TokenRecipesError::InvalidFeesFeature => ("Invalid fees feature")@,
            TokenRecipesError::InvalidAdditionalOutputsFeature =>
                ("Invalid additional outputs feature")@,
            TokenRecipesError::InvalidTransferInputsFeature => ("Invalid transfer inputs feature")@,
            TokenRecipesError::InvalidMaxSupplyFeature => ("Invalid max supply feature")@,
            TokenRecipesError::InvalidSolPaymentFeature => ("Invalid sol payment feature")@,
            TokenRecipesError::MaxFeatureLevelReached => ("Max feature level reached")@,
            TokenRecipesError::InvalidMintToLevelUpFeature => ("Invalid mint to level up feature")@,
        }
    }

    /// The human-readable diagnostic of the error.
    pub fn message(&self) -> (message: &'static str)
        ensures
            message@ == self.spec_message(),
    {
        match self {
            TokenRecipesError::DeserializationError => "Error deserializing an account",
            TokenRecipesError::SerializationError => "Error serializing an account",
            TokenRecipesError::InvalidProgramOwner => {
                "Invalid program owner. This likely mean the provided account does not exist"
            },
            TokenRecipesError::InvalidPda => "Invalid PDA derivation",
            TokenRecipesError::ExpectedEmptyAccount => "Expected empty account",
            TokenRecipesError::ExpectedSignerAccount => "Expected signer account",
            TokenRecipesError::ExpectedWritableAccount => "Expected writable account",
            TokenRecipesError::AccountMismatch => "Account mismatch",
            TokenRecipesError::InvalidDataSize => "Invalid data size",
            TokenRecipesError::InvalidAccountKey => "Invalid account key",
            TokenRecipesError::IngredientAlreadyAdded => "Ingredient already added",
            TokenRecipesError::MissingIngredient => "Missing ingredient",
            TokenRecipesError::InvalidMintAuthority => "Invalid mint authority",
            TokenRecipesError::RecipeIsNotActive => "Recipe is not active",
            TokenRecipesError::NumericalOverflow => "Numerical overflow",
            TokenRecipesError::NotEnoughTokens => "Not enough tokens",
            TokenRecipesError::MaximumSupplyReached => "Maximum supply reached",
            TokenRecipesError::RecipeMustBeEmptyBeforeItCanBeDeleted => {
                "Recipe must be empty before it can be deleted"
            },
            TokenRecipesError::CannotAddIngredientWithZeroAmount => {
                "Cannot add an ingredient with zero amount"
            },
            TokenRecipesError::MissingDestinationArgument => "Missing destination argument",
            TokenRecipesError::MissingMaxSupplyArgument => "Missing max supply argument",
            TokenRecipesError::InvalidFeesFeature => "Invalid fees feature",
            TokenRecipesError::InvalidAdditionalOutputsFeature => {
                "Invalid additional outputs feature"
            },
            TokenRecipesError::InvalidTransferInputsFeature => "Invalid transfer inputs feature",
            TokenRecipesError::InvalidMaxSupplyFeature => "Invalid max supply feature",
            TokenRecipesError::InvalidSolPaymentFeature => "Invalid sol payment feature",
            TokenRecipesError::MaxFeatureLevelReached => "Max feature level reached",
            TokenRecipesError::InvalidMintToLevelUpFeature => "Invalid mint to level up feature",
        }
    }
}

/// The failure of an instruction, as the ledger reports it.
#[derive(Clone, Copy, Debug, PartialEq, Eq, Structural)]
pub enum ProgramError {
    /// A rejection by the crafting rules, by its numeric code.
    Custom(u32),
    /// A token record whose bytes do not hold what they should.
    InvalidAccountData,
    /// An instruction payload that cannot be decoded.
    BorshIoError,
    /// Fewer records were handed in than the instruction reads.
    NotEnoughAccountKeys,
    /// A token record that was never initialized.
    UninitializedAccount,
}

/// The failure that stands for a rejection by the crafting rules.
pub open spec fn failure(error: TokenRecipesError) -> ProgramError {
    ProgramError::Custom(error.spec_code())
}

impl From<TokenRecipesError> for ProgramError {
    fn from(e: TokenRecipesError) -> (error: ProgramError) {
        ProgramError::Custom(e.code())
    }
}

impl FromSpecImpl<TokenRecipesError> for ProgramError {
    open spec fn obeys_from_spec() -> bool {
        true
    }

    open spec fn from_spec(e: TokenRecipesError) -> ProgramError {
        failure(e)
    }
}

/// Two errors with the same code are the same error.
pub proof fn lemma_code_is_injective(a: TokenRecipesError, b: TokenRecipesError)
    requires
        a.spec_code() == b.spec_code(),
    ensures
        a == b,
{
}

} // verus!
