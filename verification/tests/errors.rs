use token_recipes::error::{ProgramError, TokenRecipesError};

#[test]
fn every_error_has_its_code() {
    assert_eq!(TokenRecipesError::DeserializationError.code(), 0);
    assert_eq!(TokenRecipesError::InvalidPda.code(), 3);
    assert_eq!(TokenRecipesError::IngredientAlreadyAdded.code(), 10);
    assert_eq!(TokenRecipesError::MissingIngredient.code(), 11);
    assert_eq!(TokenRecipesError::NumericalOverflow.code(), 14);
    assert_eq!(TokenRecipesError::MaximumSupplyReached.code(), 16);
    assert_eq!(TokenRecipesError::InvalidMintToLevelUpFeature.code(), 27);
}

#[test]
fn a_code_leads_back_to_its_error() {
    for code in 0..28u32 {
        let error = TokenRecipesError::from_code(code).unwrap();
        assert_eq!(error.code(), code);
    }
    assert_eq!(TokenRecipesError::from_code(28), None);
}

#[test]
fn an_error_becomes_a_custom_failure() {
    assert_eq!(
        ProgramError::from(TokenRecipesError::RecipeIsNotActive),
        ProgramError::Custom(13)
    );
}

#[test]
fn an_error_has_its_message() {
    assert_eq!(
        TokenRecipesError::MissingIngredient.message(),
        "Missing ingredient"
    );
    assert_eq!(
        TokenRecipesError::RecipeMustBeEmptyBeforeItCanBeDeleted.message(),
        "Recipe must be empty before it can be deleted"
    );
}
