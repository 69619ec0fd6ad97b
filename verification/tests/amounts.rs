use token_recipes::error::{ProgramError, TokenRecipesError};
use token_recipes::state::ingredient_input::{multiplied_amount, required_tokens};
use token_recipes::state::ingredient_output::assert_max_supply;

fn failure(error: TokenRecipesError) -> ProgramError {
    ProgramError::from(error)
}

#[test]
fn an_amount_is_multiplied_by_the_quantity() {
    assert_eq!(multiplied_amount(5, 3), Ok(15));
    assert_eq!(multiplied_amount(10, 3), Ok(30));
    assert_eq!(multiplied_amount(0, 7), Ok(0));
    assert_eq!(multiplied_amount(u64::MAX, 1), Ok(u64::MAX));
    assert_eq!(multiplied_amount(1 << 32, 1 << 31), Ok(1 << 63));
    assert_eq!(
        multiplied_amount(1 << 32, 1 << 32),
        Err(failure(TokenRecipesError::NumericalOverflow))
    );
    assert_eq!(
        multiplied_amount(u64::MAX, 2),
        Err(failure(TokenRecipesError::NumericalOverflow))
    );
}

#[test]
fn the_tokens_of_a_craft_must_be_held() {
    assert_eq!(required_tokens(100, 5, 3), Ok(15));
    assert_eq!(required_tokens(15, 5, 3), Ok(15));
    assert_eq!(required_tokens(14, 5, 3), Err(failure(TokenRecipesError::NotEnoughTokens)));
    assert_eq!(required_tokens(0, 5, 3), Err(failure(TokenRecipesError::NotEnoughTokens)));
    assert_eq!(
        required_tokens(u64::MAX, u64::MAX, 2),
        Err(failure(TokenRecipesError::NumericalOverflow))
    );
}

#[test]
fn a_maximum_supply_bounds_what_is_minted() {
    assert_eq!(assert_max_supply(95, 5, 100), Ok(()));
    assert_eq!(assert_max_supply(0, 0, 0), Ok(()));
    assert_eq!(assert_max_supply(20, 5, 25), Ok(()));
    assert_eq!(
        assert_max_supply(20, 10, 25),
        Err(failure(TokenRecipesError::MaximumSupplyReached))
    );
    assert_eq!(
        assert_max_supply(100, 1, 100),
        Err(failure(TokenRecipesError::MaximumSupplyReached))
    );
    assert_eq!(
        assert_max_supply(u64::MAX, 1, u64::MAX),
        Err(failure(TokenRecipesError::NumericalOverflow))
    );
    assert_eq!(assert_max_supply(u64::MAX - 1, 1, u64::MAX), Ok(()));
}
