use std::str::FromStr;

use token_recipes::account::AccountInfo;
use token_recipes::assertions::{assert_pda, associated_token_seeds};
use token_recipes::error::{ProgramError, TokenRecipesError};
use token_recipes::pubkey::{
    associated_token_program, id, system_program, token_program, Pubkey,
};
use token_recipes::state::delegated_ingredient::DelegatedIngredient;
use token_recipes::state::features::additional_outputs::AdditionalOutputsFeature;
use token_recipes::state::features::fees::FeesFeature;
use token_recipes::state::features::max_supply::MaxSupplyFeature;
use token_recipes::state::features::sol_payment::SolPaymentFeature;
use token_recipes::state::features::transfer_inputs::TransferInputsFeature;
use token_recipes::state::features::wisdom::WisdomFeature;
use token_recipes::state::ingredient_record::IngredientRecord;
use token_recipes::state::recipe::Recipe;

fn key(seed: u8) -> Pubkey {
    Pubkey::new_from_array([seed; 32])
}

fn outside(key: &Pubkey) -> solana_program::pubkey::Pubkey {
    solana_program::pubkey::Pubkey::new_from_array(key.to_bytes())
}

fn account(key: Pubkey) -> AccountInfo {
    AccountInfo {
        key,
        lamports: 0,
        data: Vec::new(),
        owner: system_program(),
        is_signer: false,
        is_writable: false,
    }
}

#[test]
fn the_program_has_its_address() {
    let expected =
        solana_program::pubkey::Pubkey::from_str("6EgVKvZu2V6cpZzarvDHuyeJwa1NB2ujj8hXY98pQpLE")
            .unwrap();
    assert_eq!(id().to_bytes(), expected.to_bytes());
}

#[test]
fn the_other_programs_have_their_addresses() {
    assert_eq!(
        system_program().to_bytes(),
        solana_program::system_program::id().to_bytes()
    );
    assert_eq!(token_program().to_bytes(), spl_token::id().to_bytes());
    assert_eq!(
        associated_token_program().to_bytes(),
        spl_associated_token_account::id().to_bytes()
    );
}

#[test]
fn addresses_compare_by_their_bytes() {
    let mut bytes = [7u8; 32];
    assert_eq!(Pubkey::new_from_array(bytes), key(7));
    bytes[31] = 8;
    assert_ne!(Pubkey::new_from_array(bytes), key(7));
    assert_eq!(key(7).to_vec(), vec![7u8; 32]);
}

#[test]
fn a_derived_address_is_told_from_any_other() {
    let base = key(2);
    let seeds = Recipe::seeds(&base);
    let (address, bump) = solana_program::pubkey::Pubkey::find_program_address(
        &[b"recipe", &base.to_bytes()],
        &outside(&id()),
    );
    let derived = account(Pubkey::new_from_array(address.to_bytes()));
    assert_eq!(assert_pda(&derived, &id(), &seeds), Ok(bump));
    assert_eq!(
        assert_pda(&account(base), &id(), &seeds),
        Err(ProgramError::from(TokenRecipesError::InvalidPda))
    );
    assert_eq!(
        assert_pda(&derived, &token_program(), &seeds),
        Err(ProgramError::from(TokenRecipesError::InvalidPda))
    );
    assert_eq!(
        assert_pda(&derived, &id(), &Recipe::seeds(&key(3))),
        Err(ProgramError::from(TokenRecipesError::InvalidPda))
    );
}

#[test]
fn seeds_that_are_too_long_derive_to_no_address() {
    let seeds = vec![vec![1u8; 33]];
    assert_eq!(
        assert_pda(&account(key(1)), &id(), &seeds),
        Err(ProgramError::from(TokenRecipesError::InvalidPda))
    );
}

#[test]
fn an_associated_token_account_is_derived_as_its_program_does() {
    let owner = key(4);
    let mint = key(10);
    let expected = spl_associated_token_account::get_associated_token_address(
        &outside(&owner),
        &outside(&mint),
    );
    let seeds = associated_token_seeds(&owner, &mint);
    let derived = account(Pubkey::new_from_array(expected.to_bytes()));
    assert!(assert_pda(&derived, &associated_token_program(), &seeds).is_ok());
}

#[test]
fn every_record_has_its_seeds() {
    let mint = key(10);
    let recipe = key(11);
    assert_eq!(Recipe::seeds(&mint), vec![b"recipe".to_vec(), vec![10u8; 32]]);
    assert_eq!(
        IngredientRecord::seeds(&mint, &recipe),
        vec![b"ingredient_record".to_vec(), vec![10u8; 32], vec![11u8; 32]]
    );
    assert_eq!(
        DelegatedIngredient::seeds(&mint),
        vec![b"delegated_ingredient".to_vec(), vec![10u8; 32]]
    );
    assert_eq!(FeesFeature::seeds(), vec![b"features".to_vec(), b"fees".to_vec()]);
    assert_eq!(WisdomFeature::seeds(), vec![b"features".to_vec(), b"wisdom".to_vec()]);
    assert_eq!(
        AdditionalOutputsFeature::seeds(),
        vec![b"features".to_vec(), b"additional_outputs".to_vec()]
    );
    assert_eq!(
        TransferInputsFeature::seeds(),
        vec![b"features".to_vec(), b"transfer_inputs".to_vec()]
    );
    assert_eq!(MaxSupplyFeature::seeds(), vec![b"features".to_vec(), b"max_supply".to_vec()]);
    assert_eq!(SolPaymentFeature::seeds(), vec![b"features".to_vec(), b"sol_payment".to_vec()]);
}
