use token_recipes::error::{ProgramError, TokenRecipesError};
use token_recipes::pubkey::Pubkey;
use token_recipes::state::features::additional_outputs::{
    assert_max_outputs, assert_valid_additional_outputs, AdditionalOutputsFeature,
};
use token_recipes::state::features::fees::{
    asserts_can_set_fees, get_fees_and_shards_per_craft, FeesFeature, BASE_FEES,
};
use token_recipes::state::features::max_supply::{
    assert_max_max_supply, assert_valid_max_supply_outputs, MaxSupplyFeature,
};
use token_recipes::state::features::sol_payment::{
    assert_max_sol_payment, assert_valid_sol_payment, SolPaymentFeature, LAMPORTS_PER_SOL,
};
use token_recipes::state::features::transfer_inputs::{
    assert_max_transfer_inputs, assert_valid_transfer_inputs, TransferInputsFeature,
};
use token_recipes::state::features::wisdom::{get_experience_per_craft, WisdomFeature};
use token_recipes::state::features::{unlock_level, FeatureKind, FeatureLevels, Gate};
use token_recipes::state::ingredient_input::IngredientInput;
use token_recipes::state::ingredient_output::IngredientOutput;
use token_recipes::state::key::Key;
use token_recipes::state::recipe::Recipe;

fn key(seed: u8) -> Pubkey {
    Pubkey::new_from_array([seed; 32])
}

fn failure(error: TokenRecipesError) -> ProgramError {
    ProgramError::from(error)
}

fn recipe() -> Recipe {
    Recipe::new(key(2), key(1))
}

#[test]
fn the_fee_is_shared_by_the_level() {
    let mut recipe = recipe();
    assert_eq!(get_fees_and_shards_per_craft(&recipe), Ok((20_000_000, 20_000_000, 0)));
    let expected_admin = [
        18_000_000u64,
        16_000_000,
        14_000_000,
        12_000_000,
        10_000_000,
        8_000_000,
        6_000_000,
        4_000_000,
        2_000_000,
    ];
    for level in 1..=9u8 {
        recipe.feature_levels.fees = level;
        let admin = expected_admin[level as usize - 1];
        assert_eq!(get_fees_and_shards_per_craft(&recipe), Ok((BASE_FEES, admin, admin)));
    }
}

#[test]
fn the_custom_fee_counts_from_level_ten() {
    let mut recipe = recipe();
    recipe.fees = 50_000_000;
    recipe.feature_levels.fees = 9;
    assert_eq!(get_fees_and_shards_per_craft(&recipe), Ok((20_000_000, 2_000_000, 2_000_000)));
    recipe.feature_levels.fees = 10;
    assert_eq!(get_fees_and_shards_per_craft(&recipe), Ok((50_000_000, 5_000_000, 5_000_000)));
    recipe.feature_levels.fees = 11;
    assert_eq!(get_fees_and_shards_per_craft(&recipe), Ok((50_000_000, 0, 0)));

    recipe.fees = 19_999_999;
    recipe.feature_levels.fees = 10;
    assert_eq!(get_fees_and_shards_per_craft(&recipe), Ok((19_999_999, 2_000_000, 0)));
    recipe.fees = 0;
    assert_eq!(get_fees_and_shards_per_craft(&recipe), Ok((0, 0, 0)));
    recipe.fees = 15;
    assert_eq!(get_fees_and_shards_per_craft(&recipe), Ok((15, 2, 0)));
}

#[test]
fn a_fee_too_large_to_share_overflows() {
    let mut recipe = recipe();
    recipe.feature_levels.fees = 10;
    recipe.fees = u64::MAX / 90;
    assert!(get_fees_and_shards_per_craft(&recipe).is_ok());
    recipe.fees = u64::MAX / 90 + 1;
    assert_eq!(
        get_fees_and_shards_per_craft(&recipe),
        Err(failure(TokenRecipesError::NumericalOverflow))
    );
}

#[test]
fn fees_are_set_from_level_ten() {
    let mut recipe = recipe();
    recipe.feature_levels.fees = 9;
    assert_eq!(asserts_can_set_fees(&recipe), Err(failure(TokenRecipesError::InvalidFeesFeature)));
    recipe.feature_levels.fees = 10;
    assert_eq!(asserts_can_set_fees(&recipe), Ok(()));
    recipe.feature_levels.fees = 11;
    assert_eq!(asserts_can_set_fees(&recipe), Ok(()));
}

#[test]
fn experience_follows_wisdom_and_fees() {
    let mut recipe = recipe();
    let expected = [100u64, 125, 150, 175, 200, 250, 300, 100];
    for level in 0..=7u8 {
        recipe.feature_levels.wisdom = level;
        assert_eq!(get_experience_per_craft(&recipe), expected[level as usize]);
    }
    recipe.feature_levels.wisdom = 6;
    recipe.feature_levels.fees = 10;
    recipe.fees = BASE_FEES;
    assert_eq!(get_experience_per_craft(&recipe), 300);
    recipe.fees = BASE_FEES - 1;
    assert_eq!(get_experience_per_craft(&recipe), 0);
    recipe.feature_levels.fees = 11;
    recipe.fees = BASE_FEES * 2;
    assert_eq!(get_experience_per_craft(&recipe), 0);
    recipe.feature_levels.fees = 9;
    recipe.fees = 0;
    assert_eq!(get_experience_per_craft(&recipe), 300);
}

#[test]
fn outputs_are_limited_by_the_level() {
    let mut recipe = recipe();
    let output = IngredientOutput::MintToken { mint: key(10), amount: 1 };
    let error = Err(failure(TokenRecipesError::InvalidAdditionalOutputsFeature));
    assert_eq!(assert_valid_additional_outputs(&recipe), Ok(()));
    recipe.outputs.push(output);
    assert_eq!(assert_valid_additional_outputs(&recipe), Ok(()));
    recipe.outputs.push(output);
    assert_eq!(assert_valid_additional_outputs(&recipe), error);
    recipe.feature_levels.additional_outputs = 1;
    assert_eq!(assert_valid_additional_outputs(&recipe), Ok(()));
    recipe.outputs.push(output);
    assert_eq!(assert_valid_additional_outputs(&recipe), error);
    recipe.feature_levels.additional_outputs = 2;
    assert_eq!(assert_valid_additional_outputs(&recipe), Ok(()));
    recipe.outputs.push(output);
    assert_eq!(assert_valid_additional_outputs(&recipe), error);
    recipe.feature_levels.additional_outputs = 3;
    assert_eq!(assert_valid_additional_outputs(&recipe), Ok(()));
    assert_eq!(assert_max_outputs(3, 3), Ok(()));
    assert_eq!(assert_max_outputs(4, 3), error);
}

#[test]
fn transferred_inputs_are_limited_by_the_level() {
    let mut recipe = recipe();
    let error = Err(failure(TokenRecipesError::InvalidTransferInputsFeature));
    recipe.inputs.push(IngredientInput::BurnToken { mint: key(10), amount: 1 });
    recipe.inputs.push(IngredientInput::TransferSol { lamports: 1, destination: key(9) });
    assert_eq!(assert_valid_transfer_inputs(&recipe), Ok(()));
    recipe.inputs.push(IngredientInput::TransferToken { mint: key(11), amount: 1, destination: key(9) });
    assert_eq!(assert_valid_transfer_inputs(&recipe), error);
    recipe.feature_levels.transfer_inputs = 1;
    assert_eq!(assert_valid_transfer_inputs(&recipe), Ok(()));
    recipe.inputs.push(IngredientInput::TransferToken { mint: key(12), amount: 1, destination: key(9) });
    assert_eq!(assert_valid_transfer_inputs(&recipe), error);
    recipe.feature_levels.transfer_inputs = 2;
    assert_eq!(assert_valid_transfer_inputs(&recipe), Ok(()));
    recipe.inputs.push(IngredientInput::TransferToken { mint: key(13), amount: 1, destination: key(9) });
    assert_eq!(assert_valid_transfer_inputs(&recipe), error);
    recipe.feature_levels.transfer_inputs = 3;
    assert_eq!(assert_valid_transfer_inputs(&recipe), Ok(()));
    assert_eq!(assert_max_transfer_inputs(0, 0), Ok(()));
    assert_eq!(assert_max_transfer_inputs(1, 0), error);
}

#[test]
fn outputs_with_a_maximum_supply_need_their_level() {
    let mut recipe = recipe();
    let error = Err(failure(TokenRecipesError::InvalidMaxSupplyFeature));
    recipe.outputs.push(IngredientOutput::MintToken { mint: key(10), amount: 1 });
    assert_eq!(assert_valid_max_supply_outputs(&recipe), Ok(()));
    recipe.outputs.push(IngredientOutput::MintTokenWithMaxSupply {
        mint: key(11),
        amount: 1,
        max_supply: 5,
    });
    assert_eq!(assert_valid_max_supply_outputs(&recipe), error);
    recipe.feature_levels.max_supply = 1;
    assert_eq!(assert_valid_max_supply_outputs(&recipe), Ok(()));
    assert_eq!(assert_max_max_supply(1, 0), error);
    assert_eq!(assert_max_max_supply(0, 0), Ok(()));
}

#[test]
fn payments_are_limited_by_the_level() {
    let mut recipe = recipe();
    let error = Err(failure(TokenRecipesError::InvalidSolPaymentFeature));
    assert_eq!(assert_valid_sol_payment(&recipe), Ok(()));
    recipe.inputs.push(IngredientInput::TransferSol { lamports: 1, destination: key(9) });
    assert_eq!(assert_valid_sol_payment(&recipe), error);
    let mut limit = LAMPORTS_PER_SOL;
    for level in 1..=10u8 {
        recipe.feature_levels.sol_payment = level;
        recipe.inputs[0] = IngredientInput::TransferSol { lamports: limit, destination: key(9) };
        assert_eq!(assert_valid_sol_payment(&recipe), Ok(()), "level {}", level);
        recipe.inputs[0] = IngredientInput::TransferSol { lamports: limit + 1, destination: key(9) };
        assert_eq!(assert_valid_sol_payment(&recipe), error, "level {}", level);
        limit *= 2;
    }
    assert_eq!(limit, 1024 * LAMPORTS_PER_SOL);
    recipe.feature_levels.sol_payment = 11;
    recipe.inputs[0] = IngredientInput::TransferSol { lamports: u64::MAX, destination: key(9) };
    assert_eq!(assert_valid_sol_payment(&recipe), Ok(()));
    recipe.inputs.push(IngredientInput::TransferSol { lamports: 1, destination: key(9) });
    assert_eq!(assert_valid_sol_payment(&recipe), Ok(()));
    recipe.feature_levels.sol_payment = 10;
    assert_eq!(assert_valid_sol_payment(&recipe), error);
    assert_eq!(assert_max_sol_payment(5, 5), Ok(()));
    assert_eq!(assert_max_sol_payment(6, 5), error);
}

fn fees_feature() -> FeesFeature {
    FeesFeature {
        key: Key::FeesFeature,
        admin_destination: key(90),
        shard_mint: key(91),
        mint_burn_1: key(1),
        mint_burn_2: key(2),
        mint_burn_3: key(3),
        mint_burn_4: key(4),
        mint_burn_5: key(5),
        mint_skill_1: key(6),
        mint_skill_2: key(7),
        mint_skill_3: key(8),
    }
}

#[test]
fn the_fee_feature_is_unlocked_by_its_tokens() {
    let gates = fees_feature().gates();
    assert_eq!(gates.len(), 8);
    let max = FeesFeature::MAX_LEVEL;
    assert_eq!(max, 11);
    let invalid = Err(failure(TokenRecipesError::InvalidMintToLevelUpFeature));

    assert_eq!(unlock_level(0, max, &gates, &key(1)), Ok((1, true)));
    assert_eq!(unlock_level(1, max, &gates, &key(1)), invalid);
    assert_eq!(unlock_level(0, max, &gates, &key(2)), Ok((1, true)));
    assert_eq!(unlock_level(9, max, &gates, &key(2)), Ok((10, true)));
    assert_eq!(unlock_level(10, max, &gates, &key(2)), invalid);
    assert_eq!(unlock_level(10, max, &gates, &key(3)), Ok((11, true)));
    assert_eq!(unlock_level(3, max, &gates, &key(4)), Ok((10, true)));
    assert_eq!(unlock_level(10, max, &gates, &key(4)), invalid);
    assert_eq!(unlock_level(0, max, &gates, &key(5)), Ok((11, true)));
    assert_eq!(unlock_level(0, max, &gates, &key(6)), Ok((1, false)));
    assert_eq!(unlock_level(1, max, &gates, &key(6)), invalid);
    assert_eq!(unlock_level(0, max, &gates, &key(7)), Ok((10, false)));
    assert_eq!(unlock_level(10, max, &gates, &key(8)), Ok((11, false)));
    assert_eq!(unlock_level(0, max, &gates, &key(9)), invalid);
    assert_eq!(
        unlock_level(11, max, &gates, &key(3)),
        Err(failure(TokenRecipesError::MaxFeatureLevelReached))
    );
    assert_eq!(
        unlock_level(12, max, &gates, &key(9)),
        Err(failure(TokenRecipesError::MaxFeatureLevelReached))
    );
}

#[test]
fn the_first_token_that_fits_decides() {
    let gates = vec![
        Gate { mint: key(1), ceiling: 2, jump: false, burn: true },
        Gate { mint: key(1), ceiling: 5, jump: true, burn: false },
    ];
    assert_eq!(unlock_level(0, 5, &gates, &key(1)), Ok((1, true)));
    assert_eq!(unlock_level(1, 5, &gates, &key(1)), Ok((2, true)));
    assert_eq!(unlock_level(2, 5, &gates, &key(1)), Ok((5, false)));
    assert_eq!(
        unlock_level(0, 5, &Vec::new(), &key(1)),
        Err(failure(TokenRecipesError::InvalidMintToLevelUpFeature))
    );
}

#[test]
fn no_unlocking_lowers_a_level_or_exceeds_the_highest() {
    let fees = fees_feature().gates();
    let wisdom = WisdomFeature {
        key: Key::WisdomFeature,
        experience_mint: key(90),
        mint_burn_1: key(1),
        mint_burn_2: key(2),
    }
    .gates();
    let outputs = AdditionalOutputsFeature {
        key: Key::AdditionalOutputsFeature,
        mint_burn_1: key(1),
        mint_burn_2: key(2),
        mint_burn_3: key(3),
        mint_skill_1: key(4),
        mint_skill_2: key(5),
    }
    .gates();
    let transfers = TransferInputsFeature {
        key: Key::TransferInputsFeature,
        mint_burn_1: key(1),
        mint_burn_2: key(2),
        mint_burn_3: key(3),
        mint_skill_1: key(4),
        mint_skill_2: key(5),
    }
    .gates();
    let supply = MaxSupplyFeature { key: Key::MaxSupplyFeature, mint_burn_1: key(1), mint_skill_1: key(2) }
        .gates();
    let payment = SolPaymentFeature {
        key: Key::SolPaymentFeature,
        mint_burn_1: key(1),
        mint_burn_2: key(2),
        mint_burn_3: key(3),
        mint_burn_4: key(4),
        mint_burn_5: key(5),
        mint_burn_6: key(6),
        mint_burn_7: key(7),
        mint_burn_8: key(8),
        mint_burn_9: key(9),
        mint_skill_1: key(10),
        mint_skill_2: key(11),
        mint_skill_3: key(12),
        mint_skill_4: key(13),
        mint_skill_5: key(14),
    }
    .gates();
    let features = [
        (fees, FeesFeature::MAX_LEVEL),
        (wisdom, WisdomFeature::MAX_LEVEL),
        (outputs, AdditionalOutputsFeature::MAX_LEVEL),
        (transfers, TransferInputsFeature::MAX_LEVEL),
        (supply, MaxSupplyFeature::MAX_LEVEL),
        (payment, SolPaymentFeature::MAX_LEVEL),
    ];
    for (gates, max) in features.iter() {
        for level in 0..=u8::MAX {
            for mint in 0..16u8 {
                match unlock_level(level, *max, gates, &key(mint)) {
                    Ok((next, _)) => assert!(level < next && next <= *max),
                    Err(error) => assert!(
                        error == failure(TokenRecipesError::MaxFeatureLevelReached)
                            || error == failure(TokenRecipesError::InvalidMintToLevelUpFeature)
                    ),
                }
            }
        }
    }
}

#[test]
fn the_other_features_are_unlocked_by_their_tokens() {
    let wisdom = WisdomFeature {
        key: Key::WisdomFeature,
        experience_mint: key(90),
        mint_burn_1: key(1),
        mint_burn_2: key(2),
    }
    .gates();
    assert_eq!(unlock_level(3, 6, &wisdom, &key(1)), Ok((4, true)));
    assert_eq!(
        unlock_level(4, 6, &wisdom, &key(1)),
        Err(failure(TokenRecipesError::InvalidMintToLevelUpFeature))
    );
    assert_eq!(unlock_level(5, 6, &wisdom, &key(2)), Ok((6, true)));
    assert_eq!(
        unlock_level(0, 6, &wisdom, &key(90)),
        Err(failure(TokenRecipesError::InvalidMintToLevelUpFeature))
    );

    let supply = MaxSupplyFeature { key: Key::MaxSupplyFeature, mint_burn_1: key(1), mint_skill_1: key(2) }
        .gates();
    assert_eq!(unlock_level(0, 1, &supply, &key(1)), Ok((1, true)));
    assert_eq!(unlock_level(0, 1, &supply, &key(2)), Ok((1, false)));
    assert_eq!(
        unlock_level(1, 1, &supply, &key(2)),
        Err(failure(TokenRecipesError::MaxFeatureLevelReached))
    );
}

#[test]
fn levels_are_kept_by_feature() {
    let mut levels = FeatureLevels::default();
    assert_eq!(levels.level(FeatureKind::Fees), 0);
    assert_eq!(levels._padding, [0u8; 10]);
    levels.set_level(FeatureKind::SolPayment, 4);
    levels.set_level(FeatureKind::Wisdom, 6);
    assert_eq!(levels.sol_payment, 4);
    assert_eq!(levels.level(FeatureKind::SolPayment), 4);
    assert_eq!(levels.level(FeatureKind::Wisdom), 6);
    assert_eq!(levels.level(FeatureKind::AdditionalOutputs), 0);
    assert_eq!(levels.level(FeatureKind::TransferInputs), 0);
    assert_eq!(levels.level(FeatureKind::MaxSupply), 0);
    let mut bytes = Vec::new();
    levels.serialize(&mut bytes);
    assert_eq!(bytes, vec![0, 0, 0, 0, 4, 6, 0, 0, 0, 0, 0, 0, 0, 0, 0, 0]);
    assert_eq!(FeatureLevels::deserialize_at(&bytes, 0), levels);
}
