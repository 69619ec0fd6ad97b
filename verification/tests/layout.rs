use borsh::BorshSerialize;
use token_recipes::account::AccountInfo;
use token_recipes::error::{ProgramError, TokenRecipesError};
use token_recipes::instruction::{add_ingredient, create_recipe, AccountMeta, TokenRecipesInstruction};
use token_recipes::pubkey::{id, system_program, token_program, Pubkey};
use token_recipes::state::delegated_ingredient::DelegatedIngredient;
use token_recipes::state::features::additional_outputs::AdditionalOutputsFeature;
use token_recipes::state::features::fees::FeesFeature;
use token_recipes::state::features::max_supply::MaxSupplyFeature;
use token_recipes::state::features::sol_payment::SolPaymentFeature;
use token_recipes::state::features::transfer_inputs::TransferInputsFeature;
use token_recipes::state::features::wisdom::WisdomFeature;
use token_recipes::state::features::{Feature, FeatureLevels};
use token_recipes::state::ingredient_input::IngredientInput;
use token_recipes::state::ingredient_output::IngredientOutput;
use token_recipes::state::ingredient_record::IngredientRecord;
use token_recipes::state::key::Key;
use token_recipes::state::recipe::{IngredientType, Recipe, RecipeStatus};

fn key(seed: u8) -> Pubkey {
    Pubkey::new_from_array([seed; 32])
}

fn recipe() -> Recipe {
    let mut recipe = Recipe::new(key(2), key(1));
    recipe.status = RecipeStatus::Active;
    recipe.total_crafts = 1;
    recipe.total_crafts_with_quantity = 3;
    recipe.fees = 0x0102030405060708;
    recipe.accumulated_admin_fees = 4;
    recipe.accumulated_shards = 5;
    recipe.accumulated_experience = 6;
    recipe.feature_levels.fees = 10;
    recipe.feature_levels.wisdom = 2;
    recipe.inputs.push(IngredientInput::BurnToken { mint: key(10), amount: 5 });
    recipe.inputs.push(IngredientInput::TransferToken {
        mint: key(11),
        amount: 6,
        destination: key(12),
    });
    recipe.inputs.push(IngredientInput::TransferSol { lamports: 7, destination: key(13) });
    recipe.outputs.push(IngredientOutput::MintToken { mint: key(14), amount: 8 });
    recipe.outputs.push(IngredientOutput::MintTokenWithMaxSupply {
        mint: key(15),
        amount: 9,
        max_supply: 90,
    });
    recipe
}

#[test]
fn a_new_recipe_takes_its_initial_size() {
    let bytes = Recipe::new(key(2), key(1)).serialize().unwrap();
    assert_eq!(bytes.len(), Recipe::INITIAL_LEN);
    assert_eq!(Recipe::INITIAL_LEN, 138);
    assert_eq!(bytes[0], 1);
    assert_eq!(&bytes[1..33], &[2u8; 32]);
    assert_eq!(&bytes[33..65], &[1u8; 32]);
    assert!(bytes[65..].iter().all(|byte| *byte == 0));
}

#[test]
fn a_recipe_is_laid_out_field_by_field() {
    let bytes = recipe().serialize().unwrap();
    assert_eq!(bytes.len(), 138 + 41 + 73 + 41 + 41 + 49);
    assert_eq!(bytes[65], 1);
    assert_eq!(&bytes[66..74], &1u64.to_le_bytes());
    assert_eq!(&bytes[74..82], &3u64.to_le_bytes());
    assert_eq!(&bytes[82..90], &[8, 7, 6, 5, 4, 3, 2, 1]);
    assert_eq!(&bytes[90..98], &4u64.to_le_bytes());
    assert_eq!(&bytes[98..106], &5u64.to_le_bytes());
    assert_eq!(&bytes[106..114], &6u64.to_le_bytes());
    assert_eq!(&bytes[114..130], &[10, 0, 0, 0, 0, 2, 0, 0, 0, 0, 0, 0, 0, 0, 0, 0]);
    assert_eq!(&bytes[130..134], &3u32.to_le_bytes());
    assert_eq!(bytes[134], 0);
    assert_eq!(&bytes[135..167], &[10u8; 32]);
    assert_eq!(&bytes[167..175], &5u64.to_le_bytes());
    assert_eq!(bytes[175], 1);
    assert_eq!(&bytes[216..248], &[12u8; 32]);
    assert_eq!(bytes[248], 2);
    assert_eq!(&bytes[249..257], &7u64.to_le_bytes());
    assert_eq!(&bytes[289..293], &2u32.to_le_bytes());
    assert_eq!(bytes[293], 0);
    assert_eq!(bytes[334], 1);
    assert_eq!(&bytes[375..383], &90u64.to_le_bytes());
}

#[test]
fn a_recipe_is_read_back_from_its_bytes() {
    let mut bytes = recipe().serialize().unwrap();
    assert_eq!(Recipe::deserialize(&bytes), Some(recipe()));
    bytes.extend_from_slice(&[0u8; 50]);
    assert_eq!(Recipe::deserialize(&bytes), Some(recipe()));
}

#[test]
fn bytes_that_hold_no_recipe_are_refused() {
    let bytes = recipe().serialize().unwrap();
    assert_eq!(Recipe::deserialize(&bytes[..bytes.len() - 1]), None);
    assert_eq!(Recipe::deserialize(&bytes[..137]), None);
    assert_eq!(Recipe::deserialize(&[]), None);

    let mut wrong_key = bytes.clone();
    wrong_key[0] = 10;
    assert_eq!(Recipe::deserialize(&wrong_key), None);
    let mut wrong_status = bytes.clone();
    wrong_status[65] = 2;
    assert_eq!(Recipe::deserialize(&wrong_status), None);
    let mut wrong_input = bytes.clone();
    wrong_input[134] = 3;
    assert_eq!(Recipe::deserialize(&wrong_input), None);
    let mut wrong_output = bytes.clone();
    wrong_output[293] = 2;
    assert_eq!(Recipe::deserialize(&wrong_output), None);
    let mut too_many = bytes;
    too_many[130] = 200;
    assert_eq!(Recipe::deserialize(&too_many), None);

    let account = AccountInfo {
        key: key(1),
        lamports: 0,
        data: vec![1u8; 20],
        owner: id(),
        is_signer: false,
        is_writable: true,
    };
    assert_eq!(
        Recipe::load(&account),
        Err(ProgramError::from(TokenRecipesError::DeserializationError))
    );
    assert_eq!(
        Recipe::get(&account),
        Err(ProgramError::from(TokenRecipesError::DeserializationError))
    );
}

#[test]
fn every_ingredient_has_its_length() {
    let recipe = recipe();
    assert_eq!(recipe.inputs[0].len(), 41);
    assert_eq!(recipe.inputs[1].len(), 73);
    assert_eq!(recipe.inputs[2].len(), 41);
    assert_eq!(recipe.outputs[0].len(), 41);
    assert_eq!(recipe.outputs[1].len(), 49);
    for input in &recipe.inputs {
        let mut bytes = vec![9u8];
        input.serialize(&mut bytes);
        assert_eq!(bytes.len(), 1 + input.len());
        assert_eq!(IngredientInput::deserialize_at(&bytes, 1), Some((*input, bytes.len())));
        assert_eq!(IngredientInput::deserialize_at(&bytes[..bytes.len() - 1], 1), None);
    }
    for output in &recipe.outputs {
        let mut bytes = vec![9u8, 9u8];
        output.serialize(&mut bytes);
        assert_eq!(bytes.len(), 2 + output.len());
        assert_eq!(IngredientOutput::deserialize_at(&bytes, 2), Some((*output, bytes.len())));
        assert_eq!(IngredientOutput::deserialize_at(&bytes, bytes.len()), None);
    }
}

#[test]
fn numbers_are_laid_out_as_borsh_lays_them_out() {
    let mut bytes = Vec::new();
    IngredientInput::TransferSol { lamports: 0x1122334455667788, destination: key(0) }
        .serialize(&mut bytes);
    assert_eq!(&bytes[1..9], 0x1122334455667788u64.try_to_vec().unwrap().as_slice());

    let craft = TokenRecipesInstruction::Craft { quantity: 3 }.serialize();
    let mut expected = 5u8.try_to_vec().unwrap();
    expected.extend(3u64.try_to_vec().unwrap());
    assert_eq!(craft, expected);

    let add = TokenRecipesInstruction::AddIngredient {
        ingredient_type: IngredientType::TransferSolInput,
        amount: 42,
        destination: Some(key(9)),
        max_supply: None,
    }
    .serialize();
    let mut expected = vec![1u8, 4u8];
    expected.extend(42u64.try_to_vec().unwrap());
    expected.extend(Some([9u8; 32]).try_to_vec().unwrap());
    expected.extend(None::<u64>.try_to_vec().unwrap());
    assert_eq!(add, expected);

    let record = DelegatedIngredient {
        key: Key::DelegatedIngredient,
        mint: key(1),
        authority: key(2),
        counter: 0x01020304,
    };
    assert_eq!(&record.serialize()[65..], 0x01020304u32.try_to_vec().unwrap().as_slice());
    assert_eq!(true.try_to_vec().unwrap(), vec![1u8]);
}

#[test]
fn an_ingredient_record_is_laid_out_and_read_back() {
    let record = IngredientRecord {
        key: Key::IngredientRecord,
        input: true,
        output: false,
        mint: key(10),
        recipe: key(11),
    };
    let bytes = record.serialize();
    assert_eq!(bytes.len(), IngredientRecord::LEN);
    assert_eq!(&bytes[..3], &[2, 1, 0]);
    assert_eq!(&bytes[3..35], &[10u8; 32]);
    assert_eq!(&bytes[35..], &[11u8; 32]);
    assert_eq!(IngredientRecord::deserialize(&bytes), Some(record));
    assert_eq!(IngredientRecord::deserialize(&bytes[..66]), None);
    let mut wrong = bytes;
    wrong[1] = 2;
    assert_eq!(IngredientRecord::deserialize(&wrong), None);
}

#[test]
fn a_delegated_ingredient_is_laid_out_and_read_back() {
    let record = DelegatedIngredient {
        key: Key::DelegatedIngredient,
        mint: key(10),
        authority: key(1),
        counter: 2,
    };
    let bytes = record.serialize();
    assert_eq!(bytes.len(), DelegatedIngredient::LEN);
    assert_eq!(bytes[0], 3);
    assert_eq!(&bytes[1..33], &[10u8; 32]);
    assert_eq!(&bytes[33..65], &[1u8; 32]);
    assert_eq!(&bytes[65..], &[2, 0, 0, 0]);
    assert_eq!(DelegatedIngredient::deserialize(&bytes), Some(record));
    assert_eq!(DelegatedIngredient::deserialize(&bytes[..68]), None);
}

fn sol_payment() -> SolPaymentFeature {
    SolPaymentFeature {
        key: Key::SolPaymentFeature,
        mint_burn_1: key(1),
        mint_burn_2: key(2),
        mint_burn_3: key(3),
        mint_burn_4: key(4),
        mint_burn_5: key(5),
        mint_burn_6: key(6),
        mint_burn_7: key(7),
        mint_burn_8: key(8),
        mint_burn_9: key(9),
        mint_skill_1: key(10),
        mint_skill_2: key(11),
        mint_skill_3: key(12),
        mint_skill_4: key(13),
        mint_skill_5: key(14),
    }
}

#[test]
fn every_feature_has_its_size() {
    assert_eq!(FeesFeature::LEN, 1 + 32 * 10);
    assert_eq!(AdditionalOutputsFeature::LEN, 1 + 32 * 5);
    assert_eq!(TransferInputsFeature::LEN, 1 + 32 * 5);
    assert_eq!(MaxSupplyFeature::LEN, 1 + 32 * 2);
    assert_eq!(SolPaymentFeature::LEN, 1 + 32 * 14);
    assert_eq!(WisdomFeature::LEN, 1 + 32 * 3);
    assert_eq!(FeatureLevels::LEN, 16);
    assert_eq!(Key::LEN, 1);

    let bytes = sol_payment().serialize();
    assert_eq!(bytes.len(), SolPaymentFeature::LEN);
    assert_eq!(bytes[0], 8);
    assert_eq!(&bytes[1..33], &[1u8; 32]);
    assert_eq!(&bytes[417..449], &[14u8; 32]);
    assert_eq!(SolPaymentFeature::deserialize(&bytes), Some(sol_payment()));
    assert_eq!(SolPaymentFeature::deserialize(&bytes[..448]), None);
}

#[test]
fn a_feature_is_told_by_the_tag_of_its_record() {
    let wisdom = WisdomFeature {
        key: Key::WisdomFeature,
        experience_mint: key(1),
        mint_burn_1: key(2),
        mint_burn_2: key(3),
    };
    let mut account = AccountInfo {
        key: key(50),
        lamports: 0,
        data: wisdom.serialize(),
        owner: id(),
        is_signer: false,
        is_writable: false,
    };
    assert_eq!(Feature::load(&account), Ok(Feature::Wisdom(wisdom)));
    assert_eq!(WisdomFeature::get(&account), Ok(wisdom));
    assert_eq!(
        FeesFeature::get(&account),
        Err(ProgramError::from(TokenRecipesError::InvalidAccountKey))
    );
    account.data[0] = 1;
    assert_eq!(
        Feature::load(&account),
        Err(ProgramError::from(TokenRecipesError::InvalidAccountKey))
    );
    account.data[0] = 4;
    assert_eq!(
        Feature::load(&account),
        Err(ProgramError::from(TokenRecipesError::DeserializationError))
    );
    account.data.clear();
    assert_eq!(
        Feature::load(&account),
        Err(ProgramError::from(TokenRecipesError::InvalidAccountKey))
    );
    account.data = wisdom.serialize();
    account.owner = token_program();
    assert_eq!(
        WisdomFeature::get(&account),
        Err(ProgramError::from(TokenRecipesError::InvalidProgramOwner))
    );
}

#[test]
fn every_instruction_is_read_back_from_its_payload() {
    let instructions = vec![
        TokenRecipesInstruction::CreateRecipe,
        TokenRecipesInstruction::AddIngredient {
            ingredient_type: IngredientType::MintTokenWithMaxSupplyOutput,
            amount: 10,
            destination: None,
            max_supply: Some(100),
        },
        TokenRecipesInstruction::AddIngredient {
            ingredient_type: IngredientType::TransferTokenInput,
            amount: 1,
            destination: Some(key(7)),
            max_supply: None,
        },
        TokenRecipesInstruction::RemoveIngredient { ingredient_type: IngredientType::BurnTokenInput },
        TokenRecipesInstruction::ActivateRecipe,
        TokenRecipesInstruction::PauseRecipe,
        TokenRecipesInstruction::Craft { quantity: u64::MAX },
        TokenRecipesInstruction::DeleteRecipe,
        TokenRecipesInstruction::AdminSetFeature { feature: Feature::SolPayment(sol_payment()) },
        TokenRecipesInstruction::UnlockFeature,
        TokenRecipesInstruction::SetFees { fees: 5 },
        TokenRecipesInstruction::CollectFees,
        TokenRecipesInstruction::CollectExperience,
    ];
    for (index, instruction) in instructions.iter().enumerate() {
        let payload = instruction.serialize();
        assert_eq!(TokenRecipesInstruction::try_from_slice(&payload), Ok(*instruction));
        assert_eq!(
            TokenRecipesInstruction::deserialize(&payload),
            Some((*instruction, payload.len()))
        );
        let mut longer = payload.clone();
        longer.push(0);
        assert_eq!(
            TokenRecipesInstruction::try_from_slice(&longer),
            Err(ProgramError::BorshIoError),
            "instruction {}",
            index
        );
    }
    assert_eq!(TokenRecipesInstruction::CreateRecipe.serialize(), vec![0]);
    assert_eq!(TokenRecipesInstruction::CollectExperience.serialize(), vec![11]);
    assert_eq!(
        TokenRecipesInstruction::AdminSetFeature { feature: Feature::SolPayment(sol_payment()) }
            .serialize()[..2],
        [7, 4]
    );
}

#[test]
fn a_payload_that_holds_no_instruction_is_refused() {
    assert_eq!(TokenRecipesInstruction::try_from_slice(&[]), Err(ProgramError::BorshIoError));
    assert_eq!(TokenRecipesInstruction::try_from_slice(&[12]), Err(ProgramError::BorshIoError));
    assert_eq!(TokenRecipesInstruction::try_from_slice(&[5, 1]), Err(ProgramError::BorshIoError));
    assert_eq!(TokenRecipesInstruction::try_from_slice(&[2, 5]), Err(ProgramError::BorshIoError));
    assert_eq!(
        TokenRecipesInstruction::try_from_slice(&[1, 0, 1, 0, 0, 0, 0, 0, 0, 0, 2, 0]),
        Err(ProgramError::BorshIoError)
    );
    assert_eq!(TokenRecipesInstruction::try_from_slice(&[7, 6]), Err(ProgramError::BorshIoError));
}

#[test]
fn the_instruction_that_creates_a_recipe_names_its_records() {
    let instruction = create_recipe(&key(2), &key(50), &key(1), &key(3));
    assert_eq!(instruction.program_id, id());
    assert_eq!(instruction.data, vec![0]);
    assert_eq!(
        instruction.accounts,
        vec![
            AccountMeta::new_readonly(key(2), true),
            AccountMeta::new(key(50), false),
            AccountMeta::new_readonly(key(1), false),
            AccountMeta::new(key(3), true),
            AccountMeta::new_readonly(system_program(), false),
        ]
    );
}

#[test]
fn the_instruction_that_adds_an_ingredient_names_its_records() {
    let instruction = add_ingredient(
        &key(50),
        &key(10),
        &key(51),
        None,
        &key(1),
        &key(3),
        5,
        IngredientType::BurnTokenInput,
        None,
        None,
    );
    assert_eq!(instruction.program_id, id());
    assert_eq!(
        TokenRecipesInstruction::try_from_slice(&instruction.data),
        Ok(TokenRecipesInstruction::AddIngredient {
            ingredient_type: IngredientType::BurnTokenInput,
            amount: 5,
            destination: None,
            max_supply: None,
        })
    );
    assert_eq!(instruction.accounts.len(), 8);
    assert_eq!(instruction.accounts[3], AccountMeta::new(id(), false));
    assert_eq!(instruction.accounts[4], AccountMeta::new_readonly(key(1), true));
    assert_eq!(instruction.accounts[7], AccountMeta::new_readonly(token_program(), false));
    let with_delegated = add_ingredient(
        &key(50),
        &key(10),
        &key(51),
        Some(&key(52)),
        &key(1),
        &key(3),
        5,
        IngredientType::MintTokenOutput,
        None,
        None,
    );
    assert_eq!(with_delegated.accounts[3], AccountMeta::new(key(52), false));
}

#[test]
fn a_record_of_any_number_of_addresses_is_read_or_refused() {
    let bytes = sol_payment().serialize();
    let (key, keys) = token_recipes::state::features::parse_keys(&bytes, 14).unwrap();
    assert_eq!(key, Key::SolPaymentFeature);
    assert_eq!(keys.len(), 14);
    assert_eq!(keys[13], Pubkey::new_from_array([14; 32]));
    assert_eq!(token_recipes::state::features::parse_keys(&bytes, 0), Some((key, Vec::new())));
    assert_eq!(token_recipes::state::features::parse_keys(&bytes, 15), None);
    assert_eq!(token_recipes::state::features::parse_keys(&bytes, 65), None);
    assert_eq!(token_recipes::state::features::parse_keys(&bytes, usize::MAX), None);
    assert_eq!(token_recipes::state::features::parse_keys(&bytes, usize::MAX / 32), None);
    assert_eq!(token_recipes::state::features::parse_keys(&[], 0), None);
}
