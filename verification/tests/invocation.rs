use token_recipes::instruction::{AccountMeta, Instruction};
use token_recipes::pubkey::Pubkey;
use token_recipes::utils::Effect;

fn key(seed: u8) -> Pubkey {
    Pubkey::new_from_array([seed; 32])
}

fn outside(key: &Pubkey) -> solana_program::pubkey::Pubkey {
    solana_program::pubkey::Pubkey::new_from_array(key.to_bytes())
}

fn library(instruction: solana_program::instruction::Instruction) -> Instruction {
    Instruction {
        program_id: Pubkey::new_from_array(instruction.program_id.to_bytes()),
        accounts: instruction
            .accounts
            .iter()
            .map(|meta| AccountMeta {
                pubkey: Pubkey::new_from_array(meta.pubkey.to_bytes()),
                is_signer: meta.is_signer,
                is_writable: meta.is_writable,
            })
            .collect(),
        data: instruction.data,
    }
}

#[test]
fn a_record_is_created_by_the_system_program() {
    let effect = Effect::CreateAccount {
        target: key(1),
        funding: key(2),
        size: 138,
        owner: key(3),
        signer_seeds: vec![vec![1, 2, 3]],
    };
    let expected = solana_program::system_instruction::create_account(
        &outside(&key(2)),
        &outside(&key(1)),
        1_851_360,
        138,
        &outside(&key(3)),
    );
    let built = effect.instruction(1_851_360).unwrap();
    assert_eq!(built, library(expected));
    assert_eq!(built.program_id, token_recipes::pubkey::system_program());
    assert_eq!(built.accounts[0], AccountMeta::new(key(2), true));
    assert_eq!(built.accounts[1], AccountMeta::new(key(1), true));
}

#[test]
fn native_currency_is_moved_by_the_system_program() {
    let effect = Effect::TransferLamports {
        from: key(1),
        to: key(2),
        lamports: 20_000_000,
        signer_seeds: Vec::new(),
    };
    let expected = solana_program::system_instruction::transfer(
        &outside(&key(1)),
        &outside(&key(2)),
        20_000_000,
    );
    assert_eq!(effect.instruction(0), Some(library(expected.clone())));
    assert_eq!(effect.instruction(7), Some(library(expected)));

    let grows = Effect::Realloc { target: key(2), funding: key(1), new_size: 179, refund: true };
    let top_up = solana_program::system_instruction::transfer(
        &outside(&key(1)),
        &outside(&key(2)),
        285_360,
    );
    assert_eq!(grows.instruction(285_360), Some(library(top_up)));
}

#[test]
fn tokens_are_burned_minted_and_moved_by_the_token_program() {
    let burn = Effect::BurnTokens { token: key(1), mint: key(2), owner: key(3), amount: 15, decimals: 6 };
    let expected = spl_token::instruction::burn_checked(
        &spl_token::id(),
        &outside(&key(1)),
        &outside(&key(2)),
        &outside(&key(3)),
        &[],
        15,
        6,
    )
    .unwrap();
    assert_eq!(burn.instruction(0), Some(library(expected)));

    let mint = Effect::MintTokens {
        token: key(1),
        mint: key(2),
        mint_authority: key(4),
        amount: 30,
        decimals: 0,
        signer_seeds: vec![vec![9]],
    };
    let expected = spl_token::instruction::mint_to_checked(
        &spl_token::id(),
        &outside(&key(2)),
        &outside(&key(1)),
        &outside(&key(4)),
        &[],
        30,
        0,
    )
    .unwrap();
    assert_eq!(mint.instruction(0), Some(library(expected)));

    let transfer = Effect::TransferTokens {
        mint: key(2),
        from_owner: key(3),
        from_token: key(1),
        to_token: key(5),
        amount: 7,
        decimals: 2,
        signer_seeds: Vec::new(),
    };
    let expected = spl_token::instruction::transfer_checked(
        &spl_token::id(),
        &outside(&key(1)),
        &outside(&key(2)),
        &outside(&key(5)),
        &outside(&key(3)),
        &[],
        7,
        2,
    )
    .unwrap();
    let built = transfer.instruction(0).unwrap();
    assert_eq!(built, library(expected));
    assert_eq!(built.program_id, token_recipes::pubkey::token_program());
}

#[test]
fn the_mint_authority_is_handed_over_by_the_token_program() {
    let effect = Effect::TransferMintAuthority {
        mint: key(2),
        from: key(3),
        to: key(4),
        signer_seeds: Vec::new(),
    };
    let expected = spl_token::instruction::set_authority(
        &spl_token::id(),
        &outside(&key(2)),
        Some(&outside(&key(4))),
        spl_token::instruction::AuthorityType::MintTokens,
        &outside(&key(3)),
        &[],
    )
    .unwrap();
    assert_eq!(effect.instruction(0), Some(library(expected)));
}

#[test]
fn an_associated_token_account_is_created_by_its_program() {
    let token = spl_associated_token_account::get_associated_token_address(
        &outside(&key(4)),
        &outside(&key(2)),
    );
    let effect = Effect::CreateAssociatedTokenAccount {
        token: Pubkey::new_from_array(token.to_bytes()),
        mint: key(2),
        owner: key(4),
        payer: key(3),
    };
    let expected = spl_associated_token_account::instruction::create_associated_token_account(
        &outside(&key(3)),
        &outside(&key(4)),
        &outside(&key(2)),
        &spl_token::id(),
    );
    let built = effect.instruction(0).unwrap();
    assert_eq!(built, library(expected));
    assert_eq!(built.program_id, token_recipes::pubkey::associated_token_program());
    assert_eq!(built.accounts[1].pubkey, Pubkey::new_from_array(token.to_bytes()));
}

#[test]
fn the_program_resizes_closes_and_writes_itself() {
    assert_eq!(Effect::Close { target: key(1), receiver: key(2) }.instruction(5), None);
    assert_eq!(Effect::Write { account: key(1), data: vec![1, 2] }.instruction(5), None);
}

fn le(value: u64) -> Vec<u8> {
    value.to_le_bytes().to_vec()
}

#[test]
fn the_instructions_to_the_system_program_are_laid_out_as_stated() {
    let system = token_recipes::pubkey::system_program();
    let create = Effect::CreateAccount {
        target: key(1),
        funding: key(2),
        size: 67,
        owner: key(3),
        signer_seeds: Vec::new(),
    }
    .instruction(0x0102030405060708)
    .unwrap();
    assert_eq!(create.program_id, system);
    assert_eq!(create.accounts, vec![AccountMeta::new(key(2), true), AccountMeta::new(key(1), true)]);
    let mut data = vec![0u8, 0, 0, 0];
    data.extend(le(0x0102030405060708));
    data.extend(le(67));
    data.extend([3u8; 32]);
    assert_eq!(create.data, data);

    let transfer = Effect::TransferLamports {
        from: key(4),
        to: key(5),
        lamports: 20_000_000,
        signer_seeds: Vec::new(),
    }
    .instruction(9)
    .unwrap();
    assert_eq!(transfer.program_id, system);
    assert_eq!(
        transfer.accounts,
        vec![AccountMeta::new(key(4), true), AccountMeta::new(key(5), false)]
    );
    let mut data = vec![2u8, 0, 0, 0];
    data.extend(le(20_000_000));
    assert_eq!(transfer.data, data);
}

#[test]
fn the_instructions_to_the_token_program_are_laid_out_as_stated() {
    let token_program = token_recipes::pubkey::token_program();

    let burn = Effect::BurnTokens { token: key(1), mint: key(2), owner: key(3), amount: 15, decimals: 6 }
        .instruction(0)
        .unwrap();
    assert_eq!(burn.program_id, token_program);
    assert_eq!(
        burn.accounts,
        vec![
            AccountMeta::new(key(1), false),
            AccountMeta::new(key(2), false),
            AccountMeta::new_readonly(key(3), true),
        ]
    );
    let mut data = vec![15u8];
    data.extend(le(15));
    data.push(6);
    assert_eq!(burn.data, data);

    let mint = Effect::MintTokens {
        token: key(1),
        mint: key(2),
        mint_authority: key(4),
        amount: u64::MAX,
        decimals: 9,
        signer_seeds: Vec::new(),
    }
    .instruction(0)
    .unwrap();
    assert_eq!(mint.program_id, token_program);
    assert_eq!(
        mint.accounts,
        vec![
            AccountMeta::new(key(2), false),
            AccountMeta::new(key(1), false),
            AccountMeta::new_readonly(key(4), true),
        ]
    );
    let mut data = vec![14u8];
    data.extend(le(u64::MAX));
    data.push(9);
    assert_eq!(mint.data, data);

    let transfer = Effect::TransferTokens {
        mint: key(2),
        from_owner: key(3),
        from_token: key(1),
        to_token: key(5),
        amount: 7,
        decimals: 2,
        signer_seeds: Vec::new(),
    }
    .instruction(0)
    .unwrap();
    assert_eq!(transfer.program_id, token_program);
    assert_eq!(
        transfer.accounts,
        vec![
            AccountMeta::new(key(1), false),
            AccountMeta::new_readonly(key(2), false),
            AccountMeta::new(key(5), false),
            AccountMeta::new_readonly(key(3), true),
        ]
    );
    let mut data = vec![12u8];
    data.extend(le(7));
    data.push(2);
    assert_eq!(transfer.data, data);

    let hand_over = Effect::TransferMintAuthority {
        mint: key(2),
        from: key(3),
        to: key(4),
        signer_seeds: Vec::new(),
    }
    .instruction(0)
    .unwrap();
    assert_eq!(hand_over.program_id, token_program);
    assert_eq!(
        hand_over.accounts,
        vec![AccountMeta::new(key(2), false), AccountMeta::new_readonly(key(3), true)]
    );
    let mut data = vec![6u8, 0, 1];
    data.extend([4u8; 32]);
    assert_eq!(hand_over.data, data);
}

#[test]
fn the_instruction_to_the_associated_token_program_is_laid_out_as_stated() {
    let token = spl_associated_token_account::get_associated_token_address(
        &outside(&key(4)),
        &outside(&key(2)),
    );
    let (derived, _) = solana_program::pubkey::Pubkey::find_program_address(
        &[&[4u8; 32], &token_recipes::pubkey::token_program().to_bytes(), &[2u8; 32]],
        &outside(&token_recipes::pubkey::associated_token_program()),
    );
    assert_eq!(token, derived);
    let built = Effect::CreateAssociatedTokenAccount {
        token: key(99),
        mint: key(2),
        owner: key(4),
        payer: key(3),
    }
    .instruction(0)
    .unwrap();
    assert_eq!(built.program_id, token_recipes::pubkey::associated_token_program());
    assert_eq!(
        built.accounts,
        vec![
            AccountMeta::new(key(3), true),
            AccountMeta::new(Pubkey::new_from_array(derived.to_bytes()), false),
            AccountMeta::new_readonly(key(4), false),
            AccountMeta::new_readonly(key(2), false),
            AccountMeta::new_readonly(token_recipes::pubkey::system_program(), false),
            AccountMeta::new_readonly(token_recipes::pubkey::token_program(), false),
        ]
    );
    assert_eq!(built.data, vec![0u8]);
}
