use token_recipes::account::AccountInfo;
use token_recipes::pubkey::{id, system_program, Pubkey};
use token_recipes::state::key::Key;
use token_recipes::state::recipe::{Recipe, RecipeStatus};
use token_recipes::utils::Effect;

fn account(key: Pubkey, is_signer: bool, is_writable: bool) -> AccountInfo {
    AccountInfo { key, lamports: 0, data: Vec::new(), owner: system_program(), is_signer, is_writable }
}

#[test]
fn create_recipe() {
    let base = Pubkey::new_from_array([2; 32]);
    let payer = Pubkey::new_from_array([3; 32]);
    let (address, _) = solana_program::pubkey::Pubkey::find_program_address(
        &[b"recipe", &base.to_bytes()],
        &solana_program::pubkey::Pubkey::new_from_array(id().to_bytes()),
    );
    let recipe = Pubkey::new_from_array(address.to_bytes());

    let accounts = vec![
        account(base, true, false),
        account(recipe, false, true),
        account(payer, false, false),
        account(payer, true, true),
        account(system_program(), false, false),
    ];
    let effects = token_recipes::processor::create_recipe::create_recipe(&accounts).unwrap();
    assert_eq!(effects.len(), 2);

    let mut created = None;
    for effect in &effects {
        match effect {
            Effect::CreateAccount { target, funding, size, owner, .. } => {
                assert_eq!((*target, *funding, *owner), (recipe, payer, id()));
                created = Some(vec![0u8; *size]);
            }
            Effect::Write { account, data } => {
                assert_eq!(*account, recipe);
                created.as_mut().unwrap()[..data.len()].copy_from_slice(data);
            }
            other => panic!("unexpected request {:?}", other),
        }
    }

    let data = created.unwrap();
    assert_eq!(data.len(), Recipe::INITIAL_LEN);

    let my_account = Recipe::deserialize(&data).unwrap();
    assert!(matches!(my_account.key, Key::Recipe));
    assert_eq!(my_account.authority, payer);
    assert!(matches!(my_account.status, RecipeStatus::Paused));
}
