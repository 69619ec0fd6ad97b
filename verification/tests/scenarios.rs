use solana_program::program_option::COption;
use solana_program::program_pack::Pack;
use token_recipes::account::AccountInfo;
use token_recipes::error::{ProgramError, TokenRecipesError};
use token_recipes::pubkey::Pubkey;
use token_recipes::utils::{deposit_change, transfer_lamports_from_pdas, DepositChange, Effect};

fn key(seed: u8) -> Pubkey {
    Pubkey::new_from_array([seed; 32])
}

fn outside(key: &Pubkey) -> solana_program::pubkey::Pubkey {
    solana_program::pubkey::Pubkey::new_from_array(key.to_bytes())
}

fn derived(seeds: &[&[u8]], program: &Pubkey) -> Pubkey {
    let (address, _) = solana_program::pubkey::Pubkey::find_program_address(seeds, &outside(program));
    Pubkey::new_from_array(address.to_bytes())
}

fn recipe_address(base: &Pubkey) -> Pubkey {
    derived(&[b"recipe", &base.to_bytes()], &token_recipes::pubkey::id())
}

fn ingredient_record_address(mint: &Pubkey, recipe: &Pubkey) -> Pubkey {
    derived(
        &[b"ingredient_record", &mint.to_bytes(), &recipe.to_bytes()],
        &token_recipes::pubkey::id(),
    )
}

fn delegated_ingredient_address(mint: &Pubkey) -> Pubkey {
    derived(&[b"delegated_ingredient", &mint.to_bytes()], &token_recipes::pubkey::id())
}

fn feature_address(name: &str) -> Pubkey {
    derived(&[b"features", name.as_bytes()], &token_recipes::pubkey::id())
}

fn associated_token_address(owner: &Pubkey, mint: &Pubkey) -> Pubkey {
    derived(
        &[
            &owner.to_bytes(),
            &token_recipes::pubkey::token_program().to_bytes(),
            &mint.to_bytes(),
        ],
        &token_recipes::pubkey::associated_token_program(),
    )
}

fn failure(error: TokenRecipesError) -> ProgramError {
    ProgramError::from(error)
}

/// The storage deposit of a record of `size` bytes.
fn rent(size: usize) -> u64 {
    (128 + size as u64) * 6960
}

fn mint_data(authority: Option<Pubkey>, supply: u64, decimals: u8) -> Vec<u8> {
    let mint = spl_token::state::Mint {
        mint_authority: match authority {
            Some(authority) => COption::Some(outside(&authority)),
            None => COption::None,
        },
        supply,
        decimals,
        is_initialized: true,
        freeze_authority: COption::None,
    };
    let mut data = vec![0u8; 82];
    spl_token::state::Mint::pack(mint, &mut data).unwrap();
    data
}

fn token_data(mint: &Pubkey, owner: &Pubkey, amount: u64) -> Vec<u8> {
    let account = spl_token::state::Account {
        mint: outside(mint),
        owner: outside(owner),
        amount,
        delegate: COption::None,
        state: spl_token::state::AccountState::Initialized,
        is_native: COption::None,
        delegated_amount: 0,
        close_authority: COption::None,
    };
    let mut data = vec![0u8; 165];
    spl_token::state::Account::pack(account, &mut data).unwrap();
    data
}

/// A ledger kept in memory: the records by their addresses.
#[derive(Clone)]
struct Ledger {
    accounts: Vec<AccountInfo>,
}

impl Ledger {
    fn new() -> Ledger {
        Ledger { accounts: Vec::new() }
    }

    fn position(&self, key: &Pubkey) -> Option<usize> {
        self.accounts.iter().position(|account| account.key == *key)
    }

    fn get(&self, key: &Pubkey) -> AccountInfo {
        match self.position(key) {
            Some(index) => self.accounts[index].clone(),
            None => AccountInfo {
                key: *key,
                lamports: 0,
                data: Vec::new(),
                owner: token_recipes::pubkey::system_program(),
                is_signer: false,
                is_writable: false,
            },
        }
    }

    fn set(&mut self, account: AccountInfo) {
        let mut account = account;
        account.is_signer = false;
        account.is_writable = false;
        match self.position(&account.key) {
            Some(index) => self.accounts[index] = account,
            None => self.accounts.push(account),
        }
    }

    fn fund(&mut self, key: &Pubkey, lamports: u64) {
        let mut account = self.get(key);
        account.lamports = lamports;
        self.set(account);
    }

    fn put(&mut self, key: &Pubkey, owner: &Pubkey, data: Vec<u8>) {
        let mut account = self.get(key);
        account.owner = *owner;
        account.lamports = rent(data.len());
        account.data = data;
        self.set(account);
    }

    fn put_mint(&mut self, mint: &Pubkey, authority: Option<Pubkey>, supply: u64) {
        self.put(mint, &token_recipes::pubkey::token_program(), mint_data(authority, supply, 0));
    }

    fn put_token(&mut self, token: &Pubkey, mint: &Pubkey, owner: &Pubkey, amount: u64) {
        self.put(token, &token_recipes::pubkey::token_program(), token_data(mint, owner, amount));
    }

    fn mint(&self, mint: &Pubkey) -> spl_token::state::Mint {
        spl_token::state::Mint::unpack(&self.get(mint).data).unwrap()
    }

    fn token(&self, token: &Pubkey) -> spl_token::state::Account {
        spl_token::state::Account::unpack(&self.get(token).data).unwrap()
    }

    /// The record as an instruction sees it.
    fn view(&self, key: &Pubkey, is_signer: bool, is_writable: bool) -> AccountInfo {
        let mut account = self.get(key);
        account.is_signer = is_signer;
        account.is_writable = is_writable;
        account
    }

    fn signer(&self, key: &Pubkey) -> AccountInfo {
        self.view(key, true, true)
    }

    fn writable(&self, key: &Pubkey) -> AccountInfo {
        self.view(key, false, true)
    }

    fn readonly(&self, key: &Pubkey) -> AccountInfo {
        self.view(key, false, false)
    }

    fn move_lamports(&mut self, from: &Pubkey, to: &Pubkey, lamports: u64) {
        let mut source = self.get(from);
        source.lamports = source.lamports.checked_sub(lamports).expect("insufficient funds");
        self.set(source);
        let mut target = self.get(to);
        target.lamports = target.lamports.checked_add(lamports).unwrap();
        self.set(target);
    }

    /// Does to the ledger what an instruction asked for.
    fn apply(&mut self, effects: &[Effect]) {
        for effect in effects {
            match effect {
                Effect::CreateAccount { target, funding, size, owner, .. } => {
                    assert!(self.get(target).data.is_empty());
                    self.move_lamports(funding, target, rent(*size));
                    let mut account = self.get(target);
                    account.data = vec![0u8; *size];
                    account.owner = *owner;
                    self.set(account);
                }
                Effect::Realloc { target, funding, new_size, refund } => {
                    let old_size = self.get(target).data.len();
                    match deposit_change(rent(old_size), rent(*new_size), *refund) {
                        DepositChange::TopUp(lamports) => self.move_lamports(funding, target, lamports),
                        DepositChange::Refund(lamports) => {
                            let (from, to) = transfer_lamports_from_pdas(
                                self.get(target).lamports,
                                self.get(funding).lamports,
                                lamports,
                            )
                            .unwrap();
                            self.fund(target, from);
                            self.fund(funding, to);
                        }
                        DepositChange::Keep => {}
                    }
                    let mut account = self.get(target);
                    account.data.resize(*new_size, 0);
                    self.set(account);
                }
                Effect::Close { target, receiver } => {
                    let lamports = self.get(target).lamports;
                    self.move_lamports(target, receiver, lamports);
                    let mut account = self.get(target);
                    account.data = Vec::new();
                    account.owner = token_recipes::pubkey::system_program();
                    self.set(account);
                }
                Effect::TransferLamports { from, to, lamports, .. } => {
                    self.move_lamports(from, to, *lamports);
                }
                Effect::TransferMintAuthority { mint, from, to, .. } => {
                    let mut state = self.mint(mint);
                    assert_eq!(state.mint_authority, COption::Some(outside(from)));
                    state.mint_authority = COption::Some(outside(to));
                    let mut account = self.get(mint);
                    spl_token::state::Mint::pack(state, &mut account.data).unwrap();
                    self.set(account);
                }
                Effect::CreateAssociatedTokenAccount { token, mint, owner, payer } => {
                    assert_eq!(*token, associated_token_address(owner, mint));
                    assert!(self.get(token).data.is_empty());
                    self.move_lamports(payer, token, rent(165));
                    let mut account = self.get(token);
                    account.data = token_data(mint, owner, 0);
                    account.owner = token_recipes::pubkey::token_program();
                    self.set(account);
                }
                Effect::BurnTokens { token, mint, owner, amount, .. } => {
                    let mut holding = self.token(token);
                    assert_eq!(holding.owner, outside(owner));
                    assert_eq!(holding.mint, outside(mint));
                    holding.amount = holding.amount.checked_sub(*amount).unwrap();
                    let mut state = self.mint(mint);
                    state.supply = state.supply.checked_sub(*amount).unwrap();
                    self.write_token(token, holding);
                    self.write_mint(mint, state);
                }
                Effect::MintTokens { token, mint, mint_authority, amount, .. } => {
                    let mut state = self.mint(mint);
                    assert_eq!(state.mint_authority, COption::Some(outside(mint_authority)));
                    state.supply = state.supply.checked_add(*amount).unwrap();
                    let mut holding = self.token(token);
                    assert_eq!(holding.mint, outside(mint));
                    holding.amount = holding.amount.checked_add(*amount).unwrap();
                    self.write_token(token, holding);
                    self.write_mint(mint, state);
                }
                Effect::TransferTokens { mint, from_owner, from_token, to_token, amount, .. } => {
                    let mut source = self.token(from_token);
                    assert_eq!(source.owner, outside(from_owner));
                    assert_eq!(source.mint, outside(mint));
                    source.amount = source.amount.checked_sub(*amount).unwrap();
                    self.write_token(from_token, source);
                    let mut target = self.token(to_token);
                    assert_eq!(target.mint, outside(mint));
                    target.amount = target.amount.checked_add(*amount).unwrap();
                    self.write_token(to_token, target);
                }
                Effect::Write { account, data } => {
                    let mut target = self.get(account);
                    target.data[..data.len()].copy_from_slice(data);
                    self.set(target);
                }
            }
        }
    }

    fn write_mint(&mut self, mint: &Pubkey, state: spl_token::state::Mint) {
        let mut account = self.get(mint);
        spl_token::state::Mint::pack(state, &mut account.data).unwrap();
        self.set(account);
    }

    fn write_token(&mut self, token: &Pubkey, state: spl_token::state::Account) {
        let mut account = self.get(token);
        spl_token::state::Account::pack(state, &mut account.data).unwrap();
        self.set(account);
    }
}

use token_recipes::processor::activate_recipe::activate_recipe;
use token_recipes::processor::add_ingredient::add_ingredient;
use token_recipes::processor::admin_set_feature::admin_set_feature;
use token_recipes::processor::collect_experience::collect_experience;
use token_recipes::processor::collect_fees::collect_fees;
use token_recipes::processor::craft::{craft, craft_start, Crafting};
use token_recipes::processor::create_recipe::create_recipe;
use token_recipes::processor::delete_recipe::delete_recipe;
use token_recipes::processor::pause_recipe::pause_recipe;
use token_recipes::processor::remove_ingredient::remove_ingredient;
use token_recipes::processor::set_fees::set_fees;
use token_recipes::processor::unlock_feature::unlock_feature;
use token_recipes::state::delegated_ingredient::DelegatedIngredient;
use token_recipes::state::features::fees::{FeesFeature, BASE_FEES};
use token_recipes::state::features::wisdom::WisdomFeature;
use token_recipes::state::features::Feature;
use token_recipes::state::ingredient_input::IngredientInput;
use token_recipes::state::ingredient_output::IngredientOutput;
use token_recipes::state::ingredient_record::IngredientRecord;
use token_recipes::state::key::Key;
use token_recipes::instruction::TokenRecipesInstruction;
use token_recipes::processor::{Processed, Processor};
use token_recipes::state::recipe::{Ingredient, IngredientType, Recipe, RecipeStatus};

const AUTHORITY: u8 = 1;
const BASE: u8 = 2;
const PAYER: u8 = 3;
const OWNER: u8 = 4;
const ADMIN: u8 = 5;
const MINT_X: u8 = 10;
const MINT_Y: u8 = 11;
const SHARDS: u8 = 12;
const EXPERIENCE: u8 = 13;
const FEE_TOKEN: u8 = 14;
const OWNER_X: u8 = 20;
const AUTHORITY_SHARDS: u8 = 21;
const AUTHORITY_FEE_TOKEN: u8 = 22;

type Outcome = Result<Vec<Effect>, ProgramError>;

/// Runs an instruction on the ledger: what it asks for is done, unless it fails.
fn run(ledger: &mut Ledger, outcome: Outcome) -> Outcome {
    if let Ok(effects) = &outcome {
        ledger.apply(effects);
    }
    outcome
}

fn world() -> Ledger {
    let mut ledger = Ledger::new();
    ledger.fund(&key(AUTHORITY), 10_000_000_000);
    ledger.fund(&key(PAYER), 10_000_000_000);
    ledger.fund(&key(OWNER), 10_000_000_000);
    ledger.put_mint(&key(MINT_X), Some(key(AUTHORITY)), 100);
    ledger.put_mint(&key(MINT_Y), Some(key(AUTHORITY)), 0);
    ledger.put_token(&key(OWNER_X), &key(MINT_X), &key(OWNER), 100);
    ledger
}

fn programs(ledger: &Ledger) -> (AccountInfo, AccountInfo, AccountInfo) {
    (
        ledger.readonly(&token_recipes::pubkey::system_program()),
        ledger.readonly(&token_recipes::pubkey::token_program()),
        ledger.readonly(&token_recipes::pubkey::associated_token_program()),
    )
}

fn do_create(ledger: &mut Ledger, base: &Pubkey) -> Outcome {
    let (system, _, _) = programs(ledger);
    let accounts = vec![
        ledger.view(base, true, false),
        ledger.writable(&recipe_address(base)),
        ledger.readonly(&key(AUTHORITY)),
        ledger.signer(&key(PAYER)),
        system,
    ];
    let outcome = create_recipe(&accounts);
    run(ledger, outcome)
}

fn ingredient_accounts(ledger: &Ledger, base: &Pubkey, mint: &Pubkey) -> Vec<AccountInfo> {
    let (system, token, _) = programs(ledger);
    let recipe = recipe_address(base);
    vec![
        ledger.writable(&recipe),
        ledger.writable(mint),
        ledger.writable(&ingredient_record_address(mint, &recipe)),
        ledger.writable(&delegated_ingredient_address(mint)),
        ledger.view(&key(AUTHORITY), true, false),
        ledger.signer(&key(PAYER)),
        system,
        token,
    ]
}

fn do_add(
    ledger: &mut Ledger,
    base: &Pubkey,
    mint: &Pubkey,
    amount: u64,
    ingredient_type: IngredientType,
    destination: Option<Pubkey>,
    max_supply: Option<u64>,
) -> Outcome {
    let accounts = ingredient_accounts(ledger, base, mint);
    let outcome = add_ingredient(&accounts, amount, ingredient_type, destination, max_supply);
    run(ledger, outcome)
}

fn do_remove(ledger: &mut Ledger, base: &Pubkey, mint: &Pubkey, ingredient_type: IngredientType) -> Outcome {
    let accounts = ingredient_accounts(ledger, base, mint);
    let outcome = remove_ingredient(&accounts, ingredient_type);
    run(ledger, outcome)
}

fn do_activate(ledger: &mut Ledger, base: &Pubkey) -> Outcome {
    let accounts = vec![
        ledger.writable(&recipe_address(base)),
        ledger.view(&key(AUTHORITY), true, false),
    ];
    let outcome = activate_recipe(&accounts);
    run(ledger, outcome)
}

fn do_pause(ledger: &mut Ledger, base: &Pubkey) -> Outcome {
    let accounts = vec![
        ledger.writable(&recipe_address(base)),
        ledger.view(&key(AUTHORITY), true, false),
    ];
    let outcome = pause_recipe(&accounts);
    run(ledger, outcome)
}

fn craft_accounts(ledger: &Ledger, base: &Pubkey, rest: &[Pubkey]) -> Vec<AccountInfo> {
    let (system, token, ata) = programs(ledger);
    let mut accounts = vec![
        ledger.writable(&recipe_address(base)),
        ledger.view(&key(OWNER), true, false),
        ledger.signer(&key(PAYER)),
        system,
        token,
        ata,
    ];
    for address in rest {
        accounts.push(ledger.writable(address));
    }
    accounts
}

/// Crafts a recipe step by step, each step on the records as the steps
/// before it left them. Where a step fails, nothing of the craft stays.
fn do_craft(ledger: &mut Ledger, base: &Pubkey, rest: &[Pubkey], quantity: u64) -> Outcome {
    let before = ledger.clone();
    let mut crafting = craft(&craft_accounts(ledger, base, rest), quantity)?;
    let mut all = Vec::new();
    while !crafting.is_done() {
        match crafting.step(&craft_accounts(ledger, base, rest)) {
            Ok(effects) => {
                ledger.apply(&effects);
                all.extend(effects);
            }
            Err(error) => {
                *ledger = before;
                return Err(error);
            }
        }
    }
    Ok(all)
}

fn recipe_of(ledger: &Ledger, base: &Pubkey) -> Recipe {
    Recipe::load(&ledger.get(&recipe_address(base))).unwrap()
}

fn fees_feature() -> FeesFeature {
    FeesFeature {
        key: Key::FeesFeature,
        admin_destination: key(ADMIN),
        shard_mint: key(SHARDS),
        mint_burn_1: key(FEE_TOKEN),
        mint_burn_2: key(101),
        mint_burn_3: key(102),
        mint_burn_4: key(103),
        mint_burn_5: key(104),
        mint_skill_1: key(105),
        mint_skill_2: key(106),
        mint_skill_3: key(107),
    }
}

fn wisdom_feature() -> WisdomFeature {
    WisdomFeature {
        key: Key::WisdomFeature,
        experience_mint: key(EXPERIENCE),
        mint_burn_1: key(110),
        mint_burn_2: key(111),
    }
}

fn do_set_feature(ledger: &mut Ledger, feature: Feature, name: &str) -> Outcome {
    let (system, _, _) = programs(ledger);
    let accounts = vec![
        ledger.view(&token_recipes::pubkey::id(), true, false),
        ledger.writable(&feature_address(name)),
        ledger.signer(&key(PAYER)),
        system,
    ];
    let outcome = admin_set_feature(&accounts, feature);
    run(ledger, outcome)
}

/// A ledger on which the fee feature and the wisdom feature are configured
/// and hold the mint authority of the shards and of the experience.
fn world_with_features() -> Ledger {
    let mut ledger = world();
    ledger.fund(&token_recipes::pubkey::id(), 0);
    do_set_feature(&mut ledger, Feature::Fees(fees_feature()), "fees").unwrap();
    do_set_feature(&mut ledger, Feature::Wisdom(wisdom_feature()), "wisdom").unwrap();
    ledger.put_mint(&key(SHARDS), Some(feature_address("fees")), 0);
    ledger.put_mint(&key(EXPERIENCE), Some(feature_address("wisdom")), 0);
    ledger.put_token(&key(AUTHORITY_SHARDS), &key(SHARDS), &key(AUTHORITY), 0);
    ledger.put_mint(&key(FEE_TOKEN), None, 1);
    ledger.put_token(&key(AUTHORITY_FEE_TOKEN), &key(FEE_TOKEN), &key(AUTHORITY), 1);
    ledger
}

fn do_unlock(ledger: &mut Ledger, base: &Pubkey, feature: &str, mint: &Pubkey, token: &Pubkey) -> Outcome {
    let (_, token_program, _) = programs(ledger);
    let accounts = vec![
        ledger.writable(&recipe_address(base)),
        ledger.readonly(&feature_address(feature)),
        ledger.view(&key(AUTHORITY), true, false),
        ledger.view(&key(AUTHORITY), true, false),
        ledger.writable(mint),
        ledger.writable(token),
        token_program,
    ];
    let outcome = unlock_feature(&accounts);
    run(ledger, outcome)
}

fn do_collect_fees(ledger: &mut Ledger, base: &Pubkey) -> Outcome {
    let (system, token, _) = programs(ledger);
    let recipe = recipe_address(base);
    let accounts = vec![
        ledger.writable(&recipe),
        ledger.signer(&key(AUTHORITY)),
        ledger.writable(&key(ADMIN)),
        ledger.readonly(&feature_address("fees")),
        ledger.writable(&key(SHARDS)),
        ledger.writable(&key(AUTHORITY_SHARDS)),
        ledger.signer(&key(PAYER)),
        system,
        token,
    ];
    let reserve = rent(ledger.get(&recipe).data.len());
    let outcome = collect_fees(&accounts, reserve);
    run(ledger, outcome)
}

fn do_collect_experience(ledger: &mut Ledger, base: &Pubkey) -> Outcome {
    let (_, token, ata) = programs(ledger);
    let accounts = vec![
        ledger.writable(&recipe_address(base)),
        ledger.view(&key(AUTHORITY), true, false),
        ledger.readonly(&feature_address("wisdom")),
        ledger.writable(&key(EXPERIENCE)),
        ledger.writable(&associated_token_address(&key(AUTHORITY), &key(EXPERIENCE))),
        ledger.signer(&key(PAYER)),
        token,
        ata,
    ];
    let outcome = collect_experience(&accounts);
    run(ledger, outcome)
}

fn do_delete(ledger: &mut Ledger, base: &Pubkey) -> Outcome {
    let (system, token, _) = programs(ledger);
    let recipe = recipe_address(base);
    let accounts = vec![
        ledger.writable(&recipe),
        ledger.signer(&key(AUTHORITY)),
        ledger.signer(&key(PAYER)),
        ledger.writable(&key(ADMIN)),
        ledger.readonly(&feature_address("fees")),
        ledger.writable(&key(SHARDS)),
        ledger.writable(&key(AUTHORITY_SHARDS)),
        ledger.readonly(&feature_address("wisdom")),
        ledger.writable(&key(EXPERIENCE)),
        ledger.writable(&associated_token_address(&key(AUTHORITY), &key(EXPERIENCE))),
        system,
        token,
    ];
    let reserve = rent(ledger.get(&recipe).data.len());
    let outcome = delete_recipe(&accounts, reserve);
    run(ledger, outcome)
}

#[test]
fn create_recipe_makes_a_paused_recipe() {
    let mut ledger = world();
    do_create(&mut ledger, &key(BASE)).unwrap();

    let account = ledger.get(&recipe_address(&key(BASE)));
    assert_eq!(account.data.len(), Recipe::INITIAL_LEN);
    assert_eq!(account.owner, token_recipes::pubkey::id());
    assert_eq!(account.lamports, rent(Recipe::INITIAL_LEN));

    let recipe = Recipe::load(&account).unwrap();
    assert_eq!(recipe.key, Key::Recipe);
    assert_eq!(recipe.base, key(BASE));
    assert_eq!(recipe.authority, key(AUTHORITY));
    assert_eq!(recipe.status, RecipeStatus::Paused);
    assert_eq!(recipe.total_crafts, 0);
    assert_eq!(recipe.total_crafts_with_quantity, 0);
    assert_eq!(recipe.accumulated_admin_fees, 0);
    assert!(recipe.inputs.is_empty());
    assert!(recipe.outputs.is_empty());
}

#[test]
fn create_recipe_fails_where_the_recipe_exists() {
    let mut ledger = world();
    do_create(&mut ledger, &key(BASE)).unwrap();
    assert_eq!(
        do_create(&mut ledger, &key(BASE)),
        Err(failure(TokenRecipesError::ExpectedEmptyAccount))
    );
}

#[test]
fn create_recipe_fails_at_another_address() {
    let ledger = world();
    let (system, _, _) = programs(&ledger);
    let accounts = vec![
        ledger.view(&key(BASE), true, false),
        ledger.writable(&key(77)),
        ledger.readonly(&key(AUTHORITY)),
        ledger.signer(&key(PAYER)),
        system,
    ];
    assert_eq!(create_recipe(&accounts), Err(failure(TokenRecipesError::InvalidPda)));
    assert_eq!(create_recipe(&accounts[..4]), Err(ProgramError::NotEnoughAccountKeys));
}

#[test]
fn crafting_burns_the_inputs_and_mints_the_outputs() {
    let mut ledger = world();
    let base = key(BASE);
    do_create(&mut ledger, &base).unwrap();
    do_add(&mut ledger, &base, &key(MINT_X), 5, IngredientType::BurnTokenInput, None, None).unwrap();
    do_add(&mut ledger, &base, &key(MINT_Y), 10, IngredientType::MintTokenOutput, None, None).unwrap();
    do_activate(&mut ledger, &base).unwrap();

    let owner_y = associated_token_address(&key(OWNER), &key(MINT_Y));
    let delegated = delegated_ingredient_address(&key(MINT_Y));
    let rest = [key(MINT_X), key(OWNER_X), key(MINT_Y), owner_y, delegated];
    let effects = do_craft(&mut ledger, &base, &rest, 3).unwrap();

    assert!(effects.contains(&Effect::BurnTokens {
        token: key(OWNER_X),
        mint: key(MINT_X),
        owner: key(OWNER),
        amount: 15,
        decimals: 0,
    }));
    assert!(effects.iter().any(|effect| matches!(
        effect,
        Effect::MintTokens { token, mint, mint_authority, amount: 30, .. }
            if *token == owner_y && *mint == key(MINT_Y) && *mint_authority == delegated
    )));
    assert_eq!(ledger.token(&key(OWNER_X)).amount, 85);
    assert_eq!(ledger.mint(&key(MINT_X)).supply, 85);
    assert_eq!(ledger.token(&owner_y).amount, 30);
    assert_eq!(ledger.mint(&key(MINT_Y)).supply, 30);

    let recipe = recipe_of(&ledger, &base);
    assert_eq!(recipe.total_crafts, 1);
    assert_eq!(recipe.total_crafts_with_quantity, 3);
    assert_eq!(recipe.accumulated_admin_fees, BASE_FEES);
    assert_eq!(recipe.accumulated_shards, 0);
    assert_eq!(recipe.accumulated_experience, 100);
    assert_eq!(
        ledger.get(&recipe_address(&base)).lamports,
        rent(Recipe::INITIAL_LEN + 41 + 41) + BASE_FEES
    );
}

#[test]
fn crafting_takes_one_step_for_each_ingredient_and_one_to_settle() {
    let mut ledger = world();
    let base = key(BASE);
    do_create(&mut ledger, &base).unwrap();
    do_add(&mut ledger, &base, &key(MINT_X), 5, IngredientType::BurnTokenInput, None, None).unwrap();
    do_add(&mut ledger, &base, &key(MINT_Y), 10, IngredientType::MintTokenOutput, None, None).unwrap();
    do_activate(&mut ledger, &base).unwrap();

    let owner_y = associated_token_address(&key(OWNER), &key(MINT_Y));
    let rest = [
        key(MINT_X),
        key(OWNER_X),
        key(MINT_Y),
        owner_y,
        delegated_ingredient_address(&key(MINT_Y)),
    ];
    let mut crafting = craft(&craft_accounts(&ledger, &base, &rest), 3).unwrap();
    assert_eq!(
        crafting,
        Crafting::new(craft_start(&craft_accounts(&ledger, &base, &rest), 3).unwrap(), 3)
    );
    assert_eq!((crafting.inputs_done, crafting.outputs_done, crafting.cursor), (0, 0, 6));

    let burned = crafting.step(&craft_accounts(&ledger, &base, &rest)).unwrap();
    assert_eq!(burned.len(), 1);
    assert!(matches!(burned[0], Effect::BurnTokens { amount: 15, .. }));
    ledger.apply(&burned);
    assert_eq!((crafting.inputs_done, crafting.outputs_done, crafting.cursor), (1, 0, 8));

    let minted = crafting.step(&craft_accounts(&ledger, &base, &rest)).unwrap();
    assert_eq!(minted.len(), 2);
    assert!(matches!(minted[0], Effect::CreateAssociatedTokenAccount { .. }));
    assert!(matches!(minted[1], Effect::MintTokens { amount: 30, .. }));
    ledger.apply(&minted);
    assert_eq!((crafting.inputs_done, crafting.outputs_done, crafting.cursor), (1, 1, 11));
    assert!(!crafting.is_done());

    let settled = crafting.step(&craft_accounts(&ledger, &base, &rest)).unwrap();
    assert_eq!(settled.len(), 2);
    assert_eq!(
        settled[0],
        Effect::TransferLamports {
            from: key(PAYER),
            to: recipe_address(&base),
            lamports: BASE_FEES,
            signer_seeds: Vec::new(),
        }
    );
    ledger.apply(&settled);
    assert!(crafting.is_done());
    assert_eq!(crafting.recipe, recipe_of(&ledger, &base));
    assert_eq!(crafting.recipe.total_crafts, 1);
    assert_eq!(crafting.recipe.total_crafts_with_quantity, 3);

    assert!(crafting.step(&craft_accounts(&ledger, &base, &rest)).unwrap().is_empty());
    assert_eq!(ledger.token(&owner_y).amount, 30);
}

#[test]
fn crafting_nothing_is_refused() {
    let mut ledger = world();
    let base = key(BASE);
    let recipe = recipe_address(&base);
    do_create(&mut ledger, &base).unwrap();
    do_add(&mut ledger, &base, &key(MINT_X), 5, IngredientType::BurnTokenInput, None, None).unwrap();
    do_activate(&mut ledger, &base).unwrap();
    let before = ledger.get(&recipe);
    let payer_before = ledger.get(&key(PAYER)).lamports;
    let zero = Err(failure(TokenRecipesError::CannotAddIngredientWithZeroAmount));

    let rest = [key(MINT_X), key(OWNER_X)];
    assert_eq!(do_craft(&mut ledger, &base, &rest, 0), zero);
    assert_eq!(do_craft(&mut ledger, &base, &[], 0), zero);
    assert_eq!(
        craft_start(&craft_accounts(&ledger, &base, &rest), 0),
        Err(failure(TokenRecipesError::CannotAddIngredientWithZeroAmount))
    );
    assert_eq!(ledger.get(&recipe), before);
    assert_eq!(ledger.get(&key(PAYER)).lamports, payer_before);
    assert_eq!(ledger.token(&key(OWNER_X)).amount, 100);

    let mut crafting = Crafting::new(recipe_of(&ledger, &base), 0);
    let untouched = crafting.clone();
    assert_eq!(crafting.step(&craft_accounts(&ledger, &base, &rest)), zero);
    assert_eq!(crafting, untouched);

    do_pause(&mut ledger, &base).unwrap();
    assert_eq!(
        do_craft(&mut ledger, &base, &rest, 0),
        Err(failure(TokenRecipesError::RecipeIsNotActive))
    );

    let payload = TokenRecipesInstruction::Craft { quantity: 0 }.serialize();
    do_activate(&mut ledger, &base).unwrap();
    assert_eq!(
        Processor::process_instruction(
            &token_recipes::pubkey::id(),
            &craft_accounts(&ledger, &base, &rest),
            &payload,
            0
        ),
        Err(failure(TokenRecipesError::CannotAddIngredientWithZeroAmount))
    );
}

#[test]
fn crafting_needs_an_active_recipe() {
    let mut ledger = world();
    let base = key(BASE);
    do_create(&mut ledger, &base).unwrap();
    assert_eq!(
        do_craft(&mut ledger, &base, &[], 1),
        Err(failure(TokenRecipesError::RecipeIsNotActive))
    );
    do_activate(&mut ledger, &base).unwrap();
    assert!(do_craft(&mut ledger, &base, &[], 1).is_ok());
    do_pause(&mut ledger, &base).unwrap();
    assert_eq!(recipe_of(&ledger, &base).status, RecipeStatus::Paused);
    assert_eq!(
        do_craft(&mut ledger, &base, &[], 1),
        Err(failure(TokenRecipesError::RecipeIsNotActive))
    );
}

#[test]
fn crafting_fails_as_a_whole_where_an_amount_overflows() {
    let mut ledger = world();
    let base = key(BASE);
    do_create(&mut ledger, &base).unwrap();
    do_add(&mut ledger, &base, &key(MINT_X), 5, IngredientType::BurnTokenInput, None, None).unwrap();
    do_add(&mut ledger, &base, &key(MINT_Y), u64::MAX, IngredientType::MintTokenOutput, None, None)
        .unwrap();
    do_activate(&mut ledger, &base).unwrap();

    let owner_y = associated_token_address(&key(OWNER), &key(MINT_Y));
    let rest = [
        key(MINT_X),
        key(OWNER_X),
        key(MINT_Y),
        owner_y,
        delegated_ingredient_address(&key(MINT_Y)),
    ];
    assert_eq!(
        do_craft(&mut ledger, &base, &rest, 2),
        Err(failure(TokenRecipesError::NumericalOverflow))
    );
    assert_eq!(ledger.token(&key(OWNER_X)).amount, 100);
    assert_eq!(recipe_of(&ledger, &base).total_crafts, 0);
}

#[test]
fn crafting_needs_enough_tokens_and_every_record() {
    let mut ledger = world();
    let base = key(BASE);
    do_create(&mut ledger, &base).unwrap();
    do_add(&mut ledger, &base, &key(MINT_X), 5, IngredientType::BurnTokenInput, None, None).unwrap();
    do_activate(&mut ledger, &base).unwrap();
    assert_eq!(
        do_craft(&mut ledger, &base, &[key(MINT_X), key(OWNER_X)], 21),
        Err(failure(TokenRecipesError::NotEnoughTokens))
    );
    assert_eq!(
        do_craft(&mut ledger, &base, &[key(MINT_X)], 1),
        Err(ProgramError::NotEnoughAccountKeys)
    );
    assert_eq!(
        do_craft(&mut ledger, &base, &[key(MINT_Y), key(OWNER_X)], 1),
        Err(failure(TokenRecipesError::AccountMismatch))
    );
    assert!(do_craft(&mut ledger, &base, &[key(MINT_X), key(OWNER_X)], 20).is_ok());
    assert_eq!(ledger.token(&key(OWNER_X)).amount, 0);
}

#[test]
fn crafting_stops_at_the_maximum_supply() {
    let mut ledger = world_with_features();
    let base = key(BASE);
    do_create(&mut ledger, &base).unwrap();
    let mut max_supply = token_recipes::state::features::max_supply::MaxSupplyFeature {
        key: Key::MaxSupplyFeature,
        mint_burn_1: key(120),
        mint_skill_1: key(FEE_TOKEN),
    };
    max_supply.mint_burn_1 = key(121);
    do_set_feature(&mut ledger, Feature::MaxSupply(max_supply), "max_supply").unwrap();
    assert_eq!(
        do_add(
            &mut ledger,
            &base,
            &key(MINT_Y),
            10,
            IngredientType::MintTokenWithMaxSupplyOutput,
            None,
            Some(25)
        ),
        Err(failure(TokenRecipesError::InvalidMaxSupplyFeature))
    );
    do_unlock(&mut ledger, &base, "max_supply", &key(FEE_TOKEN), &key(AUTHORITY_FEE_TOKEN)).unwrap();
    assert_eq!(recipe_of(&ledger, &base).feature_levels.max_supply, 1);
    assert_eq!(ledger.token(&key(AUTHORITY_FEE_TOKEN)).amount, 1);
    do_add(
        &mut ledger,
        &base,
        &key(MINT_Y),
        10,
        IngredientType::MintTokenWithMaxSupplyOutput,
        None,
        Some(25),
    )
    .unwrap();
    do_activate(&mut ledger, &base).unwrap();

    let owner_y = associated_token_address(&key(OWNER), &key(MINT_Y));
    let rest = [key(MINT_Y), owner_y, delegated_ingredient_address(&key(MINT_Y))];
    do_craft(&mut ledger, &base, &rest, 2).unwrap();
    assert_eq!(ledger.mint(&key(MINT_Y)).supply, 20);
    assert_eq!(
        do_craft(&mut ledger, &base, &rest, 1),
        Err(failure(TokenRecipesError::MaximumSupplyReached))
    );
    assert_eq!(ledger.mint(&key(MINT_Y)).supply, 20);
}

#[test]
fn the_record_follows_the_ingredients_in_size() {
    let mut ledger = world();
    let base = key(BASE);
    let recipe = recipe_address(&base);
    do_create(&mut ledger, &base).unwrap();
    assert_eq!(ledger.get(&recipe).data.len(), 138);

    do_add(&mut ledger, &base, &key(MINT_X), 5, IngredientType::BurnTokenInput, None, None).unwrap();
    assert_eq!(ledger.get(&recipe).data.len(), 138 + 41);
    assert_eq!(ledger.get(&recipe).lamports, rent(138 + 41));

    do_add(&mut ledger, &base, &key(MINT_Y), 10, IngredientType::MintTokenOutput, None, None).unwrap();
    assert_eq!(ledger.get(&recipe).data.len(), 138 + 41 + 41);
    let loaded = recipe_of(&ledger, &base);
    assert_eq!(
        loaded.serialize().unwrap().len(),
        138 + loaded.inputs.iter().map(|input| input.len()).sum::<usize>()
            + loaded.outputs.iter().map(|output| output.len()).sum::<usize>()
    );

    let payer_before = ledger.get(&key(PAYER)).lamports;
    do_remove(&mut ledger, &base, &key(MINT_X), IngredientType::BurnTokenInput).unwrap();
    assert_eq!(ledger.get(&recipe).data.len(), 138 + 41);
    assert_eq!(ledger.get(&recipe).lamports, rent(138 + 41));
    assert_eq!(
        ledger.get(&key(PAYER)).lamports,
        payer_before + 41 * 6960 + rent(IngredientRecord::LEN)
    );
    assert!(ledger.get(&ingredient_record_address(&key(MINT_X), &recipe)).data.is_empty());

    do_remove(&mut ledger, &base, &key(MINT_Y), IngredientType::MintTokenOutput).unwrap();
    assert_eq!(ledger.get(&recipe).data.len(), 138);
    let loaded = recipe_of(&ledger, &base);
    assert!(loaded.inputs.is_empty() && loaded.outputs.is_empty());
}

#[test]
fn an_ingredient_is_added_once_and_removed_once() {
    let mut ledger = world();
    let base = key(BASE);
    do_create(&mut ledger, &base).unwrap();
    do_add(&mut ledger, &base, &key(MINT_X), 5, IngredientType::BurnTokenInput, None, None).unwrap();
    let before = ledger.get(&recipe_address(&base));
    assert_eq!(
        do_add(&mut ledger, &base, &key(MINT_X), 7, IngredientType::BurnTokenInput, None, None),
        Err(failure(TokenRecipesError::IngredientAlreadyAdded))
    );
    assert_eq!(ledger.get(&recipe_address(&base)), before);

    assert_eq!(
        do_remove(&mut ledger, &base, &key(MINT_Y), IngredientType::MintTokenOutput),
        Err(failure(TokenRecipesError::MissingIngredient))
    );
    assert_eq!(
        do_remove(&mut ledger, &base, &key(MINT_X), IngredientType::MintTokenOutput),
        Err(failure(TokenRecipesError::MissingIngredient))
    );
    do_remove(&mut ledger, &base, &key(MINT_X), IngredientType::BurnTokenInput).unwrap();
    assert_eq!(
        do_remove(&mut ledger, &base, &key(MINT_X), IngredientType::BurnTokenInput),
        Err(failure(TokenRecipesError::MissingIngredient))
    );
}

#[test]
fn a_token_can_be_input_and_output_of_one_recipe() {
    let mut ledger = world();
    let base = key(BASE);
    let recipe = recipe_address(&base);
    do_create(&mut ledger, &base).unwrap();
    do_add(&mut ledger, &base, &key(MINT_X), 5, IngredientType::BurnTokenInput, None, None).unwrap();
    do_add(&mut ledger, &base, &key(MINT_X), 1, IngredientType::MintTokenOutput, None, None).unwrap();
    let record = IngredientRecord::load(&ledger.get(&ingredient_record_address(&key(MINT_X), &recipe)))
        .unwrap();
    assert!(record.input && record.output);
    assert_eq!(record.mint, key(MINT_X));
    assert_eq!(record.recipe, recipe);

    do_remove(&mut ledger, &base, &key(MINT_X), IngredientType::BurnTokenInput).unwrap();
    let record = IngredientRecord::load(&ledger.get(&ingredient_record_address(&key(MINT_X), &recipe)))
        .unwrap();
    assert!(!record.input && record.output);
}

#[test]
fn an_ingredient_needs_an_amount_and_its_arguments() {
    let mut ledger = world();
    let base = key(BASE);
    do_create(&mut ledger, &base).unwrap();
    assert_eq!(
        do_add(&mut ledger, &base, &key(MINT_X), 0, IngredientType::BurnTokenInput, None, None),
        Err(failure(TokenRecipesError::CannotAddIngredientWithZeroAmount))
    );
    assert_eq!(
        do_add(&mut ledger, &base, &key(MINT_X), 1, IngredientType::TransferTokenInput, None, None),
        Err(failure(TokenRecipesError::MissingDestinationArgument))
    );
    assert_eq!(
        do_add(&mut ledger, &base, &key(MINT_X), 1, IngredientType::TransferSolInput, None, None),
        Err(failure(TokenRecipesError::MissingDestinationArgument))
    );
    assert_eq!(
        do_add(
            &mut ledger,
            &base,
            &key(MINT_Y),
            1,
            IngredientType::MintTokenWithMaxSupplyOutput,
            None,
            None
        ),
        Err(failure(TokenRecipesError::MissingMaxSupplyArgument))
    );
}

#[test]
fn the_feature_levels_limit_the_ingredients() {
    let mut ledger = world();
    let base = key(BASE);
    do_create(&mut ledger, &base).unwrap();
    assert_eq!(
        do_add(
            &mut ledger,
            &base,
            &key(MINT_X),
            1,
            IngredientType::TransferTokenInput,
            Some(key(ADMIN)),
            None
        ),
        Err(failure(TokenRecipesError::InvalidTransferInputsFeature))
    );
    assert_eq!(
        do_add(
            &mut ledger,
            &base,
            &key(MINT_X),
            1,
            IngredientType::TransferSolInput,
            Some(key(ADMIN)),
            None
        ),
        Err(failure(TokenRecipesError::InvalidSolPaymentFeature))
    );
    do_add(&mut ledger, &base, &key(MINT_Y), 10, IngredientType::MintTokenOutput, None, None).unwrap();
    assert_eq!(
        do_add(&mut ledger, &base, &key(MINT_X), 10, IngredientType::MintTokenOutput, None, None),
        Err(failure(TokenRecipesError::InvalidAdditionalOutputsFeature))
    );
    assert_eq!(recipe_of(&ledger, &base).outputs.len(), 1);
}

#[test]
fn only_the_signing_authority_changes_a_recipe() {
    let mut ledger = world();
    let base = key(BASE);
    do_create(&mut ledger, &base).unwrap();
    let recipe = recipe_address(&base);

    let unsigned = vec![ledger.writable(&recipe), ledger.readonly(&key(AUTHORITY))];
    assert_eq!(
        activate_recipe(&unsigned),
        Err(failure(TokenRecipesError::ExpectedSignerAccount))
    );
    let stranger = vec![ledger.writable(&recipe), ledger.signer(&key(OWNER))];
    assert_eq!(activate_recipe(&stranger), Err(failure(TokenRecipesError::AccountMismatch)));
    let readonly = vec![ledger.readonly(&recipe), ledger.signer(&key(AUTHORITY))];
    assert_eq!(
        activate_recipe(&readonly),
        Err(failure(TokenRecipesError::ExpectedWritableAccount))
    );
    let missing = vec![ledger.writable(&key(78)), ledger.signer(&key(AUTHORITY))];
    assert_eq!(
        pause_recipe(&missing),
        Err(failure(TokenRecipesError::InvalidProgramOwner))
    );
    assert_eq!(
        set_fees(&vec![ledger.writable(&recipe), ledger.signer(&key(AUTHORITY))], 5),
        Err(failure(TokenRecipesError::InvalidFeesFeature))
    );
}

#[test]
fn the_mint_authority_is_shared_and_handed_back_last() {
    let mut ledger = world();
    let first = key(BASE);
    let second = key(30);
    let delegated = delegated_ingredient_address(&key(MINT_Y));
    do_create(&mut ledger, &first).unwrap();
    do_create(&mut ledger, &second).unwrap();

    let effects =
        do_add(&mut ledger, &first, &key(MINT_Y), 10, IngredientType::MintTokenOutput, None, None)
            .unwrap();
    assert!(effects.iter().any(|effect| matches!(
        effect,
        Effect::TransferMintAuthority { mint, from, to, .. }
            if *mint == key(MINT_Y) && *from == key(AUTHORITY) && *to == delegated
    )));
    assert_eq!(DelegatedIngredient::load(&ledger.get(&delegated)).unwrap().counter, 1);

    let effects =
        do_add(&mut ledger, &second, &key(MINT_Y), 1, IngredientType::MintTokenOutput, None, None)
            .unwrap();
    assert!(!effects.iter().any(|effect| matches!(effect, Effect::TransferMintAuthority { .. })));
    let record = DelegatedIngredient::load(&ledger.get(&delegated)).unwrap();
    assert_eq!(record.counter, 2);
    assert_eq!(record.authority, key(AUTHORITY));
    assert_eq!(record.mint, key(MINT_Y));
    assert_eq!(record.key, Key::DelegatedIngredient);

    let effects = do_remove(&mut ledger, &first, &key(MINT_Y), IngredientType::MintTokenOutput).unwrap();
    assert!(!effects.iter().any(|effect| matches!(effect, Effect::TransferMintAuthority { .. })));
    assert_eq!(DelegatedIngredient::load(&ledger.get(&delegated)).unwrap().counter, 1);
    assert_eq!(ledger.mint(&key(MINT_Y)).mint_authority, COption::Some(outside(&delegated)));

    let effects = do_remove(&mut ledger, &second, &key(MINT_Y), IngredientType::MintTokenOutput).unwrap();
    assert!(effects.iter().any(|effect| matches!(
        effect,
        Effect::TransferMintAuthority { mint, from, to, .. }
            if *mint == key(MINT_Y) && *from == delegated && *to == key(AUTHORITY)
    )));
    assert!(effects.contains(&Effect::Close { target: delegated, receiver: key(PAYER) }));
    assert!(ledger.get(&delegated).data.is_empty());
    assert_eq!(ledger.mint(&key(MINT_Y)).mint_authority, COption::Some(outside(&key(AUTHORITY))));
}

#[test]
fn an_output_needs_the_mint_authority() {
    let mut ledger = world();
    let base = key(BASE);
    do_create(&mut ledger, &base).unwrap();
    ledger.put_mint(&key(MINT_Y), Some(key(OWNER)), 0);
    assert_eq!(
        do_add(&mut ledger, &base, &key(MINT_Y), 10, IngredientType::MintTokenOutput, None, None),
        Err(failure(TokenRecipesError::InvalidMintAuthority))
    );
    ledger.put_mint(&key(MINT_Y), None, 0);
    assert_eq!(
        do_add(&mut ledger, &base, &key(MINT_Y), 10, IngredientType::MintTokenOutput, None, None),
        Err(failure(TokenRecipesError::InvalidMintAuthority))
    );
    assert!(recipe_of(&ledger, &base).outputs.is_empty());
}

#[test]
fn fees_at_level_one_are_shared_and_collected() {
    let mut ledger = world_with_features();
    let base = key(BASE);
    let recipe = recipe_address(&base);
    do_create(&mut ledger, &base).unwrap();

    let effects =
        do_unlock(&mut ledger, &base, "fees", &key(FEE_TOKEN), &key(AUTHORITY_FEE_TOKEN)).unwrap();
    assert!(effects.contains(&Effect::BurnTokens {
        token: key(AUTHORITY_FEE_TOKEN),
        mint: key(FEE_TOKEN),
        owner: key(AUTHORITY),
        amount: 1,
        decimals: 0,
    }));
    assert_eq!(recipe_of(&ledger, &base).feature_levels.fees, 1);
    assert_eq!(ledger.token(&key(AUTHORITY_FEE_TOKEN)).amount, 0);

    do_activate(&mut ledger, &base).unwrap();
    do_craft(&mut ledger, &base, &[], 1).unwrap();
    let crafted = recipe_of(&ledger, &base);
    assert_eq!(crafted.accumulated_admin_fees, 18_000_000);
    assert_eq!(crafted.accumulated_shards, 18_000_000);
    assert_eq!(crafted.accumulated_experience, 100);
    assert_eq!(ledger.get(&recipe).lamports, rent(138) + 20_000_000);

    let authority_before = ledger.get(&key(AUTHORITY)).lamports;
    do_collect_fees(&mut ledger, &base).unwrap();
    let collected = recipe_of(&ledger, &base);
    assert_eq!(collected.accumulated_admin_fees, 0);
    assert_eq!(collected.accumulated_shards, 0);
    assert_eq!(collected.accumulated_experience, 100);
    assert_eq!(ledger.get(&key(ADMIN)).lamports, 18_000_000);
    assert_eq!(ledger.get(&key(AUTHORITY)).lamports, authority_before + 2_000_000);
    assert_eq!(ledger.get(&recipe).lamports, rent(138));
    assert_eq!(ledger.token(&key(AUTHORITY_SHARDS)).amount, 18_000_000);

    do_collect_experience(&mut ledger, &base).unwrap();
    assert_eq!(recipe_of(&ledger, &base).accumulated_experience, 0);
    assert_eq!(
        ledger.token(&associated_token_address(&key(AUTHORITY), &key(EXPERIENCE))).amount,
        100
    );
}

#[test]
fn a_feature_is_unlocked_by_its_tokens_only() {
    let mut ledger = world_with_features();
    let base = key(BASE);
    do_create(&mut ledger, &base).unwrap();
    ledger.put_token(&key(23), &key(MINT_X), &key(AUTHORITY), 5);
    assert_eq!(
        do_unlock(&mut ledger, &base, "fees", &key(MINT_X), &key(23)),
        Err(failure(TokenRecipesError::InvalidMintToLevelUpFeature))
    );
    do_unlock(&mut ledger, &base, "fees", &key(FEE_TOKEN), &key(AUTHORITY_FEE_TOKEN)).unwrap();
    assert_eq!(
        do_unlock(&mut ledger, &base, "fees", &key(FEE_TOKEN), &key(AUTHORITY_FEE_TOKEN)),
        Err(failure(TokenRecipesError::NotEnoughTokens))
    );
    ledger.put_token(&key(AUTHORITY_FEE_TOKEN), &key(FEE_TOKEN), &key(AUTHORITY), 1);
    assert_eq!(
        do_unlock(&mut ledger, &base, "fees", &key(FEE_TOKEN), &key(AUTHORITY_FEE_TOKEN)),
        Err(failure(TokenRecipesError::InvalidMintToLevelUpFeature))
    );
    assert_eq!(recipe_of(&ledger, &base).feature_levels.fees, 1);
}

#[test]
fn deleting_needs_an_empty_recipe_and_settles_it() {
    let mut ledger = world_with_features();
    let base = key(BASE);
    let recipe = recipe_address(&base);
    do_create(&mut ledger, &base).unwrap();
    do_add(&mut ledger, &base, &key(MINT_X), 5, IngredientType::BurnTokenInput, None, None).unwrap();
    do_activate(&mut ledger, &base).unwrap();
    do_craft(&mut ledger, &base, &[key(MINT_X), key(OWNER_X)], 2).unwrap();
    assert_eq!(recipe_of(&ledger, &base).accumulated_experience, 100);

    assert_eq!(
        do_delete(&mut ledger, &base),
        Err(failure(TokenRecipesError::RecipeMustBeEmptyBeforeItCanBeDeleted))
    );
    assert!(!ledger.get(&recipe).data.is_empty());

    do_remove(&mut ledger, &base, &key(MINT_X), IngredientType::BurnTokenInput).unwrap();
    let authority_before = ledger.get(&key(AUTHORITY)).lamports;
    let experience_token = associated_token_address(&key(AUTHORITY), &key(EXPERIENCE));
    let effects = do_delete(&mut ledger, &base).unwrap();

    let minted = effects
        .iter()
        .position(|effect| matches!(
            effect,
            Effect::MintTokens { mint, amount: 100, .. } if *mint == key(EXPERIENCE)
        ))
        .unwrap();
    let closed = effects
        .iter()
        .position(|effect| *effect == Effect::Close { target: recipe, receiver: key(AUTHORITY) })
        .unwrap();
    assert!(minted < closed);
    assert_eq!(closed, effects.len() - 1);
    assert_eq!(ledger.token(&experience_token).amount, 100);
    assert_eq!(ledger.get(&key(ADMIN)).lamports, BASE_FEES);
    assert!(ledger.get(&recipe).data.is_empty());
    assert_eq!(ledger.get(&recipe).lamports, 0);
    assert_eq!(ledger.get(&key(AUTHORITY)).lamports, authority_before + rent(138));
}

#[test]
fn instructions_are_decoded_and_dispatched() {
    let mut ledger = world();
    let base = key(BASE);
    let recipe = recipe_address(&base);
    let (system, _, _) = programs(&ledger);
    let accounts = vec![
        ledger.view(&base, true, false),
        ledger.writable(&recipe),
        ledger.readonly(&key(AUTHORITY)),
        ledger.signer(&key(PAYER)),
        system,
    ];
    let program = token_recipes::pubkey::id();
    let payload = TokenRecipesInstruction::CreateRecipe.serialize();
    let effects = match Processor::process_instruction(&program, &accounts, &payload, 0).unwrap() {
        Processed::Effects(effects) => effects,
        Processed::Crafting(_) => panic!("no craft was asked for"),
    };
    assert_eq!(effects, create_recipe(&accounts).unwrap());
    ledger.apply(&effects);

    let accounts =
        vec![ledger.writable(&recipe), ledger.view(&key(AUTHORITY), true, false)];
    let payload = TokenRecipesInstruction::ActivateRecipe.serialize();
    let activated = Processor::process_instruction(&program, &accounts, &payload, 0).unwrap();
    assert_eq!(activated, Processed::Effects(activate_recipe(&accounts).unwrap()));
    if let Processed::Effects(effects) = activated {
        ledger.apply(&effects);
    }
    assert_eq!(recipe_of(&ledger, &base).status, RecipeStatus::Active);

    let payload = TokenRecipesInstruction::SetFees { fees: 1 }.serialize();
    assert_eq!(
        Processor::process_instruction(&program, &accounts, &payload, 0),
        Err(failure(TokenRecipesError::InvalidFeesFeature))
    );
    assert_eq!(
        Processor::process_instruction(&program, &accounts, &[200], 0),
        Err(ProgramError::BorshIoError)
    );
    assert_eq!(
        Processor::process_instruction(&program, &accounts, &[], 0),
        Err(ProgramError::BorshIoError)
    );
    let payload = TokenRecipesInstruction::Craft { quantity: 1 }.serialize();
    assert_eq!(
        Processor::process_instruction(&program, &accounts, &payload, 0),
        Err(ProgramError::NotEnoughAccountKeys)
    );
    let accounts = craft_accounts(&ledger, &base, &[]);
    let payload = TokenRecipesInstruction::Craft { quantity: 4 }.serialize();
    assert_eq!(
        Processor::process_instruction(&program, &accounts, &payload, 0),
        Ok(Processed::Crafting(Crafting::new(recipe_of(&ledger, &base), 4)))
    );
}

#[test]
fn transferred_inputs_reach_their_destination() {
    let mut ledger = world_with_features();
    let base = key(BASE);
    do_create(&mut ledger, &base).unwrap();
    let transfers = token_recipes::state::features::transfer_inputs::TransferInputsFeature {
        key: Key::TransferInputsFeature,
        mint_burn_1: key(130),
        mint_burn_2: key(131),
        mint_burn_3: key(132),
        mint_skill_1: key(133),
        mint_skill_2: key(FEE_TOKEN),
    };
    do_set_feature(&mut ledger, Feature::TransferInputs(transfers), "transfer_inputs").unwrap();
    do_unlock(&mut ledger, &base, "transfer_inputs", &key(FEE_TOKEN), &key(AUTHORITY_FEE_TOKEN))
        .unwrap();
    assert_eq!(recipe_of(&ledger, &base).feature_levels.transfer_inputs, 3);
    assert_eq!(recipe_of(&ledger, &base).feature_levels.additional_outputs, 0);

    do_add(
        &mut ledger,
        &base,
        &key(MINT_X),
        4,
        IngredientType::TransferTokenInput,
        Some(key(ADMIN)),
        None,
    )
    .unwrap();
    assert_eq!(
        recipe_of(&ledger, &base).inputs,
        vec![IngredientInput::TransferToken { mint: key(MINT_X), amount: 4, destination: key(ADMIN) }]
    );
    do_activate(&mut ledger, &base).unwrap();

    let admin_x = associated_token_address(&key(ADMIN), &key(MINT_X));
    let rest = [key(MINT_X), key(OWNER_X), key(ADMIN), admin_x];
    let effects = do_craft(&mut ledger, &base, &rest, 5).unwrap();
    assert_eq!(
        effects[0],
        Effect::CreateAssociatedTokenAccount {
            token: admin_x,
            mint: key(MINT_X),
            owner: key(ADMIN),
            payer: key(PAYER),
        }
    );
    assert_eq!(
        effects[1],
        Effect::TransferTokens {
            mint: key(MINT_X),
            from_owner: key(OWNER),
            from_token: key(OWNER_X),
            to_token: admin_x,
            amount: 20,
            decimals: 0,
            signer_seeds: Vec::new(),
        }
    );
    assert_eq!(ledger.token(&admin_x).amount, 20);
    assert_eq!(ledger.token(&key(OWNER_X)).amount, 80);
    assert_eq!(ledger.mint(&key(MINT_X)).supply, 100);

    let effects = do_craft(&mut ledger, &base, &rest, 1).unwrap();
    assert!(matches!(effects[0], Effect::TransferTokens { amount: 4, .. }));
    assert_eq!(ledger.token(&admin_x).amount, 24);

    let wrong = [key(MINT_X), key(OWNER_X), key(OWNER), admin_x];
    assert_eq!(
        do_craft(&mut ledger, &base, &wrong, 1),
        Err(failure(TokenRecipesError::AccountMismatch))
    );
    assert_eq!(
        do_craft(&mut ledger, &base, &rest[..3], 1),
        Err(ProgramError::NotEnoughAccountKeys)
    );
}

#[test]
fn native_currency_is_paid_once_per_recipe() {
    let mut ledger = world_with_features();
    let base = key(BASE);
    do_create(&mut ledger, &base).unwrap();
    let payment = token_recipes::state::features::sol_payment::SolPaymentFeature {
        key: Key::SolPaymentFeature,
        mint_burn_1: key(140),
        mint_burn_2: key(141),
        mint_burn_3: key(142),
        mint_burn_4: key(143),
        mint_burn_5: key(144),
        mint_burn_6: key(145),
        mint_burn_7: key(146),
        mint_burn_8: key(147),
        mint_burn_9: key(148),
        mint_skill_1: key(FEE_TOKEN),
        mint_skill_2: key(149),
        mint_skill_3: key(150),
        mint_skill_4: key(151),
        mint_skill_5: key(152),
    };
    do_set_feature(&mut ledger, Feature::SolPayment(payment), "sol_payment").unwrap();
    do_unlock(&mut ledger, &base, "sol_payment", &key(FEE_TOKEN), &key(AUTHORITY_FEE_TOKEN)).unwrap();
    assert_eq!(recipe_of(&ledger, &base).feature_levels.sol_payment, 1);

    assert_eq!(
        do_add(
            &mut ledger,
            &base,
            &key(MINT_X),
            1_000_000_001,
            IngredientType::TransferSolInput,
            Some(key(ADMIN)),
            None
        ),
        Err(failure(TokenRecipesError::InvalidSolPaymentFeature))
    );
    let recipe = recipe_address(&base);
    let effects = do_add(
        &mut ledger,
        &base,
        &key(MINT_X),
        1_000_000_000,
        IngredientType::TransferSolInput,
        Some(key(ADMIN)),
        None,
    )
    .unwrap();
    assert_eq!(effects.len(), 2);
    assert!(ledger.get(&ingredient_record_address(&key(MINT_X), &recipe)).data.is_empty());
    assert_eq!(
        do_add(
            &mut ledger,
            &base,
            &key(MINT_X),
            1,
            IngredientType::TransferSolInput,
            Some(key(OWNER)),
            None
        ),
        Err(failure(TokenRecipesError::IngredientAlreadyAdded))
    );

    do_activate(&mut ledger, &base).unwrap();
    let payer_before = ledger.get(&key(PAYER)).lamports;
    let effects = do_craft(&mut ledger, &base, &[key(ADMIN)], 2).unwrap();
    assert_eq!(
        effects[0],
        Effect::TransferLamports {
            from: key(PAYER),
            to: key(ADMIN),
            lamports: 2_000_000_000,
            signer_seeds: Vec::new(),
        }
    );
    assert_eq!(ledger.get(&key(ADMIN)).lamports, 2_000_000_000);
    assert_eq!(ledger.get(&key(PAYER)).lamports, payer_before - 2_000_000_000 - BASE_FEES);

    do_remove(&mut ledger, &base, &key(MINT_Y), IngredientType::TransferSolInput).unwrap();
    assert!(recipe_of(&ledger, &base).inputs.is_empty());
    assert_eq!(
        do_remove(&mut ledger, &base, &key(MINT_Y), IngredientType::TransferSolInput),
        Err(failure(TokenRecipesError::MissingIngredient))
    );
}

#[test]
fn custom_fees_are_set_from_level_ten() {
    let mut ledger = world_with_features();
    let base = key(BASE);
    let recipe = recipe_address(&base);
    do_create(&mut ledger, &base).unwrap();
    let mut fees = fees_feature();
    fees.mint_skill_2 = key(FEE_TOKEN);
    fees.mint_burn_1 = key(160);
    do_set_feature(&mut ledger, Feature::Fees(fees), "fees").unwrap();
    do_unlock(&mut ledger, &base, "fees", &key(FEE_TOKEN), &key(AUTHORITY_FEE_TOKEN)).unwrap();
    let unlocked = recipe_of(&ledger, &base);
    assert_eq!(unlocked.feature_levels.fees, 10);
    assert_eq!(unlocked.fees, BASE_FEES);
    assert_eq!(ledger.token(&key(AUTHORITY_FEE_TOKEN)).amount, 1);

    let accounts = vec![ledger.writable(&recipe), ledger.view(&key(AUTHORITY), true, false)];
    let effects = set_fees(&accounts, 1_000).unwrap();
    ledger.apply(&effects);
    assert_eq!(recipe_of(&ledger, &base).fees, 1_000);

    do_activate(&mut ledger, &base).unwrap();
    do_craft(&mut ledger, &base, &[], 7).unwrap();
    let crafted = recipe_of(&ledger, &base);
    assert_eq!(crafted.accumulated_admin_fees, 100);
    assert_eq!(crafted.accumulated_shards, 0);
    assert_eq!(crafted.accumulated_experience, 0);
    assert_eq!(crafted.total_crafts, 1);
    assert_eq!(crafted.total_crafts_with_quantity, 7);
    assert_eq!(ledger.get(&recipe).lamports, rent(138) + 1_000);
}

#[test]
fn fees_are_collected_only_where_they_are_covered() {
    let mut ledger = world_with_features();
    let base = key(BASE);
    let recipe = recipe_address(&base);
    do_create(&mut ledger, &base).unwrap();
    do_activate(&mut ledger, &base).unwrap();
    do_craft(&mut ledger, &base, &[], 1).unwrap();
    ledger.fund(&recipe, rent(138) + BASE_FEES - 1);
    assert_eq!(
        do_collect_fees(&mut ledger, &base),
        Err(failure(TokenRecipesError::NumericalOverflow))
    );
    ledger.fund(&recipe, rent(138) - 1);
    assert_eq!(
        do_collect_fees(&mut ledger, &base),
        Err(failure(TokenRecipesError::NumericalOverflow))
    );
    ledger.fund(&recipe, rent(138) + BASE_FEES + 5);
    let authority_before = ledger.get(&key(AUTHORITY)).lamports;
    let effects = do_collect_fees(&mut ledger, &base).unwrap();
    assert_eq!(effects.len(), 4);
    assert_eq!(ledger.get(&key(AUTHORITY)).lamports, authority_before + 5);
    assert_eq!(ledger.get(&key(ADMIN)).lamports, BASE_FEES);
    assert_eq!(ledger.token(&key(AUTHORITY_SHARDS)).amount, 0);
}

#[test]
fn a_feature_is_set_by_the_program_only() {
    let mut ledger = world();
    let (system, _, _) = programs(&ledger);
    let feature = Feature::Wisdom(wisdom_feature());
    let accounts = vec![
        ledger.view(&key(AUTHORITY), true, false),
        ledger.writable(&feature_address("wisdom")),
        ledger.signer(&key(PAYER)),
        system.clone(),
    ];
    assert_eq!(
        admin_set_feature(&accounts, feature),
        Err(failure(TokenRecipesError::AccountMismatch))
    );
    let accounts = vec![
        ledger.view(&token_recipes::pubkey::id(), false, false),
        ledger.writable(&feature_address("wisdom")),
        ledger.signer(&key(PAYER)),
        system.clone(),
    ];
    assert_eq!(
        admin_set_feature(&accounts, feature),
        Err(failure(TokenRecipesError::ExpectedSignerAccount))
    );
    let accounts = vec![
        ledger.view(&token_recipes::pubkey::id(), true, false),
        ledger.writable(&feature_address("fees")),
        ledger.signer(&key(PAYER)),
        system.clone(),
    ];
    assert_eq!(admin_set_feature(&accounts, feature), Err(failure(TokenRecipesError::InvalidPda)));
    let mut mislabelled = wisdom_feature();
    mislabelled.key = Key::FeesFeature;
    assert_eq!(
        admin_set_feature(&accounts, Feature::Wisdom(mislabelled)),
        Err(failure(TokenRecipesError::InvalidAccountKey))
    );

    let effects = do_set_feature(&mut ledger, feature, "wisdom").unwrap();
    assert_eq!(effects.len(), 2);
    let mut changed = wisdom_feature();
    changed.mint_burn_1 = key(99);
    let effects = do_set_feature(&mut ledger, Feature::Wisdom(changed), "wisdom").unwrap();
    assert_eq!(effects.len(), 1);
    assert_eq!(
        Feature::load(&ledger.get(&feature_address("wisdom"))),
        Ok(Feature::Wisdom(changed))
    );
}

#[test]
fn the_roles_of_a_token_are_recorded_one_by_one() {
    let mut record = IngredientRecord {
        key: Key::IngredientRecord,
        input: false,
        output: false,
        mint: key(MINT_X),
        recipe: key(50),
    };
    assert!(record.should_be_closed());
    assert_eq!(record.set_input(false), Err(failure(TokenRecipesError::MissingIngredient)));
    assert_eq!(record.set_input(true), Ok(()));
    assert_eq!(record.set_input(true), Err(failure(TokenRecipesError::IngredientAlreadyAdded)));
    assert_eq!(record.set_output(false), Err(failure(TokenRecipesError::MissingIngredient)));
    assert_eq!(record.set_output(true), Ok(()));
    assert_eq!(record.set_output(true), Err(failure(TokenRecipesError::IngredientAlreadyAdded)));
    assert!(!record.should_be_closed());
    assert_eq!(record.set_input(false), Ok(()));
    assert!(!record.should_be_closed());
    assert_eq!(record.set_output(false), Ok(()));
    assert!(record.should_be_closed());
}

#[test]
fn the_counter_never_goes_below_zero() {
    let mut ledger = world();
    let delegated = delegated_ingredient_address(&key(MINT_Y));
    let record = DelegatedIngredient {
        key: Key::DelegatedIngredient,
        mint: key(MINT_Y),
        authority: key(AUTHORITY),
        counter: 0,
    };
    ledger.put(&delegated, &token_recipes::pubkey::id(), record.serialize());
    let result = DelegatedIngredient::close_or_decrement(
        &ledger.writable(&delegated),
        &ledger.writable(&key(MINT_Y)),
        &ledger.signer(&key(AUTHORITY)),
        &ledger.signer(&key(PAYER)),
    );
    assert_eq!(result, Err(failure(TokenRecipesError::NumericalOverflow)));

    let full = DelegatedIngredient { counter: u32::MAX, ..record };
    ledger.put(&delegated, &token_recipes::pubkey::id(), full.serialize());
    let result = DelegatedIngredient::create_or_increment(
        &ledger.writable(&delegated),
        &ledger.writable(&key(MINT_Y)),
        &ledger.signer(&key(AUTHORITY)),
        &ledger.signer(&key(PAYER)),
    );
    assert_eq!(result, Err(failure(TokenRecipesError::NumericalOverflow)));

    let stranger = DelegatedIngredient::get(
        &ledger.writable(&delegated),
        &ledger.writable(&key(MINT_Y)),
        &ledger.signer(&key(OWNER)),
    );
    assert_eq!(stranger, Err(failure(TokenRecipesError::AccountMismatch)));
    assert_eq!(full.serialize().len(), DelegatedIngredient::LEN);
    assert!(record.should_be_closed());
    assert!(!full.should_be_closed());
}

#[test]
fn the_first_ingredient_that_is_named_is_found() {
    let mut recipe = Recipe::new(key(BASE), key(AUTHORITY));
    recipe.inputs.push(IngredientInput::TransferSol { lamports: 1, destination: key(9) });
    recipe.inputs.push(IngredientInput::BurnToken { mint: key(MINT_X), amount: 1 });
    recipe.inputs.push(IngredientInput::TransferToken {
        mint: key(MINT_X),
        amount: 2,
        destination: key(9),
    });
    recipe.outputs.push(IngredientOutput::MintToken { mint: key(MINT_Y), amount: 3 });
    let ledger = world();
    let x = ledger.readonly(&key(MINT_X));
    let y = ledger.readonly(&key(MINT_Y));

    assert_eq!(
        recipe.find_ingredient(IngredientType::TransferTokenInput, &x),
        Ok((Ingredient::Input(recipe.inputs[1]), 1))
    );
    assert_eq!(
        recipe.find_ingredient(IngredientType::BurnTokenInput, &x),
        Ok((Ingredient::Input(recipe.inputs[1]), 1))
    );
    assert_eq!(
        recipe.find_ingredient(IngredientType::TransferSolInput, &x),
        Ok((Ingredient::Input(recipe.inputs[0]), 0))
    );
    assert_eq!(
        recipe.find_ingredient(IngredientType::MintTokenWithMaxSupplyOutput, &y),
        Ok((Ingredient::Output(recipe.outputs[0]), 0))
    );
    assert_eq!(
        recipe.find_ingredient(IngredientType::MintTokenOutput, &x),
        Err(failure(TokenRecipesError::MissingIngredient))
    );
    assert_eq!(
        recipe.find_ingredient(IngredientType::BurnTokenInput, &y),
        Err(failure(TokenRecipesError::MissingIngredient))
    );
    assert_eq!(recipe.assert_active(), Err(failure(TokenRecipesError::RecipeIsNotActive)));
}

#[test]
fn the_maximum_supply_is_held_against_the_supply_as_it_stands() {
    let mut ledger = world_with_features();
    let base = key(BASE);
    do_create(&mut ledger, &base).unwrap();
    let max_supply = token_recipes::state::features::max_supply::MaxSupplyFeature {
        key: Key::MaxSupplyFeature,
        mint_burn_1: key(121),
        mint_skill_1: key(FEE_TOKEN),
    };
    do_set_feature(&mut ledger, Feature::MaxSupply(max_supply), "max_supply").unwrap();
    do_unlock(&mut ledger, &base, "max_supply", &key(FEE_TOKEN), &key(AUTHORITY_FEE_TOKEN)).unwrap();
    do_add(&mut ledger, &base, &key(MINT_X), 5, IngredientType::BurnTokenInput, None, None).unwrap();
    do_add(
        &mut ledger,
        &base,
        &key(MINT_X),
        5,
        IngredientType::MintTokenWithMaxSupplyOutput,
        None,
        Some(100),
    )
    .unwrap();
    do_activate(&mut ledger, &base).unwrap();
    assert_eq!(ledger.mint(&key(MINT_X)).supply, 100);

    let rest = [
        key(MINT_X),
        key(OWNER_X),
        key(MINT_X),
        key(OWNER_X),
        delegated_ingredient_address(&key(MINT_X)),
    ];
    do_craft(&mut ledger, &base, &rest, 1).unwrap();
    assert_eq!(ledger.mint(&key(MINT_X)).supply, 100);
    assert_eq!(ledger.token(&key(OWNER_X)).amount, 100);
    assert_eq!(recipe_of(&ledger, &base).total_crafts, 1);

    let mut crafting = craft(&craft_accounts(&ledger, &base, &rest), 2).unwrap();
    let burned = crafting.step(&craft_accounts(&ledger, &base, &rest)).unwrap();
    ledger.apply(&burned);
    assert_eq!(ledger.mint(&key(MINT_X)).supply, 90);
    ledger.put_mint(&key(MINT_X), Some(delegated_ingredient_address(&key(MINT_X))), 91);
    assert_eq!(
        crafting.step(&craft_accounts(&ledger, &base, &rest)),
        Err(failure(TokenRecipesError::MaximumSupplyReached))
    );
}

#[test]
fn removing_what_was_added_brings_everything_back() {
    let mut ledger = world();
    let base = key(BASE);
    let recipe = recipe_address(&base);
    do_create(&mut ledger, &base).unwrap();
    do_add(&mut ledger, &base, &key(MINT_X), 5, IngredientType::BurnTokenInput, None, None).unwrap();

    let watched = [
        recipe,
        key(PAYER),
        key(AUTHORITY),
        key(MINT_X),
        key(MINT_Y),
        ingredient_record_address(&key(MINT_X), &recipe),
        ingredient_record_address(&key(MINT_Y), &recipe),
        delegated_ingredient_address(&key(MINT_X)),
        delegated_ingredient_address(&key(MINT_Y)),
    ];
    let before: Vec<AccountInfo> = watched.iter().map(|address| ledger.get(address)).collect();

    do_add(&mut ledger, &base, &key(MINT_Y), 10, IngredientType::MintTokenOutput, None, None).unwrap();
    assert_ne!(ledger.get(&recipe), before[0]);
    do_remove(&mut ledger, &base, &key(MINT_Y), IngredientType::MintTokenOutput).unwrap();
    let after: Vec<AccountInfo> = watched.iter().map(|address| ledger.get(address)).collect();
    assert_eq!(after, before);

    do_add(&mut ledger, &base, &key(MINT_X), 1, IngredientType::MintTokenOutput, None, None).unwrap();
    let with_output: Vec<AccountInfo> = watched.iter().map(|address| ledger.get(address)).collect();
    do_remove(&mut ledger, &base, &key(MINT_X), IngredientType::BurnTokenInput).unwrap();
    do_add(&mut ledger, &base, &key(MINT_X), 5, IngredientType::BurnTokenInput, None, None).unwrap();
    do_remove(&mut ledger, &base, &key(MINT_X), IngredientType::MintTokenOutput).unwrap();
    let after: Vec<AccountInfo> = watched.iter().map(|address| ledger.get(address)).collect();
    assert_ne!(with_output, before);
    assert_eq!(after, before);
}
