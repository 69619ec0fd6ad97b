//! The instructions of the program as they travel: their payloads, and the
//! records that each names.

use vstd::prelude::*;
use vstd::bytes::spec_u64_to_le_bytes;
use vstd::slice::slice_subrange;
use crate::codec::{
    lemma_option_pubkey_round_trip, lemma_option_u64_round_trip, lemma_u64_round_trip,
    option_pubkey_at, option_u64_at, put_option_pubkey, put_option_u64, put_u64, put_u8,
    spec_option_pubkey_at, spec_option_pubkey_bytes, spec_option_u64_at, spec_option_u64_bytes,
    spec_u64_at, u64_at,
};
use crate::error::ProgramError;
use crate::pubkey::{
    id, program_id, system_program, system_program_id, token_program, token_program_id, Pubkey,
};
use crate::state::features::{lemma_feature_round_trip, Feature};
use crate::state::recipe::IngredientType;

verus! {

/// What the program can be asked to do.
#[derive(Clone, Copy, Debug, PartialEq, Eq)]
pub enum TokenRecipesInstruction {
    /// Create a new empty recipe.
    CreateRecipe,
    /// Add an ingredient to a recipe. Where it is an output, the mint
    /// authority of its token is handed over to the program.
    AddIngredient {
        /// Which input or output ingredient to add.
        ingredient_type: IngredientType,
        /// The amount of tokens required if it is an input, or minted if it
        /// is an output.
        amount: u64,
        /// Where an input that is transferred goes.
        destination: Option<Pubkey>,
        /// The most tokens that may ever exist of an output.
        max_supply: Option<u64>,
    },
    /// Remove an ingredient from a recipe. Where it is an output and no
    /// other recipe mints its token, the mint authority is handed back.
    RemoveIngredient {
        /// Which input or output ingredient to remove.
        ingredient_type: IngredientType,
    },
    /// Activate a recipe.
    ActivateRecipe,
    /// Pause a recipe.
    PauseRecipe,
    /// Craft a recipe.
    Craft {
        /// The number of times to craft the recipe.
        quantity: u64,
    },
    /// Delete a recipe.
    DeleteRecipe,
    /// Set the configuration of a feature. For the admin of the program.
    AdminSetFeature {
        /// The configuration to set.
        feature: Feature,
    },
    /// Level a feature of a recipe up by burning or holding a token.
    UnlockFeature,
    /// Set the custom fee of a recipe.
    SetFees { fees: u64 },
    /// Collect the fees and shards that a recipe earned.
    CollectFees,
    /// Collect the experience that a recipe earned.
    CollectExperience,
}

impl TokenRecipesInstruction {
    /// The payload of the instruction: the tag of the variant, then its
    /// fields in order.
    pub open spec fn spec_serialize(self) -> Seq<u8> {
        match self {
            TokenRecipesInstruction::CreateRecipe => seq![0u8],
            TokenRecipesInstruction::AddIngredient {
                ingredient_type,
                amount,
                destination,
                max_supply,
            } => seq![1u8, ingredient_type.spec_byte()] + spec_u64_to_le_bytes(amount)
                + spec_option_pubkey_bytes(destination) + spec_option_u64_bytes(max_supply),
            TokenRecipesInstruction::RemoveIngredient { ingredient_type } => seq![
                2u8,
                ingredient_type.spec_byte(),
            ],
            TokenRecipesInstruction::ActivateRecipe => seq![3u8],
            TokenRecipesInstruction::PauseRecipe => seq![4u8],
            TokenRecipesInstruction::Craft { quantity } => seq![5u8] + spec_u64_to_le_bytes(
                quantity,
            ),
            TokenRecipesInstruction::DeleteRecipe => seq![6u8],
            TokenRecipesInstruction::AdminSetFeature { feature } => seq![7u8]
                + feature.spec_serialize(),
            TokenRecipesInstruction::UnlockFeature => seq![8u8],
            TokenRecipesInstruction::SetFees { fees } => seq![9u8] + spec_u64_to_le_bytes(fees),
            TokenRecipesInstruction::CollectFees => seq![10u8],
            TokenRecipesInstruction::CollectExperience => seq![11u8],
        }
    }

    /// The instruction that a payload starts with, and the number of bytes
    /// that it takes; `None` where the payload starts with none.
    pub open spec fn spec_parse(data: Seq<u8>) -> Option<(TokenRecipesInstruction, int)> {
        if data.len() == 0 {
            None
        } else {
            match data[0] {
                0 => Some((TokenRecipesInstruction::CreateRecipe, 1)),
                1 => if data.len() < 10 {
                    None
                } else {
                    match IngredientType::spec_from_byte(data[1]) {
                        None => None,
                        Some(ingredient_type) => match spec_option_pubkey_at(data, 10) {
                            None => None,
                            Some((destination, next)) => match spec_option_u64_at(data, next) {
                                None => None,
                                Some((max_supply, end)) => Some(
                                    (
                                        TokenRecipesInstruction::AddIngredient {
                                            ingredient_type,
                                            amount: spec_u64_at(data, 2),
                                            destination,
                                            max_supply,
                                        },
                                        end,
                                    ),
                                ),
                            },
                        },
                    }
                },
                2 => if data.len() < 2 {
                    None
                } else {
                    match IngredientType::spec_from_byte(data[1]) {
                        None => None,
                        Some(ingredient_type) => Some(
                            (TokenRecipesInstruction::RemoveIngredient { ingredient_type }, 2),
                        ),
                    }
                },
                3 => Some((TokenRecipesInstruction::ActivateRecipe, 1)),
                4 => Some((TokenRecipesInstruction::PauseRecipe, 1)),
                5 => if data.len() < 9 {
                    None
                } else {
                    Some((TokenRecipesInstruction::Craft { quantity: spec_u64_at(data, 1) }, 9))
                },
                6 => Some((TokenRecipesInstruction::DeleteRecipe, 1)),
                7 => match Feature::spec_parse(data.subrange(1, data.len() as int)) {
                    None => None,
                    Some((feature, len)) => Some(
                        (TokenRecipesInstruction::AdminSetFeature { feature }, (1 + len) as int),
                    ),
                },
                8 => Some((TokenRecipesInstruction::UnlockFeature, 1)),
                9 => if data.len() < 9 {
                    None
                } else {
                    Some((TokenRecipesInstruction::SetFees { fees: spec_u64_at(data, 1) }, 9))
                },
                10 => Some((TokenRecipesInstruction::CollectFees, 1)),
                11 => Some((TokenRecipesInstruction::CollectExperience, 1)),
                _ => None,
            }
        }
    }

    /// The instruction that a payload holds: the payload must start with an
    /// instruction and hold nothing behind it, else `BorshIoError`.
    pub open spec fn spec_try_from_slice(data: Seq<u8>) -> Result<
        TokenRecipesInstruction,
        ProgramError,
    > {
        match TokenRecipesInstruction::spec_parse(data) {
            Some((instruction, len)) => if len == data.len() {
                Ok(instruction)
            } else {
                Err(ProgramError::BorshIoError)
            },
            None => Err(ProgramError::BorshIoError),
        }
    }

    /// The payload of the instruction.
    pub fn serialize(&self) -> (bytes: Vec<u8>)
        ensures
            bytes@ == self.spec_serialize(),
    {
        let mut out: Vec<u8> = Vec::new();
        match self {
            TokenRecipesInstruction::CreateRecipe => {
                put_u8(&mut out, 0);
            },
            TokenRecipesInstruction::AddIngredient {
                ingredient_type,
                amount,
                destination,
                max_supply,
            } => {
                put_u8(&mut out, 1);
                put_u8(&mut out, ingredient_type.to_byte());
                put_u64(&mut out, *amount);
                put_option_pubkey(&mut out, destination);
                put_option_u64(&mut out, *max_supply);
            },
            TokenRecipesInstruction::RemoveIngredient { ingredient_type } => {
                put_u8(&mut out, 2);
                put_u8(&mut out, ingredient_type.to_byte());
            },
            TokenRecipesInstruction::ActivateRecipe => {
                put_u8(&mut out, 3);
            },
            TokenRecipesInstruction::PauseRecipe => {
                put_u8(&mut out, 4);
            },
            TokenRecipesInstruction::Craft { quantity } => {
                put_u8(&mut out, 5);
                put_u64(&mut out, *quantity);
            },
            TokenRecipesInstruction::DeleteRecipe => {
                put_u8(&mut out, 6);
            },
            TokenRecipesInstruction::AdminSetFeature { feature } => {
                put_u8(&mut out, 7);
                let mut record = feature.serialize();
                out.append(&mut record);
            },
            TokenRecipesInstruction::UnlockFeature => {
                put_u8(&mut out, 8);
            },
            TokenRecipesInstruction::SetFees { fees } => {
                put_u8(&mut out, 9);
                put_u64(&mut out, *fees);
            },
            TokenRecipesInstruction::CollectFees => {
                put_u8(&mut out, 10);
            },
            TokenRecipesInstruction::CollectExperience => {
                put_u8(&mut out, 11);
            },
        }
        assert(out@ =~= self.spec_serialize());
        out
    }

    /// The instruction that a payload starts with, and the number of bytes
    /// that it takes.
    pub fn deserialize(data: &[u8]) -> (parsed: Option<(TokenRecipesInstruction, usize)>)
        ensures
            match parsed {
                Some((instruction, len)) => TokenRecipesInstruction::spec_parse(data@) == Some(
                    (instruction, len as int),
                ),
                None => TokenRecipesInstruction::spec_parse(data@) is None,
            },
    {
        let len = data.len();
        if len == 0 {
            return None;
        }
        match data[0] {
            0 => Some((TokenRecipesInstruction::CreateRecipe, 1)),
            1 => {
                if len < 10 {
                    return None;
                }
                let ingredient_type = match IngredientType::from_byte(data[1]) {
                    Some(kind) => kind,
                    None => { return None; },
                };
                let amount = u64_at(data, 2);
                let (destination, next) = match option_pubkey_at(data, 10) {
                    Some(read) => read,
                    None => { return None; },
                };
                let (max_supply, end) = match option_u64_at(data, next) {
                    Some(read) => read,
                    None => { return None; },
                };
                Some(
                    (
                        TokenRecipesInstruction::AddIngredient {
                            ingredient_type,
                            amount,
                            destination,
                            max_supply,
                        },
                        end,
                    ),
                )
            },
            2 => {
                if len < 2 {
                    return None;
                }
                match IngredientType::from_byte(data[1]) {
                    Some(ingredient_type) => Some(
                        (TokenRecipesInstruction::RemoveIngredient { ingredient_type }, 2),
                    ),
                    None => None,
                }
            },
            3 => Some((TokenRecipesInstruction::ActivateRecipe, 1)),
            4 => Some((TokenRecipesInstruction::PauseRecipe, 1)),
            5 => {
                if len < 9 {
                    return None;
                }
                Some((TokenRecipesInstruction::Craft { quantity: u64_at(data, 1) }, 9))
            },
            6 => Some((TokenRecipesInstruction::DeleteRecipe, 1)),
            7 => match Feature::deserialize(slice_subrange(data, 1, len)) {
                Some((feature, taken)) => Some(
                    (TokenRecipesInstruction::AdminSetFeature { feature }, 1 + taken),
                ),
                None => None,
            },
            8 => Some((TokenRecipesInstruction::UnlockFeature, 1)),
            9 => {
                if len < 9 {
                    return None;
                }
                Some((TokenRecipesInstruction::SetFees { fees: u64_at(data, 1) }, 9))
            },
            10 => Some((TokenRecipesInstruction::CollectFees, 1)),
            11 => Some((TokenRecipesInstruction::CollectExperience, 1)),
            _ => None,
        }
    }

    /// The instruction that a payload holds.
    pub fn try_from_slice(data: &[u8]) -> (result: Result<TokenRecipesInstruction, ProgramError>)
        ensures
            result == TokenRecipesInstruction::spec_try_from_slice(data@),
    {
        match TokenRecipesInstruction::deserialize(data) {
            Some((instruction, len)) => {
                if len == data.len() {
                    Ok(instruction)
                } else {
                    Err(ProgramError::BorshIoError)
                }
            },
            None => Err(ProgramError::BorshIoError),
        }
    }
}

/// An instruction that was written into a payload is the instruction that
/// the payload holds.
pub proof fn lemma_instruction_round_trip(instruction: TokenRecipesInstruction)
    ensures
        TokenRecipesInstruction::spec_try_from_slice(instruction.spec_serialize()) == Ok::<
            TokenRecipesInstruction,
            ProgramError,
        >(instruction),
{
    let all = instruction.spec_serialize();
    match instruction {
        TokenRecipesInstruction::AddIngredient {
            ingredient_type,
            amount,
            destination,
            max_supply,
        } => {
            let head = seq![1u8, ingredient_type.spec_byte()];
            let le = spec_u64_to_le_bytes(amount);
            let to = spec_option_pubkey_bytes(destination);
            let max = spec_option_u64_bytes(max_supply);
            assert(all =~= head + le + (to + max));
            lemma_u64_round_trip(head, amount, to + max);
            assert(all =~= (head + le) + to + max);
            lemma_option_pubkey_round_trip(head + le, destination, max);
            assert(all =~= (head + le + to) + max + Seq::<u8>::empty());
            lemma_option_u64_round_trip(head + le + to, max_supply, Seq::empty());
            assert(all[0] == 1u8);
            assert(all[1] == ingredient_type.spec_byte());
        },
        TokenRecipesInstruction::RemoveIngredient { ingredient_type } => {
            assert(all[0] == 2u8);
            assert(all[1] == ingredient_type.spec_byte());
        },
        TokenRecipesInstruction::Craft { quantity } => {
            assert(all =~= seq![5u8] + spec_u64_to_le_bytes(quantity) + Seq::<u8>::empty());
            lemma_u64_round_trip(seq![5u8], quantity, Seq::empty());
            assert(all[0] == 5u8);
        },
        TokenRecipesInstruction::AdminSetFeature { feature } => {
            lemma_feature_round_trip(feature, Seq::empty());
            assert(all.subrange(1, all.len() as int) =~= feature.spec_serialize()
                + Seq::<u8>::empty());
            assert(all[0] == 7u8);
        },
        TokenRecipesInstruction::SetFees { fees } => {
            assert(all =~= seq![9u8] + spec_u64_to_le_bytes(fees) + Seq::<u8>::empty());
            lemma_u64_round_trip(seq![9u8], fees, Seq::empty());
            assert(all[0] == 9u8);
        },
        _ => {
            assert(all.len() == 1);
        },
    }
}

/// A record that an instruction names, and what the instruction needs of
/// it.
#[derive(Clone, Copy, Debug, PartialEq, Eq)]
pub struct AccountMeta {
    pub pubkey: Pubkey,
    pub is_signer: bool,
    pub is_writable: bool,
}

impl AccountMeta {
    /// A record that the instruction writes to.
    pub fn new(pubkey: Pubkey, is_signer: bool) -> (meta: AccountMeta)
        ensures
            meta == (AccountMeta { pubkey, is_signer, is_writable: true }),
    {
        AccountMeta { pubkey, is_signer, is_writable: true }
    }

    /// A record that the instruction only reads.
    pub fn new_readonly(pubkey: Pubkey, is_signer: bool) -> (meta: AccountMeta)
        ensures
            meta == (AccountMeta { pubkey, is_signer, is_writable: false }),
    {
        AccountMeta { pubkey, is_signer, is_writable: false }
    }
}

/// An instruction ready to be sent: the program it is for, the records it
/// names, and its payload.
#[derive(Clone, Debug, PartialEq, Eq)]
pub struct Instruction {
    pub program_id: Pubkey,
    pub accounts: Vec<AccountMeta>,
    pub data: Vec<u8>,
}

/// The instruction that creates the recipe of `base`: the base signs, the
/// record of the recipe is written, the authority is only named, and the
/// payer signs and pays.
pub fn create_recipe(
    base: &Pubkey,
    recipe: &Pubkey,
    authority: &Pubkey,
    payer: &Pubkey,
) -> (instruction:
    Instruction)
    ensures
        instruction.program_id == program_id(),
        instruction.accounts@ == seq![
            AccountMeta { pubkey: *base, is_signer: true, is_writable: false },
            AccountMeta { pubkey: *recipe, is_signer: false, is_writable: true },
            AccountMeta { pubkey: *authority, is_signer: false, is_writable: false },
            AccountMeta { pubkey: *payer, is_signer: true, is_writable: true },
            AccountMeta { pubkey: system_program_id(), is_signer: false, is_writable: false },
        ],
        instruction.data@ == TokenRecipesInstruction::CreateRecipe.spec_serialize(),
{
    let mut accounts: Vec<AccountMeta> = Vec::new();
    accounts.push(AccountMeta::new_readonly(*base, true));
    accounts.push(AccountMeta::new(*recipe, false));
    accounts.push(AccountMeta::new_readonly(*authority, false));
    accounts.push(AccountMeta::new(*payer, true));
    accounts.push(AccountMeta::new_readonly(system_program(), false));
    let instruction = Instruction {
        program_id: id(),
        accounts,
        data: TokenRecipesInstruction::CreateRecipe.serialize(),
    };
    assert(instruction.accounts@ =~= seq![
        AccountMeta { pubkey: *base, is_signer: true, is_writable: false },
        AccountMeta { pubkey: *recipe, is_signer: false, is_writable: true },
        AccountMeta { pubkey: *authority, is_signer: false, is_writable: false },
        AccountMeta { pubkey: *payer, is_signer: true, is_writable: true },
        AccountMeta { pubkey: system_program_id(), is_signer: false, is_writable: false },
    ]);
    instruction
}

/// The instruction that adds an ingredient to a recipe. The record of the
/// recipe, the mint, the record of the token and the recipe, and the record
/// that holds the mint authority are written; the authority signs; the
/// payer signs and pays. Where no record holds a mint authority, as for an
/// input, the program itself is named in its place.
pub fn add_ingredient(
    recipe: &Pubkey,
    mint: &Pubkey,
    ingredient_record: &Pubkey,
    delegated_ingredient: Option<&Pubkey>,
    authority: &Pubkey,
    payer: &Pubkey,
    amount: u64,
    ingredient_type: IngredientType,
    destination: Option<Pubkey>,
    max_supply: Option<u64>,
) -> (instruction: Instruction)
    ensures
        instruction.program_id == program_id(),
        instruction.accounts@ == seq![
            AccountMeta { pubkey: *recipe, is_signer: false, is_writable: true },
            AccountMeta { pubkey: *mint, is_signer: false, is_writable: true },
            AccountMeta { pubkey: *ingredient_record, is_signer: false, is_writable: true },
            AccountMeta {
                pubkey: match delegated_ingredient {
                    Some(key) => *key,
                    None => program_id(),
                },
                is_signer: false,
                is_writable: true,
            },
            AccountMeta { pubkey: *authority, is_signer: true, is_writable: false },
            AccountMeta { pubkey: *payer, is_signer: true, is_writable: true },
            AccountMeta { pubkey: system_program_id(), is_signer: false, is_writable: false },
            AccountMeta { pubkey: token_program_id(), is_signer: false, is_writable: false },
        ],
        instruction.data@ == (TokenRecipesInstruction::AddIngredient {
            ingredient_type,
            amount,
            destination,
            max_supply,
        }).spec_serialize(),
{
    let delegated = match delegated_ingredient {
        Some(key) => *key,
        None => id(),
    };
    let mut accounts: Vec<AccountMeta> = Vec::new();
    accounts.push(AccountMeta::new(*recipe, false));
    accounts.push(AccountMeta::new(*mint, false));
    accounts.push(AccountMeta::new(*ingredient_record, false));
    accounts.push(AccountMeta::new(delegated, false));
    accounts.push(AccountMeta::new_readonly(*authority, true));
    accounts.push(AccountMeta::new(*payer, true));
    accounts.push(AccountMeta::new_readonly(system_program(), false));
    accounts.push(AccountMeta::new_readonly(token_program(), false));
    let instruction = Instruction {
        program_id: id(),
        accounts,
        data: (TokenRecipesInstruction::AddIngredient {
            ingredient_type,
            amount,
            destination,
            max_supply,
        }).serialize(),
    };
    assert(instruction.accounts@ =~= seq![
        AccountMeta { pubkey: *recipe, is_signer: false, is_writable: true },
        AccountMeta { pubkey: *mint, is_signer: false, is_writable: true },
        AccountMeta { pubkey: *ingredient_record, is_signer: false, is_writable: true },
        AccountMeta { pubkey: delegated, is_signer: false, is_writable: true },
        AccountMeta { pubkey: *authority, is_signer: true, is_writable: false },
        AccountMeta { pubkey: *payer, is_signer: true, is_writable: true },
        AccountMeta { pubkey: system_program_id(), is_signer: false, is_writable: false },
        AccountMeta { pubkey: token_program_id(), is_signer: false, is_writable: false },
    ]);
    instruction
}

} // verus!
