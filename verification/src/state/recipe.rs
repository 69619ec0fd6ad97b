//! The recipe: what it consumes, what it produces, who may change it, and
//! what it has earned.

use vstd::prelude::*;
use vstd::bytes::{spec_u32_to_le_bytes, spec_u64_to_le_bytes};
use crate::codec::{
    lemma_pubkey_round_trip, lemma_u32_round_trip, lemma_u64_round_trip, pubkey_at, put_pubkey,
    put_u32, put_u64, put_u8,
    spec_pubkey_at, spec_u32_at, spec_u64_at, u32_at, u64_at,
};
use vstd::slice::slice_to_vec;
use vstd::string::StringSliceAdditionalSpecFns;
use crate::account::AccountInfo;
use crate::assertions::{
    assert_account_key, assert_program_owner, assert_same_pubkeys, assert_signer, assert_writable,
    check, has_account_key, ProgramResult,
};
use crate::error::{failure, ProgramError, TokenRecipesError};
use crate::pubkey::{id, program_id, Pubkey};
use crate::utils::{
    append_effects, effects_match, no_seeds, push_seed, realloc_account, single_effect,
    value_and_effects_match, write_data, Effect, EffectView,
};
use crate::state::features::{lemma_levels_round_trip, spec_default_levels, FeatureLevels};
use crate::state::ingredient_input::{
    lemma_input_round_trip, lemma_input_serialized_len, IngredientInput,
};
use crate::state::ingredient_output::{
    lemma_output_round_trip, lemma_output_serialized_len, IngredientOutput,
};
use crate::state::key::{lemma_key_round_trip, Key};

verus! {

/// Whether a recipe can be crafted.
#[derive(Clone, Copy, Debug, PartialEq, Eq, Structural)]
pub enum RecipeStatus {
    Paused,
    Active,
}

impl RecipeStatus {
    /// The number of bytes that a status takes in a recipe record.
    pub const LEN: usize = 1;

    /// The byte that stands for the status.
    pub open spec fn spec_byte(self) -> u8 {
        match self {
            RecipeStatus::Paused => 0,
            RecipeStatus::Active => 1,
        }
    }

    /// The status that a byte stands for, if any.
    pub open spec fn spec_from_byte(byte: u8) -> Option<RecipeStatus> {
        match byte {
            0 => Some(RecipeStatus::Paused),
            1 => Some(RecipeStatus::Active),
            _ => None,
        }
    }

    /// The byte that stands for the status.
    pub fn to_byte(&self) -> (byte: u8)
        ensures
            byte == self.spec_byte(),
    {
        match self {
            RecipeStatus::Paused => 0,
            RecipeStatus::Active => 1,
        }
    }

    /// The status that a byte stands for, if any.
    pub fn from_byte(byte: u8) -> (status: Option<RecipeStatus>)
        ensures
            status == RecipeStatus::spec_from_byte(byte),
    {
        match byte {
            0 => Some(RecipeStatus::Paused),
            1 => Some(RecipeStatus::Active),
            _ => None,
        }
    }
}

/// The kinds of ingredient that an instruction can name.
#[derive(Clone, Copy, Debug, PartialEq, Eq, Structural)]
pub enum IngredientType {
    BurnTokenInput,
    TransferTokenInput,
    MintTokenOutput,
    MintTokenWithMaxSupplyOutput,
    TransferSolInput,
}

impl IngredientType {
    /// Whether the kind is one of the inputs.
    pub open spec fn spec_is_input(self) -> bool {
        self is BurnTokenInput || self is TransferTokenInput || self is TransferSolInput
    }

    /// The byte that stands for the kind in an instruction payload.
    pub open spec fn spec_byte(self) -> u8 {
        match self {
            IngredientType::BurnTokenInput => 0,
            IngredientType::TransferTokenInput => 1,
            IngredientType::MintTokenOutput => 2,
            IngredientType::MintTokenWithMaxSupplyOutput => 3,
            IngredientType::TransferSolInput => 4,
        }
    }

    /// The kind that a byte stands for, if any.
    pub open spec fn spec_from_byte(byte: u8) -> Option<IngredientType> {
        match byte {
            0 => Some(IngredientType::BurnTokenInput),
            1 => Some(IngredientType::TransferTokenInput),
            2 => Some(IngredientType::MintTokenOutput),
            3 => Some(IngredientType::MintTokenWithMaxSupplyOutput),
            4 => Some(IngredientType::TransferSolInput),
            _ => None,
        }
    }

    /// The byte that stands for the kind in an instruction payload.
    pub fn to_byte(&self) -> (byte: u8)
        ensures
            byte == self.spec_byte(),
    {
        match self {
            IngredientType::BurnTokenInput => 0,
            IngredientType::TransferTokenInput => 1,
            IngredientType::MintTokenOutput => 2,
            IngredientType::MintTokenWithMaxSupplyOutput => 3,
            IngredientType::TransferSolInput => 4,
        }
    }

    /// The kind that a byte stands for, if any.
    pub fn from_byte(byte: u8) -> (kind: Option<IngredientType>)
        ensures
            kind == IngredientType::spec_from_byte(byte),
    {
        match byte {
            0 => Some(IngredientType::BurnTokenInput),
            1 => Some(IngredientType::TransferTokenInput),
            2 => Some(IngredientType::MintTokenOutput),
            3 => Some(IngredientType::MintTokenWithMaxSupplyOutput),
            4 => Some(IngredientType::TransferSolInput),
            _ => None,
        }
    }
}

/// An ingredient of either side of a recipe.
#[derive(Clone, Copy, Debug, PartialEq, Eq)]
pub enum Ingredient {
    Input(IngredientInput),
    Output(IngredientOutput),
}

/// A crafting definition.
#[derive(Clone, Debug, PartialEq, Eq)]
pub struct Recipe {
    pub key: Key,
    /// The address that the recipe's own address is derived from.
    pub base: Pubkey,
    /// The address that may change the recipe and collect what it earned.
    pub authority: Pubkey,
    pub status: RecipeStatus,
    /// How many times the recipe was crafted.
    pub total_crafts: u64,
    /// How many times it was crafted, each craft counted with its quantity.
    pub total_crafts_with_quantity: u64,
    /// The custom fee of a craft, of use from fee level 10 on.
    pub fees: u64,
    /// The part of the fees held by the recipe that belongs to the admin.
    pub accumulated_admin_fees: u64,
    /// The shards earned and not yet collected.
    pub accumulated_shards: u64,
    /// The experience earned and not yet collected.
    pub accumulated_experience: u64,
    pub feature_levels: FeatureLevels,
    pub inputs: Vec<IngredientInput>,
    pub outputs: Vec<IngredientOutput>,
}

/// The mathematical value of a [`Recipe`].
pub ghost struct RecipeView {
    pub key: Key,
    pub base: Pubkey,
    pub authority: Pubkey,
    pub status: RecipeStatus,
    pub total_crafts: u64,
    pub total_crafts_with_quantity: u64,
    pub fees: u64,
    pub accumulated_admin_fees: u64,
    pub accumulated_shards: u64,
    pub accumulated_experience: u64,
    pub feature_levels: FeatureLevels,
    pub inputs: Seq<IngredientInput>,
    pub outputs: Seq<IngredientOutput>,
}

impl View for Recipe {
    type V = RecipeView;

    open spec fn view(&self) -> RecipeView {
        RecipeView {
            key: self.key,
            base: self.base,
            authority: self.authority,
            status: self.status,
            total_crafts: self.total_crafts,
            total_crafts_with_quantity: self.total_crafts_with_quantity,
            fees: self.fees,
            accumulated_admin_fees: self.accumulated_admin_fees,
            accumulated_shards: self.accumulated_shards,
            accumulated_experience: self.accumulated_experience,
            feature_levels: self.feature_levels,
            inputs: self.inputs@,
            outputs: self.outputs@,
        }
    }
}

/// The bytes of a list of inputs, one after the other.
pub open spec fn inputs_bytes(inputs: Seq<IngredientInput>) -> Seq<u8>
    decreases inputs.len(),
{
    if inputs.len() == 0 {
        Seq::empty()
    } else {
        inputs_bytes(inputs.drop_last()) + inputs.last().spec_serialize()
    }
}

/// The bytes of a list of outputs, one after the other.
pub open spec fn outputs_bytes(outputs: Seq<IngredientOutput>) -> Seq<u8>
    decreases outputs.len(),
{
    if outputs.len() == 0 {
        Seq::empty()
    } else {
        outputs_bytes(outputs.drop_last()) + outputs.last().spec_serialize()
    }
}

/// The sum of the lengths of a list of inputs.
pub open spec fn inputs_len(inputs: Seq<IngredientInput>) -> nat
    decreases inputs.len(),
{
    if inputs.len() == 0 {
        0
    } else {
        inputs_len(inputs.drop_last()) + inputs.last().spec_len()
    }
}

/// The sum of the lengths of a list of outputs.
pub open spec fn outputs_len(outputs: Seq<IngredientOutput>) -> nat
    decreases outputs.len(),
{
    if outputs.len() == 0 {
        0
    } else {
        outputs_len(outputs.drop_last()) + outputs.last().spec_len()
    }
}

/// The `count` inputs that the bytes of `data` from `at` on hold one after
/// the other, and where the bytes behind them start.
pub open spec fn parse_inputs(data: Seq<u8>, at: int, count: nat) -> Option<
    (Seq<IngredientInput>, int),
>
    decreases count,
{
    if count == 0 {
        Some((Seq::empty(), at))
    } else {
        match parse_inputs(data, at, (count - 1) as nat) {
            None => None,
            Some((inputs, next)) => match IngredientInput::spec_parse_at(data, next) {
                None => None,
                Some((input, end)) => Some((inputs.push(input), end)),
            },
        }
    }
}

/// The `count` outputs that the bytes of `data` from `at` on hold one after
/// the other, and where the bytes behind them start.
pub open spec fn parse_outputs(data: Seq<u8>, at: int, count: nat) -> Option<
    (Seq<IngredientOutput>, int),
>
    decreases count,
{
    if count == 0 {
        Some((Seq::empty(), at))
    } else {
        match parse_outputs(data, at, (count - 1) as nat) {
            None => None,
            Some((outputs, next)) => match IngredientOutput::spec_parse_at(data, next) {
                None => None,
                Some((output, end)) => Some((outputs.push(output), end)),
            },
        }
    }
}

impl RecipeView {
    /// The bytes of the fixed part of the record, up to the two lists.
    pub open spec fn spec_header(self) -> Seq<u8> {
        seq![self.key.spec_byte()] + self.base@ + self.authority@ + seq![self.status.spec_byte()]
            + spec_u64_to_le_bytes(self.total_crafts) + spec_u64_to_le_bytes(
            self.total_crafts_with_quantity,
        ) + spec_u64_to_le_bytes(self.fees) + spec_u64_to_le_bytes(self.accumulated_admin_fees)
            + spec_u64_to_le_bytes(self.accumulated_shards) + spec_u64_to_le_bytes(
            self.accumulated_experience,
        ) + self.feature_levels.spec_serialize()
    }

    /// The bytes of the record: the fixed part, then each list behind its
    /// length.
    pub open spec fn spec_serialize(self) -> Seq<u8> {
        self.spec_header() + spec_u32_to_le_bytes(self.inputs.len() as u32) + inputs_bytes(
            self.inputs,
        ) + spec_u32_to_le_bytes(self.outputs.len() as u32) + outputs_bytes(self.outputs)
    }

    /// The recipe with one more input behind the others.
    pub open spec fn with_input(self, input: IngredientInput) -> RecipeView {
        RecipeView { inputs: self.inputs.push(input), ..self }
    }

    /// The recipe with one more output behind the others.
    pub open spec fn with_output(self, output: IngredientOutput) -> RecipeView {
        RecipeView { outputs: self.outputs.push(output), ..self }
    }

    /// The recipe without the input at `index`.
    pub open spec fn without_input(self, index: int) -> RecipeView {
        RecipeView { inputs: self.inputs.remove(index), ..self }
    }

    /// The recipe without the output at `index`.
    pub open spec fn without_output(self, index: int) -> RecipeView {
        RecipeView { outputs: self.outputs.remove(index), ..self }
    }

    /// The recipe that is created for a base address and an authority:
    /// paused, with nothing crafted or earned, every feature at level 0,
    /// and no ingredients.
    pub open spec fn spec_new(base: Pubkey, authority: Pubkey) -> RecipeView {
        RecipeView {
            key: Key::Recipe,
            base,
            authority,
            status: RecipeStatus::Paused,
            total_crafts: 0,
            total_crafts_with_quantity: 0,
            fees: 0,
            accumulated_admin_fees: 0,
            accumulated_shards: 0,
            accumulated_experience: 0,
            feature_levels: spec_default_levels(),
            inputs: Seq::empty(),
            outputs: Seq::empty(),
        }
    }

    /// The size of the record: that of the fixed part and of the two
    /// lengths, and the sum of the lengths of the ingredients.
    pub open spec fn spec_len(self) -> nat {
        138 + inputs_len(self.inputs) + outputs_len(self.outputs)
    }

    /// The recipe that the bytes of a record start with, if any.
    pub open spec fn spec_parse(data: Seq<u8>) -> Option<RecipeView> {
        if data.len() < 138 {
            None
        } else {
            match (Key::spec_from_byte(data[0]), RecipeStatus::spec_from_byte(data[65])) {
                (Some(key), Some(status)) => match parse_inputs(
                    data,
                    134,
                    spec_u32_at(data, 130) as nat,
                ) {
                    None => None,
                    Some((inputs, next)) => if next + 4 > data.len() {
                        None
                    } else {
                        match parse_outputs(data, next + 4, spec_u32_at(data, next) as nat) {
                            None => None,
                            Some((outputs, end)) => Some(
                                RecipeView {
                                    key,
                                    base: spec_pubkey_at(data, 1),
                                    authority: spec_pubkey_at(data, 33),
                                    status,
                                    total_crafts: spec_u64_at(data, 66),
                                    total_crafts_with_quantity: spec_u64_at(data, 74),
                                    fees: spec_u64_at(data, 82),
                                    accumulated_admin_fees: spec_u64_at(data, 90),
                                    accumulated_shards: spec_u64_at(data, 98),
                                    accumulated_experience: spec_u64_at(data, 106),
                                    feature_levels: FeatureLevels::spec_parse_at(data, 114),
                                    inputs,
                                    outputs,
                                },
                            ),
                        }
                    },
                },
                _ => None,
            }
        }
    }
}

/// Where `count` inputs cannot be read, no more of them can.
pub proof fn lemma_parse_inputs_fails_on(data: Seq<u8>, at: int, count: nat, more: nat)
    requires
        parse_inputs(data, at, count) is None,
        count <= more,
    ensures
        parse_inputs(data, at, more) is None,
    decreases more,
{
    if count < more {
        lemma_parse_inputs_fails_on(data, at, count, (more - 1) as nat);
    }
}

/// Where `count` outputs cannot be read, no more of them can.
pub proof fn lemma_parse_outputs_fails_on(data: Seq<u8>, at: int, count: nat, more: nat)
    requires
        parse_outputs(data, at, count) is None,
        count <= more,
    ensures
        parse_outputs(data, at, more) is None,
    decreases more,
{
    if count < more {
        lemma_parse_outputs_fails_on(data, at, count, (more - 1) as nat);
    }
}

/// Reads `count` inputs one after the other.
fn read_inputs(
    data: &[u8],
    at: usize,
    count: u32,
) -> (parsed: Option<(Vec<IngredientInput>, usize)>)
    ensures
        match parsed {
            Some((inputs, next)) => parse_inputs(data@, at as int, count as nat) == Some(
                (inputs@, next as int),
            ),
            None => parse_inputs(data@, at as int, count as nat) is None,
        },
{
    let mut inputs: Vec<IngredientInput> = Vec::new();
    let mut next = at;
    let mut i: u32 = 0;
    while i < count
        invariant
            i <= count,
            parse_inputs(data@, at as int, i as nat) == Some((inputs@, next as int)),
        decreases count - i,
    {
        match IngredientInput::deserialize_at(data, next) {
            None => {
                proof {
                    assert(parse_inputs(data@, at as int, (i + 1) as nat) is None);
                    lemma_parse_inputs_fails_on(data@, at as int, (i + 1) as nat, count as nat);
                }
                return None;
            },
            Some((input, end)) => {
                inputs.push(input);
                next = end;
            },
        }
        i += 1;
    }
    Some((inputs, next))
}

/// Reads `count` outputs one after the other.
fn read_outputs(data: &[u8], at: usize, count: u32) -> (parsed: Option<
    (Vec<IngredientOutput>, usize),
>)
    ensures
        match parsed {
            Some((outputs, next)) => parse_outputs(data@, at as int, count as nat) == Some(
                (outputs@, next as int),
            ),
            None => parse_outputs(data@, at as int, count as nat) is None,
        },
{
    let mut outputs: Vec<IngredientOutput> = Vec::new();
    let mut next = at;
    let mut i: u32 = 0;
    while i < count
        invariant
            i <= count,
            parse_outputs(data@, at as int, i as nat) == Some((outputs@, next as int)),
        decreases count - i,
    {
        match IngredientOutput::deserialize_at(data, next) {
            None => {
                proof {
                    assert(parse_outputs(data@, at as int, (i + 1) as nat) is None);
                    lemma_parse_outputs_fails_on(data@, at as int, (i + 1) as nat, count as nat);
                }
                return None;
            },
            Some((output, end)) => {
                outputs.push(output);
                next = end;
            },
        }
        i += 1;
    }
    Some((outputs, next))
}

impl Recipe {
    /// The size of a recipe record without ingredients.
    pub const INITIAL_LEN: usize = 138;

    /// The recipe that is created for a base address and an authority.
    pub fn new(base: Pubkey, authority: Pubkey) -> (recipe: Recipe)
        ensures
            recipe@ == RecipeView::spec_new(base, authority),
    {
        Recipe {
            key: Key::Recipe,
            base,
            authority,
            status: RecipeStatus::Paused,
            total_crafts: 0,
            total_crafts_with_quantity: 0,
            fees: 0,
            accumulated_admin_fees: 0,
            accumulated_shards: 0,
            accumulated_experience: 0,
            feature_levels: FeatureLevels::default(),
            inputs: Vec::new(),
            outputs: Vec::new(),
        }
    }

    /// The recipe that the bytes of a record start with, if any.
    pub fn deserialize(data: &[u8]) -> (parsed: Option<Recipe>)
        ensures
            match parsed {
                Some(recipe) => RecipeView::spec_parse(data@) == Some(recipe@),
                None => RecipeView::spec_parse(data@) is None,
            },
    {
        let len = data.len();
        if len < 138 {
            return None;
        }
        let key = match Key::from_byte(data[0]) {
            Some(key) => key,
            None => { return None; },
        };
        let status = match RecipeStatus::from_byte(data[65]) {
            Some(status) => status,
            None => { return None; },
        };
        let (inputs, next) = match read_inputs(data, 134, u32_at(data, 130)) {
            Some(read) => read,
            None => { return None; },
        };
        if next > len || len - next < 4 {
            return None;
        }
        let (outputs, _end) = match read_outputs(data, next + 4, u32_at(data, next)) {
            Some(read) => read,
            None => { return None; },
        };
        Some(
            Recipe {
                key,
                base: pubkey_at(data, 1),
                authority: pubkey_at(data, 33),
                status,
                total_crafts: u64_at(data, 66),
                total_crafts_with_quantity: u64_at(data, 74),
                fees: u64_at(data, 82),
                accumulated_admin_fees: u64_at(data, 90),
                accumulated_shards: u64_at(data, 98),
                accumulated_experience: u64_at(data, 106),
                feature_levels: FeatureLevels::deserialize_at(data, 114),
                inputs,
                outputs,
            },
        )
    }

    /// The bytes of the record. Fails with `SerializationError` where a
    /// list is too long for its length to be written.
    pub fn serialize(&self) -> (result: Result<Vec<u8>, ProgramError>)
        ensures
            match result {
                Ok(bytes) => bytes@ == self@.spec_serialize() && self.inputs@.len() <= u32::MAX
                    && self.outputs@.len() <= u32::MAX,
                Err(e) => e == failure(TokenRecipesError::SerializationError) && (self.inputs@.len()
                    > u32::MAX || self.outputs@.len() > u32::MAX),
            },
    {
        if self.inputs.len() > 0xffff_ffff || self.outputs.len() > 0xffff_ffff {
            return Err(ProgramError::from(TokenRecipesError::SerializationError));
        }
        let mut out: Vec<u8> = Vec::new();
        put_u8(&mut out, self.key.to_byte());
        put_pubkey(&mut out, &self.base);
        put_pubkey(&mut out, &self.authority);
        put_u8(&mut out, self.status.to_byte());
        put_u64(&mut out, self.total_crafts);
        put_u64(&mut out, self.total_crafts_with_quantity);
        put_u64(&mut out, self.fees);
        put_u64(&mut out, self.accumulated_admin_fees);
        put_u64(&mut out, self.accumulated_shards);
        put_u64(&mut out, self.accumulated_experience);
        self.feature_levels.serialize(&mut out);
        assert(out@ =~= self@.spec_header());
        put_u32(&mut out, self.inputs.len() as u32);
        let ghost head = out@;
        let mut i: usize = 0;
        while i < self.inputs.len()
            invariant
                i <= self.inputs@.len(),
                out@ == head + inputs_bytes(self.inputs@.subrange(0, i as int)),
            decreases self.inputs@.len() - i,
        {
            self.inputs[i].serialize(&mut out);
            proof {
                let upto = self.inputs@.subrange(0, i + 1);
                assert(upto.drop_last() =~= self.inputs@.subrange(0, i as int));
                assert(upto.last() == self.inputs@[i as int]);
                assert(out@ =~= head + inputs_bytes(upto));
            }
            i += 1;
        }
        assert(self.inputs@.subrange(0, i as int) =~= self.inputs@);
        put_u32(&mut out, self.outputs.len() as u32);
        let ghost head = out@;
        let mut j: usize = 0;
        while j < self.outputs.len()
            invariant
                j <= self.outputs@.len(),
                out@ == head + outputs_bytes(self.outputs@.subrange(0, j as int)),
            decreases self.outputs@.len() - j,
        {
            self.outputs[j].serialize(&mut out);
            proof {
                let upto = self.outputs@.subrange(0, j + 1);
                assert(upto.drop_last() =~= self.outputs@.subrange(0, j as int));
                assert(upto.last() == self.outputs@[j as int]);
                assert(out@ =~= head + outputs_bytes(upto));
            }
            j += 1;
        }
        assert(self.outputs@.subrange(0, j as int) =~= self.outputs@);
        assert(out@ =~= self@.spec_serialize());
        Ok(out)
    }

    /// The seeds from which the address of the recipe of `base` is derived.
    pub open spec fn spec_seeds(base: Pubkey) -> Seq<Seq<u8>> {
        seq![("recipe").spec_bytes(), base@]
    }

    /// The seeds from which the address of the recipe of `base` is derived.
    pub fn seeds(base: &Pubkey) -> (seeds: Vec<Vec<u8>>)
        ensures
            seeds.deep_view() == Recipe::spec_seeds(*base),
    {
        let mut seeds = no_seeds();
        push_seed(&mut seeds, slice_to_vec("recipe".as_bytes()));
        push_seed(&mut seeds, base.to_vec());
        assert(seeds.deep_view() =~= Recipe::spec_seeds(*base));
        seeds
    }

    /// The recipe that a record holds, if its bytes start with one.
    pub open spec fn spec_load(account: AccountInfo) -> Result<RecipeView, ProgramError> {
        match RecipeView::spec_parse(account.data@) {
            Some(recipe) => Ok(recipe),
            None => Err(failure(TokenRecipesError::DeserializationError)),
        }
    }

    /// Reads the recipe that a record holds. Fails with
    /// `DeserializationError` where its bytes do not start with one.
    pub fn load(account: &AccountInfo) -> (result: Result<Recipe, ProgramError>)
        ensures
            recipe_matches(result, Recipe::spec_load(*account)),
    {
        match Recipe::deserialize(account.data.as_slice()) {
            Some(recipe) => Ok(recipe),
            None => Err(ProgramError::from(TokenRecipesError::DeserializationError)),
        }
    }

    /// What is asked for the recipe to be kept in a record: that its bytes
    /// be written over the first bytes of the record.
    pub open spec fn spec_save(recipe: RecipeView, account: AccountInfo) -> Result<
        Seq<EffectView>,
        ProgramError,
    > {
        if recipe.inputs.len() > u32::MAX || recipe.outputs.len() > u32::MAX {
            Err(failure(TokenRecipesError::SerializationError))
        } else {
            Ok(seq![EffectView::Write { account: account.key, data: recipe.spec_serialize() }])
        }
    }

    /// Asks for the recipe to be written to its record.
    pub fn save(&self, account: &AccountInfo) -> (result: Result<Vec<Effect>, ProgramError>)
        ensures
            effects_match(result, Recipe::spec_save(self@, *account)),
    {
        let bytes = self.serialize()?;
        Ok(single_effect(write_data(account, bytes)))
    }

    /// The recipe that a record of the program holds: the record must
    /// belong to the program, start with the tag of a recipe, and hold one.
    pub open spec fn spec_get(account: AccountInfo) -> Result<RecipeView, ProgramError> {
        if account.owner != program_id() {
            Err(failure(TokenRecipesError::InvalidProgramOwner))
        } else if !has_account_key(account.data@, Key::Recipe) {
            Err(failure(TokenRecipesError::InvalidAccountKey))
        } else {
            Recipe::spec_load(account)
        }
    }

    /// Reads the recipe out of a record of the program.
    pub fn get(recipe: &AccountInfo) -> (result: Result<Recipe, ProgramError>)
        ensures
            recipe_matches(result, Recipe::spec_get(*recipe)),
    {
        assert_program_owner(recipe, &id())?;
        assert_account_key(recipe, Key::Recipe)?;
        Recipe::load(recipe)
    }

    /// The recipe that a writable record of the program holds.
    pub open spec fn spec_get_writable(account: AccountInfo) -> Result<RecipeView, ProgramError> {
        if !account.is_writable {
            Err(failure(TokenRecipesError::ExpectedWritableAccount))
        } else {
            Recipe::spec_get(account)
        }
    }

    /// Reads the recipe out of a record of the program that can be written.
    pub fn get_writable(recipe: &AccountInfo) -> (result: Result<Recipe, ProgramError>)
        ensures
            recipe_matches(result, Recipe::spec_get_writable(*recipe)),
    {
        assert_writable(recipe)?;
        Recipe::get(recipe)
    }

    /// Asserts that the given account is the authority of the recipe.
    pub fn assert_authority(&self, authority: &AccountInfo) -> (result: ProgramResult)
        ensures
            result == check(authority.key == self.authority, TokenRecipesError::AccountMismatch),
    {
        assert_same_pubkeys(authority, &self.authority)
    }

    /// Whether the given account is the authority of the recipe and signed.
    pub open spec fn spec_signer_authority(
        recipe: RecipeView,
        authority: AccountInfo,
    ) -> ProgramResult {
        if authority.key != recipe.authority {
            Err(failure(TokenRecipesError::AccountMismatch))
        } else {
            check(authority.is_signer, TokenRecipesError::ExpectedSignerAccount)
        }
    }

    /// Asserts that the given account is the authority of the recipe and
    /// signed the instruction.
    pub fn assert_signer_authority(&self, authority: &AccountInfo) -> (result: ProgramResult)
        ensures
            result == Recipe::spec_signer_authority(self@, *authority),
    {
        self.assert_authority(authority)?;
        assert_signer(authority)
    }

    /// Asserts that the recipe can be crafted.
    pub fn assert_active(&self) -> (result: ProgramResult)
        ensures
            result == check(self.status is Active, TokenRecipesError::RecipeIsNotActive),
    {
        match self.status {
            RecipeStatus::Active => Ok(()),
            RecipeStatus::Paused => Err(ProgramError::from(TokenRecipesError::RecipeIsNotActive)),
        }
    }

    /// Finds the ingredient of the given kind: an input or an output by its
    /// token, the native-currency input by its kind. Of several that match,
    /// the first is found. Fails with `MissingIngredient` where none does.
    pub fn find_ingredient(&self, ingredient_type: IngredientType, mint: &AccountInfo) -> (found:
        Result<(Ingredient, usize), ProgramError>)
        ensures
            match found {
                Ok((ingredient, index)) => {
                    &&& spec_find_ingredient(self@, ingredient_type, mint.key) == Ok::<
                        (Ingredient, int),
                        ProgramError,
                    >((ingredient, index as int))
                    &&& if ingredient_type.spec_is_input() {
                        &&& is_first_input(self.inputs@, index as int, ingredient_type, mint.key)
                        &&& ingredient == Ingredient::Input(self.inputs@[index as int])
                    } else {
                        &&& is_first_output(self.outputs@, index as int, mint.key)
                        &&& ingredient == Ingredient::Output(self.outputs@[index as int])
                    }
                },
                Err(e) => {
                    &&& spec_find_ingredient(self@, ingredient_type, mint.key) == Err::<
                        (Ingredient, int),
                        ProgramError,
                    >(e)
                    &&& e == failure(TokenRecipesError::MissingIngredient)
                    &&& if ingredient_type.spec_is_input() {
                        forall|j: int|
                            0 <= j < self.inputs@.len() ==> !input_matches(
                                #[trigger] self.inputs@[j],
                                ingredient_type,
                                mint.key,
                            )
                    } else {
                        forall|j: int|
                            0 <= j < self.outputs@.len() ==> !output_matches(
                                #[trigger] self.outputs@[j],
                                mint.key,
                            )
                    }
                },
            },
    {
        match ingredient_type {
            IngredientType::BurnTokenInput
            | IngredientType::TransferTokenInput
            | IngredientType::TransferSolInput => {
                let mut index: usize = 0;
                while index < self.inputs.len()
                    invariant
                        index <= self.inputs@.len(),
                        ingredient_type.spec_is_input(),
                        forall|j: int|
                            0 <= j < index ==> !input_matches(
                                #[trigger] self.inputs@[j],
                                ingredient_type,
                                mint.key,
                            ),
                    decreases self.inputs@.len() - index,
                {
                    let input = self.inputs[index];
                    let matches = match ingredient_type {
                        IngredientType::TransferSolInput => match input {
                            IngredientInput::TransferSol { .. } => true,
                            _ => false,
                        },
                        _ => match input {
                            IngredientInput::BurnToken { mint: m, .. } => m == mint.key,
                            IngredientInput::TransferToken { mint: m, .. } => m == mint.key,
                            IngredientInput::TransferSol { .. } => false,
                        },
                    };
                    if matches {
                        proof {
                            assert(is_first_input(
                                self.inputs@,
                                index as int,
                                ingredient_type,
                                mint.key,
                            ));
                            let chosen = choose|i: int|
                                is_first_input(self.inputs@, i, ingredient_type, mint.key);
                            lemma_first_input_is_unique(
                                self.inputs@,
                                chosen,
                                index as int,
                                ingredient_type,
                                mint.key,
                            );
                        }
                        return Ok((Ingredient::Input(input), index));
                    }
                    index += 1;
                }
                Err(ProgramError::from(TokenRecipesError::MissingIngredient))
            },
            IngredientType::MintTokenOutput | IngredientType::MintTokenWithMaxSupplyOutput => {
                let mut index: usize = 0;
                while index < self.outputs.len()
                    invariant
                        index <= self.outputs@.len(),
                        !ingredient_type.spec_is_input(),
                        forall|j: int|
                            0 <= j < index ==> !output_matches(
                                #[trigger] self.outputs@[j],
                                mint.key,
                            ),
                    decreases self.outputs@.len() - index,
                {
                    let output = self.outputs[index];
                    let matches = match output {
                        IngredientOutput::MintToken { mint: m, .. } => m == mint.key,
                        IngredientOutput::MintTokenWithMaxSupply { mint: m, .. } => m == mint.key,
                    };
                    if matches {
                        proof {
                            assert(is_first_output(self.outputs@, index as int, mint.key));
                            let chosen = choose|i: int| is_first_output(self.outputs@, i, mint.key);
                            lemma_first_output_is_unique(
                                self.outputs@,
                                chosen,
                                index as int,
                                mint.key,
                            );
                        }
                        return Ok((Ingredient::Output(output), index));
                    }
                    index += 1;
                }
                Err(ProgramError::from(TokenRecipesError::MissingIngredient))
            },
        }
    }

    /// What is asked for a record to follow its recipe to `new_size` bytes:
    /// that the record be resized with its deposit kept in step and any
    /// excess refunded, then that the recipe be written to it.
    pub open spec fn spec_resize_and_save(
        recipe: RecipeView,
        account: AccountInfo,
        payer: AccountInfo,
        new_size: int,
    ) -> Result<Seq<EffectView>, ProgramError> {
        if new_size < 0 || new_size > usize::MAX {
            Err(failure(TokenRecipesError::NumericalOverflow))
        } else if recipe.inputs.len() > u32::MAX || recipe.outputs.len() > u32::MAX {
            Err(failure(TokenRecipesError::SerializationError))
        } else {
            Ok(
                seq![
                    EffectView::Realloc {
                        target: account.key,
                        funding: payer.key,
                        new_size: new_size as usize,
                        refund: true,
                    },
                    EffectView::Write { account: account.key, data: recipe.spec_serialize() },
                ],
            )
        }
    }

    /// Asks for the record to be resized and the recipe to be written to it.
    fn resize_and_save(
        &self,
        recipe: &AccountInfo,
        payer: &AccountInfo,
        new_size: Option<usize>,
    ) -> (result:
        Result<Vec<Effect>, ProgramError>)
        ensures
            match new_size {
                Some(size) => effects_match(
                    result,
                    Recipe::spec_resize_and_save(self@, *recipe, *payer, size as int),
                ),
                None => result == Err::<Vec<Effect>, ProgramError>(
                    failure(TokenRecipesError::NumericalOverflow),
                ),
            },
    {
        let new_size = match new_size {
            Some(size) => size,
            None => { return Err(ProgramError::from(TokenRecipesError::NumericalOverflow)); },
        };
        let mut effects = single_effect(realloc_account(recipe, payer, new_size, true));
        let save = self.save(recipe)?;
        append_effects(&mut effects, save);
        assert(effects.deep_view() =~= Recipe::spec_resize_and_save(
            self@,
            *recipe,
            *payer,
            new_size as int,
        ).unwrap());
        Ok(effects)
    }

    /// Puts an input behind the others and asks for the record to grow by
    /// the length of the input and to be written. On failure the recipe is
    /// unchanged.
    pub fn add_ingredient_input(
        &mut self,
        ingredient: &IngredientInput,
        recipe: &AccountInfo,
        payer: &AccountInfo,
    ) -> (result: Result<Vec<Effect>, ProgramError>)
        ensures
            effects_match(
                result,
                Recipe::spec_resize_and_save(
                    old(self)@.with_input(*ingredient),
                    *recipe,
                    *payer,
                    (recipe.data@.len() + ingredient.spec_len()) as int,
                ),
            ),
            final(self)@ == (if result is Ok {
                old(self)@.with_input(*ingredient)
            } else {
                old(self)@
            }),
    {
        self.inputs.push(*ingredient);
        let new_size = recipe.data_len().checked_add(ingredient.len());
        let result = self.resize_and_save(recipe, payer, new_size);
        if result.is_err() {
            self.inputs.pop();
            assert(self.inputs@ =~= old(self).inputs@);
        }
        result
    }

    /// Puts an output behind the others and asks for the record to grow by
    /// the length of the output and to be written. On failure the recipe is
    /// unchanged.
    pub fn add_ingredient_output(
        &mut self,
        ingredient: &IngredientOutput,
        recipe: &AccountInfo,
        payer: &AccountInfo,
    ) -> (result: Result<Vec<Effect>, ProgramError>)
        ensures
            effects_match(
                result,
                Recipe::spec_resize_and_save(
                    old(self)@.with_output(*ingredient),
                    *recipe,
                    *payer,
                    (recipe.data@.len() + ingredient.spec_len()) as int,
                ),
            ),
            final(self)@ == (if result is Ok {
                old(self)@.with_output(*ingredient)
            } else {
                old(self)@
            }),
    {
        self.outputs.push(*ingredient);
        let new_size = recipe.data_len().checked_add(ingredient.len());
        let result = self.resize_and_save(recipe, payer, new_size);
        if result.is_err() {
            self.outputs.pop();
            assert(self.outputs@ =~= old(self).outputs@);
        }
        result
    }

    /// The input at `index` and what is asked for it to leave the recipe:
    /// `MissingIngredient` where there is no such input; else the record
    /// shrinks by the length of the input and is written.
    pub open spec fn spec_remove_input(
        recipe_account: RecipeView,
        index: int,
        recipe: AccountInfo,
        payer: AccountInfo,
    ) -> Result<(IngredientInput, Seq<EffectView>), ProgramError> {
        if index < 0 || index >= recipe_account.inputs.len() {
            Err(failure(TokenRecipesError::MissingIngredient))
        } else {
            match Recipe::spec_resize_and_save(
                recipe_account.without_input(index),
                recipe,
                payer,
                recipe.data@.len() - recipe_account.inputs[index].spec_len(),
            ) {
                Err(e) => Err(e),
                Ok(effects) => Ok((recipe_account.inputs[index], effects)),
            }
        }
    }

    /// Takes the input at `index` out of the recipe and asks for the record
    /// to shrink by the length of the input and to be written. On failure
    /// the recipe is unchanged.
    pub fn remove_ingredient_input(
        &mut self,
        index: usize,
        recipe: &AccountInfo,
        payer: &AccountInfo,
    ) -> (result:
        Result<(IngredientInput, Vec<Effect>), ProgramError>)
        ensures
            value_and_effects_match(
                result,
                Recipe::spec_remove_input(old(self)@, index as int, *recipe, *payer),
            ),
            final(self)@ == (if result is Ok {
                old(self)@.without_input(index as int)
            } else {
                old(self)@
            }),
    {
        if index >= self.inputs.len() {
            return Err(ProgramError::from(TokenRecipesError::MissingIngredient));
        }
        let ingredient = self.inputs.remove(index);
        let new_size = recipe.data_len().checked_sub(ingredient.len());
        match self.resize_and_save(recipe, payer, new_size) {
            Ok(effects) => Ok((ingredient, effects)),
            Err(e) => {
                self.inputs.insert(index, ingredient);
                assert(self.inputs@ =~= old(self).inputs@);
                Err(e)
            },
        }
    }

    /// The output at `index` and what is asked for it to leave the recipe:
    /// `MissingIngredient` where there is no such output; else the record
    /// shrinks by the length of the output and is written.
    pub open spec fn spec_remove_output(
        recipe_account: RecipeView,
        index: int,
        recipe: AccountInfo,
        payer: AccountInfo,
    ) -> Result<(IngredientOutput, Seq<EffectView>), ProgramError> {
        if index < 0 || index >= recipe_account.outputs.len() {
            Err(failure(TokenRecipesError::MissingIngredient))
        } else {
            match Recipe::spec_resize_and_save(
                recipe_account.without_output(index),
                recipe,
                payer,
                recipe.data@.len() - recipe_account.outputs[index].spec_len(),
            ) {
                Err(e) => Err(e),
                Ok(effects) => Ok((recipe_account.outputs[index], effects)),
            }
        }
    }

    /// Takes the output at `index` out of the recipe and asks for the
    /// record to shrink by the length of the output and to be written. On
    /// failure the recipe is unchanged.
    pub fn remove_ingredient_output(
        &mut self,
        index: usize,
        recipe: &AccountInfo,
        payer: &AccountInfo,
    ) -> (result:
        Result<(IngredientOutput, Vec<Effect>), ProgramError>)
        ensures
            value_and_effects_match(
                result,
                Recipe::spec_remove_output(old(self)@, index as int, *recipe, *payer),
            ),
            final(self)@ == (if result is Ok {
                old(self)@.without_output(index as int)
            } else {
                old(self)@
            }),
    {
        if index >= self.outputs.len() {
            return Err(ProgramError::from(TokenRecipesError::MissingIngredient));
        }
        let ingredient = self.outputs.remove(index);
        let new_size = recipe.data_len().checked_sub(ingredient.len());
        match self.resize_and_save(recipe, payer, new_size) {
            Ok(effects) => Ok((ingredient, effects)),
            Err(e) => {
                self.outputs.insert(index, ingredient);
                assert(self.outputs@ =~= old(self).outputs@);
                Err(e)
            },
        }
    }
}

/// The bytes of a list of inputs are as many as the lengths of the inputs
/// add up to.
pub proof fn lemma_inputs_bytes_len(inputs: Seq<IngredientInput>)
    ensures
        inputs_bytes(inputs).len() == inputs_len(inputs),
    decreases inputs.len(),
{
    if inputs.len() > 0 {
        lemma_inputs_bytes_len(inputs.drop_last());
        lemma_input_serialized_len(inputs.last());
    }
}

/// The bytes of a list of outputs are as many as the lengths of the outputs
/// add up to.
pub proof fn lemma_outputs_bytes_len(outputs: Seq<IngredientOutput>)
    ensures
        outputs_bytes(outputs).len() == outputs_len(outputs),
    decreases outputs.len(),
{
    if outputs.len() > 0 {
        lemma_outputs_bytes_len(outputs.drop_last());
        lemma_output_serialized_len(outputs.last());
    }
}

/// The fixed part of a recipe record takes 130 bytes.
pub proof fn lemma_header_len(recipe: RecipeView)
    ensures
        recipe.spec_header().len() == 130,
{
    lemma_u64_round_trip(Seq::empty(), recipe.total_crafts, Seq::empty());
    lemma_u64_round_trip(Seq::empty(), recipe.total_crafts_with_quantity, Seq::empty());
    lemma_u64_round_trip(Seq::empty(), recipe.fees, Seq::empty());
    lemma_u64_round_trip(Seq::empty(), recipe.accumulated_admin_fees, Seq::empty());
    lemma_u64_round_trip(Seq::empty(), recipe.accumulated_shards, Seq::empty());
    lemma_u64_round_trip(Seq::empty(), recipe.accumulated_experience, Seq::empty());
    lemma_levels_round_trip(Seq::empty(), recipe.feature_levels, Seq::empty());
}

/// The size of a recipe record is the size of the fixed part and of the two
/// lengths plus the sum of the lengths of its ingredients.
pub proof fn lemma_recipe_serialized_len(recipe: RecipeView)
    ensures
        recipe.spec_serialize().len() == recipe.spec_len(),
{
    lemma_header_len(recipe);
    lemma_inputs_bytes_len(recipe.inputs);
    lemma_outputs_bytes_len(recipe.outputs);
    lemma_u32_round_trip(Seq::empty(), recipe.inputs.len() as u32, Seq::empty());
    lemma_u32_round_trip(Seq::empty(), recipe.outputs.len() as u32, Seq::empty());
}

/// One more input makes the record longer by the length of the input.
pub proof fn lemma_len_with_input(recipe: RecipeView, input: IngredientInput)
    ensures
        recipe.with_input(input).spec_len() == recipe.spec_len() + input.spec_len(),
{
    assert(recipe.inputs.push(input).drop_last() =~= recipe.inputs);
}

/// One more output makes the record longer by the length of the output.
pub proof fn lemma_len_with_output(recipe: RecipeView, output: IngredientOutput)
    ensures
        recipe.with_output(output).spec_len() == recipe.spec_len() + output.spec_len(),
{
    assert(recipe.outputs.push(output).drop_last() =~= recipe.outputs);
}

/// The lengths of a list of inputs without one of them add up to as much
/// less as that one is long.
pub proof fn lemma_inputs_len_remove(inputs: Seq<IngredientInput>, index: int)
    requires
        0 <= index < inputs.len(),
    ensures
        inputs_len(inputs.remove(index)) + inputs[index].spec_len() == inputs_len(inputs),
    decreases inputs.len(),
{
    if index == inputs.len() - 1 {
        assert(inputs.remove(index) =~= inputs.drop_last());
    } else {
        lemma_inputs_len_remove(inputs.drop_last(), index);
        assert(inputs.remove(index).drop_last() =~= inputs.drop_last().remove(index));
        assert(inputs.remove(index).last() == inputs.last());
    }
}

/// The lengths of a list of outputs without one of them add up to as much
/// less as that one is long.
pub proof fn lemma_outputs_len_remove(outputs: Seq<IngredientOutput>, index: int)
    requires
        0 <= index < outputs.len(),
    ensures
        outputs_len(outputs.remove(index)) + outputs[index].spec_len() == outputs_len(outputs),
    decreases outputs.len(),
{
    if index == outputs.len() - 1 {
        assert(outputs.remove(index) =~= outputs.drop_last());
    } else {
        lemma_outputs_len_remove(outputs.drop_last(), index);
        assert(outputs.remove(index).drop_last() =~= outputs.drop_last().remove(index));
        assert(outputs.remove(index).last() == outputs.last());
    }
}

/// The first ingredient of a recipe that an instruction names, and where it
/// stands in its list: `MissingIngredient` where the recipe has none.
pub open spec fn spec_find_ingredient(
    recipe: RecipeView,
    ingredient_type: IngredientType,
    mint: Pubkey,
) -> Result<(Ingredient, int), ProgramError> {
    if ingredient_type.spec_is_input() {
        if exists|i: int| is_first_input(recipe.inputs, i, ingredient_type, mint) {
            let index = choose|i: int| is_first_input(recipe.inputs, i, ingredient_type, mint);
            Ok((Ingredient::Input(recipe.inputs[index]), index))
        } else {
            Err(failure(TokenRecipesError::MissingIngredient))
        }
    } else {
        if exists|i: int| is_first_output(recipe.outputs, i, mint) {
            let index = choose|i: int| is_first_output(recipe.outputs, i, mint);
            Ok((Ingredient::Output(recipe.outputs[index]), index))
        } else {
            Err(failure(TokenRecipesError::MissingIngredient))
        }
    }
}

/// An ingredient that a recipe does not have is not found: where no input
/// of the recipe, or no output, is the one that an instruction names, the
/// search fails with `MissingIngredient`.
pub proof fn lemma_missing_ingredient_is_not_found(
    recipe: RecipeView,
    ingredient_type: IngredientType,
    mint: Pubkey,
)
    requires
        ingredient_type.spec_is_input() ==> forall|j: int|
            0 <= j < recipe.inputs.len() ==> !input_matches(
                #[trigger] recipe.inputs[j],
                ingredient_type,
                mint,
            ),
        !ingredient_type.spec_is_input() ==> forall|j: int|
            0 <= j < recipe.outputs.len() ==> !output_matches(#[trigger] recipe.outputs[j], mint),
    ensures
        spec_find_ingredient(recipe, ingredient_type, mint) == Err::<
            (Ingredient, int),
            ProgramError,
        >(failure(TokenRecipesError::MissingIngredient)),
{
}

/// No two inputs are the first that an instruction names.
pub proof fn lemma_first_input_is_unique(
    inputs: Seq<IngredientInput>,
    a: int,
    b: int,
    ingredient_type: IngredientType,
    mint: Pubkey,
)
    requires
        is_first_input(inputs, a, ingredient_type, mint),
        is_first_input(inputs, b, ingredient_type, mint),
    ensures
        a == b,
{
    if a < b {
        assert(!input_matches(inputs[a], ingredient_type, mint));
    } else if b < a {
        assert(!input_matches(inputs[b], ingredient_type, mint));
    }
}

/// No two outputs are the first that an instruction names.
pub proof fn lemma_first_output_is_unique(
    outputs: Seq<IngredientOutput>,
    a: int,
    b: int,
    mint: Pubkey,
)
    requires
        is_first_output(outputs, a, mint),
        is_first_output(outputs, b, mint),
    ensures
        a == b,
{
    if a < b {
        assert(!output_matches(outputs[a], mint));
    } else if b < a {
        assert(!output_matches(outputs[b], mint));
    }
}

/// Inputs that were written one after the other are read back, whatever
/// stands around them.
pub proof fn lemma_inputs_round_trip(before: Seq<u8>, inputs: Seq<IngredientInput>, after: Seq<u8>)
    ensures
        parse_inputs(before + inputs_bytes(inputs) + after, before.len() as int, inputs.len())
            == Some((inputs, (before.len() + inputs_bytes(inputs).len()) as int)),
    decreases inputs.len(),
{
    let all = before + inputs_bytes(inputs) + after;
    if inputs.len() == 0 {
        assert(inputs =~= Seq::<IngredientInput>::empty());
    } else {
        let front = inputs.drop_last();
        let last = inputs.last();
        lemma_inputs_round_trip(before, front, last.spec_serialize() + after);
        assert(all =~= before + inputs_bytes(front) + (last.spec_serialize() + after));
        lemma_input_round_trip(before + inputs_bytes(front), last, after);
        assert(all =~= (before + inputs_bytes(front)) + last.spec_serialize() + after);
        lemma_input_serialized_len(last);
        assert(front.push(last) =~= inputs);
    }
}

/// Outputs that were written one after the other are read back, whatever
/// stands around them.
pub proof fn lemma_outputs_round_trip(
    before: Seq<u8>,
    outputs: Seq<IngredientOutput>,
    after: Seq<u8>,
)
    ensures
        parse_outputs(before + outputs_bytes(outputs) + after, before.len() as int, outputs.len())
            == Some((outputs, (before.len() + outputs_bytes(outputs).len()) as int)),
    decreases outputs.len(),
{
    let all = before + outputs_bytes(outputs) + after;
    if outputs.len() == 0 {
        assert(outputs =~= Seq::<IngredientOutput>::empty());
    } else {
        let front = outputs.drop_last();
        let last = outputs.last();
        lemma_outputs_round_trip(before, front, last.spec_serialize() + after);
        assert(all =~= before + outputs_bytes(front) + (last.spec_serialize() + after));
        lemma_output_round_trip(before + outputs_bytes(front), last, after);
        assert(all =~= (before + outputs_bytes(front)) + last.spec_serialize() + after);
        lemma_output_serialized_len(last);
        assert(front.push(last) =~= outputs);
    }
}

/// Bytes can be put together in any grouping.
pub proof fn lemma_concat_is_associative(a: Seq<u8>, b: Seq<u8>, c: Seq<u8>)
    ensures
        (a + b) + c == a + (b + c),
{
    assert((a + b) + c =~= a + (b + c));
}

/// The fixed part of a recipe that was written is read back, field by
/// field, whatever stands behind it.
pub proof fn lemma_header_round_trip(recipe: RecipeView, after: Seq<u8>)
    ensures
        ({
            let all = recipe.spec_header() + after;
            &&& recipe.spec_header().len() == 130
            &&& Key::spec_from_byte(all[0]) == Some(recipe.key)
            &&& spec_pubkey_at(all, 1) == recipe.base
            &&& spec_pubkey_at(all, 33) == recipe.authority
            &&& RecipeStatus::spec_from_byte(all[65]) == Some(recipe.status)
            &&& spec_u64_at(all, 66) == recipe.total_crafts
            &&& spec_u64_at(all, 74) == recipe.total_crafts_with_quantity
            &&& spec_u64_at(all, 82) == recipe.fees
            &&& spec_u64_at(all, 90) == recipe.accumulated_admin_fees
            &&& spec_u64_at(all, 98) == recipe.accumulated_shards
            &&& spec_u64_at(all, 106) == recipe.accumulated_experience
            &&& FeatureLevels::spec_parse_at(all, 114) == recipe.feature_levels
        }),
{
    let all = recipe.spec_header() + after;
    let status = seq![recipe.status.spec_byte()];
    let crafts = spec_u64_to_le_bytes(recipe.total_crafts);
    let quantity = spec_u64_to_le_bytes(recipe.total_crafts_with_quantity);
    let fees = spec_u64_to_le_bytes(recipe.fees);
    let admin = spec_u64_to_le_bytes(recipe.accumulated_admin_fees);
    let shards = spec_u64_to_le_bytes(recipe.accumulated_shards);
    let experience = spec_u64_to_le_bytes(recipe.accumulated_experience);
    let levels = recipe.feature_levels.spec_serialize();

    // The prefixes of the fixed part, each one field longer than the one
    // before.
    let h1 = seq![recipe.key.spec_byte()];
    let h2 = h1 + recipe.base@;
    let h3 = h2 + recipe.authority@;
    let h4 = h3 + status;
    let h5 = h4 + crafts;
    let h6 = h5 + quantity;
    let h7 = h6 + fees;
    let h8 = h7 + admin;
    let h9 = h8 + shards;
    let h10 = h9 + experience;
    assert(recipe.spec_header() == h10 + levels);

    // What stands behind each prefix and its field.
    let t10 = after;
    let t9 = levels + t10;
    let t8 = experience + t9;
    let t7 = shards + t8;
    let t6 = admin + t7;
    let t5 = fees + t6;
    let t4 = quantity + t5;
    let t3 = crafts + t4;
    let t2 = status + t3;
    let t1 = recipe.authority@ + t2;

    lemma_levels_round_trip(h10, recipe.feature_levels, t10);
    lemma_concat_is_associative(h10, levels, t10);
    lemma_u64_round_trip(h9, recipe.accumulated_experience, t9);
    lemma_concat_is_associative(h9, experience, t9);
    lemma_u64_round_trip(h8, recipe.accumulated_shards, t8);
    lemma_concat_is_associative(h8, shards, t8);
    lemma_u64_round_trip(h7, recipe.accumulated_admin_fees, t7);
    lemma_concat_is_associative(h7, admin, t7);
    lemma_u64_round_trip(h6, recipe.fees, t6);
    lemma_concat_is_associative(h6, fees, t6);
    lemma_u64_round_trip(h5, recipe.total_crafts_with_quantity, t5);
    lemma_concat_is_associative(h5, quantity, t5);
    lemma_u64_round_trip(h4, recipe.total_crafts, t4);
    lemma_concat_is_associative(h4, crafts, t4);
    assert(all == h4 + t3);
    lemma_concat_is_associative(h3, status, t3);
    assert(all == h3 + t2);
    lemma_pubkey_round_trip(h2, recipe.authority, t2);
    lemma_concat_is_associative(h2, recipe.authority@, t2);
    assert(all == h2 + t1);
    lemma_pubkey_round_trip(h1, recipe.base, t1);

    assert(h1.len() == 1);
    assert(h2.len() == 33);
    assert(h3.len() == 65);
    assert(h4.len() == 66);
    assert(h5.len() == 74);
    assert(h6.len() == 82);
    assert(h7.len() == 90);
    assert(h8.len() == 98);
    assert(h9.len() == 106);
    assert(h10.len() == 114);
    assert(all[0] == recipe.key.spec_byte());
    assert(all[65] == (h3 + t2)[65]);
    assert(all[65] == recipe.status.spec_byte());
    lemma_key_round_trip(recipe.key);
}

/// A recipe that was written is read back, whatever stands behind it, as
/// long as each of its lists is short enough for its length to be written.
pub proof fn lemma_recipe_round_trip(recipe: RecipeView, after: Seq<u8>)
    requires
        recipe.inputs.len() <= u32::MAX,
        recipe.outputs.len() <= u32::MAX,
    ensures
        RecipeView::spec_parse(recipe.spec_serialize() + after) == Some(recipe),
{
    let header = recipe.spec_header();
    let inputs_count = spec_u32_to_le_bytes(recipe.inputs.len() as u32);
    let inputs = inputs_bytes(recipe.inputs);
    let outputs_count = spec_u32_to_le_bytes(recipe.outputs.len() as u32);
    let outputs = outputs_bytes(recipe.outputs);
    let all = recipe.spec_serialize() + after;

    // The record up to each of its parts, and what stands behind the part.
    let b1 = header + inputs_count;
    let b2 = b1 + inputs;
    let b3 = b2 + outputs_count;
    assert(recipe.spec_serialize() == b3 + outputs);
    let t3 = after;
    let t2 = outputs + t3;
    let t1 = outputs_count + t2;
    let t0 = inputs + t1;
    let behind_header = inputs_count + t0;

    lemma_outputs_round_trip(b3, recipe.outputs, t3);
    lemma_concat_is_associative(b3, outputs, t3);
    lemma_u32_round_trip(b2, recipe.outputs.len() as u32, t2);
    lemma_concat_is_associative(b2, outputs_count, t2);
    lemma_inputs_round_trip(b1, recipe.inputs, t1);
    lemma_concat_is_associative(b1, inputs, t1);
    lemma_u32_round_trip(header, recipe.inputs.len() as u32, t0);
    lemma_concat_is_associative(header, inputs_count, t0);
    assert(all == header + behind_header);
    lemma_header_round_trip(recipe, behind_header);

    assert(b1.len() == 134);
    assert(b2.len() == 134 + inputs.len());
    assert(b3.len() == 138 + inputs.len());
    assert(all.len() >= 138);
}

/// A recipe that was saved to a record is the recipe that is loaded from
/// it: a record whose bytes start with those of a recipe holds that recipe.
pub proof fn lemma_saved_recipe_is_loaded(recipe: RecipeView, account: AccountInfo, rest: Seq<u8>)
    requires
        recipe.inputs.len() <= u32::MAX,
        recipe.outputs.len() <= u32::MAX,
        account.data@ == recipe.spec_serialize() + rest,
    ensures
        Recipe::spec_load(account) == Ok::<RecipeView, ProgramError>(recipe),
{
    lemma_recipe_round_trip(recipe, rest);
}

/// Whether what is asked brings a record to `size` bytes and writes as
/// many bytes to it: the record is resized to `size`, then written with
/// `size` bytes.
pub open spec fn resized_and_written(effects: Seq<EffectView>, size: nat) -> bool {
    &&& effects.len() == 2
    &&& match effects[0] {
        EffectView::Realloc { new_size, .. } => new_size == size,
        _ => false,
    }
    &&& match effects[1] {
        EffectView::Write { data, .. } => data.len() == size,
        _ => false,
    }
}

/// A record that follows its recipe is resized to the size of the recipe
/// and written with as many bytes.
pub proof fn lemma_resize_and_save_keeps_size(
    recipe: RecipeView,
    account: AccountInfo,
    payer: AccountInfo,
    new_size: int,
)
    requires
        new_size == recipe.spec_len(),
    ensures
        match Recipe::spec_resize_and_save(recipe, account, payer, new_size) {
            Ok(effects) => resized_and_written(effects, recipe.spec_len()),
            Err(_) => true,
        },
{
    lemma_recipe_serialized_len(recipe);
}

/// A new recipe has the size of a recipe without ingredients.
pub proof fn lemma_new_recipe_len(base: Pubkey, authority: Pubkey)
    ensures
        RecipeView::spec_new(base, authority).spec_len() == Recipe::INITIAL_LEN,
        RecipeView::spec_new(base, authority).spec_serialize().len() == Recipe::INITIAL_LEN,
{
    lemma_recipe_serialized_len(RecipeView::spec_new(base, authority));
}

/// The size of the record of a recipe is the size of the fixed part plus
/// the lengths of its ingredients, after an input is added as before:
/// where the record had the size of its recipe, adding an input resizes it
/// to the size of the recipe with the input and writes as many bytes.
pub proof fn lemma_add_input_keeps_size(
    recipe: RecipeView,
    input: IngredientInput,
    account: AccountInfo,
    payer: AccountInfo,
)
    requires
        account.data@.len() == recipe.spec_len(),
    ensures
        match Recipe::spec_resize_and_save(
            recipe.with_input(input),
            account,
            payer,
            (account.data@.len() + input.spec_len()) as int,
        ) {
            Ok(effects) => resized_and_written(effects, recipe.with_input(input).spec_len()),
            Err(_) => true,
        },
{
    lemma_len_with_input(recipe, input);
    lemma_resize_and_save_keeps_size(
        recipe.with_input(input),
        account,
        payer,
        (account.data@.len() + input.spec_len()) as int,
    );
}

/// Where the record had the size of its recipe, adding an output resizes
/// it to the size of the recipe with the output and writes as many bytes.
pub proof fn lemma_add_output_keeps_size(
    recipe: RecipeView,
    output: IngredientOutput,
    account: AccountInfo,
    payer: AccountInfo,
)
    requires
        account.data@.len() == recipe.spec_len(),
    ensures
        match Recipe::spec_resize_and_save(
            recipe.with_output(output),
            account,
            payer,
            (account.data@.len() + output.spec_len()) as int,
        ) {
            Ok(effects) => resized_and_written(effects, recipe.with_output(output).spec_len()),
            Err(_) => true,
        },
{
    lemma_len_with_output(recipe, output);
    lemma_resize_and_save_keeps_size(
        recipe.with_output(output),
        account,
        payer,
        (account.data@.len() + output.spec_len()) as int,
    );
}

/// Where the record had the size of its recipe, removing an input resizes
/// it to the size of the recipe without the input and writes as many
/// bytes.
pub proof fn lemma_remove_input_keeps_size(
    recipe: RecipeView,
    index: int,
    account: AccountInfo,
    payer: AccountInfo,
)
    requires
        account.data@.len() == recipe.spec_len(),
    ensures
        match Recipe::spec_remove_input(recipe, index, account, payer) {
            Ok((_, effects)) => resized_and_written(
                effects,
                recipe.without_input(index).spec_len(),
            ),
            Err(_) => true,
        },
{
    if 0 <= index < recipe.inputs.len() {
        lemma_inputs_len_remove(recipe.inputs, index);
        lemma_resize_and_save_keeps_size(
            recipe.without_input(index),
            account,
            payer,
            account.data@.len() - recipe.inputs[index].spec_len(),
        );
    }
}

/// Where the record had the size of its recipe, removing an output resizes
/// it to the size of the recipe without the output and writes as many
/// bytes.
pub proof fn lemma_remove_output_keeps_size(
    recipe: RecipeView,
    index: int,
    account: AccountInfo,
    payer: AccountInfo,
)
    requires
        account.data@.len() == recipe.spec_len(),
    ensures
        match Recipe::spec_remove_output(recipe, index, account, payer) {
            Ok((_, effects)) => resized_and_written(
                effects,
                recipe.without_output(index).spec_len(),
            ),
            Err(_) => true,
        },
{
    if 0 <= index < recipe.outputs.len() {
        lemma_outputs_len_remove(recipe.outputs, index);
        lemma_resize_and_save_keeps_size(
            recipe.without_output(index),
            account,
            payer,
            account.data@.len() - recipe.outputs[index].spec_len(),
        );
    }
}

/// A change to the ingredients of a recipe.
pub ghost enum IngredientChange {
    AddInput(IngredientInput),
    AddOutput(IngredientOutput),
    RemoveInput(int),
    RemoveOutput(int),
}

/// One change to the ingredients of a recipe, with the record of the recipe
/// and the payer as they are handed in for it.
pub ghost struct ChangeStep {
    pub change: IngredientChange,
    pub account: AccountInfo,
    pub payer: AccountInfo,
}

/// The recipe after a change to its ingredients, and what the change asks
/// for.
pub open spec fn spec_change(recipe: RecipeView, step: ChangeStep) -> Result<
    (RecipeView, Seq<EffectView>),
    ProgramError,
> {
    match step.change {
        IngredientChange::AddInput(input) => match Recipe::spec_resize_and_save(
            recipe.with_input(input),
            step.account,
            step.payer,
            (step.account.data@.len() + input.spec_len()) as int,
        ) {
            Ok(effects) => Ok((recipe.with_input(input), effects)),
            Err(e) => Err(e),
        },
        IngredientChange::AddOutput(output) => match Recipe::spec_resize_and_save(
            recipe.with_output(output),
            step.account,
            step.payer,
            (step.account.data@.len() + output.spec_len()) as int,
        ) {
            Ok(effects) => Ok((recipe.with_output(output), effects)),
            Err(e) => Err(e),
        },
        IngredientChange::RemoveInput(index) => match Recipe::spec_remove_input(
            recipe,
            index,
            step.account,
            step.payer,
        ) {
            Ok((_, effects)) => Ok((recipe.without_input(index), effects)),
            Err(e) => Err(e),
        },
        IngredientChange::RemoveOutput(index) => match Recipe::spec_remove_output(
            recipe,
            index,
            step.account,
            step.payer,
        ) {
            Ok((_, effects)) => Ok((recipe.without_output(index), effects)),
            Err(e) => Err(e),
        },
    }
}

/// The size that a record is asked to be resized to.
pub open spec fn resized_to(effects: Seq<EffectView>) -> nat {
    if effects.len() > 0 {
        match effects[0] {
            EffectView::Realloc { new_size, .. } => new_size as nat,
            _ => 0,
        }
    } else {
        0
    }
}

/// The recipe and the size of its record after a sequence of changes to its
/// ingredients. A change that fails leaves both as they are; one that
/// succeeds leaves the record at the size that it asks for. `None` where a
/// change is not handed the record at the size that the record has by
/// then.
pub open spec fn recipe_after(recipe: RecipeView, size: nat, steps: Seq<ChangeStep>) -> Option<
    (RecipeView, nat),
>
    decreases steps.len(),
{
    if steps.len() == 0 {
        Some((recipe, size))
    } else {
        match recipe_after(recipe, size, steps.drop_last()) {
            None => None,
            Some((before, size_before)) => if steps.last().account.data@.len() != size_before {
                None
            } else {
                match spec_change(before, steps.last()) {
                    Ok((after, effects)) => Some((after, resized_to(effects))),
                    Err(_) => Some((before, size_before)),
                }
            },
        }
    }
}

/// After every sequence of additions and removals of ingredients, the
/// record of a recipe has the size of the fixed part of a recipe plus the
/// lengths of the ingredients that the recipe has by then, as long as it
/// had that size before.
pub proof fn lemma_record_keeps_the_size_of_its_recipe(
    recipe: RecipeView,
    size: nat,
    steps: Seq<ChangeStep>,
)
    requires
        size == recipe.spec_len(),
    ensures
        match recipe_after(recipe, size, steps) {
            Some((after, size_after)) => size_after == after.spec_len(),
            None => true,
        },
    decreases steps.len(),
{
    if steps.len() > 0 {
        lemma_record_keeps_the_size_of_its_recipe(recipe, size, steps.drop_last());
        match recipe_after(recipe, size, steps.drop_last()) {
            None => {},
            Some((before, size_before)) => {
                let step = steps.last();
                if step.account.data@.len() == size_before {
                    match step.change {
                        IngredientChange::AddInput(input) => {
                            lemma_add_input_keeps_size(before, input, step.account, step.payer);
                        },
                        IngredientChange::AddOutput(output) => {
                            lemma_add_output_keeps_size(before, output, step.account, step.payer);
                        },
                        IngredientChange::RemoveInput(index) => {
                            lemma_remove_input_keeps_size(before, index, step.account, step.payer);
                        },
                        IngredientChange::RemoveOutput(index) => {
                            lemma_remove_output_keeps_size(before, index, step.account, step.payer);
                        },
                    }
                }
            },
        }
    }
}

/// Whether an outcome is the expected one: the same failure, or a recipe
/// with the expected value.
pub open spec fn recipe_matches(
    result: Result<Recipe, ProgramError>,
    expected: Result<RecipeView, ProgramError>,
) -> bool {
    match result {
        Ok(recipe) => expected == Ok::<RecipeView, ProgramError>(recipe@),
        Err(e) => expected == Err::<RecipeView, ProgramError>(e),
    }
}

/// Whether an input is the one that an instruction names by kind and token.
pub open spec fn input_matches(
    input: IngredientInput,
    ingredient_type: IngredientType,
    mint: Pubkey,
) -> bool {
    match ingredient_type {
        IngredientType::BurnTokenInput | IngredientType::TransferTokenInput => input.spec_mint()
            == Some(mint),
        IngredientType::TransferSolInput => input is TransferSol,
        _ => false,
    }
}

/// Whether an output is the one that an instruction names by its token.
pub open spec fn output_matches(output: IngredientOutput, mint: Pubkey) -> bool {
    output.spec_mint() == mint
}

/// Whether the input at `index` is the first that the instruction names.
pub open spec fn is_first_input(
    inputs: Seq<IngredientInput>,
    index: int,
    ingredient_type: IngredientType,
    mint: Pubkey,
) -> bool {
    &&& 0 <= index < inputs.len()
    &&& input_matches(inputs[index], ingredient_type, mint)
    &&& forall|j: int|
        0 <= j < index ==> !input_matches(#[trigger] inputs[j], ingredient_type, mint)
}

/// Whether the output at `index` is the first that the instruction names.
pub open spec fn is_first_output(outputs: Seq<IngredientOutput>, index: int, mint: Pubkey) -> bool {
    &&& 0 <= index < outputs.len()
    &&& output_matches(outputs[index], mint)
    &&& forall|j: int| 0 <= j < index ==> !output_matches(#[trigger] outputs[j], mint)
}

} // verus!
