//! The instruction that crafts a recipe: what each ingredient asks for, in
//! the order of the recipe, and how the craft is settled.

use vstd::prelude::*;
use crate::account::AccountInfo;
use crate::assertions::{assert_same_pubkeys, assert_signer, assert_writable};
use crate::error::{failure, ProgramError, TokenRecipesError};
use crate::pubkey::{
    associated_token_program, associated_token_program_id, system_program, system_program_id,
    token_program, token_program_id,
};
use crate::state::features::fees::{
    get_fees_and_shards_per_craft, spec_fees_and_shards_per_craft,
};
use crate::state::features::wisdom::{get_experience_per_craft, spec_experience_per_craft};
use crate::state::ingredient_input::lemma_input_overflow_fails;
use crate::state::ingredient_output::lemma_output_overflow_fails;
use crate::state::recipe::{recipe_matches, Recipe, RecipeView};
use crate::utils::{append_effects, no_effects, push_effect, transfer_lamports, Effect, EffectView};

verus! {

/// The number of records that every craft starts with: the recipe, the
/// crafter, the payer, and the three programs.
pub const CRAFT_ACCOUNTS: usize = 6;

/// The recipe that a craft is of. The records are the writable record of
/// the recipe, which must be active, else `RecipeIsNotActive`; the crafter,
/// who must have signed; the payer, signed and writable; the system
/// program, the token program and the associated-token-account program. A
/// recipe is crafted at least once: a quantity of zero is refused with
/// `CannotAddIngredientWithZeroAmount`, before any ingredient is read.
pub open spec fn spec_craft_start(accounts: Seq<AccountInfo>, quantity: u64) -> Result<
    RecipeView,
    ProgramError,
> {
    if accounts.len() < 6 {
        Err(ProgramError::NotEnoughAccountKeys)
    } else {
        match Recipe::spec_get_writable(accounts[0]) {
            Err(e) => Err(e),
            Ok(recipe_account) => if !(recipe_account.status is Active) {
                Err(failure(TokenRecipesError::RecipeIsNotActive))
            } else if quantity == 0 {
                Err(failure(TokenRecipesError::CannotAddIngredientWithZeroAmount))
            } else if !accounts[1].is_signer {
                Err(failure(TokenRecipesError::ExpectedSignerAccount))
            } else if !accounts[2].is_signer {
                Err(failure(TokenRecipesError::ExpectedSignerAccount))
            } else if !accounts[2].is_writable {
                Err(failure(TokenRecipesError::ExpectedWritableAccount))
            } else if accounts[3].key != system_program_id() {
                Err(failure(TokenRecipesError::AccountMismatch))
            } else if accounts[4].key != token_program_id() {
                Err(failure(TokenRecipesError::AccountMismatch))
            } else if accounts[5].key != associated_token_program_id() {
                Err(failure(TokenRecipesError::AccountMismatch))
            } else {
                Ok(recipe_account)
            },
        }
    }
}

/// Checks the quantity and the records that every craft starts with, and
/// reads the recipe.
pub fn craft_start(accounts: &[AccountInfo], quantity: u64) -> (result: Result<
    Recipe,
    ProgramError,
>)
    ensures
        recipe_matches(result, spec_craft_start(accounts@, quantity)),
{
    if accounts.len() < 6 {
        return Err(ProgramError::NotEnoughAccountKeys);
    }
    let recipe = &accounts[0];
    let owner = &accounts[1];
    let payer = &accounts[2];
    let system_program_account = &accounts[3];
    let token_program_account = &accounts[4];
    let ata_program_account = &accounts[5];

    let recipe_account = Recipe::get_writable(recipe)?;
    recipe_account.assert_active()?;
    if quantity == 0 {
        return Err(ProgramError::from(TokenRecipesError::CannotAddIngredientWithZeroAmount));
    }

    assert_signer(owner)?;

    assert_signer(payer)?;
    assert_writable(payer)?;

    assert_same_pubkeys(system_program_account, &system_program())?;
    assert_same_pubkeys(token_program_account, &token_program())?;
    assert_same_pubkeys(ata_program_account, &associated_token_program())?;
    Ok(recipe_account)
}

/// The recipe after a craft of `quantity` is settled. The admin's part of
/// the fee, the shards and the experience of one craft are added to what
/// the recipe has accumulated, one craft is counted, and the quantity is
/// counted. Fails with `NumericalOverflow` where a counter cannot hold the
/// sum.
pub open spec fn spec_settled(
    recipe: RecipeView,
    quantity: u64,
) -> Result<RecipeView, ProgramError> {
    match spec_fees_and_shards_per_craft(recipe) {
        Err(e) => Err(e),
        Ok((_, admin_fees, shards)) => if recipe.accumulated_admin_fees + admin_fees > u64::MAX
            || recipe.accumulated_shards + shards > u64::MAX || recipe.accumulated_experience
            + spec_experience_per_craft(recipe) > u64::MAX || recipe.total_crafts + 1 > u64::MAX
            || recipe.total_crafts_with_quantity + quantity > u64::MAX {
            Err(failure(TokenRecipesError::NumericalOverflow))
        } else {
            Ok(
                RecipeView {
                    accumulated_admin_fees: (recipe.accumulated_admin_fees + admin_fees) as u64,
                    accumulated_shards: (recipe.accumulated_shards + shards) as u64,
                    accumulated_experience: (recipe.accumulated_experience
                        + spec_experience_per_craft(recipe)) as u64,
                    total_crafts: (recipe.total_crafts + 1) as u64,
                    total_crafts_with_quantity: (recipe.total_crafts_with_quantity
                        + quantity) as u64,
                    ..recipe
                },
            )
        },
    }
}

/// What the settlement of a craft asks for: the fee of the craft, where
/// there is one, moves from the payer to the record of the recipe, which
/// holds it until it is collected; the recipe is written as it stands
/// after the craft.
pub open spec fn spec_settle(
    recipe_account: RecipeView,
    recipe: AccountInfo,
    payer: AccountInfo,
    quantity: u64,
) -> Result<(RecipeView, Seq<EffectView>), ProgramError> {
    match spec_fees_and_shards_per_craft(recipe_account) {
        Err(e) => Err(e),
        Ok((total_fees, _, _)) => match spec_settled(recipe_account, quantity) {
            Err(e) => Err(e),
            Ok(settled) => match Recipe::spec_save(settled, recipe) {
                Err(e) => Err(e),
                Ok(written) => Ok(
                    (
                        settled,
                        if total_fees > 0 {
                            seq![
                                EffectView::TransferLamports {
                                    from: payer.key,
                                    to: recipe.key,
                                    lamports: total_fees,
                                    signer_seeds: Seq::empty(),
                                },
                            ] + written
                        } else {
                            written
                        },
                    ),
                ),
            },
        },
    }
}

/// Adds to a counter: `NumericalOverflow` where it cannot hold the sum.
fn accumulate(counter: u64, amount: u64) -> (result: Result<u64, ProgramError>)
    ensures
        result == (if counter + amount > u64::MAX {
            Err::<u64, ProgramError>(failure(TokenRecipesError::NumericalOverflow))
        } else {
            Ok((counter + amount) as u64)
        }),
{
    match counter.checked_add(amount) {
        Some(sum) => Ok(sum),
        None => Err(ProgramError::from(TokenRecipesError::NumericalOverflow)),
    }
}

/// Settles a craft: takes the fee and accrues what the craft earns. On
/// failure the recipe is unchanged.
pub fn craft_settle(
    recipe_account: &mut Recipe,
    recipe: &AccountInfo,
    payer: &AccountInfo,
    quantity: u64,
) -> (result: Result<Vec<Effect>, ProgramError>)
    ensures
        match result {
            Ok(effects) => spec_settle(old(recipe_account)@, *recipe, *payer, quantity) == Ok::<
                (RecipeView, Seq<EffectView>),
                ProgramError,
            >((final(recipe_account)@, effects.deep_view())),
            Err(e) => spec_settle(old(recipe_account)@, *recipe, *payer, quantity) == Err::<
                (RecipeView, Seq<EffectView>),
                ProgramError,
            >(e) && final(recipe_account)@ == old(recipe_account)@,
        },
{
    let (total_fees, admin_fees, shards) = get_fees_and_shards_per_craft(recipe_account)?;
    let accumulated_admin_fees = accumulate(recipe_account.accumulated_admin_fees, admin_fees)?;
    let accumulated_shards = accumulate(recipe_account.accumulated_shards, shards)?;
    let accumulated_experience = accumulate(
        recipe_account.accumulated_experience,
        get_experience_per_craft(recipe_account),
    )?;
    let total_crafts = accumulate(recipe_account.total_crafts, 1)?;
    let total_crafts_with_quantity = accumulate(
        recipe_account.total_crafts_with_quantity,
        quantity,
    )?;
    if recipe_account.inputs.len() > 0xffff_ffff || recipe_account.outputs.len() > 0xffff_ffff {
        return Err(ProgramError::from(TokenRecipesError::SerializationError));
    }
    recipe_account.accumulated_admin_fees = accumulated_admin_fees;
    recipe_account.accumulated_shards = accumulated_shards;
    recipe_account.accumulated_experience = accumulated_experience;
    recipe_account.total_crafts = total_crafts;
    recipe_account.total_crafts_with_quantity = total_crafts_with_quantity;

    let mut effects = no_effects();
    if total_fees > 0 {
        push_effect(&mut effects, transfer_lamports(payer, recipe, total_fees, None));
    }
    let saved = recipe_account.save(recipe)?;
    append_effects(&mut effects, saved);
    assert(effects.deep_view() =~= spec_settle(
        old(recipe_account)@,
        *recipe,
        *payer,
        quantity,
    ).unwrap().1);
    Ok(effects)
}

/// How far a craft has come: the recipe as it was read, the number of
/// times that it is crafted, how many of its inputs and of its outputs were
/// crafted, whether it was settled, and the first of the records that the
/// next step reads. The steps of a craft are
/// its inputs in their order, then its outputs in theirs, then the
/// settlement.
#[derive(Clone, Debug, PartialEq, Eq)]
pub struct Crafting {
    pub recipe: Recipe,
    pub quantity: u64,
    pub inputs_done: usize,
    pub outputs_done: usize,
    pub settled: bool,
    pub cursor: usize,
}

/// The mathematical value of a [`Crafting`].
pub ghost struct CraftingView {
    pub recipe: RecipeView,
    pub quantity: u64,
    pub inputs_done: nat,
    pub outputs_done: nat,
    pub settled: bool,
    pub cursor: int,
}

impl View for Crafting {
    type V = CraftingView;

    open spec fn view(&self) -> CraftingView {
        CraftingView {
            recipe: self.recipe@,
            quantity: self.quantity,
            inputs_done: self.inputs_done as nat,
            outputs_done: self.outputs_done as nat,
            settled: self.settled,
            cursor: self.cursor as int,
        }
    }
}

impl CraftingView {
    /// The craft of a recipe before its first step.
    pub open spec fn spec_new(recipe: RecipeView, quantity: u64) -> CraftingView {
        CraftingView {
            recipe,
            quantity,
            inputs_done: 0,
            outputs_done: 0,
            settled: false,
            cursor: 6,
        }
    }

    /// The number of steps of the craft that are left.
    pub open spec fn spec_steps_left(self) -> nat {
        if self.settled {
            0
        } else {
            (if self.inputs_done < self.recipe.inputs.len() {
                self.recipe.inputs.len() - self.inputs_done
            } else {
                0
            } + if self.outputs_done < self.recipe.outputs.len() {
                self.recipe.outputs.len() - self.outputs_done
            } else {
                0
            } + 1) as nat
        }
    }
}

/// What the next step of a craft asks for, and the craft after it. The
/// crafter and the payer are the second and third of the records. An input
/// or output is crafted from the records at the cursor, which moves behind
/// them; the settlement changes the recipe. A craft that is settled asks
/// for nothing more. No step is taken with a quantity of zero:
/// `CannotAddIngredientWithZeroAmount`.
pub open spec fn spec_craft_step(crafting: CraftingView, accounts: Seq<AccountInfo>) -> Result<
    (CraftingView, Seq<EffectView>),
    ProgramError,
> {
    let recipe = crafting.recipe;
    let quantity = crafting.quantity;
    if quantity == 0 {
        Err(failure(TokenRecipesError::CannotAddIngredientWithZeroAmount))
    } else if crafting.settled {
        Ok((crafting, Seq::empty()))
    } else if accounts.len() < 6 {
        Err(ProgramError::NotEnoughAccountKeys)
    } else if crafting.inputs_done < recipe.inputs.len() {
        match recipe.inputs[crafting.inputs_done as int].spec_craft(
            accounts,
            crafting.cursor,
            accounts[1],
            accounts[2],
            quantity,
        ) {
            Err(e) => Err(e),
            Ok((next, effects)) => Ok(
                (
                    CraftingView {
                        inputs_done: crafting.inputs_done + 1,
                        cursor: next,
                        ..crafting
                    },
                    effects,
                ),
            ),
        }
    } else if crafting.outputs_done < recipe.outputs.len() {
        match recipe.outputs[crafting.outputs_done as int].spec_craft(
            accounts,
            crafting.cursor,
            accounts[1],
            accounts[2],
            quantity,
        ) {
            Err(e) => Err(e),
            Ok((next, effects)) => Ok(
                (
                    CraftingView {
                        outputs_done: crafting.outputs_done + 1,
                        cursor: next,
                        ..crafting
                    },
                    effects,
                ),
            ),
        }
    } else {
        match spec_settle(recipe, accounts[0], accounts[2], quantity) {
            Err(e) => Err(e),
            Ok((settled, effects)) => Ok(
                (CraftingView { recipe: settled, settled: true, ..crafting }, effects),
            ),
        }
    }
}

impl Crafting {
    /// The craft of a recipe before its first step.
    pub fn new(recipe: Recipe, quantity: u64) -> (crafting: Crafting)
        ensures
            crafting@ == CraftingView::spec_new(recipe@, quantity),
    {
        Crafting {
            recipe,
            quantity,
            inputs_done: 0,
            outputs_done: 0,
            settled: false,
            cursor: CRAFT_ACCOUNTS,
        }
    }

    /// Whether every step of the craft was taken.
    pub fn is_done(&self) -> (done: bool)
        ensures
            done == self.settled,
    {
        self.settled
    }

    /// Takes the next step of the craft, from the records as they stand
    /// now. On failure the craft is unchanged.
    pub fn step(&mut self, accounts: &[AccountInfo]) -> (result: Result<Vec<Effect>, ProgramError>)
        ensures
            match result {
                Ok(effects) => spec_craft_step(old(self)@, accounts@) == Ok::<
                    (CraftingView, Seq<EffectView>),
                    ProgramError,
                >((final(self)@, effects.deep_view())),
                Err(e) => spec_craft_step(old(self)@, accounts@) == Err::<
                    (CraftingView, Seq<EffectView>),
                    ProgramError,
                >(e) && final(self)@ == old(self)@,
            },
    {
        let quantity = self.quantity;
        if quantity == 0 {
            return Err(ProgramError::from(TokenRecipesError::CannotAddIngredientWithZeroAmount));
        }
        if self.settled {
            return Ok(no_effects());
        }
        if accounts.len() < 6 {
            return Err(ProgramError::NotEnoughAccountKeys);
        }
        let recipe = &accounts[0];
        let owner = &accounts[1];
        let payer = &accounts[2];
        if self.inputs_done < self.recipe.inputs.len() {
            let (next, effects) = self.recipe.inputs[self.inputs_done].craft(
                accounts,
                self.cursor,
                owner,
                payer,
                quantity,
            )?;
            self.inputs_done = self.inputs_done + 1;
            self.cursor = next;
            Ok(effects)
        } else if self.outputs_done < self.recipe.outputs.len() {
            let (next, effects) = self.recipe.outputs[self.outputs_done].craft(
                accounts,
                self.cursor,
                owner,
                payer,
                quantity,
            )?;
            self.outputs_done = self.outputs_done + 1;
            self.cursor = next;
            Ok(effects)
        } else {
            let effects = craft_settle(&mut self.recipe, recipe, payer, quantity)?;
            self.settled = true;
            Ok(effects)
        }
    }
}

/// The craft after its next steps, one for each of `snapshots`, each
/// decided from the records as its snapshot shows them, and what those
/// steps ask for, one after the other; the failure of the first step that
/// fails.
pub open spec fn spec_craft_run(crafting: CraftingView, snapshots: Seq<Seq<AccountInfo>>) -> Result<
    (CraftingView, Seq<EffectView>),
    ProgramError,
>
    decreases snapshots.len(),
{
    if snapshots.len() == 0 {
        Ok((crafting, Seq::empty()))
    } else {
        match spec_craft_step(crafting, snapshots[0]) {
            Err(e) => Err(e),
            Ok((next, effects)) => match spec_craft_run(next, snapshots.drop_first()) {
                Err(e) => Err(e),
                Ok((last, rest)) => Ok((last, effects + rest)),
            },
        }
    }
}

/// Every step of a craft that is not settled leaves one step less.
pub proof fn lemma_step_leaves_less(crafting: CraftingView, accounts: Seq<AccountInfo>)
    requires
        !crafting.settled,
    ensures
        match spec_craft_step(crafting, accounts) {
            Ok((next, _)) => next.spec_steps_left() < crafting.spec_steps_left(),
            Err(_) => true,
        },
{
}

/// A craft of quantity zero is refused, at its start and at every step,
/// whatever the records are: nothing is asked of the ledger, no fee is
/// taken and the recipe counts no craft.
pub proof fn lemma_zero_quantity_is_refused(crafting: CraftingView, accounts: Seq<AccountInfo>)
    ensures
        spec_craft(accounts, 0) is Err,
        crafting.quantity == 0 ==> spec_craft_step(crafting, accounts) == Err::<
            (CraftingView, Seq<EffectView>),
            ProgramError,
        >(failure(TokenRecipesError::CannotAddIngredientWithZeroAmount)),
{
}

/// Whether an ingredient that a craft has yet to take asks for more than a
/// `u64` holds: its amount times the quantity does not fit.
pub open spec fn has_overflow_ahead(crafting: CraftingView) -> bool {
    ||| exists|i: int|
        crafting.inputs_done <= i < crafting.recipe.inputs.len() && (
        #[trigger] crafting.recipe.inputs[i]).spec_amount() * crafting.quantity > u64::MAX
    ||| exists|j: int|
        crafting.outputs_done <= j < crafting.recipe.outputs.len() && (
        #[trigger] crafting.recipe.outputs[j]).spec_amount() * crafting.quantity > u64::MAX
}

/// A step of a craft with an ingredient ahead whose amount times the
/// quantity does not fit a `u64` fails, or takes an ingredient before that
/// one and leaves the craft unsettled with that ingredient still ahead.
pub proof fn lemma_overflow_stays_ahead(crafting: CraftingView, accounts: Seq<AccountInfo>)
    requires
        !crafting.settled,
        has_overflow_ahead(crafting),
    ensures
        match spec_craft_step(crafting, accounts) {
            Ok((next, _)) => !next.settled && has_overflow_ahead(next),
            Err(_) => true,
        },
{
    let recipe = crafting.recipe;
    let quantity = crafting.quantity;
    if quantity == 0 || accounts.len() < 6 {
    } else if crafting.inputs_done < recipe.inputs.len() {
        let input = recipe.inputs[crafting.inputs_done as int];
        if input.spec_amount() * quantity > u64::MAX {
            lemma_input_overflow_fails(
                input,
                accounts,
                crafting.cursor,
                accounts[1],
                accounts[2],
                quantity,
            );
        } else {
            match spec_craft_step(crafting, accounts) {
                Err(_) => {},
                Ok((next, _)) => {
                    if exists|i: int|
                        crafting.inputs_done <= i < recipe.inputs.len() && (
                        #[trigger] recipe.inputs[i]).spec_amount() * quantity > u64::MAX {
                        let i = choose|i: int|
                            crafting.inputs_done <= i < recipe.inputs.len() && (
                            #[trigger] recipe.inputs[i]).spec_amount() * quantity > u64::MAX;
                        assert(next.inputs_done <= i < next.recipe.inputs.len());
                        assert(next.recipe.inputs[i].spec_amount() * quantity > u64::MAX);
                    } else {
                        let j = choose|j: int|
                            crafting.outputs_done <= j < recipe.outputs.len() && (
                            #[trigger] recipe.outputs[j]).spec_amount() * quantity > u64::MAX;
                        assert(next.outputs_done <= j < next.recipe.outputs.len());
                        assert(next.recipe.outputs[j].spec_amount() * quantity > u64::MAX);
                    }
                },
            }
        }
    } else {
        let j = choose|j: int|
            crafting.outputs_done <= j < recipe.outputs.len() && (
            #[trigger] recipe.outputs[j]).spec_amount() * quantity > u64::MAX;
        let output = recipe.outputs[crafting.outputs_done as int];
        if output.spec_amount() * quantity > u64::MAX {
            lemma_output_overflow_fails(
                output,
                accounts,
                crafting.cursor,
                accounts[1],
                accounts[2],
                quantity,
            );
        } else {
            match spec_craft_step(crafting, accounts) {
                Err(_) => {},
                Ok((next, _)) => {
                    assert(next.outputs_done <= j < next.recipe.outputs.len());
                    assert(next.recipe.outputs[j].spec_amount() * quantity > u64::MAX);
                },
            }
        }
    }
}

/// A craft with an ingredient ahead whose amount times the quantity does
/// not fit a `u64` is never settled, however many steps are taken and
/// whatever the records are at each: the steps fail at that ingredient at
/// the latest, so that no fee is taken and no craft is counted.
pub proof fn lemma_overflow_aborts_craft(crafting: CraftingView, snapshots: Seq<Seq<AccountInfo>>)
    requires
        !crafting.settled,
        has_overflow_ahead(crafting),
    ensures
        match spec_craft_run(crafting, snapshots) {
            Ok((last, _)) => !last.settled && has_overflow_ahead(last),
            Err(_) => true,
        },
    decreases snapshots.len(),
{
    if snapshots.len() > 0 {
        lemma_overflow_stays_ahead(crafting, snapshots[0]);
        match spec_craft_step(crafting, snapshots[0]) {
            Err(_) => {},
            Ok((next, _)) => {
                lemma_overflow_aborts_craft(next, snapshots.drop_first());
            },
        }
    }
}

/// Any multiplication that overflows aborts the whole craft: a recipe with
/// an ingredient whose amount times the quantity does not fit a `u64` is
/// never crafted to the end, whatever the records are at its start and at
/// each of its steps.
pub proof fn lemma_overflow_aborts_whole_craft(
    accounts: Seq<AccountInfo>,
    snapshots: Seq<Seq<AccountInfo>>,
    quantity: u64,
)
    requires
        match spec_craft(accounts, quantity) {
            Ok(crafting) => has_overflow_ahead(crafting),
            Err(_) => true,
        },
    ensures
        match spec_craft(accounts, quantity) {
            Ok(crafting) => match spec_craft_run(crafting, snapshots) {
                Ok((last, _)) => !last.settled,
                Err(_) => true,
            },
            Err(_) => true,
        },
{
    match spec_craft(accounts, quantity) {
        Ok(crafting) => {
            lemma_overflow_aborts_craft(crafting, snapshots);
        },
        Err(_) => {},
    }
}

/// The craft that an instruction begins: that of the recipe that the
/// records hold, before its first step.
pub open spec fn spec_craft(accounts: Seq<AccountInfo>, quantity: u64) -> Result<
    CraftingView,
    ProgramError,
> {
    match spec_craft_start(accounts, quantity) {
        Err(e) => Err(e),
        Ok(recipe) => Ok(CraftingView::spec_new(recipe, quantity)),
    }
}

/// Whether an outcome is the expected one: the same failure, or a craft
/// with the expected value.
pub open spec fn crafting_matches(
    result: Result<Crafting, ProgramError>,
    expected: Result<CraftingView, ProgramError>,
) -> bool {
    match result {
        Ok(crafting) => expected == Ok::<CraftingView, ProgramError>(crafting@),
        Err(e) => expected == Err::<CraftingView, ProgramError>(e),
    }
}

/// Begins the craft of a recipe `quantity` times: checks the quantity and
/// the records that every craft starts with, and hands back the craft,
/// which is then taken step by step with [`Crafting::step`]. Each step is
/// decided from the records as the steps before it left them, so that what
/// a step reads, as the supply of a mint that an earlier step burned, is
/// what stands on the ledger by then. A craft that fails at any step is
/// dropped as a whole by whoever runs it.
pub fn craft(accounts: &[AccountInfo], quantity: u64) -> (result: Result<Crafting, ProgramError>)
    ensures
        crafting_matches(result, spec_craft(accounts@, quantity)),
{
    let recipe_account = craft_start(accounts, quantity)?;
    Ok(Crafting::new(recipe_account, quantity))
}

} // verus!
