//! The shared hand-over of a token's mint authority to the program, counted
//! by the recipes that mint the token.

use vstd::prelude::*;
use vstd::bytes::spec_u32_to_le_bytes;
use vstd::slice::slice_to_vec;
use vstd::string::StringSliceAdditionalSpecFns;
use crate::account::{unpack_mint, unpacked_mint, AccountInfo};
use crate::assertions::{
    assert_account_key, assert_empty, assert_mint_authority, assert_pda, assert_program_owner,
    assert_same_pubkeys, assert_writable, has_account_key, spec_assert_pda,
};
use crate::codec::{
    lemma_pubkey_round_trip, lemma_u32_round_trip, pubkey_at, put_pubkey, put_u32, put_u8,
    spec_pubkey_at, spec_u32_at, u32_at,
};
use crate::error::{failure, ProgramError, TokenRecipesError};
use crate::pubkey::{find_program_address, id, program_address, program_id, Pubkey};
use crate::state::key::{lemma_key_round_trip, Key};
use crate::utils::{
    append_effects, close_account, create_account, effects_match, no_effects, no_seeds,
    push_effect, push_seed, single_effect, spec_with_bump, transfer_mint_authority,
    value_and_effects_match, with_bump, write_data, Effect, EffectView,
};

verus! {

/// The record that holds the mint authority of a token for the recipes that
/// mint it. It keeps the authority that handed the mint over, to hand it
/// back to, and counts the recipes that list the token as an output.
#[derive(Clone, Copy, Debug, PartialEq, Eq)]
pub struct DelegatedIngredient {
    pub key: Key,
    pub mint: Pubkey,
    pub authority: Pubkey,
    pub counter: u32,
}

impl DelegatedIngredient {
    /// The size of the record.
    pub const LEN: usize = 69;

    /// Whether no recipe lists the token as an output any more.
    pub open spec fn spec_should_be_closed(self) -> bool {
        self.counter == 0
    }

    /// Whether no recipe lists the token as an output any more, so that the
    /// record is to be closed.
    pub fn should_be_closed(&self) -> (closed: bool)
        ensures
            closed == self.spec_should_be_closed(),
    {
        self.counter == 0
    }

    /// The seeds from which the address of the record is derived.
    pub open spec fn spec_seeds(mint: Pubkey) -> Seq<Seq<u8>> {
        seq![("delegated_ingredient").spec_bytes(), mint@]
    }

    /// The seeds from which the address of the record of a token is derived.
    pub fn seeds(mint: &Pubkey) -> (seeds: Vec<Vec<u8>>)
        ensures
            seeds.deep_view() == DelegatedIngredient::spec_seeds(*mint),
    {
        let mut seeds = no_seeds();
        push_seed(&mut seeds, slice_to_vec("delegated_ingredient".as_bytes()));
        push_seed(&mut seeds, mint.to_vec());
        assert(seeds.deep_view() =~= DelegatedIngredient::spec_seeds(*mint));
        seeds
    }

    /// The bytes of the record: the tag, the token, the authority and the
    /// counter.
    pub open spec fn spec_serialize(self) -> Seq<u8> {
        seq![self.key.spec_byte()] + self.mint@ + self.authority@ + spec_u32_to_le_bytes(
            self.counter,
        )
    }

    /// The record that the bytes start with, if any.
    pub open spec fn spec_parse(data: Seq<u8>) -> Option<DelegatedIngredient> {
        if data.len() < 69 {
            None
        } else {
            match Key::spec_from_byte(data[0]) {
                None => None,
                Some(key) => Some(
                    DelegatedIngredient {
                        key,
                        mint: spec_pubkey_at(data, 1),
                        authority: spec_pubkey_at(data, 33),
                        counter: spec_u32_at(data, 65),
                    },
                ),
            }
        }
    }

    /// The bytes of the record.
    pub fn serialize(&self) -> (bytes: Vec<u8>)
        ensures
            bytes@ == self.spec_serialize(),
    {
        let mut out: Vec<u8> = Vec::new();
        put_u8(&mut out, self.key.to_byte());
        put_pubkey(&mut out, &self.mint);
        put_pubkey(&mut out, &self.authority);
        put_u32(&mut out, self.counter);
        assert(out@ =~= self.spec_serialize());
        out
    }

    /// The record that the bytes start with, if any.
    pub fn deserialize(data: &[u8]) -> (parsed: Option<DelegatedIngredient>)
        ensures
            parsed == DelegatedIngredient::spec_parse(data@),
    {
        if data.len() < 69 {
            return None;
        }
        match Key::from_byte(data[0]) {
            None => None,
            Some(key) => Some(
                DelegatedIngredient {
                    key,
                    mint: pubkey_at(data, 1),
                    authority: pubkey_at(data, 33),
                    counter: u32_at(data, 65),
                },
            ),
        }
    }

    /// The record that an account holds, if its bytes start with one.
    pub open spec fn spec_load(account: AccountInfo) -> Result<DelegatedIngredient, ProgramError> {
        match DelegatedIngredient::spec_parse(account.data@) {
            Some(record) => Ok(record),
            None => Err(failure(TokenRecipesError::DeserializationError)),
        }
    }

    /// Reads the record that an account holds. Fails with
    /// `DeserializationError` where its bytes do not start with one.
    pub fn load(account: &AccountInfo) -> (result: Result<DelegatedIngredient, ProgramError>)
        ensures
            result == DelegatedIngredient::spec_load(*account),
    {
        match DelegatedIngredient::deserialize(account.data.as_slice()) {
            Some(record) => Ok(record),
            None => Err(ProgramError::from(TokenRecipesError::DeserializationError)),
        }
    }

    /// Asks for the record to be written to its account.
    pub fn save(&self, account: &AccountInfo) -> (result: Result<Vec<Effect>, ProgramError>)
        ensures
            effects_match(
                result,
                Ok(seq![EffectView::Write { account: account.key, data: self.spec_serialize() }]),
            ),
    {
        Ok(single_effect(write_data(account, self.serialize())))
    }

    /// The record that is created when a token first becomes an output,
    /// with what is asked for it. The account must be empty, writable and
    /// stand at the derived address, and `authority` must be the mint
    /// authority of the token. The account is created and the mint
    /// authority handed over to it; no recipe is counted yet.
    pub open spec fn spec_create(
        delegated_ingredient: AccountInfo,
        mint: AccountInfo,
        authority: AccountInfo,
        payer: AccountInfo,
    ) -> Result<(DelegatedIngredient, Seq<EffectView>), ProgramError> {
        if delegated_ingredient.data@.len() != 0 {
            Err(failure(TokenRecipesError::ExpectedEmptyAccount))
        } else if !delegated_ingredient.is_writable {
            Err(failure(TokenRecipesError::ExpectedWritableAccount))
        } else {
            match spec_assert_pda(
                delegated_ingredient.key,
                program_id(),
                DelegatedIngredient::spec_seeds(mint.key),
            ) {
                Err(e) => Err(e),
                Ok(bump) => match unpacked_mint(mint.data@) {
                    Err(e) => Err(e),
                    Ok(mint_account) => if mint_account.mint_authority != Some(authority.key) {
                        Err(failure(TokenRecipesError::InvalidMintAuthority))
                    } else {
                        Ok(
                            (
                                DelegatedIngredient {
                                    key: Key::DelegatedIngredient,
                                    mint: mint.key,
                                    authority: authority.key,
                                    counter: 0,
                                },
                                seq![
                                    EffectView::CreateAccount {
                                        target: delegated_ingredient.key,
                                        funding: payer.key,
                                        size: 69,
                                        owner: program_id(),
                                        signer_seeds: spec_with_bump(
                                            DelegatedIngredient::spec_seeds(mint.key),
                                            bump,
                                        ),
                                    },
                                    EffectView::TransferMintAuthority {
                                        mint: mint.key,
                                        from: authority.key,
                                        to: delegated_ingredient.key,
                                        signer_seeds: Seq::empty(),
                                    },
                                ],
                            ),
                        )
                    },
                },
            }
        }
    }

    /// Creates the record of a token and takes over its mint authority.
    pub fn create(
        delegated_ingredient: &AccountInfo,
        mint: &AccountInfo,
        authority: &AccountInfo,
        payer: &AccountInfo,
    ) -> (result: Result<(DelegatedIngredient, Vec<Effect>), ProgramError>)
        ensures
            value_and_effects_match(
                result,
                DelegatedIngredient::spec_create(*delegated_ingredient, *mint, *authority, *payer),
            ),
    {
        assert_empty(delegated_ingredient)?;
        assert_writable(delegated_ingredient)?;
        let seeds = DelegatedIngredient::seeds(&mint.key);
        let bump = assert_pda(delegated_ingredient, &id(), &seeds)?;
        let mint_account = unpack_mint(&mint.data)?;
        assert_mint_authority(&mint_account, &authority.key)?;
        let mut effects = single_effect(
            create_account(
                delegated_ingredient,
                payer,
                DelegatedIngredient::LEN,
                &id(),
                Some(with_bump(seeds, bump)),
            ),
        );
        push_effect(
            &mut effects,
            transfer_mint_authority(mint, authority, delegated_ingredient, None),
        );
        assert(effects.deep_view() =~= DelegatedIngredient::spec_create(
            *delegated_ingredient,
            *mint,
            *authority,
            *payer,
        ).unwrap().1);
        Ok(
            (
                DelegatedIngredient {
                    key: Key::DelegatedIngredient,
                    mint: mint.key,
                    authority: authority.key,
                    counter: 0,
                },
                effects,
            ),
        )
    }

    /// The record that an account holds for a token: the account must be
    /// writable, stand at the derived address, belong to the program, start
    /// with the tag of such a record, and name the token and the authority
    /// that the caller states.
    pub open spec fn spec_get(
        delegated_ingredient: AccountInfo,
        mint: AccountInfo,
        authority: AccountInfo,
    ) -> Result<
        DelegatedIngredient,
        ProgramError,
    > {
        if !delegated_ingredient.is_writable {
            Err(failure(TokenRecipesError::ExpectedWritableAccount))
        } else {
            match spec_assert_pda(
                delegated_ingredient.key,
                program_id(),
                DelegatedIngredient::spec_seeds(mint.key),
            ) {
                Err(e) => Err(e),
                Ok(_) => if delegated_ingredient.owner != program_id() {
                    Err(failure(TokenRecipesError::InvalidProgramOwner))
                } else if !has_account_key(delegated_ingredient.data@, Key::DelegatedIngredient) {
                    Err(failure(TokenRecipesError::InvalidAccountKey))
                } else {
                    match DelegatedIngredient::spec_load(delegated_ingredient) {
                        Err(e) => Err(e),
                        Ok(record) => if mint.key != record.mint || authority.key
                            != record.authority {
                            Err(failure(TokenRecipesError::AccountMismatch))
                        } else {
                            Ok(record)
                        },
                    }
                },
            }
        }
    }

    /// Reads the record of a token out of its account.
    pub fn get(
        delegated_ingredient: &AccountInfo,
        mint: &AccountInfo,
        authority: &AccountInfo,
    ) -> (result:
        Result<DelegatedIngredient, ProgramError>)
        ensures
            result == DelegatedIngredient::spec_get(*delegated_ingredient, *mint, *authority),
    {
        assert_writable(delegated_ingredient)?;
        let seeds = DelegatedIngredient::seeds(&mint.key);
        assert_pda(delegated_ingredient, &id(), &seeds)?;
        assert_program_owner(delegated_ingredient, &id())?;
        assert_account_key(delegated_ingredient, Key::DelegatedIngredient)?;
        let delegated_ingredient_account = DelegatedIngredient::load(delegated_ingredient)?;
        assert_same_pubkeys(mint, &delegated_ingredient_account.mint)?;
        assert_same_pubkeys(authority, &delegated_ingredient_account.authority)?;
        Ok(delegated_ingredient_account)
    }

    /// The record of a token: the one that its account holds, or a new one
    /// where the account is empty.
    pub open spec fn spec_get_or_create(
        delegated_ingredient: AccountInfo,
        mint: AccountInfo,
        authority: AccountInfo,
        payer: AccountInfo,
    ) -> Result<(DelegatedIngredient, Seq<EffectView>), ProgramError> {
        if delegated_ingredient.data@.len() == 0 {
            DelegatedIngredient::spec_create(delegated_ingredient, mint, authority, payer)
        } else {
            match DelegatedIngredient::spec_get(delegated_ingredient, mint, authority) {
                Err(e) => Err(e),
                Ok(record) => Ok((record, Seq::empty())),
            }
        }
    }

    /// Reads the record of a token, or creates it where its account is
    /// empty.
    pub fn get_or_create(
        delegated_ingredient: &AccountInfo,
        mint: &AccountInfo,
        authority: &AccountInfo,
        payer: &AccountInfo,
    ) -> (result: Result<(DelegatedIngredient, Vec<Effect>), ProgramError>)
        ensures
            value_and_effects_match(
                result,
                DelegatedIngredient::spec_get_or_create(
                    *delegated_ingredient,
                    *mint,
                    *authority,
                    *payer,
                ),
            ),
    {
        if delegated_ingredient.data_is_empty() {
            DelegatedIngredient::create(delegated_ingredient, mint, authority, payer)
        } else {
            let record = DelegatedIngredient::get(delegated_ingredient, mint, authority)?;
            Ok((record, no_effects()))
        }
    }

    /// What is asked for a record to be kept or given up. Exactly when its
    /// counter is zero the mint authority is handed to `authority`, signed
    /// in the name of the record, and the record is closed, its deposit
    /// handed to the payer; else the record is written. Fails with
    /// `InvalidPda` where the seeds of the record derive to no address.
    pub open spec fn spec_save_or_close(
        self,
        delegated_ingredient: AccountInfo,
        mint: AccountInfo,
        authority: AccountInfo,
        payer: AccountInfo,
    ) -> Result<Seq<EffectView>, ProgramError> {
        if self.counter == 0 {
            match program_address(DelegatedIngredient::spec_seeds(mint.key), program_id()@) {
                None => Err(failure(TokenRecipesError::InvalidPda)),
                Some((_, bump)) => Ok(
                    seq![
                        EffectView::TransferMintAuthority {
                            mint: mint.key,
                            from: delegated_ingredient.key,
                            to: authority.key,
                            signer_seeds: spec_with_bump(
                                DelegatedIngredient::spec_seeds(mint.key),
                                bump,
                            ),
                        },
                        EffectView::Close { target: delegated_ingredient.key, receiver: payer.key },
                    ],
                ),
            }
        } else {
            Ok(
                seq![
                    EffectView::Write {
                        account: delegated_ingredient.key,
                        data: self.spec_serialize(),
                    },
                ],
            )
        }
    }

    /// Asks for the mint authority to be handed back and the record to be
    /// closed where no recipe is counted any more, and for the record to be
    /// written otherwise.
    pub fn save_or_close(
        &self,
        delegated_ingredient: &AccountInfo,
        mint: &AccountInfo,
        authority: &AccountInfo,
        payer: &AccountInfo,
    ) -> (result: Result<Vec<Effect>, ProgramError>)
        ensures
            effects_match(
                result,
                self.spec_save_or_close(*delegated_ingredient, *mint, *authority, *payer),
            ),
    {
        if self.should_be_closed() {
            let seeds = DelegatedIngredient::seeds(&mint.key);
            let bump = match find_program_address(&seeds, &id()) {
                Some((_, bump)) => bump,
                None => { return Err(ProgramError::from(TokenRecipesError::InvalidPda)); },
            };
            let mut effects = single_effect(
                transfer_mint_authority(
                    mint,
                    delegated_ingredient,
                    authority,
                    Some(with_bump(seeds, bump)),
                ),
            );
            push_effect(&mut effects, close_account(delegated_ingredient, payer));
            assert(effects.deep_view() =~= self.spec_save_or_close(
                *delegated_ingredient,
                *mint,
                *authority,
                *payer,
            ).unwrap());
            Ok(effects)
        } else {
            self.save(delegated_ingredient)
        }
    }

    /// What is asked when one more recipe lists the token as an output: the
    /// record is read, or created with the mint authority handed over, its
    /// counter goes up by one, and it is written. Fails with
    /// `NumericalOverflow` where the counter cannot go up.
    pub open spec fn spec_create_or_increment(
        delegated_ingredient: AccountInfo,
        mint: AccountInfo,
        authority: AccountInfo,
        payer: AccountInfo,
    ) -> Result<Seq<EffectView>, ProgramError> {
        match DelegatedIngredient::spec_get_or_create(
            delegated_ingredient,
            mint,
            authority,
            payer,
        ) {
            Err(e) => Err(e),
            Ok((record, effects)) => if record.counter == u32::MAX {
                Err(failure(TokenRecipesError::NumericalOverflow))
            } else {
                Ok(
                    effects.push(
                        EffectView::Write {
                            account: delegated_ingredient.key,
                            data: (DelegatedIngredient {
                                counter: (record.counter + 1) as u32,
                                ..record
                            }).spec_serialize(),
                        },
                    ),
                )
            },
        }
    }

    /// Counts one more recipe that lists the token as an output, taking
    /// over the mint authority where it is the first.
    pub fn create_or_increment(
        delegated_ingredient: &AccountInfo,
        mint: &AccountInfo,
        authority: &AccountInfo,
        payer: &AccountInfo,
    ) -> (result: Result<Vec<Effect>, ProgramError>)
        ensures
            effects_match(
                result,
                DelegatedIngredient::spec_create_or_increment(
                    *delegated_ingredient,
                    *mint,
                    *authority,
                    *payer,
                ),
            ),
    {
        let (mut delegated_ingredient_account, mut effects) = DelegatedIngredient::get_or_create(
            delegated_ingredient,
            mint,
            authority,
            payer,
        )?;
        if delegated_ingredient_account.counter == u32::MAX {
            return Err(ProgramError::from(TokenRecipesError::NumericalOverflow));
        }
        delegated_ingredient_account.counter += 1;
        let save = delegated_ingredient_account.save(delegated_ingredient)?;
        append_effects(&mut effects, save);
        assert(effects.deep_view() =~= DelegatedIngredient::spec_create_or_increment(
            *delegated_ingredient,
            *mint,
            *authority,
            *payer,
        ).unwrap());
        Ok(effects)
    }

    /// What is asked when one recipe no longer lists the token as an
    /// output: the record is read, its counter goes down by one, and it is
    /// kept or given up. Fails with `NumericalOverflow` where no recipe is
    /// counted.
    pub open spec fn spec_close_or_decrement(
        delegated_ingredient: AccountInfo,
        mint: AccountInfo,
        authority: AccountInfo,
        payer: AccountInfo,
    ) -> Result<Seq<EffectView>, ProgramError> {
        match DelegatedIngredient::spec_get(delegated_ingredient, mint, authority) {
            Err(e) => Err(e),
            Ok(record) => if record.counter == 0 {
                Err(failure(TokenRecipesError::NumericalOverflow))
            } else {
                (DelegatedIngredient {
                    counter: (record.counter - 1) as u32,
                    ..record
                }).spec_save_or_close(delegated_ingredient, mint, authority, payer)
            },
        }
    }

    /// Counts one recipe less that lists the token as an output, handing
    /// the mint authority back where it was the last.
    pub fn close_or_decrement(
        delegated_ingredient: &AccountInfo,
        mint: &AccountInfo,
        authority: &AccountInfo,
        payer: &AccountInfo,
    ) -> (result: Result<Vec<Effect>, ProgramError>)
        ensures
            effects_match(
                result,
                DelegatedIngredient::spec_close_or_decrement(
                    *delegated_ingredient,
                    *mint,
                    *authority,
                    *payer,
                ),
            ),
    {
        let mut delegated_ingredient_account = DelegatedIngredient::get(
            delegated_ingredient,
            mint,
            authority,
        )?;
        if delegated_ingredient_account.counter == 0 {
            return Err(ProgramError::from(TokenRecipesError::NumericalOverflow));
        }
        delegated_ingredient_account.counter -= 1;
        delegated_ingredient_account.save_or_close(delegated_ingredient, mint, authority, payer)
    }
}

/// Counting one recipe more writes the record with its counter one higher,
/// as the last of what is asked; the mint authority is taken over exactly
/// where the record is new, from the authority that the record keeps.
pub proof fn lemma_acquire_counts_one_more(
    delegated_ingredient: AccountInfo,
    mint: AccountInfo,
    authority: AccountInfo,
    payer: AccountInfo,
)
    ensures
        match (
            DelegatedIngredient::spec_get_or_create(delegated_ingredient, mint, authority, payer),
            DelegatedIngredient::spec_create_or_increment(
                delegated_ingredient,
                mint,
                authority,
                payer,
            ),
        ) {
            (Ok((record, _)), Ok(effects)) => {
                &&& record.authority == authority.key
                &&& record.counter < u32::MAX
                &&& effects.last() == (EffectView::Write {
                    account: delegated_ingredient.key,
                    data: (DelegatedIngredient {
                        counter: (record.counter + 1) as u32,
                        ..record
                    }).spec_serialize(),
                })
                &&& (delegated_ingredient.data@.len() == 0 ==> record.counter == 0 && effects.len()
                    == 3 && effects[1] == (EffectView::TransferMintAuthority {
                    mint: mint.key,
                    from: authority.key,
                    to: delegated_ingredient.key,
                    signer_seeds: Seq::empty(),
                }))
                &&& (delegated_ingredient.data@.len() != 0 ==> effects.len() == 1)
            },
            (Ok(_), Err(e)) => e == failure(TokenRecipesError::NumericalOverflow),
            (Err(e), result) => result == Err::<Seq<EffectView>, ProgramError>(e),
        },
{
}

/// Counting one recipe less never takes the counter below zero, and hands
/// the mint authority back exactly when the counter returns to zero, never
/// before: with no recipe counted it fails with `NumericalOverflow`; with
/// one, the mint authority goes back to the authority that the record
/// keeps and the record is closed; with more, the record is written with
/// its counter one lower and nothing else is asked.
pub proof fn lemma_release_hands_back_at_zero(
    delegated_ingredient: AccountInfo,
    mint: AccountInfo,
    authority: AccountInfo,
    payer: AccountInfo,
)
    ensures
        match (
            DelegatedIngredient::spec_get(delegated_ingredient, mint, authority),
            DelegatedIngredient::spec_close_or_decrement(
                delegated_ingredient,
                mint,
                authority,
                payer,
            ),
        ) {
            (Ok(record), Ok(effects)) => {
                &&& record.counter > 0
                &&& record.authority == authority.key
                &&& (record.counter == 1 ==> effects.len() == 2 && match effects[0] {
                    EffectView::TransferMintAuthority { mint: m, from, to, .. } => m == mint.key
                        && from == delegated_ingredient.key && to == record.authority,
                    _ => false,
                } && effects[1] == (EffectView::Close {
                    target: delegated_ingredient.key,
                    receiver: payer.key,
                }))
                &&& (record.counter > 1 ==> effects == seq![
                    EffectView::Write {
                        account: delegated_ingredient.key,
                        data: (DelegatedIngredient {
                            counter: (record.counter - 1) as u32,
                            ..record
                        }).spec_serialize(),
                    },
                ])
            },
            (Ok(record), Err(e)) => record.counter == 0 ==> e == failure(
                TokenRecipesError::NumericalOverflow,
            ),
            (Err(e), result) => result == Err::<Seq<EffectView>, ProgramError>(e),
        },
{
}

/// The record that holds the mint authority of a token, if there is one,
/// and the recipes that list the token as an output.
pub ghost struct Registry {
    pub record: Option<DelegatedIngredient>,
    pub recipes: Set<Pubkey>,
}

/// One recipe that starts or stops listing a token as an output, with the
/// records as they are handed in for it.
pub ghost struct RegistryStep {
    /// Whether the recipe starts listing the token, or stops.
    pub acquire: bool,
    pub recipe: Pubkey,
    pub delegated_ingredient: AccountInfo,
    pub mint: AccountInfo,
    pub authority: AccountInfo,
    pub payer: AccountInfo,
}

impl Registry {
    /// Whether an account holds the record of the registry: it is empty
    /// where there is none, and holds it where there is one.
    pub open spec fn spec_is_held_by(self, account: AccountInfo) -> bool {
        match self.record {
            None => account.data@.len() == 0,
            Some(record) => account.data@.len() != 0 && DelegatedIngredient::spec_load(account)
                == Ok::<DelegatedIngredient, ProgramError>(record),
        }
    }

    /// Whether the record counts the recipes that list the token as an
    /// output: there is a record exactly when a recipe lists the token, and
    /// its counter is the number of those recipes.
    pub open spec fn spec_counts(self) -> bool {
        &&& self.recipes.finite()
        &&& match self.record {
            None => self.recipes.len() == 0,
            Some(record) => record.counter == self.recipes.len() && record.counter > 0,
        }
    }

    /// The registry after a recipe started or stopped listing the token. A
    /// step that fails leaves it as it is. `None` where the step is not
    /// handed the record as it is by then, or where a recipe would list the
    /// token twice or stop listing what it does not list, which the record
    /// of the token and the recipe rules out.
    pub open spec fn spec_step(self, step: RegistryStep) -> Option<Registry> {
        if !self.spec_is_held_by(step.delegated_ingredient) {
            None
        } else if step.acquire {
            if self.recipes.contains(step.recipe) {
                None
            } else {
                match (
                    DelegatedIngredient::spec_get_or_create(
                        step.delegated_ingredient,
                        step.mint,
                        step.authority,
                        step.payer,
                    ),
                    DelegatedIngredient::spec_create_or_increment(
                        step.delegated_ingredient,
                        step.mint,
                        step.authority,
                        step.payer,
                    ),
                ) {
                    (Ok((record, _)), Ok(_)) => Some(
                        Registry {
                            record: Some(
                                DelegatedIngredient {
                                    counter: (record.counter + 1) as u32,
                                    ..record
                                },
                            ),
                            recipes: self.recipes.insert(step.recipe),
                        },
                    ),
                    _ => Some(self),
                }
            }
        } else {
            if !self.recipes.contains(step.recipe) {
                None
            } else {
                match (
                    DelegatedIngredient::spec_get(
                        step.delegated_ingredient,
                        step.mint,
                        step.authority,
                    ),
                    DelegatedIngredient::spec_close_or_decrement(
                        step.delegated_ingredient,
                        step.mint,
                        step.authority,
                        step.payer,
                    ),
                ) {
                    (Ok(record), Ok(_)) => Some(
                        Registry {
                            record: if record.counter == 1 {
                                None
                            } else {
                                Some(
                                    DelegatedIngredient {
                                        counter: (record.counter - 1) as u32,
                                        ..record
                                    },
                                )
                            },
                            recipes: self.recipes.remove(step.recipe),
                        },
                    ),
                    _ => Some(self),
                }
            }
        }
    }

    /// The registry after a sequence of steps.
    pub open spec fn spec_after(self, steps: Seq<RegistryStep>) -> Option<Registry>
        decreases steps.len(),
    {
        if steps.len() == 0 {
            Some(self)
        } else {
            match self.spec_after(steps.drop_last()) {
                None => None,
                Some(before) => before.spec_step(steps.last()),
            }
        }
    }
}

/// The counter of the record that holds the mint authority of a token is
/// the number of recipes that list the token as an output, after every
/// sequence of recipes starting and stopping to list it; and the record
/// exists exactly as long as one of them lists it.
pub proof fn lemma_counter_is_the_number_of_recipes(registry: Registry, steps: Seq<RegistryStep>)
    requires
        registry.spec_counts(),
    ensures
        match registry.spec_after(steps) {
            Some(after) => after.spec_counts(),
            None => true,
        },
    decreases steps.len(),
{
    if steps.len() > 0 {
        lemma_counter_is_the_number_of_recipes(registry, steps.drop_last());
        match registry.spec_after(steps.drop_last()) {
            None => {},
            Some(before) => {
                let step = steps.last();
                lemma_acquire_counts_one_more(
                    step.delegated_ingredient,
                    step.mint,
                    step.authority,
                    step.payer,
                );
                lemma_release_hands_back_at_zero(
                    step.delegated_ingredient,
                    step.mint,
                    step.authority,
                    step.payer,
                );
            },
        }
    }
}

/// A record that was written to its account is the record that the account
/// holds when it is read next.
pub proof fn lemma_written_delegated_ingredient_is_loaded(
    record: DelegatedIngredient,
    account: AccountInfo,
    rest: Seq<u8>,
)
    requires
        account.data@ == record.spec_serialize() + rest,
    ensures
        DelegatedIngredient::spec_load(account) == Ok::<DelegatedIngredient, ProgramError>(record),
{
    lemma_delegated_ingredient_round_trip(record, rest);
}

/// A record that was written is read back, whatever stands behind it.
pub proof fn lemma_delegated_ingredient_round_trip(record: DelegatedIngredient, after: Seq<u8>)
    ensures
        DelegatedIngredient::spec_parse(record.spec_serialize() + after) == Some(record),
        record.spec_serialize().len() == DelegatedIngredient::LEN,
{
    let head = seq![record.key.spec_byte()];
    let le = spec_u32_to_le_bytes(record.counter);
    let all = record.spec_serialize() + after;
    lemma_key_round_trip(record.key);
    assert(all =~= head + record.mint@ + (record.authority@ + le + after));
    lemma_pubkey_round_trip(head, record.mint, record.authority@ + le + after);
    assert(all =~= (head + record.mint@) + record.authority@ + (le + after));
    lemma_pubkey_round_trip(head + record.mint@, record.authority, le + after);
    assert(all =~= (head + record.mint@ + record.authority@) + le + after);
    lemma_u32_round_trip(head + record.mint@ + record.authority@, record.counter, after);
    assert(all[0] == record.key.spec_byte());
}

} // verus!
