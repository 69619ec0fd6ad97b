//! The instruction by which the admin of the program configures a feature.

use vstd::prelude::*;
use crate::account::AccountInfo;
use crate::assertions::{
    assert_pda, assert_same_pubkeys, assert_signer, assert_writable, spec_assert_pda,
};
use crate::error::{failure, ProgramError, TokenRecipesError};
use crate::pubkey::{id, program_id};
use crate::state::features::Feature;
use crate::utils::{
    append_effects, create_account, effects_match, no_effects, push_effect, spec_with_bump,
    with_bump, Effect, EffectView,
};

verus! {

/// What the configuration of a feature asks for. The records are the
/// program itself, which must have signed, the writable record of the
/// feature, the payer, writable and signed, and the system program. The
/// configuration must carry the tag of its feature, else
/// `InvalidAccountKey`, and the record must stand at the address derived
/// for the feature. The record is created where it is empty, and written
/// with the configuration.
pub open spec fn spec_admin_set_feature(accounts: Seq<AccountInfo>, feature: Feature) -> Result<
    Seq<EffectView>,
    ProgramError,
> {
    if accounts.len() < 4 {
        Err(ProgramError::NotEnoughAccountKeys)
    } else {
        let program = accounts[0];
        let feature_pda = accounts[1];
        let payer = accounts[2];
        if !program.is_signer {
            Err(failure(TokenRecipesError::ExpectedSignerAccount))
        } else if program.key != program_id() {
            Err(failure(TokenRecipesError::AccountMismatch))
        } else if !feature_pda.is_writable {
            Err(failure(TokenRecipesError::ExpectedWritableAccount))
        } else if !payer.is_writable {
            Err(failure(TokenRecipesError::ExpectedWritableAccount))
        } else if !payer.is_signer {
            Err(failure(TokenRecipesError::ExpectedSignerAccount))
        } else if feature.spec_key() != feature.spec_expected_key() {
            Err(failure(TokenRecipesError::InvalidAccountKey))
        } else {
            match spec_assert_pda(feature_pda.key, program_id(), feature.spec_seeds()) {
                Err(e) => Err(e),
                Ok(bump) => {
                    let written = seq![
                        EffectView::Write { account: feature_pda.key, data: feature.spec_record() },
                    ];
                    if feature_pda.data@.len() == 0 {
                        Ok(
                            seq![
                                EffectView::CreateAccount {
                                    target: feature_pda.key,
                                    funding: payer.key,
                                    size: feature.spec_len(),
                                    owner: program_id(),
                                    signer_seeds: spec_with_bump(feature.spec_seeds(), bump),
                                },
                            ] + written,
                        )
                    } else {
                        Ok(written)
                    }
                },
            }
        }
    }
}

/// Sets the configuration of a feature in the name of the program.
pub fn admin_set_feature(accounts: &[AccountInfo], feature: Feature) -> (result: Result<
    Vec<Effect>,
    ProgramError,
>)
    ensures
        effects_match(result, spec_admin_set_feature(accounts@, feature)),
{
    if accounts.len() < 4 {
        return Err(ProgramError::NotEnoughAccountKeys);
    }
    let program = &accounts[0];
    let feature_pda = &accounts[1];
    let payer = &accounts[2];

    assert_signer(program)?;
    assert_same_pubkeys(program, &id())?;
    assert_writable(feature_pda)?;
    assert_writable(payer)?;
    assert_signer(payer)?;

    if feature.key() != feature.expected_key() {
        return Err(ProgramError::from(TokenRecipesError::InvalidAccountKey));
    }
    let bump = assert_pda(feature_pda, &id(), &feature.seeds())?;

    let mut effects = no_effects();
    if feature_pda.data_is_empty() {
        push_effect(
            &mut effects,
            create_account(
                feature_pda,
                payer,
                feature.len(),
                &id(),
                Some(with_bump(feature.seeds(), bump)),
            ),
        );
    }
    let saved = feature.save(feature_pda)?;
    append_effects(&mut effects, saved);
    assert(effects.deep_view() =~= spec_admin_set_feature(accounts@, feature).unwrap());
    Ok(effects)
}

} // verus!
