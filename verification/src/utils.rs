//! What an instruction asks of the ledger and of the token program: the
//! creation, resizing and closing of records, and the movement of native
//! currency, tokens and mint authority.

use vstd::prelude::*;
use crate::account::AccountInfo;
use crate::error::{failure, ProgramError, TokenRecipesError};
use crate::pubkey::Pubkey;

verus! {

/// One request to the ledger or to the token program. An instruction that
/// succeeds hands back its requests in the order in which they take effect;
/// one that fails hands back none.
#[derive(Clone, Debug, PartialEq, Eq)]
pub enum Effect {
    /// Create the record `target` with `size` zeroed bytes, owned by `owner`,
    /// its storage deposit paid by `funding`.
    CreateAccount {
        target: Pubkey,
        funding: Pubkey,
        size: usize,
        owner: Pubkey,
        signer_seeds: Vec<Vec<u8>>,
    },
    /// Resize the record `target` to `new_size` bytes and keep its storage
    /// deposit in step: `funding` tops it up on growth and, if `refund` is
    /// set, receives the difference on shrinking.
    Realloc { target: Pubkey, funding: Pubkey, new_size: usize, refund: bool },
    /// Close the record `target`: hand its whole balance to `receiver` and
    /// zero its bytes.
    Close { target: Pubkey, receiver: Pubkey },
    /// Move `lamports` of native currency from `from` to `to`.
    TransferLamports { from: Pubkey, to: Pubkey, lamports: u64, signer_seeds: Vec<Vec<u8>> },
    /// Hand the authority to mint tokens of `mint` over from `from` to `to`.
    TransferMintAuthority { mint: Pubkey, from: Pubkey, to: Pubkey, signer_seeds: Vec<Vec<u8>> },
    /// Create the associated token account `token` of `owner` for `mint`,
    /// its storage deposit paid by `payer`.
    CreateAssociatedTokenAccount { token: Pubkey, mint: Pubkey, owner: Pubkey, payer: Pubkey },
    /// Burn `amount` tokens of `mint` out of the token account `token`.
    BurnTokens { token: Pubkey, mint: Pubkey, owner: Pubkey, amount: u64, decimals: u8 },
    /// Mint `amount` tokens of `mint` into the token account `token`.
    MintTokens {
        token: Pubkey,
        mint: Pubkey,
        mint_authority: Pubkey,
        amount: u64,
        decimals: u8,
        signer_seeds: Vec<Vec<u8>>,
    },
    /// Move `amount` tokens of `mint` from `from_token` to `to_token`.
    TransferTokens {
        mint: Pubkey,
        from_owner: Pubkey,
        from_token: Pubkey,
        to_token: Pubkey,
        amount: u64,
        decimals: u8,
        signer_seeds: Vec<Vec<u8>>,
    },
    /// Overwrite the first bytes of the record `account` with `data`.
    Write { account: Pubkey, data: Vec<u8> },
}

/// The mathematical value of an [`Effect`].
pub ghost enum EffectView {
    CreateAccount {
        target: Pubkey,
        funding: Pubkey,
        size: usize,
        owner: Pubkey,
        signer_seeds: Seq<Seq<u8>>,
    },
    Realloc { target: Pubkey, funding: Pubkey, new_size: usize, refund: bool },
    Close { target: Pubkey, receiver: Pubkey },
    TransferLamports { from: Pubkey, to: Pubkey, lamports: u64, signer_seeds: Seq<Seq<u8>> },
    TransferMintAuthority { mint: Pubkey, from: Pubkey, to: Pubkey, signer_seeds: Seq<Seq<u8>> },
    CreateAssociatedTokenAccount { token: Pubkey, mint: Pubkey, owner: Pubkey, payer: Pubkey },
    BurnTokens { token: Pubkey, mint: Pubkey, owner: Pubkey, amount: u64, decimals: u8 },
    MintTokens {
        token: Pubkey,
        mint: Pubkey,
        mint_authority: Pubkey,
        amount: u64,
        decimals: u8,
        signer_seeds: Seq<Seq<u8>>,
    },
    TransferTokens {
        mint: Pubkey,
        from_owner: Pubkey,
        from_token: Pubkey,
        to_token: Pubkey,
        amount: u64,
        decimals: u8,
        signer_seeds: Seq<Seq<u8>>,
    },
    Write { account: Pubkey, data: Seq<u8> },
}

impl DeepView for Effect {
    type V = EffectView;

    open spec fn deep_view(&self) -> EffectView {
        match *self {
            Effect::CreateAccount {
                target,
                funding,
                size,
                owner,
                signer_seeds,
            } => EffectView::CreateAccount {
                target,
                funding,
                size,
                owner,
                signer_seeds: signer_seeds.deep_view(),
            },
            Effect::Realloc { target, funding, new_size, refund } => EffectView::Realloc {
                target,
                funding,
                new_size,
                refund,
            },
            Effect::Close { target, receiver } => EffectView::Close { target, receiver },
            Effect::TransferLamports {
                from,
                to,
                lamports,
                signer_seeds,
            } => EffectView::TransferLamports {
                from,
                to,
                lamports,
                signer_seeds: signer_seeds.deep_view(),
            },
            Effect::TransferMintAuthority {
                mint,
                from,
                to,
                signer_seeds,
            } => EffectView::TransferMintAuthority {
                mint,
                from,
                to,
                signer_seeds: signer_seeds.deep_view(),
            },
            Effect::CreateAssociatedTokenAccount {
                token,
                mint,
                owner,
                payer,
            } => EffectView::CreateAssociatedTokenAccount {
                token,
                mint,
                owner,
                payer,
            },
            Effect::BurnTokens { token, mint, owner, amount, decimals } => EffectView::BurnTokens {
                token,
                mint,
                owner,
                amount,
                decimals,
            },
            Effect::MintTokens {
                token,
                mint,
                mint_authority,
                amount,
                decimals,
                signer_seeds,
            } => EffectView::MintTokens {
                token,
                mint,
                mint_authority,
                amount,
                decimals,
                signer_seeds: signer_seeds.deep_view(),
            },
            Effect::TransferTokens {
                mint,
                from_owner,
                from_token,
                to_token,
                amount,
                decimals,
                signer_seeds,
            } => EffectView::TransferTokens {
                mint,
                from_owner,
                from_token,
                to_token,
                amount,
                decimals,
                signer_seeds: signer_seeds.deep_view(),
            },
            Effect::Write { account, data } => EffectView::Write { account, data: data@ },
        }
    }
}

/// Whether an outcome is the expected one: the same failure, or requests
/// with the expected values.
pub open spec fn effects_match(
    result: Result<Vec<Effect>, ProgramError>,
    expected: Result<Seq<EffectView>, ProgramError>,
) -> bool {
    match result {
        Ok(effects) => expected == Ok::<Seq<EffectView>, ProgramError>(effects.deep_view()),
        Err(e) => expected == Err::<Seq<EffectView>, ProgramError>(e),
    }
}

/// Whether an outcome that carries a value beside its requests is the
/// expected one.
pub open spec fn value_and_effects_match<T>(
    result: Result<(T, Vec<Effect>), ProgramError>,
    expected: Result<(T, Seq<EffectView>), ProgramError>,
) -> bool {
    match result {
        Ok((value, effects)) => expected == Ok::<(T, Seq<EffectView>), ProgramError>(
            (value, effects.deep_view()),
        ),
        Err(e) => expected == Err::<(T, Seq<EffectView>), ProgramError>(e),
    }
}

/// The seeds of a program-owned address with the suffix byte of its
/// derivation behind them: what signs a request in the name of the address.
pub open spec fn spec_with_bump(seeds: Seq<Seq<u8>>, bump: u8) -> Seq<Seq<u8>> {
    seeds.push(seq![bump])
}

/// Puts the suffix byte of a derivation behind its seeds.
pub fn with_bump(seeds: Vec<Vec<u8>>, bump: u8) -> (signer_seeds: Vec<Vec<u8>>)
    ensures
        signer_seeds.deep_view() == spec_with_bump(seeds.deep_view(), bump),
{
    let mut seeds = seeds;
    let mut last: Vec<u8> = Vec::new();
    last.push(bump);
    assert(last@ =~= seq![bump]);
    push_seed(&mut seeds, last);
    seeds
}

/// A list of requests that holds none.
pub fn no_effects() -> (all: Vec<Effect>)
    ensures
        all.deep_view() == Seq::<EffectView>::empty(),
{
    let all: Vec<Effect> = Vec::new();
    assert(all.deep_view() =~= Seq::<EffectView>::empty());
    all
}

/// Puts one more request behind the others.
pub fn push_effect(all: &mut Vec<Effect>, effect: Effect)
    ensures
        final(all).deep_view() == old(all).deep_view().push(effect.deep_view()),
{
    all.push(effect);
    assert(all.deep_view() =~= old(all).deep_view().push(effect.deep_view()));
}

/// Puts the requests of `more` behind those of `all`.
pub fn append_effects(all: &mut Vec<Effect>, more: Vec<Effect>)
    ensures
        final(all).deep_view() == old(all).deep_view() + more.deep_view(),
{
    let mut more = more;
    let ghost before = all.deep_view();
    let ghost added = more.deep_view();
    all.append(&mut more);
    assert(all.deep_view() =~= before + added);
}

/// The list that holds the one request `effect`.
pub fn single_effect(effect: Effect) -> (all: Vec<Effect>)
    ensures
        all.deep_view() == seq![effect.deep_view()],
{
    let mut all: Vec<Effect> = Vec::new();
    all.push(effect);
    assert(all.deep_view() =~= seq![effect.deep_view()]);
    all
}

/// The value of a buffer of bytes is its content.
pub proof fn lemma_bytes_deep_view(bytes: Vec<u8>)
    ensures
        bytes.deep_view() == bytes@,
{
    assert(bytes.deep_view() =~= bytes@);
}

/// A list of seeds that holds none.
pub fn no_seeds() -> (seeds: Vec<Vec<u8>>)
    ensures
        seeds.deep_view() == Seq::<Seq<u8>>::empty(),
{
    let seeds: Vec<Vec<u8>> = Vec::new();
    assert(seeds.deep_view() =~= Seq::<Seq<u8>>::empty());
    seeds
}

/// Puts one more seed behind the others.
pub fn push_seed(seeds: &mut Vec<Vec<u8>>, seed: Vec<u8>)
    ensures
        final(seeds).deep_view() == old(seeds).deep_view().push(seed@),
{
    proof {
        lemma_bytes_deep_view(seed);
    }
    seeds.push(seed);
    assert(seeds.deep_view() =~= old(seeds).deep_view().push(seed@));
}

/// The seeds that sign a request: those given, or none.
pub open spec fn seeds_or_none(signer_seeds: Option<Vec<Vec<u8>>>) -> Seq<Seq<u8>> {
    match signer_seeds {
        Some(seeds) => seeds.deep_view(),
        None => Seq::empty(),
    }
}

fn unwrap_seeds(signer_seeds: Option<Vec<Vec<u8>>>) -> (seeds: Vec<Vec<u8>>)
    ensures
        seeds.deep_view() == seeds_or_none(signer_seeds),
{
    match signer_seeds {
        Some(seeds) => seeds,
        None => {
            let seeds: Vec<Vec<u8>> = Vec::new();
            assert(seeds.deep_view() =~= Seq::<Seq<u8>>::empty());
            seeds
        },
    }
}

/// Asks for a new record of the given size.
pub fn create_account(
    target_account: &AccountInfo,
    funding_account: &AccountInfo,
    size: usize,
    owner: &Pubkey,
    signer_seeds: Option<Vec<Vec<u8>>>,
) -> (effect: Effect)
    ensures
        effect.deep_view() == (EffectView::CreateAccount {
            target: target_account.key,
            funding: funding_account.key,
            size,
            owner: *owner,
            signer_seeds: seeds_or_none(signer_seeds),
        }),
{
    Effect::CreateAccount {
        target: target_account.key,
        funding: funding_account.key,
        size,
        owner: *owner,
        signer_seeds: unwrap_seeds(signer_seeds),
    }
}

/// Asks for a record to be resized, its storage deposit kept in step.
pub fn realloc_account(
    target_account: &AccountInfo,
    funding_account: &AccountInfo,
    new_size: usize,
    refund: bool,
) -> (effect: Effect)
    ensures
        effect.deep_view() == (EffectView::Realloc {
            target: target_account.key,
            funding: funding_account.key,
            new_size,
            refund,
        }),
{
    Effect::Realloc { target: target_account.key, funding: funding_account.key, new_size, refund }
}

/// How the storage deposit of a record moves when the record is resized.
#[derive(Clone, Copy, Debug, PartialEq, Eq, Structural)]
pub enum DepositChange {
    /// The funding record pays this much more into the deposit.
    TopUp(u64),
    /// The deposit hands this much back to the funding record.
    Refund(u64),
    /// The deposit stays as it is.
    Keep,
}

/// How the storage deposit moves when the deposit that the record's size
/// requires goes from `old_minimum_balance` to `new_minimum_balance`.
pub open spec fn spec_deposit_change(
    old_minimum_balance: u64,
    new_minimum_balance: u64,
    refund: bool,
) -> DepositChange {
    if new_minimum_balance > old_minimum_balance {
        DepositChange::TopUp((new_minimum_balance - old_minimum_balance) as u64)
    } else if refund {
        DepositChange::Refund((old_minimum_balance - new_minimum_balance) as u64)
    } else {
        DepositChange::Keep
    }
}

/// Decides how the storage deposit of a record follows its size: growth is
/// topped up by the exact difference, shrinking is refunded by the exact
/// difference if `refund` is set.
pub fn deposit_change(old_minimum_balance: u64, new_minimum_balance: u64, refund: bool) -> (change:
    DepositChange)
    ensures
        change == spec_deposit_change(old_minimum_balance, new_minimum_balance, refund),
{
    if new_minimum_balance > old_minimum_balance {
        DepositChange::TopUp(new_minimum_balance - old_minimum_balance)
    } else if refund {
        DepositChange::Refund(old_minimum_balance - new_minimum_balance)
    } else {
        DepositChange::Keep
    }
}

/// Asks for a record to be closed, its balance handed to the receiver.
pub fn close_account(target_account: &AccountInfo, receiving_account: &AccountInfo) -> (effect:
    Effect)
    ensures
        effect.deep_view() == (EffectView::Close {
            target: target_account.key,
            receiver: receiving_account.key,
        }),
{
    Effect::Close { target: target_account.key, receiver: receiving_account.key }
}

/// Asks for native currency to be moved.
pub fn transfer_lamports(
    from: &AccountInfo,
    to: &AccountInfo,
    lamports: u64,
    signer_seeds: Option<Vec<Vec<u8>>>,
) -> (effect: Effect)
    ensures
        effect.deep_view() == (EffectView::TransferLamports {
            from: from.key,
            to: to.key,
            lamports,
            signer_seeds: seeds_or_none(signer_seeds),
        }),
{
    Effect::TransferLamports {
        from: from.key,
        to: to.key,
        lamports,
        signer_seeds: unwrap_seeds(signer_seeds),
    }
}

/// The balances of two program-owned records after `lamports` have moved
/// from the first to the second: `(from_lamports - lamports, to_lamports +
/// lamports)`. Fails with `NumericalOverflow` where the first holds less
/// than `lamports` or the second would hold more than fits.
pub fn transfer_lamports_from_pdas(
    from_lamports: u64,
    to_lamports: u64,
    lamports: u64,
) -> (balances:
    Result<(u64, u64), ProgramError>)
    ensures
        balances == (if lamports <= from_lamports && to_lamports + lamports <= u64::MAX {
            Ok(((from_lamports - lamports) as u64, (to_lamports + lamports) as u64))
        } else {
            Err(failure(TokenRecipesError::NumericalOverflow))
        }),
{
    if lamports > from_lamports {
        return Err(ProgramError::from(TokenRecipesError::NumericalOverflow));
    }
    if lamports > u64::MAX - to_lamports {
        return Err(ProgramError::from(TokenRecipesError::NumericalOverflow));
    }
    Ok((from_lamports - lamports, to_lamports + lamports))
}

/// Asks for the authority to mint to be handed over.
pub fn transfer_mint_authority(
    mint: &AccountInfo,
    from: &AccountInfo,
    to: &AccountInfo,
    signer_seeds: Option<Vec<Vec<u8>>>,
) -> (effect: Effect)
    ensures
        effect.deep_view() == (EffectView::TransferMintAuthority {
            mint: mint.key,
            from: from.key,
            to: to.key,
            signer_seeds: seeds_or_none(signer_seeds),
        }),
{
    Effect::TransferMintAuthority {
        mint: mint.key,
        from: from.key,
        to: to.key,
        signer_seeds: unwrap_seeds(signer_seeds),
    }
}

/// Asks for an associated token account to be created.
pub fn create_associated_token_account(
    token_account: &AccountInfo,
    mint_account: &AccountInfo,
    owner_account: &AccountInfo,
    payer_account: &AccountInfo,
) -> (effect: Effect)
    ensures
        effect.deep_view() == (EffectView::CreateAssociatedTokenAccount {
            token: token_account.key,
            mint: mint_account.key,
            owner: owner_account.key,
            payer: payer_account.key,
        }),
{
    Effect::CreateAssociatedTokenAccount {
        token: token_account.key,
        mint: mint_account.key,
        owner: owner_account.key,
        payer: payer_account.key,
    }
}

/// Asks for tokens to be burned.
pub fn burn_tokens(
    token_account: &AccountInfo,
    mint_account: &AccountInfo,
    owner_account: &AccountInfo,
    amount: u64,
    decimals: u8,
) -> (effect: Effect)
    ensures
        effect.deep_view() == (EffectView::BurnTokens {
            token: token_account.key,
            mint: mint_account.key,
            owner: owner_account.key,
            amount,
            decimals,
        }),
{
    Effect::BurnTokens {
        token: token_account.key,
        mint: mint_account.key,
        owner: owner_account.key,
        amount,
        decimals,
    }
}

/// Asks for tokens to be minted.
pub fn mint_tokens(
    token_account: &AccountInfo,
    mint_account: &AccountInfo,
    mint_authority_account: &AccountInfo,
    amount: u64,
    decimals: u8,
    signer_seeds: Option<Vec<Vec<u8>>>,
) -> (effect: Effect)
    ensures
        effect.deep_view() == (EffectView::MintTokens {
            token: token_account.key,
            mint: mint_account.key,
            mint_authority: mint_authority_account.key,
            amount,
            decimals,
            signer_seeds: seeds_or_none(signer_seeds),
        }),
{
    Effect::MintTokens {
        token: token_account.key,
        mint: mint_account.key,
        mint_authority: mint_authority_account.key,
        amount,
        decimals,
        signer_seeds: unwrap_seeds(signer_seeds),
    }
}

/// Asks for tokens to be moved.
pub fn transfer_tokens(
    mint_account: &AccountInfo,
    from_owner_account: &AccountInfo,
    from_token_account: &AccountInfo,
    to_token_account: &AccountInfo,
    amount: u64,
    decimals: u8,
    signer_seeds: Option<Vec<Vec<u8>>>,
) -> (effect: Effect)
    ensures
        effect.deep_view() == (EffectView::TransferTokens {
            mint: mint_account.key,
            from_owner: from_owner_account.key,
            from_token: from_token_account.key,
            to_token: to_token_account.key,
            amount,
            decimals,
            signer_seeds: seeds_or_none(signer_seeds),
        }),
{
    Effect::TransferTokens {
        mint: mint_account.key,
        from_owner: from_owner_account.key,
        from_token: from_token_account.key,
        to_token: to_token_account.key,
        amount,
        decimals,
        signer_seeds: unwrap_seeds(signer_seeds),
    }
}

/// Asks for the first bytes of a record to be overwritten.
pub fn write_data(account: &AccountInfo, data: Vec<u8>) -> (effect: Effect)
    ensures
        effect.deep_view() == (EffectView::Write { account: account.key, data: data@ }),
{
    Effect::Write { account: account.key, data }
}

} // verus!
