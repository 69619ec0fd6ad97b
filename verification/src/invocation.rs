//! The instructions by which the program asks the system program, the token
//! program and the associated-token-account program for what only they can
//! do.

use vstd::prelude::*;
use vstd::bytes::{spec_u32_to_le_bytes, spec_u64_to_le_bytes};
use crate::assertions::{associated_token_seeds, spec_associated_token_seeds};
use crate::codec::pubkey_of;
use crate::instruction::{AccountMeta, Instruction};
use crate::pubkey::{
    associated_token_program, associated_token_program_id, find_program_address, program_address,
    system_program_id, token_program_id, Pubkey,
};
use crate::utils::{Effect, EffectView};
use solana_program::pubkey::Pubkey as OutsidePubkey;
use solana_program::system_instruction;
use spl_token::instruction::AuthorityType;

verus! {

/// The mathematical value of an [`Instruction`].
pub ghost struct InstructionView {
    pub program_id: Pubkey,
    pub accounts: Seq<AccountMeta>,
    pub data: Seq<u8>,
}

impl View for Instruction {
    type V = InstructionView;

    open spec fn view(&self) -> InstructionView {
        InstructionView {
            program_id: self.program_id,
            accounts: self.accounts@,
            data: self.data@,
        }
    }
}

/// A record that an instruction writes to.
pub open spec fn writable(pubkey: Pubkey, is_signer: bool) -> AccountMeta {
    AccountMeta { pubkey, is_signer, is_writable: true }
}

/// A record that an instruction only reads.
pub open spec fn readonly(pubkey: Pubkey, is_signer: bool) -> AccountMeta {
    AccountMeta { pubkey, is_signer, is_writable: false }
}

/// The instruction by which the system program creates the record `to`
/// with `space` bytes, owned by `owner`, and `from` pays `lamports` into
/// it: both sign and are written; the payload is the tag 0 in four bytes,
/// the lamports, the space, and the owner.
pub open spec fn system_create_account_instruction(
    from: Pubkey,
    to: Pubkey,
    lamports: u64,
    space: u64,
    owner: Pubkey,
) -> InstructionView {
    InstructionView {
        program_id: system_program_id(),
        accounts: seq![writable(from, true), writable(to, true)],
        data: spec_u32_to_le_bytes(0) + spec_u64_to_le_bytes(lamports) + spec_u64_to_le_bytes(
            space,
        ) + owner@,
    }
}

/// The instruction by which the system program moves `lamports` from
/// `from`, which signs, to `to`: the payload is the tag 2 in four bytes and
/// the lamports.
pub open spec fn system_transfer_instruction(
    from: Pubkey,
    to: Pubkey,
    lamports: u64,
) -> InstructionView {
    InstructionView {
        program_id: system_program_id(),
        accounts: seq![writable(from, true), writable(to, false)],
        data: spec_u32_to_le_bytes(2) + spec_u64_to_le_bytes(lamports),
    }
}

/// The instruction by which the token program hands the authority to mint
/// tokens of `mint` over from `from`, which signs, to `to`: the payload is
/// the tag 6, the kind of authority, 0 for minting, and the new authority
/// behind a byte that says that there is one.
pub open spec fn set_mint_authority_instruction(
    mint: Pubkey,
    to: Pubkey,
    from: Pubkey,
) -> InstructionView {
    InstructionView {
        program_id: token_program_id(),
        accounts: seq![writable(mint, false), readonly(from, true)],
        data: seq![6u8, 0u8, 1u8] + to@,
    }
}

/// The instruction by which the associated-token-account program creates
/// the associated token account of `wallet` for `mint`, paid for by
/// `payer`, which signs. It names the payer, the address of the account,
/// which is derived from the wallet, the token program and the mint, the
/// wallet, the mint, the system program and the token program; the payload
/// is the tag 0.
pub open spec fn create_associated_token_account_instruction(
    payer: Pubkey,
    wallet: Pubkey,
    mint: Pubkey,
) -> InstructionView {
    InstructionView {
        program_id: associated_token_program_id(),
        accounts: seq![
            writable(payer, true),
            writable(
                pubkey_of(
                    program_address(
                        spec_associated_token_seeds(wallet, mint),
                        associated_token_program_id()@,
                    ).unwrap().0,
                ),
                false,
            ),
            readonly(wallet, false),
            readonly(mint, false),
            readonly(system_program_id(), false),
            readonly(token_program_id(), false),
        ],
        data: seq![0u8],
    }
}

/// The instruction by which the token program burns `amount` tokens of
/// `mint` out of the account `token` of `owner`, which signs: the payload
/// is the tag 15, the amount and the decimals.
pub open spec fn burn_checked_instruction(
    token: Pubkey,
    mint: Pubkey,
    owner: Pubkey,
    amount: u64,
    decimals: u8,
) -> InstructionView {
    InstructionView {
        program_id: token_program_id(),
        accounts: seq![writable(token, false), writable(mint, false), readonly(owner, true)],
        data: seq![15u8] + spec_u64_to_le_bytes(amount) + seq![decimals],
    }
}

/// The instruction by which the token program mints `amount` tokens of
/// `mint` into the account `token`, in the name of `authority`, which
/// signs: the payload is the tag 14, the amount and the decimals.
pub open spec fn mint_to_checked_instruction(
    mint: Pubkey,
    token: Pubkey,
    authority: Pubkey,
    amount: u64,
    decimals: u8,
) -> InstructionView {
    InstructionView {
        program_id: token_program_id(),
        accounts: seq![writable(mint, false), writable(token, false), readonly(authority, true)],
        data: seq![14u8] + spec_u64_to_le_bytes(amount) + seq![decimals],
    }
}

/// The instruction by which the token program moves `amount` tokens of
/// `mint` from the account `source` to the account `destination`, in the
/// name of `authority`, which signs: the payload is the tag 12, the amount
/// and the decimals.
pub open spec fn transfer_checked_instruction(
    source: Pubkey,
    mint: Pubkey,
    destination: Pubkey,
    authority: Pubkey,
    amount: u64,
    decimals: u8,
) -> InstructionView {
    InstructionView {
        program_id: token_program_id(),
        accounts: seq![
            writable(source, false),
            readonly(mint, false),
            writable(destination, false),
            readonly(authority, true),
        ],
        data: seq![12u8] + spec_u64_to_le_bytes(amount) + seq![decimals],
    }
}

/// Whether an instruction was built and is the expected one.
pub open spec fn is_built(built: Option<Instruction>, expected: InstructionView) -> bool {
    match built {
        Some(instruction) => instruction@ == expected,
        None => false,
    }
}

/// Builds an instruction with `system_instruction::create_account` of
/// `solana_program`. The contract states the instruction that the outside
/// function builds: the program, the records and the payload.
#[verifier::external_body]
fn system_create_account(
    from: &Pubkey,
    to: &Pubkey,
    lamports: u64,
    space: u64,
    owner: &Pubkey,
) -> (built: Instruction)
    ensures
        built@ == system_create_account_instruction(*from, *to, lamports, space, *owner),
{
    let key = |key: &Pubkey| OutsidePubkey::new_from_array(key.bytes);
    let (from, to, owner) = (key(from), key(to), key(owner));
    let built = system_instruction::create_account(&from, &to, lamports, space, &owner);
    Instruction {
        program_id: Pubkey { bytes: built.program_id.to_bytes() },
        accounts: built.accounts.iter().map(|meta| AccountMeta {
            pubkey: Pubkey { bytes: meta.pubkey.to_bytes() },
            is_signer: meta.is_signer,
            is_writable: meta.is_writable,
        }).collect(),
        data: built.data,
    }
}

/// Builds an instruction with `system_instruction::transfer` of
/// `solana_program`. The contract states the instruction that the outside
/// function builds: the program, the records and the payload.
#[verifier::external_body]
fn system_transfer(from: &Pubkey, to: &Pubkey, lamports: u64) -> (built: Instruction)
    ensures
        built@ == system_transfer_instruction(*from, *to, lamports),
{
    let key = |key: &Pubkey| OutsidePubkey::new_from_array(key.bytes);
    let built = system_instruction::transfer(&key(from), &key(to), lamports);
    Instruction {
        program_id: Pubkey { bytes: built.program_id.to_bytes() },
        accounts: built.accounts.iter().map(|meta| AccountMeta {
            pubkey: Pubkey { bytes: meta.pubkey.to_bytes() },
            is_signer: meta.is_signer,
            is_writable: meta.is_writable,
        }).collect(),
        data: built.data,
    }
}

/// Builds an instruction with `instruction::set_authority` of `spl_token`,
/// for the authority to mint, the token program's own address and no
/// further signers. The outside function fails for another program's
/// address only, so the contract says that an instruction is built, and
/// states it: the program, the records and the payload.
#[verifier::external_body]
fn set_mint_authority(mint: &Pubkey, to: &Pubkey, from: &Pubkey) -> (built: Option<Instruction>)
    ensures
        is_built(built, set_mint_authority_instruction(*mint, *to, *from)),
{
    let key = |key: &Pubkey| OutsidePubkey::new_from_array(key.bytes);
    let (mint, to, from) = (key(mint), key(to), key(from));
    let built = spl_token::instruction::set_authority(
        &spl_token::id(), &mint, Some(&to), AuthorityType::MintTokens, &from, &[],
    ).ok()?;
    Some(Instruction {
        program_id: Pubkey { bytes: built.program_id.to_bytes() },
        accounts: built.accounts.iter().map(|meta| AccountMeta {
            pubkey: Pubkey { bytes: meta.pubkey.to_bytes() },
            is_signer: meta.is_signer,
            is_writable: meta.is_writable,
        }).collect(),
        data: built.data,
    })
}

/// Builds an instruction with `instruction::create_associated_token_account`
/// of `spl_associated_token_account`, for the token program's own address.
/// The outside function derives the address of the account and does not
/// return where the derivation finds none, so the contract asks for one to
/// exist. It states the instruction that the outside function builds: the
/// program, the records, the derived address among them, and the payload.
#[verifier::external_body]
fn create_associated_token_account(payer: &Pubkey, wallet: &Pubkey, mint: &Pubkey) -> (built:
    Instruction)
    requires
        program_address(
            spec_associated_token_seeds(*wallet, *mint),
            associated_token_program_id()@,
        ) is Some,
    ensures
        built@ == create_associated_token_account_instruction(*payer, *wallet, *mint),
{
    let key = |key: &Pubkey| OutsidePubkey::new_from_array(key.bytes);
    let built = spl_associated_token_account::instruction::create_associated_token_account(
        &key(payer), &key(wallet), &key(mint), &spl_token::id(),
    );
    Instruction {
        program_id: Pubkey { bytes: built.program_id.to_bytes() },
        accounts: built.accounts.iter().map(|meta| AccountMeta {
            pubkey: Pubkey { bytes: meta.pubkey.to_bytes() },
            is_signer: meta.is_signer,
            is_writable: meta.is_writable,
        }).collect(),
        data: built.data,
    }
}

/// Builds an instruction with `instruction::burn_checked` of `spl_token`,
/// for the token program's own address and no further signers. The outside
/// function fails for another program's address only, so the contract says
/// that an instruction is built, and states it: the program, the records
/// and the payload.
#[verifier::external_body]
fn burn_checked(token: &Pubkey, mint: &Pubkey, owner: &Pubkey, amount: u64, decimals: u8) -> (built:
    Option<Instruction>)
    ensures
        is_built(built, burn_checked_instruction(*token, *mint, *owner, amount, decimals)),
{
    let key = |key: &Pubkey| OutsidePubkey::new_from_array(key.bytes);
    let (token, mint, owner) = (key(token), key(mint), key(owner));
    let built = spl_token::instruction::burn_checked(
        &spl_token::id(), &token, &mint, &owner, &[], amount, decimals,
    ).ok()?;
    Some(Instruction {
        program_id: Pubkey { bytes: built.program_id.to_bytes() },
        accounts: built.accounts.iter().map(|meta| AccountMeta {
            pubkey: Pubkey { bytes: meta.pubkey.to_bytes() },
            is_signer: meta.is_signer,
            is_writable: meta.is_writable,
        }).collect(),
        data: built.data,
    })
}

/// Builds an instruction with `instruction::mint_to_checked` of `spl_token`,
/// for the token program's own address and no further signers. The outside
/// function fails for another program's address only, so the contract says
/// that an instruction is built, and states it: the program, the records
/// and the payload.
#[verifier::external_body]
fn mint_to_checked(
    mint: &Pubkey,
    token: &Pubkey,
    authority: &Pubkey,
    amount: u64,
    decimals: u8,
) -> (built: Option<Instruction>)
    ensures
        is_built(built, mint_to_checked_instruction(*mint, *token, *authority, amount, decimals)),
{
    let key = |key: &Pubkey| OutsidePubkey::new_from_array(key.bytes);
    let (mint, token, owner) = (key(mint), key(token), key(authority));
    let built = spl_token::instruction::mint_to_checked(
        &spl_token::id(), &mint, &token, &owner, &[], amount, decimals,
    ).ok()?;
    Some(Instruction {
        program_id: Pubkey { bytes: built.program_id.to_bytes() },
        accounts: built.accounts.iter().map(|meta| AccountMeta {
            pubkey: Pubkey { bytes: meta.pubkey.to_bytes() },
            is_signer: meta.is_signer,
            is_writable: meta.is_writable,
        }).collect(),
        data: built.data,
    })
}

/// Builds an instruction with `instruction::transfer_checked` of
/// `spl_token`, for the token program's own address and no further
/// signers. The outside function fails for another program's address only,
/// so the contract says that an instruction is built, and states it: the
/// program, the records and the payload.
#[verifier::external_body]
fn transfer_checked(
    source: &Pubkey,
    mint: &Pubkey,
    destination: &Pubkey,
    authority: &Pubkey,
    amount: u64,
    decimals: u8,
) -> (built: Option<Instruction>)
    ensures
        is_built(
            built,
            transfer_checked_instruction(
                *source,
                *mint,
                *destination,
                *authority,
                amount,
                decimals,
            ),
        ),
{
    let key = |key: &Pubkey| OutsidePubkey::new_from_array(key.bytes);
    let (source, mint, to, owner) = (key(source), key(mint), key(destination), key(authority));
    let built = spl_token::instruction::transfer_checked(
        &spl_token::id(), &source, &mint, &to, &owner, &[], amount, decimals,
    ).ok()?;
    Some(Instruction {
        program_id: Pubkey { bytes: built.program_id.to_bytes() },
        accounts: built.accounts.iter().map(|meta| AccountMeta {
            pubkey: Pubkey { bytes: meta.pubkey.to_bytes() },
            is_signer: meta.is_signer,
            is_writable: meta.is_writable,
        }).collect(),
        data: built.data,
    })
}

/// Whether an instruction is the expected one, or is missing as expected.
pub open spec fn instruction_matches(
    built: Option<Instruction>,
    expected: Option<InstructionView>,
) -> bool {
    match built {
        Some(instruction) => expected == Some(instruction@),
        None => expected is None,
    }
}

impl EffectView {
    /// The instruction to another program by which the request is met,
    /// where `lamports` is what the ledger asks to be paid into the storage
    /// deposit of a record that is created or grows. A record is resized,
    /// closed and written by the program itself, without an instruction to
    /// another, but for the payment into a deposit that grows. There is no
    /// instruction to create an associated token account where none can be
    /// derived for the owner and the mint.
    pub open spec fn spec_instruction(self, lamports: u64) -> Option<InstructionView> {
        match self {
            EffectView::CreateAccount {
                target,
                funding,
                size,
                owner,
                ..
            } => Some(
                system_create_account_instruction(funding, target, lamports, size as u64, owner),
            ),
            EffectView::Realloc { target, funding, .. } => Some(
                system_transfer_instruction(funding, target, lamports),
            ),
            EffectView::Close { .. } => None,
            EffectView::TransferLamports { from, to, lamports: moved, .. } => Some(
                system_transfer_instruction(from, to, moved),
            ),
            EffectView::TransferMintAuthority {
                mint,
                from,
                to,
                ..
            } => Some(set_mint_authority_instruction(mint, to, from)),
            EffectView::CreateAssociatedTokenAccount {
                mint,
                owner,
                payer,
                ..
            } => if program_address(
                spec_associated_token_seeds(owner, mint),
                associated_token_program_id()@,
            ) is Some {
                Some(create_associated_token_account_instruction(payer, owner, mint))
            } else {
                None
            },
            EffectView::BurnTokens {
                token,
                mint,
                owner,
                amount,
                decimals,
            } => Some(burn_checked_instruction(token, mint, owner, amount, decimals)),
            EffectView::MintTokens {
                token,
                mint,
                mint_authority,
                amount,
                decimals,
                ..
            } => Some(mint_to_checked_instruction(mint, token, mint_authority, amount, decimals)),
            EffectView::TransferTokens {
                mint,
                from_owner,
                from_token,
                to_token,
                amount,
                decimals,
                ..
            } => Some(
                transfer_checked_instruction(
                    from_token,
                    mint,
                    to_token,
                    from_owner,
                    amount,
                    decimals,
                ),
            ),
            EffectView::Write { .. } => None,
        }
    }
}

impl Effect {
    /// Builds the instruction to another program by which the request is
    /// met, if it is met by one.
    pub fn instruction(&self, lamports: u64) -> (built: Option<Instruction>)
        ensures
            instruction_matches(built, self.deep_view().spec_instruction(lamports)),
    {
        match self {
            Effect::CreateAccount { target, funding, size, owner, .. } => Some(
                system_create_account(funding, target, lamports, *size as u64, owner),
            ),
            Effect::Realloc { target, funding, .. } => Some(
                system_transfer(funding, target, lamports),
            ),
            Effect::Close { .. } => None,
            Effect::TransferLamports { from, to, lamports: moved, .. } => Some(
                system_transfer(from, to, *moved),
            ),
            Effect::TransferMintAuthority { mint, from, to, .. } => set_mint_authority(
                mint,
                to,
                from,
            ),
            Effect::CreateAssociatedTokenAccount { mint, owner, payer, .. } => {
                let seeds = associated_token_seeds(owner, mint);
                match find_program_address(&seeds, &associated_token_program()) {
                    Some(_) => Some(create_associated_token_account(payer, owner, mint)),
                    None => None,
                }
            },
            Effect::BurnTokens { token, mint, owner, amount, decimals } => burn_checked(
                token,
                mint,
                owner,
                *amount,
                *decimals,
            ),
            Effect::MintTokens {
                token,
                mint,
                mint_authority,
                amount,
                decimals,
                ..
            } => mint_to_checked(mint, token, mint_authority, *amount, *decimals),
            Effect::TransferTokens {
                mint,
                from_owner,
                from_token,
                to_token,
                amount,
                decimals,
                ..
            } => transfer_checked(from_token, mint, to_token, from_owner, *amount, *decimals),
            Effect::Write { .. } => None,
        }
    }
}

} // verus!
