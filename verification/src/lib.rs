//! Crafting recipes for tokens: the records, rules and settlement of a
//! ledger-resident crafting economy.
//!
//! An authority defines a recipe: what a craft consumes (tokens that are
//! burned or transferred, native currency that is paid) and what it
//! produces (tokens that are minted, up to a maximum supply where the
//! recipe says so). Leveled features limit the shape of a recipe and decide
//! how the fee of a craft is shared and how much experience it earns.
//!
//! The library decides; it does not touch the ledger. Every instruction
//! takes the records of the ledger as they stand ([`account::AccountInfo`])
//! and hands back, in order, what it asks of the ledger
//! ([`utils::Effect`]), or a failure and nothing else. Whoever runs the
//! program does what was asked, and drops everything where an instruction
//! fails. A craft is begun ([`processor::craft::craft`]) and then taken
//! step by step ([`processor::craft::Crafting`]), each step decided from
//! the records as the steps before it left them.
//!
//! The records are kept in a fixed binary layout, which the library writes
//! and reads itself ([`state`]). Addresses are derived, token records read
//! and instructions to other programs built by the crates that define
//! them.

pub mod account;
pub mod assertions;
pub mod codec;
pub mod error;
pub mod instruction;
pub mod invocation;
pub mod processor;
pub mod pubkey;
pub mod state;
pub mod utils;
