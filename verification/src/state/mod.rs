//! The records that the program keeps on the ledger.

pub mod delegated_ingredient;
pub mod features;
pub mod ingredient_input;
pub mod ingredient_output;
pub mod ingredient_record;
pub mod key;
pub mod recipe;
