//! The discriminator tag that every record of the program starts with.

use vstd::prelude::*;

verus! {

/// The kind of a record, kept in its first byte.
#[derive(Clone, Copy, Debug, PartialEq, Eq, Structural)]
pub enum Key {
    Uninitialized,
    Recipe,
    IngredientRecord,
    DelegatedIngredient,
    FeesFeature,
    AdditionalOutputsFeature,
    TransferInputsFeature,
    MaxSupplyFeature,
    SolPaymentFeature,
    WisdomFeature,
}

impl Key {
    /// The number of bytes that a tag takes in a record.
    pub const LEN: usize = 1;

    /// The byte that stands for the tag: its position in the declaration.
    pub open spec fn spec_byte(self) -> u8 {
        match self {
            Key::Uninitialized => 0,
            Key::Recipe => 1,
            Key::IngredientRecord => 2,
            Key::DelegatedIngredient => 3,
            Key::FeesFeature => 4,
            Key::AdditionalOutputsFeature => 5,
            Key::TransferInputsFeature => 6,
            Key::MaxSupplyFeature => 7,
            Key::SolPaymentFeature => 8,
            Key::WisdomFeature => 9,
        }
    }

    /// The tag that a byte stands for, if any.
    pub open spec fn spec_from_byte(byte: u8) -> Option<Key> {
        match byte {
            0 => Some(Key::Uninitialized),
            1 => Some(Key::Recipe),
            2 => Some(Key::IngredientRecord),
            3 => Some(Key::DelegatedIngredient),
            4 => Some(Key::FeesFeature),
            5 => Some(Key::AdditionalOutputsFeature),
            6 => Some(Key::TransferInputsFeature),
            7 => Some(Key::MaxSupplyFeature),
            8 => Some(Key::SolPaymentFeature),
            9 => Some(Key::WisdomFeature),
            _ => None,
        }
    }

    /// The byte that stands for the tag.
    pub fn to_byte(&self) -> (byte: u8)
        ensures
            byte == self.spec_byte(),
    {
        match self {
            Key::Uninitialized => 0,
            Key::Recipe => 1,
            Key::IngredientRecord => 2,
            Key::DelegatedIngredient => 3,
            Key::FeesFeature => 4,
            Key::AdditionalOutputsFeature => 5,
            Key::TransferInputsFeature => 6,
            Key::MaxSupplyFeature => 7,
            Key::SolPaymentFeature => 8,
            Key::WisdomFeature => 9,
        }
    }

    /// The tag that a byte stands for, if any.
    pub fn from_byte(byte: u8) -> (key: Option<Key>)
        ensures
            key == Key::spec_from_byte(byte),
    {
        match byte {
            0 => Some(Key::Uninitialized),
            1 => Some(Key::Recipe),
            2 => Some(Key::IngredientRecord),
            3 => Some(Key::DelegatedIngredient),
            4 => Some(Key::FeesFeature),
            5 => Some(Key::AdditionalOutputsFeature),
            6 => Some(Key::TransferInputsFeature),
            7 => Some(Key::MaxSupplyFeature),
            8 => Some(Key::SolPaymentFeature),
            9 => Some(Key::WisdomFeature),
            _ => None,
        }
    }
}

/// A tag that was written is read back.
pub proof fn lemma_key_round_trip(key: Key)
    ensures
        Key::spec_from_byte(key.spec_byte()) == Some(key),
{
}

/// A byte that stands for a tag is the byte of that tag.
pub proof fn lemma_key_byte_round_trip(byte: u8)
    ensures
        match Key::spec_from_byte(byte) {
            Some(key) => key.spec_byte() == byte,
            None => byte >= 10,
        },
{
}

} // verus!
