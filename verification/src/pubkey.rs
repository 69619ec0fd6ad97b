//! Addresses of ledger records, the addresses of the programs that the
//! crafting rules speak of, and the derivation of program-owned addresses.

use vstd::prelude::*;
use vstd::std_specs::cmp::PartialEqSpecImpl;

verus! {

/// The 32-byte address of a record on the ledger.
#[derive(Clone, Copy, Debug, Eq, Hash)]
pub struct Pubkey {
    pub bytes: [u8; 32],
}

impl View for Pubkey {
    type V = Seq<u8>;

    open spec fn view(&self) -> Seq<u8> {
        self.bytes@
    }
}

/// Whether two byte arrays hold the same bytes.
fn same_bytes(a: &[u8; 32], b: &[u8; 32]) -> (same: bool)
    ensures
        same == (a == b),
{
    let mut i: usize = 0;
    while i < 32
        invariant
            i <= 32,
            forall|j: int| 0 <= j < i ==> a@[j] == b@[j],
        decreases 32 - i,
    {
        if a[i] != b[i] {
            return false;
        }
        i += 1;
    }
    assert(a =~= b);
    true
}

impl PartialEq for Pubkey {
    fn eq(&self, other: &Self) -> (same: bool) {
        same_bytes(&self.bytes, &other.bytes)
    }
}

impl PartialEqSpecImpl for Pubkey {
    open spec fn obeys_eq_spec() -> bool {
        true
    }

    open spec fn eq_spec(&self, other: &Self) -> bool {
        *self == *other
    }
}

/// Two addresses with the same bytes are the same address.
pub proof fn lemma_same_view_same_pubkey(a: Pubkey, b: Pubkey)
    requires
        a@ == b@,
    ensures
        a == b,
{
    assert(a.bytes =~= b.bytes);
}

impl Pubkey {
    /// The address made of the given bytes.
    pub fn new_from_array(bytes: [u8; 32]) -> (key: Pubkey)
        ensures
            key.bytes == bytes,
    {
        Pubkey { bytes }
    }

    /// The bytes of the address.
    pub fn to_bytes(&self) -> (bytes: [u8; 32])
        ensures
            bytes == self.bytes,
    {
        self.bytes
    }

    /// The bytes of the address, as a growable buffer.
    pub fn to_vec(&self) -> (bytes: Vec<u8>)
        ensures
            bytes@ == self@,
    {
        let mut out: Vec<u8> = Vec::with_capacity(32);
        let mut i: usize = 0;
        while i < 32
            invariant
                i <= 32,
                out@ == self.bytes@.subrange(0, i as int),
            decreases 32 - i,
        {
            out.push(self.bytes[i]);
            assert(out@ =~= self.bytes@.subrange(0, i + 1));
            i += 1;
        }
        assert(out@ =~= self.bytes@);
        out
    }
}

/// The bytes of the address of the crafting program.
pub const ID: [u8; 32] = [
    77, 203, 162, 130, 195, 161, 211, 175, 127, 73, 231, 0, 61, 209, 104, 121, 252, 183, 30, 69,
    242, 23, 215, 166, 37, 8, 18, 206, 222, 220, 86, 95,
];

/// The bytes of the address of the system program, which creates records
/// and moves native currency.
pub const SYSTEM_PROGRAM_ID: [u8; 32] = [
    0, 0, 0, 0, 0, 0, 0, 0, 0, 0, 0, 0, 0, 0, 0, 0, 0, 0, 0, 0, 0, 0, 0, 0, 0, 0, 0, 0, 0, 0, 0, 0,
];

/// The bytes of the address of the token program.
pub const TOKEN_PROGRAM_ID: [u8; 32] = [
    6, 221, 246, 225, 215, 101, 161, 147, 217, 203, 225, 70, 206, 235, 121, 172, 28, 180, 133, 237,
    95, 91, 55, 145, 58, 140, 245, 133, 126, 255, 0, 169,
];

/// The bytes of the address of the associated-token-account program.
pub const ASSOCIATED_TOKEN_PROGRAM_ID: [u8; 32] = [
    140, 151, 37, 143, 78, 36, 137, 241, 187, 61, 16, 41, 20, 142, 13, 131, 11, 90, 19, 153, 218,
    255, 16, 132, 4, 142, 123, 216, 219, 233, 248, 89,
];

/// The address of the crafting program, which owns every record it keeps.
pub open spec fn program_id() -> Pubkey {
    Pubkey { bytes: ID }
}

/// The address of the system program.
pub open spec fn system_program_id() -> Pubkey {
    Pubkey { bytes: SYSTEM_PROGRAM_ID }
}

/// The address of the token program.
pub open spec fn token_program_id() -> Pubkey {
    Pubkey { bytes: TOKEN_PROGRAM_ID }
}

/// The address of the associated-token-account program.
pub open spec fn associated_token_program_id() -> Pubkey {
    Pubkey { bytes: ASSOCIATED_TOKEN_PROGRAM_ID }
}

/// The address of the crafting program.
pub fn id() -> (key: Pubkey)
    ensures
        key == program_id(),
{
    Pubkey { bytes: ID }
}

/// The address of the system program.
pub fn system_program() -> (key: Pubkey)
    ensures
        key == system_program_id(),
{
    Pubkey { bytes: SYSTEM_PROGRAM_ID }
}

/// The address of the token program.
pub fn token_program() -> (key: Pubkey)
    ensures
        key == token_program_id(),
{
    Pubkey { bytes: TOKEN_PROGRAM_ID }
}

/// The address of the associated-token-account program.
pub fn associated_token_program() -> (key: Pubkey)
    ensures
        key == associated_token_program_id(),
{
    Pubkey { bytes: ASSOCIATED_TOKEN_PROGRAM_ID }
}

/// The program-owned address that the seeds derive to under the program, with
/// the disambiguating suffix byte found for it; `None` where no suffix byte
/// yields an address or the seeds are not admissible.
pub uninterp spec fn program_address(seeds: Seq<Seq<u8>>, program_id: Seq<u8>) -> Option<
    (Seq<u8>, u8),
>;

/// Derives a program-owned address with `Pubkey::try_find_program_address`
/// of `solana_program`. The contract only gives the outcome its name: the
/// derivation is a function of the seeds and of the program's address alone.
#[verifier::external_body]
pub(crate) fn find_program_address(seeds: &Vec<Vec<u8>>, program_id: &Pubkey) -> (found: Option<
    (Pubkey, u8),
>)
    ensures
        match found {
            Some((key, bump)) => program_address(seeds.deep_view(), program_id@) == Some(
                (key@, bump),
            ),
            None => program_address(seeds.deep_view(), program_id@) is None,
        },
{
    let parts: Vec<&[u8]> = seeds.iter().map(|seed| seed.as_slice()).collect();
    let program = solana_program::pubkey::Pubkey::new_from_array(program_id.bytes);
    solana_program::pubkey::Pubkey::try_find_program_address(&parts, &program).map(
        |(key, bump)| (Pubkey { bytes: key.to_bytes() }, bump),
    )
}

} // verus!
