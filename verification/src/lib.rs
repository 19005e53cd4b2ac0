//! A read-only inspection library for Solana on-chain state.
//!
//! The crate decodes fetched account blobs, versioned transaction messages
//! and block summaries into typed values. All network fetches are performed
//! by the surrounding application; the functions here take the fetched bytes
//! as arguments and are verified against their contracts.

use vstd::prelude::*;

pub mod account;
pub mod block;
pub mod message;
pub mod metadata;
pub mod system;
pub mod token;
pub mod transaction;
pub mod utils;

verus! {

/// A raw 32-byte on-chain address.
pub type Address = [u8; 32];

/// The system program id (all zero bytes).
pub const SYSTEM_PROGRAM_ID: Address = [
    0u8, 0, 0, 0, 0, 0, 0, 0, 0, 0, 0, 0, 0, 0, 0, 0, 0, 0, 0, 0, 0, 0, 0, 0, 0, 0, 0, 0, 0, 0,
    0, 0,
];

/// The original token program id (base58 `TokenkegQfeZyiNwAJbNbGKPFXCWuBvf9Ss623VQ5DA`).
pub const TOKENKEG_PROGRAM_ID: Address = [
    6u8, 221, 246, 225, 215, 101, 161, 147, 217, 203, 225, 70, 206, 235, 121, 172, 28, 180, 133,
    237, 95, 91, 55, 145, 58, 140, 245, 133, 126, 255, 0, 169,
];

/// The token-2022 program id (base58 `TokenzQdBNbLqP5VEhdkAS6EPFLC1PHnBqCXEpPxuEb`).
pub const TOKEN22_PROGRAM_ID: Address = [
    6u8, 221, 246, 225, 238, 117, 143, 222, 24, 66, 93, 188, 228, 108, 205, 218, 182, 26, 252,
    77, 131, 185, 13, 39, 254, 189, 249, 40, 216, 161, 139, 252,
];

/// The vote program id (base58 `Vote111111111111111111111111111111111111111`).
pub const VOTE_PROGRAM_ID: Address = [
    7u8, 97, 72, 29, 53, 116, 116, 187, 124, 77, 118, 36, 235, 211, 189, 179, 216, 53, 94, 115,
    209, 16, 67, 252, 13, 163, 83, 128, 0, 0, 0, 0,
];

/// The program ids that drive account classification. They are injected into
/// the classifier rather than read from ambient globals, so the classifier
/// stays pure and can be exercised with arbitrary ids.
pub struct ProgramIds {
    /// Owner of plain wallet accounts.
    pub system: Address,
    /// Owner of first-generation token and mint accounts.
    pub tokenkeg: Address,
    /// Owner of token-2022 token and mint accounts.
    pub token22: Address,
}

impl ProgramIds {
    /// The well-known mainnet program ids.
    pub fn mainnet() -> (r: ProgramIds)
        ensures
            r.system@ == SYSTEM_PROGRAM_ID@,
            r.tokenkeg@ == TOKENKEG_PROGRAM_ID@,
            r.token22@ == TOKEN22_PROGRAM_ID@,
    {
        ProgramIds {
            system: SYSTEM_PROGRAM_ID,
            tokenkeg: TOKENKEG_PROGRAM_ID,
            token22: TOKEN22_PROGRAM_ID,
        }
    }
}

/// How a single inspection step fails.
///
/// Fetch-level absence and decode failures are distinguished so that callers
/// can recover where the design allows it (lookup-table expansion, metadata
/// resolution) and abort where it does not.
#[derive(Clone, Copy, Debug, PartialEq, Eq, Structural)]
pub enum InspectError {
    /// The requested account, transaction or block is absent at the node.
    NotFound,
    /// Fetched bytes do not decode against the expected layout.
    Malformed,
    /// No symbol metadata exists for a mint; an expected, recoverable outcome.
    MetadataAbsent,
    /// A network fetch failed.
    TransientFetch,
}

/// Compares two addresses byte by byte.
pub fn address_eq(a: &Address, b: &Address) -> (r: bool)
    ensures
        r == (a == b),
{
    broadcast use vstd::array::group_array_axioms;

    let mut i: usize = 0;
    while i < 32
        invariant
            i <= 32,
            forall|j: int| 0 <= j < i ==> a@[j] == b@[j],
        decreases 32 - i,
    {
        if a[i] != b[i] {
            assert(a@[i as int] != b@[i as int]);
            return false;
        }
        i += 1;
    }
    assert(*a =~= *b);
    true
}

} // verus!
