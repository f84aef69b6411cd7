//! Agent registry: AI agents register with a name, a capability
//! description and a stake, and may later update, deactivate, prove their
//! owner's World ID once, and link one Metaplex identity asset.

pub mod errors;
pub mod instructions;
pub mod properties;
pub mod state;

use vstd::prelude::*;

verus! {

/// World ID verifier program address
/// (`7EvtswQxbU4aSHAUe2M3iGppRR2jjroQM6DfH29LiVs3`).
pub const WORLD_ID_VERIFIER: [u8; 32] = [
    92, 183, 156, 88, 168, 9, 54, 13, 206, 112, 106, 254, 63, 143, 60, 80, 179, 154, 61, 145, 182,
    243, 58, 186, 53, 16, 249, 38, 117, 146, 65, 30,
];

} // verus!
