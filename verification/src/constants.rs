//! Field widths and total sizes of the persisted records, in bytes.

use vstd::prelude::*;

verus! {

/// Width of the zero-padded name field.
pub const NAME_LENGTH: usize = 50;

/// Width of the host's record-kind tag that precedes every payload.
pub const DISCRIMINATOR_LENGTH: usize = 8;

/// Width of an identity.
pub const PUBLIC_KEY_LENGTH: usize = 32;

/// Width of an unsigned 32-bit field.
pub const U32_LENGTH: usize = 4;

/// Width of a signed 32-bit field.
pub const INT_LENGTH: usize = 4;

/// Tag, name, owner, four counters and the creation date: 110 bytes.
pub const PORTFOLIO_SIZE: usize = DISCRIMINATOR_LENGTH + NAME_LENGTH + PUBLIC_KEY_LENGTH
    + U32_LENGTH + U32_LENGTH + U32_LENGTH + U32_LENGTH + INT_LENGTH;

/// Tag, name, player limit and the creation date, the owner not counted: 66
/// bytes.
pub const GAME_SIZE: usize = DISCRIMINATOR_LENGTH + NAME_LENGTH + U32_LENGTH + INT_LENGTH;

/// Storage reserved for a player record: 90 bytes.
pub const PLAYER_SIZE: usize = 90;

} // verus!
