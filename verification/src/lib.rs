//! Fixed-layout ledger records (portfolio, game, player), the fixed-width name
//! codec they share, and the ownership gate that guards every update.

pub mod constants;
pub mod errors;
pub mod identity;
pub mod instructions;
pub mod layout;
pub mod name;
pub mod state;
