//! Stat calculation and legality verification for a configured battle-team
//! member of a creature-collection game.
//!
//! A [`team::TeamMember`] is an immutable-once-built record of one configured
//! creature: its species data, gender, ability, nature, held item, effort and
//! individual values, moves with PP-up counts, and level.  The library
//! computes any of the battle stats from that record with the game's
//! truncating integer formula, and checks the record against the game's
//! legality rules.  The proofs in [`laws`] state the general properties of
//! both routines.

pub mod laws;
pub mod team;
