//! Statistics over a corpus of two-player replay records: classifies each
//! match into a typed outcome, keeps a versioned on-disk cache of classified
//! records, and aggregates win/loss counts by character, stage and opponent.

pub mod cache;
pub mod character;
pub mod gamedata;
pub mod input;
pub mod parsable_enum;
pub mod player;
pub mod playerdata;
pub mod stage;
pub mod strutil;
