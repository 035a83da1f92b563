//! Capabilities of a closed, enumerable, labeled domain: a fixed number of
//! values, a total id conversion, a canonical display name, and a per-record
//! filter predicate used by the statistics queries.

use vstd::prelude::*;

use crate::gamedata::{GameData, GameDataV};

verus! {

/// Failure of a domain conversion: no value carries the given name or id.
#[derive(Clone, Copy, Debug, PartialEq, Eq, Structural)]
pub enum ParsableEnumError {
    FromStrError,
    TryFromError,
}

/// A domain with a fixed number of id slots.
pub trait Numbered: Sized {
    /// Number of id slots of the domain (one more than the largest valid id).
    spec fn spec_num_values() -> usize;

    /// Executable twin of [`Self::spec_num_values`].
    fn num_values() -> (n: usize)
        ensures
            n == Self::spec_num_values(),
            n > 0,
    ;
}

/// A domain whose values convert from numeric ids and carry display names.
pub trait Parsable: Sized {
    /// The domain value of an id, if the id is valid.
    spec fn spec_from_id(id: int) -> Option<Self>;

    /// Canonical display name of a value.
    spec fn spec_name(self) -> Seq<char>;

    /// Canonical display name of this value.
    fn display_name(&self) -> (r: String)
        ensures
            r@ == self.spec_name(),
    ;
}

/// A filter over classified records, used to slice the statistics.
pub trait GameDataCondition {
    /// Whether a record falls under this filter.
    spec fn spec_condition(&self, game: GameDataV) -> bool;

    /// Executable twin of [`Self::spec_condition`].
    fn game_data_condition(&self, game: &GameData) -> (r: bool)
        ensures
            r == self.spec_condition(game@),
    ;
}

} // verus!
