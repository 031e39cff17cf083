//! The errors that end a lookup.
use vstd::prelude::*;

use crate::codes::UnknownCodeError;

verus! {

/// Why a lookup could not go on.
#[derive(Clone, Debug, PartialEq, Eq)]
pub enum LookupError {
    /// The query is empty.
    EmptyQuery,
    /// The query holds `|`, which the service uses as a field separator.
    QueryWithPipe,
    /// A line of the search fragment is not an id and a name; it is given.
    MalformedEntry(String),
    /// The search found no candidate.
    NoMatch,
    /// A coordinate in the search answer is not a decimal number; it is given.
    InvalidCoordinate(String),
    /// No feature of the bounding-box answer has the requested name.
    NotFound,
    /// Several features of the bounding-box answer have the requested name.
    Ambiguous,
    /// A feature's geometry has fewer than two coordinates.
    MissingCoordinates,
    /// A code table rejected a wire value of the payload.
    UnknownCode(UnknownCodeError),
}

} // verus!
