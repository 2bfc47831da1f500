use vstd::prelude::*;

verus! {

/// Why an operation of the library was refused.
#[derive(Debug)]
pub enum Error {
    /// Two objects of one collection carry the same identifier; the identifier is given.
    IdentifierAlreadyExists(String),
    /// A text does not hold a date; chrono's reason is given.
    InvalidDate(chrono::format::ParseError),
}

} // verus!
