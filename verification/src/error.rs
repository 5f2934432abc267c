use vstd::prelude::*;

verus! {

/// What can go wrong in this library.
#[derive(Debug, Clone, Copy, PartialEq, Eq, Structural)]
pub enum Error {
    Todo,
}

/// A result with the library's error.
pub type Result<T> = std::result::Result<T, Error>;

} // verus!
