use vstd::prelude::*;

verus! {

/// Identification of this library that a subscriber sends to a publisher.
#[derive(Clone, Copy)]
pub struct Version;

impl Version {
    /// Title of the library.
    pub const STTP_SOURCE: &'static str = "STTP Rust Library";
    /// Version of the library (not of the protocol).
    pub const STTP_VERSION: &'static str = "0.1.0";
    /// When the library was last updated.
    pub const STTP_UPDATED_ON: &'static str = "2023-04-01";
}

} // verus!
