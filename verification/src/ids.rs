//! Account identity. The substrate hands every operation an
//! already-authenticated caller identity; the core only ever compares
//! identities for equality.

use vstd::prelude::*;

verus! {

/// A 256-bit account identifier, held as four plain words so that equality
/// is plain structural equality of the fields.
#[derive(Clone, Copy, Debug, Hash, PartialEq, Eq, Structural)]
pub struct AccountId {
    pub w0: u64,
    pub w1: u64,
    pub w2: u64,
    pub w3: u64,
}

} // verus!
