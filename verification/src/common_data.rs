//! Names of the reserved fields of a credential.

use vstd::prelude::*;

verus! {

/// The field that holds the claims.
pub const CLAIMS: &'static str = "credentialSubject";

/// The field that holds a signature or a proof derived from one.
pub const SIGNATURE: &'static str = "signature";

} // verus!
