//! The paths under which the gateway serves its resources.

use vstd::prelude::*;

verus! {

/// The resource that derives a pre-shared key for a new user.
pub const AUTHENTICATE: &'static str = "15011/9063";

/// The collection of devices; one device is found under its identifier below it.
pub const DEVICES: &'static str = "15001";

} // verus!
