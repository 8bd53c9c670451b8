//! Constants shared by the protocol code.

use vstd::prelude::*;

verus! {

/// The sentinel that a keepalive writes to the raw stream.
pub const KEEPALIVE_MESSAGE: &'static str = "[#<keepalive.event.sent>]";

/// Where the Strawberry ID service answers.
pub const STRAWBERRY_ID_API: &'static str = "https://id.strawberryfoundations.org/v2/";

} // verus!
