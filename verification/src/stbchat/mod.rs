//! The chat wire protocol: frames, packets and errors.

use vstd::prelude::*;

pub mod error;
pub mod net;
pub mod object;
pub mod packet;
pub mod wire;

verus! {

/// Version token of the protocol, logged by peers and never negotiated.
pub const PROTOCOL_VERSION: &'static str = "3";

} // verus!
