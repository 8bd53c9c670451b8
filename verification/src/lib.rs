//! Strawberry chat wire protocol, bot command engine and the small helpers
//! around them.

pub mod colors;
pub mod constants;
pub mod email;
pub mod external;
pub mod file;
pub mod fmt;
pub mod id;
pub mod localization;
pub mod logging;
pub mod networking;
pub mod notifications;
pub mod number;
pub mod scapi;
pub mod stbchat;
pub mod string;
pub mod strings;
pub mod text;
pub mod time;

use vstd::prelude::*;

verus! {

/// The version of this library.
pub const VERSION: &'static str = "0.1.0";

} // verus!
