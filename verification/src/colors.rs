//! ANSI escape sequences for colored terminal output.

use vstd::prelude::*;

verus! {

/// Black text.
pub const BLACK: &'static str = "\x1b[30m";

/// Red text.
pub const RED: &'static str = "\x1b[31m";

/// Green text.
pub const GREEN: &'static str = "\x1b[32m";

/// Yellow text.
pub const YELLOW: &'static str = "\x1b[33m";

/// Blue text.
pub const BLUE: &'static str = "\x1b[34m";

/// Magenta text.
pub const MAGENTA: &'static str = "\x1b[35m";

/// Cyan text.
pub const CYAN: &'static str = "\x1b[36m";

/// White text.
pub const WHITE: &'static str = "\x1b[37m";

/// Back to the default foreground color.
pub const RESET: &'static str = "\x1b[39m";

/// Back to the terminal's defaults, colors and styles alike.
pub const C_RESET: &'static str = "\x1b[0m";

/// Bold text.
pub const BOLD: &'static str = "\x1b[1m";

/// Underlined text.
pub const UNDERLINE: &'static str = "\x1b[4m";

} // verus!
