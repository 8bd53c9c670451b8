//! Plugins are extensions for any program that add functionality for
//! certain other things that improve your program.

use vstd::prelude::*;

verus! {

/// What a plugin offers to the program that loads it.
pub trait Plugin {
    /// Runs the plugin with the arguments of the call.
    fn execute(&self, args: &[String]);

    /// Shows how the plugin is used.
    fn help(&self);
}

/// This struct holds various information about the plugin, i.e. name,
/// version, ...
#[derive(Copy, Debug, Clone)]
pub struct PluginProperties {
    pub name: &'static str,
    pub id: &'static str,
    pub package_id: &'static str,
    pub version: &'static str,
    pub library_version: &'static str,
}

} // verus!
