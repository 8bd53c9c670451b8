//! The features of the logger that can be switched on and off, one at a
//! time.

use vstd::prelude::*;

verus! {

/// Struct for creating a custom featureset for the logger
#[derive(Debug, Clone, Copy, PartialEq, Eq, Structural)]
pub struct FeatureSet {
    pub enable_file_handler: bool,
}

/// A feature of the logger.
#[derive(Debug, Clone, Copy, PartialEq, Eq, Structural)]
pub enum Features {
    FileHandler,
}

impl Default for FeatureSet {
    fn default() -> (r: Self)
        ensures
            !r.enable_file_handler,
    {
        Self::new()
    }
}

impl FeatureSet {
    /// Create a new featureset object: every feature is off.
    #[must_use]
    pub fn new() -> (r: Self)
        ensures
            !r.enable_file_handler,
    {
        Self { enable_file_handler: false }
    }

    /// Enable a feature: it is on afterwards.
    pub fn enable(&mut self, feature: &Features)
        ensures
            match *feature {
                Features::FileHandler => final(self).enable_file_handler,
            },
    {
        match feature {
            Features::FileHandler => {
                self.enable_file_handler = true;
            },
        }
    }

    /// Disable a feature: it is off afterwards.
    pub fn disable(&mut self, feature: &Features)
        ensures
            match *feature {
                Features::FileHandler => !final(self).enable_file_handler,
            },
    {
        match feature {
            Features::FileHandler => {
                self.enable_file_handler = false;
            },
        }
    }

    /// return self
    #[must_use]
    pub fn unwrap(&self) -> (r: &Self)
        ensures
            r == self,
    {
        self
    }
}

} // verus!
