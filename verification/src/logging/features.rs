//! The features of the logger that can be switched on and off, several at
//! a time.

use vstd::prelude::*;

verus! {

/// Struct for creating a custom featureset for the logger
#[derive(Debug, Clone, Copy, PartialEq, Eq, Structural)]
pub struct LoggingFeatures {
    pub enable_file_handler: bool,
}

/// A feature of the logger.
#[derive(Debug, Clone, Copy, PartialEq, Eq, Structural)]
pub enum Features {
    FileHandler,
}

/// Whether `features` names the file handler.
pub open spec fn names_file_handler(features: Seq<Features>) -> bool {
    exists|i: int| 0 <= i < features.len() && features[i] == Features::FileHandler
}

impl Default for LoggingFeatures {
    fn default() -> (r: Self)
        ensures
            !r.enable_file_handler,
    {
        Self::new()
    }
}

impl LoggingFeatures {
    /// Create a new featureset object: every feature is off.
    #[must_use]
    pub fn new() -> (r: Self)
        ensures
            !r.enable_file_handler,
    {
        Self { enable_file_handler: false }
    }

    /// Enable features: each one named is on afterwards, the others stay
    /// as they were.
    pub fn enable(&mut self, feature: &[Features])
        ensures
            final(self).enable_file_handler == (old(self).enable_file_handler
                || names_file_handler(feature@)),
    {
        let mut i: usize = 0;
        while i < feature.len()
            invariant
                i <= feature.len(),
                self.enable_file_handler == (old(self).enable_file_handler || names_file_handler(
                    feature@.take(i as int),
                )),
            decreases feature.len() - i,
        {
            match feature[i] {
                Features::FileHandler => {
                    self.enable_file_handler = true;
                },
            }
            assert(feature@.take(i + 1)[i as int] == Features::FileHandler);
            i += 1;
        }
        assert(feature@.take(feature@.len() as int) == feature@);
    }

    /// Disable features: each one named is off afterwards, the others stay
    /// as they were.
    pub fn disable(&mut self, feature: &[Features])
        ensures
            final(self).enable_file_handler == (old(self).enable_file_handler
                && !names_file_handler(feature@)),
    {
        let mut i: usize = 0;
        while i < feature.len()
            invariant
                i <= feature.len(),
                self.enable_file_handler == (old(self).enable_file_handler && !names_file_handler(
                    feature@.take(i as int),
                )),
            decreases feature.len() - i,
        {
            match feature[i] {
                Features::FileHandler => {
                    self.enable_file_handler = false;
                },
            }
            assert(feature@.take(i + 1)[i as int] == Features::FileHandler);
            i += 1;
        }
        assert(feature@.take(feature@.len() as int) == feature@);
    }

    /// return self
    #[must_use]
    pub fn unwrap(&self) -> (r: &Self)
        ensures
            r == self,
    {
        self
    }
}

} // verus!
