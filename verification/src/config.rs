//! The settings a service starts with.

use vstd::prelude::*;

verus! {

/// The settings, as the configuration file gives them. `value_default` is a
/// reading in the form that `WindowEntry::value` has.
#[derive(Clone, Copy, Debug, PartialEq, Eq, Structural)]
pub struct Config {
    pub debug: bool,
    pub port: u16,
    pub value_count: usize,
    pub value_default: u32,
}

/// Why settings are turned down.
#[derive(Clone, Copy, Debug, PartialEq, Eq, Structural)]
pub enum ConfigError {
    /// `value_count` is zero: a window needs at least one slot.
    NoSlots,
}

impl ConfigError {
    /// The words for a diagnostic message.
    pub fn message(self) -> (text: &'static str)
        ensures
            text@ == "value_count must be at least 1"@,
    {
        "value_count must be at least 1"
    }
}

impl Config {
    /// What `validate` finds of these settings.
    pub open spec fn spec_validate(self) -> Result<(), ConfigError> {
        if self.value_count >= 1 {
            Ok(())
        } else {
            Err(ConfigError::NoSlots)
        }
    }

    /// Accepts the settings that name at least one slot.
    #[verifier::when_used_as_spec(spec_validate)]
    pub fn validate(self) -> (r: Result<(), ConfigError>)
        ensures
            r == self.spec_validate(),
    {
        if self.value_count >= 1 {
            Ok(())
        } else {
            Err(ConfigError::NoSlots)
        }
    }
}

} // verus!
