//! The two ways in which setting a window effect fails.

use vstd::prelude::*;
use vstd::string::StringExecFns;

verus! {

/// Why a window effect was not set.
#[derive(Debug, PartialEq, Eq)]
pub enum EffectError {
    /// The caller named an effect outside the fixed set. Holds the name.
    UnrecognizedEffect(String),
    /// The platform refused the effect. Holds the platform's description.
    PlatformEffectFailure(String),
}

/// The message for a name that stands for no effect.
pub open spec fn unknown_effect_text(name: Seq<char>) -> Seq<char> {
    "Unknown effect: "@ + name
}

impl EffectError {
    /// The text shown to the caller.
    pub open spec fn message_text(self) -> Seq<char> {
        match self {
            EffectError::UnrecognizedEffect(name) => unknown_effect_text(name@),
            EffectError::PlatformEffectFailure(description) => description@,
        }
    }

    /// Turns the error into the text shown to the caller. A platform
    /// failure is shown by the platform's own description, unchanged.
    pub fn into_message(self) -> (message: String)
        ensures
            message@ == self.message_text(),
            self matches EffectError::PlatformEffectFailure(description) ==> message
                == description,
    {
        match self {
            EffectError::UnrecognizedEffect(name) => {
                let mut message = String::from_str("Unknown effect: ");
                message.append(name.as_str());
                message
            },
            EffectError::PlatformEffectFailure(description) => description,
        }
    }
}

} // verus!
