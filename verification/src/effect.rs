//! The background effects a window can be given, and the names they go by.

use crate::text::same_text;
use vstd::prelude::*;

verus! {

/// A background treatment of a window. The three exclude one another.
#[derive(Clone, Copy, Debug, PartialEq, Eq, Structural)]
pub enum WindowEffect {
    /// A translucent treatment that blurs what lies behind the window.
    Mica,
    /// A frosted treatment with a fixed tint.
    Acrylic,
    /// No treatment: whatever was applied before is taken away.
    Clear,
}

/// Whether the Mica treatment is asked for in its dark variant.
pub const MICA_DARK: bool = true;

/// The tint of the Acrylic treatment: red, green, blue and alpha.
pub const ACRYLIC_TINT: (u8, u8, u8, u8) = (18, 18, 18, 200);

/// The effect that a name stands for. Names are matched exactly, case
/// included; a name outside the three stands for no effect.
pub open spec fn effect_named(name: Seq<char>) -> Option<WindowEffect> {
    if name == "mica"@ {
        Some(WindowEffect::Mica)
    } else if name == "acrylic"@ {
        Some(WindowEffect::Acrylic)
    } else if name == "none"@ {
        Some(WindowEffect::Clear)
    } else {
        None
    }
}

/// Reads an effect name.
pub fn parse_effect(name: &str) -> (effect: Option<WindowEffect>)
    ensures
        effect == effect_named(name@),
{
    if same_text(name, "mica") {
        Some(WindowEffect::Mica)
    } else if same_text(name, "acrylic") {
        Some(WindowEffect::Acrylic)
    } else if same_text(name, "none") {
        Some(WindowEffect::Clear)
    } else {
        None
    }
}

/// The effect given to the main window when the application starts.
pub fn startup_effect() -> (effect: WindowEffect)
    ensures
        effect == WindowEffect::Mica,
{
    WindowEffect::Mica
}

/// One thing asked of the platform's compositor about a window.
#[derive(Clone, Copy, Debug, PartialEq, Eq)]
pub enum CompositorRequest {
    /// Give the window the Mica treatment: dark, light, or as the system
    /// prefers where `dark` is `None`.
    ApplyMica { dark: Option<bool> },
    /// Give the window the Acrylic treatment in this tint.
    ApplyAcrylic { tint: Option<(u8, u8, u8, u8)> },
    /// Take the Mica treatment off the window.
    ClearMica,
    /// Take the Acrylic treatment off the window.
    ClearAcrylic,
}

impl WindowEffect {
    /// What the compositor is asked to do for this effect, in order: Mica
    /// in its dark variant, Acrylic in the fixed tint, or both treatments
    /// taken off.
    pub open spec fn requests(self) -> Seq<CompositorRequest> {
        match self {
            WindowEffect::Mica => seq![CompositorRequest::ApplyMica { dark: Some(MICA_DARK) }],
            WindowEffect::Acrylic => seq![
                CompositorRequest::ApplyAcrylic { tint: Some(ACRYLIC_TINT) },
            ],
            WindowEffect::Clear => seq![
                CompositorRequest::ClearMica,
                CompositorRequest::ClearAcrylic,
            ],
        }
    }

    /// Whether the effect is applied as far as the platform allows, its
    /// failures ignored. Clearing is: there may be nothing to clear.
    pub open spec fn best_effort(self) -> bool {
        self == WindowEffect::Clear
    }

    /// Computes [`WindowEffect::best_effort`].
    pub fn is_best_effort(self) -> (best_effort: bool)
        ensures
            best_effort == self.best_effort(),
    {
        match self {
            WindowEffect::Clear => true,
            _ => false,
        }
    }
}

} // verus!
