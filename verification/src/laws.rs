//! What holds of the effect switch on every input, proved from its model.

use crate::commands::{effect_outcome, requests_for, requests_named, WindowEffectApplier};
use crate::effect::{effect_named, CompositorRequest, WindowEffect};
use vstd::prelude::*;

verus! {

/// Each of the three effect names succeeds wherever the platform answers
/// with success.
pub proof fn known_effect_succeeds_when_platform_does(
    applier: WindowEffectApplier,
    name: Seq<char>,
)
    requires
        name == "mica"@ || name == "acrylic"@ || name == "none"@,
    ensures
        effect_outcome(applier, name, Ok(())) == Ok::<(), Seq<char>>(()),
{
}

/// With the native applier a name outside the three is rejected with the
/// message `Unknown effect: ` followed by the name, whatever the platform
/// would have answered.
pub proof fn unknown_effect_is_rejected(name: Seq<char>, answer: Result<(), Seq<char>>)
    requires
        name != "mica"@,
        name != "acrylic"@,
        name != "none"@,
    ensures
        effect_outcome(WindowEffectApplier::NativePlatform, name, answer) == Err::<
            (),
            Seq<char>,
        >("Unknown effect: "@ + name),
{
}

/// Without a compositor every request succeeds, whatever name it carries:
/// the name is not checked at all.
pub proof fn noop_accepts_every_name(name: Seq<char>, answer: Result<(), Seq<char>>)
    ensures
        effect_outcome(WindowEffectApplier::Noop, name, answer) == Ok::<(), Seq<char>>(()),
{
}

/// Without a compositor nothing is asked of the platform, whatever the
/// effect and whatever the name: the window stays as it is.
pub proof fn noop_asks_nothing(effect: WindowEffect, name: Seq<char>)
    ensures
        requests_for(WindowEffectApplier::Noop, effect) == Seq::<CompositorRequest>::empty(),
        requests_named(WindowEffectApplier::Noop, name) == Seq::<CompositorRequest>::empty(),
{
}

/// For a name outside the three nothing is asked of the platform: the name
/// is rejected and the window stays as it is.
pub proof fn unknown_effect_asks_nothing(applier: WindowEffectApplier, name: Seq<char>)
    requires
        name != "mica"@,
        name != "acrylic"@,
        name != "none"@,
    ensures
        requests_named(applier, name) == Seq::<CompositorRequest>::empty(),
{
}

/// Clearing never fails, whatever the platform answers: so it does not fail
/// either when no effect is there to be cleared.
pub proof fn clearing_never_fails(applier: WindowEffectApplier, answer: Result<(), Seq<char>>)
    ensures
        effect_named("none"@) == Some(WindowEffect::Clear),
        effect_outcome(applier, "none"@, answer) == Ok::<(), Seq<char>>(()),
{
    reveal_strlit("mica");
    reveal_strlit("acrylic");
    reveal_strlit("none");
    assert("mica"@[0] == 'm' && "acrylic"@[0] == 'a' && "none"@[0] == 'n');
}

} // verus!
