//! The two commands of the shell: the version report and the effect switch.

use crate::effect::{
    effect_named, parse_effect, startup_effect, CompositorRequest, WindowEffect, ACRYLIC_TINT,
    MICA_DARK,
};
use crate::error::{unknown_effect_text, EffectError};
use crate::platform::{
    describes, describes_cause, is_platform_description, surfaced, surfaces, Window,
};
use vstd::prelude::*;
use vstd::string::StringExecFns;

verus! {

/// The version of the application. It is the version that the package
/// declares, and changes only together with it.
pub const APP_VERSION: &'static str = "0.1.0";

/// Reports the version of the application.
pub fn get_app_version() -> (version: String)
    ensures
        version@ == APP_VERSION@,
        version@.len() > 0,
{
    proof {
        reveal_strlit("0.1.0");
    }
    String::from_str(APP_VERSION)
}

/// Who carries out a change of window effect. The choice is made once, for
/// the platform that the application is built for.
#[derive(Clone, Copy, Debug, PartialEq, Eq, Structural)]
pub enum WindowEffectApplier {
    /// The platform's compositor: requests are checked and carried out.
    NativePlatform,
    /// Nobody: every request succeeds, unchecked, and changes nothing.
    Noop,
}

/// What the applier asks of the compositor for `effect`, in order. Without
/// a compositor nothing is asked.
pub open spec fn requests_for(applier: WindowEffectApplier, effect: WindowEffect) -> Seq<
    CompositorRequest,
> {
    match applier {
        WindowEffectApplier::NativePlatform => effect.requests(),
        WindowEffectApplier::Noop => Seq::empty(),
    }
}

/// Computes [`requests_for`].
pub fn compositor_requests(applier: WindowEffectApplier, effect: WindowEffect) -> (requests: Vec<
    CompositorRequest,
>)
    ensures
        requests@ == requests_for(applier, effect),
{
    match applier {
        WindowEffectApplier::Noop => Vec::new(),
        WindowEffectApplier::NativePlatform => match effect {
            WindowEffect::Mica => vec![CompositorRequest::ApplyMica { dark: Some(MICA_DARK) }],
            WindowEffect::Acrylic => vec![
                CompositorRequest::ApplyAcrylic { tint: Some(ACRYLIC_TINT) },
            ],
            WindowEffect::Clear => vec![
                CompositorRequest::ClearMica,
                CompositorRequest::ClearAcrylic,
            ],
        },
    }
}

/// What the applier asks of the compositor for the effect called `name`, in
/// order. For a name that stands for no effect nothing is asked.
pub open spec fn requests_named(applier: WindowEffectApplier, name: Seq<char>) -> Seq<
    CompositorRequest,
> {
    match effect_named(name) {
        Some(effect) => requests_for(applier, effect),
        None => Seq::empty(),
    }
}

/// Whether the platform's answer decides what the caller is told. It does
/// where the compositor is asked to apply an effect; when it is asked to
/// clear one, its answer is ignored, since there may be nothing to clear.
pub open spec fn platform_decides(applier: WindowEffectApplier, effect: WindowEffect) -> bool {
    applier == WindowEffectApplier::NativePlatform && !effect.best_effort()
}

/// What applying `effect` returns when the platform answers `answer`:
/// success, or the text of a failure.
pub open spec fn applied_outcome(
    applier: WindowEffectApplier,
    effect: WindowEffect,
    answer: Result<(), Seq<char>>,
) -> Result<(), Seq<char>> {
    if platform_decides(applier, effect) {
        answer
    } else {
        Ok(())
    }
}

/// What setting the effect called `name` returns when the platform answers
/// `answer`. Without a compositor the name is not even looked at.
pub open spec fn effect_outcome(
    applier: WindowEffectApplier,
    name: Seq<char>,
    answer: Result<(), Seq<char>>,
) -> Result<(), Seq<char>> {
    match applier {
        WindowEffectApplier::Noop => Ok(()),
        WindowEffectApplier::NativePlatform => match effect_named(name) {
            Some(effect) => applied_outcome(applier, effect, answer),
            None => Err(unknown_effect_text(name)),
        },
    }
}

/// An outcome with a typed error, as success or the text of the failure.
pub open spec fn told(outcome: Result<(), EffectError>) -> Result<(), Seq<char>> {
    match outcome {
        Ok(_) => Ok(()),
        Err(error) => Err(error.message_text()),
    }
}

/// An outcome with a message, as success or the text of the failure.
pub open spec fn shown(outcome: Result<(), String>) -> Result<(), Seq<char>> {
    match outcome {
        Ok(_) => Ok(()),
        Err(message) => Err(message@),
    }
}

/// Whether `outcome`, success or a message, is what the caller is told of
/// the platform's answer `answer` when its failure is not to be ignored.
pub open spec fn surfaces_message(
    answer: Result<(), window_vibrancy::Error>,
    outcome: Result<(), String>,
) -> bool {
    match answer {
        Ok(_) => outcome is Ok,
        Err(failure) => outcome matches Err(message) && describes(failure, message),
    }
}

/// Gives a window the effect `effect`.
///
/// The applier puts its requests for the effect to the compositor, one
/// after the other, and nothing else. Where the platform decides, there is
/// one request, and its answer is what the caller is told. Clearing is best
/// effort: both treatments are taken off whatever the compositor answers,
/// and the call succeeds. A window without a handle fails each request, by
/// the description of why it has none.
///
/// The outcome is the one that [`applied_outcome`] gives for some answer of
/// the platform.
pub fn apply_effect(
    applier: WindowEffectApplier,
    window: &mut Window<'_>,
    effect: WindowEffect,
) -> (outcome: Result<(), EffectError>)
    ensures
        final(window).follows(*old(window), requests_for(applier, effect)),
        platform_decides(applier, effect) ==> surfaces(final(window).answered().last(), outcome),
        platform_decides(applier, effect) ==> (old(window).handle() matches Err(cause)
            ==> outcome matches Err(EffectError::PlatformEffectFailure(description))
            && describes_cause(cause, description)),
        exists|answer: Result<(), Seq<char>>|
            told(outcome) == #[trigger] applied_outcome(applier, effect, answer),
        outcome matches Err(error) ==> error matches EffectError::PlatformEffectFailure(
            description,
        ) && is_platform_description(description),
{
    let requests = compositor_requests(applier, effect);
    let best_effort = effect.is_best_effort();
    let mut sent: usize = 0;
    while sent < requests.len()
        invariant
            sent <= requests.len(),
            requests@ == requests_for(applier, effect),
            best_effort == effect.best_effort(),
            window.follows(*old(window), requests@.take(sent as int)),
            platform_decides(applier, effect) && sent > 0 ==> window.answered().last() is Ok,
            platform_decides(applier, effect) && old(window).handle() is Err ==> sent == 0,
        decreases requests.len() - sent,
    {
        let answer = window.put(requests[sent]);
        assert(window.asked() =~= old(window).asked() + requests@.take(sent + 1));
        if !best_effort {
            assert(requests@.take(1) =~= requests@);
            match surfaced(answer) {
                Ok(()) => {},
                Err(error) => {
                    let outcome = Err(error);
                    assert(told(outcome) == applied_outcome(applier, effect, told(outcome)));
                    return outcome;
                },
            }
        }
        sent += 1;
    }
    assert(requests@.take(sent as int) =~= requests@);
    assert(applied_outcome(applier, effect, Ok(())) == Ok::<(), Seq<char>>(()));
    Ok(())
}

/// Sets the background effect of a window to the one called `effect`:
/// `"mica"`, `"acrylic"` or `"none"`.
///
/// With the native applier any other name is rejected with the message
/// `Unknown effect: ` followed by the name, before anything is asked of the
/// compositor, and a failure of the platform is returned by its
/// description. Without a compositor every call succeeds, whatever the
/// name, and nothing is asked.
///
/// The outcome is the one that [`effect_outcome`] gives for some answer of
/// the platform; which answer the platform gives is not for this crate to
/// say.
pub fn set_window_effect(
    applier: WindowEffectApplier,
    window: &mut Window<'_>,
    effect: String,
) -> (outcome: Result<(), String>)
    ensures
        final(window).follows(*old(window), requests_named(applier, effect@)),
        effect_named(effect@) matches Some(named) ==> {
            &&& platform_decides(applier, named) ==> surfaces_message(
                final(window).answered().last(),
                outcome,
            )
            &&& platform_decides(applier, named) ==> (old(window).handle() matches Err(cause)
                ==> outcome matches Err(message) && describes_cause(cause, message))
            &&& outcome matches Err(message) ==> is_platform_description(message)
        },
        exists|answer: Result<(), Seq<char>>|
            shown(outcome) == #[trigger] effect_outcome(applier, effect@, answer),
{
    let outcome = match applier {
        WindowEffectApplier::Noop => Ok(()),
        WindowEffectApplier::NativePlatform => match parse_effect(effect.as_str()) {
            Some(named) => match apply_effect(applier, window, named) {
                Ok(()) => Ok(()),
                Err(error) => Err(error.into_message()),
            },
            None => Err(EffectError::UnrecognizedEffect(effect).into_message()),
        },
    };
    assert(shown(outcome) == effect_outcome(applier, effect@, shown(outcome)));
    outcome
}

/// Gives the main window its effect when the application starts: Mica. A
/// failure is ignored: a missing effect is cosmetic.
pub fn apply_startup_effect(applier: WindowEffectApplier, window: &mut Window<'_>)
    ensures
        final(window).follows(*old(window), requests_for(applier, WindowEffect::Mica)),
{
    let _ = apply_effect(applier, window, startup_effect());
}

} // verus!
