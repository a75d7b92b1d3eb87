//! The boundary to the platform's window compositor.
//!
//! Everything here that carries `external_body` is taken on trust: Verus
//! reads its contract and not its body. The calls change how a window looks
//! on screen, and their answers depend on the operating system and its
//! version, so no contract below promises success or failure of a request.
//! The calls are private to this module: the rest of the crate reaches the
//! compositor through [`Window::put`] alone, which records what it sends.

use crate::effect::CompositorRequest;
use crate::error::EffectError;
use raw_window_handle::{HandleError, WindowHandle};
use vstd::prelude::*;
use vstd::string::to_string_from_display_ensures;

verus! {

/// `raw_window_handle::WindowHandle`: a borrowed handle to a live window.
#[verifier::external_type_specification]
#[verifier::external_body]
pub struct ExWindowHandle<'a>(raw_window_handle::WindowHandle<'a>);

/// `raw_window_handle::HandleError`: why a window gave out no handle.
#[verifier::external_type_specification]
#[verifier::external_body]
pub struct ExHandleError(raw_window_handle::HandleError);

/// `window_vibrancy::Error`: why the compositor refused an effect.
#[verifier::external_type_specification]
#[verifier::external_body]
pub struct ExPlatformError(window_vibrancy::Error);

/// Calls `window_vibrancy::apply_mica`, which asks the compositor to give
/// the window the Mica treatment, dark or light as `dark` says. Nothing is
/// claimed of the answer.
#[verifier::external_body]
fn apply_mica(window: WindowHandle<'_>, dark: Option<bool>) -> (answer: Result<
    (),
    window_vibrancy::Error,
>) {
    window_vibrancy::apply_mica(window, dark)
}

/// Calls `window_vibrancy::apply_acrylic`, which asks the compositor to give
/// the window the Acrylic treatment in the given tint. Nothing is claimed of
/// the answer.
#[verifier::external_body]
fn apply_acrylic(window: WindowHandle<'_>, tint: Option<(u8, u8, u8, u8)>) -> (answer: Result<
    (),
    window_vibrancy::Error,
>) {
    window_vibrancy::apply_acrylic(window, tint)
}

/// Calls `window_vibrancy::clear_mica`, which asks the compositor to take
/// the Mica treatment off the window. Nothing is claimed of the answer.
#[verifier::external_body]
fn clear_mica(window: WindowHandle<'_>) -> (answer: Result<(), window_vibrancy::Error>) {
    window_vibrancy::clear_mica(window)
}

/// Calls `window_vibrancy::clear_acrylic`, which asks the compositor to take
/// the Acrylic treatment off the window. Nothing is claimed of the answer.
#[verifier::external_body]
fn clear_acrylic(window: WindowHandle<'_>) -> (answer: Result<(), window_vibrancy::Error>) {
    window_vibrancy::clear_acrylic(window)
}

/// Calls the conversion `From<HandleError>` of `window_vibrancy::Error`:
/// the failure that the compositor library reports for a window that gave
/// out no handle. The conversion keeps the cause inside the failure, and
/// the failure is displayed by displaying that cause: so the contract
/// claims that the failure says of itself exactly what the cause says.
#[verifier::external_body]
fn missing_window(cause: &HandleError) -> (failure: window_vibrancy::Error)
    ensures
        reports(failure, *cause),
{
    window_vibrancy::Error::from(cause.clone())
}

/// Whether `description` is what the platform failure `failure` says of
/// itself when it is displayed.
pub open spec fn describes(failure: window_vibrancy::Error, description: String) -> bool {
    to_string_from_display_ensures::<window_vibrancy::Error>(&failure, description)
}

/// Whether `description` is what some platform failure says of itself.
pub open spec fn is_platform_description(description: String) -> bool {
    exists|failure: window_vibrancy::Error| #[trigger] describes(failure, description)
}

/// Whether `description` is what `cause`, the reason why a window gave out
/// no handle, says of itself when it is displayed.
pub open spec fn describes_cause(cause: HandleError, description: String) -> bool {
    to_string_from_display_ensures::<HandleError>(&cause, description)
}

/// Whether the platform failure `failure` says of itself exactly what
/// `cause` says.
pub open spec fn reports(failure: window_vibrancy::Error, cause: HandleError) -> bool {
    forall|description: String| #[trigger]
        describes(failure, description) == describes_cause(cause, description)
}

/// Puts one request about a window to the compositor and hands back its
/// answer. A window that gave out no handle is answered as the compositor
/// library answers it: with a failure that reports the cause.
fn send(
    window: &Result<WindowHandle<'_>, HandleError>,
    request: CompositorRequest,
) -> (answer: Result<(), window_vibrancy::Error>)
    ensures
        window matches Err(cause) ==> answer matches Err(failure) && reports(failure, *cause),
{
    match window {
        Ok(handle) => match request {
            CompositorRequest::ApplyMica { dark } => apply_mica(*handle, dark),
            CompositorRequest::ApplyAcrylic { tint } => apply_acrylic(*handle, tint),
            CompositorRequest::ClearMica => clear_mica(*handle),
            CompositorRequest::ClearAcrylic => clear_acrylic(*handle),
        },
        Err(cause) => Err(missing_window(cause)),
    }
}

/// A window as the compositor is asked about it: what the window gave out
/// when it was asked for its handle, together with a record, kept for the
/// proofs alone, of every request put to the compositor about it and of the
/// answer to each.
pub struct Window<'a> {
    handle: Result<WindowHandle<'a>, HandleError>,
    asked: Ghost<Seq<CompositorRequest>>,
    answered: Ghost<Seq<Result<(), window_vibrancy::Error>>>,
}

impl<'a> Window<'a> {
    /// What the window gave out when it was asked for its handle.
    pub closed spec fn handle(self) -> Result<WindowHandle<'a>, HandleError> {
        self.handle
    }

    /// The requests put to the compositor about this window so far, oldest
    /// first.
    pub closed spec fn asked(self) -> Seq<CompositorRequest> {
        self.asked@
    }

    /// The compositor's answers so far, oldest first: one for each request
    /// put through [`Window::put`].
    pub closed spec fn answered(self) -> Seq<Result<(), window_vibrancy::Error>> {
        self.answered@
    }

    /// Whether `self` is the window `before` with exactly `requests` put
    /// to the compositor since, in this order, and one answer recorded for
    /// each.
    pub open spec fn follows(self, before: Self, requests: Seq<CompositorRequest>) -> bool {
        &&& self.handle() == before.handle()
        &&& self.asked() == before.asked() + requests
        &&& self.answered().len() == before.answered().len() + requests.len()
        &&& before.answered().is_prefix_of(self.answered())
    }

    /// A window of which nothing has been asked yet.
    pub fn new(handle: Result<WindowHandle<'a>, HandleError>) -> (window: Self)
        ensures
            window.handle() == handle,
            window.asked() == Seq::<CompositorRequest>::empty(),
            window.answered() == Seq::<Result<(), window_vibrancy::Error>>::empty(),
    {
        Window { handle, asked: Ghost(Seq::empty()), answered: Ghost(Seq::empty()) }
    }

    /// Puts one request to the compositor and records it with its answer.
    /// Every request of this crate goes this way.
    pub(crate) fn put(&mut self, request: CompositorRequest) -> (answer: Result<
        (),
        window_vibrancy::Error,
    >)
        ensures
            final(self).handle() == old(self).handle(),
            final(self).asked() == old(self).asked().push(request),
            final(self).answered() == old(self).answered().push(answer),
            old(self).handle() matches Err(cause) ==> answer matches Err(failure) && reports(
                failure,
                cause,
            ),
    {
        let answer = send(&self.handle, request);
        proof {
            self.asked = Ghost(self.asked@.push(request));
            self.answered = Ghost(self.answered@.push(answer));
        }
        answer
    }
}

/// Whether `outcome` is what the caller is told of the platform's answer
/// `answer` when its failure is not to be ignored: success for success, and
/// for a failure the platform's own description of it.
pub open spec fn surfaces(
    answer: Result<(), window_vibrancy::Error>,
    outcome: Result<(), EffectError>,
) -> bool {
    match answer {
        Ok(_) => outcome is Ok,
        Err(failure) => outcome matches Err(EffectError::PlatformEffectFailure(description))
            && describes(failure, description),
    }
}

/// What the caller is told of an answer from the platform whose failure is
/// not to be ignored: success stays success, and a failure is surfaced with
/// the platform's own description of it.
pub fn surfaced(answer: Result<(), window_vibrancy::Error>) -> (outcome: Result<(), EffectError>)
    ensures
        surfaces(answer, outcome),
{
    match answer {
        Ok(()) => Ok(()),
        Err(failure) => Err(EffectError::PlatformEffectFailure(failure.to_string())),
    }
}

} // verus!
