use moodle_desktop::platform::surfaced;
use moodle_desktop::{
    apply_effect, apply_startup_effect, set_window_effect, EffectError, Window, WindowEffect,
    WindowEffectApplier,
};
use raw_window_handle::HandleError;

const NATIVE: WindowEffectApplier = WindowEffectApplier::NativePlatform;
const NOOP: WindowEffectApplier = WindowEffectApplier::Noop;

fn unavailable<'a>() -> Window<'a> {
    Window::new(Err(HandleError::Unavailable))
}

fn not_supported<'a>() -> Window<'a> {
    Window::new(Err(HandleError::NotSupported))
}

#[test]
fn unknown_effect_is_rejected_with_its_name() {
    assert_eq!(
        set_window_effect(NATIVE, &mut unavailable(), String::from("blur")),
        Err(String::from("Unknown effect: blur"))
    );
}

#[test]
fn unknown_effect_message_is_exact() {
    assert_eq!(
        set_window_effect(NATIVE, &mut unavailable(), String::from("Mica")),
        Err(String::from("Unknown effect: Mica"))
    );
    assert_eq!(
        set_window_effect(NATIVE, &mut unavailable(), String::new()),
        Err(String::from("Unknown effect: "))
    );
    assert_eq!(
        set_window_effect(NATIVE, &mut unavailable(), String::from("none ")),
        Err(String::from("Unknown effect: none "))
    );
}

#[test]
fn noop_accepts_the_three_names() {
    for name in ["mica", "acrylic", "none"] {
        assert_eq!(set_window_effect(NOOP, &mut unavailable(), String::from(name)), Ok(()));
    }
}

#[test]
fn noop_accepts_invalid_names_too() {
    for name in ["blur", "", "Mica", "none "] {
        assert_eq!(set_window_effect(NOOP, &mut not_supported(), String::from(name)), Ok(()));
    }
}

#[test]
fn clearing_without_a_window_is_no_error() {
    assert_eq!(set_window_effect(NATIVE, &mut unavailable(), String::from("none")), Ok(()));
    assert_eq!(set_window_effect(NATIVE, &mut not_supported(), String::from("none")), Ok(()));
    assert_eq!(apply_effect(NATIVE, &mut unavailable(), WindowEffect::Clear), Ok(()));
}

#[test]
fn clearing_twice_is_no_error() {
    let mut window = unavailable();
    assert_eq!(set_window_effect(NATIVE, &mut window, String::from("none")), Ok(()));
    assert_eq!(set_window_effect(NATIVE, &mut window, String::from("none")), Ok(()));
}

#[test]
fn one_window_takes_one_effect_after_the_other() {
    let mut window = unavailable();
    assert_eq!(
        set_window_effect(NATIVE, &mut window, String::from("mica")),
        Err(String::from("the underlying handle is not available"))
    );
    assert_eq!(
        set_window_effect(NATIVE, &mut window, String::from("blur")),
        Err(String::from("Unknown effect: blur"))
    );
    assert_eq!(set_window_effect(NATIVE, &mut window, String::from("none")), Ok(()));
    assert_eq!(set_window_effect(NOOP, &mut window, String::from("acrylic")), Ok(()));
}

#[test]
fn mica_on_an_unavailable_window_fails_with_the_platform_description() {
    assert_eq!(
        set_window_effect(NATIVE, &mut unavailable(), String::from("mica")),
        Err(String::from("the underlying handle is not available"))
    );
}

#[test]
fn acrylic_on_an_unsupported_window_fails_with_the_platform_description() {
    assert_eq!(
        set_window_effect(NATIVE, &mut not_supported(), String::from("acrylic")),
        Err(String::from(
            "the underlying handle cannot be represented using the types in this crate"
        ))
    );
}

#[test]
fn apply_effect_gives_the_failure_its_kind() {
    assert_eq!(
        apply_effect(NATIVE, &mut unavailable(), WindowEffect::Mica),
        Err(EffectError::PlatformEffectFailure(String::from(
            "the underlying handle is not available"
        )))
    );
    assert_eq!(
        apply_effect(NATIVE, &mut unavailable(), WindowEffect::Acrylic),
        Err(EffectError::PlatformEffectFailure(String::from(
            "the underlying handle is not available"
        )))
    );
}

#[test]
fn apply_effect_without_a_compositor_changes_nothing_and_succeeds() {
    for effect in [WindowEffect::Mica, WindowEffect::Acrylic, WindowEffect::Clear] {
        assert_eq!(apply_effect(NOOP, &mut unavailable(), effect), Ok(()));
    }
}

#[test]
fn startup_effect_swallows_failure() {
    apply_startup_effect(NATIVE, &mut unavailable());
    apply_startup_effect(NOOP, &mut unavailable());
}

#[test]
fn platform_success_is_surfaced_as_success() {
    assert_eq!(surfaced(Ok(())), Ok(()));
}

#[test]
fn platform_failure_is_surfaced_with_its_description() {
    assert_eq!(
        surfaced(Err(window_vibrancy::Error::UnsupportedPlatformVersion(
            "\"apply_mica()\" is only available on Windows 11."
        ))),
        Err(EffectError::PlatformEffectFailure(String::from(
            "\"apply_mica()\" is only available on Windows 11."
        )))
    );
    assert_eq!(
        surfaced(Err(window_vibrancy::Error::NoWindowHandle(HandleError::Unavailable))),
        Err(EffectError::PlatformEffectFailure(String::from(
            "the underlying handle is not available"
        )))
    );
}
