use ezgl::acquire::{
    display_preference, AcquireEvent, AcquireState, Acquisition, Action, DisplayPreference, GlApi,
    PlatformKind,
};
use ezgl::error::Error;

#[test]
fn successful_acquisition_walks_the_fixed_sequence() {
    let mut a = Acquisition::new(640, 480, Some(4));
    assert_eq!(a.next_action(), Action::ResolveHandles);
    a.step(AcquireEvent::HandlesResolved);
    assert_eq!(a.next_action(), Action::CreateDisplay);
    a.step(AcquireEvent::DisplayCreated);
    assert_eq!(a.next_action(), Action::EnumerateConfigs);
    a.step(AcquireEvent::ConfigsEnumerated(vec![0, 2, 4, 8]));
    assert_eq!(a.next_action(), Action::CreateSurface { config: 2 });
    let req = a.surface_request();
    assert!(req.srgb);
    assert_eq!((req.width, req.height), (640, 480));
    a.step(AcquireEvent::SurfaceCreated);
    assert_eq!(a.next_action(), Action::CreateContext { config: 2, api: GlApi::Desktop });
    a.step(AcquireEvent::ContextCreated);
    assert_eq!(a.next_action(), Action::MakeCurrent);
    a.step(AcquireEvent::CurrentMade);
    assert_eq!(a.next_action(), Action::LoadGl);
    a.step(AcquireEvent::GlLoaded);
    assert_eq!(a.next_action(), Action::RegisterCallback);
    a.step(AcquireEvent::CallbackRegistered);
    assert_eq!(a.next_action(), Action::Stop);
    assert_eq!(a.state, AcquireState::Complete { config: 2, api: GlApi::Desktop });
    assert_eq!((a.width, a.height), (640, 480));
}

#[test]
fn failed_default_attempt_is_followed_by_one_gles_attempt() {
    let mut a = Acquisition::new(100, 100, None);
    a.step(AcquireEvent::HandlesResolved);
    a.step(AcquireEvent::DisplayCreated);
    a.step(AcquireEvent::ConfigsEnumerated(vec![0]));
    a.step(AcquireEvent::SurfaceCreated);
    assert_eq!(a.next_action(), Action::CreateContext { config: 0, api: GlApi::Desktop });
    a.step(AcquireEvent::ContextFailure("default refused".to_string()));
    assert_eq!(a.next_action(), Action::CreateContext { config: 0, api: GlApi::Gles });
    a.step(AcquireEvent::ContextFailure("gles refused".to_string()));
    assert_eq!(a.next_action(), Action::Stop);
    assert_eq!(a.into_error(), Error::Platform("gles refused".to_string()));
}

#[test]
fn gles_fallback_can_succeed_after_default_failure() {
    let mut a = Acquisition::new(100, 100, None);
    a.step(AcquireEvent::HandlesResolved);
    a.step(AcquireEvent::DisplayCreated);
    a.step(AcquireEvent::ConfigsEnumerated(vec![2, 2]));
    assert_eq!(a.next_action(), Action::CreateSurface { config: 0 });
    a.step(AcquireEvent::SurfaceCreated);
    a.step(AcquireEvent::ContextFailure("default refused".to_string()));
    a.step(AcquireEvent::ContextCreated);
    a.step(AcquireEvent::CurrentMade);
    a.step(AcquireEvent::GlLoaded);
    a.step(AcquireEvent::CallbackRegistered);
    assert_eq!(a.state, AcquireState::Complete { config: 0, api: GlApi::Gles });
}

#[test]
fn handle_failure_is_reported_as_its_own_variant() {
    let mut a = Acquisition::new(640, 480, None);
    a.step(AcquireEvent::HandleFailure("no display handle".to_string()));
    assert_eq!(a.next_action(), Action::Stop);
    assert_eq!(a.into_error(), Error::Handle("no display handle".to_string()));
}

#[test]
fn display_failure_is_reported_as_platform_error() {
    let mut a = Acquisition::new(640, 480, None);
    a.step(AcquireEvent::HandlesResolved);
    a.step(AcquireEvent::PlatformFailure("no display".to_string()));
    assert_eq!(a.into_error(), Error::Platform("no display".to_string()));
}

#[test]
fn empty_enumeration_is_a_recoverable_error() {
    let mut a = Acquisition::new(640, 480, Some(4));
    a.step(AcquireEvent::HandlesResolved);
    a.step(AcquireEvent::DisplayCreated);
    a.step(AcquireEvent::ConfigsEnumerated(Vec::new()));
    assert_eq!(a.next_action(), Action::Stop);
    assert_eq!(a.into_error(), Error::NoConfigs);
}

#[test]
fn state_is_failed_after_surface_failure() {
    let mut a = Acquisition::new(5, 5, None);
    a.step(AcquireEvent::HandlesResolved);
    a.step(AcquireEvent::DisplayCreated);
    a.step(AcquireEvent::ConfigsEnumerated(vec![0]));
    a.step(AcquireEvent::PlatformFailure("surface refused".to_string()));
    assert!(matches!(a.state, AcquireState::Failed { .. }));
}

#[test]
fn display_preference_follows_the_platform() {
    assert_eq!(display_preference(PlatformKind::UnixLike, true), DisplayPreference::GlxThenEgl);
    assert_eq!(display_preference(PlatformKind::UnixLike, false), DisplayPreference::Egl);
    assert_eq!(display_preference(PlatformKind::MacOs, false), DisplayPreference::Cgl);
    assert_eq!(display_preference(PlatformKind::MacOs, true), DisplayPreference::Cgl);
    assert_eq!(display_preference(PlatformKind::Windows, false), DisplayPreference::Wgl);
    assert_eq!(display_preference(PlatformKind::Windows, true), DisplayPreference::Wgl);
}
