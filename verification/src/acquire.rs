//! The acquisition state machine.
//!
//! Acquiring a bound context is a fixed sequence of platform calls with two
//! decisions in it: which enumerated configuration to select, and which
//! context API to request after a failed attempt. The machine below owns
//! those decisions. The platform layer asks for the next action, performs
//! the call, and reports the outcome as an event; every transition is
//! verified, including the single GL ES fallback after a failed default-API
//! context attempt.

use crate::config::{select_config, spec_select_config};
use crate::error::Error;
use crate::surface::{Ezgl, PlatformSurface, SurfaceRequest, SurfaceState};
use glutin::context::PossiblyCurrentContext;
use vstd::prelude::*;

verus! {

/// Which API a context-creation attempt requests.
#[derive(Clone, Copy, Debug, PartialEq, Eq, Structural)]
pub enum GlApi {
    /// The platform's default API (desktop GL).
    Desktop,
    /// OpenGL ES, requested explicitly by the fallback attempt.
    Gles,
}

/// The windowing platforms the display preference distinguishes.
#[derive(Clone, Copy, Debug, PartialEq, Eq, Structural)]
pub enum PlatformKind {
    /// A Unix platform other than macOS.
    UnixLike,
    /// macOS.
    MacOs,
    /// Windows.
    Windows,
}

/// Which display API the platform layer should ask for when it resolves
/// the platform display.
#[derive(Clone, Copy, Debug, PartialEq, Eq, Structural)]
pub enum DisplayPreference {
    /// GLX first, then EGL; the caller passes its error-hook registrar.
    GlxThenEgl,
    /// EGL alone.
    Egl,
    /// CGL.
    Cgl,
    /// WGL.
    Wgl,
}

/// Choose the display API for the platform: on Unix, GLX-then-EGL when an
/// error-hook registrar was supplied and EGL alone otherwise; CGL on
/// macOS and WGL on Windows, where the registrar is ignored.
pub fn display_preference(platform: PlatformKind, has_error_hook: bool) -> (r: DisplayPreference)
    ensures
        platform is UnixLike && has_error_hook ==> r is GlxThenEgl,
        platform is UnixLike && !has_error_hook ==> r is Egl,
        platform is MacOs ==> r is Cgl,
        platform is Windows ==> r is Wgl,
{
    match platform {
        PlatformKind::UnixLike => if has_error_hook {
            DisplayPreference::GlxThenEgl
        } else {
            DisplayPreference::Egl
        },
        PlatformKind::MacOs => DisplayPreference::Cgl,
        PlatformKind::Windows => DisplayPreference::Wgl,
    }
}

/// Where an acquisition stands.
#[derive(Debug, PartialEq, Eq)]
pub enum AcquireState {
    /// Resolving the raw display and window handles.
    ResolvingHandles,
    /// Creating the platform display.
    CreatingDisplay,
    /// Enumerating the configurations that match the template.
    EnumeratingConfigs,
    /// Creating the window surface under the selected configuration.
    CreatingSurface {
        /// Index of the selected configuration, in enumeration order.
        config: usize,
    },
    /// Attempting to create a context.
    CreatingContext {
        /// Index of the selected configuration, in enumeration order.
        config: usize,
        /// The API this attempt requests.
        api: GlApi,
    },
    /// Making the created context current on the surface.
    MakingCurrent {
        /// Index of the selected configuration, in enumeration order.
        config: usize,
        /// The API of the created context.
        api: GlApi,
    },
    /// Loading the GL entry points through the display.
    LoadingGl {
        /// Index of the selected configuration, in enumeration order.
        config: usize,
        /// The API of the created context.
        api: GlApi,
    },
    /// Registering the debug callback with the loaded entry points.
    RegisteringCallback {
        /// Index of the selected configuration, in enumeration order.
        config: usize,
        /// The API of the created context.
        api: GlApi,
    },
    /// The acquisition finished: the context is current on the surface
    /// and the callback is registered.
    Complete {
        /// Index of the selected configuration, in enumeration order.
        config: usize,
        /// The API of the created context.
        api: GlApi,
    },
    /// The acquisition failed.
    Failed {
        /// Why it failed.
        error: Error,
    },
}

/// The outcome of one platform call, reported back to the machine.
#[derive(Debug, PartialEq, Eq)]
pub enum AcquireEvent {
    /// Both raw handles were resolved.
    HandlesResolved,
    /// A raw handle could not be resolved; the payload describes it.
    HandleFailure(String),
    /// The platform display was created.
    DisplayCreated,
    /// Enumeration finished; the payload holds the sample count of each
    /// matching configuration, in enumeration order.
    ConfigsEnumerated(Vec<u8>),
    /// The window surface was created.
    SurfaceCreated,
    /// The context-creation attempt succeeded.
    ContextCreated,
    /// The context-creation attempt failed; the payload describes it.
    ContextFailure(String),
    /// The context was made current on the surface.
    CurrentMade,
    /// The GL entry points were loaded.
    GlLoaded,
    /// The debug callback was registered.
    CallbackRegistered,
    /// Some other platform call failed; the payload describes it.
    PlatformFailure(String),
}

/// The next platform call the machine asks for.
#[derive(Clone, Copy, Debug, PartialEq, Eq, Structural)]
pub enum Action {
    /// Resolve the raw display and window handles.
    ResolveHandles,
    /// Create the platform display under the chosen display preference.
    CreateDisplay,
    /// Enumerate the configurations matching the template.
    EnumerateConfigs,
    /// Create the window surface under the selected configuration.
    CreateSurface {
        /// Index of the selected configuration, in enumeration order.
        config: usize,
    },
    /// Attempt to create a context with the given API.
    CreateContext {
        /// Index of the selected configuration, in enumeration order.
        config: usize,
        /// The API to request.
        api: GlApi,
    },
    /// Make the created context current on the surface.
    MakeCurrent,
    /// Load the GL entry points through the display.
    LoadGl,
    /// Register the debug callback.
    RegisterCallback,
    /// Nothing is left to do: report the outcome.
    Stop,
}

/// The events a state can answer its action with.
pub open spec fn accepts(state: AcquireState, event: AcquireEvent) -> bool {
    match state {
        AcquireState::ResolvingHandles => event is HandlesResolved || event is HandleFailure,
        AcquireState::CreatingDisplay => event is DisplayCreated || event is PlatformFailure,
        AcquireState::EnumeratingConfigs => event is ConfigsEnumerated || event is PlatformFailure,
        AcquireState::CreatingSurface { .. } => event is SurfaceCreated
            || event is PlatformFailure,
        AcquireState::CreatingContext { .. } => event is ContextCreated
            || event is ContextFailure,
        AcquireState::MakingCurrent { .. } => event is CurrentMade || event is PlatformFailure,
        AcquireState::LoadingGl { .. } => event is GlLoaded,
        AcquireState::RegisteringCallback { .. } => event is CallbackRegistered,
        AcquireState::Complete { .. } => false,
        AcquireState::Failed { .. } => false,
    }
}

/// The transition relation, as a function: the state after answering
/// `state`'s pending action with `event`, under sample preference
/// `prefer`. An event the state does not accept leaves it unchanged.
pub open spec fn spec_step(
    state: AcquireState,
    prefer: Option<u8>,
    event: AcquireEvent,
) -> AcquireState
    recommends
        accepts(state, event),
{
    match (state, event) {
        (AcquireState::ResolvingHandles, AcquireEvent::HandlesResolved) => {
            AcquireState::CreatingDisplay
        },
        (AcquireState::ResolvingHandles, AcquireEvent::HandleFailure(m)) => {
            AcquireState::Failed { error: Error::Handle(m) }
        },
        (AcquireState::CreatingDisplay, AcquireEvent::DisplayCreated) => {
            AcquireState::EnumeratingConfigs
        },
        (AcquireState::CreatingDisplay, AcquireEvent::PlatformFailure(m)) => {
            AcquireState::Failed { error: Error::Platform(m) }
        },
        (AcquireState::EnumeratingConfigs, AcquireEvent::ConfigsEnumerated(samples)) => {
            match spec_select_config(samples@, prefer) {
                Some(i) => AcquireState::CreatingSurface { config: i as usize },
                None => AcquireState::Failed { error: Error::NoConfigs },
            }
        },
        (AcquireState::EnumeratingConfigs, AcquireEvent::PlatformFailure(m)) => {
            AcquireState::Failed { error: Error::Platform(m) }
        },
        (AcquireState::CreatingSurface { config }, AcquireEvent::SurfaceCreated) => {
            AcquireState::CreatingContext { config, api: GlApi::Desktop }
        },
        (AcquireState::CreatingSurface { .. }, AcquireEvent::PlatformFailure(m)) => {
            AcquireState::Failed { error: Error::Platform(m) }
        },
        (AcquireState::CreatingContext { config, api }, AcquireEvent::ContextCreated) => {
            AcquireState::MakingCurrent { config, api }
        },
        (
            AcquireState::CreatingContext { config, api: GlApi::Desktop },
            AcquireEvent::ContextFailure(_),
        ) => {
            AcquireState::CreatingContext { config, api: GlApi::Gles }
        },
        (
            AcquireState::CreatingContext { api: GlApi::Gles, .. },
            AcquireEvent::ContextFailure(m),
        ) => {
            AcquireState::Failed { error: Error::Platform(m) }
        },
        (AcquireState::MakingCurrent { config, api }, AcquireEvent::CurrentMade) => {
            AcquireState::LoadingGl { config, api }
        },
        (AcquireState::MakingCurrent { .. }, AcquireEvent::PlatformFailure(m)) => {
            AcquireState::Failed { error: Error::Platform(m) }
        },
        (AcquireState::LoadingGl { config, api }, AcquireEvent::GlLoaded) => {
            AcquireState::RegisteringCallback { config, api }
        },
        (AcquireState::RegisteringCallback { config, api }, AcquireEvent::CallbackRegistered) => {
            AcquireState::Complete { config, api }
        },
        (s, _) => s,
    }
}

/// The pending action of a state.
pub open spec fn spec_next_action(state: AcquireState) -> Action {
    match state {
        AcquireState::ResolvingHandles => Action::ResolveHandles,
        AcquireState::CreatingDisplay => Action::CreateDisplay,
        AcquireState::EnumeratingConfigs => Action::EnumerateConfigs,
        AcquireState::CreatingSurface { config } => Action::CreateSurface { config },
        AcquireState::CreatingContext { config, api } => Action::CreateContext { config, api },
        AcquireState::MakingCurrent { .. } => Action::MakeCurrent,
        AcquireState::LoadingGl { .. } => Action::LoadGl,
        AcquireState::RegisteringCallback { .. } => Action::RegisterCallback,
        AcquireState::Complete { .. } => Action::Stop,
        AcquireState::Failed { .. } => Action::Stop,
    }
}

/// One acquisition in progress: the fixed request (dimensions, sample
/// preference) and where the sequence stands.
#[derive(Debug, PartialEq, Eq)]
pub struct Acquisition {
    /// Where the sequence stands.
    pub state: AcquireState,
    /// The requested multisample preference, if any.
    pub prefer_samples: Option<u8>,
    /// The requested surface width in pixels.
    pub width: u32,
    /// The requested surface height in pixels.
    pub height: u32,
}

impl Acquisition {
    /// The request's dimensions are never zero.
    pub open spec fn wf(self) -> bool {
        self.width > 0 && self.height > 0
    }

    /// Start an acquisition for a surface of the given dimensions, with an
    /// optional multisample preference. Both dimensions must be non-zero;
    /// the caller obtains them from the window's current size.
    pub fn new(width: u32, height: u32, prefer_samples: Option<u8>) -> (r: Acquisition)
        requires
            width > 0,
            height > 0,
        ensures
            r.wf(),
            r.state == AcquireState::ResolvingHandles,
            r.prefer_samples == prefer_samples,
            r.width == width,
            r.height == height,
    {
        Acquisition { state: AcquireState::ResolvingHandles, prefer_samples, width, height }
    }

    /// The next platform call to perform, or `Stop` when the sequence has
    /// ended either way.
    pub fn next_action(&self) -> (r: Action)
        ensures
            r == spec_next_action(self.state),
    {
        match &self.state {
            AcquireState::ResolvingHandles => Action::ResolveHandles,
            AcquireState::CreatingDisplay => Action::CreateDisplay,
            AcquireState::EnumeratingConfigs => Action::EnumerateConfigs,
            AcquireState::CreatingSurface { config } => Action::CreateSurface { config: *config },
            AcquireState::CreatingContext { config, api } => Action::CreateContext {
                config: *config,
                api: *api,
            },
            AcquireState::MakingCurrent { .. } => Action::MakeCurrent,
            AcquireState::LoadingGl { .. } => Action::LoadGl,
            AcquireState::RegisteringCallback { .. } => Action::RegisterCallback,
            AcquireState::Complete { .. } => Action::Stop,
            AcquireState::Failed { .. } => Action::Stop,
        }
    }

    /// The surface attributes the `CreateSurface` action asks for.
    pub fn surface_request(&self) -> (r: SurfaceRequest)
        requires
            self.wf(),
        ensures
            r == (SurfaceRequest { srgb: true, width: self.width, height: self.height }),
    {
        crate::surface::surface_attributes(self.width, self.height)
    }

    /// Answer the pending action's outcome and move to the next state.
    pub fn step(&mut self, event: AcquireEvent)
        requires
            old(self).wf(),
            accepts(old(self).state, event),
        ensures
            final(self).wf(),
            final(self).width == old(self).width,
            final(self).height == old(self).height,
            final(self).prefer_samples == old(self).prefer_samples,
            final(self).state == spec_step(old(self).state, old(self).prefer_samples, event),
    {
        let next = match (&self.state, event) {
            (AcquireState::ResolvingHandles, AcquireEvent::HandlesResolved) => {
                AcquireState::CreatingDisplay
            },
            (AcquireState::ResolvingHandles, AcquireEvent::HandleFailure(m)) => {
                AcquireState::Failed { error: Error::Handle(m) }
            },
            (AcquireState::CreatingDisplay, AcquireEvent::DisplayCreated) => {
                AcquireState::EnumeratingConfigs
            },
            (AcquireState::CreatingDisplay, AcquireEvent::PlatformFailure(m)) => {
                AcquireState::Failed { error: Error::Platform(m) }
            },
            (AcquireState::EnumeratingConfigs, AcquireEvent::ConfigsEnumerated(samples)) => {
                match select_config(&samples, self.prefer_samples) {
                    Some(i) => AcquireState::CreatingSurface { config: i },
                    None => AcquireState::Failed { error: Error::NoConfigs },
                }
            },
            (AcquireState::EnumeratingConfigs, AcquireEvent::PlatformFailure(m)) => {
                AcquireState::Failed { error: Error::Platform(m) }
            },
            (AcquireState::CreatingSurface { config }, AcquireEvent::SurfaceCreated) => {
                AcquireState::CreatingContext { config: *config, api: GlApi::Desktop }
            },
            (AcquireState::CreatingSurface { .. }, AcquireEvent::PlatformFailure(m)) => {
                AcquireState::Failed { error: Error::Platform(m) }
            },
            (AcquireState::CreatingContext { config, api }, AcquireEvent::ContextCreated) => {
                AcquireState::MakingCurrent { config: *config, api: *api }
            },
            (
                AcquireState::CreatingContext { config, api: GlApi::Desktop },
                AcquireEvent::ContextFailure(_),
            ) => {
                AcquireState::CreatingContext { config: *config, api: GlApi::Gles }
            },
            (
                AcquireState::CreatingContext { api: GlApi::Gles, .. },
                AcquireEvent::ContextFailure(m),
            ) => {
                AcquireState::Failed { error: Error::Platform(m) }
            },
            (AcquireState::MakingCurrent { config, api }, AcquireEvent::CurrentMade) => {
                AcquireState::LoadingGl { config: *config, api: *api }
            },
            (AcquireState::MakingCurrent { .. }, AcquireEvent::PlatformFailure(m)) => {
                AcquireState::Failed { error: Error::Platform(m) }
            },
            (AcquireState::LoadingGl { config, api }, AcquireEvent::GlLoaded) => {
                AcquireState::RegisteringCallback { config: *config, api: *api }
            },
            (
                AcquireState::RegisteringCallback { config, api },
                AcquireEvent::CallbackRegistered,
            ) => {
                AcquireState::Complete { config: *config, api: *api }
            },
            _ => {
                proof {
                    assert(false);
                }
                AcquireState::ResolvingHandles
            },
        };
        self.state = next;
    }

    /// Bundle the created surface and now-current context with their
    /// plain-value state. Requires the sequence to have completed: the
    /// context is then current on the surface and the callback is
    /// registered.
    ///
    /// The handles passed in are meant to be the ones this machine's
    /// actions created: a surface and a context obtained from the one
    /// display the sequence opened. The bundle does not depend on it for
    /// safety — its platform calls compare the pair's backends before
    /// dispatching — but handles of different backends make every such
    /// call decline with a platform failure.
    pub fn finish(self, surface: PlatformSurface, glutin: PossiblyCurrentContext) -> (r: Ezgl)
        requires
            self.wf(),
            self.state is Complete,
        ensures
            r.wf(),
            r.spec_state() == (SurfaceState {
                width: self.width,
                height: self.height,
                api: self.state->Complete_api,
            }),
            r.spec_surface() == surface,
            r.spec_glutin() == glutin,
    {
        let width = self.width;
        let height = self.height;
        match self.state {
            AcquireState::Complete { api, .. } => Ezgl::assemble(
                surface,
                glutin,
                SurfaceState { width, height, api },
            ),
            _ => {
                proof {
                    assert(false);
                }
                Ezgl::assemble(surface, glutin, SurfaceState { width, height, api: GlApi::Desktop })
            },
        }
    }

    /// Hand out the failure. Requires the sequence to have failed.
    pub fn into_error(self) -> (r: Error)
        requires
            self.state is Failed,
        ensures
            r == self.state->error,
    {
        match self.state {
            AcquireState::Failed { error } => error,
            _ => {
                proof {
                    assert(false);
                }
                Error::NoConfigs
            },
        }
    }
}

/// The context-creation fallback, stated once as a law: when the
/// default-API attempt fails, the machine schedules exactly one further
/// attempt, a GL ES request against the same configuration; and when that
/// fallback attempt fails too, the machine fails with the second platform
/// error and schedules nothing more.
pub proof fn lemma_context_fallback_once(
    state: AcquireState,
    prefer: Option<u8>,
    first_message: String,
    second_message: String,
)
    requires
        state matches AcquireState::CreatingContext { api: GlApi::Desktop, .. },
    ensures
        ({
            let retry = spec_step(state, prefer, AcquireEvent::ContextFailure(first_message));
            &&& retry == (AcquireState::CreatingContext {
                config: state->CreatingContext_config,
                api: GlApi::Gles,
            })
            &&& spec_next_action(retry) == (Action::CreateContext {
                config: state->CreatingContext_config,
                api: GlApi::Gles,
            })
            &&& spec_step(retry, prefer, AcquireEvent::ContextFailure(second_message))
                == (AcquireState::Failed { error: Error::Platform(second_message) })
        }),
{
}

} // verus!
