//! The surface request, the bundle's plain-value state, and the live
//! bundle.
//!
//! A live bundle owns the platform surface and the current context. Both
//! are opaque platform handles; what the logic reads and updates — the
//! surface's reported dimensions and the API of the created context — is
//! kept beside them as plain values, and every operation on the bundle is
//! decided over those values before the platform is called.

use crate::acquire::GlApi;
use crate::error::Error;
use glutin::context::PossiblyCurrentContext;
use glutin::display::GetGlDisplay;
use glutin::surface::{GlSurface, Surface, WindowSurface};
use vstd::prelude::*;

verus! {

#[verifier::external_type_specification]
#[verifier::external_body]
/// Declaration of glutin's possibly-current context, an opaque platform
/// handle.
pub struct ExPossiblyCurrentContext(PossiblyCurrentContext);

/// Owns glutin's window surface. The surface type is generic over a
/// marker trait the verifier cannot admit, so it is held whole inside
/// this opaque struct instead of being declared; nothing is assumed of
/// it beyond what the wrappers below state. The field is public because
/// no declarable signature could take the surface in: filling it is how
/// the platform layer hands the created surface over to
/// `Acquisition::finish`.
#[verifier::external_body]
pub struct PlatformSurface {
    /// The owned platform surface.
    pub inner: Surface<WindowSurface>,
}

/// The attributes requested for the window surface: an sRGB-capable
/// surface of the given dimensions.
#[derive(Clone, Copy, Debug, PartialEq, Eq, Structural)]
pub struct SurfaceRequest {
    /// Request an sRGB-capable surface where supported.
    pub srgb: bool,
    /// Surface width in pixels.
    pub width: u32,
    /// Surface height in pixels.
    pub height: u32,
}

/// Build the surface attributes for the given dimensions. Both dimensions
/// must be non-zero; the caller is responsible for that.
pub fn surface_attributes(width: u32, height: u32) -> (r: SurfaceRequest)
    requires
        width > 0,
        height > 0,
    ensures
        r == (SurfaceRequest { srgb: true, width, height }),
{
    SurfaceRequest { srgb: true, width, height }
}

/// The plain-value state of a live bundle: the surface's reported
/// dimensions and the created context's API.
#[derive(Clone, Copy, Debug, PartialEq, Eq, Structural)]
pub struct SurfaceState {
    /// The surface's reported width in pixels.
    pub width: u32,
    /// The surface's reported height in pixels.
    pub height: u32,
    /// The context API that the successful creation attempt requested.
    pub api: GlApi,
}

impl SurfaceState {
    /// A live bundle never reports a zero dimension.
    pub open spec fn wf(self) -> bool {
        self.width > 0 && self.height > 0
    }

    /// The resize decision. With both dimensions non-zero the reported
    /// size becomes `(width, height)` and the returned pair is the size
    /// the platform surface must be given; with either dimension zero
    /// nothing changes and nothing is to be done — a silent no-op, not an
    /// error, guarding against transient zero sizes during minimization.
    pub fn resize(&mut self, width: u32, height: u32) -> (r: Option<(u32, u32)>)
        requires
            old(self).wf(),
        ensures
            final(self).wf(),
            final(self).api == old(self).api,
            width > 0 && height > 0 ==> final(self).width == width && final(self).height == height
                && r == Some((width, height)),
            width == 0 || height == 0 ==> *final(self) == *old(self) && r is None,
    {
        if width == 0 || height == 0 {
            return None;
        }
        self.width = width;
        self.height = height;
        Some((width, height))
    }
}

/// Map the platform's report of a buffer swap into the library's error
/// taxonomy: success stays success, and a platform failure (surface or
/// context gone invalid) is reported as a platform error.
pub fn swap_outcome(outcome: Result<(), String>) -> (r: Result<(), Error>)
    ensures
        outcome is Ok <==> r is Ok,
        outcome matches Err(m) ==> r == Err::<(), Error>(Error::Platform(m)),
{
    match outcome {
        Ok(()) => Ok(()),
        Err(m) => Err(Error::Platform(m)),
    }
}

/// Relies on glutin's `GlSurface::resize` and `GetGlDisplay::display`.
/// glutin dispatches the resize on the surface and the context together
/// and panics when the two belong to different backends, so the pair's
/// backends are compared first — each `display()` is a panic-free clone
/// dispatched on one value — and a mismatch is reported instead of
/// calling in. On a matched pair the surface is resized to the given
/// non-zero dimensions where the backend resizes at all; glutin
/// documents the call as a no-op where the window system itself sizes
/// the surface.
#[verifier::external_body]
fn platform_resize(bundle: &Ezgl, width: u32, height: u32) -> (r: Result<(), String>)
    requires
        width > 0,
        height > 0,
{
    if std::mem::discriminant(&bundle.surface.inner.display())
        != std::mem::discriminant(&bundle.glutin.display())
    {
        return Err("surface and context belong to different backends".to_string());
    }
    bundle.surface.inner.resize(
        &bundle.glutin,
        std::num::NonZeroU32::new(width).unwrap(),
        std::num::NonZeroU32::new(height).unwrap(),
    );
    Ok(())
}

/// Relies on glutin's `GlSurface::swap_buffers` and
/// `GetGlDisplay::display`: presents the bundle's back buffer, reporting
/// a platform failure as its rendered message. glutin panics on a
/// surface and context of different backends, so as in the resize the
/// pair's backends are compared first and a mismatch is reported instead
/// of calling in; on a matched pair every failure comes back as an
/// error.
#[verifier::external_body]
fn platform_swap(bundle: &Ezgl) -> (r: Result<(), String>) {
    if std::mem::discriminant(&bundle.surface.inner.display())
        != std::mem::discriminant(&bundle.glutin.display())
    {
        return Err("surface and context belong to different backends".to_string());
    }
    match bundle.surface.inner.swap_buffers(&bundle.glutin) {
        Ok(()) => Ok(()),
        Err(e) => Err(format!("{e}")),
    }
}

/// Struct handling GL information: the live surface, the current context,
/// and the plain-value state of both.
///
/// The fields are private: a bundle is built only by
/// `Acquisition::finish`, which is meant to pair a surface and a context
/// created from one display, and nothing afterwards can exchange either
/// handle. The platform calls above do not rely on that: they compare
/// the pair's backends before dispatching, so even a bundle assembled
/// from foreign handles cannot reach glutin's cross-backend panic.
pub struct Ezgl {
    /// The platform surface bound to the window.
    surface: PlatformSurface,
    /// The context, current on the surface since acquisition.
    glutin: PossiblyCurrentContext,
    /// The verified plain-value state of the bundle.
    state: SurfaceState,
}

impl Ezgl {
    /// The plain-value state of the bundle.
    pub closed spec fn spec_state(self) -> SurfaceState {
        self.state
    }

    /// The bundle's platform surface.
    pub closed spec fn spec_surface(self) -> PlatformSurface {
        self.surface
    }

    /// The bundle's context.
    pub closed spec fn spec_glutin(self) -> PossiblyCurrentContext {
        self.glutin
    }

    /// A live bundle's state is well formed.
    pub open spec fn wf(self) -> bool {
        self.spec_state().wf()
    }

    /// Put a bundle together. Only `Acquisition::finish` calls this,
    /// with the handles its sequence created.
    pub(crate) fn assemble(
        surface: PlatformSurface,
        glutin: PossiblyCurrentContext,
        state: SurfaceState,
    ) -> (r: Ezgl)
        requires
            state.wf(),
        ensures
            r.spec_surface() == surface,
            r.spec_glutin() == glutin,
            r.spec_state() == state,
    {
        Ezgl { surface, glutin, state }
    }

    /// Resize the GL surface.
    ///
    /// The state decides: with either dimension zero this does nothing at
    /// all, otherwise the surface is resized in place and the reported
    /// size is updated. The surface and context handles are left in
    /// place either way, and the GL viewport is not touched. This
    /// operation has no failure channel; for a bundle whose surface and
    /// context do not share a backend — one no acquisition builds — the
    /// guarded platform call declines and only the reported size
    /// changes.
    pub fn resize(&mut self, width: u32, height: u32)
        requires
            old(self).wf(),
        ensures
            final(self).wf(),
            final(self).spec_surface() == old(self).spec_surface(),
            final(self).spec_glutin() == old(self).spec_glutin(),
            final(self).spec_state().api == old(self).spec_state().api,
            width > 0 && height > 0 ==> final(self).spec_state().width == width
                && final(self).spec_state().height == height,
            width == 0 || height == 0 ==> final(self).spec_state() == old(self).spec_state(),
    {
        let request = self.state.resize(width, height);
        if let Some((w, h)) = request {
            let _ = platform_resize(self, w, h);
        }
    }

    /// Display the next frame. A platform failure — or a surface and
    /// context of different backends, which no acquisition pairs — comes
    /// back as a platform error carrying the rendered message.
    pub fn swap_buffers(&self) -> (r: Result<(), Error>)
        ensures
            r matches Err(e) ==> e is Platform,
    {
        swap_outcome(platform_swap(self))
    }

    /// The plain-value state of the bundle.
    pub fn state(&self) -> (r: &SurfaceState)
        ensures
            *r == self.spec_state(),
    {
        &self.state
    }

    /// Get the (possibly) current glutin context.
    pub fn glutin(&self) -> (r: &PossiblyCurrentContext)
        ensures
            *r == self.spec_glutin(),
    {
        &self.glutin
    }

    /// Get the surface corresponding with the window.
    pub fn surface(&self) -> (r: &PlatformSurface)
        ensures
            *r == self.spec_surface(),
    {
        &self.surface
    }
}

} // verus!
