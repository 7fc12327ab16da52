//! The surface-configuration manager: reconciling a window's reported size
//! with a valid presentation-surface configuration.
//!
//! A presentation surface refuses a zero-area configuration, so every reported
//! dimension is clamped to at least 1 before it is applied. The pixel format
//! and presentation mode are chosen once, at startup, from what the backend
//! reports; a resize changes only the width and the height, never the format
//! or the mode. Formats and modes are carried as opaque numeric codes: the
//! shell that talks to the GPU backend assigns a code to each concrete value
//! it offers, and the manager's decisions depend only on which code was chosen
//! first and on the codes being stable.

use vstd::prelude::*;

verus! {

/// A window size as the window reports it: either dimension may be zero
/// (a minimized or degenerate window).
#[derive(Clone, Copy, PartialEq, Eq, Structural, Debug)]
pub struct Extent {
    pub width: u32,
    pub height: u32,
}

/// The negotiated configuration under which the presentation surface
/// currently operates. Width and height are always at least 1.
#[derive(Clone, Copy, PartialEq, Eq, Structural, Debug)]
pub struct SurfaceConfiguration {
    pub width: u32,
    pub height: u32,
    /// Opaque code of the pixel format, fixed at initialization.
    pub format: u32,
    /// Opaque code of the presentation mode, fixed at initialization.
    pub present_mode: u32,
}

/// A failure that ends the program before the render loop starts.
#[derive(Clone, Copy, PartialEq, Eq, Structural, Debug)]
pub enum SetupError {
    /// The backend reported no supported pixel format for this surface:
    /// the surface is incompatible with the selected adapter.
    NoSupportedFormat,
}

/// A dimension clamped so that it is usable in a surface configuration:
/// zero becomes one, everything else is kept. This is `max(d, 1)`.
pub open spec fn clamped(d: u32) -> u32 {
    if d == 0 {
        1u32
    } else {
        d
    }
}

/// The configuration that a resize notification with reported size `s`
/// leaves behind: both dimensions clamped, format and mode untouched.
pub open spec fn resize_step(c: SurfaceConfiguration, s: Extent) -> SurfaceConfiguration {
    SurfaceConfiguration {
        width: clamped(s.width),
        height: clamped(s.height),
        format: c.format,
        present_mode: c.present_mode,
    }
}

impl SurfaceConfiguration {
    /// A configuration the backend accepts: no zero-area surface.
    pub open spec fn wf(self) -> bool {
        self.width >= 1 && self.height >= 1
    }

    /// Build the initial configuration from the window's reported size and
    /// the backend's reported capabilities. The first reported format — the
    /// backend's preferred one — is selected; both dimensions are clamped to
    /// at least 1. Fails exactly when the backend reports no format at all.
    pub fn initialize(size: Extent, formats: &Vec<u32>, present_mode: u32) -> (r: Result<
        SurfaceConfiguration,
        SetupError,
    >)
        ensures
            r is Ok <==> formats@.len() > 0,
            r matches Ok(c) ==> c == (SurfaceConfiguration {
                width: clamped(size.width),
                height: clamped(size.height),
                format: formats@[0],
                present_mode: present_mode,
            }),
            r matches Ok(c) ==> c.wf(),
            r is Err ==> r == Result::<SurfaceConfiguration, SetupError>::Err(
                SetupError::NoSupportedFormat,
            ),
    {
        if formats.len() == 0 {
            Err(SetupError::NoSupportedFormat)
        } else {
            Ok(
                SurfaceConfiguration {
                    width: clamp_dimension(size.width),
                    height: clamp_dimension(size.height),
                    format: formats[0],
                    present_mode,
                },
            )
        }
    }

    /// Apply a resize notification: store the clamped dimensions, leaving
    /// format and mode as they were. The caller must re-apply the returned
    /// configuration to the surface before handing out another frame.
    pub fn resized(&mut self, new_size: Extent)
        requires
            old(self).wf(),
        ensures
            *final(self) == resize_step(*old(self), new_size),
            final(self).wf(),
            final(self).format == old(self).format,
            final(self).present_mode == old(self).present_mode,
    {
        self.width = clamp_dimension(new_size.width);
        self.height = clamp_dimension(new_size.height);
    }
}

/// Clamp one reported dimension to at least 1.
pub fn clamp_dimension(d: u32) -> (r: u32)
    ensures
        r == clamped(d),
        r >= 1,
{
    if d == 0 {
        1
    } else {
        d
    }
}

/// Resizing to the size the configuration already has changes nothing:
/// the stored dimensions are at least 1, so clamping returns them as
/// they are, and format and mode are untouched by any resize.
pub proof fn lemma_resize_idempotent(c: SurfaceConfiguration, s: Extent)
    requires
        c.wf(),
        s.width == c.width,
        s.height == c.height,
    ensures
        resize_step(c, s) == c,
{
}

} // verus!
