//! The frame render loop: a state machine from window notifications to
//! surface and GPU directives.
//!
//! The event dispatcher delivers notifications one at a time, in arrival
//! order, and each is processed to completion before the next: `handle`
//! decides what the notification demands, and the unverified shell performs
//! it. A redraw opens a frame — acquire the next presentable image, record
//! one render pass as the returned [`FramePlan`] prescribes, submit it,
//! present the image — and the shell reports the presentation back through
//! [`RenderContext::frame_presented`], which is the only way to return to
//! the idle state. `handle` refuses to run while a frame is live, so the
//! acquire→record→submit→present cycle is atomic with respect to every
//! other notification.

use vstd::prelude::*;

use crate::config::{clamped, resize_step, Extent, SetupError, SurfaceConfiguration};
use crate::pipeline::RenderPipeline;

verus! {

/// A clear color with 8-bit channels; 255 is full intensity.
#[derive(Clone, Copy, PartialEq, Eq, Structural, Debug)]
pub struct ClearColor {
    pub r: u8,
    pub g: u8,
    pub b: u8,
    pub a: u8,
}

/// The fixed color every frame is cleared to: opaque green.
pub open spec fn spec_clear_color() -> ClearColor {
    ClearColor { r: 0, g: 255, b: 0, a: 255 }
}

/// A window notification, as the event dispatcher delivers it.
#[derive(Clone, Copy, PartialEq, Eq, Structural, Debug)]
pub enum Notification {
    /// The window's size changed; carries the newly reported size.
    Resized(Extent),
    /// The window wants one frame drawn.
    RedrawRequested,
    /// The user asked the window to close.
    CloseRequested,
    /// Any other window event; the loop ignores it.
    Other,
}

/// Everything one frame's single render pass must contain. The pass has no
/// depth/stencil attachment and no queries; its one color attachment is the
/// acquired image's view, loaded by clearing to `clear` and stored.
#[derive(Clone, Copy, PartialEq, Eq, Structural, Debug)]
pub struct FramePlan {
    /// Surface width at acquisition — the current configuration's width.
    pub width: u32,
    /// Surface height at acquisition — the current configuration's height.
    pub height: u32,
    /// Opaque format code of the pipeline bound in the pass.
    pub format: u32,
    /// The color the attachment is cleared to before drawing.
    pub clear: ClearColor,
    /// First vertex of the one draw call.
    pub first_vertex: u32,
    /// Number of vertices of the one draw call: the one triangle.
    pub vertex_count: u32,
    /// First instance of the one draw call.
    pub first_instance: u32,
    /// Number of instances of the one draw call.
    pub instance_count: u32,
}

/// What the shell must do in response to one notification.
#[derive(Clone, Copy, PartialEq, Eq, Structural, Debug)]
pub enum Directive {
    /// Apply `config` to the surface now, before returning to the
    /// dispatcher; if `schedule_redraw`, then ask the window for one
    /// redraw (some platforms do not repaint after a resize on their own).
    Reconfigure { config: SurfaceConfiguration, schedule_redraw: bool },
    /// Acquire the next presentable image, record and submit the one
    /// render pass described by `pass`, present the image, and report
    /// back through [`RenderContext::frame_presented`]. Acquisition or
    /// presentation failure is fatal: terminate instead of reporting.
    Render { pass: FramePlan },
    /// Terminate the event loop; tear down all GPU resources.
    Exit,
    /// Nothing to do.
    Ignore,
}

/// The long-lived render context: the one aggregate the event-processing
/// scope owns for the process lifetime.
#[derive(Clone, Copy, PartialEq, Eq, Structural, Debug)]
pub struct RenderContext {
    /// The configuration currently applied to the presentation surface.
    pub config: SurfaceConfiguration,
    /// The pipeline compiled once at startup; immutable afterwards.
    pub pipeline: RenderPipeline,
    /// Whether an acquired frame is live (acquired, not yet presented).
    pub frame_live: bool,
    /// Whether a close notification has terminated the loop.
    pub exited: bool,
}

/// The render pass that a redraw in state `s` must record: the current
/// surface dimensions, the cached pipeline's format, the fixed clear
/// color, and exactly one triangle in one instance.
pub open spec fn plan_for(s: RenderContext) -> FramePlan {
    FramePlan {
        width: s.config.width,
        height: s.config.height,
        format: s.pipeline.output_format,
        clear: spec_clear_color(),
        first_vertex: 0,
        vertex_count: 3,
        first_instance: 0,
        instance_count: 1,
    }
}

/// The state after one notification has been processed to completion —
/// for a redraw, after the acquired frame has been presented again.
pub open spec fn process(s: RenderContext, n: Notification) -> RenderContext {
    if s.exited {
        s
    } else {
        match n {
            Notification::Resized(sz) => RenderContext {
                config: resize_step(s.config, sz),
                ..s
            },
            Notification::RedrawRequested => s,
            Notification::CloseRequested => RenderContext { exited: true, ..s },
            Notification::Other => s,
        }
    }
}

/// The state after a whole sequence of notifications, each processed to
/// completion in arrival order.
pub open spec fn process_all(s: RenderContext, ns: Seq<Notification>) -> RenderContext
    decreases ns.len(),
{
    if ns.len() == 0 {
        s
    } else {
        process_all(process(s, ns[0]), ns.drop_first())
    }
}

impl RenderContext {
    /// A context the loop may run with: the surface configuration is valid
    /// for the backend, and the cached pipeline writes exactly the format
    /// the surface is configured with.
    pub open spec fn wf(self) -> bool {
        self.config.wf() && self.pipeline.output_format == self.config.format
    }

    /// Assemble the context from the startup products: the initial surface
    /// configuration and the pipeline built against its format. The loop
    /// starts idle: no frame live, not exited.
    pub fn new(config: SurfaceConfiguration, pipeline: RenderPipeline) -> (ctx: RenderContext)
        requires
            config.wf(),
            pipeline.output_format == config.format,
        ensures
            ctx == (RenderContext { config, pipeline, frame_live: false, exited: false }),
            ctx.wf(),
    {
        RenderContext { config, pipeline, frame_live: false, exited: false }
    }

    /// The whole startup decision sequence: choose the initial configuration
    /// from the window's reported size and the backend's reported formats,
    /// then build the one pipeline against the chosen format. Fails exactly
    /// when the backend reports no supported format.
    pub fn initialize(size: Extent, formats: &Vec<u32>, present_mode: u32) -> (r: Result<
        RenderContext,
        SetupError,
    >)
        ensures
            r is Ok <==> formats@.len() > 0,
            r matches Ok(ctx) ==> ctx == (RenderContext {
                config: SurfaceConfiguration {
                    width: clamped(size.width),
                    height: clamped(size.height),
                    format: formats@[0],
                    present_mode: present_mode,
                },
                pipeline: RenderPipeline { output_format: formats@[0] },
                frame_live: false,
                exited: false,
            }),
            r matches Ok(ctx) ==> ctx.wf(),
            r is Err ==> r == Result::<RenderContext, SetupError>::Err(
                SetupError::NoSupportedFormat,
            ),
    {
        let config = match SurfaceConfiguration::initialize(size, formats, present_mode) {
            Ok(c) => c,
            Err(e) => {
                return Err(e);
            },
        };
        let pipeline = RenderPipeline::build(config.format);
        Ok(RenderContext::new(config, pipeline))
    }

    /// Process one notification and say what the shell must do. Runs only
    /// between frames: a redraw's acquired frame must have been presented
    /// (and reported through [`Self::frame_presented`]) before the next
    /// notification may be handled, so no two acquired frames are ever
    /// live at once.
    pub fn handle(&mut self, n: Notification) -> (d: Directive)
        requires
            old(self).wf(),
            !old(self).frame_live,
            !old(self).exited,
        ensures
            final(self).wf(),
            final(self).pipeline == old(self).pipeline,
            final(self).config.format == old(self).config.format,
            final(self).config.present_mode == old(self).config.present_mode,
            final(self).frame_live == (n is RedrawRequested),
            (RenderContext { frame_live: false, ..*final(self) }) == process(*old(self), n),
            match n {
                Notification::Resized(sz) => {
                    &&& final(self).config == resize_step(old(self).config, sz)
                    &&& !final(self).exited
                    &&& d == (Directive::Reconfigure {
                        config: final(self).config,
                        schedule_redraw: true,
                    })
                },
                Notification::RedrawRequested => {
                    &&& *final(self) == (RenderContext { frame_live: true, ..*old(self) })
                    &&& d == (Directive::Render { pass: plan_for(*old(self)) })
                },
                Notification::CloseRequested => {
                    &&& *final(self) == (RenderContext { exited: true, ..*old(self) })
                    &&& d is Exit
                },
                Notification::Other => {
                    &&& *final(self) == *old(self)
                    &&& d is Ignore
                },
            },
    {
        match n {
            Notification::Resized(sz) => {
                self.config.resized(sz);
                Directive::Reconfigure { config: self.config, schedule_redraw: true }
            },
            Notification::RedrawRequested => {
                self.frame_live = true;
                Directive::Render {
                    pass: FramePlan {
                        width: self.config.width,
                        height: self.config.height,
                        format: self.pipeline.output_format,
                        clear: ClearColor { r: 0, g: 255, b: 0, a: 255 },
                        first_vertex: 0,
                        vertex_count: 3,
                        first_instance: 0,
                        instance_count: 1,
                    },
                }
            },
            Notification::CloseRequested => {
                self.exited = true;
                Directive::Exit
            },
            Notification::Other => Directive::Ignore,
        }
    }

    /// The shell reports that the acquired frame has been presented and its
    /// ownership released. Only this returns the loop to the idle state in
    /// which `handle` accepts the next notification.
    pub fn frame_presented(&mut self)
        requires
            old(self).frame_live,
        ensures
            *final(self) == (RenderContext { frame_live: false, ..*old(self) }),
    {
        self.frame_live = false;
    }
}

/// The pipeline's output format always equals the configuration's pixel
/// format: the format (and the presentation mode, and the pipeline itself)
/// chosen at initialization survives any sequence of notifications —
/// resizes change only width and height.
pub proof fn lemma_format_fixed_across_events(s: RenderContext, ns: Seq<Notification>)
    requires
        s.wf(),
    ensures
        process_all(s, ns).wf(),
        process_all(s, ns).pipeline == s.pipeline,
        process_all(s, ns).config.format == s.config.format,
        process_all(s, ns).config.present_mode == s.config.present_mode,
        process_all(s, ns).pipeline.output_format == process_all(s, ns).config.format,
    decreases ns.len(),
{
    if ns.len() > 0 {
        lemma_format_fixed_across_events(process(s, ns[0]), ns.drop_first());
    }
}

/// No two acquired frames are ever live at once. Each notification is
/// processed to completion before the next — in particular, the frame a
/// redraw acquires is presented within that same processing step, and
/// `handle` demands an idle loop — so between any two notifications no
/// frame is live, and a redraw acquires from an idle surface.
pub proof fn lemma_one_frame_in_flight(s: RenderContext, ns: Seq<Notification>)
    requires
        !s.frame_live,
    ensures
        !process_all(s, ns).frame_live,
    decreases ns.len(),
{
    if ns.len() > 0 {
        lemma_one_frame_in_flight(process(s, ns[0]), ns.drop_first());
    }
}

} // verus!
