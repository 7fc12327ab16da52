//! The pipeline cache: the one fixed-function render pipeline, built once at
//! startup and immutable afterwards.
//!
//! The pipeline has no bind groups, no push constants, no vertex buffers, no
//! depth/stencil and no multisampling: the vertex stage synthesizes the
//! triangle from the per-invocation vertex index alone. The only datum the
//! render loop's correctness depends on is the pipeline's output format,
//! which must equal the pixel format of the surface configuration it was
//! built from — so that is what this model carries.

use vstd::prelude::*;

verus! {

/// The compiled fixed-function pipeline, reduced to what the loop's
/// decisions read: the pixel format its fragment stage writes.
#[derive(Clone, Copy, PartialEq, Eq, Structural, Debug)]
pub struct RenderPipeline {
    /// Opaque code of the color-target format, equal to the surface
    /// configuration's format at the time the pipeline was built.
    pub output_format: u32,
}

impl RenderPipeline {
    /// Build the pipeline against the given output format. Invoked exactly
    /// once, after the initial surface configuration is known, so that the
    /// pipeline's target format matches the surface's chosen format.
    pub fn build(output_format: u32) -> (p: RenderPipeline)
        ensures
            p.output_format == output_format,
    {
        RenderPipeline { output_format }
    }
}

} // verus!
