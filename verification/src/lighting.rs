//! The lighting pass: samples the colour target and the mip-sampled
//! visibility target and writes the final lit image to the presentation
//! surface. Higher visibility mip levels stand in for a soft, larger-radius
//! falloff, so the mip chain must be regenerated after the frame's writes
//! and before this pass reads it.
//!
//! Of the pipeline's two historical designs this models the eye-following
//! variant: the pixel-space eye position is the pass's only per-frame
//! mutable state and is pushed once per frame.

use crate::commands::PassCommand;
use crate::errors::ResourceAllocationError;
use crate::target::OffscreenTarget;
use vstd::prelude::*;

verus! {

/// Composites colour × visibility-derived attenuation into the presented
/// framebuffer.
#[derive(Debug)]
pub struct LightingRenderer {
    /// Window-size uniform, pushed once: the presentation surface's width.
    pub window_width: u32,
    /// Window-size uniform, pushed once: the presentation surface's height.
    pub window_height: u32,
    /// Eye-position uniform, pixel space: the only per-frame mutable state.
    pub eye_x: i64,
    /// Eye-position uniform, pixel space.
    pub eye_y: i64,
}

impl LightingRenderer {
    /// Builds the pass over the two offscreen targets it samples and the
    /// presentation surface it writes. The eye position starts at the
    /// origin. Fails exactly when the sampled targets disagree in size or
    /// the visibility target carries no mip chain to sample.
    pub fn new(
        colour: &OffscreenTarget,
        visibility: &OffscreenTarget,
        window_width: u32,
        window_height: u32,
    ) -> (r: Result<LightingRenderer, ResourceAllocationError>)
        requires
            colour.wf(),
            visibility.wf(),
        ensures
            match r {
                Ok(l) => {
                    &&& colour.width == visibility.width
                    &&& colour.height == visibility.height
                    &&& visibility.mip_sampled
                    &&& l.window_width == window_width
                    &&& l.window_height == window_height
                    &&& l.eye_x == 0
                    &&& l.eye_y == 0
                },
                Err(e) => {
                    &&& !(colour.width == visibility.width && colour.height == visibility.height
                        && visibility.mip_sampled)
                    &&& e == ResourceAllocationError
                },
            },
    {
        if colour.width != visibility.width || colour.height != visibility.height
            || !visibility.mip_sampled {
            return Err(ResourceAllocationError);
        }
        Ok(LightingRenderer { window_width, window_height, eye_x: 0, eye_y: 0 })
    }

    /// Pushes a new pixel-space eye position: records it and appends the
    /// uniform update to the stream.
    pub fn update(&mut self, eye_x: i64, eye_y: i64, stream: &mut Vec<PassCommand>)
        ensures
            final(self).eye_x == eye_x,
            final(self).eye_y == eye_y,
            final(self).window_width == old(self).window_width,
            final(self).window_height == old(self).window_height,
            final(stream)@ == old(stream)@ + seq![
                PassCommand::SetEyePosition { x: eye_x, y: eye_y },
            ],
    {
        self.eye_x = eye_x;
        self.eye_y = eye_y;
        stream.push(PassCommand::SetEyePosition { x: eye_x, y: eye_y });
    }

    /// Regenerates every visibility mip level from level zero. Required
    /// after the map and sprite passes have written the visibility target
    /// and before this pass reads it: skipping it would leave the previous
    /// frame's stale mip data behind.
    pub fn generate_mipmap(&self, stream: &mut Vec<PassCommand>)
        ensures
            final(stream)@ == old(stream)@ + seq![PassCommand::RegenerateMipmaps],
    {
        stream.push(PassCommand::RegenerateMipmaps);
    }

    /// Appends the pass's draw: one full-screen quad sampling both targets,
    /// blending colour with the visibility-derived attenuation into the
    /// presentation surface.
    pub fn encode(&self, stream: &mut Vec<PassCommand>)
        ensures
            final(stream)@ == old(stream)@ + seq![PassCommand::DrawLighting],
    {
        stream.push(PassCommand::DrawLighting);
    }
}

} // verus!
