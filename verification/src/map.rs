//! The map pass: draws the static full-resolution background image into the
//! colour and visibility targets simultaneously, through multiple render
//! targets, in a single draw of the shared quad. It has no per-frame state;
//! its output-resolution uniform is pushed once at construction, since the
//! resolution is fixed for the process lifetime.

use crate::commands::PassCommand;
use crate::errors::ResourceAllocationError;
use crate::pixels::PixelBuffer;
use crate::target::OffscreenTarget;
use vstd::prelude::*;

verus! {

/// Draws the background image into both shared targets in one pass.
#[derive(Debug)]
pub struct MapRenderer {
    /// Output-resolution uniform, pushed once: the targets' width.
    pub output_width: u32,
    /// Output-resolution uniform, pushed once: the targets' height.
    pub output_height: u32,
    /// Width of the immutable background texture.
    pub image_width: u32,
    /// Height of the immutable background texture.
    pub image_height: u32,
}

impl MapRenderer {
    /// Builds the pass over the two target attachments it writes and the
    /// decoded background image, recording the output-resolution uniform
    /// once. Fails exactly when the two attachments disagree in size, which
    /// the device rejects for a single pass.
    pub fn new(
        colour: &OffscreenTarget,
        visibility: &OffscreenTarget,
        background_image: &PixelBuffer,
    ) -> (r: Result<MapRenderer, ResourceAllocationError>)
        requires
            colour.wf(),
            visibility.wf(),
            background_image.wf(),
        ensures
            match r {
                Ok(m) => {
                    &&& colour.width == visibility.width
                    &&& colour.height == visibility.height
                    &&& m.output_width == colour.width
                    &&& m.output_height == colour.height
                    &&& m.image_width == background_image.width
                    &&& m.image_height == background_image.height
                },
                Err(e) => {
                    &&& !(colour.width == visibility.width && colour.height == visibility.height)
                    &&& e == ResourceAllocationError
                },
            },
    {
        if colour.width != visibility.width || colour.height != visibility.height {
            return Err(ResourceAllocationError);
        }
        Ok(MapRenderer {
            output_width: colour.width,
            output_height: colour.height,
            image_width: background_image.width,
            image_height: background_image.height,
        })
    }

    /// Appends the pass's one command: a single draw of the shared quad,
    /// stretched to the output resolution, writing both attachments.
    pub fn encode(&self, stream: &mut Vec<PassCommand>)
        ensures
            final(stream)@ == old(stream)@ + seq![PassCommand::DrawMap],
    {
        stream.push(PassCommand::DrawMap);
    }
}

} // verus!
