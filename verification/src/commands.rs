//! Device-facing commands recorded into a frame's command stream, and the
//! pass-ordering discipline over such traces.

use vstd::prelude::*;

verus! {

/// One command of a frame trace. A frame's command stream is a `Vec` of
/// these; the renderers only ever append.
#[derive(Clone, Copy, Debug, PartialEq, Eq, Structural)]
pub enum PassCommand {
    /// Clear the presentation surface's colour attachment.
    ClearColour,
    /// Clear the presentation surface's depth buffer.
    ClearDepth,
    /// Draw the background image into the colour and visibility targets.
    DrawMap,
    /// Copy `count` instance records from the upload buffer to the
    /// device-resident instance buffer.
    CopyInstances { count: usize },
    /// One instanced draw of `count` sprite quads into the colour and
    /// visibility targets.
    DrawSprites { count: usize },
    /// Regenerate every mip level of the visibility target from level zero.
    RegenerateMipmaps,
    /// Push the pixel-space eye-position uniform for the lighting pass.
    SetEyePosition { x: i64, y: i64 },
    /// Full-screen lighting composite into the presentation surface.
    DrawLighting,
}

/// The stage of the frame that a command belongs to. Stages run in a fixed
/// order: clears, then the map pass, then the sprite pass, then mip
/// regeneration, then the lighting pass.
pub open spec fn pass_rank(c: PassCommand) -> int {
    match c {
        PassCommand::ClearColour => 0,
        PassCommand::ClearDepth => 0,
        PassCommand::DrawMap => 1,
        PassCommand::CopyInstances { .. } => 2,
        PassCommand::DrawSprites { .. } => 2,
        PassCommand::RegenerateMipmaps => 3,
        PassCommand::SetEyePosition { .. } => 4,
        PassCommand::DrawLighting => 4,
    }
}

/// A trace is pass-ordered when its stages never move backwards: every map
/// and sprite command precedes every mip-regeneration command, which precedes
/// every lighting command.
pub open spec fn pass_ordered(t: Seq<PassCommand>) -> bool {
    forall|i: int, j: int|
        0 <= i < j < t.len() ==> #[trigger] pass_rank(t[i]) <= #[trigger] pass_rank(t[j])
}

} // verus!
