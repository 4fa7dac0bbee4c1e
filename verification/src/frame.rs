//! The frame orchestrator: sequences clear, map pass, sprite pass, mip
//! regeneration and lighting pass into one command stream per frame, in a
//! fixed, load-bearing order — the map and sprite passes must have written
//! the visibility target before its mip chain is regenerated, and the mip
//! chain must be regenerated before the lighting pass samples it. A quit
//! signal is observed only at the top of an iteration; any frame that
//! started always completes.

use crate::commands::{pass_ordered, pass_rank, PassCommand};
use crate::instance::SpriteInstance;
use crate::lighting::LightingRenderer;
use crate::map::MapRenderer;
use crate::sprites::{encode_commands, encode_step, min_int, update_step, QuadRenderer};
use vstd::prelude::*;

verus! {

/// The orchestrator's per-iteration states, traversed unconditionally in
/// order except for the quit interrupt at the top of an iteration.
#[derive(Clone, Copy, Debug, PartialEq, Eq, Structural)]
pub enum FrameState {
    /// Between iterations; the quit signal is polled here.
    Idle,
    /// Clearing the presentation surface and its depth buffer.
    Clearing,
    /// Drawing the background into both offscreen targets.
    MapPass,
    /// Uploading and drawing the instanced sprite batch.
    SpritePass,
    /// Regenerating the visibility target's mip chain.
    MipmapRegen,
    /// Compositing colour × visibility falloff into the framebuffer.
    LightingPass,
    /// The frame's commands are submitted and the buffer swapped.
    Presented,
    /// Terminal: a quit signal was observed; no further frame starts.
    ShuttingDown,
}

/// The machine's transition relation. Transitions are unconditional and
/// sequential; the quit signal is examined only in `Idle`, the top of an
/// iteration, and `ShuttingDown` is terminal.
pub open spec fn next_state_spec(s: FrameState, quit: bool) -> FrameState {
    match s {
        FrameState::Idle => if quit {
            FrameState::ShuttingDown
        } else {
            FrameState::Clearing
        },
        FrameState::Clearing => FrameState::MapPass,
        FrameState::MapPass => FrameState::SpritePass,
        FrameState::SpritePass => FrameState::MipmapRegen,
        FrameState::MipmapRegen => FrameState::LightingPass,
        FrameState::LightingPass => FrameState::Presented,
        FrameState::Presented => FrameState::Idle,
        FrameState::ShuttingDown => FrameState::ShuttingDown,
    }
}

/// One step of the orchestrator's state machine.
pub fn next_state(s: FrameState, quit: bool) -> (r: FrameState)
    ensures
        r == next_state_spec(s, quit),
{
    match s {
        FrameState::Idle => if quit {
            FrameState::ShuttingDown
        } else {
            FrameState::Clearing
        },
        FrameState::Clearing => FrameState::MapPass,
        FrameState::MapPass => FrameState::SpritePass,
        FrameState::SpritePass => FrameState::MipmapRegen,
        FrameState::MipmapRegen => FrameState::LightingPass,
        FrameState::LightingPass => FrameState::Presented,
        FrameState::Presented => FrameState::Idle,
        FrameState::ShuttingDown => FrameState::ShuttingDown,
    }
}

/// The state reached after `n` steps with the quit signal never raised.
pub open spec fn run_steps(s: FrameState, n: nat) -> FrameState
    decreases n,
{
    if n == 0 {
        s
    } else {
        next_state_spec(run_steps(s, (n - 1) as nat), false)
    }
}

/// Law: with no quit signal, an iteration from `Idle` traverses the seven
/// stages in their fixed order and returns to `Idle`.
pub proof fn lemma_frame_cycle()
    ensures
        run_steps(FrameState::Idle, 1) == FrameState::Clearing,
        run_steps(FrameState::Idle, 2) == FrameState::MapPass,
        run_steps(FrameState::Idle, 3) == FrameState::SpritePass,
        run_steps(FrameState::Idle, 4) == FrameState::MipmapRegen,
        run_steps(FrameState::Idle, 5) == FrameState::LightingPass,
        run_steps(FrameState::Idle, 6) == FrameState::Presented,
        run_steps(FrameState::Idle, 7) == FrameState::Idle,
{
    reveal_with_fuel(run_steps, 8);
}

/// Law: the quit interrupt can truncate the loop only at the top of an
/// iteration — every state but `Idle` ignores it — and `ShuttingDown` is
/// terminal, so an in-flight frame always completes.
pub proof fn lemma_quit_only_at_top(s: FrameState)
    ensures
        s != FrameState::Idle ==> next_state_spec(s, true) == next_state_spec(s, false),
        next_state_spec(FrameState::ShuttingDown, true) == FrameState::ShuttingDown,
        next_state_spec(FrameState::ShuttingDown, false) == FrameState::ShuttingDown,
{
}

/// The sprite pass's contribution to a frame trace with `k` instances
/// written: a partial copy and one instanced draw, or nothing for `k` zero.
pub open spec fn sprite_pass_commands(k: int) -> Seq<PassCommand> {
    if k == 0 {
        Seq::<PassCommand>::empty()
    } else {
        seq![
            PassCommand::CopyInstances { count: k as usize },
            PassCommand::DrawSprites { count: k as usize },
        ]
    }
}

/// The complete command trace of one frame with `k` instances written and
/// the given eye position: clears, the map draw, the sprite pass, mip
/// regeneration, then the lighting pass.
pub open spec fn frame_commands(k: int, eye_x: i64, eye_y: i64) -> Seq<PassCommand> {
    seq![PassCommand::ClearColour, PassCommand::ClearDepth, PassCommand::DrawMap]
        + sprite_pass_commands(k) + seq![
        PassCommand::RegenerateMipmaps,
        PassCommand::SetEyePosition { x: eye_x, y: eye_y },
        PassCommand::DrawLighting,
    ]
}

/// Law: every frame trace is pass-ordered — all map and sprite commands
/// precede mip regeneration, which precedes all lighting commands, for the
/// visibility-target generation the frame produces.
pub proof fn lemma_frame_commands_pass_ordered(k: int, eye_x: i64, eye_y: i64)
    requires
        0 <= k <= usize::MAX,
    ensures
        pass_ordered(frame_commands(k, eye_x, eye_y)),
{
    let t = frame_commands(k, eye_x, eye_y);
    if k == 0 {
        assert(t =~= seq![
            PassCommand::ClearColour,
            PassCommand::ClearDepth,
            PassCommand::DrawMap,
            PassCommand::RegenerateMipmaps,
            PassCommand::SetEyePosition { x: eye_x, y: eye_y },
            PassCommand::DrawLighting,
        ]);
        assert forall|i: int, j: int| 0 <= i < j < t.len() implies #[trigger] pass_rank(t[i])
            <= #[trigger] pass_rank(t[j]) by {
            assert(pass_rank(t[0]) == 0);
            assert(pass_rank(t[1]) == 0);
            assert(pass_rank(t[2]) == 1);
            assert(pass_rank(t[3]) == 3);
            assert(pass_rank(t[4]) == 4);
            assert(pass_rank(t[5]) == 4);
        }
    } else {
        assert(t =~= seq![
            PassCommand::ClearColour,
            PassCommand::ClearDepth,
            PassCommand::DrawMap,
            PassCommand::CopyInstances { count: k as usize },
            PassCommand::DrawSprites { count: k as usize },
            PassCommand::RegenerateMipmaps,
            PassCommand::SetEyePosition { x: eye_x, y: eye_y },
            PassCommand::DrawLighting,
        ]);
        assert forall|i: int, j: int| 0 <= i < j < t.len() implies #[trigger] pass_rank(t[i])
            <= #[trigger] pass_rank(t[j]) by {
            assert(pass_rank(t[0]) == 0);
            assert(pass_rank(t[1]) == 0);
            assert(pass_rank(t[2]) == 1);
            assert(pass_rank(t[3]) == 2);
            assert(pass_rank(t[4]) == 2);
            assert(pass_rank(t[5]) == 3);
            assert(pass_rank(t[6]) == 4);
            assert(pass_rank(t[7]) == 4);
        }
    }
}

/// Owns the three passes, lends them the shared targets' command stream in
/// the one fixed order, and tracks where the machine stands.
#[derive(Debug)]
pub struct FrameOrchestrator {
    /// The static background pass.
    pub map_renderer: MapRenderer,
    /// The instanced sprite pass.
    pub quad_renderer: QuadRenderer,
    /// The lighting composite pass.
    pub lighting_renderer: LightingRenderer,
    /// Where the per-frame machine stands between calls.
    pub state: FrameState,
}

impl FrameOrchestrator {
    /// The orchestrator's invariant.
    pub open spec fn wf(&self) -> bool {
        self.quad_renderer.wf()
    }

    /// Assembles the pipeline around already-built passes, idle and ready
    /// for the first iteration.
    pub fn new(
        map_renderer: MapRenderer,
        quad_renderer: QuadRenderer,
        lighting_renderer: LightingRenderer,
    ) -> (r: FrameOrchestrator)
        requires
            quad_renderer.wf(),
        ensures
            r.wf(),
            r.map_renderer == map_renderer,
            r.quad_renderer == quad_renderer,
            r.lighting_renderer == lighting_renderer,
            r.state == FrameState::Idle,
    {
        FrameOrchestrator { map_renderer, quad_renderer, lighting_renderer, state: FrameState::Idle }
    }

    /// Runs one iteration of the loop. A raised quit signal, observed at the
    /// top, truncates it: the machine drops into the terminal shutdown state
    /// and nothing is encoded. Otherwise one whole frame's commands are
    /// appended to the stream — the trace is exactly `frame_commands` for
    /// the written count, and so pass-ordered — and the machine returns to
    /// idle once the frame is presented.
    pub fn run_frame(
        &mut self,
        quit: bool,
        to_render: &Vec<SpriteInstance>,
        eye_x: i64,
        eye_y: i64,
        stream: &mut Vec<PassCommand>,
    ) -> (ran: bool)
        requires
            old(self).wf(),
            old(self).state == FrameState::Idle,
        ensures
            final(self).wf(),
            ran == !quit,
            final(self).map_renderer == old(self).map_renderer,
            quit ==> {
                &&& final(self).state == FrameState::ShuttingDown
                &&& final(stream)@ == old(stream)@
                &&& final(self).quad_renderer == old(self).quad_renderer
                &&& final(self).lighting_renderer == old(self).lighting_renderer
            },
            !quit ==> {
                &&& final(self).state == FrameState::Idle
                &&& final(self).quad_renderer@ == encode_step(
                    update_step(old(self).quad_renderer@, to_render@),
                )
                &&& final(self).lighting_renderer.eye_x == eye_x
                &&& final(self).lighting_renderer.eye_y == eye_y
                &&& final(self).lighting_renderer.window_width == old(
                    self,
                ).lighting_renderer.window_width
                &&& final(self).lighting_renderer.window_height == old(
                    self,
                ).lighting_renderer.window_height
                &&& final(stream)@ == old(stream)@ + frame_commands(
                    min_int(to_render@.len() as int, old(self).quad_renderer@.capacity()),
                    eye_x,
                    eye_y,
                )
                &&& pass_ordered(final(stream)@.skip(old(stream)@.len() as int))
            },
    {
        if quit {
            self.state = next_state(self.state, true);
            return false;
        }
        let ghost k = min_int(to_render@.len() as int, self.quad_renderer@.capacity());
        self.state = next_state(self.state, false);  // Clearing
        stream.push(PassCommand::ClearColour);
        stream.push(PassCommand::ClearDepth);
        // the renderable snapshot is fed to the sprite pass before any
        // encoding; it appends nothing to the stream
        self.quad_renderer.update(to_render);
        self.state = next_state(self.state, false);  // MapPass
        self.map_renderer.encode(stream);
        self.state = next_state(self.state, false);  // SpritePass
        self.quad_renderer.encode(stream);
        self.state = next_state(self.state, false);  // MipmapRegen
        self.lighting_renderer.generate_mipmap(stream);
        self.state = next_state(self.state, false);  // LightingPass
        self.lighting_renderer.update(eye_x, eye_y, stream);
        self.lighting_renderer.encode(stream);
        self.state = next_state(self.state, false);  // Presented: submission and swap happen at the process edge
        self.state = next_state(self.state, false);  // Idle again
        proof {
            assert(encode_commands(update_step(old(self).quad_renderer@, to_render@))
                =~= sprite_pass_commands(k));
            assert(stream@ =~= old(stream)@ + frame_commands(k, eye_x, eye_y));
            lemma_frame_commands_pass_ordered(k, eye_x, eye_y);
            assert(stream@.skip(old(stream)@.len() as int) =~= frame_commands(k, eye_x, eye_y));
        }
        true
    }
}

} // verus!
