use lumen2d::commands::PassCommand;
use lumen2d::frame::{next_state, FrameOrchestrator, FrameState};
use lumen2d::input::{ButtonState, EntityIdAllocator};
use lumen2d::instance::SpriteInstance;
use lumen2d::lighting::LightingRenderer;
use lumen2d::map::MapRenderer;
use lumen2d::pixels::PixelBuffer;
use lumen2d::sprites::QuadRenderer;
use lumen2d::target::OffscreenTarget;

fn pipeline(capacity: usize) -> FrameOrchestrator {
    let colour = OffscreenTarget::create(64, 64, false).unwrap();
    let visibility = OffscreenTarget::create(64, 64, true).unwrap();
    let background = PixelBuffer::from_raw(8, 8, vec![0u8; 256]).unwrap();
    let atlas = PixelBuffer::from_raw(4, 4, vec![0u8; 64]).unwrap();
    let map = MapRenderer::new(&colour, &visibility, &background).unwrap();
    let quads = QuadRenderer::new(&colour, &visibility, &atlas, capacity).unwrap();
    let lighting = LightingRenderer::new(&colour, &visibility, 64, 64).unwrap();
    FrameOrchestrator::new(map, quads, lighting)
}

fn sprite(n: i64) -> SpriteInstance {
    SpriteInstance {
        centre_x: n,
        centre_y: n,
        dim_x: 4,
        dim_y: 4,
        facing_x: 0,
        facing_y: -1,
        sprite_left: 0,
        sprite_top: 0,
        sprite_w: 4,
        sprite_h: 4,
    }
}

/// The stage a command belongs to, as the running order has it.
fn stage_of(c: &PassCommand) -> u32 {
    match c {
        PassCommand::ClearColour | PassCommand::ClearDepth => 0,
        PassCommand::DrawMap => 1,
        PassCommand::CopyInstances { .. } | PassCommand::DrawSprites { .. } => 2,
        PassCommand::RegenerateMipmaps => 3,
        PassCommand::SetEyePosition { .. } | PassCommand::DrawLighting => 4,
    }
}

#[test]
fn full_frame_trace_is_exact() {
    let mut orchestrator = pipeline(4);
    let mut stream: Vec<PassCommand> = Vec::new();
    let renderables = vec![sprite(1), sprite(2)];
    let ran = orchestrator.run_frame(false, &renderables, 5, 7, &mut stream);
    assert!(ran);
    assert_eq!(orchestrator.state, FrameState::Idle);
    assert_eq!(
        stream,
        vec![
            PassCommand::ClearColour,
            PassCommand::ClearDepth,
            PassCommand::DrawMap,
            PassCommand::CopyInstances { count: 2 },
            PassCommand::DrawSprites { count: 2 },
            PassCommand::RegenerateMipmaps,
            PassCommand::SetEyePosition { x: 5, y: 7 },
            PassCommand::DrawLighting,
        ]
    );
    assert_eq!((orchestrator.lighting_renderer.eye_x, orchestrator.lighting_renderer.eye_y), (5, 7));
}

#[test]
fn empty_frame_skips_sprite_commands() {
    let mut orchestrator = pipeline(4);
    let mut stream: Vec<PassCommand> = Vec::new();
    let ran = orchestrator.run_frame(false, &Vec::new(), 0, 0, &mut stream);
    assert!(ran);
    assert_eq!(
        stream,
        vec![
            PassCommand::ClearColour,
            PassCommand::ClearDepth,
            PassCommand::DrawMap,
            PassCommand::RegenerateMipmaps,
            PassCommand::SetEyePosition { x: 0, y: 0 },
            PassCommand::DrawLighting,
        ]
    );
}

#[test]
fn frame_traces_are_pass_ordered() {
    // the stages of any produced trace never move backwards, whatever the
    // renderable count — map and sprite work precedes mip regeneration,
    // which precedes the lighting pass
    for k in [0i64, 1, 3, 4, 9] {
        let mut orchestrator = pipeline(4);
        let mut stream: Vec<PassCommand> = Vec::new();
        let renderables: Vec<SpriteInstance> = (0..k).map(sprite).collect();
        orchestrator.run_frame(false, &renderables, 2, 3, &mut stream);
        for pair in stream.windows(2) {
            assert!(stage_of(&pair[0]) <= stage_of(&pair[1]));
        }
        let regen = stream
            .iter()
            .position(|c| *c == PassCommand::RegenerateMipmaps)
            .unwrap();
        assert!(stream[..regen]
            .iter()
            .all(|c| stage_of(c) < 3));
        assert!(stream[regen + 1..].iter().all(|c| stage_of(c) == 4));
    }
}

#[test]
fn quit_truncates_at_top_of_iteration() {
    let mut orchestrator = pipeline(4);
    let mut stream: Vec<PassCommand> = Vec::new();
    let ran = orchestrator.run_frame(true, &vec![sprite(1)], 0, 0, &mut stream);
    assert!(!ran);
    assert!(stream.is_empty());
    assert_eq!(orchestrator.state, FrameState::ShuttingDown);
    assert_eq!(orchestrator.quad_renderer.num_quads, 0);
}

#[test]
fn state_machine_cycles_in_fixed_order() {
    let cycle = [
        FrameState::Idle,
        FrameState::Clearing,
        FrameState::MapPass,
        FrameState::SpritePass,
        FrameState::MipmapRegen,
        FrameState::LightingPass,
        FrameState::Presented,
        FrameState::Idle,
    ];
    let mut s = FrameState::Idle;
    for expected in &cycle[1..] {
        s = next_state(s, false);
        assert_eq!(s, *expected);
    }
    // quit is observed only at the top of an iteration
    assert_eq!(next_state(FrameState::Idle, true), FrameState::ShuttingDown);
    assert_eq!(next_state(FrameState::MapPass, true), FrameState::SpritePass);
    assert_eq!(next_state(FrameState::LightingPass, true), FrameState::Presented);
    // and shutdown is terminal
    assert_eq!(next_state(FrameState::ShuttingDown, false), FrameState::ShuttingDown);
    assert_eq!(next_state(FrameState::ShuttingDown, true), FrameState::ShuttingDown);
}

#[test]
fn button_state_edges() {
    let mut b = ButtonState::default();
    assert!(!b.current && !b.previous);
    b.press();
    assert!(b.current && !b.previous);
    b.progress();
    assert!(b.current && b.previous);
    b.release();
    assert!(!b.current && b.previous);
    b.progress();
    assert!(!b.current && !b.previous);
}

#[test]
fn entity_ids_increase_from_zero() {
    let mut a = EntityIdAllocator::new();
    assert_eq!(a.allocate(), 0);
    assert_eq!(a.allocate(), 1);
    assert_eq!(a.allocate(), 2);
    assert_eq!(a.next, 3);
}
