use lumen2d::commands::PassCommand;
use lumen2d::errors::ResourceAllocationError;
use lumen2d::instance::SpriteInstance;
use lumen2d::pixels::PixelBuffer;
use lumen2d::sprites::QuadRenderer;
use lumen2d::target::OffscreenTarget;

fn atlas() -> PixelBuffer {
    PixelBuffer::from_raw(2, 2, vec![0u8; 16]).unwrap()
}

fn renderer(capacity: usize) -> QuadRenderer {
    let colour = OffscreenTarget::create(64, 64, false).unwrap();
    let visibility = OffscreenTarget::create(64, 64, true).unwrap();
    QuadRenderer::new(&colour, &visibility, &atlas(), capacity).unwrap()
}

fn numbered(n: i64) -> SpriteInstance {
    SpriteInstance {
        centre_x: n,
        centre_y: 2 * n,
        dim_x: 8,
        dim_y: 8,
        facing_x: 0,
        facing_y: -1,
        sprite_left: 0,
        sprite_top: 0,
        sprite_w: 4,
        sprite_h: 4,
    }
}

fn snapshot(k: i64) -> Vec<SpriteInstance> {
    (0..k).map(numbered).collect()
}

#[test]
fn update_encode_draws_exact_count() {
    for k in 0..=4i64 {
        let mut q = renderer(4);
        let mut stream: Vec<PassCommand> = Vec::new();
        q.update(&snapshot(k));
        assert_eq!(q.written_count() as i64, k);
        q.encode(&mut stream);
        if k == 0 {
            // drawing zero instances is skipped entirely
            assert!(stream.is_empty());
        } else {
            assert_eq!(
                stream,
                vec![
                    PassCommand::CopyInstances { count: k as usize },
                    PassCommand::DrawSprites { count: k as usize },
                ]
            );
        }
    }
}

#[test]
fn excess_renderables_truncated_silently() {
    let mut q = renderer(4);
    let mut stream: Vec<PassCommand> = Vec::new();
    q.update(&snapshot(7));
    // exactly the capacity is written, never more
    assert_eq!(q.num_quads, 4);
    q.encode(&mut stream);
    assert_eq!(
        stream,
        vec![
            PassCommand::CopyInstances { count: 4 },
            PassCommand::DrawSprites { count: 4 },
        ]
    );
    // the device buffer holds the snapshot's first four records; the
    // remaining three are absent from the draw
    for i in 0..4 {
        assert_eq!(q.quad_instances[i], numbered(i as i64));
    }
}

#[test]
fn encode_twice_redraws_identically() {
    let mut q = renderer(4);
    let mut stream: Vec<PassCommand> = Vec::new();
    q.update(&snapshot(3));
    q.encode(&mut stream);
    let device_after_first: Vec<SpriteInstance> = q.quad_instances.clone();
    let first: Vec<PassCommand> = stream.clone();
    q.encode(&mut stream);
    // no hidden counter advances: same count, same commands, same contents
    assert_eq!(q.num_quads, 3);
    assert_eq!(stream.len(), 2 * first.len());
    assert_eq!(&stream[..first.len()], &first[..]);
    assert_eq!(&stream[first.len()..], &first[..]);
    assert_eq!(q.quad_instances, device_after_first);
}

#[test]
fn update_overwrites_instead_of_appending() {
    let mut q = renderer(4);
    q.update(&snapshot(4));
    q.update(&snapshot(1));
    // the count shrinks to what was written this frame
    assert_eq!(q.num_quads, 1);
    assert_eq!(q.quad_instances_upload[0], numbered(0));
    // slots beyond the written count keep last frame's bytes but are
    // outside the draw
    assert_eq!(q.quad_instances_upload[1], numbered(1));
}

#[test]
fn quad_renderer_rejects_mismatched_targets() {
    let colour = OffscreenTarget::create(64, 64, false).unwrap();
    let visibility = OffscreenTarget::create(32, 64, true).unwrap();
    let r = QuadRenderer::new(&colour, &visibility, &atlas(), 4);
    assert_eq!(r.unwrap_err(), ResourceAllocationError);
}

#[test]
fn new_renderer_is_zeroed_and_empty() {
    let q = renderer(3);
    assert_eq!(q.num_quads, 0);
    assert_eq!(q.quad_instances_upload, vec![SpriteInstance::zeroed(); 3]);
    assert_eq!(q.quad_instances, vec![SpriteInstance::zeroed(); 3]);
    assert_eq!((q.window_width, q.window_height), (64, 64));
    assert_eq!((q.sheet_width, q.sheet_height), (2, 2));
}
