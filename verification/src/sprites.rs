//! The instanced-sprite renderer: a fixed-capacity upload/device buffer pair
//! reused every frame as an arena, an explicit written count, and the
//! commands one encode appends. Excess renderables beyond the capacity are
//! silently truncated — a documented at-most-capacity policy, not a fault.

use crate::commands::PassCommand;
use crate::errors::ResourceAllocationError;
use crate::instance::SpriteInstance;
use crate::pixels::PixelBuffer;
use crate::target::OffscreenTarget;
use vstd::prelude::*;

verus! {

/// Fixed ceiling on sprite instances drawn per frame in the reference
/// configuration.
pub const MAX_NUM_QUADS: usize = 1024;

/// The smaller of two values.
pub open spec fn min_int(a: int, b: int) -> int {
    if a <= b {
        a
    } else {
        b
    }
}

/// The renderer's mathematical state: the staging arena, its device-resident
/// twin, and how many leading records the next draw covers.
#[verifier::ext_equal]
pub struct BatchView {
    /// Contents of the CPU-writable upload arena.
    pub upload: Seq<SpriteInstance>,
    /// Contents of the device-resident instance buffer.
    pub device: Seq<SpriteInstance>,
    /// Instances written this frame; the instance count of the next draw.
    pub written: int,
}

impl BatchView {
    /// Both buffers share one fixed capacity and the written count stays
    /// within it.
    pub open spec fn wf(&self) -> bool {
        &&& self.device.len() == self.upload.len()
        &&& self.upload.len() <= usize::MAX
        &&& 0 <= self.written <= self.upload.len()
    }

    /// The shared capacity of the buffer pair.
    pub open spec fn capacity(&self) -> int {
        self.upload.len() as int
    }

    /// The instance records the next draw reads from the device buffer.
    pub open spec fn drawn(&self) -> Seq<SpriteInstance> {
        self.device.take(self.written)
    }
}

/// What one `update` call does to the state: overwrite (never append) the
/// leading records of the upload arena with the snapshot, stopping at the
/// shorter of the two, and record the count actually written — never the
/// capacity. The device buffer is untouched.
pub open spec fn update_step(b: BatchView, rs: Seq<SpriteInstance>) -> BatchView {
    let k = min_int(rs.len() as int, b.upload.len() as int);
    BatchView {
        upload: Seq::new(b.upload.len(), |i: int| if i < k { rs[i] } else { b.upload[i] }),
        device: b.device,
        written: k,
    }
}

/// What one `encode` call does to the state: copy exactly the written
/// records — not the unused capacity — from the upload arena to the device
/// buffer. The written count and the upload arena are untouched.
pub open spec fn encode_step(b: BatchView) -> BatchView {
    BatchView {
        upload: b.upload,
        device: Seq::new(
            b.device.len(),
            |i: int| if i < b.written { b.upload[i] } else { b.device[i] },
        ),
        written: b.written,
    }
}

/// The commands one `encode` call appends: a partial copy and a single
/// instanced draw of the written count, or nothing at all when no instance
/// was written — drawing zero instances is skipped, a legal no-op.
pub open spec fn encode_commands(b: BatchView) -> Seq<PassCommand> {
    if b.written == 0 {
        Seq::<PassCommand>::empty()
    } else {
        seq![
            PassCommand::CopyInstances { count: b.written as usize },
            PassCommand::DrawSprites { count: b.written as usize },
        ]
    }
}

/// Allocates a fixed-capacity instance arena, zero-filled.
pub fn create_instance_buffer(size: usize) -> (r: Vec<SpriteInstance>)
    ensures
        r@.len() == size,
        forall|i: int| 0 <= i < size ==> r@[i] == SpriteInstance::zero_spec(),
{
    let mut v: Vec<SpriteInstance> = Vec::new();
    let mut i: usize = 0;
    while i < size
        invariant
            i <= size,
            v@.len() == i,
            forall|j: int| 0 <= j < i ==> v@[j] == SpriteInstance::zero_spec(),
        decreases size - i,
    {
        v.push(SpriteInstance::zeroed());
        i = i + 1;
    }
    v
}

/// Draws a variable-length batch of sprite quads in one instanced draw call,
/// into the colour and visibility targets simultaneously. Holds the
/// upload/device arena pair and the uniforms pushed once at construction.
#[derive(Debug)]
pub struct QuadRenderer {
    /// CPU-writable staging arena, overwritten each frame.
    pub quad_instances_upload: Vec<SpriteInstance>,
    /// Device-resident instance buffer, filled by a partial copy each frame.
    pub quad_instances: Vec<SpriteInstance>,
    /// Instances written this frame: the count the next draw uses, never
    /// implied by the buffer capacity.
    pub num_quads: usize,
    /// Output-resolution uniform, pushed once: the targets' width.
    pub window_width: u32,
    /// Output-resolution uniform, pushed once: the targets' height.
    pub window_height: u32,
    /// Sprite-sheet-dimension uniform, pushed once: the atlas width.
    pub sheet_width: u32,
    /// Sprite-sheet-dimension uniform, pushed once: the atlas height.
    pub sheet_height: u32,
}

impl View for QuadRenderer {
    type V = BatchView;

    open spec fn view(&self) -> BatchView {
        BatchView {
            upload: self.quad_instances_upload@,
            device: self.quad_instances@,
            written: self.num_quads as int,
        }
    }
}

impl QuadRenderer {
    /// The renderer's invariant.
    pub open spec fn wf(&self) -> bool {
        self@.wf()
    }

    /// Builds the renderer over the two shared targets it writes: allocates
    /// the device instance buffer and its upload twin at the same fixed
    /// capacity, zero-filled and with nothing written, and records the
    /// atlas-dimension and window-dimension uniforms once. Fails exactly
    /// when the two target attachments disagree in size, which the device
    /// rejects for a single pass.
    pub fn new(
        colour: &OffscreenTarget,
        visibility: &OffscreenTarget,
        sprite_atlas: &PixelBuffer,
        max_instances: usize,
    ) -> (r: Result<QuadRenderer, ResourceAllocationError>)
        requires
            colour.wf(),
            visibility.wf(),
            sprite_atlas.wf(),
        ensures
            match r {
                Ok(q) => {
                    &&& colour.width == visibility.width
                    &&& colour.height == visibility.height
                    &&& q.wf()
                    &&& q@.capacity() == max_instances
                    &&& q.num_quads == 0
                    &&& q@.upload == Seq::new(max_instances as nat, |i: int| SpriteInstance::zero_spec())
                    &&& q@.device == Seq::new(max_instances as nat, |i: int| SpriteInstance::zero_spec())
                    &&& q.window_width == colour.width
                    &&& q.window_height == colour.height
                    &&& q.sheet_width == sprite_atlas.width
                    &&& q.sheet_height == sprite_atlas.height
                },
                Err(e) => {
                    &&& !(colour.width == visibility.width && colour.height == visibility.height)
                    &&& e == ResourceAllocationError
                },
            },
    {
        if colour.width != visibility.width || colour.height != visibility.height {
            return Err(ResourceAllocationError);
        }
        let upload = create_instance_buffer(max_instances);
        let device = create_instance_buffer(max_instances);
        let q = QuadRenderer {
            quad_instances_upload: upload,
            quad_instances: device,
            num_quads: 0,
            window_width: colour.width,
            window_height: colour.height,
            sheet_width: sprite_atlas.width,
            sheet_height: sprite_atlas.height,
        };
        proof {
            assert(q@.upload =~= Seq::new(max_instances as nat, |i: int| SpriteInstance::zero_spec()));
            assert(q@.device =~= Seq::new(max_instances as nat, |i: int| SpriteInstance::zero_spec()));
        }
        Ok(q)
    }

    /// Acquires the upload arena and writes one record per renderable, up to
    /// the capacity; the count actually written — never the capacity — is
    /// what the next draw will use. Writing beyond the capacity is not an
    /// error: the excess is silently dropped for this frame.
    pub fn update(&mut self, to_render: &Vec<SpriteInstance>)
        requires
            old(self).wf(),
        ensures
            final(self).wf(),
            final(self)@ == update_step(old(self)@, to_render@),
            final(self).num_quads as int == min_int(
                to_render@.len() as int,
                old(self)@.capacity(),
            ),
            final(self)@.upload.take(final(self).num_quads as int) == to_render@.take(
                final(self).num_quads as int,
            ),
            final(self)@.device == old(self)@.device,
    {
        let n = to_render.len();
        let cap = self.quad_instances_upload.len();
        let k = if n <= cap {
            n
        } else {
            cap
        };
        let mut i: usize = 0;
        while i < k
            invariant
                i <= k,
                k <= to_render@.len(),
                k <= self.quad_instances_upload@.len(),
                self.quad_instances_upload@.len() == old(self).quad_instances_upload@.len(),
                self.quad_instances@ == old(self).quad_instances@,
                self.num_quads == old(self).num_quads,
                forall|j: int| 0 <= j < i ==> self.quad_instances_upload@[j] == to_render@[j],
                forall|j: int|
                    i <= j < self.quad_instances_upload@.len()
                        ==> self.quad_instances_upload@[j] == old(
                        self,
                    ).quad_instances_upload@[j],
            decreases k - i,
        {
            let rec = to_render[i];
            self.quad_instances_upload.set(i, rec);
            i = i + 1;
        }
        self.num_quads = k;
        proof {
            assert(self@ =~= update_step(old(self)@, to_render@));
            assert(self@.upload.take(k as int) =~= to_render@.take(k as int));
        }
    }

    /// Copies exactly the written records — a partial copy, not the unused
    /// capacity — from the upload arena to the device buffer, then issues
    /// one instanced draw with that exact count. With nothing written, both
    /// the copy and the draw are skipped: no command is appended.
    pub fn encode(&mut self, stream: &mut Vec<PassCommand>)
        requires
            old(self).wf(),
        ensures
            final(self).wf(),
            final(self)@ == encode_step(old(self)@),
            final(self).num_quads == old(self).num_quads,
            final(self)@.upload == old(self)@.upload,
            final(stream)@ == old(stream)@ + encode_commands(old(self)@),
            final(self)@.drawn() == old(self)@.upload.take(old(self).num_quads as int),
    {
        if self.num_quads > 0 {
            stream.push(PassCommand::CopyInstances { count: self.num_quads });
            let mut i: usize = 0;
            while i < self.num_quads
                invariant
                    i <= self.num_quads,
                    self.num_quads == old(self).num_quads,
                    self.num_quads <= self.quad_instances@.len(),
                    self.quad_instances@.len() == old(self).quad_instances@.len(),
                    self.quad_instances_upload@ == old(self).quad_instances_upload@,
                    self.num_quads <= self.quad_instances_upload@.len(),
                    forall|j: int|
                        0 <= j < i ==> self.quad_instances@[j] == self.quad_instances_upload@[j],
                    forall|j: int|
                        i <= j < self.quad_instances@.len() ==> self.quad_instances@[j] == old(
                            self,
                        ).quad_instances@[j],
                decreases self.num_quads - i,
            {
                let rec = self.quad_instances_upload[i];
                self.quad_instances.set(i, rec);
                i = i + 1;
            }
            stream.push(PassCommand::DrawSprites { count: self.num_quads });
            proof {
                assert(self@ =~= encode_step(old(self)@));
                assert(stream@ =~= old(stream)@ + encode_commands(old(self)@));
                assert(self@.drawn() =~= old(self)@.upload.take(old(self).num_quads as int));
            }
        } else {
            proof {
                assert(self@ =~= encode_step(old(self)@));
                assert(stream@ =~= old(stream)@ + encode_commands(old(self)@));
                assert(self@.drawn() =~= old(self)@.upload.take(old(self).num_quads as int));
            }
        }
    }

    /// The count the next draw will use.
    pub fn written_count(&self) -> (r: usize)
        ensures
            r == self.num_quads,
    {
        self.num_quads
    }
}

/// Law: for any renderable count k within the capacity, update followed by
/// encode draws exactly the k snapshot records, in the snapshot's order; for
/// k = 0 no command is appended at all.
pub proof fn lemma_update_encode_exact(b: BatchView, rs: Seq<SpriteInstance>)
    requires
        b.wf(),
        rs.len() <= b.capacity(),
    ensures
        encode_step(update_step(b, rs)).written == rs.len(),
        encode_step(update_step(b, rs)).drawn() == rs,
        rs.len() == 0 ==> encode_commands(update_step(b, rs)) == Seq::<PassCommand>::empty(),
        rs.len() > 0 ==> encode_commands(update_step(b, rs)) == seq![
            PassCommand::CopyInstances { count: rs.len() as usize },
            PassCommand::DrawSprites { count: rs.len() as usize },
        ],
{
    assert(encode_step(update_step(b, rs)).drawn() =~= rs);
    if rs.len() > 0 {
        assert(encode_commands(update_step(b, rs)) =~= seq![
            PassCommand::CopyInstances { count: rs.len() as usize },
            PassCommand::DrawSprites { count: rs.len() as usize },
        ]);
    }
}

/// Law: beyond the capacity, exactly `capacity` instances are uploaded and
/// drawn — the snapshot's leading records — and the remaining ones are
/// absent from the draw, with no error raised.
pub proof fn lemma_update_encode_truncates(b: BatchView, rs: Seq<SpriteInstance>)
    requires
        b.wf(),
        rs.len() > b.capacity(),
    ensures
        encode_step(update_step(b, rs)).written == b.capacity(),
        encode_step(update_step(b, rs)).drawn() == rs.take(b.capacity()),
        b.capacity() > 0 ==> encode_commands(update_step(b, rs)) == seq![
            PassCommand::CopyInstances { count: b.capacity() as usize },
            PassCommand::DrawSprites { count: b.capacity() as usize },
        ],
{
    assert(encode_step(update_step(b, rs)).drawn() =~= rs.take(b.capacity()));
    if b.capacity() > 0 {
        assert(encode_commands(update_step(b, rs)) =~= seq![
            PassCommand::CopyInstances { count: b.capacity() as usize },
            PassCommand::DrawSprites { count: b.capacity() as usize },
        ]);
    }
}

/// Law: encode is idempotent. A second encode with no intervening update
/// leaves the state unchanged and appends exactly the same commands again:
/// the same instances are redrawn identically, no hidden counter advances.
pub proof fn lemma_encode_idempotent(b: BatchView)
    requires
        b.wf(),
    ensures
        encode_step(encode_step(b)) == encode_step(b),
        encode_commands(encode_step(b)) == encode_commands(b),
{
    assert(encode_step(encode_step(b)) =~= encode_step(b));
}

} // verus!
