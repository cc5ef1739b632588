//! GPU buffer management: each CPU-side resource gets one buffer of its exact
//! byte size, created on first use and never again, and the whole buffer is
//! rewritten every frame.

use vstd::prelude::*;

use crate::objects::{COLOURS_BYTES, PARTICLES_BYTES, WEIGHTS_BYTES};
use crate::snapshot::FrameSnapshot;

verus! {

/// The three GPU buffers.
#[derive(Clone, Copy, Debug, PartialEq, Eq, Structural)]
pub enum BufferSlot {
    Particles,
    Weights,
    Colours,
}

/// How a buffer may be used.
#[derive(Clone, Copy, Debug, PartialEq, Eq, Structural)]
pub struct BufferUsage {
    /// Read and written by compute programs.
    pub storage: bool,
    /// Bound as a uniform buffer.
    pub uniform: bool,
    /// Written from the host.
    pub copy_dst: bool,
    /// Copied out of, for the diagnostic read-back.
    pub copy_src: bool,
}

/// A buffer that the host engine created at the manager's request.
#[derive(Clone, Copy, Debug, PartialEq, Eq, Structural)]
pub struct BufferHandle {
    /// Distinct for every buffer ever created: the `id`-th creation.
    pub id: u64,
    /// Size in bytes.
    pub size: u64,
}

/// A request to create a buffer.
#[derive(Clone, Copy, Debug, PartialEq, Eq, Structural)]
pub struct BufferDescriptor {
    pub slot: BufferSlot,
    pub handle: BufferHandle,
    pub usage: BufferUsage,
}

/// A request to write `bytes` into a buffer at `offset`.
pub struct BufferWrite {
    pub slot: BufferSlot,
    pub handle: BufferHandle,
    pub offset: u64,
    pub bytes: Vec<u8>,
}

/// What one frame asks of the device: buffers to create, then writes.
pub struct FrameUploads {
    pub creates: Vec<BufferDescriptor>,
    pub writes: Vec<BufferWrite>,
}

/// The particle buffer, once created.
#[derive(Clone, Copy, Debug, PartialEq, Eq, Structural)]
pub struct ParticleBuffer {
    pub buffer: Option<BufferHandle>,
}

/// The weights buffer, once created.
#[derive(Clone, Copy, Debug, PartialEq, Eq, Structural)]
pub struct WeightsBuffer {
    pub buffer: Option<BufferHandle>,
}

/// The colour buffer, once created.
#[derive(Clone, Copy, Debug, PartialEq, Eq, Structural)]
pub struct ParticleColourBuffer {
    pub buffer: Option<BufferHandle>,
}

/// The three buffers and the number of buffers created so far.
pub struct BufferManager {
    pub particles: ParticleBuffer,
    pub weights: WeightsBuffer,
    pub colours: ParticleColourBuffer,
    pub created: u64,
}

impl BufferSlot {
    /// The exact byte size of the resource that the buffer holds.
    pub open spec fn size_spec(self) -> u64 {
        match self {
            BufferSlot::Particles => PARTICLES_BYTES as u64,
            BufferSlot::Weights => WEIGHTS_BYTES as u64,
            BufferSlot::Colours => COLOURS_BYTES as u64,
        }
    }

    /// Every buffer is read and written by compute programs and written from
    /// the host; the colour buffer is bound as a uniform buffer too, and the
    /// particle buffer can be copied out for inspection.
    pub open spec fn usage_spec(self) -> BufferUsage {
        BufferUsage {
            storage: true,
            uniform: self == BufferSlot::Colours,
            copy_dst: true,
            copy_src: self == BufferSlot::Particles,
        }
    }

    /// The exact byte size of the resource that the buffer holds.
    pub fn size(self) -> (r: u64)
        ensures
            r == self.size_spec(),
    {
        match self {
            BufferSlot::Particles => PARTICLES_BYTES as u64,
            BufferSlot::Weights => WEIGHTS_BYTES as u64,
            BufferSlot::Colours => COLOURS_BYTES as u64,
        }
    }

    /// How the buffer may be used.
    pub fn usage(self) -> (r: BufferUsage)
        ensures
            r == self.usage_spec(),
    {
        BufferUsage {
            storage: true,
            uniform: match self {
                BufferSlot::Colours => true,
                _ => false,
            },
            copy_dst: true,
            copy_src: match self {
                BufferSlot::Particles => true,
                _ => false,
            },
        }
    }

    /// The label given to the buffer.
    pub fn label(self) -> (r: &'static str)
        ensures
            self == BufferSlot::Particles ==> r@ == "particles buffer"@,
            self == BufferSlot::Weights ==> r@ == "weights buffer"@,
            self == BufferSlot::Colours ==> r@ == "particle colours buffer"@,
    {
        match self {
            BufferSlot::Particles => "particles buffer",
            BufferSlot::Weights => "weights buffer",
            BufferSlot::Colours => "particle colours buffer",
        }
    }
}

/// The handle of a slot after making sure it is allocated: kept if present,
/// otherwise the `created`-th buffer of the slot's size. Also gives the new
/// count of created buffers.
pub open spec fn allocate_spec(h: Option<BufferHandle>, created: u64, slot: BufferSlot) -> (
    Option<BufferHandle>,
    u64,
) {
    match h {
        Some(_) => (h, created),
        None => (Some(BufferHandle { id: created, size: slot.size_spec() }), (created + 1) as u64),
    }
}

/// The creation request that making sure of a slot issues, if any.
pub open spec fn create_request(h: Option<BufferHandle>, created: u64, slot: BufferSlot) -> Seq<
    BufferDescriptor,
> {
    match h {
        Some(_) => Seq::empty(),
        None => seq![
            BufferDescriptor {
                slot,
                handle: BufferHandle { id: created, size: slot.size_spec() },
                usage: slot.usage_spec(),
            },
        ],
    }
}

/// 1 when the slot holds a buffer.
pub open spec fn count(h: Option<BufferHandle>) -> int {
    if h is Some {
        1
    } else {
        0
    }
}

/// A slot that holds a buffer of the slot's size, created before the
/// `created`-th creation.
pub open spec fn slot_ok(h: Option<BufferHandle>, created: u64, slot: BufferSlot) -> bool {
    h matches Some(b) ==> b.size == slot.size_spec() && b.id < created
}

/// A write that covers the whole buffer `h` with `bytes`.
pub open spec fn writes_whole(w: BufferWrite, slot: BufferSlot, h: BufferHandle, bytes: Seq<u8>) -> bool {
    &&& w.slot == slot
    &&& w.handle == h
    &&& w.offset == 0
    &&& w.bytes@ == bytes
    &&& w.bytes@.len() == h.size
}

impl BufferManager {
    /// The manager before any frame: no buffer, none created.
    pub open spec fn new_spec() -> BufferManager {
        BufferManager {
            particles: ParticleBuffer { buffer: None },
            weights: WeightsBuffer { buffer: None },
            colours: ParticleColourBuffer { buffer: None },
            created: 0,
        }
    }

    /// No buffer yet.
    pub fn new() -> (r: BufferManager)
        ensures
            r.wf(),
            r == BufferManager::new_spec(),
    {
        BufferManager {
            particles: ParticleBuffer { buffer: None },
            weights: WeightsBuffer { buffer: None },
            colours: ParticleColourBuffer { buffer: None },
            created: 0,
        }
    }

    /// Every buffer was created by this manager with its slot's size, and
    /// `created` counts them.
    pub open spec fn wf(&self) -> bool {
        &&& self.created == count(self.particles.buffer) + count(self.weights.buffer) + count(
            self.colours.buffer,
        )
        &&& slot_ok(self.particles.buffer, self.created, BufferSlot::Particles)
        &&& slot_ok(self.weights.buffer, self.created, BufferSlot::Weights)
        &&& slot_ok(self.colours.buffer, self.created, BufferSlot::Colours)
    }

    /// The handle of `slot`.
    pub open spec fn handle_spec(&self, slot: BufferSlot) -> Option<BufferHandle> {
        match slot {
            BufferSlot::Particles => self.particles.buffer,
            BufferSlot::Weights => self.weights.buffer,
            BufferSlot::Colours => self.colours.buffer,
        }
    }

    /// Every slot holds a buffer.
    pub open spec fn all_allocated(&self) -> bool {
        &&& self.particles.buffer is Some
        &&& self.weights.buffer is Some
        &&& self.colours.buffer is Some
    }

    /// The manager after one frame's preparation: absent buffers created in
    /// the order particles, weights, colours; present ones kept.
    pub open spec fn prepared(&self) -> BufferManager {
        let (p, n1) = allocate_spec(self.particles.buffer, self.created, BufferSlot::Particles);
        let (w, n2) = allocate_spec(self.weights.buffer, n1, BufferSlot::Weights);
        let (c, n3) = allocate_spec(self.colours.buffer, n2, BufferSlot::Colours);
        BufferManager {
            particles: ParticleBuffer { buffer: p },
            weights: WeightsBuffer { buffer: w },
            colours: ParticleColourBuffer { buffer: c },
            created: n3,
        }
    }

    /// The creation requests of one frame's preparation.
    pub open spec fn prepare_creates(&self) -> Seq<BufferDescriptor> {
        let (p, n1) = allocate_spec(self.particles.buffer, self.created, BufferSlot::Particles);
        let (w, n2) = allocate_spec(self.weights.buffer, n1, BufferSlot::Weights);
        create_request(self.particles.buffer, self.created, BufferSlot::Particles)
            + create_request(self.weights.buffer, n1, BufferSlot::Weights)
            + create_request(self.colours.buffer, n2, BufferSlot::Colours)
    }

    /// `uploads` is one frame's work from this manager for `snapshot`: the
    /// creation requests of `prepare_creates`, then one write per buffer that
    /// covers the whole buffer with the snapshot's bytes.
    pub open spec fn uploads_spec(&self, uploads: &FrameUploads, snapshot: &FrameSnapshot) -> bool {
        let after = self.prepared();
        &&& uploads.creates@ == self.prepare_creates()
        &&& uploads.writes@.len() == 3
        &&& writes_whole(
            uploads.writes@[0],
            BufferSlot::Particles,
            after.particles.buffer.unwrap(),
            snapshot.particles.wire_bytes(),
        )
        &&& writes_whole(
            uploads.writes@[1],
            BufferSlot::Weights,
            after.weights.buffer.unwrap(),
            snapshot.weights.wire_bytes(),
        )
        &&& writes_whole(
            uploads.writes@[2],
            BufferSlot::Colours,
            after.colours.buffer.unwrap(),
            snapshot.colours.wire_bytes(),
        )
    }

    /// The handle of `slot`.
    pub fn handle(&self, slot: BufferSlot) -> (r: Option<BufferHandle>)
        ensures
            r == self.handle_spec(slot),
    {
        match slot {
            BufferSlot::Particles => self.particles.buffer,
            BufferSlot::Weights => self.weights.buffer,
            BufferSlot::Colours => self.colours.buffer,
        }
    }

    /// Creates the buffer of `slot` if it is absent, sized exactly to the
    /// slot's resource; a present buffer is never replaced. Returns the
    /// creation request, if one was made.
    pub fn ensure_allocated(&mut self, slot: BufferSlot) -> (r: Option<BufferDescriptor>)
        requires
            old(self).wf(),
        ensures
            final(self).wf(),
            (final(self).handle_spec(slot), final(self).created) == allocate_spec(
                old(self).handle_spec(slot),
                old(self).created,
                slot,
            ),
            forall|s: BufferSlot| s != slot ==> #[trigger] final(self).handle_spec(s) == old(
                self,
            ).handle_spec(s),
            r matches Some(d) ==> seq![d] == create_request(
                old(self).handle_spec(slot),
                old(self).created,
                slot,
            ),
            r is None ==> create_request(old(self).handle_spec(slot), old(self).created, slot)
                == Seq::<BufferDescriptor>::empty(),
    {
        if self.handle(slot).is_some() {
            return None;
        }
        let handle = BufferHandle { id: self.created, size: slot.size() };
        match slot {
            BufferSlot::Particles => self.particles.buffer = Some(handle),
            BufferSlot::Weights => self.weights.buffer = Some(handle),
            BufferSlot::Colours => self.colours.buffer = Some(handle),
        }
        self.created = self.created + 1;
        Some(BufferDescriptor { slot, handle, usage: slot.usage() })
    }

    /// The write of one frame's bytes into the buffer of `slot`: the whole
    /// buffer, from offset zero.
    pub fn upload(&self, slot: BufferSlot, bytes: Vec<u8>) -> (r: BufferWrite)
        requires
            self.handle_spec(slot) is Some,
            bytes@.len() == self.handle_spec(slot).unwrap().size,
        ensures
            writes_whole(r, slot, self.handle_spec(slot).unwrap(), bytes@),
    {
        let handle = self.handle(slot).unwrap();
        BufferWrite { slot, handle, offset: 0, bytes }
    }

    /// One frame's buffer work: creates the buffers that are still absent,
    /// then overwrites every buffer in full with the snapshot's bytes, in the
    /// order particles, weights, colours.
    pub fn prepare_buffers(&mut self, snapshot: &FrameSnapshot) -> (r: FrameUploads)
        requires
            old(self).wf(),
            snapshot.wf(),
        ensures
            final(self).wf(),
            final(self).all_allocated(),
            *final(self) == old(self).prepared(),
            old(self).uploads_spec(&r, snapshot),
    {
        let ghost old_self = *self;
        let mut creates: Vec<BufferDescriptor> = Vec::new();
        let ghost c0 = creates@;
        if let Some(d) = self.ensure_allocated(BufferSlot::Particles) {
            creates.push(d);
        }
        let ghost c1 = creates@;
        if let Some(d) = self.ensure_allocated(BufferSlot::Weights) {
            creates.push(d);
        }
        let ghost c2 = creates@;
        if let Some(d) = self.ensure_allocated(BufferSlot::Colours) {
            creates.push(d);
        }
        proof {
            let (p, n1) = allocate_spec(
                old_self.particles.buffer,
                old_self.created,
                BufferSlot::Particles,
            );
            let (w, n2) = allocate_spec(old_self.weights.buffer, n1, BufferSlot::Weights);
            assert(c1 == create_request(
                old_self.particles.buffer,
                old_self.created,
                BufferSlot::Particles,
            ));
            assert(c2 == c1 + create_request(old_self.weights.buffer, n1, BufferSlot::Weights));
            assert(creates@ == c2 + create_request(old_self.colours.buffer, n2, BufferSlot::Colours));
            assert(creates@ =~= old_self.prepare_creates());
        }
        let mut writes: Vec<BufferWrite> = Vec::new();
        writes.push(self.upload(BufferSlot::Particles, snapshot.particles.to_wire_bytes()));
        writes.push(self.upload(BufferSlot::Weights, snapshot.weights.to_wire_bytes()));
        writes.push(self.upload(BufferSlot::Colours, snapshot.colours.to_wire_bytes()));
        FrameUploads { creates, writes }
    }
}

/// The contents of a buffer after `bytes` are written into it at `offset`;
/// bytes outside the written range keep their value.
pub open spec fn write_into(contents: Seq<u8>, offset: int, bytes: Seq<u8>) -> Seq<u8> {
    Seq::new(
        contents.len(),
        |i: int|
            if offset <= i < offset + bytes.len() {
                bytes[i - offset]
            } else {
                contents[i]
            },
    )
}

/// After a frame's writes, each buffer holds exactly the snapshot's bytes of
/// its resource, whatever it held before.
pub proof fn lemma_upload_matches_snapshot(
    before: BufferManager,
    snapshot: &FrameSnapshot,
    uploads: &FrameUploads,
    previous: Seq<u8>,
    k: int,
)
    requires
        before.wf(),
        snapshot.wf(),
        before.uploads_spec(uploads, snapshot),
        0 <= k < 3,
        previous.len() == uploads.writes@[k].handle.size,
    ensures
        write_into(previous, uploads.writes@[k].offset as int, uploads.writes@[k].bytes@) == (
        if k == 0 {
            snapshot.particles.wire_bytes()
        } else if k == 1 {
            snapshot.weights.wire_bytes()
        } else {
            snapshot.colours.wire_bytes()
        }),
{
    let w = uploads.writes@[k];
    assert(write_into(previous, w.offset as int, w.bytes@) =~= w.bytes@);
}

/// The manager after `frames` more preparations.
pub open spec fn prepared_n(m: BufferManager, frames: nat) -> BufferManager
    decreases frames,
{
    if frames == 0 {
        m
    } else {
        prepared_n(m.prepared(), (frames - 1) as nat)
    }
}

/// After the first frame every buffer exists, and no later frame creates a
/// buffer or changes a handle: the manager is the same after any number of
/// further frames, and those frames issue no creation request.
pub proof fn lemma_buffers_stable_after_first_frame(m: BufferManager, frames: nat)
    requires
        m.wf(),
    ensures
        m.prepared().all_allocated(),
        prepared_n(m.prepared(), frames) == m.prepared(),
        prepared_n(m.prepared(), frames).prepare_creates() == Seq::<BufferDescriptor>::empty(),
    decreases frames,
{
    let first = m.prepared();
    assert(first.prepared() == first);
    assert(first.prepare_creates() =~= Seq::<BufferDescriptor>::empty());
    if frames > 0 {
        lemma_buffers_stable_after_first_frame(m, (frames - 1) as nat);
    }
}

} // verus!
