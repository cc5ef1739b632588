//! The simulation state that the CPU owns: particles, the flavour weights
//! matrix and the flavour colours, each with its exact GPU layout.
//!
//! Floating-point fields are held as their single-precision bit patterns.

use vstd::arithmetic::power2::{lemma2_to64, pow2};
use vstd::prelude::*;

use crate::config::{DOMAIN_HEIGHT, DOMAIN_WIDTH, MAX_FLAVOURS, MAX_PARTICLES};
use crate::float_bits::{dyadic_f32_bits, encodes_dyadic, encodes_in_range};
use crate::wire::{extend_words_le, le_words, lemma_le_words_round_trip, read_word_le, words_le_bytes};

verus! {

/// Bytes of one particle on the GPU: three 16-byte rows.
pub const PARTICLE_BYTES: usize = 48;

/// Bytes of the whole particle set on the GPU.
pub const PARTICLES_BYTES: usize = 3072;

/// Bytes of the weights matrix on the GPU.
pub const WEIGHTS_BYTES: usize = 400;

/// Bytes of the colour table on the GPU.
pub const COLOURS_BYTES: usize = 160;

/// A drawn position `x` stands for `centred(d) / 2^POSITION_SCALE`, which is
/// `r * DOMAIN_WIDTH - DOMAIN_WIDTH / 2` for the unit sample `r` of the draw.
pub const POSITION_SCALE: u32 = 15;

/// A drawn velocity stands for `centred(d) / 2^VELOCITY_SCALE`, which is
/// `r - 1/2` for the unit sample `r` of the draw.
pub const VELOCITY_SCALE: u32 = 24;

/// One particle. Each three-component field is followed on the GPU by one
/// word of padding, so that it starts on a 16-byte boundary; `index` fills
/// the padding of the last row and holds the flavour.
#[derive(Clone, Copy, Debug)]
pub struct Particle {
    pub position: [u32; 3],
    pub velocity: [u32; 3],
    pub acceleration: [u32; 3],
    pub index: u32,
}

/// The 24 high bits of a random word: the standard sampler turns a draw `d`
/// into the unit sample `unit_numerator(d) / 2^24` in `[0, 1)`.
pub open spec fn unit_numerator(d: u32) -> int {
    d as int / 0x100
}

/// The unit sample of `d` moved to `[-1/2, 1/2)`, as a numerator over `2^24`.
pub open spec fn centred(d: u32) -> int {
    unit_numerator(d) - 0x80_0000
}

impl Particle {
    /// The twelve words of this particle as the GPU reads them.
    pub open spec fn wire_words(self) -> Seq<u32> {
        seq![
            self.position@[0],
            self.position@[1],
            self.position@[2],
            0u32,
            self.velocity@[0],
            self.velocity@[1],
            self.velocity@[2],
            0u32,
            self.acceleration@[0],
            self.acceleration@[1],
            self.acceleration@[2],
            self.index,
        ]
    }

    /// The particle made from four draws: a position in the plane of the
    /// domain, a velocity in the plane, no acceleration, flavour zero.
    pub open spec fn drawn_from(self, dx: u32, dy: u32, dvx: u32, dvy: u32) -> bool {
        &&& encodes_dyadic(self.position@[0], centred(dx), POSITION_SCALE as nat)
        &&& encodes_dyadic(self.position@[1], centred(dy), POSITION_SCALE as nat)
        &&& self.position@[2] == 0
        &&& encodes_dyadic(self.velocity@[0], centred(dvx), VELOCITY_SCALE as nat)
        &&& encodes_dyadic(self.velocity@[1], centred(dvy), VELOCITY_SCALE as nat)
        &&& self.velocity@[2] == 0
        &&& self.acceleration@ == seq![0u32, 0u32, 0u32]
        &&& self.index == 0
    }

    /// The position lies in `[-DOMAIN_WIDTH/2, DOMAIN_WIDTH/2) x
    /// [-DOMAIN_HEIGHT/2, DOMAIN_HEIGHT/2)` and each velocity component in
    /// `[-1/2, 1/2)`.
    pub open spec fn in_domain(self) -> bool {
        let px = DOMAIN_WIDTH as int / 2 * pow2(POSITION_SCALE as nat);
        let py = DOMAIN_HEIGHT as int / 2 * pow2(POSITION_SCALE as nat);
        let v: int = pow2(VELOCITY_SCALE as nat) as int / 2;
        &&& encodes_in_range(self.position@[0], -px, px, POSITION_SCALE as nat)
        &&& encodes_in_range(self.position@[1], -py, py, POSITION_SCALE as nat)
        &&& encodes_in_range(self.velocity@[0], -v, v, VELOCITY_SCALE as nat)
        &&& encodes_in_range(self.velocity@[1], -v, v, VELOCITY_SCALE as nat)
    }

    /// A particle with every field zero.
    pub fn zeroed() -> (r: Particle)
        ensures
            r.wire_words() == Seq::new(12, |i: int| 0u32),
    {
        let r = Particle { position: [0, 0, 0], velocity: [0, 0, 0], acceleration: [0, 0, 0], index: 0 };
        assert(r.wire_words() =~= Seq::new(12, |i: int| 0u32));
        r
    }

    /// The particle that four random words stand for: the position is
    /// `r * DOMAIN - DOMAIN / 2` and the velocity `r - 1/2` for the unit
    /// samples `r` of the draws, computed exactly.
    pub fn from_draws(dx: u32, dy: u32, dvx: u32, dvy: u32) -> (r: Particle)
        ensures
            r.drawn_from(dx, dy, dvx, dvy),
    {
        Particle {
            position: [
                dyadic_f32_bits(centre_draw(dx), POSITION_SCALE),
                dyadic_f32_bits(centre_draw(dy), POSITION_SCALE),
                0,
            ],
            velocity: [
                dyadic_f32_bits(centre_draw(dvx), VELOCITY_SCALE),
                dyadic_f32_bits(centre_draw(dvy), VELOCITY_SCALE),
                0,
            ],
            acceleration: [0, 0, 0],
            index: 0,
        }
    }
}

/// `centred(d)` as a machine integer.
fn centre_draw(d: u32) -> (r: i32)
    ensures
        r == centred(d),
        -0x80_0000 <= r < 0x80_0000,
{
    ((d / 0x100) as i32) - 0x80_0000
}

/// Drawn particles start inside the domain with bounded velocities.
pub proof fn lemma_drawn_particle_in_domain(p: Particle, dx: u32, dy: u32, dvx: u32, dvy: u32)
    requires
        p.drawn_from(dx, dy, dvx, dvy),
    ensures
        p.in_domain(),
{
    lemma2_to64();
    assert(DOMAIN_WIDTH as int / 2 * pow2(POSITION_SCALE as nat) == 0x80_0000);
    assert(pow2(VELOCITY_SCALE as nat) / 2 == 0x80_0000);
    assert(encodes_dyadic(p.position@[0], centred(dx), POSITION_SCALE as nat));
    assert(encodes_dyadic(p.position@[1], centred(dy), POSITION_SCALE as nat));
    assert(encodes_dyadic(p.velocity@[0], centred(dvx), VELOCITY_SCALE as nat));
    assert(encodes_dyadic(p.velocity@[1], centred(dvy), VELOCITY_SCALE as nat));
}

/// Relies on `rand::random::<u32>`: one word from the thread-local generator.
/// Nothing is promised of its value. It panics only if the operating system's
/// entropy source cannot seed that generator on first use.
#[verifier::external_body]
fn random_word() -> u32 {
    rand::random::<u32>()
}

/// The particle set: `MAX_PARTICLES` particles in a fixed order.
pub struct Particles {
    particles: Vec<Particle>,
}

impl View for Particles {
    type V = Seq<Particle>;

    closed spec fn view(&self) -> Seq<Particle> {
        self.particles@
    }
}

/// The words of a particle sequence: each particle's twelve words in order.
pub open spec fn particles_wire_words(ps: Seq<Particle>) -> Seq<u32> {
    ps.map_values(|p: Particle| p.wire_words()).flatten()
}

/// Each particle contributes twelve words.
pub proof fn lemma_particles_wire_words_len(ps: Seq<Particle>)
    ensures
        particles_wire_words(ps).len() == 12 * ps.len(),
    decreases ps.len(),
{
    if ps.len() > 0 {
        let f = |p: Particle| p.wire_words();
        let init = ps.drop_last();
        assert(ps.map_values(f) =~= init.map_values(f).push(f(ps.last())));
        init.map_values(f).lemma_flatten_push(f(ps.last()));
        lemma_particles_wire_words_len(init);
    } else {
        assert(ps.map_values(|p: Particle| p.wire_words()) =~= Seq::<Seq<u32>>::empty());
    }
}

/// Word `j` of particle `i` stands at `12 * i + j`.
pub proof fn lemma_particles_wire_words_index(ps: Seq<Particle>, i: int, j: int)
    requires
        0 <= i < ps.len(),
        0 <= j < 12,
    ensures
        particles_wire_words(ps)[12 * i + j] == ps[i].wire_words()[j],
    decreases ps.len(),
{
    let f = |p: Particle| p.wire_words();
    let init = ps.drop_last();
    assert(ps.map_values(f) =~= init.map_values(f).push(f(ps.last())));
    init.map_values(f).lemma_flatten_push(f(ps.last()));
    lemma_particles_wire_words_len(init);
    if i < ps.len() - 1 {
        lemma_particles_wire_words_index(init, i, j);
        assert(init[i] == ps[i]);
    }
}

/// `p` holds the particle fields of the twelve words starting at `base`;
/// the two padding words are not read.
pub open spec fn particle_from_words(p: Particle, ws: Seq<u32>, base: int) -> bool {
    &&& p.position@ == seq![ws[base], ws[base + 1], ws[base + 2]]
    &&& p.velocity@ == seq![ws[base + 4], ws[base + 5], ws[base + 6]]
    &&& p.acceleration@ == seq![ws[base + 8], ws[base + 9], ws[base + 10]]
    &&& p.index == ws[base + 11]
}

impl Particles {
    /// Holds exactly `MAX_PARTICLES` particles.
    pub open spec fn wf(&self) -> bool {
        self@.len() == MAX_PARTICLES
    }

    /// The bytes that the GPU reads for this set.
    pub open spec fn wire_bytes(&self) -> Seq<u8> {
        words_le_bytes(particles_wire_words(self@))
    }

    /// Every particle from the four draws starting at `4 * i`.
    pub open spec fn drawn_from(&self, draws: Seq<u32>) -> bool {
        forall|i: int|
            0 <= i < self@.len() ==> #[trigger] self@[i].drawn_from(
                draws[4 * i],
                draws[4 * i + 1],
                draws[4 * i + 2],
                draws[4 * i + 3],
            )
    }

    /// The set made from `4 * MAX_PARTICLES` random words, four per particle
    /// (see `Particle::from_draws`).
    pub fn from_draws(draws: &Vec<u32>) -> (r: Particles)
        requires
            draws@.len() == 4 * MAX_PARTICLES,
        ensures
            r.wf(),
            r.drawn_from(draws@),
    {
        let mut particles: Vec<Particle> = Vec::new();
        let mut i: usize = 0;
        while i < MAX_PARTICLES
            invariant
                draws@.len() == 4 * MAX_PARTICLES,
                i <= MAX_PARTICLES,
                particles@.len() == i,
                forall|j: int|
                    0 <= j < i ==> #[trigger] particles@[j].drawn_from(
                        draws@[4 * j],
                        draws@[4 * j + 1],
                        draws@[4 * j + 2],
                        draws@[4 * j + 3],
                    ),
            decreases MAX_PARTICLES - i,
        {
            let p = Particle::from_draws(
                draws[4 * i],
                draws[4 * i + 1],
                draws[4 * i + 2],
                draws[4 * i + 3],
            );
            particles.push(p);
            i = i + 1;
        }
        Particles { particles }
    }

    /// Reads a particle set back from the bytes of its GPU buffer, as a
    /// diagnostic read-back gets them. `None` unless there are exactly
    /// `PARTICLES_BYTES` bytes.
    pub fn from_wire_bytes(bytes: &Vec<u8>) -> (r: Option<Particles>)
        ensures
            r is Some <==> bytes@.len() == PARTICLES_BYTES,
            r matches Some(ps) ==> ps.wf() && forall|i: int|
                0 <= i < ps@.len() ==> #[trigger] particle_from_words(ps@[i], le_words(bytes@), 12 * i),
    {
        if bytes.len() != PARTICLES_BYTES {
            return None;
        }
        let ghost ws = le_words(bytes@);
        let mut particles: Vec<Particle> = Vec::new();
        let mut i: usize = 0;
        while i < MAX_PARTICLES
            invariant
                bytes@.len() == PARTICLES_BYTES,
                ws == le_words(bytes@),
                i <= MAX_PARTICLES,
                particles@.len() == i,
                forall|j: int| 0 <= j < i ==> #[trigger] particle_from_words(particles@[j], ws, 12 * j),
            decreases MAX_PARTICLES - i,
        {
            let base = 12 * i;
            let p = Particle {
                position: [
                    read_word_le(bytes, base),
                    read_word_le(bytes, base + 1),
                    read_word_le(bytes, base + 2),
                ],
                velocity: [
                    read_word_le(bytes, base + 4),
                    read_word_le(bytes, base + 5),
                    read_word_le(bytes, base + 6),
                ],
                acceleration: [
                    read_word_le(bytes, base + 8),
                    read_word_le(bytes, base + 9),
                    read_word_le(bytes, base + 10),
                ],
                index: read_word_le(bytes, base + 11),
            };
            assert(p.position@ =~= seq![ws[base as int], ws[base + 1], ws[base + 2]]);
            assert(p.velocity@ =~= seq![ws[base + 4], ws[base + 5], ws[base + 6]]);
            assert(p.acceleration@ =~= seq![ws[base + 8], ws[base + 9], ws[base + 10]]);
            particles.push(p);
            i = i + 1;
        }
        Some(Particles { particles })
    }

    /// A set with every field of every particle zero.
    pub fn zeroed() -> (r: Particles)
        ensures
            r.wf(),
            forall|i: int| 0 <= i < r@.len() ==> #[trigger] r@[i].wire_words() == Seq::new(12, |k: int| 0u32),
    {
        let mut particles: Vec<Particle> = Vec::new();
        let mut i: usize = 0;
        while i < MAX_PARTICLES
            invariant
                i <= MAX_PARTICLES,
                particles@.len() == i,
                forall|j: int| 0 <= j < i ==> #[trigger] particles@[j].wire_words() == Seq::new(12, |k: int| 0u32),
            decreases MAX_PARTICLES - i,
        {
            particles.push(Particle::zeroed());
            i = i + 1;
        }
        Particles { particles }
    }

    /// A copy of this set.
    pub fn mirror(&self) -> (r: Particles)
        ensures
            r@ == self@,
    {
        let mut particles: Vec<Particle> = Vec::new();
        let mut i: usize = 0;
        while i < self.particles.len()
            invariant
                i <= self@.len(),
                particles@ == self@.subrange(0, i as int),
            decreases self@.len() - i,
        {
            particles.push(self.particles[i]);
            i = i + 1;
        }
        assert(particles@ =~= self@);
        Particles { particles }
    }

    /// Number of particles.
    pub fn len(&self) -> (r: usize)
        ensures
            r == self@.len(),
    {
        self.particles.len()
    }

    /// The particle at `i`.
    pub fn get(&self, i: usize) -> (r: Particle)
        requires
            i < self@.len(),
        ensures
            r == self@[i as int],
    {
        self.particles[i]
    }

    /// Replaces the particle at `i`.
    pub fn set(&mut self, i: usize, p: Particle)
        requires
            i < old(self)@.len(),
        ensures
            final(self)@ == old(self)@.update(i as int, p),
    {
        self.particles.set(i, p);
    }

    /// The bytes that the GPU reads for this set, `PARTICLES_BYTES` of them.
    pub fn to_wire_bytes(&self) -> (r: Vec<u8>)
        requires
            self.wf(),
        ensures
            r@ == self.wire_bytes(),
            r@.len() == PARTICLES_BYTES,
    {
        let mut words: Vec<u32> = Vec::new();
        let mut i: usize = 0;
        while i < self.particles.len()
            invariant
                self.wf(),
                i <= self@.len(),
                words@ == particles_wire_words(self@.subrange(0, i as int)),
                words@.len() == 12 * i,
            decreases self@.len() - i,
        {
            let p = self.particles[i];
            proof {
                let f = |q: Particle| q.wire_words();
                let prev = self@.subrange(0, i as int);
                let next = self@.subrange(0, i + 1);
                assert(next.map_values(f) =~= prev.map_values(f).push(p.wire_words()));
                prev.map_values(f).lemma_flatten_push(p.wire_words());
            }
            words.push(p.position[0]);
            words.push(p.position[1]);
            words.push(p.position[2]);
            words.push(0);
            words.push(p.velocity[0]);
            words.push(p.velocity[1]);
            words.push(p.velocity[2]);
            words.push(0);
            words.push(p.acceleration[0]);
            words.push(p.acceleration[1]);
            words.push(p.acceleration[2]);
            words.push(p.index);
            i = i + 1;
        }
        assert(self@.subrange(0, self@.len() as int) =~= self@);
        let mut out: Vec<u8> = Vec::new();
        extend_words_le(&mut out, &words);
        assert(out@ =~= words_le_bytes(words@));
        out
    }
}

/// Reading a particle set back from the bytes written for it gives every
/// particle back.
pub proof fn lemma_particles_wire_round_trip(ps: &Particles)
    requires
        ps.wf(),
    ensures
        ps.wire_bytes().len() == PARTICLES_BYTES,
        forall|i: int|
            0 <= i < ps@.len() ==> #[trigger] particle_from_words(
                ps@[i],
                le_words(ps.wire_bytes()),
                12 * i,
            ),
{
    let ws = particles_wire_words(ps@);
    lemma_particles_wire_words_len(ps@);
    lemma_le_words_round_trip(ws);
    assert forall|i: int| 0 <= i < ps@.len() implies #[trigger] particle_from_words(
        ps@[i],
        le_words(ps.wire_bytes()),
        12 * i,
    ) by {
        lemma_particle_words_at(ps@, i);
    }
}

/// Particle `i` of a sequence holds the fields of its twelve words.
proof fn lemma_particle_words_at(ps: Seq<Particle>, i: int)
    requires
        0 <= i < ps.len(),
    ensures
        particle_from_words(ps[i], particles_wire_words(ps), 12 * i),
{
    let ws = particles_wire_words(ps);
    let p = ps[i];
    let w = p.wire_words();
    lemma_particles_wire_words_index(ps, i, 0);
    lemma_particles_wire_words_index(ps, i, 1);
    lemma_particles_wire_words_index(ps, i, 2);
    lemma_particles_wire_words_index(ps, i, 4);
    lemma_particles_wire_words_index(ps, i, 5);
    lemma_particles_wire_words_index(ps, i, 6);
    lemma_particles_wire_words_index(ps, i, 8);
    lemma_particles_wire_words_index(ps, i, 9);
    lemma_particles_wire_words_index(ps, i, 10);
    lemma_particles_wire_words_index(ps, i, 11);
    assert(p.position@ =~= seq![ws[12 * i], ws[12 * i + 1], ws[12 * i + 2]]);
    assert(p.velocity@ =~= seq![ws[12 * i + 4], ws[12 * i + 5], ws[12 * i + 6]]);
    assert(p.acceleration@ =~= seq![ws[12 * i + 8], ws[12 * i + 9], ws[12 * i + 10]]);
}

impl Default for Particles {
    /// A set drawn from the thread-local random generator; every particle
    /// starts inside the domain.
    fn default() -> (r: Particles)
        ensures
            r.wf(),
            forall|i: int| 0 <= i < r@.len() ==> #[trigger] r@[i].in_domain(),
    {
        let mut draws: Vec<u32> = Vec::new();
        let mut i: usize = 0;
        while i < 4 * MAX_PARTICLES
            invariant
                i <= 4 * MAX_PARTICLES,
                draws@.len() == i,
            decreases 4 * MAX_PARTICLES - i,
        {
            draws.push(random_word());
            i = i + 1;
        }
        let r = Particles::from_draws(&draws);
        assert forall|i: int| 0 <= i < r@.len() implies #[trigger] r@[i].in_domain() by {
            lemma_drawn_particle_in_domain(
                r@[i],
                draws@[4 * i],
                draws@[4 * i + 1],
                draws@[4 * i + 2],
                draws@[4 * i + 3],
            );
        }
        r
    }
}

/// The flavour interaction matrix, `MAX_FLAVOURS x MAX_FLAVOURS`, row-major:
/// entry `(i, j)` is how strongly flavour `i` is drawn to flavour `j`.
pub struct Weights {
    values: Vec<u32>,
}

impl View for Weights {
    type V = Seq<u32>;

    closed spec fn view(&self) -> Seq<u32> {
        self.values@
    }
}

impl Weights {
    /// Holds one entry per ordered pair of flavours.
    pub open spec fn wf(&self) -> bool {
        self@.len() == MAX_FLAVOURS * MAX_FLAVOURS
    }

    /// The bytes that the GPU reads for this matrix.
    pub open spec fn wire_bytes(&self) -> Seq<u8> {
        words_le_bytes(self@)
    }

    /// A copy of this matrix.
    pub fn mirror(&self) -> (r: Weights)
        ensures
            r@ == self@,
    {
        let mut values: Vec<u32> = Vec::new();
        let mut i: usize = 0;
        while i < self.values.len()
            invariant
                i <= self@.len(),
                values@ == self@.subrange(0, i as int),
            decreases self@.len() - i,
        {
            values.push(self.values[i]);
            i = i + 1;
        }
        assert(values@ =~= self@);
        Weights { values }
    }

    /// The entry for flavours `i` and `j`.
    pub fn get(&self, i: usize, j: usize) -> (r: u32)
        requires
            self.wf(),
            i < MAX_FLAVOURS,
            j < MAX_FLAVOURS,
        ensures
            r == self@[i * MAX_FLAVOURS + j],
    {
        self.values[i * MAX_FLAVOURS + j]
    }

    /// Replaces the entry for flavours `i` and `j`.
    pub fn set(&mut self, i: usize, j: usize, w: u32)
        requires
            old(self).wf(),
            i < MAX_FLAVOURS,
            j < MAX_FLAVOURS,
        ensures
            final(self)@ == old(self)@.update(i * MAX_FLAVOURS + j, w),
    {
        self.values.set(i * MAX_FLAVOURS + j, w);
    }

    /// The bytes that the GPU reads for this matrix, `WEIGHTS_BYTES` of them.
    pub fn to_wire_bytes(&self) -> (r: Vec<u8>)
        requires
            self.wf(),
        ensures
            r@ == self.wire_bytes(),
            r@.len() == WEIGHTS_BYTES,
    {
        let mut out: Vec<u8> = Vec::new();
        extend_words_le(&mut out, &self.values);
        assert(out@ =~= words_le_bytes(self@));
        out
    }
}

impl Default for Weights {
    /// The zero matrix: no flavour acts on another.
    fn default() -> (r: Weights)
        ensures
            r.wf(),
            forall|k: int| 0 <= k < r@.len() ==> #[trigger] r@[k] == 0,
    {
        let mut values: Vec<u32> = Vec::new();
        let mut i: usize = 0;
        while i < MAX_FLAVOURS * MAX_FLAVOURS
            invariant
                i <= MAX_FLAVOURS * MAX_FLAVOURS,
                values@.len() == i,
                forall|k: int| 0 <= k < i ==> #[trigger] values@[k] == 0,
            decreases MAX_FLAVOURS * MAX_FLAVOURS - i,
        {
            values.push(0);
            i = i + 1;
        }
        Weights { values }
    }
}

/// One RGBA colour per flavour, used when drawing particles.
pub struct ParticleColours {
    colours: Vec<[u32; 4]>,
}

impl View for ParticleColours {
    type V = Seq<[u32; 4]>;

    closed spec fn view(&self) -> Seq<[u32; 4]> {
        self.colours@
    }
}

/// The words of a colour table: each colour's four components in order.
pub open spec fn colours_wire_words(cs: Seq<[u32; 4]>) -> Seq<u32> {
    cs.map_values(|c: [u32; 4]| c@).flatten()
}

impl ParticleColours {
    /// Holds one colour per flavour.
    pub open spec fn wf(&self) -> bool {
        self@.len() == MAX_FLAVOURS
    }

    /// The bytes that the GPU reads for this table.
    pub open spec fn wire_bytes(&self) -> Seq<u8> {
        words_le_bytes(colours_wire_words(self@))
    }

    /// A copy of this table.
    pub fn mirror(&self) -> (r: ParticleColours)
        ensures
            r@ == self@,
    {
        let mut colours: Vec<[u32; 4]> = Vec::new();
        let mut i: usize = 0;
        while i < self.colours.len()
            invariant
                i <= self@.len(),
                colours@ == self@.subrange(0, i as int),
            decreases self@.len() - i,
        {
            colours.push(self.colours[i]);
            i = i + 1;
        }
        assert(colours@ =~= self@);
        ParticleColours { colours }
    }

    /// The colour of flavour `i`.
    pub fn get(&self, i: usize) -> (r: [u32; 4])
        requires
            i < self@.len(),
        ensures
            r == self@[i as int],
    {
        self.colours[i]
    }

    /// Replaces the colour of flavour `i`.
    pub fn set(&mut self, i: usize, c: [u32; 4])
        requires
            i < old(self)@.len(),
        ensures
            final(self)@ == old(self)@.update(i as int, c),
    {
        self.colours.set(i, c);
    }

    /// The bytes that the GPU reads for this table, `COLOURS_BYTES` of them.
    pub fn to_wire_bytes(&self) -> (r: Vec<u8>)
        requires
            self.wf(),
        ensures
            r@ == self.wire_bytes(),
            r@.len() == COLOURS_BYTES,
    {
        let mut words: Vec<u32> = Vec::new();
        let mut i: usize = 0;
        while i < self.colours.len()
            invariant
                self.wf(),
                i <= self@.len(),
                words@ == colours_wire_words(self@.subrange(0, i as int)),
                words@.len() == 4 * i,
            decreases self@.len() - i,
        {
            let c = self.colours[i];
            proof {
                let f = |q: [u32; 4]| q@;
                let prev = self@.subrange(0, i as int);
                let next = self@.subrange(0, i + 1);
                assert(next.map_values(f) =~= prev.map_values(f).push(c@));
                prev.map_values(f).lemma_flatten_push(c@);
            }
            words.push(c[0]);
            words.push(c[1]);
            words.push(c[2]);
            words.push(c[3]);
            assert(words@.subrange(4 * i as int, 4 * i + 4) =~= c@);
            i = i + 1;
        }
        assert(self@.subrange(0, self@.len() as int) =~= self@);
        let mut out: Vec<u8> = Vec::new();
        extend_words_le(&mut out, &words);
        assert(out@ =~= words_le_bytes(words@));
        out
    }
}

impl Default for ParticleColours {
    /// Every colour zero.
    fn default() -> (r: ParticleColours)
        ensures
            r.wf(),
            forall|k: int| 0 <= k < r@.len() ==> #[trigger] r@[k]@ == seq![0u32, 0u32, 0u32, 0u32],
    {
        let mut colours: Vec<[u32; 4]> = Vec::new();
        let mut i: usize = 0;
        while i < MAX_FLAVOURS
            invariant
                i <= MAX_FLAVOURS,
                colours@.len() == i,
                forall|k: int| 0 <= k < i ==> #[trigger] colours@[k]@ == seq![0u32, 0u32, 0u32, 0u32],
            decreases MAX_FLAVOURS - i,
        {
            let c: [u32; 4] = [0, 0, 0, 0];
            assert(c@ =~= seq![0u32, 0u32, 0u32, 0u32]);
            colours.push(c);
            i = i + 1;
        }
        ParticleColours { colours }
    }
}

/// Identity of an image that the host engine owns.
#[derive(Clone, Copy, Debug, PartialEq, Eq, Structural)]
pub struct ImageHandle {
    pub id: u64,
}

/// The texture that the render stage draws into and the display shows.
#[derive(Clone, Copy, Debug, PartialEq, Eq, Structural)]
pub struct RenderImage {
    pub image: ImageHandle,
}

/// The texture that holds the weights matrix for the simulation stage.
#[derive(Clone, Copy, Debug, PartialEq, Eq, Structural)]
pub struct WeightsImage {
    pub image: ImageHandle,
}

/// How an RGBA8 image is created: its size and the texel it is filled with.
/// Every such image may be copied into, bound as a storage texture and
/// sampled.
#[derive(Clone, Copy, Debug)]
pub struct ImageSpec {
    pub width: u32,
    pub height: u32,
    pub fill: [u8; 4],
}

/// The output image: the size of the domain, opaque black.
pub fn render_image_spec() -> (r: ImageSpec)
    ensures
        r.width == DOMAIN_WIDTH,
        r.height == DOMAIN_HEIGHT,
        r.fill@ == seq![0u8, 0u8, 0u8, 255u8],
{
    let r = ImageSpec { width: DOMAIN_WIDTH, height: DOMAIN_HEIGHT, fill: [0, 0, 0, 255] };
    assert(r.fill@ =~= seq![0u8, 0u8, 0u8, 255u8]);
    r
}

/// The weights image: one texel per ordered pair of flavours, filled with
/// half-intensity red.
pub fn weights_image_spec() -> (r: ImageSpec)
    ensures
        r.width == MAX_FLAVOURS,
        r.height == MAX_FLAVOURS,
        r.fill@ == seq![128u8, 0u8, 0u8, 255u8],
{
    let r = ImageSpec {
        width: MAX_FLAVOURS as u32,
        height: MAX_FLAVOURS as u32,
        fill: [128, 0, 0, 255],
    };
    assert(r.fill@ =~= seq![128u8, 0u8, 0u8, 255u8]);
    r
}

} // verus!
