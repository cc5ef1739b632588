use particle_sim::config::{MAX_FLAVOURS, MAX_PARTICLES};
use particle_sim::float_bits::dyadic_f32_bits;
use particle_sim::objects::{
    render_image_spec, weights_image_spec, Particle, ParticleColours, Particles, Weights,
    COLOURS_BYTES, PARTICLES_BYTES, PARTICLE_BYTES, WEIGHTS_BYTES,
};
use particle_sim::wire::{extend_words_le, push_word_le, read_word_le};
use rand::rngs::StdRng;
use rand::{Rng, RngCore, SeedableRng};

fn f(bits: u32) -> f32 {
    f32::from_bits(bits)
}

#[test]
fn dyadic_values_are_exact() {
    assert_eq!(f(dyadic_f32_bits(1, 0)), 1.0);
    assert_eq!(f(dyadic_f32_bits(-3, 1)), -1.5);
    assert_eq!(dyadic_f32_bits(0, 15), 0);
    assert_eq!(f(dyadic_f32_bits(-0x80_0000, 15)), -256.0);
    assert_eq!(f(dyadic_f32_bits(0x7F_FFFF, 15)), 8388607.0 / 32768.0);
    assert_eq!(f(dyadic_f32_bits(0xFF_FFFF, 24)), 16777215.0 / 16777216.0);
    assert_eq!(f(dyadic_f32_bits(5, 126)), 5.0 * 2f32.powi(-126));
}

#[test]
fn drawn_particle_matches_unit_sample_formula() {
    for d in [0u32, 1, 0xFF, 0x100, 0x8000_0000, 0x1234_5678, 0xFFFF_FFFF] {
        let p = Particle::from_draws(d, d, d, d);
        let r = (d >> 8) as f32 * (1.0 / (1u32 << 24) as f32);
        assert_eq!(f(p.position[0]), r * 512.0 - 256.0);
        assert_eq!(f(p.position[1]), r * 512.0 - 256.0);
        assert_eq!(p.position[2], 0);
        assert_eq!(f(p.velocity[0]), r - 0.5);
        assert_eq!(f(p.velocity[1]), r - 0.5);
        assert_eq!(p.velocity[2], 0);
        assert_eq!(p.acceleration, [0, 0, 0]);
        assert_eq!(p.index, 0);
    }
}

#[test]
fn extreme_draws_give_domain_edges() {
    let low = Particle::from_draws(0, 0, 0, 0);
    assert_eq!(f(low.position[0]), -256.0);
    assert_eq!(f(low.velocity[0]), -0.5);
    let high = Particle::from_draws(u32::MAX, u32::MAX, u32::MAX, u32::MAX);
    assert!(f(high.position[0]) < 256.0);
    assert!(f(high.velocity[0]) < 0.5);
    let mid = Particle::from_draws(0x8000_0000, 0x8000_0000, 0x8000_0000, 0x8000_0000);
    assert_eq!(mid.position[0], 0);
    assert_eq!(mid.velocity[1], 0);
}

fn seeded_draws(seed: u64) -> Vec<u32> {
    let mut rng = StdRng::seed_from_u64(seed);
    (0..4 * MAX_PARTICLES).map(|_| rng.next_u32()).collect()
}

#[test]
fn seeded_particles_lie_in_domain() {
    let draws = seeded_draws(42);
    let ps = Particles::from_draws(&draws);
    assert_eq!(ps.len(), MAX_PARTICLES);
    for i in 0..ps.len() {
        let p = ps.get(i);
        for k in 0..2 {
            assert!((-256.0..256.0).contains(&f(p.position[k])));
            assert!((-0.5..0.5).contains(&f(p.velocity[k])));
        }
        assert_eq!(f(p.position[2]), 0.0);
    }
}

#[test]
fn seeded_particles_equal_float_sampler() {
    let mut floats = StdRng::seed_from_u64(9);
    let ps = Particles::from_draws(&seeded_draws(9));
    for i in 0..MAX_PARTICLES {
        let p = ps.get(i);
        let x: f32 = floats.gen();
        let y: f32 = floats.gen();
        let vx: f32 = floats.gen();
        let vy: f32 = floats.gen();
        assert_eq!(f(p.position[0]), x * 512.0 - 256.0);
        assert_eq!(f(p.position[1]), y * 512.0 - 256.0);
        assert_eq!(f(p.velocity[0]), vx - 0.5);
        assert_eq!(f(p.velocity[1]), vy - 0.5);
    }
}

#[test]
fn random_particles_lie_in_domain() {
    let ps = Particles::default();
    assert_eq!(ps.len(), MAX_PARTICLES);
    let mut distinct = std::collections::HashSet::new();
    for i in 0..ps.len() {
        let p = ps.get(i);
        assert!((-256.0..256.0).contains(&f(p.position[0])));
        assert!((-256.0..256.0).contains(&f(p.position[1])));
        assert!((-0.5..0.5).contains(&f(p.velocity[0])));
        assert!((-0.5..0.5).contains(&f(p.velocity[1])));
        distinct.insert(p.position[0]);
    }
    assert!(distinct.len() > 1);
}

#[test]
fn particle_wire_layout_pads_each_row() {
    let mut ps = Particles::zeroed();
    let p = Particle {
        position: [1.0f32.to_bits(), 2.0f32.to_bits(), 3.0f32.to_bits()],
        velocity: [4.0f32.to_bits(), 5.0f32.to_bits(), 6.0f32.to_bits()],
        acceleration: [7.0f32.to_bits(), 8.0f32.to_bits(), 9.0f32.to_bits()],
        index: 3.0f32.to_bits(),
    };
    ps.set(1, p);
    let bytes = ps.to_wire_bytes();
    assert_eq!(bytes.len(), PARTICLES_BYTES);
    assert_eq!(PARTICLES_BYTES, MAX_PARTICLES * PARTICLE_BYTES);
    assert!(bytes[..PARTICLE_BYTES].iter().all(|b| *b == 0));
    let row = &bytes[PARTICLE_BYTES..2 * PARTICLE_BYTES];
    let word = |k: usize| f32::from_le_bytes([row[4 * k], row[4 * k + 1], row[4 * k + 2], row[4 * k + 3]]);
    let expected = [1.0, 2.0, 3.0, 0.0, 4.0, 5.0, 6.0, 0.0, 7.0, 8.0, 9.0, 3.0];
    for k in 0..12 {
        assert_eq!(word(k), expected[k]);
    }
    assert_eq!(&row[0..4], &[0x00, 0x00, 0x80, 0x3F]);
}

#[test]
fn weights_default_to_zero_and_lay_out_row_major() {
    let mut w = Weights::default();
    assert!(w.to_wire_bytes().iter().all(|b| *b == 0));
    w.set(2, 7, 0xA1B2_C3D4);
    assert_eq!(w.get(2, 7), 0xA1B2_C3D4);
    assert_eq!(w.get(7, 2), 0);
    let bytes = w.to_wire_bytes();
    assert_eq!(bytes.len(), WEIGHTS_BYTES);
    assert_eq!(WEIGHTS_BYTES, 4 * MAX_FLAVOURS * MAX_FLAVOURS);
    let at = 4 * (2 * MAX_FLAVOURS + 7);
    assert_eq!(&bytes[at..at + 4], &[0xD4, 0xC3, 0xB2, 0xA1]);
}

#[test]
fn colours_lay_out_rgba_per_flavour() {
    let mut c = ParticleColours::default();
    assert_eq!(c.get(4), [0, 0, 0, 0]);
    c.set(9, [1, 2, 3, 4]);
    let bytes = c.to_wire_bytes();
    assert_eq!(bytes.len(), COLOURS_BYTES);
    assert_eq!(&bytes[144..160], &[1, 0, 0, 0, 2, 0, 0, 0, 3, 0, 0, 0, 4, 0, 0, 0]);
    assert!(bytes[..144].iter().all(|b| *b == 0));
}

#[test]
fn words_round_trip_through_bytes() {
    let mut out = Vec::new();
    push_word_le(&mut out, 0x0102_0304);
    assert_eq!(out, vec![4, 3, 2, 1]);
    extend_words_le(&mut out, &vec![0xDEAD_BEEF, 7]);
    assert_eq!(out.len(), 12);
    assert_eq!(read_word_le(&out, 0), 0x0102_0304);
    assert_eq!(read_word_le(&out, 1), 0xDEAD_BEEF);
    assert_eq!(read_word_le(&out, 2), 7);
}

#[test]
fn image_specs() {
    let out = render_image_spec();
    assert_eq!((out.width, out.height, out.fill), (512, 512, [0, 0, 0, 255]));
    let w = weights_image_spec();
    assert_eq!((w.width, w.height, w.fill), (10, 10, [128, 0, 0, 255]));
}

#[test]
fn particles_read_back_from_wire_bytes() {
    let ps = Particles::from_draws(&seeded_draws(3));
    let bytes = ps.to_wire_bytes();
    let back = Particles::from_wire_bytes(&bytes).unwrap();
    assert_eq!(back.len(), MAX_PARTICLES);
    for i in 0..MAX_PARTICLES {
        let (a, b) = (ps.get(i), back.get(i));
        assert_eq!(a.position, b.position);
        assert_eq!(a.velocity, b.velocity);
        assert_eq!(a.acceleration, b.acceleration);
        assert_eq!(a.index, b.index);
    }
    assert!(Particles::from_wire_bytes(&bytes[..PARTICLES_BYTES - 4].to_vec()).is_none());
    assert!(Particles::from_wire_bytes(&Vec::new()).is_none());
}

#[test]
fn read_back_ignores_padding_words() {
    let mut bytes = vec![0u8; PARTICLES_BYTES];
    bytes[12..16].copy_from_slice(&7u32.to_le_bytes());
    bytes[16..20].copy_from_slice(&0.25f32.to_le_bytes());
    let ps = Particles::from_wire_bytes(&bytes).unwrap();
    let p = ps.get(0);
    assert_eq!(p.position, [0, 0, 0]);
    assert_eq!(f(p.velocity[0]), 0.25);
}
