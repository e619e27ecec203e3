use canvas_demos::ray_tracer::rng::{
    seed_for_pixel, Rng, MULTIPLIER_INVERSE, OUTPUT_MULTIPLIER_INVERSE, PCG_INCREMENT,
    PCG_MULTIPLIER, PCG_OUTPUT_MULTIPLIER,
};

#[test]
fn first_draw() {
    let mut rng = Rng(0);
    let first = rng.next_u32();
    assert_eq!(rng.0, 2891336453);
    assert_eq!(first, 0);
}

#[test]
fn draws_from_given_states() {
    let cases: [(u32, u32, u32); 3] = [
        (1, 277803675, 3639132858),
        (0xffff_ffff, 564453510, 2143540048),
        (0xdead_beef, 4130710537, 3644678912),
    ];
    for (state, drawn, next) in cases {
        let mut rng = Rng(state);
        assert_eq!(rng.next_u32(), drawn);
        assert_eq!(rng.0, next);
    }
}

#[test]
fn stream_of_draws() {
    let mut rng = Rng(12345);
    assert_eq!(rng.next_pair(), (985940161, 4099845390));
    assert_eq!(rng.next_pair(), (430018922, 1600717359));
    assert_eq!(rng.next_u32(), 2315322805);
    assert_eq!(rng.0, 1691306590);
}

#[test]
fn pixel_seeds() {
    assert_eq!(seed_for_pixel(0, 0xA53B_1F27), 1239801559);
    assert_eq!(seed_for_pixel(1, 0xA53B_1F27), 1987597964);
    assert_eq!(seed_for_pixel(3, 0xA53B_1F27), 3483190774);
    assert_eq!(seed_for_pixel(2, 977), 92087023);
    assert_eq!(seed_for_pixel(0, 0), 2891336453);
}

#[test]
fn seeds_and_successors_are_distinct() {
    let mut seeds: Vec<u32> = (0..5000).map(|i| seed_for_pixel(i, 11)).collect();
    seeds.sort();
    seeds.dedup();
    assert_eq!(seeds.len(), 5000);
    let mut after: Vec<u32> = (0..5000u32)
        .map(|s| {
            let mut rng = Rng(s);
            rng.next_u32();
            rng.0
        })
        .collect();
    after.sort();
    after.dedup();
    assert_eq!(after.len(), 5000);
}

#[test]
fn interrupted_stream_goes_on() {
    let mut whole = Rng(12345);
    let drawn: Vec<u32> = (0..10).map(|_| whole.next_u32()).collect();
    let mut first = Rng(12345);
    for k in 0..4 {
        assert_eq!(first.next_u32(), drawn[k]);
    }
    let mut second = Rng(first.0);
    for k in 4..10 {
        assert_eq!(second.next_u32(), drawn[k]);
    }
    assert_eq!(second.0, whole.0);
}

#[test]
fn multipliers_and_their_inverses() {
    use_inverse(PCG_MULTIPLIER, MULTIPLIER_INVERSE);
    use_inverse(PCG_OUTPUT_MULTIPLIER, OUTPUT_MULTIPLIER_INVERSE);
}

fn use_inverse(multiplier: u32, inverse: u32) {
    assert_eq!(multiplier.wrapping_mul(inverse), 1);
}

#[test]
fn output_is_distinct_for_distinct_states() {
    let mut drawn: Vec<u32> = (0..100_000u32)
        .map(|i| Rng(i.wrapping_mul(0x9E37_79B9)).next_u32())
        .collect();
    drawn.sort();
    drawn.dedup();
    assert_eq!(drawn.len(), 100_000);
}

/// The state `n` steps on, by repeated squaring of the step.
fn jump(state: u32, n: u64) -> u32 {
    let (mut a, mut c) = (PCG_MULTIPLIER, PCG_INCREMENT);
    let mut state = state;
    for bit in 0..33 {
        if n >> bit & 1 == 1 {
            state = state.wrapping_mul(a).wrapping_add(c);
        }
        c = c.wrapping_mul(a.wrapping_add(1));
        a = a.wrapping_mul(a);
    }
    state
}

#[test]
fn stream_comes_back_after_all_states() {
    let mut rng = Rng(12345);
    for _ in 0..1000 {
        rng.next_u32();
    }
    assert_eq!(jump(12345, 1000), rng.0);
    for start in [0, 1, 12345, 0xdead_beef] {
        assert_eq!(jump(start, 1 << 32), start);
        for k in 0..32 {
            assert_ne!(jump(start, 1 << k), start);
        }
    }
}

#[test]
fn salts_change_every_seed() {
    for idx in [0, 1, 977, u32::MAX] {
        let mut seeds: Vec<u32> = (0..32).map(|k| seed_for_pixel(idx, 1 << k)).collect();
        seeds.push(seed_for_pixel(idx, 0));
        seeds.sort();
        seeds.dedup();
        assert_eq!(seeds.len(), 33);
    }
}
