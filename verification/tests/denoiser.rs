use laermampel::denoiser::{Denoiser, BLOCK, DRY_DELAY};
use laermampel::single::Single;

fn n(x: f32) -> Single {
    Single { bits: x.to_bits() }
}

fn f(x: Single) -> f32 {
    f32::from_bits(x.bits)
}

#[test]
fn block_is_that_of_the_filter() {
    assert_eq!(BLOCK, nnnoiseless::DenoiseState::FRAME_SIZE);
    assert_eq!(DRY_DELAY, 2 * nnnoiseless::DenoiseState::FRAME_SIZE);
}

#[test]
fn both_paths_hand_out_in_order() {
    let mut d = Denoiser::new();
    let mut fed = 0;
    for i in 0..3000usize {
        if d.begin(n(i as f32), n(2.0 * i as f32)) {
            assert_eq!((i + 1) % BLOCK, 0);
            // A filter that does nothing but halve again.
            let out: Vec<Single> = d.input.iter().map(|&x| n(f(x) / 2.0)).collect();
            d.finish(&out, n(0.5));
            fed += 1;
        }
        let (wet, dry) = d.next();
        let expected_wet = if i + 1 < BLOCK { 0.0 } else { (i + 1 - BLOCK) as f32 };
        let expected_dry = if i + 1 < DRY_DELAY { 0.0 } else { (i + 1 - DRY_DELAY) as f32 };
        assert_eq!((f(wet), f(dry)), (expected_wet, expected_dry), "sample {i}");
    }
    assert_eq!(fed, 3000 / BLOCK);
    assert_eq!(f(d.vad), 0.5);
    d.reset();
    assert!(d.input.is_empty() && d.ready.is_empty() && d.dry.is_empty());
    assert_eq!(f(d.vad), 0.5);
}
