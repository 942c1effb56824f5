use laermampel::single::Single;

fn n(x: f32) -> Single {
    Single { bits: x.to_bits() }
}

fn f(x: Single) -> f32 {
    f32::from_bits(x.bits)
}

const SOME: [f32; 13] = [
    0.0,
    -0.0,
    1.0,
    -1.0,
    0.1,
    -99.5,
    1e-45,
    -1e-45,
    f32::MAX,
    f32::MIN,
    f32::INFINITY,
    f32::NEG_INFINITY,
    f32::NAN,
];

#[test]
fn comparing_is_that_of_the_machine() {
    for a in SOME {
        for b in SOME {
            assert_eq!(n(a).lt(n(b)), a < b, "{a} < {b}");
            assert_eq!(n(a).le(n(b)), a <= b, "{a} <= {b}");
            assert_eq!(n(a).same(n(b)), a == b, "{a} == {b}");
            let (max, min) = (f(n(a).max(n(b))), f(n(a).min(n(b))));
            assert!(max == a.max(b) || (max.is_nan() && a.is_nan() && b.is_nan()));
            assert!(min == a.min(b) || (min.is_nan() && a.is_nan() && b.is_nan()));
        }
    }
}

#[test]
fn signs_and_kinds() {
    for a in SOME {
        assert_eq!(n(a).is_nan(), a.is_nan());
        assert_eq!(n(a).is_finite(), a.is_finite());
        assert_eq!(n(a).abs().bits, a.abs().to_bits());
        assert_eq!(n(a).neg().bits, (-a).to_bits());
        assert!(a.is_nan() || n(a).plus_zero().bits == (a + 0.0).to_bits());
        let c = f(n(a).clamp(n(-2.0), n(3.0)));
        assert!(c == a.clamp(-2.0, 3.0) || a.is_nan());
    }
}

#[test]
fn whole_numbers_and_quarters_are_exact() {
    for i in -5000i32..5000 {
        assert_eq!(f(Single::whole(i)), i as f32);
        assert_eq!(f(Single::quarters(i)), i as f32 / 4.0);
    }
    assert_eq!(f(Single::whole(0x3f_ffff)), 4_194_303.0);
    assert_eq!(f(Single::quarters(-0xff_ffff)), -4_194_303.75);
    assert_eq!(Single::whole(0).bits, 0);
}
