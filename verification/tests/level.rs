use laermampel::level::{silence_db, zone_at, Level, Motion, Zone};
use laermampel::settings::Settings;
use laermampel::single::Single;

fn n(x: f32) -> Single {
    Single { bits: x.to_bits() }
}

fn f(x: Single) -> f32 {
    f32::from_bits(x.bits)
}

#[test]
fn zones_begin_at_their_thresholds() {
    assert_eq!(zone_at(n(-18.0), n(-24.0), n(-18.0)), Zone::Red);
    assert_eq!(zone_at(n(-18.1), n(-24.0), n(-18.0)), Zone::Yellow);
    assert_eq!(zone_at(n(-24.0), n(-24.0), n(-18.0)), Zone::Yellow);
    assert_eq!(zone_at(n(-24.1), n(-24.0), n(-18.0)), Zone::Green);
    assert_eq!(zone_at(n(f32::NAN), n(-24.0), n(-18.0)), Zone::Green);
    assert_eq!(f(silence_db()), -100.0);
}

#[test]
fn rising_and_falling_have_their_own_times() {
    let s = Settings::default();
    let mut l = Level::new();
    assert_eq!(l.aim(Some(n(-10.0)), &s), Motion::Glide(n(20.0)));
    l.update(n(-10.0), 0, 0, &s);
    // No measurement: the target stays.
    assert_eq!(l.aim(None, &s), Motion::Glide(n(400.0)));
    assert_eq!(f(l.target_db), -10.0);
    assert_eq!(l.aim(Some(n(-50.0)), &s), Motion::Glide(n(400.0)));
    let mut quick = Settings::default();
    quick.attack_ms = n(0.0);
    assert_eq!(l.aim(Some(n(0.0)), &quick), Motion::Jump);
}

#[test]
fn red_is_held_and_reported_once() {
    let s = Settings::default();
    let hold = 1_500_000_000;
    let mut l = Level::new();
    assert!(l.update(n(-10.0), 1000, hold, &s));
    assert_eq!(l.zone, Zone::Red);
    for t in [1001, 700_000_000, 1000 + hold - 1] {
        assert!(!l.update(n(-90.0), t, hold, &s), "at {t}");
        assert_eq!(l.zone, Zone::Red);
    }
    // Yellow does not shorten it.
    assert!(!l.update(n(-20.0), 1000 + hold - 1, hold, &s));
    assert_eq!(l.zone, Zone::Red);
    assert!(!l.update(n(-90.0), 1000 + hold, hold, &s));
    assert_eq!(l.zone, Zone::Green);
    assert!(l.update(n(-10.0), 2000 + hold, hold, &s));
}

#[test]
fn red_goes_over_a_held_yellow() {
    let s = Settings::default();
    let mut l = Level::new();
    assert!(!l.update(n(-20.0), 0, 100, &s));
    assert_eq!(l.zone, Zone::Yellow);
    assert!(l.update(n(-10.0), 50, 100, &s));
    assert_eq!(l.zone, Zone::Red);
    assert!(!l.update(n(-20.0), 149, 100, &s));
    assert_eq!(l.zone, Zone::Red);
    assert!(!l.update(n(-20.0), 150, 100, &s));
    assert_eq!(l.zone, Zone::Yellow);
    // Without a hold the zone follows at once.
    let mut m = Level::new();
    m.update(n(-10.0), 0, 0, &s);
    assert_eq!(m.zone, Zone::Red);
    m.update(n(-90.0), 0, 0, &s);
    assert_eq!(m.zone, Zone::Green);
    assert_eq!(f(m.display_db), -90.0);
}
