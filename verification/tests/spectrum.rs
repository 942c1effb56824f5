use laermampel::single::Single;
use laermampel::spectrum::{Spectrum, BINS, INTERVAL, PROFILE_TIME};

fn n(x: f32) -> Single {
    Single { bits: x.to_bits() }
}

fn bands(x: f32) -> Vec<Single> {
    vec![n(x); BINS]
}

#[test]
fn geloeschtes_profil_kommt_nicht_zurueck() {
    let mut spectrum = Spectrum::new(0);
    spectrum.profile_db = Some(vec![n(-80.0); BINS]);
    spectrum.fresh_profile = Some(vec![n(-80.0); BINS]);

    spectrum.clear_profile();

    assert!(spectrum.profile_db().is_none(), "Profil ist gelöscht");
    assert!(spectrum.take_new_profile().is_none(), "und wird auch nicht mehr gespeichert");
}

#[test]
fn a_profile_is_measured_for_two_seconds() {
    let mut s = Spectrum::new(0);
    assert!(!s.profile_running());
    s.start_profile(1000);
    assert!(s.profile_running());
    assert!(s.update(&bands(-80.0), &bands(-70.0), 2000));
    assert_eq!(s.sum_up(bands(-80.0), PROFILE_TIME), None);
    assert!(s.update(&bands(-60.0), &bands(-70.0), 3000));
    assert_eq!(s.sum_up(bands(-150.0), PROFILE_TIME + 1000), Some(2));
    s.finish_profile(bands(-75.0));
    assert!(!s.profile_running());
    assert_eq!(s.profile_db().unwrap(), &bands(-75.0));
    assert_eq!(s.take_new_profile().unwrap(), bands(-75.0));
    assert!(s.take_new_profile().is_none(), "at most once");
    assert!(s.profile_db().is_some());
    assert!(!s.update(&bands(-60.0), &bands(-70.0), 4000));
}

#[test]
fn the_first_picture_is_not_smoothed() {
    let mut s = Spectrum::new(0);
    assert!(s.bands_db().is_none());
    s.update(&bands(-10.0), &bands(-20.0), INTERVAL);
    assert_eq!(s.bands_db().unwrap(), &bands(-10.0));
    s.update(&bands(-10.0), &bands(-20.0), 2 * INTERVAL);
    assert_eq!(s.bands_db().unwrap(), &bands(-20.0));
    assert!(!s.due(2 * INTERVAL + 1));
    assert!(s.due(3 * INTERVAL));
    s.restart(2 * INTERVAL + 1);
    assert!(s.due(2 * INTERVAL + 1));
    assert!(s.bands_db().is_none());
}

#[test]
fn stored_profiles_of_another_length_are_dropped() {
    let mut s = Spectrum::new(0);
    s.load_profile(&vec![n(-80.0); BINS - 1]);
    assert!(s.profile_db().is_none());
    s.load_profile(&bands(-80.0));
    assert_eq!(s.profile_db().unwrap().len(), BINS);
    assert!(s.take_new_profile().is_none());
}
