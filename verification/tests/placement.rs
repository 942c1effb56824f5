use laermampel::placement::{is_countable, shown_on, sorted, target_rect, Anchor, Extent, Monitor, PhysicalRect};
use laermampel::single::Single;

fn monitor(work: [i32; 4], primary: bool) -> Monitor {
    Monitor { work, scale: Single { bits: 1.0f32.to_bits() }, primary }
}

#[test]
fn every_anchor_has_its_place() {
    let monitors = vec![monitor([100, 50, 1100, 850], true)];
    let e = Extent { w: 21, h: 20, margin: 12 };
    let expected = [
        (Anchor::TopLeft, 112, 62),
        (Anchor::TopCenter, 589, 62),
        (Anchor::TopRight, 1067, 62),
        (Anchor::BottomLeft, 112, 818),
        (Anchor::BottomCenter, 589, 818),
        (Anchor::BottomRight, 1067, 818),
    ];
    for (anchor, x, y) in expected {
        assert!(is_countable(&monitors[0], anchor, e));
        assert_eq!(target_rect(&monitors, 0, anchor, e), Some(PhysicalRect { x, y, w: 21, h: 20 }));
    }
    // Wider than the screen: half of what is too much, rounded towards zero.
    let wide = Extent { w: 1003, h: 20, margin: 0 };
    assert_eq!(target_rect(&monitors, 0, Anchor::TopCenter, wide).unwrap().x, 99);
}

#[test]
fn a_missing_screen_falls_back_to_the_first() {
    let monitors = vec![monitor([0, 0, 100, 100], true), monitor([100, 0, 300, 100], false)];
    assert_eq!(shown_on(&monitors, 1), Some(1));
    assert_eq!(shown_on(&monitors, 7), Some(0));
    assert_eq!(shown_on(&Vec::new(), 0), None);
    let e = Extent { w: 10, h: 10, margin: 0 };
    assert_eq!(target_rect(&monitors, 7, Anchor::TopLeft, e), target_rect(&monitors, 0, Anchor::TopLeft, e));
    assert_eq!(target_rect(&Vec::new(), 0, Anchor::TopLeft, e), None);
    assert!(!is_countable(&monitor([i32::MAX, 0, 0, 0], false), Anchor::TopLeft, Extent { w: 1, h: 1, margin: 1 }));
}

#[test]
fn main_screen_first_then_from_left_to_right() {
    let list = vec![
        monitor([1920, 0, 3840, 1080], false),
        monitor([-1920, 500, 0, 1580], false),
        monitor([0, 0, 1920, 1080], true),
        monitor([-1920, -600, 0, 480], false),
    ];
    let order: Vec<[i32; 2]> = sorted(list).iter().map(|m| [m.work[0], m.work[1]]).collect();
    assert_eq!(order, [[0, 0], [-1920, -600], [-1920, 500], [1920, 0]]);
}

#[test]
fn screens_that_are_alike_keep_their_order() {
    let list = vec![monitor([5, 0, 1, 0], false), monitor([0, 0, 2, 0], false), monitor([5, 0, 3, 0], false)];
    let rights: Vec<i32> = sorted(list).iter().map(|m| m.work[2]).collect();
    assert_eq!(rights, [2, 1, 3]);
}

#[test]
fn labels_in_both_languages() {
    assert_eq!(monitor([0, 0, 1920, 1040], true).label(0, 0), "Monitor 1 (1920×1040, Hauptbildschirm)");
    assert_eq!(monitor([0, 0, 1920, 1040], true).label(0, 1), "Monitor 1 (1920×1040, main screen)");
    assert_eq!(monitor([-100, 0, 0, 50], false).label(2, 0), "Monitor 3 (100×50)");
    let labels: Vec<&str> = Anchor::top_row().iter().chain(&Anchor::bottom_row()).map(|a| a.label(0)).collect();
    assert_eq!(labels, ["↖ Oben links", "↑ Oben Mitte", "↗ Oben rechts", "↙ Unten links", "↓ Unten Mitte", "↘ Unten rechts"]);
    assert_eq!(Anchor::BottomCenter.label(1), "↓ Bottom centre");
}
