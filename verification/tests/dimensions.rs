use image_batch::dimensions::{calculate_new_dimensions, scale};

#[test]
fn both_targets_without_lock_are_taken_as_given() {
    assert_eq!(calculate_new_dimensions(800, 600, Some(123), Some(457), false), (123, 457));
    assert_eq!(calculate_new_dimensions(0, 0, Some(5), Some(0), false), (5, 0));
}

#[test]
fn locked_targets_fit_the_tighter_ratio() {
    assert_eq!(calculate_new_dimensions(800, 600, Some(400), Some(400), true), (400, 300));
    assert_eq!(calculate_new_dimensions(800, 600, Some(1000), Some(300), true), (400, 300));
    assert_eq!(calculate_new_dimensions(600, 800, Some(300), Some(300), true), (225, 300));
    assert_eq!(calculate_new_dimensions(100, 100, Some(50), Some(50), true), (50, 50));
}

#[test]
fn width_only_scales_height() {
    assert_eq!(calculate_new_dimensions(800, 600, Some(400), None, true), (400, 300));
    assert_eq!(calculate_new_dimensions(800, 600, Some(400), None, false), (400, 300));
    assert_eq!(calculate_new_dimensions(3, 2, Some(1), None, false), (1, 1));
    assert_eq!(calculate_new_dimensions(1000, 333, Some(100), None, false), (100, 33));
}

#[test]
fn height_only_scales_width() {
    assert_eq!(calculate_new_dimensions(800, 600, None, Some(300), true), (400, 300));
    assert_eq!(calculate_new_dimensions(1920, 1080, None, Some(720), false), (1280, 720));
}

#[test]
fn no_target_keeps_the_source_dimensions() {
    assert_eq!(calculate_new_dimensions(800, 600, None, None, true), (800, 600));
    assert_eq!(calculate_new_dimensions(0, 7, None, None, false), (0, 7));
}

#[test]
fn halves_round_away_from_zero() {
    // 5 * 1 / 10 = 0.5
    assert_eq!(scale(5, 1, 10), 1);
    // 49 * 1 / 98 = 0.5
    assert_eq!(calculate_new_dimensions(98, 49, Some(1), None, false), (1, 1));
    // 3 * 1 / 2 = 1.5, 1 * 1 / 4 = 0.25
    assert_eq!(scale(3, 1, 2), 2);
    assert_eq!(scale(1, 1, 4), 0);
    assert_eq!(scale(7, 3, 4), 5);
}

#[test]
fn zero_targets_and_zero_sources_give_zero() {
    assert_eq!(calculate_new_dimensions(800, 600, Some(0), None, true), (0, 0));
    assert_eq!(calculate_new_dimensions(800, 600, None, Some(0), true), (0, 0));
    assert_eq!(calculate_new_dimensions(0, 600, Some(400), None, true), (400, 0));
    assert_eq!(calculate_new_dimensions(800, 0, None, Some(300), true), (0, 300));
    assert_eq!(calculate_new_dimensions(0, 0, Some(400), Some(300), true), (0, 0));
    assert_eq!(calculate_new_dimensions(0, 600, Some(400), Some(300), true), (0, 300));
    assert_eq!(calculate_new_dimensions(800, 0, Some(400), Some(300), true), (400, 0));
}

#[test]
fn scaled_lengths_are_capped() {
    assert_eq!(scale(u32::MAX, u32::MAX, 1), u32::MAX);
    assert_eq!(calculate_new_dimensions(1, 4_000_000_000, Some(2), None, false), (2, u32::MAX));
}

#[test]
fn calculate_is_idempotent_on_examples() {
    let cases = [
        (800u32, 600u32, Some(400u32), None, true),
        (800, 600, None, Some(77), false),
        (801, 603, Some(400), Some(200), true),
        (13, 977, Some(400), Some(200), true),
        (800, 600, Some(0), Some(10), true),
        (98, 49, Some(1), None, false),
        (5, 5, None, None, true),
    ];
    for (w, h, tw, th, lock) in cases {
        let once = calculate_new_dimensions(w, h, tw, th, lock);
        assert_eq!(calculate_new_dimensions(once.0, once.1, tw, th, lock), once);
    }
}

#[test]
fn locked_result_stays_inside_the_box() {
    let (w, h) = calculate_new_dimensions(801, 603, Some(400), Some(200), true);
    assert_eq!((w, h), (266, 200));
    let (w, h) = calculate_new_dimensions(13, 977, Some(400), Some(200), true);
    assert_eq!((w, h), (3, 200));
}
