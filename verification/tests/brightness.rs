use deetsrgb::{kb_brightness, mouse_brightness};

#[test]
fn keyboard_forty_percent_is_level_four() {
    assert_eq!(kb_brightness(40), 4);
}

#[test]
fn keyboard_scale_ends() {
    assert_eq!(kb_brightness(0), 0);
    assert_eq!(kb_brightness(100), 9);
    assert_eq!(kb_brightness(101), 9);
    assert_eq!(kb_brightness(255), 9);
}

#[test]
fn keyboard_rounds_to_nearest() {
    // 5 % is 0.45 of a step, 6 % is 0.54.
    assert_eq!(kb_brightness(5), 0);
    assert_eq!(kb_brightness(6), 1);
    assert_eq!(kb_brightness(50), 5);
    assert_eq!(kb_brightness(94), 8);
    assert_eq!(kb_brightness(95), 9);
}

#[test]
fn mouse_scale() {
    assert_eq!(mouse_brightness(0), 0);
    assert_eq!(mouse_brightness(1), 3);
    assert_eq!(mouse_brightness(40), 102);
    assert_eq!(mouse_brightness(50), 128);
    assert_eq!(mouse_brightness(100), 255);
    assert_eq!(mouse_brightness(200), 255);
}

#[test]
fn brightness_is_monotone_and_in_range() {
    for p in 0u8..=255 {
        assert!(kb_brightness(p) <= 9);
        if p < 255 {
            assert!(kb_brightness(p) <= kb_brightness(p + 1));
            assert!(mouse_brightness(p) <= mouse_brightness(p + 1));
        }
        let exact_kb = (p.min(100) as i32) * 9;
        let exact_mouse = (p.min(100) as i32) * 255;
        assert!((kb_brightness(p) as i32 * 100 - exact_kb).abs() <= 50);
        assert!((mouse_brightness(p) as i32 * 100 - exact_mouse).abs() <= 50);
    }
}
