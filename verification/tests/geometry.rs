use giftopia::geometry::{center_rect, placements, Placements, Rect};

fn rect(x: i32, y: i32, w: u32, h: u32) -> Rect {
    Rect { x, y, w, h }
}

#[test]
fn center_is_as_high_as_the_viewport_and_keeps_the_aspect() {
    let c = center_rect(rect(0, 0, 1920, 1080), rect(0, 0, 100, 100));
    assert_eq!(c, Some(rect(420, 0, 1080, 1080)));
}

#[test]
fn center_of_a_wide_canvas_starts_left_of_the_viewport() {
    let c = center_rect(rect(0, 0, 1920, 1080), rect(0, 0, 100, 50));
    assert_eq!(c, Some(rect(-120, 0, 2160, 1080)));
}

#[test]
fn center_width_is_rounded_down() {
    // 100 * 3 / 7 = 42.86
    let c = center_rect(rect(0, 0, 200, 100), rect(0, 0, 3, 7));
    assert_eq!(c, Some(rect(79, 0, 42, 100)));
}

#[test]
fn center_edge_is_rounded_to_the_left() {
    // slack 3: 1.5 -> 1
    assert_eq!(center_rect(rect(0, 0, 10, 7), rect(0, 0, 1, 1)), Some(rect(1, 0, 7, 7)));
    // slack -3: -1.5 -> -2
    assert_eq!(center_rect(rect(0, 0, 7, 10), rect(0, 0, 1, 1)), Some(rect(-2, 0, 10, 10)));
}

#[test]
fn center_ignores_where_the_viewport_and_the_canvas_lie() {
    let c = center_rect(rect(5, 9, 1920, 1080), rect(3, 4, 100, 100));
    assert_eq!(c, Some(rect(420, 0, 1080, 1080)));
}

#[test]
fn center_of_a_viewport_without_height_is_empty() {
    let c = center_rect(rect(0, 0, 640, 0), rect(0, 0, 4, 3));
    assert_eq!(c, Some(rect(320, 0, 0, 0)));
}

#[test]
fn no_center_for_a_canvas_without_height() {
    assert_eq!(center_rect(rect(0, 0, 1920, 1080), rect(0, 0, 100, 0)), None);
}

#[test]
fn no_center_when_the_width_does_not_fit() {
    assert_eq!(center_rect(rect(0, 0, 1920, u32::MAX), rect(0, 0, 2, 1)), None);
    // the largest that still fits
    assert_eq!(
        center_rect(rect(0, 0, 0, u32::MAX), rect(0, 0, 1, 1)),
        Some(rect(i32::MIN, 0, u32::MAX, u32::MAX))
    );
}

#[test]
fn neighbours_are_one_width_to_the_left_and_to_the_right() {
    let center = rect(420, 7, 1080, 1080);
    let p = placements(center).expect("neighbours fit");
    assert_eq!(
        p,
        Placements {
            center,
            left: rect(420 - 1080, 7, 1080, 1080),
            right: rect(420 + 1080, 7, 1080, 1080),
        }
    );
}

#[test]
fn neighbours_keep_height_width_and_top() {
    for (x, y, w, h) in [(0, 0, 1u32, 1u32), (-50, 3, 20, 9), (1000, -4, 333, 2), (7, 7, 0, 0)] {
        let center = rect(x, y, w, h);
        let p = placements(center).expect("neighbours fit");
        assert_eq!(p.center, center);
        assert_eq!(p.left.x as i64, x as i64 - w as i64);
        assert_eq!(p.right.x as i64, x as i64 + w as i64);
        for r in [p.left, p.right] {
            assert_eq!((r.y, r.w, r.h), (y, w, h));
        }
    }
}

#[test]
fn neighbours_at_the_ends_of_the_range() {
    let p = placements(rect(0, 0, i32::MAX as u32, 1)).expect("neighbours fit");
    assert_eq!(p.left.x, -i32::MAX);
    assert_eq!(p.right.x, i32::MAX);
    let p = placements(rect(-1, 0, i32::MAX as u32, 1)).expect("neighbours fit");
    assert_eq!(p.left.x, i32::MIN);
    assert_eq!(p.right.x, i32::MAX - 1);
}

#[test]
fn no_neighbours_outside_the_range() {
    assert_eq!(placements(rect(i32::MIN, 0, 1, 1)), None);
    assert_eq!(placements(rect(i32::MAX, 0, 1, 1)), None);
    assert_eq!(placements(rect(1, 0, i32::MAX as u32, 1)), None);
    assert_eq!(placements(rect(0, 0, u32::MAX, 1)), None);
}

#[test]
fn a_rectangle_without_width_or_height_is_empty() {
    assert!(rect(3, 4, 0, 5).is_empty());
    assert!(rect(3, 4, 5, 0).is_empty());
    assert!(rect(0, 0, 0, 0).is_empty());
    assert!(!rect(0, 0, 1, 1).is_empty());
    assert!(!rect(-7, -7, u32::MAX, 1).is_empty());
}
