use gravity_sim::path::{trail_path, PathStep};

#[test]
fn empty_trail_draws_nothing() {
    assert_eq!(trail_path(0), vec![]);
}

#[test]
fn short_trails_draw_one_stroke() {
    assert_eq!(trail_path(1), vec![PathStep::LineTo(0)]);
    assert_eq!(trail_path(2), vec![PathStep::CurveTo(0, 0, 1)]);
    assert_eq!(trail_path(3), vec![PathStep::CurveTo(0, 1, 2)]);
}

#[test]
fn longer_trails_draw_curves_and_a_closing_stroke() {
    assert_eq!(trail_path(4), vec![PathStep::CurveTo(0, 1, 2), PathStep::LineTo(3)]);
    assert_eq!(trail_path(5), vec![PathStep::CurveTo(0, 1, 2), PathStep::CurveTo(3, 3, 4)]);
    assert_eq!(trail_path(6), vec![PathStep::CurveTo(0, 1, 2), PathStep::CurveTo(3, 4, 5)]);
    assert_eq!(
        trail_path(7),
        vec![PathStep::CurveTo(0, 1, 2), PathStep::CurveTo(3, 4, 5), PathStep::LineTo(6)]
    );
}

#[test]
fn every_stroke_stays_inside_the_trail() {
    for len in 0usize..50 {
        let path = trail_path(len);
        let expected_strokes = if len == 0 { 0 } else { (len - 1) / 3 + 1 };
        assert_eq!(path.len(), expected_strokes);
        for step in path {
            match step {
                PathStep::LineTo(a) => assert!(a < len),
                PathStep::CurveTo(a, b, c) => assert!(a < len && b < len && c < len),
            }
        }
    }
}

#[test]
fn the_last_position_is_always_reached() {
    for len in 1usize..50 {
        let path = trail_path(len);
        let end = match path[path.len() - 1] {
            PathStep::LineTo(a) => a,
            PathStep::CurveTo(_, _, c) => c,
        };
        assert_eq!(end, len - 1);
    }
}
