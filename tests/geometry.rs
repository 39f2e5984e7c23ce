use alic::geometry::{fit_within, gif_scale_ratio, round_div_u64, scale_frame_geometry, FrameGeometry};
use alic::resize::{effective_box, plan_resize};

#[test]
fn rounding_halves_up() {
    assert_eq!(round_div_u64(5, 2), 3);
    assert_eq!(round_div_u64(4, 2), 2);
    assert_eq!(round_div_u64(7, 3), 2);
    assert_eq!(round_div_u64(8, 3), 3);
}

#[test]
fn fit_keeps_aspect_and_box() {
    assert_eq!(fit_within(4000, 3000, 1000, 1000), (1000, 750));
    assert_eq!(fit_within(3000, 4000, 1000, 1000), (750, 1000));
    assert_eq!(fit_within(1000, 3, 10, 10), (10, 1));
    assert_eq!(fit_within(3, 1000, 10, 10), (1, 10));
    assert_eq!(fit_within(1920, 1080, 1000, 2000), (1000, 563));
    for &(w, h, bw, bh) in &[(4000u32, 3001u32, 999u32, 1001u32), (17, 5000, 300, 200), (u32::MAX, 7, 5, 5)] {
        let (nw, nh) = fit_within(w, h, bw, bh);
        assert!(nw <= bw && nh <= bh);
        let lhs = (nw as i128) * (h as i128);
        let rhs = (nh as i128) * (w as i128);
        assert!((lhs - rhs).abs() <= w.max(h) as i128);
    }
}

#[test]
fn plan_leaves_fitting_pictures_alone() {
    assert_eq!(plan_resize(800, 600, 1000, 1000), None);
    assert_eq!(plan_resize(1000, 1000, 1000, 1000), None);
    assert_eq!(plan_resize(0, 5000, 10, 10), None);
    assert_eq!(plan_resize(2000, 1000, 1000, 1000), Some((1000, 500)));
}

#[test]
fn exif_quarter_turn_swaps_the_box() {
    assert_eq!(effective_box(6, 1000, 2000), (2000, 1000));
    assert_eq!(effective_box(5, 1000, 2000), (2000, 1000));
    assert_eq!(effective_box(8, 1000, 2000), (2000, 1000));
    assert_eq!(effective_box(1, 1000, 2000), (1000, 2000));
    assert_eq!(effective_box(4, 1000, 2000), (1000, 2000));
    assert_eq!(effective_box(9, 1000, 2000), (1000, 2000));
}

#[test]
fn gif_ratio_is_the_smaller_one() {
    assert_eq!(gif_scale_ratio(400, 200, 200, 200), (200, 400));
    assert_eq!(gif_scale_ratio(200, 400, 200, 300), (300, 400));
}

#[test]
fn half_ratio_halves_offsets_of_three_frames() {
    let (num, den) = gif_scale_ratio(400, 400, 200, 200);
    assert_eq!(2 * num, den);
    let frames = [
        FrameGeometry { width: 400, height: 400, left: 0, top: 0 },
        FrameGeometry { width: 101, height: 51, left: 33, top: 17 },
        FrameGeometry { width: 1, height: 10, left: 399, top: 3 },
    ];
    let scaled: Vec<_> = frames.iter().map(|g| scale_frame_geometry(*g, num, den)).collect();
    assert_eq!(scaled[0], Some(FrameGeometry { width: 200, height: 200, left: 0, top: 0 }));
    assert_eq!(scaled[1], Some(FrameGeometry { width: 51, height: 26, left: 17, top: 9 }));
    assert_eq!(scaled[2], Some(FrameGeometry { width: 1, height: 5, left: 200, top: 2 }));
    for s in scaled.iter().flatten() {
        assert!(s.width > 0 && s.height > 0);
    }
}

#[test]
fn frames_that_vanish_are_dropped() {
    let g = FrameGeometry { width: 1, height: 10, left: 0, top: 0 };
    assert_eq!(scale_frame_geometry(g, 1, 4), None);
}
