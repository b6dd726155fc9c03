use codeccomp::compositor::Compositor;
use codeccomp::compositor::Mode;
use codeccomp::pipeline::fix_pos;
use codeccomp::status::Status;

#[test]
fn test_positions_nonnegative_at_extremes() {
    let zooms: [usize; 4] = [1, 40, 100, 1_000_000];
    let offsets: [i32; 5] = [i32::MIN, -1_000_000, 0, 1_000_000, i32::MAX];
    let modes: [Mode; 2] = [Mode::Split, Mode::SideBySide];
    for &zoom in zooms.iter() {
        for &offset in offsets.iter() {
            for &mode in modes.iter() {
                let compositor = Compositor {
                    mode,
                    zoom,
                    offset_x: offset,
                    offset_y: offset,
                    ..Default::default()
                };
                let (pos0, pos1) = compositor.get_positions();
                assert!(pos0.width >= 0, "pos0.width");
                assert!(pos0.height >= 0, "pos0.height");
                assert!(pos1.width >= 0, "pos1.width");
                assert!(pos1.height >= 0, "pos1.height");
            }
        }
    }
}

#[test]
fn test_split_hidden_pane_width_is_zero_not_negative() {
    // The viewport ends left of the border: the right pane sees nothing.
    let compositor = Compositor {
        mode: Mode::Split,
        zoom: 40,
        offset_x: -384,
        offset_y: 0,
        border: 600,
        ..Default::default()
    };
    let (pos0, pos1) = compositor.get_positions();
    assert_eq!(pos0.width, 512, "pos0.width");
    assert_eq!(pos1.width, 0, "pos1.width");
}

#[test]
fn test_split_width_sum_invariant_under_pan() {
    let mut compositor = Compositor::default();
    // zoom=150: the viewport (1920 px) covers the canvas (1280 px).
    for _ in 0..5 {
        compositor.zoom_in();
    }
    assert_eq!(compositor.zoom, 150, "compositor.zoom");

    for &x in [-2000, -500, 0, 333, 641, 5000].iter() {
        compositor.move_pos_to(x, 0);
        let (pos0, pos1) = compositor.get_positions();
        assert_eq!(pos0.width + pos1.width, 1920, "pos0.width + pos1.width");
    }
}

#[test]
fn test_border_clamped_both_ends() {
    let mut compositor = Compositor::default();
    compositor.move_border_to(-5);
    assert_eq!(compositor.border, 0, "compositor.border");
    compositor.move_border_to(compositor.width + 100);
    assert_eq!(compositor.border, compositor.width, "compositor.border");
    compositor.move_border(-2000);
    assert_eq!(compositor.border, 0, "compositor.border");
    compositor.move_border(17);
    assert_eq!(compositor.border, 17, "compositor.border");
}

#[test]
fn test_reset_restores_defaults() {
    let mut compositor = Compositor::new(Mode::Split, 900, 500);
    compositor.zoom_in();
    compositor.zoom_in();
    compositor.move_pos(123, -456);
    compositor.move_border(-77);
    compositor.reset();
    assert_eq!(compositor.zoom, 100, "compositor.zoom");
    assert_eq!(compositor.offset_x, 0, "compositor.offset_x");
    assert_eq!(compositor.offset_y, 0, "compositor.offset_y");
    assert_eq!(compositor.border, 450, "compositor.border");
    assert_eq!(compositor.width, 900, "compositor.width");
    assert_eq!(compositor.height, 500, "compositor.height");

    compositor.move_pos(9, 9);
    compositor.move_border(-30);
    compositor.reset_border();
    assert_eq!(compositor.border, 450, "compositor.border");
    assert_eq!(compositor.offset_x, 9, "compositor.offset_x");

    compositor.reset_position();
    assert_eq!(compositor.zoom, 100, "compositor.zoom");
    assert_eq!(compositor.offset_x, 0, "compositor.offset_x");
    assert_eq!(compositor.offset_y, 0, "compositor.offset_y");
    assert_eq!(compositor.border, 450, "compositor.border");
}

#[test]
fn test_zoom_step_is_ten() {
    let mut compositor = Compositor::default();
    compositor.zoom_in();
    assert_eq!(compositor.zoom, 110, "compositor.zoom");
    compositor.zoom_out();
    assert_eq!(compositor.zoom, 100, "compositor.zoom");
    for _ in 0..6 {
        compositor.zoom_out();
    }
    assert_eq!(compositor.zoom, 40, "compositor.zoom");
}

#[test]
fn test_zoom_caps_at_maximum() {
    let mut compositor = Compositor {
        zoom: 999_995,
        ..Default::default()
    };
    compositor.zoom_in();
    assert_eq!(compositor.zoom, 1_000_000, "compositor.zoom");
    compositor.zoom_in();
    assert_eq!(compositor.zoom, 1_000_000, "compositor.zoom");
}

#[test]
fn test_zoom_floors_at_one() {
    let mut compositor = Compositor {
        zoom: 7,
        ..Default::default()
    };
    compositor.zoom_out();
    assert_eq!(compositor.zoom, 1, "compositor.zoom");
    compositor.zoom_out();
    assert_eq!(compositor.zoom, 1, "compositor.zoom");
}

#[test]
fn test_zoom_center_round_trip_from_any_anchor() {
    let mut compositor = Compositor {
        mode: Mode::Split,
        zoom: 130,
        offset_x: 11,
        offset_y: -22,
        border: 300,
        ..Default::default()
    };
    let before = compositor;
    compositor.zoom_in_center_at(37, 91);
    compositor.zoom_out_center_at(37, 91);
    assert_eq!(compositor, before, "compositor round trip");

    let mut compositor = Compositor {
        mode: Mode::SideBySide,
        zoom: 130,
        offset_x: 11,
        offset_y: -22,
        ..Default::default()
    };
    let before = compositor;
    compositor.zoom_in_center_at(37, 91);
    compositor.zoom_out_center_at(37, 91);
    assert_eq!(compositor, before, "compositor round trip");
}

#[test]
fn test_sidebyside_oversized_crop_means_none() {
    // The left pane has scrolled fully past the midline: the raw crop
    // reaches the whole source width, which is reported as no crop.
    let compositor = Compositor {
        mode: Mode::SideBySide,
        zoom: 200,
        offset_x: 1000,
        offset_y: 0,
        ..Default::default()
    };
    let (pos0, pos1) = compositor.get_positions();
    assert_eq!(pos0.xpos, 0, "pos0.xpos");
    assert_eq!(pos0.width, 0, "pos0.width");
    assert_eq!(pos0.crop_right, 0, "pos0.crop_right");
    assert_eq!(pos1.xpos, 1320, "pos1.xpos");
    assert_eq!(pos1.width, 1280, "pos1.width");
    assert_eq!(pos1.crop_left, 0, "pos1.crop_left");
}

#[test]
fn test_zero_viewport_is_fully_hidden() {
    // A tiny canvas at minimal zoom truncates the viewport to nothing;
    // both panes come back empty rather than failing on the degenerate
    // scale factor.
    let compositor = Compositor::new(Mode::Split, 14, 11);
    let compositor = Compositor {
        zoom: 1,
        ..compositor
    };
    let (pos0, pos1) = compositor.get_positions();
    assert_eq!(pos0.width, 0, "pos0.width");
    assert_eq!(pos0.height, 0, "pos0.height");
    assert_eq!(pos0.crop_right, 0, "pos0.crop_right");
    assert_eq!(pos1.xpos, 7, "pos1.xpos");
    assert_eq!(pos1.width, 0, "pos1.width");
    assert_eq!(pos1.crop_left, 0, "pos1.crop_left");

    let compositor = Compositor {
        mode: Mode::SideBySide,
        ..compositor
    };
    let (pos0, pos1) = compositor.get_positions();
    assert_eq!(pos0.width, 0, "pos0.width");
    assert_eq!(pos1.width, 0, "pos1.width");
    assert_eq!(pos0.crop_right, 0, "pos0.crop_right");
    assert_eq!(pos1.crop_left, 0, "pos1.crop_left");
}

#[test]
fn test_fix_pos_crop_left_workaround() {
    let mut pos = codeccomp::compositor::Position {
        xpos: 640,
        ypos: 0,
        width: 640,
        height: 720,
        crop_right: 0,
        crop_left: 720,
    };
    fix_pos(&mut pos, 720, false);
    assert_eq!(pos.width, 640, "pos.width");
    assert_eq!(pos.crop_left, 710, "pos.crop_left");
    assert_eq!(pos.crop_right, 0, "pos.crop_right");
}

#[test]
fn test_status_border_clamped_both_ends() {
    let mut status = Status::default();
    status.move_border_to(-5);
    assert_eq!(status.border, 0, "status.border");
    status.move_border_to(status.width + 100);
    assert_eq!(status.border, status.width, "status.border");
}

#[test]
fn test_status_zoom_bounds() {
    let mut status = Status {
        zoom: 7,
        ..Default::default()
    };
    status.zoom_out();
    assert_eq!(status.zoom, 1, "status.zoom");
    let mut status = Status {
        zoom: 999_995,
        ..Default::default()
    };
    status.zoom_in();
    assert_eq!(status.zoom, 1_000_000, "status.zoom");
}

#[test]
fn test_status_reset_restores_defaults() {
    let mut status = Status::new(900, 500);
    status.zoom_in();
    status.move_pos(123, -456);
    status.move_border(-77);
    status.reset();
    assert_eq!(status.zoom, 100, "status.zoom");
    assert_eq!(status.offset_x, 0, "status.offset_x");
    assert_eq!(status.offset_y, 0, "status.offset_y");
    assert_eq!(status.border, 450, "status.border");
    assert_eq!(status.width, 900, "status.width");
    assert_eq!(status.height, 500, "status.height");
}
