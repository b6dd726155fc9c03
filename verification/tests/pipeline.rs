use codeccomp::compositor::Position;
use codeccomp::pipeline::fix_pos;

#[test]
fn test_fix_pos_with_0() {
    let width: i32 = 720;
    let mut pos = Position {
        xpos: 0,
        ypos: 216,
        width: 0,
        height: 288,
        crop_right: 720,
        crop_left: 0,
    };

    fix_pos(&mut pos, width, true);
    assert_eq!(pos.xpos, i64::from(width));
    assert_eq!(pos.ypos, 216);
    assert_eq!(pos.width, i64::from(width));
    assert_eq!(pos.height, 288);
    assert_eq!(pos.crop_right, 720);
    assert_eq!(pos.crop_left, 0);
}

#[test]
fn test_fix_pos_video_out_of_box() {
    let width: i32 = 720;
    let mut pos = Position {
        xpos: 0,
        ypos: 216,
        width: 0,
        height: 288,
        crop_right: 720,
        crop_left: 0,
    };

    fix_pos(&mut pos, width, false);
    assert_eq!(pos.xpos, i64::from(width));
    assert_eq!(pos.ypos, 216);
    assert_eq!(pos.width, i64::from(width));
    assert_eq!(pos.height, 288);
    assert_eq!(pos.crop_right, 710); // width - 10
    assert_eq!(pos.crop_left, 0);
}
