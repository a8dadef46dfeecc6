use tracker::audio::{frame_count, write_data};

#[test]
fn frame_count_rounds_up() {
    assert_eq!(frame_count(8, 2), 4);
    assert_eq!(frame_count(9, 2), 5);
    assert_eq!(frame_count(0, 3), 0);
    assert_eq!(frame_count(7, 3), 3);
    assert_eq!(frame_count(5, 1), 5);
}

#[test]
fn stereo_frames_interleave() {
    let mut out = [0i32; 6];
    write_data(&mut out, 2, &[(1, -1), (2, -2), (3, -3)]);
    assert_eq!(out, [1, -1, 2, -2, 3, -3]);
}

#[test]
fn extra_channels_alternate_left_and_right() {
    let mut out = [0i32; 8];
    write_data(&mut out, 3, &[(1, -1), (2, -2), (3, -3)]);
    assert_eq!(out, [1, -1, 1, 2, -2, 2, 3, -3]);
}

#[test]
fn mono_takes_left() {
    let mut out = [0u16; 3];
    write_data(&mut out, 1, &[(7, 70), (8, 80), (9, 90)]);
    assert_eq!(out, [7, 8, 9]);
}
