use openmedia::frames::{blend_slide, blend_wipe, Frame, Rgba, SlideDirection, WipeDirection};

fn solid(w: u32, h: u32, v: u8) -> Frame {
    let rows = (0..h).map(|_| (0..w).map(|_| Rgba { r: v, g: v, b: v, a: 255 }).collect()).collect();
    Frame { width: w, height: h, rows }
}

fn gradient(w: u32, h: u32) -> Frame {
    let rows = (0..h)
        .map(|y| (0..w).map(|x| Rgba { r: x as u8, g: y as u8, b: 0, a: 255 }).collect())
        .collect();
    Frame { width: w, height: h, rows }
}

fn reds(f: &Frame, y: usize) -> Vec<u8> {
    f.rows[y].iter().map(|p| p.r).collect()
}

#[test]
fn slide_left_moves_old_frame_out() {
    let from = gradient(4, 2);
    let to = solid(4, 2, 200);
    let out = blend_slide(&from, &to, SlideDirection::Left, 1);
    assert_eq!(reds(&out, 0), vec![1, 2, 3, 200]);
    assert_eq!(out.width, 4);
    assert_eq!(out.height, 2);
}

#[test]
fn slide_right_and_vertical() {
    let from = gradient(4, 3);
    let to = gradient(4, 3);
    let out = blend_slide(&from, &solid(4, 3, 9), SlideDirection::Right, 2);
    assert_eq!(reds(&out, 1), vec![9, 9, 0, 1]);
    let up = blend_slide(&from, &to, SlideDirection::Up, 1);
    assert_eq!(up.rows[0][0].g, 1);
    assert_eq!(up.rows[2][0].g, 0);
    let down = blend_slide(&from, &to, SlideDirection::Down, 1);
    assert_eq!(down.rows[0][0].g, 2);
    assert_eq!(down.rows[1][0].g, 0);
}

#[test]
fn slide_at_rest_and_full_slide() {
    let from = gradient(3, 2);
    let to = solid(3, 2, 7);
    for dir in [SlideDirection::Left, SlideDirection::Right, SlideDirection::Up, SlideDirection::Down] {
        assert_eq!(blend_slide(&from, &to, dir, 0).rows, from.rows);
    }
    assert_eq!(blend_slide(&from, &to, SlideDirection::Left, 3).rows, to.rows);
    assert_eq!(blend_slide(&from, &to, SlideDirection::Up, 2).rows, to.rows);
}

#[test]
fn wipes() {
    let from = gradient(4, 1);
    let to = solid(4, 1, 50);
    assert_eq!(reds(&blend_wipe(&from, &to, WipeDirection::Left, 3), 0), vec![0, 1, 2, 50]);
    assert_eq!(reds(&blend_wipe(&from, &to, WipeDirection::Right, 1), 0), vec![50, 1, 2, 3]);
    assert_eq!(blend_wipe(&from, &to, WipeDirection::Left, 4).rows, from.rows);
    assert_eq!(blend_wipe(&from, &to, WipeDirection::Right, 0).rows, from.rows);
    assert_eq!(blend_wipe(&from, &to, WipeDirection::Left, 0).rows, to.rows);
    assert_eq!(blend_wipe(&from, &to, WipeDirection::Right, 9).rows, to.rows);
}

#[test]
fn empty_frames_blend_to_empty_frames() {
    let from = solid(0, 0, 0);
    let to = solid(0, 0, 0);
    assert!(blend_slide(&from, &to, SlideDirection::Left, -5).rows.is_empty());
}
