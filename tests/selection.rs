use snipaste::frame::{CaptureError, Frame, Rgba};
use snipaste::geometry::{shadow_rects, Point, Rect};
use snipaste::screenshot_app::{
    Action, InputEvent, Selection, MAGNIFIER_HEIGHT, MAGNIFIER_WIDTH, SHADOW_ALPHA,
};
use snipaste::{MainApp, ScreenshotApp};

fn pattern(x: u32, y: u32) -> Rgba {
    Rgba { r: (x % 256) as u8, g: (y % 256) as u8, b: ((x / 256) + 8 * (y / 256)) as u8, a: 255 }
}

fn pattern_bytes(width: u32, height: u32) -> Vec<u8> {
    let mut bytes = Vec::with_capacity((width * height * 4) as usize);
    for y in 0..height {
        for x in 0..width {
            let p = pattern(x, y);
            bytes.push(p.r);
            bytes.push(p.g);
            bytes.push(p.b);
            bytes.push(p.a);
        }
    }
    bytes
}

fn session(width: u32, height: u32) -> ScreenshotApp {
    ScreenshotApp::from_capture(width, height, &pattern_bytes(width, height)).unwrap()
}

fn drag(app: &mut ScreenshotApp, a: Point, b: Point) {
    app.on_pointer_move(a);
    app.on_primary_press();
    app.on_pointer_move(b);
    app.on_primary_release();
}

fn transparent() -> Rgba {
    Rgba { r: 255, g: 255, b: 255, a: 0 }
}

#[test]
fn full_hd_drag_gives_normalized_rect_and_crop() {
    let mut app = session(1920, 1080);
    drag(&mut app, Point::new(100, 100), Point::new(300, 50));
    let rect = app.committed_rect().unwrap();
    assert_eq!(rect.min, Point::new(100, 50));
    assert_eq!(rect.max, Point::new(300, 100));
    let crop = app.crop_selection().unwrap();
    assert_eq!((crop.width, crop.height), (200, 50));
    assert_eq!(crop.get_pixel(0, 0), pattern(100, 50));
    assert_eq!(crop.get_pixel(199, 49), pattern(299, 99));
}

#[test]
fn magnifier_at_origin_is_transparent_left_and_top() {
    let mut app = session(1920, 1080);
    app.on_pointer_move(Point::new(0, 0));
    let m = app.magnifier();
    assert_eq!((m.width, m.height), (200, 100));
    for j in 0..100 {
        for i in 0..200 {
            let p = m.get_pixel(i, j);
            if i < 100 || j < 50 {
                assert_eq!(p, transparent());
            } else {
                assert_eq!(p, pattern(i - 100, j - 50));
            }
        }
    }
}

#[test]
fn magnifier_near_far_edges() {
    let mut app = session(300, 120);
    app.on_pointer_move(Point::new(280, 110));
    let m = app.magnifier();
    for j in 0..MAGNIFIER_HEIGHT {
        for i in 0..MAGNIFIER_WIDTH {
            let sx = 280 + i as i64 - 100;
            let sy = 110 + j as i64 - 50;
            let p = m.get_pixel(i, j);
            if sx >= 300 || sy >= 120 {
                assert_eq!(p, transparent());
            } else {
                assert_eq!(p, pattern(sx as u32, sy as u32));
            }
        }
    }
}

#[test]
fn drag_direction_does_not_matter() {
    let a = Point::new(40, 7);
    let b = Point::new(12, 30);
    let mut first = session(64, 48);
    drag(&mut first, a, b);
    let mut second = session(64, 48);
    drag(&mut second, b, a);
    let r = first.committed_rect().unwrap();
    assert_eq!(r, second.committed_rect().unwrap());
    assert_eq!(r, Rect { min: Point::new(12, 7), max: Point::new(40, 30) });
}

#[test]
fn live_selection_follows_pointer_until_release() {
    let mut app = session(64, 48);
    assert_eq!(app.selection_rect(), None);
    app.on_pointer_move(Point::new(10, 10));
    app.on_primary_press();
    app.on_pointer_move(Point::new(4, 20));
    assert_eq!(app.committed_rect(), None);
    assert_eq!(app.selection_rect().unwrap(), Rect { min: Point::new(4, 10), max: Point::new(10, 20) });
    app.on_primary_release();
    app.on_pointer_move(Point::new(60, 40));
    assert_eq!(app.selection_rect().unwrap(), Rect { min: Point::new(4, 10), max: Point::new(10, 20) });
}

#[test]
fn cancel_from_anchored_and_released_clears() {
    let mut app = session(64, 48);
    app.on_pointer_move(Point::new(5, 5));
    app.on_primary_press();
    assert!(!app.on_cancel());
    assert_eq!(app.selection, Selection::Idle);

    drag(&mut app, Point::new(5, 5), Point::new(9, 9));
    assert!(matches!(app.selection, Selection::Released { .. }));
    assert!(!app.on_cancel());
    assert_eq!(app.selection, Selection::Idle);
    assert_eq!(app.crop_selection().map(|f| f.width), None);

    assert!(app.on_cancel());
}

#[test]
fn save_without_selection_is_a_no_op() {
    let mut app = session(64, 48);
    app.on_commit_save(true);
    assert_eq!(app.selection, Selection::Idle);
    assert!(matches!(app.handle(InputEvent::SaveShortcut), Action::Nothing));
    assert!(matches!(app.handle(InputEvent::SaveFinished(true)), Action::Nothing));
    assert_eq!(app.selection, Selection::Idle);

    app.on_pointer_move(Point::new(3, 3));
    app.on_primary_press();
    app.on_commit_save(true);
    assert_eq!(app.selection, Selection::Anchored { anchor: Point::new(3, 3) });
}

#[test]
fn repeated_press_keeps_anchor() {
    let mut app = session(64, 48);
    app.on_pointer_move(Point::new(8, 9));
    app.on_primary_press();
    app.on_pointer_move(Point::new(30, 31));
    app.on_primary_press();
    app.on_primary_press();
    assert_eq!(app.selection, Selection::Anchored { anchor: Point::new(8, 9) });
}

#[test]
fn release_without_anchor_is_ignored() {
    let mut app = session(64, 48);
    app.on_pointer_move(Point::new(8, 9));
    app.on_primary_release();
    assert_eq!(app.selection, Selection::Idle);
}

#[test]
fn save_cancelled_keeps_selection_and_written_clears_it() {
    let mut app = session(64, 48);
    drag(&mut app, Point::new(2, 3), Point::new(6, 8));
    let before = app.selection;
    app.on_commit_save(false);
    assert_eq!(app.selection, before);
    app.on_commit_save(true);
    assert_eq!(app.selection, Selection::Idle);
}

#[test]
fn copy_hands_out_rgba_and_keeps_selection() {
    let mut app = session(64, 48);
    drag(&mut app, Point::new(10, 20), Point::new(12, 21));
    let c = app.on_commit_copy().unwrap();
    assert_eq!((c.width, c.height), (2, 1));
    let p0 = pattern(10, 20);
    let p1 = pattern(11, 20);
    assert_eq!(c.bytes, vec![p0.r, p0.g, p0.b, p0.a, p1.r, p1.g, p1.b, p1.a]);
    assert!(matches!(app.selection, Selection::Released { .. }));
}

#[test]
fn copy_without_selection_gives_nothing() {
    let mut app = session(64, 48);
    assert!(app.on_commit_copy().is_none());
    assert!(matches!(app.handle(InputEvent::CopyShortcut), Action::Nothing));
}

#[test]
fn events_drive_the_session() {
    let mut app = session(64, 48);
    assert!(matches!(app.handle(InputEvent::PointerMove(Point::new(30, 20))), Action::Nothing));
    assert!(matches!(app.handle(InputEvent::PrimaryPress), Action::Nothing));
    assert!(matches!(app.handle(InputEvent::PointerMove(Point::new(20, 25))), Action::Nothing));
    assert!(matches!(app.handle(InputEvent::PrimaryRelease), Action::Nothing));
    match app.handle(InputEvent::SaveShortcut) {
        Action::Save(f) => {
            assert_eq!((f.width, f.height), (10, 5));
            assert_eq!(f.get_pixel(0, 0), pattern(20, 20));
        }
        _ => panic!("expected a save request"),
    }
    match app.handle(InputEvent::CopyShortcut) {
        Action::Copy(c) => assert_eq!(c.bytes.len(), 10 * 5 * 4),
        _ => panic!("expected a copy request"),
    }
    assert!(matches!(app.handle(InputEvent::SaveFinished(false)), Action::Nothing));
    assert!(matches!(app.selection, Selection::Released { .. }));
    assert!(matches!(app.handle(InputEvent::Cancel), Action::Nothing));
    assert_eq!(app.selection, Selection::Idle);
    assert!(matches!(app.handle(InputEvent::Cancel), Action::Close));
}

#[test]
fn shadow_tiles_partition_the_screen() {
    let screen = Rect { min: Point::new(0, 0), max: Point::new(20, 10) };
    let sel = Rect { min: Point::new(3, 2), max: Point::new(8, 6) };
    let tiles = shadow_rects(screen, sel);
    assert_eq!(tiles.len(), 4);
    assert_eq!(tiles[0], Rect { min: Point::new(0, 0), max: Point::new(3, 6) });
    assert_eq!(tiles[1], Rect { min: Point::new(3, 0), max: Point::new(20, 2) });
    assert_eq!(tiles[2], Rect { min: Point::new(0, 6), max: Point::new(8, 10) });
    assert_eq!(tiles[3], Rect { min: Point::new(8, 2), max: Point::new(20, 10) });
    let inside = |r: &Rect, x: u32, y: u32| r.min.x <= x && x < r.max.x && r.min.y <= y && y < r.max.y;
    for y in 0..10 {
        for x in 0..20 {
            let n = tiles.iter().filter(|t| inside(t, x, y)).count();
            let expected = if inside(&sel, x, y) { 0 } else { 1 };
            assert_eq!(n, expected, "pixel ({x}, {y})");
        }
    }
}

#[test]
fn shadow_only_once_anchored() {
    let mut app = session(64, 48);
    let screen = Rect { min: Point::new(0, 0), max: Point::new(64, 48) };
    assert!(app.shadow(screen).is_none());
    app.on_pointer_move(Point::new(10, 10));
    app.on_primary_press();
    app.on_pointer_move(Point::new(20, 15));
    let tiles = app.shadow(screen).unwrap();
    assert_eq!(tiles[0], Rect { min: Point::new(0, 0), max: Point::new(10, 15) });
    assert_eq!(tiles[3], Rect { min: Point::new(20, 10), max: Point::new(64, 48) });
    assert_eq!(SHADOW_ALPHA, 170);
}

#[test]
fn shadow_orders_corners_of_a_selection_off_screen() {
    let screen = Rect { min: Point::new(0, 0), max: Point::new(20, 10) };
    let sel = Rect { min: Point::new(25, 2), max: Point::new(30, 12) };
    let tiles = shadow_rects(screen, sel);
    assert_eq!(tiles[1], Rect { min: Point::new(20, 0), max: Point::new(25, 2) });
    assert_eq!(tiles[3], Rect { min: Point::new(20, 2), max: Point::new(30, 10) });
}

#[test]
fn capture_with_wrong_length_is_unavailable() {
    let r = ScreenshotApp::from_capture(4, 4, &vec![0u8; 63]);
    assert_eq!(r.err(), Some(CaptureError::CaptureUnavailable));
    let r = Frame::from_rgba(u32::MAX, u32::MAX, &vec![0u8; 4]);
    assert_eq!(r.err(), Some(CaptureError::CaptureUnavailable));
}

#[test]
fn empty_capture_is_accepted() {
    let f = Frame::from_rgba(0, 5, &Vec::new()).unwrap();
    assert_eq!((f.width, f.height), (0, 5));
    assert!(f.to_rgba().is_empty());
}

#[test]
fn rgba_round_trip() {
    let bytes = pattern_bytes(7, 3);
    let f = Frame::from_rgba(7, 3, &bytes).unwrap();
    assert_eq!(f.get_pixel(6, 2), pattern(6, 2));
    assert_eq!(f.to_rgba(), bytes);
}

#[test]
fn crop_is_clamped_to_the_frame() {
    let f = Frame::from_rgba(10, 8, &pattern_bytes(10, 8)).unwrap();
    let c = f.crop(7, 6, 10, 10);
    assert_eq!((c.width, c.height), (3, 2));
    assert_eq!(c.get_pixel(2, 1), pattern(9, 7));
    let c = f.crop(12, 3, 4, 4);
    assert_eq!((c.width, c.height), (0, 4));
}

#[test]
fn selection_past_frame_edge_crops_what_is_there() {
    let mut app = session(10, 8);
    drag(&mut app, Point::new(6, 5), Point::new(40, 30));
    let c = app.crop_selection().unwrap();
    assert_eq!((c.width, c.height), (4, 3));
    assert_eq!(c.get_pixel(0, 0), pattern(6, 5));
}

#[test]
fn cursor_color_on_and_off_frame() {
    let mut app = session(10, 8);
    app.on_pointer_move(Point::new(9, 7));
    assert_eq!(app.cursor_color(), pattern(9, 7));
    assert_eq!(app.cursor_pos(), Point::new(9, 7));
    app.on_pointer_move(Point::new(10, 3));
    assert_eq!(app.cursor_color(), transparent());
}

#[test]
fn sample_outside_is_transparent() {
    let f = Frame::from_rgba(3, 3, &pattern_bytes(3, 3)).unwrap();
    assert_eq!(f.sample_at(-1, 0), transparent());
    assert_eq!(f.sample_at(1, 3), transparent());
    assert_eq!(f.sample_at(2, 1), pattern(2, 1));
}

#[test]
fn rect_helpers() {
    let r = Rect::from_two_pos(Point::new(9, 2), Point::new(4, 6));
    assert_eq!(r.left_top(), Point::new(4, 2));
    assert_eq!((r.width(), r.height()), (5, 4));
    let unordered = Rect { min: Point::new(5, 5), max: Point::new(1, 1) };
    assert_eq!((unordered.width(), unordered.height()), (0, 0));
}

#[test]
fn main_app_default() {
    assert_eq!(MainApp::default(), MainApp {});
}
