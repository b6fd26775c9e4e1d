use iago::intake::{file_picture, ingest, is_png, put_on_clipboard, Settle, Settling, SETTLE_POLLS};
use iago::source_app::screenshot_source;

#[test]
fn the_half_written_temp_file_macos_renames_into_place_is_not_a_picture_yet() {
    assert!(is_png("/tmp/Screenshot 2026-08-06.png"));
    assert!(is_png("/tmp/SHOT.PNG"));
    assert!(!is_png("/tmp/.screencapture-abc123.png"));
    assert!(!is_png("/tmp/notes.txt"));
}

#[test]
fn a_path_without_a_file_name_is_not_a_picture() {
    assert!(!is_png("/"));
    assert!(!is_png("/tmp/.."));
    assert!(!is_png(".png"));
    assert!(is_png("a.pNg"));
}

#[test]
fn a_file_is_read_once_its_size_holds_still() {
    let mut s = Settle::new();
    assert_eq!(s.observe(Some(0)), Settling::Wait);
    assert_eq!(s.observe(Some(100)), Settling::Wait);
    assert_eq!(s.observe(Some(250)), Settling::Wait);
    assert_eq!(s.observe(Some(250)), Settling::Read);
}

#[test]
fn an_empty_file_is_never_read() {
    let mut s = Settle::new();
    assert_eq!(s.observe(Some(0)), Settling::Wait);
    assert_eq!(s.observe(Some(0)), Settling::Wait);
}

#[test]
fn a_file_that_vanishes_is_given_up() {
    let mut s = Settle::new();
    assert_eq!(s.observe(Some(10)), Settling::Wait);
    assert_eq!(s.observe(None), Settling::Gone);
}

#[test]
fn a_file_that_keeps_growing_is_given_up_after_the_last_poll() {
    let mut s = Settle::new();
    for i in 1..SETTLE_POLLS {
        assert_eq!(s.observe(Some(i as u64)), Settling::Wait);
    }
    assert_eq!(s.observe(Some(SETTLE_POLLS as u64)), Settling::NeverSettled);
    assert_eq!(s.observe(Some(SETTLE_POLLS as u64)), Settling::NeverSettled);
}

fn tiny_png() -> Vec<u8> {
    let img = image::RgbImage::from_pixel(3, 2, image::Rgb([200, 0, 0]));
    let mut out = std::io::Cursor::new(Vec::new());
    image::DynamicImage::ImageRgb8(img).write_to(&mut out, image::ImageFormat::Png).unwrap();
    out.into_inner()
}

#[test]
fn a_picture_is_filed_with_its_size() {
    let png = tiny_png();
    let picture = ingest(png.clone()).expect("a PNG is a picture");
    assert_eq!((picture.width, picture.height), (3, 2));
    assert_eq!(picture.png, png);
}

#[test]
fn bytes_that_are_not_a_picture_file_nothing() {
    assert!(ingest(b"not a picture".to_vec()).is_none());
}

#[test]
fn our_own_clipboard_write_is_flagged_and_a_failed_one_is_not() {
    let picture = ingest(tiny_png()).unwrap();
    let mut skip = false;
    let seen_raised = std::cell::Cell::new(false);
    assert!(put_on_clipboard(&picture, &mut skip, |p| {
        assert_eq!((p.width, p.height), (3, 2));
        Ok(())
    })
    .is_ok());
    assert!(skip, "the watcher must skip our own write");

    let mut skip = false;
    let err = put_on_clipboard(&picture, &mut skip, |_| {
        seen_raised.set(true);
        Err("pasteboard refused".to_string())
    });
    assert_eq!(err, Err("pasteboard refused".to_string()));
    assert!(seen_raised.get());
    assert!(!skip, "nothing of ours is coming, so nothing is skipped");
}

#[test]
fn a_capture_goes_to_the_clipboard_before_the_history() {
    let png = tiny_png();
    let order = std::cell::RefCell::new(Vec::new());
    let mut skip = false;
    let added = file_picture(
        png.clone(),
        screenshot_source(),
        &mut skip,
        |p| {
            order.borrow_mut().push(format!("clipboard {}x{}", p.width, p.height));
            Ok(())
        },
        |p, app| {
            order.borrow_mut().push(format!("history {} {}", app.name, p.png == png));
            true
        },
    );
    assert!(added);
    assert!(skip);
    assert_eq!(order.into_inner(), vec!["clipboard 3x2".to_string(), "history Screenshot true".to_string()]);
}

#[test]
fn a_failed_clipboard_write_still_files_the_picture() {
    let mut skip = false;
    let added = file_picture(tiny_png(), screenshot_source(), &mut skip, |_| Err("busy".to_string()), |_, _| false);
    assert!(!added, "the history says whether it changed");
    assert!(!skip);
}

#[test]
fn bytes_that_are_not_a_picture_touch_neither_clipboard_nor_history() {
    let mut skip = true;
    let added = file_picture(
        b"not a picture".to_vec(),
        screenshot_source(),
        &mut skip,
        |_| -> Result<(), String> { panic!("no clipboard write") },
        |_, _| -> bool { panic!("no history") },
    );
    assert!(!added);
    assert!(skip, "the flag is left as it was");
}
