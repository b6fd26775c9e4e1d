use iago::edit::{
    accept_save, copy_file_name, dir_in, is_edit_candidate, is_known, open, ours, remember,
    sweepable, Known, KEEP_SECS, KNOWN_MAX,
};

#[test]
fn the_copy_we_hand_the_editor_does_not_come_back_as_an_edit() {
    let mut known = Known::new();
    let original = b"the clip as it already is in the history";

    remember(&mut known, original);
    assert!(is_known(&known, original), "our own copy must be ignored");

    let saved = b"the clip with an arrow drawn on it";
    assert!(!is_known(&known, saved), "a real save must get through");

    // And once it is in, the burst of events that follows one save must not
    // file it a second time.
    remember(&mut known, saved);
    assert!(is_known(&known, saved));
}

#[test]
fn only_the_recent_pictures_stay_remembered() {
    let mut known = Known::new();
    let first = b"the oldest picture".to_vec();
    remember(&mut known, &first);
    for i in 0..KNOWN_MAX {
        remember(&mut known, format!("save {}", i).as_bytes());
    }
    assert!(!is_known(&known, &first), "the list must not grow for as long as the app runs");
    assert_eq!(known.len(), KNOWN_MAX);
}

#[test]
fn a_picture_stays_known_through_fifteen_later_saves() {
    let mut known = Known::new();
    remember(&mut known, b"the copy handed out");
    for i in 0..KNOWN_MAX - 1 {
        remember(&mut known, format!("save {}", i).as_bytes());
    }
    assert!(is_known(&known, b"the copy handed out"));
    assert_eq!(known.len(), KNOWN_MAX);
}

#[test]
fn remembering_twice_keeps_one_entry() {
    let mut known = Known::new();
    remember(&mut known, b"same");
    remember(&mut known, b"same");
    assert_eq!(known.len(), 1);
}

#[test]
fn open_remembers_the_copy_and_names_it_after_the_clip() {
    let mut known = Known::new();
    let png = b"picture bytes";
    let created = std::cell::RefCell::new(Vec::new());
    let copy = open(42, png, &mut known, Some("/Users/oleg/Downloads/Iago".to_string()), |d: &str| {
        created.borrow_mut().push(d.to_string());
        Ok(())
    })
    .unwrap();
    assert_eq!(created.into_inner(), vec!["/Users/oleg/Downloads/Iago".to_string()]);
    assert_eq!(copy.dir, "/Users/oleg/Downloads/Iago");
    assert_eq!(copy.path, "/Users/oleg/Downloads/Iago/iago-42.png");
    // The copy is already known, so the watcher refuses it.
    assert!(!accept_save(&mut known, png));
}

#[test]
fn open_without_a_downloads_folder_is_an_error_and_remembers_nothing() {
    let mut known = Known::new();
    let err = open(7, b"picture", &mut known, None, |_: &str| -> Result<(), String> {
        panic!("no folder to create")
    })
    .unwrap_err();
    assert_eq!(err, "no Downloads folder to put the picture in");
    assert_eq!(known.len(), 0);
}

#[test]
fn a_folder_that_cannot_be_created_is_an_error_and_remembers_nothing() {
    let mut known = Known::new();
    let err = open(7, b"picture", &mut known, Some("/ro/Iago".to_string()), |_: &str| {
        Err("Permission denied (os error 13)".to_string())
    })
    .unwrap_err();
    assert_eq!(err, "cannot create /ro/Iago: Permission denied (os error 13)");
    assert_eq!(known.len(), 0);
}

#[test]
fn a_save_is_filed_once_however_many_events_it_arrives_as() {
    let mut known = Known::new();
    assert!(accept_save(&mut known, b"the edit"));
    assert!(!accept_save(&mut known, b"the edit"));
    assert!(accept_save(&mut known, b"the next edit"));
}

#[test]
fn copy_names_carry_the_clip_id() {
    assert_eq!(copy_file_name(0), "iago-0.png");
    assert_eq!(copy_file_name(1234567890), "iago-1234567890.png");
    assert_eq!(copy_file_name(u64::MAX), "iago-18446744073709551615.png");
}

#[test]
fn the_edit_folder_lives_inside_downloads() {
    assert_eq!(dir_in(Some("/Users/oleg/Downloads".to_string())), Some("/Users/oleg/Downloads/Iago".to_string()));
    assert_eq!(dir_in(None), None);
}

#[test]
fn only_our_copies_are_ours() {
    assert!(ours("/Users/oleg/Downloads/Iago/iago-42.png"));
    assert!(ours("/x/iago-42.PNG"));
    assert!(!ours("/x/holiday.png"));
    assert!(!ours("/x/iago-42.txt"));
    assert!(!ours("/x/Iago-42.png"));
    assert!(!ours("/"));
}

#[test]
fn a_picture_the_user_put_in_the_folder_is_not_an_edit() {
    assert!(is_edit_candidate("/x/iago-42.png"));
    assert!(!is_edit_candidate("/x/holiday.png"));
}

#[test]
fn the_sweep_touches_only_our_copies_older_than_a_day() {
    let ours_path = "/x/iago-3.png";
    assert!(sweepable(ours_path, Some(KEEP_SECS + 1)));
    assert!(!sweepable(ours_path, Some(KEEP_SECS)));
    assert!(!sweepable(ours_path, None), "a file whose age cannot be read is left alone");
    assert!(!sweepable("/x/holiday.png", Some(KEEP_SECS * 10)));
}
