use iago::popup::{Popup, PopupToggle};

#[test]
fn the_paste_goes_to_the_app_that_was_in_front_when_the_popup_opened() {
    let mut popup = Popup::new();
    assert_eq!(popup.pick(), None);
    assert_eq!(popup.toggle_popup(false, Some(501)), PopupToggle::Show);
    assert_eq!(popup.pick(), Some(501));
    assert_eq!(popup.close_popup(), Some(501));
    // The popup itself is in front now; closing it must not retarget.
    assert_eq!(popup.toggle_popup(true, Some(77)), PopupToggle::Hide(Some(501)));
    assert_eq!(popup.pick(), Some(501));
    assert_eq!(popup.toggle_popup(false, None), PopupToggle::Show);
    assert_eq!(popup.pick(), None);
}
