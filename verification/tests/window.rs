use json_buttons::window::{
    APPLICATION_ID, BORDER_WIDTH, BUTTON_SPACING, WINDOW_HEIGHT, WINDOW_TITLE, WINDOW_WIDTH,
};

#[test]
fn window_is_titled_and_sized() {
    assert_eq!(WINDOW_TITLE, "JSON Button Display");
    assert_eq!((WINDOW_WIDTH, WINDOW_HEIGHT), (350, 70));
    assert_eq!(BORDER_WIDTH, 10);
    assert_eq!(BUTTON_SPACING, 5);
    assert_eq!(APPLICATION_ID, "com.github.gtk-rs.examples.json_buttons");
}
