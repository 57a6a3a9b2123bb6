use orbital::ui::components::{
    Alignment, ButtonState, UiButton, UiCheckbox, UiElement, UiEntity, UiFocus, UiTextBox,
};
use orbital::ui::hit_test::{hits_in_z_order, topmost_hit};
use orbital::ui::widgets::{delete_char, insert_char, toggle_checkbox, update_button_state};

#[test]
fn ui_element_default() {
    let elem = UiElement::default();
    assert!(elem.visible);
    assert_eq!(elem.z_index, 0);
}

#[test]
fn ui_button_state() {
    let btn = UiButton::new("Click me");
    assert_eq!(btn.label, "Click me");
    assert_eq!(btn.state, ButtonState::Normal);
}

#[test]
fn ui_checkbox_toggle() {
    let cb = UiCheckbox::new("Accept").checked(true);
    assert!(cb.checked);
    assert_eq!(cb.label, "Accept");
}

#[test]
fn button_state_update() {
    let mut button = UiButton::new("Test");

    update_button_state(&mut button, false, false);
    assert_eq!(button.state, ButtonState::Normal);

    update_button_state(&mut button, true, false);
    assert_eq!(button.state, ButtonState::Hovered);

    update_button_state(&mut button, true, true);
    assert_eq!(button.state, ButtonState::Pressed);
}

#[test]
fn toggle_checkbox_test() {
    let mut checkbox = UiCheckbox::new("Test");
    assert!(!checkbox.checked);

    toggle_checkbox(&mut checkbox);
    assert!(checkbox.checked);

    toggle_checkbox(&mut checkbox);
    assert!(!checkbox.checked);
}

#[test]
fn insert_char_test() {
    let mut textbox = UiTextBox::new();
    insert_char(&mut textbox, 'H');
    insert_char(&mut textbox, 'i');
    assert_eq!(textbox.value, "Hi");
    assert_eq!(textbox.cursor_pos, 2);
}

#[test]
fn delete_char_test() {
    let mut textbox = UiTextBox::new();
    insert_char(&mut textbox, 'H');
    insert_char(&mut textbox, 'i');
    delete_char(&mut textbox);
    assert_eq!(textbox.value, "H");
    assert_eq!(textbox.cursor_pos, 1);
}

#[test]
fn delete_char_empty() {
    let mut textbox = UiTextBox::new();
    delete_char(&mut textbox);
    assert_eq!(textbox.value, "");
    assert_eq!(textbox.cursor_pos, 0);
}

// --- Further cases -----------------------------------------------------------

#[test]
fn pressed_wins_over_hover() {
    let mut button = UiButton::new("Go");
    update_button_state(&mut button, false, true);
    assert_eq!(button.state, ButtonState::Pressed);
    assert_eq!(button.label, "Go");
}

#[test]
fn toggling_twice_restores_the_checkbox() {
    let mut checkbox = UiCheckbox::new("Terms").checked(true);
    toggle_checkbox(&mut checkbox);
    toggle_checkbox(&mut checkbox);
    assert!(checkbox.checked);
    assert_eq!(checkbox.label, "Terms");
}

#[test]
fn insert_at_cursor_in_the_middle() {
    let mut textbox = UiTextBox::new();
    insert_char(&mut textbox, 'a');
    insert_char(&mut textbox, 'c');
    textbox.cursor_pos = 1;
    insert_char(&mut textbox, 'b');
    assert_eq!(textbox.value, "abc");
    assert_eq!(textbox.cursor_pos, 2);
    delete_char(&mut textbox);
    assert_eq!(textbox.value, "ac");
    assert_eq!(textbox.cursor_pos, 1);
}

#[test]
fn insert_then_delete_restores_the_text() {
    let mut textbox = UiTextBox::new().with_placeholder("Type here");
    insert_char(&mut textbox, 'x');
    delete_char(&mut textbox);
    assert_eq!(textbox.value, "");
    assert_eq!(textbox.cursor_pos, 0);
    assert_eq!(textbox.placeholder, "Type here");
    assert!(!textbox.focused);
}

#[test]
fn constructors_and_defaults() {
    let e = UiElement::new("panel").with_z_index(7);
    assert_eq!(e.id, "panel");
    assert!(e.visible);
    assert_eq!(e.z_index, 7);
    assert_eq!(UiEntity::default(), UiEntity);
    assert_eq!(ButtonState::default(), ButtonState::Normal);
    assert!(!UiFocus::default().focused);
    assert_eq!(Alignment::default(), Alignment::Start);
    let cb = UiCheckbox::default();
    assert!(!cb.checked);
    assert_eq!(cb.label, "");
    let tb = UiTextBox::default();
    assert_eq!(tb.value, "");
    assert_eq!(tb.placeholder, "");
    assert_eq!(tb.cursor_pos, 0);
}

#[test]
fn topmost_hit_prefers_highest_z_then_first() {
    assert_eq!(topmost_hit(&[0, 10, 5], &[true, true, true]), Some(1));
    assert_eq!(topmost_hit(&[0, 10, 5], &[true, false, true]), Some(2));
    assert_eq!(topmost_hit(&[3, 3, 3], &[false, true, true]), Some(1));
    assert_eq!(topmost_hit(&[1, 2], &[false, false]), None);
    assert_eq!(topmost_hit(&[], &[]), None);
}

#[test]
fn hits_listed_topmost_first() {
    let z = [0, 10, 5, 10, -2];
    let hits = [true, true, false, true, true];
    let all = hits_in_z_order(&z, &hits);
    assert_eq!(all, vec![1, 3, 0, 4]);
    assert_eq!(topmost_hit(&z, &hits), Some(all[0]));
    assert!(hits_in_z_order(&z, &[false; 5]).is_empty());
}

#[test]
fn cursor_counts_characters() {
    let mut t = UiTextBox::new();
    insert_char(&mut t, 'é');
    assert_eq!(t.value, "é");
    assert_eq!(t.cursor_pos, 1);
    insert_char(&mut t, 'a');
    assert_eq!(t.value, "éa");
    assert_eq!(t.cursor_pos, 2);
    t.cursor_pos = 1;
    insert_char(&mut t, '€');
    assert_eq!(t.value, "é€a");
    delete_char(&mut t);
    assert_eq!(t.value, "éa");
    assert_eq!(t.cursor_pos, 1);
    delete_char(&mut t);
    assert_eq!(t.value, "a");
    assert_eq!(t.cursor_pos, 0);
}
