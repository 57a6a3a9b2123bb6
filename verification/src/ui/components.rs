use vstd::prelude::*;

verus! {

/// Marker component for UI entities.
#[derive(Debug, Clone, Copy, PartialEq, Eq)]
pub struct UiEntity;

impl Default for UiEntity {
    fn default() -> (res: Self)
        ensures
            res == UiEntity,
    {
        UiEntity
    }
}

/// Base component for all UI elements.
#[derive(Debug, Clone)]
pub struct UiElement {
    /// Unique identifier for this UI element.
    pub id: String,
    /// Whether this element is visible.
    pub visible: bool,
    /// Z-index for rendering order (higher is rendered on top).
    pub z_index: i32,
}

impl Default for UiElement {
    fn default() -> (res: Self)
        ensures
            res.id@ == Seq::<char>::empty(),
            res.visible,
            res.z_index == 0,
    {
        UiElement { id: String::new(), visible: true, z_index: 0 }
    }
}

impl UiElement {
    /// A visible element with the given identifier at z-index 0.
    pub fn new(id: &str) -> (res: Self)
        ensures
            res.id@ == id@,
            res.visible,
            res.z_index == 0,
    {
        UiElement { id: id.to_owned(), visible: true, z_index: 0 }
    }

    /// The same element with the given z-index.
    pub fn with_z_index(self, z_index: i32) -> (res: Self)
        ensures
            res.id@ == self.id@,
            res.visible == self.visible,
            res.z_index == z_index,
    {
        let mut e = self;
        e.z_index = z_index;
        e
    }
}

/// State of a button.
#[derive(Debug, Clone, Copy, PartialEq, Eq, Structural)]
pub enum ButtonState {
    /// Normal state.
    Normal,
    /// Button is being hovered.
    Hovered,
    /// Button is being pressed.
    Pressed,
}

impl Default for ButtonState {
    fn default() -> (res: Self)
        ensures
            res == ButtonState::Normal,
    {
        ButtonState::Normal
    }
}

/// Button widget component.
#[derive(Debug, Clone)]
pub struct UiButton {
    /// Button label text.
    pub label: String,
    /// Current button state.
    pub state: ButtonState,
}

impl UiButton {
    /// A button with the given label in the normal state.
    pub fn new(label: &str) -> (res: Self)
        ensures
            res.label@ == label@,
            res.state == ButtonState::Normal,
    {
        UiButton { label: label.to_owned(), state: ButtonState::Normal }
    }
}

/// TextBox widget component for text input.
#[derive(Debug, Clone)]
pub struct UiTextBox {
    /// Current text value.
    pub value: String,
    /// Placeholder text shown when empty.
    pub placeholder: String,
    /// Cursor position, in characters.
    pub cursor_pos: usize,
    /// Whether this text box has focus.
    pub focused: bool,
}

impl Default for UiTextBox {
    fn default() -> (res: Self)
        ensures
            res.value@ == Seq::<char>::empty(),
            res.placeholder@ == Seq::<char>::empty(),
            res.cursor_pos == 0,
            !res.focused,
    {
        UiTextBox { value: String::new(), placeholder: String::new(), cursor_pos: 0, focused: false }
    }
}

impl UiTextBox {
    /// An empty, unfocused text box with the cursor at the start.
    pub fn new() -> (res: Self)
        ensures
            res.value@ == Seq::<char>::empty(),
            res.placeholder@ == Seq::<char>::empty(),
            res.cursor_pos == 0,
            !res.focused,
    {
        Self::default()
    }

    /// The same text box with the given placeholder.
    pub fn with_placeholder(self, placeholder: &str) -> (res: Self)
        ensures
            res.value@ == self.value@,
            res.placeholder@ == placeholder@,
            res.cursor_pos == self.cursor_pos,
            res.focused == self.focused,
    {
        let mut t = self;
        t.placeholder = placeholder.to_owned();
        t
    }
}

/// Checkbox widget component.
#[derive(Debug, Clone)]
pub struct UiCheckbox {
    /// Whether the checkbox is checked.
    pub checked: bool,
    /// Checkbox label.
    pub label: String,
}

impl Default for UiCheckbox {
    fn default() -> (res: Self)
        ensures
            !res.checked,
            res.label@ == Seq::<char>::empty(),
    {
        UiCheckbox { checked: false, label: String::new() }
    }
}

impl UiCheckbox {
    /// An unchecked checkbox with the given label.
    pub fn new(label: &str) -> (res: Self)
        ensures
            !res.checked,
            res.label@ == label@,
    {
        UiCheckbox { checked: false, label: label.to_owned() }
    }

    /// The same checkbox with the given checked state.
    pub fn checked(self, checked: bool) -> (res: Self)
        ensures
            res.checked == checked,
            res.label@ == self.label@,
    {
        let mut c = self;
        c.checked = checked;
        c
    }
}

/// Focus state component for interactive elements.
#[derive(Debug, Clone, Copy, PartialEq, Eq, Structural)]
pub struct UiFocus {
    /// Whether this element currently has focus.
    pub focused: bool,
}

impl Default for UiFocus {
    fn default() -> (res: Self)
        ensures
            !res.focused,
    {
        UiFocus { focused: false }
    }
}

/// Alignment within a layout container.
#[derive(Debug, Clone, Copy, PartialEq, Eq, Structural)]
pub enum Alignment {
    /// Align to the start (left for horizontal, top for vertical).
    Start,
    /// Align to the center.
    Center,
    /// Align to the end (right for horizontal, bottom for vertical).
    End,
}

impl Default for Alignment {
    fn default() -> (res: Self)
        ensures
            res == Alignment::Start,
    {
        Alignment::Start
    }
}

} // verus!
