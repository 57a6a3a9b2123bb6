//! UI component state: elements, buttons, text boxes and checkboxes, and the
//! state changes that user input drives.

pub mod components;
pub mod hit_test;
pub mod widgets;
