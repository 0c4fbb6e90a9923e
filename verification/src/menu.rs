//! The context menu: where it pops up, and the themes of window and menu.

use vstd::prelude::*;
use crate::text::same_text;

verus! {

/// Where on the screen the context menu is to pop up.
#[derive(Clone, Copy, Debug, PartialEq, Eq, Structural)]
pub struct Position {
    pub x: i32,
    pub y: i32,
}

/// The theme of the window.
#[derive(Clone, Copy, Debug, PartialEq, Eq, Structural)]
pub enum WindowTheme {
    Dark,
    Light,
}

/// The theme of the context menu.
#[derive(Clone, Copy, Debug, PartialEq, Eq, Structural)]
pub enum MenuTheme {
    Dark,
    Light,
    System,
}

/// The themes that a name asks for: `dark` and `light` ask for their own in
/// window and menu; any other name asks for a light window and the menu of
/// the system.
pub open spec fn themes_named(name: Seq<char>) -> (WindowTheme, MenuTheme) {
    if name == "dark"@ {
        (WindowTheme::Dark, MenuTheme::Dark)
    } else if name == "light"@ {
        (WindowTheme::Light, MenuTheme::Light)
    } else {
        (WindowTheme::Light, MenuTheme::System)
    }
}

/// The themes to set in window and menu for the name that the window sends.
pub fn change_theme(payload: &str) -> (themes: (WindowTheme, MenuTheme))
    ensures
        themes == themes_named(payload@),
{
    if same_text(payload, "dark") {
        (WindowTheme::Dark, MenuTheme::Dark)
    } else if same_text(payload, "light") {
        (WindowTheme::Light, MenuTheme::Light)
    } else {
        (WindowTheme::Light, MenuTheme::System)
    }
}

} // verus!
