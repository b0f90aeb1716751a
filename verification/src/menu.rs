//! The main menu's selection model: which button is selected and how
//! the selection cycles.  Input polling and rendering stay outside.

use vstd::prelude::*;

verus! {

/// The buttons of the main menu, in display order.
#[derive(Clone, Copy, Debug, PartialEq, Eq, Structural)]
pub enum MenuButton {
    Play,
    Highscore,
    Quit,
}

impl MenuButton {
    /// The button above, wrapping from the first to the last.
    pub fn previous(&self) -> (r: MenuButton)
        ensures
            r == (match *self {
                MenuButton::Play => MenuButton::Quit,
                MenuButton::Highscore => MenuButton::Play,
                MenuButton::Quit => MenuButton::Highscore,
            }),
    {
        match *self {
            MenuButton::Play => MenuButton::Quit,
            MenuButton::Highscore => MenuButton::Play,
            MenuButton::Quit => MenuButton::Highscore,
        }
    }

    /// The button below, wrapping from the last to the first.
    pub fn next(&self) -> (r: MenuButton)
        ensures
            r == (match *self {
                MenuButton::Play => MenuButton::Highscore,
                MenuButton::Highscore => MenuButton::Quit,
                MenuButton::Quit => MenuButton::Play,
            }),
    {
        match *self {
            MenuButton::Play => MenuButton::Highscore,
            MenuButton::Highscore => MenuButton::Quit,
            MenuButton::Quit => MenuButton::Play,
        }
    }
}

impl Default for MenuButton {
    /// The menu opens with the topmost button selected.
    fn default() -> (r: MenuButton)
        ensures
            r == MenuButton::Play,
    {
        MenuButton::Play
    }
}

/// The currently selected main-menu button.
#[derive(Clone, Copy, Debug, PartialEq, Eq, Structural)]
pub struct Selected(pub MenuButton);

} // verus!
