//! The pause-over menu's selection model.

use vstd::prelude::*;

verus! {

/// The buttons of the menu shown over a paused game, in display
/// order.
#[derive(Clone, Copy, Debug, PartialEq, Eq, Structural)]
pub enum OverMenuButton {
    Resume,
    Highscore,
    Back,
}

impl OverMenuButton {
    /// The button above, wrapping from the first to the last.
    pub fn previous(&self) -> (r: OverMenuButton)
        ensures
            r == (match *self {
                OverMenuButton::Resume => OverMenuButton::Back,
                OverMenuButton::Highscore => OverMenuButton::Resume,
                OverMenuButton::Back => OverMenuButton::Highscore,
            }),
    {
        match *self {
            OverMenuButton::Resume => OverMenuButton::Back,
            OverMenuButton::Highscore => OverMenuButton::Resume,
            OverMenuButton::Back => OverMenuButton::Highscore,
        }
    }

    /// The button below, wrapping from the last to the first.
    pub fn next(&self) -> (r: OverMenuButton)
        ensures
            r == (match *self {
                OverMenuButton::Resume => OverMenuButton::Highscore,
                OverMenuButton::Highscore => OverMenuButton::Back,
                OverMenuButton::Back => OverMenuButton::Resume,
            }),
    {
        match *self {
            OverMenuButton::Resume => OverMenuButton::Highscore,
            OverMenuButton::Highscore => OverMenuButton::Back,
            OverMenuButton::Back => OverMenuButton::Resume,
        }
    }
}

impl Default for OverMenuButton {
    /// The menu opens with the topmost button selected.
    fn default() -> (r: OverMenuButton)
        ensures
            r == OverMenuButton::Resume,
    {
        OverMenuButton::Resume
    }
}

/// The currently selected button of this menu.
#[derive(Clone, Copy, Debug, PartialEq, Eq, Structural)]
pub struct Selected(pub OverMenuButton);

} // verus!
