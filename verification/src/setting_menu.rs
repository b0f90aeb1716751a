//! The settings menu's selection model: the three game-speed levels.

use vstd::prelude::*;

verus! {

/// The speed-level buttons of the settings menu, in display order.
#[derive(Clone, Copy, Debug, PartialEq, Eq, Structural)]
pub enum SettingMenuButton {
    Level0,
    Level1,
    Level2,
}

impl SettingMenuButton {
    /// The button above, wrapping from the first to the last.
    pub fn previous(&self) -> (r: SettingMenuButton)
        ensures
            r == (match *self {
                SettingMenuButton::Level0 => SettingMenuButton::Level2,
                SettingMenuButton::Level1 => SettingMenuButton::Level0,
                SettingMenuButton::Level2 => SettingMenuButton::Level1,
            }),
    {
        match *self {
            SettingMenuButton::Level0 => SettingMenuButton::Level2,
            SettingMenuButton::Level1 => SettingMenuButton::Level0,
            SettingMenuButton::Level2 => SettingMenuButton::Level1,
        }
    }

    /// The button below, wrapping from the last to the first.
    pub fn next(&self) -> (r: SettingMenuButton)
        ensures
            r == (match *self {
                SettingMenuButton::Level0 => SettingMenuButton::Level1,
                SettingMenuButton::Level1 => SettingMenuButton::Level2,
                SettingMenuButton::Level2 => SettingMenuButton::Level0,
            }),
    {
        match *self {
            SettingMenuButton::Level0 => SettingMenuButton::Level1,
            SettingMenuButton::Level1 => SettingMenuButton::Level2,
            SettingMenuButton::Level2 => SettingMenuButton::Level0,
        }
    }
}

impl Default for SettingMenuButton {
    /// The menu opens with the topmost button selected.
    fn default() -> (r: SettingMenuButton)
        ensures
            r == SettingMenuButton::Level0,
    {
        SettingMenuButton::Level0
    }
}

/// The currently selected button of this menu.
#[derive(Clone, Copy, Debug, PartialEq, Eq, Structural)]
pub struct Selected(pub SettingMenuButton);

} // verus!
