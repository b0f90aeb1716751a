use diplopod::control::{immunity_phase, ImmunityPhase};
use diplopod::menu::MenuButton;
use diplopod::over_menu::OverMenuButton;
use diplopod::setting_menu::SettingMenuButton;

#[test]
fn main_menu_cycles_forward_and_backward() {
    assert_eq!(MenuButton::default(), MenuButton::Play);
    assert_eq!(MenuButton::Play.next(), MenuButton::Highscore);
    assert_eq!(MenuButton::Highscore.next(), MenuButton::Quit);
    assert_eq!(MenuButton::Quit.next(), MenuButton::Play);
    assert_eq!(MenuButton::Play.previous(), MenuButton::Quit);
    assert_eq!(MenuButton::Quit.previous(), MenuButton::Highscore);
    assert_eq!(MenuButton::Highscore.previous(), MenuButton::Play);
}

#[test]
fn over_menu_cycles_forward_and_backward() {
    assert_eq!(OverMenuButton::default(), OverMenuButton::Resume);
    assert_eq!(OverMenuButton::Resume.next(), OverMenuButton::Highscore);
    assert_eq!(OverMenuButton::Highscore.next(), OverMenuButton::Back);
    assert_eq!(OverMenuButton::Back.next(), OverMenuButton::Resume);
    assert_eq!(OverMenuButton::Resume.previous(), OverMenuButton::Back);
    assert_eq!(OverMenuButton::Back.previous(), OverMenuButton::Highscore);
    assert_eq!(OverMenuButton::Highscore.previous(), OverMenuButton::Resume);
}

#[test]
fn setting_menu_cycles_forward_and_backward() {
    assert_eq!(SettingMenuButton::default(), SettingMenuButton::Level0);
    assert_eq!(SettingMenuButton::Level0.next(), SettingMenuButton::Level1);
    assert_eq!(SettingMenuButton::Level1.next(), SettingMenuButton::Level2);
    assert_eq!(SettingMenuButton::Level2.next(), SettingMenuButton::Level0);
    assert_eq!(SettingMenuButton::Level0.previous(), SettingMenuButton::Level2);
    assert_eq!(SettingMenuButton::Level2.previous(), SettingMenuButton::Level1);
    assert_eq!(SettingMenuButton::Level1.previous(), SettingMenuButton::Level0);
}

#[test]
fn immunity_phase_follows_the_countdown() {
    assert_eq!(immunity_phase(0), ImmunityPhase::Over);
    assert_eq!(immunity_phase(1), ImmunityPhase::Expiring);
    assert_eq!(immunity_phase(2), ImmunityPhase::Expiring);
    assert_eq!(immunity_phase(3), ImmunityPhase::Lasting);
    assert_eq!(immunity_phase(1000), ImmunityPhase::Lasting);
}
