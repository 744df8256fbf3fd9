use streamdeck_oxide::theme::{Color, Theme};
use streamdeck_oxide::view::ButtonState;

#[test]
fn color_keeps_its_channels() {
    let color = Color::from_rgba8(1, 2, 3, 4);
    assert_eq!((color.r, color.g, color.b, color.a), (1, 2, 3, 4));
}

#[test]
fn dark_theme_has_its_colors() {
    let theme = Theme::dark();
    assert_eq!(theme.background, Color::from_rgba8(20, 20, 25, 255));
    assert_eq!(theme.active_background, Color::from_rgba8(235, 51, 148, 255));
    assert_eq!(theme.inactive_background, Color::from_rgba8(41, 41, 51, 255));
    assert_eq!(theme.pressed_background, Color::from_rgba8(51, 217, 230, 255));
    assert_eq!(theme.error_background, Color::from_rgba8(255, 89, 0, 255));
    assert_eq!(theme.foreground_color, Color::from_rgba8(242, 242, 255, 255));
    assert_eq!(theme.active_foreground_color, Color::from_rgba8(255, 255, 255, 255));
}

#[test]
fn default_theme_is_the_dark_one() {
    assert_eq!(Theme::default(), Theme::dark());
}

#[test]
fn light_theme_has_its_colors() {
    let theme = Theme::light();
    assert_eq!(theme.background, Color::from_rgba8(240, 240, 245, 255));
    assert_eq!(theme.active_background, Color::from_rgba8(0, 122, 255, 255));
    assert_eq!(theme.inactive_background, Color::from_rgba8(200, 200, 210, 255));
    assert_eq!(theme.pressed_background, Color::from_rgba8(0, 180, 180, 255));
    assert_eq!(theme.error_background, Color::from_rgba8(255, 59, 48, 255));
    assert_eq!(theme.foreground_color, Color::from_rgba8(30, 30, 30, 255));
    assert_eq!(theme.active_foreground_color, Color::from_rgba8(255, 255, 255, 255));
}

fn numbered_theme() -> Theme {
    Theme::new(
        Color::from_rgba8(1, 1, 1, 255),
        Color::from_rgba8(2, 2, 2, 255),
        Color::from_rgba8(3, 3, 3, 255),
        Color::from_rgba8(4, 4, 4, 255),
        Color::from_rgba8(5, 5, 5, 255),
        Color::from_rgba8(6, 6, 6, 255),
        Color::from_rgba8(7, 7, 7, 255),
    )
}

#[test]
fn new_theme_keeps_each_color_in_its_place() {
    let theme = numbered_theme();
    assert_eq!(theme.background.r, 1);
    assert_eq!(theme.active_background.r, 2);
    assert_eq!(theme.inactive_background.r, 3);
    assert_eq!(theme.pressed_background.r, 4);
    assert_eq!(theme.error_background.r, 5);
    assert_eq!(theme.foreground_color.r, 6);
    assert_eq!(theme.active_foreground_color.r, 7);
}

#[test]
fn each_state_selects_its_background() {
    let theme = numbered_theme();
    assert_eq!(theme.background_for(ButtonState::Default).r, 1);
    assert_eq!(theme.background_for(ButtonState::Active).r, 2);
    assert_eq!(theme.background_for(ButtonState::Inactive).r, 3);
    assert_eq!(theme.background_for(ButtonState::Pressed).r, 4);
    assert_eq!(theme.background_for(ButtonState::Error).r, 5);
}

#[test]
fn active_and_pressed_select_the_highlighted_foreground() {
    let theme = numbered_theme();
    assert_eq!(theme.foreground_for(ButtonState::Default).r, 6);
    assert_eq!(theme.foreground_for(ButtonState::Inactive).r, 6);
    assert_eq!(theme.foreground_for(ButtonState::Error).r, 6);
    assert_eq!(theme.foreground_for(ButtonState::Active).r, 7);
    assert_eq!(theme.foreground_for(ButtonState::Pressed).r, 7);
}
