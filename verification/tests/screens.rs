use streamdeck_oxide::error::Error;
use streamdeck_oxide::navigation::NavigationEntry;
use streamdeck_oxide::run::{run, DeviceStateUpdate, Event, Operation};
use streamdeck_oxide::theme::Theme;
use streamdeck_oxide::view::customizable::{
    ClickButton, ClickRoute, CustomButton, CustomizableView, ToggleButton,
};
use streamdeck_oxide::view::{Button, ButtonState, DeviceCommand, DisplayManager};

#[derive(Clone, Debug, PartialEq)]
enum Navigation {
    Main,
    Settings,
}

impl Default for Navigation {
    fn default() -> Self {
        Navigation::Main
    }
}

impl NavigationEntry for Navigation {}

enum Widget {
    Click(ClickButton),
    Toggle(ToggleButton),
}

impl CustomButton for Widget {
    fn get_state(&self) -> Button {
        match self {
            Widget::Click(widget) => widget.get_state(),
            Widget::Toggle(widget) => widget.get_state(),
        }
    }
}

type View = CustomizableView<5, 3, Navigation, Widget>;
type Manager = DisplayManager<5, 3, Navigation, View>;

fn view_of(entry: &Navigation) -> Result<View, Error> {
    let mut view = View::default();
    match entry {
        Navigation::Main => {
            view.set_button(
                0,
                0,
                Widget::Toggle(ToggleButton::new("Toggle".to_string(), Some("<home/>"))),
            )?;
            view.set_button(
                1,
                0,
                Widget::Click(ClickButton::new("Click".to_string(), Some("<touch/>"))),
            )?;
            view.set_navigation(
                0,
                2,
                Navigation::Settings,
                "Settings".to_string(),
                Some("<settings/>"),
            )?;
        }
        Navigation::Settings => {
            for (x, text) in ["Option 1", "Option 2", "Fail"].into_iter().enumerate() {
                view.set_button(x, 0, Widget::Click(ClickButton::new(text.to_string(), None)))?;
            }
            view.set_navigation(4, 2, Navigation::Main, "Back".to_string(), Some("<back/>"))?;
        }
    }
    Ok(view)
}

fn texts(commands: &[DeviceCommand]) -> Vec<(usize, String)> {
    let mut shown = Vec::new();
    for command in commands {
        if let DeviceCommand::SetButtonImage { index, button } = command {
            let text = match button {
                streamdeck_oxide::button::Button::Text { text, .. } => text.clone(),
                streamdeck_oxide::button::Button::IconWithText { text, .. } => text.clone(),
                _ => unreachable!(),
            };
            if !text.is_empty() {
                shown.push((*index, text));
            }
        }
    }
    shown
}

#[test]
fn main_screen_shows_its_three_cells() {
    let manager = Manager::new(Theme::light(), view_of(&Navigation::Main).unwrap());
    assert_eq!(manager.current_view().fetch_all(), vec![(0, 0), (1, 0)]);
    let commands = manager.render(manager.current_view().render()).unwrap();
    assert_eq!(commands.len(), 16);
    assert_eq!(
        texts(&commands),
        vec![
            (0, "Toggle".to_string()),
            (10, "Settings".to_string()),
            (1, "Click".to_string())
        ]
    );
}

#[test]
fn the_settings_link_leads_to_the_settings_screen() {
    let mut manager = Manager::new(Theme::light(), view_of(&Navigation::Main).unwrap());

    // The key of the link comes up: the click is routed to the link.
    assert_eq!(
        run::<Navigation>(Event::Device(DeviceStateUpdate::ButtonUp(10))),
        vec![Operation::Release(10)]
    );
    let route = manager.current_view().on_click(10).unwrap();
    assert_eq!(route, ClickRoute::Navigate(Navigation::Settings));
    let ClickRoute::Navigate(requested) = route else { unreachable!() };

    // The request is followed: the view is replaced, refreshed and painted.
    let operations = run(Event::Navigation(requested));
    assert_eq!(
        operations,
        vec![
            Operation::NavigateTo(Navigation::Settings),
            Operation::FetchAll,
            Operation::Render
        ]
    );
    let view = view_of(&Navigation::Settings);
    manager.navigate_to(Navigation::Settings, view).unwrap();
    assert_eq!(manager.get_current_navigation(), Ok(Navigation::Settings));
    assert_eq!(manager.current_view().fetch_all(), vec![(0, 0), (1, 0), (2, 0)]);
    let commands = manager.render(manager.current_view().render()).unwrap();
    assert_eq!(
        texts(&commands),
        vec![
            (0, "Option 1".to_string()),
            (1, "Option 2".to_string()),
            (2, "Fail".to_string()),
            (14, "Back".to_string())
        ]
    );
    assert_eq!(
        manager.current_view().on_click(14),
        Ok(ClickRoute::Navigate(Navigation::Main))
    );
}

#[test]
fn a_press_on_the_toggle_is_shown_and_clicks_nothing() {
    let manager = Manager::new(Theme::light(), view_of(&Navigation::Main).unwrap());
    let commands = manager.on_press(manager.current_view().render(), 0).unwrap();
    let DeviceCommand::SetButtonImage { index, button } = &commands[0] else { unreachable!() };
    assert_eq!(*index, 0);
    assert_eq!(
        *button,
        streamdeck_oxide::button::Button::IconWithText {
            svg_data: "<home/>",
            text: "Toggle".to_string(),
            background: Theme::light().pressed_background,
            foreground: Theme::light().active_foreground_color,
        }
    );
    let after = manager.current_view().render().unwrap();
    assert_eq!(after.get_button(0, 0).map(|button| button.state), Some(ButtonState::Default));
}
