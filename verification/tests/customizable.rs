use streamdeck_oxide::error::Error;
use streamdeck_oxide::view::customizable::{
    ClickButton, ClickRoute, CustomButton, CustomizableView, CustomizableViewButton, ToggleButton,
};
use streamdeck_oxide::view::{Button, ButtonState};

#[derive(Clone, Debug, PartialEq)]
enum Screen {
    Main,
    Settings,
}

enum Widget {
    Click(ClickButton),
    Toggle(ToggleButton),
}

impl CustomButton for Widget {
    fn get_state(&self) -> Button {
        match self {
            Widget::Click(widget) => widget.get_state(),
            Widget::Toggle(widget) => widget.get_state(),
        }
    }
}

type View = CustomizableView<5, 3, Screen, Widget>;

fn click(text: &str) -> Widget {
    Widget::Click(ClickButton::new(text.to_string(), None))
}

fn toggle(text: &str) -> Widget {
    Widget::Toggle(ToggleButton::new(text.to_string(), None))
}

fn out_of_bounds() -> Result<(), Error> {
    Err(Error::Custom("Row or column out of bounds".to_string()))
}

#[test]
fn new_view_is_empty() {
    let view = View::new();
    let matrix = view.render().unwrap();
    for y in 0..3 {
        for x in 0..5 {
            assert!(view.get_button(x, y).is_none());
            assert_eq!(matrix.get_button(x, y), Some(&Button::default()));
        }
    }
    assert_eq!(view.fetch_all(), vec![]);
    let same = View::default();
    assert_eq!(same.fetch_all(), vec![]);
}

#[test]
fn cells_are_assigned_inside_the_grid_only() {
    let mut view = View::new();
    assert_eq!(view.set_button(4, 2, click("a")), Ok(()));
    assert_eq!(view.set_button(5, 0, click("b")), out_of_bounds());
    assert_eq!(view.set_button(0, 3, click("c")), out_of_bounds());
    assert_eq!(
        view.set_navigation(5, 2, Screen::Settings, "s".to_string(), None),
        out_of_bounds()
    );
    assert_eq!(
        view.set_navigation(0, 2, Screen::Settings, "s".to_string(), None),
        Ok(())
    );
    assert_eq!(view.remove_button(0, 3), out_of_bounds());
    assert_eq!(view.remove_button(usize::MAX, usize::MAX), out_of_bounds());
    assert!(matches!(view.get_button(4, 2), Some(CustomizableViewButton::Button(_))));
    assert!(matches!(
        view.get_button(0, 2),
        Some(CustomizableViewButton::Navigation { navigation: Screen::Settings, .. })
    ));
    assert!(view.get_button(5, 0).is_none());
    assert!(view.get_button_mut(5, 0).is_none());
    assert!(view.get_button_mut(0, 2).is_none());
    assert!(view.get_button_mut(1, 1).is_none());
    assert!(view.get_button_mut(4, 2).is_some());
}

#[test]
fn removing_empties_the_cell() {
    let mut view = View::new();
    assert_eq!(view.set_button(1, 1, click("a")), Ok(()));
    assert_eq!(view.fetch_all(), vec![(1, 1)]);
    assert_eq!(view.remove_button(1, 1), Ok(()));
    assert!(view.get_button(1, 1).is_none());
    assert_eq!(view.fetch_all(), vec![]);
    assert_eq!(view.on_click(6), Ok(ClickRoute::Unoccupied));
    assert_eq!(view.render().unwrap().get_button(1, 1), Some(&Button::default()));
}

#[test]
fn assigning_replaces_what_the_cell_held() {
    let mut view = View::new();
    assert_eq!(view.set_button(2, 1, click("a")), Ok(()));
    assert_eq!(view.set_navigation(2, 1, Screen::Main, "home".to_string(), Some("<h/>")), Ok(()));
    assert_eq!(view.on_click(7), Ok(ClickRoute::Navigate(Screen::Main)));
    assert_eq!(view.fetch_all(), vec![]);
    assert_eq!(view.set_button(2, 1, toggle("t")), Ok(()));
    assert_eq!(view.on_click(7), Ok(ClickRoute::Widget { x: 2, y: 1 }));
}

#[test]
fn render_shows_links_and_widgets() {
    let mut view = View::new();
    assert_eq!(view.set_button(0, 0, toggle("Toggle")), Ok(()));
    assert_eq!(view.set_button(1, 0, click("Click")), Ok(()));
    assert_eq!(
        view.set_navigation(0, 2, Screen::Settings, "Settings".to_string(), Some("<s/>")),
        Ok(())
    );
    let matrix = view.render().unwrap();
    assert_eq!(matrix.get_button(0, 0), Some(&Button::text("Toggle".to_string())));
    assert_eq!(matrix.get_button(1, 0), Some(&Button::text("Click".to_string())));
    assert_eq!(
        matrix.get_button(0, 2),
        Some(&Button::with_icon("Settings".to_string(), "<s/>"))
    );
    assert_eq!(matrix.get_button_by_index(10), matrix.get_button(0, 2));
    let mut others = 0;
    for index in 0..15 {
        if index != 0 && index != 1 && index != 10 {
            assert_eq!(matrix.get_button_by_index(index), Some(&Button::default()));
            others += 1;
        }
    }
    assert_eq!(others, 12);
}

#[test]
fn clicks_are_routed_by_flat_index() {
    let mut view = View::new();
    assert_eq!(view.set_button(3, 1, click("a")), Ok(()));
    assert_eq!(view.set_navigation(4, 2, Screen::Settings, "s".to_string(), None), Ok(()));
    assert_eq!(view.on_click(8), Ok(ClickRoute::Widget { x: 3, y: 1 }));
    assert_eq!(view.on_click(14), Ok(ClickRoute::Navigate(Screen::Settings)));
    assert_eq!(view.on_click(0), Ok(ClickRoute::Unoccupied));
    assert_eq!(view.on_click(13), Ok(ClickRoute::Unoccupied));
    assert_eq!(view.on_click(15), Err(Error::ButtonIndexOutOfBounds(15)));
    assert_eq!(view.on_click(255), Err(Error::ButtonIndexOutOfBounds(255)));
}

#[test]
fn click_on_a_link_yields_its_entry_and_changes_nothing() {
    let mut view = View::new();
    assert_eq!(view.set_button(0, 0, toggle("t")), Ok(()));
    assert_eq!(view.set_navigation(1, 0, Screen::Settings, "s".to_string(), None), Ok(()));
    let before = view.render().unwrap();
    assert_eq!(view.on_click(1), Ok(ClickRoute::Navigate(Screen::Settings)));
    assert_eq!(view.on_click(1), Ok(ClickRoute::Navigate(Screen::Settings)));
    let after = view.render().unwrap();
    for index in 0..15 {
        assert_eq!(before.get_button_by_index(index), after.get_button_by_index(index));
    }
}

#[test]
fn widgets_are_refreshed_column_by_column() {
    let mut view = View::new();
    assert_eq!(view.set_button(1, 0, click("d")), Ok(()));
    assert_eq!(view.set_button(0, 2, toggle("c")), Ok(()));
    assert_eq!(view.set_button(4, 1, click("e")), Ok(()));
    assert_eq!(view.set_button(0, 0, toggle("a")), Ok(()));
    assert_eq!(view.set_navigation(0, 1, Screen::Settings, "b".to_string(), None), Ok(()));
    assert_eq!(view.set_button(1, 2, click("f")), Ok(()));
    assert_eq!(view.fetch_all(), vec![(0, 0), (0, 2), (1, 0), (1, 2), (4, 1)]);
}

#[test]
fn every_widget_is_refreshed_exactly_once() {
    let mut view = View::new();
    for y in 0..3 {
        for x in 0..5 {
            if (x + y) % 3 == 0 {
                assert_eq!(view.set_button(x, y, click("w")), Ok(()));
            } else if (x + y) % 3 == 1 {
                assert_eq!(
                    view.set_navigation(x, y, Screen::Main, "n".to_string(), None),
                    Ok(())
                );
            }
        }
    }
    let plan = view.fetch_all();
    for y in 0..3 {
        for x in 0..5 {
            let visits = plan.iter().filter(|place| **place == (x, y)).count();
            let expected = if (x + y) % 3 == 0 { 1 } else { 0 };
            assert_eq!(visits, expected);
        }
    }
    assert_eq!(plan.len(), 5);
}

#[test]
fn a_refresh_gives_up_at_the_first_failure() {
    let plan = vec![(0, 0), (0, 2), (1, 0)];
    assert_eq!(View::fetch_next(&plan, 0, Ok(())), Ok(Some((0, 0))));
    assert_eq!(View::fetch_next(&plan, 1, Ok(())), Ok(Some((0, 2))));
    assert_eq!(View::fetch_next(&plan, 2, Ok(())), Ok(Some((1, 0))));
    assert_eq!(View::fetch_next(&plan, 3, Ok(())), Ok(None));
    assert_eq!(View::fetch_next(&plan, 4, Ok(())), Ok(None));
    assert_eq!(
        View::fetch_next(&plan, 1, Err(Error::Custom("no answer".to_string()))),
        Err(Error::Custom("no answer".to_string()))
    );
    assert_eq!(
        View::fetch_next(&plan, 3, Err(Error::DeviceNotFound)),
        Err(Error::DeviceNotFound)
    );
}

#[test]
fn toggle_on_a_five_by_three_grid() {
    let mut view = CustomizableView::<5, 3, Screen, ToggleButton>::new();
    let widget = ToggleButton::new("Toggle".to_string(), Some("<home/>"));
    assert_eq!(view.set_button(0, 0, widget), Ok(()));

    // The refresh visits the toggle, whose setting is reported as off.
    let plan = view.fetch_all();
    assert_eq!(plan, vec![(0, 0)]);
    let mut refreshed = 0;
    let mut last = Ok(());
    while let Some((x, y)) =
        CustomizableView::<5, 3, Screen, ToggleButton>::fetch_next(&plan, refreshed, last).unwrap()
    {
        last = view.get_button_mut(x, y).unwrap().fetch(Ok(false));
        refreshed += 1;
    }
    assert_eq!(refreshed, 1);
    let matrix = view.render().unwrap();
    assert_eq!(
        matrix.get_button(0, 0),
        Some(&Button::new("Toggle".to_string(), Some("<home/>"), ButtonState::Default))
    );

    // A click on index 0 pushes `true` and then shows the active face.
    assert_eq!(view.on_click(0), Ok(ClickRoute::Widget { x: 0, y: 0 }));
    let widget = view.get_button_mut(0, 0).unwrap();
    assert!(widget.pending_value());
    assert_eq!(widget.click(Ok(())), Ok(()));
    let matrix = view.render().unwrap();
    assert_eq!(
        matrix.get_button(0, 0),
        Some(&Button::new("Toggle".to_string(), Some("<home/>"), ButtonState::Active))
    );
}
