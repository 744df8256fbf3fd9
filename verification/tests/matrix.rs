use streamdeck_oxide::error::Error;
use streamdeck_oxide::view::{Button, ButtonMatrix, ButtonState};

#[test]
fn new_matrix_holds_empty_buttons() {
    let matrix = ButtonMatrix::<5, 3>::new();
    assert_eq!(matrix.width(), 5);
    assert_eq!(matrix.height(), 3);
    assert_eq!(matrix.size(), 15);
    for y in 0..3 {
        for x in 0..5 {
            assert_eq!(matrix.get_button(x, y), Some(&Button::default()));
        }
    }
}

#[test]
fn set_then_get_returns_the_button() {
    let mut matrix = ButtonMatrix::<5, 3>::new();
    for y in 0..3 {
        for x in 0..5 {
            let button = Button::with_state(format!("{x},{y}"), ButtonState::Active);
            assert_eq!(matrix.set_button(x, y, button.clone()), Ok(()));
            assert_eq!(matrix.get_button(x, y), Some(&button));
            assert_eq!(matrix.get_button_by_index(y * 5 + x), Some(&button));
        }
    }
}

#[test]
fn access_outside_the_grid_is_refused() {
    let mut matrix = ButtonMatrix::<5, 3>::new();
    assert_eq!(matrix.get_button(5, 0), None);
    assert_eq!(matrix.get_button(0, 3), None);
    assert_eq!(matrix.get_button(usize::MAX, usize::MAX), None);
    assert_eq!(matrix.get_button_by_index(15), None);
    assert_eq!(
        matrix.set_button(5, 0, Button::text("a".to_string())),
        Err(Error::Custom("Button index out of bounds".to_string()))
    );
    assert_eq!(
        matrix.set_button(0, 3, Button::text("a".to_string())),
        Err(Error::Custom("Button index out of bounds".to_string()))
    );
    assert_eq!(
        matrix.set_button_by_index(15, Button::text("a".to_string())),
        Err(Error::ButtonIndexOutOfBounds(15))
    );
    for index in 0..15 {
        assert_eq!(matrix.get_button_by_index(index), Some(&Button::default()));
    }
}

#[test]
fn index_and_coordinates_round_trip() {
    let mut matrix = ButtonMatrix::<5, 3>::new();
    for index in 0..15usize {
        let (x, y) = (index % 5, index / 5);
        assert!(x < 5 && y < 3);
        assert_eq!(y * 5 + x, index);
        let button = Button::text(format!("{index}"));
        assert_eq!(matrix.set_button_by_index(index, button.clone()), Ok(()));
        assert_eq!(matrix.get_button(x, y), Some(&button));
    }
    assert_eq!(matrix.get_button(2, 1).map(|button| button.text.as_str()), Some("7"));
}

#[test]
fn setting_one_cell_leaves_the_others() {
    let mut matrix = ButtonMatrix::<5, 3>::default();
    let button = Button::text("x".to_string());
    assert_eq!(matrix.set_button(3, 2, button.clone()), Ok(()));
    for y in 0..3 {
        for x in 0..5 {
            let expected = if (x, y) == (3, 2) { button.clone() } else { Button::default() };
            assert_eq!(matrix.get_button(x, y), Some(&expected));
        }
    }
}

#[test]
fn an_empty_shape_has_no_cells() {
    let mut matrix = ButtonMatrix::<0, 3>::new();
    assert_eq!(matrix.size(), 0);
    assert_eq!(matrix.get_button(0, 0), None);
    assert_eq!(matrix.get_button_by_index(0), None);
    assert_eq!(
        matrix.set_button_by_index(0, Button::default()),
        Err(Error::ButtonIndexOutOfBounds(0))
    );
}
