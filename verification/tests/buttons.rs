//! The pointer button state machine and the fixed button layout.

use evoclicker::button::Button;
use evoclicker::button::ButtonState;
use evoclicker::button::Rect;
use evoclicker::state::ButtonType;

fn test_button() -> Button {
    Button::new(ButtonType::Sun, Rect { x: 100, y: 100, w: 50, h: 50 })
}

#[test]
fn fresh_press_over_the_rectangle_presses() {
    let mut b = test_button();
    let clicked = b.update_button_state(120, 120, true, true);
    assert!(!clicked);
    assert_eq!(b.state, ButtonState::Pressed);
}

#[test]
fn hovering_without_a_fresh_press_only_hovers() {
    let mut b = test_button();
    assert!(!b.update_button_state(120, 120, false, false));
    assert_eq!(b.state, ButtonState::Hovered);
    // Entering with the pointer button already held is not a fresh press.
    let mut held = test_button();
    assert!(!held.update_button_state(120, 120, true, false));
    assert_eq!(held.state, ButtonState::Hovered);
}

#[test]
fn outside_the_rectangle_is_idle() {
    let mut b = test_button();
    assert!(!b.update_button_state(0, 0, true, true));
    assert_eq!(b.state, ButtonState::Idle);
}

#[test]
fn borders_count_as_inside() {
    let mut b = test_button();
    b.update_button_state(100, 150, false, false);
    assert_eq!(b.state, ButtonState::Hovered);
    b.update_button_state(150, 100, false, false);
    assert_eq!(b.state, ButtonState::Hovered);
    b.update_button_state(151, 100, false, false);
    assert_eq!(b.state, ButtonState::Idle);
}

#[test]
fn release_over_the_rectangle_clicks_once() {
    let mut b = test_button();
    b.update_button_state(120, 120, true, true);
    // Still held: stays pressed, even while dragged off the rectangle.
    assert!(!b.update_button_state(120, 120, true, false));
    assert_eq!(b.state, ButtonState::Pressed);
    assert!(!b.update_button_state(0, 0, true, false));
    assert_eq!(b.state, ButtonState::Pressed);
    // Released back over the rectangle: the one-frame click pulse.
    let clicked = b.update_button_state(120, 120, false, false);
    assert!(clicked);
    assert_eq!(b.state, ButtonState::Released);
    // The pulse decays on the next evaluation.
    assert!(!b.update_button_state(120, 120, false, false));
    assert_eq!(b.state, ButtonState::Hovered);
}

#[test]
fn release_off_the_rectangle_cancels() {
    let mut b = test_button();
    b.update_button_state(120, 120, true, true);
    let clicked = b.update_button_state(0, 0, false, false);
    assert!(!clicked);
    assert_eq!(b.state, ButtonState::Idle);
}

#[test]
fn disabled_buttons_neither_update_nor_click() {
    let mut b = test_button();
    b.disable();
    assert!(b.disabled);
    let clicked = b.update_button_state(120, 120, false, false);
    assert!(!clicked);
    assert_eq!(b.state, ButtonState::Idle);
}

#[test]
fn draw_tints_by_interaction_state() {
    let mut b = test_button();
    assert_eq!(b.draw(), Some(700));
    b.update_button_state(120, 120, false, false);
    assert_eq!(b.draw(), Some(1000));
    b.update_button_state(120, 120, true, true);
    assert_eq!(b.draw(), Some(400));
    b.update_button_state(120, 120, false, false);
    assert_eq!(b.draw(), Some(1000));
    b.disable();
    assert_eq!(b.draw(), None);
}

#[test]
fn create_lays_out_the_fixed_set() {
    let buttons = Button::create();
    assert_eq!(buttons.len(), 4);
    assert_eq!(buttons[0].b_type, ButtonType::Sun);
    assert_eq!(buttons[1].b_type, ButtonType::Water);
    assert_eq!(buttons[2].b_type, ButtonType::Arrowhead);
    assert_eq!(buttons[3].b_type, ButtonType::Restart);
    assert_eq!(buttons[0].dest, Rect { x: 140, y: 2700, w: 600, h: 600 });
    assert_eq!(buttons[1].dest, Rect { x: 940, y: 2700, w: 600, h: 600 });
    assert_eq!(buttons[2].dest, Rect { x: 1740, y: 2700, w: 600, h: 600 });
    assert_eq!(buttons[3].dest, Rect { x: 1040, y: 2900, w: 400, h: 400 });
    assert!(!buttons[0].disabled);
    assert!(!buttons[1].disabled);
    assert!(!buttons[2].disabled);
    assert!(buttons[3].disabled);
}
