//! The pointer buttons: a fixed set of screen-space rectangles, each running
//! a small per-frame interaction state machine that turns raw pointer
//! position and press signals into a one-frame click pulse.
//!
//! Coordinates are whole world-space units, which the fixed layout uses
//! exactly; the host rounds its pointer position to them.

use vstd::prelude::*;

use crate::state::ButtonType;

verus! {

/// An axis-aligned rectangle in world coordinates.
#[derive(Clone, Copy, PartialEq, Eq, Structural, Debug)]
pub struct Rect {
    pub x: i64,
    pub y: i64,
    pub w: i64,
    pub h: i64,
}

/// A point is inside a rectangle when it lies within it, borders included.
pub open spec fn spec_contains(r: Rect, px: i64, py: i64) -> bool {
    &&& r.x <= px <= r.x + r.w
    &&& r.y <= py <= r.y + r.h
}

impl Rect {
    /// Coordinates stay in the world's order of magnitude, so sums of a
    /// corner and an extent never overflow.
    pub open spec fn wf(self) -> bool {
        &&& -1000000 <= self.x <= 1000000
        &&& -1000000 <= self.y <= 1000000
        &&& 0 <= self.w <= 1000000
        &&& 0 <= self.h <= 1000000
    }

    /// Whether the point lies inside this rectangle, borders included.
    pub fn contains(&self, px: i64, py: i64) -> (b: bool)
        requires
            self.wf(),
        ensures
            b == spec_contains(*self, px, py),
    {
        px >= self.x && px <= self.x + self.w && py >= self.y && py <= self.y + self.h
    }
}

/// The per-frame interaction state of one button. `Released` is a one-frame
/// pulse: it signals a click to the caller and decays on the next evaluation.
#[derive(Clone, Copy, PartialEq, Eq, Structural, Debug)]
pub enum ButtonState {
    Idle,
    Hovered,
    Pressed,
    Released,
}

/// One step of the interaction state machine, from the previous state and
/// the frame's pointer sample: `over` is whether the pointer is inside the
/// button's rectangle, `down` whether its primary button is held, and
/// `fresh` whether it was pressed down this very frame.
///
/// A pressed button stays pressed while the pointer button is held, becomes
/// `Released` the frame it is let go over the rectangle, and falls back to
/// `Idle` when let go elsewhere. An unpressed button becomes `Pressed` only
/// by a fresh press over the rectangle, is `Hovered` while merely pointed
/// at, and `Idle` otherwise.
pub open spec fn spec_button_step(
    prev: ButtonState,
    over: bool,
    down: bool,
    fresh: bool,
) -> ButtonState {
    if prev is Pressed {
        if down {
            ButtonState::Pressed
        } else if over {
            ButtonState::Released
        } else {
            ButtonState::Idle
        }
    } else {
        if over {
            if fresh {
                ButtonState::Pressed
            } else {
                ButtonState::Hovered
            }
        } else {
            ButtonState::Idle
        }
    }
}

/// One of the game's pointer buttons: its input kind, its fixed rectangle,
/// the enabled flag the world controller keeps, and its interaction state.
#[derive(Clone, Copy, PartialEq, Eq, Structural, Debug)]
pub struct Button {
    pub b_type: ButtonType,
    pub dest: Rect,
    pub disabled: bool,
    pub state: ButtonState,
}

/// A button after one poll: disabled buttons do not evaluate at all, enabled
/// ones step their interaction state machine.
pub open spec fn spec_polled(b: Button, px: i64, py: i64, down: bool, fresh: bool) -> Button {
    if b.disabled {
        b
    } else {
        Button {
            state: spec_button_step(b.state, spec_contains(b.dest, px, py), down, fresh),
            ..b
        }
    }
}

/// Whether one poll makes the button register a click.
pub open spec fn spec_click(b: Button, px: i64, py: i64, down: bool, fresh: bool) -> bool {
    spec_polled(b, px, py, down, fresh).state is Released && !b.disabled
}

impl Button {
    /// A fresh enabled button of the given kind at the given rectangle.
    pub fn new(b_type: ButtonType, dest: Rect) -> (b: Button)
        ensures
            b == (Button { b_type, dest, disabled: false, state: ButtonState::Idle }),
    {
        Button { b_type, dest, disabled: false, state: ButtonState::Idle }
    }

    /// The fixed button set of the game, in the order the world controller
    /// relies on: Sun, Water and Arrowhead across the lower part of the
    /// world, enabled, and the smaller Restart button between them, disabled
    /// until a terminal form is reached.
    pub fn create() -> (buttons: Vec<Button>)
        ensures
            buttons@.len() == 4,
            buttons@[0] == (Button {
                b_type: ButtonType::Sun,
                dest: Rect { x: 140, y: 2700, w: 600, h: 600 },
                disabled: false,
                state: ButtonState::Idle,
            }),
            buttons@[1] == (Button {
                b_type: ButtonType::Water,
                dest: Rect { x: 940, y: 2700, w: 600, h: 600 },
                disabled: false,
                state: ButtonState::Idle,
            }),
            buttons@[2] == (Button {
                b_type: ButtonType::Arrowhead,
                dest: Rect { x: 1740, y: 2700, w: 600, h: 600 },
                disabled: false,
                state: ButtonState::Idle,
            }),
            buttons@[3] == (Button {
                b_type: ButtonType::Restart,
                dest: Rect { x: 1040, y: 2900, w: 400, h: 400 },
                disabled: true,
                state: ButtonState::Idle,
            }),
    {
        let mut buttons: Vec<Button> = Vec::new();
        buttons.push(Button::new(ButtonType::Sun, Rect { x: 140, y: 2700, w: 600, h: 600 }));
        buttons.push(Button::new(ButtonType::Water, Rect { x: 940, y: 2700, w: 600, h: 600 }));
        buttons.push(
            Button::new(ButtonType::Arrowhead, Rect { x: 1740, y: 2700, w: 600, h: 600 }),
        );
        let mut restart = Button::new(
            ButtonType::Restart,
            Rect { x: 1040, y: 2900, w: 400, h: 400 },
        );
        restart.disable();
        buttons.push(restart);
        buttons
    }

    /// Polls the button against this frame's pointer sample and reports
    /// whether it was clicked. A disabled button neither updates nor
    /// registers clicks; an enabled one steps its interaction state machine
    /// and clicks exactly when that step lands on the `Released` pulse.
    pub fn update_button_state(&mut self, px: i64, py: i64, down: bool, fresh: bool) -> (clicked:
        bool)
        requires
            old(self).dest.wf(),
        ensures
            *final(self) == spec_polled(*old(self), px, py, down, fresh),
            clicked == spec_click(*old(self), px, py, down, fresh),
    {
        if self.disabled {
            return false;
        }
        let over = self.dest.contains(px, py);
        let prev_pressed = match self.state {
            ButtonState::Pressed => true,
            _ => false,
        };
        let new_state = if prev_pressed {
            if down {
                ButtonState::Pressed
            } else if over {
                ButtonState::Released
            } else {
                ButtonState::Idle
            }
        } else {
            if over {
                if fresh {
                    ButtonState::Pressed
                } else {
                    ButtonState::Hovered
                }
            } else {
                ButtonState::Idle
            }
        };
        self.state = new_state;
        match self.state {
            ButtonState::Released => true,
            _ => false,
        }
    }

    /// The gray level to tint the button's artwork with this frame, in
    /// thousandths of full brightness, or nothing when the button is
    /// disabled and therefore not drawn: dimmed when idle, full when hovered
    /// or just released, dark while held down.
    pub fn draw(&self) -> (tint: Option<u32>)
        ensures
            self.disabled ==> tint is None,
            !self.disabled ==> tint == Some(
                match self.state {
                    ButtonState::Idle => 700u32,
                    ButtonState::Hovered | ButtonState::Released => 1000u32,
                    ButtonState::Pressed => 400u32,
                },
            ),
    {
        if self.disabled {
            return None;
        }
        match self.state {
            ButtonState::Idle => Some(700),
            ButtonState::Hovered | ButtonState::Released => Some(1000),
            ButtonState::Pressed => Some(400),
        }
    }

    /// Takes the button out of play; only the world controller puts it back.
    pub fn disable(&mut self)
        ensures
            *final(self) == (Button { disabled: true, ..*old(self) }),
    {
        self.disabled = true;
    }
}

} // verus!
