//! Mouse events: press, release and motion told apart from successive
//! button states, since release reports do not name the released button.

use vstd::prelude::*;

verus! {

#[derive(Debug, Clone, Copy, PartialEq, Eq, Structural)]
pub struct Line(pub isize);

#[derive(Debug, Clone, Copy, PartialEq, Eq, Structural)]
pub struct Column(pub usize);

/// A zero-based cell position.
#[derive(Debug, Clone, Copy, PartialEq, Eq, Structural)]
pub struct Position {
    pub line: Line,
    pub column: Column,
}

impl Position {
    pub fn new(line: i32, column: u16) -> (r: Position)
        ensures
            r.line.0 == line,
            r.column.0 == column,
    {
        Position { line: Line(line as isize), column: Column(column as usize) }
    }
}

#[derive(Debug, Clone, Copy, PartialEq, Eq, Structural)]
pub enum MouseEventType {
    Press,
    Release,
    Motion,
}

/// A decoded mouse event.
#[derive(Debug, Clone, Copy, PartialEq, Eq, Structural)]
pub struct MouseEvent {
    pub event_type: MouseEventType,
    pub left: bool,
    pub right: bool,
    pub middle: bool,
    pub wheel_up: bool,
    pub wheel_down: bool,
    pub shift: bool,
    pub alt: bool,
    pub ctrl: bool,
    pub position: Position,
}

impl MouseEvent {
    /// Motion at the origin with no button or modifier.
    pub fn new() -> (r: MouseEvent)
        ensures
            r.event_type == MouseEventType::Motion,
            !r.left && !r.right && !r.middle && !r.wheel_up && !r.wheel_down,
            !r.shift && !r.alt && !r.ctrl,
            r.position.line.0 == 0 && r.position.column.0 == 0,
    {
        MouseEvent {
            event_type: MouseEventType::Motion,
            left: false,
            right: false,
            middle: false,
            wheel_up: false,
            wheel_down: false,
            shift: false,
            alt: false,
            ctrl: false,
            position: Position::new(0, 0),
        }
    }
}

/// A terminal's mouse report: one-based cell, buttons held and modifiers.
#[derive(Debug, Clone, Copy, PartialEq, Eq, Structural)]
pub struct RawMouseEvent {
    pub x: u16,
    pub y: u16,
    pub left: bool,
    pub right: bool,
    pub middle: bool,
    pub vert_wheel: bool,
    pub horz_wheel: bool,
    pub wheel_positive: bool,
    pub shift: bool,
    pub alt: bool,
    pub ctrl: bool,
}

impl RawMouseEvent {
    /// No button bit is set.
    pub open spec fn no_buttons(self) -> bool {
        !self.left && !self.right && !self.middle && !self.vert_wheel && !self.horz_wheel
            && !self.wheel_positive
    }
}

/// The event's buttons, modifiers and zero-based position, typed as motion.
pub open spec fn converted(e: RawMouseEvent) -> MouseEvent {
    MouseEvent {
        event_type: MouseEventType::Motion,
        left: e.left,
        right: e.right,
        middle: e.middle,
        wheel_up: e.vert_wheel && e.wheel_positive,
        wheel_down: e.vert_wheel && !e.wheel_positive,
        shift: e.shift,
        alt: e.alt,
        ctrl: e.ctrl,
        position: Position {
            line: Line((if e.y >= 1 { e.y - 1 } else { 0 }) as isize),
            column: Column((if e.x >= 1 { e.x - 1 } else { 0 }) as usize),
        },
    }
}

/// Decodes `event` given the button state kept from earlier events in
/// `old_event`: a newly held button or a wheel is a press; no buttons with
/// none held before is motion; no buttons with some held before is a release
/// of exactly those; anything else is a drag, reported as motion. Press and
/// motion keep the new state; a release clears the held buttons.
pub fn from_termwiz(old_event: &mut MouseEvent, event: RawMouseEvent) -> (r: MouseEvent)
    ensures
        ({
            let c = converted(event);
            let o = *old(old_event);
            let press = (c.left && !o.left) || (c.right && !o.right) || (c.middle && !o.middle) || c.wheel_up
                || c.wheel_down;
            if press {
                r == (MouseEvent { event_type: MouseEventType::Press, ..c }) && *final(old_event) == r
            } else if event.no_buttons() && !o.left && !o.right && !o.middle {
                r == c && *final(old_event) == r
            } else if event.no_buttons() {
                r == (MouseEvent {
                    event_type: MouseEventType::Release,
                    left: o.left,
                    right: o.right,
                    middle: o.middle,
                    ..c
                }) && *final(old_event) == (MouseEvent { left: false, right: false, middle: false, ..o })
            } else {
                r == c && *final(old_event) == r
            }
        }),
{
    let mut new_event = MouseEvent::new();
    new_event.left = event.left;
    new_event.right = event.right;
    new_event.middle = event.middle;
    new_event.wheel_up = event.vert_wheel && event.wheel_positive;
    new_event.wheel_down = event.vert_wheel && !event.wheel_positive;
    new_event.shift = event.shift;
    new_event.alt = event.alt;
    new_event.ctrl = event.ctrl;
    new_event.position = Position::new(event.y.saturating_sub(1) as i32, event.x.saturating_sub(1));
    let no_buttons = !event.left && !event.right && !event.middle && !event.vert_wheel && !event.horz_wheel
        && !event.wheel_positive;

    if (new_event.left && !old_event.left) || (new_event.right && !old_event.right) || (new_event.middle
        && !old_event.middle) || new_event.wheel_up || new_event.wheel_down {
        new_event.event_type = MouseEventType::Press;
        *old_event = new_event;
    } else if no_buttons && !old_event.left && !old_event.right && !old_event.middle {
        new_event.event_type = MouseEventType::Motion;
        *old_event = new_event;
    } else if no_buttons {
        if old_event.left {
            old_event.left = false;
            new_event.left = true;
        }
        if old_event.right {
            old_event.right = false;
            new_event.right = true;
        }
        if old_event.middle {
            old_event.middle = false;
            new_event.middle = true;
        }
        new_event.event_type = MouseEventType::Release;
    } else {
        new_event.event_type = MouseEventType::Motion;
        *old_event = new_event;
    }
    new_event
}

} // verus!
