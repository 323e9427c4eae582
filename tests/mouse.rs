use typey_pipe::mouse::{from_termwiz, MouseEvent, MouseEventType, RawMouseEvent};

fn raw(x: u16, y: u16) -> RawMouseEvent {
    RawMouseEvent {
        x,
        y,
        left: false,
        right: false,
        middle: false,
        vert_wheel: false,
        horz_wheel: false,
        wheel_positive: false,
        shift: false,
        alt: false,
        ctrl: false,
    }
}

#[test]
fn test_mouse_event_new() {
    let mouse_event = MouseEvent::new();
    assert!(!mouse_event.left);
    assert!(!mouse_event.right);
    assert!(!mouse_event.middle);
    assert!(!mouse_event.wheel_up);
    assert!(!mouse_event.wheel_down);
    assert_eq!(mouse_event.position.line.0, 0);
    assert_eq!(mouse_event.position.column.0, 0);
}

#[test]
fn test_mouse_event_conversion() {
    let mut old_event = MouseEvent::new();
    let termwiz_event = RawMouseEvent { left: true, ..raw(10, 5) };
    let converted_event = from_termwiz(&mut old_event, termwiz_event);
    assert_eq!(converted_event.position.column.0, 9);
    assert_eq!(converted_event.position.line.0, 4);
    assert!(converted_event.left);
    assert_eq!(converted_event.event_type, MouseEventType::Press);
}

#[test]
fn mouse_press_drag_release() {
    let mut held = MouseEvent::new();
    let press = from_termwiz(&mut held, RawMouseEvent { right: true, ..raw(3, 3) });
    assert_eq!(press.event_type, MouseEventType::Press);
    assert!(held.right);
    let drag = from_termwiz(&mut held, RawMouseEvent { right: true, ..raw(4, 3) });
    assert_eq!(drag.event_type, MouseEventType::Motion);
    let release = from_termwiz(&mut held, raw(4, 3));
    assert_eq!(release.event_type, MouseEventType::Release);
    assert!(release.right && !release.left);
    assert!(!held.right);
    let motion = from_termwiz(&mut held, raw(1, 1));
    assert_eq!(motion.event_type, MouseEventType::Motion);
    assert_eq!(motion.position.line.0, 0);
    let wheel = from_termwiz(&mut held, RawMouseEvent { vert_wheel: true, wheel_positive: true, ..raw(0, 0) });
    assert_eq!(wheel.event_type, MouseEventType::Press);
    assert!(wheel.wheel_up && !wheel.wheel_down);
}
