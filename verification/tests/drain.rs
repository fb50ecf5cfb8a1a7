use browser_mouse::{
    emit_mouse_events, BrowserMouse, CursorMoved, ElementState, HostEvent, MouseButton,
    MouseButtonInput, MouseEvents, MouseMotion, MouseWheel,
};

fn press(button: MouseButton) -> MouseButtonInput {
    MouseButtonInput { button, state: ElementState::Pressed }
}

fn release(button: MouseButton) -> MouseButtonInput {
    MouseButtonInput { button, state: ElementState::Released }
}

fn assert_silent(events: &MouseEvents) {
    assert_eq!(events.motion, None);
    assert_eq!(events.cursor_moved, None);
    assert_eq!(events.button_inputs, vec![]);
    assert_eq!(events.wheel, None);
}

#[test]
fn draining_a_new_store_emits_nothing() {
    let mut mouse = BrowserMouse::new();
    assert_silent(&emit_mouse_events(&mut mouse));
}

#[test]
fn motion_is_the_vector_sum_of_the_movements() {
    let mut mouse = BrowserMouse::new();
    mouse.on_mouse_move(10, 10, 5, -2);
    mouse.on_mouse_move(12, 9, 2, -1);
    mouse.on_mouse_move(4, 30, -8, 21);
    let events = emit_mouse_events(&mut mouse);
    assert_eq!(events.motion, Some(MouseMotion { delta: (-1, 18) }));
    assert_eq!(events.cursor_moved, Some(CursorMoved { position: (4, 30) }));
}

#[test]
fn motion_does_not_depend_on_the_order_of_the_movements() {
    let moves = [(5, -2), (2, -1), (-8, 21), (100, -100)];
    let mut forward = BrowserMouse::new();
    for (dx, dy) in moves.iter() {
        forward.on_mouse_move(1, 1, *dx, *dy);
    }
    let mut backward = BrowserMouse::new();
    for (dx, dy) in moves.iter().rev() {
        backward.on_mouse_move(1, 1, *dx, *dy);
    }
    let expected = Some(MouseMotion { delta: (99, -82) });
    assert_eq!(emit_mouse_events(&mut forward).motion, expected);
    assert_eq!(emit_mouse_events(&mut backward).motion, expected);
}

#[test]
fn movements_that_cancel_emit_no_motion_and_no_position() {
    let mut mouse = BrowserMouse::new();
    mouse.on_mouse_move(15, 25, 5, -7);
    mouse.on_mouse_move(10, 32, -5, 7);
    let events = emit_mouse_events(&mut mouse);
    assert_eq!(events.motion, None);
    assert_eq!(events.cursor_moved, None);
}

#[test]
fn movement_in_one_axis_is_enough_for_a_motion() {
    let mut horizontal = BrowserMouse::new();
    horizontal.on_mouse_move(3, 0, 3, 0);
    let events = emit_mouse_events(&mut horizontal);
    assert_eq!(events.motion, Some(MouseMotion { delta: (3, 0) }));
    assert_eq!(events.cursor_moved, Some(CursorMoved { position: (3, 0) }));

    let mut vertical = BrowserMouse::new();
    vertical.on_mouse_move(0, -3, 0, -3);
    let events = emit_mouse_events(&mut vertical);
    assert_eq!(events.motion, Some(MouseMotion { delta: (0, -3) }));
    assert_eq!(events.cursor_moved, Some(CursorMoved { position: (0, -3) }));
}

#[test]
fn second_drain_without_events_emits_nothing() {
    let mut mouse = BrowserMouse::new();
    mouse.on_mouse_move(7, 8, 1, 1);
    mouse.on_wheel(3);
    mouse.on_mouse_button(0b001);
    let first = emit_mouse_events(&mut mouse);
    assert_eq!(first.motion, Some(MouseMotion { delta: (1, 1) }));
    assert_eq!(first.cursor_moved, Some(CursorMoved { position: (7, 8) }));
    assert_eq!(first.button_inputs, vec![press(MouseButton::Left)]);
    assert_eq!(first.wheel, Some(MouseWheel { y: 3 }));
    assert_silent(&emit_mouse_events(&mut mouse));
    assert_silent(&emit_mouse_events(&mut mouse));
}

#[test]
fn press_left_then_right_then_release_both_in_one_drain() {
    let mut mouse = BrowserMouse::new();
    for mask in [0b00u16, 0b01, 0b11, 0b00] {
        mouse.on_mouse_button(mask);
    }
    let events = emit_mouse_events(&mut mouse);
    assert_eq!(
        events.button_inputs,
        vec![
            press(MouseButton::Left),
            press(MouseButton::Right),
            release(MouseButton::Left),
            release(MouseButton::Right),
        ]
    );
    assert_silent(&emit_mouse_events(&mut mouse));
}

#[test]
fn press_left_then_right_then_release_both_across_drains() {
    let mut mouse = BrowserMouse::new();
    let mut seen: Vec<MouseButtonInput> = Vec::new();
    for mask in [0b00u16, 0b01, 0b11, 0b00] {
        mouse.on_mouse_button(mask);
        seen.extend(emit_mouse_events(&mut mouse).button_inputs);
    }
    assert_eq!(
        seen,
        vec![
            press(MouseButton::Left),
            press(MouseButton::Right),
            release(MouseButton::Left),
            release(MouseButton::Right),
        ]
    );
}

#[test]
fn pressing_left_and_middle_at_once_gives_two_transitions() {
    let mut mouse = BrowserMouse::new();
    mouse.on_mouse_button(0b101);
    let events = emit_mouse_events(&mut mouse);
    assert_eq!(
        events.button_inputs,
        vec![press(MouseButton::Left), press(MouseButton::Middle)]
    );
}

#[test]
fn scroll_amounts_of_mixed_sign_partly_cancel() {
    let mut mouse = BrowserMouse::new();
    mouse.on_wheel(100);
    mouse.on_wheel(-30);
    mouse.on_wheel(5);
    mouse.on_wheel(-50);
    let events = emit_mouse_events(&mut mouse);
    assert_eq!(events.wheel, Some(MouseWheel { y: 25 }));
    assert_eq!(emit_mouse_events(&mut mouse).wheel, None);
}

#[test]
fn scroll_amounts_that_cancel_emit_no_wheel_event() {
    let mut mouse = BrowserMouse::new();
    mouse.on_wheel(53);
    mouse.on_wheel(-53);
    assert_silent(&emit_mouse_events(&mut mouse));
}

#[test]
fn scroll_alone_emits_only_a_wheel_event() {
    let mut mouse = BrowserMouse::new();
    mouse.on_wheel(-4);
    let events = emit_mouse_events(&mut mouse);
    assert_eq!(events.motion, None);
    assert_eq!(events.cursor_moved, None);
    assert_eq!(events.button_inputs, vec![]);
    assert_eq!(events.wheel, Some(MouseWheel { y: -4 }));
}

#[test]
fn reported_position_is_that_of_the_latest_movement() {
    let mut mouse = BrowserMouse::new();
    mouse.on_mouse_move(100, 100, 10, 10);
    mouse.on_mouse_move(300, 50, 200, -50);
    mouse.on_wheel(1);
    mouse.on_mouse_button(0b001);
    let events = emit_mouse_events(&mut mouse);
    assert_eq!(events.cursor_moved, Some(CursorMoved { position: (300, 50) }));
}

#[test]
fn position_is_not_reported_again_without_new_movement() {
    let mut mouse = BrowserMouse::new();
    mouse.on_mouse_move(300, 50, 200, -50);
    let first = emit_mouse_events(&mut mouse);
    assert_eq!(first.cursor_moved, Some(CursorMoved { position: (300, 50) }));
    mouse.on_mouse_button(0b010);
    let second = emit_mouse_events(&mut mouse);
    assert_eq!(second.motion, None);
    assert_eq!(second.cursor_moved, None);
    assert_eq!(second.button_inputs, vec![press(MouseButton::Right)]);
    assert_eq!(mouse.position(), (300, 50));
}

#[test]
fn movement_without_travel_moves_the_position_silently() {
    let mut mouse = BrowserMouse::new();
    mouse.on_mouse_move(64, 32, 0, 0);
    assert_silent(&emit_mouse_events(&mut mouse));
    assert_eq!(mouse.position(), (64, 32));
    mouse.on_mouse_move(65, 32, 1, 0);
    let events = emit_mouse_events(&mut mouse);
    assert_eq!(events.motion, Some(MouseMotion { delta: (1, 0) }));
    assert_eq!(events.cursor_moved, Some(CursorMoved { position: (65, 32) }));
}

#[test]
fn each_event_shows_up_in_exactly_one_drain() {
    let mut mouse = BrowserMouse::new();
    mouse.on_mouse_move(1, 1, 1, 1);
    mouse.on_mouse_button(0b001);
    let first = emit_mouse_events(&mut mouse);
    mouse.on_mouse_move(3, 4, 2, 3);
    mouse.on_mouse_button(0b000);
    mouse.on_wheel(9);
    let second = emit_mouse_events(&mut mouse);

    assert_eq!(first.motion, Some(MouseMotion { delta: (1, 1) }));
    assert_eq!(first.button_inputs, vec![press(MouseButton::Left)]);
    assert_eq!(first.wheel, None);
    assert_eq!(second.motion, Some(MouseMotion { delta: (2, 3) }));
    assert_eq!(second.cursor_moved, Some(CursorMoved { position: (3, 4) }));
    assert_eq!(second.button_inputs, vec![release(MouseButton::Left)]);
    assert_eq!(second.wheel, Some(MouseWheel { y: 9 }));
}

#[test]
fn drain_in_the_middle_loses_nothing() {
    let run = [
        HostEvent::MouseButton { buttons: 0b001 },
        HostEvent::MouseMove { client_x: 5, client_y: 5, movement_x: 5, movement_y: 5 },
        HostEvent::Wheel { delta_y: 2 },
        HostEvent::MouseButton { buttons: 0b011 },
        HostEvent::MouseMove { client_x: 2, client_y: 9, movement_x: -3, movement_y: 4 },
        HostEvent::MouseButton { buttons: 0b010 },
        HostEvent::Wheel { delta_y: -7 },
    ];
    for cut in 0..=run.len() {
        let mut whole = BrowserMouse::new();
        let mut split = BrowserMouse::new();
        for event in run.iter() {
            whole.handle(*event);
        }
        for event in run[..cut].iter() {
            split.handle(*event);
        }
        let first = emit_mouse_events(&mut split);
        for event in run[cut..].iter() {
            split.handle(*event);
        }
        let second = emit_mouse_events(&mut split);
        let single = emit_mouse_events(&mut whole);

        let mut joined = first.button_inputs;
        joined.extend(second.button_inputs);
        assert_eq!(joined, single.button_inputs);
        let dx = first.motion.map_or(0, |m| m.delta.0) + second.motion.map_or(0, |m| m.delta.0);
        let dy = first.motion.map_or(0, |m| m.delta.1) + second.motion.map_or(0, |m| m.delta.1);
        assert_eq!((dx, dy), (2, 9));
        assert_eq!(single.motion, Some(MouseMotion { delta: (2, 9) }));
        let scroll = first.wheel.map_or(0, |w| w.y) + second.wheel.map_or(0, |w| w.y);
        assert_eq!(scroll, -5);
        assert_eq!(single.wheel, Some(MouseWheel { y: -5 }));
        assert_eq!(split.position(), whole.position());
    }
}

#[test]
fn wrapped_total_of_zero_emits_no_motion() {
    let mut mouse = BrowserMouse::new();
    mouse.on_mouse_move(1, 1, i32::MIN, 0);
    mouse.on_mouse_move(2, 2, i32::MIN, 0);
    let events = emit_mouse_events(&mut mouse);
    assert_eq!(events.motion, None);
    assert_eq!(events.cursor_moved, None);
}
