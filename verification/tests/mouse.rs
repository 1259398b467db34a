use iced_baseview::binary::Binary32;
use iced_baseview::conversion::{baseview_mouse_button_to_iced, baseview_scroll_delta_to_iced};
use iced_baseview::foreign;
use iced_baseview::target;

fn single(value: f32) -> Binary32 {
    Binary32 { bits: value.to_bits() }
}

#[test]
fn left_middle_and_right_keep_their_names() {
    assert_eq!(
        baseview_mouse_button_to_iced(foreign::MouseButton::Left),
        target::MouseButton::Left
    );
    assert_eq!(
        baseview_mouse_button_to_iced(foreign::MouseButton::Middle),
        target::MouseButton::Middle
    );
    assert_eq!(
        baseview_mouse_button_to_iced(foreign::MouseButton::Right),
        target::MouseButton::Right
    );
}

#[test]
fn back_and_forward_become_numbered_buttons() {
    assert_eq!(
        baseview_mouse_button_to_iced(foreign::MouseButton::Back),
        target::MouseButton::Other(6)
    );
    assert_eq!(
        baseview_mouse_button_to_iced(foreign::MouseButton::Forward),
        target::MouseButton::Other(7)
    );
}

#[test]
fn numbered_buttons_keep_their_number() {
    let mut number: u8 = 0;
    loop {
        assert_eq!(
            baseview_mouse_button_to_iced(foreign::MouseButton::Other(number)),
            target::MouseButton::Other(number as u16)
        );
        if number == u8::MAX {
            break;
        }
        number += 1;
    }
}

#[test]
fn scroll_delta_keeps_unit_and_amounts() {
    assert_eq!(
        baseview_scroll_delta_to_iced(foreign::ScrollDelta::Lines {
            x: single(1.5),
            y: single(-3.0)
        }),
        target::ScrollDelta::Lines { x: single(1.5), y: single(-3.0) }
    );
    assert_eq!(
        baseview_scroll_delta_to_iced(foreign::ScrollDelta::Pixels {
            x: single(0.0),
            y: single(120.25)
        }),
        target::ScrollDelta::Pixels { x: single(0.0), y: single(120.25) }
    );
    assert_eq!(
        baseview_scroll_delta_to_iced(foreign::ScrollDelta::Pixels {
            x: single(f32::NAN),
            y: single(f32::INFINITY)
        }),
        target::ScrollDelta::Pixels { x: single(f32::NAN), y: single(f32::INFINITY) }
    );
}
