use vstd::prelude::*;

verus! {

/// A pointer button as the host UI reports it.
#[derive(Clone, Copy, Debug, PartialEq, Eq, Structural)]
pub enum PointerButton {
    Primary,
    Secondary,
    Middle,
    Extra1,
    Extra2,
}

/// A mouse button in the map engine's event vocabulary.
#[derive(Clone, Copy, Debug, PartialEq, Eq, Structural)]
pub enum MouseButton {
    Left,
    Right,
    Middle,
    Other,
}

/// The map button that a host button stands for.
pub open spec fn button_of(b: PointerButton) -> MouseButton {
    match b {
        PointerButton::Primary => MouseButton::Left,
        PointerButton::Secondary => MouseButton::Right,
        PointerButton::Middle => MouseButton::Middle,
        _ => MouseButton::Other,
    }
}

/// Maps a host pointer button to the map's button.
pub fn convert_button(b: PointerButton) -> (r: MouseButton)
    ensures
        r == button_of(b),
{
    match b {
        PointerButton::Primary => MouseButton::Left,
        PointerButton::Secondary => MouseButton::Right,
        PointerButton::Middle => MouseButton::Middle,
        _ => MouseButton::Other,
    }
}

/// A button transition in the map engine's event vocabulary.
#[derive(Clone, Copy, Debug, PartialEq, Eq, Structural)]
pub enum ButtonEvent {
    Pressed(MouseButton),
    Released(MouseButton),
}

pub open spec fn button_event_of(b: PointerButton, pressed: bool) -> ButtonEvent {
    if pressed {
        ButtonEvent::Pressed(button_of(b))
    } else {
        ButtonEvent::Released(button_of(b))
    }
}

/// Translates a host press or release of `b` into the map's event.
pub fn convert_button_event(b: PointerButton, pressed: bool) -> (r: ButtonEvent)
    ensures
        r == button_event_of(b, pressed),
{
    let button = convert_button(b);
    if pressed {
        ButtonEvent::Pressed(button)
    } else {
        ButtonEvent::Released(button)
    }
}

/// The unit a host reports a wheel delta in, where the platform leaves it ambiguous.
#[derive(Clone, Copy, Debug, PartialEq, Eq, Structural)]
pub enum WheelUnit {
    Point,
    Line,
    Page,
}

/// Wheel deltas in points are divided by this before they become a zoom step.
pub const POINT_WHEEL_DIVISOR: u32 = 120;

/// Wheel deltas in lines are divided by this before they become a zoom step.
pub const LINE_WHEEL_DIVISOR: u32 = 6;

/// Wheel deltas in pages are taken as they are.
pub const PAGE_WHEEL_DIVISOR: u32 = 1;

pub open spec fn divisor_of(unit: WheelUnit) -> u32 {
    match unit {
        WheelUnit::Point => POINT_WHEEL_DIVISOR,
        WheelUnit::Line => LINE_WHEEL_DIVISOR,
        WheelUnit::Page => PAGE_WHEEL_DIVISOR,
    }
}

/// The divisor that turns a wheel delta in `unit` into a zoom step.
pub fn wheel_divisor(unit: WheelUnit) -> (r: u32)
    ensures
        r == divisor_of(unit),
        r >= 1,
{
    match unit {
        WheelUnit::Point => POINT_WHEEL_DIVISOR,
        WheelUnit::Line => LINE_WHEEL_DIVISOR,
        WheelUnit::Page => PAGE_WHEEL_DIVISOR,
    }
}

} // verus!
