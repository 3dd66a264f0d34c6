use galileo_egui::binding::{value_after_render, value_before_render};
use galileo_egui::input::{
    convert_button, convert_button_event, wheel_divisor, ButtonEvent, MouseButton,
    PointerButton, WheelUnit,
};
use galileo_egui::overlay::{collect_attributions, overlay_layout, OverlayItem};

#[test]
fn button_translation() {
    assert_eq!(
        convert_button_event(PointerButton::Primary, true),
        ButtonEvent::Pressed(MouseButton::Left)
    );
    assert_eq!(
        convert_button_event(PointerButton::Secondary, false),
        ButtonEvent::Released(MouseButton::Right)
    );
    assert_eq!(
        convert_button_event(PointerButton::Middle, true),
        ButtonEvent::Pressed(MouseButton::Middle)
    );
    assert_eq!(convert_button(PointerButton::Extra1), MouseButton::Other);
    assert_eq!(convert_button(PointerButton::Extra2), MouseButton::Other);
}

#[test]
fn wheel_divisors() {
    assert_eq!(wheel_divisor(WheelUnit::Point), 120);
    assert_eq!(wheel_divisor(WheelUnit::Line), 6);
    assert_eq!(wheel_divisor(WheelUnit::Page), 1);
}

#[test]
fn view_binding_round_trip() {
    let given = (55.0_f64, 37.0_f64);
    let view = (10.0_f64, 20.0_f64);
    assert_eq!(value_before_render(Some(given), view), given);
    let moved = (55.5_f64, 37.25_f64);
    assert_eq!(value_after_render(Some(given), Some(moved)), Some(moved));
    assert_eq!(value_after_render(Some(given), None), Some(given));
    assert_eq!(value_before_render(None, view), view);
    assert_eq!(value_after_render(None, Some(moved)), None);
}

#[test]
fn attributions_keep_present_entries() {
    assert_eq!(collect_attributions::<u8>(vec![]), None);
    assert_eq!(collect_attributions::<u8>(vec![None, None]), None);
    assert_eq!(
        collect_attributions(vec![None, Some("osm"), None, Some("tiles")]),
        Some(vec!["osm", "tiles"])
    );
}

#[test]
fn overlay_delimits_entries() {
    assert_eq!(overlay_layout(0), vec![]);
    assert_eq!(overlay_layout(1), vec![OverlayItem::Entry(0)]);
    assert_eq!(
        overlay_layout(3),
        vec![
            OverlayItem::Entry(0),
            OverlayItem::Separator,
            OverlayItem::Entry(1),
            OverlayItem::Separator,
            OverlayItem::Entry(2),
        ]
    );
}
