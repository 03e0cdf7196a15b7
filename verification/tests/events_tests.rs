use wio_core::events::AbstractInputSymbol;
use wio_core::events::ButtonIdentity;
use wio_core::events::InputEvent;
use wio_core::events::KeyName;
use wio_core::events::Transition;
use wio_core::events::translate;
use wio_core::events::translate_event;

#[test]
fn every_supported_button_maps_to_exactly_one_key() {
    let expected = [
        (ButtonIdentity::TopLeft, KeyName::F1),
        (ButtonIdentity::TopMiddle, KeyName::F2),
        (ButtonIdentity::Up, KeyName::Up),
        (ButtonIdentity::Left, KeyName::Left),
        (ButtonIdentity::Right, KeyName::Right),
        (ButtonIdentity::Down, KeyName::Down),
        (ButtonIdentity::Click, KeyName::Return),
    ];
    for (button, key) in expected {
        assert_eq!(translate(button), Some(key), "{:?}", button);
    }
}

#[test]
fn unsupported_button_maps_to_no_symbol() {
    assert_eq!(translate(ButtonIdentity::TopRight), None);
    let e = InputEvent { source: ButtonIdentity::TopRight, transition: Transition::Pressed };
    assert_eq!(translate_event(e), None);
    let e = InputEvent { source: ButtonIdentity::TopRight, transition: Transition::Released };
    assert_eq!(translate_event(e), None);
}

#[test]
fn translation_preserves_transition_direction() {
    let down = InputEvent { source: ButtonIdentity::Click, transition: Transition::Pressed };
    assert_eq!(
        translate_event(down),
        Some(AbstractInputSymbol { key: KeyName::Return, pressed: true })
    );
    let up = InputEvent { source: ButtonIdentity::Click, transition: Transition::Released };
    assert_eq!(
        translate_event(up),
        Some(AbstractInputSymbol { key: KeyName::Return, pressed: false })
    );
}
