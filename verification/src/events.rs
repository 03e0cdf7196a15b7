//! Input events and their translation into renderer-facing symbols.

use vstd::prelude::*;

verus! {

/// The closed set of physical buttons. `TopRight` exists on the device
/// but is intentionally unmapped: translating it yields no symbol.
#[derive(Clone, Copy, PartialEq, Eq, Structural, Debug)]
pub enum ButtonIdentity {
    TopLeft,
    TopMiddle,
    TopRight,
    Up,
    Left,
    Right,
    Down,
    Click,
}

/// The direction of a hardware button edge.
#[derive(Clone, Copy, PartialEq, Eq, Structural, Debug)]
pub enum Transition {
    Pressed,
    Released,
}

/// One hardware input event, produced in interrupt context and
/// consumed exactly once by the main loop.
#[derive(Clone, Copy, PartialEq, Eq, Structural, Debug)]
pub struct InputEvent {
    pub source: ButtonIdentity,
    pub transition: Transition,
}

/// The named keys the renderer understands.
#[derive(Clone, Copy, PartialEq, Eq, Structural, Debug)]
pub enum KeyName {
    F1,
    F2,
    F3,
    Up,
    Left,
    Right,
    Down,
    Return,
}

/// The renderer-facing form of an input event: a named key plus
/// whether it was pressed or released.
#[derive(Clone, Copy, PartialEq, Eq, Structural, Debug)]
pub struct AbstractInputSymbol {
    pub key: KeyName,
    pub pressed: bool,
}

/// The fixed button-to-key lookup. `TopRight` is the one unsupported
/// button and maps to no key.
pub open spec fn spec_translate(b: ButtonIdentity) -> Option<KeyName> {
    match b {
        ButtonIdentity::TopLeft => Some(KeyName::F1),
        ButtonIdentity::TopMiddle => Some(KeyName::F2),
        ButtonIdentity::TopRight => None,
        ButtonIdentity::Up => Some(KeyName::Up),
        ButtonIdentity::Left => Some(KeyName::Left),
        ButtonIdentity::Right => Some(KeyName::Right),
        ButtonIdentity::Down => Some(KeyName::Down),
        ButtonIdentity::Click => Some(KeyName::Return),
    }
}

/// The symbol an event translates to, if its button is mapped.
pub open spec fn spec_translate_event(e: InputEvent) -> Option<AbstractInputSymbol> {
    match spec_translate(e.source) {
        Some(key) => Some(
            AbstractInputSymbol { key, pressed: e.transition == Transition::Pressed },
        ),
        None => None,
    }
}

/// Translates a button identity into the key name the renderer
/// understands; the unsupported button yields `None`.
pub fn translate(b: ButtonIdentity) -> (r: Option<KeyName>)
    ensures
        r == spec_translate(b),
{
    match b {
        ButtonIdentity::TopLeft => Some(KeyName::F1),
        ButtonIdentity::TopMiddle => Some(KeyName::F2),
        ButtonIdentity::TopRight => None,
        ButtonIdentity::Up => Some(KeyName::Up),
        ButtonIdentity::Left => Some(KeyName::Left),
        ButtonIdentity::Right => Some(KeyName::Right),
        ButtonIdentity::Down => Some(KeyName::Down),
        ButtonIdentity::Click => Some(KeyName::Return),
    }
}

/// Translates a whole event; an event from the unsupported button is
/// dropped silently (`None`), so nothing is forwarded for it.
pub fn translate_event(e: InputEvent) -> (r: Option<AbstractInputSymbol>)
    ensures
        r == spec_translate_event(e),
{
    match translate(e.source) {
        Some(key) => Some(
            AbstractInputSymbol {
                key,
                pressed: matches!(e.transition, Transition::Pressed),
            },
        ),
        None => None,
    }
}

/// Translation completeness: every button except the one unsupported
/// case maps to exactly one key, and the unsupported case maps to no
/// symbol at all.
pub proof fn lemma_translation_completeness()
    ensures
        forall|b: ButtonIdentity|
            b != ButtonIdentity::TopRight ==> #[trigger] spec_translate(b) is Some,
        spec_translate(ButtonIdentity::TopRight) is None,
        forall|e: InputEvent|
            e.source != ButtonIdentity::TopRight ==> #[trigger] spec_translate_event(e)
                is Some,
        forall|e: InputEvent|
            e.source == ButtonIdentity::TopRight ==> #[trigger] spec_translate_event(e)
                is None,
{
}

} // verus!
