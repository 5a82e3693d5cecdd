use prevent_default::display::{keyboard as k, keyboard_lowered, pointer as p};
use prevent_default::ModifierKey::{AltKey, CtrlKey, MetaKey, ShiftKey};
use prevent_default::PointerEvent;

#[test]
fn display_keyboard() {
    assert_eq!(k("A", &[]), "keyboard:a");
    assert_eq!(k("A", &[CtrlKey]), "keyboard:ctrl+a");
    assert_eq!(k("A", &[ShiftKey, CtrlKey]), "keyboard:ctrl+shift+a");
    assert_eq!(k("A", &[MetaKey, ShiftKey]), "keyboard:shift+meta+a");
    assert_eq!(k("A", &[MetaKey, ShiftKey, CtrlKey]), "keyboard:ctrl+shift+meta+a");
    assert_eq!(k("A", &[ShiftKey, AltKey, CtrlKey]), "keyboard:ctrl+shift+alt+a");
    assert_eq!(k("A", &[ShiftKey, AltKey, CtrlKey, CtrlKey]), "keyboard:ctrl+shift+alt+a");
    assert_eq!(k("A", &[MetaKey, ShiftKey, AltKey, CtrlKey]), "keyboard:ctrl+shift+alt+meta+a");
    assert_eq!(
        k("A", &[ShiftKey, AltKey, CtrlKey, CtrlKey, ShiftKey]),
        "keyboard:ctrl+shift+alt+a"
    );
    assert_eq!(
        k("A", &[ShiftKey, MetaKey, AltKey, CtrlKey, MetaKey]),
        "keyboard:ctrl+shift+alt+meta+a"
    );
}

#[test]
fn display_pointer() {
    assert_eq!(p(PointerEvent::ContextMenu), "pointer:contextmenu");
}

#[test]
fn canonical_key_ignores_modifier_order_and_repetition() {
    let once = k("A", &[ShiftKey, AltKey, CtrlKey]);
    let repeated = k("A", &[CtrlKey, CtrlKey, ShiftKey, AltKey, ShiftKey]);
    assert_eq!(once, "keyboard:ctrl+shift+alt+a");
    assert_eq!(once, repeated);
    assert_eq!(k("x", &[AltKey, AltKey, AltKey]), k("x", &[AltKey]));
}

#[test]
fn canonical_key_ignores_key_case() {
    assert_eq!(k("A", &[]), k("a", &[]));
    assert_eq!(k("a", &[]), "keyboard:a");
    assert_eq!(k("Tab", &[ShiftKey]), "keyboard:shift+tab");
    assert_eq!(k("F5", &[CtrlKey]), "keyboard:ctrl+f5");
}

#[test]
fn canonical_key_without_modifiers_has_no_separator() {
    assert_eq!(k("A", &[]), "keyboard:a");
    assert_eq!(k("F12", &[]), "keyboard:f12");
}

#[test]
fn canonical_key_of_lowered_key_keeps_the_key() {
    assert_eq!(keyboard_lowered("A", &[MetaKey, CtrlKey]), "keyboard:ctrl+meta+A");
    assert_eq!(keyboard_lowered("", &[]), "keyboard:");
}
