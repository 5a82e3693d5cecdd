use prevent_default::ModifierKey::{AltKey, CtrlKey, MetaKey, ShiftKey};
use prevent_default::{
    AnyShortcut, KeyboardShortcut, ListenerIds, ModifierKey, PointerEvent, PointerShortcut,
    Shortcut,
};

#[test]
fn shortcut_kind() {
    // Keyboard
    let keyboard = KeyboardShortcut::new("F12");
    let keyboard = Box::new(keyboard) as Box<dyn Shortcut>;
    assert!(keyboard.kind().is_keyboard());

    // Pointer
    let pointer = PointerShortcut::new(PointerEvent::ContextMenu);
    let pointer = Box::new(pointer) as Box<dyn Shortcut>;
    assert!(pointer.kind().is_pointer());
}

#[test]
fn modifier_key_order() {
    assert!(CtrlKey < ShiftKey);
    assert!(ShiftKey < AltKey);
    assert!(CtrlKey < AltKey);

    let mut modifiers = vec![AltKey, MetaKey, CtrlKey, ShiftKey];
    modifiers.sort();

    assert_eq!(modifiers, vec![CtrlKey, ShiftKey, AltKey, MetaKey]);
}

#[test]
fn modifier_precedence_and_names() {
    assert_eq!(CtrlKey.precedence(), 0);
    assert_eq!(ShiftKey.precedence(), 1);
    assert_eq!(AltKey.precedence(), 2);
    assert_eq!(MetaKey.precedence(), 3);
    assert_eq!(AltKey.as_str(), "altKey");
    assert_eq!(CtrlKey.to_string(), "ctrlKey");
    assert_eq!(MetaKey.as_str(), "metaKey");
    assert_eq!(ShiftKey.as_str(), "shiftKey");
}

#[test]
fn convenience_constructors_match_modifier_lists() {
    let pairs: Vec<(KeyboardShortcut, &[ModifierKey])> = vec![
        (KeyboardShortcut::with_alt("A"), &[AltKey]),
        (KeyboardShortcut::with_ctrl("A"), &[CtrlKey]),
        (KeyboardShortcut::with_ctrl_meta("A"), &[CtrlKey, MetaKey]),
        (KeyboardShortcut::with_ctrl_shift("A"), &[CtrlKey, ShiftKey]),
        (KeyboardShortcut::with_meta("A"), &[MetaKey]),
        (KeyboardShortcut::with_shift("A"), &[ShiftKey]),
        (KeyboardShortcut::with_shift_alt("A"), &[ShiftKey, AltKey]),
        (KeyboardShortcut::with_shift_meta("A"), &[ShiftKey, MetaKey]),
    ];
    for (shortcut, modifiers) in pairs {
        assert_eq!(shortcut.key(), "A");
        assert_eq!(shortcut.modifiers(), modifiers);
        assert_eq!(
            shortcut.to_string(),
            KeyboardShortcut::with_modifiers("A", modifiers).to_string()
        );
    }
    assert_eq!(KeyboardShortcut::with_shift_alt("I").to_string(), "keyboard:shift+alt+i");
}

#[test]
fn builder_collects_modifiers_in_order() {
    let shortcut = KeyboardShortcut::builder("E")
        .shift_key()
        .modifier(CtrlKey)
        .modifiers(&[AltKey, MetaKey])
        .ctrl_key()
        .alt_key()
        .meta_key()
        .build();
    assert_eq!(shortcut.key(), "E");
    assert_eq!(
        shortcut.modifiers(),
        &[ShiftKey, CtrlKey, AltKey, MetaKey, CtrlKey, AltKey, MetaKey]
    );
    assert_eq!(shortcut.canonical_key(), "keyboard:ctrl+shift+alt+meta+e");
}

#[test]
fn pointer_event_parse_and_name() {
    assert_eq!(PointerEvent::parse("contextmenu"), Some(PointerEvent::ContextMenu));
    assert_eq!(PointerEvent::parse("ContextMenu"), None);
    assert_eq!(PointerEvent::parse("click"), None);
    assert_eq!(PointerEvent::parse(""), None);
    assert_eq!(PointerEvent::ContextMenu.as_str(), "contextmenu");
    assert_eq!(PointerEvent::ContextMenu.to_string(), "contextmenu");
    let shortcut = PointerShortcut::builder(PointerEvent::ContextMenu).build();
    assert_eq!(shortcut.event(), PointerEvent::ContextMenu);
    assert_eq!(shortcut.to_string(), "pointer:contextmenu");
}

#[test]
fn take_listeners_twice() {
    let mut ids = ListenerIds::new();
    let a = ids.create().unwrap();
    let b = ids.create().unwrap();
    let mut shortcut = KeyboardShortcut::builder("r").ctrl_key().listener(a).listener(b).build();
    assert_eq!(shortcut.listeners(), &[a, b]);
    assert_eq!(shortcut.take_listeners(), vec![a, b]);
    assert_eq!(shortcut.take_listeners(), vec![]);
    assert_eq!(shortcut.to_string(), "keyboard:ctrl+r");

    let mut any = PointerShortcut::builder(PointerEvent::ContextMenu).listener(a).build().into_any();
    any.add_listener(b);
    assert_eq!(any.take_listeners(), vec![a, b]);
    assert_eq!(any.take_listeners(), vec![]);
    assert_eq!(any.canonical_key(), "pointer:contextmenu");
    assert!(matches!(any, AnyShortcut::Pointer(_)));
}

#[test]
fn listener_ids_increase() {
    let mut ids = ListenerIds::new();
    let first = ids.create().unwrap();
    let second = ids.create().unwrap();
    assert_eq!(first.id(), 0);
    assert_eq!(second.id(), 1);
    assert_ne!(first, second);
    assert_eq!(first, first.clone());
}
