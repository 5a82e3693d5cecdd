use prevent_default::{
    AnyShortcut, Builder, EmitPolicy, EmitTarget, Error, Flags, KeyboardPayload, KeyboardShortcut,
    ListenerIds, PointerEvent, PointerPayload, PointerShortcut, Registry, WindowFocus,
};

fn press(key: &str, ctrl: bool, shift: bool, alt: bool) -> KeyboardPayload {
    KeyboardPayload {
        key: key.to_owned(),
        alt_key: alt,
        ctrl_key: ctrl,
        meta_key: false,
        shift_key: shift,
        origin: None,
    }
}

fn window(label: &str, focused: bool) -> WindowFocus {
    WindowFocus { label: label.to_owned(), focused }
}

#[test]
fn end_to_end_ctrl_shift_i_to_origin() {
    let mut ids = ListenerIds::new();
    let l = ids.create().unwrap();
    let shortcut = KeyboardShortcut::builder("I").ctrl_key().shift_key().listener(l).build();
    let prepared = Builder::new().emit_policy(EmitPolicy::Origin).shortcut(shortcut).prepare();

    let payload = press("i", true, true, false);
    let windows = vec![window("main", true), window("other", false)];
    let dispatch = prepared.state.keyboard(&payload, "main", &windows);

    assert_eq!(dispatch.listeners, vec![l]);
    let emission = dispatch.emit.expect("one published event");
    assert!(matches!(&emission.target, EmitTarget::Window(w) if w == "main"));
    assert_eq!(emission.payload.key, "i");
    assert!(emission.payload.ctrl_key);
    assert!(emission.payload.shift_key);
    assert!(!emission.payload.alt_key);
    assert!(!emission.payload.meta_key);
    assert_eq!(emission.payload.origin.as_deref(), Some("main"));
}

#[test]
fn same_key_definitions_merge_listeners() {
    let mut ids = ListenerIds::new();
    let a = ids.create().unwrap();
    let b = ids.create().unwrap();
    let first = KeyboardShortcut::builder("P").ctrl_key().shift_key().listener(a).build();
    let second = KeyboardShortcut::builder("p").shift_key().ctrl_key().ctrl_key().listener(b).listener(a).build();
    let prepared = Builder::new()
        .with_flags(Flags::empty())
        .shortcut(first)
        .shortcut(second)
        .prepare();

    let dispatch = prepared.state.keyboard(&press("p", true, true, false), "main", &vec![]);
    let mut got = dispatch.listeners.clone();
    got.sort_by_key(|l| l.id());
    assert_eq!(got, vec![a, b]);
    assert!(dispatch.emit.is_none());
}

#[test]
fn registry_register_and_get() {
    let mut ids = ListenerIds::new();
    let a = ids.create().unwrap();
    let b = ids.create().unwrap();
    let mut registry = Registry::new();
    registry.register("keyboard:a".to_owned(), vec![a, a]);
    registry.register("keyboard:a".to_owned(), vec![b, a]);
    registry.register("keyboard:b".to_owned(), vec![]);
    assert_eq!(registry.get("keyboard:a"), vec![a, b]);
    assert_eq!(registry.get("keyboard:b"), vec![]);
    assert_eq!(registry.get("keyboard:c"), vec![]);

    let mut shortcuts = vec![
        AnyShortcut::Keyboard(KeyboardShortcut::builder("A").listener(a).build()),
        AnyShortcut::Pointer(PointerShortcut::builder(PointerEvent::ContextMenu).listener(b).build()),
    ];
    let built = Registry::from_shortcuts(&mut shortcuts);
    assert_eq!(built.get("keyboard:a"), vec![a]);
    assert_eq!(built.get("pointer:contextmenu"), vec![b]);
    for shortcut in shortcuts.iter_mut() {
        assert_eq!(shortcut.take_listeners(), vec![]);
    }
}

#[test]
fn unknown_pointer_event_is_an_error() {
    let mut ids = ListenerIds::new();
    let l = ids.create().unwrap();
    let shortcut = PointerShortcut::builder(PointerEvent::ContextMenu).listener(l).build();
    let prepared = Builder::new().emit_policy(EmitPolicy::All).shortcut(shortcut).prepare();
    let payload = PointerPayload { name: "dblclick".to_owned(), origin: None };
    let result = prepared.state.pointer(&payload, "main", &vec![window("main", true)]);
    match result {
        Err(Error::UnknownPointerEvent(name)) => assert_eq!(name, "dblclick"),
        Ok(_) => panic!("an unknown pointer event was dispatched"),
    }
    let err = Error::UnknownPointerEvent("dblclick".to_owned());
    assert_eq!(err.to_string(), "unknown pointer event: dblclick");
}

#[test]
fn known_pointer_event_reaches_listeners_and_all_windows() {
    let mut ids = ListenerIds::new();
    let l = ids.create().unwrap();
    let shortcut = PointerShortcut::builder(PointerEvent::ContextMenu).listener(l).build();
    let prepared = Builder::new().emit_policy(EmitPolicy::All).shortcut(shortcut).prepare();
    let payload = PointerPayload { name: "contextmenu".to_owned(), origin: None };
    let dispatch = prepared.state.pointer(&payload, "main", &vec![]).unwrap();
    assert_eq!(dispatch.listeners, vec![l]);
    let emission = dispatch.emit.unwrap();
    assert!(matches!(emission.target, EmitTarget::AllWindows));
    assert_eq!(emission.payload.name, "contextmenu");
    assert_eq!(emission.payload.origin.as_deref(), Some("main"));
}

#[test]
fn disabled_policy_never_publishes() {
    let mut ids = ListenerIds::new();
    let l = ids.create().unwrap();
    let shortcut = KeyboardShortcut::builder("F5").listener(l).build();
    let prepared = Builder::new().emit_policy(EmitPolicy::Disabled).shortcut(shortcut).prepare();
    let windows = vec![window("main", true)];
    let hit = prepared.state.keyboard(&press("F5", false, false, false), "main", &windows);
    assert_eq!(hit.listeners, vec![l]);
    assert!(hit.emit.is_none());
    let miss = prepared.state.keyboard(&press("q", false, false, true), "main", &windows);
    assert!(miss.listeners.is_empty());
    assert!(miss.emit.is_none());
    let pointer = PointerPayload { name: "contextmenu".to_owned(), origin: None };
    assert!(prepared.state.pointer(&pointer, "main", &windows).unwrap().emit.is_none());
}

#[test]
fn focused_policy_without_focus_publishes_nothing() {
    let prepared = Builder::new().emit_policy(EmitPolicy::Focused).prepare();
    let windows = vec![window("main", false), window("other", false)];
    let dispatch = prepared.state.keyboard(&press("r", true, false, false), "main", &windows);
    assert!(dispatch.listeners.is_empty());
    assert!(dispatch.emit.is_none());
}

#[test]
fn focused_policy_picks_the_focused_window() {
    let prepared = Builder::new().emit_policy(EmitPolicy::Focused).prepare();
    let windows = vec![window("main", false), window("second", true), window("third", true)];
    let dispatch = prepared.state.keyboard(&press("r", true, false, false), "main", &windows);
    let emission = dispatch.emit.unwrap();
    assert!(matches!(&emission.target, EmitTarget::Window(w) if w == "second"));
}

#[test]
fn custom_policy_targets_the_named_window() {
    let prepared = Builder::new().emit_policy(EmitPolicy::Custom("logger".to_owned())).prepare();
    let dispatch = prepared.state.keyboard(&press("r", true, false, false), "main", &vec![]);
    let emission = dispatch.emit.unwrap();
    assert!(matches!(&emission.target, EmitTarget::Window(w) if w == "logger"));
    assert_eq!(emission.payload.origin.as_deref(), Some("main"));
}

#[test]
fn emit_policy_predicates() {
    assert!(EmitPolicy::All.is_all());
    assert!(EmitPolicy::Custom("x".to_owned()).is_custom());
    assert!(EmitPolicy::Focused.is_focused());
    assert!(EmitPolicy::Origin.is_origin());
    assert!(EmitPolicy::default().is_disabled());
    assert!(!EmitPolicy::All.is_disabled());
}
