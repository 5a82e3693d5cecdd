use prevent_default::builder::{SCRIPT_BODY, SCRIPT_HEAD, SCRIPT_TAIL};
use prevent_default::WebviewSetting;
use prevent_default::{Builder, Flags, KeyboardShortcut, PlatformOptions, Script, WebkitOptions};

#[test]
fn script_of_selected_groups() {
    let mut builder = Builder::new()
        .with_flags(Flags::from_bits_truncate(Flags::DEV_TOOLS | Flags::CONTEXT_MENU))
        .shortcut(KeyboardShortcut::with_ctrl_shift("E"));
    let script = builder.create_script();
    let expected = format!(
        "{SCRIPT_HEAD}const ORIGIN=null;{SCRIPT_BODY}onKey('E',{{ctrlKey:true,shiftKey:true}});onKey('i',{{ctrlKey:true,shiftKey:true}});onPointer('contextmenu');{SCRIPT_TAIL}"
    );
    assert_eq!(script.as_str(), expected);
}

#[test]
fn script_with_origin_and_no_groups() {
    let mut builder = Builder::new()
        .with_flags(Flags::empty())
        .check_origin("https://example.com")
        .shortcut(KeyboardShortcut::new("F12"));
    let script = builder.create_script();
    let expected = format!(
        "{SCRIPT_HEAD}const ORIGIN='https://example.com';{SCRIPT_BODY}onKey('F12',{{}});{SCRIPT_TAIL}"
    );
    assert_eq!(script.to_string(), expected);
}

#[test]
fn default_groups_in_order() {
    let mut builder = Builder::new();
    let text = builder.create_script().into_string();
    let calls = "onKey('F3',{});onKey('f',{ctrlKey:true});onKey('g',{ctrlKey:true});\
onKey('g',{ctrlKey:true,shiftKey:true});onKey('F7',{});onKey('i',{ctrlKey:true,shiftKey:true});\
onKey('j',{ctrlKey:true});onKey('Tab',{shiftKey:true});onKey('F5',{});onKey('F5',{ctrlKey:true});\
onKey('F5',{shiftKey:true});onKey('r',{ctrlKey:true});onKey('r',{ctrlKey:true,shiftKey:true});\
onKey('u',{ctrlKey:true});onKey('o',{ctrlKey:true});onKey('p',{ctrlKey:true});\
onKey('p',{ctrlKey:true,shiftKey:true});onPointer('contextmenu');";
    assert!(text.contains(calls));
}

#[test]
fn flags_sets() {
    assert_eq!(Flags::all().bits(), 0x3ff);
    assert_eq!(Flags::default().bits(), 0x3ff);
    assert_eq!(Flags::empty().bits(), 0);
    assert_eq!(Flags::keyboard().bits(), 0x1ff);
    assert_eq!(Flags::pointer().bits(), Flags::CONTEXT_MENU);
    let debug = Flags::debug(true);
    assert!(!debug.contains(Flags::CONTEXT_MENU));
    assert!(!debug.contains(Flags::DEV_TOOLS));
    assert!(!debug.contains(Flags::RELOAD));
    assert!(debug.contains(Flags::FIND | Flags::PRINT));
    assert_eq!(Flags::debug(false), Flags::all());
    assert_eq!(Flags::from_bits_truncate(0xffff_ffff), Flags::all());
    let some = Flags::from_bits_truncate(Flags::FIND).union(Flags::from_bits_truncate(Flags::OPEN));
    assert_eq!(some.bits(), Flags::FIND | Flags::OPEN);
    assert_eq!(some.difference(Flags::from_bits_truncate(Flags::FIND)).bits(), Flags::OPEN);
}

#[test]
fn script_join() {
    let script = Script::new("a();").join("b();");
    assert_eq!(script.as_str(), "a();\nb();");
    assert_eq!(Script::from_string("x".to_owned()).into_string(), "x");
}

#[test]
fn platform_options_defaults() {
    let options = PlatformOptions::new().dev_tools(false).pinch_zoom(true);
    let text = format!("{options:?}");
    assert!(text.contains("dev_tools: Some(false)"));
    assert!(text.contains("pinch_zoom: Some(true)"));
    assert!(text.contains("general_autofill: None"));
    assert!(!WebkitOptions::default().allows_link_preview);
}

#[test]
fn platform_settings_in_apply_order() {
    let options = PlatformOptions::new()
        .swipe_navigation(false)
        .dev_tools(true)
        .browser_accelerator_keys(false)
        .built_in_error_page(true);
    assert_eq!(
        options.settings(),
        vec![
            (WebviewSetting::BuiltInErrorPage, true),
            (WebviewSetting::DevTools, true),
            (WebviewSetting::BrowserAcceleratorKeys, false),
            (WebviewSetting::SwipeNavigation, false),
        ]
    );
    assert!(PlatformOptions::new().settings().is_empty());
}

#[test]
fn script_bytes() {
    let script = Script::new("aé");
    assert_eq!(script.to_bytes(), vec![0x61, 0xc3, 0xa9]);
    assert_eq!(script.to_wide_bytes(), vec![0x61u16, 0xc3, 0xa9]);
}
