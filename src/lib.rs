//! Suppression of default browser shortcuts in application webviews.
//!
//! The library models keyboard and pointer shortcuts, derives a canonical key for each,
//! keeps the listeners registered under those keys, builds the script that the webviews
//! run, and decides for each reported event which listeners run and where the event is
//! published again.
pub mod builder;
pub mod command;
pub mod display;
pub mod error;
pub mod event;
pub mod flags;
pub mod listener;
pub mod platform;
pub mod registry;
pub mod script;
pub mod shortcut;

pub use builder::{Builder, Prepared};
pub use command::{Dispatch, Emission, KeyboardPayload, PluginState, PointerPayload};
pub use error::Error;
pub use event::{EmitPolicy, EmitTarget, WindowFocus};
pub use flags::Flags;
pub use listener::{EventListener, ListenerIds};
pub use platform::{PlatformOptions, WebkitOptions, WebviewSetting};
pub use registry::Registry;
pub use script::Script;
pub use shortcut::{
    AnyShortcut, KeyboardShortcut, KeyboardShortcutBuilder, ModifierKey, PointerEvent,
    PointerShortcut, PointerShortcutBuilder, Shortcut, ShortcutKind,
};
