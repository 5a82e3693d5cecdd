//! Keyboard shortcuts and their builder.
use crate::display;
use crate::listener::EventListener;
use crate::shortcut::ModifierKey;
use vstd::prelude::*;

verus! {

/// A shortcut on a key pressed together with a set of modifiers.
///
/// The modifiers are kept as given, repetitions included; they count as a set wherever the
/// shortcut is compared or looked up, through its canonical key.
#[derive(Debug)]
pub struct KeyboardShortcut {
    key: String,
    modifiers: Vec<ModifierKey>,
    listeners: Vec<EventListener>,
}

impl KeyboardShortcut {
    pub closed spec fn spec_key(&self) -> Seq<char> {
        self.key@
    }

    pub closed spec fn spec_modifiers(&self) -> Seq<ModifierKey> {
        self.modifiers@
    }

    /// Listeners attached and not yet taken.
    pub closed spec fn spec_listeners(&self) -> Seq<EventListener> {
        self.listeners@
    }

    /// A keyboard shortcut on `key` without modifiers.
    pub fn new(key: &str) -> (r: KeyboardShortcut)
        ensures
            r.spec_key() == key@,
            r.spec_modifiers() == Seq::<ModifierKey>::empty(),
            r.spec_listeners() == Seq::<EventListener>::empty(),
    {
        KeyboardShortcut { key: key.to_owned(), modifiers: Vec::new(), listeners: Vec::new() }
    }

    /// A builder for a keyboard shortcut on `key`.
    pub fn builder(key: &str) -> (r: KeyboardShortcutBuilder)
        ensures
            r.spec_key() == key@,
            r.spec_modifiers() == Seq::<ModifierKey>::empty(),
            r.spec_listeners() == Seq::<EventListener>::empty(),
    {
        KeyboardShortcutBuilder::new(key)
    }

    /// A keyboard shortcut on `key` with the given modifiers.
    pub fn with_modifiers(key: &str, modifiers: &[ModifierKey]) -> (r: KeyboardShortcut)
        ensures
            r.spec_key() == key@,
            r.spec_modifiers() == modifiers@,
            r.spec_listeners() == Seq::<EventListener>::empty(),
    {
        Self::builder(key).modifiers(modifiers).build()
    }

    /// A keyboard shortcut on `key` with the `AltKey` modifier.
    pub fn with_alt(key: &str) -> (r: KeyboardShortcut)
        ensures
            r.spec_key() == key@,
            r.spec_modifiers() == seq![ModifierKey::AltKey],
            r.spec_listeners() == Seq::<EventListener>::empty(),
    {
        Self::builder(key).alt_key().build()
    }

    /// A keyboard shortcut on `key` with the `CtrlKey` modifier.
    pub fn with_ctrl(key: &str) -> (r: KeyboardShortcut)
        ensures
            r.spec_key() == key@,
            r.spec_modifiers() == seq![ModifierKey::CtrlKey],
            r.spec_listeners() == Seq::<EventListener>::empty(),
    {
        Self::builder(key).ctrl_key().build()
    }

    /// A keyboard shortcut on `key` with the `CtrlKey` and `MetaKey` modifiers.
    pub fn with_ctrl_meta(key: &str) -> (r: KeyboardShortcut)
        ensures
            r.spec_key() == key@,
            r.spec_modifiers() == seq![ModifierKey::CtrlKey, ModifierKey::MetaKey],
            r.spec_listeners() == Seq::<EventListener>::empty(),
    {
        Self::builder(key).modifiers(&[ModifierKey::CtrlKey, ModifierKey::MetaKey]).build()
    }

    /// A keyboard shortcut on `key` with the `CtrlKey` and `ShiftKey` modifiers.
    pub fn with_ctrl_shift(key: &str) -> (r: KeyboardShortcut)
        ensures
            r.spec_key() == key@,
            r.spec_modifiers() == seq![ModifierKey::CtrlKey, ModifierKey::ShiftKey],
            r.spec_listeners() == Seq::<EventListener>::empty(),
    {
        Self::builder(key).modifiers(&[ModifierKey::CtrlKey, ModifierKey::ShiftKey]).build()
    }

    /// A keyboard shortcut on `key` with the `MetaKey` modifier.
    pub fn with_meta(key: &str) -> (r: KeyboardShortcut)
        ensures
            r.spec_key() == key@,
            r.spec_modifiers() == seq![ModifierKey::MetaKey],
            r.spec_listeners() == Seq::<EventListener>::empty(),
    {
        Self::builder(key).meta_key().build()
    }

    /// A keyboard shortcut on `key` with the `ShiftKey` modifier.
    pub fn with_shift(key: &str) -> (r: KeyboardShortcut)
        ensures
            r.spec_key() == key@,
            r.spec_modifiers() == seq![ModifierKey::ShiftKey],
            r.spec_listeners() == Seq::<EventListener>::empty(),
    {
        Self::builder(key).shift_key().build()
    }

    /// A keyboard shortcut on `key` with the `ShiftKey` and `AltKey` modifiers.
    pub fn with_shift_alt(key: &str) -> (r: KeyboardShortcut)
        ensures
            r.spec_key() == key@,
            r.spec_modifiers() == seq![ModifierKey::ShiftKey, ModifierKey::AltKey],
            r.spec_listeners() == Seq::<EventListener>::empty(),
    {
        Self::builder(key).modifiers(&[ModifierKey::ShiftKey, ModifierKey::AltKey]).build()
    }

    /// A keyboard shortcut on `key` with the `ShiftKey` and `MetaKey` modifiers.
    pub fn with_shift_meta(key: &str) -> (r: KeyboardShortcut)
        ensures
            r.spec_key() == key@,
            r.spec_modifiers() == seq![ModifierKey::ShiftKey, ModifierKey::MetaKey],
            r.spec_listeners() == Seq::<EventListener>::empty(),
    {
        Self::builder(key).modifiers(&[ModifierKey::ShiftKey, ModifierKey::MetaKey]).build()
    }

    /// The key of the shortcut, as given.
    pub fn key(&self) -> (r: &str)
        ensures
            r@ == self.spec_key(),
    {
        self.key.as_str()
    }

    /// The modifiers of the shortcut, as given.
    pub fn modifiers(&self) -> (r: &[ModifierKey])
        ensures
            r@ == self.spec_modifiers(),
    {
        self.modifiers.as_slice()
    }

    /// The listeners attached and not yet taken.
    pub fn listeners(&self) -> (r: &[EventListener])
        ensures
            r@ == self.spec_listeners(),
    {
        self.listeners.as_slice()
    }

    /// The canonical key of the shortcut.
    pub fn to_string(&self) -> (r: String)
        ensures
            r@ == display::keyboard_key(self.spec_key(), self.spec_modifiers()),
    {
        display::keyboard(self.key.as_str(), self.modifiers.as_slice())
    }

    /// Attach a listener.
    pub fn add_listener(&mut self, listener: EventListener)
        ensures
            final(self).spec_key() == old(self).spec_key(),
            final(self).spec_modifiers() == old(self).spec_modifiers(),
            final(self).spec_listeners() == old(self).spec_listeners().push(listener),
    {
        self.listeners.push(listener);
    }

    /// Move the attached listeners out, leaving none behind.
    pub fn take_listeners(&mut self) -> (r: Vec<EventListener>)
        ensures
            r@ == old(self).spec_listeners(),
            final(self).spec_key() == old(self).spec_key(),
            final(self).spec_modifiers() == old(self).spec_modifiers(),
            final(self).spec_listeners() == Seq::<EventListener>::empty(),
    {
        let mut taken = Vec::new();
        taken.append(&mut self.listeners);
        taken
    }
}

/// Builder of a [`KeyboardShortcut`]: collects modifiers and listeners one by one.
#[derive(Debug)]
pub struct KeyboardShortcutBuilder {
    key: String,
    modifiers: Vec<ModifierKey>,
    listeners: Vec<EventListener>,
}

impl KeyboardShortcutBuilder {
    pub closed spec fn spec_key(&self) -> Seq<char> {
        self.key@
    }

    pub closed spec fn spec_modifiers(&self) -> Seq<ModifierKey> {
        self.modifiers@
    }

    pub closed spec fn spec_listeners(&self) -> Seq<EventListener> {
        self.listeners@
    }

    /// A builder for a keyboard shortcut on `key`, without modifiers yet.
    pub fn new(key: &str) -> (r: KeyboardShortcutBuilder)
        ensures
            r.spec_key() == key@,
            r.spec_modifiers() == Seq::<ModifierKey>::empty(),
            r.spec_listeners() == Seq::<EventListener>::empty(),
    {
        KeyboardShortcutBuilder { key: key.to_owned(), modifiers: Vec::new(), listeners: Vec::new() }
    }

    /// Add a modifier.
    #[must_use]
    pub fn modifier(self, modifier: ModifierKey) -> (r: KeyboardShortcutBuilder)
        ensures
            r.spec_key() == self.spec_key(),
            r.spec_modifiers() == self.spec_modifiers().push(modifier),
            r.spec_listeners() == self.spec_listeners(),
    {
        let mut builder = self;
        builder.modifiers.push(modifier);
        builder
    }

    /// Add several modifiers, in the order given.
    #[must_use]
    pub fn modifiers(self, modifiers: &[ModifierKey]) -> (r: KeyboardShortcutBuilder)
        ensures
            r.spec_key() == self.spec_key(),
            r.spec_modifiers() == self.spec_modifiers() + modifiers@,
            r.spec_listeners() == self.spec_listeners(),
    {
        let mut builder = self;
        let ghost before = builder.modifiers@;
        builder.modifiers.extend_from_slice(modifiers);
        assert(builder.modifiers@ =~= before + modifiers@);
        builder
    }

    /// Add the `AltKey` modifier.
    #[must_use]
    pub fn alt_key(self) -> (r: KeyboardShortcutBuilder)
        ensures
            r.spec_key() == self.spec_key(),
            r.spec_modifiers() == self.spec_modifiers().push(ModifierKey::AltKey),
            r.spec_listeners() == self.spec_listeners(),
    {
        let mut builder = self;
        builder.modifiers.push(ModifierKey::AltKey);
        builder
    }

    /// Add the `CtrlKey` modifier.
    #[must_use]
    pub fn ctrl_key(self) -> (r: KeyboardShortcutBuilder)
        ensures
            r.spec_key() == self.spec_key(),
            r.spec_modifiers() == self.spec_modifiers().push(ModifierKey::CtrlKey),
            r.spec_listeners() == self.spec_listeners(),
    {
        let mut builder = self;
        builder.modifiers.push(ModifierKey::CtrlKey);
        builder
    }

    /// Add the `MetaKey` modifier.
    #[must_use]
    pub fn meta_key(self) -> (r: KeyboardShortcutBuilder)
        ensures
            r.spec_key() == self.spec_key(),
            r.spec_modifiers() == self.spec_modifiers().push(ModifierKey::MetaKey),
            r.spec_listeners() == self.spec_listeners(),
    {
        let mut builder = self;
        builder.modifiers.push(ModifierKey::MetaKey);
        builder
    }

    /// Add the `ShiftKey` modifier.
    #[must_use]
    pub fn shift_key(self) -> (r: KeyboardShortcutBuilder)
        ensures
            r.spec_key() == self.spec_key(),
            r.spec_modifiers() == self.spec_modifiers().push(ModifierKey::ShiftKey),
            r.spec_listeners() == self.spec_listeners(),
    {
        let mut builder = self;
        builder.modifiers.push(ModifierKey::ShiftKey);
        builder
    }

    /// Attach a listener to the shortcut being built.
    #[must_use]
    pub fn listener(self, listener: EventListener) -> (r: KeyboardShortcutBuilder)
        ensures
            r.spec_key() == self.spec_key(),
            r.spec_modifiers() == self.spec_modifiers(),
            r.spec_listeners() == self.spec_listeners().push(listener),
    {
        let mut builder = self;
        builder.listeners.push(listener);
        builder
    }

    /// Build the keyboard shortcut.
    pub fn build(self) -> (r: KeyboardShortcut)
        ensures
            r.spec_key() == self.spec_key(),
            r.spec_modifiers() == self.spec_modifiers(),
            r.spec_listeners() == self.spec_listeners(),
    {
        KeyboardShortcut { key: self.key, modifiers: self.modifiers, listeners: self.listeners }
    }
}

} // verus!
