//! Shortcuts: what can be suppressed, and the listeners attached to it.
mod keyboard;
mod pointer;

pub use keyboard::{KeyboardShortcut, KeyboardShortcutBuilder};
pub use pointer::{PointerEvent, PointerShortcut, PointerShortcutBuilder};

use crate::display;
use crate::listener::EventListener;
use vstd::prelude::*;

verus! {

/// A keyboard modifier.
///
/// The variants are declared in precedence order, so the derived ordering is
/// `CtrlKey < ShiftKey < AltKey < MetaKey`.
#[non_exhaustive]
#[derive(Clone, Copy, Debug, PartialEq, Eq, Structural, PartialOrd, Ord, Hash)]
pub enum ModifierKey {
    CtrlKey,
    ShiftKey,
    AltKey,
    MetaKey,
}

impl ModifierKey {
    /// Rank of the modifier in canonical keys.
    pub open spec fn spec_precedence(self) -> u8 {
        match self {
            ModifierKey::CtrlKey => 0,
            ModifierKey::ShiftKey => 1,
            ModifierKey::AltKey => 2,
            ModifierKey::MetaKey => 3,
        }
    }

    /// Text that the modifier contributes to a canonical key.
    pub open spec fn spec_token(self) -> Seq<char> {
        match self {
            ModifierKey::CtrlKey => "ctrl+"@,
            ModifierKey::ShiftKey => "shift+"@,
            ModifierKey::AltKey => "alt+"@,
            ModifierKey::MetaKey => "meta+"@,
        }
    }

    /// Name of the modifier on the wire, as the injected script and the event payloads spell it.
    pub open spec fn spec_wire_name(self) -> Seq<char> {
        match self {
            ModifierKey::CtrlKey => "ctrlKey"@,
            ModifierKey::ShiftKey => "shiftKey"@,
            ModifierKey::AltKey => "altKey"@,
            ModifierKey::MetaKey => "metaKey"@,
        }
    }

    #[verifier::when_used_as_spec(spec_precedence)]
    pub fn precedence(self) -> (r: u8)
        ensures
            r == self.spec_precedence(),
    {
        match self {
            ModifierKey::CtrlKey => 0,
            ModifierKey::ShiftKey => 1,
            ModifierKey::AltKey => 2,
            ModifierKey::MetaKey => 3,
        }
    }

    /// The wire name of the modifier (`ctrlKey`, `shiftKey`, `altKey`, `metaKey`).
    pub fn as_str(self) -> (r: &'static str)
        ensures
            r@ == self.spec_wire_name(),
    {
        match self {
            ModifierKey::CtrlKey => "ctrlKey",
            ModifierKey::ShiftKey => "shiftKey",
            ModifierKey::AltKey => "altKey",
            ModifierKey::MetaKey => "metaKey",
        }
    }

    /// The wire name of the modifier as an owned string.
    pub fn to_string(&self) -> (r: String)
        ensures
            r@ == self.spec_wire_name(),
    {
        self.as_str().to_owned()
    }
}

/// A shortcut that can be registered: a keyboard shortcut or a pointer shortcut.
pub trait Shortcut {
    /// The shortcut as a value of the closed set of shortcut kinds.
    spec fn spec_any(&self) -> AnyShortcut;

    /// A view of the shortcut as one of the two kinds.
    fn kind(&self) -> (r: ShortcutKind<'_>)
        ensures
            r.spec_is_keyboard() == (self.spec_any() is Keyboard),
    ;

    /// The canonical key of the shortcut.
    fn canonical_key(&self) -> (r: String)
        ensures
            r@ == self.spec_any().key_of(),
    ;

    /// The shortcut as a value of the closed set of shortcut kinds.
    fn into_any(self) -> (r: AnyShortcut) where Self: Sized
        ensures
            r == self.spec_any(),
    ;
}

/// A borrowed shortcut, told apart by kind.
#[derive(Debug)]
pub enum ShortcutKind<'a> {
    Keyboard(&'a KeyboardShortcut),
    Pointer(&'a PointerShortcut),
}

impl ShortcutKind<'_> {
    pub open spec fn spec_is_keyboard(&self) -> bool {
        self is Keyboard
    }

    /// Returns `true` if the shortcut is a keyboard shortcut.
    pub fn is_keyboard(&self) -> (r: bool)
        ensures
            r == self is Keyboard,
    {
        match self {
            ShortcutKind::Keyboard(_) => true,
            ShortcutKind::Pointer(_) => false,
        }
    }

    /// Returns `true` if the shortcut is a pointer shortcut.
    pub fn is_pointer(&self) -> (r: bool)
        ensures
            r == self is Pointer,
    {
        match self {
            ShortcutKind::Keyboard(_) => false,
            ShortcutKind::Pointer(_) => true,
        }
    }
}

/// An owned shortcut of either kind.
#[derive(Debug)]
pub enum AnyShortcut {
    Keyboard(KeyboardShortcut),
    Pointer(PointerShortcut),
}

/// Whether `a` and `b` define the same shortcut, listeners aside.
pub open spec fn same_definition(a: AnyShortcut, b: AnyShortcut) -> bool {
    match (a, b) {
        (AnyShortcut::Keyboard(x), AnyShortcut::Keyboard(y)) => x.spec_key() == y.spec_key()
            && x.spec_modifiers() == y.spec_modifiers(),
        (AnyShortcut::Pointer(x), AnyShortcut::Pointer(y)) => x.spec_event() == y.spec_event(),
        _ => false,
    }
}

/// Whether `after` is `before` with its pending listeners, `taken`, moved out.
pub open spec fn takes(before: AnyShortcut, after: AnyShortcut, taken: Seq<EventListener>) -> bool {
    &&& taken == before.pending_of()
    &&& after.pending_of() == Seq::<EventListener>::empty()
    &&& same_definition(after, before)
    &&& after.key_of() == before.key_of()
}

/// Taking the pending listeners twice in a row yields all of them the first time and none
/// the second: together the two results are the listeners that were pending, none lost and
/// none repeated, and the shortcut keeps its definition.
pub proof fn lemma_take_listeners_twice(
    s: AnyShortcut,
    once: AnyShortcut,
    twice: AnyShortcut,
    first: Seq<EventListener>,
    second: Seq<EventListener>,
)
    requires
        takes(s, once, first),
        takes(once, twice, second),
    ensures
        first == s.pending_of(),
        second == Seq::<EventListener>::empty(),
        first + second == s.pending_of(),
        same_definition(twice, s),
        twice.key_of() == s.key_of(),
{
    assert(first + second =~= s.pending_of());
}

impl AnyShortcut {
    /// The canonical key of the shortcut.
    pub open spec fn key_of(self) -> Seq<char> {
        match self {
            AnyShortcut::Keyboard(k) => display::keyboard_key(k.spec_key(), k.spec_modifiers()),
            AnyShortcut::Pointer(p) => display::pointer_key(p.spec_event()),
        }
    }

    /// Listeners attached and not yet taken.
    pub open spec fn pending_of(self) -> Seq<EventListener> {
        match self {
            AnyShortcut::Keyboard(k) => k.spec_listeners(),
            AnyShortcut::Pointer(p) => p.spec_listeners(),
        }
    }

    /// Move the attached listeners out, leaving none behind.
    pub fn take_listeners(&mut self) -> (r: Vec<EventListener>)
        ensures
            takes(*old(self), *final(self), r@),
    {
        match self {
            AnyShortcut::Keyboard(k) => k.take_listeners(),
            AnyShortcut::Pointer(p) => p.take_listeners(),
        }
    }

    /// Attach a listener.
    pub fn add_listener(&mut self, listener: EventListener)
        ensures
            final(self).pending_of() == old(self).pending_of().push(listener),
            same_definition(*final(self), *old(self)),
            final(self).key_of() == old(self).key_of(),
    {
        match self {
            AnyShortcut::Keyboard(k) => k.add_listener(listener),
            AnyShortcut::Pointer(p) => p.add_listener(listener),
        }
    }
}

impl Shortcut for KeyboardShortcut {
    open spec fn spec_any(&self) -> AnyShortcut {
        AnyShortcut::Keyboard(*self)
    }

    fn kind(&self) -> (r: ShortcutKind<'_>) {
        ShortcutKind::Keyboard(self)
    }

    fn canonical_key(&self) -> (r: String) {
        self.to_string()
    }

    fn into_any(self) -> (r: AnyShortcut) {
        AnyShortcut::Keyboard(self)
    }
}

impl Shortcut for PointerShortcut {
    open spec fn spec_any(&self) -> AnyShortcut {
        AnyShortcut::Pointer(*self)
    }

    fn kind(&self) -> (r: ShortcutKind<'_>) {
        ShortcutKind::Pointer(self)
    }

    fn canonical_key(&self) -> (r: String) {
        self.to_string()
    }

    fn into_any(self) -> (r: AnyShortcut) {
        AnyShortcut::Pointer(self)
    }
}

impl Shortcut for AnyShortcut {
    open spec fn spec_any(&self) -> AnyShortcut {
        *self
    }

    fn kind(&self) -> (r: ShortcutKind<'_>) {
        match self {
            AnyShortcut::Keyboard(k) => ShortcutKind::Keyboard(k),
            AnyShortcut::Pointer(p) => ShortcutKind::Pointer(p),
        }
    }

    fn canonical_key(&self) -> (r: String) {
        match self {
            AnyShortcut::Keyboard(k) => k.to_string(),
            AnyShortcut::Pointer(p) => p.to_string(),
        }
    }

    fn into_any(self) -> (r: AnyShortcut) {
        self
    }
}

} // verus!
