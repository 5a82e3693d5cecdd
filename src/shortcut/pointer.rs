//! Pointer events, pointer shortcuts and their builder.
use crate::display;
use crate::listener::EventListener;
use vstd::prelude::*;

verus! {

/// A pointer-originated event that a shortcut can stand for.
#[non_exhaustive]
#[derive(Clone, Copy, Debug, PartialEq, Eq, Structural, Hash)]
pub enum PointerEvent {
    ContextMenu,
}

impl PointerEvent {
    /// The wire name of the event.
    pub open spec fn spec_name(self) -> Seq<char> {
        match self {
            PointerEvent::ContextMenu => "contextmenu"@,
        }
    }

    /// The event whose wire name is `name`, if there is one.
    pub open spec fn spec_parse(name: Seq<char>) -> Option<PointerEvent> {
        if name == "contextmenu"@ {
            Some(PointerEvent::ContextMenu)
        } else {
            None
        }
    }

    /// The wire name of the event (`contextmenu`).
    pub fn as_str(self) -> (r: &'static str)
        ensures
            r@ == self.spec_name(),
    {
        match self {
            PointerEvent::ContextMenu => "contextmenu",
        }
    }

    /// The wire name of the event as an owned string.
    pub fn to_string(&self) -> (r: String)
        ensures
            r@ == self.spec_name(),
    {
        self.as_str().to_owned()
    }

    /// The event named `name` on the wire; `None` for a name that no event has.
    pub fn parse(name: &str) -> (r: Option<PointerEvent>)
        ensures
            r == PointerEvent::spec_parse(name@),
    {
        let given = name.to_owned();
        let known = "contextmenu".to_owned();
        if given == known {
            Some(PointerEvent::ContextMenu)
        } else {
            None
        }
    }
}

/// A shortcut on a pointer event.
#[derive(Debug)]
pub struct PointerShortcut {
    event: PointerEvent,
    listeners: Vec<EventListener>,
}

impl PointerShortcut {
    pub closed spec fn spec_event(&self) -> PointerEvent {
        self.event
    }

    /// Listeners attached and not yet taken.
    pub closed spec fn spec_listeners(&self) -> Seq<EventListener> {
        self.listeners@
    }

    pub fn new(event: PointerEvent) -> (r: PointerShortcut)
        ensures
            r.spec_event() == event,
            r.spec_listeners() == Seq::<EventListener>::empty(),
    {
        PointerShortcut { event, listeners: Vec::new() }
    }

    /// A builder for a shortcut on `event`.
    pub fn builder(event: PointerEvent) -> (r: PointerShortcutBuilder)
        ensures
            r.spec_event() == event,
            r.spec_listeners() == Seq::<EventListener>::empty(),
    {
        PointerShortcutBuilder::new(event)
    }

    /// The event of the shortcut.
    pub fn event(&self) -> (r: PointerEvent)
        ensures
            r == self.spec_event(),
    {
        self.event
    }

    /// The listeners attached and not yet taken.
    pub fn listeners(&self) -> (r: &[EventListener])
        ensures
            r@ == self.spec_listeners(),
    {
        self.listeners.as_slice()
    }

    /// The canonical key of the shortcut.
    pub fn to_string(&self) -> (r: String)
        ensures
            r@ == display::pointer_key(self.spec_event()),
    {
        display::pointer(self.event)
    }

    /// Attach a listener.
    pub fn add_listener(&mut self, listener: EventListener)
        ensures
            final(self).spec_event() == old(self).spec_event(),
            final(self).spec_listeners() == old(self).spec_listeners().push(listener),
    {
        self.listeners.push(listener);
    }

    /// Move the attached listeners out, leaving none behind.
    pub fn take_listeners(&mut self) -> (r: Vec<EventListener>)
        ensures
            r@ == old(self).spec_listeners(),
            final(self).spec_event() == old(self).spec_event(),
            final(self).spec_listeners() == Seq::<EventListener>::empty(),
    {
        let mut taken = Vec::new();
        taken.append(&mut self.listeners);
        taken
    }
}

/// Builder of a [`PointerShortcut`].
#[derive(Debug)]
pub struct PointerShortcutBuilder {
    event: PointerEvent,
    listeners: Vec<EventListener>,
}

impl PointerShortcutBuilder {
    pub closed spec fn spec_event(&self) -> PointerEvent {
        self.event
    }

    pub closed spec fn spec_listeners(&self) -> Seq<EventListener> {
        self.listeners@
    }

    pub fn new(event: PointerEvent) -> (r: PointerShortcutBuilder)
        ensures
            r.spec_event() == event,
            r.spec_listeners() == Seq::<EventListener>::empty(),
    {
        PointerShortcutBuilder { event, listeners: Vec::new() }
    }

    /// Attach a listener to the shortcut being built.
    pub fn listener(self, listener: EventListener) -> (r: PointerShortcutBuilder)
        ensures
            r.spec_event() == self.spec_event(),
            r.spec_listeners() == self.spec_listeners().push(listener),
    {
        let mut builder = self;
        builder.listeners.push(listener);
        builder
    }

    /// Build the pointer shortcut.
    pub fn build(self) -> (r: PointerShortcut)
        ensures
            r.spec_event() == self.spec_event(),
            r.spec_listeners() == self.spec_listeners(),
    {
        PointerShortcut { event: self.event, listeners: self.listeners }
    }
}

} // verus!
