//! Dispatch of the events that the injected script reports.
use crate::display;
use crate::error::Error;
use crate::event::{none_focused, resolves_to, EmitPolicy, EmitTarget, WindowFocus};
use crate::listener::EventListener;
use crate::registry::{listeners_at, Registry};
use crate::shortcut::{ModifierKey, PointerEvent};
use vstd::prelude::*;

verus! {

/// A key press as the injected script reports it.
#[derive(Clone, Debug)]
pub struct KeyboardPayload {
    pub key: String,
    pub alt_key: bool,
    pub ctrl_key: bool,
    pub meta_key: bool,
    pub shift_key: bool,
    /// Label of the window the event came from; set on published events.
    pub origin: Option<String>,
}

/// A pointer event as the injected script reports it.
#[derive(Clone, Debug)]
pub struct PointerPayload {
    pub name: String,
    /// Label of the window the event came from; set on published events.
    pub origin: Option<String>,
}

/// The outcome of dispatching one event: the listeners to invoke, and the event to publish.
#[derive(Debug)]
pub struct Dispatch<P> {
    /// Listeners registered under the event's canonical key, each once.
    pub listeners: Vec<EventListener>,
    /// Where to publish the payload, if anywhere.
    pub emit: Option<Emission<P>>,
}

/// A payload to publish, with its destination.
#[derive(Debug)]
pub struct Emission<P> {
    pub target: EmitTarget,
    pub payload: P,
}

/// The destination of an emission, if there is one.
pub open spec fn target_of<P>(emit: Option<Emission<P>>) -> Option<EmitTarget> {
    match emit {
        Some(e) => Some(e.target),
        None => None,
    }
}

/// `m` alone when `on` holds, else nothing.
pub open spec fn flag(on: bool, m: ModifierKey) -> Seq<ModifierKey> {
    if on {
        seq![m]
    } else {
        Seq::empty()
    }
}

/// The modifiers that a keyboard payload reports as held.
pub open spec fn held_modifiers(p: KeyboardPayload) -> Seq<ModifierKey> {
    flag(p.alt_key, ModifierKey::AltKey) + flag(p.ctrl_key, ModifierKey::CtrlKey) + flag(
        p.meta_key,
        ModifierKey::MetaKey,
    ) + flag(p.shift_key, ModifierKey::ShiftKey)
}

/// Whether `out` is `input` with its origin set to `window`.
pub open spec fn keyboard_with_origin(out: KeyboardPayload, input: KeyboardPayload, window: Seq<
    char,
>) -> bool {
    &&& out.key@ == input.key@
    &&& out.alt_key == input.alt_key
    &&& out.ctrl_key == input.ctrl_key
    &&& out.meta_key == input.meta_key
    &&& out.shift_key == input.shift_key
    &&& out.origin matches Some(o) && o@ == window
}

/// Whether `out` is `input` with its origin set to `window`.
pub open spec fn pointer_with_origin(out: PointerPayload, input: PointerPayload, window: Seq<
    char,
>) -> bool {
    &&& out.name@ == input.name@
    &&& out.origin matches Some(o) && o@ == window
}

/// The modifiers held in `payload`, in the order alt, ctrl, meta, shift.
pub fn payload_modifiers(payload: &KeyboardPayload) -> (r: Vec<ModifierKey>)
    ensures
        r@ == held_modifiers(*payload),
{
    let mut modifiers: Vec<ModifierKey> = Vec::new();
    if payload.alt_key {
        modifiers.push(ModifierKey::AltKey);
    }
    if payload.ctrl_key {
        modifiers.push(ModifierKey::CtrlKey);
    }
    if payload.meta_key {
        modifiers.push(ModifierKey::MetaKey);
    }
    if payload.shift_key {
        modifiers.push(ModifierKey::ShiftKey);
    }
    assert(modifiers@ =~= held_modifiers(*payload));
    modifiers
}

/// The listener registry and the emission policy, fixed once the plugin is built.
pub struct PluginState {
    listeners: Registry,
    policy: EmitPolicy,
}

impl PluginState {
    pub closed spec fn wf(&self) -> bool {
        self.listeners.wf()
    }

    /// The listeners, by canonical key.
    pub closed spec fn spec_registry(&self) -> Map<Seq<char>, Set<EventListener>> {
        self.listeners@
    }

    pub closed spec fn spec_policy(&self) -> EmitPolicy {
        self.policy
    }

    pub fn new(listeners: Registry, policy: EmitPolicy) -> (r: PluginState)
        requires
            listeners.wf(),
        ensures
            r.wf(),
            r.spec_registry() == listeners@,
            r.spec_policy() == policy,
    {
        PluginState { listeners, policy }
    }

    /// The emission policy.
    pub fn policy(&self) -> (r: &EmitPolicy)
        ensures
            *r == self.spec_policy(),
    {
        &self.policy
    }

    /// The listeners to invoke for the canonical key `shortcut`, each once.
    pub fn call_listeners(&self, shortcut: &str) -> (r: Vec<EventListener>)
        requires
            self.wf(),
        ensures
            r@.no_duplicates(),
            r@.to_set() == listeners_at(self.spec_registry(), shortcut@),
    {
        self.listeners.get(shortcut)
    }

    /// Dispatch a key press reported by window `window` while `windows` are open: the
    /// listeners under the press's canonical key, and the payload, with its origin set,
    /// for the target of the emission policy.
    pub fn keyboard(
        &self,
        payload: &KeyboardPayload,
        window: &str,
        windows: &Vec<WindowFocus>,
    ) -> (r: Dispatch<KeyboardPayload>)
        requires
            self.wf(),
        ensures
            r.listeners@.no_duplicates(),
            r.listeners@.to_set() == listeners_at(
                self.spec_registry(),
                display::keyboard_key(payload.key@, held_modifiers(*payload)),
            ),
            resolves_to(self.spec_policy(), window@, windows@, target_of(r.emit)),
            r.emit matches Some(e) ==> keyboard_with_origin(e.payload, *payload, window@),
            self.spec_policy() is Disabled ==> r.emit is None,
            self.spec_policy() is Focused && none_focused(windows@) ==> r.emit is None,
    {
        let modifiers = payload_modifiers(payload);
        let shortcut = display::keyboard(payload.key.as_str(), modifiers.as_slice());
        let listeners = self.call_listeners(shortcut.as_str());
        let emit = match self.policy.resolve(window, windows) {
            Some(target) => {
                let out = KeyboardPayload {
                    key: payload.key.clone(),
                    alt_key: payload.alt_key,
                    ctrl_key: payload.ctrl_key,
                    meta_key: payload.meta_key,
                    shift_key: payload.shift_key,
                    origin: Some(window.to_owned()),
                };
                Some(Emission { target, payload: out })
            },
            None => None,
        };
        Dispatch { listeners, emit }
    }

    /// Dispatch a pointer event reported by window `window` while `windows` are open.
    ///
    /// An event name that no known pointer event has is an error, and then no listener is
    /// to be invoked and nothing is to be published.
    pub fn pointer(
        &self,
        payload: &PointerPayload,
        window: &str,
        windows: &Vec<WindowFocus>,
    ) -> (r: Result<Dispatch<PointerPayload>, Error>)
        requires
            self.wf(),
        ensures
            r is Err <==> PointerEvent::spec_parse(payload.name@) is None,
            r matches Err(e) ==> (e matches Error::UnknownPointerEvent(n) && n@ == payload.name@),
            r matches Ok(d) ==> {
                &&& PointerEvent::spec_parse(payload.name@) matches Some(event)
                &&& d.listeners@.no_duplicates()
                &&& d.listeners@.to_set() == listeners_at(
                    self.spec_registry(),
                    display::pointer_key(event),
                )
                &&& resolves_to(self.spec_policy(), window@, windows@, target_of(d.emit))
                &&& d.emit matches Some(e) ==> pointer_with_origin(e.payload, *payload, window@)
            },
            self.spec_policy() is Disabled ==> (r matches Ok(d) ==> d.emit is None),
            self.spec_policy() is Focused && none_focused(windows@) ==> (r matches Ok(d)
                ==> d.emit is None),
    {
        let event = match PointerEvent::parse(payload.name.as_str()) {
            Some(event) => event,
            None => {
                return Err(Error::UnknownPointerEvent(payload.name.clone()));
            },
        };
        let shortcut = display::pointer(event);
        let listeners = self.call_listeners(shortcut.as_str());
        let emit = match self.policy.resolve(window, windows) {
            Some(target) => {
                let out = PointerPayload {
                    name: payload.name.clone(),
                    origin: Some(window.to_owned()),
                };
                Some(Emission { target, payload: out })
            },
            None => None,
        };
        Ok(Dispatch { listeners, emit })
    }
}

} // verus!
