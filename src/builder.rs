//! Configuration of the plugin: which shortcuts to suppress, and what to do when they fire.
use crate::command::PluginState;
use crate::event::EmitPolicy;
use crate::flags::Flags;
use crate::listener::EventListener;
use crate::platform::{PlatformOptions, PlatformSettings};
use crate::registry::{assembled, Registry};
use crate::script::Script;
use crate::shortcut::{
    AnyShortcut, KeyboardShortcut, ModifierKey, PointerEvent, PointerShortcut, Shortcut,
};
use vstd::prelude::*;

verus! {

/// Start of the injected script, before the declaration of the accepted origin.
pub const SCRIPT_HEAD: &'static str = "(() => {\n";

/// The injected script's helpers, between the origin declaration and the shortcut calls.
pub const SCRIPT_BODY: &'static str = "\nconst invoke = (command, payload) => window.__TAURI_INTERNALS__?.invoke(`plugin:prevent-default|${command}`, { payload });\nconst allowed = () => ORIGIN === null || window.location.origin === ORIGIN;\nconst MODIFIERS = ['altKey', 'ctrlKey', 'metaKey', 'shiftKey'];\nfunction onKey(key, options) {\n  window.addEventListener('keydown', (event) => {\n    if (!allowed() || event.key.toLowerCase() !== key.toLowerCase()) return;\n    if (!MODIFIERS.every((m) => (options[m] === true) === event[m])) return;\n    event.preventDefault();\n    invoke('keyboard', { key: event.key, altKey: event.altKey, ctrlKey: event.ctrlKey, metaKey: event.metaKey, shiftKey: event.shiftKey, origin: null });\n  }, true);\n}\nfunction onPointer(name) {\n  window.addEventListener(name, (event) => {\n    if (!allowed()) return;\n    event.preventDefault();\n    invoke('pointer', { name, origin: null });\n  }, true);\n}\n";

/// End of the injected script, after the shortcut calls.
pub const SCRIPT_TAIL: &'static str = "\n})();";

/// `items` when `cond` holds, else nothing.
pub open spec fn when<A>(cond: bool, items: Seq<A>) -> Seq<A> {
    if cond {
        items
    } else {
        Seq::empty()
    }
}

/// `CtrlKey` when `ctrl` holds, then `ShiftKey` when `shift` holds.
pub open spec fn modifiers_of(ctrl: bool, shift: bool) -> Seq<ModifierKey> {
    when(ctrl, seq![ModifierKey::CtrlKey]) + when(shift, seq![ModifierKey::ShiftKey])
}

/// Find: the keyboard shortcuts of the `FIND` group.
pub open spec fn find_keys() -> Seq<(Seq<char>, Seq<ModifierKey>)> {
    seq![("F3"@, modifiers_of(false, false)), ("f"@, modifiers_of(true, false)), ("g"@, modifiers_of(true, false)), ("g"@, modifiers_of(true, true))]
}

/// Caret browsing: the keyboard shortcuts of the `CARET_BROWSING` group.
pub open spec fn caret_browsing_keys() -> Seq<(Seq<char>, Seq<ModifierKey>)> {
    seq![("F7"@, modifiers_of(false, false))]
}

/// Developer tools: the keyboard shortcuts of the `DEV_TOOLS` group.
pub open spec fn dev_tools_keys() -> Seq<(Seq<char>, Seq<ModifierKey>)> {
    seq![("i"@, modifiers_of(true, true))]
}

/// Downloads: the keyboard shortcuts of the `DOWNLOADS` group.
pub open spec fn downloads_keys() -> Seq<(Seq<char>, Seq<ModifierKey>)> {
    seq![("j"@, modifiers_of(true, false))]
}

/// Focus move: the keyboard shortcuts of the `FOCUS_MOVE` group.
pub open spec fn focus_move_keys() -> Seq<(Seq<char>, Seq<ModifierKey>)> {
    seq![("Tab"@, modifiers_of(false, true))]
}

/// Reload: the keyboard shortcuts of the `RELOAD` group.
pub open spec fn reload_keys() -> Seq<(Seq<char>, Seq<ModifierKey>)> {
    seq![("F5"@, modifiers_of(false, false)), ("F5"@, modifiers_of(true, false)), ("F5"@, modifiers_of(false, true)), ("r"@, modifiers_of(true, false)), ("r"@, modifiers_of(true, true))]
}

/// Source: the keyboard shortcuts of the `SOURCE` group.
pub open spec fn source_keys() -> Seq<(Seq<char>, Seq<ModifierKey>)> {
    seq![("u"@, modifiers_of(true, false))]
}

/// Open: the keyboard shortcuts of the `OPEN` group.
pub open spec fn open_keys() -> Seq<(Seq<char>, Seq<ModifierKey>)> {
    seq![("o"@, modifiers_of(true, false))]
}

/// Print: the keyboard shortcuts of the `PRINT` group.
pub open spec fn print_keys() -> Seq<(Seq<char>, Seq<ModifierKey>)> {
    seq![("p"@, modifiers_of(true, false)), ("p"@, modifiers_of(true, true))]
}

/// The built-in keyboard shortcuts of the groups in `flags`, as key and modifiers.
pub open spec fn default_keyboard_shortcuts(flags: Flags) -> Seq<(Seq<char>, Seq<ModifierKey>)> {
    when(flags.spec_contains(Flags::FIND), find_keys())
        + when(flags.spec_contains(Flags::CARET_BROWSING), caret_browsing_keys())
        + when(flags.spec_contains(Flags::DEV_TOOLS), dev_tools_keys())
        + when(flags.spec_contains(Flags::DOWNLOADS), downloads_keys())
        + when(flags.spec_contains(Flags::FOCUS_MOVE), focus_move_keys())
        + when(flags.spec_contains(Flags::RELOAD), reload_keys())
        + when(flags.spec_contains(Flags::SOURCE), source_keys())
        + when(flags.spec_contains(Flags::OPEN), open_keys())
        + when(flags.spec_contains(Flags::PRINT), print_keys())
}

/// The built-in pointer shortcuts of the groups in `flags`.
pub open spec fn default_pointer_shortcuts(flags: Flags) -> Seq<PointerEvent> {
    when(flags.spec_contains(Flags::CONTEXT_MENU), seq![PointerEvent::ContextMenu])
}

/// Whether `s` is a keyboard shortcut on `key` with `modifiers` and no listeners.
pub open spec fn is_keyboard_def(s: AnyShortcut, key: Seq<char>, modifiers: Seq<ModifierKey>) -> bool {
    s matches AnyShortcut::Keyboard(k) && k.spec_key() == key && k.spec_modifiers() == modifiers
        && k.spec_listeners() == Seq::<EventListener>::empty()
}

/// Whether `s` is a pointer shortcut on `event` with no listeners.
pub open spec fn is_pointer_def(s: AnyShortcut, event: PointerEvent) -> bool {
    s matches AnyShortcut::Pointer(p) && p.spec_event() == event && p.spec_listeners()
        == Seq::<EventListener>::empty()
}

/// Whether `after` is `before` followed by keyboard shortcuts made from `defs`.
pub open spec fn extends_keyboard(
    before: Seq<AnyShortcut>,
    after: Seq<AnyShortcut>,
    defs: Seq<(Seq<char>, Seq<ModifierKey>)>,
) -> bool {
    &&& after.len() == before.len() + defs.len()
    &&& forall|i: int| 0 <= i < before.len() ==> after[i] == before[i]
    &&& forall|j: int|
        0 <= j < defs.len() ==> is_keyboard_def(
            #[trigger] after[before.len() + j],
            defs[j].0,
            defs[j].1,
        )
}

/// Whether `after` is `before` followed by pointer shortcuts on `events`.
pub open spec fn extends_pointer(
    before: Seq<AnyShortcut>,
    after: Seq<AnyShortcut>,
    events: Seq<PointerEvent>,
) -> bool {
    &&& after.len() == before.len() + events.len()
    &&& forall|i: int| 0 <= i < before.len() ==> after[i] == before[i]
    &&& forall|j: int|
        0 <= j < events.len() ==> is_pointer_def(#[trigger] after[before.len() + j], events[j])
}

/// The option object of a keyboard call: `name:true` for each modifier, separated by commas.
pub open spec fn key_options(modifiers: Seq<ModifierKey>) -> Seq<char>
    decreases modifiers.len(),
{
    if modifiers.len() == 0 {
        Seq::empty()
    } else if modifiers.len() == 1 {
        modifiers[0].spec_wire_name() + ":true"@
    } else {
        key_options(modifiers.drop_last()) + ","@ + modifiers.last().spec_wire_name() + ":true"@
    }
}

/// The script call that suppresses a keyboard shortcut.
pub open spec fn key_call(key: Seq<char>, modifiers: Seq<ModifierKey>) -> Seq<char> {
    "onKey('"@ + key + "',{"@ + key_options(modifiers) + "});"@
}

/// The script call that suppresses a pointer shortcut.
pub open spec fn pointer_call(event: PointerEvent) -> Seq<char> {
    "onPointer('"@ + event.spec_name() + "');"@
}

/// The script call for a shortcut.
pub open spec fn shortcut_call(s: AnyShortcut) -> Seq<char> {
    match s {
        AnyShortcut::Keyboard(k) => key_call(k.spec_key(), k.spec_modifiers()),
        AnyShortcut::Pointer(p) => pointer_call(p.spec_event()),
    }
}

/// The script calls for a sequence of shortcuts, in order.
pub open spec fn shortcut_calls(shortcuts: Seq<AnyShortcut>) -> Seq<char>
    decreases shortcuts.len(),
{
    if shortcuts.len() == 0 {
        Seq::empty()
    } else {
        shortcut_calls(shortcuts.drop_last()) + shortcut_call(shortcuts.last())
    }
}

/// The script calls for keyboard shortcuts given as key and modifiers, in order.
pub open spec fn keyboard_calls(defs: Seq<(Seq<char>, Seq<ModifierKey>)>) -> Seq<char>
    decreases defs.len(),
{
    if defs.len() == 0 {
        Seq::empty()
    } else {
        keyboard_calls(defs.drop_last()) + key_call(defs.last().0, defs.last().1)
    }
}

/// The script calls for pointer shortcuts on `events`, in order.
pub open spec fn pointer_calls(events: Seq<PointerEvent>) -> Seq<char>
    decreases events.len(),
{
    if events.len() == 0 {
        Seq::empty()
    } else {
        pointer_calls(events.drop_last()) + pointer_call(events.last())
    }
}

/// The script calls for the built-in shortcuts of the groups in `flags`.
pub open spec fn default_calls(flags: Flags) -> Seq<char> {
    keyboard_calls(default_keyboard_shortcuts(flags)) + pointer_calls(
        default_pointer_shortcuts(flags),
    )
}

/// The declaration of the origin that the script accepts events from; `null` for any.
pub open spec fn origin_declaration(origin: Option<Seq<char>>) -> Seq<char> {
    match origin {
        Some(o) => "const ORIGIN='"@ + o + "';"@,
        None => "const ORIGIN=null;"@,
    }
}

/// The injected script: the template around the origin declaration and the shortcut calls.
pub open spec fn script_text(origin: Option<Seq<char>>, calls: Seq<char>) -> Seq<char> {
    SCRIPT_HEAD@ + origin_declaration(origin) + SCRIPT_BODY@ + calls + SCRIPT_TAIL@
}

proof fn lemma_calls_after_keyboard(
    before: Seq<AnyShortcut>,
    after: Seq<AnyShortcut>,
    defs: Seq<(Seq<char>, Seq<ModifierKey>)>,
)
    requires
        extends_keyboard(before, after, defs),
    ensures
        shortcut_calls(after) == shortcut_calls(before) + keyboard_calls(defs),
        assembled(after) == assembled(before),
    decreases defs.len(),
{
    if defs.len() == 0 {
        assert(after =~= before);
        assert(shortcut_calls(before) + keyboard_calls(defs) =~= shortcut_calls(before));
    } else {
        let rest = defs.drop_last();
        let shorter = after.drop_last();
        assert forall|j: int| 0 <= j < rest.len() implies is_keyboard_def(
            #[trigger] shorter[before.len() + j],
            rest[j].0,
            rest[j].1,
        ) by {
            assert(is_keyboard_def(after[before.len() + j], defs[j].0, defs[j].1));
        }
        lemma_calls_after_keyboard(before, shorter, rest);
        let n = defs.len() - 1;
        assert(is_keyboard_def(after[before.len() + n], defs[n].0, defs[n].1));
        assert(after.last() == after[before.len() + n]);
        assert(shortcut_calls(after) =~= shortcut_calls(before) + keyboard_calls(defs));
        assert(after.last().pending_of().len() == 0);
    }
}

proof fn lemma_calls_after_pointer(
    before: Seq<AnyShortcut>,
    after: Seq<AnyShortcut>,
    events: Seq<PointerEvent>,
)
    requires
        extends_pointer(before, after, events),
    ensures
        shortcut_calls(after) == shortcut_calls(before) + pointer_calls(events),
        assembled(after) == assembled(before),
    decreases events.len(),
{
    if events.len() == 0 {
        assert(after =~= before);
        assert(shortcut_calls(before) + pointer_calls(events) =~= shortcut_calls(before));
    } else {
        let rest = events.drop_last();
        let shorter = after.drop_last();
        assert forall|j: int| 0 <= j < rest.len() implies is_pointer_def(
            #[trigger] shorter[before.len() + j],
            rest[j],
        ) by {
            assert(is_pointer_def(after[before.len() + j], events[j]));
        }
        lemma_calls_after_pointer(before, shorter, rest);
        let n = events.len() - 1;
        assert(is_pointer_def(after[before.len() + n], events[n]));
        assert(after.last() == after[before.len() + n]);
        assert(shortcut_calls(after) =~= shortcut_calls(before) + pointer_calls(events));
        assert(after.last().pending_of().len() == 0);
    }
}

/// The option object of a keyboard call for `modifiers`.
fn key_options_text(modifiers: &[ModifierKey]) -> (r: String)
    ensures
        r@ == key_options(modifiers@),
{
    let mut buf = String::new();
    let mut i: usize = 0;
    while i < modifiers.len()
        invariant
            i <= modifiers@.len(),
            buf@ == key_options(modifiers@.take(i as int)),
        decreases modifiers@.len() - i,
    {
        let ghost before = buf@;
        if i > 0 {
            buf.append(",");
        }
        buf.append(modifiers[i].as_str());
        buf.append(":true");
        proof {
            let next = modifiers@.take(i as int + 1);
            assert(next.drop_last() =~= modifiers@.take(i as int));
            assert(next.last() == modifiers@[i as int]);
            if i == 0 {
                assert(before =~= Seq::<char>::empty());
                assert(buf@ =~= key_options(next));
            } else {
                assert(buf@ =~= key_options(next));
            }
        }
        i = i + 1;
    }
    assert(modifiers@.take(modifiers@.len() as int) =~= modifiers@);
    buf
}

/// The script call for `shortcut`.
fn shortcut_call_text(shortcut: &AnyShortcut) -> (r: String)
    ensures
        r@ == shortcut_call(*shortcut),
{
    match shortcut {
        AnyShortcut::Keyboard(k) => {
            let mut buf = "onKey('".to_owned();
            buf.append(k.key());
            buf.append("',{");
            buf.append(key_options_text(k.modifiers()).as_str());
            buf.append("});");
            buf
        },
        AnyShortcut::Pointer(p) => {
            let mut buf = "onPointer('".to_owned();
            buf.append(p.event().as_str());
            buf.append("');");
            buf
        },
    }
}

/// What building the plugin yields: the script to inject, the dispatch state, and the
/// platform settings to apply to each webview.
pub struct Prepared {
    pub script: Script,
    pub state: PluginState,
    pub platform: PlatformOptions,
}

/// Configuration of the plugin.
pub struct Builder {
    flags: Flags,
    shortcuts: Vec<AnyShortcut>,
    check_origin: Option<String>,
    platform: PlatformOptions,
    emit_policy: EmitPolicy,
}

impl Default for Builder {
    fn default() -> (r: Builder)
        ensures
            r.spec_flags().spec_bits() == crate::flags::ALL_BITS,
            r.spec_shortcuts() == Seq::<AnyShortcut>::empty(),
            r.spec_check_origin() is None,
            r.spec_policy() is Disabled,
    {
        Builder {
            flags: Flags::default(),
            shortcuts: Vec::new(),
            check_origin: None,
            platform: PlatformOptions::default(),
            emit_policy: EmitPolicy::default(),
        }
    }
}

impl Builder {
    pub closed spec fn spec_flags(&self) -> Flags {
        self.flags
    }

    /// The shortcuts added so far.
    pub closed spec fn spec_shortcuts(&self) -> Seq<AnyShortcut> {
        self.shortcuts@
    }

    /// The origin that the script accepts events from; any origin when `None`.
    pub closed spec fn spec_check_origin(&self) -> Option<Seq<char>> {
        match self.check_origin {
            Some(o) => Some(o@),
            None => None,
        }
    }

    pub closed spec fn spec_platform(&self) -> PlatformSettings {
        self.platform@
    }

    pub closed spec fn spec_policy(&self) -> EmitPolicy {
        self.emit_policy
    }

    /// Whether `a` and `b` agree on everything but their shortcuts.
    pub open spec fn same_settings(a: &Builder, b: &Builder) -> bool {
        &&& a.spec_flags() == b.spec_flags()
        &&& a.spec_check_origin() == b.spec_check_origin()
        &&& a.spec_platform() == b.spec_platform()
        &&& a.spec_policy() == b.spec_policy()
    }

    /// A builder with every built-in group, no custom shortcut, any origin, and no emission.
    pub fn new() -> (r: Builder)
        ensures
            r.spec_flags().spec_bits() == crate::flags::ALL_BITS,
            r.spec_shortcuts() == Seq::<AnyShortcut>::empty(),
            r.spec_check_origin() is None,
            r.spec_policy() is Disabled,
    {
        Self::default()
    }

    /// Set the built-in shortcut groups to suppress.
    #[must_use]
    pub fn with_flags(self, flags: Flags) -> (r: Builder)
        ensures
            r.spec_flags() == flags,
            r.spec_shortcuts() == self.spec_shortcuts(),
            r.spec_check_origin() == self.spec_check_origin(),
            r.spec_platform() == self.spec_platform(),
            r.spec_policy() == self.spec_policy(),
    {
        let mut builder = self;
        builder.flags = flags;
        builder
    }

    /// Suppress a custom shortcut.
    #[must_use]
    pub fn shortcut<S: Shortcut>(self, shortcut: S) -> (r: Builder)
        ensures
            r.spec_shortcuts() == self.spec_shortcuts().push(shortcut.spec_any()),
            Builder::same_settings(&r, &self),
    {
        let mut builder = self;
        builder.shortcuts.push(shortcut.into_any());
        builder
    }

    /// Suppress the shortcuts only on pages of the given origin.
    #[must_use]
    pub fn check_origin(self, origin: &str) -> (r: Builder)
        ensures
            r.spec_check_origin() == Some(origin@),
            r.spec_flags() == self.spec_flags(),
            r.spec_shortcuts() == self.spec_shortcuts(),
            r.spec_platform() == self.spec_platform(),
            r.spec_policy() == self.spec_policy(),
    {
        let mut builder = self;
        builder.check_origin = Some(origin.to_owned());
        builder
    }

    /// Settings of the Windows webview engine.
    #[must_use]
    pub fn platform(self, options: PlatformOptions) -> (r: Builder)
        ensures
            r.spec_platform() == options@,
            r.spec_flags() == self.spec_flags(),
            r.spec_shortcuts() == self.spec_shortcuts(),
            r.spec_check_origin() == self.spec_check_origin(),
            r.spec_policy() == self.spec_policy(),
    {
        let mut builder = self;
        builder.platform = options;
        builder
    }

    /// Where to publish an event after its shortcut fired.
    #[must_use]
    pub fn emit_policy(self, policy: EmitPolicy) -> (r: Builder)
        ensures
            r.spec_policy() == policy,
            r.spec_flags() == self.spec_flags(),
            r.spec_shortcuts() == self.spec_shortcuts(),
            r.spec_check_origin() == self.spec_check_origin(),
            r.spec_platform() == self.spec_platform(),
    {
        let mut builder = self;
        builder.emit_policy = policy;
        builder
    }

    fn push_key(
        &mut self,
        key: &str,
        ctrl: bool,
        shift: bool,
        Ghost(start): Ghost<Seq<AnyShortcut>>,
        Ghost(done): Ghost<Seq<(Seq<char>, Seq<ModifierKey>)>>,
    )
        requires
            extends_keyboard(start, old(self).spec_shortcuts(), done),
        ensures
            extends_keyboard(
                start,
                final(self).spec_shortcuts(),
                done.push((key@, modifiers_of(ctrl, shift))),
            ),
            Builder::same_settings(&*final(self), &*old(self)),
    {
        let mut modifiers: Vec<ModifierKey> = Vec::new();
        if ctrl {
            modifiers.push(ModifierKey::CtrlKey);
        }
        if shift {
            modifiers.push(ModifierKey::ShiftKey);
        }
        assert(modifiers@ =~= modifiers_of(ctrl, shift));
        let shortcut = KeyboardShortcut::with_modifiers(key, modifiers.as_slice());
        self.shortcuts.push(AnyShortcut::Keyboard(shortcut));
        proof {
            let defs = done.push((key@, modifiers_of(ctrl, shift)));
            assert forall|j: int| 0 <= j < defs.len() implies is_keyboard_def(
                #[trigger] self.shortcuts@[start.len() + j],
                defs[j].0,
                defs[j].1,
            ) by {
                if j < done.len() {
                    assert(self.shortcuts@[start.len() + j] == old(self).shortcuts@[start.len() + j]);
                }
            }
        }
    }

    fn add_find_shortcuts(
        &mut self,
        Ghost(start): Ghost<Seq<AnyShortcut>>,
        Ghost(done): Ghost<Seq<(Seq<char>, Seq<ModifierKey>)>>,
    )
        requires
            extends_keyboard(start, old(self).spec_shortcuts(), done),
        ensures
            extends_keyboard(
                start,
                final(self).spec_shortcuts(),
                done + when(old(self).spec_flags().spec_contains(Flags::FIND), find_keys()),
            ),
            Builder::same_settings(&*final(self), &*old(self)),
    {
        let ghost mut sofar = done;
        if self.flags.contains(Flags::FIND) {
            self.push_key("F3", false, false, Ghost(start), Ghost(sofar));
            proof {
                sofar = sofar.push(("F3"@, modifiers_of(false, false)));
            }
            self.push_key("f", true, false, Ghost(start), Ghost(sofar));
            proof {
                sofar = sofar.push(("f"@, modifiers_of(true, false)));
            }
            self.push_key("g", true, false, Ghost(start), Ghost(sofar));
            proof {
                sofar = sofar.push(("g"@, modifiers_of(true, false)));
            }
            self.push_key("g", true, true, Ghost(start), Ghost(sofar));
            proof {
                sofar = sofar.push(("g"@, modifiers_of(true, true)));
            }
        }
        assert(sofar =~= done + when(self.flags.spec_contains(Flags::FIND), find_keys()));
    }

    fn add_caret_browsing_shortcuts(
        &mut self,
        Ghost(start): Ghost<Seq<AnyShortcut>>,
        Ghost(done): Ghost<Seq<(Seq<char>, Seq<ModifierKey>)>>,
    )
        requires
            extends_keyboard(start, old(self).spec_shortcuts(), done),
        ensures
            extends_keyboard(
                start,
                final(self).spec_shortcuts(),
                done + when(old(self).spec_flags().spec_contains(Flags::CARET_BROWSING), caret_browsing_keys()),
            ),
            Builder::same_settings(&*final(self), &*old(self)),
    {
        let ghost mut sofar = done;
        if self.flags.contains(Flags::CARET_BROWSING) {
            self.push_key("F7", false, false, Ghost(start), Ghost(sofar));
            proof {
                sofar = sofar.push(("F7"@, modifiers_of(false, false)));
            }
        }
        assert(sofar =~= done + when(self.flags.spec_contains(Flags::CARET_BROWSING), caret_browsing_keys()));
    }

    fn add_dev_tools_shortcuts(
        &mut self,
        Ghost(start): Ghost<Seq<AnyShortcut>>,
        Ghost(done): Ghost<Seq<(Seq<char>, Seq<ModifierKey>)>>,
    )
        requires
            extends_keyboard(start, old(self).spec_shortcuts(), done),
        ensures
            extends_keyboard(
                start,
                final(self).spec_shortcuts(),
                done + when(old(self).spec_flags().spec_contains(Flags::DEV_TOOLS), dev_tools_keys()),
            ),
            Builder::same_settings(&*final(self), &*old(self)),
    {
        let ghost mut sofar = done;
        if self.flags.contains(Flags::DEV_TOOLS) {
            self.push_key("i", true, true, Ghost(start), Ghost(sofar));
            proof {
                sofar = sofar.push(("i"@, modifiers_of(true, true)));
            }
        }
        assert(sofar =~= done + when(self.flags.spec_contains(Flags::DEV_TOOLS), dev_tools_keys()));
    }

    fn add_downloads_shortcuts(
        &mut self,
        Ghost(start): Ghost<Seq<AnyShortcut>>,
        Ghost(done): Ghost<Seq<(Seq<char>, Seq<ModifierKey>)>>,
    )
        requires
            extends_keyboard(start, old(self).spec_shortcuts(), done),
        ensures
            extends_keyboard(
                start,
                final(self).spec_shortcuts(),
                done + when(old(self).spec_flags().spec_contains(Flags::DOWNLOADS), downloads_keys()),
            ),
            Builder::same_settings(&*final(self), &*old(self)),
    {
        let ghost mut sofar = done;
        if self.flags.contains(Flags::DOWNLOADS) {
            self.push_key("j", true, false, Ghost(start), Ghost(sofar));
            proof {
                sofar = sofar.push(("j"@, modifiers_of(true, false)));
            }
        }
        assert(sofar =~= done + when(self.flags.spec_contains(Flags::DOWNLOADS), downloads_keys()));
    }

    fn add_focus_move_shortcuts(
        &mut self,
        Ghost(start): Ghost<Seq<AnyShortcut>>,
        Ghost(done): Ghost<Seq<(Seq<char>, Seq<ModifierKey>)>>,
    )
        requires
            extends_keyboard(start, old(self).spec_shortcuts(), done),
        ensures
            extends_keyboard(
                start,
                final(self).spec_shortcuts(),
                done + when(old(self).spec_flags().spec_contains(Flags::FOCUS_MOVE), focus_move_keys()),
            ),
            Builder::same_settings(&*final(self), &*old(self)),
    {
        let ghost mut sofar = done;
        if self.flags.contains(Flags::FOCUS_MOVE) {
            self.push_key("Tab", false, true, Ghost(start), Ghost(sofar));
            proof {
                sofar = sofar.push(("Tab"@, modifiers_of(false, true)));
            }
        }
        assert(sofar =~= done + when(self.flags.spec_contains(Flags::FOCUS_MOVE), focus_move_keys()));
    }

    fn add_reload_shortcuts(
        &mut self,
        Ghost(start): Ghost<Seq<AnyShortcut>>,
        Ghost(done): Ghost<Seq<(Seq<char>, Seq<ModifierKey>)>>,
    )
        requires
            extends_keyboard(start, old(self).spec_shortcuts(), done),
        ensures
            extends_keyboard(
                start,
                final(self).spec_shortcuts(),
                done + when(old(self).spec_flags().spec_contains(Flags::RELOAD), reload_keys()),
            ),
            Builder::same_settings(&*final(self), &*old(self)),
    {
        let ghost mut sofar = done;
        if self.flags.contains(Flags::RELOAD) {
            self.push_key("F5", false, false, Ghost(start), Ghost(sofar));
            proof {
                sofar = sofar.push(("F5"@, modifiers_of(false, false)));
            }
            self.push_key("F5", true, false, Ghost(start), Ghost(sofar));
            proof {
                sofar = sofar.push(("F5"@, modifiers_of(true, false)));
            }
            self.push_key("F5", false, true, Ghost(start), Ghost(sofar));
            proof {
                sofar = sofar.push(("F5"@, modifiers_of(false, true)));
            }
            self.push_key("r", true, false, Ghost(start), Ghost(sofar));
            proof {
                sofar = sofar.push(("r"@, modifiers_of(true, false)));
            }
            self.push_key("r", true, true, Ghost(start), Ghost(sofar));
            proof {
                sofar = sofar.push(("r"@, modifiers_of(true, true)));
            }
        }
        assert(sofar =~= done + when(self.flags.spec_contains(Flags::RELOAD), reload_keys()));
    }

    fn add_source_shortcuts(
        &mut self,
        Ghost(start): Ghost<Seq<AnyShortcut>>,
        Ghost(done): Ghost<Seq<(Seq<char>, Seq<ModifierKey>)>>,
    )
        requires
            extends_keyboard(start, old(self).spec_shortcuts(), done),
        ensures
            extends_keyboard(
                start,
                final(self).spec_shortcuts(),
                done + when(old(self).spec_flags().spec_contains(Flags::SOURCE), source_keys()),
            ),
            Builder::same_settings(&*final(self), &*old(self)),
    {
        let ghost mut sofar = done;
        if self.flags.contains(Flags::SOURCE) {
            self.push_key("u", true, false, Ghost(start), Ghost(sofar));
            proof {
                sofar = sofar.push(("u"@, modifiers_of(true, false)));
            }
        }
        assert(sofar =~= done + when(self.flags.spec_contains(Flags::SOURCE), source_keys()));
    }

    fn add_open_shortcuts(
        &mut self,
        Ghost(start): Ghost<Seq<AnyShortcut>>,
        Ghost(done): Ghost<Seq<(Seq<char>, Seq<ModifierKey>)>>,
    )
        requires
            extends_keyboard(start, old(self).spec_shortcuts(), done),
        ensures
            extends_keyboard(
                start,
                final(self).spec_shortcuts(),
                done + when(old(self).spec_flags().spec_contains(Flags::OPEN), open_keys()),
            ),
            Builder::same_settings(&*final(self), &*old(self)),
    {
        let ghost mut sofar = done;
        if self.flags.contains(Flags::OPEN) {
            self.push_key("o", true, false, Ghost(start), Ghost(sofar));
            proof {
                sofar = sofar.push(("o"@, modifiers_of(true, false)));
            }
        }
        assert(sofar =~= done + when(self.flags.spec_contains(Flags::OPEN), open_keys()));
    }

    fn add_print_shortcuts(
        &mut self,
        Ghost(start): Ghost<Seq<AnyShortcut>>,
        Ghost(done): Ghost<Seq<(Seq<char>, Seq<ModifierKey>)>>,
    )
        requires
            extends_keyboard(start, old(self).spec_shortcuts(), done),
        ensures
            extends_keyboard(
                start,
                final(self).spec_shortcuts(),
                done + when(old(self).spec_flags().spec_contains(Flags::PRINT), print_keys()),
            ),
            Builder::same_settings(&*final(self), &*old(self)),
    {
        let ghost mut sofar = done;
        if self.flags.contains(Flags::PRINT) {
            self.push_key("p", true, false, Ghost(start), Ghost(sofar));
            proof {
                sofar = sofar.push(("p"@, modifiers_of(true, false)));
            }
            self.push_key("p", true, true, Ghost(start), Ghost(sofar));
            proof {
                sofar = sofar.push(("p"@, modifiers_of(true, true)));
            }
        }
        assert(sofar =~= done + when(self.flags.spec_contains(Flags::PRINT), print_keys()));
    }

    /// Add the built-in keyboard shortcuts of the selected groups.
    pub fn add_keyboard_shortcuts(&mut self)
        ensures
            extends_keyboard(
                old(self).spec_shortcuts(),
                final(self).spec_shortcuts(),
                default_keyboard_shortcuts(old(self).spec_flags()),
            ),
            Builder::same_settings(&*final(self), &*old(self)),
    {
        let ghost start = self.shortcuts@;
        let ghost flags = self.flags;
        let ghost mut done: Seq<(Seq<char>, Seq<ModifierKey>)> = Seq::empty();
        assert(self.shortcuts@ =~= start + Seq::<AnyShortcut>::empty());
        self.add_find_shortcuts(Ghost(start), Ghost(done));
        proof {
            done = done + when(flags.spec_contains(Flags::FIND), find_keys());
        }
        self.add_caret_browsing_shortcuts(Ghost(start), Ghost(done));
        proof {
            done = done + when(flags.spec_contains(Flags::CARET_BROWSING), caret_browsing_keys());
        }
        self.add_dev_tools_shortcuts(Ghost(start), Ghost(done));
        proof {
            done = done + when(flags.spec_contains(Flags::DEV_TOOLS), dev_tools_keys());
        }
        self.add_downloads_shortcuts(Ghost(start), Ghost(done));
        proof {
            done = done + when(flags.spec_contains(Flags::DOWNLOADS), downloads_keys());
        }
        self.add_focus_move_shortcuts(Ghost(start), Ghost(done));
        proof {
            done = done + when(flags.spec_contains(Flags::FOCUS_MOVE), focus_move_keys());
        }
        self.add_reload_shortcuts(Ghost(start), Ghost(done));
        proof {
            done = done + when(flags.spec_contains(Flags::RELOAD), reload_keys());
        }
        self.add_source_shortcuts(Ghost(start), Ghost(done));
        proof {
            done = done + when(flags.spec_contains(Flags::SOURCE), source_keys());
        }
        self.add_open_shortcuts(Ghost(start), Ghost(done));
        proof {
            done = done + when(flags.spec_contains(Flags::OPEN), open_keys());
        }
        self.add_print_shortcuts(Ghost(start), Ghost(done));
        proof {
            done = done + when(flags.spec_contains(Flags::PRINT), print_keys());
        }
        assert(done =~= default_keyboard_shortcuts(flags));
    }

    /// Add the built-in pointer shortcuts of the selected groups.
    pub fn add_pointer_shortcuts(&mut self)
        ensures
            extends_pointer(
                old(self).spec_shortcuts(),
                final(self).spec_shortcuts(),
                default_pointer_shortcuts(old(self).spec_flags()),
            ),
            Builder::same_settings(&*final(self), &*old(self)),
    {
        if self.flags.contains(Flags::CONTEXT_MENU) {
            let shortcut = PointerShortcut::new(PointerEvent::ContextMenu);
            self.shortcuts.push(AnyShortcut::Pointer(shortcut));
            assert(self.shortcuts@[old(self).shortcuts@.len() as int] == AnyShortcut::Pointer(
                shortcut,
            ));
        }
    }

    /// Add the built-in shortcuts of the selected groups, then make the script that
    /// suppresses every shortcut of the builder: the template around the origin
    /// declaration and one call per shortcut, in order.
    pub fn create_script(&mut self) -> (r: Script)
        ensures
            r@ == script_text(
                old(self).spec_check_origin(),
                shortcut_calls(old(self).spec_shortcuts()) + default_calls(old(self).spec_flags()),
            ),
            r@ == script_text(
                old(self).spec_check_origin(),
                shortcut_calls(final(self).spec_shortcuts()),
            ),
            extends_keyboard(
                old(self).spec_shortcuts(),
                final(self).spec_shortcuts().take(
                    (old(self).spec_shortcuts().len() + default_keyboard_shortcuts(
                        old(self).spec_flags(),
                    ).len()) as int,
                ),
                default_keyboard_shortcuts(old(self).spec_flags()),
            ),
            extends_pointer(
                final(self).spec_shortcuts().take(
                    (old(self).spec_shortcuts().len() + default_keyboard_shortcuts(
                        old(self).spec_flags(),
                    ).len()) as int,
                ),
                final(self).spec_shortcuts(),
                default_pointer_shortcuts(old(self).spec_flags()),
            ),
            assembled(final(self).spec_shortcuts()) == assembled(old(self).spec_shortcuts()),
            Builder::same_settings(&*final(self), &*old(self)),
    {
        let ghost flags = self.flags;
        self.add_keyboard_shortcuts();
        let ghost middle = self.shortcuts@;
        self.add_pointer_shortcuts();
        proof {
            lemma_calls_after_keyboard(old(self).shortcuts@, middle, default_keyboard_shortcuts(flags));
            lemma_calls_after_pointer(middle, self.shortcuts@, default_pointer_shortcuts(flags));
            assert(self.shortcuts@.take(middle.len() as int) =~= middle);
            assert(shortcut_calls(self.shortcuts@) =~= shortcut_calls(old(self).shortcuts@)
                + default_calls(flags));
        }
        let ghost snapshot = *self;
        let mut calls = String::new();
        let mut i: usize = 0;
        while i < self.shortcuts.len()
            invariant
                *self == snapshot,
                i <= self.shortcuts@.len(),
                calls@ == shortcut_calls(self.shortcuts@.take(i as int)),
            decreases self.shortcuts@.len() - i,
        {
            let call = shortcut_call_text(&self.shortcuts[i]);
            calls.append(call.as_str());
            assert(self.shortcuts@.take(i as int + 1).drop_last() =~= self.shortcuts@.take(i as int));
            i = i + 1;
        }
        assert(self.shortcuts@.take(self.shortcuts@.len() as int) =~= self.shortcuts@);
        let mut text = SCRIPT_HEAD.to_owned();
        match &self.check_origin {
            Some(origin) => {
                text.append("const ORIGIN='");
                text.append(origin.as_str());
                text.append("';");
            },
            None => {
                text.append("const ORIGIN=null;");
            },
        }
        text.append(SCRIPT_BODY);
        text.append(calls.as_str());
        text.append(SCRIPT_TAIL);
        assert(text@ =~= script_text(self.spec_check_origin(), shortcut_calls(self.shortcuts@)));
        Script::from_string(text)
    }

    /// Build the plugin's parts: the script, made as [`Builder::create_script`] makes it,
    /// the listener registry of the shortcuts' listeners under their canonical keys with
    /// the emission policy, and the platform settings.
    pub fn prepare(self) -> (r: Prepared)
        ensures
            r.script@ == script_text(
                self.spec_check_origin(),
                shortcut_calls(self.spec_shortcuts()) + default_calls(self.spec_flags()),
            ),
            r.state.wf(),
            r.state.spec_registry() == assembled(self.spec_shortcuts()),
            r.state.spec_policy() == self.spec_policy(),
            r.platform@ == self.spec_platform(),
    {
        let mut builder = self;
        let script = builder.create_script();
        let registry = Registry::from_shortcuts(&mut builder.shortcuts);
        let Builder { platform, emit_policy, .. } = builder;
        let state = PluginState::new(registry, emit_policy);
        Prepared { script, state, platform }
    }
}

} // verus!
