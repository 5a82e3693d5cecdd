//! Where a dispatched event is published again.
use vstd::prelude::*;

verus! {

/// Which windows receive an event after its shortcut fired.
#[derive(Clone, Debug)]
pub enum EmitPolicy {
    /// Emit the event to all windows.
    All,
    /// Emit the event to the window with the given label.
    Custom(String),
    /// Emit the event to the focused window, if any.
    Focused,
    /// Emit the event only to the window that triggered the shortcut.
    Origin,
    /// Do not emit events.
    Disabled,
}

impl Default for EmitPolicy {
    fn default() -> (r: EmitPolicy)
        ensures
            r is Disabled,
    {
        EmitPolicy::Disabled
    }
}

/// The concrete destination of a published event.
#[derive(Clone, Debug)]
pub enum EmitTarget {
    /// Every window.
    AllWindows,
    /// The window with this label.
    Window(String),
}

/// An open window as the host reports it: its label and whether it has focus.
#[derive(Clone, Debug)]
pub struct WindowFocus {
    pub label: String,
    pub focused: bool,
}

/// Whether window `i` is the first focused one of `windows`.
pub open spec fn is_first_focused(windows: Seq<WindowFocus>, i: int) -> bool {
    &&& 0 <= i < windows.len()
    &&& windows[i].focused
    &&& forall|j: int| 0 <= j < i ==> !(#[trigger] windows[j]).focused
}

/// Whether no window of `windows` has focus.
pub open spec fn none_focused(windows: Seq<WindowFocus>) -> bool {
    forall|i: int| 0 <= i < windows.len() ==> !(#[trigger] windows[i]).focused
}

/// Whether `target` is the window labelled `label`.
pub open spec fn is_window(target: EmitTarget, label: Seq<char>) -> bool {
    target matches EmitTarget::Window(w) && w@ == label
}

/// Whether `target` is where `policy` sends an event that came from window `origin`, while
/// `windows` are open; `None` means that nothing is published.
pub open spec fn resolves_to(
    policy: EmitPolicy,
    origin: Seq<char>,
    windows: Seq<WindowFocus>,
    target: Option<EmitTarget>,
) -> bool {
    match policy {
        EmitPolicy::All => target matches Some(EmitTarget::AllWindows),
        EmitPolicy::Custom(label) => target matches Some(t) && is_window(t, label@),
        EmitPolicy::Focused => if none_focused(windows) {
            target is None
        } else {
            target matches Some(t) && exists|i: int|
                is_first_focused(windows, i) && is_window(t, (#[trigger] windows[i]).label@)
        },
        EmitPolicy::Origin => target matches Some(t) && is_window(t, origin),
        EmitPolicy::Disabled => target is None,
    }
}

/// The first focused window of `windows`, if any.
pub fn focused_window(windows: &Vec<WindowFocus>) -> (r: Option<usize>)
    ensures
        r matches Some(i) ==> is_first_focused(windows@, i as int),
        r is None <==> none_focused(windows@),
{
    let mut i: usize = 0;
    while i < windows.len()
        invariant
            i <= windows@.len(),
            forall|j: int| 0 <= j < i ==> !(#[trigger] windows@[j]).focused,
        decreases windows@.len() - i,
    {
        if windows[i].focused {
            return Some(i);
        }
        i = i + 1;
    }
    None
}

impl EmitPolicy {
    /// Returns `true` for [`EmitPolicy::All`].
    pub fn is_all(&self) -> (r: bool)
        ensures
            r == self is All,
    {
        matches!(self, EmitPolicy::All)
    }

    /// Returns `true` for [`EmitPolicy::Custom`].
    pub fn is_custom(&self) -> (r: bool)
        ensures
            r == self is Custom,
    {
        matches!(self, EmitPolicy::Custom(_))
    }

    /// Returns `true` for [`EmitPolicy::Focused`].
    pub fn is_focused(&self) -> (r: bool)
        ensures
            r == self is Focused,
    {
        matches!(self, EmitPolicy::Focused)
    }

    /// Returns `true` for [`EmitPolicy::Origin`].
    pub fn is_origin(&self) -> (r: bool)
        ensures
            r == self is Origin,
    {
        matches!(self, EmitPolicy::Origin)
    }

    /// Returns `true` for [`EmitPolicy::Disabled`].
    pub fn is_disabled(&self) -> (r: bool)
        ensures
            r == self is Disabled,
    {
        matches!(self, EmitPolicy::Disabled)
    }

    /// Where an event from window `origin` goes while `windows` are open; `None` when
    /// nothing is to be published: under [`EmitPolicy::Disabled`], and under
    /// [`EmitPolicy::Focused`] when no window has focus.
    pub fn resolve(&self, origin: &str, windows: &Vec<WindowFocus>) -> (r: Option<EmitTarget>)
        ensures
            resolves_to(*self, origin@, windows@, r),
    {
        match self {
            EmitPolicy::All => Some(EmitTarget::AllWindows),
            EmitPolicy::Custom(label) => Some(EmitTarget::Window(label.clone())),
            EmitPolicy::Focused => match focused_window(windows) {
                Some(i) => {
                    let t = EmitTarget::Window(windows[i].label.clone());
                    assert(is_window(t, windows@[i as int].label@));
                    Some(t)
                },
                None => None,
            },
            EmitPolicy::Origin => Some(EmitTarget::Window(origin.to_owned())),
            EmitPolicy::Disabled => None,
        }
    }
}

} // verus!
