//! The listener registry: listeners grouped under canonical keys.
use crate::listener::EventListener;
use crate::shortcut::{same_definition, AnyShortcut, Shortcut};
use vstd::prelude::*;

verus! {

/// The listeners of `m` under `key`; none where `m` has no entry for it.
pub open spec fn listeners_at(m: Map<Seq<char>, Set<EventListener>>, key: Seq<char>) -> Set<
    EventListener,
> {
    if m.contains_key(key) {
        m[key]
    } else {
        Set::empty()
    }
}

/// `m` with `listeners` added under `key`; unchanged when `listeners` is empty.
pub open spec fn merge(
    m: Map<Seq<char>, Set<EventListener>>,
    key: Seq<char>,
    listeners: Seq<EventListener>,
) -> Map<Seq<char>, Set<EventListener>> {
    if listeners.len() == 0 {
        m
    } else {
        m.insert(key, listeners_at(m, key).union(listeners.to_set()))
    }
}

/// The registry that the given shortcuts make: the pending listeners of each, merged under
/// its canonical key, in order.
pub open spec fn assembled(shortcuts: Seq<AnyShortcut>) -> Map<Seq<char>, Set<EventListener>>
    decreases shortcuts.len(),
{
    if shortcuts.len() == 0 {
        Map::empty()
    } else {
        let last = shortcuts.last();
        merge(assembled(shortcuts.drop_last()), last.key_of(), last.pending_of())
    }
}

/// Every listener that the registry made from `shortcuts` holds under a key comes from a
/// shortcut with that key, and every pending listener of every shortcut is held under the
/// shortcut's key: definitions that share a key have their listeners merged. A key is present
/// exactly when some shortcut with that key had a pending listener.
pub proof fn lemma_assembled_members(shortcuts: Seq<AnyShortcut>, key: Seq<char>, l: EventListener)
    ensures
        listeners_at(assembled(shortcuts), key).contains(l) <==> exists|i: int|
            0 <= i < shortcuts.len() && (#[trigger] shortcuts[i]).key_of() == key
                && shortcuts[i].pending_of().contains(l),
        assembled(shortcuts).contains_key(key) <==> exists|i: int|
            0 <= i < shortcuts.len() && (#[trigger] shortcuts[i]).key_of() == key
                && shortcuts[i].pending_of().len() > 0,
    decreases shortcuts.len(),
{
    if shortcuts.len() > 0 {
        let rest = shortcuts.drop_last();
        let last = shortcuts.last();
        let n = shortcuts.len() - 1;
        lemma_assembled_members(rest, key, l);
        assert forall|i: int| 0 <= i < rest.len() implies rest[i] == shortcuts[i] by {}
        if listeners_at(assembled(shortcuts), key).contains(l) {
            if !(exists|i: int| 0 <= i < rest.len() && (#[trigger] rest[i]).key_of() == key
                && rest[i].pending_of().contains(l)) {
                assert(last.pending_of().to_set().contains(l));
                assert(shortcuts[n].pending_of().contains(l));
            }
        }
        if exists|i: int| 0 <= i < shortcuts.len() && (#[trigger] shortcuts[i]).key_of() == key
            && shortcuts[i].pending_of().contains(l) {
            let i = choose|i: int| 0 <= i < shortcuts.len() && (#[trigger] shortcuts[i]).key_of() == key
                && shortcuts[i].pending_of().contains(l);
            if i < n {
                assert(rest[i] == shortcuts[i]);
            } else {
                assert(last.pending_of().to_set().contains(l));
            }
        }
        if assembled(shortcuts).contains_key(key) {
            if !(exists|i: int| 0 <= i < rest.len() && (#[trigger] rest[i]).key_of() == key
                && rest[i].pending_of().len() > 0) {
                assert(shortcuts[n].key_of() == key);
            }
        }
        if exists|i: int| 0 <= i < shortcuts.len() && (#[trigger] shortcuts[i]).key_of() == key
            && shortcuts[i].pending_of().len() > 0 {
            let i = choose|i: int| 0 <= i < shortcuts.len() && (#[trigger] shortcuts[i]).key_of() == key
                && shortcuts[i].pending_of().len() > 0;
            if i < n {
                assert(rest[i] == shortcuts[i]);
            }
        }
    }
}

/// Two shortcut definitions with the same canonical key have their listeners merged under
/// that key, whichever of them comes first.
pub proof fn lemma_same_key_merges(a: AnyShortcut, b: AnyShortcut)
    requires
        a.key_of() == b.key_of(),
    ensures
        listeners_at(assembled(seq![a, b]), a.key_of()) == a.pending_of().to_set().union(
            b.pending_of().to_set(),
        ),
        assembled(seq![a, b]) == assembled(seq![b, a]),
{
    let ab = seq![a, b];
    let ba = seq![b, a];
    let key = a.key_of();
    assert(ab[0] == a && ab[1] == b && ba[0] == b && ba[1] == a);
    assert forall|l: EventListener|
        listeners_at(assembled(ab), key).contains(l) <==> a.pending_of().to_set().union(
            b.pending_of().to_set(),
        ).contains(l) by {
        lemma_assembled_members(ab, key, l);
    }
    assert(listeners_at(assembled(ab), key) =~= a.pending_of().to_set().union(
        b.pending_of().to_set(),
    ));
    assert forall|k: Seq<char>| #[trigger] assembled(ab).contains_key(k) == assembled(ba).contains_key(k) && listeners_at(assembled(ab), k) == listeners_at(assembled(ba), k) by {
        let some: EventListener = arbitrary();
        lemma_assembled_members(ab, k, some);
        lemma_assembled_members(ba, k, some);
        assert forall|l: EventListener| listeners_at(assembled(ab), k).contains(l) == listeners_at(assembled(ba), k).contains(l) by {
            lemma_assembled_members(ab, k, l);
            lemma_assembled_members(ba, k, l);
        }
        assert(listeners_at(assembled(ab), k) =~= listeners_at(assembled(ba), k));
    }
    assert forall|k: Seq<char>| assembled(ab).contains_key(k) implies assembled(ab)[k] == assembled(ba)[k] by {
        assert(listeners_at(assembled(ab), k) == listeners_at(assembled(ba), k));
    }
    assert(assembled(ab) =~= assembled(ba));
}

struct Entry {
    key: String,
    listeners: Vec<EventListener>,
}

/// Listeners grouped by canonical key.
///
/// No key occurs twice, no entry is empty, and no listener occurs twice under one key.
pub struct Registry {
    entries: Vec<Entry>,
}

fn contains_listener(v: &Vec<EventListener>, l: EventListener) -> (r: bool)
    ensures
        r == v@.contains(l),
{
    let mut i: usize = 0;
    while i < v.len()
        invariant
            i <= v@.len(),
            forall|j: int| 0 <= j < i ==> v@[j] != l,
        decreases v@.len() - i,
    {
        if v[i] == l {
            return true;
        }
        i = i + 1;
    }
    false
}

/// Add to `target` each item of `items` that it lacks.
fn add_missing(target: &mut Vec<EventListener>, items: &Vec<EventListener>)
    requires
        old(target)@.no_duplicates(),
    ensures
        final(target)@.no_duplicates(),
        final(target)@.to_set() == old(target)@.to_set().union(items@.to_set()),
        final(target)@.len() >= old(target)@.len(),
{
    let ghost start = target@;
    let mut i: usize = 0;
    while i < items.len()
        invariant
            i <= items@.len(),
            target@.no_duplicates(),
            target@.len() >= start.len(),
            target@.to_set() == start.to_set().union(items@.take(i as int).to_set()),
        decreases items@.len() - i,
    {
        let l = items[i];
        let ghost before = target@;
        if !contains_listener(target, l) {
            target.push(l);
            assert(target@.to_set() =~= before.to_set().insert(l)) by {
                assert forall|x| #[trigger] target@.contains(x) <==> before.contains(x) || x == l by {
                    if target@.contains(x) {
                        let k = choose|k: int| 0 <= k < target@.len() && target@[k] == x;
                        if k < before.len() {
                            assert(before[k] == x);
                        }
                    }
                    if before.contains(x) {
                        let k = choose|k: int| 0 <= k < before.len() && before[k] == x;
                        assert(target@[k] == x);
                    }
                    if x == l {
                        assert(target@[before.len() as int] == l);
                    }
                }
            }
        }
        assert(items@.take(i as int + 1) =~= items@.take(i as int).push(l));
        proof {
            items@.take(i as int).lemma_push_to_set_commute(l);
        }
        assert(target@.to_set() =~= start.to_set().union(items@.take(i as int + 1).to_set()));
        i = i + 1;
    }
    assert(items@.take(items@.len() as int) =~= items@);
}

impl Registry {
    pub closed spec fn wf(&self) -> bool {
        &&& forall|i: int, j: int|
            0 <= i < j < self.entries@.len() ==> self.entries@[i].key@ != self.entries@[j].key@
        &&& forall|i: int|
            0 <= i < self.entries@.len() ==> self.entries@[i].listeners@.no_duplicates()
                && self.entries@[i].listeners@.len() > 0
    }

    closed spec fn has_key(&self, key: Seq<char>) -> bool {
        exists|i: int| 0 <= i < self.entries@.len() && self.entries@[i].key@ == key
    }

    closed spec fn listeners_of(&self, key: Seq<char>) -> Set<EventListener> {
        Set::new(
            |l: EventListener|
                exists|i: int|
                    0 <= i < self.entries@.len() && self.entries@[i].key@ == key
                        && self.entries@[i].listeners@.contains(l),
        )
    }

    /// The registry as a map from canonical key to the set of listeners under it.
    pub closed spec fn view(&self) -> Map<Seq<char>, Set<EventListener>> {
        Map::new(|k: Seq<char>| self.has_key(k), |k: Seq<char>| self.listeners_of(k))
    }

    /// An empty registry.
    pub fn new() -> (r: Registry)
        ensures
            r.wf(),
            r@ == Map::<Seq<char>, Set<EventListener>>::empty(),
    {
        let r = Registry { entries: Vec::new() };
        assert(r@ =~= Map::<Seq<char>, Set<EventListener>>::empty());
        r
    }

    /// Add `listeners` under `key`, to the listeners already there.
    pub fn register(&mut self, key: String, listeners: Vec<EventListener>)
        requires
            old(self).wf(),
        ensures
            final(self).wf(),
            final(self)@ == merge(old(self)@, key@, listeners@),
    {
        if listeners.len() == 0 {
            return ;
        }
        let mut i: usize = 0;
        while i < self.entries.len()
            invariant
                i <= self.entries@.len(),
                *self == *old(self),
                self.wf(),
                listeners@.len() > 0,
                forall|j: int| 0 <= j < i ==> self.entries@[j].key@ != key@,
            decreases self.entries@.len() - i,
        {
            if self.entries[i].key == key {
                let ghost before = *self;
                add_missing(&mut self.entries[i].listeners, &listeners);
                proof {
                    self.lemma_view_after_update(before, i as int, key@, listeners@);
                }
                return ;
            }
            i = i + 1;
        }
        let ghost before = *self;
        let mut fresh: Vec<EventListener> = Vec::new();
        add_missing(&mut fresh, &listeners);
        assert(Seq::<EventListener>::empty().to_set() =~= Set::<EventListener>::empty());
        assert(fresh@.to_set() =~= listeners@.to_set());
        assert(fresh@.len() > 0) by {
            assert(listeners@.to_set().contains(listeners@[0]));
            assert(fresh@.to_set().contains(listeners@[0]));
        }
        self.entries.push(Entry { key, listeners: fresh });
        proof {
            self.lemma_view_after_push(before, listeners@);
        }
    }

    /// The listeners under `key`, each once; none when the key is absent.
    pub fn get(&self, key: &str) -> (r: Vec<EventListener>)
        requires
            self.wf(),
        ensures
            r@.no_duplicates(),
            r@.to_set() == listeners_at(self@, key@),
    {
        let wanted = key.to_owned();
        let mut i: usize = 0;
        while i < self.entries.len()
            invariant
                i <= self.entries@.len(),
                wanted@ == key@,
                self.wf(),
                forall|j: int| 0 <= j < i ==> self.entries@[j].key@ != key@,
            decreases self.entries@.len() - i,
        {
            if self.entries[i].key == wanted {
                let found = &self.entries[i].listeners;
                let mut out: Vec<EventListener> = Vec::new();
                let mut k: usize = 0;
                while k < found.len()
                    invariant
                        k <= found@.len(),
                        out@ == found@.take(k as int),
                    decreases found@.len() - k,
                {
                    out.push(found[k]);
                    assert(found@.take(k as int + 1) =~= found@.take(k as int).push(found@[k as int]));
                    k = k + 1;
                }
                proof {
                    assert(found@.take(found@.len() as int) =~= found@);
                    assert(self.has_key(key@));
                    assert(self.listeners_of(key@) =~= found@.to_set()) by {
                        assert forall|l: EventListener| self.listeners_of(key@).contains(l) <==> found@.to_set().contains(l) by {
                            if self.listeners_of(key@).contains(l) {
                                let j = choose|j: int| 0 <= j < self.entries@.len() && self.entries@[j].key@ == key@ && self.entries@[j].listeners@.contains(l);
                                assert(j == i);
                            }
                        }
                    }
                }
                return out;
            }
            i = i + 1;
        }
        proof {
            assert(!self.has_key(key@));
            assert(Seq::<EventListener>::empty().to_set() =~= Set::<EventListener>::empty());
        }
        Vec::new()
    }

    /// The registry made from `shortcuts`: each shortcut's pending listeners are taken out
    /// and merged under its canonical key. The shortcuts keep their definitions.
    pub fn from_shortcuts(shortcuts: &mut Vec<AnyShortcut>) -> (r: Registry)
        ensures
            r.wf(),
            r@ == assembled(old(shortcuts)@),
            final(shortcuts)@.len() == old(shortcuts)@.len(),
            forall|i: int|
                0 <= i < old(shortcuts)@.len() ==> same_definition(
                    #[trigger] final(shortcuts)@[i],
                    old(shortcuts)@[i],
                ) && final(shortcuts)@[i].key_of() == old(shortcuts)@[i].key_of()
                    && final(shortcuts)@[i].pending_of() == Seq::<EventListener>::empty(),
    {
        let mut registry = Registry::new();
        let mut i: usize = 0;
        while i < shortcuts.len()
            invariant
                i <= shortcuts@.len(),
                shortcuts@.len() == old(shortcuts)@.len(),
                registry.wf(),
                registry@ == assembled(old(shortcuts)@.take(i as int)),
                forall|k: int|
                    0 <= k < i ==> same_definition(#[trigger] shortcuts@[k], old(shortcuts)@[k])
                        && shortcuts@[k].key_of() == old(shortcuts)@[k].key_of()
                        && shortcuts@[k].pending_of() == Seq::<EventListener>::empty(),
                forall|k: int| i <= k < shortcuts@.len() ==> #[trigger] shortcuts@[k] == old(shortcuts)@[k],
            decreases shortcuts@.len() - i,
        {
            let key = shortcuts[i].canonical_key();
            let listeners = shortcuts[i].take_listeners();
            registry.register(key, listeners);
            assert(old(shortcuts)@.take(i as int + 1).drop_last() =~= old(shortcuts)@.take(i as int));
            i = i + 1;
        }
        assert(old(shortcuts)@.take(old(shortcuts)@.len() as int) =~= old(shortcuts)@);
        registry
    }

    proof fn lemma_view_after_update(
        &self,
        before: Registry,
        i: int,
        key: Seq<char>,
        added: Seq<EventListener>,
    )
        requires
            before.wf(),
            added.len() > 0,
            0 <= i < before.entries@.len(),
            before.entries@[i].key@ == key,
            self.entries@.len() == before.entries@.len(),
            self.entries@[i].key@ == key,
            self.entries@[i].listeners@.no_duplicates(),
            self.entries@[i].listeners@.to_set() == before.entries@[i].listeners@.to_set().union(
                added.to_set(),
            ),
            forall|j: int| 0 <= j < self.entries@.len() && j != i ==> self.entries@[j] == before.entries@[j],
        ensures
            self.wf(),
            self@ == merge(before@, key, added),
    {
        assert(self.entries@[i].listeners@.len() > 0) by {
            let l = before.entries@[i].listeners@[0];
            assert(before.entries@[i].listeners@.to_set().contains(l));
            assert(self.entries@[i].listeners@.to_set().contains(l));
        }
        assert forall|k: Seq<char>| #[trigger] self.has_key(k) == before.has_key(k) by {
            if self.has_key(k) {
                let j = choose|j: int| 0 <= j < self.entries@.len() && self.entries@[j].key@ == k;
                assert(before.entries@[j].key@ == k);
            }
            if before.has_key(k) {
                let j = choose|j: int| 0 <= j < before.entries@.len() && before.entries@[j].key@ == k;
                assert(self.entries@[j].key@ == k);
            }
        }
        assert forall|k: Seq<char>| k != key implies #[trigger] self.listeners_of(k) == before.listeners_of(k) by {
            assert(self.listeners_of(k) =~= before.listeners_of(k)) by {
                assert forall|l: EventListener| self.listeners_of(k).contains(l) <==> before.listeners_of(k).contains(l) by {
                    if self.listeners_of(k).contains(l) {
                        let j = choose|j: int| 0 <= j < self.entries@.len() && self.entries@[j].key@ == k && self.entries@[j].listeners@.contains(l);
                        assert(before.entries@[j] == self.entries@[j]);
                    }
                    if before.listeners_of(k).contains(l) {
                        let j = choose|j: int| 0 <= j < before.entries@.len() && before.entries@[j].key@ == k && before.entries@[j].listeners@.contains(l);
                        assert(before.entries@[j] == self.entries@[j]);
                    }
                }
            }
        }
        assert(self.listeners_of(key) =~= before.listeners_of(key).union(added.to_set())) by {
            assert forall|l: EventListener| self.listeners_of(key).contains(l) <==> before.listeners_of(key).union(added.to_set()).contains(l) by {
                if self.listeners_of(key).contains(l) {
                    let j = choose|j: int| 0 <= j < self.entries@.len() && self.entries@[j].key@ == key && self.entries@[j].listeners@.contains(l);
                    if j != i {
                        assert(before.entries@[j] == self.entries@[j]);
                    } else {
                        assert(self.entries@[i].listeners@.to_set().contains(l));
                        if before.entries@[i].listeners@.to_set().contains(l) {
                            assert(before.entries@[i].listeners@.contains(l));
                        }
                    }
                }
                if before.listeners_of(key).contains(l) {
                    let j = choose|j: int| 0 <= j < before.entries@.len() && before.entries@[j].key@ == key && before.entries@[j].listeners@.contains(l);
                    assert(j == i);
                    assert(before.entries@[i].listeners@.to_set().contains(l));
                    assert(self.entries@[i].listeners@.to_set().contains(l));
                }
                if added.to_set().contains(l) {
                    assert(self.entries@[i].listeners@.to_set().contains(l));
                }
            }
        }
        assert(before.has_key(key));
        assert(listeners_at(before@, key) == before.listeners_of(key));
        assert(self@ =~= merge(before@, key, added));
    }

    proof fn lemma_view_after_push(&self, before: Registry, added: Seq<EventListener>)
        requires
            before.wf(),
            added.len() > 0,
            self.entries@.len() == before.entries@.len() + 1,
            forall|j: int| 0 <= j < before.entries@.len() ==> self.entries@[j] == before.entries@[j],
            forall|j: int| 0 <= j < before.entries@.len() ==> before.entries@[j].key@ != self.entries@.last().key@,
            self.entries@.last().listeners@.no_duplicates(),
            self.entries@.last().listeners@.len() > 0,
            self.entries@.last().listeners@.to_set() == added.to_set(),
        ensures
            self.wf(),
            self@ == merge(before@, self.entries@.last().key@, added),
    {
        let key = self.entries@.last().key@;
        let n = before.entries@.len() as int;
        assert(!before.has_key(key));
        assert forall|k: Seq<char>| #[trigger] self.has_key(k) == (before.has_key(k) || k == key) by {
            if self.has_key(k) {
                let j = choose|j: int| 0 <= j < self.entries@.len() && self.entries@[j].key@ == k;
                if j < n {
                    assert(before.entries@[j].key@ == k);
                }
            }
            if before.has_key(k) {
                let j = choose|j: int| 0 <= j < before.entries@.len() && before.entries@[j].key@ == k;
                assert(self.entries@[j].key@ == k);
            }
            if k == key {
                assert(self.entries@[n].key@ == k);
            }
        }
        assert forall|k: Seq<char>| #[trigger] self.listeners_of(k) == (if k == key { added.to_set() } else { before.listeners_of(k) }) by {
            assert forall|l: EventListener| self.listeners_of(k).contains(l) <==> (if k == key { added.to_set() } else { before.listeners_of(k) }).contains(l) by {
                if self.listeners_of(k).contains(l) {
                    let j = choose|j: int| 0 <= j < self.entries@.len() && self.entries@[j].key@ == k && self.entries@[j].listeners@.contains(l);
                    if j < n {
                        assert(before.entries@[j] == self.entries@[j]);
                    } else {
                        assert(self.entries@.last().listeners@.to_set().contains(l));
                    }
                }
                if k == key && added.to_set().contains(l) {
                    assert(self.entries@.last().listeners@.to_set().contains(l));
                    assert(self.entries@[n].listeners@.contains(l));
                }
                if k != key && before.listeners_of(k).contains(l) {
                    let j = choose|j: int| 0 <= j < before.entries@.len() && before.entries@[j].key@ == k && before.entries@[j].listeners@.contains(l);
                    assert(before.entries@[j] == self.entries@[j]);
                }
            }
            assert(self.listeners_of(k) =~= (if k == key { added.to_set() } else { before.listeners_of(k) }));
        }
        assert(listeners_at(before@, key) == Set::<EventListener>::empty());
        assert(Set::<EventListener>::empty().union(added.to_set()) =~= added.to_set());
        assert(self@ =~= merge(before@, key, added));
    }
}

} // verus!
