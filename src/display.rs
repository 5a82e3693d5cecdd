//! Canonical keys: the strings under which shortcuts and listeners are joined.
use crate::shortcut::{ModifierKey, PointerEvent};
use itertools::Itertools;
use vstd::prelude::*;

verus! {

/// What `str::to_lowercase` makes of a string.
pub uninterp spec fn lower_of(s: Seq<char>) -> Seq<char>;

/// Text contributed by modifier `m` when it occurs in `modifiers`.
pub open spec fn modifier_slot(modifiers: Seq<ModifierKey>, m: ModifierKey) -> Seq<char> {
    if modifiers.contains(m) {
        m.spec_token()
    } else {
        Seq::empty()
    }
}

/// The modifiers of a keyboard shortcut as they appear in its canonical key: each distinct
/// modifier once, in precedence order, followed by `+`.
pub open spec fn modifier_prefix(modifiers: Seq<ModifierKey>) -> Seq<char> {
    modifier_slot(modifiers, ModifierKey::CtrlKey) + modifier_slot(modifiers, ModifierKey::ShiftKey)
        + modifier_slot(modifiers, ModifierKey::AltKey) + modifier_slot(
        modifiers,
        ModifierKey::MetaKey,
    )
}

/// Canonical key of a keyboard shortcut whose key has already been lowercased.
pub open spec fn keyboard_key_lowered(lowered: Seq<char>, modifiers: Seq<ModifierKey>) -> Seq<char> {
    "keyboard:"@ + modifier_prefix(modifiers) + lowered
}

/// Canonical key of a keyboard shortcut.
pub open spec fn keyboard_key(key: Seq<char>, modifiers: Seq<ModifierKey>) -> Seq<char> {
    keyboard_key_lowered(lower_of(key), modifiers)
}

/// Canonical key of a pointer shortcut.
pub open spec fn pointer_key(event: PointerEvent) -> Seq<char> {
    "pointer:"@ + event.spec_name()
}

/// Modifier lists that hold the same modifiers, in whatever order and however often each,
/// give the same canonical key.
pub proof fn lemma_keyboard_key_modifier_set(
    key: Seq<char>,
    a: Seq<ModifierKey>,
    b: Seq<ModifierKey>,
)
    requires
        a.to_set() == b.to_set(),
    ensures
        keyboard_key(key, a) == keyboard_key(key, b),
{
    assert forall|m: ModifierKey| a.contains(m) == b.contains(m) by {
        assert(a.to_set().contains(m) == a.contains(m));
        assert(b.to_set().contains(m) == b.contains(m));
    }
}

/// Keys with the same lowercase form, such as `A` and `a`, give the same canonical key.
pub proof fn lemma_keyboard_key_case(a: Seq<char>, b: Seq<char>, modifiers: Seq<ModifierKey>)
    requires
        lower_of(a) == lower_of(b),
    ensures
        keyboard_key(a, modifiers) == keyboard_key(b, modifiers),
{
}

/// Modifier of the given precedence.
pub open spec fn modifier_of_rank(p: int) -> ModifierKey {
    if p == 0 {
        ModifierKey::CtrlKey
    } else if p == 1 {
        ModifierKey::ShiftKey
    } else if p == 2 {
        ModifierKey::AltKey
    } else {
        ModifierKey::MetaKey
    }
}

spec fn has_rank(ranks: Seq<u8>, p: int) -> bool {
    exists|i: int| 0 <= i < ranks.len() && ranks[i] == p
}

/// Tokens of the given ranks, in the order of the sequence.
spec fn tokens(ranks: Seq<u8>) -> Seq<char>
    decreases ranks.len(),
{
    if ranks.len() == 0 {
        Seq::empty()
    } else {
        tokens(ranks.drop_last()) + modifier_of_rank(ranks.last() as int).spec_token()
    }
}

/// Tokens of the ranks below `end` that occur in `ranks`, in rank order.
spec fn slots_below(ranks: Seq<u8>, end: int) -> Seq<char>
    decreases end,
{
    if end <= 0 {
        Seq::empty()
    } else {
        slots_below(ranks, end - 1) + if has_rank(ranks, end - 1) {
            modifier_of_rank(end - 1).spec_token()
        } else {
            Seq::empty()
        }
    }
}

spec fn strictly_increasing(s: Seq<u8>) -> bool {
    forall|i: int, j: int| 0 <= i < j < s.len() ==> s[i] < s[j]
}

proof fn lemma_slots_below_depend_on_membership(a: Seq<u8>, b: Seq<u8>, end: int)
    requires
        forall|p: int| 0 <= p < end ==> (has_rank(a, p) <==> has_rank(b, p)),
    ensures
        slots_below(a, end) == slots_below(b, end),
    decreases end,
{
    if end > 0 {
        lemma_slots_below_depend_on_membership(a, b, end - 1);
    }
}

proof fn lemma_tokens_of_increasing(ranks: Seq<u8>, end: int)
    requires
        strictly_increasing(ranks),
        0 <= end,
        forall|i: int| 0 <= i < ranks.len() ==> ranks[i] < end,
    ensures
        tokens(ranks) == slots_below(ranks, end),
    decreases end,
{
    if end == 0 {
        if ranks.len() > 0 {
            assert(ranks[0] < end);
        }
    } else if ranks.len() > 0 && ranks.last() == end - 1 {
        let rest = ranks.drop_last();
        assert forall|i: int| 0 <= i < rest.len() implies rest[i] < end - 1 by {
            assert(ranks[i] < ranks[ranks.len() - 1]);
        }
        lemma_tokens_of_increasing(rest, end - 1);
        assert forall|p: int| 0 <= p < end - 1 implies (has_rank(rest, p) <==> has_rank(
            ranks,
            p,
        )) by {
            if has_rank(ranks, p) {
                let i = choose|i: int| 0 <= i < ranks.len() && ranks[i] == p;
                assert(rest[i] == p);
            }
            if has_rank(rest, p) {
                let i = choose|i: int| 0 <= i < rest.len() && rest[i] == p;
                assert(ranks[i] == p);
            }
        }
        lemma_slots_below_depend_on_membership(rest, ranks, end - 1);
        assert(has_rank(ranks, end - 1)) by {
            assert(ranks[ranks.len() - 1] == end - 1);
        }
    } else {
        assert forall|i: int| 0 <= i < ranks.len() implies ranks[i] < end - 1 by {
            if i < ranks.len() - 1 {
                assert(ranks[i] < ranks[ranks.len() - 1]);
            }
        }
        lemma_tokens_of_increasing(ranks, end - 1);
    }
}

proof fn lemma_remove_duplicates_unique(s: Seq<u8>, seen: Seq<u8>)
    requires
        seen.no_duplicates(),
    ensures
        s.remove_duplicates(seen).no_duplicates(),
    decreases s.len(),
{
    if s.len() > 0 {
        if seen.contains(s[0]) {
            lemma_remove_duplicates_unique(s.skip(1), seen);
        } else {
            let next = seen + seq![s[0]];
            assert forall|i: int, j: int|
                0 <= i < next.len() && 0 <= j < next.len() && i != j implies next[i]
                != next[j] by {
                if i == seen.len() {
                    assert(seen[j] == next[j]);
                } else if j == seen.len() {
                    assert(seen[i] == next[i]);
                }
            }
            lemma_remove_duplicates_unique(s.skip(1), next);
        }
    }
}

/// Relies on `Itertools::unique`: the items in their order, each kept at its first occurrence.
#[verifier::external_body]
fn unique_ranks(ranks: &Vec<u8>) -> (r: Vec<u8>)
    ensures
        r@ == ranks@.remove_duplicates(Seq::empty()),
{
    ranks.iter().copied().unique().collect()
}

/// Relies on `Itertools::sorted`: the same items in ascending order.
#[verifier::external_body]
fn sorted_ranks(ranks: &Vec<u8>) -> (r: Vec<u8>)
    ensures
        r@.to_multiset() == ranks@.to_multiset(),
        forall|i: int, j: int| 0 <= i <= j < r@.len() ==> r@[i] <= r@[j],
{
    ranks.iter().copied().sorted().collect()
}

/// Relies on `str::to_lowercase`: the result depends on the characters alone.
#[verifier::external_body]
fn lowercase(s: &str) -> (r: String)
    ensures
        r@ == lower_of(s@),
{
    s.to_lowercase()
}

fn rank_token(p: u8) -> (r: &'static str)
    requires
        p < 4,
    ensures
        r@ == modifier_of_rank(p as int).spec_token(),
{
    if p == 0 {
        "ctrl+"
    } else if p == 1 {
        "shift+"
    } else if p == 2 {
        "alt+"
    } else {
        "meta+"
    }
}

/// The distinct precedences of `modifiers`, in ascending order.
fn distinct_ranks(modifiers: &[ModifierKey]) -> (r: Vec<u8>)
    ensures
        strictly_increasing(r@),
        forall|i: int| 0 <= i < r@.len() ==> r@[i] < 4,
        forall|p: int| 0 <= p < 4 ==> (has_rank(r@, p) <==> modifiers@.contains(modifier_of_rank(p))),
{
    let mut ranks: Vec<u8> = Vec::new();
    let mut i: usize = 0;
    while i < modifiers.len()
        invariant
            i <= modifiers@.len(),
            ranks@.len() == i,
            forall|k: int| 0 <= k < i ==> ranks@[k] == modifiers@[k].spec_precedence(),
        decreases modifiers@.len() - i,
    {
        ranks.push(modifiers[i].precedence());
        i = i + 1;
    }
    let unique = unique_ranks(&ranks);
    let sorted = sorted_ranks(&unique);
    proof {
        broadcast use vstd::seq_lib::group_to_multiset_ensures;

        lemma_remove_duplicates_unique(ranks@, Seq::empty());
        ranks@.lemma_remove_duplicates_properties(Seq::empty());
        assert(ranks@ + Seq::<u8>::empty() =~= ranks@);
        unique@.lemma_multiset_has_no_duplicates();
        sorted@.lemma_multiset_has_no_duplicates_conv();
        assert forall|x: u8| #[trigger] sorted@.contains(x) <==> ranks@.contains(x) by {
            vstd::seq_lib::to_multiset_contains(sorted@, x);
            vstd::seq_lib::to_multiset_contains(unique@, x);
        }
        assert forall|k: int| 0 <= k < sorted@.len() implies sorted@[k] < 4 by {
            assert(sorted@.contains(sorted@[k]));
        }
        assert forall|p: int| 0 <= p < 4 implies (has_rank(sorted@, p) <==> modifiers@.contains(
            modifier_of_rank(p),
        )) by {
            if has_rank(sorted@, p) {
                let k = choose|k: int| 0 <= k < sorted@.len() && sorted@[k] == p;
                assert(sorted@.contains(sorted@[k]));
                let j = choose|j: int| 0 <= j < ranks@.len() && ranks@[j] == sorted@[k];
                assert(modifiers@[j] == modifier_of_rank(p));
            }
            if modifiers@.contains(modifier_of_rank(p)) {
                let j = choose|j: int|
                    0 <= j < modifiers@.len() && modifiers@[j] == modifier_of_rank(p);
                assert(ranks@.contains(ranks@[j]));
                assert(sorted@.contains(p as u8));
            }
        }
    }
    sorted
}

/// Canonical key of a keyboard shortcut whose key is already in lowercase form:
/// `keyboard:`, then each distinct modifier in precedence order followed by `+`, then the key.
pub fn keyboard_lowered(lowered: &str, modifiers: &[ModifierKey]) -> (r: String)
    ensures
        r@ == keyboard_key_lowered(lowered@, modifiers@),
{
    let ranks = distinct_ranks(modifiers);
    let mut buf = "keyboard:".to_owned();
    let mut i: usize = 0;
    while i < ranks.len()
        invariant
            i <= ranks@.len(),
            forall|k: int| 0 <= k < ranks@.len() ==> ranks@[k] < 4,
            buf@ == "keyboard:"@ + tokens(ranks@.take(i as int)),
        decreases ranks@.len() - i,
    {
        assert(ranks@.take(i as int + 1).drop_last() =~= ranks@.take(i as int));
        buf.append(rank_token(ranks[i]));
        i = i + 1;
    }
    proof {
        assert(ranks@.take(ranks@.len() as int) =~= ranks@);
        lemma_tokens_of_increasing(ranks@, 4);
        reveal_with_fuel(slots_below, 5);
        assert(slots_below(ranks@, 4) =~= modifier_prefix(modifiers@));
    }
    buf.append(lowered);
    buf
}

/// Canonical key of a keyboard shortcut: `keyboard:`, then each distinct modifier in
/// precedence order followed by `+`, then the key in lowercase.
pub fn keyboard(key: &str, modifiers: &[ModifierKey]) -> (r: String)
    ensures
        r@ == keyboard_key(key@, modifiers@),
{
    let lowered = lowercase(key);
    keyboard_lowered(lowered.as_str(), modifiers)
}

/// Canonical key of a pointer shortcut: `pointer:` followed by the event's wire name.
pub fn pointer(event: PointerEvent) -> (r: String)
    ensures
        r@ == pointer_key(event),
{
    let mut buf = "pointer:".to_owned();
    buf.append(event.as_str());
    buf
}

} // verus!
