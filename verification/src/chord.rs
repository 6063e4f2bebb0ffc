//! The modifier chord: the set of modifiers that are held, kept in canonical
//! form, which is sorted by the order of events and free of repetitions.
use vstd::prelude::*;
use crate::config::Event;

verus! {

/// Canonical form: strictly increasing in the order of events.
pub open spec fn is_canonical(s: Seq<Event>) -> bool {
    forall|i: int, j: int| 0 <= i < j < s.len() ==> s[i].rank() < s[j].rank()
}

/// The canonical chord `s` with `e` put in its place; `s` itself where it holds
/// `e` already.
pub open spec fn with_event(s: Seq<Event>, e: Event) -> Seq<Event>
    decreases s.len(),
{
    if s.len() == 0 {
        seq![e]
    } else if s.last().rank() < e.rank() {
        s.push(e)
    } else if s.last() == e {
        s
    } else {
        with_event(s.drop_last(), e).push(s.last())
    }
}

/// `s` without any occurrence of `e`.
pub open spec fn without_event(s: Seq<Event>, e: Event) -> Seq<Event>
    decreases s.len(),
{
    if s.len() == 0 {
        s
    } else if s.last() == e {
        without_event(s.drop_last(), e)
    } else {
        without_event(s.drop_last(), e).push(s.last())
    }
}

/// The canonical chord of the events of `s`, taken in any order and with any
/// repetitions.
pub open spec fn canonical(s: Seq<Event>) -> Seq<Event>
    decreases s.len(),
{
    if s.len() == 0 {
        s
    } else {
        with_event(canonical(s.drop_last()), s.last())
    }
}

/// What a change of `event` to `value` makes of the chord `s`, where `all` are the
/// events that count as modifiers: a modifier joins the chord on 1 and leaves it
/// on 0; nothing else changes the chord.
pub open spec fn toggled(s: Seq<Event>, event: Event, value: int, all: Seq<Event>) -> Seq<Event> {
    if all.contains(event) && value == 1 {
        with_event(s, event)
    } else if all.contains(event) && value == 0 {
        without_event(s, event)
    } else {
        s
    }
}

/// A canonical chord holds no event twice.
pub proof fn lemma_canonical_distinct(s: Seq<Event>, i: int, j: int)
    requires
        is_canonical(s),
        0 <= i < s.len(),
        0 <= j < s.len(),
        s[i] == s[j],
    ensures
        i == j,
{
    if i < j {
        assert(s[i].rank() < s[j].rank());
    } else if j < i {
        assert(s[j].rank() < s[i].rank());
    }
}

/// Canonical form is unique: two canonical chords with the same members are the
/// same chord.
pub proof fn lemma_canonical_unique(a: Seq<Event>, b: Seq<Event>)
    requires
        is_canonical(a),
        is_canonical(b),
        a.to_set() == b.to_set(),
    ensures
        a == b,
    decreases a.len(),
{
    if a.len() == 0 {
        if b.len() > 0 {
            assert(b.contains(b[0]));
            assert(b.to_set().contains(b[0]));
            assert(a.contains(b[0]));
        }
        assert(a =~= b);
    } else {
        assert(a.contains(a.last()));
        assert(a.to_set().contains(a.last()));
        assert(b.contains(a.last()));
        let kb = choose|k: int| 0 <= k < b.len() && b[k] == a.last();
        assert(b.contains(b.last()));
        assert(b.to_set().contains(b.last()));
        assert(a.contains(b.last()));
        let ka = choose|k: int| 0 <= k < a.len() && a[k] == b.last();
        // each last member is the largest of the common set
        if kb < b.len() - 1 {
            assert(b[kb].rank() < b.last().rank());
            if ka < a.len() - 1 {
                assert(a[ka].rank() < a.last().rank());
            }
        }
        assert(a.last() == b.last());
        let a0 = a.drop_last();
        let b0 = b.drop_last();
        assert forall|x: Event| a0.to_set().contains(x) == b0.to_set().contains(x) by {
            if a0.contains(x) {
                let i = choose|i: int| 0 <= i < a0.len() && a0[i] == x;
                assert(a[i] == x);
                assert(a.contains(x));
                assert(a.to_set().contains(x));
                assert(b.contains(x));
                let j = choose|j: int| 0 <= j < b.len() && b[j] == x;
                assert(a[i].rank() < a.last().rank());
                assert(j < b.len() - 1);
                assert(b0[j] == x);
            }
            if b0.contains(x) {
                let i = choose|i: int| 0 <= i < b0.len() && b0[i] == x;
                assert(b[i] == x);
                assert(b.contains(x));
                assert(b.to_set().contains(x));
                assert(a.contains(x));
                let j = choose|j: int| 0 <= j < a.len() && a[j] == x;
                assert(b[i].rank() < b.last().rank());
                assert(j < a.len() - 1);
                assert(a0[j] == x);
            }
        }
        assert(a0.to_set() =~= b0.to_set());
        assert(is_canonical(a0)) by {
            assert forall|i: int, j: int| 0 <= i < j < a0.len() implies a0[i].rank()
                < a0[j].rank() by {
                assert(a[i].rank() < a[j].rank());
            }
        }
        assert(is_canonical(b0)) by {
            assert forall|i: int, j: int| 0 <= i < j < b0.len() implies b0[i].rank()
                < b0[j].rank() by {
                assert(b[i].rank() < b[j].rank());
            }
        }
        lemma_canonical_unique(a0, b0);
        assert(a =~= a0.push(a.last()));
        assert(b =~= b0.push(b.last()));
    }
}

/// Putting an event into a canonical chord gives a canonical chord that holds the
/// event and the members of before, and nothing else.
pub proof fn lemma_with_event(s: Seq<Event>, e: Event)
    requires
        is_canonical(s),
    ensures
        is_canonical(with_event(s, e)),
        with_event(s, e).to_set() == s.to_set().insert(e),
        with_event(s, e).len() <= s.len() + 1,
        s.len() > 0 ==> with_event(s, e).last().rank() <= if s.last().rank() < e.rank() {
            e.rank()
        } else {
            s.last().rank()
        },
    decreases s.len(),
{
    let r = with_event(s, e);
    if s.len() == 0 {
        assert forall|x: Event| r.to_set().contains(x) == s.to_set().insert(e).contains(x) by {
            if r.contains(x) {
                let i = choose|i: int| 0 <= i < r.len() && r[i] == x;
            }
            if x == e {
                assert(r[0] == e);
            }
            if s.contains(x) {
                let i = choose|i: int| 0 <= i < s.len() && s[i] == x;
            }
        }
        assert(r.to_set() =~= s.to_set().insert(e));
    } else if s.last().rank() < e.rank() {
        assert forall|i: int, j: int| 0 <= i < j < r.len() implies r[i].rank() < r[j].rank() by {
            if j == s.len() {
                if i < s.len() - 1 {
                    assert(s[i].rank() < s.last().rank());
                }
            } else {
                assert(s[i].rank() < s[j].rank());
            }
        }
        assert forall|x: Event| r.to_set().contains(x) == s.to_set().insert(e).contains(x) by {
            if r.contains(x) {
                let i = choose|i: int| 0 <= i < r.len() && r[i] == x;
                if i < s.len() {
                    assert(s[i] == x);
                    assert(s.contains(x));
                }
            }
            if x == e {
                assert(r[s.len() as int] == e);
            }
            if s.contains(x) {
                let i = choose|i: int| 0 <= i < s.len() && s[i] == x;
                assert(r[i] == x);
            }
        }
        assert(r.to_set() =~= s.to_set().insert(e));
    } else if s.last() == e {
        assert(s.contains(e));
        assert(r.to_set() =~= s.to_set().insert(e));
    } else {
        let s0 = s.drop_last();
        let r0 = with_event(s0, e);
        assert(is_canonical(s0)) by {
            assert forall|i: int, j: int| 0 <= i < j < s0.len() implies s0[i].rank()
                < s0[j].rank() by {
                assert(s[i].rank() < s[j].rank());
            }
        }
        lemma_with_event(s0, e);
        assert(e.rank() < s.last().rank()) by {
            if e.rank() == s.last().rank() {
                crate::config::lemma_rank_injective(e, s.last());
            }
        }
        // every member of r0 ranks below the last member of s
        assert forall|i: int| 0 <= i < r0.len() implies r0[i].rank() < s.last().rank() by {
            assert(r0.contains(r0[i]));
            assert(r0.to_set().contains(r0[i]));
            assert(s0.to_set().insert(e).contains(r0[i]));
            if r0[i] != e {
                assert(s0.contains(r0[i]));
                let k = choose|k: int| 0 <= k < s0.len() && s0[k] == r0[i];
                assert(s[k].rank() < s.last().rank());
            }
        }
        assert forall|i: int, j: int| 0 <= i < j < r.len() implies r[i].rank() < r[j].rank() by {
            if j < r0.len() {
                assert(r0[i].rank() < r0[j].rank());
            }
        }
        assert forall|x: Event| r.to_set().contains(x) == s.to_set().insert(e).contains(x) by {
            if r.contains(x) {
                let i = choose|i: int| 0 <= i < r.len() && r[i] == x;
                if i < r0.len() {
                    assert(r0.contains(x));
                    assert(r0.to_set().contains(x));
                    if x != e {
                        assert(s0.contains(x));
                        let k = choose|k: int| 0 <= k < s0.len() && s0[k] == x;
                        assert(s[k] == x);
                        assert(s.contains(x));
                    }
                } else {
                    assert(x == s.last());
                    assert(s.contains(x));
                }
            }
            if x == e {
                assert(r0.to_set().contains(e));
                assert(r0.contains(e));
                let k = choose|k: int| 0 <= k < r0.len() && r0[k] == e;
                assert(r[k] == e);
            }
            if s.contains(x) {
                let k = choose|k: int| 0 <= k < s.len() && s[k] == x;
                if k < s0.len() {
                    assert(s0[k] == x);
                    assert(s0.contains(x));
                    assert(r0.to_set().contains(x));
                    assert(r0.contains(x));
                    let m = choose|m: int| 0 <= m < r0.len() && r0[m] == x;
                    assert(r[m] == x);
                } else {
                    assert(r[r0.len() as int] == x);
                }
            }
        }
        assert(r.to_set() =~= s.to_set().insert(e));
    }
}

/// Taking an event out of a canonical chord gives a canonical chord that holds
/// the other members of before, and nothing else.
pub proof fn lemma_without_event(s: Seq<Event>, e: Event)
    requires
        is_canonical(s),
    ensures
        is_canonical(without_event(s, e)),
        without_event(s, e).to_set() == s.to_set().remove(e),
        without_event(s, e).len() <= s.len(),
    decreases s.len(),
{
    let r = without_event(s, e);
    if s.len() == 0 {
        assert(r.to_set() =~= s.to_set().remove(e));
    } else {
        let s0 = s.drop_last();
        let r0 = without_event(s0, e);
        assert(is_canonical(s0)) by {
            assert forall|i: int, j: int| 0 <= i < j < s0.len() implies s0[i].rank()
                < s0[j].rank() by {
                assert(s[i].rank() < s[j].rank());
            }
        }
        lemma_without_event(s0, e);
        assert forall|i: int| 0 <= i < r0.len() implies r0[i].rank() < s.last().rank() by {
            assert(r0.contains(r0[i]));
            assert(r0.to_set().contains(r0[i]));
            assert(s0.contains(r0[i]));
            let k = choose|k: int| 0 <= k < s0.len() && s0[k] == r0[i];
            assert(s[k].rank() < s.last().rank());
        }
        assert forall|i: int, j: int| 0 <= i < j < r.len() implies r[i].rank() < r[j].rank() by {
            if j < r0.len() {
                assert(r0[i].rank() < r0[j].rank());
            }
        }
        assert forall|x: Event| r.to_set().contains(x) == s.to_set().remove(e).contains(x) by {
            if r.contains(x) {
                let i = choose|i: int| 0 <= i < r.len() && r[i] == x;
                if i < r0.len() {
                    assert(r0.contains(x));
                    assert(r0.to_set().contains(x));
                    assert(s0.contains(x));
                    let k = choose|k: int| 0 <= k < s0.len() && s0[k] == x;
                    assert(s[k] == x);
                    assert(s.contains(x));
                } else {
                    assert(s.contains(x));
                }
            }
            if s.contains(x) && x != e {
                let k = choose|k: int| 0 <= k < s.len() && s[k] == x;
                if k < s0.len() {
                    assert(s0[k] == x);
                    assert(s0.contains(x));
                    assert(r0.to_set().contains(x));
                    assert(r0.contains(x));
                    let m = choose|m: int| 0 <= m < r0.len() && r0[m] == x;
                    assert(r[m] == x);
                } else {
                    assert(r[r0.len() as int] == x);
                }
            }
        }
        assert(r.to_set() =~= s.to_set().remove(e));
    }
}

/// Whatever the order and the repetitions of `s`, its canonical chord is
/// canonical and has the members of `s`.
pub proof fn lemma_canonical(s: Seq<Event>)
    ensures
        is_canonical(canonical(s)),
        canonical(s).to_set() == s.to_set(),
        canonical(s).len() <= s.len(),
    decreases s.len(),
{
    if s.len() == 0 {
    } else {
        let s0 = s.drop_last();
        lemma_canonical(s0);
        lemma_with_event(canonical(s0), s.last());
        assert forall|x: Event| s0.to_set().insert(s.last()).contains(x) == s.to_set().contains(
            x,
        ) by {
            if s0.contains(x) {
                let k = choose|k: int| 0 <= k < s0.len() && s0[k] == x;
                assert(s[k] == x);
            }
            if s.contains(x) {
                let k = choose|k: int| 0 <= k < s.len() && s[k] == x;
                if k < s0.len() {
                    assert(s0[k] == x);
                }
            }
        }
        assert(s0.to_set().insert(s.last()) =~= s.to_set());
    }
}

/// Chord canonicalization: two sequences with the same members, in whatever order
/// and however often each member is repeated, give the same chord.
pub proof fn lemma_same_members_same_chord(a: Seq<Event>, b: Seq<Event>)
    requires
        a.to_set() == b.to_set(),
    ensures
        canonical(a) == canonical(b),
{
    lemma_canonical(a);
    lemma_canonical(b);
    lemma_canonical_unique(canonical(a), canonical(b));
}

/// A chord that is canonical already is its own canonical chord.
pub proof fn lemma_canonical_fixed(s: Seq<Event>)
    requires
        is_canonical(s),
    ensures
        canonical(s) == s,
{
    lemma_canonical(s);
    lemma_canonical_unique(canonical(s), s);
}

/// Whether `list` holds `event`.
pub fn events_contain(list: &Vec<Event>, event: Event) -> (r: bool)
    ensures
        r == list@.contains(event),
{
    let mut i: usize = 0;
    while i < list.len()
        invariant
            i <= list@.len(),
            forall|j: int| 0 <= j < i ==> list@[j] != event,
        decreases list@.len() - i,
    {
        if list[i] == event {
            return true;
        }
        i += 1;
    }
    false
}

/// Whether two lists of events are the same list.
pub fn events_eq(a: &Vec<Event>, b: &Vec<Event>) -> (r: bool)
    ensures
        r == (a@ == b@),
{
    if a.len() != b.len() {
        return false;
    }
    let mut i: usize = 0;
    while i < a.len()
        invariant
            a@.len() == b@.len(),
            i <= a@.len(),
            forall|j: int| 0 <= j < i ==> a@[j] == b@[j],
        decreases a@.len() - i,
    {
        if a[i] != b[i] {
            return false;
        }
        i += 1;
    }
    assert(a@ =~= b@);
    true
}

/// The chord of the modifiers that are held. Its view is the sequence of its
/// members, which is always canonical.
pub struct Chord {
    events: Vec<Event>,
}

impl View for Chord {
    type V = Seq<Event>;

    closed spec fn view(&self) -> Seq<Event> {
        self.events@
    }
}

impl Chord {
    /// What holds of every chord: its members stand in canonical form.
    #[verifier::type_invariant]
    pub closed spec fn well_formed(self) -> bool {
        is_canonical(self.events@)
    }

    /// The empty chord: no modifier is held.
    pub fn new() -> (chord: Chord)
        ensures
            chord@ == Seq::<Event>::empty(),
    {
        Chord { events: Vec::new() }
    }

    /// The chord of the given events, in whatever order they come.
    pub fn from_events(events: &Vec<Event>) -> (chord: Chord)
        ensures
            chord@ == canonical(events@),
            is_canonical(chord@),
    {
        let mut chord = Chord::new();
        let mut i: usize = 0;
        while i < events.len()
            invariant
                i <= events@.len(),
                chord@ == canonical(events@.take(i as int)),
            decreases events@.len() - i,
        {
            assert(events@.take(i as int + 1).drop_last() =~= events@.take(i as int));
            chord.insert(events[i]);
            i += 1;
        }
        assert(events@.take(i as int) =~= events@);
        proof {
            lemma_canonical(events@);
        }
        chord
    }

    /// Puts `event` into the chord.
    pub fn insert(&mut self, event: Event)
        ensures
            final(self)@ == with_event(old(self)@, event),
            is_canonical(final(self)@),
    {
        proof {
            use_type_invariant(&*self);
            lemma_with_event(self.events@, event);
        }
        let ghost before = self.events@;
        let rank: u32 = event.ordinal();
        let mut i: usize = 0;
        while i < self.events.len() && self.events[i].ordinal() < rank
            invariant
                i <= self.events@.len(),
                self.events@ == before,
                rank == event.rank(),
                forall|j: int| 0 <= j < i ==> before[j].rank() < rank,
            decreases self.events@.len() - i,
        {
            i += 1;
        }
        if i < self.events.len() && self.events[i] == event {
            assert(before.contains(event));
            assert(before.to_set().insert(event) =~= before.to_set());
            proof {
                lemma_canonical_unique(before, with_event(before, event));
            }
        } else {
            let ghost after = before.insert(i as int, event);
            proof {
                if i < before.len() && before[i as int].rank() == rank {
                    crate::config::lemma_rank_injective(before[i as int], event);
                }
                assert forall|a: int, b: int| 0 <= a < b < after.len() implies after[a].rank()
                    < after[b].rank() by {
                    if b < i {
                        assert(before[a].rank() < before[b].rank());
                    } else if b == i {
                    } else if a == i {
                        if b - 1 > i {
                            assert(before[i as int].rank() < before[b - 1].rank());
                        }
                    } else if a < i {
                        assert(before[a].rank() < before[b - 1].rank());
                    } else {
                        assert(before[a - 1].rank() < before[b - 1].rank());
                    }
                }
                assert forall|x: Event| after.to_set().contains(x) == before.to_set().insert(
                    event,
                ).contains(x) by {
                    if after.contains(x) {
                        let k = choose|k: int| 0 <= k < after.len() && after[k] == x;
                        if k < i {
                            assert(before[k] == x);
                            assert(before.contains(x));
                        } else if k > i {
                            assert(before[k - 1] == x);
                            assert(before.contains(x));
                        }
                    }
                    if x == event {
                        assert(after[i as int] == x);
                    }
                    if before.contains(x) {
                        let k = choose|k: int| 0 <= k < before.len() && before[k] == x;
                        if k < i {
                            assert(after[k] == x);
                        } else {
                            assert(after[k + 1] == x);
                        }
                    }
                }
                assert(after.to_set() =~= before.to_set().insert(event));
                lemma_canonical_unique(after, with_event(before, event));
            }
            let mut events: Vec<Event> = self.events.clone();
            assert(events@ =~= before);
            events.insert(i, event);
            self.events = events;
        }
    }

    /// Takes `event` out of the chord.
    pub fn remove(&mut self, event: Event)
        ensures
            final(self)@ == without_event(old(self)@, event),
            is_canonical(final(self)@),
    {
        proof {
            use_type_invariant(&*self);
            lemma_without_event(self.events@, event);
        }
        let mut kept: Vec<Event> = Vec::new();
        let mut i: usize = 0;
        while i < self.events.len()
            invariant
                i <= self.events@.len(),
                kept@ == without_event(self.events@.take(i as int), event),
            decreases self.events@.len() - i,
        {
            assert(self.events@.take(i as int + 1).drop_last() =~= self.events@.take(i as int));
            if self.events[i] != event {
                kept.push(self.events[i]);
            }
            i += 1;
        }
        assert(self.events@.take(i as int) =~= self.events@);
        self.events = kept;
    }

    /// Follows a change of `event` to `value`, where `all` are the events that
    /// count as modifiers: a modifier joins the chord on 1 and leaves it on 0;
    /// nothing else changes the chord.
    pub fn toggle(&mut self, event: Event, value: i32, all: &Vec<Event>)
        ensures
            final(self)@ == toggled(old(self)@, event, value as int, all@),
            is_canonical(final(self)@),
    {
        proof {
            use_type_invariant(&*self);
        }
        if events_contain(all, event) {
            if value == 1 {
                self.insert(event);
            } else if value == 0 {
                self.remove(event);
            }
        }
    }

    /// Whether `event` is held.
    pub fn contains(&self, event: Event) -> (r: bool)
        ensures
            r == self@.contains(event),
    {
        events_contain(&self.events, event)
    }

    /// Whether no modifier is held.
    pub fn is_empty(&self) -> (r: bool)
        ensures
            r == (self@.len() == 0),
    {
        self.events.len() == 0
    }

    /// The number of modifiers that are held.
    pub fn len(&self) -> (r: usize)
        ensures
            r == self@.len(),
    {
        self.events.len()
    }

    /// The members of the chord, in canonical order, as a value of the caller's own.
    pub fn snapshot(&self) -> (members: Vec<Event>)
        ensures
            members@ == self@,
            is_canonical(members@),
    {
        proof {
            use_type_invariant(self);
        }
        self.events.clone()
    }

    /// Whether the chord has exactly the members of `other`, in canonical order.
    pub fn matches(&self, other: &Vec<Event>) -> (r: bool)
        ensures
            r == (self@ == other@),
    {
        events_eq(&self.events, other)
    }
}

} // verus!
