//! Input events as plain values, and the set of keys a monitor believes are
//! physically held.
use vstd::prelude::*;

verus! {

/// Event type of key events.
pub const EV_KEY: u16 = 1;

/// Key event value for a release.
pub const KEY_RELEASE: i32 = 0;

/// Key event value for a press.
pub const KEY_PRESS: i32 = 1;

/// One kernel input event: its type, code and value.
#[derive(Clone, Copy, PartialEq, Eq, Structural, Debug)]
pub struct KeyEvent {
    pub event_type: u16,
    pub code: u16,
    pub value: i32,
}

impl KeyEvent {
    /// An event from its three fields.
    pub fn new(event_type: u16, code: u16, value: i32) -> (r: KeyEvent)
        ensures
            r == (KeyEvent { event_type, code, value }),
    {
        KeyEvent { event_type, code, value }
    }
}

/// A key press.
pub open spec fn is_press(e: KeyEvent) -> bool {
    e.event_type == EV_KEY && e.value == KEY_PRESS
}

/// A key release.
pub open spec fn is_release(e: KeyEvent) -> bool {
    e.event_type == EV_KEY && e.value == KEY_RELEASE
}

/// The held-key set after one event: a press adds its code, a release removes
/// it, anything else (repeats, non-key events) leaves the set alone.
pub open spec fn apply_event(s: Set<u16>, e: KeyEvent) -> Set<u16> {
    if is_press(e) {
        s.insert(e.code)
    } else if is_release(e) {
        s.remove(e.code)
    } else {
        s
    }
}

/// The held-key set after a sequence of events, applied in order.
pub open spec fn apply_events(s: Set<u16>, evs: Seq<KeyEvent>) -> Set<u16>
    decreases evs.len(),
{
    if evs.len() == 0 {
        s
    } else {
        apply_event(apply_events(s, evs.drop_last()), evs.last())
    }
}

/// Whether a batch holds at least one key press.
pub open spec fn has_press(evs: Seq<KeyEvent>) -> bool {
    exists|i: int| 0 <= i < evs.len() && is_press(#[trigger] evs[i])
}

/// Whether `e` is a press or a release of `code`.
pub open spec fn touches(e: KeyEvent, code: u16) -> bool {
    (is_press(e) || is_release(e)) && e.code == code
}

/// Event `i` is the most recent press or release of `code` in `evs`.
pub open spec fn is_last_touch(evs: Seq<KeyEvent>, code: u16, i: int) -> bool {
    &&& 0 <= i < evs.len()
    &&& touches(evs[i], code)
    &&& forall|j: int| i < j < evs.len() ==> !touches(#[trigger] evs[j], code)
}

/// A key whose most recent press or release in a sequence of events was a
/// release is not in the held set after that sequence, and one whose most
/// recent was a press is in it, whatever the set held before.
pub proof fn lemma_held_follows_last_event(s: Set<u16>, evs: Seq<KeyEvent>, code: u16, i: int)
    requires
        is_last_touch(evs, code, i),
    ensures
        is_release(evs[i]) ==> !apply_events(s, evs).contains(code),
        is_press(evs[i]) ==> apply_events(s, evs).contains(code),
    decreases evs.len(),
{
    let n = evs.len() - 1;
    if i < n {
        let prefix = evs.drop_last();
        assert forall|j: int| i < j < prefix.len() implies !touches(#[trigger] prefix[j], code) by {
            assert(prefix[j] == evs[j]);
        }
        lemma_held_follows_last_event(s, prefix, code, i);
        assert(!touches(evs[n], code));
    }
}

/// A sequence of events never changes whether a key it does not press or
/// release is held.
pub proof fn lemma_untouched_key_unchanged(s: Set<u16>, evs: Seq<KeyEvent>, code: u16)
    requires
        forall|j: int| 0 <= j < evs.len() ==> !touches(#[trigger] evs[j], code),
    ensures
        apply_events(s, evs).contains(code) == s.contains(code),
    decreases evs.len(),
{
    if evs.len() > 0 {
        let prefix = evs.drop_last();
        assert forall|j: int| 0 <= j < prefix.len() implies !touches(#[trigger] prefix[j], code) by {
            assert(prefix[j] == evs[j]);
        }
        lemma_untouched_key_unchanged(s, prefix, code);
        assert(!touches(evs[evs.len() - 1], code));
    }
}

/// The keys currently believed held, without repetition.
pub struct PressedKeys {
    codes: Vec<u16>,
}

impl View for PressedKeys {
    type V = Set<u16>;

    closed spec fn view(&self) -> Set<u16> {
        self.codes@.to_set()
    }
}

impl PressedKeys {
    /// No code is stored twice.
    pub closed spec fn wf(&self) -> bool {
        self.codes@.no_duplicates()
    }

    /// An empty set.
    pub fn new() -> (r: PressedKeys)
        ensures
            r.wf(),
            r@ == Set::<u16>::empty(),
    {
        let r = PressedKeys { codes: Vec::new() };
        assert(r.codes@.to_set() =~= Set::<u16>::empty());
        r
    }

    /// Where `code` is stored, if it is.
    fn position(&self, code: u16) -> (r: Option<usize>)
        requires
            self.wf(),
        ensures
            match r {
                Some(i) => i < self.codes@.len() && self.codes@[i as int] == code,
                None => !self@.contains(code),
            },
    {
        let mut i: usize = 0;
        while i < self.codes.len()
            invariant
                i <= self.codes@.len(),
                forall|j: int| 0 <= j < i ==> self.codes@[j] != code,
            decreases self.codes@.len() - i,
        {
            if self.codes[i] == code {
                return Some(i);
            }
            i = i + 1;
        }
        None
    }

    /// Whether `code` is held.
    pub fn contains(&self, code: u16) -> (r: bool)
        requires
            self.wf(),
        ensures
            r == self@.contains(code),
    {
        self.position(code).is_some()
    }

    /// How many keys are held.
    pub fn len(&self) -> (r: usize)
        requires
            self.wf(),
        ensures
            r == self@.len(),
    {
        proof {
            self.codes@.unique_seq_to_set();
        }
        self.codes.len()
    }

    /// Records a press of `code`.
    pub fn insert(&mut self, code: u16)
        requires
            old(self).wf(),
        ensures
            final(self).wf(),
            final(self)@ == old(self)@.insert(code),
    {
        if self.position(code).is_none() {
            proof {
                self.codes@.lemma_push_to_set_commute(code);
            }
            self.codes.push(code);
            proof {
                assert forall|a: int, b: int| 0 <= a < b < self.codes@.len() implies self.codes@[a] != self.codes@[b] by {
                    if b == self.codes@.len() - 1 {
                        assert(old(self).codes@.contains(old(self).codes@[a]));
                    }
                }
            }
        } else {
            assert(self@.contains(code));
            assert(self@.insert(code) =~= self@);
        }
    }

    /// Records a release of `code`.
    pub fn remove(&mut self, code: u16)
        requires
            old(self).wf(),
        ensures
            final(self).wf(),
            final(self)@ == old(self)@.remove(code),
    {
        match self.position(code) {
            Some(i) => {
                let ghost before = self.codes@;
                proof {
                    before.remove_ensures(i as int);
                }
                self.codes.remove(i);
                let ghost after = self.codes@;
                assert(after == before.remove(i as int));
                assert forall|a: int, b: int| 0 <= a < b < after.len() implies after[a] != after[b] by {
                    let a0 = if a < i { a } else { a + 1 };
                    let b0 = if b < i { b } else { b + 1 };
                    assert(after[a] == before[a0]);
                    assert(after[b] == before[b0]);
                }
                assert forall|x: u16| after.to_set().contains(x) <==> before.to_set().remove(code).contains(x) by {
                    if after.to_set().contains(x) {
                        let k = choose|k: int| 0 <= k < after.len() && after[k] == x;
                        let k0 = if k < i { k } else { k + 1 };
                        assert(before[k0] == x);
                        assert(before.contains(x));
                        assert(k0 != i);
                    }
                    if before.to_set().remove(code).contains(x) {
                        let k = choose|k: int| 0 <= k < before.len() && before[k] == x;
                        assert(k != i);
                        if k < i {
                            assert(after[k] == x);
                        } else {
                            assert(after[k - 1] == x);
                        }
                        assert(after.contains(x));
                    }
                }
                assert(after.to_set() =~= before.to_set().remove(code));
            },
            None => {
                assert(self@.remove(code) =~= self@);
            },
        }
    }

    /// Applies one event to the set.
    pub fn apply(&mut self, e: &KeyEvent)
        requires
            old(self).wf(),
        ensures
            final(self).wf(),
            final(self)@ == apply_event(old(self)@, *e),
    {
        if e.event_type == EV_KEY {
            if e.value == KEY_PRESS {
                self.insert(e.code);
            } else if e.value == KEY_RELEASE {
                self.remove(e.code);
            }
        }
    }

    /// Hands out every held key, once each, and empties the set.
    pub fn take_all(&mut self) -> (r: Vec<u16>)
        requires
            old(self).wf(),
        ensures
            final(self).wf(),
            final(self)@ == Set::<u16>::empty(),
            r@.no_duplicates(),
            r@.to_set() == old(self)@,
    {
        let mut out: Vec<u16> = Vec::new();
        std::mem::swap(&mut out, &mut self.codes);
        assert(self.codes@.to_set() =~= Set::<u16>::empty());
        out
    }
}

} // verus!
