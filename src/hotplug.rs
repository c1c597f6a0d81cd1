//! The registry of running device monitors and the decisions taken on each
//! hot-plug notification.
use vstd::prelude::*;
use crate::config::{Config, KeyboardConfig};
use crate::matcher::{match_keyboard_config, matched_config};
use crate::text::{contains_seq, str_contains, str_eq};

verus! {

/// Running monitors, keyed by device path; at most one per path.
pub struct Registry<H> {
    paths: Vec<String>,
    handles: Vec<H>,
}

/// Position `i` holds path `p`.
pub open spec fn holds_at(paths: Seq<String>, i: int, p: Seq<char>) -> bool {
    0 <= i < paths.len() && paths[i]@ == p
}

impl<H> View for Registry<H> {
    type V = Map<Seq<char>, H>;

    closed spec fn view(&self) -> Map<Seq<char>, H> {
        Map::new(
            |p: Seq<char>| exists|i: int| holds_at(self.paths@, i, p),
            |p: Seq<char>| self.handles@[choose|i: int| holds_at(self.paths@, i, p)],
        )
    }
}

impl<H> Registry<H> {
    /// One handle per path, and no path twice.
    pub closed spec fn wf(&self) -> bool {
        &&& self.paths@.len() == self.handles@.len()
        &&& forall|a: int, b: int|
            0 <= a < b < self.paths@.len() ==> #[trigger] self.paths@[a]@ != #[trigger] self.paths@[b]@
    }

    proof fn lemma_index_unique(&self, i: int, p: Seq<char>)
        requires
            self.wf(),
            holds_at(self.paths@, i, p),
        ensures
            (choose|k: int| holds_at(self.paths@, k, p)) == i,
            self@.dom().contains(p),
            self@[p] == self.handles@[i],
    {
        let k = choose|k: int| holds_at(self.paths@, k, p);
        assert(holds_at(self.paths@, k, p));
        if k < i {
            assert(self.paths@[k]@ != self.paths@[i]@);
        } else if i < k {
            assert(self.paths@[i]@ != self.paths@[k]@);
        }
    }

    /// An empty registry.
    pub fn new() -> (r: Registry<H>)
        ensures
            r.wf(),
            r@ == Map::<Seq<char>, H>::empty(),
    {
        let r = Registry { paths: Vec::new(), handles: Vec::new() };
        assert(r@ =~= Map::<Seq<char>, H>::empty());
        r
    }

    fn find(&self, path: &str) -> (r: Option<usize>)
        requires
            self.wf(),
        ensures
            match r {
                Some(i) => holds_at(self.paths@, i as int, path@),
                None => !self@.dom().contains(path@),
            },
    {
        let mut i: usize = 0;
        while i < self.paths.len()
            invariant
                i <= self.paths@.len(),
                forall|j: int| 0 <= j < i ==> self.paths@[j]@ != path@,
            decreases self.paths@.len() - i,
        {
            if str_eq(self.paths[i].as_str(), path) {
                return Some(i);
            }
            i = i + 1;
        }
        None
    }

    /// Whether a monitor is registered for `path`.
    pub fn contains(&self, path: &str) -> (r: bool)
        requires
            self.wf(),
        ensures
            r == self@.dom().contains(path@),
    {
        match self.find(path) {
            Some(i) => {
                proof {
                    self.lemma_index_unique(i as int, path@);
                }
                true
            },
            None => false,
        }
    }

    /// How many monitors are registered.
    pub fn len(&self) -> (r: usize)
        requires
            self.wf(),
        ensures
            r == self@.dom().len(),
    {
        proof {
            let ps = self.paths@.map_values(|s: String| s@);
            assert forall|a: int, b: int| 0 <= a < b < ps.len() implies ps[a] != ps[b] by {
                assert(self.paths@[a]@ != self.paths@[b]@);
            }
            assert(ps.no_duplicates());
            ps.unique_seq_to_set();
            assert forall|p: Seq<char>| ps.to_set().contains(p) <==> self@.dom().contains(p) by {
                if ps.to_set().contains(p) {
                    let k = choose|k: int| 0 <= k < ps.len() && ps[k] == p;
                    assert(holds_at(self.paths@, k, p));
                }
                if self@.dom().contains(p) {
                    let k = choose|k: int| holds_at(self.paths@, k, p);
                    assert(ps[k] == p);
                    assert(ps.contains(p));
                }
            }
            assert(ps.to_set() =~= self@.dom());
        }
        self.paths.len()
    }

    /// Registers `handle` for `path` unless a monitor is already registered
    /// there; returns whether it was registered.
    pub fn register(&mut self, path: String, handle: H) -> (r: bool)
        requires
            old(self).wf(),
        ensures
            final(self).wf(),
            r == !old(self)@.dom().contains(path@),
            r ==> final(self)@ == old(self)@.insert(path@, handle),
            !r ==> final(self)@ == old(self)@,
    {
        if self.contains(path.as_str()) {
            return false;
        }
        let ghost before = *self;
        let ghost p = path@;
        self.paths.push(path);
        self.handles.push(handle);
        proof {
            let n = before.paths@.len() as int;
            assert forall|a: int, b: int| 0 <= a < b < self.paths@.len() implies #[trigger] self.paths@[a]@ != #[trigger] self.paths@[b]@ by {
                if b == n {
                    assert(!holds_at(before.paths@, a, p));
                } else {
                    assert(before.paths@[a]@ != before.paths@[b]@);
                }
            }
            assert forall|q: Seq<char>| #[trigger] self@.dom().contains(q) <==> before@.insert(p, handle).dom().contains(q) by {
                if self@.dom().contains(q) {
                    let k = choose|k: int| holds_at(self.paths@, k, q);
                    if k < n {
                        assert(holds_at(before.paths@, k, q));
                    }
                }
                if before@.dom().contains(q) {
                    let k = choose|k: int| holds_at(before.paths@, k, q);
                    assert(holds_at(self.paths@, k, q));
                }
                if q == p {
                    assert(holds_at(self.paths@, n, q));
                }
            }
            assert forall|q: Seq<char>| #[trigger] self@.dom().contains(q) implies self@[q] == before@.insert(p, handle)[q] by {
                let k = choose|k: int| holds_at(self.paths@, k, q);
                assert(holds_at(self.paths@, k, q));
                self.lemma_index_unique(k, q);
                if k < n {
                    assert(holds_at(before.paths@, k, q));
                    before.lemma_index_unique(k, q);
                }
            }
            assert(self@ =~= before@.insert(p, handle));
        }
        true
    }

    /// Removes and returns the handle registered for `path`, if any.
    pub fn remove(&mut self, path: &str) -> (r: Option<H>)
        requires
            old(self).wf(),
        ensures
            final(self).wf(),
            r is Some <==> old(self)@.dom().contains(path@),
            r is Some ==> r->0 == old(self)@[path@],
            final(self)@ == old(self)@.remove(path@),
    {
        match self.find(path) {
            None => {
                assert(self@.remove(path@) =~= self@);
                None
            },
            Some(i) => {
                let ghost before = *self;
                let ghost p = path@;
                proof {
                    before.lemma_index_unique(i as int, p);
                    before.paths@.remove_ensures(i as int);
                    before.handles@.remove_ensures(i as int);
                }
                self.paths.remove(i);
                let h = self.handles.remove(i);
                proof {
                    let n = self.paths@.len() as int;
                    let shift = |k: int| if k < i { k } else { k + 1 };
                    assert forall|a: int, b: int| 0 <= a < b < n implies #[trigger] self.paths@[a]@ != #[trigger] self.paths@[b]@ by {
                        assert(self.paths@[a] == before.paths@[shift(a)]);
                        assert(self.paths@[b] == before.paths@[shift(b)]);
                    }
                    assert forall|q: Seq<char>| #[trigger] self@.dom().contains(q) <==> before@.remove(p).dom().contains(q) by {
                        if self@.dom().contains(q) {
                            let k = choose|k: int| holds_at(self.paths@, k, q);
                            assert(holds_at(before.paths@, shift(k), q));
                            assert(shift(k) != i as int);
                        }
                        if before@.remove(p).dom().contains(q) {
                            let k = choose|k: int| holds_at(before.paths@, k, q);
                            assert(k != i as int);
                            if k < i {
                                assert(holds_at(self.paths@, k, q));
                            } else {
                                assert(holds_at(self.paths@, k - 1, q));
                            }
                        }
                    }
                    assert forall|q: Seq<char>| #[trigger] self@.dom().contains(q) implies self@[q] == before@.remove(p)[q] by {
                        let k = choose|k: int| holds_at(self.paths@, k, q);
                        assert(holds_at(self.paths@, k, q));
                        self.lemma_index_unique(k, q);
                        assert(holds_at(before.paths@, shift(k), q));
                        before.lemma_index_unique(shift(k), q);
                        assert(self.handles@[k] == before.handles@[shift(k)]);
                    }
                    assert(self@ =~= before@.remove(p));
                }
                Some(h)
            },
        }
    }
}

/// The kind of a hot-plug notification.
#[derive(Clone, Copy, PartialEq, Eq, Structural, Debug)]
pub enum HotplugKind {
    Add,
    Bind,
    Remove,
    Unbind,
    Other,
}

/// What to do with a hot-plug notification.
#[derive(Clone, Copy, PartialEq, Eq, Structural, Debug)]
pub enum HotplugAction {
    /// Nothing.
    Ignore,
    /// Wait for the node to settle, open it and see whether it is a
    /// configured keyboard.
    Probe,
    /// Signal the path's monitor to shut down and drop it from the registry.
    Stop,
}

/// Only individual event-device nodes are handled.
pub open spec fn is_event_node(path: Seq<char>) -> bool {
    contains_seq(path, "/dev/input/event"@)
}

/// The action for a notification of `kind` about `devnode`, given the paths
/// with a running monitor.
pub open spec fn hotplug_action_of(kind: HotplugKind, devnode: Option<Seq<char>>, monitored: Set<Seq<char>>) -> HotplugAction {
    match devnode {
        None => HotplugAction::Ignore,
        Some(p) => if !is_event_node(p) {
            HotplugAction::Ignore
        } else {
            match kind {
                HotplugKind::Add | HotplugKind::Bind => HotplugAction::Probe,
                HotplugKind::Remove | HotplugKind::Unbind => if monitored.contains(p) {
                    HotplugAction::Stop
                } else {
                    HotplugAction::Ignore
                },
                HotplugKind::Other => HotplugAction::Ignore,
            }
        },
    }
}

/// Decides what a hot-plug notification calls for: arrivals of event nodes
/// are probed, removals of monitored event nodes stop their monitor, and
/// everything else is ignored.
pub fn hotplug_action<H>(kind: HotplugKind, devnode: Option<&str>, registry: &Registry<H>) -> (r: HotplugAction)
    requires
        registry.wf(),
    ensures
        r == hotplug_action_of(
            kind,
            match devnode {
                Some(p) => Some(p@),
                None => None,
            },
            registry@.dom(),
        ),
{
    let path = match devnode {
        Some(p) => p,
        None => {
            return HotplugAction::Ignore;
        },
    };
    if !str_contains(path, "/dev/input/event") {
        return HotplugAction::Ignore;
    }
    match kind {
        HotplugKind::Add | HotplugKind::Bind => HotplugAction::Probe,
        HotplugKind::Remove | HotplugKind::Unbind => {
            if registry.contains(path) {
                HotplugAction::Stop
            } else {
                HotplugAction::Ignore
            }
        },
        HotplugKind::Other => HotplugAction::Ignore,
    }
}

/// After probing a device node: the configured keyboard to start a monitor
/// for, which exists only when the device matches the configuration and no
/// monitor runs for its path yet.
pub fn monitor_to_start<'a, H>(
    path: &str,
    device_name: &str,
    supports_key: bool,
    config: &'a Config,
    registry: &Registry<H>,
) -> (r: Option<&'a KeyboardConfig>)
    requires
        registry.wf(),
    ensures
        r is Some <==> (matched_config(device_name@, supports_key, config.keyboards@) is Some
            && !registry@.dom().contains(path@)),
        r is Some ==> *r->0 == matched_config(device_name@, supports_key, config.keyboards@)->0,
{
    if registry.contains(path) {
        return None;
    }
    match_keyboard_config(device_name, supports_key, config)
}

} // verus!
