//! The subscription registry: a dynamic keyed collection of open
//! property-change feeds.
//!
//! The registry keeps at most one subscription per key, supports insert
//! (replacing and handing back any displaced entry), idempotent remove,
//! a drain that hands back every entry exactly once, and a fair
//! round-robin pick among ready entries for multi-way polling.  It
//! natively tolerates zero members, so no sentinel entry is needed to
//! keep it non-empty.

use vstd::prelude::*;

use crate::address::DeviceAddress;

verus! {

/// Key of a registry entry.
///
/// `AdapterSentinel` is internal plumbing for a merged feed that must
/// never be structurally empty; it carries no device semantics.  This
/// registry tolerates emptiness, so the variant is kept only for callers
/// that still observe an adapter feed alongside the device feeds.
#[derive(Clone, Copy, Debug, PartialEq, Eq, PartialOrd, Ord, Hash, Structural)]
pub enum SubscriptionKey {
    AdapterSentinel,
    Device(DeviceAddress),
}

/// Handle to one open property-change feed for one object path.
///
/// The live feed itself is owned by the caller's I/O layer; the handle
/// identifies it.  A handle is exclusively owned by the registry entry
/// that holds it and is handed back exactly once, on removal,
/// displacement or drain, so the caller can release the feed.
#[derive(Clone, Copy, Debug, PartialEq, Eq, Hash, Structural)]
pub struct Subscription {
    pub id: u64,
}

/// A property-change notification routed from one feed: the key of the
/// feed it arrived on, the changed properties, and the invalidated
/// property names.  The payload type is the caller's; the core never
/// inspects it.
pub struct ChangeEvent<V> {
    pub key: SubscriptionKey,
    pub changed: Vec<(String, V)>,
    pub invalidated: Vec<String>,
}

/// Some entry of `s` carries key `k`.
pub open spec fn has_key(s: Seq<(SubscriptionKey, Subscription)>, k: SubscriptionKey) -> bool {
    exists|i: int| 0 <= i < s.len() && (#[trigger] s[i]).0 == k
}

/// No two entries of `s` carry the same key.
pub open spec fn keys_unique(s: Seq<(SubscriptionKey, Subscription)>) -> bool {
    forall|i: int, j: int|
        0 <= i < j < s.len() ==> (#[trigger] s[i]).0 != (#[trigger] s[j]).0
}

/// How many entries of `s` are keyed by a device.
pub open spec fn device_count(s: Seq<(SubscriptionKey, Subscription)>) -> int
    decreases s.len(),
{
    if s.len() == 0 {
        0
    } else {
        device_count(s.drop_last()) + if s.last().0 is Device {
            1int
        } else {
            0int
        }
    }
}

/// Appending an entry raises the device count exactly when its key is a
/// device key.
proof fn lemma_device_count_push(s: Seq<(SubscriptionKey, Subscription)>, e: (SubscriptionKey, Subscription))
    ensures
        device_count(s.push(e)) == device_count(s) + if e.0 is Device {
            1int
        } else {
            0int
        },
{
    assert(s.push(e).drop_last() =~= s);
    assert(s.push(e).last() == e);
}

/// Replacing an entry by one whose key is a device key exactly when the
/// old key was leaves the device count unchanged.
proof fn lemma_device_count_update(
    s: Seq<(SubscriptionKey, Subscription)>,
    i: int,
    e: (SubscriptionKey, Subscription),
)
    requires
        0 <= i < s.len(),
        (s[i].0 is Device) == (e.0 is Device),
    ensures
        device_count(s.update(i, e)) == device_count(s),
    decreases s.len(),
{
    if i == s.len() - 1 {
        assert(s.update(i, e).drop_last() =~= s.drop_last());
    } else {
        assert(s.update(i, e).drop_last() =~= s.drop_last().update(i, e));
        lemma_device_count_update(s.drop_last(), i, e);
        assert(s.update(i, e).last() == s.last());
    }
}

/// Removing an entry lowers the device count exactly when its key is a
/// device key.
proof fn lemma_device_count_remove(s: Seq<(SubscriptionKey, Subscription)>, i: int)
    requires
        0 <= i < s.len(),
    ensures
        device_count(s.remove(i)) == device_count(s) - if s[i].0 is Device {
            1int
        } else {
            0int
        },
    decreases s.len(),
{
    if i == s.len() - 1 {
        assert(s.remove(i) =~= s.drop_last());
    } else {
        assert(s.remove(i).drop_last() =~= s.drop_last().remove(i));
        lemma_device_count_remove(s.drop_last(), i);
        assert(s.remove(i).last() == s.last());
    }
}

/// The set of devices currently tracked: those with an entry under
/// their key.
pub open spec fn tracked_devices(s: Seq<(SubscriptionKey, Subscription)>) -> Set<DeviceAddress>
    decreases s.len(),
{
    if s.len() == 0 {
        Set::empty()
    } else {
        match s.last().0 {
            SubscriptionKey::Device(a) => tracked_devices(s.drop_last()).insert(a),
            SubscriptionKey::AdapterSentinel => tracked_devices(s.drop_last()),
        }
    }
}

/// A device is tracked exactly while some entry carries its key.
pub proof fn lemma_tracked_devices_has_key(
    s: Seq<(SubscriptionKey, Subscription)>,
    a: DeviceAddress,
)
    ensures
        tracked_devices(s).contains(a) <==> has_key(s, SubscriptionKey::Device(a)),
    decreases s.len(),
{
    broadcast use vstd::set::group_set_axioms;

    if s.len() > 0 {
        lemma_tracked_devices_has_key(s.drop_last(), a);
        if has_key(s.drop_last(), SubscriptionKey::Device(a)) {
            let i = choose|i: int|
                0 <= i < s.drop_last().len() && (#[trigger] s.drop_last()[i]).0
                    == SubscriptionKey::Device(a);
            assert(s[i].0 == SubscriptionKey::Device(a));
        }
        if has_key(s, SubscriptionKey::Device(a)) && !(s.last().0 == SubscriptionKey::Device(a)) {
            let i = choose|i: int|
                0 <= i < s.len() && (#[trigger] s[i]).0 == SubscriptionKey::Device(a);
            assert(s.drop_last()[i].0 == SubscriptionKey::Device(a));
        }
    }
}

/// Membership balance: with unique keys, the number of device-keyed
/// entries equals the number of devices tracked.  Since every handler's
/// contract inserts an entry exactly when an add is processed to
/// completion and removes it exactly when a removal for that device is
/// processed, this is the invariant that the device-keyed entry count
/// always equals the number of devices added without a matching
/// subsequent removal.
pub proof fn lemma_device_count_matches_tracked(s: Seq<(SubscriptionKey, Subscription)>)
    requires
        keys_unique(s),
    ensures
        tracked_devices(s).finite(),
        device_count(s) == tracked_devices(s).len(),
    decreases s.len(),
{
    broadcast use vstd::set::group_set_axioms;

    if s.len() > 0 {
        let r = s.drop_last();
        assert(keys_unique(r)) by {
            assert(forall|i: int| 0 <= i < r.len() ==> r[i] == s[i]);
        }
        lemma_device_count_matches_tracked(r);
        match s.last().0 {
            SubscriptionKey::Device(a) => {
                lemma_tracked_devices_has_key(r, a);
                assert(!has_key(r, SubscriptionKey::Device(a))) by {
                    if has_key(r, SubscriptionKey::Device(a)) {
                        let i = choose|i: int|
                            0 <= i < r.len() && (#[trigger] r[i]).0 == SubscriptionKey::Device(a);
                        assert(s[i].0 == s[s.len() - 1].0);
                    }
                }
            }
            SubscriptionKey::AdapterSentinel => {}
        }
    }
}

/// Cyclic distance from position `from` forward to position `to` in a
/// ring of `len` entries.
pub open spec fn cyc_dist(from: int, to: int, len: int) -> int {
    if to >= from {
        to - from
    } else {
        to - from + len
    }
}

/// Brings a position that may have run past the end of a ring of `len`
/// entries back into range; defined for positions below `2 * len`.
pub open spec fn wrap(x: int, len: int) -> int {
    if x >= len {
        x - len
    } else {
        x
    }
}

/// The dynamic keyed collection of currently-open feeds.
pub struct SubscriptionRegistry {
    entries: Vec<(SubscriptionKey, Subscription)>,
    cursor: usize,
}

impl View for SubscriptionRegistry {
    type V = Seq<(SubscriptionKey, Subscription)>;

    closed spec fn view(&self) -> Seq<(SubscriptionKey, Subscription)> {
        self.entries@
    }
}

impl SubscriptionRegistry {
    /// The position the next fair pick starts from.
    pub closed spec fn start_pos(&self) -> int {
        self.cursor as int
    }

    /// Well-formed: keys are unique and the fair-pick cursor points at an
    /// entry (or at zero while empty).
    pub open spec fn wf(&self) -> bool {
        keys_unique(self@) && (self.start_pos() < self@.len() || self.start_pos() == 0)
    }

    /// An empty registry.
    pub fn new() -> (r: SubscriptionRegistry)
        ensures
            r.wf(),
            r@ =~= Seq::<(SubscriptionKey, Subscription)>::empty(),
    {
        SubscriptionRegistry { entries: Vec::new(), cursor: 0 }
    }

    /// How many feeds are currently registered.
    pub fn len(&self) -> (n: usize)
        ensures
            n == self@.len(),
    {
        self.entries.len()
    }

    /// The key of the entry at position `i`.
    pub fn key_at(&self, i: usize) -> (k: SubscriptionKey)
        requires
            i < self@.len(),
        ensures
            k == self@[i as int].0,
    {
        self.entries[i].0
    }

    /// The position of the entry keyed `k`, if any.
    fn find(&self, k: SubscriptionKey) -> (r: Option<usize>)
        ensures
            r matches Some(i) ==> i < self@.len() && self@[i as int].0 == k,
            r is None ==> !has_key(self@, k),
    {
        let n = self.entries.len();
        let mut i: usize = 0;
        while i < n
            invariant
                n == self@.len(),
                0 <= i <= n,
                forall|j: int| 0 <= j < i ==> (#[trigger] self@[j]).0 != k,
            decreases n - i,
        {
            if self.entries[i].0 == k {
                return Some(i);
            }
            i = i + 1;
        }
        None
    }

    /// Whether a feed is registered under `k`.
    pub fn contains(&self, k: SubscriptionKey) -> (r: bool)
        ensures
            r == has_key(self@, k),
    {
        match self.find(k) {
            Some(_) => true,
            None => false,
        }
    }

    /// Registers `sub` under `k`, replacing any prior entry under that
    /// key and handing the displaced subscription back so the caller can
    /// release it first.
    pub fn insert(&mut self, k: SubscriptionKey, sub: Subscription) -> (displaced: Option<
        Subscription,
    >)
        requires
            old(self).wf(),
        ensures
            final(self).wf(),
            has_key(final(self)@, k),
            displaced is Some <==> has_key(old(self)@, k),
            displaced matches Some(d) ==> exists|i: int|
                0 <= i < old(self)@.len() && (#[trigger] old(self)@[i]) == (k, d) && final(self)@
                    == old(self)@.update(i, (k, sub)),
            displaced is None ==> final(self)@ == old(self)@.push((k, sub)),
            device_count(final(self)@) == device_count(old(self)@) + if has_key(old(self)@, k) {
                0int
            } else if k is Device {
                1int
            } else {
                0int
            },
    {
        match self.find(k) {
            Some(i) => {
                let d = self.entries[i].1;
                self.entries.set(i, (k, sub));
                proof {
                    lemma_device_count_update(old(self)@, i as int, (k, sub));
                    assert(has_key(final(self)@, k)) by {
                        assert(final(self)@[i as int].0 == k);
                    }
                }
                Some(d)
            }
            None => {
                self.entries.push((k, sub));
                proof {
                    lemma_device_count_push(old(self)@, (k, sub));
                    assert(has_key(final(self)@, k)) by {
                        assert(final(self)@[old(self)@.len() as int].0 == k);
                    }
                }
                None
            }
        }
    }

    /// Detaches the entry keyed `k` and hands its subscription back for
    /// release; does nothing if no such entry exists, so removing twice
    /// is harmless.
    pub fn remove(&mut self, k: SubscriptionKey) -> (removed: Option<Subscription>)
        requires
            old(self).wf(),
        ensures
            final(self).wf(),
            !has_key(final(self)@, k),
            removed is Some <==> has_key(old(self)@, k),
            removed matches Some(d) ==> exists|i: int|
                0 <= i < old(self)@.len() && (#[trigger] old(self)@[i]) == (k, d) && final(self)@
                    == old(self)@.remove(i),
            removed is None ==> final(self)@ == old(self)@,
            device_count(final(self)@) == device_count(old(self)@) - if has_key(old(self)@, k)
                && k is Device {
                1int
            } else {
                0int
            },
    {
        match self.find(k) {
            Some(i) => {
                let e = self.entries.remove(i);
                if self.cursor >= self.entries.len() {
                    self.cursor = 0;
                }
                proof {
                    lemma_device_count_remove(old(self)@, i as int);
                    assert(!has_key(final(self)@, k)) by {
                        assert forall|j: int|
                            0 <= j < final(self)@.len() implies (#[trigger] final(self)@[j]).0
                            != k by {
                            if j < i {
                                assert(final(self)@[j] == old(self)@[j]);
                            } else {
                                assert(final(self)@[j] == old(self)@[j + 1]);
                            }
                        }
                    }
                }
                Some(e.1)
            }
            None => None,
        }
    }

    /// Empties the registry, handing back every registered subscription
    /// exactly once, in registry order, so the caller can release each.
    pub fn drain(&mut self) -> (subs: Vec<Subscription>)
        requires
            old(self).wf(),
        ensures
            final(self).wf(),
            final(self)@.len() == 0,
            subs@ == old(self)@.map_values(|e: (SubscriptionKey, Subscription)| e.1),
    {
        let n = self.entries.len();
        let mut subs: Vec<Subscription> = Vec::new();
        let mut i: usize = 0;
        while i < n
            invariant
                n == self@.len(),
                self@ == old(self)@,
                0 <= i <= n,
                subs@.len() == i,
                forall|j: int| 0 <= j < i ==> subs@[j] == (#[trigger] self@[j]).1,
            decreases n - i,
        {
            subs.push(self.entries[i].1);
            i = i + 1;
        }
        self.entries.clear();
        self.cursor = 0;
        proof {
            assert(subs@ =~= old(self)@.map_values(
                |e: (SubscriptionKey, Subscription)| e.1,
            ));
        }
        subs
    }

    /// Fair multi-way pick: among the entries marked ready, returns the
    /// position of the one closest after the cursor in cyclic order — a
    /// round-robin scheme, so a long-lived entry cannot starve a newly
    /// inserted one — and advances the cursor past it.  Returns `None`,
    /// and leaves the cursor alone, when no entry is ready.
    pub fn poll_pick(&mut self, ready: &Vec<bool>) -> (r: Option<usize>)
        requires
            old(self).wf(),
            ready@.len() == old(self)@.len(),
        ensures
            final(self).wf(),
            final(self)@ == old(self)@,
            r is None <==> (forall|j: int| 0 <= j < ready@.len() ==> !ready@[j]),
            r matches Some(i) ==> i < ready@.len() && ready@[i as int] && (forall|j: int|
                0 <= j < ready@.len() && ready@[j] ==> cyc_dist(
                    old(self).start_pos(),
                    i as int,
                    ready@.len() as int,
                ) <= cyc_dist(old(self).start_pos(), j, ready@.len() as int)),
            r matches Some(i) ==> final(self).start_pos() == wrap(i + 1, ready@.len() as int),
            r is None ==> final(self).start_pos() == old(self).start_pos(),
    {
        let n = self.entries.len();
        if n == 0 {
            return None;
        }
        let start = self.cursor;
        let ghost s = start as int;
        let ghost ln = n as int;
        let mut t: usize = 0;
        let mut idx: usize = start;
        while t < n
            invariant
                n == self@.len(),
                n == ready@.len(),
                0 < n,
                start < n,
                old(self).wf(),
                self.entries@ == old(self).entries@,
                self.cursor == old(self).cursor,
                s == start as int,
                s == old(self).start_pos(),
                ln == n as int,
                0 <= t <= n,
                idx < n,
                idx as int == wrap(s + t, ln),
                forall|j: int|
                    0 <= j < ln && #[trigger] cyc_dist(s, j, ln) < t ==> !ready@[j],
            decreases n - t,
        {
            proof {
                assert(cyc_dist(s, idx as int, ln) == t);
            }
            if ready[idx] {
                self.cursor = if idx + 1 == n {
                    0
                } else {
                    idx + 1
                };
                proof {
                    assert forall|j: int| 0 <= j < ln && ready@[j] implies cyc_dist(s, idx as int, ln)
                        <= cyc_dist(s, j, ln) by {
                        assert(0 <= cyc_dist(s, j, ln) < ln);
                    }
                }
                return Some(idx);
            }
            t = t + 1;
            idx = if idx + 1 == n {
                0
            } else {
                idx + 1
            };
        }
        proof {
            assert forall|j: int| 0 <= j < ready@.len() implies !ready@[j] by {
                assert(0 <= cyc_dist(s, j, ln) < ln);
            }
        }
        None
    }
}

} // verus!
