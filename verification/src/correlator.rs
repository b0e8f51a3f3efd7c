//! The correlator: the state machine that drives registry membership.
//!
//! The caller's event loop waits fairly on four sources — the two
//! discovery notification streams, the registry's merged feed, and a
//! cancellation signal — and reports each event here.  The correlator
//! decides every membership change: which device feeds to open, what to
//! do when an open completes (a removal that arrived meanwhile wins over
//! the pending open, so a late success is handed back for release rather
//! than installed), which entries to drop, and when to drain.  All bus
//! work stays with the caller: the correlator only returns what must be
//! done.

use vstd::prelude::*;

use crate::address::DeviceAddress;
use crate::paths::player_target;
use crate::paths::recognized_player_path;
use crate::paths::spec_path_target;
use crate::registry::ChangeEvent;
use crate::registry::Subscription;
use crate::registry::SubscriptionKey;
use crate::registry::SubscriptionRegistry;
use crate::registry::device_count;
use crate::registry::has_key;

verus! {

/// How often a transiently failed open is attempted again before the
/// device is given up on until the next notification.
pub const OPEN_RETRY_LIMIT: u8 = 3;

/// Lifecycle of the correlator: `Running` handles events, `Draining`
/// has handed every entry back for release, `Stopped` is terminal.
#[derive(Clone, Copy, Debug, PartialEq, Eq, Structural)]
pub enum Phase {
    Running,
    Draining,
    Stopped,
}

/// How an attempt to open a property-change feed failed.  `Transient`
/// means the player object is not (yet) exported — an expected,
/// retriable condition.  `Fatal` means the bus link itself is unusable.
#[derive(Clone, Copy, Debug, PartialEq, Eq, Structural)]
pub enum BusError {
    Transient,
    Fatal,
}

/// What the caller must do after reporting a completed open attempt.
#[derive(Debug)]
pub enum OpenResolution {
    /// The subscription was installed under the device's key; if an
    /// entry was displaced, release it.
    Installed { displaced: Option<Subscription> },
    /// The open was logically retracted — a removal won the race, or
    /// the correlator is no longer running.  Release the subscription;
    /// nothing was installed.
    Rejected { sub: Subscription },
    /// Transient failure with retries left: attempt the open again.
    Retry,
    /// Transient failure with no retries left, or no pending open: give
    /// the device up until the next notification.
    Dropped,
    /// The bus link is unusable: begin the drain and terminate.
    Fatal,
}

/// Some pending open is waiting for device `a`.
pub open spec fn pending_has(s: Seq<(DeviceAddress, u8)>, a: DeviceAddress) -> bool {
    exists|i: int| 0 <= i < s.len() && (#[trigger] s[i]).0 == a
}

/// No device has two pending opens.
pub open spec fn pending_unique(s: Seq<(DeviceAddress, u8)>) -> bool {
    forall|i: int, j: int| 0 <= i < j < s.len() ==> (#[trigger] s[i]).0 != (#[trigger] s[j]).0
}

/// The correlator's state: the registry of open feeds, the opens still
/// in flight (each with its remaining retries), and the lifecycle phase.
///
/// Membership invariant: a `Device(addr)` entry exists exactly while the
/// correlator believes a player is active for `addr` — each handler's
/// contract accounts for the device-keyed entry count, which rises by
/// one exactly when an add is processed to completion for a new device
/// and falls by one exactly when a removal for a present device is
/// processed, and outside `Running` both the registry and the pending
/// set are empty.
pub struct Correlator {
    pub registry: SubscriptionRegistry,
    pub pending: Vec<(DeviceAddress, u8)>,
    pub phase: Phase,
}

impl Correlator {
    /// Well-formed: registry keys unique, at most one pending open per
    /// device, and nothing held outside `Running`.
    pub open spec fn wf(&self) -> bool {
        self.registry.wf() && pending_unique(self.pending@) && (self.phase != Phase::Running
            ==> self.registry@.len() == 0 && self.pending@.len() == 0)
    }

    /// A fresh correlator: running, with no feeds and no pending opens.
    pub fn new() -> (r: Correlator)
        ensures
            r.wf(),
            r.phase == Phase::Running,
            r.registry@.len() == 0,
            r.pending@.len() == 0,
    {
        Correlator { registry: SubscriptionRegistry::new(), pending: Vec::new(), phase: Phase::Running }
    }

    /// The position of the pending open for `a`, if any.
    fn pending_find(&self, a: DeviceAddress) -> (r: Option<usize>)
        ensures
            r matches Some(i) ==> i < self.pending@.len() && self.pending@[i as int].0 == a,
            r is None ==> !pending_has(self.pending@, a),
    {
        let n = self.pending.len();
        let mut i: usize = 0;
        while i < n
            invariant
                n == self.pending@.len(),
                0 <= i <= n,
                forall|j: int| 0 <= j < i ==> (#[trigger] self.pending@[j]).0 != a,
            decreases n - i,
        {
            if self.pending[i].0 == a {
                return Some(i);
            }
            i = i + 1;
        }
        None
    }

    /// Forgets the pending open for `a`, if any.
    fn pending_remove(&mut self, a: DeviceAddress) -> (removed: bool)
        requires
            pending_unique(old(self).pending@),
        ensures
            pending_unique(final(self).pending@),
            final(self).registry == old(self).registry,
            final(self).phase == old(self).phase,
            !pending_has(final(self).pending@, a),
            removed <==> pending_has(old(self).pending@, a),
            removed ==> exists|i: int|
                0 <= i < old(self).pending@.len() && (#[trigger] old(self).pending@[i]).0 == a
                    && final(self).pending@ == old(self).pending@.remove(i),
            !removed ==> final(self).pending@ == old(self).pending@,
    {
        match self.pending_find(a) {
            Some(i) => {
                self.pending.remove(i);
                proof {
                    assert(!pending_has(final(self).pending@, a)) by {
                        assert forall|j: int|
                            0 <= j < final(self).pending@.len() implies (#[trigger] final(self).pending@[j]).0 != a by {
                            if j < i {
                                assert(final(self).pending@[j] == old(self).pending@[j]);
                            } else {
                                assert(final(self).pending@[j] == old(self).pending@[j + 1]);
                            }
                        }
                    }
                }
                true
            }
            None => false,
        }
    }

    /// Begins tracking a device: remembers a pending open with the full
    /// retry budget.  Returns true exactly when the caller must attempt
    /// to open the device's player feed and report the outcome through
    /// `open_completed`; while not running, or while an open for the
    /// same device is already in flight, nothing changes.
    pub fn start_device(&mut self, addr: DeviceAddress) -> (must_open: bool)
        requires
            old(self).wf(),
        ensures
            final(self).wf(),
            final(self).registry == old(self).registry,
            final(self).phase == old(self).phase,
            must_open <==> (old(self).phase == Phase::Running && !pending_has(
                old(self).pending@,
                addr,
            )),
            must_open ==> final(self).pending@ == old(self).pending@.push(
                (addr, OPEN_RETRY_LIMIT),
            ),
            !must_open ==> final(self).pending@ == old(self).pending@,
    {
        match self.phase {
            Phase::Running => {
                match self.pending_find(addr) {
                    Some(_) => false,
                    None => {
                        self.pending.push((addr, OPEN_RETRY_LIMIT));
                        true
                    }
                }
            }
            _ => false,
        }
    }

    /// Handles an object-interface-added notification.  A path that does
    /// not denote a media-player object, or whose device segment does
    /// not decode, is ignored and nothing changes.  Otherwise the device
    /// is tracked as by `start_device`: the result is `Some(addr)`
    /// exactly when the caller must attempt to open the feed for `addr`.
    pub fn object_added(&mut self, path: &str) -> (open_for: Option<DeviceAddress>)
        requires
            old(self).wf(),
        ensures
            final(self).wf(),
            final(self).registry == old(self).registry,
            final(self).phase == old(self).phase,
            open_for is Some <==> (old(self).phase == Phase::Running && recognized_player_path(
                path@,
            ) && !pending_has(old(self).pending@, spec_path_target(path@))),
            open_for matches Some(a) ==> a == spec_path_target(path@) && final(self).pending@
                == old(self).pending@.push((a, OPEN_RETRY_LIMIT)),
            open_for is None ==> final(self).pending@ == old(self).pending@,
    {
        match player_target(path) {
            Some(addr) => {
                if self.start_device(addr) {
                    Some(addr)
                } else {
                    None
                }
            }
            None => None,
        }
    }

    /// Reports the outcome of an attempted open of `addr`'s player feed.
    ///
    /// A success while the open is still pending installs the
    /// subscription, displacing any prior entry under the same key.  A
    /// success whose pending open was retracted — a removal arrived
    /// first, or the correlator left `Running` — is rejected and handed
    /// back for release, never installed.  A transient failure consumes
    /// one retry, or gives the device up when none are left.  A fatal
    /// failure changes nothing here; the caller must begin the drain.
    pub fn open_completed(&mut self, addr: DeviceAddress, outcome: Result<
        Subscription,
        BusError,
    >) -> (r: OpenResolution)
        requires
            old(self).wf(),
        ensures
            final(self).wf(),
            final(self).phase == old(self).phase,
            // Fatal link failure: nothing changes, the caller drains.
            old(self).phase == Phase::Running && outcome == Err::<Subscription, BusError>(
                BusError::Fatal,
            ) ==> final(self).registry == old(self).registry && final(self).pending@ == old(self).pending@ && r is Fatal,
            // Not running: every completion is inert; a late success is
            // handed back for release.
            old(self).phase != Phase::Running ==> final(self).registry == old(self).registry
                && final(self).pending@ == old(self).pending@ && (match outcome {
                Ok(sub) => r matches OpenResolution::Rejected { sub: s } && s == sub,
                Err(_) => r is Dropped,
            }),
            // Success for a still-pending open: installed.
            outcome matches Ok(sub) ==> (old(self).phase == Phase::Running && pending_has(
                old(self).pending@,
                addr,
            ) ==> (exists|i: int|
                0 <= i < old(self).pending@.len() && (#[trigger] old(self).pending@[i]).0 == addr
                    && final(self).pending@ == old(self).pending@.remove(i)) && !pending_has(
                final(self).pending@,
                addr,
            ) && has_key(final(self).registry@, SubscriptionKey::Device(addr)) && (r matches
            OpenResolution::Installed { displaced } && (displaced is Some <==> has_key(
                old(self).registry@,
                SubscriptionKey::Device(addr),
            )) && (displaced matches Some(d) ==> exists|i: int|
                0 <= i < old(self).registry@.len() && (#[trigger] old(self).registry@[i]) == (
                    SubscriptionKey::Device(addr),
                    d,
                ) && final(self).registry@ == old(self).registry@.update(
                    i,
                    (SubscriptionKey::Device(addr), sub),
                )) && (displaced is None ==> final(self).registry@ == old(self).registry@.push(
                (SubscriptionKey::Device(addr), sub),
            ))) && device_count(final(self).registry@) == device_count(old(self).registry@)
                + if has_key(old(self).registry@, SubscriptionKey::Device(addr)) {
                0int
            } else {
                1int
            }),
            // Success after retraction: rejected, nothing installed.
            outcome matches Ok(sub) ==> (old(self).phase == Phase::Running && !pending_has(
                old(self).pending@,
                addr,
            ) ==> final(self).registry == old(self).registry && final(self).pending@ == old(self).pending@ && (r matches OpenResolution::Rejected { sub: s } && s == sub)),
            // Transient failure: one retry is consumed, or the pending
            // open is dropped when the budget is spent or absent.
            old(self).phase == Phase::Running && outcome == Err::<Subscription, BusError>(
                BusError::Transient,
            ) ==> final(self).registry == old(self).registry && (if pending_has(
                old(self).pending@,
                addr,
            ) {
                exists|i: int|
                    0 <= i < old(self).pending@.len() && (#[trigger] old(self).pending@[i]).0
                        == addr && (if old(self).pending@[i].1 > 0 {
                        r is Retry && final(self).pending@ == old(self).pending@.update(
                            i,
                            (addr, (old(self).pending@[i].1 - 1) as u8),
                        )
                    } else {
                        r is Dropped && final(self).pending@ == old(self).pending@.remove(i)
                            && !pending_has(final(self).pending@, addr)
                    })
            } else {
                r is Dropped && final(self).pending@ == old(self).pending@
            }),
    {
        match self.phase {
            Phase::Running => {
                match outcome {
                    Ok(sub) => {
                        if self.pending_remove(addr) {
                            let displaced = self.registry.insert(
                                SubscriptionKey::Device(addr),
                                sub,
                            );
                            OpenResolution::Installed { displaced }
                        } else {
                            OpenResolution::Rejected { sub }
                        }
                    }
                    Err(BusError::Fatal) => OpenResolution::Fatal,
                    Err(BusError::Transient) => {
                        match self.pending_find(addr) {
                            Some(i) => {
                                let left = self.pending[i].1;
                                if left > 0 {
                                    self.pending.set(i, (addr, left - 1));
                                    OpenResolution::Retry
                                } else {
                                    self.pending_remove(addr);
                                    OpenResolution::Dropped
                                }
                            }
                            None => OpenResolution::Dropped,
                        }
                    }
                }
            }
            _ => {
                match outcome {
                    Ok(sub) => OpenResolution::Rejected { sub },
                    Err(_) => OpenResolution::Dropped,
                }
            }
        }
    }

    /// Handles an object-interface-removed notification.  A path that
    /// does not denote a media-player object is ignored.  Otherwise any
    /// pending open for the device is retracted — a removal always wins
    /// over an open still in flight — and the device's entry, if
    /// present, is detached and handed back for release.
    pub fn object_removed(&mut self, path: &str) -> (released: Option<Subscription>)
        requires
            old(self).wf(),
        ensures
            final(self).wf(),
            final(self).phase == old(self).phase,
            !(old(self).phase == Phase::Running && recognized_player_path(path@)) ==> final(self).registry == old(self).registry && final(self).pending@ == old(self).pending@
                && released is None,
            old(self).phase == Phase::Running && recognized_player_path(path@) ==> !pending_has(
                final(self).pending@,
                spec_path_target(path@),
            ) && (pending_has(old(self).pending@, spec_path_target(path@)) ==> exists|i: int|
                0 <= i < old(self).pending@.len() && (#[trigger] old(self).pending@[i]).0
                    == spec_path_target(path@) && final(self).pending@ == old(self).pending@.remove(i)) && (!pending_has(old(self).pending@, spec_path_target(path@))
                ==> final(self).pending@ == old(self).pending@) && !has_key(
                final(self).registry@,
                SubscriptionKey::Device(spec_path_target(path@)),
            ) && (released is Some <==> has_key(
                old(self).registry@,
                SubscriptionKey::Device(spec_path_target(path@)),
            )) && (released matches Some(d) ==> exists|i: int|
                0 <= i < old(self).registry@.len() && (#[trigger] old(self).registry@[i]) == (
                    SubscriptionKey::Device(spec_path_target(path@)),
                    d,
                ) && final(self).registry@ == old(self).registry@.remove(i)) && (released is None
                ==> final(self).registry@ == old(self).registry@) && device_count(
                final(self).registry@,
            ) == device_count(old(self).registry@) - if has_key(
                old(self).registry@,
                SubscriptionKey::Device(spec_path_target(path@)),
            ) {
                1int
            } else {
                0int
            },
    {
        match self.phase {
            Phase::Running => {
                match player_target(path) {
                    Some(addr) => {
                        self.pending_remove(addr);
                        self.registry.remove(SubscriptionKey::Device(addr))
                    }
                    None => None,
                }
            }
            _ => None,
        }
    }

    /// Forwards a change event from the merged feed to the consumer
    /// unchanged; routing never mutates membership.
    pub fn forward<V>(&self, ev: ChangeEvent<V>) -> (r: ChangeEvent<V>)
        ensures
            r == ev,
    {
        ev
    }

    /// Transition to `Draining`: hands back every registered
    /// subscription exactly once, in registry order, so the caller can
    /// release each, and forgets every pending open, whose completions
    /// will be rejected.  Cancellation and fatal errors both drain this
    /// way.
    pub fn begin_drain(&mut self) -> (subs: Vec<Subscription>)
        requires
            old(self).wf(),
            old(self).phase == Phase::Running,
        ensures
            final(self).wf(),
            final(self).phase == Phase::Draining,
            subs@ == old(self).registry@.map_values(
                |e: (SubscriptionKey, Subscription)| e.1,
            ),
            final(self).registry@.len() == 0,
            final(self).pending@.len() == 0,
    {
        let subs = self.registry.drain();
        self.pending.clear();
        self.phase = Phase::Draining;
        subs
    }

    /// Transition to `Stopped` once the caller has released every
    /// subscription handed back by `begin_drain` and the pairing-agent
    /// handle.
    pub fn finish_drain(&mut self)
        requires
            old(self).wf(),
            old(self).phase == Phase::Draining,
        ensures
            final(self).wf(),
            final(self).phase == Phase::Stopped,
            final(self).registry@.len() == 0,
            final(self).pending@.len() == 0,
    {
        self.phase = Phase::Stopped;
    }
}

} // verus!
