//! Health monitoring: named checks, each with its latest status, and a
//! broadcast of what changed.

use crate::channel::{broadcast_channel, broadcast_send, broadcast_subscribe, BusReceiver, BusSender};
use crate::clock::instant_now;
use std::time::Instant;
use vstd::prelude::*;

verus! {

#[derive(Debug, Clone, Copy, PartialEq, Eq, Structural)]
pub enum HealthStatus {
    Healthy,
    Unhealthy,
    Unknown,
}

#[derive(Debug)]
pub struct HealthCheck {
    pub name: String,
    pub status: HealthStatus,
    pub last_check: Instant,
    pub message: Option<String>,
}

#[derive(Debug, Clone)]
pub enum HealthEvent {
    CheckStarted { name: String },
    CheckCompleted { name: String, status: HealthStatus },
    StatusChanged { name: String, old: HealthStatus, new: HealthStatus },
}

/// What the monitor knows of one check.
pub struct CheckView {
    pub status: HealthStatus,
    pub message: Option<Seq<char>>,
}

pub open spec fn opt_view(m: Option<String>) -> Option<Seq<char>> {
    match m {
        Some(s) => Some(s@),
        None => None,
    }
}

pub open spec fn check_view(c: HealthCheck) -> CheckView {
    CheckView { status: c.status, message: opt_view(c.message) }
}

/// Whether `e` announces that the check `name` was registered.
pub open spec fn is_check_started(e: HealthEvent, name: Seq<char>) -> bool {
    e matches HealthEvent::CheckStarted { name: n } && n@ == name
}

/// Whether `e` announces that the check `name` went from `old` to `new`.
pub open spec fn is_status_changed(e: HealthEvent, name: Seq<char>, old: HealthStatus, new: HealthStatus) -> bool {
    e matches HealthEvent::StatusChanged { name: n, old: o, new: w } && n@ == name && o == old && w == new
}

/// The checks of a list, by name.
pub open spec fn checks_map(s: Seq<HealthCheck>) -> Map<Seq<char>, CheckView> {
    Map::new(
        |n: Seq<char>| exists|i: int| 0 <= i < s.len() && #[trigger] s[i].name@ == n,
        |n: Seq<char>| check_view(s[choose|i: int| 0 <= i < s.len() && #[trigger] s[i].name@ == n]),
    )
}

/// No two checks of a list share a name.
pub open spec fn names_distinct(s: Seq<HealthCheck>) -> bool {
    forall|i: int, j: int| 0 <= i < j < s.len() ==> #[trigger] s[i].name@ != #[trigger] s[j].name@
}

proof fn lemma_map_at(s: Seq<HealthCheck>, i: int)
    requires
        names_distinct(s),
        0 <= i < s.len(),
    ensures
        checks_map(s).dom().contains(s[i].name@),
        checks_map(s)[s[i].name@] == check_view(s[i]),
{
    let n = s[i].name@;
    assert(checks_map(s).dom().contains(n));
    let j = choose|j: int| 0 <= j < s.len() && #[trigger] s[j].name@ == n;
    if j < i {
        assert(s[j].name@ != s[i].name@);
    } else if i < j {
        assert(s[i].name@ != s[j].name@);
    }
}

/// Replacing a check by one of the same name replaces its entry.
proof fn lemma_map_update(s: Seq<HealthCheck>, i: int, c: HealthCheck)
    requires
        names_distinct(s),
        0 <= i < s.len(),
        c.name@ == s[i].name@,
    ensures
        names_distinct(s.update(i, c)),
        checks_map(s.update(i, c)) == checks_map(s).insert(c.name@, check_view(c)),
{
    let t = s.update(i, c);
    assert forall|a: int, b: int| 0 <= a < b < t.len() implies #[trigger] t[a].name@ != #[trigger] t[b].name@ by {
        assert(s[a].name@ != s[b].name@);
    }
    lemma_map_at(t, i);
    assert forall|n: Seq<char>| n != c.name@ implies
        (#[trigger] checks_map(t).dom().contains(n)) == checks_map(s).dom().contains(n) by {
        if checks_map(t).dom().contains(n) {
            let k = choose|k: int| 0 <= k < t.len() && #[trigger] t[k].name@ == n;
            assert(s[k].name@ == n);
        }
        if checks_map(s).dom().contains(n) {
            let k = choose|k: int| 0 <= k < s.len() && #[trigger] s[k].name@ == n;
            assert(t[k].name@ == n);
        }
    }
    assert forall|n: Seq<char>| n != c.name@ && #[trigger] checks_map(t).dom().contains(n) implies
        checks_map(t)[n] == checks_map(s)[n] by {
        let k = choose|k: int| 0 <= k < t.len() && #[trigger] t[k].name@ == n;
        lemma_map_at(t, k);
        lemma_map_at(s, k);
    }
    assert(checks_map(t) =~= checks_map(s).insert(c.name@, check_view(c)));
}

/// Appending a check of a new name adds its entry.
proof fn lemma_map_push(s: Seq<HealthCheck>, c: HealthCheck)
    requires
        names_distinct(s),
        !checks_map(s).dom().contains(c.name@),
    ensures
        names_distinct(s.push(c)),
        checks_map(s.push(c)) == checks_map(s).insert(c.name@, check_view(c)),
{
    let t = s.push(c);
    assert forall|a: int, b: int| 0 <= a < b < t.len() implies #[trigger] t[a].name@ != #[trigger] t[b].name@ by {
        if b == s.len() {
            if s[a].name@ == c.name@ {
                assert(checks_map(s).dom().contains(c.name@));
            }
        } else {
            assert(s[a].name@ != s[b].name@);
        }
    }
    lemma_map_at(t, s.len() as int);
    assert forall|n: Seq<char>| n != c.name@ implies
        (#[trigger] checks_map(t).dom().contains(n)) == checks_map(s).dom().contains(n) by {
        if checks_map(t).dom().contains(n) {
            let k = choose|k: int| 0 <= k < t.len() && #[trigger] t[k].name@ == n;
            assert(k < s.len());
            assert(s[k].name@ == n);
        }
        if checks_map(s).dom().contains(n) {
            let k = choose|k: int| 0 <= k < s.len() && #[trigger] s[k].name@ == n;
            assert(t[k].name@ == n);
        }
    }
    assert forall|n: Seq<char>| n != c.name@ && #[trigger] checks_map(t).dom().contains(n) implies
        checks_map(t)[n] == checks_map(s)[n] by {
        let k = choose|k: int| 0 <= k < t.len() && #[trigger] t[k].name@ == n;
        assert(k < s.len());
        lemma_map_at(t, k);
        lemma_map_at(s, k);
    }
    assert(checks_map(t) =~= checks_map(s).insert(c.name@, check_view(c)));
}

pub struct HealthMonitor {
    checks: Vec<HealthCheck>,
    tx: BusSender<HealthEvent>,
}

impl View for HealthMonitor {
    type V = Map<Seq<char>, CheckView>;

    /// Each registered check, by name.
    closed spec fn view(&self) -> Map<Seq<char>, CheckView> {
        checks_map(self.checks@)
    }
}

impl HealthMonitor {
    /// The channel the monitor announces on.
    pub closed spec fn channel(&self) -> int {
        self.tx.channel()
    }

    /// Every event handed to the channel, in the order sent.
    pub closed spec fn events(&self) -> Seq<HealthEvent> {
        self.tx.sent()
    }

    pub closed spec fn wf(&self) -> bool {
        names_distinct(self.checks@)
    }

    /// A monitor with no checks, on a channel that holds 100 events.
    pub fn new() -> (m: Self)
        ensures
            m.wf(),
            m@ == Map::<Seq<char>, CheckView>::empty(),
            m.events() == Seq::<HealthEvent>::empty(),
    {
        let m = HealthMonitor { checks: Vec::new(), tx: broadcast_channel(100) };
        assert(m@ =~= Map::<Seq<char>, CheckView>::empty());
        m
    }

    fn find(&self, name: &String) -> (r: Option<usize>)
        requires
            self.wf(),
        ensures
            match r {
                Some(i) => i < self.checks@.len() && self.checks@[i as int].name@ == name@
                    && self@.dom().contains(name@) && self@[name@] == check_view(self.checks@[i as int]),
                None => !self@.dom().contains(name@),
            },
    {
        let mut i: usize = 0;
        while i < self.checks.len()
            invariant
                self.wf(),
                i <= self.checks@.len(),
                forall|j: int| 0 <= j < i ==> self.checks@[j].name@ != name@,
            decreases self.checks@.len() - i,
        {
            if self.checks[i].name == *name {
                proof { lemma_map_at(self.checks@, i as int); }
                return Some(i);
            }
            i = i + 1;
        }
        None
    }

    /// Registers the check `name` with an unknown status and no message,
    /// replacing a check of that name, and announces it.
    pub fn register_check(&mut self, name: &str)
        requires
            old(self).wf(),
        ensures
            final(self).wf(),
            final(self).channel() == old(self).channel(),
            final(self)@ == old(self)@.insert(name@, CheckView { status: HealthStatus::Unknown, message: None }),
            final(self).events().len() == old(self).events().len() + 1,
            final(self).events().take(old(self).events().len() as int) == old(self).events(),
            is_check_started(final(self).events().last(), name@),
    {
        let name = String::from_str(name);
        let check = HealthCheck { name: name.clone(), status: HealthStatus::Unknown, last_check: instant_now(), message: None };
        match self.find(&name) {
            Some(i) => {
                proof { lemma_map_update(self.checks@, i as int, check); }
                self.checks.set(i, check);
            },
            None => {
                proof { lemma_map_push(self.checks@, check); }
                self.checks.push(check);
            },
        }
        let event = HealthEvent::CheckStarted { name };
        broadcast_send(&mut self.tx, event);
        assert(self.events().take(old(self).events().len() as int) =~= old(self).events());
    }

    /// Records the outcome of the check `name`: its status and message are
    /// replaced, and a change of status is announced. An unknown name is
    /// ignored.
    pub fn update_status(&mut self, name: &str, status: HealthStatus, message: Option<String>)
        requires
            old(self).wf(),
        ensures
            final(self).wf(),
            final(self).channel() == old(self).channel(),
            old(self)@.dom().contains(name@) ==> final(self)@ == old(self)@.insert(
                name@,
                CheckView { status: status, message: opt_view(message) },
            ),
            !old(self)@.dom().contains(name@) ==> final(self)@ == old(self)@,
            if old(self)@.dom().contains(name@) && old(self)@[name@].status != status {
                &&& final(self).events().len() == old(self).events().len() + 1
                &&& final(self).events().take(old(self).events().len() as int) == old(self).events()
                &&& is_status_changed(final(self).events().last(), name@, old(self)@[name@].status, status)
            } else {
                final(self).events() == old(self).events()
            },
    {
        let name = String::from_str(name);
        match self.find(&name) {
            Some(i) => {
                let previous = self.checks[i].status;
                let check = HealthCheck { name: name.clone(), status, last_check: instant_now(), message };
                proof { lemma_map_update(self.checks@, i as int, check); }
                self.checks.set(i, check);
                if previous != status {
                    let event = HealthEvent::StatusChanged { name, old: previous, new: status };
                    broadcast_send(&mut self.tx, event);
                    assert(self.events().take(old(self).events().len() as int) =~= old(self).events());
                }
            },
            None => {},
        }
    }

    /// The status of the check `name`, if it is registered.
    pub fn get_status(&self, name: &str) -> (r: Option<HealthStatus>)
        requires
            self.wf(),
        ensures
            r == (if self@.dom().contains(name@) { Some(self@[name@].status) } else { None::<HealthStatus> }),
    {
        let name = String::from_str(name);
        match self.find(&name) {
            Some(i) => Some(self.checks[i].status),
            None => None,
        }
    }

    /// Each registered check's name with its status, each name once.
    pub fn get_all_statuses(&self) -> (r: Vec<(String, HealthStatus)>)
        requires
            self.wf(),
        ensures
            forall|i: int| 0 <= i < r@.len() ==> self@.dom().contains(#[trigger] r@[i].0@)
                && r@[i].1 == self@[r@[i].0@].status,
            forall|n: Seq<char>| #[trigger] self@.dom().contains(n) ==> exists|i: int| 0 <= i < r@.len() && r@[i].0@ == n,
            forall|i: int, j: int| 0 <= i < j < r@.len() ==> #[trigger] r@[i].0@ != #[trigger] r@[j].0@,
    {
        let mut r: Vec<(String, HealthStatus)> = Vec::new();
        let mut i: usize = 0;
        while i < self.checks.len()
            invariant
                self.wf(),
                i <= self.checks@.len(),
                r@.len() == i,
                forall|k: int| 0 <= k < i ==> (#[trigger] r@[k]).0@ == self.checks@[k].name@
                    && r@[k].1 == self.checks@[k].status,
            decreases self.checks@.len() - i,
        {
            let n = self.checks[i].name.clone();
            r.push((n, self.checks[i].status));
            i = i + 1;
        }
        proof {
            assert forall|k: int| 0 <= k < r@.len() implies self@.dom().contains(#[trigger] r@[k].0@)
                && r@[k].1 == self@[r@[k].0@].status by {
                lemma_map_at(self.checks@, k);
            }
            assert forall|n: Seq<char>| #[trigger] self@.dom().contains(n) implies
                exists|k: int| 0 <= k < r@.len() && r@[k].0@ == n by {
                let k = choose|k: int| 0 <= k < self.checks@.len() && #[trigger] self.checks@[k].name@ == n;
                assert(r@[k].0@ == n);
            }
            assert forall|a: int, b: int| 0 <= a < b < r@.len() implies #[trigger] r@[a].0@ != #[trigger] r@[b].0@ by {
                assert(self.checks@[a].name@ != self.checks@[b].name@);
            }
        }
        r
    }

    /// Whether every registered check is healthy (so also when there is
    /// none).
    pub fn is_healthy(&self) -> (b: bool)
        requires
            self.wf(),
        ensures
            b == (forall|n: Seq<char>| #[trigger] self@.dom().contains(n) ==> self@[n].status == HealthStatus::Healthy),
    {
        let mut i: usize = 0;
        while i < self.checks.len()
            invariant
                self.wf(),
                i <= self.checks@.len(),
                forall|k: int| 0 <= k < i ==> #[trigger] self.checks@[k].status == HealthStatus::Healthy,
            decreases self.checks@.len() - i,
        {
            if self.checks[i].status != HealthStatus::Healthy {
                proof { lemma_map_at(self.checks@, i as int); }
                return false;
            }
            i = i + 1;
        }
        proof {
            assert forall|n: Seq<char>| #[trigger] self@.dom().contains(n) implies self@[n].status == HealthStatus::Healthy by {
                let k = choose|k: int| 0 <= k < self.checks@.len() && #[trigger] self.checks@[k].name@ == n;
                lemma_map_at(self.checks@, k);
            }
        }
        true
    }

    /// A receiver, on the monitor's channel, of the events sent from now on.
    pub fn subscribe(&self) -> (r: BusReceiver<HealthEvent>)
        ensures
            r.channel() == self.channel(),
    {
        broadcast_subscribe(&self.tx)
    }
}

impl Default for HealthMonitor {
    fn default() -> (m: Self)
        ensures
            m.wf(),
            m@ == Map::<Seq<char>, CheckView>::empty(),
            m.events() == Seq::<HealthEvent>::empty(),
    {
        HealthMonitor::new()
    }
}

} // verus!
