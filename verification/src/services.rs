use vstd::prelude::*;

use crate::text::{push_str, str_eq};

verus! {

/// An audio service of a Bluetooth device that a host can switch.
#[derive(Debug, Clone, Copy, PartialEq, Eq, Structural)]
pub enum AudioService {
    A2dp,
    Handsfree,
    Headset,
}

/// The system's switches for the audio services of a device.
pub trait ServiceControl {
    /// The services currently enabled for the device.
    fn enabled(&self, address: &str) -> Result<Vec<AudioService>, String>;

    /// Enables or disables one service of the device.
    fn set(&self, address: &str, service: AudioService, enable: bool) -> Result<(), String>;
}

/// `snap` with each service of `enabled` that it does not hold yet appended,
/// in order.
pub open spec fn merge_spec(snap: Seq<AudioService>, enabled: Seq<AudioService>) -> Seq<AudioService>
    decreases enabled.len(),
{
    if enabled.len() == 0 {
        snap
    } else {
        let m = merge_spec(snap, enabled.drop_last());
        if m.contains(enabled.last()) {
            m
        } else {
            m.push(enabled.last())
        }
    }
}

/// The snapshot recorded for an address, empty where there is none.
pub open spec fn snapshot_of(m: Map<Seq<char>, Seq<AudioService>>, address: Seq<char>) -> Seq<AudioService> {
    if m.contains_key(address) {
        m[address]
    } else {
        Seq::empty()
    }
}

/// The services `restore` switches back on: the snapshot of the address;
/// without one, A2DP alone when asked to connect, else nothing.
pub open spec fn restore_targets_spec(
    m: Map<Seq<char>, Seq<AudioService>>,
    address: Seq<char>,
    connect: bool,
) -> Option<Seq<AudioService>> {
    if m.contains_key(address) {
        Some(m[address])
    } else if connect {
        Some(seq![AudioService::A2dp])
    } else {
        None
    }
}

/// One request a `ServiceState` made of its backend, with the answer it got.
pub enum Request {
    /// `enabled(address)`: the services on, or the failure's message.
    Enabled { address: Seq<char>, answer: Result<Seq<AudioService>, Seq<char>> },
    /// `set(address, service, enable)`: success, or the failure's message.
    Switch { address: Seq<char>, service: AudioService, enable: bool, answer: Result<(), Seq<char>> },
}

/// Which services were on before this host switched a device's audio off,
/// by address, so that they can be switched back on.
pub struct ServiceState {
    entries: Vec<(String, Vec<AudioService>)>,
    /// Every request made of a backend so far, in order.
    history: Ghost<Seq<Request>>,
}

/// The text view of a step's result.
pub open spec fn step_view(r: Result<(), String>) -> Result<(), Seq<char>> {
    match r {
        Ok(()) => Ok(()),
        Err(e) => Err(e@),
    }
}

/// The results of several steps as text.
pub open spec fn steps_view(rs: Seq<Result<(), String>>) -> Seq<Result<(), Seq<char>>> {
    rs.map_values(|r: Result<(), String>| step_view(r))
}

/// `Ok` where every step succeeded, else the failure of the last step that
/// failed.
pub open spec fn last_failure_spec(outcomes: Seq<Result<(), Seq<char>>>) -> Result<(), Seq<char>>
    decreases outcomes.len(),
{
    if outcomes.len() == 0 {
        Ok(())
    } else {
        match outcomes.last() {
            Err(e) => Err(e),
            Ok(()) => last_failure_spec(outcomes.drop_last()),
        }
    }
}

/// Folds the results of several steps: `Ok` where all succeeded, else the
/// last failure.
pub fn last_failure(outcomes: &[Result<(), String>]) -> (r: Result<(), String>)
    ensures
        step_view(r) == last_failure_spec(steps_view(outcomes@)),
{
    let mut i: usize = outcomes.len();
    assert(outcomes@.take(i as int) =~= outcomes@);
    while i > 0
        invariant
            i <= outcomes@.len(),
            last_failure_spec(steps_view(outcomes@)) == last_failure_spec(steps_view(outcomes@.take(i as int))),
        decreases i,
    {
        let ghost t = steps_view(outcomes@.take(i as int));
        assert(t.drop_last() =~= steps_view(outcomes@.take(i - 1)));
        assert(t.last() == step_view(outcomes@[i - 1]));
        match &outcomes[i - 1] {
            Err(e) => {
                return Err(e.clone());
            },
            Ok(()) => {},
        }
        i = i - 1;
    }
    assert(steps_view(outcomes@.take(0)) =~= Seq::<Result<(), Seq<char>>>::empty());
    Ok(())
}

/// `after` is `before` with requests appended.
pub open spec fn extends(before: Seq<Request>, after: Seq<Request>) -> bool {
    after.len() >= before.len() && after.take(before.len() as int) == before
}

/// The requests are one `set(address, services[i], enable)` per service, in
/// order.
pub open spec fn sets_for(reqs: Seq<Request>, address: Seq<char>, services: Seq<AudioService>, enable: bool) -> bool {
    &&& reqs.len() == services.len()
    &&& forall|i: int|
        0 <= i < reqs.len() ==> (#[trigger] reqs[i] matches Request::Switch { address: a, service, enable: e, .. }
            && a == address && service == services[i] && e == enable)
}

/// The answers to a list of `set` requests.
pub open spec fn set_answers(reqs: Seq<Request>) -> Seq<Result<(), Seq<char>>> {
    reqs.map_values(
        |q: Request|
            match q {
                Request::Switch { answer, .. } => answer,
                Request::Enabled { .. } => Ok(()),
            },
    )
}

/// The entries as values.
pub open spec fn entry_values(e: Seq<(String, Vec<AudioService>)>) -> Seq<(Seq<char>, Seq<AudioService>)> {
    e.map_values(|p: (String, Vec<AudioService>)| (p.0@, p.1@))
}

/// No address occurs twice.
pub open spec fn keys_unique(e: Seq<(Seq<char>, Seq<AudioService>)>) -> bool {
    forall|i: int, j: int| 0 <= i < e.len() && 0 <= j < e.len() && i != j ==> (#[trigger] e[i]).0 != (#[trigger] e[j]).0
}

/// The map an entry list stands for.
pub open spec fn map_of(e: Seq<(Seq<char>, Seq<AudioService>)>) -> Map<Seq<char>, Seq<AudioService>> {
    Map::new(
        |k: Seq<char>| exists|i: int| 0 <= i < e.len() && (#[trigger] e[i]).0 == k,
        |k: Seq<char>| e[choose|i: int| 0 <= i < e.len() && (#[trigger] e[i]).0 == k].1,
    )
}

proof fn lemma_lookup(e: Seq<(Seq<char>, Seq<AudioService>)>, i: int)
    requires
        keys_unique(e),
        0 <= i < e.len(),
    ensures
        map_of(e).contains_key(e[i].0),
        map_of(e)[e[i].0] == e[i].1,
{
    let k = e[i].0;
    assert(map_of(e).dom().contains(k));
    let j = choose|j: int| 0 <= j < e.len() && (#[trigger] e[j]).0 == k;
    assert(j == i);
}

proof fn lemma_absent(e: Seq<(Seq<char>, Seq<AudioService>)>, k: Seq<char>)
    requires
        forall|i: int| 0 <= i < e.len() ==> (#[trigger] e[i]).0 != k,
    ensures
        !map_of(e).contains_key(k),
{
}

proof fn lemma_push(e: Seq<(Seq<char>, Seq<AudioService>)>, k: Seq<char>, v: Seq<AudioService>)
    requires
        keys_unique(e),
        forall|i: int| 0 <= i < e.len() ==> (#[trigger] e[i]).0 != k,
    ensures
        keys_unique(e.push((k, v))),
        map_of(e.push((k, v))) == map_of(e).insert(k, v),
{
    let f = e.push((k, v));
    assert forall|i: int, j: int| 0 <= i < f.len() && 0 <= j < f.len() && i != j implies (#[trigger] f[i]).0
        != (#[trigger] f[j]).0 by {
        if i < e.len() && j < e.len() {
            assert(f[i] == e[i] && f[j] == e[j]);
        } else if i < e.len() {
            assert(f[i] == e[i]);
        } else {
            assert(f[j] == e[j]);
        }
    }
    assert forall|q: Seq<char>| #[trigger] map_of(f).contains_key(q) == map_of(e).insert(k, v).contains_key(q) by {
        if q == k {
            assert(f[e.len() as int].0 == k);
        } else if map_of(e).contains_key(q) {
            let i = choose|i: int| 0 <= i < e.len() && (#[trigger] e[i]).0 == q;
            assert(f[i] == e[i]);
        } else if map_of(f).contains_key(q) {
            let i = choose|i: int| 0 <= i < f.len() && (#[trigger] f[i]).0 == q;
            assert(f[i] == e[i]);
        }
    }
    assert forall|q: Seq<char>| #[trigger] map_of(f).contains_key(q) implies map_of(f)[q] == map_of(e).insert(
        k,
        v,
    )[q] by {
        if q == k {
            lemma_lookup(f, e.len() as int);
        } else {
            let i = choose|i: int| 0 <= i < f.len() && (#[trigger] f[i]).0 == q;
            assert(f[i] == e[i]);
            lemma_lookup(f, i);
            lemma_lookup(e, i);
        }
    }
    assert(map_of(f) =~= map_of(e).insert(k, v));
}

proof fn lemma_update(e: Seq<(Seq<char>, Seq<AudioService>)>, i: int, v: Seq<AudioService>)
    requires
        keys_unique(e),
        0 <= i < e.len(),
    ensures
        keys_unique(e.update(i, (e[i].0, v))),
        map_of(e.update(i, (e[i].0, v))) == map_of(e).insert(e[i].0, v),
{
    let k = e[i].0;
    let f = e.update(i, (k, v));
    assert forall|a: int, b: int| 0 <= a < f.len() && 0 <= b < f.len() && a != b implies (#[trigger] f[a]).0
        != (#[trigger] f[b]).0 by {
        assert(f[a].0 == e[a].0 && f[b].0 == e[b].0);
    }
    assert forall|q: Seq<char>| #[trigger] map_of(f).contains_key(q) == map_of(e).insert(k, v).contains_key(q) by {
        if map_of(e).contains_key(q) {
            let j = choose|j: int| 0 <= j < e.len() && (#[trigger] e[j]).0 == q;
            assert(f[j].0 == q);
        }
        if map_of(f).contains_key(q) {
            let j = choose|j: int| 0 <= j < f.len() && (#[trigger] f[j]).0 == q;
            assert(e[j].0 == q);
        }
        if q == k {
            assert(f[i].0 == q);
        }
    }
    assert forall|q: Seq<char>| #[trigger] map_of(f).contains_key(q) implies map_of(f)[q] == map_of(e).insert(
        k,
        v,
    )[q] by {
        let j = choose|j: int| 0 <= j < f.len() && (#[trigger] f[j]).0 == q;
        lemma_lookup(f, j);
        assert(e[j].0 == q);
        lemma_lookup(e, j);
    }
    assert(map_of(f) =~= map_of(e).insert(k, v));
}

proof fn lemma_remove(e: Seq<(Seq<char>, Seq<AudioService>)>, i: int)
    requires
        keys_unique(e),
        0 <= i < e.len(),
    ensures
        keys_unique(e.remove(i)),
        map_of(e.remove(i)) == map_of(e).remove(e[i].0),
{
    let k = e[i].0;
    let f = e.remove(i);
    assert forall|a: int| 0 <= a < f.len() implies #[trigger] f[a] == e[if a < i {
        a
    } else {
        a + 1
    }] by {}
    assert forall|a: int, b: int| 0 <= a < f.len() && 0 <= b < f.len() && a != b implies (#[trigger] f[a]).0
        != (#[trigger] f[b]).0 by {
        let a2 = if a < i {
            a
        } else {
            a + 1
        };
        let b2 = if b < i {
            b
        } else {
            b + 1
        };
        assert(f[a] == e[a2] && f[b] == e[b2]);
    }
    assert forall|q: Seq<char>| #[trigger] map_of(f).contains_key(q) == map_of(e).remove(k).contains_key(q) by {
        if map_of(e).contains_key(q) && q != k {
            let j = choose|j: int| 0 <= j < e.len() && (#[trigger] e[j]).0 == q;
            assert(j != i);
            let j2 = if j < i {
                j
            } else {
                j - 1
            };
            assert(f[j2] == e[j]);
        }
        if map_of(f).contains_key(q) {
            let j = choose|j: int| 0 <= j < f.len() && (#[trigger] f[j]).0 == q;
            let j2 = if j < i {
                j
            } else {
                j + 1
            };
            assert(f[j] == e[j2]);
            assert(j2 != i);
        }
    }
    assert forall|q: Seq<char>| #[trigger] map_of(f).contains_key(q) implies map_of(f)[q] == map_of(e).remove(
        k,
    )[q] by {
        let j = choose|j: int| 0 <= j < f.len() && (#[trigger] f[j]).0 == q;
        lemma_lookup(f, j);
        let j2 = if j < i {
            j
        } else {
            j + 1
        };
        assert(f[j] == e[j2]);
        lemma_lookup(e, j2);
    }
    assert(map_of(f) =~= map_of(e).remove(k));
}

impl View for ServiceState {
    type V = Map<Seq<char>, Seq<AudioService>>;

    closed spec fn view(&self) -> Map<Seq<char>, Seq<AudioService>> {
        map_of(entry_values(self.entries@))
    }
}

impl ServiceState {
    /// The state's internal invariant: no address is recorded twice.
    pub closed spec fn wf(&self) -> bool {
        keys_unique(entry_values(self.entries@))
    }

    /// The requests made of a backend so far, with their answers, in order.
    pub closed spec fn requests(&self) -> Seq<Request> {
        self.history@
    }

    /// A state with no snapshot.
    pub fn new() -> (s: Self)
        ensures
            s.wf(),
            s@ == Map::<Seq<char>, Seq<AudioService>>::empty(),
            s.requests() == Seq::<Request>::empty(),
    {
        let s = ServiceState { entries: Vec::new(), history: Ghost(Seq::empty()) };
        assert(s@ =~= Map::<Seq<char>, Seq<AudioService>>::empty());
        s
    }

    fn find(&self, address: &str) -> (r: Option<usize>)
        ensures
            match r {
                Some(i) => i < self.entries@.len() && entry_values(self.entries@)[i as int].0 == address@,
                None => forall|i: int|
                    0 <= i < self.entries@.len() ==> (#[trigger] entry_values(self.entries@)[i]).0 != address@,
            },
    {
        let mut i: usize = 0;
        while i < self.entries.len()
            invariant
                i <= self.entries@.len(),
                forall|k: int| 0 <= k < i ==> (#[trigger] entry_values(self.entries@)[k]).0 != address@,
            decreases self.entries@.len() - i,
        {
            if str_eq(self.entries[i].0.as_str(), address) {
                return Some(i);
            }
            i = i + 1;
        }
        None
    }

    /// The snapshot recorded for an address, if any.
    pub fn snapshot(&self, address: &str) -> (r: Option<Vec<AudioService>>)
        requires
            self.wf(),
        ensures
            match r {
                Some(v) => self@.contains_key(address@) && v@ == self@[address@],
                None => !self@.contains_key(address@),
            },
    {
        match self.find(address) {
            Some(i) => {
                proof {
                    lemma_lookup(entry_values(self.entries@), i as int);
                }
                Some(self.entries[i].1.clone())
            },
            None => {
                proof {
                    lemma_absent(entry_values(self.entries@), address@);
                }
                None
            },
        }
    }

    /// Whether no snapshot is recorded.
    pub fn is_empty(&self) -> (r: bool)
        ensures
            r == (self@.dom() == Set::<Seq<char>>::empty()),
    {
        let r = self.entries.len() == 0;
        if r {
            assert(self@.dom() =~= Set::<Seq<char>>::empty());
        } else {
            let ghost k = entry_values(self.entries@)[0].0;
            assert(self@.dom().contains(k));
        }
        r
    }

    /// Records the services found enabled for an address before they are
    /// switched off: each one the snapshot does not hold yet is appended, so
    /// what was recorded first is never overwritten.
    pub fn record(&mut self, address: &str, enabled: &[AudioService])
        requires
            old(self).wf(),
        ensures
            final(self).wf(),
            final(self)@ == old(self)@.insert(address@, merge_spec(snapshot_of(old(self)@, address@), enabled@)),
            final(self).requests() == old(self).requests(),
    {
        let (idx, mut snap) = match self.find(address) {
            Some(i) => {
                proof {
                    lemma_lookup(entry_values(self.entries@), i as int);
                }
                (Some(i), self.entries[i].1.clone())
            },
            None => {
                proof {
                    lemma_absent(entry_values(self.entries@), address@);
                }
                (None, Vec::new())
            },
        };
        assert(snap@ == snapshot_of(self@, address@));
        let ghost base = snap@;
        let mut j: usize = 0;
        while j < enabled.len()
            invariant
                j <= enabled@.len(),
                snap@ == merge_spec(base, enabled@.take(j as int)),
            decreases enabled@.len() - j,
        {
            let service = enabled[j];
            assert(enabled@.take(j + 1).drop_last() =~= enabled@.take(j as int));
            let mut present = false;
            let mut k: usize = 0;
            while k < snap.len()
                invariant
                    k <= snap@.len(),
                    present == exists|q: int| 0 <= q < k && snap@[q] == service,
                decreases snap@.len() - k,
            {
                if snap[k] == service {
                    present = true;
                }
                k = k + 1;
            }
            if !present {
                snap.push(service);
            }
            j = j + 1;
        }
        assert(enabled@.take(j as int) =~= enabled@);
        let ghost ev = entry_values(self.entries@);
        match idx {
            Some(i) => {
                let name = self.entries[i].0.clone();
                self.entries.set(i, (name, snap));
                proof {
                    lemma_update(ev, i as int, merge_spec(base, enabled@));
                    assert(entry_values(self.entries@) =~= ev.update(i as int, (ev[i as int].0, merge_spec(base, enabled@))));
                }
            },
            None => {
                self.entries.push((address.to_owned(), snap));
                proof {
                    lemma_push(ev, address@, merge_spec(base, enabled@));
                    assert(entry_values(self.entries@) =~= ev.push((address@, merge_spec(base, enabled@))));
                }
            },
        }
    }

    /// The services `restore` switches back on for an address.
    pub fn restore_targets(&self, address: &str, connect: bool) -> (r: Option<Vec<AudioService>>)
        requires
            self.wf(),
        ensures
            match restore_targets_spec(self@, address@, connect) {
                Some(s) => (r matches Some(v) && v@ == s),
                None => r is None,
            },
    {
        match self.snapshot(address) {
            Some(v) => Some(v),
            None => if connect {
                let v = vec![AudioService::A2dp];
                assert(v@ =~= seq![AudioService::A2dp]);
                Some(v)
            } else {
                None
            },
        }
    }

    /// Drops the snapshot of an address.
    pub fn forget(&mut self, address: &str)
        requires
            old(self).wf(),
        ensures
            final(self).wf(),
            final(self)@ == old(self)@.remove(address@),
            final(self).requests() == old(self).requests(),
    {
        match self.find(address) {
            Some(i) => {
                let ghost ev = entry_values(self.entries@);
                self.entries.remove(i);
                proof {
                    lemma_remove(ev, i as int);
                    assert(entry_values(self.entries@) =~= ev.remove(i as int));
                }
            },
            None => {
                proof {
                    lemma_absent(entry_values(self.entries@), address@);
                    assert(self@ =~= self@.remove(address@));
                }
            },
        }
    }

    /// Switches a device's audio services off. It asks the backend which
    /// services are on; where that fails, nothing changes and the failure is
    /// returned. Otherwise it first records them in the snapshot, then asks
    /// the backend to switch each one off, in order, going on past failures:
    /// the result is `Ok` where every switch succeeded, else the last failure
    /// (the snapshot stays for a later restore either way).
    pub fn disconnect<B: ServiceControl>(&mut self, backend: &B, address: &str) -> (r: Result<(), String>)
        requires
            old(self).wf(),
        ensures
            final(self).wf(),
            extends(old(self).requests(), final(self).requests()),
            final(self).requests().len() > old(self).requests().len(),
            ({
                let n = old(self).requests().len() as int;
                match final(self).requests()[n] {
                    Request::Enabled { address: a, answer } => a == address@ && match answer {
                        Err(e) => step_view(r) == Err::<(), Seq<char>>(e) && final(self)@ == old(self)@
                            && final(self).requests().len() == n + 1,
                        Ok(on) => {
                            let sets = final(self).requests().skip(n + 1);
                            &&& final(self)@ == old(self)@.insert(
                                address@,
                                merge_spec(snapshot_of(old(self)@, address@), on),
                            )
                            &&& sets_for(sets, address@, on, false)
                            &&& step_view(r) == last_failure_spec(set_answers(sets))
                        },
                    },
                    Request::Switch { .. } => false,
                }
            }),
    {
        let ghost n = self.history@.len();
        let answer = backend.enabled(address);
        let ghost got = match &answer {
            Ok(v) => Ok::<Seq<AudioService>, Seq<char>>(v@),
            Err(e) => Err::<Seq<AudioService>, Seq<char>>(e@),
        };
        self.history = Ghost(self.history@.push(Request::Enabled { address: address@, answer: got }));
        assert(self.history@.take(n as int) =~= old(self).requests());
        let enabled = match answer {
            Ok(v) => v,
            Err(e) => return Err(e),
        };
        self.record(address, enabled.as_slice());
        let ghost mid = self.history@;
        let r = set_services(backend, address, enabled.as_slice(), false, &mut self.history);
        proof {
            assert(self.history@.take(n as int) =~= mid.take(n as int));
            assert(mid.take(n as int) =~= old(self).requests());
            assert(self.history@.skip(n + 1 as int) =~= self.history@.skip(mid.len() as int));
            assert(self.history@[n as int] == mid[n as int]);
            assert(mid[n as int] == Request::Enabled { address: address@, answer: got });
        }
        r
    }

    /// Switches back on the services recorded for an address (A2DP alone
    /// where nothing is recorded and `connect` is set; nothing at all where
    /// neither holds): one request per service, in order, going on past
    /// failures. The result is `Ok` where every switch succeeded, and the
    /// snapshot is then dropped; else the last failure, and the snapshot
    /// stays for a retry.
    pub fn restore<B: ServiceControl>(&mut self, backend: &B, address: &str, connect: bool) -> (r: Result<
        (),
        String,
    >)
        requires
            old(self).wf(),
        ensures
            final(self).wf(),
            extends(old(self).requests(), final(self).requests()),
            match restore_targets_spec(old(self)@, address@, connect) {
                None => r is Ok && final(self)@ == old(self)@ && final(self).requests() == old(self).requests(),
                Some(targets) => {
                    let sets = final(self).requests().skip(old(self).requests().len() as int);
                    &&& sets_for(sets, address@, targets, true)
                    &&& step_view(r) == last_failure_spec(set_answers(sets))
                    &&& r is Ok ==> final(self)@ == old(self)@.remove(address@)
                    &&& r is Err ==> final(self)@ == old(self)@
                },
            },
    {
        let services = match self.restore_targets(address, connect) {
            Some(v) => v,
            None => {
                assert(!self@.contains_key(address@));
                assert(self@ =~= self@.remove(address@));
                assert(self.history@.take(self.history@.len() as int) =~= self.history@);
                return Ok(());
            },
        };
        let ghost before = self.history@;
        match set_services(backend, address, services.as_slice(), true, &mut self.history) {
            Ok(()) => {},
            Err(e) => {
                assert(self.history@.take(before.len() as int) =~= before);
                return Err(e);
            },
        }
        assert(self.history@.take(before.len() as int) =~= before);
        self.forget(address);
        Ok(())
    }
}

impl Default for ServiceState {
    fn default() -> (s: Self)
        ensures
            s.wf(),
            s@ == Map::<Seq<char>, Seq<AudioService>>::empty(),
            s.requests() == Seq::<Request>::empty(),
    {
        ServiceState::new()
    }
}

/// Switches each service on or off, one request per service in order,
/// going on past failures; `Ok` where every request succeeded, else the last
/// failure. The requests and their answers are appended to `history`.
fn set_services<B: ServiceControl>(
    backend: &B,
    address: &str,
    services: &[AudioService],
    enable: bool,
    history: &mut Ghost<Seq<Request>>,
) -> (r: Result<(), String>)
    ensures
        extends(old(history)@, final(history)@),
        sets_for(final(history)@.skip(old(history)@.len() as int), address@, services@, enable),
        step_view(r) == last_failure_spec(set_answers(final(history)@.skip(old(history)@.len() as int))),
{
    let ghost start = history@;
    let mut outcomes: Vec<Result<(), String>> = Vec::new();
    let mut i: usize = 0;
    assert(history@.take(start.len() as int) =~= start);
    assert(history@.skip(start.len() as int) =~= Seq::<Request>::empty());
    assert(set_answers(history@.skip(start.len() as int)) =~= steps_view(outcomes@));
    while i < services.len()
        invariant
            i <= services@.len(),
            outcomes@.len() == i,
            extends(start, history@),
            history@.len() == start.len() + i,
            sets_for(history@.skip(start.len() as int), address@, services@.take(i as int), enable),
            set_answers(history@.skip(start.len() as int)) == steps_view(outcomes@),
        decreases services@.len() - i,
    {
        let service = services[i];
        let answer = backend.set(address, service, enable);
        let ghost got = step_view(answer);
        let ghost prev = history@;
        let ghost prev_out = outcomes@;
        *history = Ghost(history@.push(Request::Switch { address: address@, service, enable, answer: got }));
        outcomes.push(answer);
        proof {
            let new = history@.skip(start.len() as int);
            assert(new =~= prev.skip(start.len() as int).push(
                Request::Switch { address: address@, service, enable, answer: got },
            ));
            assert(history@.take(start.len() as int) =~= prev.take(start.len() as int));
            assert(services@.take(i + 1) =~= services@.take(i as int).push(service));
            assert(outcomes@ =~= prev_out.push(answer));
            assert(steps_view(outcomes@) =~= steps_view(prev_out).push(got));
            assert(set_answers(new) =~= set_answers(prev.skip(start.len() as int)).push(got));
        }
        i = i + 1;
    }
    assert(services@.take(i as int) =~= services@);
    last_failure(outcomes.as_slice())
}

proof fn lemma_merge_covers(snap: Seq<AudioService>, enabled: Seq<AudioService>)
    ensures
        forall|s: AudioService| snap.contains(s) ==> merge_spec(snap, enabled).contains(s),
        forall|s: AudioService| enabled.contains(s) ==> merge_spec(snap, enabled).contains(s),
    decreases enabled.len(),
{
    if enabled.len() > 0 {
        lemma_merge_covers(snap, enabled.drop_last());
        let m = merge_spec(snap, enabled.drop_last());
        let n = merge_spec(snap, enabled);
        assert forall|s: AudioService| m.contains(s) implies n.contains(s) by {
            if !m.contains(enabled.last()) {
                let j = choose|j: int| 0 <= j < m.len() && m[j] == s;
                assert(n[j] == s);
            }
        }
        assert(n.contains(enabled.last())) by {
            if !m.contains(enabled.last()) {
                assert(n[m.len() as int] == enabled.last());
            }
        }
        assert forall|s: AudioService| enabled.contains(s) implies n.contains(s) by {
            if s != enabled.last() {
                let i = choose|i: int| 0 <= i < enabled.len() && enabled[i] == s;
                assert(enabled.drop_last()[i] == s);
                assert(enabled.drop_last().contains(s));
                assert(m.contains(s));
            }
        }
    }
}

proof fn lemma_merge_contained(m: Seq<AudioService>, enabled: Seq<AudioService>)
    requires
        forall|s: AudioService| enabled.contains(s) ==> m.contains(s),
    ensures
        merge_spec(m, enabled) == m,
    decreases enabled.len(),
{
    if enabled.len() > 0 {
        assert forall|s: AudioService| enabled.drop_last().contains(s) implies m.contains(s) by {
            let i = choose|i: int| 0 <= i < enabled.drop_last().len() && enabled.drop_last()[i] == s;
            assert(enabled[i] == s);
        }
        lemma_merge_contained(m, enabled.drop_last());
        assert(enabled[enabled.len() - 1] == enabled.last());
    }
}

/// Law: the snapshot only grows. What was recorded stays in front, in
/// order, no service is recorded twice, and every service found enabled is
/// in it.
pub proof fn law_snapshot_kept(snap: Seq<AudioService>, enabled: Seq<AudioService>)
    requires
        snap.no_duplicates(),
    ensures
        merge_spec(snap, enabled).len() >= snap.len(),
        merge_spec(snap, enabled).take(snap.len() as int) == snap,
        merge_spec(snap, enabled).no_duplicates(),
        forall|s: AudioService| enabled.contains(s) ==> merge_spec(snap, enabled).contains(s),
    decreases enabled.len(),
{
    lemma_merge_covers(snap, enabled);
    if enabled.len() == 0 {
        assert(snap.take(snap.len() as int) =~= snap);
    } else {
        law_snapshot_kept(snap, enabled.drop_last());
        let m = merge_spec(snap, enabled.drop_last());
        if !m.contains(enabled.last()) {
            assert(m.push(enabled.last()).take(snap.len() as int) =~= m.take(snap.len() as int));
            let n = m.push(enabled.last());
            assert forall|a: int, b: int| 0 <= a < n.len() && 0 <= b < n.len() && a != b implies n[a] != n[b] by {
                if a == m.len() {
                    assert(n[b] == m[b]);
                } else if b == m.len() {
                    assert(n[a] == m[a]);
                } else {
                    assert(n[a] == m[a] && n[b] == m[b]);
                }
            }
        }
    }
}

/// Law: recording the same services again changes nothing, so a repeated
/// disconnect keeps the first snapshot.
pub proof fn law_record_idempotent(snap: Seq<AudioService>, enabled: Seq<AudioService>)
    ensures
        merge_spec(merge_spec(snap, enabled), enabled) == merge_spec(snap, enabled),
{
    lemma_merge_covers(snap, enabled);
    lemma_merge_contained(merge_spec(snap, enabled), enabled);
}

/// The result of a release that switched the services off and dropped the
/// ACL link: the one failure where one step failed, both messages joined
/// where both did.
pub open spec fn release_result_spec(disable: Result<(), Seq<char>>, acl: Result<(), Seq<char>>) -> Result<
    (),
    Seq<char>,
> {
    match (disable, acl) {
        (Ok(()), Ok(())) => Ok(()),
        (Err(e), Ok(())) => Err(e),
        (Ok(()), Err(e)) => Err(e),
        (Err(a), Err(b)) => Err("关闭音频服务失败: "@ + a + "; 断开 ACL 失败: "@ + b),
    }
}

/// Combines the two steps of a release into one result.
pub fn release_result(disable: Result<(), String>, acl: Result<(), String>) -> (r: Result<(), String>)
    ensures
        step_view(r) == release_result_spec(step_view(disable), step_view(acl)),
{
    match (disable, acl) {
        (Ok(()), Ok(())) => Ok(()),
        (Err(e), Ok(())) => Err(e),
        (Ok(()), Err(e)) => Err(e),
        (Err(a), Err(b)) => {
            let mut m = String::new();
            push_str(&mut m, "关闭音频服务失败: ");
            push_str(&mut m, a.as_str());
            push_str(&mut m, "; 断开 ACL 失败: ");
            push_str(&mut m, b.as_str());
            Err(m)
        },
    }
}

/// Law: snapshots recorded by repeated disconnects add up: recording `a`
/// and then `b` is recording `a` followed by `b`, so the snapshot is the
/// union of every answer in first-seen order.
pub proof fn law_merge_concat(snap: Seq<AudioService>, a: Seq<AudioService>, b: Seq<AudioService>)
    ensures
        merge_spec(merge_spec(snap, a), b) == merge_spec(snap, a + b),
    decreases b.len(),
{
    if b.len() == 0 {
        assert(a + b =~= a);
    } else {
        law_merge_concat(snap, a, b.drop_last());
        assert((a + b).drop_last() =~= a + b.drop_last());
        assert((a + b).last() == b.last());
    }
}

/// Law: after a disconnect whose backend answered `on`, a restore switches
/// back on the merged snapshot (earlier snapshot first, then what `on` adds),
/// whatever `connect` says; once that restore has succeeded and dropped the
/// snapshot, a restore without `connect` asks for nothing, and one with
/// `connect` asks for A2DP alone.
pub proof fn law_restore_after_disconnect(
    m: Map<Seq<char>, Seq<AudioService>>,
    address: Seq<char>,
    on: Seq<AudioService>,
    connect: bool,
)
    ensures
        ({
            let snap = merge_spec(snapshot_of(m, address), on);
            let after = m.insert(address, snap);
            &&& restore_targets_spec(after, address, connect) == Some(snap)
            &&& restore_targets_spec(after.remove(address), address, false) is None
            &&& restore_targets_spec(after.remove(address), address, true) == Some(seq![AudioService::A2dp])
        }),
{
}

} // verus!
