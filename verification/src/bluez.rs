use vstd::prelude::*;

use crate::audio::AudioState;
use crate::text::{chars_of, eq_ignore_ascii_case, lower_chars, push_str, str_eq};
use crate::transport_audio::{audio_state, holds_a2dp, is_a2dp_uuid, is_configured_state, Transport};

verus! {

/// The `org.bluez.Device1` properties the audio logic reads.
#[derive(Debug, Clone, PartialEq, Eq)]
pub struct DeviceProps {
    /// `Address`, where it is a string.
    pub address: Option<String>,
    /// `Connected`, where it is a boolean.
    pub connected: Option<bool>,
}

/// The `org.bluez.MediaTransport1` properties the audio logic reads.
#[derive(Debug, Clone, PartialEq, Eq)]
pub struct TransportProps {
    /// `Device`, the object path of the owning device, where it is a string.
    pub device: Option<String>,
    /// `UUID`, where it is a string.
    pub uuid: Option<String>,
    /// `State`, where it is a string.
    pub state: Option<String>,
}

/// One object of BlueZ's object tree, with the interfaces the audio logic
/// reads.
#[derive(Debug, Clone, PartialEq, Eq)]
pub struct BusObject {
    pub path: String,
    pub device: Option<DeviceProps>,
    pub transport: Option<TransportProps>,
}

/// The object tree is a map: no path occurs twice.
pub open spec fn paths_distinct(objects: Seq<BusObject>) -> bool {
    forall|i: int, j: int|
        0 <= i < objects.len() && 0 <= j < objects.len() && i != j ==> (#[trigger] objects[i]).path@ != (
        #[trigger] objects[j]).path@
}

/// Strict lexicographic order of character sequences (the order of object
/// paths: UTF-8 keeps the order of code points).
pub open spec fn lex_lt(a: Seq<char>, b: Seq<char>) -> bool
    decreases a.len(),
{
    if a.len() == 0 {
        b.len() > 0
    } else if b.len() == 0 {
        false
    } else if a[0] != b[0] {
        a[0] < b[0]
    } else {
        lex_lt(a.drop_first(), b.drop_first())
    }
}

proof fn lemma_lex_irreflexive(a: Seq<char>)
    ensures
        !lex_lt(a, a),
    decreases a.len(),
{
    if a.len() > 0 {
        lemma_lex_irreflexive(a.drop_first());
    }
}

proof fn lemma_lex_trans(a: Seq<char>, b: Seq<char>, c: Seq<char>)
    requires
        lex_lt(a, b),
        lex_lt(b, c),
    ensures
        lex_lt(a, c),
    decreases a.len(),
{
    if a.len() > 0 && b.len() > 0 && c.len() > 0 && a[0] == b[0] && b[0] == c[0] {
        lemma_lex_trans(a.drop_first(), b.drop_first(), c.drop_first());
    }
}

proof fn lemma_lex_total(a: Seq<char>, b: Seq<char>)
    requires
        a != b,
    ensures
        lex_lt(a, b) || lex_lt(b, a),
    decreases a.len(),
{
    if a.len() == 0 {
        if b.len() == 0 {
            assert(a =~= b);
        }
    } else if b.len() > 0 && a[0] == b[0] {
        if a.drop_first() == b.drop_first() {
            assert(a =~= seq![a[0]] + a.drop_first());
            assert(b =~= seq![b[0]] + b.drop_first());
        }
        lemma_lex_total(a.drop_first(), b.drop_first());
    }
}

/// Whether `a` comes before `b` in path order.
fn lex_less(a: &str, b: &str) -> (r: bool)
    ensures
        r == lex_lt(a@, b@),
{
    let x = chars_of(a);
    let y = chars_of(b);
    let mut i: usize = 0;
    assert(x@.skip(0) =~= x@);
    assert(y@.skip(0) =~= y@);
    while i < x.len() && i < y.len() && x[i] == y[i]
        invariant
            x@ == a@,
            y@ == b@,
            i <= x@.len(),
            i <= y@.len(),
            lex_lt(a@, b@) == lex_lt(x@.skip(i as int), y@.skip(i as int)),
        decreases x@.len() - i,
    {
        assert(x@.skip(i as int).drop_first() =~= x@.skip(i + 1));
        assert(y@.skip(i as int).drop_first() =~= y@.skip(i + 1));
        i = i + 1;
    }
    if i == x.len() {
        i < y.len()
    } else if i == y.len() {
        false
    } else {
        let c: char = x[i];
        let d: char = y[i];
        c < d
    }
}

/// Whether the object is a device whose address equals `address` up to
/// ASCII case.
pub open spec fn is_device_of(o: BusObject, address: Seq<char>) -> bool {
    o.device matches Some(d) && (d.address matches Some(a) && lower_chars(a@) == lower_chars(address))
}

/// The texts of a list of strings.
pub open spec fn texts(v: Seq<String>) -> Seq<Seq<char>> {
    v.map_values(|s: String| s@)
}

/// Strictly increasing in path order.
pub open spec fn sorted_strict(v: Seq<Seq<char>>) -> bool {
    forall|a: int, b: int| 0 <= a < b < v.len() ==> lex_lt(#[trigger] v[a], #[trigger] v[b])
}

/// Message for an address that no device object has.
pub open spec fn no_device_message(address: Seq<char>) -> Seq<char> {
    "BlueZ 没有设备 "@ + address
}

/// The object paths of the devices with the given address (up to ASCII
/// case), in path order; fails when there is none.
pub fn device_paths(objects: &[BusObject], address: &str) -> (r: Result<Vec<String>, String>)
    requires
        paths_distinct(objects@),
    ensures
        match r {
            Ok(v) => v@.len() > 0 && sorted_strict(texts(v@)) && forall|s: Seq<char>|
                texts(v@).contains(s) <==> exists|i: int|
                    0 <= i < objects@.len() && is_device_of(#[trigger] objects@[i], address@) && objects@[i].path@
                        == s,
            Err(m) => (forall|i: int| 0 <= i < objects@.len() ==> !is_device_of(#[trigger] objects@[i], address@))
                && m@ == no_device_message(address@),
        },
{
    let mut v: Vec<String> = Vec::new();
    let mut i: usize = 0;
    while i < objects.len()
        invariant
            i <= objects@.len(),
            paths_distinct(objects@),
            sorted_strict(texts(v@)),
            forall|s: Seq<char>|
                texts(v@).contains(s) <==> exists|j: int|
                    0 <= j < i && is_device_of(#[trigger] objects@[j], address@) && objects@[j].path@ == s,
        decreases objects@.len() - i,
    {
        let o = &objects[i];
        let mut matched = false;
        if let Some(d) = &o.device {
            if let Some(a) = &d.address {
                matched = eq_ignore_ascii_case(a.as_str(), address);
            }
        }
        assert(matched == is_device_of(objects@[i as int], address@));
        let ghost old_t = texts(v@);
        if matched {
            let p = o.path.as_str();
            assert forall|m: int| 0 <= m < old_t.len() implies old_t[m] != p@ by {
                assert(old_t.contains(old_t[m]));
                let j = choose|j: int|
                    0 <= j < i && is_device_of(#[trigger] objects@[j], address@) && objects@[j].path@ == old_t[m];
                assert(objects@[j].path@ != objects@[i as int].path@);
            }
            let mut k: usize = 0;
            while k < v.len() && !lex_less(p, v[k].as_str())
                invariant
                    k <= v@.len(),
                    old_t == texts(v@),
                    forall|m: int| 0 <= m < k ==> !lex_lt(p@, #[trigger] old_t[m]),
                decreases v@.len() - k,
            {
                k = k + 1;
            }
            proof {
                assert forall|m: int| 0 <= m < k implies lex_lt(#[trigger] old_t[m], p@) by {
                    lemma_lex_total(old_t[m], p@);
                }
                if k < old_t.len() {
                    assert forall|m: int| k <= m < old_t.len() implies lex_lt(p@, #[trigger] old_t[m]) by {
                        if m > k {
                            lemma_lex_trans(p@, old_t[k as int], old_t[m]);
                        }
                    }
                }
            }
            v.insert(k, o.path.clone());
            proof {
                let t = texts(v@);
                assert(t =~= old_t.insert(k as int, p@));
                assert forall|a: int, b: int| 0 <= a < b < t.len() implies lex_lt(#[trigger] t[a], #[trigger] t[b]) by {
                    if a < k && b < k {
                        assert(t[a] == old_t[a] && t[b] == old_t[b]);
                    } else if a < k && b == k {
                        assert(t[a] == old_t[a]);
                    } else if a < k {
                        assert(t[a] == old_t[a] && t[b] == old_t[b - 1]);
                        assert(lex_lt(old_t[a], p@));
                        assert(lex_lt(p@, old_t[b - 1]));
                        lemma_lex_trans(old_t[a], p@, old_t[b - 1]);
                    } else if a == k {
                        assert(t[b] == old_t[b - 1]);
                    } else {
                        assert(t[a] == old_t[a - 1] && t[b] == old_t[b - 1]);
                    }
                }
                assert forall|s: Seq<char>| t.contains(s) <==> exists|j: int|
                    0 <= j < i + 1 && is_device_of(#[trigger] objects@[j], address@) && objects@[j].path@ == s by {
                    if t.contains(s) {
                        let m = choose|m: int| 0 <= m < t.len() && t[m] == s;
                        if m == k {
                            assert(is_device_of(objects@[i as int], address@) && objects@[i as int].path@ == s);
                        } else {
                            let m2 = if m < k {
                                m
                            } else {
                                m - 1
                            };
                            assert(old_t[m2] == s);
                            assert(old_t.contains(s));
                        }
                    }
                    if exists|j: int|
                        0 <= j < i + 1 && is_device_of(#[trigger] objects@[j], address@) && objects@[j].path@ == s {
                        let j = choose|j: int|
                            0 <= j < i + 1 && is_device_of(#[trigger] objects@[j], address@) && objects@[j].path@
                                == s;
                        if j == i {
                            assert(t[k as int] == s);
                        } else {
                            assert(old_t.contains(s));
                            let m = choose|m: int| 0 <= m < old_t.len() && old_t[m] == s;
                            if m < k {
                                assert(t[m] == s);
                            } else {
                                assert(t[m + 1] == s);
                            }
                        }
                    }
                }
            }
        } else {
            assert forall|s: Seq<char>| texts(v@).contains(s) <==> exists|j: int|
                0 <= j < i + 1 && is_device_of(#[trigger] objects@[j], address@) && objects@[j].path@ == s by {
                if exists|j: int|
                    0 <= j < i + 1 && is_device_of(#[trigger] objects@[j], address@) && objects@[j].path@ == s {
                    let j = choose|j: int|
                        0 <= j < i + 1 && is_device_of(#[trigger] objects@[j], address@) && objects@[j].path@ == s;
                    assert(j != i);
                }
            }
        }
        i = i + 1;
    }
    if v.len() == 0 {
        assert forall|i: int| 0 <= i < objects@.len() implies !is_device_of(#[trigger] objects@[i], address@) by {
            if is_device_of(objects@[i], address@) {
                assert(texts(v@).contains(objects@[i].path@));
            }
        }
        let mut m = String::new();
        push_str(&mut m, "BlueZ 没有设备 ");
        push_str(&mut m, address);
        return Err(m);
    }
    Ok(v)
}

/// Whether `s` starts with `prefix`.
pub open spec fn has_prefix(s: Seq<char>, prefix: Seq<char>) -> bool {
    prefix.len() <= s.len() && s.take(prefix.len() as int) == prefix
}

fn starts_with(s: &str, prefix: &str) -> (r: bool)
    ensures
        r == has_prefix(s@, prefix@),
{
    let x = chars_of(s);
    let y = chars_of(prefix);
    if y.len() > x.len() {
        return false;
    }
    let mut i: usize = 0;
    while i < y.len()
        invariant
            x@ == s@,
            y@ == prefix@,
            y@.len() <= x@.len(),
            i <= y@.len(),
            x@.take(i as int) == y@.take(i as int),
        decreases y@.len() - i,
    {
        let c: char = x[i];
        let d: char = y[i];
        if c != d {
            assert(x@.take(y@.len() as int)[i as int] != y@[i as int]);
            return false;
        }
        assert(x@.take(i + 1) =~= x@.take(i as int).push(c));
        assert(y@.take(i + 1) =~= y@.take(i as int).push(d));
        i = i + 1;
    }
    assert(y@.take(i as int) =~= y@);
    true
}

/// Whether the object is a media transport of one of `devices` (by its
/// `Device` property) in a configured A2DP state.
pub open spec fn shows_a2dp(o: BusObject, devices: Seq<Seq<char>>) -> bool {
    o.transport matches Some(t) && (t.device matches Some(d) && devices.contains(d@)) && (t.uuid matches Some(u)
        && is_a2dp_uuid(u@)) && (t.state matches Some(st) && is_configured_state(st@))
}

/// Whether the device object at `path` reports its ACL link down.
pub open spec fn acl_down(objects: Seq<BusObject>, path: Seq<char>) -> bool {
    exists|j: int|
        0 <= j < objects.len() && (#[trigger] objects[j]).path@ == path && (objects[j].device matches Some(d)
            && d.connected == Some(false))
}

/// The audio state of the devices at `devices`: connected while one of their
/// transports is a configured A2DP link; otherwise disconnected only when
/// every one of them reports its ACL link down.
pub open spec fn observe_spec(objects: Seq<BusObject>, devices: Seq<Seq<char>>) -> AudioState {
    if exists|i: int| 0 <= i < objects.len() && shows_a2dp(#[trigger] objects[i], devices) {
        AudioState::Connected
    } else if forall|k: int| 0 <= k < devices.len() ==> acl_down(objects, #[trigger] devices[k]) {
        AudioState::Disconnected
    } else {
        AudioState::Unknown
    }
}

fn contains_text(v: &[String], s: &str) -> (r: bool)
    ensures
        r == texts(v@).contains(s@),
{
    let mut i: usize = 0;
    while i < v.len()
        invariant
            i <= v@.len(),
            forall|k: int| 0 <= k < i ==> (#[trigger] v@[k])@ != s@,
        decreases v@.len() - i,
    {
        if str_eq(v[i].as_str(), s) {
            assert(texts(v@)[i as int] == s@);
            return true;
        }
        i = i + 1;
    }
    proof {
        if texts(v@).contains(s@) {
            let k = choose|k: int| 0 <= k < texts(v@).len() && texts(v@)[k] == s@;
            assert(v@[k]@ == s@);
        }
    }
    false
}

fn is_acl_down(objects: &[BusObject], path: &str) -> (r: bool)
    requires
        paths_distinct(objects@),
    ensures
        r == acl_down(objects@, path@),
{
    let mut j: usize = 0;
    while j < objects.len()
        invariant
            j <= objects@.len(),
            paths_distinct(objects@),
            forall|k: int| 0 <= k < j ==> (#[trigger] objects@[k]).path@ != path@,
        decreases objects@.len() - j,
    {
        if str_eq(objects[j].path.as_str(), path) {
            let r = match &objects[j].device {
                Some(d) => match d.connected {
                    Some(c) => !c,
                    None => false,
                },
                None => false,
            };
            proof {
                if acl_down(objects@, path@) {
                    let q = choose|q: int|
                        0 <= q < objects@.len() && (#[trigger] objects@[q]).path@ == path@ && (
                        objects@[q].device matches Some(d) && d.connected == Some(false));
                    assert(objects@[j as int].path@ == path@);
                    if q != j {
                        assert(objects@[q].path@ != objects@[j as int].path@);
                    }
                }
            }
            return r;
        }
        j = j + 1;
    }
    false
}

/// The audio state BlueZ's object tree shows for the devices at `devices`:
/// their A2DP media transports decide it (see `transport_audio`), and a
/// transport that lacks its `Device` property counts, without UUID and state,
/// where its path lies under one of the devices.
pub fn observe(objects: &[BusObject], devices: &[String]) -> (r: AudioState)
    requires
        paths_distinct(objects@),
    ensures
        r == observe_spec(objects@, texts(devices@)),
{
    let ghost devs = texts(devices@);
    let mut transports: Vec<Transport> = Vec::new();
    let mut i: usize = 0;
    while i < objects.len()
        invariant
            i <= objects@.len(),
            devs == texts(devices@),
            (exists|k: int| 0 <= k < transports@.len() && holds_a2dp(#[trigger] transports@[k])) <==> exists|j: int|
                0 <= j < i && shows_a2dp(#[trigger] objects@[j], devs),
        decreases objects@.len() - i,
    {
        let ghost before = transports@;
        let o = &objects[i];
        if let Some(t) = &o.transport {
            match &t.device {
                None => {
                    let mut k: usize = 0;
                    let mut under = false;
                    while k < devices.len() && !under
                        invariant
                            k <= devices@.len(),
                        decreases devices@.len() - k,
                    {
                        let mut prefix = String::new();
                        push_str(&mut prefix, devices[k].as_str());
                        push_str(&mut prefix, "/");
                        under = starts_with(o.path.as_str(), prefix.as_str());
                        k = k + 1;
                    }
                    if under {
                        transports.push(Transport { uuid: None, state: None });
                    }
                },
                Some(dev) => {
                    if contains_text(devices, dev.as_str()) {
                        let uuid = match &t.uuid {
                            Some(u) => Some(u.as_str()),
                            None => None,
                        };
                        let state = match &t.state {
                            Some(st) => Some(st.as_str()),
                            None => None,
                        };
                        transports.push(Transport { uuid, state });
                    }
                },
            }
        }
        proof {
            assert forall|k: int| 0 <= k < before.len() implies transports@[k] == before[k] by {}
            if transports@.len() > before.len() {
                assert(transports@.len() == before.len() + 1);
                let last = transports@[before.len() as int];
                assert(holds_a2dp(last) == shows_a2dp(objects@[i as int], devs));
            } else {
                assert(!shows_a2dp(objects@[i as int], devs));
            }
            if exists|j: int| 0 <= j < i + 1 && shows_a2dp(#[trigger] objects@[j], devs) {
                let j = choose|j: int| 0 <= j < i + 1 && shows_a2dp(#[trigger] objects@[j], devs);
                if j < i {
                    let k = choose|k: int| 0 <= k < before.len() && holds_a2dp(#[trigger] before[k]);
                    assert(transports@[k] == before[k]);
                } else {
                    assert(holds_a2dp(transports@[before.len() as int]));
                }
            }
            if exists|k: int| 0 <= k < transports@.len() && holds_a2dp(#[trigger] transports@[k]) {
                let k = choose|k: int| 0 <= k < transports@.len() && holds_a2dp(#[trigger] transports@[k]);
                if k < before.len() {
                    assert(before[k] == transports@[k]);
                } else {
                    assert(shows_a2dp(objects@[i as int], devs));
                }
            }
        }
        i = i + 1;
    }
    let mut all_down = true;
    let mut k: usize = 0;
    while k < devices.len()
        invariant
            k <= devices@.len(),
            paths_distinct(objects@),
            devs == texts(devices@),
            all_down == forall|m: int| 0 <= m < k ==> acl_down(objects@, #[trigger] devs[m]),
        decreases devices@.len() - k,
    {
        let down = is_acl_down(objects, devices[k].as_str());
        assert(devs[k as int] == devices@[k as int]@);
        all_down = all_down && down;
        k = k + 1;
    }
    audio_state(transports.as_slice(), all_down)
}

/// The D-Bus method that asks for the audio link: `ConnectProfile` (with the
/// A2DP sink UUID) to connect, `Disconnect` to release the whole device.
pub open spec fn request_method_spec(connect: bool) -> Seq<char> {
    if connect {
        "ConnectProfile"@
    } else {
        "Disconnect"@
    }
}

/// The D-Bus method that asks for the audio link.
pub fn request_method(connect: bool) -> (s: &'static str)
    ensures
        s@ == request_method_spec(connect),
{
    if connect {
        "ConnectProfile"
    } else {
        "Disconnect"
    }
}

/// Whether the devices already are where a request wants them, so that no
/// request is sent.
pub fn already_settled(state: AudioState, connect: bool) -> (r: bool)
    ensures
        r == ((connect && state == AudioState::Connected) || (!connect && state == AudioState::Disconnected)),
{
    (connect && state == AudioState::Connected) || (!connect && state == AudioState::Disconnected)
}

/// The answer to one request sent to a device object.
#[derive(Debug, Clone, PartialEq, Eq)]
pub enum CallOutcome {
    Done,
    /// Failed; `not_connected` where BlueZ names the error
    /// `org.bluez.Error.NotConnected`.
    Failed { not_connected: bool, message: String },
}

/// The result of the requests, given the answers in path order: a connect
/// succeeds at the first device that accepts; otherwise the last failure
/// counts, and a release ignores devices that were not connected.
pub open spec fn request_result_spec(connect: bool, outcomes: Seq<CallOutcome>, failure: Option<Seq<char>>) -> Option<
    Seq<char>,
>
    decreases outcomes.len(),
{
    if outcomes.len() == 0 {
        failure
    } else {
        match outcomes[0] {
            CallOutcome::Done => if connect {
                None
            } else {
                request_result_spec(connect, outcomes.drop_first(), failure)
            },
            CallOutcome::Failed { not_connected, message } => if !connect && not_connected {
                request_result_spec(connect, outcomes.drop_first(), failure)
            } else {
                request_result_spec(connect, outcomes.drop_first(), Some(message@))
            },
        }
    }
}

/// Folds the answers of the requests into the result of the whole call
/// (`Err` holds the failure's message).
pub fn request_result(connect: bool, outcomes: &[CallOutcome]) -> (r: Result<(), String>)
    ensures
        match request_result_spec(connect, outcomes@, None) {
            None => r is Ok,
            Some(m) => (r matches Err(e) && e@ == m),
        },
{
    let mut failure: Option<String> = None;
    let mut i: usize = 0;
    assert(outcomes@.skip(0) =~= outcomes@);
    while i < outcomes.len()
        invariant
            i <= outcomes@.len(),
            request_result_spec(connect, outcomes@, None) == request_result_spec(
                connect,
                outcomes@.skip(i as int),
                match failure {
                    Some(f) => Some(f@),
                    None => None,
                },
            ),
        decreases outcomes@.len() - i,
    {
        assert(outcomes@.skip(i as int).drop_first() =~= outcomes@.skip(i + 1));
        assert(outcomes@.skip(i as int)[0] == outcomes@[i as int]);
        match &outcomes[i] {
            CallOutcome::Done => {
                if connect {
                    return Ok(());
                }
            },
            CallOutcome::Failed { not_connected, message } => {
                if !(!connect && *not_connected) {
                    failure = Some(message.clone());
                }
            },
        }
        i = i + 1;
    }
    match failure {
        Some(f) => Err(f),
        None => Ok(()),
    }
}

/// Law: an ACL link alone never shows audio, and transports of other devices
/// do not count: the state is connected only through a configured A2DP
/// transport whose `Device` is one of the given devices.
pub proof fn law_only_own_a2dp_counts(objects: Seq<BusObject>, devices: Seq<Seq<char>>)
    ensures
        observe_spec(objects, devices) == AudioState::Connected <==> exists|i: int|
            0 <= i < objects.len() && shows_a2dp(#[trigger] objects[i], devices),
{
}

} // verus!
