//! The device list: entries of the device-management tool's listing, with
//! unavailable and unidentified ones left out, booted devices first and then
//! by name.
use vstd::prelude::*;
use crate::text::same_text;
use vstd::seq_lib::{to_multiset_build, to_multiset_insert};

verus! {

/// One device as the listing gives it; a missing field reads as empty.
#[derive(Clone, Debug)]
pub struct DeviceEntry {
    pub udid: String,
    pub name: String,
    pub state: String,
}

/// The devices the listing gives for one runtime.
#[derive(Clone, Debug)]
pub struct RuntimeDevices {
    pub runtime: String,
    pub devices: Vec<DeviceEntry>,
}

/// A listed device.
#[derive(Clone, Debug)]
pub struct Simulator {
    pub udid: String,
    pub name: String,
    pub state: String,
    pub runtime: String,
}

/// The answer of a listing request.
#[derive(Clone, Debug)]
pub struct SimulatorListResponse {
    pub simulators: Vec<Simulator>,
}

/// What a listed device holds, as characters.
pub struct SimulatorView {
    pub udid: Seq<char>,
    pub name: Seq<char>,
    pub state: Seq<char>,
    pub runtime: Seq<char>,
}

impl View for Simulator {
    type V = SimulatorView;

    open spec fn view(&self) -> SimulatorView {
        SimulatorView { udid: self.udid@, name: self.name@, state: self.state@, runtime: self.runtime@ }
    }
}

/// The views of a list of devices.
pub open spec fn views(v: Seq<Simulator>) -> Seq<SimulatorView> {
    v.map_values(|s: Simulator| s@)
}

/// Whether an entry is listed: it has an identifier and is not unavailable.
pub open spec fn listed(d: DeviceEntry) -> bool {
    d.udid@.len() > 0 && d.state@ != "Unavailable"@
}

/// The listed devices of one runtime, in the listing's order.
pub open spec fn runtime_devices(runtime: Seq<char>, ds: Seq<DeviceEntry>) -> Seq<SimulatorView>
    decreases ds.len(),
{
    if ds.len() == 0 {
        Seq::<SimulatorView>::empty()
    } else {
        let d = ds.last();
        let rest = runtime_devices(runtime, ds.drop_last());
        if listed(d) {
            rest.push(SimulatorView { udid: d.udid@, name: d.name@, state: d.state@, runtime })
        } else {
            rest
        }
    }
}

/// The listed devices of all runtimes, in the listing's order.
pub open spec fn listed_devices(listing: Seq<RuntimeDevices>) -> Seq<SimulatorView>
    decreases listing.len(),
{
    if listing.len() == 0 {
        Seq::<SimulatorView>::empty()
    } else {
        listed_devices(listing.drop_last()) + runtime_devices(listing.last().runtime@, listing.last().devices@)
    }
}

/// Whether `a` comes before `b` in code-point order, comparing from `i` on,
/// the first `i` characters being equal.
pub open spec fn name_less_from(a: Seq<char>, b: Seq<char>, i: int) -> bool
    decreases a.len() - i,
{
    if i < 0 || i >= a.len() {
        0 <= i < b.len()
    } else if i >= b.len() {
        false
    } else if a[i] != b[i] {
        (a[i] as u32) < (b[i] as u32)
    } else {
        name_less_from(a, b, i + 1)
    }
}

/// Lexicographic order of names by code point, the order of `str`.
pub open spec fn name_less(a: Seq<char>, b: Seq<char>) -> bool {
    name_less_from(a, b, 0)
}

/// Whether a device is booted.
pub open spec fn booted(s: SimulatorView) -> bool {
    s.state == "Booted"@
}

/// Whether `a` strictly precedes `b`: booted before not booted, and within
/// the same bootedness by name.
pub open spec fn precedes(a: SimulatorView, b: SimulatorView) -> bool {
    (booted(a) && !booted(b)) || (booted(a) == booted(b) && name_less(a.name, b.name))
}

/// The first position from `i` on whose device `x` precedes, else the end.
pub open spec fn slot_from(s: Seq<SimulatorView>, x: SimulatorView, i: int) -> int
    decreases s.len() - i,
{
    if i < 0 || i >= s.len() {
        s.len() as int
    } else if precedes(x, s[i]) {
        i
    } else {
        slot_from(s, x, i + 1)
    }
}

/// `s` sorted by `precedes`, devices that neither precedes keeping their
/// order.
pub open spec fn device_order(s: Seq<SimulatorView>) -> Seq<SimulatorView>
    decreases s.len(),
{
    if s.len() == 0 {
        s
    } else {
        let t = device_order(s.drop_last());
        t.insert(slot_from(t, s.last(), 0), s.last())
    }
}

/// Whether `a`'s name comes before `b`'s.
pub fn name_before(a: &str, b: &str) -> (r: bool)
    ensures
        r == name_less(a@, b@),
{
    let n = a.unicode_len();
    let m = b.unicode_len();
    let mut i: usize = 0;
    while i < n && i < m && a.get_char(i) == b.get_char(i)
        invariant
            n == a@.len(),
            m == b@.len(),
            i <= n,
            i <= m,
            name_less_from(a@, b@, i as int) == name_less_from(a@, b@, 0),
        decreases n - i,
    {
        i = i + 1;
    }
    if i >= n {
        i < m
    } else if i >= m {
        false
    } else {
        (a.get_char(i) as u32) < (b.get_char(i) as u32)
    }
}

/// Whether a device in state `state` is booted.
pub fn is_booted(state: &str) -> (r: bool)
    ensures
        r == (state@ == "Booted"@),
{
    same_text(state, "Booted")
}

/// Whether device `a` strictly precedes device `b` in the list.
pub fn device_precedes(a: &Simulator, b: &Simulator) -> (r: bool)
    ensures
        r == precedes(a@, b@),
{
    let ab = is_booted(a.state.as_str());
    let bb = is_booted(b.state.as_str());
    if ab && !bb {
        true
    } else if ab == bb {
        name_before(a.name.as_str(), b.name.as_str())
    } else {
        false
    }
}

/// Puts `x` into `out` at its place in the order.
fn insert_in_order(out: &mut Vec<Simulator>, x: Simulator)
    ensures
        views(final(out)@) == views(old(out)@).insert(slot_from(views(old(out)@), x@, 0), x@),
{
    let ghost v0 = views(out@);
    let mut j: usize = 0;
    while j < out.len() && !device_precedes(&x, &out[j])
        invariant
            v0 == views(out@),
            j <= out@.len(),
            slot_from(v0, x@, j as int) == slot_from(v0, x@, 0),
        decreases out@.len() - j,
    {
        j = j + 1;
    }
    let ghost xv = x@;
    out.insert(j, x);
    assert(views(out@) =~= v0.insert(j as int, xv));
}

/// The device list of a listing: entries without an identifier or in state
/// `Unavailable` are left out; the rest are ordered booted first, then by
/// name, entries equal in both keeping the listing's order.
pub fn collect_simulators(listing: &Vec<RuntimeDevices>) -> (r: Vec<Simulator>)
    ensures
        views(r@) == device_order(listed_devices(listing@)),
{
    let mut out: Vec<Simulator> = Vec::new();
    let ghost seen: Seq<SimulatorView> = Seq::empty();
    assert(views(out@) =~= device_order(seen));
    let mut i: usize = 0;
    while i < listing.len()
        invariant
            i <= listing@.len(),
            seen == listed_devices(listing@.take(i as int)),
            views(out@) == device_order(seen),
        decreases listing@.len() - i,
    {
        let group = &listing[i];
        let ghost rt = group.runtime@;
        let mut j: usize = 0;
        let ghost base = seen;
        assert(runtime_devices(rt, group.devices@.take(0)) =~= Seq::<SimulatorView>::empty());
        assert(seen =~= base + runtime_devices(rt, group.devices@.take(0)));
        while j < group.devices.len()
            invariant
                i < listing@.len(),
                group == listing@[i as int],
                rt == group.runtime@,
                j <= group.devices@.len(),
                seen == base + runtime_devices(rt, group.devices@.take(j as int)),
                views(out@) == device_order(seen),
            decreases group.devices@.len() - j,
        {
            let d = &group.devices[j];
            assert(group.devices@.take(j as int + 1).drop_last() =~= group.devices@.take(j as int));
            if d.udid.unicode_len() > 0 && !same_text(d.state.as_str(), "Unavailable") {
                let s = Simulator {
                    udid: d.udid.clone(),
                    name: d.name.clone(),
                    state: d.state.clone(),
                    runtime: group.runtime.clone(),
                };
                proof {
                    let old_seen = seen;
                    seen = seen.push(s@);
                    assert(seen.drop_last() =~= old_seen);
                    assert(seen =~= base + runtime_devices(rt, group.devices@.take(j as int + 1)));
                }
                insert_in_order(&mut out, s);
            } else {
                assert(seen =~= base + runtime_devices(rt, group.devices@.take(j as int + 1)));
            }
            j = j + 1;
        }
        proof {
            assert(group.devices@.take(j as int) =~= group.devices@);
            assert(listing@.take(i as int + 1).drop_last() =~= listing@.take(i as int));
            assert(seen =~= listed_devices(listing@.take(i as int + 1)));
        }
        i = i + 1;
    }
    assert(listing@.take(i as int) =~= listing@);
    out
}

proof fn lemma_name_less_asymmetric(a: Seq<char>, b: Seq<char>, i: int)
    requires
        0 <= i,
        name_less_from(a, b, i),
    ensures
        !name_less_from(b, a, i),
    decreases a.len() - i,
{
    if i < a.len() && i < b.len() && a[i] == b[i] {
        lemma_name_less_asymmetric(a, b, i + 1);
    }
}

proof fn lemma_name_less_transitive(a: Seq<char>, b: Seq<char>, c: Seq<char>, i: int)
    requires
        0 <= i,
        name_less_from(a, b, i),
        name_less_from(b, c, i),
    ensures
        name_less_from(a, c, i),
    decreases a.len() - i,
{
    if i < a.len() && i < b.len() && i < c.len() && a[i] == b[i] && b[i] == c[i] {
        lemma_name_less_transitive(a, b, c, i + 1);
    }
}

proof fn lemma_precedes_irreflexive(a: SimulatorView)
    ensures
        !precedes(a, a),
{
    if name_less(a.name, a.name) {
        lemma_name_less_asymmetric(a.name, a.name, 0);
    }
}

proof fn lemma_precedes_transitive(a: SimulatorView, b: SimulatorView, c: SimulatorView)
    requires
        precedes(a, b),
        precedes(b, c),
    ensures
        precedes(a, c),
{
    if booted(a) == booted(b) && booted(b) == booted(c) {
        lemma_name_less_transitive(a.name, b.name, c.name, 0);
    }
}

/// No device of `s` precedes one placed before it.
pub open spec fn in_device_order(s: Seq<SimulatorView>) -> bool {
    forall|i: int, j: int| 0 <= i < j < s.len() ==> !precedes(#[trigger] s[j], #[trigger] s[i])
}

proof fn lemma_slot_from(t: Seq<SimulatorView>, x: SimulatorView, i: int)
    requires
        0 <= i <= t.len(),
    ensures
        i <= slot_from(t, x, i) <= t.len(),
        forall|k: int| i <= k < slot_from(t, x, i) ==> !precedes(x, #[trigger] t[k]),
        slot_from(t, x, i) < t.len() ==> precedes(x, t[slot_from(t, x, i)]),
    decreases t.len() - i,
{
    if i < t.len() && !precedes(x, t[i]) {
        lemma_slot_from(t, x, i + 1);
    }
}

/// The device list is ordered: booted devices before the others, and by
/// name within each group; and it holds exactly the listed devices, each as
/// often as the listing has it.
pub proof fn lemma_device_order(s: Seq<SimulatorView>)
    ensures
        in_device_order(device_order(s)),
        device_order(s).to_multiset() == s.to_multiset(),
    decreases s.len(),
{
    if s.len() > 0 {
        let t = device_order(s.drop_last());
        let x = s.last();
        lemma_device_order(s.drop_last());
        let p = slot_from(t, x, 0);
        lemma_slot_from(t, x, 0);
        let u = t.insert(p, x);
        assert(u == device_order(s));
        assert forall|i: int, j: int| 0 <= i < j < u.len() implies !precedes(#[trigger] u[j], #[trigger] u[i]) by {
            if j < p {
                assert(u[i] == t[i] && u[j] == t[j]);
            } else if j == p {
                assert(u[i] == t[i]);
            } else if i == p {
                assert(u[j] == t[j - 1]);
                if precedes(t[j - 1], x) {
                    if j - 1 == p {
                        lemma_precedes_transitive(x, t[p], x);
                        lemma_precedes_irreflexive(x);
                    } else {
                        lemma_precedes_transitive(t[j - 1], x, t[p]);
                    }
                }
            } else if i < p {
                assert(u[i] == t[i] && u[j] == t[j - 1]);
            } else {
                assert(u[i] == t[i - 1] && u[j] == t[j - 1]);
            }
        }
        to_multiset_insert(t, p, x);
        to_multiset_build(s.drop_last(), x);
        assert(s.drop_last().push(x) == s);
    }
}

} // verus!
