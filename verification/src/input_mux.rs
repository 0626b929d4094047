//! Identification of input devices and the rule that assigns physical
//! devices to game instances. Reading and injecting events happens outside
//! the library.

use vstd::prelude::*;

verus! {

/// A failure of the input multiplexer.
#[derive(Debug)]
pub enum InputMuxError {
    IoError(std::io::Error),
    EvdevError(evdev::Error),
    GenericError(String),
    AlreadyRunning,
}

impl From<std::io::Error> for InputMuxError {
    fn from(err: std::io::Error) -> (r: Self) {
        InputMuxError::IoError(err)
    }
}

impl vstd::std_specs::convert::FromSpecImpl<std::io::Error> for InputMuxError {
    open spec fn obeys_from_spec() -> bool {
        true
    }

    open spec fn from_spec(v: std::io::Error) -> Self {
        InputMuxError::IoError(v)
    }
}

impl From<evdev::Error> for InputMuxError {
    fn from(err: evdev::Error) -> (r: Self) {
        InputMuxError::EvdevError(err)
    }
}

impl vstd::std_specs::convert::FromSpecImpl<evdev::Error> for InputMuxError {
    open spec fn obeys_from_spec() -> bool {
        true
    }

    open spec fn from_spec(v: evdev::Error) -> Self {
        InputMuxError::EvdevError(v)
    }
}

/// What identifies an input device: its name, physical location and
/// bus/vendor/product/version numbers.
#[derive(Debug, Hash)]
pub struct DeviceIdentifier {
    pub name: String,
    pub phys: Option<String>,
    pub bustype: u16,
    pub vendor_id: u16,
    pub product_id: u16,
    pub version: u16,
}

/// The value of a device identifier: its fields, with strings as characters.
pub struct DeviceIdView {
    pub name: Seq<char>,
    pub phys: Option<Seq<char>>,
    pub bustype: u16,
    pub vendor_id: u16,
    pub product_id: u16,
    pub version: u16,
}

impl View for DeviceIdentifier {
    type V = DeviceIdView;

    open spec fn view(&self) -> DeviceIdView {
        DeviceIdView {
            name: self.name@,
            phys: match self.phys {
                Some(p) => Some(p@),
                None => None,
            },
            bustype: self.bustype,
            vendor_id: self.vendor_id,
            product_id: self.product_id,
            version: self.version,
        }
    }
}

impl Clone for DeviceIdentifier {
    fn clone(&self) -> (r: Self)
        ensures
            r == *self,
    {
        DeviceIdentifier {
            name: self.name.clone(),
            phys: match &self.phys {
                Some(p) => Some(p.clone()),
                None => None,
            },
            bustype: self.bustype,
            vendor_id: self.vendor_id,
            product_id: self.product_id,
            version: self.version,
        }
    }
}

impl PartialEq for DeviceIdentifier {
    fn eq(&self, other: &Self) -> (r: bool) {
        let same_phys = match &self.phys {
            Some(a) => match &other.phys {
                Some(b) => *a == *b,
                None => false,
            },
            None => other.phys.is_none(),
        };
        let same_name = self.name == other.name;
        let r = same_name && same_phys && self.bustype == other.bustype
            && self.vendor_id == other.vendor_id && self.product_id == other.product_id
            && self.version == other.version;
        r
    }
}

impl vstd::std_specs::cmp::PartialEqSpecImpl for DeviceIdentifier {
    open spec fn obeys_eq_spec() -> bool {
        true
    }

    open spec fn eq_spec(&self, other: &Self) -> bool {
        self@ == other@
    }
}

impl Eq for DeviceIdentifier {
}

/// How the input of one game instance is chosen.
#[derive(Debug)]
pub enum InputAssignment {
    /// The next physical device not yet taken.
    AutoDetect,
    /// This physical device.
    Device(DeviceIdentifier),
    /// No input.
    NoDevice,
}

impl Clone for InputAssignment {
    fn clone(&self) -> (r: Self)
        ensures
            r == *self,
    {
        match self {
            InputAssignment::AutoDetect => InputAssignment::AutoDetect,
            InputAssignment::Device(d) => InputAssignment::Device(d.clone()),
            InputAssignment::NoDevice => InputAssignment::NoDevice,
        }
    }
}

/// Two assignments are equal when they are the same kind and, for a device,
/// name the same device.
pub open spec fn same_assignment(a: InputAssignment, b: InputAssignment) -> bool {
    match (a, b) {
        (InputAssignment::AutoDetect, InputAssignment::AutoDetect) => true,
        (InputAssignment::NoDevice, InputAssignment::NoDevice) => true,
        (InputAssignment::Device(x), InputAssignment::Device(y)) => x@ == y@,
        _ => false,
    }
}

impl PartialEq for InputAssignment {
    fn eq(&self, other: &Self) -> (r: bool) {
        match (self, other) {
            (InputAssignment::AutoDetect, InputAssignment::AutoDetect) => true,
            (InputAssignment::NoDevice, InputAssignment::NoDevice) => true,
            (InputAssignment::Device(x), InputAssignment::Device(y)) => x == y,
            _ => false,
        }
    }
}

impl vstd::std_specs::cmp::PartialEqSpecImpl for InputAssignment {
    open spec fn obeys_eq_spec() -> bool {
        true
    }

    open spec fn eq_spec(&self, other: &Self) -> bool {
        same_assignment(*self, *other)
    }
}

impl Eq for InputAssignment {
}

/// The identifiers of a list of devices, as values.
pub open spec fn device_views(ds: Seq<DeviceIdentifier>) -> Seq<DeviceIdView> {
    ds.map_values(|d: DeviceIdentifier| d@)
}

/// The devices taken by a list of (device, instance) pairs.
pub open spec fn taken_devices(pairs: Seq<(DeviceIdView, usize)>) -> Seq<DeviceIdView> {
    pairs.map_values(|p: (DeviceIdView, usize)| p.0)
}

/// Index of the first device of `available` at or after `i` that is not in
/// `used` (the length when every one is).
pub open spec fn first_free_from(available: Seq<DeviceIdView>, used: Seq<DeviceIdView>, i: int) -> int
    decreases available.len() - i,
{
    if i < 0 || i >= available.len() {
        available.len() as int
    } else if !used.contains(available[i]) {
        i
    } else {
        first_free_from(available, used, i + 1)
    }
}

/// The (device, instance) pairs that a list of assignments yields, taken in
/// order: a named device is taken when it is available and not yet taken,
/// auto-detection takes the first available device not yet taken, and "no
/// input" takes nothing. An assignment that cannot be met is skipped.
pub open spec fn resolved_assignments(
    available: Seq<DeviceIdView>,
    assignments: Seq<(usize, InputAssignment)>,
) -> Seq<(DeviceIdView, usize)>
    decreases assignments.len(),
{
    if assignments.len() == 0 {
        Seq::empty()
    } else {
        let prev = resolved_assignments(available, assignments.drop_last());
        let used = taken_devices(prev);
        let (instance, a) = assignments.last();
        match a {
            InputAssignment::Device(d) => {
                if available.contains(d@) && !used.contains(d@) {
                    prev.push((d@, instance))
                } else {
                    prev
                }
            },
            InputAssignment::AutoDetect => {
                let k = first_free_from(available, used, 0);
                if k < available.len() {
                    prev.push((available[k], instance))
                } else {
                    prev
                }
            },
            InputAssignment::NoDevice => prev,
        }
    }
}

/// The (device, instance) pairs of a resolved list, as values.
pub open spec fn pair_views(pairs: Seq<(DeviceIdentifier, usize)>) -> Seq<(DeviceIdView, usize)> {
    pairs.map_values(|p: (DeviceIdentifier, usize)| (p.0@, p.1))
}

/// Whether `d` is in `ds`.
fn list_contains(ds: &Vec<DeviceIdentifier>, d: &DeviceIdentifier) -> (b: bool)
    ensures
        b == device_views(ds@).contains(d@),
{
    let mut i: usize = 0;
    while i < ds.len()
        invariant
            i <= ds@.len(),
            forall|k: int| 0 <= k < i ==> ds@[k]@ != d@,
        decreases ds.len() - i,
    {
        if ds[i].eq(d) {
            assert(device_views(ds@)[i as int] == d@);
            return true;
        }
        i = i + 1;
    }
    proof {
        if device_views(ds@).contains(d@) {
            let k = choose|k: int| 0 <= k < device_views(ds@).len() && device_views(ds@)[k] == d@;
            assert(ds@[k]@ == d@);
        }
    }
    false
}

/// Whether `d` is among the devices of `pairs`.
fn pairs_contain(pairs: &Vec<(DeviceIdentifier, usize)>, d: &DeviceIdentifier) -> (b: bool)
    ensures
        b == taken_devices(pair_views(pairs@)).contains(d@),
{
    let mut i: usize = 0;
    while i < pairs.len()
        invariant
            i <= pairs@.len(),
            forall|k: int| 0 <= k < i ==> pairs@[k].0@ != d@,
        decreases pairs.len() - i,
    {
        if pairs[i].0.eq(d) {
            assert(taken_devices(pair_views(pairs@))[i as int] == d@);
            return true;
        }
        i = i + 1;
    }
    proof {
        if taken_devices(pair_views(pairs@)).contains(d@) {
            let k = choose|k: int|
                0 <= k < taken_devices(pair_views(pairs@)).len() && taken_devices(pair_views(pairs@))[k] == d@;
            assert(pairs@[k].0@ == d@);
        }
    }
    false
}

/// Assigns physical devices to game instances (see
/// `resolved_assignments`). `available` lists the enumerated devices in the
/// order auto-detection takes them.
pub fn resolve_assignments(
    available: &Vec<DeviceIdentifier>,
    assignments: &[(usize, InputAssignment)],
) -> (pairs: Vec<(DeviceIdentifier, usize)>)
    ensures
        pair_views(pairs@) == resolved_assignments(device_views(available@), assignments@),
{
    let ghost avail = device_views(available@);
    let mut pairs: Vec<(DeviceIdentifier, usize)> = Vec::new();
    let mut i: usize = 0;
    while i < assignments.len()
        invariant
            avail == device_views(available@),
            i <= assignments@.len(),
            pair_views(pairs@) == resolved_assignments(avail, assignments@.subrange(0, i as int)),
        decreases assignments.len() - i,
    {
        let ghost prev = pairs@;
        proof {
            assert(assignments@.subrange(0, i + 1).drop_last() =~= assignments@.subrange(0, i as int));
            assert(assignments@.subrange(0, i + 1).last() == assignments@[i as int]);
        }
        let instance = assignments[i].0;
        match &assignments[i].1 {
            InputAssignment::Device(d) => {
                if list_contains(available, d) && !pairs_contain(&pairs, d) {
                    pairs.push((d.clone(), instance));
                    assert(pair_views(pairs@) =~= pair_views(prev).push((d@, instance)));
                }
            },
            InputAssignment::AutoDetect => {
                let ghost used = taken_devices(pair_views(pairs@));
                let mut k: usize = 0;
                while k < available.len() && pairs_contain(&pairs, &available[k])
                    invariant
                        avail == device_views(available@),
                        used == taken_devices(pair_views(pairs@)),
                        k <= available@.len(),
                        first_free_from(avail, used, 0) == first_free_from(avail, used, k as int),
                    decreases available.len() - k,
                {
                    k = k + 1;
                }
                if k < available.len() {
                    pairs.push((available[k].clone(), instance));
                    assert(pair_views(pairs@) =~= pair_views(prev).push((avail[k as int], instance)));
                }
            },
            InputAssignment::NoDevice => {
            },
        }
        i = i + 1;
    }
    assert(assignments@.subrange(0, i as int) =~= assignments@);
    pairs
}

proof fn lemma_resolved_facts(available: Seq<DeviceIdView>, assignments: Seq<(usize, InputAssignment)>)
    ensures
        ({
            let r = resolved_assignments(available, assignments);
            &&& forall|i: int| 0 <= i < r.len() ==> available.contains(#[trigger] r[i].0)
            &&& forall|i: int, j: int| 0 <= i < j < r.len() ==> r[i].0 != r[j].0
            &&& r.len() <= assignments.len()
        }),
    decreases assignments.len(),
{
    if assignments.len() > 0 {
        let prev_a = assignments.drop_last();
        lemma_resolved_facts(available, prev_a);
        let prev = resolved_assignments(available, prev_a);
        let used = taken_devices(prev);
        let r = resolved_assignments(available, assignments);
        assert forall|i: int| 0 <= i < prev.len() implies used[i] == prev[i].0 by {}
        match assignments.last().1 {
            InputAssignment::AutoDetect => {
                let k = first_free_from(available, used, 0);
                if k < available.len() {
                    lemma_first_free(available, used, 0);
                    assert(available.contains(available[k]));
                    assert forall|i: int| 0 <= i < prev.len() implies prev[i].0 != available[k] by {
                        assert(used[i] == prev[i].0);
                        assert(used.contains(prev[i].0));
                    }
                }
            },
            InputAssignment::Device(d) => {
                if available.contains(d@) && !used.contains(d@) {
                    assert forall|i: int| 0 <= i < prev.len() implies prev[i].0 != d@ by {
                        assert(used[i] == prev[i].0);
                    }
                }
            },
            InputAssignment::NoDevice => {},
        }
    }
}

proof fn lemma_first_free(available: Seq<DeviceIdView>, used: Seq<DeviceIdView>, i: int)
    requires
        0 <= i <= available.len(),
    ensures
        i <= first_free_from(available, used, i) <= available.len(),
        first_free_from(available, used, i) < available.len() ==> !used.contains(
            available[first_free_from(available, used, i)],
        ),
    decreases available.len() - i,
{
    if i < available.len() && used.contains(available[i]) {
        lemma_first_free(available, used, i + 1);
    }
}

/// Assigning devices never gives one physical device to two instances,
/// only hands out devices that are available, and makes at most one
/// assignment per request.
pub proof fn assignments_are_exclusive(available: Seq<DeviceIdView>, assignments: Seq<(usize, InputAssignment)>)
    ensures
        forall|i: int|
            0 <= i < resolved_assignments(available, assignments).len() ==> available.contains(
                #[trigger] resolved_assignments(available, assignments)[i].0,
            ),
        forall|i: int, j: int|
            0 <= i < j < resolved_assignments(available, assignments).len() ==> resolved_assignments(
                available,
                assignments,
            )[i].0 != resolved_assignments(available, assignments)[j].0,
        resolved_assignments(available, assignments).len() <= assignments.len(),
{
    lemma_resolved_facts(available, assignments);
}

/// A request for no input takes nothing: adding one changes no assignment.
pub proof fn no_device_takes_nothing(
    available: Seq<DeviceIdView>,
    assignments: Seq<(usize, InputAssignment)>,
    instance: usize,
)
    ensures
        resolved_assignments(available, assignments.push((instance, InputAssignment::NoDevice)))
            == resolved_assignments(available, assignments),
{
    assert(assignments.push((instance, InputAssignment::NoDevice)).drop_last() =~= assignments);
}

/// Every device handed out goes to an instance that asked for one: some
/// request for that instance is for auto-detection or for a named device,
/// so an instance whose only request is "no input" gets no device.
pub proof fn devices_go_to_instances_that_ask(
    available: Seq<DeviceIdView>,
    assignments: Seq<(usize, InputAssignment)>,
)
    ensures
        forall|i: int|
            0 <= i < resolved_assignments(available, assignments).len() ==> exists|j: int|
                0 <= j < assignments.len() && assignments[j].0 == (#[trigger] resolved_assignments(
                    available,
                    assignments,
                )[i]).1 && !(assignments[j].1 is NoDevice),
    decreases assignments.len(),
{
    if assignments.len() > 0 {
        let prev_a = assignments.drop_last();
        devices_go_to_instances_that_ask(available, prev_a);
        let prev = resolved_assignments(available, prev_a);
        let r = resolved_assignments(available, assignments);
        let last = assignments.len() - 1;
        assert forall|i: int| 0 <= i < r.len() implies exists|j: int|
            0 <= j < assignments.len() && assignments[j].0 == (#[trigger] r[i]).1 && !(assignments[j].1 is NoDevice) by {
            if i < prev.len() {
                assert(r[i] == prev[i]);
                let j = choose|j: int|
                    0 <= j < prev_a.len() && prev_a[j].0 == prev[i].1 && !(prev_a[j].1 is NoDevice);
                assert(assignments[j] == prev_a[j]);
            } else {
                assert(r[i].1 == assignments[last].0);
                assert(!(assignments[last].1 is NoDevice));
            }
        }
    }
}

/// A request for a named device gives that device to the instance when the
/// device is available and no earlier request took it, and changes nothing
/// otherwise.
pub proof fn named_device_is_taken_when_free(
    available: Seq<DeviceIdView>,
    assignments: Seq<(usize, InputAssignment)>,
    instance: usize,
    d: DeviceIdentifier,
)
    ensures
        ({
            let before = resolved_assignments(available, assignments);
            let after = resolved_assignments(available, assignments.push((instance, InputAssignment::Device(d))));
            let free = available.contains(d@) && forall|i: int| 0 <= i < before.len() ==> (#[trigger] before[i]).0 != d@;
            &&& free ==> after == before.push((d@, instance))
            &&& !free ==> after == before
        }),
{
    let s2 = assignments.push((instance, InputAssignment::Device(d)));
    assert(s2.drop_last() =~= assignments);
    let before = resolved_assignments(available, assignments);
    let used = taken_devices(before);
    assert(s2.last() == (instance, InputAssignment::Device(d)));
    assert forall|k: int| 0 <= k < used.len() implies used[k] == (#[trigger] before[k]).0 by {}
    if used.contains(d@) {
        let k = choose|k: int| 0 <= k < used.len() && used[k] == d@;
        assert(before[k].0 == d@);
    }
}

/// An auto-detect request gives the instance the first listed available
/// device that no earlier request took, and changes nothing when every
/// available device is taken.
pub proof fn auto_detect_takes_first_free_device(
    available: Seq<DeviceIdView>,
    assignments: Seq<(usize, InputAssignment)>,
    instance: usize,
)
    ensures
        ({
            let before = resolved_assignments(available, assignments);
            let after = resolved_assignments(available, assignments.push((instance, InputAssignment::AutoDetect)));
            let taken = |x: DeviceIdView| exists|i: int| 0 <= i < before.len() && (#[trigger] before[i]).0 == x;
            ||| (forall|j: int| 0 <= j < available.len() ==> taken(#[trigger] available[j])) && after == before
            ||| exists|j: int|
                0 <= j < available.len() && !taken(available[j]) && (forall|k: int|
                    0 <= k < j ==> taken(#[trigger] available[k])) && after == before.push((available[j], instance))
        }),
{
    let s2 = assignments.push((instance, InputAssignment::AutoDetect));
    assert(s2.drop_last() =~= assignments);
    let before = resolved_assignments(available, assignments);
    let used = taken_devices(before);
    let taken = |x: DeviceIdView| exists|i: int| 0 <= i < before.len() && (#[trigger] before[i]).0 == x;
    assert forall|x: DeviceIdView| used.contains(x) <==> taken(x) by {
        if used.contains(x) {
            let k = choose|k: int| 0 <= k < used.len() && used[k] == x;
            assert(before[k].0 == x);
        }
        if taken(x) {
            let k = choose|k: int| 0 <= k < before.len() && before[k].0 == x;
            assert(used[k] == x);
        }
    }
    lemma_first_free_is_least(available, used, 0);
    let j = first_free_from(available, used, 0);
    if j < available.len() {
        assert(!taken(available[j]));
    } else {
        assert forall|k: int| 0 <= k < available.len() implies taken(#[trigger] available[k]) by {
            assert(used.contains(available[k]));
        }
    }
}

proof fn lemma_first_free_is_least(available: Seq<DeviceIdView>, used: Seq<DeviceIdView>, i: int)
    requires
        0 <= i <= available.len(),
    ensures
        i <= first_free_from(available, used, i) <= available.len(),
        first_free_from(available, used, i) < available.len() ==> !used.contains(
            available[first_free_from(available, used, i)],
        ),
        forall|k: int| i <= k < first_free_from(available, used, i) ==> used.contains(#[trigger] available[k]),
    decreases available.len() - i,
{
    if i < available.len() && used.contains(available[i]) {
        lemma_first_free_is_least(available, used, i + 1);
    }
}

/// Whether a file in the input directory is an event device (its name
/// begins with "event").
pub fn is_event_device_name(name: &str) -> (b: bool)
    ensures
        b == crate::text::has_prefix(name@, "event"@),
{
    crate::text::starts_with(name, "event")
}

/// The name of the virtual input device of instance `i`.
pub fn virtual_device_name(i: usize) -> (r: String)
    ensures
        r@ == "HydraCoop Virtual Device "@ + crate::text::decimal(i as nat),
{
    crate::text::with_number("HydraCoop Virtual Device ", i as u64)
}

/// `acc` followed by the codes of `items` that are not already in it,
/// each taken once, in order.
pub open spec fn merged_codes(acc: Seq<u16>, items: Seq<u16>) -> Seq<u16>
    decreases items.len(),
{
    if items.len() == 0 {
        acc
    } else {
        let prev = merged_codes(acc, items.drop_last());
        if prev.contains(items.last()) {
            prev
        } else {
            prev.push(items.last())
        }
    }
}

/// Adds to `acc` the codes of `items` it does not hold yet (see
/// `merged_codes`): the union of the capabilities of several devices.
pub fn merge_codes(acc: &mut Vec<u16>, items: &[u16])
    ensures
        final(acc)@ == merged_codes(old(acc)@, items@),
{
    let ghost start = acc@;
    let mut i: usize = 0;
    while i < items.len()
        invariant
            start == old(acc)@,
            i <= items@.len(),
            acc@ == merged_codes(start, items@.subrange(0, i as int)),
        decreases items.len() - i,
    {
        proof {
            assert(items@.subrange(0, i + 1).drop_last() =~= items@.subrange(0, i as int));
        }
        let mut k: usize = 0;
        let mut present = false;
        while k < acc.len()
            invariant
                k <= acc@.len(),
                !present ==> forall|t: int| 0 <= t < k ==> acc@[t] != items@[i as int],
                present ==> acc@.contains(items@[i as int]),
                i < items@.len(),
            decreases acc.len() - k,
        {
            if acc[k] == items[i] {
                assert(acc@[k as int] == items@[i as int]);
                present = true;
            }
            k = k + 1;
        }
        if !present {
            acc.push(items[i]);
        }
        i = i + 1;
    }
    assert(items@.subrange(0, i as int) =~= items@);
}

proof fn lemma_merged_codes_unique(acc: Seq<u16>, items: Seq<u16>)
    requires
        forall|a: int, b: int| 0 <= a < b < acc.len() ==> acc[a] != acc[b],
    ensures
        forall|a: int, b: int|
            0 <= a < b < merged_codes(acc, items).len() ==> merged_codes(acc, items)[a] != merged_codes(
                acc,
                items,
            )[b],
        forall|j: int| 0 <= j < items.len() ==> merged_codes(acc, items).contains(#[trigger] items[j]),
        forall|j: int| 0 <= j < acc.len() ==> merged_codes(acc, items)[j] == #[trigger] acc[j],
        acc.len() <= merged_codes(acc, items).len(),
    decreases items.len(),
{
    if items.len() > 0 {
        let prev_items = items.drop_last();
        lemma_merged_codes_unique(acc, prev_items);
        let prev = merged_codes(acc, prev_items);
        let m = merged_codes(acc, items);
        assert forall|j: int| 0 <= j < items.len() implies m.contains(#[trigger] items[j]) by {
            if j < items.len() - 1 {
                assert(prev.contains(prev_items[j]));
                let w = choose|w: int| 0 <= w < prev.len() && prev[w] == prev_items[j];
                assert(m[w] == items[j]);
            } else if !prev.contains(items.last()) {
                assert(m[prev.len() as int] == items[j]);
            }
        }
    }
}

/// Merging capability codes never lists a code twice (when the start does
/// not), keeps what was there first in place, and ends up holding every
/// code merged in.
pub proof fn merged_codes_are_a_union(acc: Seq<u16>, items: Seq<u16>)
    requires
        forall|a: int, b: int| 0 <= a < b < acc.len() ==> acc[a] != acc[b],
    ensures
        forall|a: int, b: int|
            0 <= a < b < merged_codes(acc, items).len() ==> merged_codes(acc, items)[a] != merged_codes(
                acc,
                items,
            )[b],
        forall|j: int| 0 <= j < items.len() ==> merged_codes(acc, items).contains(#[trigger] items[j]),
        forall|j: int| 0 <= j < acc.len() ==> merged_codes(acc, items)[j] == #[trigger] acc[j],
{
    lemma_merged_codes_unique(acc, items);
}


/// The identifier of an opened device from what the device reports: a
/// device without a name is called "Unknown".
pub fn identify_device(
    name: Option<String>,
    phys: Option<String>,
    bustype: u16,
    vendor_id: u16,
    product_id: u16,
    version: u16,
) -> (d: DeviceIdentifier)
    ensures
        d.name@ == match name {
            Some(n) => n@,
            None => "Unknown"@,
        },
        d.phys == phys,
        d.bustype == bustype,
        d.vendor_id == vendor_id,
        d.product_id == product_id,
        d.version == version,
{
    DeviceIdentifier {
        name: match name {
            Some(n) => n,
            None => crate::text::owned("Unknown"),
        },
        phys,
        bustype,
        vendor_id,
        product_id,
        version,
    }
}

/// Whether event capture starts once devices have been assigned: it is an
/// error when capture already runs or when there are devices but no virtual
/// devices to route to; with no devices, or no device assigned to an
/// instance, there is nothing to capture (`Ok(false)`).
pub fn capture_start(
    running: bool,
    num_devices: usize,
    num_virtual_devices: usize,
    num_mapped: usize,
) -> (r: Result<bool, InputMuxError>)
    ensures
        running ==> r matches Err(InputMuxError::AlreadyRunning),
        !running && num_devices == 0 ==> r matches Ok(false),
        !running && num_devices > 0 && num_virtual_devices == 0 ==> (r matches Err(
            InputMuxError::GenericError(m),
        ) && m@ == "No virtual devices available for routing"@),
        !running && num_devices > 0 && num_virtual_devices > 0 && num_mapped == 0 ==> r matches Ok(false),
        !running && num_devices > 0 && num_virtual_devices > 0 && num_mapped > 0 ==> r matches Ok(true),
{
    if running {
        return Err(InputMuxError::AlreadyRunning);
    }
    if num_devices == 0 {
        return Ok(false);
    }
    if num_virtual_devices == 0 {
        return Err(InputMuxError::GenericError(crate::text::owned("No virtual devices available for routing")));
    }
    Ok(num_mapped > 0)
}

/// What a capture thread observed in its last step.
#[derive(Debug, Clone, Copy, PartialEq, Eq, Structural)]
pub enum CaptureEvent {
    /// Waiting for the device timed out.
    PollTimedOut,
    /// The device has input to read.
    PollReady,
    /// Waiting was interrupted by a signal.
    PollInterrupted,
    /// Waiting failed.
    PollFailed,
    /// Reading gave this many events.
    Fetched(usize),
    /// Reading would block, or was interrupted.
    FetchRetry,
    /// Reading failed.
    FetchFailed,
    /// The events were passed on to the virtual device.
    Emitted,
    /// Passing events on failed because the virtual device is gone.
    EmitBrokenPipe,
    /// Passing events on failed otherwise.
    EmitFailed,
}

/// What a capture thread does next.
#[derive(Debug, Clone, Copy, PartialEq, Eq, Structural)]
pub enum CaptureAction {
    /// Wait for the device again (if capture is still on).
    Wait,
    /// Read the device's pending events.
    Fetch,
    /// Pass the events read on to the instance's virtual device.
    Emit,
    /// End the thread.
    Stop,
}

/// The step after an observation: a ready device is read, events read are
/// passed on, a failed wait or read ends the thread, as does a virtual
/// device that is gone; everything else goes back to waiting.
pub open spec fn capture_next(e: CaptureEvent) -> CaptureAction {
    match e {
        CaptureEvent::PollReady => CaptureAction::Fetch,
        CaptureEvent::PollFailed => CaptureAction::Stop,
        CaptureEvent::Fetched(n) => if n > 0 { CaptureAction::Emit } else { CaptureAction::Wait },
        CaptureEvent::FetchFailed => CaptureAction::Stop,
        CaptureEvent::EmitBrokenPipe => CaptureAction::Stop,
        _ => CaptureAction::Wait,
    }
}

/// The step a capture thread takes after an observation (see
/// `capture_next`).
pub fn capture_step(e: CaptureEvent) -> (a: CaptureAction)
    ensures
        a == capture_next(e),
{
    match e {
        CaptureEvent::PollReady => CaptureAction::Fetch,
        CaptureEvent::PollFailed => CaptureAction::Stop,
        CaptureEvent::Fetched(n) => if n > 0 {
            CaptureAction::Emit
        } else {
            CaptureAction::Wait
        },
        CaptureEvent::FetchFailed => CaptureAction::Stop,
        CaptureEvent::EmitBrokenPipe => CaptureAction::Stop,
        _ => CaptureAction::Wait,
    }
}

/// A capture thread ends only on a failure: never after a timeout, an
/// interruption, a retry, events read or events passed on.
pub proof fn capture_stops_only_on_failure(e: CaptureEvent)
    ensures
        capture_next(e) == CaptureAction::Stop <==> (e == CaptureEvent::PollFailed || e == CaptureEvent::FetchFailed
            || e == CaptureEvent::EmitBrokenPipe),
{
}

} // verus!
