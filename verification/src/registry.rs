//! The registry of device classes, and the names derived from it.
//!
//! A device class is found under its compatible string, which is made of
//! the class's number. Every device of a class takes the next index of the
//! class, which tells the sockets of the class's backends apart.

use vstd::prelude::*;
use vstd::string::StringExecFns;
use crate::error::Error;

verus! {

/// One device class of the registry.
pub struct DeviceInfo {
    name: String,
    id: u32,
    index: u32,
}

/// A device class as the contracts see it: its name and the index that
/// its next device takes.
pub struct ClassModel {
    pub name: Seq<char>,
    pub index: u32,
}

/// What a device takes from the registry: the name of its class and its
/// index within the class.
#[derive(Debug, Clone, PartialEq, Eq)]
pub struct DeviceClass {
    pub name: String,
    pub index: u32,
}

/// How the backend of a device is reached and what it is asked for.
#[derive(Debug, Clone, PartialEq, Eq)]
pub struct BackendConfig {
    pub socket: String,
    pub num_queues: usize,
    pub queue_size: u16,
}

/// The decimal digit `d`.
pub open spec fn digit_char(d: nat) -> char {
    if d == 0 {
        '0'
    } else if d == 1 {
        '1'
    } else if d == 2 {
        '2'
    } else if d == 3 {
        '3'
    } else if d == 4 {
        '4'
    } else if d == 5 {
        '5'
    } else if d == 6 {
        '6'
    } else if d == 7 {
        '7'
    } else if d == 8 {
        '8'
    } else {
        '9'
    }
}

/// The decimal digits of a number, without leading zeros.
pub open spec fn decimal(n: nat) -> Seq<char>
    decreases n,
{
    if n < 10 {
        seq![digit_char(n)]
    } else {
        decimal(n / 10).push(digit_char(n % 10))
    }
}

/// The compatible string of the device class number `id`.
pub open spec fn compatible_string(id: nat) -> Seq<char> {
    "virtio,device"@ + decimal(id)
}

/// The path of the socket of device number `index` of the class `name`.
pub open spec fn socket_string(prefix: Seq<char>, name: Seq<char>, index: nat) -> Seq<char> {
    prefix + name + ".sock"@ + decimal(index)
}

/// The registry made of a list of classes, each with its name and its
/// number: every class starts at index zero, and of two classes with the
/// same number the later one stays.
pub open spec fn registered(supported: Seq<(&'static str, u32)>) -> Map<u32, ClassModel>
    decreases supported.len(),
{
    if supported.len() == 0 {
        Map::empty()
    } else {
        registered(supported.drop_last()).insert(
            supported.last().1,
            ClassModel { name: supported.last().0@, index: 0 },
        )
    }
}

/// The low 16 bits of a queue size.
pub open spec fn size_half(size: usize) -> u16 {
    (size & 0xffff) as u16
}

spec fn class_of(info: DeviceInfo) -> ClassModel {
    ClassModel { name: info.name@, index: info.index }
}

spec fn has_class(s: Seq<DeviceInfo>, id: u32) -> bool {
    exists|i: int| 0 <= i < s.len() && (#[trigger] s[i]).id == id
}

spec fn class_at(s: Seq<DeviceInfo>, id: u32) -> ClassModel {
    let i = choose|i: int| 0 <= i < s.len() && (#[trigger] s[i]).id == id;
    class_of(s[i])
}

spec fn table(s: Seq<DeviceInfo>) -> Map<u32, ClassModel> {
    Map::new(|id: u32| has_class(s, id), |id: u32| class_at(s, id))
}

spec fn distinct_ids(s: Seq<DeviceInfo>) -> bool {
    forall|i: int, j: int| 0 <= i < j < s.len() ==> (#[trigger] s[i]).id != (#[trigger] s[j]).id
}

proof fn lemma_table_entry(s: Seq<DeviceInfo>, i: int)
    requires
        distinct_ids(s),
        0 <= i < s.len(),
    ensures
        table(s).dom().contains(s[i].id),
        table(s)[s[i].id] == class_of(s[i]),
{
    let id = s[i].id;
    assert(has_class(s, id));
    let j = choose|j: int| 0 <= j < s.len() && (#[trigger] s[j]).id == id;
    if j < i {
        assert(s[j].id != s[i].id);
    } else if i < j {
        assert(s[i].id != s[j].id);
    }
}

proof fn lemma_table_update(s: Seq<DeviceInfo>, i: int, info: DeviceInfo)
    requires
        distinct_ids(s),
        0 <= i < s.len(),
        info.id == s[i].id,
    ensures
        distinct_ids(s.update(i, info)),
        table(s.update(i, info)) == table(s).insert(info.id, class_of(info)),
{
    let t = s.update(i, info);
    assert forall|a: int, b: int| 0 <= a < b < t.len() implies (#[trigger] t[a]).id != (
    #[trigger] t[b]).id by {
        assert(s[a].id != s[b].id);
    }
    assert forall|id: u32| has_class(t, id) <==> has_class(s, id) by {
        if has_class(t, id) {
            let j = choose|j: int| 0 <= j < t.len() && (#[trigger] t[j]).id == id;
            assert(s[j].id == id);
        }
        if has_class(s, id) {
            let j = choose|j: int| 0 <= j < s.len() && (#[trigger] s[j]).id == id;
            assert(t[j].id == id);
        }
    }
    assert forall|id: u32| has_class(t, id) implies #[trigger] table(t)[id] == table(s).insert(
        info.id,
        class_of(info),
    )[id] by {
        let j = choose|j: int| 0 <= j < t.len() && (#[trigger] t[j]).id == id;
        lemma_table_entry(t, j);
        if j != i {
            assert(t[j] == s[j]);
            lemma_table_entry(s, j);
            if j < i {
                assert(s[j].id != s[i].id);
            } else {
                assert(s[i].id != s[j].id);
            }
        }
    }
    assert(table(t) =~= table(s).insert(info.id, class_of(info)));
}

proof fn lemma_table_push(s: Seq<DeviceInfo>, info: DeviceInfo)
    requires
        distinct_ids(s),
        !has_class(s, info.id),
    ensures
        distinct_ids(s.push(info)),
        table(s.push(info)) == table(s).insert(info.id, class_of(info)),
{
    let t = s.push(info);
    assert forall|a: int, b: int| 0 <= a < b < t.len() implies (#[trigger] t[a]).id != (
    #[trigger] t[b]).id by {
        if b < s.len() {
            assert(s[a].id != s[b].id);
        } else {
            assert(s[a].id != info.id);
        }
    }
    assert(t[s.len() as int].id == info.id);
    assert forall|id: u32| has_class(t, id) <==> (has_class(s, id) || id == info.id) by {
        if has_class(t, id) {
            let j = choose|j: int| 0 <= j < t.len() && (#[trigger] t[j]).id == id;
            if j < s.len() {
                assert(s[j].id == id);
            }
        }
        if has_class(s, id) {
            let j = choose|j: int| 0 <= j < s.len() && (#[trigger] s[j]).id == id;
            assert(t[j].id == id);
        }
    }
    assert forall|id: u32| has_class(t, id) implies #[trigger] table(t)[id] == table(s).insert(
        info.id,
        class_of(info),
    )[id] by {
        let j = choose|j: int| 0 <= j < t.len() && (#[trigger] t[j]).id == id;
        lemma_table_entry(t, j);
        if j < s.len() {
            assert(t[j] == s[j]);
            lemma_table_entry(s, j);
        }
    }
    assert(table(t) =~= table(s).insert(info.id, class_of(info)));
}

/// A number has at least one decimal digit, and more than one from ten on.
pub proof fn lemma_decimal_len(n: nat)
    ensures
        decimal(n).len() >= 1,
        n >= 10 ==> decimal(n).len() >= 2,
    decreases n,
{
    if n >= 10 {
        lemma_decimal_len(n / 10);
    }
}

/// Two numbers with the same decimal digits are the same number.
pub proof fn lemma_decimal_injective(a: nat, b: nat)
    requires
        decimal(a) == decimal(b),
    ensures
        a == b,
    decreases a,
{
    lemma_decimal_len(a);
    lemma_decimal_len(b);
    if a < 10 && b < 10 {
        assert(decimal(a)[0] == digit_char(a));
        assert(decimal(b)[0] == digit_char(b));
    } else if a >= 10 && b >= 10 {
        let da = decimal(a / 10);
        let db = decimal(b / 10);
        assert(decimal(a).last() == digit_char(a % 10));
        assert(decimal(b).last() == digit_char(b % 10));
        assert(decimal(a).drop_last() =~= da);
        assert(decimal(b).drop_last() =~= db);
        lemma_decimal_injective(a / 10, b / 10);
    } else {
        assert(decimal(a).len() != decimal(b).len());
    }
}

/// Two class numbers with the same compatible string are the same
/// number: a class is found under its compatible string exactly when it
/// is found under its number.
pub proof fn lemma_compatible_injective(a: nat, b: nat)
    requires
        compatible_string(a) == compatible_string(b),
    ensures
        a == b,
{
    let head = "virtio,device"@;
    assert(compatible_string(a).subrange(head.len() as int, compatible_string(a).len() as int)
        =~= decimal(a));
    assert(compatible_string(b).subrange(head.len() as int, compatible_string(b).len() as int)
        =~= decimal(b));
    lemma_decimal_injective(a, b);
}

/// Two devices of one class that took different indices have different
/// socket paths under the same prefix.
pub proof fn lemma_socket_paths_differ(prefix: Seq<char>, name: Seq<char>, i: nat, j: nat)
    requires
        i != j,
    ensures
        socket_string(prefix, name, i) != socket_string(prefix, name, j),
{
    let head = prefix + name + ".sock"@;
    let a = socket_string(prefix, name, i);
    let b = socket_string(prefix, name, j);
    if a == b {
        assert(a.subrange(head.len() as int, a.len() as int) =~= decimal(i));
        assert(b.subrange(head.len() as int, b.len() as int) =~= decimal(j));
        lemma_decimal_injective(i, j);
    }
}

/// Appends one decimal digit to a string.
fn push_digit(s: &mut String, d: u64)
    requires
        d < 10,
    ensures
        final(s)@ == old(s)@.push(digit_char(d as nat)),
{
    proof {
        reveal_strlit("0");
        reveal_strlit("1");
        reveal_strlit("2");
        reveal_strlit("3");
        reveal_strlit("4");
        reveal_strlit("5");
        reveal_strlit("6");
        reveal_strlit("7");
        reveal_strlit("8");
        reveal_strlit("9");
    }
    let digit = if d == 0 {
        "0"
    } else if d == 1 {
        "1"
    } else if d == 2 {
        "2"
    } else if d == 3 {
        "3"
    } else if d == 4 {
        "4"
    } else if d == 5 {
        "5"
    } else if d == 6 {
        "6"
    } else if d == 7 {
        "7"
    } else if d == 8 {
        "8"
    } else {
        "9"
    };
    assert(digit@ =~= seq![digit_char(d as nat)]);
    s.append(digit);
    assert(final(s)@ =~= old(s)@.push(digit_char(d as nat)));
}

/// Appends the decimal digits of a number to a string.
pub fn append_decimal(s: &mut String, n: u64)
    ensures
        final(s)@ == old(s)@ + decimal(n as nat),
    decreases n,
{
    if n >= 10 {
        append_decimal(s, n / 10);
    }
    push_digit(s, n % 10);
    assert(final(s)@ =~= old(s)@ + decimal(n as nat));
}

/// The compatible string of the device class number `id`: the word
/// `virtio,device` and the number in decimal digits.
pub fn compatible(id: u64) -> (r: String)
    ensures
        r@ == compatible_string(id as nat),
{
    let mut s = String::from_str("virtio,device");
    append_decimal(&mut s, id);
    s
}

/// The path of the socket of a device's backend: the prefix, the name of
/// the device's class, the word `.sock` and the device's index within its
/// class in decimal digits.
pub fn socket_path(prefix: &str, name: &str, index: u32) -> (r: String)
    ensures
        r@ == socket_string(prefix@, name@, index as nat),
{
    let mut s = String::from_str(prefix);
    s.append(name);
    s.append(".sock");
    append_decimal(&mut s, index as u64);
    s
}

/// The configuration of the backend of a device of class `class` that has
/// `num_queues` virtqueues of `queue_size` entries: its socket is found
/// under `prefix`, and the queue size is taken by its low 16 bits.
pub fn backend_config(prefix: &str, class: &DeviceClass, num_queues: usize, queue_size: usize) -> (r:
    BackendConfig)
    ensures
        r.socket@ == socket_string(prefix@, class.name@, class.index as nat),
        r.num_queues == num_queues,
        r.queue_size == size_half(queue_size),
{
    assert(queue_size & 0xffff <= 0xffff) by (bit_vector);
    BackendConfig {
        socket: socket_path(prefix, class.name.as_str(), class.index),
        num_queues,
        queue_size: (queue_size & 0xffff) as u16,
    }
}

/// The registry of device classes.
pub struct DeviceRegistry {
    devices: Vec<DeviceInfo>,
}

impl View for DeviceRegistry {
    type V = Map<u32, ClassModel>;

    closed spec fn view(&self) -> Map<u32, ClassModel> {
        table(self.devices@)
    }
}

impl DeviceRegistry {
    /// The invariant of the registry: no class number is held twice.
    pub closed spec fn wf(&self) -> bool {
        distinct_ids(self.devices@)
    }

    /// The place of the class number `id` in the registry.
    fn position(&self, id: u32) -> (r: Option<usize>)
        ensures
            match r {
                Some(i) => i < self.devices@.len() && self.devices@[i as int].id == id,
                None => !has_class(self.devices@, id),
            },
    {
        let mut i: usize = 0;
        while i < self.devices.len()
            invariant
                i <= self.devices@.len(),
                forall|j: int| 0 <= j < i ==> (#[trigger] self.devices@[j]).id != id,
            decreases self.devices@.len() - i,
        {
            if self.devices[i].id == id {
                return Some(i);
            }
            i = i + 1;
        }
        None
    }

    /// The registry of the classes in `supported`, each given by its name
    /// and its number.
    pub fn new(supported: &[(&'static str, u32)]) -> (r: Self)
        ensures
            r.wf(),
            r@ == registered(supported@),
    {
        let mut registry = DeviceRegistry { devices: Vec::new() };
        assert(table(registry.devices@) =~= Map::empty());
        let mut i: usize = 0;
        while i < supported.len()
            invariant
                i <= supported@.len(),
                distinct_ids(registry.devices@),
                table(registry.devices@) == registered(supported@.take(i as int)),
            decreases supported@.len() - i,
        {
            let entry = supported[i];
            let info = DeviceInfo { name: String::from_str(entry.0), id: entry.1, index: 0 };
            proof {
                assert(supported@.take(i + 1).drop_last() =~= supported@.take(i as int));
                assert(supported@.take(i + 1).last() == supported@[i as int]);
            }
            match registry.position(entry.1) {
                Some(at) => {
                    proof {
                        lemma_table_update(registry.devices@, at as int, info);
                    }
                    registry.devices.set(at, info);
                },
                None => {
                    proof {
                        lemma_table_push(registry.devices@, info);
                    }
                    registry.devices.push(info);
                },
            }
            i = i + 1;
        }
        assert(supported@.take(i as int) =~= supported@);
        registry
    }

    /// Tells whether a device of class number `id` can take an index: the
    /// class is unknown, which `claim` reports, or its next index is not
    /// the last that there is.
    pub open spec fn can_claim(&self, id: u64) -> bool {
        id <= u32::MAX && self@.dom().contains(id as u32) ==> self@[id as u32].index < u32::MAX
    }

    /// Tells whether `claim` can be called for the class number `id`.
    pub fn claimable(&self, id: u64) -> (r: bool)
        requires
            self.wf(),
        ensures
            r == self.can_claim(id),
    {
        if id > u32::MAX as u64 {
            return true;
        }
        match self.position(id as u32) {
            Some(at) => {
                proof {
                    lemma_table_entry(self.devices@, at as int);
                }
                self.devices[at].index < u32::MAX
            },
            None => true,
        }
    }

    /// Takes the next index of the class number `id` for a new device.
    ///
    /// A class that the registry holds hands out its name and its index,
    /// and its index grows by one; no other class changes. For a number
    /// that the registry does not hold, the registry stays as it is and
    /// the error names the compatible string that was not found.
    pub fn claim(&mut self, id: u64) -> (r: Result<DeviceClass, Error>)
        requires
            old(self).wf(),
            old(self).can_claim(id),
        ensures
            final(self).wf(),
            id <= u32::MAX && old(self)@.dom().contains(id as u32) ==> {
                &&& r is Ok
                &&& r->Ok_0.name@ == old(self)@[id as u32].name
                &&& r->Ok_0.index == old(self)@[id as u32].index
                &&& final(self)@ == old(self)@.insert(
                    id as u32,
                    ClassModel {
                        name: old(self)@[id as u32].name,
                        index: (old(self)@[id as u32].index + 1) as u32,
                    },
                )
            },
            !(id <= u32::MAX && old(self)@.dom().contains(id as u32)) ==> {
                &&& r matches Err(Error::BaoDevNotSupported(s)) && s@ == compatible_string(
                    id as nat,
                )
                &&& final(self)@ == old(self)@
            },
    {
        if id > u32::MAX as u64 {
            return Err(Error::BaoDevNotSupported(compatible(id)));
        }
        match self.position(id as u32) {
            Some(at) => {
                proof {
                    lemma_table_entry(self.devices@, at as int);
                }
                let name = self.devices[at].name.clone();
                let index = self.devices[at].index;
                let class = DeviceClass { name: name.clone(), index };
                let info = DeviceInfo { name, id: id as u32, index: index + 1 };
                proof {
                    lemma_table_update(self.devices@, at as int, info);
                }
                self.devices.set(at, info);
                Ok(class)
            },
            None => Err(Error::BaoDevNotSupported(compatible(id))),
        }
    }
}

} // verus!
