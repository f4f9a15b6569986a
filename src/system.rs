//! The hardware overview: host metadata, disks and the sensor temperatures.

use vstd::prelude::*;

verus! {

/// Host metadata; it carries no field yet.
#[derive(Clone, Copy, Debug, PartialEq, Eq, Structural, Default)]
pub struct HostData {}

/// One disk, named by its description.
#[derive(Debug)]
pub struct DiskData {
    pub name: String,
}

impl DiskData {
    pub fn new(name: String) -> (r: DiskData)
        ensures
            r.name == name,
    {
        DiskData { name }
    }
}

/// One sensor as read: its label and its temperature in Celsius, if it has one.
#[derive(Debug)]
pub struct SensorData<T> {
    pub label: String,
    pub temperature: Option<T>,
}

impl<T> SensorData<T> {
    pub fn new(label: String, temperature: Option<T>) -> (r: SensorData<T>)
        ensures
            r.label == label,
            r.temperature == temperature,
    {
        SensorData { label, temperature }
    }
}

/// The overview: host metadata, disks, and a table from sensor label to
/// temperature with each label once.
#[derive(Debug)]
pub struct SysMonitorData<T> {
    pub host: HostData,
    pub disks: Vec<DiskData>,
    pub sensors: Vec<(String, T)>,
}

/// A reading's temperature, or `missing` when it has none.
pub open spec fn temperature_or<T>(t: Option<T>, missing: T) -> T {
    match t {
        Some(v) => v,
        None => missing,
    }
}

/// The temperature of the last reading labelled `label` (a later reading of a
/// label replaces an earlier one).
pub open spec fn latest_temperature<T>(s: Seq<SensorData<T>>, label: Seq<char>, missing: T) -> T
    decreases s.len(),
{
    if s.len() == 0 {
        missing
    } else if s.last().label@ == label {
        temperature_or(s.last().temperature, missing)
    } else {
        latest_temperature(s.drop_last(), label, missing)
    }
}

/// `table` maps each label of `readings`, once, to its latest temperature, and
/// holds no other label.
pub open spec fn is_sensor_table<T>(readings: Seq<SensorData<T>>, missing: T, table: Seq<(String, T)>) -> bool {
    &&& forall|a: int, b: int| 0 <= a < b < table.len() ==> table[a].0@ != table[b].0@
    &&& forall|k: int|
        0 <= k < table.len() ==> (#[trigger] table[k]).1 == latest_temperature(readings, table[k].0@, missing)
    &&& forall|k: int|
        0 <= k < table.len() ==> exists|j: int| 0 <= j < readings.len() && (#[trigger] readings[j]).label@ == (#[trigger] table[k]).0@
    &&& forall|j: int|
        0 <= j < readings.len() ==> exists|k: int| 0 <= k < table.len() && (#[trigger] table[k]).0@ == (#[trigger] readings[j]).label@
}

/// The position of `label` in `table`, if it is there.
fn find_label<T>(table: &Vec<(String, T)>, label: &String) -> (r: Option<usize>)
    ensures
        match r {
            Some(k) => k < table@.len() && table@[k as int].0@ == label@,
            None => forall|k: int| 0 <= k < table@.len() ==> (#[trigger] table@[k]).0@ != label@,
        },
{
    let mut k: usize = 0;
    while k < table.len()
        invariant
            0 <= k <= table@.len(),
            forall|q: int| 0 <= q < k ==> (#[trigger] table@[q]).0@ != label@,
        decreases table@.len() - k,
    {
        if table[k].0 == *label {
            return Some(k);
        }
        k = k + 1;
    }
    None
}

/// The facts that one more reading, with label `after.last().label`, turns a
/// table of the readings before it into `new_table`: its entry `k` was
/// replaced, or appended when the label was new, and nothing else moved.
pub open spec fn table_step<T>(after: Seq<SensorData<T>>, missing: T, old_table: Seq<(String, T)>,
    new_table: Seq<(String, T)>, k: int) -> bool {
    &&& after.len() > 0
    &&& 0 <= k < new_table.len()
    &&& new_table[k].0@ == after.last().label@
    &&& new_table[k].1 == temperature_or(after.last().temperature, missing)
    &&& forall|q: int| 0 <= q < new_table.len() && q != k ==> q < old_table.len() && new_table[q] == old_table[q]
    &&& if new_table.len() == old_table.len() + 1 {
        &&& k == old_table.len()
        &&& forall|q: int| 0 <= q < old_table.len() ==> (#[trigger] old_table[q]).0@ != after.last().label@
    } else {
        &&& new_table.len() == old_table.len()
        &&& old_table[k].0@ == after.last().label@
    }
}

proof fn lemma_table_step_values<T>(after: Seq<SensorData<T>>, missing: T, old_table: Seq<(String, T)>,
    new_table: Seq<(String, T)>, k: int)
    requires
        is_sensor_table(after.drop_last(), missing, old_table),
        table_step(after, missing, old_table, new_table, k),
    ensures
        forall|a: int, b: int| 0 <= a < b < new_table.len() ==> new_table[a].0@ != new_table[b].0@,
        forall|q: int|
            0 <= q < new_table.len() ==> (#[trigger] new_table[q]).1 == latest_temperature(after, new_table[q].0@, missing),
{
    assert forall|a: int, b: int| 0 <= a < b < new_table.len() implies new_table[a].0@ != new_table[b].0@ by {
        if a == k {
            assert(old_table[b].0@ != after.last().label@);
        } else if b == k {
            assert(old_table[a].0@ != after.last().label@);
        }
    }
}

proof fn lemma_table_step_labels<T>(after: Seq<SensorData<T>>, missing: T, old_table: Seq<(String, T)>,
    new_table: Seq<(String, T)>, k: int)
    requires
        is_sensor_table(after.drop_last(), missing, old_table),
        table_step(after, missing, old_table, new_table, k),
    ensures
        forall|q: int|
            0 <= q < new_table.len() ==> exists|j: int| 0 <= j < after.len() && (#[trigger] after[j]).label@ == (#[trigger] new_table[q]).0@,
        forall|j: int|
            0 <= j < after.len() ==> exists|q: int| 0 <= q < new_table.len() && (#[trigger] new_table[q]).0@ == (#[trigger] after[j]).label@,
{
    let before = after.drop_last();
    let i = before.len() as int;
    assert forall|q: int| 0 <= q < new_table.len() implies exists|j: int|
        0 <= j < after.len() && (#[trigger] after[j]).label@ == (#[trigger] new_table[q]).0@ by {
        if q == k {
            assert(after[i].label@ == new_table[q].0@);
        } else {
            assert(old_table[q] == new_table[q]);
            let j = choose|j: int| 0 <= j < before.len() && (#[trigger] before[j]).label@ == (#[trigger] old_table[q]).0@;
            assert(after[j] == before[j]);
        }
    }
    assert forall|j: int| 0 <= j < after.len() implies exists|q: int|
        0 <= q < new_table.len() && (#[trigger] new_table[q]).0@ == (#[trigger] after[j]).label@ by {
        if j == i {
            assert(new_table[k].0@ == after[j].label@);
        } else {
            assert(after[j] == before[j]);
            let q = choose|q: int| 0 <= q < old_table.len() && (#[trigger] old_table[q]).0@ == (#[trigger] before[j]).label@;
            if q == k {
                assert(new_table[k].0@ == old_table[q].0@);
            } else {
                assert(new_table[q] == old_table[q]);
            }
        }
    }
}

proof fn lemma_table_step<T>(after: Seq<SensorData<T>>, missing: T, old_table: Seq<(String, T)>,
    new_table: Seq<(String, T)>, k: int)
    requires
        is_sensor_table(after.drop_last(), missing, old_table),
        table_step(after, missing, old_table, new_table, k),
    ensures
        is_sensor_table(after, missing, new_table),
{
    lemma_table_step_values(after, missing, old_table, new_table, k);
    lemma_table_step_labels(after, missing, old_table, new_table, k);
}

/// The overview from a fresh scan of the sensors, in the order they were
/// read: each label maps to the temperature of its last reading, and a sensor
/// with no temperature counts as `missing`. There are no disks yet and the
/// host metadata is empty.
pub fn system_info<T: Copy>(readings: &Vec<SensorData<T>>, missing: T) -> (r: SysMonitorData<T>)
    ensures
        is_sensor_table(readings@, missing, r.sensors@),
        r.disks@.len() == 0,
{
    let mut table: Vec<(String, T)> = Vec::new();
    let mut i: usize = 0;
    while i < readings.len()
        invariant
            0 <= i <= readings@.len(),
            is_sensor_table(readings@.take(i as int), missing, table@),
        decreases readings@.len() - i,
    {
        let ghost old_table = table@;
        let value = match readings[i].temperature {
            Some(t) => t,
            None => missing,
        };
        let label = readings[i].label.clone();
        let ghost k: int;
        match find_label(&table, &label) {
            Some(j) => {
                table.set(j, (label, value));
                proof {
                    k = j as int;
                }
            },
            None => {
                table.push((label, value));
                proof {
                    k = old_table.len() as int;
                }
            },
        }
        proof {
            let after = readings@.take(i as int + 1);
            assert(after.drop_last() == readings@.take(i as int));
            lemma_table_step(after, missing, old_table, table@, k);
        }
        i = i + 1;
    }
    assert(readings@.take(readings@.len() as int) == readings@);
    SysMonitorData { host: HostData {}, disks: Vec::new(), sensors: table }
}

} // verus!
