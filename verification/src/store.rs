//! The relational store, modelled: sensors with their receive topics, and
//! the appended reading rows. The real store lives outside this crate; this
//! model carries the write path's semantics — name resolution, the
//! unknown-sensor failure, and the uniqueness of sensor names — and is what
//! the persistence contracts are stated over.

use vstd::prelude::*;

use crate::envpayload::EnvSensorReading;

verus! {

/// A sensor row: unique name, store identity, and the topic it publishes on.
#[derive(Debug)]
pub struct SensorRecord {
    pub id: u64,
    pub name: String,
    pub recv_topic: String,
}

/// One appended reading row. The row's timestamp is assigned by the store at
/// write time and is not part of the model.
#[derive(Debug)]
pub struct ReadingRow {
    pub sensor_id: u64,
    pub temperature: String,
    pub pressure: String,
    pub rel_humid: String,
    pub lux: String,
}

/// Why a write failed.
#[derive(Debug, Clone, Copy, PartialEq, Eq, Structural)]
pub enum PersistenceError {
    /// No sensor of the reading's name exists; the reading is dropped.
    UnknownSensor,
    /// The store could not be reached; the write may be retried.
    StoreUnavailable,
}

/// The identity of the first sensor named `name`, if any is.
pub open spec fn find_sensor(sensors: Seq<SensorRecord>, name: Seq<char>) -> Option<u64>
    decreases sensors.len(),
{
    if sensors.len() == 0 {
        None
    } else if sensors[0].name@ == name {
        Some(sensors[0].id)
    } else {
        find_sensor(sensors.drop_first(), name)
    }
}

/// The row a reading is written as, once its sensor resolved to `id`.
pub open spec fn row_of(id: u64, rd: EnvSensorReading) -> ReadingRow {
    ReadingRow {
        sensor_id: id,
        temperature: rd.temperature,
        pressure: rd.pressure,
        rel_humid: rd.rel_humid,
        lux: rd.lux,
    }
}

/// The store: pre-populated sensors and the readings appended so far.
#[derive(Debug)]
pub struct SensorStore {
    pub sensors: Vec<SensorRecord>,
    pub readings: Vec<ReadingRow>,
}

impl SensorStore {
    /// Sensor names are unique.
    pub open spec fn wf(self) -> bool {
        forall|i: int, j: int|
            0 <= i < j < self.sensors@.len() ==> self.sensors@[i].name@ != self.sensors@[j].name@
    }

    /// An empty store: no sensors, no readings.
    pub fn new() -> (s: SensorStore)
        ensures
            s.sensors@.len() == 0,
            s.readings@.len() == 0,
            s.wf(),
    {
        SensorStore { sensors: Vec::new(), readings: Vec::new() }
    }

    /// Add a sensor, provided its name is not taken: sensors pre-exist in
    /// the store, and this is how a store under test is populated. Returns
    /// whether the sensor was added.
    pub fn add_sensor(&mut self, id: u64, name: String, recv_topic: String) -> (added: bool)
        requires
            old(self).wf(),
        ensures
            final(self).wf(),
            added <==> find_sensor(old(self).sensors@, name@) is None,
            added ==> final(self).sensors@ == old(self).sensors@.push(
                SensorRecord { id, name, recv_topic },
            ),
            !added ==> final(self).sensors@ == old(self).sensors@,
            final(self).readings@ == old(self).readings@,
    {
        let n = self.sensors.len();
        let mut i: usize = 0;
        while i < n
            invariant
                i <= n,
                n == self.sensors@.len(),
                self.sensors@ == old(self).sensors@,
                self.readings@ == old(self).readings@,
                self.wf(),
                forall|k: int| 0 <= k < i ==> self.sensors@[k].name@ != name@,
            decreases n - i,
        {
            if self.sensors[i].name.eq(&name) {
                proof {
                    lemma_find_sensor_present(self.sensors@, name@, i as int);
                }
                return false;
            }
            i = i + 1;
        }
        proof {
            lemma_find_sensor_absent(self.sensors@, name@);
            assert forall|a: int, b: int|
                0 <= a < b < self.sensors@.len() + 1 implies (self.sensors@.push(
                SensorRecord { id, name, recv_topic },
            ))[a].name@ != (self.sensors@.push(SensorRecord { id, name, recv_topic }))[b].name@ by {
                if b < self.sensors@.len() {
                } else {
                    assert(self.sensors@[a].name@ != name@);
                }
            }
        }
        self.sensors.push(SensorRecord { id, name, recv_topic });
        true
    }
}

/// If some prefix of `sensors` misses `name` and position `at` holds it,
/// resolution succeeds (with the identity at the first such position).
pub proof fn lemma_find_sensor_present(sensors: Seq<SensorRecord>, name: Seq<char>, at: int)
    requires
        0 <= at < sensors.len(),
        sensors[at].name@ == name,
    ensures
        find_sensor(sensors, name) is Some,
    decreases sensors.len(),
{
    if sensors[0].name@ == name {
    } else {
        lemma_find_sensor_present(sensors.drop_first(), name, at - 1);
    }
}

/// If no sensor is named `name`, resolution fails.
pub proof fn lemma_find_sensor_absent(sensors: Seq<SensorRecord>, name: Seq<char>)
    requires
        forall|k: int| 0 <= k < sensors.len() ==> sensors[k].name@ != name,
    ensures
        find_sensor(sensors, name) is None,
    decreases sensors.len(),
{
    if sensors.len() == 0 {
    } else {
        lemma_find_sensor_absent(sensors.drop_first(), name);
    }
}

/// Resolution at position `at`, the first holding `name`, yields that
/// record's identity.
pub proof fn lemma_find_sensor_first(sensors: Seq<SensorRecord>, name: Seq<char>, at: int)
    requires
        0 <= at < sensors.len(),
        sensors[at].name@ == name,
        forall|k: int| 0 <= k < at ==> sensors[k].name@ != name,
    ensures
        find_sensor(sensors, name) == Some(sensors[at].id),
    decreases sensors.len(),
{
    if at == 0 {
    } else {
        lemma_find_sensor_first(sensors.drop_first(), name, at - 1);
    }
}

impl EnvSensorReading {
    /// Write this reading to the store: resolve the sensor name to its store
    /// identity and append one row. An unknown name affects no row and is
    /// `UnknownSensor`, never a silent no-op; the sensors themselves are
    /// never changed. Returns the number of rows written.
    pub fn log_to_database(&self, store: &mut SensorStore) -> (r: Result<u64, PersistenceError>)
        ensures
            final(store).sensors@ == old(store).sensors@,
            match find_sensor(old(store).sensors@, self.sensor.name@) {
                Some(id) => r == Ok::<u64, PersistenceError>(1) && final(store).readings@ == old(
                    store,
                ).readings@.push(row_of(id, *self)),
                None => r == Err::<u64, PersistenceError>(PersistenceError::UnknownSensor)
                    && final(store).readings@ == old(store).readings@,
            },
            old(store).wf() ==> final(store).wf(),
    {
        let n = store.sensors.len();
        let mut i: usize = 0;
        while i < n
            invariant
                i <= n,
                n == store.sensors@.len(),
                store.sensors@ == old(store).sensors@,
                store.readings@ == old(store).readings@,
                forall|k: int| 0 <= k < i ==> store.sensors@[k].name@ != self.sensor.name@,
            decreases n - i,
        {
            if store.sensors[i].name.eq(&self.sensor.name) {
                proof {
                    lemma_find_sensor_first(store.sensors@, self.sensor.name@, i as int);
                }
                let id = store.sensors[i].id;
                store.readings.push(
                    ReadingRow {
                        sensor_id: id,
                        temperature: self.temperature.clone(),
                        pressure: self.pressure.clone(),
                        rel_humid: self.rel_humid.clone(),
                        lux: self.lux.clone(),
                    },
                );
                return Ok(1);
            }
            i = i + 1;
        }
        proof {
            lemma_find_sensor_absent(store.sensors@, self.sensor.name@);
        }
        Err(PersistenceError::UnknownSensor)
    }
}

} // verus!
