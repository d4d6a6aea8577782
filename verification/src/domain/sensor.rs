//! Observations, the history of one sensor, and the repository of all sensors.

use vstd::prelude::*;
use chrono::NaiveDateTime;
use crate::domain::sensor_identifier::{SensorIdentifier, SensorKey};
use crate::domain::sensor_value_type::{Measure, SensorValueType};

verus! {

/// The mathematical value of a `SensorValue`.
pub struct Observation {
    pub id: SensorKey,
    pub timestamp: NaiveDateTime,
    pub value: Measure,
}

/// One observation: what was measured, by which sensor, and when.
#[derive(Debug)]
pub struct SensorValue {
    pub id: SensorIdentifier,
    pub timestamp: NaiveDateTime,
    pub value: SensorValueType,
}

impl View for SensorValue {
    type V = Observation;

    open spec fn view(&self) -> Observation {
        Observation { id: self.id@, timestamp: self.timestamp, value: self.value@ }
    }
}

impl Clone for SensorValue {
    fn clone(&self) -> (r: SensorValue)
        ensures
            r@ == self@,
    {
        SensorValue { id: self.id.clone(), timestamp: self.timestamp, value: self.value }
    }
}

/// The views of a vector of observations.
pub open spec fn observations(values: Seq<SensorValue>) -> Seq<Observation> {
    values.map_values(|v: SensorValue| v@)
}

/// The mathematical value of a `Sensor`: its identifier and its observations,
/// oldest first.
pub struct SensorView {
    pub id: SensorKey,
    pub values: Seq<Observation>,
}

impl SensorView {
    /// The history with one more observation at its end.
    pub open spec fn with(self, value: Observation) -> SensorView {
        SensorView { id: self.id, values: self.values.push(value) }
    }

    /// The latest observation, if there is one.
    pub open spec fn last(self) -> Option<Observation> {
        if self.values.len() == 0 {
            None
        } else {
            Some(self.values.last())
        }
    }
}

/// The history of one measurement stream: observations are only ever added at
/// the end.
#[derive(Debug)]
pub struct Sensor {
    id: SensorIdentifier,
    values: Vec<SensorValue>,
}

impl View for Sensor {
    type V = SensorView;

    closed spec fn view(&self) -> SensorView {
        SensorView { id: self.id@, values: observations(self.values@) }
    }
}

impl Sensor {
    /// A sensor without observations.
    pub fn new(id: &SensorIdentifier) -> (sensor: Sensor)
        ensures
            sensor@ == (SensorView { id: id@, values: Seq::empty() }),
    {
        let sensor = Sensor {
            id: SensorIdentifier::new(
                id.probe_id.as_str(),
                id.protocol.as_str(),
                id.probe_value_name.as_str(),
            ),
            values: Vec::new(),
        };
        assert(observations(sensor.values@) == Seq::<Observation>::empty());
        sensor
    }

    pub fn add_value(&mut self, value: SensorValue)
        ensures
            final(self)@ == old(self)@.with(value@),
    {
        self.values.push(value);
        assert(observations(self.values@) == observations(old(self).values@).push(value@));
    }

    pub fn get_last(&self) -> (last: Option<SensorValue>)
        ensures
            match last {
                Some(value) => self@.last() == Some(value@),
                None => self@.last() is None,
            },
    {
        if self.values.len() == 0 {
            None
        } else {
            let last = self.values[self.values.len() - 1].clone();
            Some(last)
        }
    }

    /// The identifier of the measurement stream.
    pub fn id(&self) -> (id: &SensorIdentifier)
        ensures
            id@ == self@.id,
    {
        &self.id
    }

    /// The observations, oldest first.
    pub fn values(&self) -> (values: &Vec<SensorValue>)
        ensures
            observations(values@) == self@.values,
    {
        &self.values
    }
}

impl Clone for Sensor {
    fn clone(&self) -> (r: Sensor)
        ensures
            r@ == self@,
    {
        let mut values: Vec<SensorValue> = Vec::new();
        let mut i: usize = 0;
        while i < self.values.len()
            invariant
                i <= self.values.len(),
                observations(values@) == observations(self.values@).take(i as int),
            decreases self.values.len() - i,
        {
            let value = self.values[i].clone();
            assert(observations(self.values@).take(i + 1) == observations(self.values@).take(
                i as int,
            ).push(value@));
            values.push(value);
            i += 1;
        }
        assert(observations(self.values@).take(self.values.len() as int) == observations(
            self.values@,
        ));
        Sensor { id: self.id.clone(), values }
    }
}

/// The views of a vector of sensors.
pub open spec fn sensor_views(sensors: Seq<Sensor>) -> Seq<SensorView> {
    sensors.map_values(|s: Sensor| s@)
}

/// The first sensor with the identifier `key`, if there is one.
pub open spec fn lookup(sensors: Seq<SensorView>, key: SensorKey) -> Option<SensorView>
    decreases sensors.len(),
{
    if sensors.len() == 0 {
        None
    } else if sensors[0].id == key {
        Some(sensors[0])
    } else {
        lookup(sensors.skip(1), key)
    }
}

/// The sensors after recording one observation: it joins the history of the
/// first sensor with its identifier, or starts the history of a new sensor at
/// the end of the list.
pub open spec fn record(sensors: Seq<SensorView>, value: Observation) -> Seq<SensorView>
    decreases sensors.len(),
{
    if sensors.len() == 0 {
        seq![SensorView { id: value.id, values: seq![value] }]
    } else if sensors[0].id == value.id {
        seq![sensors[0].with(value)] + sensors.skip(1)
    } else {
        seq![sensors[0]] + record(sensors.skip(1), value)
    }
}

/// Whether no two sensors share an identifier, every sensor has at least one
/// observation, and every observation carries the identifier of its sensor.
pub open spec fn well_formed(sensors: Seq<SensorView>) -> bool {
    &&& forall|i: int, j: int|
        0 <= i < j < sensors.len() ==> (#[trigger] sensors[i]).id != (#[trigger] sensors[j]).id
    &&& forall|i: int| 0 <= i < sensors.len() ==> (#[trigger] sensors[i]).values.len() > 0
    &&& forall|i: int, k: int|
        0 <= i < sensors.len() && 0 <= k < sensors[i].values.len() ==> (
        #[trigger] sensors[i].values[k]).id == sensors[i].id
}

/// The latest observation of each sensor.
pub open spec fn last_values(sensors: Seq<SensorView>) -> Seq<Option<Observation>> {
    sensors.map_values(|s: SensorView| s.last())
}

/// The view of an optional observation.
pub open spec fn latest_of(value: Option<SensorValue>) -> Option<Observation> {
    match value {
        Some(v) => Some(v@),
        None => None,
    }
}

/// The views of a vector of optional observations.
pub open spec fn latest(values: Seq<Option<SensorValue>>) -> Seq<Option<Observation>> {
    values.map_values(|v: Option<SensorValue>| latest_of(v))
}

/// All sensors, each with the history of its observations.
pub struct SensorRepository {
    sensors: Vec<Sensor>,
}

impl View for SensorRepository {
    type V = Seq<SensorView>;

    closed spec fn view(&self) -> Seq<SensorView> {
        sensor_views(self.sensors@)
    }
}

impl SensorRepository {
    /// Holds of a new repository and is kept by every change to one.
    pub open spec fn wf(&self) -> bool {
        well_formed(self@)
    }

    /// An empty repository.
    pub fn new() -> (repo: SensorRepository)
        ensures
            repo@ == Seq::<SensorView>::empty(),
            repo.wf(),
    {
        SensorRepository { sensors: Vec::new() }
    }

    /// The index of the first sensor with the identifier `id`.
    fn position(&self, id: &SensorIdentifier) -> (r: Option<usize>)
        ensures
            match r {
                Some(i) => i < self@.len() && self@[i as int].id == id@ && forall|j: int|
                    0 <= j < i ==> (#[trigger] self@[j]).id != id@,
                None => forall|j: int| 0 <= j < self@.len() ==> (#[trigger] self@[j]).id != id@,
            },
    {
        let mut i: usize = 0;
        while i < self.sensors.len()
            invariant
                i <= self.sensors.len(),
                forall|j: int| 0 <= j < i ==> (#[trigger] self@[j]).id != id@,
            decreases self.sensors.len() - i,
        {
            if self.sensors[i].id == *id {
                return Some(i);
            }
            i += 1;
        }
        None
    }

    /// The number of sensors.
    pub fn len(&self) -> (n: usize)
        ensures
            n == self@.len(),
    {
        self.sensors.len()
    }

    pub fn extract_sensor(&self, id: &SensorIdentifier) -> (sensor: Option<Sensor>)
        ensures
            match sensor {
                Some(s) => lookup(self@, id@) == Some(s@),
                None => lookup(self@, id@) is None,
            },
    {
        match self.position(id) {
            Some(i) => {
                proof {
                    lemma_lookup_found(self@, id@, i as int);
                }
                Some(self.sensors[i].clone())
            },
            None => {
                proof {
                    lemma_lookup_absent(self@, id@);
                }
                None
            },
        }
    }

    /// Every sensor with its whole history, in the order in which the sensors
    /// were first observed.
    pub fn get_all_state(&self) -> (state: Vec<Sensor>)
        ensures
            sensor_views(state@) == self@,
    {
        let mut state: Vec<Sensor> = Vec::new();
        let mut i: usize = 0;
        while i < self.sensors.len()
            invariant
                i <= self.sensors.len(),
                sensor_views(state@) == self@.take(i as int),
            decreases self.sensors.len() - i,
        {
            let sensor = self.sensors[i].clone();
            assert(self@.take(i + 1) == self@.take(i as int).push(sensor@));
            state.push(sensor);
            i += 1;
        }
        state
    }

    /// The latest observation of every sensor, in the order in which the
    /// sensors were first observed.
    pub fn get_last_values(&self) -> (last: Vec<Option<SensorValue>>)
        ensures
            latest(last@) == last_values(self@),
    {
        let mut last: Vec<Option<SensorValue>> = Vec::new();
        let mut i: usize = 0;
        while i < self.sensors.len()
            invariant
                i <= self.sensors.len(),
                latest(last@) == last_values(self@).take(i as int),
            decreases self.sensors.len() - i,
        {
            let value = self.sensors[i].get_last();
            assert(last_values(self@).take(i + 1) == last_values(self@).take(i as int).push(
                latest_of(value),
            ));
            last.push(value);
            i += 1;
        }
        last
    }

    pub fn add_value(&mut self, value: SensorValue)
        ensures
            final(self)@ == record(old(self)@, value@),
            old(self).wf() ==> final(self).wf(),
    {
        let ghost before = self@;
        let ghost added = value@;
        proof {
            if well_formed(before) {
                lemma_record_keeps_well_formed(before, added);
            }
        }
        match self.position(&value.id) {
            Some(i) => {
                proof {
                    lemma_record_found(self@, value@, i as int);
                }
                self.sensors[i].add_value(value);
            },
            None => {
                proof {
                    lemma_record_new(self@, value@);
                }
                let mut nsensor = Sensor::new(&value.id);
                nsensor.add_value(value);
                self.sensors.push(nsensor);
            },
        }
        assert(self@ == record(before, added));
    }
}

/// The first sensor with the identifier `key` is the one that `lookup` finds.
pub proof fn lemma_lookup_found(sensors: Seq<SensorView>, key: SensorKey, i: int)
    requires
        0 <= i < sensors.len(),
        sensors[i].id == key,
        forall|j: int| 0 <= j < i ==> (#[trigger] sensors[j]).id != key,
    ensures
        lookup(sensors, key) == Some(sensors[i]),
    decreases sensors.len(),
{
    if i > 0 {
        let rest = sensors.skip(1);
        assert forall|j: int| 0 <= j < i - 1 implies (#[trigger] rest[j]).id != key by {}
        lemma_lookup_found(rest, key, i - 1);
    }
}

/// `lookup` finds nothing exactly when no sensor has the identifier `key`.
pub proof fn lemma_lookup_absent(sensors: Seq<SensorView>, key: SensorKey)
    ensures
        lookup(sensors, key) is None <==> forall|j: int|
            0 <= j < sensors.len() ==> (#[trigger] sensors[j]).id != key,
        lookup(sensors, key) matches Some(s) ==> s.id == key && sensors.contains(s),
    decreases sensors.len(),
{
    if sensors.len() > 0 {
        let rest = sensors.skip(1);
        lemma_lookup_absent(rest, key);
        if sensors[0].id != key {
            if lookup(rest, key) is None {
                assert forall|j: int| 0 <= j < sensors.len() implies (#[trigger] sensors[j]).id
                    != key by {
                    if j > 0 {
                        assert(rest[j - 1] == sensors[j]);
                    }
                }
            } else {
                let s = lookup(rest, key)->0;
                let k = choose|k: int| 0 <= k < rest.len() && rest[k] == s;
            }
        }
    }
}

/// Recording a value for an identifier first met at index `i` lengthens the
/// history at that index and changes nothing else.
pub proof fn lemma_record_found(sensors: Seq<SensorView>, value: Observation, i: int)
    requires
        0 <= i < sensors.len(),
        sensors[i].id == value.id,
        forall|j: int| 0 <= j < i ==> (#[trigger] sensors[j]).id != value.id,
    ensures
        record(sensors, value) == sensors.update(i, sensors[i].with(value)),
        lookup(sensors, value.id) == Some(sensors[i]),
    decreases sensors.len(),
{
    if i > 0 {
        let rest = sensors.skip(1);
        assert forall|j: int| 0 <= j < i - 1 implies (#[trigger] rest[j]).id != value.id by {}
        lemma_record_found(rest, value, i - 1);
    }
}

/// Recording a value for an identifier that no sensor has adds a sensor at the
/// end, with that value as its whole history.
pub proof fn lemma_record_new(sensors: Seq<SensorView>, value: Observation)
    requires
        forall|j: int| 0 <= j < sensors.len() ==> (#[trigger] sensors[j]).id != value.id,
    ensures
        record(sensors, value) == sensors.push(SensorView { id: value.id, values: seq![value] }),
        lookup(sensors, value.id) is None,
    decreases sensors.len(),
{
    if sensors.len() > 0 {
        let rest = sensors.skip(1);
        assert forall|j: int| 0 <= j < rest.len() implies (#[trigger] rest[j]).id != value.id by {}
        lemma_record_new(rest, value);
    }
}

/// After recording a value, its identifier leads to a sensor whose latest
/// observation is that value.
pub proof fn lemma_record_then_lookup(sensors: Seq<SensorView>, value: Observation)
    ensures
        lookup(record(sensors, value), value.id) matches Some(sensor) && sensor.id == value.id
            && sensor.last() == Some(value),
        lookup(sensors, value.id) matches Some(before) ==> lookup(
            record(sensors, value),
            value.id,
        ) == Some(before.with(value)),
    decreases sensors.len(),
{
    if sensors.len() > 0 && sensors[0].id != value.id {
        lemma_record_then_lookup(sensors.skip(1), value);
        let after = seq![sensors[0]] + record(sensors.skip(1), value);
        assert(after.skip(1) == record(sensors.skip(1), value));
    }
}

/// Recording a value leaves the sensors of every other identifier as they
/// were.
pub proof fn lemma_record_keeps_others(sensors: Seq<SensorView>, value: Observation, key: SensorKey)
    requires
        key != value.id,
    ensures
        lookup(record(sensors, value), key) == lookup(sensors, key),
    decreases sensors.len(),
{
    let after = record(sensors, value);
    if sensors.len() > 0 {
        if sensors[0].id == value.id {
            assert(after.skip(1) == sensors.skip(1));
        } else {
            lemma_record_keeps_others(sensors.skip(1), value, key);
            assert(after.skip(1) == record(sensors.skip(1), value));
        }
    } else {
        assert(lookup(after.skip(1), key) is None);
    }
}

/// Recording a value keeps the sensors well formed.
pub proof fn lemma_record_keeps_well_formed(sensors: Seq<SensorView>, value: Observation)
    requires
        well_formed(sensors),
    ensures
        well_formed(record(sensors, value)),
{
    let after = record(sensors, value);
    if exists|i: int| 0 <= i < sensors.len() && sensors[i].id == value.id {
        let i = choose|i: int| 0 <= i < sensors.len() && sensors[i].id == value.id;
        assert forall|j: int| 0 <= j < i implies (#[trigger] sensors[j]).id != value.id by {}
        lemma_record_found(sensors, value, i);
        assert forall|a: int, k: int|
            0 <= a < after.len() && 0 <= k < after[a].values.len() implies (
        #[trigger] after[a].values[k]).id == after[a].id by {}
    } else {
        lemma_record_new(sensors, value);
    }
}

} // verus!
