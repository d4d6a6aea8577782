//! The sensor domain: frames, codecs, typed values, the sensor aggregate and the
//! dispatch of commands into events.

pub mod command_event;
pub mod errors;
pub mod external_message;
pub mod frame;
pub mod lacrosse_v3_protocol;
pub mod oregon_temp_protocol;
pub mod raw_frame;
pub mod sensor;
pub mod sensor_identifier;
pub mod sensor_value_type;

use vstd::prelude::*;
use command_event::{event_views, Command, Event, EventView};
use errors::{DomainError, DomainFailure};
use external_message::{envelops, get_external_message, ExternalMessageView, MessageSender};
use frame::{decrypted, frame_values, reading_view, Frame, FrameView};
use raw_frame::{RawFrame, RawFrameView};
use sensor::{
    lemma_lookup_absent, lemma_record_keeps_others, lemma_record_then_lookup, lookup,
    observations, record, well_formed, Observation, SensorRepository, SensorValue, SensorView,
};
use sensor_value_type::ValueTypeError;

verus! {

/// The view of the outcome of a dispatch.
pub open spec fn outcome_view(r: Result<Vec<Event>, DomainError>) -> Result<
    Seq<EventView>,
    DomainFailure,
> {
    match r {
        Ok(events) => Ok(event_views(events@)),
        Err(e) => Err(e@),
    }
}

/// What to do with one observation, given the sensors known so far. The first
/// observation of a sensor is always recorded. A later one is recorded when it
/// differs enough from the sensor's latest value, and dropped when it does
/// not; comparing it with a value of the other kind is an error.
pub open spec fn decision(sensors: Seq<SensorView>, value: Observation) -> Result<
    Option<EventView>,
    DomainFailure,
> {
    match lookup(sensors, value.id) {
        None => Ok(Some(EventView::ValueChanged(value))),
        Some(sensor) => match sensor.last() {
            None => Ok(None),
            Some(last) => match last.value.variation(value.value) {
                Err(source) => Err(DomainFailure::InvalidSensorValueError { source }),
                Ok(true) => Ok(Some(EventView::ValueChanged(value))),
                Ok(false) => Ok(None),
            },
        },
    }
}

/// The events for a list of observations, each decided against the same
/// sensors. The first error gives up the whole list.
pub open spec fn decisions(sensors: Seq<SensorView>, values: Seq<Observation>) -> Result<
    Seq<EventView>,
    DomainFailure,
>
    decreases values.len(),
{
    if values.len() == 0 {
        Ok(Seq::empty())
    } else {
        match decisions(sensors, values.drop_last()) {
            Err(e) => Err(e),
            Ok(events) => match decision(sensors, values.last()) {
                Err(e) => Err(e),
                Ok(Some(event)) => Ok(events.push(event)),
                Ok(None) => Ok(events),
            },
        }
    }
}

/// The outcome of dispatching the outcome `reading` of reading a line. A
/// failed reading fails the dispatch. An unknown frame gives one event that
/// holds the line. A decoded frame gives the events for its observations, or
/// fails when one of its values is out of range.
pub open spec fn frame_outcome(
    reading: Result<FrameView, DomainFailure>,
    sensors: Seq<SensorView>,
) -> Result<Seq<EventView>, DomainFailure> {
    match reading {
        Err(e) => Err(e),
        Ok(FrameView::Unknown(raw)) => Ok(seq![EventView::UnknownDataReceived(raw)]),
        Ok(frame) => match frame_values(frame) {
            Err(source) => Err(DomainFailure::InvalidSensorValueError { source }),
            Ok(values) => decisions(sensors, values),
        },
    }
}

/// Whether `r` is an outcome of dispatching the line `data`, received at some
/// moment, against `sensors`.
pub open spec fn input_outcome(
    data: Seq<char>,
    sensors: Seq<SensorView>,
    r: Result<Seq<EventView>, DomainFailure>,
) -> bool {
    exists|raw: RawFrameView, reading: Result<FrameView, DomainFailure>|
        raw.data == data && #[trigger] decrypted(raw, reading) && r == frame_outcome(
            reading,
            sensors,
        )
}

/// The sensors after committing a list of events, in order: a changed value is
/// recorded, an unknown line changes nothing.
pub open spec fn applied(sensors: Seq<SensorView>, events: Seq<EventView>) -> Seq<SensorView>
    decreases events.len(),
{
    if events.len() == 0 {
        sensors
    } else {
        let before = applied(sensors, events.drop_last());
        match events.last() {
            EventView::ValueChanged(value) => record(before, value),
            EventView::UnknownDataReceived(_) => before,
        }
    }
}

/// Decides what to do with one observation.
pub fn decide(value: SensorValue, repo: &SensorRepository) -> (r: Result<
    Option<Event>,
    DomainError,
>)
    ensures
        match r {
            Ok(Some(event)) => decision(repo@, value@) == Ok::<Option<EventView>, DomainFailure>(
                Some(event@),
            ),
            Ok(None) => decision(repo@, value@) == Ok::<Option<EventView>, DomainFailure>(None),
            Err(e) => decision(repo@, value@) == Err::<Option<EventView>, DomainFailure>(e@),
        },
{
    match repo.extract_sensor(&value.id) {
        None => Ok(Some(Event::ValueChanged(value))),
        Some(sensor) => match sensor.get_last() {
            None => Ok(None),
            Some(last) => match last.value.is_signifiant_variation(value.value) {
                Err(source) => Err(DomainError::InvalidSensorValueError { source }),
                Ok(true) => Ok(Some(Event::ValueChanged(value))),
                Ok(false) => Ok(None),
            },
        },
    }
}

/// Decides what to do with each observation of a list, all against the same
/// state of the repository.
pub fn dispatch_values(values: Vec<SensorValue>, repo: &SensorRepository) -> (r: Result<
    Vec<Event>,
    DomainError,
>)
    ensures
        outcome_view(r) == decisions(repo@, observations(values@)),
{
    let mut events: Vec<Event> = Vec::new();
    let mut i: usize = 0;
    let ghost all = observations(values@);
    assert(event_views(events@) == Seq::<EventView>::empty());
    while i < values.len()
        invariant
            i <= values.len(),
            all == observations(values@),
            decisions(repo@, all.take(i as int)) == Ok::<Seq<EventView>, DomainFailure>(
                event_views(events@),
            ),
        decreases values.len() - i,
    {
        proof {
            assert(all.take(i + 1).drop_last() == all.take(i as int));
        }
        match decide(values[i].clone(), repo) {
            Err(e) => {
                proof {
                    lemma_first_error_decides(repo@, all, i + 1);
                }
                return Err(e);
            },
            Ok(Some(event)) => {
                assert(event_views(events@.push(event)) == event_views(events@).push(event@));
                events.push(event);
            },
            Ok(None) => {},
        }
        i += 1;
    }
    assert(all.take(values.len() as int) == all);
    Ok(events)
}

/// Turns the outcome of reading a line into events.
pub fn dispatch_frame(reading: Result<Frame, DomainError>, repo: &SensorRepository) -> (r: Result<
    Vec<Event>,
    DomainError,
>)
    ensures
        outcome_view(r) == frame_outcome(reading_view(reading), repo@),
{
    let frame = match reading {
        Ok(frame) => frame,
        Err(e) => {
            return Err(e);
        },
    };
    match frame {
        Frame::Unknown(raw) => {
            let ghost event = EventView::UnknownDataReceived(raw@);
            let mut events: Vec<Event> = Vec::new();
            events.push(Event::UnknownDataReceived(raw));
            assert(event_views(events@) == seq![event]);
            Ok(events)
        },
        _ => {
            let sensors = match frame.obtain_sensor_values() {
                Ok(values) => values,
                Err(source) => {
                    return Err(DomainError::InvalidSensorValueError { source });
                },
            };
            dispatch_values(sensors, repo)
        },
    }
}

/// Reads a line that has just been received and turns it into events.
pub fn dispatch_input(data: &str, repo: &SensorRepository) -> (r: Result<Vec<Event>, DomainError>)
    ensures
        input_outcome(data@, repo@, outcome_view(r)),
{
    let raw = RawFrame::new(data);
    dispatch_frame(Frame::decrypt_raw(&raw), repo)
}

/// Whether `r` is an outcome of dispatching `command` against `repo`. A replay
/// hands its events back as they are. A received line is read and decided
/// upon. A query is run against the repository, and its result is the result.
pub open spec fn dispatched<F: FnOnce(&SensorRepository) -> Result<Vec<Event>, DomainError>>(
    command: Command<F>,
    repo: &SensorRepository,
    r: Result<Vec<Event>, DomainError>,
) -> bool {
    match command {
        Command::Rejeu(events) => r == Ok::<Vec<Event>, DomainError>(events),
        Command::IncomingData(input) => input_outcome(input@, repo@, outcome_view(r)),
        Command::GetData(getter) => getter.ensures((repo,), r),
    }
}

/// Turns a command into events, without changing the repository.
pub fn dispatch<F: FnOnce(&SensorRepository) -> Result<Vec<Event>, DomainError>>(
    command: Command<F>,
    repo: &SensorRepository,
) -> (r: Result<Vec<Event>, DomainError>)
    requires
        command matches Command::GetData(getter) ==> getter.requires((repo,)),
    ensures
        dispatched(command, repo, r),
{
    match command {
        Command::Rejeu(events) => Ok(events),
        Command::IncomingData(input) => dispatch_input(input.as_str(), repo),
        Command::GetData(getter) => getter(repo),
    }
}

/// Commits events to the repository, in order.
pub fn apply(events: Vec<Event>, repo: &mut SensorRepository)
    ensures
        final(repo)@ == applied(old(repo)@, event_views(events@)),
        old(repo).wf() ==> final(repo).wf(),
{
    let ghost all = event_views(events@);
    let ghost start = repo@;
    let mut i: usize = 0;
    while i < events.len()
        invariant
            i <= events.len(),
            all == event_views(events@),
            repo@ == applied(start, all.take(i as int)),
            well_formed(start) ==> repo.wf(),
        decreases events.len() - i,
    {
        proof {
            assert(all.take(i + 1).drop_last() == all.take(i as int));
        }
        match &events[i] {
            Event::ValueChanged(value) => {
                repo.add_value(value.clone());
            },
            Event::UnknownDataReceived(_) => {},
        }
        i += 1;
    }
    assert(all.take(events.len() as int) == all);
}

/// The title under which an event is told to the outside.
pub open spec fn title(event: EventView) -> Seq<char> {
    match event {
        EventView::ValueChanged(_) => "SensorValueChanged"@,
        EventView::UnknownDataReceived(_) => "SensorUnknownDataReceived"@,
    }
}

/// Whether `sender` may answer `r` when asked to send the message for `event`.
pub open spec fn told<S: MessageSender>(
    sender: &S,
    event: EventView,
    r: Result<(), DomainFailure>,
) -> bool {
    exists|msg: ExternalMessageView|
        envelops(msg, title(event), event) && #[trigger] sender.answers(msg, r)
}

/// Whether `r` is an outcome of telling `sender` about `events`, in order. The
/// first refusal ends it: the events after that one are not told, and the
/// refusal is the outcome. Without a refusal every event has been told.
pub open spec fn told_all<S: MessageSender>(
    sender: &S,
    events: Seq<EventView>,
    r: Result<(), DomainFailure>,
) -> bool {
    match r {
        Ok(_) => forall|i: int|
            0 <= i < events.len() ==> told(sender, #[trigger] events[i], Ok(())),
        Err(e) => exists|i: int|
            0 <= i < events.len() && told(sender, #[trigger] events[i], Err(e)) && forall|j: int|
                0 <= j < i ==> told(sender, #[trigger] events[j], Ok(())),
    }
}

/// Tells the outside about each event, in order, and hands the events back.
/// The first refusal ends it, and is the result.
pub fn send_external_message<S: MessageSender>(events: Vec<Event>, sender: &S) -> (r: Result<
    Vec<Event>,
    DomainError,
>)
    ensures
        r matches Ok(sent) ==> sent == events,
        told_all(
            sender,
            event_views(events@),
            match r {
                Ok(_) => Ok(()),
                Err(e) => Err(e@),
            },
        ),
{
    let ghost all = event_views(events@);
    let mut i: usize = 0;
    while i < events.len()
        invariant
            i <= events.len(),
            all == event_views(events@),
            forall|j: int| 0 <= j < i ==> told(sender, #[trigger] all[j], Ok(())),
        decreases events.len() - i,
    {
        let msg_title = match &events[i] {
            Event::ValueChanged(_) => "SensorValueChanged".to_owned(),
            Event::UnknownDataReceived(_) => "SensorUnknownDataReceived".to_owned(),
        };
        let msg = get_external_message(msg_title, &events[i]);
        assert(all[i as int] == events@[i as int]@);
        match sender.send(msg) {
            Ok(_) => {},
            Err(e) => {
                return Err(e);
            },
        }
        i += 1;
    }
    Ok(events)
}

/// A copy of a list of events.
pub fn clone_events(events: &Vec<Event>) -> (copy: Vec<Event>)
    ensures
        event_views(copy@) == event_views(events@),
{
    let mut copy: Vec<Event> = Vec::new();
    let mut i: usize = 0;
    while i < events.len()
        invariant
            i <= events.len(),
            event_views(copy@) == event_views(events@).take(i as int),
        decreases events.len() - i,
    {
        let event = events[i].clone();
        assert(event_views(events@).take(i + 1) == event_views(events@).take(i as int).push(
            event@,
        ));
        copy.push(event);
        i += 1;
    }
    copy
}

/// An error among the first `k` observations is the outcome for the whole
/// list.
pub proof fn lemma_first_error_decides(sensors: Seq<SensorView>, values: Seq<Observation>, k: int)
    requires
        0 <= k <= values.len(),
        decisions(sensors, values.take(k)) is Err,
    ensures
        decisions(sensors, values) == decisions(sensors, values.take(k)),
    decreases values.len(),
{
    if k == values.len() {
        assert(values.take(k) == values);
    } else {
        assert(values.drop_last().take(k) == values.take(k));
        lemma_first_error_decides(sensors, values.drop_last(), k);
    }
}

/// The events for a single observation.
pub proof fn lemma_single_decision(sensors: Seq<SensorView>, value: Observation)
    ensures
        decisions(sensors, seq![value]) == match decision(sensors, value) {
            Err(e) => Err::<Seq<EventView>, DomainFailure>(e),
            Ok(Some(event)) => Ok(seq![event]),
            Ok(None) => Ok(Seq::empty()),
        },
{
    let one = seq![value];
    assert(decisions(sensors, one.drop_last()) == Ok::<Seq<EventView>, DomainFailure>(
        Seq::empty(),
    ));
}

/// Committing a single changed value records it.
pub proof fn lemma_single_commit(sensors: Seq<SensorView>, value: Observation)
    ensures
        applied(sensors, seq![EventView::ValueChanged(value)]) == record(sensors, value),
{
    let one = seq![EventView::ValueChanged(value)];
    assert(applied(sensors, one.drop_last()) == sensors);
}

/// The first observation of a sensor is always recorded: a value whose
/// identifier no sensor has yields exactly one event, which carries that value.
pub proof fn law_first_observation_is_recorded(sensors: Seq<SensorView>, value: Observation)
    requires
        lookup(sensors, value.id) is None,
    ensures
        decisions(sensors, seq![value]) == Ok::<Seq<EventView>, DomainFailure>(
            seq![EventView::ValueChanged(value)],
        ),
{
    lemma_single_decision(sensors, value);
}

/// Once a value has been committed, a later value of the same sensor is
/// decided against it: one that differs enough yields exactly one event, which
/// carries the later value; one that does not yields no event; one of the
/// other kind is an error.
pub proof fn law_follow_up_is_debounced(
    sensors: Seq<SensorView>,
    first: Observation,
    next: Observation,
)
    requires
        first.id == next.id,
    ensures
        decisions(applied(sensors, seq![EventView::ValueChanged(first)]), seq![next])
            == match first.value.variation(next.value) {
            Ok(true) => Ok::<Seq<EventView>, DomainFailure>(seq![EventView::ValueChanged(next)]),
            Ok(false) => Ok(Seq::empty()),
            Err(source) => Err(DomainFailure::InvalidSensorValueError { source }),
        },
{
    lemma_single_commit(sensors, first);
    lemma_record_then_lookup(sensors, first);
    lemma_single_decision(record(sensors, first), next);
}

/// Committing a value for one sensor changes no other sensor's history, so it
/// changes no decision about another sensor's values.
pub proof fn law_sensors_are_independent(
    sensors: Seq<SensorView>,
    committed: Observation,
    value: Observation,
)
    requires
        committed.id != value.id,
    ensures
        decision(record(sensors, committed), value) == decision(sensors, value),
{
    lemma_record_keeps_others(sensors, committed, value.id);
}

/// A temperature that follows a humidity under the same identifier, or a
/// humidity that follows a temperature, is refused as an invalid comparison.
pub proof fn law_kinds_do_not_mix(sensors: Seq<SensorView>, value: Observation)
    requires
        lookup(sensors, value.id) matches Some(sensor) && sensor.last() matches Some(last)
            && !last.value.same_kind(value.value),
    ensures
        decision(sensors, value) == Err::<Option<EventView>, DomainFailure>(
            DomainFailure::InvalidSensorValueError { source: ValueTypeError::InvalidComparison },
        ),
        decisions(sensors, seq![value]) == Err::<Seq<EventView>, DomainFailure>(
            DomainFailure::InvalidSensorValueError { source: ValueTypeError::InvalidComparison },
        ),
{
    lemma_single_decision(sensors, value);
}

/// A sensor is never forgotten and its history only grows: after committing
/// any events, a sensor that was known before is still known, and its history
/// begins with what it was before.
pub proof fn law_history_only_grows(
    sensors: Seq<SensorView>,
    events: Seq<EventView>,
    key: sensor_identifier::SensorKey,
)
    requires
        lookup(sensors, key) is Some,
    ensures
        lookup(applied(sensors, events), key) matches Some(after) && lookup(
            sensors,
            key,
        )->0.values.is_prefix_of(after.values),
    decreases events.len(),
{
    if events.len() > 0 {
        law_history_only_grows(sensors, events.drop_last(), key);
        let before = applied(sensors, events.drop_last());
        match events.last() {
            EventView::ValueChanged(value) => {
                if value.id == key {
                    lemma_record_then_lookup(before, value);
                } else {
                    lemma_record_keeps_others(before, value, key);
                }
            },
            EventView::UnknownDataReceived(_) => {},
        }
    }
}

/// Whether every sensor's observations are all of one kind.
pub open spec fn one_kind_each(sensors: Seq<SensorView>) -> bool {
    forall|i: int, k: int|
        0 <= i < sensors.len() && 0 <= k < sensors[i].values.len() ==> (
        #[trigger] sensors[i].values[k]).value.same_kind(sensors[i].values[0].value)
}

/// A sensor keeps the kind of its first value for good: when every sensor
/// holds values of one kind, committing an event that was decided for an
/// observation leaves it so.
pub proof fn law_kind_is_fixed(sensors: Seq<SensorView>, value: Observation)
    requires
        well_formed(sensors),
        one_kind_each(sensors),
        decision(sensors, value) == Ok::<Option<EventView>, DomainFailure>(
            Some(EventView::ValueChanged(value)),
        ),
    ensures
        one_kind_each(record(sensors, value)),
{
    let after = record(sensors, value);
    lemma_lookup_absent(sensors, value.id);
    if lookup(sensors, value.id) is None {
        sensor::lemma_record_new(sensors, value);
    } else {
        let found = lookup(sensors, value.id)->0;
        let i = choose|i: int| 0 <= i < sensors.len() && sensors[i] == found;
        assert forall|j: int| 0 <= j < i implies (#[trigger] sensors[j]).id != value.id by {}
        sensor::lemma_record_found(sensors, value, i);
        assert forall|a: int, k: int|
            0 <= a < after.len() && 0 <= k < after[a].values.len() implies (
        #[trigger] after[a].values[k]).value.same_kind(after[a].values[0].value) by {}
    }
}

/// Whether no two observations of a list have the same identifier.
pub open spec fn distinct_ids(values: Seq<Observation>) -> bool {
    forall|i: int, j: int|
        0 <= i < j < values.len() ==> (#[trigger] values[i]).id != (#[trigger] values[j]).id
}

/// Committing the events that were decided for observations of different
/// sensors keeps the sensors well formed and every sensor of one kind, and
/// touches no sensor but those of the observations.
pub proof fn lemma_decided_events_keep_kinds(
    sensors: Seq<SensorView>,
    values: Seq<Observation>,
    key: sensor_identifier::SensorKey,
)
    requires
        well_formed(sensors),
        one_kind_each(sensors),
        distinct_ids(values),
        decisions(sensors, values) is Ok,
    ensures
        well_formed(applied(sensors, decisions(sensors, values)->Ok_0)),
        one_kind_each(applied(sensors, decisions(sensors, values)->Ok_0)),
        (forall|i: int| 0 <= i < values.len() ==> (#[trigger] values[i]).id != key) ==> lookup(
            applied(sensors, decisions(sensors, values)->Ok_0),
            key,
        ) == lookup(sensors, key),
    decreases values.len(),
{
    if values.len() > 0 {
        let earlier = values.drop_last();
        let value = values.last();
        let before = applied(sensors, decisions(sensors, earlier)->Ok_0);
        assert(distinct_ids(earlier)) by {
            assert forall|i: int, j: int| 0 <= i < j < earlier.len() implies (
            #[trigger] earlier[i]).id != (#[trigger] earlier[j]).id by {}
        }
        lemma_decided_events_keep_kinds(sensors, earlier, key);
        lemma_decided_events_keep_kinds(sensors, earlier, value.id);
        assert forall|i: int| 0 <= i < earlier.len() implies (#[trigger] earlier[i]).id
            != value.id by {}
        if forall|i: int| 0 <= i < values.len() ==> (#[trigger] values[i]).id != key {
            assert forall|i: int| 0 <= i < earlier.len() implies (#[trigger] earlier[i]).id
                != key by {}
        }
        if let Ok(Some(event)) = decision(sensors, value) {
            let events = decisions(sensors, earlier)->Ok_0.push(event);
            assert(events.drop_last() == decisions(sensors, earlier)->Ok_0);
            sensor::lemma_record_keeps_well_formed(before, value);
            law_kind_is_fixed(before, value);
            if value.id != key {
                lemma_record_keeps_others(before, value, key);
            }
        }
    }
}

/// A sensor keeps the kind of its first value through every frame: when the
/// sensors are well formed and each holds values of one kind, they still are
/// and do after committing the events of any frame.
pub proof fn law_frames_keep_kinds(sensors: Seq<SensorView>, frame: FrameView)
    requires
        well_formed(sensors),
        one_kind_each(sensors),
        frame_outcome(Ok(frame), sensors) is Ok,
    ensures
        well_formed(applied(sensors, frame_outcome(Ok(frame), sensors)->Ok_0)),
        one_kind_each(applied(sensors, frame_outcome(Ok(frame), sensors)->Ok_0)),
{
    match frame {
        FrameView::Unknown(raw) => {
            let events = seq![EventView::UnknownDataReceived(raw)];
            assert(applied(sensors, events.drop_last()) == sensors);
        },
        _ => {
            let values = frame_values(frame)->Ok_0;
            assert(distinct_ids(values)) by {
                reveal_strlit("temperature");
                reveal_strlit("humidity");
                assert("temperature"@.len() != "humidity"@.len());
            }
            lemma_decided_events_keep_kinds(sensors, values, values[0].id);
        },
    }
}

} // verus!
