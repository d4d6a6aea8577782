use bytes::BytesMut;
use rflink_gateway::db::{row_of, Statement, WriteAction, WriteEvent, WriteState};
use rflink_gateway::db_job::{WorkerAction, WorkerEvent, WorkerState};
use rflink_gateway::domain::sensor::SensorValue;
use rflink_gateway::domain::sensor_identifier::SensorIdentifier;
use rflink_gateway::domain::sensor_value_type::{
    Humidity, SensorValueType, Temperature, ValueType,
};
use rflink_gateway::errors::RfError;
use rflink_gateway::listener::{decode, encode, LinkAction, LinkEvent, LinkState};
use rflink_gateway::sql_util::{layout_to_read, layout_to_write};
use rflink_gateway::text::{contains, found_at};

fn chars(s: &str) -> Vec<char> {
    s.chars().collect()
}

#[test]
fn write_without_connection_fails_at_once() {
    let (state, action) =
        rflink_gateway::db::advance(WriteState::Start, WriteEvent::Begin { connected: false });
    assert_eq!(state, WriteState::Done);
    match action {
        WriteAction::Finish(Err(RfError::DbAccessError { value })) => {
            assert_eq!(value, "access error during migration")
        }
        _ => panic!("there is no connection"),
    }
}

fn run_write(closed: Result<usize, String>, inserted: Result<usize, String>) -> Result<(), RfError> {
    let (state, action) =
        rflink_gateway::db::advance(WriteState::Start, WriteEvent::Begin { connected: true });
    assert_eq!(state, WriteState::Closing);
    assert!(matches!(action, WriteAction::Execute(Statement::CloseOpenInterval)));
    let was_closed = closed.is_ok();
    let (state, action) = rflink_gateway::db::advance(state, WriteEvent::Executed(closed));
    assert_eq!(state, WriteState::Inserting { closed: was_closed });
    assert!(matches!(action, WriteAction::Execute(Statement::InsertInterval)));
    let (state, action) = rflink_gateway::db::advance(state, WriteEvent::Executed(inserted));
    assert_eq!(state, WriteState::Done);
    match action {
        WriteAction::Finish(result) => result,
        _ => panic!("the write is over"),
    }
}

#[test]
fn write_closes_then_inserts() {
    assert!(run_write(Ok(1), Ok(1)).is_ok());
    assert!(run_write(Ok(0), Ok(1)).is_ok());
    assert!(run_write(Err("no open row".to_string()), Ok(1)).is_ok());
    assert!(run_write(Ok(1), Err("duplicate".to_string())).is_ok());
    match run_write(Err("locked".to_string()), Err("disk full".to_string())) {
        Err(RfError::DbError { source }) => assert_eq!(source, "disk full"),
        _ => panic!("neither statement went through"),
    }
}

#[test]
fn write_out_of_step() {
    for state in [WriteState::Closing, WriteState::Inserting { closed: true }, WriteState::Done] {
        let (next, action) =
            rflink_gateway::db::advance(state, WriteEvent::Begin { connected: true });
        assert_eq!(next, WriteState::Done);
        assert!(matches!(action, WriteAction::Finish(Err(RfError::NotImplementedError))));
    }
    for state in [WriteState::Start, WriteState::Done] {
        let (next, action) = rflink_gateway::db::advance(state, WriteEvent::Executed(Ok(1)));
        assert_eq!(next, WriteState::Done);
        assert!(matches!(action, WriteAction::Finish(Err(RfError::NotImplementedError))));
    }
}

#[test]
fn worker_serves_until_the_queue_closes() {
    let advance = rflink_gateway::db_job::advance;
    let (state, action) = advance(WorkerState::Starting, &WorkerEvent::Opened(Ok(())));
    assert_eq!(state, WorkerState::Serving { connected: true });
    assert_eq!(action, WorkerAction::TakeJob);
    let (state, action) = advance(state, &WorkerEvent::JobDone(Ok(())));
    assert_eq!(state, WorkerState::Serving { connected: true });
    assert_eq!(action, WorkerAction::TakeJob);
    let failed = WorkerEvent::JobDone(Err(RfError::DbError {
        source: "disk full".to_string(),
    }));
    let (state, action) = advance(state, &failed);
    assert_eq!(state, WorkerState::Serving { connected: true });
    assert_eq!(action, WorkerAction::LogAndTakeJob);
    let (state, action) = advance(state, &WorkerEvent::QueueClosed);
    assert_eq!(state, WorkerState::Stopped);
    assert_eq!(action, WorkerAction::Stop);
    let (state, action) = advance(state, &WorkerEvent::JobDone(Ok(())));
    assert_eq!(state, WorkerState::Stopped);
    assert_eq!(action, WorkerAction::Stop);
}

#[test]
fn worker_without_connection_still_drains_jobs() {
    let advance = rflink_gateway::db_job::advance;
    let (state, action) = advance(
        WorkerState::Starting,
        &WorkerEvent::Opened(Err("unable to open database file".to_string())),
    );
    assert_eq!(state, WorkerState::Serving { connected: false });
    assert_eq!(action, WorkerAction::LogAndTakeJob);
    for _ in 0..3 {
        let failed = WorkerEvent::JobDone(Err(RfError::DbAccessError {
            value: "access error during migration".to_string(),
        }));
        let (next, action) = advance(state, &failed);
        assert_eq!(next, WorkerState::Serving { connected: false });
        assert_eq!(action, WorkerAction::LogAndTakeJob);
    }
    let (state, _) = advance(WorkerState::Starting, &WorkerEvent::QueueClosed);
    assert_eq!(state, WorkerState::Stopped);
}

#[test]
fn lines_are_cut_at_line_ends() {
    let mut buffer = BytesMut::from(&b"20;00;hello\r\n20;01;wor"[..]);
    assert_eq!(decode(&mut buffer).unwrap(), Some("20;00;hello\r\n".to_string()));
    assert_eq!(&buffer[..], b"20;01;wor");
    assert_eq!(decode(&mut buffer).unwrap(), None);
    assert_eq!(&buffer[..], b"20;01;wor");
    buffer.extend_from_slice(b"ld\n\nrest");
    assert_eq!(decode(&mut buffer).unwrap(), Some("20;01;world\n".to_string()));
    assert_eq!(decode(&mut buffer).unwrap(), Some("\n".to_string()));
    assert_eq!(decode(&mut buffer).unwrap(), None);
    assert_eq!(&buffer[..], b"rest");
    let mut empty = BytesMut::new();
    assert_eq!(decode(&mut empty).unwrap(), None);
}

#[test]
fn line_that_is_no_text_is_taken_out_and_reported() {
    let mut buffer = BytesMut::from(&b"ab\xff\nnext\n"[..]);
    assert!(matches!(decode(&mut buffer), Err(RfError::Utf8RawConvertError)));
    assert_eq!(&buffer[..], b"next\n");
    assert_eq!(decode(&mut buffer).unwrap(), Some("next\n".to_string()));
}

#[test]
fn lines_are_written_with_a_line_end() {
    let mut buffer = BytesMut::new();
    encode("10;rfdebug=on;\r\n", &mut buffer).unwrap();
    assert_eq!(&buffer[..], b"10;rfdebug=on;\r\n\n");
    encode("é", &mut buffer).unwrap();
    assert_eq!(&buffer[..], "10;rfdebug=on;\r\n\né\n".as_bytes());
    encode("", &mut buffer).unwrap();
    assert_eq!(buffer.len(), 21);
    assert_eq!(decode(&mut buffer).unwrap(), Some("10;rfdebug=on;\r\n".to_string()));
}

#[test]
fn conversation_with_the_receiver() {
    let advance = rflink_gateway::listener::advance;
    let (state, action) = advance(
        LinkState::Greeting,
        LinkEvent::Line("20;00;Nodo RadioFrequencyLink - RFLink Gateway V1.1 - R46;".to_string()),
    );
    assert_eq!(state, LinkState::Requested);
    match action {
        LinkAction::Send(line) => assert_eq!(line, "10;rfdebug=on;\r\n"),
        _ => panic!("the greeting is answered with the request"),
    }
    let (state, action) = advance(state, LinkEvent::Line("20;01;RFDEBUG=ON;\r\n".to_string()));
    assert_eq!(state, LinkState::Streaming);
    assert!(matches!(action, LinkAction::Engaged));
    let (state, action) = advance(state, LinkEvent::Line("20;02;DEBUG;Pulses=511;".to_string()));
    assert_eq!(state, LinkState::Streaming);
    match action {
        LinkAction::Forward(line) => assert_eq!(line, "20;02;DEBUG;Pulses=511;"),
        _ => panic!("a line is handed on"),
    }
    let (state, action) = advance(state, LinkEvent::Ended);
    assert_eq!(state, LinkState::Closed);
    assert!(matches!(action, LinkAction::NotEngaged));
}

#[test]
fn conversation_that_does_not_engage() {
    let advance = rflink_gateway::listener::advance;
    for event in [
        LinkEvent::Line("20;01;RFDEBUG=OFF;".to_string()),
        LinkEvent::Failed,
        LinkEvent::Ended,
    ] {
        let (state, action) = advance(LinkState::Requested, event);
        assert_eq!(state, LinkState::Closed);
        assert!(matches!(action, LinkAction::NotEngaged));
    }
    for state in [LinkState::Greeting, LinkState::Streaming, LinkState::Closed] {
        let (next, action) = advance(state, LinkEvent::Failed);
        assert_eq!(next, LinkState::Closed);
        assert!(matches!(action, LinkAction::NotEngaged));
    }
    let (state, _) = advance(LinkState::Closed, LinkEvent::Line("x".to_string()));
    assert_eq!(state, LinkState::Closed);
}

#[test]
fn search_agrees_with_std() {
    let hays = ["", "a", "RFDEBUG=ON", "20;01;RFDEBUG=ON;", "RFDEBUG=O", "RFDEBUG=ORFDEBUG=ON", "aaa"];
    let needles = ["", "a", "aa", "RFDEBUG=ON", "ON;", "b"];
    for hay in hays {
        for needle in needles {
            assert_eq!(
                contains(&chars(hay), &chars(needle)),
                hay.contains(needle),
                "{:?} in {:?}",
                needle,
                hay
            );
        }
    }
    assert!(found_at(&chars("abcabc"), &chars("bc"), 1));
    assert!(found_at(&chars("abcabc"), &chars("bc"), 4));
    assert!(!found_at(&chars("abcabc"), &chars("bc"), 0));
    assert!(found_at(&chars("abc"), &chars(""), 3));
}

#[test]
fn row_of_a_committed_value() {
    let now = chrono::Local::now().naive_local();
    let warm = SensorValue {
        id: SensorIdentifier::new("203", "lacrosse_v3", "temperature"),
        timestamp: now,
        value: SensorValueType::Temperature(Temperature::create(215).unwrap()),
    };
    let dao = row_of(&warm);
    assert_eq!(dao.id, "203");
    assert_eq!(dao.protocol, "lacrosse_v3");
    assert_eq!(dao.dt_start, now);
    assert_eq!(dao.dt_end, None);
    assert_eq!(dao.temperature, Some(215));
    assert_eq!(dao.humidity, None);
    let damp = SensorValue {
        id: SensorIdentifier::new("203", "lacrosse_v3", "humidity"),
        timestamp: now,
        value: SensorValueType::Humidity(Humidity::create(45).unwrap()),
    };
    let dao = row_of(&damp);
    assert_eq!(dao.temperature, None);
    assert_eq!(dao.humidity, Some(45));
}

#[test]
fn layouts_of_timestamps() {
    let write = layout_to_write();
    assert_eq!(write, "%Y-%m-%dT%H:%M:%S%.f");
    assert_eq!(layout_to_read("2020-05-17T12:34:56.789"), "%Y-%m-%dT%H:%M:%S%.f");
    assert_eq!(layout_to_read("2020-05-17 12:34:56.789"), "%Y-%m-%d %H:%M:%S%.f");
    assert_eq!(layout_to_read("2020-05-17T"), "%Y-%m-%dT%H:%M:%S%.f");
    assert_eq!(layout_to_read("2020-05-17"), "%Y-%m-%d %H:%M:%S%.f");
    assert_eq!(layout_to_read(""), "%Y-%m-%d %H:%M:%S%.f");
    let t = chrono::NaiveDate::from_ymd_opt(2020, 5, 17)
        .unwrap()
        .and_hms_milli_opt(12, 34, 56, 789)
        .unwrap();
    let text = t.format(write).to_string();
    assert_eq!(text, "2020-05-17T12:34:56.789");
    assert_eq!(
        chrono::NaiveDateTime::parse_from_str(&text, layout_to_read(&text)),
        Ok(t)
    );
}
