use rflink_gateway::domain::errors::DomainError;
use rflink_gateway::domain::frame::Frame;
use rflink_gateway::domain::lacrosse_v3_protocol::{
    binarize, decrypt, is_valid_raw, reverse_binary, sub_frames_of, to_tuple_pulse, LaCrosseData,
    LacrosseError, EXPECTED_FRAMES,
};
use rflink_gateway::domain::oregon_temp_protocol::{OregonError, OregonTempData};
use rflink_gateway::domain::raw_frame::RawFrame;
use rflink_gateway::domain::sensor_value_type::{SensorValueType, ValueTypeError};

fn chars(s: &str) -> Vec<char> {
    s.chars().collect()
}

fn tokens(list: &[&str]) -> Vec<Vec<char>> {
    list.iter().map(|t| chars(t)).collect()
}

/// The pulse list that is read back as the given symbol string.
fn pulses_for(symbols: &str) -> String {
    let pairs: Vec<&str> = symbols
        .chars()
        .map(|c| match c {
            'h' => "600,700",
            '0' => "300,100",
            _ => "100,300",
        })
        .collect();
    pairs.join(",")
}

fn lacrosse_line(symbols: &str) -> String {
    format!("20;3C;DEBUG;Pulses=511;Pulses(uSec)={};", pulses_for(symbols))
}

/// Probe 203, 21.5 degrees, 45 percent.
const SUB_FRAME: &str = "11001011000011010011010001010010000000000";

#[test]
fn is_valid_raw_empty() {
    let input = RawFrame {
        data: "".to_string(),
        timestamp: chrono::Local::now().naive_local(),
    };

    let result = is_valid_raw(&input);
    assert_eq!(result, false);
}

#[test]
fn is_valid_raw_unsplitable() {
    let input = RawFrame {
        data: "I am a non sense string".to_string(),
        timestamp: chrono::Local::now().naive_local(),
    };

    let result = is_valid_raw(&input);
    assert_eq!(result, false);
}

#[test]
fn is_valid_raw_not_enought_sections() {
    let input = RawFrame {
        data: "test;test;0".to_string(),
        timestamp: chrono::Local::now().naive_local(),
    };

    let result = is_valid_raw(&input);
    assert_eq!(result, false);
}

#[test]
fn is_valid_raw_not_debug() {
    let input = RawFrame {
        data: "test;test;NOTDEBUG;Pulses=511;".to_string(),
        timestamp: chrono::Local::now().naive_local(),
    };

    let result = is_valid_raw(&input);
    assert_eq!(result, false);
}

#[test]
fn is_valid_raw_not_have_511_pulses() {
    let input = RawFrame {
        data: "test;test;DEBUG;Pulses=521;".to_string(),
        timestamp: chrono::Local::now().naive_local(),
    };

    let result = is_valid_raw(&input);
    assert_eq!(result, false);
}

#[test]
fn is_valid_raw_ok() {
    let input = RawFrame {
        data: "test;test;DEBUG;Pulses=511;".to_string(),
        timestamp: chrono::Local::now().naive_local(),
    };

    let result = is_valid_raw(&input);
    assert_eq!(result, true);
}

#[test]
fn create_frame_normal() {
    let data = RawFrame::new("0;10;40");
    let frame = Frame::decrypt_raw(&data);

    match frame {
        Err(_) => assert!(false, "frame should be unknow"),
        Ok(f) => match f {
            Frame::Unknown(_) => assert!(true),
            _ => assert!(false, "frame should be unknow"),
        },
    }
}

#[test]
fn create_frame_lacrosse() {
    let data = RawFrame::new("test;test;DEBUG;Pulses=511");
    let frame = Frame::decrypt_raw(&data);

    match frame {
        Err(_) => assert!(false, "frame should be unknow"),
        Ok(f) => match f {
            Frame::Unknown(_) => assert!(true),
            _ => assert!(false, "frame should be unknow"),
        },
    }
}

#[test]
fn from_raw_ok() {
    let raw = RawFrame::new("20;03;Oregon Temp;ID=0410;TEMP=0153;BAT=OK;");
    let r_data = OregonTempData::from_raw(&raw);

    assert_eq!(r_data.is_ok(), true);
    let data = r_data.unwrap();
    assert_eq!(data.sensor_id, "0410");
    assert_eq!(data.battery_state, "OK");
    assert_eq!(data.temperature as f64 / 10.0, 33.9);
    assert_eq!(data.temperature, 339);
}

#[test]
fn unknown_frame_keeps_the_line() {
    let raw = RawFrame::new("20;00;Nodo RadioFrequencyLink - RFLink Gateway V1.1 - R46;");
    match Frame::decrypt_raw(&raw) {
        Ok(Frame::Unknown(kept)) => {
            assert_eq!(kept.data, raw.data);
            assert_eq!(kept.timestamp, raw.timestamp);
        }
        _ => panic!("an unclaimed line is an unknown frame"),
    }
}

#[test]
fn short_lines_are_unknown() {
    for line in ["", ";", "a;b", "Oregon Temp", "DEBUG;Pulses=511"] {
        let raw = RawFrame::new(line);
        assert!(matches!(Frame::decrypt_raw(&raw), Ok(Frame::Unknown(_))));
    }
}

#[test]
fn oregon_validity_looks_at_the_third_field() {
    let oregon_valid = rflink_gateway::domain::oregon_temp_protocol::is_valid_raw;
    assert!(oregon_valid(&RawFrame::new("20;03;Oregon Temp;ID=0410;TEMP=0153;BAT=OK;")));
    assert!(oregon_valid(&RawFrame::new("a;b;Oregon Temp")));
    assert!(!oregon_valid(&RawFrame::new("a;Oregon Temp;b")));
    assert!(!oregon_valid(&RawFrame::new("a;b;Oregon Temp ;c")));
    assert!(!oregon_valid(&RawFrame::new("a;b")));
    assert!(!oregon_valid(&RawFrame::new("")));
}

#[test]
fn oregon_temperature_is_hexadecimal() {
    let data = OregonTempData::from_raw(&RawFrame::new("20;03;Oregon Temp;ID=A1;TEMP=00ff;BAT=LOW;"))
        .unwrap();
    assert_eq!(data.sensor_id, "A1");
    assert_eq!(data.temperature, 255);
    assert_eq!(data.battery_state, "LOW");

    let negative =
        OregonTempData::from_raw(&RawFrame::new("20;03;Oregon Temp;ID=A1;TEMP=-1F;BAT=OK;"))
            .unwrap();
    assert_eq!(negative.temperature, -31);
}

#[test]
fn oregon_unreadable_temperature() {
    let r = OregonTempData::from_raw(&RawFrame::new("20;03;Oregon Temp;ID=0410;TEMP=01G3;BAT=OK;"));
    match r {
        Err(OregonError::ParsingFrameError { value }) => assert_eq!(value, "01G3"),
        _ => panic!("the temperature is no number"),
    }
    let empty = OregonTempData::from_raw(&RawFrame::new("20;03;Oregon Temp;ID=0410;TEMP=;BAT=OK;"));
    match empty {
        Err(OregonError::ParsingFrameError { value }) => assert_eq!(value, ""),
        _ => panic!("the temperature is missing"),
    }
    let huge = OregonTempData::from_raw(&RawFrame::new(
        "20;03;Oregon Temp;ID=0410;TEMP=FFFFFFFFFFFFFFFFF;BAT=OK;",
    ));
    assert!(matches!(huge, Err(OregonError::ParsingFrameError { .. })));
}

#[test]
fn oregon_missing_fields() {
    for line in [
        "20;03;Oregon Temp",
        "20;03;Oregon Temp;ID=0410",
        "20;03;Oregon Temp;ID=0410;TEMP",
        "20;03;Oregon Temp;ID=0410;TEMP=0153",
        "20;03;Oregon Temp;ID=0410;TEMP=0153;BA",
        "20;03;Oregon Temp;ID;TEMP=0153;BAT=OK;",
    ] {
        let r = OregonTempData::from_raw(&RawFrame::new(line));
        assert!(matches!(r, Err(OregonError::InvalidFrameError)), "{}", line);
    }
}

#[test]
fn oregon_frame_through_decrypt_raw() {
    let raw = RawFrame::new("20;03;Oregon Temp;ID=0410;TEMP=0153;BAT=OK;");
    match Frame::decrypt_raw(&raw) {
        Ok(Frame::OregonSc(data)) => {
            assert_eq!(data.sensor_id, "0410");
            assert_eq!(data.temperature, 339);
        }
        _ => panic!("the Oregon codec claims the line"),
    }
    let broken = RawFrame::new("20;03;Oregon Temp;ID=0410;TEMP=xx;BAT=OK;");
    match Frame::decrypt_raw(&broken) {
        Err(DomainError::InternalOregonError {
            source: OregonError::ParsingFrameError { value },
        }) => assert_eq!(value, "xx"),
        _ => panic!("the failure of the codec is the failure of the frame"),
    }
}

#[test]
fn oregon_values() {
    let data = OregonTempData::from_raw(&RawFrame::new("20;03;Oregon Temp;ID=0410;TEMP=0153;BAT=OK;"))
        .unwrap();
    let values = data.to_sensors_values().unwrap();
    assert_eq!(values.len(), 1);
    assert_eq!(values[0].id.probe_id, "0410");
    assert_eq!(values[0].id.protocol, "oregon_temp");
    assert_eq!(values[0].id.probe_value_name, "temperature");
    assert_eq!(values[0].timestamp, data.timestamp);
    match values[0].value {
        SensorValueType::Temperature(t) => assert_eq!(t.value(), 339),
        _ => panic!("an Oregon frame carries a temperature"),
    }

    let hot = OregonTempData::from_raw(&RawFrame::new("20;03;Oregon Temp;ID=0410;TEMP=02BC;BAT=OK;"))
        .unwrap();
    assert_eq!(hot.temperature, 700);
    assert_eq!(
        hot.to_sensors_values().err(),
        Some(ValueTypeError::InvalidTemperature { value: 700 })
    );
}

#[test]
fn pulses_are_read_in_pairs() {
    let pairs = to_tuple_pulse(&tokens(&["10", "20", "-3", "+4", "5"])).unwrap();
    assert_eq!(pairs, vec![(10, 20), (-3, 4)]);
    assert_eq!(to_tuple_pulse(&tokens(&["1", "2", "3", "4"])).unwrap(), vec![(1, 2), (3, 4)]);
    assert_eq!(to_tuple_pulse(&tokens(&["1"])).unwrap(), vec![]);
    assert_eq!(to_tuple_pulse(&tokens(&[])).unwrap(), vec![]);
    assert_eq!(
        to_tuple_pulse(&tokens(&["2147483647", "-2147483648"])).unwrap(),
        vec![(i32::MAX, i32::MIN)]
    );
}

#[test]
fn first_unreadable_pulse_is_reported() {
    match to_tuple_pulse(&tokens(&["10", "x", "y", "4"])) {
        Err(LacrosseError::ParsingFrameError { value }) => assert_eq!(value, "x"),
        _ => panic!("x is no number"),
    }
    match to_tuple_pulse(&tokens(&["10", "20", "", "4"])) {
        Err(LacrosseError::ParsingFrameError { value }) => assert_eq!(value, ""),
        _ => panic!("an empty token is no number"),
    }
    match to_tuple_pulse(&tokens(&["2147483648", "1"])) {
        Err(LacrosseError::ParsingFrameError { value }) => assert_eq!(value, "2147483648"),
        _ => panic!("the pulse does not fit"),
    }
    assert!(to_tuple_pulse(&tokens(&["1", "2", "zz"])).is_ok());
}

#[test]
fn pairs_become_symbols() {
    let signal = vec![(451, 451), (451, 450), (450, 451), (10, 10), (11, 10), (0, -1), (-5, 3)];
    assert_eq!(binarize(signal), "h011001");
    assert_eq!(binarize(vec![]), "");
}

#[test]
fn bits_are_complemented() {
    assert_eq!(reverse_binary("0110"), "1001");
    assert_eq!(reverse_binary("1h0x"), "0111");
    assert_eq!(reverse_binary(""), "");
}

#[test]
fn lacrosse_frame_decodes() {
    let symbols = format!("01hhhh{0}hhhh{0}hhhh{0}hhhh{0}hhhh10", SUB_FRAME);
    let raw = RawFrame::new(&lacrosse_line(&symbols));
    assert!(is_valid_raw(&raw));
    let data = decrypt(&raw).unwrap();
    assert_eq!(data.sensor_id, "203");
    assert_eq!(data.temperature, 215);
    assert_eq!(data.humidity, 45);
    assert_eq!(data.timestamp, raw.timestamp);
    let same = LaCrosseData::from_raw(&raw).unwrap();
    assert_eq!(same, data);
}

#[test]
fn lacrosse_takes_the_first_sub_frame() {
    let other = "00000001000011111111111101111111000000000";
    let symbols = format!("0101hhhh{}hhhh{}", other, SUB_FRAME);
    let data = decrypt(&RawFrame::new(&lacrosse_line(&symbols))).unwrap();
    assert_eq!(data.sensor_id, "1");
    assert_eq!(data.temperature, -500);
    assert_eq!(data.humidity, 0);
}

#[test]
fn lacrosse_extreme_values() {
    let all_zero = "0".repeat(41);
    let data = decrypt(&RawFrame::new(&lacrosse_line(&all_zero))).unwrap();
    assert_eq!(data.sensor_id, "0");
    assert_eq!(data.temperature, 4095 - 500);
    assert_eq!(data.humidity, 127);
    let all_one = "1".repeat(41);
    let data = decrypt(&RawFrame::new(&lacrosse_line(&all_one))).unwrap();
    assert_eq!(data.sensor_id, "255");
    assert_eq!(data.temperature, -500);
    assert_eq!(data.humidity, 0);
}

#[test]
fn lacrosse_markers_do_not_overlap() {
    let symbols = format!("hhhhhhhh{}", SUB_FRAME);
    let data = decrypt(&RawFrame::new(&lacrosse_line(&symbols))).unwrap();
    assert_eq!(data.temperature, 215);
    match decrypt(&RawFrame::new(&lacrosse_line(&format!("hhhhh{}", &SUB_FRAME[1..])))) {
        Err(LacrosseError::ParsingFrameError { value }) => assert_eq!(value, "h1001011"),
        _ => panic!("the fifth sync symbol belongs to the next piece"),
    }
    match decrypt(&RawFrame::new(&lacrosse_line(&format!("hhhhh{}", SUB_FRAME)))) {
        Err(LacrosseError::InvalidFrameError) => (),
        _ => panic!("the piece after the marker has 42 symbols"),
    }
}

#[test]
fn lacrosse_without_sub_frame() {
    for symbols in ["", "0101", &SUB_FRAME[..40], &format!("{}0", SUB_FRAME)] {
        let r = decrypt(&RawFrame::new(&lacrosse_line(symbols)));
        assert!(matches!(r, Err(LacrosseError::InvalidFrameError)), "{}", symbols);
    }
}

#[test]
fn lacrosse_without_payload() {
    for line in [
        "test;test;DEBUG;Pulses=511;",
        "test;test;DEBUG;Pulses=511;Pulses(uSec);",
        "test;test;DEBUG;Pulses=511",
        "",
    ] {
        let r = decrypt(&RawFrame::new(line));
        assert!(matches!(r, Err(LacrosseError::InvalidFrameError)), "{}", line);
    }
}

#[test]
fn lacrosse_unreadable_pulse() {
    let r = decrypt(&RawFrame::new("20;3C;DEBUG;Pulses=511;Pulses(uSec)=100,abc,300,100;"));
    match r {
        Err(LacrosseError::ParsingFrameError { value }) => assert_eq!(value, "abc"),
        _ => panic!("abc is no pulse"),
    }
}

#[test]
fn lacrosse_unreadable_identifier() {
    let symbols = format!("110h1011{}", &SUB_FRAME[8..]);
    match decrypt(&RawFrame::new(&lacrosse_line(&symbols))) {
        Err(LacrosseError::ParsingFrameError { value }) => assert_eq!(value, "110h1011"),
        _ => panic!("the identifier holds a sync symbol"),
    }
}

#[test]
fn lacrosse_sync_symbols_in_values_count_as_zero() {
    let symbols = format!("{}hh{}", &SUB_FRAME[..12], &SUB_FRAME[14..]);
    let data = decrypt(&RawFrame::new(&lacrosse_line(&symbols))).unwrap();
    assert_eq!(data.temperature, 0b111011001011 - 500);
}

#[test]
fn lacrosse_frame_through_decrypt_raw() {
    let raw = RawFrame::new(&lacrosse_line(SUB_FRAME));
    match Frame::decrypt_raw(&raw) {
        Ok(Frame::LaCrosseV3(data)) => assert_eq!(data.sensor_id, "203"),
        _ => panic!("the LaCrosse codec claims the line"),
    }
    let empty = RawFrame::new("test;test;DEBUG;Pulses=511;");
    assert!(matches!(
        Frame::decrypt_raw(&empty),
        Err(DomainError::InternalLacrosseError {
            source: LacrosseError::InvalidFrameError
        })
    ));
}

#[test]
fn lacrosse_values() {
    let data = decrypt(&RawFrame::new(&lacrosse_line(SUB_FRAME))).unwrap();
    let values = data.to_sensors_values().unwrap();
    assert_eq!(values.len(), 2);
    assert_eq!(values[0].id.probe_id, "203");
    assert_eq!(values[0].id.protocol, "lacrosse_v3");
    assert_eq!(values[0].id.probe_value_name, "temperature");
    assert_eq!(values[1].id.probe_id, "203");
    assert_eq!(values[1].id.protocol, "lacrosse_v3");
    assert_eq!(values[1].id.probe_value_name, "humidity");
    assert_eq!(values[0].timestamp, data.timestamp);
    assert_eq!(values[1].timestamp, data.timestamp);
    match (values[0].value, values[1].value) {
        (SensorValueType::Temperature(t), SensorValueType::Humidity(h)) => {
            assert_eq!(t.value(), 215);
            assert_eq!(h.value(), 45);
        }
        _ => panic!("the temperature comes first, then the humidity"),
    }
}

#[test]
fn lacrosse_values_out_of_range() {
    let cold = decrypt(&RawFrame::new(&lacrosse_line(&"1".repeat(41)))).unwrap();
    assert_eq!(
        cold.to_sensors_values().err(),
        Some(ValueTypeError::InvalidTemperature { value: -500 })
    );
    let damp = format!("{}0000000{}", &SUB_FRAME[..25], &SUB_FRAME[32..]);
    let data = decrypt(&RawFrame::new(&lacrosse_line(&damp))).unwrap();
    assert_eq!(data.humidity, 127);
    assert_eq!(
        data.to_sensors_values().err(),
        Some(ValueTypeError::InvalidHumidity { value: 127 })
    );
}

#[test]
fn unknown_frame_has_no_values() {
    let frame = Frame::decrypt_raw(&RawFrame::new("0;10;40")).unwrap();
    assert_eq!(frame.obtain_sensor_values().unwrap().len(), 0);
}

#[test]
fn debug_payload() {
    let raw = RawFrame::new("20;3C;DEBUG;Pulses=511;Pulses(uSec)=1,2,3;");
    assert_eq!(raw.get_debug_data(), Some("1,2,3".to_string()));
    assert_eq!(RawFrame::new("a;b;c;d;0123456789012").get_debug_data(), Some("".to_string()));
    assert_eq!(RawFrame::new("a;b;c;d;012345678901").get_debug_data(), None);
    assert_eq!(RawFrame::new("a;b;c;d").get_debug_data(), None);
}

#[test]
fn debug_mode_answer() {
    assert!(RawFrame::new("20;01;RFDEBUG=ON;").is_debug());
    assert!(!RawFrame::new("20;01;RFDEBUG=OFF;").is_debug());
    assert!(!RawFrame::new("20;RFDEBUG=ON").is_debug());
    assert!(RawFrame::from_string("20;01;RFDEBUG=ON".to_string()).is_debug());
}

#[test]
fn fields_of_a_line() {
    let fields = RawFrame::new("a;;b;").to_vec();
    assert_eq!(fields, vec![chars("a"), chars(""), chars("b"), chars("")]);
    assert_eq!(RawFrame::new("").to_vec(), vec![chars("")]);
}

#[test]
fn sub_frames_are_counted() {
    let symbols = format!("01hhhh{0}hhhh{0}hhhh{0}hhhh{0}hhhh10", SUB_FRAME);
    let found = sub_frames_of(&RawFrame::new(&lacrosse_line(&symbols))).unwrap();
    assert_eq!(found.len(), EXPECTED_FRAMES);
    assert!(found.iter().all(|f| f == &chars(SUB_FRAME)));
    let two = format!("{0}hhhh0101hhhh{0}0hhhh", SUB_FRAME);
    assert_eq!(sub_frames_of(&RawFrame::new(&lacrosse_line(&two))).unwrap().len(), 1);
    assert_eq!(sub_frames_of(&RawFrame::new(&lacrosse_line("0101"))).unwrap().len(), 0);
    assert!(matches!(
        sub_frames_of(&RawFrame::new("a;b;c;d")),
        Err(LacrosseError::InvalidFrameError)
    ));
}

#[test]
fn no_line_is_claimed_by_both_codecs() {
    let oregon_valid = rflink_gateway::domain::oregon_temp_protocol::is_valid_raw;
    for line in [
        "",
        "0;10;40",
        "test;test;DEBUG;Pulses=511;",
        "test;test;DEBUG;Pulses=511;Oregon Temp;",
        "20;03;Oregon Temp;ID=0410;TEMP=0153;BAT=OK;",
        "20;03;Oregon Temp;Pulses=511;DEBUG;",
        "DEBUG;Oregon Temp;DEBUG;Pulses=511;Oregon Temp",
    ] {
        let raw = RawFrame::new(line);
        assert!(!(is_valid_raw(&raw) && oregon_valid(&raw)), "{}", line);
    }
}

#[test]
fn oregon_frame_read_at_a_given_moment() {
    let raw = RawFrame::new("20;03;Oregon Temp;ID=0410;TEMP=0153;BAT=OK;");
    let at = chrono::NaiveDate::from_ymd_opt(2020, 5, 17)
        .unwrap()
        .and_hms_opt(12, 0, 0)
        .unwrap();
    let data = OregonTempData::from_raw_at(&raw, at).unwrap();
    assert_eq!(data.timestamp, at);
    assert_eq!(data.sensor_id, "0410");
    assert_eq!(data.temperature, 339);
    assert_eq!(data.battery_state, "OK");
}

/// A reading of a LaCrosse line made with the standard library's own splitting
/// and number parsing, for lines with a payload of at least three tokens.
fn reading_by_std(data: &str) -> Result<(String, i64, u32), String> {
    let fields = data.split(';').collect::<Vec<&str>>();
    let signal = fields[4][13..].split(',').collect::<Vec<&str>>();
    let mut pairs: Vec<(i32, i32)> = Vec::new();
    let ended_index = signal.len() - 3;
    let mut i = 0;
    loop {
        let t1 = signal[i].parse::<i32>().map_err(|_| signal[i].to_string())?;
        let t2 = signal[i + 1].parse::<i32>().map_err(|_| signal[i + 1].to_string())?;
        pairs.push((t1, t2));
        if i >= ended_index {
            break;
        }
        i += 2;
    }
    let binary = pairs
        .into_iter()
        .map(|t| match t {
            (x, y) if x > 450 && y > 450 => "h",
            (x, y) if x > y => "0",
            _ => "1",
        })
        .collect::<Vec<&str>>()
        .concat();
    let frames = binary.split("hhhh").filter(|x| x.len() == 41).collect::<Vec<&str>>();
    if frames.is_empty() {
        return Err("no frame".to_string());
    }
    let w = frames[0];
    let flip = |bits: &str| -> String {
        bits.chars().map(|c| if c == '1' { '0' } else { '1' }).collect()
    };
    let id = isize::from_str_radix(&w[..8], 2).map_err(|_| w[..8].to_string())?;
    let temperature = i64::from_str_radix(&flip(&w[12..24]), 2).unwrap() - 500;
    let humidity = u32::from_str_radix(&flip(&w[25..32]), 2).unwrap();
    Ok((id.to_string(), temperature, humidity))
}

#[test]
fn decoding_agrees_with_a_reading_by_std() {
    let mut seed: u64 = 0x2545F4914F6CDD1D;
    let mut next = move |bound: u64| -> u64 {
        seed = seed
            .wrapping_mul(6364136223846793005)
            .wrapping_add(1442695040888963407);
        (seed >> 33) % bound
    };
    let mut decoded = 0;
    for round in 0..400 {
        let mut symbols = String::new();
        let pieces = 1 + next(6);
        for piece in 0..pieces {
            if piece > 0 {
                for _ in 0..(4 + next(2)) {
                    symbols.push('h');
                }
            }
            let length = match next(4) {
                0 => next(60),
                1 => 40 + next(3),
                _ => 41,
            };
            for _ in 0..length {
                symbols.push(match next(40) {
                    0 => 'h',
                    n if n % 2 == 0 => '0',
                    _ => '1',
                });
            }
        }
        let mut payload = pulses_for(&symbols);
        match next(12) {
            0 => payload.push_str(",12"),
            1 => payload.push_str(",x,1"),
            2 => payload = format!("1,,{}", payload),
            _ => {}
        }
        let line = format!("20;3C;DEBUG;Pulses=511;Pulses(uSec)={};", payload);
        if payload.split(',').count() < 3 {
            continue;
        }
        let expected = reading_by_std(&line);
        let found = decrypt(&RawFrame::new(&line));
        match (expected, found) {
            (Ok((id, temperature, humidity)), Ok(data)) => {
                decoded += 1;
                assert_eq!(data.sensor_id, id, "round {}", round);
                assert_eq!(data.temperature, temperature, "round {}", round);
                assert_eq!(data.humidity, humidity, "round {}", round);
            }
            (Err(reason), Err(LacrosseError::InvalidFrameError)) => {
                assert_eq!(reason, "no frame", "round {}", round)
            }
            (Err(reason), Err(LacrosseError::ParsingFrameError { value })) => {
                assert_eq!(reason, value, "round {}", round)
            }
            (expected, found) => panic!("round {}: {:?} against {:?}", round, expected, found),
        }
    }
    assert!(decoded > 50);
}
