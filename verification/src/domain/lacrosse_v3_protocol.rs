//! The LaCrosse V3 codec. A frame arrives as a debug dump of radio timings: a
//! list of pulse and gap lengths. Each pair is read as one symbol, the symbol
//! string is cut at the sync markers, and the first sub-frame of the right
//! length carries the probe's identifier, temperature and humidity.

use vstd::prelude::*;
use chrono::NaiveDateTime;
use crate::domain::raw_frame::{debug_data, fields, RawFrame, RawFrameView};
use crate::domain::sensor::{observations, Observation, SensorValue};
use crate::domain::sensor_identifier::{SensorIdentifier, SensorKey};
use crate::domain::sensor_value_type::{
    Humidity, Measure, SensorValueType, Temperature, ValueType, ValueTypeError,
};
use vstd::arithmetic::power2::{lemma2_to64, pow2};
use crate::text::{
    all_digits, digit_value, digits_value, is_text, lemma_binary_value_bound, parse_i64,
    parse_int, signed_decimal, signed_decimal_text, slice_chars, split, split_chars, texts,
    text_of, to_chars, to_text,
};

verus! {

/// Why a frame could not be decoded.
#[derive(Debug)]
pub enum LacrosseError {
    /// The frame holds no payload, or no sub-frame of the right length.
    InvalidFrameError,
    /// `value` should have been a number and is not.
    ParsingFrameError { value: String },
}

/// The mathematical value of a `LacrosseError`.
pub enum LacrosseFailure {
    InvalidFrameError,
    ParsingFrameError { value: Seq<char> },
}

impl View for LacrosseError {
    type V = LacrosseFailure;

    open spec fn view(&self) -> LacrosseFailure {
        match self {
            LacrosseError::InvalidFrameError => LacrosseFailure::InvalidFrameError,
            LacrosseError::ParsingFrameError { value } => LacrosseFailure::ParsingFrameError {
                value: value@,
            },
        }
    }
}

/// What one LaCrosse frame says.
#[derive(Debug, PartialEq)]
pub struct LaCrosseData {
    /// The probe's identifier, in decimal.
    pub sensor_id: String,
    /// The temperature in tenths of a degree Celsius.
    pub temperature: i64,
    /// The relative humidity in percent.
    pub humidity: u32,
    pub timestamp: NaiveDateTime,
}

/// The mathematical value of a `LaCrosseData`.
pub struct LaCrosseReading {
    pub sensor_id: Seq<char>,
    pub temperature: i64,
    pub humidity: u32,
    pub timestamp: NaiveDateTime,
}

impl View for LaCrosseData {
    type V = LaCrosseReading;

    open spec fn view(&self) -> LaCrosseReading {
        LaCrosseReading {
            sensor_id: self.sensor_id@,
            temperature: self.temperature,
            humidity: self.humidity,
            timestamp: self.timestamp,
        }
    }
}

/// A pulse or a gap longer than this many microseconds belongs to a sync marker.
pub const SYNC_THRESHOLD: i32 = 450;

/// The number of symbols in one sub-frame.
pub const FRAME_LENGTH: usize = 41;

/// The number of times a probe sends each sub-frame.
pub const EXPECTED_FRAMES: usize = 4;

/// The number of sync symbols that separate two sub-frames.
pub const SYNC_LENGTH: usize = 4;

/// The temperature is sent in tenths of a degree above -50.0 degrees.
pub const TEMPERATURE_OFFSET: i64 = 500;

/// Whether a line is a LaCrosse debug dump: at least five fields, the third
/// being `DEBUG` and the fourth `Pulses=511`.
pub open spec fn is_valid(data: Seq<char>) -> bool {
    let f = fields(data);
    f.len() >= 5 && f[2] == "DEBUG"@ && f[3] == "Pulses=511"@
}

/// The length that a pulse token denotes, if it is a decimal `i32`.
pub open spec fn pulse(token: Seq<char>) -> Option<i32> {
    match parse_int(token, 10) {
        Some(v) => if i32::MIN <= v <= i32::MAX {
            Some(v as i32)
        } else {
            None
        },
        None => None,
    }
}

/// The tokens read two by two as (pulse, gap) pairs; a last token without a
/// partner is left out. The error is the first token that is not a number.
pub open spec fn pulse_pairs(tokens: Seq<Seq<char>>) -> Result<Seq<(i32, i32)>, Seq<char>>
    decreases tokens.len(),
{
    if tokens.len() < 2 {
        Ok(Seq::empty())
    } else {
        match (pulse(tokens[0]), pulse(tokens[1])) {
            (None, _) => Err(tokens[0]),
            (Some(_), None) => Err(tokens[1]),
            (Some(p), Some(g)) => match pulse_pairs(tokens.skip(2)) {
                Ok(rest) => Ok(seq![(p, g)] + rest),
                Err(token) => Err(token),
            },
        }
    }
}

/// The symbol that a (pulse, gap) pair stands for: `h` for a sync marker, `0`
/// for a pulse longer than its gap, `1` otherwise.
pub open spec fn symbol(pair: (i32, i32)) -> char {
    if pair.0 > SYNC_THRESHOLD && pair.1 > SYNC_THRESHOLD {
        'h'
    } else if pair.0 > pair.1 {
        '0'
    } else {
        '1'
    }
}

/// The symbol string of a list of pairs.
pub open spec fn symbols(pairs: Seq<(i32, i32)>) -> Seq<char> {
    pairs.map_values(|pair: (i32, i32)| symbol(pair))
}

/// Whether a sync marker, four `h` in a row, starts at index `i` of `s`.
pub open spec fn sync_at(s: Seq<char>, i: int) -> bool {
    &&& 0 <= i
    &&& i + SYNC_LENGTH <= s.len()
    &&& s[i] == 'h'
    &&& s[i + 1] == 'h'
    &&& s[i + 2] == 'h'
    &&& s[i + 3] == 'h'
}

/// The pieces of `s[start..]` between sync markers, given that no marker
/// starts in `start..i`. Markers are found from the left and do not overlap.
pub open spec fn pieces(s: Seq<char>, start: int, i: int) -> Seq<Seq<char>>
    decreases s.len() - i,
{
    if !(0 <= start <= i) || i + SYNC_LENGTH > s.len() {
        seq![s.subrange(start, s.len() as int)]
    } else if sync_at(s, i) {
        seq![s.subrange(start, i)] + pieces(s, i + SYNC_LENGTH, i + SYNC_LENGTH)
    } else {
        pieces(s, start, i + 1)
    }
}

/// The pieces of the symbol string `s` between sync markers.
pub open spec fn sync_split(s: Seq<char>) -> Seq<Seq<char>> {
    pieces(s, 0, 0)
}

/// Whether a piece has the length of a sub-frame.
pub open spec fn is_frame(piece: Seq<char>) -> bool {
    piece.len() == FRAME_LENGTH
}

/// The pieces that are sub-frames, in order.
pub open spec fn frames_among(pieces: Seq<Seq<char>>) -> Seq<Seq<char>> {
    pieces.filter(|piece: Seq<char>| is_frame(piece))
}

/// The sub-frames of the symbol string `s`, in order.
pub open spec fn sub_frames(s: Seq<char>) -> Seq<Seq<char>> {
    frames_among(sync_split(s))
}

/// The bits with each `1` turned into `0` and everything else into `1`.
pub open spec fn complement(bits: Seq<char>) -> Seq<char> {
    bits.map_values(
        |bit: char|
            if bit == '1' {
                '0'
            } else {
                '1'
            },
    )
}

/// The bits of a sub-frame that hold the probe's identifier.
pub open spec fn id_bits(frame: Seq<char>) -> Seq<char> {
    frame.subrange(0, 8)
}

/// The bits of a sub-frame that hold the temperature, complemented.
pub open spec fn temperature_bits(frame: Seq<char>) -> Seq<char> {
    frame.subrange(12, 24)
}

/// The bits of a sub-frame that hold the humidity, complemented.
pub open spec fn humidity_bits(frame: Seq<char>) -> Seq<char> {
    frame.subrange(25, 32)
}

/// What a sub-frame of `FRAME_LENGTH` symbols says: the identifier from bits
/// 0 to 7, the temperature from the complement of bits 12 to 23, the humidity
/// from the complement of bits 25 to 31.
pub open spec fn read_frame(frame: Seq<char>, timestamp: NaiveDateTime) -> Result<
    LaCrosseReading,
    LacrosseFailure,
> {
    match parse_int(id_bits(frame), 2) {
        None => Err(LacrosseFailure::ParsingFrameError { value: id_bits(frame) }),
        Some(id) => Ok(
            LaCrosseReading {
                sensor_id: signed_decimal(id),
                temperature: (digits_value(complement(temperature_bits(frame)), 2)
                    - TEMPERATURE_OFFSET) as i64,
                humidity: digits_value(complement(humidity_bits(frame)), 2) as u32,
                timestamp,
            },
        ),
    }
}

/// The sub-frames in the debug payload of a line, in order. A probe sends
/// each frame `EXPECTED_FRAMES` times, but any number of them may have been
/// received.
pub open spec fn frames(data: Seq<char>) -> Result<Seq<Seq<char>>, LacrosseFailure> {
    match debug_data(data) {
        None => Err(LacrosseFailure::InvalidFrameError),
        Some(payload) => match pulse_pairs(split(payload, ',')) {
            Err(token) => Err(LacrosseFailure::ParsingFrameError { value: token }),
            Ok(pairs) => Ok(sub_frames(symbols(pairs))),
        },
    }
}

/// What a line says when read as a LaCrosse debug dump: what its first
/// sub-frame says. A line without a sub-frame is no valid frame.
pub open spec fn decode(raw: RawFrameView) -> Result<LaCrosseReading, LacrosseFailure> {
    match frames(raw.data) {
        Err(e) => Err(e),
        Ok(found) => if found.len() == 0 {
            Err(LacrosseFailure::InvalidFrameError)
        } else {
            read_frame(found[0], raw.timestamp)
        },
    }
}

/// The observations that a reading yields: its temperature, then its humidity,
/// each under the probe's identifier and the protocol's name. A reading with a
/// value out of range yields none, and the first such value is reported.
pub open spec fn sensor_values(reading: LaCrosseReading) -> Result<
    Seq<Observation>,
    ValueTypeError,
> {
    if !Temperature::valid(reading.temperature) {
        Err(ValueTypeError::InvalidTemperature { value: reading.temperature })
    } else if !Humidity::valid(reading.humidity) {
        Err(ValueTypeError::InvalidHumidity { value: reading.humidity })
    } else {
        Ok(
            seq![
                Observation {
                    id: SensorKey {
                        probe_id: reading.sensor_id,
                        protocol: "lacrosse_v3"@,
                        probe_value_name: "temperature"@,
                    },
                    timestamp: reading.timestamp,
                    value: Measure::Temperature(reading.temperature),
                },
                Observation {
                    id: SensorKey {
                        probe_id: reading.sensor_id,
                        protocol: "lacrosse_v3"@,
                        probe_value_name: "humidity"@,
                    },
                    timestamp: reading.timestamp,
                    value: Measure::Humidity(reading.humidity),
                },
            ],
        )
    }
}

/// The complement of a run of bits is a binary number of as many digits.
pub proof fn lemma_complement_value(bits: Seq<char>)
    ensures
        all_digits(complement(bits), 2),
        bits.len() > 0 ==> parse_int(complement(bits), 2) == Some(
            digits_value(complement(bits), 2),
        ),
        0 <= digits_value(complement(bits), 2) < pow2(bits.len()),
{
    let c = complement(bits);
    assert forall|i: int| 0 <= i < c.len() implies (#[trigger] digit_value(c[i], 2)) is Some by {}
    lemma_binary_value_bound(c);
}

/// A sync marker.
pub open spec fn marker() -> Seq<char> {
    seq!['h', 'h', 'h', 'h']
}

/// The pieces put together again, with a sync marker between neighbours.
pub open spec fn joined(parts: Seq<Seq<char>>) -> Seq<char>
    decreases parts.len(),
{
    if parts.len() == 0 {
        Seq::empty()
    } else if parts.len() == 1 {
        parts[0]
    } else {
        parts[0] + marker() + joined(parts.skip(1))
    }
}

/// The pieces of `s[start..]` put together give `s[start..]` back, and none
/// of them holds a sync marker.
proof fn lemma_pieces(s: Seq<char>, start: int, i: int)
    requires
        0 <= start <= i <= s.len(),
        forall|j: int| start <= j < i ==> !sync_at(s, j),
    ensures
        pieces(s, start, i).len() >= 1,
        joined(pieces(s, start, i)) == s.subrange(start, s.len() as int),
        forall|k: int, j: int|
            0 <= k < pieces(s, start, i).len() ==> !(#[trigger] sync_at(
                pieces(s, start, i)[k],
                j,
            )),
    decreases s.len() - i,
{
    let found = pieces(s, start, i);
    if i + SYNC_LENGTH > s.len() {
        let piece = s.subrange(start, s.len() as int);
        assert forall|k: int, j: int| 0 <= k < found.len() implies !(#[trigger] sync_at(
            found[k],
            j,
        )) by {
            if sync_at(piece, j) {
                assert(sync_at(s, start + j));
            }
        }
    } else if sync_at(s, i) {
        let piece = s.subrange(start, i);
        let rest = pieces(s, i + SYNC_LENGTH, i + SYNC_LENGTH);
        lemma_pieces(s, i + SYNC_LENGTH, i + SYNC_LENGTH);
        assert(found.skip(1) == rest);
        assert forall|k: int, j: int| 0 <= k < found.len() implies !(#[trigger] sync_at(
            found[k],
            j,
        )) by {
            if k == 0 && sync_at(piece, j) {
                assert(sync_at(s, start + j));
            }
        }
    } else {
        lemma_pieces(s, start, i + 1);
    }
}

/// Cutting a symbol string at its sync markers loses nothing and leaves no
/// marker behind: the pieces, put together with a marker between neighbours,
/// give the string back, and no piece holds a marker.
pub proof fn law_sync_split(s: Seq<char>)
    ensures
        joined(sync_split(s)) == s,
        forall|k: int, j: int|
            0 <= k < sync_split(s).len() ==> !(#[trigger] sync_at(sync_split(s)[k], j)),
{
    lemma_pieces(s, 0, 0);
}

/// What a sub-frame can say: a temperature from -50.0 to 359.5 degrees and a
/// humidity up to 127 percent. Not all of it is a valid measurement.
pub proof fn law_reading_ranges(frame: Seq<char>, timestamp: NaiveDateTime)
    requires
        is_frame(frame),
    ensures
        read_frame(frame, timestamp) matches Ok(reading) ==> -500 <= reading.temperature <= 3595
            && reading.humidity <= 127 && reading.timestamp == timestamp,
{
    lemma_complement_value(temperature_bits(frame));
    lemma_complement_value(humidity_bits(frame));
    lemma2_to64();
}

pub fn is_valid_raw(raw: &RawFrame) -> (b: bool)
    ensures
        b == is_valid(raw.data@),
{
    let signal = raw.to_vec();
    if signal.len() < 5 {
        false
    } else {
        is_text(&signal[2], "DEBUG") && is_text(&signal[3], "Pulses=511")
    }
}

/// Reads one pulse token.
fn parse_pulse(token: &Vec<char>) -> (r: Option<i32>)
    ensures
        r == pulse(token@),
{
    match parse_i64(token, 10) {
        Some(v) => if -2147483648 <= v && v <= 2147483647 {
            Some(v as i32)
        } else {
            None
        },
        None => None,
    }
}

/// Prepends the pairs already read to the outcome of reading the rest.
spec fn after(done: Seq<(i32, i32)>, rest: Result<Seq<(i32, i32)>, Seq<char>>) -> Result<
    Seq<(i32, i32)>,
    Seq<char>,
> {
    match rest {
        Ok(pairs) => Ok(done + pairs),
        Err(token) => Err(token),
    }
}

pub fn to_tuple_pulse(signal: &Vec<Vec<char>>) -> (r: Result<Vec<(i32, i32)>, LacrosseError>)
    ensures
        match r {
            Ok(pairs) => pulse_pairs(texts(signal@)) == Ok::<Seq<(i32, i32)>, Seq<char>>(pairs@),
            Err(e) => e matches LacrosseError::ParsingFrameError { value } && pulse_pairs(
                texts(signal@),
            ) == Err::<Seq<(i32, i32)>, Seq<char>>(value@),
        },
{
    let mut tuple_pulse: Vec<(i32, i32)> = Vec::new();
    let mut i: usize = 0;
    let ghost tokens = texts(signal@);
    assert(tokens.skip(0) == tokens);
    while signal.len() - i >= 2
        invariant
            i <= signal.len(),
            tokens == texts(signal@),
            tokens.len() == signal.len(),
            pulse_pairs(tokens) == after(tuple_pulse@, pulse_pairs(tokens.skip(i as int))),
        decreases signal.len() - i,
    {
        let ghost rest = tokens.skip(i as int);
        proof {
            assert(rest.skip(2) == tokens.skip(i + 2));
        }
        let t1 = match parse_pulse(&signal[i]) {
            Some(t) => t,
            None => {
                let value = text_of(&signal[i]);
                return Err(LacrosseError::ParsingFrameError { value });
            },
        };
        let t2 = match parse_pulse(&signal[i + 1]) {
            Some(t) => t,
            None => {
                let value = text_of(&signal[i + 1]);
                return Err(LacrosseError::ParsingFrameError { value });
            },
        };
        proof {
            let tail = pulse_pairs(tokens.skip(i + 2));
            match tail {
                Ok(pairs) => {
                    assert(tuple_pulse@ + (seq![(t1, t2)] + pairs) == tuple_pulse@.push((t1, t2))
                        + pairs);
                },
                Err(_) => {},
            }
        }
        tuple_pulse.push((t1, t2));
        i = i + 2;
    }
    Ok(tuple_pulse)
}

pub fn binarize(tuple_signal: Vec<(i32, i32)>) -> (r: String)
    ensures
        r@ == symbols(tuple_signal@),
{
    let mut r = String::new();
    let mut i: usize = 0;
    while i < tuple_signal.len()
        invariant
            i <= tuple_signal.len(),
            r@ == symbols(tuple_signal@).take(i as int),
        decreases tuple_signal.len() - i,
    {
        let (x, y) = tuple_signal[i];
        let c = if x > SYNC_THRESHOLD && y > SYNC_THRESHOLD {
            'h'
        } else if x > y {
            '0'
        } else {
            '1'
        };
        r.push(c);
        i += 1;
    }
    r
}

pub fn reverse_binary(frame: &str) -> (r: String)
    ensures
        r@ == complement(frame@),
{
    let bits = to_chars(frame);
    let mut new_frame = String::new();
    let mut i: usize = 0;
    while i < bits.len()
        invariant
            i <= bits.len(),
            bits@ == frame@,
            new_frame@ == complement(frame@).take(i as int),
        decreases bits.len() - i,
    {
        let c = if bits[i] == '1' {
            '0'
        } else {
            '1'
        };
        new_frame.push(c);
        i += 1;
    }
    new_frame
}

/// Cuts a symbol string at its sync markers.
fn sync_pieces(s: &Vec<char>) -> (out: Vec<Vec<char>>)
    ensures
        texts(out@) == sync_split(s@),
{
    let mut out: Vec<Vec<char>> = Vec::new();
    let mut start: usize = 0;
    let mut i: usize = 0;
    while s.len() - i >= SYNC_LENGTH
        invariant
            start <= i <= s.len(),
            sync_split(s@) == texts(out@) + pieces(s@, start as int, i as int),
        decreases s.len() - i,
    {
        if s[i] == 'h' && s[i + 1] == 'h' && s[i + 2] == 'h' && s[i + 3] == 'h' {
            let piece = slice_chars(s, start, i);
            out.push(piece);
            i = i + SYNC_LENGTH;
            start = i;
        } else {
            i = i + 1;
        }
    }
    let piece = slice_chars(s, start, s.len());
    out.push(piece);
    out
}

/// Keeps the pieces that have the length of a sub-frame.
fn keep_frames(pieces: &Vec<Vec<char>>) -> (kept: Vec<Vec<char>>)
    ensures
        texts(kept@) == frames_among(texts(pieces@)),
        forall|k: int| 0 <= k < kept.len() ==> (#[trigger] kept[k]).len() == FRAME_LENGTH,
{
    let mut kept: Vec<Vec<char>> = Vec::new();
    let mut i: usize = 0;
    let ghost all = texts(pieces@);
    while i < pieces.len()
        invariant
            i <= pieces.len(),
            all == texts(pieces@),
            texts(kept@) == frames_among(all.take(i as int)),
            forall|k: int| 0 <= k < kept.len() ==> (#[trigger] kept[k]).len() == FRAME_LENGTH,
        decreases pieces.len() - i,
    {
        proof {
            reveal(Seq::filter);
            assert(all.take(i + 1).drop_last() == all.take(i as int));
        }
        if pieces[i].len() == FRAME_LENGTH {
            let piece = slice_chars(&pieces[i], 0, pieces[i].len());
            assert(piece@ == pieces@[i as int]@);
            kept.push(piece);
        }
        i += 1;
    }
    assert(all.take(pieces.len() as int) == all);
    kept
}

/// Reads a run of complemented bits as a number.
fn read_complement(frame: &Vec<char>, from: usize, to: usize) -> (v: i64)
    requires
        from < to <= frame.len(),
        to - from <= 32,
    ensures
        v == digits_value(complement(frame@.subrange(from as int, to as int)), 2),
        0 <= v < pow2((to - from) as nat),
{
    let bits = to_text(frame, from, to);
    let reversed = reverse_binary(bits.as_str());
    let digits = to_chars(reversed.as_str());
    proof {
        lemma_complement_value(bits@);
        lemma2_to64();
    }
    match parse_i64(&digits, 2) {
        Some(v) => v,
        None => 0,
    }
}

/// Eight symbols that denote a binary number denote one that fits in `i64`.
proof fn lemma_identifier_fits(bits: Seq<char>)
    requires
        bits.len() == 8,
    ensures
        parse_int(bits, 2) matches Some(v) ==> -256 < v < 256,
{
    lemma2_to64();
    if parse_int(bits, 2) is Some {
        if bits[0] == '-' || bits[0] == '+' {
            lemma_binary_value_bound(bits.skip(1));
        } else {
            lemma_binary_value_bound(bits);
        }
    }
}

/// The sub-frames in the debug payload of a line, in order.
pub fn sub_frames_of(raw: &RawFrame) -> (r: Result<Vec<Vec<char>>, LacrosseError>)
    ensures
        match r {
            Ok(found) => frames(raw.data@) == Ok::<Seq<Seq<char>>, LacrosseFailure>(
                texts(found@),
            ) && forall|k: int|
                0 <= k < found.len() ==> (#[trigger] found[k]).len() == FRAME_LENGTH,
            Err(e) => frames(raw.data@) == Err::<Seq<Seq<char>>, LacrosseFailure>(e@),
        },
{
    let debug_data = match raw.get_debug_data() {
        Some(payload) => payload,
        None => {
            return Err(LacrosseError::InvalidFrameError);
        },
    };
    let signal = split_chars(&to_chars(debug_data.as_str()), ',');
    let tuple_pulse = match to_tuple_pulse(&signal) {
        Ok(pairs) => pairs,
        Err(e) => {
            return Err(e);
        },
    };
    let binary_signal = binarize(tuple_pulse);
    let pieces = sync_pieces(&to_chars(binary_signal.as_str()));
    Ok(keep_frames(&pieces))
}

/// Decodes the first sub-frame of a LaCrosse debug dump.
pub fn decrypt(raw: &RawFrame) -> (r: Result<LaCrosseData, LacrosseError>)
    ensures
        match r {
            Ok(data) => decode(raw@) == Ok::<LaCrosseReading, LacrosseFailure>(data@),
            Err(e) => decode(raw@) == Err::<LaCrosseReading, LacrosseFailure>(e@),
        },
{
    let binary_frames = match sub_frames_of(raw) {
        Ok(found) => found,
        Err(e) => {
            return Err(e);
        },
    };
    if binary_frames.len() == 0 {
        return Err(LacrosseError::InvalidFrameError);
    }
    let w_frame = &binary_frames[0];
    let id_bits = slice_chars(w_frame, 0, 8);
    proof {
        lemma_identifier_fits(id_bits@);
    }
    let id_bin = match parse_i64(&id_bits, 2) {
        Some(id) => signed_decimal_text(id),
        None => {
            let value = to_text(w_frame, 0, 8);
            return Err(LacrosseError::ParsingFrameError { value });
        },
    };
    let temp_val: i64 = read_complement(w_frame, 12, 24) - TEMPERATURE_OFFSET;
    let hum_val: u32 = read_complement(w_frame, 25, 32) as u32;
    Ok(
        LaCrosseData {
            sensor_id: id_bin,
            temperature: temp_val,
            humidity: hum_val,
            timestamp: raw.timestamp,
        },
    )
}

impl LaCrosseData {
    fn get_protocol() -> (name: String)
        ensures
            name@ == "lacrosse_v3"@,
    {
        "lacrosse_v3".to_owned()
    }

    pub fn to_sensors_values(&self) -> (r: Result<Vec<SensorValue>, ValueTypeError>)
        ensures
            match r {
                Ok(values) => sensor_values(self@) == Ok::<Seq<Observation>, ValueTypeError>(
                    observations(values@),
                ),
                Err(e) => sensor_values(self@) == Err::<Seq<Observation>, ValueTypeError>(e),
            },
    {
        let temp_id = SensorIdentifier::new(
            self.sensor_id.as_str(),
            LaCrosseData::get_protocol().as_str(),
            "temperature",
        );
        let typed_value_temp = match Temperature::create(self.temperature) {
            Ok(t) => t,
            Err(e) => {
                return Err(e);
            },
        };
        let temp_value = SensorValue {
            id: temp_id,
            timestamp: self.timestamp,
            value: SensorValueType::Temperature(typed_value_temp),
        };
        let typed_value_hum = match Humidity::create(self.humidity) {
            Ok(h) => h,
            Err(e) => {
                return Err(e);
            },
        };
        let hum_id = SensorIdentifier::new(
            self.sensor_id.as_str(),
            LaCrosseData::get_protocol().as_str(),
            "humidity",
        );
        let hum_value = SensorValue {
            id: hum_id,
            timestamp: self.timestamp,
            value: SensorValueType::Humidity(typed_value_hum),
        };
        let ghost first = temp_value@;
        let ghost second = hum_value@;
        let mut values: Vec<SensorValue> = Vec::new();
        values.push(temp_value);
        values.push(hum_value);
        assert(observations(values@) == seq![first, second]);
        Ok(values)
    }

    pub fn from_raw(raw: &RawFrame) -> (r: Result<LaCrosseData, LacrosseError>)
        ensures
            match r {
                Ok(data) => decode(raw@) == Ok::<LaCrosseReading, LacrosseFailure>(data@),
                Err(e) => decode(raw@) == Err::<LaCrosseReading, LacrosseFailure>(e@),
            },
    {
        decrypt(raw)
    }
}

} // verus!
