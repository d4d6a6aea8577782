//! Validated measurement values and the rule that decides whether a new value
//! differs enough from the previous one to be recorded.

use vstd::prelude::*;

verus! {

/// Why a value was refused.
#[derive(Debug, Clone, Copy, PartialEq, Eq, Structural)]
#[allow(inconsistent_fields)]
pub enum ValueTypeError {
    /// The temperature, in tenths of a degree Celsius, is outside the open
    /// range from -50.0 to 70.0 degrees.
    InvalidTemperature { value: i64 },
    /// The relative humidity is above 100 percent.
    InvalidHumidity { value: u32 },
    /// A temperature was compared with a humidity.
    InvalidComparison,
}

/// A measurement kind whose values are built from a raw `T` through a
/// validating factory.
pub trait ValueType<T>: Sized {
    /// Whether `value` is acceptable for this kind of measurement.
    spec fn valid(value: T) -> bool;

    /// The error that reports `value` as unacceptable.
    spec fn rejection(value: T) -> ValueTypeError;

    /// The raw value that a measurement wraps.
    spec fn raw(&self) -> T;

    /// Whether `other` differs from `self` enough to be recorded.
    spec fn significant(&self, other: &Self) -> bool;

    fn create(value: T) -> (r: Result<Self, ValueTypeError>)
        ensures
            Self::valid(value) ==> r is Ok && r->Ok_0.raw() == value,
            !Self::valid(value) ==> r == Err::<Self, ValueTypeError>(Self::rejection(value)),
    ;

    fn is_valid_value(value: T) -> (b: bool)
        ensures
            b == Self::valid(value),
    ;

    fn is_signifiant_variation(&self, other: &Self) -> (b: bool)
        ensures
            b == self.significant(other),
    ;
}

/// A temperature in tenths of a degree Celsius, strictly between -50.0 and
/// 70.0 degrees.
#[derive(Debug, Clone, Copy, PartialEq, Eq, Structural)]
pub struct Temperature(i64);

/// A relative humidity in percent, from 0 to 100.
#[derive(Debug, Clone, Copy, PartialEq, Eq, Structural)]
pub struct Humidity(u32);

/// The lowest temperature that a sensor cannot report, in tenths of a degree.
pub const TEMPERATURE_FLOOR: i64 = -500;

/// The highest temperature that a sensor cannot report, in tenths of a degree.
pub const TEMPERATURE_CEILING: i64 = 700;

/// A temperature change is recorded when it exceeds this many tenths of a degree.
pub const TEMPERATURE_THRESHOLD: i64 = 2;

/// The highest relative humidity, in percent.
pub const HUMIDITY_MAX: u32 = 100;

impl Temperature {
    #[verifier::type_invariant]
    spec fn in_range(self) -> bool {
        TEMPERATURE_FLOOR < self.0 < TEMPERATURE_CEILING
    }

    /// The temperature in tenths of a degree Celsius.
    pub closed spec fn tenths(&self) -> i64 {
        self.0
    }

    /// Holds of every temperature that `create` hands out.
    pub open spec fn wf(&self) -> bool {
        TEMPERATURE_FLOOR < self.tenths() < TEMPERATURE_CEILING
    }

    /// The temperature in tenths of a degree Celsius.
    pub fn value(&self) -> (v: i64)
        ensures
            v == self.tenths(),
            self.wf(),
    {
        proof {
            use_type_invariant(self);
        }
        self.0
    }
}

impl ValueType<i64> for Temperature {
    open spec fn valid(value: i64) -> bool {
        TEMPERATURE_FLOOR < value < TEMPERATURE_CEILING
    }

    open spec fn rejection(value: i64) -> ValueTypeError {
        ValueTypeError::InvalidTemperature { value }
    }

    open spec fn raw(&self) -> i64 {
        self.tenths()
    }

    open spec fn significant(&self, other: &Temperature) -> bool {
        self.tenths() - other.tenths() > TEMPERATURE_THRESHOLD || other.tenths() - self.tenths()
            > TEMPERATURE_THRESHOLD
    }

    fn create(value: i64) -> (r: Result<Temperature, ValueTypeError>)
        ensures
            r matches Ok(t) ==> t.wf(),
    {
        if Temperature::is_valid_value(value) {
            Ok(Temperature(value))
        } else {
            Err(ValueTypeError::InvalidTemperature { value })
        }
    }

    fn is_valid_value(value: i64) -> (b: bool) {
        TEMPERATURE_FLOOR < value && value < TEMPERATURE_CEILING
    }

    fn is_signifiant_variation(&self, other: &Temperature) -> (b: bool) {
        proof {
            use_type_invariant(self);
            use_type_invariant(other);
        }
        let diff: i64 = self.0 - other.0;
        diff > TEMPERATURE_THRESHOLD || diff < -TEMPERATURE_THRESHOLD
    }
}

impl Humidity {
    #[verifier::type_invariant]
    spec fn in_range(self) -> bool {
        self.0 <= HUMIDITY_MAX
    }

    /// The relative humidity in percent.
    pub closed spec fn percent(&self) -> u32 {
        self.0
    }

    /// Holds of every humidity that `create` hands out.
    pub open spec fn wf(&self) -> bool {
        self.percent() <= HUMIDITY_MAX
    }

    /// The relative humidity in percent.
    pub fn value(&self) -> (v: u32)
        ensures
            v == self.percent(),
            self.wf(),
    {
        proof {
            use_type_invariant(self);
        }
        self.0
    }
}

impl ValueType<u32> for Humidity {
    open spec fn valid(value: u32) -> bool {
        value <= HUMIDITY_MAX
    }

    open spec fn rejection(value: u32) -> ValueTypeError {
        ValueTypeError::InvalidHumidity { value }
    }

    open spec fn raw(&self) -> u32 {
        self.percent()
    }

    open spec fn significant(&self, other: &Humidity) -> bool {
        self.percent() != other.percent()
    }

    fn create(value: u32) -> (r: Result<Humidity, ValueTypeError>)
        ensures
            r matches Ok(h) ==> h.wf(),
    {
        if Humidity::is_valid_value(value) {
            Ok(Humidity(value))
        } else {
            Err(ValueTypeError::InvalidHumidity { value })
        }
    }

    fn is_valid_value(value: u32) -> (b: bool) {
        value <= HUMIDITY_MAX
    }

    fn is_signifiant_variation(&self, other: &Humidity) -> (b: bool) {
        self.0 != other.0
    }
}

/// One measured value: a temperature or a humidity.
#[derive(Debug, Clone, Copy, PartialEq, Eq, Structural)]
pub enum SensorValueType {
    Temperature(Temperature),
    Humidity(Humidity),
}

/// The mathematical value of a `SensorValueType`: a temperature in tenths of a
/// degree Celsius, or a relative humidity in percent.
pub enum Measure {
    Temperature(i64),
    Humidity(u32),
}

impl Measure {
    /// Whether `other` differs from `self` enough to be recorded: for two
    /// temperatures, by more than the threshold; for two humidities, at all. A
    /// temperature and a humidity cannot be compared.
    pub open spec fn variation(self, other: Measure) -> Result<bool, ValueTypeError> {
        match (self, other) {
            (Measure::Temperature(a), Measure::Temperature(b)) => Ok(
                a - b > TEMPERATURE_THRESHOLD || b - a > TEMPERATURE_THRESHOLD,
            ),
            (Measure::Humidity(a), Measure::Humidity(b)) => Ok(a != b),
            _ => Err(ValueTypeError::InvalidComparison),
        }
    }

    /// Whether both values are temperatures or both are humidities.
    pub open spec fn same_kind(self, other: Measure) -> bool {
        (self is Temperature) == (other is Temperature)
    }
}

impl View for SensorValueType {
    type V = Measure;

    open spec fn view(&self) -> Measure {
        match self {
            SensorValueType::Temperature(t) => Measure::Temperature(t.tenths()),
            SensorValueType::Humidity(h) => Measure::Humidity(h.percent()),
        }
    }
}

impl SensorValueType {
    pub fn is_signifiant_variation(&self, other: SensorValueType) -> (r: Result<
        bool,
        ValueTypeError,
    >)
        ensures
            r == self@.variation(other@),
    {
        match (self, &other) {
            (SensorValueType::Temperature(t1), SensorValueType::Temperature(t2)) => Ok(
                t1.is_signifiant_variation(t2),
            ),
            (SensorValueType::Humidity(h1), SensorValueType::Humidity(h2)) => Ok(
                h1.is_signifiant_variation(h2),
            ),
            _ => Err(ValueTypeError::InvalidComparison),
        }
    }

    pub fn is_temperature(&self) -> (r: Option<&Temperature>)
        ensures
            match r {
                Some(t) => self@ == Measure::Temperature(t.tenths()),
                None => self@ is Humidity,
            },
    {
        match self {
            SensorValueType::Temperature(t) => Some(t),
            _ => None,
        }
    }

    pub fn is_humidity(&self) -> (r: Option<&Humidity>)
        ensures
            match r {
                Some(h) => self@ == Measure::Humidity(h.percent()),
                None => self@ is Temperature,
            },
    {
        match self {
            SensorValueType::Humidity(h) => Some(h),
            _ => None,
        }
    }
}

} // verus!
