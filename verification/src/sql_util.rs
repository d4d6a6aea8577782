//! How timestamps are written in the sensor table: ISO 8601 date and time
//! without a time zone, `YYYY-MM-DDTHH:MM:SS.SSS`. Rows written by other hands
//! may have a space in place of the `T`; both are read.

use vstd::prelude::*;
use vstd::string::StringSliceAdditionalSpecFns;

verus! {

/// The byte `T`.
pub const DATE_TIME_SEPARATOR: u8 = 84;

/// The index at which the date ends and the separator stands.
pub const DATE_LENGTH: usize = 10;

/// Whether the bytes of a timestamp have a `T` between date and time.
pub open spec fn has_separator(bytes: Seq<u8>) -> bool {
    bytes.len() > DATE_LENGTH && bytes[DATE_LENGTH as int] == DATE_TIME_SEPARATOR
}

/// The layout in which timestamps are written.
pub fn layout_to_write() -> (layout: &'static str)
    ensures
        layout@ == "%Y-%m-%dT%H:%M:%S%.f"@,
{
    "%Y-%m-%dT%H:%M:%S%.f"
}

/// The layout in which to read the timestamp `s`: with a `T` between date and
/// time when `s` has one at that place, with a space otherwise.
pub fn layout_to_read(s: &str) -> (layout: &'static str)
    ensures
        layout@ == if has_separator(s.spec_bytes()) {
            "%Y-%m-%dT%H:%M:%S%.f"@
        } else {
            "%Y-%m-%d %H:%M:%S%.f"@
        },
{
    let bytes = s.as_bytes();
    if bytes.len() > DATE_LENGTH && bytes[DATE_LENGTH] == DATE_TIME_SEPARATOR {
        "%Y-%m-%dT%H:%M:%S%.f"
    } else {
        "%Y-%m-%d %H:%M:%S%.f"
    }
}

} // verus!
