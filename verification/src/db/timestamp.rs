//! Timestamps as the database keeps them: microseconds since the first
//! moment of the year 2000.

use vstd::prelude::*;

verus! {

/// The first moment of the year 2000 in Unix seconds.
pub const PG_EPOCH: i64 = 946684800;

/// Microseconds in a second.
pub const MICROS_PER_SECOND: i64 = 1000000;

/// A moment as Unix seconds and the nanoseconds that have passed within the
/// second.
#[derive(Debug, Clone, Copy, PartialEq, Eq, Structural)]
pub struct Moment {
    pub seconds: i64,
    pub nanos: u32,
}

impl Moment {
    /// The microseconds between the first moment of the year 2000 and this
    /// moment; what is less than a microsecond is dropped.
    pub open spec fn micros(self) -> int {
        (self.seconds - PG_EPOCH) * MICROS_PER_SECOND + self.nanos / 1000
    }

    /// Whether the nanoseconds stay within the second.
    pub open spec fn proper(self) -> bool {
        self.nanos < 1000000000
    }
}

/// The moment that lies `micros` microseconds after the first moment of the
/// year 2000, or before it where `micros` is negative.
pub fn from_pg_micros(micros: i64) -> (m: Moment)
    ensures
        m.proper(),
        m.nanos % 1000 == 0,
        m.micros() == micros,
{
    let (seconds, rest): (i128, i128) = if micros >= 0 {
        ((micros / MICROS_PER_SECOND) as i128, (micros % MICROS_PER_SECOND) as i128)
    } else {
        let back: u64 = ((-(micros as i128)) as u64);
        let whole: i128 = (back / 1000000) as i128;
        let part: i128 = (back % 1000000) as i128;
        if part == 0 {
            (-whole, 0)
        } else {
            (-whole - 1, 1000000 - part)
        }
    };
    Moment { seconds: (seconds + PG_EPOCH as i128) as i64, nanos: (rest * 1000) as u32 }
}

/// The microseconds between the first moment of the year 2000 and `m`, or
/// nothing where they do not fit into an `i64`.
pub fn to_pg_micros(m: Moment) -> (r: Option<i64>)
    ensures
        match r {
            Some(micros) => micros == m.micros(),
            None => m.micros() < i64::MIN || m.micros() > i64::MAX,
        },
{
    let micros: i128 = ((m.seconds as i128) - (PG_EPOCH as i128)) * 1000000 + ((m.nanos / 1000) as i128);
    if micros < i64::MIN as i128 || micros > i64::MAX as i128 {
        None
    } else {
        Some(micros as i64)
    }
}

} // verus!
