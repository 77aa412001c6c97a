//! The packed 8-byte date of the protocol.
use vstd::prelude::*;
use crate::error::ProtocolError;
use crate::wire::{be16, be32, get_u16, get_u32, put_u16, put_u32, read16, read32};

verus! {

/// A point in time in the proleptic Gregorian calendar, UTC, as plain values.
#[derive(Clone, Copy, Debug, PartialEq, Eq, Structural)]
pub struct DateTimeParts {
    pub year: i32,
    /// 1 to 12.
    pub month: u32,
    /// 1 to 31.
    pub day: u32,
    /// 0 to 23.
    pub hour: u32,
    /// 0 to 59.
    pub minute: u32,
    /// 0 to 59.
    pub second: u32,
    /// Milliseconds past the second.
    pub millisecond: u32,
}

impl DateTimeParts {
    pub open spec fn wf(&self) -> bool {
        &&& 1 <= self.month <= 12
        &&& 1 <= self.day <= 31
        &&& self.hour < 24
        &&& self.minute < 60
        &&& self.second < 60
    }
}

/// The protocol's date: year, milliseconds, and seconds since January 1st.
#[derive(Clone, Copy, Debug, PartialEq, Eq, Structural)]
pub struct DateParam {
    pub year: u16,
    pub milliseconds: u16,
    pub seconds: u32,
}

pub const DATE_PARAM_SIZE: usize = 8;

/// Whether `year` is a leap year of the Gregorian calendar.
pub open spec fn leap(year: u16) -> bool {
    (year % 4 == 0 && year % 100 != 0) || year % 400 == 0
}

/// Days from January 1st to the first of `month` in a common year.
pub open spec fn days_before(month: u8) -> u32 {
    if month == 1 {
        0
    } else if month == 2 {
        31
    } else if month == 3 {
        59
    } else if month == 4 {
        90
    } else if month == 5 {
        120
    } else if month == 6 {
        151
    } else if month == 7 {
        181
    } else if month == 8 {
        212
    } else if month == 9 {
        243
    } else if month == 10 {
        273
    } else if month == 11 {
        304
    } else {
        334
    }
}

/// Seconds from January 1st to the first of `month`; 0 for a month outside 1 to 12.
pub open spec fn seconds_before_month(month: u8, is_leap: bool) -> u32 {
    if month < 1 || month > 12 {
        0
    } else if is_leap && month > 2 {
        ((days_before(month) + 1) * 86400) as u32
    } else {
        (days_before(month) * 86400) as u32
    }
}

/// Whether `year` is a leap year.
pub fn is_leap_year(year: u16) -> (r: bool)
    ensures
        r == leap(year),
{
    (year % 4 == 0 && year % 100 != 0) || (year % 400 == 0)
}

/// Seconds from January 1st to the first of `month`.
pub fn month_to_seconds(month: u8, is_leap: bool) -> (r: u32)
    ensures
        r == seconds_before_month(month, is_leap),
{
    if month < 1 || month > 12 {
        return 0;
    }
    let days: u32 = if month == 1 {
        0
    } else if month == 2 {
        31
    } else if month == 3 {
        59
    } else if month == 4 {
        90
    } else if month == 5 {
        120
    } else if month == 6 {
        151
    } else if month == 7 {
        181
    } else if month == 8 {
        212
    } else if month == 9 {
        243
    } else if month == 10 {
        273
    } else if month == 11 {
        304
    } else {
        334
    };
    if is_leap && month > 2 {
        (days + 1) * 86400
    } else {
        days * 86400
    }
}

impl DateParam {
    /// The date of a point in time. The year is kept modulo 65536.
    pub fn from_datetime(dt: &DateTimeParts) -> (r: Self)
        requires
            dt.wf(),
        ensures
            r.year == dt.year as u16,
            r.milliseconds == (dt.millisecond % 1000) as u16,
            r.seconds == seconds_before_month(dt.month as u8, leap(dt.year as u16)) + (dt.day - 1)
                * 86400 + dt.hour * 3600 + dt.minute * 60 + dt.second,
    {
        let year = dt.year as u16;
        let month_secs = month_to_seconds(dt.month as u8, is_leap_year(year));
        let day_secs = (dt.day - 1) * 86400;
        let time_secs = dt.hour * 3600 + dt.minute * 60 + dt.second;
        let millis = (dt.millisecond % 1000) as u16;
        DateParam { year, milliseconds: millis, seconds: month_secs + day_secs + time_secs }
    }

    /// Reads a date from the start of `buf`.
    pub fn from_bytes(buf: &[u8]) -> (r: Result<Self, ProtocolError>)
        ensures
            buf@.len() < 8 ==> r == Err::<Self, ProtocolError>(ProtocolError::UnexpectedEof),
            buf@.len() >= 8 ==> r == Ok::<Self, ProtocolError>(
                DateParam {
                    year: read16(buf@, 0),
                    milliseconds: read16(buf@, 2),
                    seconds: read32(buf@, 4),
                },
            ),
    {
        if buf.len() < DATE_PARAM_SIZE {
            return Err(ProtocolError::UnexpectedEof);
        }
        Ok(DateParam { year: get_u16(buf, 0), milliseconds: get_u16(buf, 2), seconds: get_u32(buf, 4) })
    }

    /// Appends the 8 date bytes to `buf`.
    pub fn to_bytes(&self, buf: &mut Vec<u8>)
        ensures
            final(buf)@ == old(buf)@ + be16(self.year) + be16(self.milliseconds) + be32(self.seconds),
    {
        put_u16(buf, self.year);
        put_u16(buf, self.milliseconds);
        put_u32(buf, self.seconds);
    }
}

/// The 8 bytes of the date of a point in time.
pub fn encode_date(dt: &DateTimeParts) -> (r: Vec<u8>)
    requires
        dt.wf(),
    ensures
        ({
            let p = DateParam {
                year: dt.year as u16,
                milliseconds: (dt.millisecond % 1000) as u16,
                seconds: (seconds_before_month(dt.month as u8, leap(dt.year as u16)) + (dt.day - 1)
                    * 86400 + dt.hour * 3600 + dt.minute * 60 + dt.second) as u32,
            };
            r@ == be16(p.year) + be16(p.milliseconds) + be32(p.seconds)
        }),
{
    let param = DateParam::from_datetime(dt);
    let mut buf: Vec<u8> = Vec::with_capacity(DATE_PARAM_SIZE);
    param.to_bytes(&mut buf);
    assert(buf@ =~= be16(param.year) + be16(param.milliseconds) + be32(param.seconds));
    buf
}

} // verus!
