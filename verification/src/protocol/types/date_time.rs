use vstd::prelude::*;

use crate::protocol::text::{
    all_digits, byte_slice, char_index_at, char_index_at_byte, decimal, is_char_boundary, is_digit,
    lemma_ascii_byte_slice, lemma_parse_unsigned_small, lemma_utf8_offset_grows,
    lemma_zero_padded_parse, parse_unsigned,
    parse_unsigned_chars, push_zero_padded, string_from_chars, utf8_offset, zero_padded,
    decimal_string,
};
use crate::protocol::uc_str::{
    lemma_nul_index, lemma_utf16_len_digits, lemma_utf16_roundtrip, uc_chars, utf16_encode,
    written_without_nul, UCStr,
};
use crate::protocol::types::error::zeros;

verus! {

/// A NetWeaver RFC date (`RFC_DATE`): eight SAP unicode characters `YYYYMMDD`.
pub type RfcDate = [u16; 8];

/// A NetWeaver RFC time (`RFC_TIME`): six SAP unicode characters `HHMMSS`.
pub type RfcTime = [u16; 6];

/// Error types, that can occur while constructing a [`Date`].
///
/// These error types will be used by [`InvalidDateError`] to denote the actual type or error, that
/// has occurred.
#[derive(Debug, Copy, Clone, Eq, PartialEq, Structural, Hash)]
pub enum InvalidDateTypes {
    /// Returned if the given month is out of range.
    MonthOutOfRange,
    /// Returned if the given day is out of range.
    DayOutOfRange,
    /// Returned if the year could not be parsed.
    InvalidYear,
    /// Returned if the month could not be parsed.
    InvalidMonth,
    /// Returned if the day could not be parsed.
    InvalidDay,
}

/// Error denoting, that an invalid date has been passed to the [`Date`] constructor.
///
/// The `error_type` will be one of the different [`InvalidDateTypes`] and contains the
/// actual error that has occurred. The `value` contains the corresponding value, that has
/// been passed to the constructor, and `max_value` the largest value allowed (or `0`
/// where the value could not be parsed).
#[derive(Debug, Clone, Eq, PartialEq, Hash)]
pub struct InvalidDateError {
    /// The kind of error.
    pub error_type: InvalidDateTypes,
    /// The offending value as text.
    pub value: String,
    /// The largest value allowed.
    pub max_value: u8,
}

/// Whether `year` is a leap year of the Gregorian calendar.
pub open spec fn spec_is_leap_year(year: u32) -> bool {
    year % 4 == 0 && (year % 100 != 0 || year % 400 == 0)
}

/// The number of days of a month (`1` to `12`) in a year.
pub open spec fn days_in_month(year: u32, month: u8) -> u8 {
    if month == 2 {
        if spec_is_leap_year(year) {
            29
        } else {
            28
        }
    } else if month == 4 || month == 6 || month == 9 || month == 11 {
        30
    } else {
        31
    }
}

/// Whether `year`, `month` and `day` denote a day of the calendar.
pub open spec fn is_valid_date(year: u32, month: u8, day: u8) -> bool {
    1 <= month <= 12 && 1 <= day <= days_in_month(year, month)
}

/// The outcome of [`Date::new`]: `Ok` for a valid date, else the kind of error, the
/// offending value as text and the largest value allowed.
pub open spec fn spec_date_check(year: u32, month: u8, day: u8) -> Result<
    (),
    (InvalidDateTypes, Seq<char>, u8),
> {
    if month < 1 || month > 12 {
        Err((InvalidDateTypes::MonthOutOfRange, decimal(month as nat), 12u8))
    } else if day < 1 || day > days_in_month(year, month) {
        Err((InvalidDateTypes::DayOutOfRange, decimal(day as nat), days_in_month(year, month)))
    } else {
        Ok(())
    }
}

/// Whether the text of an RFC date can be cut at the byte offsets 4, 6 and 8.
pub open spec fn date_text_sliceable(s: Seq<char>) -> bool {
    is_char_boundary(s, 4) && is_char_boundary(s, 6) && is_char_boundary(s, 8)
}

/// The outcome of reading a date from its text `YYYYMMDD` (before the calendar check of
/// [`spec_date_check`]): the three numbers, or the kind of error and the offending text.
pub open spec fn spec_date_fields(s: Seq<char>) -> Result<
    (u32, u8, u8),
    (InvalidDateTypes, Seq<char>),
> {
    let year = parse_unsigned(byte_slice(s, 0, 4), 0xFFFF_FFFF);
    let month = parse_unsigned(byte_slice(s, 4, 6), 0xFF);
    let day = parse_unsigned(byte_slice(s, 6, 8), 0xFF);
    if year is None {
        Err((InvalidDateTypes::InvalidYear, byte_slice(s, 0, 4)))
    } else if month is None {
        Err((InvalidDateTypes::InvalidMonth, byte_slice(s, 4, 6)))
    } else if day is None {
        Err((InvalidDateTypes::InvalidDay, byte_slice(s, 6, 8)))
    } else {
        Ok((year.unwrap() as u32, month.unwrap() as u8, day.unwrap() as u8))
    }
}

/// The text of a date as stored in an RFC date: `YYYYMMDD`.
pub open spec fn date_digits(year: u32, month: u8, day: u8) -> Seq<char> {
    zero_padded(year as nat, 4) + zero_padded(month as nat, 2) + zero_padded(day as nat, 2)
}

/// Whether `year` is a leap year: it is divisible by 4, and either not by 100 or by 400.
fn is_leap_year(year: u32) -> (r: bool)
    ensures
        r == spec_is_leap_year(year),
{
    year % 4 == 0 && (year % 100 != 0 || year % 400 == 0)
}

/// The number of days of a month (`1` to `12`) in a year.
fn month_days(year: u32, month: u8) -> (r: u8)
    ensures
        r == days_in_month(year, month),
{
    if month == 2 {
        if is_leap_year(year) {
            29
        } else {
            28
        }
    } else if month == 4 || month == 6 || month == 9 || month == 11 {
        30
    } else {
        31
    }
}

/// A struct representing a date.
///
/// This struct can be constructed using the [`new`] method and consists of a
/// year, a month and a day. During the construction, it will be checked, that the
/// different parts are all within valid ranges and a [`InvalidDateError`] will be raised
/// in case of an error.
///
/// [`new`]: Date::new
#[derive(Debug, Copy, Clone, Eq, PartialEq, Ord, PartialOrd, Hash)]
pub struct Date {
    year: u32,
    month: u8,
    day: u8,
}

impl View for Date {
    type V = (u32, u8, u8);

    closed spec fn view(&self) -> (u32, u8, u8) {
        (self.year, self.month, self.day)
    }
}

impl Date {
    #[verifier::type_invariant]
    spec fn wf(self) -> bool {
        is_valid_date(self.year, self.month, self.day) && self.year <= 9999
    }

    /// Construct a new date.
    ///
    /// This method constructs a new date from the given year, month and day.
    /// During the construction, it checks, that the month is within the range
    /// of 1-12 and that the day is valid for the given month and year
    /// (e.g the 29th february in leap years).
    /// In case of an error as [`InvalidDateError`] will be returned, describing
    /// the error.
    ///
    /// A valid date needs a year of at most four digits, as the RFC date stores it in
    /// four characters.
    pub fn new(year: u32, month: u8, day: u8) -> (r: Result<Self, InvalidDateError>)
        requires
            year <= 9999 || !is_valid_date(year, month, day),
        ensures
            r is Ok <==> spec_date_check(year, month, day) is Ok,
            r matches Ok(d) ==> d@ == (year, month, day),
            r matches Err(e) ==> spec_date_check(year, month, day) == Err::<(), _>(
                (e.error_type, e.value@, e.max_value),
            ),
    {
        // Check the month
        if month < 1 || month > 12 {
            return Err(
                InvalidDateError {
                    error_type: InvalidDateTypes::MonthOutOfRange,
                    value: decimal_string(month as u32),
                    max_value: 12,
                },
            );
        }
        // Check the day
        let max_day = month_days(year, month);
        if day < 1 || day > max_day {
            return Err(
                InvalidDateError {
                    error_type: InvalidDateTypes::DayOutOfRange,
                    value: decimal_string(day as u32),
                    max_value: max_day,
                },
            );
        }
        Ok(Date { year, month, day })
    }

    /// Get the year of the date.
    pub fn year(&self) -> (r: u32)
        ensures
            r == self@.0,
            r <= 9999,
    {
        proof {
            use_type_invariant(self);
        }
        self.year
    }

    /// Get the month of the date
    pub fn month(&self) -> (r: u8)
        ensures
            r == self@.1,
            1 <= r <= 12,
    {
        proof {
            use_type_invariant(self);
        }
        self.month
    }

    /// Get the day of the date
    pub fn day(&self) -> (r: u8)
        ensures
            r == self@.2,
            is_valid_date(self@.0, self@.1, r),
    {
        proof {
            use_type_invariant(self);
        }
        self.day
    }

    /// The date as text `YYYY-MM-DD`.
    pub fn to_string(&self) -> (r: String)
        ensures
            r@ == zero_padded(self@.0 as nat, 4) + "-"@ + zero_padded(self@.1 as nat, 2) + "-"@
                + zero_padded(self@.2 as nat, 2),
    {
        let mut s = String::new();
        push_zero_padded(&mut s, self.year, 4);
        s.append("-");
        push_zero_padded(&mut s, self.month as u32, 2);
        s.append("-");
        push_zero_padded(&mut s, self.day as u32, 2);
        s
    }

    /// The date as NetWeaver RFC date: the characters `YYYYMMDD`.
    pub fn to_rfc_date(&self) -> (r: RfcDate)
        ensures
            r@ == utf16_encode(date_digits(self@.0, self@.1, self@.2)),
            date_text_sliceable(uc_chars(r@)),
            spec_date_fields(uc_chars(r@)) == Ok::<_, (InvalidDateTypes, Seq<char>)>(self@),
            spec_date_check(self@.0, self@.1, self@.2) is Ok,
    {
        proof {
            use_type_invariant(self);
            lemma_date_rfc_roundtrip(self.year, self.month, self.day);
        }
        let mut s = String::new();
        push_zero_padded(&mut s, self.year, 4);
        push_zero_padded(&mut s, self.month as u32, 2);
        push_zero_padded(&mut s, self.day as u32, 2);
        proof {
            lemma_zero_padded_parse(self.year as nat, 4, 9999);
            lemma_zero_padded_parse(self.month as nat, 2, 99);
            lemma_zero_padded_parse(self.day as nat, 2, 99);
            let t = date_digits(self.year, self.month, self.day);
            assert(s@ =~= t);
            assert forall|i: int| 0 <= i < t.len() implies is_digit(#[trigger] t[i]) by {
                let a = zero_padded(self.year as nat, 4);
                let b = zero_padded(self.month as nat, 2);
                if i < 4 {
                    assert(t[i] == a[i]);
                } else if i < 6 {
                    assert(t[i] == b[i - 4]);
                } else {
                    assert(t[i] == zero_padded(self.day as nat, 2)[i - 6]);
                }
            }
            lemma_utf16_len_digits(t);
        }
        let mut date: RfcDate = [0u16; 8];
        let _ = UCStr::write_slice_without_nul(&mut date, s.as_str());
        proof {
            assert(written_without_nul(8, s@) =~= utf16_encode(s@));
        }
        date
    }

    /// Reads a date from a NetWeaver RFC date.
    ///
    /// The date is read as text up to its first nul; the bytes `0..4`, `4..6` and `6..8`
    /// of its UTF-8 form are parsed as year, month and day. A part that is not a number
    /// gives `InvalidYear`, `InvalidMonth` or `InvalidDay` with that part as value; the
    /// numbers are then checked as by [`Date::new`].
    ///
    /// The text must be at least eight bytes long and those offsets must fall on
    /// character boundaries.
    pub fn from_rfc_date(value: RfcDate) -> (r: Result<Self, InvalidDateError>)
        requires
            date_text_sliceable(uc_chars(value@)),
        ensures
            ({
                let s = uc_chars(value@);
                match spec_date_fields(s) {
                    Err((t, v)) => r matches Err(e) && e.error_type == t && e.value@ == v
                        && e.max_value == 0,
                    Ok((y, m, d)) => match spec_date_check(y, m, d) {
                        Ok(_) => r matches Ok(date) && date@ == (y, m, d),
                        Err((t, v, mx)) => r matches Err(e) && e.error_type == t && e.value@ == v
                            && e.max_value == mx,
                    },
                }
            }),
    {
        let chars = UCStr::slice_chars(&value);
        let ghost s = chars@;
        proof {
            assert(utf8_offset(s, 0) == 0);
            assert(is_char_boundary(s, 0));
        }
        let i0 = char_index_at_byte(&chars, 0).unwrap();
        let i4 = char_index_at_byte(&chars, 4).unwrap();
        let i6 = char_index_at_byte(&chars, 6).unwrap();
        let i8 = char_index_at_byte(&chars, 8).unwrap();
        proof {
            lemma_boundary_order(s, i0 as int, i4 as int, 0, 4);
            lemma_boundary_order(s, i4 as int, i6 as int, 4, 6);
            lemma_boundary_order(s, i6 as int, i8 as int, 6, 8);
        }
        let year = parse_unsigned_chars(&chars, i0, i4, 0xFFFF_FFFF);
        let month = parse_unsigned_chars(&chars, i4, i6, 0xFF);
        let day = parse_unsigned_chars(&chars, i6, i8, 0xFF);
        match year {
            None => Err(
                InvalidDateError {
                    error_type: InvalidDateTypes::InvalidYear,
                    value: string_from_chars(&slice_chars(&chars, i0, i4)),
                    max_value: 0,
                },
            ),
            Some(year) => match month {
                None => Err(
                    InvalidDateError {
                        error_type: InvalidDateTypes::InvalidMonth,
                        value: string_from_chars(&slice_chars(&chars, i4, i6)),
                        max_value: 0,
                    },
                ),
                Some(month) => match day {
                    None => Err(
                        InvalidDateError {
                            error_type: InvalidDateTypes::InvalidDay,
                            value: string_from_chars(&slice_chars(&chars, i6, i8)),
                            max_value: 0,
                        },
                    ),
                    Some(day) => {
                        proof {
                            lemma_utf8_offset_grows(s, i0 as int, i4 as int);
                            lemma_parse_unsigned_small(
                                s.subrange(i0 as int, i4 as int),
                                0xFFFF_FFFF,
                            );
                        }
                        Date::new(year, month as u8, day as u8)
                    },
                },
            },
        }
    }
}

/// Error types, that can occur while constructing a [`Time`].
///
/// These error types will be used by [`InvalidTimeError`] to denote the actual type or error, that
/// has occurred.
#[derive(Debug, Copy, Clone, Eq, PartialEq, Structural, Hash)]
pub enum InvalidTimeTypes {
    /// Returned if the given hour are out of range.
    HourOutOfRange,
    /// Returned if the given minute are out of range.
    MinuteOutOfRange,
    /// Returned if the given second are out of range.
    SecondOutOfRange,
    /// Returned if the hour could not be parsed.
    InvalidHour,
    /// Returned if the minute could not be parsed.
    InvlidMinute,
    /// Returned if the second could not be parsed.
    InvlidSecond,
}

/// Error denoting, that an invalid time has been passed to the [`Time`] constructor.
///
/// The `error_type` will be one of the different [`InvalidTimeTypes`] and contains the
/// actual error that has occurred. The `value` contains the corresponding value, that has
/// been passed to the constructor.
#[derive(Debug, Clone, Eq, PartialEq, Hash)]
pub struct InvalidTimeError {
    /// The kind of error.
    pub error_type: InvalidTimeTypes,
    /// The offending value as text.
    pub value: String,
}

/// The outcome of [`Time::new`]: `Ok` for a time of day, else the kind of error and the
/// offending value as text.
pub open spec fn spec_time_check(hour: u8, minute: u8, second: u8) -> Result<
    (),
    (InvalidTimeTypes, Seq<char>),
> {
    if hour > 23 {
        Err((InvalidTimeTypes::HourOutOfRange, decimal(hour as nat)))
    } else if minute > 59 {
        Err((InvalidTimeTypes::MinuteOutOfRange, decimal(minute as nat)))
    } else if second > 59 {
        Err((InvalidTimeTypes::SecondOutOfRange, decimal(second as nat)))
    } else {
        Ok(())
    }
}

/// Whether the text of an RFC time can be cut at the byte offsets 2, 4 and 6.
pub open spec fn time_text_sliceable(s: Seq<char>) -> bool {
    is_char_boundary(s, 2) && is_char_boundary(s, 4) && is_char_boundary(s, 6)
}

/// The outcome of reading a time from its text `HHMMSS` (before the range check of
/// [`spec_time_check`]): the three numbers, or the kind of error and the offending text.
pub open spec fn spec_time_fields(s: Seq<char>) -> Result<
    (u8, u8, u8),
    (InvalidTimeTypes, Seq<char>),
> {
    let hour = parse_unsigned(byte_slice(s, 0, 2), 0xFF);
    let minute = parse_unsigned(byte_slice(s, 2, 4), 0xFF);
    let second = parse_unsigned(byte_slice(s, 4, 6), 0xFF);
    if hour is None {
        Err((InvalidTimeTypes::InvalidHour, byte_slice(s, 0, 2)))
    } else if minute is None {
        Err((InvalidTimeTypes::InvlidMinute, byte_slice(s, 2, 4)))
    } else if second is None {
        Err((InvalidTimeTypes::InvlidSecond, byte_slice(s, 4, 6)))
    } else {
        Ok((hour.unwrap() as u8, minute.unwrap() as u8, second.unwrap() as u8))
    }
}

/// The text of a time as stored in an RFC time: `HHMMSS`.
pub open spec fn time_digits(hour: u8, minute: u8, second: u8) -> Seq<char> {
    zero_padded(hour as nat, 2) + zero_padded(minute as nat, 2) + zero_padded(second as nat, 2)
}

/// A struct representing a point in time on a day.
///
/// This struct can be constructed using the [`new`] method and consists of an hour, a minute and
/// a second. During the construction, it will be checked, that the
/// different parts are all within valid ranges and a [`InvalidTimeError`] will be raised
/// in case of an error.
///
/// [`new`]: Time::new
#[derive(Debug, Copy, Clone, Ord, PartialOrd, Eq, PartialEq, Hash)]
pub struct Time {
    hour: u8,
    minute: u8,
    second: u8,
}

impl View for Time {
    type V = (u8, u8, u8);

    closed spec fn view(&self) -> (u8, u8, u8) {
        (self.hour, self.minute, self.second)
    }
}

impl Time {
    #[verifier::type_invariant]
    spec fn wf(self) -> bool {
        self.hour <= 23 && self.minute <= 59 && self.second <= 59
    }

    /// Construct a new time.
    ///
    /// This method constructs a new time from the given hour, minute, and second.
    /// During the construction, it checks, that the hour is within the range
    /// of 0-23 and that the minute and second are within the range or 0-59.
    /// In case of an error as [`InvalidTimeError`] will be returned, describing
    /// the error.
    pub fn new(hour: u8, minute: u8, second: u8) -> (r: Result<Self, InvalidTimeError>)
        ensures
            r is Ok <==> spec_time_check(hour, minute, second) is Ok,
            r matches Ok(t) ==> t@ == (hour, minute, second),
            r matches Err(e) ==> spec_time_check(hour, minute, second) == Err::<(), _>(
                (e.error_type, e.value@),
            ),
    {
        if hour > 23 {
            return Err(
                InvalidTimeError {
                    error_type: InvalidTimeTypes::HourOutOfRange,
                    value: decimal_string(hour as u32),
                },
            );
        }
        if minute > 59 {
            return Err(
                InvalidTimeError {
                    error_type: InvalidTimeTypes::MinuteOutOfRange,
                    value: decimal_string(minute as u32),
                },
            );
        }
        if second > 59 {
            return Err(
                InvalidTimeError {
                    error_type: InvalidTimeTypes::SecondOutOfRange,
                    value: decimal_string(second as u32),
                },
            );
        }
        Ok(Self { hour, minute, second })
    }

    /// Get the hour of the day.
    pub fn hour(&self) -> (r: u8)
        ensures
            r == self@.0,
            r <= 23,
    {
        proof {
            use_type_invariant(self);
        }
        self.hour
    }

    /// Get the minute of the day.
    pub fn minute(&self) -> (r: u8)
        ensures
            r == self@.1,
            r <= 59,
    {
        proof {
            use_type_invariant(self);
        }
        self.minute
    }

    /// Get the second of the day.
    pub fn second(&self) -> (r: u8)
        ensures
            r == self@.2,
            r <= 59,
    {
        proof {
            use_type_invariant(self);
        }
        self.second
    }

    /// The time as text `HH:MM:SS`.
    pub fn to_string(&self) -> (r: String)
        ensures
            r@ == zero_padded(self@.0 as nat, 2) + ":"@ + zero_padded(self@.1 as nat, 2) + ":"@
                + zero_padded(self@.2 as nat, 2),
    {
        let mut s = String::new();
        push_zero_padded(&mut s, self.hour as u32, 2);
        s.append(":");
        push_zero_padded(&mut s, self.minute as u32, 2);
        s.append(":");
        push_zero_padded(&mut s, self.second as u32, 2);
        s
    }

    /// The time as NetWeaver RFC time: the characters `HHMMSS`.
    pub fn to_rfc_time(&self) -> (r: RfcTime)
        ensures
            r@ == utf16_encode(time_digits(self@.0, self@.1, self@.2)),
            time_text_sliceable(uc_chars(r@)),
            spec_time_fields(uc_chars(r@)) == Ok::<_, (InvalidTimeTypes, Seq<char>)>(self@),
            spec_time_check(self@.0, self@.1, self@.2) is Ok,
    {
        proof {
            use_type_invariant(self);
            lemma_time_rfc_roundtrip(self.hour, self.minute, self.second);
        }
        let mut s = String::new();
        push_zero_padded(&mut s, self.hour as u32, 2);
        push_zero_padded(&mut s, self.minute as u32, 2);
        push_zero_padded(&mut s, self.second as u32, 2);
        proof {
            lemma_zero_padded_parse(self.hour as nat, 2, 99);
            lemma_zero_padded_parse(self.minute as nat, 2, 99);
            lemma_zero_padded_parse(self.second as nat, 2, 99);
            let t = time_digits(self.hour, self.minute, self.second);
            assert(s@ =~= t);
            assert forall|i: int| 0 <= i < t.len() implies is_digit(#[trigger] t[i]) by {
                if i < 2 {
                    assert(t[i] == zero_padded(self.hour as nat, 2)[i]);
                } else if i < 4 {
                    assert(t[i] == zero_padded(self.minute as nat, 2)[i - 2]);
                } else {
                    assert(t[i] == zero_padded(self.second as nat, 2)[i - 4]);
                }
            }
            lemma_utf16_len_digits(t);
        }
        let mut time: RfcTime = [0u16; 6];
        let _ = UCStr::write_slice_without_nul(&mut time, s.as_str());
        proof {
            assert(written_without_nul(6, s@) =~= utf16_encode(s@));
        }
        time
    }

    /// Reads a time from a NetWeaver RFC time.
    ///
    /// The time is read as text up to its first nul; the bytes `0..2`, `2..4` and `4..6`
    /// of its UTF-8 form are parsed as hour, minute and second. A part that is not a
    /// number gives `InvalidHour`, `InvlidMinute` or `InvlidSecond` with that part as
    /// value; the numbers are then checked as by [`Time::new`].
    ///
    /// The text must be at least six bytes long and those offsets must fall on character
    /// boundaries.
    pub fn from_rfc_time(value: RfcTime) -> (r: Result<Self, InvalidTimeError>)
        requires
            time_text_sliceable(uc_chars(value@)),
        ensures
            ({
                let s = uc_chars(value@);
                match spec_time_fields(s) {
                    Err((t, v)) => r matches Err(e) && e.error_type == t && e.value@ == v,
                    Ok((h, m, sec)) => match spec_time_check(h, m, sec) {
                        Ok(_) => r matches Ok(time) && time@ == (h, m, sec),
                        Err((t, v)) => r matches Err(e) && e.error_type == t && e.value@ == v,
                    },
                }
            }),
    {
        let chars = UCStr::slice_chars(&value);
        let ghost s = chars@;
        proof {
            assert(utf8_offset(s, 0) == 0);
            assert(is_char_boundary(s, 0));
        }
        let i0 = char_index_at_byte(&chars, 0).unwrap();
        let i2 = char_index_at_byte(&chars, 2).unwrap();
        let i4 = char_index_at_byte(&chars, 4).unwrap();
        let i6 = char_index_at_byte(&chars, 6).unwrap();
        proof {
            lemma_boundary_order(s, i0 as int, i2 as int, 0, 2);
            lemma_boundary_order(s, i2 as int, i4 as int, 2, 4);
            lemma_boundary_order(s, i4 as int, i6 as int, 4, 6);
        }
        let hour = parse_unsigned_chars(&chars, i0, i2, 0xFF);
        let minute = parse_unsigned_chars(&chars, i2, i4, 0xFF);
        let second = parse_unsigned_chars(&chars, i4, i6, 0xFF);
        match hour {
            None => Err(
                InvalidTimeError {
                    error_type: InvalidTimeTypes::InvalidHour,
                    value: string_from_chars(&slice_chars(&chars, i0, i2)),
                },
            ),
            Some(hour) => match minute {
                None => Err(
                    InvalidTimeError {
                        error_type: InvalidTimeTypes::InvlidMinute,
                        value: string_from_chars(&slice_chars(&chars, i2, i4)),
                    },
                ),
                Some(minute) => match second {
                    None => Err(
                        InvalidTimeError {
                            error_type: InvalidTimeTypes::InvlidSecond,
                            value: string_from_chars(&slice_chars(&chars, i4, i6)),
                        },
                    ),
                    Some(second) => Time::new(hour as u8, minute as u8, second as u8),
                },
            },
        }
    }
}

/// The message of a date error.
pub open spec fn date_error_display(e: InvalidDateError) -> Seq<char> {
    "Invalid Date: "@ + match e.error_type {
        InvalidDateTypes::MonthOutOfRange => "Month ("@ + e.value@ + ") out of range (1-"@
            + decimal(e.max_value as nat) + ")"@,
        InvalidDateTypes::DayOutOfRange => "Day ("@ + e.value@ + ") out of range (1-"@ + decimal(
            e.max_value as nat,
        ) + ")"@,
        InvalidDateTypes::InvalidYear => "Invalid Year ("@ + e.value@ + ")"@,
        InvalidDateTypes::InvalidMonth => "Invalid Month ("@ + e.value@ + ")"@,
        InvalidDateTypes::InvalidDay => "Invalid Day ("@ + e.value@ + ")"@,
    }
}

impl InvalidDateError {
    /// The message of the error, naming the offending value.
    pub fn to_string(&self) -> (r: String)
        ensures
            r@ == date_error_display(*self),
    {
        let mut s = String::from_str("Invalid Date: ");
        match self.error_type {
            InvalidDateTypes::MonthOutOfRange => {
                s.append("Month (");
                s.append(self.value.as_str());
                s.append(") out of range (1-");
                s.append(decimal_string(self.max_value as u32).as_str());
                s.append(")");
            },
            InvalidDateTypes::DayOutOfRange => {
                s.append("Day (");
                s.append(self.value.as_str());
                s.append(") out of range (1-");
                s.append(decimal_string(self.max_value as u32).as_str());
                s.append(")");
            },
            InvalidDateTypes::InvalidYear => {
                s.append("Invalid Year (");
                s.append(self.value.as_str());
                s.append(")");
            },
            InvalidDateTypes::InvalidMonth => {
                s.append("Invalid Month (");
                s.append(self.value.as_str());
                s.append(")");
            },
            InvalidDateTypes::InvalidDay => {
                s.append("Invalid Day (");
                s.append(self.value.as_str());
                s.append(")");
            },
        }
        s
    }
}

/// The message of a time error.
pub open spec fn time_error_display(e: InvalidTimeError) -> Seq<char> {
    "Invalid Time: "@ + match e.error_type {
        InvalidTimeTypes::HourOutOfRange => "Hour ("@ + e.value@ + ") out of range (0-23)"@,
        InvalidTimeTypes::MinuteOutOfRange => "Minute ("@ + e.value@ + ") out of range (0-59)"@,
        InvalidTimeTypes::SecondOutOfRange => "Second ("@ + e.value@ + ") out of range (0-59)"@,
        InvalidTimeTypes::InvalidHour => "Invalid hour value ("@ + e.value@ + ")"@,
        InvalidTimeTypes::InvlidMinute => "Invalid minute value ("@ + e.value@ + ")"@,
        InvalidTimeTypes::InvlidSecond => "Invalid second value ("@ + e.value@ + ")"@,
    }
}

impl InvalidTimeError {
    /// The message of the error, naming the offending value.
    pub fn to_string(&self) -> (r: String)
        ensures
            r@ == time_error_display(*self),
    {
        let mut s = String::from_str("Invalid Time: ");
        match self.error_type {
            InvalidTimeTypes::HourOutOfRange => {
                s.append("Hour (");
                s.append(self.value.as_str());
                s.append(") out of range (0-23)");
            },
            InvalidTimeTypes::MinuteOutOfRange => {
                s.append("Minute (");
                s.append(self.value.as_str());
                s.append(") out of range (0-59)");
            },
            InvalidTimeTypes::SecondOutOfRange => {
                s.append("Second (");
                s.append(self.value.as_str());
                s.append(") out of range (0-59)");
            },
            InvalidTimeTypes::InvalidHour => {
                s.append("Invalid hour value (");
                s.append(self.value.as_str());
                s.append(")");
            },
            InvalidTimeTypes::InvlidMinute => {
                s.append("Invalid minute value (");
                s.append(self.value.as_str());
                s.append(")");
            },
            InvalidTimeTypes::InvlidSecond => {
                s.append("Invalid second value (");
                s.append(self.value.as_str());
                s.append(")");
            },
        }
        s
    }
}

/// The characters of a text that is made of digits, after it has been encoded as SAP
/// unicode without terminating nul, are the text itself.
proof fn lemma_digits_text_roundtrip(t: Seq<char>)
    requires
        all_digits(t),
    ensures
        uc_chars(utf16_encode(t)) == t,
{
    lemma_utf16_len_digits(t);
    let e = utf16_encode(t);
    assert forall|j: int| 0 <= j < e.len() implies e[j] != 0 by {
        assert(is_digit(t[j]));
    }
    lemma_nul_index(e, e.len() as int);
    assert(e.take(e.len() as int) =~= e);
    lemma_utf16_roundtrip(t);
}

/// The calendar that [`Date::new`] checks against: January, March, May, July, August,
/// October and December have 31 days; April, June, September and November 30;
/// February 29 in a year divisible by 4 but not by 100 unless also by 400, else 28. A
/// date is accepted exactly where its month is one of the twelve and its day one of the
/// days of that month.
pub proof fn lemma_calendar(year: u32, month: u8, day: u8)
    ensures
        month == 1 || month == 3 || month == 5 || month == 7 || month == 8 || month == 10
            || month == 12 ==> days_in_month(year, month) == 31,
        month == 4 || month == 6 || month == 9 || month == 11 ==> days_in_month(year, month)
            == 30,
        month == 2 ==> days_in_month(year, month) == (if year % 4 == 0 && (year % 100 != 0
            || year % 400 == 0) {
            29u8
        } else {
            28u8
        }),
        spec_date_check(year, month, day) is Ok <==> 1 <= month <= 12 && 1 <= day && (
        (month == 1 || month == 3 || month == 5 || month == 7 || month == 8 || month == 10
            || month == 12) && day <= 31 || (month == 4 || month == 6 || month == 9 || month
            == 11) && day <= 30 || month == 2 && day <= 28 || month == 2 && day == 29 && year
            % 4 == 0 && (year % 100 != 0 || year % 400 == 0)),
{
}

/// Writing a valid date as RFC date and reading it back gives the same date: the text
/// can be cut where the date is read, its parts parse to year, month and day, and these
/// pass the calendar check.
pub proof fn lemma_date_rfc_roundtrip(year: u32, month: u8, day: u8)
    requires
        is_valid_date(year, month, day),
        year <= 9999,
    ensures
        uc_chars(utf16_encode(date_digits(year, month, day))) == date_digits(year, month, day),
        date_text_sliceable(date_digits(year, month, day)),
        spec_date_fields(date_digits(year, month, day)) == Ok::<_, (InvalidDateTypes, Seq<char>)>(
            (year, month, day),
        ),
        spec_date_check(year, month, day) is Ok,
{
    let a = zero_padded(year as nat, 4);
    let b = zero_padded(month as nat, 2);
    let c = zero_padded(day as nat, 2);
    lemma_zero_padded_parse(year as nat, 4, 0xFFFF_FFFF);
    lemma_zero_padded_parse(month as nat, 2, 0xFF);
    lemma_zero_padded_parse(day as nat, 2, 0xFF);
    let t = date_digits(year, month, day);
    assert(all_digits(t)) by {
        assert forall|i: int| 0 <= i < t.len() implies is_digit(#[trigger] t[i]) by {
            if i < 4 {
                assert(t[i] == a[i]);
            } else if i < 6 {
                assert(t[i] == b[i - 4]);
            } else {
                assert(t[i] == c[i - 6]);
            }
        }
    }
    lemma_digits_text_roundtrip(t);
    assert forall|i: int| 0 <= i < t.len() implies (#[trigger] t[i] as int) < 0x80 by {
        assert(is_digit(t[i]));
    }
    lemma_ascii_byte_slice(t, 0, 4);
    lemma_ascii_byte_slice(t, 4, 6);
    lemma_ascii_byte_slice(t, 6, 8);
    assert(t.subrange(0, 4) =~= a);
    assert(t.subrange(4, 6) =~= b);
    assert(t.subrange(6, 8) =~= c);
}

/// Writing a time as RFC time and reading it back gives the same time.
pub proof fn lemma_time_rfc_roundtrip(hour: u8, minute: u8, second: u8)
    requires
        spec_time_check(hour, minute, second) is Ok,
    ensures
        uc_chars(utf16_encode(time_digits(hour, minute, second))) == time_digits(
            hour,
            minute,
            second,
        ),
        time_text_sliceable(time_digits(hour, minute, second)),
        spec_time_fields(time_digits(hour, minute, second)) == Ok::<
            _,
            (InvalidTimeTypes, Seq<char>),
        >((hour, minute, second)),
{
    let a = zero_padded(hour as nat, 2);
    let b = zero_padded(minute as nat, 2);
    let c = zero_padded(second as nat, 2);
    lemma_zero_padded_parse(hour as nat, 2, 0xFF);
    lemma_zero_padded_parse(minute as nat, 2, 0xFF);
    lemma_zero_padded_parse(second as nat, 2, 0xFF);
    let t = time_digits(hour, minute, second);
    assert(all_digits(t)) by {
        assert forall|i: int| 0 <= i < t.len() implies is_digit(#[trigger] t[i]) by {
            if i < 2 {
                assert(t[i] == a[i]);
            } else if i < 4 {
                assert(t[i] == b[i - 2]);
            } else {
                assert(t[i] == c[i - 4]);
            }
        }
    }
    lemma_digits_text_roundtrip(t);
    assert forall|i: int| 0 <= i < t.len() implies (#[trigger] t[i] as int) < 0x80 by {
        assert(is_digit(t[i]));
    }
    lemma_ascii_byte_slice(t, 0, 2);
    lemma_ascii_byte_slice(t, 2, 4);
    lemma_ascii_byte_slice(t, 4, 6);
    assert(t.subrange(0, 2) =~= a);
    assert(t.subrange(2, 4) =~= b);
    assert(t.subrange(4, 6) =~= c);
}

/// The characters `s[lo..hi]`.
fn slice_chars(s: &Vec<char>, lo: usize, hi: usize) -> (r: Vec<char>)
    requires
        lo <= hi <= s.len(),
    ensures
        r@ == s@.subrange(lo as int, hi as int),
{
    let mut r: Vec<char> = Vec::new();
    let mut i = lo;
    while i < hi
        invariant
            lo <= i <= hi <= s.len(),
            r@ == s@.subrange(lo as int, i as int),
        decreases hi - i,
    {
        r.push(s[i]);
        assert(s@.subrange(lo as int, i + 1) =~= s@.subrange(lo as int, i as int).push(s@[i as int]));
        i = i + 1;
    }
    r
}

/// Character indices of byte offsets come in the order of the offsets.
proof fn lemma_boundary_order(s: Seq<char>, i: int, j: int, a: nat, b: nat)
    requires
        a <= b,
        0 <= i <= s.len(),
        0 <= j <= s.len(),
        utf8_offset(s, i) == a,
        utf8_offset(s, j) == b,
    ensures
        i <= j,
{
    if j < i {
        lemma_utf8_offset_grows(s, j, i);
    }
}

} // verus!
