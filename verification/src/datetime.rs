//! Timestamp normalization.
//!
//! A timestamp arrives in the fixed pattern `HH:MM DD-MM-YYYY`. It is parsed
//! and validated against the proleptic Gregorian calendar, a signed
//! whole-hour offset is applied, and the hour is rendered as a two-digit
//! label. A pattern mismatch is a data-contract violation, reported as
//! `None`; callers that may receive an absent source value substitute a
//! documented sentinel timestamp before calling.
use vstd::prelude::*;

verus! {

pub open spec fn is_digit(c: char) -> bool {
    48 <= c as int <= 57
}

pub open spec fn digit_val(c: char) -> int {
    c as int - 48
}

pub open spec fn two_digits(s: Seq<char>, i: int) -> int {
    digit_val(s[i]) * 10 + digit_val(s[i + 1])
}

pub open spec fn ts_hour(s: Seq<char>) -> int {
    two_digits(s, 0)
}

pub open spec fn ts_minute(s: Seq<char>) -> int {
    two_digits(s, 3)
}

pub open spec fn ts_day(s: Seq<char>) -> int {
    two_digits(s, 6)
}

pub open spec fn ts_month(s: Seq<char>) -> int {
    two_digits(s, 9)
}

pub open spec fn ts_year(s: Seq<char>) -> int {
    digit_val(s[12]) * 1000 + digit_val(s[13]) * 100 + digit_val(s[14]) * 10 + digit_val(s[15])
}

pub open spec fn is_leap_year(y: int) -> bool {
    (y % 4 == 0 && y % 100 != 0) || y % 400 == 0
}

pub open spec fn days_in_month(y: int, m: int) -> int {
    if m == 2 {
        if is_leap_year(y) {
            29int
        } else {
            28int
        }
    } else if m == 4 || m == 6 || m == 9 || m == 11 {
        30int
    } else {
        31int
    }
}

/// The fixed input pattern `HH:MM DD-MM-YYYY`, with every field a real
/// calendar value: 16 characters, digits and separators in place, hour 0-23,
/// minute 0-59, and a day that exists in the month.
pub open spec fn timestamp_well_formed(s: Seq<char>) -> bool {
    &&& s.len() == 16
    &&& is_digit(s[0]) && is_digit(s[1]) && is_digit(s[3]) && is_digit(s[4])
    &&& is_digit(s[6]) && is_digit(s[7]) && is_digit(s[9]) && is_digit(s[10])
    &&& is_digit(s[12]) && is_digit(s[13]) && is_digit(s[14]) && is_digit(s[15])
    &&& s[2] == ':' && s[5] == ' ' && s[8] == '-' && s[11] == '-'
    &&& ts_hour(s) <= 23
    &&& ts_minute(s) <= 59
    &&& 1 <= ts_month(s) <= 12
    &&& 1 <= ts_day(s) <= days_in_month(ts_year(s), ts_month(s))
}

/// The hour of day after shifting by a whole-hour offset, wrapped onto 0-23.
pub open spec fn shifted_hour(hour: int, offset: int) -> int {
    (hour + offset) % 24
}

pub open spec fn digit_char(d: int) -> char {
    if d == 0 {
        '0'
    } else if d == 1 {
        '1'
    } else if d == 2 {
        '2'
    } else if d == 3 {
        '3'
    } else if d == 4 {
        '4'
    } else if d == 5 {
        '5'
    } else if d == 6 {
        '6'
    } else if d == 7 {
        '7'
    } else if d == 8 {
        '8'
    } else {
        '9'
    }
}

/// A two-digit, zero-padded hour label.
pub open spec fn hour_label(h: int) -> Seq<char> {
    seq![digit_char(h / 10), digit_char(h % 10)]
}

fn digit_str(d: u8) -> (r: &'static str)
    requires
        d <= 9,
    ensures
        r@ =~= seq![digit_char(d as int)],
{
    proof {
        reveal_strlit("0");
        reveal_strlit("1");
        reveal_strlit("2");
        reveal_strlit("3");
        reveal_strlit("4");
        reveal_strlit("5");
        reveal_strlit("6");
        reveal_strlit("7");
        reveal_strlit("8");
        reveal_strlit("9");
    }
    match d {
        0 => "0",
        1 => "1",
        2 => "2",
        3 => "3",
        4 => "4",
        5 => "5",
        6 => "6",
        7 => "7",
        8 => "8",
        _ => "9",
    }
}

/// The digit value of a character, `None` when it is not a decimal digit.
fn digit_of(ch: char) -> (r: Option<u8>)
    ensures
        r.is_some() <==> is_digit(ch),
        r matches Some(d) ==> d as int == digit_val(ch),
{
    match ch {
        '0' => Some(0),
        '1' => Some(1),
        '2' => Some(2),
        '3' => Some(3),
        '4' => Some(4),
        '5' => Some(5),
        '6' => Some(6),
        '7' => Some(7),
        '8' => Some(8),
        '9' => Some(9),
        _ => None,
    }
}

/// Parse a `HH:MM DD-MM-YYYY` timestamp, apply a signed whole-hour timezone
/// offset, and render the resulting hour of day as a two-digit label.
/// `None` exactly when the input does not match the pattern or does not name
/// a real calendar instant.
pub fn convert_datetime(input: &str, offset_hours: i8) -> (r: Option<String>)
    ensures
        r.is_some() <==> timestamp_well_formed(input@),
        r matches Some(label) ==> label@ == hour_label(
            shifted_hour(ts_hour(input@), offset_hours as int),
        ),
{
    if input.unicode_len() != 16 {
        return None;
    }
    let c: [char; 16] = [
        input.get_char(0),
        input.get_char(1),
        input.get_char(2),
        input.get_char(3),
        input.get_char(4),
        input.get_char(5),
        input.get_char(6),
        input.get_char(7),
        input.get_char(8),
        input.get_char(9),
        input.get_char(10),
        input.get_char(11),
        input.get_char(12),
        input.get_char(13),
        input.get_char(14),
        input.get_char(15),
    ];
    if !(c[2] == ':' && c[5] == ' ' && c[8] == '-' && c[11] == '-') {
        return None;
    }
    let hour: u32;
    match (digit_of(c[0]), digit_of(c[1])) {
        (Some(a), Some(b)) => {
            hour = (a as u32) * 10 + (b as u32);
        },
        _ => {
            return None;
        },
    }
    let minute: u32;
    match (digit_of(c[3]), digit_of(c[4])) {
        (Some(a), Some(b)) => {
            minute = (a as u32) * 10 + (b as u32);
        },
        _ => {
            return None;
        },
    }
    let day: u32;
    match (digit_of(c[6]), digit_of(c[7])) {
        (Some(a), Some(b)) => {
            day = (a as u32) * 10 + (b as u32);
        },
        _ => {
            return None;
        },
    }
    let month: u32;
    match (digit_of(c[9]), digit_of(c[10])) {
        (Some(a), Some(b)) => {
            month = (a as u32) * 10 + (b as u32);
        },
        _ => {
            return None;
        },
    }
    let year: u32;
    match (digit_of(c[12]), digit_of(c[13]), digit_of(c[14]), digit_of(c[15])) {
        (Some(a), Some(b), Some(d3), Some(d4)) => {
            year = (a as u32) * 1000 + (b as u32) * 100 + (d3 as u32) * 10 + (d4 as u32);
        },
        _ => {
            return None;
        },
    }
    if hour > 23 || minute > 59 {
        return None;
    }
    if month < 1 || month > 12 {
        return None;
    }
    let month_days: u32 = if month == 2 {
        if (year % 4 == 0 && year % 100 != 0) || year % 400 == 0 {
            29
        } else {
            28
        }
    } else if month == 4 || month == 6 || month == 9 || month == 11 {
        30
    } else {
        31
    };
    if day < 1 || day > month_days {
        return None;
    }

    let total: i32 = hour as i32 + offset_hours as i32;
    let normalized: i32 = total + 144;
    let out: i32 = normalized % 24;
    proof {
        vstd::arithmetic::div_mod::lemma_mod_multiples_vanish(6, total as int, 24);
        assert(out == shifted_hour(ts_hour(input@), offset_hours as int));
    }
    let tens = (out / 10) as u8;
    let ones = (out % 10) as u8;
    let label = String::from_str(digit_str(tens)).concat(digit_str(ones));
    Some(label)
}

} // verus!
