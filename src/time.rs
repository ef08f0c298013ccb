use chrono::{Datelike, Timelike};
use vstd::prelude::*;

verus! {

/// The decimal digit character of `d` (0 to 9).
pub open spec fn digit_char(d: int) -> char {
    if d == 0 {
        '0'
    } else if d == 1 {
        '1'
    } else if d == 2 {
        '2'
    } else if d == 3 {
        '3'
    } else if d == 4 {
        '4'
    } else if d == 5 {
        '5'
    } else if d == 6 {
        '6'
    } else if d == 7 {
        '7'
    } else if d == 8 {
        '8'
    } else {
        '9'
    }
}

/// The value of a decimal digit character, or -1 for any other character.
pub open spec fn digit_value(c: char) -> int {
    if c == '0' {
        0
    } else if c == '1' {
        1
    } else if c == '2' {
        2
    } else if c == '3' {
        3
    } else if c == '4' {
        4
    } else if c == '5' {
        5
    } else if c == '6' {
        6
    } else if c == '7' {
        7
    } else if c == '8' {
        8
    } else if c == '9' {
        9
    } else {
        -1
    }
}

pub open spec fn is_digit(c: char) -> bool {
    0 <= digit_value(c) <= 9
}

/// Every character in `s[i .. i + n]` is a decimal digit.
pub open spec fn digits_at(s: Seq<char>, i: int, n: int) -> bool {
    forall|k: int| i <= k < i + n ==> is_digit(#[trigger] s[k])
}

/// The number written by the `n` characters of `s` starting at `i`.
pub open spec fn number_at(s: Seq<char>, i: int, n: nat) -> int
    decreases n,
{
    if n == 0 {
        0
    } else {
        number_at(s, i, (n - 1) as nat) * 10 + digit_value(s[i + n - 1])
    }
}

pub proof fn lemma_digit_round_trip(d: int)
    requires
        0 <= d <= 9,
    ensures
        digit_value(digit_char(d)) == d,
        is_digit(digit_char(d)),
{
}

/// `n` written with exactly two digits.
pub open spec fn two_digits(n: int) -> Seq<char> {
    seq![digit_char(n / 10), digit_char(n % 10)]
}

/// `n` written with exactly four digits.
pub open spec fn four_digits(n: int) -> Seq<char> {
    seq![digit_char(n / 1000), digit_char(n / 100 % 10), digit_char(n / 10 % 10), digit_char(n % 10)]
}

/// `n` in decimal, without leading zeros.
pub open spec fn decimal(n: nat) -> Seq<char>
    decreases n,
{
    if n < 10 {
        seq![digit_char(n as int)]
    } else {
        decimal(n / 10).push(digit_char((n % 10) as int))
    }
}

/// Appends the digit character of `d` to `s`.
pub fn push_digit(s: &mut String, d: u16)
    requires
        d < 10,
    ensures
        final(s)@ == old(s)@.push(digit_char(d as int)),
{
    let lit: &str;
    if d == 0 {
        lit = "0";
        proof { reveal_strlit("0"); }
    } else if d == 1 {
        lit = "1";
        proof { reveal_strlit("1"); }
    } else if d == 2 {
        lit = "2";
        proof { reveal_strlit("2"); }
    } else if d == 3 {
        lit = "3";
        proof { reveal_strlit("3"); }
    } else if d == 4 {
        lit = "4";
        proof { reveal_strlit("4"); }
    } else if d == 5 {
        lit = "5";
        proof { reveal_strlit("5"); }
    } else if d == 6 {
        lit = "6";
        proof { reveal_strlit("6"); }
    } else if d == 7 {
        lit = "7";
        proof { reveal_strlit("7"); }
    } else if d == 8 {
        lit = "8";
        proof { reveal_strlit("8"); }
    } else {
        lit = "9";
        proof { reveal_strlit("9"); }
    }
    assert(lit@ =~= seq![digit_char(d as int)]);
    s.append(lit);
}


/// Appends `n` written with exactly two digits.
pub fn push_two_digits(s: &mut String, n: u16)
    requires
        n < 100,
    ensures
        final(s)@ == old(s)@ + two_digits(n as int),
{
    push_digit(s, n / 10);
    push_digit(s, n % 10);
    assert(final(s)@ =~= old(s)@ + two_digits(n as int));
}

/// Appends `n` written with exactly four digits.
pub fn push_four_digits(s: &mut String, n: u16)
    requires
        n < 10000,
    ensures
        final(s)@ == old(s)@ + four_digits(n as int),
{
    push_digit(s, n / 1000);
    push_digit(s, n / 100 % 10);
    push_digit(s, n / 10 % 10);
    push_digit(s, n % 10);
    assert(final(s)@ =~= old(s)@ + four_digits(n as int));
}

/// Appends `n` in decimal without leading zeros.
pub fn push_decimal(s: &mut String, n: u64)
    ensures
        final(s)@ == old(s)@ + decimal(n as nat),
    decreases n,
{
    if n < 10 {
        push_digit(s, n as u16);
        assert(final(s)@ =~= old(s)@ + decimal(n as nat));
    } else {
        push_decimal(s, n / 10);
        push_digit(s, (n % 10) as u16);
        assert(final(s)@ =~= old(s)@ + decimal(n as nat));
    }
}

/// A wall-clock time of day on a calendar date, to the second, as written in
/// a timestamp together with its offset.
#[derive(Clone, Copy, Debug, PartialEq, Eq, Structural)]
pub struct SessionTime {
    pub year: u16,
    pub month: u8,
    pub day: u8,
    pub hour: u8,
    pub minute: u8,
    pub second: u8,
}

impl SessionTime {
    pub open spec fn wf(self) -> bool {
        &&& self.year <= 9999
        &&& 1 <= self.month <= 12
        &&& 1 <= self.day <= 31
        &&& self.hour <= 23
        &&& self.minute <= 59
        &&& self.second <= 59
    }
}

/// The fields that an RFC 3339 timestamp writes in its first nineteen
/// characters (`YYYY-MM-DDTHH:MM:SS`); a leap second `60` reads as `59`.
pub open spec fn rfc3339_fields(s: Seq<char>) -> SessionTime {
    let sec = number_at(s, 17, 2);
    SessionTime {
        year: number_at(s, 0, 4) as u16,
        month: number_at(s, 5, 2) as u8,
        day: number_at(s, 8, 2) as u8,
        hour: number_at(s, 11, 2) as u8,
        minute: number_at(s, 14, 2) as u8,
        second: (if sec == 60 { 59 } else { sec }) as u8,
    }
}

/// The digit positions of `YYYY-MM-DDTHH:MM:SS` hold digits.
pub open spec fn rfc3339_digits(s: Seq<char>) -> bool {
    &&& s.len() >= 19
    &&& digits_at(s, 0, 4)
    &&& digits_at(s, 5, 2)
    &&& digits_at(s, 8, 2)
    &&& digits_at(s, 11, 2)
    &&& digits_at(s, 14, 2)
    &&& digits_at(s, 17, 2)
}

/// A timestamp in the plain RFC 3339 form `YYYY-MM-DDTHH:MM:SS` followed by
/// `Z` or by an offset `+HH:MM` / `-HH:MM` (hours up to 23, minutes up to
/// 59), naming a real date and a time of day without a leap second.
pub open spec fn is_plain_rfc3339(s: Seq<char>) -> bool {
    &&& rfc3339_digits(s)
    &&& s[4] == '-' && s[7] == '-' && s[10] == 'T' && s[13] == ':' && s[16] == ':'
    &&& 1 <= number_at(s, 5, 2) <= 12
    &&& 1 <= number_at(s, 8, 2) <= days_in_month(number_at(s, 0, 4), number_at(s, 5, 2))
    &&& number_at(s, 11, 2) <= 23
    &&& number_at(s, 14, 2) <= 59
    &&& number_at(s, 17, 2) <= 59
    &&& ((s.len() == 20 && s[19] == 'Z') || (s.len() == 25 && (s[19] == '+' || s[19] == '-')
        && digits_at(s, 20, 2) && s[22] == ':' && digits_at(s, 23, 2) && number_at(s, 20, 2)
        <= 23 && number_at(s, 23, 2) <= 59))
}

/// Relies on chrono's `DateTime::parse_from_rfc3339`: a timestamp of the plain
/// form above is accepted, and on success the date and
/// time fields in the timestamp's own offset are the numbers written at the
/// fixed positions of the first nineteen characters (a leap second reads as
/// 59), and they form a valid date and time of day.
#[verifier::external_body]
pub(crate) fn parse_rfc3339(s: &str) -> (r: Option<SessionTime>)
    ensures
        is_plain_rfc3339(s@) ==> r is Some,
        r matches Some(t) ==> rfc3339_digits(s@) && t == rfc3339_fields(s@) && t.wf(),
{
    match chrono::DateTime::parse_from_rfc3339(s) {
        Ok(d) => Some(
            SessionTime {
                year: d.year() as u16,
                month: d.month() as u8,
                day: d.day() as u8,
                hour: d.hour() as u8,
                minute: d.minute() as u8,
                second: d.second() as u8,
            },
        ),
        Err(_) => None,
    }
}

/// A calendar date.
#[derive(Clone, Copy, Debug, PartialEq, Eq, Structural)]
pub struct CalendarDate {
    pub year: u16,
    pub month: u8,
    pub day: u8,
}

impl CalendarDate {
    pub open spec fn wf(self) -> bool {
        &&& self.year <= 9999
        &&& 1 <= self.month <= 12
        &&& 1 <= self.day <= days_in_month(self.year as int, self.month as int)
    }

    /// The date with the given fields, where they name a day of the
    /// proleptic Gregorian calendar with a four-digit year.
    pub fn new(year: u16, month: u8, day: u8) -> (r: Option<CalendarDate>)
        ensures
            r is Some <==> (CalendarDate { year, month, day }).wf(),
            r matches Some(d) ==> d == (CalendarDate { year, month, day }),
    {
        if year > 9999 || month < 1 || month > 12 || day < 1 || day > month_length(year, month) {
            None
        } else {
            Some(CalendarDate { year, month, day })
        }
    }
}

pub open spec fn is_leap_year(y: int) -> bool {
    (y % 4 == 0 && y % 100 != 0) || y % 400 == 0
}

pub open spec fn days_in_month(y: int, m: int) -> int {
    if m == 2 {
        if is_leap_year(y) { 29 } else { 28 }
    } else if m == 4 || m == 6 || m == 9 || m == 11 {
        30
    } else {
        31
    }
}

/// The number of days in month `month` of year `year`.
pub fn month_length(year: u16, month: u8) -> (r: u8)
    ensures
        r == days_in_month(year as int, month as int),
{
    if month == 2 {
        if (year % 4 == 0 && year % 100 != 0) || year % 400 == 0 {
            29
        } else {
            28
        }
    } else if month == 4 || month == 6 || month == 9 || month == 11 {
        30
    } else {
        31
    }
}

} // verus!
