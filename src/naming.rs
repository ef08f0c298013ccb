use crate::catalog::SessionRecord;
use crate::error::{ErrorKind, ExporterError};
use crate::format::{format_token, lemma_token_injective, ExportFormat};
use crate::time::{
    digit_char, four_digits, is_plain_rfc3339, lemma_digit_round_trip, number_at, parse_rfc3339,
    push_four_digits, push_two_digits, rfc3339_digits, rfc3339_fields, two_digits, SessionTime,
};
use vstd::prelude::*;

verus! {

/// The file name of a session that started at `t`, exported in format `f`:
/// `YYYY-MM-DD-HH_MM_SS.<token>`.
pub open spec fn file_name_of(t: SessionTime, f: ExportFormat) -> Seq<char> {
    four_digits(t.year as int) + seq!['-'] + two_digits(t.month as int) + seq!['-'] + two_digits(
        t.day as int,
    ) + seq!['-'] + two_digits(t.hour as int) + seq!['_'] + two_digits(t.minute as int) + seq![
        '_',
    ] + two_digits(t.second as int) + seq!['.'] + format_token(f)
}

/// The time that a file name of this shape records.
pub open spec fn time_of_name(s: Seq<char>) -> SessionTime {
    SessionTime {
        year: number_at(s, 0, 4) as u16,
        month: number_at(s, 5, 2) as u8,
        day: number_at(s, 8, 2) as u8,
        hour: number_at(s, 11, 2) as u8,
        minute: number_at(s, 14, 2) as u8,
        second: number_at(s, 17, 2) as u8,
    }
}

/// The extension of a file name of this shape.
pub open spec fn extension_of_name(s: Seq<char>) -> Seq<char> {
    s.subrange(20, s.len() as int)
}

proof fn lemma_two(s: Seq<char>, i: int, n: int)
    requires
        0 <= n < 100,
        0 <= i,
        i + 2 <= s.len(),
        s[i] == digit_char(n / 10),
        s[i + 1] == digit_char(n % 10),
    ensures
        number_at(s, i, 2) == n,
{
    lemma_digit_round_trip(n / 10);
    lemma_digit_round_trip(n % 10);
    reveal_with_fuel(number_at, 3);
}

proof fn lemma_four(s: Seq<char>, n: int)
    requires
        0 <= n < 10000,
        4 <= s.len(),
        s[0] == digit_char(n / 1000),
        s[1] == digit_char(n / 100 % 10),
        s[2] == digit_char(n / 10 % 10),
        s[3] == digit_char(n % 10),
    ensures
        number_at(s, 0, 4) == n,
{
    lemma_digit_round_trip(n / 1000);
    lemma_digit_round_trip(n / 100 % 10);
    lemma_digit_round_trip(n / 10 % 10);
    lemma_digit_round_trip(n % 10);
    reveal_with_fuel(number_at, 5);
}

/// Reading back a derived file name gives the session's time, to the second,
/// and the format's token.
pub proof fn lemma_file_name_round_trip(t: SessionTime, f: ExportFormat)
    requires
        t.wf(),
    ensures
        time_of_name(file_name_of(t, f)) == t,
        extension_of_name(file_name_of(t, f)) == format_token(f),
{
    let s = file_name_of(t, f);
    assert(s.len() == 23);
    assert(s[0] == digit_char(t.year as int / 1000));
    assert(s[1] == digit_char(t.year as int / 100 % 10));
    assert(s[2] == digit_char(t.year as int / 10 % 10));
    assert(s[3] == digit_char(t.year as int % 10));
    lemma_four(s, t.year as int);
    assert(s[5] == digit_char(t.month as int / 10) && s[6] == digit_char(t.month as int % 10));
    lemma_two(s, 5, t.month as int);
    assert(s[8] == digit_char(t.day as int / 10) && s[9] == digit_char(t.day as int % 10));
    lemma_two(s, 8, t.day as int);
    assert(s[11] == digit_char(t.hour as int / 10) && s[12] == digit_char(t.hour as int % 10));
    lemma_two(s, 11, t.hour as int);
    assert(s[14] == digit_char(t.minute as int / 10) && s[15] == digit_char(t.minute as int % 10));
    lemma_two(s, 14, t.minute as int);
    assert(s[17] == digit_char(t.second as int / 10) && s[18] == digit_char(t.second as int % 10));
    lemma_two(s, 17, t.second as int);
    assert(extension_of_name(s) =~= format_token(f));
}

/// Distinct pairs of a time (to the second) and a format give distinct file
/// names.
pub proof fn lemma_file_name_injective(t1: SessionTime, f1: ExportFormat, t2: SessionTime, f2: ExportFormat)
    requires
        t1.wf(),
        t2.wf(),
        file_name_of(t1, f1) == file_name_of(t2, f2),
    ensures
        t1 == t2,
        f1 == f2,
{
    lemma_file_name_round_trip(t1, f1);
    lemma_file_name_round_trip(t2, f2);
    lemma_token_injective(f1, f2);
}

/// The file name of a session that started at `t`, in format `fmt`.
pub fn file_name(t: &SessionTime, fmt: ExportFormat) -> (r: String)
    requires
        t.wf(),
    ensures
        r@ == file_name_of(*t, fmt),
{
    proof {
        reveal_strlit("-");
        reveal_strlit("_");
        reveal_strlit(".");
    }
    let mut s = String::new();
    push_four_digits(&mut s, t.year);
    s.append("-");
    push_two_digits(&mut s, t.month as u16);
    s.append("-");
    push_two_digits(&mut s, t.day as u16);
    s.append("-");
    push_two_digits(&mut s, t.hour as u16);
    s.append("_");
    push_two_digits(&mut s, t.minute as u16);
    s.append("_");
    push_two_digits(&mut s, t.second as u16);
    s.append(".");
    s.append(fmt.as_str());
    assert(s@ =~= file_name_of(*t, fmt));
    s
}

/// The file name under which a session is stored: its start time, in the
/// offset that the timestamp states, then the format's token.
pub fn session_file_name(record: &SessionRecord, fmt: ExportFormat) -> (r: Result<
    String,
    ExporterError,
>)
    ensures
        r matches Ok(n) ==> rfc3339_digits(record.datetime@) && rfc3339_fields(
            record.datetime@,
        ).wf() && n@ == file_name_of(rfc3339_fields(record.datetime@), fmt),
        r matches Err(e) ==> e.kind == ErrorKind::TimestampParse,
        is_plain_rfc3339(record.datetime@) ==> r is Ok,
{
    match parse_rfc3339(record.datetime.as_str()) {
        Some(t) => Ok(file_name(&t, fmt)),
        None => Err(ExporterError::new(ErrorKind::TimestampParse, "invalid session timestamp")),
    }
}

} // verus!
