use crate::error::{ErrorKind, ExporterError};
use crate::format::{format_token, ExportFormat};
use crate::time::{decimal, four_digits, push_decimal, push_four_digits, CalendarDate};
use vstd::prelude::*;

verus! {

/// One calendar entry of the session list. Fields that the service leaves
/// out are zero or empty. The distance, a float, is read and shown by the
/// program around the library and is not held here.
#[derive(Clone, Debug)]
pub struct SessionRecord {
    pub record_type: String,
    pub timestamp: u64,
    pub url: String,
    pub list_item_id: u64,
    pub datetime: String,
    pub duration: u64,
    pub calories: u32,
}

/// The record type of an entry that is a real exercise.
pub open spec fn exercise_marker() -> Seq<char> {
    "EXERCISE"@
}

pub open spec fn is_exercise_record(r: SessionRecord) -> bool {
    r.record_type@ == exercise_marker()
}

/// The origin of every request.
pub open spec fn base_uri() -> Seq<char> {
    "https://flow.polar.com"@
}

/// A date as the session list query writes it: day and month without
/// leading zeros, then the four-digit year, separated by dots.
pub open spec fn query_date(d: CalendarDate) -> Seq<char> {
    decimal(d.day as nat) + seq!['.'] + decimal(d.month as nat) + seq!['.'] + four_digits(
        d.year as int,
    )
}

pub open spec fn session_list_uri(start: CalendarDate, end: CalendarDate) -> Seq<char> {
    base_uri() + "/training/getCalendarEvents?start="@ + query_date(start) + "&end="@
        + query_date(end)
}

pub open spec fn download_uri(f: ExportFormat, id: u64) -> Seq<char> {
    base_uri() + "/api/export/training/"@ + format_token(f) + seq!['/'] + decimal(id as nat)
}

pub open spec fn login_uri() -> Seq<char> {
    base_uri() + "/login"@
}

impl SessionRecord {
    /// The entry is a real exercise, the only kind that is exported.
    pub fn is_exercise(&self) -> (r: bool)
        ensures
            r == is_exercise_record(*self),
    {
        let marker = String::from_str("EXERCISE");
        self.record_type == marker
    }
}

/// The positions of the exercise records, in list order.
pub fn exportable(records: &Vec<SessionRecord>) -> (r: Vec<usize>)
    ensures
        forall|j: int| 0 <= j < r.len() ==> #[trigger] r[j] < records.len(),
        forall|j: int| 0 <= j < r.len() ==> is_exercise_record(records[#[trigger] r[j] as int]),
        forall|j: int, k: int| 0 <= j < k < r.len() ==> r[j] < r[k],
        forall|i: int|
            0 <= i < records.len() && is_exercise_record(#[trigger] records[i]) ==> r@.contains(
                i as usize,
            ),
{
    let mut r: Vec<usize> = Vec::new();
    let mut i: usize = 0;
    while i < records.len()
        invariant
            i <= records.len(),
            forall|j: int| 0 <= j < r.len() ==> #[trigger] r[j] < i,
            forall|j: int| 0 <= j < r.len() ==> is_exercise_record(records[#[trigger] r[j] as int]),
            forall|j: int, k: int| 0 <= j < k < r.len() ==> r[j] < r[k],
            forall|n: int|
                0 <= n < i && is_exercise_record(#[trigger] records[n]) ==> r@.contains(n as usize),
        decreases records.len() - i,
    {
        let ghost before = r@;
        if records[i].is_exercise() {
            r.push(i);
        }
        assert forall|n: int|
            0 <= n <= i && is_exercise_record(#[trigger] records[n]) implies r@.contains(
                n as usize,
            ) by {
            if n < i {
                let j = choose|j: int| 0 <= j < before.len() && before[j] == n as usize;
                assert(r@[j] == n as usize);
            } else {
                assert(r@[r.len() - 1] == n as usize);
            }
        }
        i += 1;
    }
    r
}

fn push_query_date(s: &mut String, d: &CalendarDate)
    requires
        d.wf(),
    ensures
        final(s)@ == old(s)@ + query_date(*d),
{
    push_decimal(s, d.day as u64);
    s.append(".");
    push_decimal(s, d.month as u64);
    s.append(".");
    push_four_digits(s, d.year);
    proof { reveal_strlit("."); }
    assert(final(s)@ =~= old(s)@ + query_date(*d));
}

/// The address of the session list between two dates.
pub fn session_list_url(start: &CalendarDate, end: &CalendarDate) -> (r: String)
    requires
        start.wf(),
        end.wf(),
    ensures
        r@ == session_list_uri(*start, *end),
{
    let mut s = String::from_str("https://flow.polar.com");
    s.append("/training/getCalendarEvents?start=");
    push_query_date(&mut s, start);
    s.append("&end=");
    push_query_date(&mut s, end);
    assert(s@ =~= session_list_uri(*start, *end));
    s
}

/// The address from which a session is downloaded in format `fmt`.
pub fn download_url(fmt: ExportFormat, record: &SessionRecord) -> (r: String)
    ensures
        r@ == download_uri(fmt, record.list_item_id),
{
    let mut s = String::from_str("https://flow.polar.com");
    s.append("/api/export/training/");
    s.append(fmt.as_str());
    s.append("/");
    proof { reveal_strlit("/"); }
    push_decimal(&mut s, record.list_item_id);
    assert(s@ =~= download_uri(fmt, record.list_item_id));
    s
}

/// The address of the login form.
pub fn login_url() -> (r: String)
    ensures
        r@ == login_uri(),
{
    let mut s = String::from_str("https://flow.polar.com");
    s.append("/login");
    s
}

/// The message given when a download answers with status `status`.
pub open spec fn download_failure_message(status: u16) -> Seq<char> {
    "download failed with status "@ + decimal(status as nat)
}

/// Decides whether a download may be stored, from the status it came back
/// with: any success status (200 to 299) may.
pub fn check_download(status: u16) -> (r: Result<(), ExporterError>)
    ensures
        r is Ok <==> 200 <= status <= 299,
        r matches Err(e) ==> e.kind == ErrorKind::Download && e.cause@
            == download_failure_message(status),
{
    if 200 <= status && status <= 299 {
        Ok(())
    } else {
        let mut cause = String::from_str("download failed with status ");
        push_decimal(&mut cause, status as u64);
        Err(ExporterError { kind: ErrorKind::Download, cause })
    }
}

} // verus!
