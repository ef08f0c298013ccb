use crate::auth::check_login;
use crate::catalog::{download_uri, download_url, is_exercise_record, SessionRecord};
use crate::error::{ErrorKind, ExporterError};
use crate::format::ExportFormat;
use crate::naming::{file_name_of, session_file_name};
use crate::time::{is_plain_rfc3339, rfc3339_digits, rfc3339_fields};
use vstd::prelude::*;

verus! {

/// Where an export run stands. No step leads back to an earlier phase.
#[derive(Clone, Copy, Debug, PartialEq, Eq, Structural)]
pub enum Phase {
    Unauthenticated,
    Authenticated,
    Exporting,
    Done,
    Failed,
}

/// One session to fetch and store: where to download it from, and the name
/// of the file or archive entry that receives the bytes.
#[derive(Clone, Debug)]
pub struct Download {
    pub record_index: usize,
    pub url: String,
    pub entry_name: String,
}

/// The number of exercise records in `s`.
pub open spec fn exercise_count(s: Seq<SessionRecord>) -> nat
    decreases s.len(),
{
    if s.len() == 0 {
        0
    } else {
        exercise_count(s.drop_last()) + (if is_exercise_record(s.last()) {
            1nat
        } else {
            0nat
        })
    }
}

/// The decisions of one export run: log in, list the sessions, then hand
/// out one download per exercise record, in list order.
pub struct ExportRun {
    format: ExportFormat,
    phase: Phase,
    records: Vec<SessionRecord>,
    next: usize,
    exported: usize,
}

impl ExportRun {
    pub closed spec fn spec_format(&self) -> ExportFormat {
        self.format
    }

    pub closed spec fn spec_phase(&self) -> Phase {
        self.phase
    }

    pub closed spec fn spec_records(&self) -> Seq<SessionRecord> {
        self.records@
    }

    pub closed spec fn spec_next(&self) -> usize {
        self.next
    }

    pub closed spec fn spec_exported(&self) -> usize {
        self.exported
    }

    /// The records not yet looked at start at `next`, and `exported` counts
    /// the exercise records before it.
    pub open spec fn wf(&self) -> bool {
        &&& self.next() <= self.spec_records().len()
        &&& self.exported() == exercise_count(self.spec_records().subrange(0, self.next() as int))
        &&& self.phase() == Phase::Done ==> self.next() == self.spec_records().len()
    }

    /// A finished run has handed out exactly one download per exercise
    /// record of the session list.
    pub proof fn lemma_done_exports_every_exercise(&self)
        requires
            self.wf(),
            self.phase() == Phase::Done,
        ensures
            self.exported() == exercise_count(self.spec_records()),
    {
        assert(self.records@.subrange(0, self.next as int) =~= self.records@);
    }

    /// The format of every download of the run.
    #[verifier::when_used_as_spec(spec_format)]
    pub fn format(&self) -> (r: ExportFormat)
        ensures
            r == self.spec_format(),
    {
        self.format
    }

    /// Where the run stands.
    #[verifier::when_used_as_spec(spec_phase)]
    pub fn phase(&self) -> (r: Phase)
        ensures
            r == self.spec_phase(),
    {
        self.phase
    }

    /// The session list, once it has been taken in.
    pub fn records(&self) -> (r: &Vec<SessionRecord>)
        ensures
            r@ == self.spec_records(),
    {
        &self.records
    }

    /// The position of the first record not yet looked at.
    #[verifier::when_used_as_spec(spec_next)]
    pub fn next(&self) -> (r: usize)
        ensures
            r == self.spec_next(),
    {
        self.next
    }

    /// How many downloads have been handed out.
    #[verifier::when_used_as_spec(spec_exported)]
    pub fn exported(&self) -> (r: usize)
        ensures
            r == self.spec_exported(),
    {
        self.exported
    }

    pub fn new(format: ExportFormat) -> (r: ExportRun)
        ensures
            r.wf(),
            r.format() == format,
            r.phase() == Phase::Unauthenticated,
            r.spec_records().len() == 0,
            r.exported() == 0,
    {
        let r = ExportRun { format, phase: Phase::Unauthenticated, records: Vec::new(), next: 0, exported: 0 };
        assert(r.spec_records().subrange(0, 0) =~= Seq::<SessionRecord>::empty());
        r
    }

    /// Takes in what the login request came back with. Only status 200
    /// moves the run on; anything else ends it.
    pub fn login_done(&mut self, response: Result<u16, String>) -> (r: Result<(), ExporterError>)
        requires
            old(self).wf(),
            old(self).phase() == Phase::Unauthenticated,
        ensures
            final(self).wf(),
            final(self).format() == old(self).format(),
            final(self).spec_records() == old(self).spec_records(),
            final(self).exported() == old(self).exported(),
            r is Ok <==> response == Ok::<u16, String>(200u16),
            r is Ok ==> final(self).phase() == Phase::Authenticated,
            r matches Err(e) ==> final(self).phase() == Phase::Failed && e.kind == ErrorKind::Auth,
    {
        let r = check_login(response);
        if r.is_ok() {
            self.phase = Phase::Authenticated;
        } else {
            self.phase = Phase::Failed;
        }
        r
    }

    /// Takes in the session list.
    pub fn catalog_done(&mut self, records: Vec<SessionRecord>)
        requires
            old(self).wf(),
            old(self).phase() == Phase::Authenticated,
        ensures
            final(self).wf(),
            final(self).format() == old(self).format(),
            final(self).phase() == Phase::Exporting,
            final(self).spec_records() == records@,
            final(self).next() == 0,
            final(self).exported() == 0,
    {
        self.records = records;
        self.next = 0;
        self.exported = 0;
        assert(self.records@.subrange(0, 0) =~= Seq::<SessionRecord>::empty());
        self.phase = Phase::Exporting;
    }

    /// The next download: the first exercise record not yet looked at.
    /// `None` when none is left, which ends the run; an error, which also
    /// ends it, when that record's timestamp cannot be read.
    pub fn next_download(&mut self) -> (r: Option<Result<Download, ExporterError>>)
        requires
            old(self).wf(),
            old(self).phase() == Phase::Exporting,
        ensures
            final(self).wf(),
            final(self).format() == old(self).format(),
            final(self).spec_records() == old(self).spec_records(),
            old(self).next() <= final(self).next(),
            forall|k: int|
                old(self).next() <= k < final(self).next() && (r matches Some(Ok(d)) ==> k
                    != d.record_index) ==> !is_exercise_record(#[trigger] old(self).spec_records()[k]),
            r is None ==> final(self).phase() == Phase::Done && final(self).next()
                == old(self).spec_records().len() && final(self).exported() == old(self).exported() && (
            forall|k: int|
                old(self).next() <= k < old(self).spec_records().len() ==> !is_exercise_record(
                    #[trigger] old(self).spec_records()[k],
                )),
            r matches Some(Ok(d)) ==> {
                let rec = old(self).spec_records()[d.record_index as int];
                &&& final(self).phase() == Phase::Exporting
                &&& d.record_index == final(self).next() - 1
                &&& old(self).next() <= d.record_index
                &&& is_exercise_record(rec)
                &&& final(self).exported() == old(self).exported() + 1
                &&& d.url@ == download_uri(old(self).format(), rec.list_item_id)
                &&& rfc3339_digits(rec.datetime@)
                &&& rfc3339_fields(rec.datetime@).wf()
                &&& d.entry_name@ == file_name_of(rfc3339_fields(rec.datetime@), old(self).format())
            },
            r matches Some(Err(e)) ==> {
                &&& final(self).phase() == Phase::Failed
                &&& e.kind == ErrorKind::TimestampParse
                &&& final(self).next() < old(self).spec_records().len()
                &&& is_exercise_record(old(self).spec_records()[final(self).next() as int])
                &&& final(self).exported() == old(self).exported()
                &&& !is_plain_rfc3339(old(self).spec_records()[final(self).next() as int].datetime@)
            },
    {
        while self.next < self.records.len() && !self.records[self.next].is_exercise()
            invariant
                self.wf(),
                self.format == old(self).format(),
                self.phase == old(self).phase(),
                self.records@ == old(self).spec_records(),
                self.exported == old(self).exported(),
                old(self).next() <= self.next,
                forall|k: int|
                    old(self).next() <= k < self.next ==> !is_exercise_record(
                        #[trigger] old(self).spec_records()[k],
                    ),
            decreases self.records.len() - self.next,
        {
            proof { self.lemma_count_step(); }
            self.next += 1;
        }
        if self.next == self.records.len() {
            self.phase = Phase::Done;
            return None;
        }
        let i = self.next;
        proof { self.lemma_count_step(); }
        match session_file_name(&self.records[i], self.format) {
            Ok(name) => {
                self.next = i + 1;
                let url = download_url(self.format, &self.records[i]);
                self.exported = self.exported + 1;
                Some(Ok(Download { record_index: i, url, entry_name: name }))
            },
            Err(e) => {
                self.phase = Phase::Failed;
                Some(Err(e))
            },
        }
    }

    proof fn lemma_count_step(&self)
        requires
            self.next < self.records.len(),
        ensures
            exercise_count(self.records@.subrange(0, self.next + 1)) == exercise_count(
                self.records@.subrange(0, self.next as int),
            ) + (if is_exercise_record(self.records@[self.next as int]) {
                1nat
            } else {
                0nat
            }),
            exercise_count(self.records@.subrange(0, self.next as int)) <= self.next,
    {
        let s = self.records@.subrange(0, self.next + 1);
        assert(s.drop_last() =~= self.records@.subrange(0, self.next as int));
        lemma_count_bound(self.records@.subrange(0, self.next as int));
    }
}

proof fn lemma_count_bound(s: Seq<SessionRecord>)
    ensures
        exercise_count(s) <= s.len(),
    decreases s.len(),
{
    if s.len() > 0 {
        lemma_count_bound(s.drop_last());
    }
}

} // verus!
