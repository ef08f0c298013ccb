use flow_export::auth::check_login;
use flow_export::catalog::{check_download, download_url, exportable, login_url, session_list_url, SessionRecord};
use flow_export::error::ErrorKind;
use flow_export::format::ExportFormat;
use flow_export::naming::{file_name, session_file_name};
use flow_export::run::{ExportRun, Phase};
use flow_export::time::{CalendarDate, SessionTime};

fn record(kind: &str, id: u64, datetime: &str) -> SessionRecord {
    SessionRecord {
        record_type: kind.to_string(),
        timestamp: 0,
        url: String::new(),
        list_item_id: id,
        datetime: datetime.to_string(),
        duration: 0,
        calories: 0,
    }
}

fn time(year: u16, month: u8, day: u8, hour: u8, minute: u8, second: u8) -> SessionTime {
    SessionTime { year, month, day, hour, minute, second }
}

#[test]
fn format_tokens() {
    assert_eq!(ExportFormat::TCX.as_str(), "tcx");
    assert_eq!(ExportFormat::GPX.as_str(), "gpx");
    assert_eq!(ExportFormat::CSV.as_str(), "csv");
}

#[test]
fn format_from_str_ignores_case() {
    assert_eq!(ExportFormat::from_str("tcx"), Ok(ExportFormat::TCX));
    assert_eq!(ExportFormat::from_str("GpX"), Ok(ExportFormat::GPX));
    assert_eq!(ExportFormat::from_str("CSV"), Ok(ExportFormat::CSV));
}

#[test]
fn format_from_str_unknown() {
    assert_eq!(ExportFormat::from_str("fit"), Err("unknown format"));
    assert_eq!(ExportFormat::from_str("tcxx"), Err("unknown format"));
    assert_eq!(ExportFormat::from_str(""), Err("unknown format"));
}

#[test]
fn login_status_200_succeeds() {
    assert!(check_login(Ok(200)).is_ok());
}

#[test]
fn login_status_403_is_auth_error() {
    let e = check_login(Ok(403)).unwrap_err();
    assert_eq!(e.kind, ErrorKind::Auth);
    assert_eq!(e.description(), "invalid email or password");
}

#[test]
fn login_transport_error_keeps_message() {
    let e = check_login(Err("connection refused".to_string())).unwrap_err();
    assert_eq!(e.kind, ErrorKind::Auth);
    assert_eq!(e.cause, "connection refused");
}

#[test]
fn run_after_successful_login_lists_sessions() {
    let mut run = ExportRun::new(ExportFormat::TCX);
    assert!(run.login_done(Ok(200)).is_ok());
    assert_eq!(run.phase(), Phase::Authenticated);
    run.catalog_done(vec![]);
    assert_eq!(run.phase(), Phase::Exporting);
}

#[test]
fn run_after_rejected_login_fails() {
    let mut run = ExportRun::new(ExportFormat::TCX);
    let e = run.login_done(Ok(403)).unwrap_err();
    assert_eq!(e.kind, ErrorKind::Auth);
    assert_eq!(run.phase(), Phase::Failed);
}

#[test]
fn query_dates_have_no_padding() {
    let start = CalendarDate::new(2023, 1, 5).unwrap();
    let end = CalendarDate::new(2023, 12, 31).unwrap();
    assert_eq!(
        session_list_url(&start, &end),
        "https://flow.polar.com/training/getCalendarEvents?start=5.1.2023&end=31.12.2023"
    );
}

#[test]
fn query_dates_defaults() {
    let start = CalendarDate::new(1970, 1, 1).unwrap();
    let end = CalendarDate::new(2039, 12, 31).unwrap();
    assert_eq!(
        session_list_url(&start, &end),
        "https://flow.polar.com/training/getCalendarEvents?start=1.1.1970&end=31.12.2039"
    );
}

#[test]
fn calendar_date_validity() {
    assert!(CalendarDate::new(2023, 2, 29).is_none());
    assert!(CalendarDate::new(2024, 2, 29).is_some());
    assert!(CalendarDate::new(1900, 2, 29).is_none());
    assert!(CalendarDate::new(2000, 2, 29).is_some());
    assert!(CalendarDate::new(2023, 4, 31).is_none());
    assert!(CalendarDate::new(2023, 13, 1).is_none());
    assert!(CalendarDate::new(2023, 1, 0).is_none());
    assert!(CalendarDate::new(10000, 1, 1).is_none());
}

#[test]
fn download_address() {
    let r = record("EXERCISE", 123456, "2023-05-01T10:00:00+02:00");
    assert_eq!(
        download_url(ExportFormat::GPX, &r),
        "https://flow.polar.com/api/export/training/gpx/123456"
    );
    let z = record("EXERCISE", 0, "2023-05-01T10:00:00+02:00");
    assert_eq!(download_url(ExportFormat::CSV, &z), "https://flow.polar.com/api/export/training/csv/0");
}

#[test]
fn login_address() {
    assert_eq!(login_url(), "https://flow.polar.com/login");
}

#[test]
fn file_name_from_timestamp_keeps_offset_time() {
    let r = record("EXERCISE", 1, "2023-05-01T10:00:00+02:00");
    assert_eq!(session_file_name(&r, ExportFormat::TCX).unwrap(), "2023-05-01-10_00_00.tcx");
}

#[test]
fn file_name_drops_fraction_and_reads_leap_second() {
    let r = record("EXERCISE", 1, "2016-12-31T23:59:60.5Z");
    assert_eq!(session_file_name(&r, ExportFormat::GPX).unwrap(), "2016-12-31-23_59_59.gpx");
    let f = record("EXERCISE", 1, "2021-03-04T05:06:07.891-07:00");
    assert_eq!(session_file_name(&f, ExportFormat::CSV).unwrap(), "2021-03-04-05_06_07.csv");
}

#[test]
fn file_name_of_bad_timestamp_is_error() {
    let r = record("EXERCISE", 1, "yesterday");
    assert_eq!(session_file_name(&r, ExportFormat::TCX).unwrap_err().kind, ErrorKind::TimestampParse);
    let m = record("EXERCISE", 1, "2023-02-30T10:00:00Z");
    assert_eq!(session_file_name(&m, ExportFormat::TCX).unwrap_err().kind, ErrorKind::TimestampParse);
}

#[test]
fn file_names_are_deterministic_and_distinct() {
    let a = time(2023, 5, 1, 10, 0, 0);
    let b = time(2023, 5, 1, 10, 0, 1);
    assert_eq!(file_name(&a, ExportFormat::TCX), file_name(&a, ExportFormat::TCX));
    assert_eq!(file_name(&a, ExportFormat::TCX), "2023-05-01-10_00_00.tcx");
    assert_ne!(file_name(&a, ExportFormat::TCX), file_name(&b, ExportFormat::TCX));
    assert_ne!(file_name(&a, ExportFormat::TCX), file_name(&a, ExportFormat::GPX));
    assert_eq!(file_name(&time(7, 1, 2, 3, 4, 5), ExportFormat::CSV), "0007-01-02-03_04_05.csv");
}

#[test]
fn file_name_round_trip() {
    let t = time(2019, 11, 23, 18, 45, 9);
    let name = file_name(&t, ExportFormat::GPX);
    let back = record("EXERCISE", 1, &format!(
        "{}T{}:{}:{}Z",
        &name[0..10],
        &name[11..13],
        &name[14..16],
        &name[17..19]
    ));
    assert_eq!(session_file_name(&back, ExportFormat::GPX).unwrap(), name);
    assert_eq!(&name[20..], "gpx");
}

#[test]
fn exportable_keeps_only_exercises() {
    let records = vec![
        record("NOTE", 1, ""),
        record("EXERCISE", 2, "2023-05-01T10:00:00+02:00"),
        record("exercise", 3, "2023-05-01T10:00:00+02:00"),
        record("EXERCISE", 4, "2023-05-02T10:00:00+02:00"),
    ];
    assert_eq!(exportable(&records), vec![1, 3]);
    assert_eq!(exportable(&vec![]), Vec::<usize>::new());
}

#[test]
fn end_to_end_one_exercise_one_note() {
    let mut run = ExportRun::new(ExportFormat::TCX);
    assert!(run.login_done(Ok(200)).is_ok());
    run.catalog_done(vec![
        record("EXERCISE", 42, "2023-05-01T10:00:00+02:00"),
        record("NOTE", 43, ""),
    ]);
    let d = run.next_download().unwrap().unwrap();
    assert_eq!(d.record_index, 0);
    assert_eq!(d.entry_name, "2023-05-01-10_00_00.tcx");
    assert_eq!(d.url, "https://flow.polar.com/api/export/training/tcx/42");
    assert!(run.next_download().is_none());
    assert_eq!(run.phase(), Phase::Done);
    assert_eq!(run.exported(), 1);
}

#[test]
fn run_hands_out_one_download_per_exercise() {
    let mut run = ExportRun::new(ExportFormat::GPX);
    assert!(run.login_done(Ok(200)).is_ok());
    run.catalog_done(vec![
        record("EXERCISE", 1, "2023-05-01T10:00:00+02:00"),
        record("NOTE", 2, ""),
        record("EXERCISE", 3, "2023-05-01T10:00:01+02:00"),
        record("EXERCISE", 4, "2023-06-01T07:30:00Z"),
    ]);
    let mut names: Vec<String> = Vec::new();
    while let Some(step) = run.next_download() {
        names.push(step.unwrap().entry_name);
    }
    assert_eq!(run.phase(), Phase::Done);
    assert_eq!(run.exported(), 3);
    assert_eq!(
        names,
        vec!["2023-05-01-10_00_00.gpx", "2023-05-01-10_00_01.gpx", "2023-06-01-07_30_00.gpx"]
    );
}

#[test]
fn run_stops_on_bad_timestamp() {
    let mut run = ExportRun::new(ExportFormat::TCX);
    assert!(run.login_done(Ok(200)).is_ok());
    run.catalog_done(vec![record("NOTE", 1, ""), record("EXERCISE", 2, "not a time")]);
    let e = run.next_download().unwrap().unwrap_err();
    assert_eq!(e.kind, ErrorKind::TimestampParse);
    assert_eq!(run.phase(), Phase::Failed);
    assert_eq!(run.next(), 1);
    assert_eq!(run.exported(), 0);
}

#[test]
fn format_from_str_error_message() {
    assert_eq!(ExportFormat::from_str("kml"), Err("unknown format"));
}

#[test]
fn download_status_success_range() {
    assert!(check_download(200).is_ok());
    assert!(check_download(299).is_ok());
    let e = check_download(404).unwrap_err();
    assert_eq!(e.kind, ErrorKind::Download);
    assert_eq!(e.cause, "download failed with status 404");
    assert_eq!(check_download(199).unwrap_err().cause, "download failed with status 199");
    assert!(check_download(300).is_err());
}

#[test]
fn plain_timestamps_with_offsets_are_named() {
    let z = record("EXERCISE", 1, "2024-02-29T00:00:00Z");
    assert_eq!(session_file_name(&z, ExportFormat::TCX).unwrap(), "2024-02-29-00_00_00.tcx");
    let m = record("EXERCISE", 1, "2000-01-01T23:59:59-23:59");
    assert_eq!(session_file_name(&m, ExportFormat::CSV).unwrap(), "2000-01-01-23_59_59.csv");
    let n = record("EXERCISE", 1, "2023-05-01T10:00:00");
    assert_eq!(session_file_name(&n, ExportFormat::TCX).unwrap_err().kind, ErrorKind::TimestampParse);
}
