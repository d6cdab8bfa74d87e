use filedrop::handlers::content_disposition;
use filedrop::handlers::handle_download;
use filedrop::handlers::handle_fallback;
use filedrop::handlers::handle_health;
use filedrop::handlers::handle_list;
use filedrop::handlers::handle_upload_multipart;
use filedrop::handlers::handle_upload_raw;
use filedrop::handlers::upload_write_status;
use filedrop::handlers::MultipartField;
use filedrop::handlers::WriteOutcome;
use filedrop::response::status_code;
use filedrop::response::Status;
use filedrop::store::Store;

fn field(name: &str, filename: &str, bytes: &[u8]) -> MultipartField {
    MultipartField {
        field_name: name.to_string(),
        filename: filename.to_string(),
        content_type: "application/octet-stream".to_string(),
        bytes: bytes.to_vec(),
    }
}

#[test]
fn round_trip_raw_upload() {
    let mut store = Store::new();
    let st = handle_upload_raw(
        &mut store,
        Some("report.txt".to_string()),
        b"hello world".to_vec(),
    );
    assert_eq!(st, Status::Created);
    let reply = handle_download(&store, Some(&"report.txt".to_string())).unwrap();
    assert_eq!(reply.body, b"hello world".to_vec());
    assert_eq!(reply.content_disposition, "attachment; filename=report.txt");
}

#[test]
fn round_trip_empty_payload() {
    let mut store = Store::new();
    let st = handle_upload_raw(&mut store, Some("empty".to_string()), Vec::new());
    assert_eq!(st, Status::Created);
    let reply = handle_download(&store, Some(&"empty".to_string())).unwrap();
    assert_eq!(reply.body, Vec::<u8>::new());
}

#[test]
fn listing_contains_exactly_what_was_uploaded() {
    let mut store = Store::new();
    handle_upload_raw(&mut store, Some("one".to_string()), b"1".to_vec());
    handle_upload_raw(&mut store, Some("two".to_string()), b"2".to_vec());
    let names = handle_list(&store, true);
    assert_eq!(names.len(), 2);
    assert!(names.iter().any(|n| n == "one"));
    assert!(names.iter().any(|n| n == "two"));
    assert!(!names.iter().any(|n| n == "three"));
}

#[test]
fn overwrite_returns_latest_payload() {
    let mut store = Store::new();
    handle_upload_raw(&mut store, Some("f".to_string()), b"first".to_vec());
    handle_upload_raw(&mut store, Some("f".to_string()), b"second".to_vec());
    let reply = handle_download(&store, Some(&"f".to_string())).unwrap();
    assert_eq!(reply.body, b"second".to_vec());
    let names = handle_list(&store, true);
    assert_eq!(names.len(), 1);
}

#[test]
fn upload_without_filename_is_bad_request() {
    let mut store = Store::new();
    let st = handle_upload_raw(&mut store, None, b"data".to_vec());
    assert_eq!(st, Status::BadRequest);
    assert_eq!(status_code(st), 400);
    assert_eq!(handle_list(&store, true).len(), 0);
}

#[test]
fn download_without_filename_is_bad_request() {
    let store = Store::new();
    let r = handle_download(&store, None);
    assert_eq!(r.unwrap_err(), Status::BadRequest);
}

#[test]
fn download_of_unknown_file_is_not_found() {
    let mut store = Store::new();
    handle_upload_raw(&mut store, Some("present".to_string()), b"x".to_vec());
    let r = handle_download(&store, Some(&"absent".to_string()));
    assert_eq!(r.unwrap_err(), Status::NotFound);
    assert_eq!(status_code(Status::NotFound), 404);
}

#[test]
fn multipart_stores_only_first_field() {
    let mut store = Store::new();
    let fields = vec![
        field("file", "kept.bin", b"kept bytes"),
        field("file2", "dropped.bin", b"dropped bytes"),
    ];
    let st = handle_upload_multipart(&mut store, fields);
    assert_eq!(st, Status::Created);
    let reply = handle_download(&store, Some(&"kept.bin".to_string())).unwrap();
    assert_eq!(reply.body, b"kept bytes".to_vec());
    let r = handle_download(&store, Some(&"dropped.bin".to_string()));
    assert_eq!(r.unwrap_err(), Status::NotFound);
    let names = handle_list(&store, true);
    assert_eq!(names, vec!["kept.bin".to_string()]);
}

#[test]
fn multipart_with_no_field_is_bad_request() {
    let mut store = Store::new();
    let st = handle_upload_multipart(&mut store, Vec::new());
    assert_eq!(st, Status::BadRequest);
    assert_eq!(handle_list(&store, true).len(), 0);
}

#[test]
fn listing_is_empty_before_any_upload() {
    let store = Store::new();
    assert_eq!(handle_list(&store, true), Vec::<String>::new());
}

#[test]
fn listing_is_empty_when_root_is_unreadable() {
    let mut store = Store::new();
    handle_upload_raw(&mut store, Some("f".to_string()), b"x".to_vec());
    assert_eq!(handle_list(&store, false), Vec::<String>::new());
}

#[test]
fn unmatched_route_is_not_found() {
    let st = handle_fallback();
    assert_eq!(st, Status::NotFound);
    assert_eq!(status_code(st), 404);
}

#[test]
fn health_check_is_ok() {
    let st = handle_health();
    assert_eq!(st, Status::Okay);
    assert_eq!(status_code(st), 200);
}

#[test]
fn status_codes_are_exact() {
    assert_eq!(status_code(Status::Okay), 200);
    assert_eq!(status_code(Status::Created), 201);
    assert_eq!(status_code(Status::BadRequest), 400);
    assert_eq!(status_code(Status::NotFound), 404);
    assert_eq!(status_code(Status::InternalError), 500);
}

#[test]
fn write_outcomes_map_to_their_statuses() {
    assert_eq!(upload_write_status(WriteOutcome::Completed), Status::Created);
    assert_eq!(upload_write_status(WriteOutcome::CreateFailed), Status::BadRequest);
    assert_eq!(upload_write_status(WriteOutcome::FlushFailed), Status::InternalError);
}

#[test]
fn content_disposition_interpolates_raw_filename() {
    let h = content_disposition(&"notes.txt".to_string());
    assert_eq!(h, "attachment; filename=notes.txt");
    let spaced = content_disposition(&"my file.txt".to_string());
    assert_eq!(spaced, "attachment; filename=my file.txt");
}
