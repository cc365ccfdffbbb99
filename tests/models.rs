use bucket_files::models::FilesGet200ResponseInner;

fn named(n: &str) -> FilesGet200ResponseInner {
    FilesGet200ResponseInner { file_name: Some(n.to_string()) }
}

#[test]
fn new_has_no_file_name() {
    assert_eq!(FilesGet200ResponseInner::new().file_name, None);
}

#[test]
fn to_string_of_named_record() {
    assert_eq!(named("a.txt").to_string(), "fileName,a.txt");
}

#[test]
fn to_string_of_empty_record_is_empty() {
    assert_eq!(FilesGet200ResponseInner::new().to_string(), "");
}

#[test]
fn from_str_reads_file_name() {
    let r = FilesGet200ResponseInner::from_str("fileName,a.txt").unwrap();
    assert_eq!(r.file_name, Some("a.txt".to_string()));
}

#[test]
fn from_str_keeps_first_value() {
    let r = FilesGet200ResponseInner::from_str("fileName,a,fileName,b").unwrap();
    assert_eq!(r.file_name, Some("a".to_string()));
}

#[test]
fn from_str_of_empty_text_misses_value() {
    let r = FilesGet200ResponseInner::from_str("");
    assert_eq!(r.err().unwrap(), "Missing value while parsing FilesGet200ResponseInner");
}

#[test]
fn from_str_trailing_key_misses_value() {
    let r = FilesGet200ResponseInner::from_str("fileName,a,fileName");
    assert_eq!(r.err().unwrap(), "Missing value while parsing FilesGet200ResponseInner");
}

#[test]
fn from_str_rejects_other_key() {
    let r = FilesGet200ResponseInner::from_str("size,3");
    assert_eq!(r.err().unwrap(), "Unexpected key while parsing FilesGet200ResponseInner");
}

#[test]
fn from_str_reports_bad_key_before_missing_value() {
    let r = FilesGet200ResponseInner::from_str("fileName,a,size,3,fileName");
    assert_eq!(r.err().unwrap(), "Unexpected key while parsing FilesGet200ResponseInner");
}

#[test]
fn from_str_keeps_empty_value() {
    let r = FilesGet200ResponseInner::from_str("fileName,").unwrap();
    assert_eq!(r.file_name, Some(String::new()));
}

#[test]
fn from_str_reads_non_ascii_name() {
    let r = FilesGet200ResponseInner::from_str("fileName,été.txt").unwrap();
    assert_eq!(r.file_name, Some("été.txt".to_string()));
}

#[test]
fn header_value_round_trip() {
    let v = named("b.txt").to_header_value().unwrap();
    assert_eq!(v.to_str().unwrap(), "fileName,b.txt");
    let back = FilesGet200ResponseInner::from_header_value(&v).unwrap();
    assert_eq!(back.file_name, Some("b.txt".to_string()));
}

#[test]
fn header_value_rejects_newline() {
    let e = named("a\nb").to_header_value().err().unwrap();
    assert_eq!(
        e,
        "Invalid header value for FilesGet200ResponseInner - value: fileName,a\nb is invalid failed to parse header value"
    );
}

#[test]
fn header_value_of_empty_record_is_empty() {
    let v = FilesGet200ResponseInner::new().to_header_value().unwrap();
    assert_eq!(v.to_str().unwrap(), "");
}

#[test]
fn from_header_value_reports_parse_error() {
    let v = hyper::header::HeaderValue::from_static("size,3");
    let e = FilesGet200ResponseInner::from_header_value(&v).err().unwrap();
    assert_eq!(
        e,
        "Unable to convert header value 'size,3' into FilesGet200ResponseInner - Unexpected key while parsing FilesGet200ResponseInner"
    );
}

#[test]
fn from_header_value_reports_non_text_header() {
    let v = hyper::header::HeaderValue::from_bytes(b"fileName,\xff").unwrap();
    let e = FilesGet200ResponseInner::from_header_value(&v).err().unwrap();
    assert!(e.starts_with("Unable to convert header: "));
    assert!(e.ends_with(" to string: failed to convert header to a str"));
}

#[test]
fn from_header_text_reports_missing_text() {
    let e = FilesGet200ResponseInner::from_header_text(Err(("\"x\"".to_string(), "bad".to_string())))
        .err()
        .unwrap();
    assert_eq!(e, "Unable to convert header: \"x\" to string: bad");
}

#[test]
fn query_form_round_trip() {
    let r = named("report-2024.csv");
    assert_eq!(FilesGet200ResponseInner::from_str(&r.to_string()).unwrap(), r);
}
