use bucket_files::files::{
    files_from_listing, load_config, map_entries, open_bucket, prepare_bucket, resolve_config,
    ConfigError, ObjectEntry, BUCKET_VAR, REGION_VAR,
};
use s3::creds::Credentials;
use s3::Region;

fn creds() -> Result<Credentials, String> {
    Ok(Credentials::new(Some("AK"), Some("SK"), None, None, None).unwrap())
}

fn ok(s: &str) -> Result<String, String> {
    Ok(s.to_string())
}

fn missing() -> Result<String, String> {
    Err("environment variable not found".to_string())
}

fn page(keys: &[&str]) -> Vec<ObjectEntry> {
    keys.iter().map(|k| ObjectEntry { key: k.to_string() }).collect()
}

fn names(v: &[bucket_files::models::FilesGet200ResponseInner]) -> Vec<Option<String>> {
    v.iter().map(|f| f.file_name.clone()).collect()
}

#[test]
fn resolves_full_configuration() {
    let c = resolve_config(ok("data"), ok("us-east-1"), creds()).ok().unwrap();
    assert_eq!(c.bucket, "data");
    assert_eq!(c.region, Region::UsEast1);
    assert_eq!(c.credentials.access_key, Some("AK".to_string()));
}

#[test]
fn unknown_region_becomes_custom() {
    let c = resolve_config(ok("data"), ok("moon-1"), creds()).ok().unwrap();
    assert_eq!(c.region.to_string(), "moon-1");
}

#[test]
fn missing_bucket_names_bucket_variable() {
    let e = resolve_config(missing(), ok("us-east-1"), creds()).err().unwrap();
    assert!(matches!(e, ConfigError::MissingBucket(_)));
    let m = e.to_api_error().message;
    assert_eq!(m, "Missing AWS_S3_BUCKET env variable: environment variable not found");
    assert!(m.contains(BUCKET_VAR));
}

#[test]
fn missing_region_names_region_variable() {
    let e = resolve_config(ok("data"), missing(), creds()).err().unwrap();
    assert!(matches!(e, ConfigError::MissingRegion(_)));
    let m = e.to_api_error().message;
    assert_eq!(m, "Missing AWS_REGION env variable: environment variable not found");
    assert!(m.contains(REGION_VAR));
}

#[test]
fn region_unset_stops_before_listing() {
    let r = prepare_bucket(ok("data"), missing());
    let m = r.err().unwrap().message;
    assert!(m.contains("AWS_REGION"));
}

#[test]
fn bucket_checked_before_region() {
    let e = load_config(missing(), missing()).err().unwrap();
    assert!(matches!(e, ConfigError::MissingBucket(_)));
}

#[test]
fn bad_credentials_are_reported() {
    let e = resolve_config(ok("data"), ok("us-east-1"), Err("no key".to_string())).err().unwrap();
    assert_eq!(e.to_api_error().message, "Invalid credentials: no key");
}

#[test]
fn config_messages_are_distinct() {
    let ms: Vec<String> = vec![
        ConfigError::MissingBucket("x".to_string()),
        ConfigError::MissingRegion("x".to_string()),
        ConfigError::InvalidRegion("x".to_string()),
        ConfigError::InvalidCredentials("x".to_string()),
    ]
    .iter()
    .map(|e| e.to_api_error().message)
    .collect();
    assert_eq!(ms[2], "Invalid region: x");
    for i in 0..ms.len() {
        for j in 0..ms.len() {
            assert_eq!(i == j, ms[i] == ms[j]);
        }
    }
}

#[test]
fn opens_named_bucket() {
    let c = resolve_config(ok("data"), ok("us-east-1"), creds()).ok().unwrap();
    let b = open_bucket(c).ok().unwrap();
    assert_eq!(b.name, "data");
}

#[test]
fn maps_keys_in_order() {
    let r = map_entries(&page(&["z", "a", "m"]));
    assert_eq!(names(&r), vec![Some("z".to_string()), Some("a".to_string()), Some("m".to_string())]);
}

#[test]
fn two_files_listing() {
    let r = files_from_listing(Ok(vec![page(&["a.txt", "b.txt"])])).ok().unwrap();
    assert_eq!(names(&r), vec![Some("a.txt".to_string()), Some("b.txt".to_string())]);
    let body = serde_json::Value::Array(
        r.iter()
            .map(|f| {
                let mut m = serde_json::Map::new();
                if let Some(n) = &f.file_name {
                    m.insert("fileName".to_string(), serde_json::Value::String(n.clone()));
                }
                serde_json::Value::Object(m)
            })
            .collect(),
    );
    assert_eq!(body.to_string(), "[{\"fileName\":\"a.txt\"},{\"fileName\":\"b.txt\"}]");
}

#[test]
fn empty_first_page_is_empty_response() {
    let r = files_from_listing(Ok(vec![page(&[]), page(&["later"])])).ok().unwrap();
    assert!(r.is_empty());
}

#[test]
fn only_first_page_is_used() {
    let r = files_from_listing(Ok(vec![page(&["a"]), page(&["b"])])).ok().unwrap();
    assert_eq!(names(&r), vec![Some("a".to_string())]);
}

#[test]
fn listing_failure_is_reported() {
    let e = files_from_listing(Err("timeout".to_string())).err().unwrap();
    assert_eq!(e.message, "Failed to list bucket: timeout");
}

#[test]
fn listing_without_pages_is_an_error() {
    let e = files_from_listing(Ok(vec![])).err().unwrap();
    assert_eq!(e.message, "Failed to list bucket: no result page");
}
