//! The "list files" request: storage configuration, the bucket handle, and
//! the response built from the first page of a listing.
use vstd::prelude::*;
use vstd::string::*;
use s3::bucket::Bucket;
use s3::creds::Credentials;
use s3::Region;
use crate::models::{FilesGet200ResponseInner, name_view};

verus! {

#[verifier::external_type_specification]
#[verifier::external_body]
pub struct ExRegion(Region);

#[verifier::external_type_specification]
#[verifier::external_body]
pub struct ExCredentials(Credentials);

#[verifier::external_type_specification]
#[verifier::external_body]
pub struct ExBucket(Bucket);

/// The environment variable that names the bucket.
pub const BUCKET_VAR: &'static str = "AWS_S3_BUCKET";

/// The environment variable that names the region.
pub const REGION_VAR: &'static str = "AWS_REGION";

/// The one error a request can end in: a diagnostic message.
pub struct ApiError {
    pub message: String,
}

/// Why the storage configuration could not be resolved, with the cause.
pub enum ConfigError {
    MissingBucket(String),
    MissingRegion(String),
    InvalidRegion(String),
    InvalidCredentials(String),
}

/// Where the objects are listed from and with which credentials.
pub struct StorageConfig {
    pub bucket: String,
    pub region: Region,
    pub credentials: Credentials,
}

/// One object of a listing page.
pub struct ObjectEntry {
    pub key: String,
}

/// Which of the four configuration errors this is.
pub open spec fn config_kind(e: ConfigError) -> int {
    match e {
        ConfigError::MissingBucket(_) => 0,
        ConfigError::MissingRegion(_) => 1,
        ConfigError::InvalidRegion(_) => 2,
        ConfigError::InvalidCredentials(_) => 3,
    }
}

/// The text that starts the message of each configuration error.
pub open spec fn config_prefix(e: ConfigError) -> Seq<char> {
    match e {
        ConfigError::MissingBucket(_) => "Missing AWS_S3_BUCKET env variable: "@,
        ConfigError::MissingRegion(_) => "Missing AWS_REGION env variable: "@,
        ConfigError::InvalidRegion(_) => "Invalid region: "@,
        ConfigError::InvalidCredentials(_) => "Invalid credentials: "@,
    }
}

/// The cause carried by a configuration error.
pub open spec fn config_cause(e: ConfigError) -> Seq<char> {
    match e {
        ConfigError::MissingBucket(c) => c@,
        ConfigError::MissingRegion(c) => c@,
        ConfigError::InvalidRegion(c) => c@,
        ConfigError::InvalidCredentials(c) => c@,
    }
}

/// The message of a configuration error: its prefix, then its cause.
pub open spec fn config_message(e: ConfigError) -> Seq<char> {
    config_prefix(e) + config_cause(e)
}

impl ConfigError {
    /// The request error that reports this configuration error.
    pub fn to_api_error(&self) -> (r: ApiError)
        ensures
            r.message@ == config_message(*self),
    {
        let message = match self {
            ConfigError::MissingBucket(c) => "Missing AWS_S3_BUCKET env variable: ".to_owned().concat(
                c.as_str(),
            ),
            ConfigError::MissingRegion(c) => "Missing AWS_REGION env variable: ".to_owned().concat(
                c.as_str(),
            ),
            ConfigError::InvalidRegion(c) => "Invalid region: ".to_owned().concat(c.as_str()),
            ConfigError::InvalidCredentials(c) => "Invalid credentials: ".to_owned().concat(
                c.as_str(),
            ),
        };
        ApiError { message }
    }
}

/// Relies on the `FromStr` impl of aws-region's `Region`: every name is
/// accepted, and a name it does not know becomes a custom region.
#[verifier::external_body]
fn parse_region(s: &str) -> (r: Result<Region, String>)
    ensures
        r is Ok,
{
    s.parse::<Region>().map_err(|e| e.to_string())
}

/// Relies on aws-creds' `Credentials::from_env`, which reads the access key
/// variables of the environment; its outcome depends on the environment.
#[verifier::external_body]
fn credentials_from_env() -> (r: Result<Credentials, String>) {
    Credentials::from_env().map_err(|e| e.to_string())
}

/// Relies on rust-s3's `Bucket::new`, which builds the handle without any
/// check or network call, and so always succeeds.
#[verifier::external_body]
fn new_bucket(name: &str, region: Region, credentials: Credentials) -> (r: Result<Bucket, String>)
    ensures
        r is Ok,
{
    Bucket::new(name, region, credentials).map_err(|e| e.to_string())
}

/// Builds the storage configuration from the values read for the bucket and
/// region variables (or why each could not be read) and the credentials.
/// The bucket is checked first, then the region, then the credentials.
pub fn resolve_config(
    bucket_var: Result<String, String>,
    region_var: Result<String, String>,
    credentials: Result<Credentials, String>,
) -> (r: Result<StorageConfig, ConfigError>)
    ensures
        bucket_var is Err ==> r == Err::<StorageConfig, ConfigError>(
            ConfigError::MissingBucket(bucket_var->Err_0),
        ),
        bucket_var is Ok && region_var is Err ==> r == Err::<StorageConfig, ConfigError>(
            ConfigError::MissingRegion(region_var->Err_0),
        ),
        bucket_var is Ok && region_var is Ok && credentials is Err ==> r == Err::<
            StorageConfig,
            ConfigError,
        >(ConfigError::InvalidCredentials(credentials->Err_0)),
        bucket_var is Ok && region_var is Ok && credentials is Ok ==> r is Ok
            && r->Ok_0.bucket == bucket_var->Ok_0 && r->Ok_0.credentials == credentials->Ok_0,
{
    let bucket = match bucket_var {
        Ok(b) => b,
        Err(e) => return Err(ConfigError::MissingBucket(e)),
    };
    let region_name = match region_var {
        Ok(r) => r,
        Err(e) => return Err(ConfigError::MissingRegion(e)),
    };
    let region = match parse_region(region_name.as_str()) {
        Ok(r) => r,
        Err(e) => return Err(ConfigError::InvalidRegion(e)),
    };
    let credentials = match credentials {
        Ok(c) => c,
        Err(e) => return Err(ConfigError::InvalidCredentials(e)),
    };
    Ok(StorageConfig { bucket, region, credentials })
}

/// Resolves the storage configuration, reading the credentials from the
/// environment only once the bucket and region are known.
pub fn load_config(bucket_var: Result<String, String>, region_var: Result<String, String>) -> (r:
    Result<StorageConfig, ConfigError>)
    ensures
        bucket_var is Err ==> r == Err::<StorageConfig, ConfigError>(
            ConfigError::MissingBucket(bucket_var->Err_0),
        ),
        bucket_var is Ok && region_var is Err ==> r == Err::<StorageConfig, ConfigError>(
            ConfigError::MissingRegion(region_var->Err_0),
        ),
        bucket_var is Ok && region_var is Ok ==> (r is Ok && r->Ok_0.bucket == bucket_var->Ok_0)
            || (r is Err && r->Err_0 is InvalidCredentials),
{
    if bucket_var.is_err() || region_var.is_err() {
        return resolve_config(bucket_var, region_var, Err(String::new()));
    }
    let credentials = credentials_from_env();
    resolve_config(bucket_var, region_var, credentials)
}

/// Opens a handle on the configured bucket.
pub fn open_bucket(config: StorageConfig) -> (r: Result<Bucket, ApiError>)
    ensures
        r is Ok,
{
    match new_bucket(config.bucket.as_str(), config.region, config.credentials) {
        Ok(b) => Ok(b),
        Err(e) => Err(ApiError { message: "Invalid bucket: ".to_owned().concat(e.as_str()) }),
    }
}

/// Resolves the configuration and opens the bucket: everything a request
/// does before it lists the objects. No listing can start without a bucket.
pub fn prepare_bucket(bucket_var: Result<String, String>, region_var: Result<String, String>) -> (r:
    Result<Bucket, ApiError>)
    ensures
        bucket_var is Err ==> r is Err && r->Err_0.message@ == config_message(
            ConfigError::MissingBucket(bucket_var->Err_0),
        ),
        bucket_var is Ok && region_var is Err ==> r is Err && r->Err_0.message@ == config_message(
            ConfigError::MissingRegion(region_var->Err_0),
        ),
        bucket_var is Ok && region_var is Ok ==> r is Ok || (r is Err
            && "Invalid credentials: "@.is_prefix_of(r->Err_0.message@)),
{
    match load_config(bucket_var, region_var) {
        Ok(config) => open_bucket(config),
        Err(e) => {
            let r = e.to_api_error();
            proof {
                let p = config_prefix(e);
                assert(p.is_prefix_of(r.message@)) by {
                    assert(r.message@.subrange(0, p.len() as int) =~= p);
                }
            }
            Err(r)
        },
    }
}

/// The keys of one listing page.
pub open spec fn page_keys(page: Seq<ObjectEntry>) -> Seq<Seq<char>> {
    page.map_values(|o: ObjectEntry| o.key@)
}

/// A listing as pages of keys, or the reason it failed.
pub open spec fn listing_view(listing: Result<Vec<Vec<ObjectEntry>>, String>) -> Result<
    Seq<Seq<Seq<char>>>,
    Seq<char>,
> {
    match listing {
        Ok(pages) => Ok(pages@.map_values(|p: Vec<ObjectEntry>| page_keys(p@))),
        Err(e) => Err(e@),
    }
}

/// The file names of a response.
pub open spec fn records_view(records: Seq<FilesGet200ResponseInner>) -> Seq<Option<Seq<char>>> {
    records.map_values(|f: FilesGet200ResponseInner| name_view(f.file_name))
}

/// A response as file names, or the error message.
pub open spec fn response_view(r: Result<Vec<FilesGet200ResponseInner>, ApiError>) -> Result<
    Seq<Option<Seq<char>>>,
    Seq<char>,
> {
    match r {
        Ok(v) => Ok(records_view(v@)),
        Err(e) => Err(e.message@),
    }
}

/// One record per key, in the same order.
pub open spec fn records_of(keys: Seq<Seq<char>>) -> Seq<Option<Seq<char>>> {
    keys.map_values(|k: Seq<char>| Some(k))
}

/// The message of a listing that failed.
pub open spec fn list_failed_message(cause: Seq<char>) -> Seq<char> {
    "Failed to list bucket: "@ + cause
}

/// The message of a listing with no page at all.
pub open spec fn no_page_message() -> Seq<char> {
    "Failed to list bucket: no result page"@
}

/// The response to a listing: the records of its first page only.
pub open spec fn listing_response(listing: Result<Seq<Seq<Seq<char>>>, Seq<char>>) -> Result<
    Seq<Option<Seq<char>>>,
    Seq<char>,
> {
    match listing {
        Err(e) => Err(list_failed_message(e)),
        Ok(pages) => if pages.len() == 0 {
            Err(no_page_message())
        } else {
            Ok(records_of(pages[0]))
        },
    }
}

/// Maps each object of a page to a record that carries its key, in order.
pub fn map_entries(entries: &Vec<ObjectEntry>) -> (r: Vec<FilesGet200ResponseInner>)
    ensures
        records_view(r@) == records_of(page_keys(entries@)),
{
    let mut records: Vec<FilesGet200ResponseInner> = Vec::new();
    let mut i: usize = 0;
    while i < entries.len()
        invariant
            i <= entries@.len(),
            records_view(records@) =~= records_of(page_keys(entries@.subrange(0, i as int))),
        decreases entries@.len() - i,
    {
        let ghost before = records@;
        let key = entries[i].key.clone();
        records.push(FilesGet200ResponseInner { file_name: Some(key) });
        proof {
            assert(records@ =~= before.push(FilesGet200ResponseInner { file_name: Some(key) }));
            assert(entries@.subrange(0, i as int + 1) =~= entries@.subrange(0, i as int).push(
                entries@[i as int],
            ));
            assert(records_view(records@) =~= records_view(before).push(Some(key@)));
        }
        i = i + 1;
    }
    proof {
        assert(entries@.subrange(0, entries@.len() as int) =~= entries@);
    }
    records
}

/// Builds the response from the outcome of listing the bucket: the records
/// of the first page, in the store's order.
pub fn files_from_listing(listing: Result<Vec<Vec<ObjectEntry>>, String>) -> (r: Result<
    Vec<FilesGet200ResponseInner>,
    ApiError,
>)
    ensures
        response_view(r) == listing_response(listing_view(listing)),
{
    match &listing {
        Err(e) => {
            let message = "Failed to list bucket: ".to_owned().concat(e.as_str());
            Err(ApiError { message })
        },
        Ok(pages) => {
            if pages.len() == 0 {
                Err(ApiError { message: "Failed to list bucket: no result page".to_owned() })
            } else {
                let records = map_entries(&pages[0]);
                proof {
                    let v = pages@.map_values(|p: Vec<ObjectEntry>| page_keys(p@));
                    assert(v[0] == page_keys(pages@[0]@));
                }
                Ok(records)
            }
        },
    }
}

/// Every object of the first page gives one record carrying its key, in the
/// store's order; later pages are not read.
pub proof fn lemma_records_follow_first_page(
    first: Seq<Seq<char>>,
    rest: Seq<Seq<Seq<char>>>,
)
    ensures
        listing_response(Ok(seq![first] + rest)) is Ok,
        listing_response(Ok(seq![first] + rest))->Ok_0.len() == first.len(),
        forall|i: int|
            0 <= i < first.len() ==> #[trigger] listing_response(Ok(seq![first] + rest))->Ok_0[i]
                == Some(first[i]),
{
    assert((seq![first] + rest)[0] == first);
}

/// An empty first page is an empty response, not an error.
pub proof fn lemma_empty_first_page(rest: Seq<Seq<Seq<char>>>)
    ensures
        listing_response(Ok(seq![Seq::<Seq<char>>::empty()] + rest)) == Ok::<
            Seq<Option<Seq<char>>>,
            Seq<char>,
        >(Seq::empty()),
{
    assert((seq![Seq::<Seq<char>>::empty()] + rest)[0] == Seq::<Seq<char>>::empty());
    assert(records_of(Seq::empty()) =~= Seq::empty());
}

/// Each configuration error is told apart by its message: a missing bucket
/// names the bucket variable, a missing region the region variable, and no
/// message of one kind starts with the prefix of another.
pub proof fn lemma_config_messages_distinct(e1: ConfigError, e2: ConfigError)
    ensures
        config_prefix(e1).is_prefix_of(config_message(e1)),
        config_kind(e1) != config_kind(e2) ==> !config_prefix(e1).is_prefix_of(
            config_message(e2),
        ),
        e1 is MissingBucket ==> config_message(e1).subrange(8, 21) == "AWS_S3_BUCKET"@,
        e1 is MissingRegion ==> config_message(e1).subrange(8, 18) == "AWS_REGION"@,
{
    reveal_strlit("Missing AWS_S3_BUCKET env variable: ");
    reveal_strlit("Missing AWS_REGION env variable: ");
    reveal_strlit("Invalid region: ");
    reveal_strlit("Invalid credentials: ");
    reveal_strlit("AWS_S3_BUCKET");
    reveal_strlit("AWS_REGION");
    let p1 = config_prefix(e1);
    let m1 = config_message(e1);
    let m2 = config_message(e2);
    assert(m1.subrange(0, p1.len() as int) =~= p1);
    if e1 is MissingBucket {
        assert(m1.subrange(8, 21) =~= "AWS_S3_BUCKET"@);
    }
    if e1 is MissingRegion {
        assert(m1.subrange(8, 18) =~= "AWS_REGION"@);
    }
    if config_kind(e1) != config_kind(e2) {
        let j: int = if (config_kind(e1) < 2) != (config_kind(e2) < 2) {
            0
        } else if config_kind(e1) < 2 {
            12
        } else {
            8
        };
        assert(p1[j] != m2[j]);
        if p1.is_prefix_of(m2) {
            assert(m2.subrange(0, p1.len() as int)[j] == m2[j]);
        }
    }
}

} // verus!
