//! The backend that keeps every object in one bucket of an object store.
//!
//! The client keeps its configuration as texts. Each request is authorised
//! by a presigned URL, which `rusty_s3` computes from those texts, the
//! object's key and the time of signing.

use crate::adapter_trait::{AdapterTrait, GetRequest, Location, PutRequest};
use crate::custom_error::{Error, ErrorKind, ErrorView};
use jiff::Timestamp;
use rusty_s3::{Bucket, Credentials, S3Action, UrlStyle};
use std::time::{Duration, SystemTime};
use url::Url;
use vstd::prelude::*;

verus! {

/// How long a presigned URL stays valid: one hour.
pub const PRESIGNED_URL_VALIDITY_SECS: u64 = 60 * 60;

/// The earliest time a URL can be signed at, in seconds from the start of
/// 1970: the earliest time that `jiff` has a timestamp for.
pub const EARLIEST_SIGNING_SECS: i64 = -377705023201;

/// The latest time a URL can be signed at, in seconds from the start of
/// 1970: the latest time that `jiff` has a timestamp for.
pub const LATEST_SIGNING_SECS: i64 = 253402207200;

/// How a bucket is addressed at its endpoint.
#[derive(Clone, Copy, Debug, PartialEq, Eq, Structural)]
pub enum Addressing {
    /// The bucket's name is the first segment of the path.
    Path,
    /// The bucket's name stands in front of the endpoint's host.
    VirtualHost,
}

/// A URL that authorises one operation on one object for a while.
#[derive(Debug)]
pub struct Presigned {
    /// The key of the object.
    pub key: String,
    pub url: String,
    /// When the URL was signed, in seconds from the start of 1970.
    pub signed_at: i64,
    /// How long the URL stays valid from then.
    pub valid_for_secs: u64,
}

/// Whether `Url::from_str` takes `endpoint` for a URL.
pub uninterp spec fn endpoint_parses(endpoint: Seq<char>) -> bool;

/// Whether `Bucket::new` takes the URL of `endpoint` as the address of the
/// bucket `bucket_name` of `region`, addressed as `addressing` says.
pub uninterp spec fn bucket_accepted(endpoint: Seq<char>, bucket_name: Seq<char>, region: Seq<char>, addressing: Addressing) -> bool;

/// What the two crates say of an endpoint that cannot address the bucket:
/// the words of the error of `Url::from_str` or of `Bucket::new`.
pub uninterp spec fn bucket_refusal(endpoint: Seq<char>, bucket_name: Seq<char>, region: Seq<char>, addressing: Addressing) -> Seq<char>;

/// Whether `Bucket::object_url` finds a URL for the object `key` of that
/// bucket.
pub uninterp spec fn key_accepted(endpoint: Seq<char>, bucket_name: Seq<char>, region: Seq<char>, addressing: Addressing, key: Seq<char>) -> bool;

/// What `Bucket::object_url` says of a key that it finds no URL for: the
/// words of its error.
pub uninterp spec fn key_refusal(endpoint: Seq<char>, bucket_name: Seq<char>, region: Seq<char>, addressing: Addressing, key: Seq<char>) -> Seq<char>;

/// The URL with which `PutObject::sign_with_time` authorises writing the
/// object `key` of that bucket, signed with the key pair at `signed_at` for
/// `valid_for_secs` seconds.
pub uninterp spec fn put_url(endpoint: Seq<char>, bucket_name: Seq<char>, region: Seq<char>, addressing: Addressing, key_id: Seq<char>, key_secret: Seq<char>, key: Seq<char>, valid_for_secs: u64, signed_at: i64) -> Seq<char>;

/// The URL with which `GetObject::sign_with_time` authorises reading the
/// object `key` of that bucket, signed with the key pair at `signed_at` for
/// `valid_for_secs` seconds.
pub uninterp spec fn get_url(endpoint: Seq<char>, bucket_name: Seq<char>, region: Seq<char>, addressing: Addressing, key_id: Seq<char>, key_secret: Seq<char>, key: Seq<char>, valid_for_secs: u64, signed_at: i64) -> Seq<char>;

/// Whether `endpoint` can address the bucket `bucket_name` of `region`: the
/// text is a URL, and the URL is taken for the bucket.
pub open spec fn addressable(
    endpoint: Seq<char>,
    bucket_name: Seq<char>,
    region: Seq<char>,
    addressing: Addressing,
) -> bool {
    endpoint_parses(endpoint) && bucket_accepted(endpoint, bucket_name, region, addressing)
}

/// Calls `Bucket::new` on the URL that `Url::from_str` makes of `endpoint`,
/// and `to_string` on the error of either. The contract gives the outcomes
/// and the words of the error their names, which says that each depends on
/// the texts and the addressing and on nothing else. What is refused is for
/// the two crates to say: a text that is no URL; then an endpoint without a
/// host, a scheme that is neither `http` nor `https`, a host that cannot
/// take the bucket's name in front.
#[verifier::external_body]
fn check_bucket(endpoint: &str, bucket_name: &str, region: &str, addressing: Addressing) -> (r: Result<(), String>)
    ensures
        r is Ok <==> (endpoint_parses(endpoint@) && bucket_accepted(endpoint@, bucket_name@, region@, addressing)),
        r matches Err(text) ==> text@ == bucket_refusal(endpoint@, bucket_name@, region@, addressing),
{
    let style = match addressing {
        Addressing::Path => UrlStyle::Path,
        Addressing::VirtualHost => UrlStyle::VirtualHost,
    };
    let url = match endpoint.parse::<Url>() {
        Ok(url) => url,
        Err(error) => return Err(error.to_string()),
    };
    match Bucket::new(url, style, bucket_name.to_owned(), region.to_owned()) {
        Ok(_) => Ok(()),
        Err(error) => Err(error.to_string()),
    }
}

/// Makes the bucket as `check_bucket` does, which succeeds by `requires`,
/// then calls `Bucket::object_url` on `key`, and `to_string` on its error.
/// The contract gives the outcome and the words of the error their names.
#[verifier::external_body]
fn check_key(endpoint: &str, bucket_name: &str, region: &str, addressing: Addressing, key: &str) -> (r: Result<(), String>)
    requires
        endpoint_parses(endpoint@) && bucket_accepted(endpoint@, bucket_name@, region@, addressing),
    ensures
        r is Ok <==> key_accepted(endpoint@, bucket_name@, region@, addressing, key@),
        r matches Err(text) ==> text@ == key_refusal(endpoint@, bucket_name@, region@, addressing, key@),
{
    let style = match addressing {
        Addressing::Path => UrlStyle::Path,
        Addressing::VirtualHost => UrlStyle::VirtualHost,
    };
    let url = endpoint.parse().expect("a URL");
    let bucket = Bucket::new(url, style, bucket_name.to_owned(), region.to_owned()).expect("a bucket");
    match bucket.object_url(key) {
        Ok(_) => Ok(()),
        Err(error) => Err(error.to_string()),
    }
}

/// Calls `SystemTime::now`, `Timestamp::try_from` and
/// `Timestamp::as_second`: the system clock in whole seconds from the start
/// of 1970, or nothing where the clock shows a time that `jiff` has no
/// timestamp for. The contract claims only the range that every timestamp
/// lies in.
#[verifier::external_body]
fn clock_secs() -> (now: Option<i64>)
    ensures
        now matches Some(t) ==> EARLIEST_SIGNING_SECS <= t <= LATEST_SIGNING_SECS,
{
    match Timestamp::try_from(SystemTime::now()) {
        Ok(time) => Some(time.as_second()),
        Err(_) => None,
    }
}

/// Makes the bucket as `check_bucket` does, the key pair with
/// `Credentials::new` and the time with `Timestamp::from_second`, then
/// calls `Bucket::put_object` and signs the action with
/// `S3Action::sign_with_time`. By `requires` the bucket is made, the time is
/// one that `jiff` has a timestamp for, and signing finds the URL of the
/// key, which it needs, under a scheme it knows, which virtual-host
/// addressing keeps. The contract says that key, time and validity come
/// back as they were signed, and gives the URL its name, which says that
/// the URL depends on the texts, the validity and the time and on nothing
/// else.
#[verifier::external_body]
fn presign_put(endpoint: &str, bucket_name: &str, region: &str, addressing: Addressing, key_id: &str, key_secret: &str, key: &str, valid_for_secs: u64, signed_at: i64) -> (p: Presigned)
    requires
        addressing == Addressing::VirtualHost,
        endpoint_parses(endpoint@) && bucket_accepted(endpoint@, bucket_name@, region@, addressing),
        key_accepted(endpoint@, bucket_name@, region@, addressing, key@),
        EARLIEST_SIGNING_SECS <= signed_at <= LATEST_SIGNING_SECS,
    ensures
        p.key@ == key@ && p.signed_at == signed_at && p.valid_for_secs == valid_for_secs,
        p.url@ == put_url(endpoint@, bucket_name@, region@, addressing, key_id@, key_secret@, key@, valid_for_secs, signed_at),
{
    let style = match addressing {
        Addressing::Path => UrlStyle::Path,
        Addressing::VirtualHost => UrlStyle::VirtualHost,
    };
    let url = endpoint.parse().expect("a URL");
    let bucket = Bucket::new(url, style, bucket_name.to_owned(), region.to_owned()).expect("a bucket");
    let credentials = Credentials::new(key_id, key_secret);
    let time = Timestamp::from_second(signed_at).expect("a timestamp");
    let action = bucket.put_object(Some(&credentials), key);
    let url = action.sign_with_time(Duration::from_secs(valid_for_secs), &time).into();
    Presigned { key: key.to_owned(), url, signed_at, valid_for_secs }
}

/// As `presign_put`, with `Bucket::get_object` for the action.
#[verifier::external_body]
fn presign_get(endpoint: &str, bucket_name: &str, region: &str, addressing: Addressing, key_id: &str, key_secret: &str, key: &str, valid_for_secs: u64, signed_at: i64) -> (p: Presigned)
    requires
        addressing == Addressing::VirtualHost,
        endpoint_parses(endpoint@) && bucket_accepted(endpoint@, bucket_name@, region@, addressing),
        key_accepted(endpoint@, bucket_name@, region@, addressing, key@),
        EARLIEST_SIGNING_SECS <= signed_at <= LATEST_SIGNING_SECS,
    ensures
        p.key@ == key@ && p.signed_at == signed_at && p.valid_for_secs == valid_for_secs,
        p.url@ == get_url(endpoint@, bucket_name@, region@, addressing, key_id@, key_secret@, key@, valid_for_secs, signed_at),
{
    let style = match addressing {
        Addressing::Path => UrlStyle::Path,
        Addressing::VirtualHost => UrlStyle::VirtualHost,
    };
    let url = endpoint.parse().expect("a URL");
    let bucket = Bucket::new(url, style, bucket_name.to_owned(), region.to_owned()).expect("a bucket");
    let credentials = Credentials::new(key_id, key_secret);
    let time = Timestamp::from_second(signed_at).expect("a timestamp");
    let action = bucket.get_object(Some(&credentials), key);
    let url = action.sign_with_time(Duration::from_secs(valid_for_secs), &time).into();
    Presigned { key: key.to_owned(), url, signed_at, valid_for_secs }
}

/// The time to sign at: what the clock shows, in whole seconds; and where
/// the clock shows a time that cannot be signed at, the latest that can.
fn signing_time() -> (now: i64)
    ensures
        EARLIEST_SIGNING_SECS <= now <= LATEST_SIGNING_SECS,
{
    match clock_secs() {
        Some(now) => now,
        None => LATEST_SIGNING_SECS,
    }
}

/// The error of a refusal that was worded `text`: a storage error that
/// wraps those words and nothing else.
pub open spec fn refused(text: Seq<char>) -> ErrorView {
    ErrorView { kind: ErrorKind::StorageError, backend_status: None, chain: seq![text] }
}

/// The storage error that wraps `reason`.
fn refusal(reason: String) -> (e: Error)
    ensures
        e@ == refused(reason@),
{
    let e = Error::new_from_err(ErrorKind::StorageError, reason, Vec::new());
    assert(e@.chain =~= seq![reason@]);
    e
}

/// What a client is bound to.
pub struct ClientView {
    pub endpoint: Seq<char>,
    pub region: Seq<char>,
    pub bucket_name: Seq<char>,
    pub key_id: Seq<char>,
    pub key_secret: Seq<char>,
    pub addressing: Addressing,
}

impl ClientView {
    /// Whether this client's bucket has a URL for the object `key`.
    pub open spec fn takes(self, key: Seq<char>) -> bool {
        key_accepted(self.endpoint, self.bucket_name, self.region, self.addressing, key)
    }

    /// The words with which this client's bucket refuses `key`.
    pub open spec fn refusal_of(self, key: Seq<char>) -> Seq<char> {
        key_refusal(self.endpoint, self.bucket_name, self.region, self.addressing, key)
    }

    /// The URL this client's request to write `key` carries when signed at
    /// `signed_at`: signed for this bucket with this key pair, for one hour.
    pub open spec fn write_url(self, key: Seq<char>, signed_at: i64) -> Seq<char> {
        put_url(
            self.endpoint,
            self.bucket_name,
            self.region,
            self.addressing,
            self.key_id,
            self.key_secret,
            key,
            PRESIGNED_URL_VALIDITY_SECS,
            signed_at,
        )
    }

    /// The URL this client's request to read `key` carries when signed at
    /// `signed_at`: signed for this bucket with this key pair, for one hour.
    pub open spec fn read_url(self, key: Seq<char>, signed_at: i64) -> Seq<char> {
        get_url(
            self.endpoint,
            self.bucket_name,
            self.region,
            self.addressing,
            self.key_id,
            self.key_secret,
            key,
            PRESIGNED_URL_VALIDITY_SECS,
            signed_at,
        )
    }
}

/// What an upload through the bucket of `client` comes to: the request to
/// send `reader` to the URL that the client signs for writing the object
/// `filename`, valid for one hour from the time of signing, or the refusal
/// of that key in the bucket's own words.
pub open spec fn sends_object<R>(
    client: ClientView,
    filename: Seq<char>,
    reader: R,
    r: Result<PutRequest<R>, Error>,
) -> bool {
    match r {
        Ok(request) => {
            &&& request matches PutRequest::SendObject { key, url, signed_at, valid_for_secs, source }
            &&& key@ == filename
            &&& url@ == client.write_url(filename, signed_at)
            &&& EARLIEST_SIGNING_SECS <= signed_at <= LATEST_SIGNING_SECS
            &&& valid_for_secs == PRESIGNED_URL_VALIDITY_SECS
            &&& source == reader
        },
        Err(e) => e@ == refused(client.refusal_of(filename)),
    }
}

/// What a download through the bucket of `client` comes to: the request to
/// fetch from the URL that the client signs for reading the object
/// `filename`, valid for one hour from the time of signing, or the refusal
/// of that key in the bucket's own words.
pub open spec fn fetches_object(client: ClientView, filename: Seq<char>, r: Result<GetRequest, Error>)
    -> bool {
    match r {
        Ok(request) => {
            &&& request matches GetRequest::FetchObject { key, url, signed_at, valid_for_secs }
            &&& key@ == filename
            &&& url@ == client.read_url(filename, signed_at)
            &&& EARLIEST_SIGNING_SECS <= signed_at <= LATEST_SIGNING_SECS
            &&& valid_for_secs == PRESIGNED_URL_VALIDITY_SECS
        },
        Err(e) => e@ == refused(client.refusal_of(filename)),
    }
}

/// An object-storage backend: one bucket at one endpoint, addressed by
/// virtual host, and the key pair that signs for it. The endpoint can
/// address the bucket.
pub struct Client {
    endpoint: String,
    region: String,
    bucket_name: String,
    key_id: String,
    key_secret: String,
    addressing: Addressing,
}

impl View for Client {
    type V = ClientView;

    closed spec fn view(&self) -> ClientView {
        ClientView {
            endpoint: self.endpoint@,
            region: self.region@,
            bucket_name: self.bucket_name@,
            key_id: self.key_id@,
            key_secret: self.key_secret@,
            addressing: self.addressing,
        }
    }
}

impl Client {
    #[verifier::type_invariant]
    spec fn reaches_its_bucket(self) -> bool {
        &&& self.addressing == Addressing::VirtualHost
        &&& addressable(self.endpoint@, self.bucket_name@, self.region@, self.addressing)
    }

    /// The client for the bucket `bucket_name` of region `region` at
    /// `endpoint`, addressed by virtual host and signing with the given key
    /// pair: a client bound to exactly these, where the endpoint can address
    /// the bucket, and else the refusal, in the words of the crate that
    /// refused, as a storage error.
    pub fn new(
        endpoint: &str,
        region: &str,
        bucket_name: &str,
        key_id: &str,
        key_secret: &str,
    ) -> (r: Result<Self, Error>)
        ensures
            r is Ok <==> addressable(endpoint@, bucket_name@, region@, Addressing::VirtualHost),
            r matches Ok(client) ==> client@ == (ClientView {
                endpoint: endpoint@,
                region: region@,
                bucket_name: bucket_name@,
                key_id: key_id@,
                key_secret: key_secret@,
                addressing: Addressing::VirtualHost,
            }),
            r matches Err(e) ==> e@ == refused(
                bucket_refusal(endpoint@, bucket_name@, region@, Addressing::VirtualHost),
            ),
    {
        match check_bucket(endpoint, bucket_name, region, Addressing::VirtualHost) {
            Ok(()) => Ok(
                Client {
                    endpoint: endpoint.to_owned(),
                    region: region.to_owned(),
                    bucket_name: bucket_name.to_owned(),
                    key_id: key_id.to_owned(),
                    key_secret: key_secret.to_owned(),
                    addressing: Addressing::VirtualHost,
                },
            ),
            Err(text) => Err(refusal(text)),
        }
    }

    pub fn endpoint(&self) -> (endpoint: &str)
        ensures
            endpoint@ == self@.endpoint,
    {
        self.endpoint.as_str()
    }

    pub fn region(&self) -> (region: &str)
        ensures
            region@ == self@.region,
    {
        self.region.as_str()
    }

    pub fn bucket_name(&self) -> (bucket_name: &str)
        ensures
            bucket_name@ == self@.bucket_name,
    {
        self.bucket_name.as_str()
    }

    pub fn key_id(&self) -> (key_id: &str)
        ensures
            key_id@ == self@.key_id,
    {
        self.key_id.as_str()
    }

    pub fn addressing(&self) -> (addressing: Addressing)
        ensures
            addressing == self@.addressing,
            addressing == Addressing::VirtualHost,
    {
        proof {
            use_type_invariant(self);
        }
        self.addressing
    }
}

/// The upload request for a key that was or was not signed: with a URL, the
/// request to send `reader` there, for the key, the time and the validity
/// that were signed; without, the words of the refusal as a storage error.
pub fn signed_put<R>(reader: R, signed: Result<Presigned, String>) -> (r: Result<
    PutRequest<R>,
    Error,
>)
    ensures
        match signed {
            Ok(presigned) => r matches Ok(
                PutRequest::SendObject { key, url, signed_at, valid_for_secs, source },
            ) && key == presigned.key && url == presigned.url && signed_at
                == presigned.signed_at && valid_for_secs == presigned.valid_for_secs && source
                == reader,
            Err(text) => r matches Err(e) && e@ == refused(text@),
        },
{
    match signed {
        Ok(presigned) => Ok(
            PutRequest::SendObject {
                key: presigned.key,
                url: presigned.url,
                signed_at: presigned.signed_at,
                valid_for_secs: presigned.valid_for_secs,
                source: reader,
            },
        ),
        Err(text) => Err(refusal(text)),
    }
}

/// The download request for a key that was or was not signed: with a URL,
/// the request to fetch from there, for the key, the time and the validity
/// that were signed; without, the words of the refusal as a storage error.
pub fn signed_get(signed: Result<Presigned, String>) -> (r: Result<GetRequest, Error>)
    ensures
        match signed {
            Ok(presigned) => r matches Ok(
                GetRequest::FetchObject { key, url, signed_at, valid_for_secs },
            ) && key == presigned.key && url == presigned.url && signed_at
                == presigned.signed_at && valid_for_secs == presigned.valid_for_secs,
            Err(text) => r matches Err(e) && e@ == refused(text@),
        },
{
    match signed {
        Ok(presigned) => Ok(
            GetRequest::FetchObject {
                key: presigned.key,
                url: presigned.url,
                signed_at: presigned.signed_at,
                valid_for_secs: presigned.valid_for_secs,
            },
        ),
        Err(text) => Err(refusal(text)),
    }
}

impl AdapterTrait for Client {
    open spec fn locate(&self, filename: Seq<char>) -> Location {
        Location::Object(filename)
    }

    open spec fn accepts(&self, filename: Seq<char>) -> bool {
        self@.takes(filename)
    }

    open spec fn refusal(&self, filename: Seq<char>) -> ErrorView {
        refused(self@.refusal_of(filename))
    }

    /// Signs a write of the object `filename` in the client's bucket with
    /// the client's key pair, now and valid for one hour, where the bucket
    /// has a URL for that key.
    fn put_file<R>(&self, filename: &str, reader: R) -> (r: Result<PutRequest<R>, Error>)
        ensures
            sends_object(self@, filename@, reader, r),
    {
        proof {
            use_type_invariant(self);
        }
        let checked = check_key(
            self.endpoint.as_str(),
            self.bucket_name.as_str(),
            self.region.as_str(),
            self.addressing,
            filename,
        );
        let signed = match checked {
            Ok(()) => Ok(
                presign_put(
                    self.endpoint.as_str(),
                    self.bucket_name.as_str(),
                    self.region.as_str(),
                    self.addressing,
                    self.key_id.as_str(),
                    self.key_secret.as_str(),
                    filename,
                    PRESIGNED_URL_VALIDITY_SECS,
                    signing_time(),
                ),
            ),
            Err(text) => Err(text),
        };
        signed_put(reader, signed)
    }

    /// Signs a read of the object `filename` in the client's bucket with the
    /// client's key pair, now and valid for one hour, where the bucket has a
    /// URL for that key.
    fn get_file(&self, filename: &str) -> (r: Result<GetRequest, Error>)
        ensures
            fetches_object(self@, filename@, r),
    {
        proof {
            use_type_invariant(self);
        }
        let checked = check_key(
            self.endpoint.as_str(),
            self.bucket_name.as_str(),
            self.region.as_str(),
            self.addressing,
            filename,
        );
        let signed = match checked {
            Ok(()) => Ok(
                presign_get(
                    self.endpoint.as_str(),
                    self.bucket_name.as_str(),
                    self.region.as_str(),
                    self.addressing,
                    self.key_id.as_str(),
                    self.key_secret.as_str(),
                    filename,
                    PRESIGNED_URL_VALIDITY_SECS,
                    signing_time(),
                ),
            ),
            Err(text) => Err(text),
        };
        signed_get(signed)
    }
}

} // verus!
