//! What a storage backend is asked to do, what it can answer, and what each
//! answer means.
//!
//! An adapter never touches a file or a socket. For an upload it hands out a
//! [`PutRequest`] that owns the inbound byte stream; for a download a
//! [`GetRequest`]. The caller performs the request and reports a [`PutReply`]
//! or a [`GetReply`], which this module turns into the result of the
//! operation.

use crate::adapter_fs;
use crate::adapter_s3;
use crate::custom_error::{texts, Error, ErrorKind, ErrorView};
use vstd::prelude::*;

verus! {

/// What a request addresses, as a text, however the request is authorised.
/// Two texts that differ may still lead to one object: `a` and `./a` are
/// one file, and an object store folds dot segments alike.
pub enum Location {
    /// This path, as it is written.
    File(Seq<char>),
    /// This key, as it is written. What URL the bucket makes of it is for
    /// the object store's client to say; a key that begins with `//` leads
    /// to another host.
    Object(Seq<char>),
}

/// A write the caller performs for an upload. The request owns the stream
/// that is to be written; no other reference to it is kept.
#[derive(Debug)]
pub enum PutRequest<R> {
    /// Create the file at `path`, or truncate it, then write all of `source`
    /// to it.
    WriteFile { path: String, source: R },
    /// Send a `PUT` to `url` with `source` as its body. The URL authorises
    /// writing the object `key`; it was signed `signed_at` seconds after the
    /// start of 1970 and is valid for `valid_for_secs` seconds from then.
    SendObject { key: String, url: String, signed_at: i64, valid_for_secs: u64, source: R },
}

/// A read the caller performs for a download.
#[derive(Debug)]
pub enum GetRequest {
    /// Open the file at `path` for reading.
    ReadFile { path: String },
    /// Send a `GET` to `url`. The URL authorises reading the object `key`;
    /// it was signed `signed_at` seconds after the start of 1970 and is
    /// valid for `valid_for_secs` seconds from then.
    FetchObject { key: String, url: String, signed_at: i64, valid_for_secs: u64 },
}

/// Where a failed request broke.
#[derive(Clone, Copy, Debug, PartialEq, Eq, Structural)]
pub enum FailureOrigin {
    /// The backend has no object at the requested location.
    Missing,
    /// The backend could not be reached or refused the operation.
    Backend,
    /// The byte stream could not be read or written locally.
    Stream,
}

/// A request that was not carried out: where it broke, what the failure says
/// of itself, and what each of its underlying causes says, nearest first.
#[derive(Debug)]
pub struct Failure {
    pub origin: FailureOrigin,
    pub message: String,
    pub sources: Vec<String>,
}

/// What the caller was doing when a request broke.
#[derive(Clone, Copy, Debug, PartialEq, Eq, Structural)]
pub enum FailedStep {
    /// Creating or truncating the file.
    CreatingFile,
    /// Copying the stream into the file.
    WritingFile,
    /// Opening the file; `not_found` says whether the system found no file
    /// at the path.
    OpeningFile { not_found: bool },
    /// Sending the request to the object store, or waiting for its answer.
    Requesting,
    /// Reading the stream that was to be the body of the request.
    ReadingUpload,
}

impl FailedStep {
    /// Where a request broke that failed at this step: a file that is not
    /// there is missing; a file that cannot be created or opened and an
    /// object store that does not answer are the backend's failure; a
    /// stream that cannot be copied or read is the stream's.
    pub open spec fn origin(self) -> FailureOrigin {
        match self {
            FailedStep::CreatingFile => FailureOrigin::Backend,
            FailedStep::WritingFile => FailureOrigin::Stream,
            FailedStep::OpeningFile { not_found } => if not_found {
                FailureOrigin::Missing
            } else {
                FailureOrigin::Backend
            },
            FailedStep::Requesting => FailureOrigin::Backend,
            FailedStep::ReadingUpload => FailureOrigin::Stream,
        }
    }
}

/// The failure of a request that broke at `step`, with what the failure
/// says of itself and what its causes say.
pub fn failed(step: FailedStep, message: String, sources: Vec<String>) -> (failure: Failure)
    ensures
        failure == (Failure { origin: step.origin(), message, sources }),
{
    let origin = match step {
        FailedStep::CreatingFile => FailureOrigin::Backend,
        FailedStep::WritingFile => FailureOrigin::Stream,
        FailedStep::OpeningFile { not_found } => if not_found {
            FailureOrigin::Missing
        } else {
            FailureOrigin::Backend
        },
        FailedStep::Requesting => FailureOrigin::Backend,
        FailedStep::ReadingUpload => FailureOrigin::Stream,
    };
    Failure { origin, message, sources }
}

/// What became of a [`PutRequest`].
#[derive(Debug)]
pub enum PutReply {
    /// The file holds all of the stream.
    Written,
    /// The object store answered with this HTTP status.
    Status(u16),
    /// The request was not carried out.
    Failed(Failure),
}

/// What became of a [`GetRequest`]; `S` is the stream over the object's
/// bytes.
#[derive(Debug)]
pub enum GetReply<S> {
    /// The file is open.
    Opened(S),
    /// The object store answered with this HTTP status and this body.
    Response { status: u16, body: S },
    /// The request was not carried out.
    Failed(Failure),
}

/// Whether an HTTP status reports success.
pub open spec fn is_success(status: u16) -> bool {
    200 <= status < 300
}

/// The result of an operation, with the error taken by its view.
pub open spec fn outcome_view<T>(r: Result<T, Error>) -> Result<T, ErrorView> {
    match r {
        Ok(t) => Ok(t),
        Err(e) => Err(e@),
    }
}

impl<R> PutRequest<R> {
    pub open spec fn location(self) -> Location {
        match self {
            PutRequest::WriteFile { path, .. } => Location::File(path@),
            PutRequest::SendObject { key, .. } => Location::Object(key@),
        }
    }

    pub open spec fn source(self) -> R {
        match self {
            PutRequest::WriteFile { source, .. } => source,
            PutRequest::SendObject { source, .. } => source,
        }
    }
}

impl GetRequest {
    pub open spec fn location(self) -> Location {
        match self {
            GetRequest::ReadFile { path } => Location::File(path@),
            GetRequest::FetchObject { key, .. } => Location::Object(key@),
        }
    }
}

impl Failure {
    /// The failure's messages, outermost first.
    pub open spec fn chain(self) -> Seq<Seq<char>> {
        seq![self.message@] + texts(self.sources@)
    }

    /// The error a failed upload ends in: a stream that broke locally is an
    /// I/O error, everything else a storage error.
    pub open spec fn put_error(self) -> ErrorView {
        ErrorView {
            kind: if self.origin == FailureOrigin::Stream {
                ErrorKind::IOError
            } else {
                ErrorKind::StorageError
            },
            backend_status: None,
            chain: self.chain(),
        }
    }

    /// The error a failed download ends in: a missing object is not found, a
    /// stream that broke locally is an I/O error, everything else a storage
    /// error.
    pub open spec fn get_error(self) -> ErrorView {
        ErrorView {
            kind: match self.origin {
                FailureOrigin::Missing => ErrorKind::NotFound,
                FailureOrigin::Backend => ErrorKind::StorageError,
                FailureOrigin::Stream => ErrorKind::IOError,
            },
            backend_status: None,
            chain: self.chain(),
        }
    }
}

impl PutReply {
    /// What the reply means for the upload.
    pub open spec fn outcome(self) -> Result<(), ErrorView> {
        match self {
            PutReply::Written => Ok(()),
            PutReply::Status(status) => if is_success(status) {
                Ok(())
            } else {
                Err(
                    ErrorView {
                        kind: ErrorKind::StorageError,
                        backend_status: Some(status),
                        chain: Seq::empty(),
                    },
                )
            },
            PutReply::Failed(failure) => Err(failure.put_error()),
        }
    }

    /// The result of the upload that this reply ends: success for a written
    /// file and for a success status, the status as a storage error
    /// otherwise, and the failure under its kind with its cause chain.
    pub fn into_result(self) -> (r: Result<(), Error>)
        ensures
            outcome_view(r) == self.outcome(),
    {
        match self {
            PutReply::Written => Ok(()),
            PutReply::Status(status) => {
                if 200 <= status && status < 300 {
                    Ok(())
                } else {
                    Err(Error::from_backend_status(status))
                }
            },
            PutReply::Failed(failure) => {
                let kind = match failure.origin {
                    FailureOrigin::Stream => ErrorKind::IOError,
                    _ => ErrorKind::StorageError,
                };
                Err(Error::new_from_err(kind, failure.message, failure.sources))
            },
        }
    }
}

impl<S> GetReply<S> {
    /// What the reply means for the download.
    pub open spec fn outcome(self) -> Result<S, ErrorView> {
        match self {
            GetReply::Opened(stream) => Ok(stream),
            GetReply::Response { status, body } => if is_success(status) {
                Ok(body)
            } else {
                Err(
                    ErrorView {
                        kind: if status == 404 {
                            ErrorKind::NotFound
                        } else {
                            ErrorKind::StorageError
                        },
                        backend_status: Some(status),
                        chain: Seq::empty(),
                    },
                )
            },
            GetReply::Failed(failure) => Err(failure.get_error()),
        }
    }

    /// The result of the download that this reply ends: the stream of an
    /// opened file or of a success response, untouched; not found for status
    /// 404 and for a missing object; every other status as a storage error;
    /// and any other failure under its kind with its cause chain.
    pub fn into_result(self) -> (r: Result<S, Error>)
        ensures
            outcome_view(r) == self.outcome(),
    {
        match self {
            GetReply::Opened(stream) => Ok(stream),
            GetReply::Response { status, body } => {
                if 200 <= status && status < 300 {
                    Ok(body)
                } else if status == 404 {
                    Err(Error::from_backend_status(status).with_kind(ErrorKind::NotFound))
                } else {
                    Err(Error::from_backend_status(status))
                }
            },
            GetReply::Failed(failure) => {
                let kind = match failure.origin {
                    FailureOrigin::Missing => ErrorKind::NotFound,
                    FailureOrigin::Backend => ErrorKind::StorageError,
                    FailureOrigin::Stream => ErrorKind::IOError,
                };
                Err(Error::new_from_err(kind, failure.message, failure.sources))
            },
        }
    }
}

/// What became of an upload that was sent to an object store while its
/// stream was read: a stream that broke on the way decides, whatever the
/// store answered, so that a cut-off upload is never taken for a stored
/// one; else the store's status, or the failure to reach it.
pub fn sent_reply(broken: Option<Failure>, answered: Result<u16, Failure>) -> (reply: PutReply)
    ensures
        reply == (match broken {
            Some(failure) => PutReply::Failed(failure),
            None => match answered {
                Ok(status) => PutReply::Status(status),
                Err(failure) => PutReply::Failed(failure),
            },
        }),
{
    match broken {
        Some(failure) => PutReply::Failed(failure),
        None => match answered {
            Ok(status) => PutReply::Status(status),
            Err(failure) => PutReply::Failed(failure),
        },
    }
}

/// The capabilities of a storage backend: to store a stream under a name and
/// to read it back.
pub trait AdapterTrait {
    /// The location that `filename` names in this backend.
    spec fn locate(&self, filename: Seq<char>) -> Location;

    /// Whether this backend can address an object under `filename`.
    spec fn accepts(&self, filename: Seq<char>) -> bool;

    /// The error with which this backend refuses a name that it does not
    /// accept.
    spec fn refusal(&self, filename: Seq<char>) -> ErrorView;

    /// The write that stores `reader` under `filename`, owed exactly where
    /// the backend accepts the name. The request owns `reader` and has the
    /// location that `filename` names; where the name is not accepted the
    /// stream is dropped and the error is the backend's refusal.
    fn put_file<R>(&self, filename: &str, reader: R) -> (r: Result<PutRequest<R>, Error>)
        ensures
            r is Ok <==> self.accepts(filename@),
            match r {
                Ok(request) => request.location() == self.locate(filename@) && request.source()
                    == reader,
                Err(e) => e@ == self.refusal(filename@),
            },
    ;

    /// The read that fetches what is stored under `filename`, owed exactly
    /// where the backend accepts the name. The request has the location
    /// that `filename` names; where the name is not accepted the error is
    /// the backend's refusal.
    fn get_file(&self, filename: &str) -> (r: Result<GetRequest, Error>)
        ensures
            r is Ok <==> self.accepts(filename@),
            match r {
                Ok(request) => request.location() == self.locate(filename@),
                Err(e) => e@ == self.refusal(filename@),
            },
    ;
}

/// The backend a process is configured with: one of the two, chosen once.
pub enum Adapter {
    Filesystem(adapter_fs::Client),
    ObjectStorage(adapter_s3::Client),
}

impl Adapter {
    /// What an upload of `reader` under `filename` comes to with this
    /// backend: a request exactly where the backend accepts the name, and
    /// then the backend's own.
    pub open spec fn put_planned<R>(
        self,
        filename: Seq<char>,
        reader: R,
        r: Result<PutRequest<R>, Error>,
    ) -> bool {
        &&& r is Ok <==> self.accepts(filename)
        &&& match self {
            Adapter::Filesystem(client) => adapter_fs::writes_file(
                client.directory(),
                filename,
                reader,
                r,
            ),
            Adapter::ObjectStorage(client) => adapter_s3::sends_object(
                client@,
                filename,
                reader,
                r,
            ),
        }
    }

    /// What a download of `filename` comes to with this backend: a request
    /// exactly where the backend accepts the name, and then the backend's
    /// own.
    pub open spec fn get_planned(self, filename: Seq<char>, r: Result<GetRequest, Error>) -> bool {
        &&& r is Ok <==> self.accepts(filename)
        &&& match self {
            Adapter::Filesystem(client) => adapter_fs::reads_file(client.directory(), filename, r),
            Adapter::ObjectStorage(client) => adapter_s3::fetches_object(client@, filename, r),
        }
    }
}

impl AdapterTrait for Adapter {
    open spec fn locate(&self, filename: Seq<char>) -> Location {
        match self {
            Adapter::Filesystem(client) => client.locate(filename),
            Adapter::ObjectStorage(client) => client.locate(filename),
        }
    }

    open spec fn accepts(&self, filename: Seq<char>) -> bool {
        match self {
            Adapter::Filesystem(client) => client.accepts(filename),
            Adapter::ObjectStorage(client) => client.accepts(filename),
        }
    }

    open spec fn refusal(&self, filename: Seq<char>) -> ErrorView {
        match self {
            Adapter::Filesystem(client) => client.refusal(filename),
            Adapter::ObjectStorage(client) => client.refusal(filename),
        }
    }

    fn put_file<R>(&self, filename: &str, reader: R) -> (r: Result<PutRequest<R>, Error>)
        ensures
            self.put_planned(filename@, reader, r),
    {
        match self {
            Adapter::Filesystem(client) => client.put_file(filename, reader),
            Adapter::ObjectStorage(client) => client.put_file(filename, reader),
        }
    }

    fn get_file(&self, filename: &str) -> (r: Result<GetRequest, Error>)
        ensures
            self.get_planned(filename@, r),
    {
        match self {
            Adapter::Filesystem(client) => client.get_file(filename),
            Adapter::ObjectStorage(client) => client.get_file(filename),
        }
    }
}

/// What is stored under a name is asked for under the same name: with one
/// backend, the request that uploads `filename` owns the stream it was given
/// and has the location the backend gives that name, and the request that
/// downloads `filename` has the same location.
pub proof fn put_and_get_have_one_location<R>(
    adapter: Adapter,
    filename: Seq<char>,
    reader: R,
    put: PutRequest<R>,
    get: GetRequest,
)
    requires
        adapter.put_planned(filename, reader, Ok(put)),
        adapter.get_planned(filename, Ok(get)),
    ensures
        put.source() == reader,
        put.location() == adapter.locate(filename),
        get.location() == put.location(),
{
}

/// Two names that differ have two locations, as texts: in an object store
/// always, in a directory as long as both names are relative. (Whether two
/// texts lead to two objects is the backend's to say.)
pub proof fn distinct_names_have_distinct_locations(
    adapter: Adapter,
    first: Seq<char>,
    second: Seq<char>,
)
    requires
        first != second,
        adapter is Filesystem ==> !adapter_fs::is_absolute(first) && !adapter_fs::is_absolute(
            second,
        ),
    ensures
        adapter.locate(first) != adapter.locate(second),
{
    if let Adapter::Filesystem(client) = adapter {
        adapter_fs::relative_names_have_distinct_paths(client.directory(), first, second);
    }
}

/// A download of an object that the backend reports missing, by a failure
/// of that origin or by status 404, ends in not found.
pub proof fn missing_object_is_not_found<S>(reply: GetReply<S>)
    requires
        reply matches GetReply::Failed(failure) && failure.origin == FailureOrigin::Missing
            || reply matches GetReply::Response { status: 404, .. },
    ensures
        reply.outcome() matches Err(error) && error.kind == ErrorKind::NotFound,
{
}

} // verus!
