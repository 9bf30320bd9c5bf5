//! The boundary of the relay: the two operations it offers to the outside,
//! each as a machine that is fed what the outside world did and says what to
//! do next.
//!
//! An upload reads the parts of a multipart body until one declares a
//! filename, stores that part, and answers. A download takes the filename
//! from the query, fetches the object, and answers with its bytes.

use crate::adapter_fs;
use crate::adapter_s3;
use crate::adapter_trait::{Adapter, AdapterTrait, GetReply, GetRequest, PutReply, PutRequest};
use crate::custom_error::{Error, ErrorKind, ErrorView};
use crate::download_executor;
use crate::upload_executor;
use std::sync::Arc;
use vstd::prelude::*;

verus! {

/// The statuses the relay answers with.
#[derive(Clone, Copy, Debug, PartialEq, Eq, Structural)]
pub enum StatusCode {
    Success,
    Created,
    NotFound,
    InternalServerError,
}

impl StatusCode {
    pub open spec fn code(self) -> u16 {
        match self {
            StatusCode::Success => 200,
            StatusCode::Created => 201,
            StatusCode::NotFound => 404,
            StatusCode::InternalServerError => 500,
        }
    }

    /// The status as the number that goes over the wire.
    pub fn as_u16(self) -> (code: u16)
        ensures
            code == self.code(),
    {
        match self {
            StatusCode::Success => 200,
            StatusCode::Created => 201,
            StatusCode::NotFound => 404,
            StatusCode::InternalServerError => 500,
        }
    }
}

/// The status that an error of this kind is answered with: not found for a
/// missing object, a server error for everything else. A bad request is
/// answered like a failure of the server.
pub open spec fn status_of(kind: ErrorKind) -> StatusCode {
    if kind == ErrorKind::NotFound {
        StatusCode::NotFound
    } else {
        StatusCode::InternalServerError
    }
}

/// The status that `error` is answered with. Nothing else of the error is
/// disclosed.
pub fn status_for(error: &Error) -> (status: StatusCode)
    ensures
        status == status_of(error@.kind),
{
    match error.kind() {
        ErrorKind::NotFound => StatusCode::NotFound,
        _ => StatusCode::InternalServerError,
    }
}

/// An answer with a body: a text, or a stream of bytes that the caller
/// drains.
#[derive(Debug)]
pub struct Response<B> {
    pub status: StatusCode,
    pub body: B,
}

/// An answer without a body: the status that goes to the user, and the error
/// behind it, which stays with the operator.
#[derive(Debug)]
pub struct Rejection {
    pub status: StatusCode,
    pub error: Error,
}

/// The acknowledgement of an upload: created, with the text `OK`.
pub open spec fn is_created(response: Result<Response<String>, Rejection>) -> bool {
    response matches Ok(Response { status: StatusCode::Created, body }) && body@ == "OK"@
}

/// The answer to a download that found its object: success, with the
/// object's stream as the body.
pub open spec fn is_content<S>(response: Result<Response<S>, Rejection>, stream: S) -> bool {
    response matches Ok(Response { status: StatusCode::Success, body }) && body == stream
}

/// The answer to a request that failed with `error`: the status of the
/// error's kind, and the error.
pub open spec fn is_rejection<B>(response: Result<Response<B>, Rejection>, error: ErrorView) -> bool {
    response matches Err(rejection) && rejection.error@ == error && rejection.status == status_of(
        error.kind,
    )
}

/// The error of a request that is itself at fault: a bad request that wraps
/// no cause.
pub open spec fn bad_request() -> ErrorView {
    ErrorView { kind: ErrorKind::BadRequest, backend_status: None, chain: Seq::empty() }
}

/// The answer to a request that failed with `error`.
pub fn reject<B>(error: Error) -> (response: Result<Response<B>, Rejection>)
    ensures
        is_rejection(response, error@),
{
    Err(Rejection { status: status_for(&error), error })
}

/// The configuration a process is started with: which backend, and where it
/// is.
pub enum Config {
    Filesystem { directory: String },
    ObjectStorage {
        endpoint: String,
        region: String,
        bucket_name: String,
        key_id: String,
        key_secret: String,
    },
}

/// The two executors of a process. Both go through the same backend.
pub struct AppState {
    pub upload_executor: upload_executor::Executor,
    pub download_executor: download_executor::Executor,
}

/// Whether `adapter` is the backend that `config` asks for: the directory's
/// client, or the client bound to the bucket, the endpoint and the key pair,
/// with the bucket addressed by virtual host.
pub open spec fn configured(config: Config, adapter: Adapter) -> bool {
    match config {
        Config::Filesystem { directory } => adapter matches Adapter::Filesystem(client)
            && client.directory() == directory@,
        Config::ObjectStorage { endpoint, region, bucket_name, key_id, key_secret } => {
            adapter matches Adapter::ObjectStorage(client) && client@ == (adapter_s3::ClientView {
                endpoint: endpoint@,
                region: region@,
                bucket_name: bucket_name@,
                key_id: key_id@,
                key_secret: key_secret@,
                addressing: adapter_s3::Addressing::VirtualHost,
            })
        },
    }
}

/// Whether the backend that `config` asks for can be had: a directory
/// always, a bucket where its endpoint can address it.
pub open spec fn available(config: Config) -> bool {
    match config {
        Config::Filesystem { .. } => true,
        Config::ObjectStorage { endpoint, region, bucket_name, .. } => adapter_s3::addressable(
            endpoint@,
            bucket_name@,
            region@,
            adapter_s3::Addressing::VirtualHost,
        ),
    }
}

/// The two executors for the backend that `config` asks for, exactly where
/// that backend can be had; else the refusal of the object store's client,
/// unchanged.
pub fn init_clients(config: &Config) -> (r:
    Result<(upload_executor::Executor, download_executor::Executor), Error>)
    ensures
        r is Ok <==> available(*config),
        match r {
            Ok((upload, download)) => upload.adapter() == download.adapter() && configured(
                *config,
                upload.adapter(),
            ),
            Err(e) => *config matches Config::ObjectStorage { endpoint, region, bucket_name, .. }
                && e@ == adapter_s3::refused(
                adapter_s3::bucket_refusal(
                    endpoint@,
                    bucket_name@,
                    region@,
                    adapter_s3::Addressing::VirtualHost,
                ),
            ),
        },
{
    let adapter = match config {
        Config::Filesystem { directory } => Adapter::Filesystem(
            adapter_fs::Client::new(directory.as_str()),
        ),
        Config::ObjectStorage { endpoint, region, bucket_name, key_id, key_secret } => {
            match adapter_s3::Client::new(
                endpoint.as_str(),
                region.as_str(),
                bucket_name.as_str(),
                key_id.as_str(),
                key_secret.as_str(),
            ) {
                Ok(client) => Adapter::ObjectStorage(client),
                Err(error) => {
                    return Err(error);
                },
            }
        },
    };
    let client = Arc::new(adapter);
    let upload = upload_executor::Executor::new(client.clone());
    let download = download_executor::Executor::new(client);
    Ok((upload, download))
}

/// Where an upload stands.
#[derive(Clone, Copy, Debug, PartialEq, Eq, Structural)]
pub enum UploadState {
    /// No part with a filename has been seen yet.
    AwaitingPart,
    /// A part is being stored.
    Storing,
    /// The request has been answered.
    Finished,
}

/// What happened to an upload since the last step.
#[derive(Debug)]
pub enum UploadEvent<R> {
    /// The body's next part arrived: the filename it declares, if it
    /// declares one, and the stream of its bytes.
    Part { file_name: Option<String>, body: R },
    /// The body has no further part.
    EndOfParts,
    /// The body cannot be read as a sequence of parts.
    Malformed,
    /// The backend replied to the request that stores the part.
    Stored(PutReply),
}

/// What to do next for an upload.
#[derive(Debug)]
pub enum UploadAction<R> {
    /// Drop the part and read the next one.
    NextPart,
    /// Perform the request, which owns the part's stream, and report the
    /// reply.
    Store(PutRequest<R>),
    /// Answer the request.
    Respond(Result<Response<String>, Rejection>),
}

/// One step of an upload through `adapter`: the state and the action that
/// follow `event` in `state`.
///
/// While no part has declared a filename, a part without one is dropped, and
/// the first part with one is stored under that name exactly where the
/// backend accepts the name, and refused else. The end
/// of the parts before that is a bad request. Once the part is stored the
/// reply decides: created, or the error the reply means. A body that cannot
/// be read and an event out of turn are bad requests. Every answer ends the
/// upload, and every error is answered with a server error.
pub open spec fn upload_step<R>(
    adapter: Adapter,
    state: UploadState,
    event: UploadEvent<R>,
    next: UploadState,
    action: UploadAction<R>,
) -> bool {
    match (state, event) {
        (UploadState::AwaitingPart, UploadEvent::Part { file_name: None, .. }) => {
            next == UploadState::AwaitingPart && action is NextPart
        },
        (UploadState::AwaitingPart, UploadEvent::Part { file_name: Some(name), body }) => {
            match action {
                UploadAction::Store(request) => next == UploadState::Storing
                    && adapter.put_planned(name@, body, Ok(request)),
                UploadAction::Respond(response) => next == UploadState::Finished
                    && is_rejection(response, adapter.refusal(name@)) && !adapter.accepts(name@),
                UploadAction::NextPart => false,
            }
        },
        (UploadState::Storing, UploadEvent::Stored(reply)) => {
            &&& next == UploadState::Finished
            &&& action matches UploadAction::Respond(response)
            &&& match reply.outcome() {
                Ok(_) => is_created(response),
                Err(error) => is_rejection(response, error),
            }
        },
        _ => {
            &&& next == UploadState::Finished
            &&& action matches UploadAction::Respond(response)
            &&& is_rejection(response, bad_request())
        },
    }
}

/// Every error an upload can end in is answered with a server error.
pub proof fn upload_errors_are_server_errors(reply: PutReply)
    ensures
        status_of(ErrorKind::BadRequest) == StatusCode::InternalServerError,
        reply.outcome() matches Err(error) ==> status_of(error.kind)
            == StatusCode::InternalServerError,
{
}

/// Takes an upload one step further: given where it stands and what
/// happened, says where it stands now and what to do next.
pub fn upload<R>(app_state: &AppState, state: UploadState, event: UploadEvent<R>) -> (r:
    (UploadState, UploadAction<R>))
    ensures
        upload_step(app_state.upload_executor.adapter(), state, event, r.0, r.1),
{
    match (state, event) {
        (UploadState::AwaitingPart, UploadEvent::Part { file_name: None, body: _ }) => {
            (UploadState::AwaitingPart, UploadAction::NextPart)
        },
        (UploadState::AwaitingPart, UploadEvent::Part { file_name: Some(name), body }) => {
            match app_state.upload_executor.execute(name.as_str(), body) {
                Ok(request) => (UploadState::Storing, UploadAction::Store(request)),
                Err(error) => (UploadState::Finished, UploadAction::Respond(reject(error))),
            }
        },
        (UploadState::Storing, UploadEvent::Stored(reply)) => {
            match app_state.upload_executor.finish(reply) {
                Ok(()) => (
                    UploadState::Finished,
                    UploadAction::Respond(
                        Ok(Response { status: StatusCode::Created, body: "OK".to_owned() }),
                    ),
                ),
                Err(error) => (UploadState::Finished, UploadAction::Respond(reject(error))),
            }
        },
        _ => (
            UploadState::Finished,
            UploadAction::Respond(reject(Error::new(ErrorKind::BadRequest))),
        ),
    }
}

/// A run of an upload from its start: `states[i]` is where the upload stands
/// before `events[i]`, and `actions[i]` and `states[i + 1]` are what the step
/// makes of that event.
pub open spec fn upload_run<R>(
    adapter: Adapter,
    events: Seq<UploadEvent<R>>,
    states: Seq<UploadState>,
    actions: Seq<UploadAction<R>>,
) -> bool {
    &&& states.len() == events.len() + 1
    &&& actions.len() == events.len()
    &&& states[0] == UploadState::AwaitingPart
    &&& forall|i: int|
        0 <= i < events.len() ==> upload_step(
            adapter,
            states[i],
            #[trigger] events[i],
            states[i + 1],
            actions[i],
        )
}

/// Whether `event` is a part that declares no filename.
pub open spec fn is_nameless_part<R>(event: UploadEvent<R>) -> bool {
    event matches UploadEvent::Part { file_name: None, .. }
}

/// As long as every part so far declared no filename, the upload still
/// awaits a part and every action so far was to read the next one.
proof fn nameless_parts_are_skipped<R>(
    adapter: Adapter,
    events: Seq<UploadEvent<R>>,
    states: Seq<UploadState>,
    actions: Seq<UploadAction<R>>,
    n: int,
)
    requires
        upload_run(adapter, events, states, actions),
        0 <= n <= events.len(),
        forall|i: int| 0 <= i < n ==> is_nameless_part(#[trigger] events[i]),
    ensures
        states[n] == UploadState::AwaitingPart,
        forall|i: int| 0 <= i < n ==> #[trigger] actions[i] is NextPart,
    decreases n,
{
    if n > 0 {
        nameless_parts_are_skipped(adapter, events, states, actions, n - 1);
        assert(is_nameless_part(events[n - 1]));
        assert(upload_step(adapter, states[n - 1], events[n - 1], states[n], actions[n - 1]));
    }
}

/// An upload none of whose parts declares a filename is rejected, and the
/// backend is never asked to store anything: in every run that consists of
/// such parts and then the end of the body, no action is a store, the last
/// action answers a bad request with a server error, and the upload is
/// finished.
pub proof fn upload_without_filename_is_rejected<R>(
    adapter: Adapter,
    events: Seq<UploadEvent<R>>,
    states: Seq<UploadState>,
    actions: Seq<UploadAction<R>>,
)
    requires
        upload_run(adapter, events, states, actions),
        events.len() > 0,
        events.last() is EndOfParts,
        forall|i: int| 0 <= i < events.len() - 1 ==> is_nameless_part(#[trigger] events[i]),
    ensures
        forall|i: int| 0 <= i < actions.len() ==> !(#[trigger] actions[i] is Store),
        actions.last() matches UploadAction::Respond(response) && is_rejection(
            response,
            bad_request(),
        ),
        actions.last() matches UploadAction::Respond(Err(rejection)) && rejection.status
            == StatusCode::InternalServerError,
        states.last() == UploadState::Finished,
{
    let n = events.len() - 1;
    nameless_parts_are_skipped(adapter, events, states, actions, n);
    assert(upload_step(adapter, states[n], events[n], states[n + 1], actions[n]));
}

/// An upload stores the first part that declares a filename, under that
/// name and from that part's stream: in every run that consists of parts
/// without a filename and then a part with one, the action for that part is
/// the store whose request owns the part's stream and addresses the object
/// the backend locates for the name, exactly where the backend accepts the
/// name; else the upload is refused.
pub proof fn upload_stores_the_first_named_part<R>(
    adapter: Adapter,
    events: Seq<UploadEvent<R>>,
    states: Seq<UploadState>,
    actions: Seq<UploadAction<R>>,
)
    requires
        upload_run(adapter, events, states, actions),
        events.len() > 0,
        events.last() matches UploadEvent::Part { file_name: Some(_), .. },
        forall|i: int| 0 <= i < events.len() - 1 ==> is_nameless_part(#[trigger] events[i]),
    ensures
        forall|i: int| 0 <= i < actions.len() - 1 ==> #[trigger] actions[i] is NextPart,
        events.last() matches UploadEvent::Part { file_name: Some(name), body } && match actions.last() {
            UploadAction::Store(request) => request.source() == body && request.location()
                == adapter.locate(name@) && states.last() == UploadState::Storing,
            UploadAction::Respond(response) => !adapter.accepts(name@) && is_rejection(
                response,
                adapter.refusal(name@),
            ) && states.last() == UploadState::Finished,
            UploadAction::NextPart => false,
        },
        events.last() matches UploadEvent::Part { file_name: Some(name), .. } && (actions.last() is Store
            <==> adapter.accepts(name@)),
{
    let n = events.len() - 1;
    nameless_parts_are_skipped(adapter, events, states, actions, n);
    assert(upload_step(adapter, states[n], events[n], states[n + 1], actions[n]));
}

/// Once an upload has left the search for a part, every later step answers
/// and leaves the upload finished.
proof fn upload_settles<R>(
    adapter: Adapter,
    events: Seq<UploadEvent<R>>,
    states: Seq<UploadState>,
    actions: Seq<UploadAction<R>>,
    i: int,
    j: int,
)
    requires
        upload_run(adapter, events, states, actions),
        0 <= i < j < events.len(),
        states[i + 1] != UploadState::AwaitingPart,
    ensures
        actions[j] is Respond,
        states[j + 1] == UploadState::Finished,
    decreases j - i,
{
    if j > i + 1 {
        upload_settles(adapter, events, states, actions, i, j - 1);
    }
    assert(upload_step(adapter, states[j], events[j], states[j + 1], actions[j]));
}

/// An upload hands at most one stream to the backend: in every run, no store
/// is followed by another store; every later action is an answer.
pub proof fn upload_stores_at_most_once<R>(
    adapter: Adapter,
    events: Seq<UploadEvent<R>>,
    states: Seq<UploadState>,
    actions: Seq<UploadAction<R>>,
    i: int,
    j: int,
)
    requires
        upload_run(adapter, events, states, actions),
        0 <= i < j < events.len(),
        actions[i] is Store,
    ensures
        actions[j] is Respond,
{
    assert(upload_step(adapter, states[i], events[i], states[i + 1], actions[i]));
    upload_settles(adapter, events, states, actions, i, j);
}

/// An upload is acknowledged only once the backend has stored the part: an
/// answer that is no rejection follows a reply that means success, and
/// nothing else.
pub proof fn created_only_after_the_backend_stored<R>(
    adapter: Adapter,
    state: UploadState,
    event: UploadEvent<R>,
    next: UploadState,
    action: UploadAction<R>,
)
    requires
        upload_step(adapter, state, event, next, action),
        action matches UploadAction::Respond(Ok(_)),
    ensures
        state == UploadState::Storing,
        event matches UploadEvent::Stored(reply) && reply.outcome() is Ok,
        action matches UploadAction::Respond(response) && is_created(response),
{
}

/// Where a download stands.
#[derive(Clone, Copy, Debug, PartialEq, Eq, Structural)]
pub enum DownloadState {
    /// The query has not been looked at yet.
    AwaitingQuery,
    /// The object is being fetched.
    Fetching,
    /// The request has been answered.
    Finished,
}

/// What happened to a download since the last step.
#[derive(Debug)]
pub enum DownloadEvent<S> {
    /// The request arrived, with these query parameters, each a key and a
    /// value, in the order of the query string.
    Query(Vec<(String, String)>),
    /// The backend replied to the request that fetches the object.
    Fetched(GetReply<S>),
}

/// What to do next for a download.
#[derive(Debug)]
pub enum DownloadAction<S> {
    /// Perform the request and report the reply.
    Fetch(GetRequest),
    /// Answer the request.
    Respond(Result<Response<S>, Rejection>),
}

/// One step of a download through `adapter`: the state and the action that
/// follow `event` in `state`.
///
/// The filename is the value of the first query parameter, whatever its key.
/// A query without parameters is a bad request; else the object is fetched
/// exactly where the backend accepts the name, and the download refused
/// else. Once the backend has replied the reply decides: success
/// with the stream the reply brought, or the error the reply means. An event
/// out of turn is a bad request. Every answer ends the download; a missing
/// object is answered with not found, every other error with a server
/// error.
pub open spec fn download_step<S>(
    adapter: Adapter,
    state: DownloadState,
    event: DownloadEvent<S>,
    next: DownloadState,
    action: DownloadAction<S>,
) -> bool {
    match (state, event) {
        (DownloadState::AwaitingQuery, DownloadEvent::Query(params)) if params@.len() > 0 => {
            match action {
                DownloadAction::Fetch(request) => next == DownloadState::Fetching
                    && adapter.get_planned(params@[0].1@, Ok(request)),
                DownloadAction::Respond(response) => next == DownloadState::Finished
                    && is_rejection(response, adapter.refusal(params@[0].1@)) && !adapter.accepts(
                    params@[0].1@,
                ),
            }
        },
        (DownloadState::Fetching, DownloadEvent::Fetched(reply)) => {
            &&& next == DownloadState::Finished
            &&& action matches DownloadAction::Respond(response)
            &&& match reply.outcome() {
                Ok(stream) => is_content(response, stream),
                Err(error) => is_rejection(response, error),
            }
        },
        _ => {
            &&& next == DownloadState::Finished
            &&& action matches DownloadAction::Respond(response)
            &&& is_rejection(response, bad_request())
        },
    }
}

/// Takes a download one step further: given where it stands and what
/// happened, says where it stands now and what to do next.
pub fn download<S>(app_state: &AppState, state: DownloadState, event: DownloadEvent<S>) -> (r:
    (DownloadState, DownloadAction<S>))
    ensures
        download_step(app_state.download_executor.adapter(), state, event, r.0, r.1),
{
    match (state, event) {
        (DownloadState::AwaitingQuery, DownloadEvent::Query(params)) => {
            if params.len() == 0 {
                return (
                    DownloadState::Finished,
                    DownloadAction::Respond(reject(Error::new(ErrorKind::BadRequest))),
                );
            }
            match app_state.download_executor.execute(params[0].1.as_str()) {
                Ok(request) => (DownloadState::Fetching, DownloadAction::Fetch(request)),
                Err(error) => (DownloadState::Finished, DownloadAction::Respond(reject(error))),
            }
        },
        (DownloadState::Fetching, DownloadEvent::Fetched(reply)) => {
            match app_state.download_executor.finish(reply) {
                Ok(Some(stream)) => (
                    DownloadState::Finished,
                    DownloadAction::Respond(
                        Ok(Response { status: StatusCode::Success, body: stream }),
                    ),
                ),
                // No reply ends in an absent stream; were there one, nothing
                // would have been found.
                Ok(None) => (
                    DownloadState::Finished,
                    DownloadAction::Respond(reject(Error::new(ErrorKind::NotFound))),
                ),
                Err(error) => (DownloadState::Finished, DownloadAction::Respond(reject(error))),
            }
        },
        _ => (
            DownloadState::Finished,
            DownloadAction::Respond(reject(Error::new(ErrorKind::BadRequest))),
        ),
    }
}

/// A download whose backend fails with a storage error is answered with a
/// server error and that error: never with a success, and so never with a
/// body, empty or not.
pub proof fn storage_failure_is_a_server_error<S>(
    adapter: Adapter,
    reply: GetReply<S>,
    next: DownloadState,
    action: DownloadAction<S>,
)
    requires
        download_step(adapter, DownloadState::Fetching, DownloadEvent::Fetched(reply), next, action),
        reply.outcome() matches Err(error) && error.kind == ErrorKind::StorageError,
    ensures
        action matches DownloadAction::Respond(Err(rejection)) && rejection.status
            == StatusCode::InternalServerError && Err::<S, ErrorView>(rejection.error@)
            == reply.outcome(),
        next == DownloadState::Finished,
{
}

/// A download answers with a body only where the backend's reply brought a
/// stream, and then the body is that stream.
pub proof fn content_comes_from_the_backend<S>(
    adapter: Adapter,
    state: DownloadState,
    event: DownloadEvent<S>,
    next: DownloadState,
    action: DownloadAction<S>,
)
    requires
        download_step(adapter, state, event, next, action),
        action matches DownloadAction::Respond(Ok(_)),
    ensures
        state == DownloadState::Fetching,
        event matches DownloadEvent::Fetched(reply) && reply.outcome() matches Ok(stream)
            && action matches DownloadAction::Respond(response) && is_content(response, stream),
{
}

/// A download asks the backend once, at its start: a fetch is the action
/// for the query and for nothing else, and whatever happens after the query
/// ends the download.
pub proof fn download_fetches_only_for_the_query<S>(
    adapter: Adapter,
    state: DownloadState,
    event: DownloadEvent<S>,
    next: DownloadState,
    action: DownloadAction<S>,
)
    requires
        download_step(adapter, state, event, next, action),
    ensures
        action is Fetch ==> state == DownloadState::AwaitingQuery && next
            == DownloadState::Fetching,
        state != DownloadState::AwaitingQuery ==> action is Respond && next
            == DownloadState::Finished,
        action is Respond <==> next == DownloadState::Finished,
{
}

} // verus!
