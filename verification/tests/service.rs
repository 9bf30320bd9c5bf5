use file_relay::adapter_trait::{
    Failure, FailureOrigin, GetReply, GetRequest, PutReply, PutRequest,
};
use file_relay::custom_error::{Error, ErrorKind};
use file_relay::service::{
    reject, status_for, Config, DownloadAction, DownloadEvent, DownloadState, Rejection, Response,
    StatusCode, UploadAction, UploadEvent, UploadState,
};
use file_relay::{download, init_clients, upload, AppState};

fn local() -> AppState {
    let config = Config::Filesystem { directory: "/data".to_string() };
    let (upload_executor, download_executor) = init_clients(&config).unwrap();
    AppState { upload_executor, download_executor }
}

fn cloud() -> AppState {
    let config = Config::ObjectStorage {
        endpoint: "https://s3.region.aws.com".to_string(),
        region: "region".to_string(),
        bucket_name: "bucket_name".to_string(),
        key_id: "KEY_ID".to_string(),
        key_secret: "KEY_SECRET".to_string(),
    };
    let (upload_executor, download_executor) = init_clients(&config).unwrap();
    AppState { upload_executor, download_executor }
}

fn part(name: Option<&str>, body: &'static str) -> UploadEvent<&'static str> {
    UploadEvent::Part { file_name: name.map(str::to_string), body }
}

fn query(pairs: &[(&str, &str)]) -> DownloadEvent<&'static str> {
    DownloadEvent::Query(pairs.iter().map(|(k, v)| (k.to_string(), v.to_string())).collect())
}

fn failure(origin: FailureOrigin) -> Failure {
    Failure { origin, message: "it broke".to_string(), sources: vec!["deep down".to_string()] }
}

fn rejection<B: std::fmt::Debug>(response: Result<Response<B>, Rejection>) -> Rejection {
    match response {
        Err(rejection) => rejection,
        Ok(response) => panic!("unexpected response {:?}", response),
    }
}

fn upload_rejection(action: UploadAction<&'static str>) -> Rejection {
    match action {
        UploadAction::Respond(response) => rejection(response),
        other => panic!("unexpected action {:?}", other),
    }
}

fn download_rejection(action: DownloadAction<&'static str>) -> Rejection {
    match action {
        DownloadAction::Respond(response) => rejection(response),
        other => panic!("unexpected action {:?}", other),
    }
}

#[test]
fn status_codes_are_the_numbers_on_the_wire() {
    assert_eq!(StatusCode::Success.as_u16(), 200);
    assert_eq!(StatusCode::Created.as_u16(), 201);
    assert_eq!(StatusCode::NotFound.as_u16(), 404);
    assert_eq!(StatusCode::InternalServerError.as_u16(), 500);
}

#[test]
fn only_not_found_is_answered_with_its_own_status() {
    assert_eq!(status_for(&Error::new(ErrorKind::NotFound)), StatusCode::NotFound);
    assert_eq!(status_for(&Error::new(ErrorKind::StorageError)), StatusCode::InternalServerError);
    assert_eq!(status_for(&Error::new(ErrorKind::BadRequest)), StatusCode::InternalServerError);
    assert_eq!(status_for(&Error::new(ErrorKind::IOError)), StatusCode::InternalServerError);
}

#[test]
fn reject_keeps_the_error_behind_the_status() {
    let error = Error::new_from_err(ErrorKind::NotFound, "gone".to_string(), Vec::new());
    let rejection = rejection(reject::<()>(error));
    assert_eq!(rejection.status, StatusCode::NotFound);
    assert_eq!(rejection.error.kind(), ErrorKind::NotFound);
    assert_eq!(rejection.error.report(), "gone\n");
}

#[test]
fn init_clients_for_a_directory_shares_one_filesystem_backend() {
    let app = local();
    match app.upload_executor.execute("a.txt", ()).unwrap() {
        PutRequest::WriteFile { path, .. } => assert_eq!(path, "/data/a.txt"),
        other => panic!("unexpected request {:?}", other),
    }
    match app.download_executor.execute("a.txt").unwrap() {
        GetRequest::ReadFile { path } => assert_eq!(path, "/data/a.txt"),
        other => panic!("unexpected request {:?}", other),
    }
}

#[test]
fn init_clients_for_a_bucket_shares_one_object_store() {
    let app = cloud();
    match app.upload_executor.execute("a.txt", ()).unwrap() {
        PutRequest::SendObject { key, url, .. } => {
            assert_eq!(key, "a.txt");
            assert!(url.starts_with("https://bucket_name.s3.region.aws.com/a.txt?"), "{}", url);
        },
        other => panic!("unexpected request {:?}", other),
    }
    match app.download_executor.execute("a.txt").unwrap() {
        GetRequest::FetchObject { key, url, .. } => {
            assert_eq!(key, "a.txt");
            assert!(url.starts_with("https://bucket_name.s3.region.aws.com/a.txt?"), "{}", url);
        },
        other => panic!("unexpected request {:?}", other),
    }
}

#[test]
fn init_clients_hands_back_the_refusal_of_an_endpoint() {
    let config = Config::ObjectStorage {
        endpoint: "s3.region.aws.com".to_string(),
        region: "region".to_string(),
        bucket_name: "bucket_name".to_string(),
        key_id: "KEY_ID".to_string(),
        key_secret: "KEY_SECRET".to_string(),
    };
    let error = init_clients(&config).err().unwrap();
    assert_eq!(error.kind(), ErrorKind::StorageError);
    assert_eq!(error.chain(), &vec!["relative URL without a base".to_string()]);
}

#[test]
fn executors_finish_with_what_the_reply_means() {
    let app = local();
    assert!(app.upload_executor.finish(PutReply::Written).is_ok());
    let error = app.upload_executor.finish(PutReply::Status(500)).unwrap_err();
    assert_eq!(error.kind(), ErrorKind::StorageError);
    assert_eq!(error.backend_status(), Some(500));

    assert_eq!(app.download_executor.finish(GetReply::Opened("bytes")).unwrap(), Some("bytes"));
    let missing =
        app.download_executor.finish(GetReply::<()>::Failed(failure(FailureOrigin::Missing)));
    assert_eq!(missing.unwrap_err().kind(), ErrorKind::NotFound);
}

#[test]
fn upload_drops_parts_without_a_filename() {
    let app = local();
    let (state, action) = upload(&app, UploadState::AwaitingPart, part(None, "field value"));
    assert_eq!(state, UploadState::AwaitingPart);
    assert!(matches!(action, UploadAction::NextPart));
}

#[test]
fn upload_stores_the_first_part_with_a_filename() {
    let app = local();
    let (state, action) = upload(&app, UploadState::AwaitingPart, part(None, "ignored"));
    assert!(matches!(action, UploadAction::NextPart));
    let (state, action) = upload(&app, state, part(Some("a.txt"), "hello"));
    assert_eq!(state, UploadState::Storing);
    match action {
        UploadAction::Store(PutRequest::WriteFile { path, source }) => {
            assert_eq!(path, "/data/a.txt");
            assert_eq!(source, "hello");
        },
        other => panic!("unexpected action {:?}", other),
    }
    let (state, action) = upload::<&'static str>(&app, state, UploadEvent::Stored(PutReply::Written));
    assert_eq!(state, UploadState::Finished);
    match action {
        UploadAction::Respond(Ok(response)) => {
            assert_eq!(response.status, StatusCode::Created);
            assert_eq!(response.status.as_u16(), 201);
            assert_eq!(response.body, "OK");
        },
        other => panic!("unexpected action {:?}", other),
    }
}

#[test]
fn upload_through_a_bucket_sends_the_part() {
    let app = cloud();
    let (state, action) = upload(&app, UploadState::AwaitingPart, part(Some("x.bin"), "bytes"));
    assert_eq!(state, UploadState::Storing);
    match action {
        UploadAction::Store(PutRequest::SendObject { key, valid_for_secs, source, .. }) => {
            assert_eq!(key, "x.bin");
            assert_eq!(valid_for_secs, 3600);
            assert_eq!(source, "bytes");
        },
        other => panic!("unexpected action {:?}", other),
    }
    let (state, action) = upload::<&'static str>(&app, state, UploadEvent::Stored(PutReply::Status(200)));
    assert_eq!(state, UploadState::Finished);
    assert!(matches!(
        action,
        UploadAction::Respond(Ok(Response { status: StatusCode::Created, .. }))
    ));
}

#[test]
fn upload_through_a_bucket_that_cannot_address_the_name_is_refused() {
    let app = cloud();
    let (state, action) = upload(&app, UploadState::AwaitingPart, part(Some("//"), "bytes"));
    assert_eq!(state, UploadState::Finished);
    let rejection = upload_rejection(action);
    assert_eq!(rejection.status, StatusCode::InternalServerError);
    assert_eq!(rejection.error.kind(), ErrorKind::StorageError);
    assert_eq!(rejection.error.chain(), &vec!["empty host".to_string()]);
}

#[test]
fn upload_without_any_filename_is_rejected_and_nothing_is_stored() {
    let app = local();
    let mut state = UploadState::AwaitingPart;
    for body in ["one", "two", "three"] {
        let (next, action) = upload(&app, state, part(None, body));
        assert!(matches!(action, UploadAction::NextPart));
        state = next;
    }
    let (state, action) = upload(&app, state, UploadEvent::EndOfParts);
    assert_eq!(state, UploadState::Finished);
    let rejection = upload_rejection(action);
    assert_eq!(rejection.status, StatusCode::InternalServerError);
    assert_eq!(rejection.status.as_u16(), 500);
    assert_eq!(rejection.error.kind(), ErrorKind::BadRequest);
    assert!(rejection.error.chain().is_empty());
}

#[test]
fn upload_of_an_empty_body_is_rejected() {
    let app = cloud();
    let (state, action) = upload::<&'static str>(&app, UploadState::AwaitingPart, UploadEvent::EndOfParts);
    assert_eq!(state, UploadState::Finished);
    let rejection = upload_rejection(action);
    assert_eq!(rejection.status.as_u16(), 500);
    assert_eq!(rejection.error.kind(), ErrorKind::BadRequest);
}

#[test]
fn upload_of_a_body_that_cannot_be_read_is_rejected() {
    let app = local();
    let (state, action) = upload::<&'static str>(&app, UploadState::AwaitingPart, UploadEvent::Malformed);
    assert_eq!(state, UploadState::Finished);
    let rejection = upload_rejection(action);
    assert_eq!(rejection.status, StatusCode::InternalServerError);
    assert_eq!(rejection.error.kind(), ErrorKind::BadRequest);
}

#[test]
fn upload_whose_store_fails_is_a_server_error() {
    let app = local();
    let replies = [
        (PutReply::Status(403), ErrorKind::StorageError),
        (PutReply::Status(500), ErrorKind::StorageError),
        (PutReply::Failed(failure(FailureOrigin::Backend)), ErrorKind::StorageError),
        (PutReply::Failed(failure(FailureOrigin::Missing)), ErrorKind::StorageError),
        (PutReply::Failed(failure(FailureOrigin::Stream)), ErrorKind::IOError),
    ];
    for (reply, kind) in replies {
        let (state, action) = upload::<&'static str>(&app, UploadState::Storing, UploadEvent::Stored(reply));
        assert_eq!(state, UploadState::Finished);
        let rejection = upload_rejection(action);
        assert_eq!(rejection.status, StatusCode::InternalServerError);
        assert_eq!(rejection.error.kind(), kind);
    }
}

#[test]
fn upload_events_out_of_turn_end_the_upload() {
    let app = local();
    let out_of_turn: Vec<(UploadState, UploadEvent<&'static str>)> = vec![
        (UploadState::AwaitingPart, UploadEvent::Stored(PutReply::Written)),
        (UploadState::Storing, part(Some("b.txt"), "second")),
        (UploadState::Storing, part(None, "second")),
        (UploadState::Storing, UploadEvent::EndOfParts),
        (UploadState::Storing, UploadEvent::Malformed),
        (UploadState::Finished, part(Some("c.txt"), "late")),
        (UploadState::Finished, UploadEvent::EndOfParts),
        (UploadState::Finished, UploadEvent::Stored(PutReply::Written)),
    ];
    for (state, event) in out_of_turn {
        let (next, action) = upload(&app, state, event);
        assert_eq!(next, UploadState::Finished);
        let rejection = upload_rejection(action);
        assert_eq!(rejection.status, StatusCode::InternalServerError);
        assert_eq!(rejection.error.kind(), ErrorKind::BadRequest);
    }
}

#[test]
fn download_takes_the_filename_from_the_first_parameter() {
    let app = local();
    let (state, action) =
        download(&app, DownloadState::AwaitingQuery, query(&[("anything", "a.txt"), ("key", "b.txt")]));
    assert_eq!(state, DownloadState::Fetching);
    match action {
        DownloadAction::Fetch(GetRequest::ReadFile { path }) => assert_eq!(path, "/data/a.txt"),
        other => panic!("unexpected action {:?}", other),
    }
}

#[test]
fn download_streams_what_the_backend_opened() {
    let app = local();
    let (state, _) = download(&app, DownloadState::AwaitingQuery, query(&[("key", "a.txt")]));
    let (state, action) = download(&app, state, DownloadEvent::Fetched(GetReply::Opened("hello")));
    assert_eq!(state, DownloadState::Finished);
    match action {
        DownloadAction::Respond(Ok(response)) => {
            assert_eq!(response.status, StatusCode::Success);
            assert_eq!(response.status.as_u16(), 200);
            assert_eq!(response.body, "hello");
        },
        other => panic!("unexpected action {:?}", other),
    }
}

#[test]
fn download_through_a_bucket_streams_the_response_body() {
    let app = cloud();
    let (state, action) = download(&app, DownloadState::AwaitingQuery, query(&[("key", "x.bin")]));
    assert_eq!(state, DownloadState::Fetching);
    match action {
        DownloadAction::Fetch(GetRequest::FetchObject { key, valid_for_secs, .. }) => {
            assert_eq!(key, "x.bin");
            assert_eq!(valid_for_secs, 3600);
        },
        other => panic!("unexpected action {:?}", other),
    }
    let reply = GetReply::Response { status: 200, body: "object bytes" };
    let (state, action) = download(&app, state, DownloadEvent::Fetched(reply));
    assert_eq!(state, DownloadState::Finished);
    match action {
        DownloadAction::Respond(Ok(response)) => {
            assert_eq!(response.status, StatusCode::Success);
            assert_eq!(response.body, "object bytes");
        },
        other => panic!("unexpected action {:?}", other),
    }
}

#[test]
fn download_of_a_missing_object_is_not_found() {
    let app = local();
    let replies = [
        GetReply::Failed(failure(FailureOrigin::Missing)),
        GetReply::Response { status: 404, body: "no such key" },
    ];
    for reply in replies {
        let (state, action) = download(&app, DownloadState::Fetching, DownloadEvent::Fetched(reply));
        assert_eq!(state, DownloadState::Finished);
        let rejection = download_rejection(action);
        assert_eq!(rejection.status, StatusCode::NotFound);
        assert_eq!(rejection.status.as_u16(), 404);
        assert_eq!(rejection.error.kind(), ErrorKind::NotFound);
    }
}

#[test]
fn download_whose_backend_fails_is_a_server_error_without_a_body() {
    let app = cloud();
    let replies = [
        GetReply::Failed(failure(FailureOrigin::Backend)),
        GetReply::Response { status: 403, body: "denied" },
        GetReply::Response { status: 500, body: "" },
        GetReply::Response { status: 503, body: "" },
    ];
    for reply in replies {
        let (state, action) = download(&app, DownloadState::Fetching, DownloadEvent::Fetched(reply));
        assert_eq!(state, DownloadState::Finished);
        let rejection = download_rejection(action);
        assert_eq!(rejection.status, StatusCode::InternalServerError);
        assert_eq!(rejection.status.as_u16(), 500);
        assert_eq!(rejection.error.kind(), ErrorKind::StorageError);
    }
}

#[test]
fn download_whose_stream_broke_is_a_server_error() {
    let app = local();
    let reply = GetReply::Failed(failure(FailureOrigin::Stream));
    let (_, action) = download(&app, DownloadState::Fetching, DownloadEvent::Fetched(reply));
    let rejection = download_rejection(action);
    assert_eq!(rejection.status, StatusCode::InternalServerError);
    assert_eq!(rejection.error.kind(), ErrorKind::IOError);
    assert_eq!(rejection.error.report(), "it broke\n\nCaused by:\n\tdeep down\n");
}

#[test]
fn download_without_parameters_is_rejected() {
    let app = local();
    let (state, action) = download(&app, DownloadState::AwaitingQuery, query(&[]));
    assert_eq!(state, DownloadState::Finished);
    let rejection = download_rejection(action);
    assert_eq!(rejection.status, StatusCode::InternalServerError);
    assert_eq!(rejection.error.kind(), ErrorKind::BadRequest);
    assert!(rejection.error.chain().is_empty());
}

#[test]
fn download_through_a_bucket_that_cannot_address_the_name_is_refused() {
    let app = cloud();
    let (state, action) = download(&app, DownloadState::AwaitingQuery, query(&[("key", "//")]));
    assert_eq!(state, DownloadState::Finished);
    let rejection = download_rejection(action);
    assert_eq!(rejection.status, StatusCode::InternalServerError);
    assert_eq!(rejection.error.kind(), ErrorKind::StorageError);
}

#[test]
fn download_events_out_of_turn_end_the_download() {
    let app = local();
    let out_of_turn: Vec<(DownloadState, DownloadEvent<&'static str>)> = vec![
        (DownloadState::AwaitingQuery, DownloadEvent::Fetched(GetReply::Opened("early"))),
        (DownloadState::Fetching, query(&[("key", "a.txt")])),
        (DownloadState::Finished, query(&[("key", "a.txt")])),
        (DownloadState::Finished, DownloadEvent::Fetched(GetReply::Opened("late"))),
    ];
    for (state, event) in out_of_turn {
        let (next, action) = download(&app, state, event);
        assert_eq!(next, DownloadState::Finished);
        let rejection = download_rejection(action);
        assert_eq!(rejection.status, StatusCode::InternalServerError);
        assert_eq!(rejection.error.kind(), ErrorKind::BadRequest);
    }
}
