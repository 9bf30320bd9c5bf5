use file_relay::adapter_fs::Client;
use file_relay::adapter_trait::{
    failed, AdapterTrait, FailedStep, GetReply, GetRequest, PutReply, PutRequest,
};
use file_relay::custom_error::{Error, ErrorKind};
use std::future::Future;
use tokio::io::AsyncReadExt;

fn block_on<F: Future>(future: F) -> F::Output {
    tokio::runtime::Builder::new_current_thread().enable_all().build().unwrap().block_on(future)
}

async fn perform_put(request: PutRequest<&[u8]>) -> PutReply {
    match request {
        PutRequest::WriteFile { path, mut source } => {
            let mut file = match tokio::fs::File::create(&path).await {
                Ok(file) => file,
                Err(error) => {
                    let step = FailedStep::CreatingFile;
                    return PutReply::Failed(failed(step, error.to_string(), Vec::new()));
                },
            };
            match tokio::io::copy(&mut source, &mut file).await {
                Ok(_) => PutReply::Written,
                Err(error) => {
                    PutReply::Failed(failed(FailedStep::WritingFile, error.to_string(), Vec::new()))
                },
            }
        },
        other => panic!("unexpected request {:?}", other),
    }
}

async fn perform_get(request: GetRequest) -> GetReply<tokio::fs::File> {
    match request {
        GetRequest::ReadFile { path } => match tokio::fs::File::open(&path).await {
            Ok(file) => GetReply::Opened(file),
            Err(error) => {
                let not_found = error.kind() == std::io::ErrorKind::NotFound;
                let step = FailedStep::OpeningFile { not_found };
                GetReply::Failed(failed(step, error.to_string(), Vec::new()))
            },
        },
        other => panic!("unexpected request {:?}", other),
    }
}

async fn put(client: &Client, name: &str, bytes: &[u8]) -> Result<(), Error> {
    perform_put(client.put_file(name, bytes)?).await.into_result()
}

async fn get(client: &Client, name: &str) -> Result<Vec<u8>, Error> {
    let mut file = perform_get(client.get_file(name)?).await.into_result()?;
    let mut bytes = Vec::new();
    file.read_to_end(&mut bytes).await.unwrap();
    Ok(bytes)
}

async fn remove(name: &str) {
    let _ = tokio::fs::remove_file(format!("/tmp/{}", name)).await;
}

#[test]
fn bytes_written_through_the_directory_come_back_unchanged() {
    block_on(async {
        let client = Client::new("/tmp");
        let name = "file_relay_round_trip.bin";
        let bytes: Vec<u8> = (0..100_000u32).map(|i| (i % 251) as u8).collect();
        put(&client, name, &bytes).await.unwrap();
        assert_eq!(get(&client, name).await.unwrap(), bytes);
        remove(name).await;
    });
}

#[test]
fn hello_comes_back_as_hello() {
    block_on(async {
        let client = Client::new("/tmp");
        let name = "file_relay_hello.txt";
        put(&client, name, b"hello").await.unwrap();
        assert_eq!(get(&client, name).await.unwrap(), b"hello");
        remove(name).await;
    });
}

#[test]
fn an_empty_stream_makes_an_empty_file() {
    block_on(async {
        let client = Client::new("/tmp");
        let name = "file_relay_empty.bin";
        put(&client, name, b"").await.unwrap();
        assert_eq!(get(&client, name).await.unwrap(), Vec::<u8>::new());
        remove(name).await;
    });
}

#[test]
fn a_second_put_replaces_the_first() {
    block_on(async {
        let client = Client::new("/tmp");
        let name = "file_relay_overwrite.txt";
        put(&client, name, b"a long first version").await.unwrap();
        put(&client, name, b"short").await.unwrap();
        assert_eq!(get(&client, name).await.unwrap(), b"short");
        remove(name).await;
    });
}

#[test]
fn files_put_side_by_side_are_each_read_back() {
    block_on(async {
        let client = Client::new("/tmp");
        let names = ["file_relay_side_a.txt", "file_relay_side_b.txt", "file_relay_side_c.txt"];
        let (a, b, c) = futures::future::join3(
            put(&client, names[0], b"first"),
            put(&client, names[1], b"second"),
            put(&client, names[2], b"third"),
        )
        .await;
        a.unwrap();
        b.unwrap();
        c.unwrap();
        assert_eq!(get(&client, names[0]).await.unwrap(), b"first");
        assert_eq!(get(&client, names[1]).await.unwrap(), b"second");
        assert_eq!(get(&client, names[2]).await.unwrap(), b"third");
        for name in names {
            remove(name).await;
        }
    });
}

#[test]
fn a_file_that_was_never_written_is_not_found() {
    block_on(async {
        let client = Client::new("/tmp");
        let error = get(&client, "file_relay_never_written.txt").await.unwrap_err();
        assert_eq!(error.kind(), ErrorKind::NotFound);
        assert_eq!(error.chain().len(), 1);
    });
}

#[test]
fn a_put_into_a_directory_that_does_not_exist_is_a_storage_error() {
    block_on(async {
        let client = Client::new("/tmp/file_relay_no_such_directory");
        let error = put(&client, "a.txt", b"hello").await.unwrap_err();
        assert_eq!(error.kind(), ErrorKind::StorageError);
    });
}
