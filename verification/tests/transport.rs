use pipe_transport::error::StreamIoError;
use pipe_transport::transport::AdoptOutcome;
use pipe_transport::transport::FlushEvent;
use pipe_transport::transport::NamedPipe;
use pipe_transport::transport::OpenOutcome;
use pipe_transport::transport::ReadEvent;
use pipe_transport::transport::WriteEvent;

#[test]
fn connect_success_yields_fresh_stream() {
    let pipe = NamedPipe::connect("\\\\.\\pipe\\svc", OpenOutcome::Opened(42), AdoptOutcome::Adopted)
        .unwrap();
    assert_eq!(pipe.raw_handle(), 42);
    assert!(pipe.is_write_open());
    assert!(!pipe.is_peer_closed());
}

#[test]
fn connect_open_failure_reports_endpoint_and_code() {
    // ERROR_FILE_NOT_FOUND: the endpoint does not exist
    let r = NamedPipe::connect("\\\\.\\pipe\\absent", OpenOutcome::Failed(2), AdoptOutcome::Adopted);
    match r {
        Ok(_) => panic!("a nonexistent endpoint must not yield a stream"),
        Err(err) => {
            assert_eq!(err.endpoint, "\\\\.\\pipe\\absent".to_string());
            assert_eq!(err.os_error, 2);
        }
    }
}

#[test]
fn connect_adoption_failure_reports_endpoint_and_code() {
    let r = NamedPipe::connect(
        "\\\\.\\pipe\\svc",
        OpenOutcome::Opened(42),
        AdoptOutcome::Failed(87),
    );
    match r {
        Ok(_) => panic!("a failed adoption must not yield a stream"),
        Err(err) => {
            assert_eq!(err.endpoint, "\\\\.\\pipe\\svc".to_string());
            assert_eq!(err.os_error, 87);
        }
    }
}

fn connected() -> NamedPipe {
    NamedPipe::connect("\\\\.\\pipe\\svc", OpenOutcome::Opened(7), AdoptOutcome::Adopted).unwrap()
}

#[test]
fn read_delivers_bytes_unchanged() {
    let mut pipe = connected();
    let got = pipe.read(ReadEvent::Data(vec![0xDE, 0xAD, 0xBE, 0xEF])).unwrap();
    assert_eq!(got, vec![0xDE, 0xAD, 0xBE, 0xEF]);
    assert!(!pipe.is_peer_closed());
}

#[test]
fn read_after_peer_close_is_clean_end_of_stream() {
    let mut pipe = connected();
    let got = pipe.read(ReadEvent::Eof).unwrap();
    assert!(got.is_empty());
    assert!(pipe.is_peer_closed());
    // end of stream persists and is never an error
    let again = pipe.read(ReadEvent::Data(vec![1])).unwrap();
    assert!(again.is_empty());
}

#[test]
fn read_error_passes_through_verbatim() {
    let mut pipe = connected();
    // ERROR_BROKEN_PIPE
    let err = pipe.read(ReadEvent::Fail(109)).unwrap_err();
    assert_eq!(err, StreamIoError::Os(109));
    assert!(!pipe.is_peer_closed());
}

#[test]
fn short_write_returns_accepted_count() {
    let mut pipe = connected();
    let buf = [1u8, 2, 3, 4, 5];
    let n = pipe.write(&buf, WriteEvent::Accepted(3)).unwrap();
    assert_eq!(n, 3);
    assert!(n < buf.len());
}

#[test]
fn write_error_passes_through_verbatim() {
    let mut pipe = connected();
    let err = pipe.write(&[1, 2, 3], WriteEvent::Fail(109)).unwrap_err();
    assert_eq!(err, StreamIoError::Os(109));
}

#[test]
fn write_after_shutdown_reports_closed() {
    let mut pipe = connected();
    pipe.shutdown().unwrap();
    let err = pipe.write(&[1], WriteEvent::Accepted(1)).unwrap_err();
    assert_eq!(err, StreamIoError::Closed);
}

#[test]
fn flush_succeeds_and_passes_errors_through() {
    let mut pipe = connected();
    assert_eq!(pipe.flush(FlushEvent::Flushed), Ok(()));
    assert_eq!(pipe.flush(FlushEvent::Fail(5)), Err(StreamIoError::Os(5)));
}

#[test]
fn shutdown_is_idempotent() {
    let mut pipe = connected();
    assert_eq!(pipe.shutdown(), Ok(()));
    assert!(!pipe.is_write_open());
    assert_eq!(pipe.shutdown(), Ok(()));
    assert!(!pipe.is_write_open());
    // the read half is unaffected
    let got = pipe.read(ReadEvent::Data(vec![9])).unwrap();
    assert_eq!(got, vec![9]);
}

#[test]
fn svc_test_ping_pong_scenario() {
    // The endpoint is pre-created by the harness; its open succeeds.
    let mut pipe = NamedPipe::connect(
        "\\\\.\\pipe\\svc-test",
        OpenOutcome::Opened(11),
        AdoptOutcome::Adopted,
    )
    .unwrap();
    let n = pipe.write(b"PING".as_slice(), WriteEvent::Accepted(4)).unwrap();
    assert_eq!(n, 4);
    pipe.flush(FlushEvent::Flushed).unwrap();
    let reply = pipe.read(ReadEvent::Data(b"PONG".to_vec())).unwrap();
    assert_eq!(reply, b"PONG".to_vec());
    pipe.shutdown().unwrap();
    // no further bytes deliverable after the peer closes its half
    let end = pipe.read(ReadEvent::Eof).unwrap();
    assert!(end.is_empty());
    let after = pipe.read(ReadEvent::Data(b"X".to_vec())).unwrap();
    assert!(after.is_empty());
}
