use echo_server::conn::ConnAction;
use echo_server::conn::ConnClose;
use echo_server::conn::Handler;
use echo_server::conn::ReadOutcome;
use echo_server::conn::WriteOutcome;
use echo_server::BUF_CAPACITY;

fn expect_echo(action: ConnAction, expected: &[u8]) {
    match action {
        ConnAction::Echo(bytes) => assert_eq!(bytes, expected.to_vec()),
        other => panic!("expected an echo of {:?}, got {:?}", expected, other),
    }
}

#[test]
fn ping_is_echoed_then_clean_close() {
    let mut h = Handler::new();
    assert!(h.is_reading());

    let a = h.on_read(ReadOutcome::Data(b"ping".to_vec()));
    expect_echo(a, b"ping");
    assert!(h.is_writing());

    let a = h.on_write(WriteOutcome::Done);
    assert!(matches!(a, ConnAction::AwaitData));
    assert!(h.is_reading());

    let a = h.on_read(ReadOutcome::Data(Vec::new()));
    assert!(matches!(a, ConnAction::Finish(ConnClose::Clean)));
    assert!(h.is_closed_clean());
    assert!(!h.is_closed_error());
}

#[test]
fn every_chunk_is_echoed_verbatim_in_order() {
    let chunks: Vec<Vec<u8>> = vec![
        b"hello".to_vec(),
        b" ".to_vec(),
        vec![0u8, 255, 1, 254],
        b"world".to_vec(),
    ];
    let mut h = Handler::new();
    for chunk in &chunks {
        let a = h.on_read(ReadOutcome::Data(chunk.clone()));
        expect_echo(a, chunk);
        let a = h.on_write(WriteOutcome::Done);
        assert!(matches!(a, ConnAction::AwaitData));
    }
    let a = h.on_read(ReadOutcome::Data(Vec::new()));
    assert!(matches!(a, ConnAction::Finish(ConnClose::Clean)));
}

#[test]
fn full_buffer_chunk_is_echoed() {
    let chunk: Vec<u8> = (0..BUF_CAPACITY).map(|i| (i % 256) as u8).collect();
    assert_eq!(chunk.len(), 1024);
    let mut h = Handler::new();
    let a = h.on_read(ReadOutcome::Data(chunk.clone()));
    expect_echo(a, &chunk);
    let a = h.on_write(WriteOutcome::Done);
    assert!(matches!(a, ConnAction::AwaitData));
}

#[test]
fn single_byte_is_echoed() {
    let mut h = Handler::new();
    let a = h.on_read(ReadOutcome::Data(vec![42u8]));
    expect_echo(a, &[42u8]);
}

#[test]
fn immediate_close_finishes_cleanly() {
    let mut h = Handler::new();
    let a = h.on_read(ReadOutcome::Data(Vec::new()));
    assert!(matches!(a, ConnAction::Finish(ConnClose::Clean)));
    assert!(h.is_closed_clean());
    assert!(!h.is_reading());
    assert!(!h.is_writing());
}

#[test]
fn read_failure_finishes_with_read_error() {
    let mut h = Handler::new();
    let a = h.on_read(ReadOutcome::Failed);
    assert!(matches!(a, ConnAction::Finish(ConnClose::ReadFailed)));
    assert!(h.is_closed_error());
    assert!(!h.is_closed_clean());
}

#[test]
fn write_failure_finishes_with_write_error() {
    let mut h = Handler::new();
    let a = h.on_read(ReadOutcome::Data(b"data".to_vec()));
    expect_echo(a, b"data");
    let a = h.on_write(WriteOutcome::Failed);
    assert!(matches!(a, ConnAction::Finish(ConnClose::WriteFailed)));
    assert!(h.is_closed_error());
}

#[test]
fn two_connections_are_isolated() {
    let mut first = Handler::new();
    let mut second = Handler::new();

    let a = first.on_read(ReadOutcome::Data(b"alpha".to_vec()));
    expect_echo(a, b"alpha");
    let a = second.on_read(ReadOutcome::Data(b"beta".to_vec()));
    expect_echo(a, b"beta");

    // The first connection fails; the second keeps exchanging data.
    let a = first.on_write(WriteOutcome::Failed);
    assert!(matches!(a, ConnAction::Finish(ConnClose::WriteFailed)));
    assert!(first.is_closed_error());

    let a = second.on_write(WriteOutcome::Done);
    assert!(matches!(a, ConnAction::AwaitData));
    let a = second.on_read(ReadOutcome::Data(b"gamma".to_vec()));
    expect_echo(a, b"gamma");
    let a = second.on_write(WriteOutcome::Done);
    assert!(matches!(a, ConnAction::AwaitData));
    let a = second.on_read(ReadOutcome::Data(Vec::new()));
    assert!(matches!(a, ConnAction::Finish(ConnClose::Clean)));
    assert!(second.is_closed_clean());
}
