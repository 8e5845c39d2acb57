use file_transfer::client::{
    initial_status, ClientError, ClientMode, ClientSession, SendPhase,
};
use file_transfer::codec::encode_batch_header;
use file_transfer::server::{AcceptLoop, ListenPhase, ListenerSession, ServerMode};
use file_transfer::status::{to_u8, ProtocolError, Status};

#[test]
fn test_initial_status_announces_batch_or_halt() {
    assert_eq!(
        initial_status(&ClientMode::SendFile(vec!["a".to_string()])),
        Status::Okay
    );
    assert_eq!(initial_status(&ClientMode::SendStop), Status::Stop);
}

#[test]
fn test_client_session_happy_path() {
    let files = vec!["a.txt".to_string(), "b.txt".to_string()];
    let mut client = ClientSession::new(files);
    assert_eq!(client.phase, SendPhase::Header);
    assert_eq!(client.batch_header(), vec![2, 0]);

    // first file: accepted, both opens succeed, streamed to end of file
    let header = client.next_header(4).unwrap();
    assert_eq!(header.len(), 265);
    assert_eq!(header[0], 5);
    assert_eq!(&header[1..6], "a.txt".as_bytes());
    client.on_accept_byte(to_u8(Status::Okay));
    assert_eq!(client.phase, SendPhase::LocalOpen);
    assert_eq!(client.on_open_result(true), Status::Okay);
    client.on_peer_open_byte(to_u8(Status::Okay));
    assert_eq!(client.phase, SendPhase::Streaming);
    client.on_eof();
    assert_eq!(client.phase, SendPhase::Header);

    // second file: the peer already has it; no payload follows
    let _ = client.next_header(9).unwrap();
    client.on_accept_byte(to_u8(Status::FileAlreadyExists));
    assert_eq!(client.phase, SendPhase::Done);
    assert_eq!(
        client.outcomes,
        vec![Status::Okay, Status::FileAlreadyExists]
    );
}

#[test]
fn test_client_session_empty_batch_is_done_at_once() {
    let client = ClientSession::new(Vec::new());
    assert_eq!(client.phase, SendPhase::Done);
    assert_eq!(client.batch_header(), vec![0, 0]);
    assert_eq!(client.outcomes, Vec::<Status>::new());
}

#[test]
fn test_client_session_peer_open_failure_skips_payload() {
    let mut client = ClientSession::new(vec!["a.txt".to_string()]);
    let _ = client.next_header(10).unwrap();
    client.on_accept_byte(to_u8(Status::Okay));
    client.on_open_result(true);
    client.on_peer_open_byte(to_u8(Status::FileOpenError));
    assert_eq!(client.phase, SendPhase::Done);
    assert_eq!(client.outcomes, vec![Status::FileOpenError]);
}

#[test]
fn test_client_session_local_open_failure_skips_file() {
    let mut client = ClientSession::new(vec!["a.txt".to_string(), "b.txt".to_string()]);
    let _ = client.next_header(10).unwrap();
    client.on_accept_byte(to_u8(Status::Okay));
    // the source would not open: the failure status goes out, the file is
    // resolved, and the batch continues with the next file
    assert_eq!(client.on_open_result(false), Status::FileOpenError);
    assert_eq!(client.phase, SendPhase::Header);
    assert_eq!(client.error, None);
    assert_eq!(client.outcomes, vec![Status::FileOpenError]);

    let _ = client.next_header(3).unwrap();
    client.on_accept_byte(to_u8(Status::Okay));
    client.on_open_result(true);
    client.on_peer_open_byte(to_u8(Status::Okay));
    client.on_eof();
    assert_eq!(client.phase, SendPhase::Done);
    assert_eq!(client.outcomes, vec![Status::FileOpenError, Status::Okay]);
}

#[test]
fn test_client_session_rejects_bad_status_byte() {
    let mut client = ClientSession::new(vec!["a.txt".to_string()]);
    let _ = client.next_header(10).unwrap();
    client.on_accept_byte(9);
    assert_eq!(client.phase, SendPhase::Failed);
    assert_eq!(
        client.error,
        Some(ClientError::Protocol(ProtocolError::BadStatusByte(9)))
    );
}

#[test]
fn test_client_session_name_too_long_fails() {
    let mut client = ClientSession::new(vec!["n".repeat(300)]);
    assert!(client.next_header(1).is_err());
    assert_eq!(client.phase, SendPhase::Failed);
    assert_eq!(client.error, Some(ClientError::NameTooLong));
}

#[test]
fn test_listener_halt_signal_stops_serving() {
    let mut server = ListenerSession::new();
    server.on_first_byte(to_u8(Status::Stop));
    assert_eq!(server.phase, ListenPhase::Closed);
    assert!(!server.keep_serving);
}

#[test]
fn test_listener_rejects_bad_first_byte() {
    let mut server = ListenerSession::new();
    server.on_first_byte(200);
    assert_eq!(server.phase, ListenPhase::Failed);
    assert_eq!(
        server.error,
        Some(ProtocolError::BadStatusByte(200))
    );
}

#[test]
fn test_listener_rejects_negative_count() {
    let mut server = ListenerSession::new();
    server.on_first_byte(to_u8(Status::Okay));
    server.on_count_bytes(&encode_batch_header(-1));
    assert_eq!(server.phase, ListenPhase::Failed);
    assert_eq!(
        server.error,
        Some(ProtocolError::NegativeCount(-1))
    );
}

#[test]
fn test_listener_name_error_skips_file_and_stays_aligned() {
    let mut server = ListenerSession::new();
    server.on_first_byte(to_u8(Status::Okay));
    server.on_count_bytes(&[1, 0]);
    let mut header = vec![0u8; 265];
    header[0] = 2;
    header[1] = 0xff;
    header[2] = 0xfe;
    let reply = server.on_header_bytes(&header);
    assert_eq!(reply, Some(Status::NameError));
    assert_eq!(server.phase, ListenPhase::Closed);
    assert!(server.keep_serving);
    assert_eq!(server.outcomes, vec![Status::NameError]);
}

#[test]
fn test_listener_existing_destination_is_left_alone() {
    let mut server = ListenerSession::new();
    server.on_first_byte(to_u8(Status::Okay));
    server.on_count_bytes(&[2, 0]);
    let header = file_transfer::codec::encode_file_header("dup.txt", 10).unwrap();
    assert_eq!(server.on_header_bytes(&header), None);
    assert_eq!(server.cur_name, "dup.txt");
    // the destination already exists: refuse it, exchange nothing more for
    // this file, and go straight to the next header
    let reply = server.on_exists_answer(true);
    assert_eq!(reply, Status::FileAlreadyExists);
    assert_eq!(server.phase, ListenPhase::AwaitHeader);
    assert_eq!(server.outcomes, vec![Status::FileAlreadyExists]);
}

#[test]
fn test_listener_sender_open_failure_skips_file() {
    let mut server = ListenerSession::new();
    server.on_first_byte(to_u8(Status::Okay));
    server.on_count_bytes(&[1, 0]);
    let header = file_transfer::codec::encode_file_header("f.bin", 10).unwrap();
    server.on_header_bytes(&header);
    server.on_exists_answer(false);
    server.on_sender_open_byte(to_u8(Status::FileOpenError));
    assert_eq!(server.phase, ListenPhase::Closed);
    assert_eq!(server.outcomes, vec![Status::FileOpenError]);
}

#[test]
fn test_listener_create_failure_skips_file() {
    let mut server = ListenerSession::new();
    server.on_first_byte(to_u8(Status::Okay));
    server.on_count_bytes(&[2, 0]);
    let header = file_transfer::codec::encode_file_header("f.bin", 10).unwrap();
    server.on_header_bytes(&header);
    server.on_exists_answer(false);
    server.on_sender_open_byte(to_u8(Status::Okay));
    // the destination would not open: the failure status goes out, the
    // file is resolved, and the round continues with the next header
    assert_eq!(server.on_create_result(false), Status::FileOpenError);
    assert_eq!(server.phase, ListenPhase::AwaitHeader);
    assert_eq!(server.error, None);
    assert_eq!(server.outcomes, vec![Status::FileOpenError]);

    let header = file_transfer::codec::encode_file_header("g.bin", 0).unwrap();
    server.on_header_bytes(&header);
    server.on_exists_answer(false);
    server.on_sender_open_byte(to_u8(Status::Okay));
    assert_eq!(server.on_create_result(true), Status::Okay);
    assert_eq!(server.phase, ListenPhase::Closed);
    assert!(server.keep_serving);
    assert_eq!(server.outcomes, vec![Status::FileOpenError, Status::Okay]);
}

fn receive_payload_of_size(size: usize) {
    let source: Vec<u8> = (0..size).map(|i| (i % 251) as u8).collect();
    let mut server = ListenerSession::new();
    server.on_first_byte(to_u8(Status::Okay));
    server.on_count_bytes(&[1, 0]);
    let header = file_transfer::codec::encode_file_header("payload.bin", size as u64).unwrap();
    server.on_header_bytes(&header);
    server.on_exists_answer(false);
    server.on_sender_open_byte(to_u8(Status::Okay));
    assert_eq!(server.on_create_result(true), Status::Okay);

    let mut destination: Vec<u8> = Vec::new();
    let mut offset = 0;
    while server.phase == ListenPhase::AwaitChunk {
        let n = server.chunk_len();
        assert!(n >= 1 && n <= 2048);
        assert!(offset + n <= size);
        let chunk = &source[offset..offset + n];
        server.on_chunk(chunk);
        destination.extend_from_slice(chunk);
        offset += n;
    }
    assert_eq!(server.phase, ListenPhase::Closed);
    assert_eq!(server.outcomes, vec![Status::Okay]);
    assert_eq!(destination, source);
}

#[test]
fn test_payload_size_zero() {
    receive_payload_of_size(0);
}

#[test]
fn test_payload_size_one() {
    receive_payload_of_size(1);
}

#[test]
fn test_payload_size_one_chunk_exactly() {
    receive_payload_of_size(2048);
}

#[test]
fn test_payload_size_chunk_plus_one() {
    receive_payload_of_size(2049);
}

#[test]
fn test_payload_size_several_chunks() {
    receive_payload_of_size(5000);
}

#[test]
fn test_payload_chunk_lengths() {
    let mut server = ListenerSession::new();
    server.on_first_byte(to_u8(Status::Okay));
    server.on_count_bytes(&[1, 0]);
    let header = file_transfer::codec::encode_file_header("payload.bin", 5000).unwrap();
    server.on_header_bytes(&header);
    server.on_exists_answer(false);
    server.on_sender_open_byte(to_u8(Status::Okay));
    server.on_create_result(true);
    let mut lens = Vec::new();
    while server.phase == ListenPhase::AwaitChunk {
        let n = server.chunk_len();
        lens.push(n);
        server.on_chunk(&vec![0u8; n]);
    }
    assert_eq!(lens, vec![2048, 2048, 904]);
}

#[test]
fn test_accept_loop_once() {
    let mut policy = AcceptLoop::new(ServerMode::Once);
    assert!(policy.should_accept());
    policy.record_round(true);
    assert!(!policy.should_accept());
}

#[test]
fn test_accept_loop_count_serves_at_most_three() {
    let mut policy = AcceptLoop::new(ServerMode::Count(3));
    let mut served = 0;
    while policy.should_accept() {
        policy.record_round(true);
        served += 1;
    }
    assert_eq!(served, 3);
}

#[test]
fn test_accept_loop_count_stops_early_on_halt() {
    let mut policy = AcceptLoop::new(ServerMode::Count(3));
    assert!(policy.should_accept());
    policy.record_round(true);
    assert!(policy.should_accept());
    policy.record_round(false);
    assert!(!policy.should_accept());
}

#[test]
fn test_accept_loop_forever_stops_only_on_halt() {
    let mut policy = AcceptLoop::new(ServerMode::ForEver);
    for _ in 0..1000 {
        assert!(policy.should_accept());
        policy.record_round(true);
    }
    assert!(policy.should_accept());
    policy.record_round(false);
    assert!(!policy.should_accept());
}

#[test]
fn test_end_to_end_once_round() {
    // the initiator offers a.txt (4 bytes) and a missing file to a listener
    // in single-round mode; the test stands in for both drivers and the
    // filesystem on either side
    let source = vec![1u8, 2, 3, 4];
    let requested = vec!["a.txt".to_string(), "missing.txt".to_string()];
    let on_disk = |name: &str| name == "a.txt";

    let keep: Vec<bool> = requested.iter().map(|n| on_disk(n.as_str())).collect();
    let cleaned = file_transfer::file_utils::filter_requested(&requested, &keep);
    assert_eq!(cleaned, vec!["a.txt".to_string()]);
    let mut client = ClientSession::new(cleaned);
    let mut server = ListenerSession::new();
    let mut policy = AcceptLoop::new(ServerMode::Once);
    assert!(policy.should_accept());

    server.on_first_byte(to_u8(initial_status(&ClientMode::SendFile(requested))));
    let batch = client.batch_header();
    assert_eq!(batch, vec![1, 0]); // only a.txt survives the filter
    server.on_count_bytes(&batch);

    let header = client.next_header(source.len() as u64).unwrap();
    assert_eq!(server.on_header_bytes(&header), None);
    assert_eq!(server.cur_name, "a.txt");
    let accept = server.on_exists_answer(false);
    client.on_accept_byte(to_u8(accept));
    let open_reply = client.on_open_result(true);
    server.on_sender_open_byte(to_u8(open_reply));
    let create_reply = server.on_create_result(true);
    client.on_peer_open_byte(to_u8(create_reply));

    let mut destination: Vec<u8> = Vec::new();
    let mut offset = 0;
    while server.phase == ListenPhase::AwaitChunk {
        let n = server.chunk_len();
        let chunk = &source[offset..offset + n];
        server.on_chunk(chunk);
        destination.extend_from_slice(chunk);
        offset += n;
    }
    client.on_eof();

    assert_eq!(destination, source);
    assert_eq!(client.phase, SendPhase::Done);
    assert_eq!(client.outcomes, vec![Status::Okay]);
    assert_eq!(server.phase, ListenPhase::Closed);
    assert_eq!(server.outcomes, vec![Status::Okay]);

    policy.record_round(server.keep_serving);
    assert!(!policy.should_accept());
}
