use local_ipc::handler::{
    ConnectionHandler, HandlerAction, HandlerPhase, ReadOutcome, READ_BUFFER_SIZE,
};

fn buffer_with(bytes: &[u8]) -> Vec<u8> {
    let mut buffer = vec![0u8; READ_BUFFER_SIZE];
    buffer[..bytes.len()].copy_from_slice(bytes);
    buffer
}

#[test]
fn buffer_holds_1024_bytes() {
    assert_eq!(READ_BUFFER_SIZE, 1024);
}

#[test]
fn new_handler_is_open() {
    let handler = ConnectionHandler::new();
    assert_eq!(handler.phase(), HandlerPhase::Open);
    assert!(handler.is_open());
}

#[test]
fn zero_length_read_finishes_without_report() {
    let mut handler = ConnectionHandler::new();
    let buffer = buffer_with(b"stale bytes of an earlier read");
    let action = handler.on_read(&buffer, ReadOutcome::Filled(0));
    assert_eq!(action, HandlerAction::Finish);
    assert_ne!(action, HandlerAction::ReportFailure);
    assert_eq!(handler.phase(), HandlerPhase::Finished);
    assert!(!handler.is_open());
}

#[test]
fn chunk_is_forwarded_as_text() {
    let mut handler = ConnectionHandler::new();
    let buffer = buffer_with(b"hello\nworld");
    let action = handler.on_read(&buffer, ReadOutcome::Filled(6));
    assert_eq!(action, HandlerAction::Forward(String::from("hello\n")));
    assert_eq!(handler.phase(), HandlerPhase::Open);
}

#[test]
fn only_the_filled_part_is_forwarded() {
    let mut handler = ConnectionHandler::new();
    let buffer = buffer_with(b"abcdef");
    assert_eq!(
        handler.on_read(&buffer, ReadOutcome::Filled(1)),
        HandlerAction::Forward(String::from("a"))
    );
    assert_eq!(
        handler.on_read(&buffer, ReadOutcome::Filled(3)),
        HandlerAction::Forward(String::from("abc"))
    );
}

#[test]
fn full_buffer_is_forwarded_whole() {
    let mut handler = ConnectionHandler::new();
    let buffer = vec![b'x'; READ_BUFFER_SIZE];
    let action = handler.on_read(&buffer, ReadOutcome::Filled(READ_BUFFER_SIZE));
    assert_eq!(action, HandlerAction::Forward("x".repeat(1024)));
    assert!(handler.is_open());
}

#[test]
fn multi_byte_text_is_decoded() {
    let mut handler = ConnectionHandler::new();
    let text = "gr\u{fc}\u{df}e \u{2603}";
    let buffer = buffer_with(text.as_bytes());
    let action = handler.on_read(&buffer, ReadOutcome::Filled(text.len()));
    assert_eq!(action, HandlerAction::Forward(String::from(text)));
}

#[test]
fn invalid_bytes_are_substituted_not_rejected() {
    let mut handler = ConnectionHandler::new();
    let buffer = buffer_with(&[b'f', 0xff, b'o']);
    let action = handler.on_read(&buffer, ReadOutcome::Filled(3));
    assert_eq!(action, HandlerAction::Forward(String::from("f\u{fffd}o")));
    assert_eq!(handler.phase(), HandlerPhase::Open);
    let next = handler.on_read(&buffer_with(b"ok"), ReadOutcome::Filled(2));
    assert_eq!(next, HandlerAction::Forward(String::from("ok")));
}

#[test]
fn split_character_is_substituted_in_both_chunks() {
    let mut handler = ConnectionHandler::new();
    let snowman = "\u{2603}".as_bytes();
    let first = handler.on_read(&buffer_with(&snowman[..2]), ReadOutcome::Filled(2));
    let second = handler.on_read(&buffer_with(&snowman[2..]), ReadOutcome::Filled(1));
    assert_eq!(first, HandlerAction::Forward(String::from("\u{fffd}")));
    assert_eq!(second, HandlerAction::Forward(String::from("\u{fffd}")));
    assert!(handler.is_open());
}

#[test]
fn read_failure_is_reported_and_ends_the_handler() {
    let mut handler = ConnectionHandler::new();
    let buffer = buffer_with(b"");
    let action = handler.on_read(&buffer, ReadOutcome::Failed);
    assert_eq!(action, HandlerAction::ReportFailure);
    assert_eq!(handler.phase(), HandlerPhase::Failed);
}

#[test]
fn ended_handler_stays_silent() {
    let buffer = buffer_with(b"late");
    let mut finished = ConnectionHandler::new();
    finished.on_read(&buffer, ReadOutcome::Filled(0));
    assert_eq!(finished.on_read(&buffer, ReadOutcome::Filled(4)), HandlerAction::Stopped);
    assert_eq!(finished.on_read(&buffer, ReadOutcome::Failed), HandlerAction::Stopped);
    assert_eq!(finished.phase(), HandlerPhase::Finished);

    let mut failed = ConnectionHandler::new();
    failed.on_read(&buffer, ReadOutcome::Failed);
    assert_eq!(failed.on_read(&buffer, ReadOutcome::Filled(0)), HandlerAction::Stopped);
    assert_eq!(failed.on_read(&buffer, ReadOutcome::Filled(4)), HandlerAction::Stopped);
    assert_eq!(failed.phase(), HandlerPhase::Failed);
}

#[test]
fn stream_is_forwarded_chunk_by_chunk_in_order() {
    let mut handler = ConnectionHandler::new();
    let chunks: [&[u8]; 3] = [b"one ", b"two ", b"three"];
    let mut seen = Vec::new();
    for chunk in chunks {
        match handler.on_read(&buffer_with(chunk), ReadOutcome::Filled(chunk.len())) {
            HandlerAction::Forward(text) => seen.push(text),
            other => panic!("not forwarded: {:?}", other),
        }
    }
    assert_eq!(handler.on_read(&buffer_with(b""), ReadOutcome::Filled(0)), HandlerAction::Finish);
    assert_eq!(seen, vec!["one ", "two ", "three"]);
    assert_eq!(seen.concat(), "one two three");
}

#[test]
fn interleaved_peers_are_each_observed_whole() {
    let streams: [Vec<&[u8]>; 3] = [
        vec![b"a1", b"a2", b"a3"],
        vec![b"b1"],
        vec![b"c1", b"c2"],
    ];
    let order = [0usize, 2, 1, 0, 1, 2, 0, 2, 0];
    let mut handlers =
        vec![ConnectionHandler::new(), ConnectionHandler::new(), ConnectionHandler::new()];
    let mut next = [0usize; 3];
    let mut output: Vec<(usize, String)> = Vec::new();
    for peer in order {
        let position = next[peer];
        next[peer] += 1;
        if position < streams[peer].len() {
            let chunk = streams[peer][position];
            match handlers[peer].on_read(&buffer_with(chunk), ReadOutcome::Filled(chunk.len())) {
                HandlerAction::Forward(text) => output.push((peer, text)),
                other => panic!("not forwarded: {:?}", other),
            }
        } else {
            let action = handlers[peer].on_read(&buffer_with(b""), ReadOutcome::Filled(0));
            assert_eq!(action, HandlerAction::Finish);
        }
    }
    for peer in 0..3 {
        let seen: Vec<&str> =
            output.iter().filter(|entry| entry.0 == peer).map(|entry| entry.1.as_str()).collect();
        let sent: Vec<&str> =
            streams[peer].iter().map(|chunk| std::str::from_utf8(chunk).unwrap()).collect();
        assert_eq!(seen, sent);
        assert_eq!(handlers[peer].phase(), HandlerPhase::Finished);
    }
}

#[test]
fn closure_of_one_peer_leaves_the_others_open() {
    let mut first = ConnectionHandler::new();
    let mut second = ConnectionHandler::new();
    assert_eq!(first.on_read(&buffer_with(b""), ReadOutcome::Filled(0)), HandlerAction::Finish);
    assert!(second.is_open());
    assert_eq!(
        second.on_read(&buffer_with(b"still here"), ReadOutcome::Filled(10)),
        HandlerAction::Forward(String::from("still here"))
    );
    assert_eq!(first.phase(), HandlerPhase::Finished);
}

#[test]
fn failure_of_one_peer_leaves_the_others_open() {
    let mut first = ConnectionHandler::new();
    let mut second = ConnectionHandler::new();
    assert_eq!(first.on_read(&buffer_with(b""), ReadOutcome::Failed), HandlerAction::ReportFailure);
    assert_eq!(
        second.on_read(&buffer_with(b"fine"), ReadOutcome::Filled(4)),
        HandlerAction::Forward(String::from("fine"))
    );
    assert!(second.is_open());
}
