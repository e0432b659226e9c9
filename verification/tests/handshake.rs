use chat_relay::channel::new_channel;
use chat_relay::frame::{CloseFrame, Frame};
use chat_relay::handshake::{await_identity, handle_socket, Arrival, Handshake, Session, DEADLINE_SECS};

fn timeout_close() -> CloseFrame {
    CloseFrame { code: 3008, reason: "no user in 2 secs".to_string() }
}

fn unsupported_close() -> CloseFrame {
    CloseFrame { code: 1003, reason: "expected a `text` message".to_string() }
}

#[test]
fn deadline_is_two_seconds() {
    assert_eq!(DEADLINE_SECS, 2);
}

#[test]
fn silence_is_closed_with_the_timeout_code() {
    assert_eq!(await_identity(Arrival::Elapsed), Handshake::Rejected(timeout_close()));
}

#[test]
fn binary_first_message_is_closed_as_unsupported() {
    let outcome = await_identity(Arrival::Frame(Frame::Binary(vec![0xff, 0x00])));
    assert_eq!(outcome, Handshake::Rejected(unsupported_close()));
}

#[test]
fn binary_first_message_is_refused_even_when_it_reads_as_text() {
    let outcome = await_identity(Arrival::Frame(Frame::Binary(b"alice".to_vec())));
    assert_eq!(outcome, Handshake::Rejected(unsupported_close()));
}

#[test]
fn control_frames_are_no_identity() {
    for frame in [
        Frame::Ping(b"alice".to_vec()),
        Frame::Pong(Vec::new()),
        Frame::Close(None),
        Frame::Close(Some(CloseFrame { code: 1000, reason: "alice".to_string() })),
    ] {
        assert_eq!(await_identity(Arrival::Frame(frame)), Handshake::Rejected(unsupported_close()));
    }
}

#[test]
fn lost_stream_is_abandoned() {
    assert_eq!(await_identity(Arrival::Ended), Handshake::Abandoned);
    assert_eq!(await_identity(Arrival::Failed), Handshake::Abandoned);
}

#[test]
fn text_is_taken_as_the_identity() {
    let outcome = await_identity(Arrival::Frame(Frame::Text("alice".to_string())));
    assert_eq!(outcome, Handshake::Accepted("alice".to_string()));
}

#[test]
fn empty_and_odd_names_are_accepted() {
    assert_eq!(
        await_identity(Arrival::Frame(Frame::Text(String::new()))),
        Handshake::Accepted(String::new())
    );
    assert_eq!(
        await_identity(Arrival::Frame(Frame::Text("  a: b\n".to_string()))),
        Handshake::Accepted("  a: b\n".to_string())
    );
}

#[test]
fn accepted_peer_is_subscribed() {
    let channel = new_channel();
    assert_eq!(channel.receiver_count(), 0);
    let session = handle_socket(&channel, Arrival::Frame(Frame::Text("alice".to_string())));
    match session {
        Session::Started { user, mut feed } => {
            assert_eq!(user, "alice");
            assert_eq!(channel.receiver_count(), 1);
            channel.send("x: y".to_string()).unwrap();
            assert_eq!(feed.try_recv().unwrap(), "x: y");
        }
        other => panic!("not started: {:?}", other),
    }
}

#[test]
fn subscription_starts_at_the_handshake() {
    let channel = new_channel();
    let _early = channel.subscribe();
    channel.send("before".to_string()).unwrap();
    let session = handle_socket(&channel, Arrival::Frame(Frame::Text("bob".to_string())));
    channel.send("after".to_string()).unwrap();
    match session {
        Session::Started { mut feed, .. } => {
            assert_eq!(feed.try_recv().unwrap(), "after");
            assert!(feed.try_recv().is_err());
        }
        other => panic!("not started: {:?}", other),
    }
}

#[test]
fn timed_out_peer_starts_nothing() {
    let channel = new_channel();
    let session = handle_socket(&channel, Arrival::Elapsed);
    assert!(matches!(session, Session::Closed(ref close) if *close == timeout_close()));
    assert_eq!(channel.receiver_count(), 0);
}

#[test]
fn binary_peer_starts_nothing() {
    let channel = new_channel();
    let session = handle_socket(&channel, Arrival::Frame(Frame::Binary(vec![1])));
    assert!(matches!(session, Session::Closed(ref close) if *close == unsupported_close()));
    assert_eq!(channel.receiver_count(), 0);
}

#[test]
fn lost_peer_starts_nothing() {
    let channel = new_channel();
    assert!(matches!(handle_socket(&channel, Arrival::Ended), Session::Abandoned));
    assert!(matches!(handle_socket(&channel, Arrival::Failed), Session::Abandoned));
    assert_eq!(channel.receiver_count(), 0);
}

#[test]
fn same_name_twice_is_accepted() {
    let channel = new_channel();
    let first = handle_socket(&channel, Arrival::Frame(Frame::Text("sam".to_string())));
    let second = handle_socket(&channel, Arrival::Frame(Frame::Text("sam".to_string())));
    assert!(matches!(first, Session::Started { ref user, .. } if user == "sam"));
    assert!(matches!(second, Session::Started { ref user, .. } if user == "sam"));
    assert_eq!(channel.receiver_count(), 2);
}

#[test]
fn accepted_peer_hears_the_channel_it_was_given() {
    let channel = new_channel();
    let other = new_channel();
    let _listener_elsewhere = other.subscribe();
    let session = handle_socket(&channel, Arrival::Frame(Frame::Text("alice".to_string())));
    assert_eq!(channel.receiver_count(), 1);
    assert_eq!(other.receiver_count(), 1);
    other.send("elsewhere".to_string()).unwrap();
    channel.send("here".to_string()).unwrap();
    match session {
        Session::Started { mut feed, .. } => {
            assert_eq!(feed.try_recv().unwrap(), "here");
            assert!(feed.try_recv().is_err());
        }
        other => panic!("not started: {:?}", other),
    }
}
