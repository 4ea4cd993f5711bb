use hackchat::ChatEvent;
use hackchat::Frame;
use hackchat::Session;
use hackchat::StreamStep;

fn bot_session() -> Session {
    let (session, _join) = Session::open("Bot", "botDev");
    session
}

#[test]
fn open_emits_one_join_frame() {
    let (session, join) = Session::open("TestBot", "botDev");
    assert_eq!(join, r#"{"channel":"botDev","cmd":"join","nick":"TestBot"}"#);
    assert_eq!(session.nick(), "TestBot");
    assert_eq!(session.channel(), "botDev");
}

#[test]
fn chat_frame_is_one_chat_packet() {
    let session = bot_session();
    assert_eq!(session.chat_frame("hello"), r#"{"cmd":"chat","text":"hello"}"#);
}

#[test]
fn stats_frame_is_one_stats_packet() {
    let session = bot_session();
    assert_eq!(session.stats_frame(), r#"{"cmd":"stats"}"#);
}

#[test]
fn ping_frame_is_one_ping_packet() {
    // A keepalive task sends exactly this text once per period.
    let session = bot_session();
    assert_eq!(session.ping_frame(), r#"{"cmd":"ping"}"#);
}

#[test]
fn open_with_empty_identity() {
    let (session, join) = Session::open("", "");
    assert_eq!(join, r#"{"channel":"","cmd":"join","nick":""}"#);
    assert_eq!(session.nick(), "");
    assert_eq!(session.channel(), "");
}

#[test]
fn empty_ping_gets_empty_pong() {
    let session = bot_session();
    let step = session.handle_frame(Frame::Ping(Vec::new()));
    assert!(matches!(step, StreamStep::Pong(ref p) if p.is_empty()));
}

#[test]
fn online_add_yields_join_room() {
    let session = bot_session();
    let step = session.handle_frame(Frame::Text(
        r#"{"cmd":"onlineAdd","nick":"Dan"}"#.to_string(),
    ));
    assert!(matches!(
        step,
        StreamStep::Yield(ChatEvent::JoinRoom(ref nick)) if nick == "Dan"
    ));
}

#[test]
fn online_remove_yields_leave_room() {
    let session = bot_session();
    let step = session.handle_frame(Frame::Text(
        r#"{"cmd":"onlineRemove","nick":"Dan"}"#.to_string(),
    ));
    assert!(matches!(
        step,
        StreamStep::Yield(ChatEvent::LeaveRoom(ref nick)) if nick == "Dan"
    ));
}

#[test]
fn info_yields_info_event() {
    let session = bot_session();
    let step = session.handle_frame(Frame::Text(
        r#"{"cmd":"info","text":"2 IPs, 1 channel"}"#.to_string(),
    ));
    assert!(matches!(
        step,
        StreamStep::Yield(ChatEvent::Info(ref text)) if text == "2 IPs, 1 channel"
    ));
}

#[test]
fn chat_from_other_yields_message() {
    let session = bot_session();
    let step = session.handle_frame(Frame::Text(
        r#"{"cmd":"chat","nick":"Dan","text":"hi","trip":"abc123"}"#.to_string(),
    ));
    match step {
        StreamStep::Yield(ChatEvent::Message(nick, text, trip)) => {
            assert_eq!(nick, "Dan");
            assert_eq!(text, "hi");
            assert_eq!(trip, "abc123");
        }
        _ => panic!("expected a message event"),
    }
}

#[test]
fn chat_without_trip_defaults_to_empty() {
    let session = bot_session();
    let step = session.handle_frame(Frame::Text(
        r#"{"cmd":"chat","nick":"Dan","text":"hi"}"#.to_string(),
    ));
    match step {
        StreamStep::Yield(ChatEvent::Message(_, _, trip)) => assert_eq!(trip, ""),
        _ => panic!("expected a message event"),
    }
}

#[test]
fn own_chat_is_suppressed() {
    let session = bot_session();
    let step = session.handle_frame(Frame::Text(
        r#"{"cmd":"chat","nick":"Bot","text":"hi"}"#.to_string(),
    ));
    assert!(matches!(step, StreamStep::Skip));
}

#[test]
fn ping_frame_gets_matching_pong() {
    let session = bot_session();
    let payload = vec![1u8, 2, 3];
    let step = session.handle_frame(Frame::Ping(payload.clone()));
    assert!(matches!(step, StreamStep::Pong(ref p) if *p == payload));
}

#[test]
fn unhandled_frame_kind_ends_stream() {
    let session = bot_session();
    assert!(matches!(session.handle_frame(Frame::Other), StreamStep::End));
}

#[test]
fn malformed_text_is_skipped_not_fatal() {
    let session = bot_session();
    let step = session.handle_frame(Frame::Text("%%% not json %%%".to_string()));
    assert!(matches!(step, StreamStep::Skip));
    // The stream carries on: the next well-formed frame still yields.
    let step = session.handle_frame(Frame::Text(
        r#"{"cmd":"onlineAdd","nick":"Dan"}"#.to_string(),
    ));
    assert!(matches!(
        step,
        StreamStep::Yield(ChatEvent::JoinRoom(ref nick)) if nick == "Dan"
    ));
}

#[test]
fn unknown_cmd_is_skipped_not_fatal() {
    let session = bot_session();
    let step = session.handle_frame(Frame::Text(
        r#"{"cmd":"emote","nick":"Dan","text":"waves"}"#.to_string(),
    ));
    assert!(matches!(step, StreamStep::Skip));
    let step = session.handle_frame(Frame::Text(
        r#"{"cmd":"chat","nick":"Dan","text":"still here"}"#.to_string(),
    ));
    assert!(matches!(
        step,
        StreamStep::Yield(ChatEvent::Message(ref nick, ref text, _))
            if nick == "Dan" && text == "still here"
    ));
}
