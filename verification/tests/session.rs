use chat_session::heartbeat::{CLIENT_TIMEOUT, HEARTBEAT_INTERVAL};
use chat_session::session::{
    ChatMessageToClient, CloseReason, Frame, OutFrame, ProtocolError, RouterRequest,
    RouterUnreachable, Step, WsChatSession,
};

fn fresh() -> WsChatSession {
    WsChatSession::new(1, 0)
}

fn no_op() -> Step {
    Step { reply: None, request: None, stop: false }
}

#[test]
fn new_session_has_no_room() {
    let s = fresh();
    assert_eq!(s.user_id, 1);
    assert_eq!(s.hb, 0);
    assert_eq!(s.chat_id_and_other_user_id, None);
}

#[test]
fn started_registers_with_the_router() {
    let s = fresh();
    assert_eq!(s.started(), RouterRequest::Connect { user_id: 1 });
}

#[test]
fn stopping_notifies_the_router() {
    let s = fresh();
    assert_eq!(s.stopping(), RouterRequest::Disconnect { user_id: 1 });
}

#[test]
fn connect_reply_ok_greets_the_client() {
    let s = fresh();
    let step = s.handle_connect_reply(Ok(()));
    assert_eq!(step.reply, Some(OutFrame::Text("hello".to_string())));
    assert_eq!(step.request, None);
    assert!(!step.stop);
}

#[test]
fn connect_reply_failure_stops_the_session() {
    let s = fresh();
    let step = s.handle_connect_reply(Err(RouterUnreachable));
    assert_eq!(step, Step { reply: None, request: None, stop: true });
}

#[test]
fn ping_updates_heartbeat_and_pongs_back() {
    let mut s = fresh();
    let step = s.handle(3, Ok(Frame::Ping(vec![1, 2])));
    assert_eq!(s.hb, 3);
    assert_eq!(step.reply, Some(OutFrame::Pong(vec![1, 2])));
    assert_eq!(step.request, None);
    assert!(!step.stop);
}

#[test]
fn pong_updates_heartbeat_only() {
    let mut s = fresh();
    let step = s.handle(4, Ok(Frame::Pong(vec![])));
    assert_eq!(s.hb, 4);
    assert_eq!(step, no_op());
}

#[test]
fn repeated_pongs_only_move_the_heartbeat() {
    let mut s = fresh();
    let room_before = s.chat_id_and_other_user_id;
    let step1 = s.handle(2, Ok(Frame::Pong(vec![])));
    let step2 = s.handle(5, Ok(Frame::Pong(vec![])));
    let step3 = s.handle(5, Ok(Frame::Pong(vec![])));
    assert_eq!(step1, no_op());
    assert_eq!(step2, no_op());
    assert_eq!(step3, no_op());
    assert_eq!(s.hb, 5);
    assert_eq!(s.user_id, 1);
    assert_eq!(s.chat_id_and_other_user_id, room_before);
}

#[test]
fn join_command_asks_the_router() {
    let mut s = fresh();
    let step = s.handle(0, Ok(Frame::Text("/join 7".to_string())));
    assert_eq!(step.request, Some(RouterRequest::Join { user_id: 1, chat_id: 7 }));
    assert_eq!(step.reply, None);
    assert!(!step.stop);
    // the room is set only by the router's reply
    assert_eq!(s.chat_id_and_other_user_id, None);
}

#[test]
fn join_reply_success_sets_the_room_and_confirms() {
    let mut s = fresh();
    let step = s.handle_join_reply(7, Ok(Ok(2)));
    assert_eq!(s.chat_id_and_other_user_id, Some((7, 2)));
    assert_eq!(step.reply, Some(OutFrame::Text("Joined chat id 7".to_string())));
    assert_eq!(step.request, None);
    assert!(!step.stop);
}

#[test]
fn join_reply_success_overwrites_an_earlier_room() {
    let mut s = fresh();
    s.handle_join_reply(7, Ok(Ok(2)));
    let step = s.handle_join_reply(9, Ok(Ok(5)));
    assert_eq!(s.chat_id_and_other_user_id, Some((9, 5)));
    assert_eq!(step.reply, Some(OutFrame::Text("Joined chat id 9".to_string())));
}

#[test]
fn join_reply_rejection_reports_the_reason() {
    let mut s = fresh();
    let step = s.handle_join_reply(7, Ok(Err("room is full".to_string())));
    assert_eq!(s.chat_id_and_other_user_id, None);
    assert_eq!(
        step.reply,
        Some(OutFrame::Text(
            "Failed to join chat. Error message: room is full".to_string()
        ))
    );
    assert_eq!(step.request, None);
    assert!(!step.stop);
}

#[test]
fn join_reply_transport_failure_is_generic() {
    let mut s = fresh();
    let step = s.handle_join_reply(7, Err(RouterUnreachable));
    assert_eq!(s.chat_id_and_other_user_id, None);
    assert_eq!(step.reply, Some(OutFrame::Text("Something went wrong".to_string())));
    assert!(!step.stop);
}

#[test]
fn invalid_chat_id_is_reported_without_the_router() {
    let mut s = fresh();
    let step = s.handle(0, Ok(Frame::Text("/join abc".to_string())));
    assert_eq!(step.reply, Some(OutFrame::Text("Invalid chat id: abc".to_string())));
    assert_eq!(step.request, None);
    assert!(!step.stop);
    assert_eq!(s.chat_id_and_other_user_id, None);
}

#[test]
fn unknown_command_is_echoed() {
    let mut s = fresh();
    let step = s.handle(0, Ok(Frame::Text("  /leave now  ".to_string())));
    assert_eq!(step.reply, Some(OutFrame::Text("Unknown command: /leave now".to_string())));
    assert_eq!(step.request, None);
    assert!(!step.stop);
}

#[test]
fn plain_text_without_room_is_refused() {
    let mut s = fresh();
    let step = s.handle(0, Ok(Frame::Text("hi there".to_string())));
    assert_eq!(
        step.reply,
        Some(OutFrame::Text("You are not part of any chat group".to_string()))
    );
    assert_eq!(step.request, None);
    assert!(!step.stop);
}

#[test]
fn plain_text_with_room_is_relayed_trimmed() {
    let mut s = fresh();
    s.handle_join_reply(7, Ok(Ok(2)));
    let step = s.handle(0, Ok(Frame::Text("  hi there  ".to_string())));
    assert_eq!(step.reply, None);
    assert_eq!(
        step.request,
        Some(RouterRequest::ChatMessage {
            sender_id: 1,
            receiver_id: 2,
            chat_id: 7,
            content: "hi there".to_string(),
        })
    );
    assert!(!step.stop);
}

#[test]
fn relay_reply_is_silent_on_success() {
    let s = fresh();
    assert_eq!(s.handle_relay_reply(Ok(())), no_op());
}

#[test]
fn relay_reply_failure_is_generic() {
    let s = fresh();
    let step = s.handle_relay_reply(Err(RouterUnreachable));
    assert_eq!(step.reply, Some(OutFrame::Text("Something went wrong".to_string())));
    assert_eq!(step.request, None);
    assert!(!step.stop);
}

#[test]
fn close_frame_echoes_the_reason_and_stops() {
    let mut s = fresh();
    let reason = Some(CloseReason { code: 1000, description: Some("bye".to_string()) });
    let step = s.handle(0, Ok(Frame::Close(reason.clone())));
    assert_eq!(step.reply, Some(OutFrame::Close(reason)));
    assert_eq!(step.request, None);
    assert!(step.stop);
}

#[test]
fn close_frame_without_reason_stops_too() {
    let mut s = fresh();
    let step = s.handle(0, Ok(Frame::Close(None)));
    assert_eq!(step.reply, Some(OutFrame::Close(None)));
    assert!(step.stop);
}

#[test]
fn continuation_frame_stops_the_session() {
    let mut s = fresh();
    let step = s.handle(0, Ok(Frame::Continuation));
    assert_eq!(step, Step { reply: None, request: None, stop: true });
}

#[test]
fn binary_frame_is_ignored() {
    let mut s = fresh();
    let step = s.handle(0, Ok(Frame::Binary(vec![9, 9])));
    assert_eq!(step, no_op());
    assert_eq!(s.hb, 0);
}

#[test]
fn nop_frame_does_nothing() {
    let mut s = fresh();
    assert_eq!(s.handle(0, Ok(Frame::Nop)), no_op());
}

#[test]
fn protocol_error_stops_the_session() {
    let mut s = fresh();
    let step = s.handle(0, Err(ProtocolError));
    assert_eq!(step, Step { reply: None, request: None, stop: true });
}

#[test]
fn heartbeat_pings_within_the_window() {
    let s = fresh();
    let step = s.heartbeat_tick(HEARTBEAT_INTERVAL);
    assert_eq!(step.reply, Some(OutFrame::Ping(b"hi".to_vec())));
    assert_eq!(step.request, None);
    assert!(!step.stop);
    // silence of exactly the timeout still pings: termination needs more
    let step = s.heartbeat_tick(CLIENT_TIMEOUT);
    assert!(!step.stop);
    assert_eq!(step.reply, Some(OutFrame::Ping(b"hi".to_vec())));
}

#[test]
fn heartbeat_timeout_stops_without_a_ping() {
    let s = fresh();
    let step = s.heartbeat_tick(CLIENT_TIMEOUT + 1);
    assert!(step.stop);
    assert_eq!(step.reply, None);
    assert_eq!(step.request, None);
}

#[test]
fn heartbeat_window_follows_the_last_signal() {
    let mut s = fresh();
    s.handle(8, Ok(Frame::Pong(vec![])));
    assert!(!s.heartbeat_tick(15).stop);
    assert!(s.heartbeat_tick(19).stop);
}

#[test]
fn deliver_forwards_verbatim() {
    let s = fresh();
    let step = s.deliver(ChatMessageToClient("  raw text /join ".to_string()));
    assert_eq!(step.reply, Some(OutFrame::Text("  raw text /join ".to_string())));
    assert_eq!(step.request, None);
    assert!(!step.stop);
}
