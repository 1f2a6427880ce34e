//! Session state machine: one instance per client connection.
//!
//! Every event a session can see — an inbound transport frame, a heartbeat
//! tick, a router reply, a relayed chat message — is handled by a method
//! that returns a [`Step`]: the reply frame for the client, the request for
//! the router, and whether the session stops.  The spec functions
//! ([`frame_step`], [`tick_step`], [`join_reply_step`], ...) state each
//! transition exactly, and every handler's contract says it implements its
//! spec function.

use vstd::prelude::*;

use crate::command::{classify, parse_command, Command, TextClass};
use crate::heartbeat::{make_ping_payload, ping_payload, timed_out, CLIENT_TIMEOUT};
use crate::text::{spec_decimal, usize_to_string};

verus! {

/// Per-connection session state.
///
/// `user_id` is assigned by the caller before the session exists; `hb` is
/// the time-unit of the most recent liveness signal and only ever
/// increases; `chat_id_and_other_user_id` is the joined room and the peer
/// in it, present only after a successful join reply.
#[derive(Debug, Clone, PartialEq)]
pub struct WsChatSession {
    pub user_id: usize,
    pub hb: u64,
    pub chat_id_and_other_user_id: Option<(usize, usize)>,
}

/// Chat content the router pushes to a session, to be forwarded verbatim
/// to the client.
#[derive(Debug, Clone, PartialEq)]
pub struct ChatMessageToClient(pub String);

/// A transport-level protocol error on the inbound stream.
#[derive(Debug, Clone, PartialEq)]
pub struct ProtocolError;

/// The router could not be reached: the request was never delivered or the
/// router process is gone.
#[derive(Debug, Clone, PartialEq)]
pub struct RouterUnreachable;

/// Close code and optional description echoed back to the client.
#[derive(Debug, Clone, PartialEq)]
pub struct CloseReason {
    pub code: u16,
    pub description: Option<String>,
}

/// An inbound, already-decoded WebSocket frame.
#[derive(Debug, Clone, PartialEq)]
pub enum Frame {
    Ping(Vec<u8>),
    Pong(Vec<u8>),
    Text(String),
    Binary(Vec<u8>),
    Close(Option<CloseReason>),
    Continuation,
    Nop,
}

/// An outbound frame for the client.
#[derive(Debug, Clone, PartialEq)]
pub enum OutFrame {
    Text(String),
    Ping(Vec<u8>),
    Pong(Vec<u8>),
    Close(Option<CloseReason>),
}

/// An asynchronous request for the router.
#[derive(Debug, Clone, PartialEq)]
pub enum RouterRequest {
    Connect { user_id: usize },
    Join { user_id: usize, chat_id: usize },
    ChatMessage { sender_id: usize, receiver_id: usize, chat_id: usize, content: String },
    Disconnect { user_id: usize },
}

/// Everything one event makes the session do: at most one reply to the
/// client, at most one request to the router, and whether to stop.
#[derive(Debug, Clone, PartialEq)]
pub struct Step {
    pub reply: Option<OutFrame>,
    pub request: Option<RouterRequest>,
    pub stop: bool,
}

/// Mathematical model of the session state.
pub ghost struct SessionView {
    pub user_id: nat,
    pub hb: nat,
    pub room: Option<(nat, nat)>,
}

/// Model of a close reason.
pub ghost struct CloseReasonView {
    pub code: nat,
    pub description: Option<Seq<char>>,
}

/// Model of an inbound frame.
pub ghost enum FrameView {
    Ping(Seq<u8>),
    Pong(Seq<u8>),
    Text(Seq<char>),
    Binary(Seq<u8>),
    Close(Option<CloseReasonView>),
    Continuation,
    Nop,
}

/// Model of an outbound frame.
pub ghost enum OutFrameView {
    Text(Seq<char>),
    Ping(Seq<u8>),
    Pong(Seq<u8>),
    Close(Option<CloseReasonView>),
}

/// Model of a router request.
pub ghost enum RouterRequestView {
    Connect { user_id: nat },
    Join { user_id: nat, chat_id: nat },
    ChatMessage { sender_id: nat, receiver_id: nat, chat_id: nat, content: Seq<char> },
    Disconnect { user_id: nat },
}

/// Model of a step.
pub ghost struct StepView {
    pub reply: Option<OutFrameView>,
    pub request: Option<RouterRequestView>,
    pub stop: bool,
}

impl View for WsChatSession {
    type V = SessionView;

    open spec fn view(&self) -> SessionView {
        SessionView {
            user_id: self.user_id as nat,
            hb: self.hb as nat,
            room: match self.chat_id_and_other_user_id {
                Some((c, u)) => Some((c as nat, u as nat)),
                None => None,
            },
        }
    }
}

impl View for ChatMessageToClient {
    type V = Seq<char>;

    open spec fn view(&self) -> Seq<char> {
        self.0@
    }
}

impl View for CloseReason {
    type V = CloseReasonView;

    open spec fn view(&self) -> CloseReasonView {
        CloseReasonView {
            code: self.code as nat,
            description: match self.description {
                Some(d) => Some(d@),
                None => None,
            },
        }
    }
}

impl View for Frame {
    type V = FrameView;

    open spec fn view(&self) -> FrameView {
        match self {
            Frame::Ping(p) => FrameView::Ping(p@),
            Frame::Pong(p) => FrameView::Pong(p@),
            Frame::Text(t) => FrameView::Text(t@),
            Frame::Binary(b) => FrameView::Binary(b@),
            Frame::Close(Some(r)) => FrameView::Close(Some(r@)),
            Frame::Close(None) => FrameView::Close(None),
            Frame::Continuation => FrameView::Continuation,
            Frame::Nop => FrameView::Nop,
        }
    }
}

impl View for OutFrame {
    type V = OutFrameView;

    open spec fn view(&self) -> OutFrameView {
        match self {
            OutFrame::Text(t) => OutFrameView::Text(t@),
            OutFrame::Ping(p) => OutFrameView::Ping(p@),
            OutFrame::Pong(p) => OutFrameView::Pong(p@),
            OutFrame::Close(Some(r)) => OutFrameView::Close(Some(r@)),
            OutFrame::Close(None) => OutFrameView::Close(None),
        }
    }
}

impl View for RouterRequest {
    type V = RouterRequestView;

    open spec fn view(&self) -> RouterRequestView {
        match self {
            RouterRequest::Connect { user_id } => RouterRequestView::Connect {
                user_id: *user_id as nat,
            },
            RouterRequest::Join { user_id, chat_id } => RouterRequestView::Join {
                user_id: *user_id as nat,
                chat_id: *chat_id as nat,
            },
            RouterRequest::ChatMessage {
                sender_id,
                receiver_id,
                chat_id,
                content,
            } => RouterRequestView::ChatMessage {
                sender_id: *sender_id as nat,
                receiver_id: *receiver_id as nat,
                chat_id: *chat_id as nat,
                content: content@,
            },
            RouterRequest::Disconnect { user_id } => RouterRequestView::Disconnect {
                user_id: *user_id as nat,
            },
        }
    }
}

impl View for Step {
    type V = StepView;

    open spec fn view(&self) -> StepView {
        StepView {
            reply: match self.reply {
                Some(f) => Some(f@),
                None => None,
            },
            request: match self.request {
                Some(r) => Some(r@),
                None => None,
            },
            stop: self.stop,
        }
    }
}

/// A step that does nothing.
pub open spec fn empty_step() -> StepView {
    StepView { reply: None, request: None, stop: false }
}

/// A step that only stops the session.
pub open spec fn stop_step() -> StepView {
    StepView { reply: None, request: None, stop: true }
}

/// A step that only replies to the client.
pub open spec fn reply_step(out: OutFrameView) -> StepView {
    StepView { reply: Some(out), request: None, stop: false }
}

/// A step that only sends a request to the router.
pub open spec fn request_step(req: RouterRequestView) -> StepView {
    StepView { reply: None, request: Some(req), stop: false }
}

/// What one line of inbound text makes the session do.  The state never
/// changes here: a join only becomes effective on the router's reply.
pub open spec fn text_step(s: SessionView, raw: Seq<char>) -> StepView {
    match classify(raw) {
        TextClass::Join { chat_id } => request_step(
            RouterRequestView::Join { user_id: s.user_id, chat_id },
        ),
        TextClass::JoinBare => empty_step(),
        TextClass::InvalidJoin { rest } => reply_step(
            OutFrameView::Text("Invalid chat id: "@ + rest),
        ),
        TextClass::Unknown { trimmed } => reply_step(
            OutFrameView::Text("Unknown command: "@ + trimmed),
        ),
        TextClass::Plain { trimmed } => match s.room {
            Some(room) => request_step(
                RouterRequestView::ChatMessage {
                    sender_id: s.user_id,
                    receiver_id: room.1,
                    chat_id: room.0,
                    content: trimmed,
                },
            ),
            None => reply_step(OutFrameView::Text("You are not part of any chat group"@)),
        },
    }
}

/// What one inbound transport event does to the session: the new state and
/// the step.  Only ping and pong move the heartbeat timestamp; only close,
/// continuation and a protocol error stop the session.
pub open spec fn frame_step(s: SessionView, now: nat, msg: Result<FrameView, ()>) -> (
    SessionView,
    StepView,
) {
    match msg {
        Err(()) => (s, stop_step()),
        Ok(f) => match f {
            FrameView::Ping(p) => (
                SessionView { user_id: s.user_id, hb: now, room: s.room },
                reply_step(OutFrameView::Pong(p)),
            ),
            FrameView::Pong(_) => (
                SessionView { user_id: s.user_id, hb: now, room: s.room },
                empty_step(),
            ),
            FrameView::Text(t) => (s, text_step(s, t)),
            FrameView::Binary(_) => (s, empty_step()),
            FrameView::Close(r) => (
                s,
                StepView { reply: Some(OutFrameView::Close(r)), request: None, stop: true },
            ),
            FrameView::Continuation => (s, stop_step()),
            FrameView::Nop => (s, empty_step()),
        },
    }
}

/// What the router's join reply does: on success the room is set to the
/// joined room and the peer it carries; on any failure the state is left
/// unchanged and the client is told why.
pub open spec fn join_reply_step(
    s: SessionView,
    chat_id: nat,
    res: Result<Result<nat, Seq<char>>, ()>,
) -> (SessionView, StepView) {
    match res {
        Ok(Ok(peer)) => (
            SessionView { user_id: s.user_id, hb: s.hb, room: Some((chat_id, peer)) },
            reply_step(OutFrameView::Text("Joined chat id "@ + spec_decimal(chat_id))),
        ),
        Ok(Err(m)) => (
            s,
            reply_step(OutFrameView::Text("Failed to join chat. Error message: "@ + m)),
        ),
        Err(()) => (s, reply_step(OutFrameView::Text("Something went wrong"@))),
    }
}

/// What the router's relay reply does: silence on success, a generic error
/// text on failure; the state never changes.
pub open spec fn relay_reply_step(res: Result<(), ()>) -> StepView {
    match res {
        Ok(()) => empty_step(),
        Err(()) => reply_step(OutFrameView::Text("Something went wrong"@)),
    }
}

/// What the registration reply at startup does: a greeting on success,
/// termination on failure (the session cannot function unregistered).
pub open spec fn connect_reply_step(res: Result<(), ()>) -> StepView {
    match res {
        Ok(()) => reply_step(OutFrameView::Text("hello"@)),
        Err(()) => stop_step(),
    }
}

/// What a heartbeat tick does: terminate when the client has been silent
/// past the timeout — with no further ping — and ping it otherwise.
pub open spec fn tick_step(s: SessionView, now: nat) -> StepView {
    if timed_out(s.hb, now) {
        stop_step()
    } else {
        reply_step(OutFrameView::Ping(ping_payload()))
    }
}

/// What a router-originated chat message does: it is forwarded verbatim to
/// the client.
pub open spec fn deliver_step(text: Seq<char>) -> StepView {
    reply_step(OutFrameView::Text(text))
}

/// The inbound event as the spec functions see it: a transport error is
/// reduced to the fact that one happened.
pub open spec fn frame_msg_view(msg: Result<Frame, ProtocolError>) -> Result<FrameView, ()> {
    match msg {
        Ok(f) => Ok(f@),
        Err(_) => Err(()),
    }
}

/// The join reply as the spec functions see it.
pub open spec fn join_res_view(res: Result<Result<usize, String>, RouterUnreachable>) -> Result<
    Result<nat, Seq<char>>,
    (),
> {
    match res {
        Ok(Ok(peer)) => Ok(Ok(peer as nat)),
        Ok(Err(m)) => Ok(Err(m@)),
        Err(_) => Err(()),
    }
}

/// A unit-valued router reply as the spec functions see it.
pub open spec fn unit_res_view(res: Result<(), RouterUnreachable>) -> Result<(), ()> {
    match res {
        Ok(_) => Ok(()),
        Err(_) => Err(()),
    }
}

impl WsChatSession {
    /// A fresh session for `user_id`, with the liveness clock starting at
    /// `now` and no room joined.
    pub fn new(user_id: usize, now: u64) -> (s: Self)
        ensures
            s@ == (SessionView { user_id: user_id as nat, hb: now as nat, room: None }),
    {
        WsChatSession { user_id, hb: now, chat_id_and_other_user_id: None }
    }

    /// On start the session registers itself with the router.
    pub fn started(&self) -> (r: RouterRequest)
        ensures
            r@ == (RouterRequestView::Connect { user_id: self.user_id as nat }),
    {
        RouterRequest::Connect { user_id: self.user_id }
    }

    /// On stop, whatever the cause, the session sends the router a
    /// best-effort disconnect notice.
    pub fn stopping(&self) -> (r: RouterRequest)
        ensures
            r@ == (RouterRequestView::Disconnect { user_id: self.user_id as nat }),
    {
        RouterRequest::Disconnect { user_id: self.user_id }
    }

    /// Handles the reply to the registration request sent by [`Self::started`].
    pub fn handle_connect_reply(&self, res: Result<(), RouterUnreachable>) -> (r: Step)
        ensures
            r@ == connect_reply_step(unit_res_view(res)),
    {
        match res {
            Ok(_) => Step {
                reply: Some(OutFrame::Text(String::from_str("hello"))),
                request: None,
                stop: false,
            },
            Err(_) => Step { reply: None, request: None, stop: true },
        }
    }

    /// Handles one inbound transport event, exactly as [`frame_step`] says.
    ///
    /// `now` is the current time-unit and cannot lie before the last
    /// liveness signal.  A text frame whose trimmed content is exactly
    /// `/join` is not accepted.
    pub fn handle(&mut self, now: u64, msg: Result<Frame, ProtocolError>) -> (r: Step)
        requires
            old(self).hb <= now,
            msg matches Ok(Frame::Text(t)) ==> !(classify(t@) is JoinBare),
        ensures
            (final(self)@, r@) == frame_step(old(self)@, now as nat, frame_msg_view(msg)),
    {
        match msg {
            Err(_) => Step { reply: None, request: None, stop: true },
            Ok(frame) => match frame {
                Frame::Ping(p) => {
                    self.hb = now;
                    Step { reply: Some(OutFrame::Pong(p)), request: None, stop: false }
                },
                Frame::Pong(_) => {
                    self.hb = now;
                    Step { reply: None, request: None, stop: false }
                },
                Frame::Text(text) => self.handle_text(text.as_str()),
                Frame::Binary(_) => Step { reply: None, request: None, stop: false },
                Frame::Close(reason) => Step {
                    reply: Some(OutFrame::Close(reason)),
                    request: None,
                    stop: true,
                },
                Frame::Continuation => Step { reply: None, request: None, stop: true },
                Frame::Nop => Step { reply: None, request: None, stop: false },
            },
        }
    }

    /// Handles one line of inbound text, exactly as [`text_step`] says.
    pub fn handle_text(&self, text: &str) -> (r: Step)
        requires
            !(classify(text@) is JoinBare),
        ensures
            r@ == text_step(self@, text@),
    {
        match parse_command(text) {
            Command::Join(chat_id) => Step {
                reply: None,
                request: Some(RouterRequest::Join { user_id: self.user_id, chat_id }),
                stop: false,
            },
            Command::InvalidJoin(rest) => {
                let mut reply = String::from_str("Invalid chat id: ");
                reply.append(rest.as_str());
                Step { reply: Some(OutFrame::Text(reply)), request: None, stop: false }
            },
            Command::Unknown(trimmed) => {
                let mut reply = String::from_str("Unknown command: ");
                reply.append(trimmed.as_str());
                Step { reply: Some(OutFrame::Text(reply)), request: None, stop: false }
            },
            Command::Plain(trimmed) => match self.chat_id_and_other_user_id {
                Some((chat_id, other_user_id)) => Step {
                    reply: None,
                    request: Some(
                        RouterRequest::ChatMessage {
                            sender_id: self.user_id,
                            receiver_id: other_user_id,
                            chat_id,
                            content: trimmed,
                        },
                    ),
                    stop: false,
                },
                None => Step {
                    reply: Some(
                        OutFrame::Text(String::from_str("You are not part of any chat group")),
                    ),
                    request: None,
                    stop: false,
                },
            },
        }
    }

    /// Handles the router's reply to a join request for `chat_id`, exactly
    /// as [`join_reply_step`] says.
    pub fn handle_join_reply(
        &mut self,
        chat_id: usize,
        res: Result<Result<usize, String>, RouterUnreachable>,
    ) -> (r: Step)
        ensures
            (final(self)@, r@) == join_reply_step(old(self)@, chat_id as nat, join_res_view(res)),
    {
        match res {
            Ok(Ok(other_user_id)) => {
                self.chat_id_and_other_user_id = Some((chat_id, other_user_id));
                let mut reply = String::from_str("Joined chat id ");
                let rendered = usize_to_string(chat_id);
                reply.append(rendered.as_str());
                Step { reply: Some(OutFrame::Text(reply)), request: None, stop: false }
            },
            Ok(Err(err)) => {
                let mut reply = String::from_str("Failed to join chat. Error message: ");
                reply.append(err.as_str());
                Step { reply: Some(OutFrame::Text(reply)), request: None, stop: false }
            },
            Err(_) => Step {
                reply: Some(OutFrame::Text(String::from_str("Something went wrong"))),
                request: None,
                stop: false,
            },
        }
    }

    /// Handles the router's reply to a relayed chat message, exactly as
    /// [`relay_reply_step`] says.
    pub fn handle_relay_reply(&self, res: Result<(), RouterUnreachable>) -> (r: Step)
        ensures
            r@ == relay_reply_step(unit_res_view(res)),
    {
        match res {
            Ok(_) => Step { reply: None, request: None, stop: false },
            Err(_) => Step {
                reply: Some(OutFrame::Text(String::from_str("Something went wrong"))),
                request: None,
                stop: false,
            },
        }
    }

    /// One heartbeat tick at time `now`, exactly as [`tick_step`] says:
    /// stop when the client has been silent past [`CLIENT_TIMEOUT`], ping
    /// it otherwise.
    pub fn heartbeat_tick(&self, now: u64) -> (r: Step)
        requires
            self.hb <= now,
        ensures
            r@ == tick_step(self@, now as nat),
    {
        if now - self.hb > CLIENT_TIMEOUT {
            Step { reply: None, request: None, stop: true }
        } else {
            Step { reply: Some(OutFrame::Ping(make_ping_payload())), request: None, stop: false }
        }
    }

    /// Forwards a router-originated chat message verbatim to the client,
    /// exactly as [`deliver_step`] says.
    pub fn deliver(&self, msg: ChatMessageToClient) -> (r: Step)
        ensures
            r@ == deliver_step(msg@),
    {
        Step { reply: Some(OutFrame::Text(msg.0)), request: None, stop: false }
    }
}

} // verus!
