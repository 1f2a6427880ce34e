//! The behavioural laws of the session, each stated over the spec
//! transition functions that the handlers' contracts tie them to.

use vstd::prelude::*;

use crate::command::{classify, TextClass};
use crate::heartbeat::{ping_payload, timed_out, CLIENT_TIMEOUT};
use crate::session::{
    empty_step, frame_step, join_reply_step, relay_reply_step, reply_step, stop_step, tick_step,
    CloseReasonView, FrameView, OutFrameView, RouterRequestView, SessionView,
};
use crate::text::{is_usize_string, is_ws_char, lemma_first_space, lemma_trim_id, spec_decimal};

verus! {

/// A `/join` line, answered by the router with a peer, asks the router to
/// join exactly that room and nothing else; the reply then sets the room to
/// the joined pair and tells the client exactly `Joined chat id <roomId>`.
pub proof fn lemma_join_success(
    s: SessionView,
    now: nat,
    raw: Seq<char>,
    chat_id: nat,
    peer: nat,
)
    requires
        classify(raw) == (TextClass::Join { chat_id }),
    ensures
        ({
            let (s1, step1) = frame_step(s, now, Ok(FrameView::Text(raw)));
            let (s2, step2) = join_reply_step(s1, chat_id, Ok(Ok(peer)));
            &&& s1 == s
            &&& step1.reply is None
            &&& !step1.stop
            &&& step1.request == Some(RouterRequestView::Join { user_id: s.user_id, chat_id })
            &&& s2 == (SessionView { user_id: s.user_id, hb: s.hb, room: Some((chat_id, peer)) })
            &&& step2.reply == Some(
                OutFrameView::Text("Joined chat id "@ + spec_decimal(chat_id)),
            )
            &&& step2.request is None
            &&& !step2.stop
        }),
{
}

/// A `/join` line whose argument is not a well-formed room id never reaches
/// the router and yields exactly `Invalid chat id: <argument>`, with the
/// session state untouched.  The argument is anything after the first space
/// that survives trimming, which is why its last character may not be
/// whitespace.
pub proof fn lemma_join_invalid_id(s: SessionView, now: nat, arg: Seq<char>)
    requires
        arg.len() > 0,
        !is_ws_char(arg.last()),
        !is_usize_string(arg),
    ensures
        ({
            let (s1, step) = frame_step(s, now, Ok(FrameView::Text("/join "@ + arg)));
            &&& s1 == s
            &&& step.request is None
            &&& step.reply == Some(OutFrameView::Text("Invalid chat id: "@ + arg))
            &&& !step.stop
        }),
{
    reveal_strlit("/join ");
    reveal_strlit("/join");
    let raw = "/join "@ + arg;
    assert(raw.len() == 6 + arg.len());
    assert(!is_ws_char(raw[0]));
    assert(raw.last() == arg.last());
    lemma_trim_id(raw);
    lemma_first_space(raw);
    let fs = crate::text::first_space_spec(raw);
    assert(raw[5] == ' ');
    if fs < 5 {
        assert(raw[fs] != ' ');
    }
    assert(fs == 5);
    assert(raw.subrange(0, 5) =~= "/join"@);
    assert(raw.subrange(6, raw.len() as int) =~= arg);
    assert(classify(raw) == (TextClass::InvalidJoin { rest: arg }));
}

/// A heartbeat tick terminates the session, sending no further ping, if and
/// only if the client has been silent for more than [`CLIENT_TIMEOUT`]
/// time-units; otherwise it only pings the client.
pub proof fn lemma_heartbeat_timeout(s: SessionView, now: nat)
    requires
        s.hb <= now,
    ensures
        timed_out(s.hb, now) == (now - s.hb > CLIENT_TIMEOUT),
        timed_out(s.hb, now) ==> tick_step(s, now) == stop_step(),
        !timed_out(s.hb, now) ==> tick_step(s, now) == reply_step(
            OutFrameView::Ping(ping_payload()),
        ),
{
}

/// Plain chat text while no room is joined never reaches the router and
/// always yields exactly `You are not part of any chat group`.
pub proof fn lemma_plain_without_room(
    s: SessionView,
    now: nat,
    raw: Seq<char>,
    trimmed: Seq<char>,
)
    requires
        s.room is None,
        classify(raw) == (TextClass::Plain { trimmed }),
    ensures
        ({
            let (s1, step) = frame_step(s, now, Ok(FrameView::Text(raw)));
            &&& s1 == s
            &&& step.request is None
            &&& step.reply == Some(OutFrameView::Text("You are not part of any chat group"@))
            &&& !step.stop
        }),
{
}

/// Plain chat text while a room is joined is forwarded to the router for
/// the peer, with no client-visible reply; the relay reply stays silent on
/// success and yields exactly `Something went wrong` on failure.  The
/// session state never changes on either path.
pub proof fn lemma_relay(
    s: SessionView,
    now: nat,
    raw: Seq<char>,
    trimmed: Seq<char>,
    chat_id: nat,
    peer: nat,
)
    requires
        s.room == Some((chat_id, peer)),
        classify(raw) == (TextClass::Plain { trimmed }),
    ensures
        ({
            let (s1, step) = frame_step(s, now, Ok(FrameView::Text(raw)));
            &&& s1 == s
            &&& step.reply is None
            &&& !step.stop
            &&& step.request == Some(
                RouterRequestView::ChatMessage {
                    sender_id: s.user_id,
                    receiver_id: peer,
                    chat_id,
                    content: trimmed,
                },
            )
        }),
        relay_reply_step(Ok(())) == empty_step(),
        relay_reply_step(Err(())) == reply_step(OutFrameView::Text("Something went wrong"@)),
{
}

/// A close frame always stops the session, echoing the provided close
/// reason, and never touches the state or the router.
pub proof fn lemma_close_terminates(s: SessionView, now: nat, reason: Option<CloseReasonView>)
    ensures
        ({
            let (s1, step) = frame_step(s, now, Ok(FrameView::Close(reason)));
            &&& s1 == s
            &&& step.reply == Some(OutFrameView::Close(reason))
            &&& step.request is None
            &&& step.stop
        }),
{
}

/// Repeated pong frames change nothing observable: each yields no reply, no
/// request and no stop, and the state after two pongs is exactly the state
/// after the last one alone — only the liveness timestamp moves.
pub proof fn lemma_pong_idempotent(s: SessionView, t1: nat, t2: nat, p1: Seq<u8>, p2: Seq<u8>)
    requires
        s.hb <= t1 <= t2,
    ensures
        ({
            let (s1, step1) = frame_step(s, t1, Ok(FrameView::Pong(p1)));
            let (s2, step2) = frame_step(s1, t2, Ok(FrameView::Pong(p2)));
            &&& step1 == empty_step()
            &&& step2 == empty_step()
            &&& s1 == (SessionView { user_id: s.user_id, hb: t1, room: s.room })
            &&& s2 == frame_step(s, t2, Ok(FrameView::Pong(p2))).0
        }),
{
}

/// The liveness timestamp only ever increases: no transport event moves it
/// backwards, and the user id never changes.
pub proof fn lemma_heartbeat_monotone(s: SessionView, now: nat, msg: Result<FrameView, ()>)
    requires
        s.hb <= now,
    ensures
        ({
            let (s1, step) = frame_step(s, now, msg);
            &&& s.hb <= s1.hb <= now
            &&& s1.user_id == s.user_id
        }),
{
}

/// The room is set only as the result of a successful join reply: no
/// transport event changes it, and a failed join reply leaves the whole
/// state untouched.
pub proof fn lemma_room_set_only_by_join(
    s: SessionView,
    now: nat,
    msg: Result<FrameView, ()>,
    chat_id: nat,
    res: Result<Result<nat, Seq<char>>, ()>,
)
    ensures
        frame_step(s, now, msg).0.room == s.room,
        !(res matches Ok(Ok(_))) ==> join_reply_step(s, chat_id, res).0 == s,
        res matches Ok(Ok(peer)) ==> join_reply_step(s, chat_id, res).0.room == Some(
            (chat_id, peer),
        ),
{
}

} // verus!
