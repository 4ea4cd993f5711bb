//! The session layer.
//!
//! A [`Session`] holds the identity a client joined under: its nickname
//! and its channel.  Opening one yields the join frame that must go out
//! before anything else; the frame builders yield the wire text for
//! chat lines, stats requests and keepalive pings; and
//! [`Session::handle_frame`] is the decision function of the event
//! stream: it turns one transport frame into the step the stream takes
//! next.  The embedding application owns the socket: it sends the texts
//! this module hands it, feeds every received frame through
//! `handle_frame`, and acts on the returned step.

use vstd::prelude::*;

use vstd::string::StringExecFns;

use crate::codec;
use crate::codec::DecodeError;
use crate::codec::OutboundPacket;
use crate::codec::SpecInbound;
use crate::codec::SpecOutbound;
use crate::codec::spec_decode;
use crate::codec::outbound_fields;
use crate::wire::obj_text;

verus! {

/// A domain event visible to the consumer of a chat session.
#[derive(Debug)]
pub enum ChatEvent {
    /// A new message from the channel: nickname, text, trip code.
    Message(String, String, String),
    /// Somebody joined the channel.
    JoinRoom(String),
    /// Somebody left the channel.
    LeaveRoom(String),
    /// An event from the channel itself, such as the answer to a
    /// stats request.
    Info(String),
}

/// The mathematical shape of a domain event.
pub enum SpecEvent {
    Message(Seq<char>, Seq<char>, Seq<char>),
    JoinRoom(Seq<char>),
    LeaveRoom(Seq<char>),
    Info(Seq<char>),
}

impl View for ChatEvent {
    type V = SpecEvent;

    open spec fn view(&self) -> SpecEvent {
        match self {
            ChatEvent::Message(nick, text, trip) => SpecEvent::Message(nick@, text@, trip@),
            ChatEvent::JoinRoom(nick) => SpecEvent::JoinRoom(nick@),
            ChatEvent::LeaveRoom(nick) => SpecEvent::LeaveRoom(nick@),
            ChatEvent::Info(text) => SpecEvent::Info(text@),
        }
    }
}

/// One frame received from the transport, as the session sees it: the
/// payload of a text frame, the payload of a control ping, or any
/// other frame kind.
#[derive(Debug)]
pub enum Frame {
    Text(String),
    Ping(Vec<u8>),
    Other,
}

/// The mathematical shape of a received frame.
pub enum SpecFrame {
    Text(Seq<char>),
    Ping(Seq<u8>),
    Other,
}

impl View for Frame {
    type V = SpecFrame;

    open spec fn view(&self) -> SpecFrame {
        match self {
            Frame::Text(t) => SpecFrame::Text(t@),
            Frame::Ping(p) => SpecFrame::Ping(p@),
            Frame::Other => SpecFrame::Other,
        }
    }
}

/// The step an event stream takes after one received frame.
#[derive(Debug)]
pub enum StreamStep {
    /// Hand this event to the consumer.
    Yield(ChatEvent),
    /// Send this control pong back, yield nothing, and keep receiving.
    Pong(Vec<u8>),
    /// Yield nothing and keep receiving.
    Skip,
    /// The stream is over.
    End,
}

/// The mathematical shape of a stream step.
pub enum SpecStep {
    Yield(SpecEvent),
    Pong(Seq<u8>),
    Skip,
    End,
}

impl View for StreamStep {
    type V = SpecStep;

    open spec fn view(&self) -> SpecStep {
        match self {
            StreamStep::Yield(e) => SpecStep::Yield(e@),
            StreamStep::Pong(p) => SpecStep::Pong(p@),
            StreamStep::Skip => SpecStep::Skip,
            StreamStep::End => SpecStep::End,
        }
    }
}

/// The identity of a session.
pub struct SpecSession {
    pub nick: Seq<char>,
    pub channel: Seq<char>,
}

/// A chat session: the nickname and channel the client joined under.
pub struct Session {
    nick: String,
    channel: String,
}

impl View for Session {
    type V = SpecSession;

    closed spec fn view(&self) -> SpecSession {
        SpecSession { nick: self.nick@, channel: self.channel@ }
    }
}

/// The step a session whose nickname is `own_nick` takes on one
/// received frame: answer a control ping with the matching pong; end
/// the stream on any other non-text frame; and on a text frame, decode
/// it and either yield the one event it stands for, or skip it when it
/// is malformed, unrecognized, or an echo of the client's own chat.
pub open spec fn spec_step(own_nick: Seq<char>, f: SpecFrame) -> SpecStep {
    match f {
        SpecFrame::Ping(payload) => SpecStep::Pong(payload),
        SpecFrame::Other => SpecStep::End,
        SpecFrame::Text(t) => match spec_decode(t) {
            Err(_) => SpecStep::Skip,
            Ok(p) => match p {
                SpecInbound::Chat { nick, text, trip } => if nick == own_nick {
                    SpecStep::Skip
                } else {
                    SpecStep::Yield(SpecEvent::Message(nick, text, trip))
                },
                SpecInbound::Info { text } => SpecStep::Yield(SpecEvent::Info(text)),
                SpecInbound::OnlineAdd { nick } => SpecStep::Yield(SpecEvent::JoinRoom(nick)),
                SpecInbound::OnlineRemove { nick } => SpecStep::Yield(SpecEvent::LeaveRoom(nick)),
                SpecInbound::Unknown => SpecStep::Skip,
            },
        },
    }
}

impl Session {
    /// Opens a session: records the identity and yields, with it, the
    /// encoded join packet.  That frame is the session's first
    /// outbound frame; the caller must send it before any other
    /// operation on the session.
    pub fn open(nick: &str, channel: &str) -> (r: (Session, String))
        ensures
            r.0@.nick == nick@,
            r.0@.channel == channel@,
            r.1@ == obj_text(
                outbound_fields(SpecOutbound::Join { nick: nick@, channel: channel@ }),
            ),
    {
        let session = Session { nick: String::from_str(nick), channel: String::from_str(channel) };
        let join = codec::encode(
            &OutboundPacket::Join {
                nick: String::from_str(nick),
                channel: String::from_str(channel),
            },
        );
        (session, join)
    }

    /// The nickname this session joined under.
    pub fn nick(&self) -> (r: &String)
        ensures
            r@ == self@.nick,
    {
        &self.nick
    }

    /// The channel this session joined.
    pub fn channel(&self) -> (r: &String)
        ensures
            r@ == self@.channel,
    {
        &self.channel
    }

    /// The wire text of the one chat packet that sends `text`.
    pub fn chat_frame(&self, text: &str) -> (r: String)
        ensures
            r@ == obj_text(outbound_fields(SpecOutbound::Chat { text: text@ })),
    {
        codec::encode(&OutboundPacket::Chat { text: String::from_str(text) })
    }

    /// The wire text of the one stats-request packet.
    pub fn stats_frame(&self) -> (r: String)
        ensures
            r@ == obj_text(outbound_fields(SpecOutbound::StatsRequest)),
    {
        codec::encode(&OutboundPacket::StatsRequest)
    }

    /// The wire text of the one keepalive ping packet.  A keepalive
    /// task sends this same text once per period.
    pub fn ping_frame(&self) -> (r: String)
        ensures
            r@ == obj_text(outbound_fields(SpecOutbound::Ping)),
    {
        codec::encode(&OutboundPacket::Ping)
    }

    /// Takes one received frame and decides the stream's next step.
    /// The session itself does not change: a malformed frame leaves
    /// nothing behind, and the next frame is handled fresh.
    pub fn handle_frame(&self, frame: Frame) -> (r: StreamStep)
        ensures
            r@ == spec_step(self@.nick, frame@),
    {
        match frame {
            Frame::Ping(payload) => StreamStep::Pong(payload),
            Frame::Other => StreamStep::End,
            Frame::Text(t) => match codec::decode(t.as_str()) {
                Err(_) => StreamStep::Skip,
                Ok(p) => match p {
                    codec::InboundPacket::Chat { nick, text, trip } => if nick == self.nick {
                        StreamStep::Skip
                    } else {
                        StreamStep::Yield(ChatEvent::Message(nick, text, trip))
                    },
                    codec::InboundPacket::Info { text } => StreamStep::Yield(ChatEvent::Info(text)),
                    codec::InboundPacket::OnlineAdd { nick } => StreamStep::Yield(
                        ChatEvent::JoinRoom(nick),
                    ),
                    codec::InboundPacket::OnlineRemove { nick } => StreamStep::Yield(
                        ChatEvent::LeaveRoom(nick),
                    ),
                    codec::InboundPacket::Unknown => StreamStep::Skip,
                },
            },
        }
    }
}

/// A control ping is answered, not surfaced: the step for a ping frame
/// is exactly one pong carrying the ping's own payload.
pub proof fn lemma_ping_transparency(own_nick: Seq<char>, payload: Seq<u8>)
    ensures
        spec_step(own_nick, SpecFrame::Ping(payload)) == SpecStep::Pong(payload),
{
}

/// Text that does not decode, and text that decodes to an unrecognized
/// packet, is skipped: the stream neither yields an event nor ends.
pub proof fn lemma_skip_keeps_stream(own_nick: Seq<char>, t: Seq<char>)
    requires
        spec_decode(t) is Err || spec_decode(t) == Ok::<SpecInbound, DecodeError>(
            SpecInbound::Unknown,
        ),
    ensures
        spec_step(own_nick, SpecFrame::Text(t)) == SpecStep::Skip,
{
}

/// Self-suppression: a chat packet from the session's own nickname
/// yields no event, and one from any other nickname yields exactly the
/// matching message event.
pub proof fn lemma_self_suppression(
    own_nick: Seq<char>,
    t: Seq<char>,
    nick: Seq<char>,
    text: Seq<char>,
    trip: Seq<char>,
)
    requires
        spec_decode(t) == Ok::<SpecInbound, DecodeError>(SpecInbound::Chat { nick, text, trip }),
    ensures
        nick == own_nick ==> spec_step(own_nick, SpecFrame::Text(t)) == SpecStep::Skip,
        nick != own_nick ==> spec_step(own_nick, SpecFrame::Text(t)) == SpecStep::Yield(
            SpecEvent::Message(nick, text, trip),
        ),
{
}

} // verus!
