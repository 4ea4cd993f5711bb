//! The packet codec.
//!
//! Outbound packets (join, chat, ping, stats request) are encoded to
//! their wire text; inbound wire text is decoded into a typed packet by
//! reading the object's `cmd` field first and then the fields that the
//! recognized shape requires.  An unrecognized `cmd` is not an error:
//! it decodes to [`InboundPacket::Unknown`] so a session can skip the
//! frame and keep running.

use vstd::prelude::*;

use vstd::string::StringExecFns;

use crate::wire;
use crate::wire::obj_text;
use crate::wire::parsed_obj;
use crate::wire::pairs_map;

verus! {

/// A packet this client sends to the server.
#[derive(Debug)]
pub enum OutboundPacket {
    /// The join handshake: `{cmd:"join", nick, channel}`.
    Join { nick: String, channel: String },
    /// A chat line: `{cmd:"chat", text}`.
    Chat { text: String },
    /// A keepalive: `{cmd:"ping"}`.
    Ping,
    /// A request for server statistics: `{cmd:"stats"}`.
    StatsRequest,
}

/// The mathematical shape of an outbound packet.
pub enum SpecOutbound {
    Join { nick: Seq<char>, channel: Seq<char> },
    Chat { text: Seq<char> },
    Ping,
    StatsRequest,
}

impl View for OutboundPacket {
    type V = SpecOutbound;

    open spec fn view(&self) -> SpecOutbound {
        match self {
            OutboundPacket::Join { nick, channel } => SpecOutbound::Join {
                nick: nick@,
                channel: channel@,
            },
            OutboundPacket::Chat { text } => SpecOutbound::Chat { text: text@ },
            OutboundPacket::Ping => SpecOutbound::Ping,
            OutboundPacket::StatsRequest => SpecOutbound::StatsRequest,
        }
    }
}

/// A packet the server sends to this client.
#[derive(Debug)]
pub enum InboundPacket {
    /// A chat line from somebody in the channel; `trip` is `""` when
    /// the sender has no trip code.
    Chat { nick: String, text: String, trip: String },
    /// A notice from the channel itself.
    Info { text: String },
    /// Somebody joined the channel.
    OnlineAdd { nick: String },
    /// Somebody left the channel.
    OnlineRemove { nick: String },
    /// A well-formed object whose `cmd` this client does not recognize.
    Unknown,
}

/// The mathematical shape of an inbound packet.
pub enum SpecInbound {
    Chat { nick: Seq<char>, text: Seq<char>, trip: Seq<char> },
    Info { text: Seq<char> },
    OnlineAdd { nick: Seq<char> },
    OnlineRemove { nick: Seq<char> },
    Unknown,
}

impl View for InboundPacket {
    type V = SpecInbound;

    open spec fn view(&self) -> SpecInbound {
        match self {
            InboundPacket::Chat { nick, text, trip } => SpecInbound::Chat {
                nick: nick@,
                text: text@,
                trip: trip@,
            },
            InboundPacket::Info { text } => SpecInbound::Info { text: text@ },
            InboundPacket::OnlineAdd { nick } => SpecInbound::OnlineAdd { nick: nick@ },
            InboundPacket::OnlineRemove { nick } => SpecInbound::OnlineRemove { nick: nick@ },
            InboundPacket::Unknown => SpecInbound::Unknown,
        }
    }
}

/// Why a piece of wire text failed to decode.
#[derive(Clone, Copy, PartialEq, Eq, Structural, Debug)]
pub enum DecodeError {
    /// The text is not a JSON object.
    NotAnObject,
    /// The object carries no `cmd` field with a string value.
    NoCmd,
    /// A recognized `cmd` came without a required field, or with a
    /// field that is not a string.
    BadField,
}

/// The fields of the object that encodes an outbound packet.
pub open spec fn outbound_fields(p: SpecOutbound) -> Map<Seq<char>, Seq<char>> {
    match p {
        SpecOutbound::Join { nick, channel } => map![
            "cmd"@ => "join"@,
            "nick"@ => nick,
            "channel"@ => channel,
        ],
        SpecOutbound::Chat { text } => map!["cmd"@ => "chat"@, "text"@ => text],
        SpecOutbound::Ping => map!["cmd"@ => "ping"@],
        SpecOutbound::StatsRequest => map!["cmd"@ => "stats"@],
    }
}

/// The value of a string field: `None` when the field is absent or not
/// a string.
pub open spec fn str_field(m: Map<Seq<char>, Option<Seq<char>>>, k: Seq<char>) -> Option<
    Seq<char>,
> {
    if m.contains_key(k) {
        m[k]
    } else {
        None
    }
}

/// What the fields of a JSON object decode to.
pub open spec fn spec_classify(m: Map<Seq<char>, Option<Seq<char>>>) -> Result<
    SpecInbound,
    DecodeError,
> {
    match str_field(m, "cmd"@) {
        None => Err(DecodeError::NoCmd),
        Some(cmd) => if cmd == "chat"@ {
            match (str_field(m, "nick"@), str_field(m, "text"@)) {
                (Some(nick), Some(text)) => if m.contains_key("trip"@) {
                    match m["trip"@] {
                        Some(trip) => Ok(SpecInbound::Chat { nick, text, trip }),
                        None => Err(DecodeError::BadField),
                    }
                } else {
                    Ok(SpecInbound::Chat { nick, text, trip: ""@ })
                },
                _ => Err(DecodeError::BadField),
            }
        } else if cmd == "info"@ {
            match str_field(m, "text"@) {
                Some(text) => Ok(SpecInbound::Info { text }),
                None => Err(DecodeError::BadField),
            }
        } else if cmd == "onlineAdd"@ {
            match str_field(m, "nick"@) {
                Some(nick) => Ok(SpecInbound::OnlineAdd { nick }),
                None => Err(DecodeError::BadField),
            }
        } else if cmd == "onlineRemove"@ {
            match str_field(m, "nick"@) {
                Some(nick) => Ok(SpecInbound::OnlineRemove { nick }),
                None => Err(DecodeError::BadField),
            }
        } else {
            Ok(SpecInbound::Unknown)
        },
    }
}

/// What a piece of wire text decodes to.
pub open spec fn spec_decode(text: Seq<char>) -> Result<SpecInbound, DecodeError> {
    match parsed_obj(text) {
        None => Err(DecodeError::NotAnObject),
        Some(m) => spec_classify(m),
    }
}

/// The shape of an exec decode result.
pub open spec fn decoded_view(r: Result<InboundPacket, DecodeError>) -> Result<
    SpecInbound,
    DecodeError,
> {
    match r {
        Ok(p) => Ok(p@),
        Err(e) => Err(e),
    }
}

/// Encodes a packet to its wire text.  The second conclusion is the
/// wire-level round trip: parsing the produced text recovers exactly
/// the packet's fields.
pub fn encode(p: &OutboundPacket) -> (r: String)
    ensures
        r@ == obj_text(outbound_fields(p@)),
        parsed_obj(r@) == Some(outbound_fields(p@).map_values(|v: Seq<char>| Some(v))),
{
    let mut fields: Vec<(String, String)> = Vec::new();
    match p {
        OutboundPacket::Join { nick, channel } => {
            fields.push((String::from_str("cmd"), String::from_str("join")));
            fields.push((String::from_str("nick"), nick.clone()));
            fields.push((String::from_str("channel"), channel.clone()));
        },
        OutboundPacket::Chat { text } => {
            fields.push((String::from_str("cmd"), String::from_str("chat")));
            fields.push((String::from_str("text"), text.clone()));
        },
        OutboundPacket::Ping => {
            fields.push((String::from_str("cmd"), String::from_str("ping")));
        },
        OutboundPacket::StatsRequest => {
            fields.push((String::from_str("cmd"), String::from_str("stats")));
        },
    }
    proof {
        reveal_with_fuel(pairs_map, 4);
        assert(pairs_map(fields.deep_view()) =~= outbound_fields(p@));
    }
    wire::to_obj_text(&fields)
}

/// Round trip through the chat shape: the fields that encode an
/// outbound chat packet, as the server echoes them back with a sender
/// and a trip code attached, decode to exactly that chat line.
pub proof fn lemma_chat_echo(text: Seq<char>, nick: Seq<char>, trip: Seq<char>)
    ensures
        spec_classify(
            outbound_fields(SpecOutbound::Chat { text }).map_values(|v: Seq<char>| Some(v)).insert(
                "nick"@,
                Some(nick),
            ).insert("trip"@, Some(trip)),
        ) == Ok::<SpecInbound, DecodeError>(SpecInbound::Chat { nick, text, trip }),
{
    reveal_strlit("cmd");
    reveal_strlit("chat");
    reveal_strlit("nick");
    reveal_strlit("text");
    reveal_strlit("trip");
    assert("cmd"@.len() == 3 && "nick"@.len() == 4 && "text"@.len() == 4 && "trip"@.len() == 4);
    assert("nick"@[0] == 'n' && "trip"@[0] == 't' && "text"@[0] == 't');
    assert("text"@[1] == 'e' && "trip"@[1] == 'r');
    assert("cmd"@ != "nick"@ && "cmd"@ != "trip"@ && "cmd"@ != "text"@);
    assert("nick"@ != "trip"@ && "text"@ != "trip"@ && "text"@ != "nick"@);
    let m = outbound_fields(SpecOutbound::Chat { text }).map_values(
        |v: Seq<char>| Some(v),
    ).insert("nick"@, Some(nick)).insert("trip"@, Some(trip));
    assert(str_field(m, "cmd"@) == Some("chat"@));
    assert(str_field(m, "nick"@) == Some(nick));
    assert(str_field(m, "text"@) == Some(text));
    assert(m["trip"@] == Some(trip));
}

/// The commands this client only ever sends (join, ping, stats) are
/// not inbound shapes: echoed back verbatim, they decode to
/// [`SpecInbound::Unknown`] and a session skips them.
pub proof fn lemma_outbound_only_cmds(p: SpecOutbound)
    requires
        !(p is Chat),
    ensures
        spec_classify(outbound_fields(p).map_values(|v: Seq<char>| Some(v))) == Ok::<
            SpecInbound,
            DecodeError,
        >(SpecInbound::Unknown),
{
    reveal_strlit("cmd");
    reveal_strlit("join");
    reveal_strlit("ping");
    reveal_strlit("stats");
    reveal_strlit("chat");
    reveal_strlit("info");
    reveal_strlit("onlineAdd");
    reveal_strlit("onlineRemove");
    reveal_strlit("nick");
    reveal_strlit("channel");
    assert("join"@.len() == 4 && "ping"@.len() == 4 && "stats"@.len() == 5);
    assert("chat"@.len() == 4 && "info"@.len() == 4);
    assert("onlineAdd"@.len() == 9 && "onlineRemove"@.len() == 12);
    assert("join"@[0] == 'j' && "ping"@[0] == 'p' && "chat"@[0] == 'c' && "info"@[0] == 'i');
    assert("cmd"@.len() == 3 && "nick"@.len() == 4 && "channel"@.len() == 7);
    let m = outbound_fields(p).map_values(|v: Seq<char>| Some(v));
    match p {
        SpecOutbound::Join { .. } => {
            assert(str_field(m, "cmd"@) == Some("join"@));
        },
        SpecOutbound::Ping => {
            assert(str_field(m, "cmd"@) == Some("ping"@));
        },
        SpecOutbound::StatsRequest => {
            assert(str_field(m, "cmd"@) == Some("stats"@));
        },
        SpecOutbound::Chat { .. } => {
        },
    }
}

/// Looks a key up among the parsed fields.  `None` means the key is
/// absent; `Some(None)` that it holds a non-string value.
fn lookup(fields: &Vec<(String, Option<String>)>, key: &str) -> (r: Option<Option<String>>)
    ensures
        r is None ==> forall|i: int|
            0 <= i < fields.deep_view().len() ==> (#[trigger] fields.deep_view()[i]).0 != key@,
        r matches Some(val) ==> exists|i: int|
            0 <= i < fields.deep_view().len() && (#[trigger] fields.deep_view()[i]).0 == key@
                && fields.deep_view()[i].1 == val.deep_view(),
{
    let mut i: usize = 0;
    while i < fields.len()
        invariant
            i <= fields.len(),
            forall|j: int| 0 <= j < i ==> (#[trigger] fields.deep_view()[j]).0 != key@,
        decreases fields.len() - i,
    {
        if wire::str_eq(fields[i].0.as_str(), key) {
            let val: Option<String> = match &fields[i].1 {
                Some(s) => Some(s.clone()),
                None => None,
            };
            assert(fields.deep_view()[i as int].0 == key@);
            assert(fields.deep_view()[i as int].1 == val.deep_view());
            return Some(val);
        }
        i += 1;
    }
    None
}

/// Decodes a piece of wire text into a typed inbound packet.
pub fn decode(text: &str) -> (r: Result<InboundPacket, DecodeError>)
    ensures
        decoded_view(r) == spec_decode(text@),
{
    let fields = match wire::from_obj_text(text) {
        None => {
            return Err(DecodeError::NotAnObject);
        },
        Some(fields) => fields,
    };
    let ghost m = parsed_obj(text@)->0;
    let cmd = match lookup(&fields, "cmd") {
        None => {
            assert(!m.contains_key("cmd"@));
            return Err(DecodeError::NoCmd);
        },
        Some(None) => {
            assert(str_field(m, "cmd"@) is None);
            return Err(DecodeError::NoCmd);
        },
        Some(Some(cmd)) => cmd,
    };
    assert(str_field(m, "cmd"@) == Some(cmd@));
    if wire::str_eq(cmd.as_str(), "chat") {
        let nick = match lookup(&fields, "nick") {
            None => {
                assert(!m.contains_key("nick"@));
                return Err(DecodeError::BadField);
            },
            Some(None) => {
                return Err(DecodeError::BadField);
            },
            Some(Some(nick)) => nick,
        };
        assert(str_field(m, "nick"@) == Some(nick@));
        let text_v = match lookup(&fields, "text") {
            None => {
                assert(!m.contains_key("text"@));
                return Err(DecodeError::BadField);
            },
            Some(None) => {
                return Err(DecodeError::BadField);
            },
            Some(Some(t)) => t,
        };
        assert(str_field(m, "text"@) == Some(text_v@));
        let trip = match lookup(&fields, "trip") {
            None => {
                assert(!m.contains_key("trip"@));
                proof {
                    reveal_strlit("");
                    assert(""@ =~= Seq::<char>::empty());
                }
                String::new()
            },
            Some(None) => {
                return Err(DecodeError::BadField);
            },
            Some(Some(trip)) => trip,
        };
        Ok(InboundPacket::Chat { nick, text: text_v, trip })
    } else if wire::str_eq(cmd.as_str(), "info") {
        match lookup(&fields, "text") {
            None => {
                assert(!m.contains_key("text"@));
                Err(DecodeError::BadField)
            },
            Some(None) => Err(DecodeError::BadField),
            Some(Some(t)) => Ok(InboundPacket::Info { text: t }),
        }
    } else if wire::str_eq(cmd.as_str(), "onlineAdd") {
        match lookup(&fields, "nick") {
            None => {
                assert(!m.contains_key("nick"@));
                Err(DecodeError::BadField)
            },
            Some(None) => Err(DecodeError::BadField),
            Some(Some(nick)) => Ok(InboundPacket::OnlineAdd { nick }),
        }
    } else if wire::str_eq(cmd.as_str(), "onlineRemove") {
        match lookup(&fields, "nick") {
            None => {
                assert(!m.contains_key("nick"@));
                Err(DecodeError::BadField)
            },
            Some(None) => Err(DecodeError::BadField),
            Some(Some(nick)) => Ok(InboundPacket::OnlineRemove { nick }),
        }
    } else {
        Ok(InboundPacket::Unknown)
    }
}

} // verus!
