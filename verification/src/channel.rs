//! Channel polling fallback: typed channels and messages, the filter for
//! text channels, and the bookkeeping that tracks the newest message seen
//! per channel. The HTTP fetching lives with the caller; everything here is
//! pure logic over already-fetched values, plus the JSON boundary that turns
//! response bodies into typed values.

use vstd::prelude::*;
use crate::jsonval::{
    extract_channel_rows, extract_message_rows, channel_rows_of, channel_row_view,
    message_rows_of, message_row_view,
};
use crate::strutil::view_of_opt_string;

verus! {

/// The kind of a channel, as carried by the wire `type` tag.
#[derive(Clone, Copy, PartialEq, Eq, Structural, Debug)]
pub enum ChannelType {
    Text,
    DM,
    Voice,
    GroupDM,
    GuildCategory,
    GuildNews,
    GuildStore,
    Unknown,
}

/// The channel kind denoted by a wire `type` tag.
pub open spec fn channel_type_of(u: u8) -> ChannelType {
    if u == 0 {
        ChannelType::Text
    } else if u == 1 {
        ChannelType::DM
    } else if u == 2 {
        ChannelType::Voice
    } else if u == 3 {
        ChannelType::GroupDM
    } else if u == 4 {
        ChannelType::GuildCategory
    } else if u == 5 {
        ChannelType::GuildNews
    } else if u == 6 {
        ChannelType::GuildStore
    } else {
        ChannelType::Unknown
    }
}

impl ChannelType {
    /// The channel kind for a wire `type` tag; tags beyond the known ones
    /// are `Unknown`.
    pub fn from_u8(u: u8) -> (r: ChannelType)
        ensures
            r == channel_type_of(u),
    {
        match u {
            0u8 => ChannelType::Text,
            1u8 => ChannelType::DM,
            2u8 => ChannelType::Voice,
            3u8 => ChannelType::GroupDM,
            4u8 => ChannelType::GuildCategory,
            5u8 => ChannelType::GuildNews,
            6u8 => ChannelType::GuildStore,
            _ => ChannelType::Unknown,
        }
    }

    /// A short human-readable label; kinds that are neither text nor voice
    /// share one label.
    pub fn label(&self) -> (r: String)
        ensures
            *self is Text ==> r@ == "Text"@,
            *self is Voice ==> r@ == "Voice"@,
            *self is Unknown ==> r@ == "Unknown"@,
            !(*self is Text || *self is Voice || *self is Unknown) ==> r@ == "Not text/voice"@,
    {
        match self {
            ChannelType::Text => String::from_str("Text"),
            ChannelType::Voice => String::from_str("Voice"),
            ChannelType::Unknown => String::from_str("Unknown"),
            _ => String::from_str("Not text/voice"),
        }
    }
}

/// A channel, as the listing endpoint describes it: the wire `type` tag, the
/// channel id and name, and the id of the newest message seen in it, when
/// any.
pub struct Channel {
    pub ctype: u8,
    pub id: String,
    pub name: String,
    pub last_message_id: Option<String>,
}

/// One message of a channel.
pub struct Message {
    pub id: String,
    pub channel_id: String,
    pub content: String,
}

impl Channel {
    /// The kind of this channel.
    pub fn get_channel_type(&self) -> (r: ChannelType)
        ensures
            r == channel_type_of(self.ctype),
    {
        ChannelType::from_u8(self.ctype)
    }

    /// Records `msg` as the newest message seen in this channel.
    pub fn update_last_message(&mut self, msg: &Message)
        ensures
            final(self).last_message_id matches Some(i) && i@ == msg.id@,
            final(self).ctype == old(self).ctype,
            final(self).id == old(self).id,
            final(self).name == old(self).name,
    {
        self.last_message_id = Some(msg.id.clone());
    }

    /// Folds a freshly fetched batch of messages — newest first, as the
    /// endpoint returns them — into the channel: the first message, when
    /// any, becomes the newest seen.
    pub fn record_new_messages(&mut self, msgs: &Vec<Message>)
        ensures
            msgs@.len() == 0 ==> *final(self) == *old(self),
            msgs@.len() > 0 ==> (final(self).last_message_id matches Some(i) && i@
                == msgs@[0].id@),
            final(self).ctype == old(self).ctype,
            final(self).id == old(self).id,
            final(self).name == old(self).name,
    {
        if msgs.len() > 0 {
            let first: &Message = &msgs[0];
            self.update_last_message(first);
        }
    }
}

/// Whether a channel's wire tag marks it as a text channel.
pub open spec fn is_text_channel(c: Channel) -> bool {
    channel_type_of(c.ctype) is Text
}

/// `s.push(x)` filtered is `s` filtered, with `x` appended when it passes.
proof fn lemma_filter_push<A>(s: Seq<A>, x: A, pred: spec_fn(A) -> bool)
    ensures
        s.push(x).filter(pred) == if pred(x) {
            s.filter(pred).push(x)
        } else {
            s.filter(pred)
        },
{
    reveal(Seq::filter);
    assert(s.push(x).drop_last() =~= s);
    assert(s.push(x).last() == x);
}

/// Keeps exactly the text channels, in order.
pub fn get_text_channels(channels: Vec<Channel>) -> (r: Vec<Channel>)
    ensures
        r@ == channels@.filter(|c: Channel| is_text_channel(c)),
{
    let mut out: Vec<Channel> = Vec::new();
    let mut i: usize = 0;
    proof {
        reveal(Seq::filter);
        assert(channels@.take(0) =~= Seq::<Channel>::empty());
        assert(out@ =~= channels@.take(0).filter(|c: Channel| is_text_channel(c)));
    }
    let n = channels.len();
    while i < n
        invariant
            i <= n == channels@.len(),
            out@ == channels@.take(i as int).filter(|c: Channel| is_text_channel(c)),
        decreases n - i,
    {
        let c: &Channel = &channels[i];
        let keep = matches!(ChannelType::from_u8(c.ctype), ChannelType::Text);
        proof {
            lemma_filter_push(
                channels@.take(i as int),
                channels@[i as int],
                |c: Channel| is_text_channel(c),
            );
            assert(channels@.take(i + 1) =~= channels@.take(i as int).push(channels@[i as int]));
        }
        if keep {
            let copy = Channel {
                ctype: c.ctype,
                id: c.id.clone(),
                name: c.name.clone(),
                last_message_id: match &c.last_message_id {
                    Some(m) => Some(m.clone()),
                    None => None,
                },
            };
            proof {
                assert(copy == channels@[i as int]);
            }
            out.push(copy);
        }
        i += 1;
    }
    proof {
        assert(channels@.take(n as int) =~= channels@);
    }
    out
}

/// Whether every row's `type` tag fits the tag's width.
pub open spec fn channel_tags_fit(rows: Seq<(u64, Seq<char>, Seq<char>, Option<Seq<char>>)>) -> bool {
    forall|i: int| 0 <= i < rows.len() ==> (#[trigger] rows[i]).0 <= 255
}

/// Whether a channel value carries exactly the data of one extracted row.
pub open spec fn channel_matches_row(c: Channel, row: (u64, Seq<char>, Seq<char>, Option<Seq<char>>)) -> bool {
    &&& c.ctype == row.0
    &&& c.id@ == row.1
    &&& c.name@ == row.2
    &&& view_of_opt_string(c.last_message_id) == row.3
}

/// The channel listing parsed from a response body: a JSON array of channel
/// objects with `type`, `id` and `name`. The contract fixes the result for
/// every body: the returned list carries the body's rows in order, and the
/// parse fails exactly when the body is not such an array or a `type` tag
/// does not fit the tag's width.
pub fn parse_channels(body: &str) -> (r: Option<Vec<Channel>>)
    ensures
        channel_rows_of(body@) is None ==> r is None,
        channel_rows_of(body@) matches Some(rows) ==> match r {
            Some(v) => {
                &&& v@.len() == rows.len()
                &&& forall|i: int|
                    0 <= i < rows.len() ==> channel_matches_row(#[trigger] v@[i], rows[i])
            },
            None => !channel_tags_fit(rows),
        },
{
    let rows = match extract_channel_rows(body) {
        Some(t) => t,
        None => {
            return None;
        }
    };
    let ghost rowsv = channel_rows_of(body@)->Some_0;
    let mut out: Vec<Channel> = Vec::new();
    let mut i: usize = 0;
    let n = rows.len();
    proof {
        assert(rows@.map_values(|t| channel_row_view(t)).len() == rows@.len());
    }
    while i < n
        invariant
            i <= n == rows@.len(),
            channel_rows_of(body@) == Some(rowsv),
            rowsv == rows@.map_values(|t: (u64, String, String, Option<String>)| channel_row_view(t)),
            rowsv.len() == n,
            out@.len() == i,
            forall|j: int| 0 <= j < i ==> channel_matches_row(#[trigger] out@[j], rowsv[j]),
        decreases n - i,
    {
        let row: &(u64, String, String, Option<String>) = &rows[i];
        if row.0 > 255 {
            proof {
                assert(rowsv[i as int] == channel_row_view(rows@[i as int]));
                assert((i as int) < rowsv.len() && rowsv[i as int].0 > 255);
                assert(!channel_tags_fit(rowsv));
            }
            return None;
        }
        let c = Channel {
            ctype: row.0 as u8,
            id: row.1.clone(),
            name: row.2.clone(),
            last_message_id: match &row.3 {
                Some(m) => Some(m.clone()),
                None => None,
            },
        };
        proof {
            assert(rowsv[i as int] == channel_row_view(rows@[i as int]));
            assert(channel_matches_row(c, rowsv[i as int]));
        }
        out.push(c);
        i += 1;
    }
    Some(out)
}

/// Whether a message value carries exactly the data of one extracted row.
pub open spec fn message_matches_row(m: Message, row: (Seq<char>, Seq<char>, Seq<char>)) -> bool {
    &&& m.id@ == row.0
    &&& m.channel_id@ == row.1
    &&& m.content@ == row.2
}

/// The message batch parsed from a response body: a JSON array of message
/// objects with `id`, `channel_id` and `content`, newest first. The
/// contract fixes the result for every body: the returned batch carries the
/// body's rows in order, and the parse fails exactly when the body is not
/// such an array.
pub fn parse_messages(body: &str) -> (r: Option<Vec<Message>>)
    ensures
        r is Some <==> message_rows_of(body@) is Some,
        r matches Some(v) ==> (message_rows_of(body@) matches Some(rows) && v@.len()
            == rows.len() && forall|i: int|
            0 <= i < rows.len() ==> message_matches_row(#[trigger] v@[i], rows[i])),
{
    let rows = match extract_message_rows(body) {
        Some(t) => t,
        None => {
            return None;
        }
    };
    let ghost rowsv = message_rows_of(body@)->Some_0;
    let mut out: Vec<Message> = Vec::new();
    let mut i: usize = 0;
    let n = rows.len();
    proof {
        assert(rows@.map_values(|t| message_row_view(t)).len() == rows@.len());
    }
    while i < n
        invariant
            i <= n == rows@.len(),
            message_rows_of(body@) == Some(rowsv),
            rowsv == rows@.map_values(|t: (String, String, String)| message_row_view(t)),
            rowsv.len() == n,
            out@.len() == i,
            forall|j: int| 0 <= j < i ==> message_matches_row(#[trigger] out@[j], rowsv[j]),
        decreases n - i,
    {
        let row: &(String, String, String) = &rows[i];
        let m = Message { id: row.0.clone(), channel_id: row.1.clone(), content: row.2.clone() };
        proof {
            assert(rowsv[i as int] == message_row_view(rows@[i as int]));
            assert(message_matches_row(m, rowsv[i as int]));
        }
        out.push(m);
        i += 1;
    }
    Some(out)
}

/// The authorization header value for a bot token.
pub fn auth_header_value(token: &str) -> (r: String)
    ensures
        r@ == "Bot "@ + token@,
{
    let mut s = String::from_str("Bot ");
    s.append(token);
    s
}

/// The endpoint that lists a guild's channels.
pub fn channels_endpoint(guild: &str) -> (r: String)
    ensures
        r@ == "https://discordapp.com/api/guilds/"@ + guild@ + "/channels"@,
{
    let mut s = String::from_str("https://discordapp.com/api/guilds/");
    s.append(guild);
    s.append("/channels");
    s
}

/// The endpoint that lists a channel's messages.
pub fn messages_endpoint(channel_id: &str) -> (r: String)
    ensures
        r@ == "https://discordapp.com/api/channels/"@ + channel_id@ + "/messages"@,
{
    let mut s = String::from_str("https://discordapp.com/api/channels/");
    s.append(channel_id);
    s.append("/messages");
    s
}

/// The endpoint that lists a channel's messages, restricted to those after
/// the given message id when one is known.
pub fn messages_endpoint_after(channel_id: &str, after: Option<&str>) -> (r: String)
    ensures
        after matches Some(a) ==> r@ == "https://discordapp.com/api/channels/"@ + channel_id@
            + "/messages"@ + "?after="@ + a@,
        after is None ==> r@ == "https://discordapp.com/api/channels/"@ + channel_id@
            + "/messages"@,
{
    let mut s = messages_endpoint(channel_id);
    match after {
        Some(a) => {
            s.append("?after=");
            s.append(a);
        }
        None => {}
    }
    s
}

} // verus!
