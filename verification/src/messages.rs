//! Messages from the server to a player: their text on the wire and the
//! queue that holds them until the player's connection takes them.
//!
//! A message is one JSON object, `{"type":<name>,"content":<value>}`. The
//! name goes in as it is. The framing of objects and arrays is done here; the
//! text of each JSON string comes from `serde_json`.

use vstd::prelude::*;
use vstd::string::*;
use crate::room::{Player, PlayerView, RoomState, RoomView};
use crate::text::{lemma_texts_push, texts};

verus! {

/// The outcome of a turn as one player is told it.
#[derive(Clone, Copy, PartialEq, Eq, Debug, Structural)]
pub enum Winner {
    /// The player who is told has found the secret.
    You,
    /// The opponent has found it.
    Other,
    /// Nobody has found it yet.
    Nobody,
}

/// What a message carries.
#[derive(Clone, PartialEq, Eq, Debug)]
pub enum MessageContent {
    /// No payload; goes out as `null`.
    Nothing,
    /// One string.
    Text(String),
    /// A list of strings, in order.
    List(Vec<String>),
    /// The opponent's guess and whether the turn decided the match.
    OtherWord { word: String, who_wins: Winner },
}

/// The JSON text that `serde_json` writes for a string: the string between
/// double quotes, with the escapes that JSON asks for.
pub uninterp spec fn json_string_text(s: Seq<char>) -> Seq<char>;

/// Calls `serde_json::to_string` on a string slice. The contract names the
/// text that comes back; writing a string into memory has no step that can
/// fail, so the call always gives one.
#[verifier::external_body]
fn json_string(s: &str) -> (r: String)
    ensures
        r@ == json_string_text(s@),
{
    serde_json::to_string(s).unwrap_or_default()
}

/// The word under which an outcome goes over the wire.
pub open spec fn winner_name(w: Winner) -> Seq<char> {
    match w {
        Winner::You => "you"@,
        Winner::Other => "other"@,
        Winner::Nobody => "none"@,
    }
}

/// The JSON strings of `items`, separated by commas.
pub open spec fn json_items(items: Seq<Seq<char>>) -> Seq<char>
    decreases items.len(),
{
    if items.len() == 0 {
        Seq::empty()
    } else if items.len() == 1 {
        json_string_text(items[0])
    } else {
        json_items(items.drop_last()) + ","@ + json_string_text(items.last())
    }
}

/// The JSON object that tells a player the opponent's guess.
pub open spec fn other_word_json(word: Seq<char>, who_wins: Winner) -> Seq<char> {
    "{\"word\":"@ + json_string_text(word) + ",\"who_wins\":"@ + json_string_text(
        winner_name(who_wins),
    ) + "}"@
}

/// The JSON text of a list of strings.
pub open spec fn list_json(items: Seq<Seq<char>>) -> Seq<char> {
    "["@ + json_items(items) + "]"@
}

/// The JSON text of a message's content.
pub open spec fn content_json(c: MessageContent) -> Seq<char> {
    match c {
        MessageContent::Nothing => "null"@,
        MessageContent::Text(s) => json_string_text(s@),
        MessageContent::List(items) => list_json(texts(items@)),
        MessageContent::OtherWord { word, who_wins } => other_word_json(word@, who_wins),
    }
}

/// The text of a whole message.
pub open spec fn envelope(message_type: Seq<char>, content: Seq<char>) -> Seq<char> {
    "{\"type\":\""@ + message_type + "\",\"content\":"@ + content + "}"@
}

/// The text of the message of the given type and content.
pub open spec fn message_text(message_type: Seq<char>, c: MessageContent) -> Seq<char> {
    envelope(message_type, content_json(c))
}

impl PlayerView {
    /// The player with one more message at the end of the queue.
    pub open spec fn with_message(self, text: Seq<char>) -> PlayerView {
        PlayerView { messages_to_send: self.messages_to_send.push(text), ..self }
    }
}

impl RoomView {
    /// The room with one more message at the end of each player's queue.
    pub open spec fn with_message_to_both(self, text: Seq<char>) -> RoomView {
        RoomView {
            host_player: self.host_player.with_message(text),
            other_player: match self.other_player {
                Some(o) => Some(o.with_message(text)),
                None => None,
            },
            ..self
        }
    }
}

/// Writes the JSON text of a list of strings.
fn list_text(items: &Vec<String>) -> (r: String)
    ensures
        r@ == list_json(texts(items@)),
{
    let mut out = String::from_str("[");
    let mut i: usize = 0;
    while i < items.len()
        invariant
            i <= items.len(),
            out@ == "["@ + json_items(texts(items@).subrange(0, i as int)),
        decreases items.len() - i,
    {
        proof {
            // The first `i + 1` texts are the first `i` and one more.
            assert(texts(items@).subrange(0, i + 1).drop_last() =~= texts(items@).subrange(
                0,
                i as int,
            ));
        }
        if i > 0 {
            out.append(",");
        }
        let item = json_string(items[i].as_str());
        out.append(item.as_str());
        i = i + 1;
    }
    proof {
        assert(texts(items@).subrange(0, items.len() as int) =~= texts(items@));
    }
    out.append("]");
    out
}

/// Writes the JSON text of a message's content.
fn content_text(message_contents: &MessageContent) -> (r: String)
    ensures
        r@ == content_json(*message_contents),
{
    match message_contents {
        MessageContent::Nothing => String::from_str("null"),
        MessageContent::Text(s) => json_string(s.as_str()),
        MessageContent::List(items) => list_text(items),
        MessageContent::OtherWord { word, who_wins } => {
            let name = match who_wins {
                Winner::You => "you",
                Winner::Other => "other",
                Winner::Nobody => "none",
            };
            let mut out = String::from_str("{\"word\":");
            let word_json = json_string(word.as_str());
            out.append(word_json.as_str());
            out.append(",\"who_wins\":");
            let name_json = json_string(name);
            out.append(name_json.as_str());
            out.append("}");
            out
        },
    }
}

/// Writes the text of the message of the given type and content.
pub fn create_message_text(message_type: &str, message_contents: &MessageContent) -> (r: String)
    ensures
        r@ == message_text(message_type@, *message_contents),
{
    let content = content_text(message_contents);
    let mut out = String::from_str("{\"type\":\"");
    out.append(message_type);
    out.append("\",\"content\":");
    out.append(content.as_str());
    out.append("}");
    out
}

/// Puts a message at the end of a player's queue. Nothing else about the
/// player changes, and nothing already queued moves.
pub fn send_message(player: &mut Player, message_type: &str, message_contents: &MessageContent)
    ensures
        final(player)@ == old(player)@.with_message(message_text(message_type@, *message_contents)),
        final(player).player_info == old(player).player_info,
{
    let text = create_message_text(message_type, message_contents);
    proof {
        lemma_texts_push(player.messages_to_send@, text);
    }
    player.messages_to_send.push(text);
}

/// Puts the same message at the end of the queue of every player in the room.
pub fn send_message_to_both_players(
    room: &mut RoomState,
    message_type: &str,
    message_contents: &MessageContent,
)
    ensures
        final(room)@ == old(room)@.with_message_to_both(
            message_text(message_type@, *message_contents),
        ),
{
    let text = create_message_text(message_type, message_contents);
    proof {
        lemma_texts_push(room.host_player.messages_to_send@, text);
    }
    room.host_player.messages_to_send.push(text.clone());
    match &mut room.other_player {
        Some(other_player) => {
            proof {
                lemma_texts_push(other_player.messages_to_send@, text);
            }
            other_player.messages_to_send.push(text);
        },
        None => {},
    }
}

} // verus!
