//! Wire codec: the JSON envelope exchanged with the chat server.
//!
//! An envelope is written as
//! `{"messageType":<tag>,"dataArray":<list or null>,"data":<string or null>}`,
//! and a chat payload as `{"from":<string>,"message":<string>}`.
use vstd::prelude::*;

verus! {

/// The kind of an envelope, written on the wire as its lowercase name.
#[derive(Clone, Copy, Debug, PartialEq, Eq, Structural)]
pub enum MsgTypes {
    Users,
    Register,
    Message,
}

/// The wire tag of each kind.
pub open spec fn tag_spec(k: MsgTypes) -> Seq<char> {
    match k {
        MsgTypes::Users => "users"@,
        MsgTypes::Register => "register"@,
        MsgTypes::Message => "message"@,
    }
}

/// The wire tag of `k`.
pub fn tag_of(k: MsgTypes) -> (r: &'static str)
    ensures
        r@ == tag_spec(k),
{
    match k {
        MsgTypes::Users => "users",
        MsgTypes::Register => "register",
        MsgTypes::Message => "message",
    }
}

/// The kind whose wire tag is `tag`, if any; tags are matched exactly, case
/// included.
pub open spec fn decoded_kind(tag: Seq<char>) -> Option<MsgTypes> {
    if tag == "users"@ {
        Some(MsgTypes::Users)
    } else if tag == "register"@ {
        Some(MsgTypes::Register)
    } else if tag == "message"@ {
        Some(MsgTypes::Message)
    } else {
        None
    }
}

/// Whether two texts hold the same characters.
pub(crate) fn same_text(a: &str, b: &str) -> (r: bool)
    ensures
        r == (a@ == b@),
{
    a.to_owned() == b.to_owned()
}

/// The kind whose wire tag is `tag`.
pub fn kind_of_tag(tag: &str) -> (r: Option<MsgTypes>)
    ensures
        r == decoded_kind(tag@),
{
    if same_text(tag, "users") {
        Some(MsgTypes::Users)
    } else if same_text(tag, "register") {
        Some(MsgTypes::Register)
    } else if same_text(tag, "message") {
        Some(MsgTypes::Message)
    } else {
        None
    }
}

/// The tag written for a kind reads back as that kind, and no other text
/// reads as it.
pub proof fn lemma_tag_round_trip(k: MsgTypes, tag: Seq<char>)
    ensures
        decoded_kind(tag_spec(k)) == Some(k),
        decoded_kind(tag) == Some(k) ==> tag == tag_spec(k),
{
    reveal_strlit("users");
    reveal_strlit("register");
    reveal_strlit("message");
    assert("users"@ != "register"@ && "users"@ != "message"@ && "register"@ != "message"@) by {
        assert("users"@.len() != "register"@.len());
        assert("users"@[1] != "message"@[1]);
        assert("register"@.len() != "message"@.len());
    }
}

/// The view of a list of strings: the characters of each.
pub open spec fn texts_view(v: Seq<String>) -> Seq<Seq<char>> {
    v.map_values(|s: String| s@)
}

/// The characters of an optional list of strings.
pub open spec fn opt_texts_view(o: Option<Vec<String>>) -> Option<Seq<Seq<char>>> {
    match o {
        Some(v) => Some(texts_view(v@)),
        None => None,
    }
}

/// The characters of an optional string.
pub open spec fn opt_text_view(o: Option<String>) -> Option<Seq<char>> {
    match o {
        Some(s) => Some(s@),
        None => None,
    }
}

/// What an envelope says: its kind, the user list it may carry, and the
/// single string it may carry.
pub struct WireModel {
    pub kind: MsgTypes,
    pub data_array: Option<Seq<Seq<char>>>,
    pub data: Option<Seq<char>>,
}

/// An envelope exchanged with the server. A `Users` envelope carries the full
/// list of online user names in `data_array`; a `Register` envelope carries
/// the chosen user name in `data`, and a `Message` envelope the chat text (or,
/// from the server, a chat payload encoded as JSON) in `data`.
pub struct WireMessage {
    pub message_type: MsgTypes,
    pub data_array: Option<Vec<String>>,
    pub data: Option<String>,
}

impl View for WireMessage {
    type V = WireModel;

    open spec fn view(&self) -> WireModel {
        WireModel {
            kind: self.message_type,
            data_array: opt_texts_view(self.data_array),
            data: opt_text_view(self.data),
        }
    }
}

/// A chat line as the server relays it: who sent it and what it says.
pub struct ChatMessage {
    pub from: String,
    pub message: String,
}

/// What a chat line says: its sender and its text.
pub struct ChatLine {
    pub from: Seq<char>,
    pub message: Seq<char>,
}

impl View for ChatMessage {
    type V = ChatLine;

    open spec fn view(&self) -> ChatLine {
        ChatLine { from: self.from@, message: self.message@ }
    }
}

/// The JSON string literal that `serde_json` writes for a text: quoted, with
/// its special characters escaped.
pub uninterp spec fn json_string(s: Seq<char>) -> Seq<char>;

/// Relies on `serde_json::to_string` applied to a `str`: the JSON string
/// literal of the text, which depends on the text alone. Serialising a `str`
/// has no failing case (the error cases are a failing `Serialize` impl and
/// non-string map keys).
#[verifier::external_body]
fn quote(s: &str) -> (r: String)
    ensures
        r@ == json_string(s@),
{
    serde_json::to_string(s).unwrap()
}

/// JSON texts joined by commas.
pub open spec fn joined(items: Seq<Seq<char>>) -> Seq<char>
    decreases items.len(),
{
    if items.len() == 0 {
        Seq::empty()
    } else if items.len() == 1 {
        items[0]
    } else {
        joined(items.drop_last()) + ","@ + items.last()
    }
}

/// The JSON text of an optional value, given the text of the value itself.
pub open spec fn or_null(o: Option<Seq<char>>) -> Seq<char> {
    match o {
        Some(t) => t,
        None => "null"@,
    }
}

/// The JSON text of an optional list, given the texts of its items.
pub open spec fn list_or_null(o: Option<Seq<Seq<char>>>) -> Seq<char> {
    match o {
        Some(items) => "["@ + joined(items) + "]"@,
        None => "null"@,
    }
}

/// The envelope text for a kind, given the JSON texts of the list items and
/// of the single string.
pub open spec fn envelope_text(
    kind: MsgTypes,
    items: Option<Seq<Seq<char>>>,
    data: Option<Seq<char>>,
) -> Seq<char> {
    "{\"messageType\":\""@ + tag_spec(kind) + "\",\"dataArray\":"@ + list_or_null(items)
        + ",\"data\":"@ + or_null(data) + "}"@
}

/// The JSON string literals of a list of texts.
pub open spec fn quoted_all(v: Seq<Seq<char>>) -> Seq<Seq<char>> {
    v.map_values(|s: Seq<char>| json_string(s))
}

/// The wire text of an envelope.
pub open spec fn wire_text(m: WireModel) -> Seq<char> {
    envelope_text(
        m.kind,
        match m.data_array {
            Some(v) => Some(quoted_all(v)),
            None => None,
        },
        match m.data {
            Some(d) => Some(json_string(d)),
            None => None,
        },
    )
}

/// The envelope that registers `username`.
pub open spec fn register_model(username: Seq<char>) -> WireModel {
    WireModel { kind: MsgTypes::Register, data_array: None, data: Some(username) }
}

/// The envelope that submits the chat text `text`.
pub open spec fn message_model(text: Seq<char>) -> WireModel {
    WireModel { kind: MsgTypes::Message, data_array: None, data: Some(text) }
}

/// The chat payload text, given the JSON texts of its two fields.
pub open spec fn payload_text(from: Seq<char>, message: Seq<char>) -> Seq<char> {
    "{\"from\":"@ + from + ",\"message\":"@ + message + "}"@
}

/// Joins JSON texts with commas.
pub fn join_items(items: &Vec<String>) -> (r: String)
    ensures
        r@ == joined(texts_view(items@)),
{
    let mut out = String::new();
    let mut i: usize = 0;
    while i < items.len()
        invariant
            i <= items@.len(),
            out@ == joined(texts_view(items@.subrange(0, i as int))),
        decreases items@.len() - i,
    {
        proof {
            let next = texts_view(items@.subrange(0, i as int + 1));
            assert(next.drop_last() =~= texts_view(items@.subrange(0, i as int)));
        }
        if i > 0 {
            out.append(",");
        }
        out.append(items[i].as_str());
        i = i + 1;
    }
    assert(items@.subrange(0, items@.len() as int) =~= items@);
    out
}

/// Writes an envelope of kind `kind` around the given JSON texts: `items` are
/// the texts of the list items, `data` the text of the single string.
pub fn assemble_envelope(kind: MsgTypes, items: Option<&Vec<String>>, data: Option<&str>) -> (r: String)
    ensures
        r@ == envelope_text(
            kind,
            match items {
                Some(v) => Some(texts_view(v@)),
                None => None,
            },
            match data {
                Some(d) => Some(d@),
                None => None,
            },
        ),
{
    let mut out = String::from_str("{\"messageType\":\"");
    out.append(tag_of(kind));
    out.append("\",\"dataArray\":");
    match items {
        Some(v) => {
            out.append("[");
            let body = join_items(v);
            out.append(body.as_str());
            out.append("]");
        },
        None => {
            out.append("null");
        },
    }
    out.append(",\"data\":");
    match data {
        Some(d) => {
            out.append(d);
        },
        None => {
            out.append("null");
        },
    }
    out.append("}");
    out
}

/// The wire text of an envelope.
pub fn encode(m: &WireMessage) -> (r: String)
    ensures
        r@ == wire_text(m@),
{
    let quoted_data: Option<String> = match &m.data {
        Some(d) => Some(quote(d.as_str())),
        None => None,
    };
    let data_text: Option<&str> = match &quoted_data {
        Some(q) => Some(q.as_str()),
        None => None,
    };
    match &m.data_array {
        Some(v) => {
            let mut items: Vec<String> = Vec::new();
            let mut i: usize = 0;
            while i < v.len()
                invariant
                    i <= v@.len(),
                    items@.len() == i,
                    texts_view(items@) == quoted_all(texts_view(v@.subrange(0, i as int))),
                decreases v@.len() - i,
            {
                let ghost before = items@;
                items.push(quote(v[i].as_str()));
                proof {
                    let target = quoted_all(texts_view(v@.subrange(0, i as int + 1)));
                    assert forall|j: int| 0 <= j < i + 1 implies texts_view(items@)[j] == target[j] by {
                        if j < i {
                            assert(texts_view(before)[j] == quoted_all(
                                texts_view(v@.subrange(0, i as int)),
                            )[j]);
                        }
                    }
                    assert(texts_view(items@) =~= target);
                }
                i = i + 1;
            }
            assert(v@.subrange(0, v@.len() as int) =~= v@);
            assemble_envelope(m.message_type, Some(&items), data_text)
        },
        None => assemble_envelope(m.message_type, None, data_text),
    }
}

/// The text that registers `username`, which is sent as it is.
pub fn encode_register(username: &str) -> (r: String)
    ensures
        r@ == wire_text(register_model(username@)),
{
    let q = quote(username);
    assemble_envelope(MsgTypes::Register, None, Some(q.as_str()))
}

/// The text that submits the chat text `text`.
pub fn encode_chat_message(text: &str) -> (r: String)
    ensures
        r@ == wire_text(message_model(text@)),
{
    let q = quote(text);
    assemble_envelope(MsgTypes::Message, None, Some(q.as_str()))
}

/// Writes a chat payload around the JSON texts of its two fields.
pub fn assemble_payload(from: &str, message: &str) -> (r: String)
    ensures
        r@ == payload_text(from@, message@),
{
    let mut out = String::from_str("{\"from\":");
    out.append(from);
    out.append(",\"message\":");
    out.append(message);
    out.append("}");
    out
}

/// The JSON text of a chat payload, as the server nests it in a `Message`
/// envelope.
pub fn encode_chat_payload(c: &ChatMessage) -> (r: String)
    ensures
        r@ == payload_text(json_string(c.from@), json_string(c.message@)),
{
    let f = quote(c.from.as_str());
    let m = quote(c.message.as_str());
    assemble_payload(f.as_str(), m.as_str())
}

/// Why a frame from the server was not taken.
pub enum DecodeError {
    /// The text is not a JSON envelope of the expected shape.
    Malformed,
    /// The envelope's kind tag names no known kind.
    UnknownKind,
    /// A `Message` envelope carries no valid chat payload.
    BadPayload,
}

/// The fields that a JSON reader finds in an envelope, before its kind tag
/// is checked.
pub struct RawEnvelope {
    pub message_type: String,
    pub data_array: Option<Vec<String>>,
    pub data: Option<String>,
}

/// Checks the kind tag of an envelope that was read: an unknown tag is
/// refused, and the other fields are kept as they are.
pub fn decode(raw: RawEnvelope) -> (r: Result<WireMessage, DecodeError>)
    ensures
        decoded_kind(raw.message_type@) is None <==> r is Err,
        r matches Err(e) ==> e is UnknownKind,
        r matches Ok(m) ==> {
            &&& decoded_kind(raw.message_type@) == Some(m.message_type)
            &&& m.data_array == raw.data_array
            &&& m.data == raw.data
        },
{
    match kind_of_tag(raw.message_type.as_str()) {
        Some(k) => Ok(WireMessage { message_type: k, data_array: raw.data_array, data: raw.data }),
        None => Err(DecodeError::UnknownKind),
    }
}

} // verus!
