//! The session state machine: the online users and the message history, the
//! folding of server frames into them, the handling of submitted input, and
//! the view derived from them for rendering.
use vstd::prelude::*;

use crate::codec::{
    encode_chat_message, encode_register, message_model, opt_text_view, register_model,
    same_text, wire_text, ChatLine, ChatMessage, DecodeError, MsgTypes, WireMessage, WireModel,
};

verus! {

/// The address of the avatar drawn for a user name.
pub open spec fn avatar_spec(name: Seq<char>) -> Seq<char> {
    "https://avatars.dicebear.com/api/adventurer-neutral/"@ + name + ".svg"@
}

/// The address of the avatar drawn for `name`.
pub fn avatar_url(name: &str) -> (r: String)
    ensures
        r@ == avatar_spec(name@),
{
    let mut out = String::from_str("https://avatars.dicebear.com/api/adventurer-neutral/");
    out.append(name);
    out.append(".svg");
    out
}

/// An online user as shown: the name and the avatar drawn for it.
pub struct UserProfile {
    pub name: String,
    pub avatar: String,
}

impl UserProfile {
    /// A profile whose avatar is the one drawn for its name.
    pub open spec fn wf(&self) -> bool {
        self.avatar@ == avatar_spec(self.name@)
    }
}

/// The profile of the user called `name`.
pub fn profile_of(name: &str) -> (r: UserProfile)
    ensures
        r.name@ == name@,
        r.wf(),
{
    UserProfile { name: name.to_owned(), avatar: avatar_url(name) }
}

/// The names of a list of profiles.
pub open spec fn names_of(v: Seq<UserProfile>) -> Seq<Seq<char>> {
    v.map_values(|u: UserProfile| u.name@)
}

/// Every profile of the list has the avatar drawn for its name.
pub open spec fn all_wf(v: Seq<UserProfile>) -> bool {
    forall|i: int| 0 <= i < v.len() ==> (#[trigger] v[i]).wf()
}

/// The profiles of a list of names, in the same order.
pub fn profiles_of(names: &Vec<String>) -> (r: Vec<UserProfile>)
    ensures
        names_of(r@) == crate::codec::texts_view(names@),
        all_wf(r@),
{
    let mut out: Vec<UserProfile> = Vec::new();
    let mut i: usize = 0;
    while i < names.len()
        invariant
            i <= names@.len(),
            out@.len() == i,
            forall|j: int| 0 <= j < i ==> (#[trigger] out@[j]).name@ == names@[j]@,
            all_wf(out@),
        decreases names@.len() - i,
    {
        out.push(profile_of(names[i].as_str()));
        i = i + 1;
    }
    assert(names_of(out@) =~= crate::codec::texts_view(names@));
    out
}

/// Whether a chat text is shown as an image: it ends with `.gif`, case
/// included.
pub open spec fn is_image_spec(s: Seq<char>) -> bool {
    s.len() >= 4 && s.subrange(s.len() - 4, s.len() as int) == seq!['.', 'g', 'i', 'f']
}

/// Whether the chat text `message` is shown as an image.
pub fn is_image(message: &str) -> (r: bool)
    ensures
        r == is_image_spec(message@),
{
    let n = message.unicode_len();
    if n < 4 {
        return false;
    }
    let a = message.get_char(n - 4);
    let b = message.get_char(n - 3);
    let c = message.get_char(n - 2);
    let d = message.get_char(n - 1);
    let r = a == '.' && b == 'g' && c == 'i' && d == 'f';
    proof {
        let tail = message@.subrange(n - 4, n as int);
        if r {
            assert(tail =~= seq!['.', 'g', 'i', 'f']);
        } else if tail == seq!['.', 'g', 'i', 'f'] {
            assert(tail[0] == a && tail[1] == b && tail[2] == c && tail[3] == d);
        }
    }
    r
}

/// What a session holds: the names of the online users, in the order the
/// server listed them, and the chat lines received, in arrival order.
pub struct ChatModel {
    pub users: Seq<Seq<char>>,
    pub history: Seq<ChatLine>,
}

/// The chat lines of a list of messages.
pub open spec fn lines_of(v: Seq<ChatMessage>) -> Seq<ChatLine> {
    v.map_values(|m: ChatMessage| m@)
}

/// The envelope of a frame that decoded, or nothing for one that did not.
pub open spec fn frame_view(f: Result<WireMessage, DecodeError>) -> Option<WireModel> {
    match f {
        Ok(m) => Some(m@),
        Err(_) => None,
    }
}

/// The chat line of a payload that decoded, if it did.
pub open spec fn payload_view(p: Option<ChatMessage>) -> Option<ChatLine> {
    match p {
        Some(c) => Some(c@),
        None => None,
    }
}

/// The session after one frame from the server, and whether it changed.
/// `frame` is the envelope, if it decoded; `payload` is the chat line that the
/// envelope's single string decoded to, if it did. A `Users` envelope replaces
/// the user list wholesale (an absent list empties it); a `Message` envelope
/// with a string and a decoded payload appends that line to the history;
/// anything else changes nothing.
pub open spec fn fold_spec(
    s: ChatModel,
    frame: Option<WireModel>,
    payload: Option<ChatLine>,
) -> (ChatModel, bool) {
    match frame {
        Some(m) => match m.kind {
            MsgTypes::Users => (
                ChatModel {
                    users: match m.data_array {
                        Some(names) => names,
                        None => Seq::empty(),
                    },
                    history: s.history,
                },
                true,
            ),
            MsgTypes::Message => match (m.data, payload) {
                (Some(_), Some(line)) => (
                    ChatModel { users: s.users, history: s.history.push(line) },
                    true,
                ),
                _ => (s, false),
            },
            MsgTypes::Register => (s, false),
        },
        None => (s, false),
    }
}

/// The frame to send for submitted input whose trimmed text is `text`:
/// nothing for a blank text, else a `Message` envelope carrying it.
pub open spec fn submit_spec(text: Seq<char>) -> Option<Seq<char>> {
    if text.len() == 0 {
        None
    } else {
        Some(wire_text(message_model(text)))
    }
}

/// Input text with leading and trailing white space removed, as `str::trim`
/// gives it.
pub uninterp spec fn trimmed(s: Seq<char>) -> Seq<char>;

/// Relies on `str::trim`: the text without its leading and trailing white
/// space, which depends on the text alone; an empty text stays empty.
#[verifier::external_body]
fn trim_input(s: &str) -> (r: &str)
    ensures
        r@ == trimmed(s@),
        s@.len() == 0 ==> r@.len() == 0,
{
    s.trim()
}

/// The frame to send for input whose trimmed text is `text`.
pub fn submit_trimmed(text: &str) -> (r: Option<String>)
    ensures
        opt_text_view(r) == submit_spec(text@),
{
    if text.unicode_len() == 0 {
        None
    } else {
        Some(encode_chat_message(text))
    }
}

/// What a session does after an event: whether its state changed, so that
/// the view is drawn again, and the frame to send, if any.
pub struct Outcome {
    pub changed: bool,
    pub outbound: Option<String>,
}

/// An event of a session: a frame from the server (its envelope, if it
/// decoded, and the chat payload its single string decoded to, if it did), or
/// the raw text of the input box when the user submits it.
pub enum Msg {
    HandleMsg(Result<WireMessage, DecodeError>, Option<ChatMessage>),
    SubmitMessage(String),
}

/// The avatar shown beside a line from `from`: the one drawn for that name
/// when a user of that name is online, else none (a placeholder is shown).
pub open spec fn avatar_for(users: Seq<Seq<char>>, from: Seq<char>) -> Option<Seq<char>> {
    if users.contains(from) {
        Some(avatar_spec(from))
    } else {
        None
    }
}

/// One line of the history as shown.
pub struct MessageEntry {
    pub from: String,
    pub message: String,
    pub avatar: Option<String>,
    pub is_image: bool,
}

impl MessageEntry {
    /// The entry shows `line`, with the avatar found among `users`.
    pub open spec fn shows(&self, users: Seq<Seq<char>>, line: ChatLine) -> bool {
        &&& self.from@ == line.from
        &&& self.message@ == line.message
        &&& opt_text_view(self.avatar) == avatar_for(users, line.from)
        &&& self.is_image == is_image_spec(line.message)
    }
}

/// What is drawn for a session: the online users and the history.
pub struct ChatView {
    pub users: Vec<UserProfile>,
    pub messages: Vec<MessageEntry>,
}

/// The client's side of one chat session.
pub struct Chat {
    users: Vec<UserProfile>,
    messages: Vec<ChatMessage>,
}

impl Chat {
    /// What the session holds.
    pub closed spec fn model(&self) -> ChatModel {
        ChatModel { users: names_of(self.users@), history: lines_of(self.messages@) }
    }

    /// Every online user has the avatar drawn for their name.
    pub closed spec fn wf(&self) -> bool {
        all_wf(self.users@)
    }

    /// Starts a session for `username`: no users, no history, and the frame
    /// that registers the name, which is sent as it is.
    pub fn create(username: &str) -> (r: (Chat, String))
        ensures
            r.0.wf(),
            r.0.model().users.len() == 0,
            r.0.model().history.len() == 0,
            r.1@ == wire_text(register_model(username@)),
    {
        let chat = Chat { users: Vec::new(), messages: Vec::new() };
        proof {
            assert(chat.model().users =~= Seq::<Seq<char>>::empty());
            assert(chat.model().history =~= Seq::<ChatLine>::empty());
        }
        (chat, encode_register(username))
    }

    /// Folds one frame from the server into the session and says whether it
    /// changed. Frames that did not decode change nothing.
    pub fn handle_frame(
        &mut self,
        frame: Result<WireMessage, DecodeError>,
        payload: Option<ChatMessage>,
    ) -> (changed: bool)
        requires
            old(self).wf(),
        ensures
            final(self).wf(),
            (final(self).model(), changed) == fold_spec(
                old(self).model(),
                frame_view(frame),
                payload_view(payload),
            ),
    {
        match frame {
            Ok(m) => match m.message_type {
                MsgTypes::Users => {
                    let names = match m.data_array {
                        Some(v) => v,
                        None => Vec::new(),
                    };
                    self.users = profiles_of(&names);
                    proof {
                        if m.data_array is None {
                            assert(crate::codec::texts_view(names@) =~= Seq::<Seq<char>>::empty());
                        }
                    }
                    true
                },
                MsgTypes::Message => match (m.data, payload) {
                    (Some(_), Some(line)) => {
                        self.messages.push(line);
                        assert(lines_of(self.messages@) =~= old(self).model().history.push(line@));
                        true
                    },
                    _ => false,
                },
                MsgTypes::Register => false,
            },
            Err(_) => false,
        }
    }

    /// The frame to send for the raw text of the input box: nothing when its
    /// trimmed text is blank, else a `Message` envelope carrying the trimmed
    /// text. The session itself does not change.
    pub fn submit_message(&self, raw_input: &str) -> (r: Option<String>)
        ensures
            opt_text_view(r) == submit_spec(trimmed(raw_input@)),
    {
        submit_trimmed(trim_input(raw_input))
    }

    /// Handles one event.
    pub fn update(&mut self, msg: Msg) -> (r: Outcome)
        requires
            old(self).wf(),
        ensures
            final(self).wf(),
            match msg {
                Msg::HandleMsg(frame, payload) => {
                    &&& (final(self).model(), r.changed) == fold_spec(
                        old(self).model(),
                        frame_view(frame),
                        payload_view(payload),
                    )
                    &&& r.outbound is None
                },
                Msg::SubmitMessage(raw) => {
                    &&& final(self).model() == old(self).model()
                    &&& !r.changed
                    &&& opt_text_view(r.outbound) == submit_spec(trimmed(raw@))
                },
            },
    {
        match msg {
            Msg::HandleMsg(frame, payload) => {
                let changed = self.handle_frame(frame, payload);
                Outcome { changed, outbound: None }
            },
            Msg::SubmitMessage(raw) => {
                let outbound = self.submit_message(raw.as_str());
                Outcome { changed: false, outbound }
            },
        }
    }

    /// The online users, in the order the server listed them.
    pub fn users(&self) -> (r: &Vec<UserProfile>)
        requires
            self.wf(),
        ensures
            names_of(r@) == self.model().users,
            all_wf(r@),
    {
        &self.users
    }

    /// The chat lines received, in arrival order.
    pub fn messages(&self) -> (r: &Vec<ChatMessage>)
        ensures
            lines_of(r@) == self.model().history,
    {
        &self.messages
    }

    /// The first online user called `name`, if any.
    pub fn find_user(&self, name: &str) -> (r: Option<&UserProfile>)
        requires
            self.wf(),
        ensures
            r is Some <==> self.model().users.contains(name@),
            r matches Some(u) ==> u.name@ == name@ && u.wf(),
    {
        let mut i: usize = 0;
        while i < self.users.len()
            invariant
                self.wf(),
                i <= self.users@.len(),
                forall|j: int| 0 <= j < i ==> self.users@[j].name@ != name@,
            decreases self.users@.len() - i,
        {
            if same_text(self.users[i].name.as_str(), name) {
                assert(self.model().users[i as int] == name@);
                assert(self.users@[i as int].wf());
                return Some(&self.users[i]);
            }
            i = i + 1;
        }
        proof {
            if self.model().users.contains(name@) {
                let k = choose|k: int| 0 <= k < self.model().users.len() && self.model().users[k] == name@;
                assert(self.users@[k].name@ == name@);
            }
        }
        None
    }

    /// How one chat line is shown in this session.
    pub fn entry_of(&self, m: &ChatMessage) -> (r: MessageEntry)
        requires
            self.wf(),
        ensures
            r.shows(self.model().users, m@),
    {
        let avatar = match self.find_user(m.from.as_str()) {
            Some(u) => Some(u.avatar.clone()),
            None => None,
        };
        MessageEntry {
            from: m.from.clone(),
            message: m.message.clone(),
            avatar,
            is_image: is_image(m.message.as_str()),
        }
    }

    /// What is drawn: the online users, and each line of the history with the
    /// avatar of its sender and whether it is shown as an image.
    pub fn view(&self) -> (r: ChatView)
        requires
            self.wf(),
        ensures
            names_of(r.users@) == self.model().users,
            all_wf(r.users@),
            r.messages@.len() == self.model().history.len(),
            forall|i: int|
                0 <= i < r.messages@.len() ==> (#[trigger] r.messages@[i]).shows(
                    self.model().users,
                    self.model().history[i],
                ),
    {
        let mut users: Vec<UserProfile> = Vec::new();
        let mut i: usize = 0;
        while i < self.users.len()
            invariant
                self.wf(),
                i <= self.users@.len(),
                users@.len() == i,
                forall|j: int| 0 <= j < i ==> (#[trigger] users@[j]).name@ == self.users@[j].name@,
                all_wf(users@),
            decreases self.users@.len() - i,
        {
            let u = &self.users[i];
            users.push(UserProfile { name: u.name.clone(), avatar: u.avatar.clone() });
            i = i + 1;
        }
        assert(names_of(users@) =~= self.model().users);
        let mut messages: Vec<MessageEntry> = Vec::new();
        let mut k: usize = 0;
        while k < self.messages.len()
            invariant
                self.wf(),
                k <= self.messages@.len(),
                messages@.len() == k,
                forall|j: int|
                    0 <= j < k ==> (#[trigger] messages@[j]).shows(
                        self.model().users,
                        self.model().history[j],
                    ),
            decreases self.messages@.len() - k,
        {
            let e = self.entry_of(&self.messages[k]);
            messages.push(e);
            k = k + 1;
        }
        ChatView { users, messages }
    }
}

/// A frame as the session folds it: its envelope, if it decoded, and the
/// chat line its payload decoded to, if it did.
pub type Inbound = (Option<WireModel>, Option<ChatLine>);

/// The session after a run of frames, folded in arrival order.
pub open spec fn fold_all(s: ChatModel, events: Seq<Inbound>) -> ChatModel
    decreases events.len(),
{
    if events.len() == 0 {
        s
    } else {
        fold_spec(fold_all(s, events.drop_last()), events.last().0, events.last().1).0
    }
}

/// Whether a frame carries a chat line that the session takes: a `Message`
/// envelope with a string whose payload decoded.
pub open spec fn adds_line(e: Inbound) -> bool {
    &&& e.0 matches Some(m)
    &&& m.kind is Message
    &&& m.data is Some
    &&& e.1 is Some
}

/// How many frames of a run carry a chat line that the session takes.
pub open spec fn lines_added(events: Seq<Inbound>) -> nat
    decreases events.len(),
{
    if events.len() == 0 {
        0
    } else {
        lines_added(events.drop_last()) + if adds_line(events.last()) {
            1nat
        } else {
            0nat
        }
    }
}

/// A `Users` frame replaces the user list with the list it carries, in its
/// order, whatever the list was before, and leaves the history alone.
pub proof fn lemma_users_replaced(s: ChatModel, m: WireModel, payload: Option<ChatLine>)
    requires
        m.kind is Users,
    ensures
        fold_spec(s, Some(m), payload).0.users == match m.data_array {
            Some(names) => names,
            None => Seq::<Seq<char>>::empty(),
        },
        fold_spec(s, Some(m), payload).0.history == s.history,
{
}

/// A frame that did not decode changes nothing.
pub proof fn lemma_noise_ignored(s: ChatModel, payload: Option<ChatLine>)
    ensures
        fold_spec(s, None, payload) == (s, false),
{
}

/// Input that is blank once trimmed sends nothing.
pub proof fn lemma_blank_input_sends_nothing(raw: Seq<char>)
    requires
        trimmed(raw).len() == 0,
    ensures
        submit_spec(trimmed(raw)) is None,
{
}

/// One frame appends exactly its chat line to the history when it carries
/// one the session takes, and otherwise leaves the history as it was.
pub proof fn lemma_history_step(s: ChatModel, e: Inbound)
    ensures
        fold_spec(s, e.0, e.1).0.history == if adds_line(e) {
            s.history.push(e.1->Some_0)
        } else {
            s.history
        },
{
}

/// Over any run of frames the history only grows at its end: what it held
/// stays, in its order, and it gains exactly one line per frame that carries
/// a chat line the session takes.
pub proof fn lemma_history_append_only(s: ChatModel, events: Seq<Inbound>)
    ensures
        fold_all(s, events).history.len() == s.history.len() + lines_added(events),
        fold_all(s, events).history.subrange(0, s.history.len() as int) == s.history,
    decreases events.len(),
{
    if events.len() > 0 {
        let before = fold_all(s, events.drop_last());
        lemma_history_append_only(s, events.drop_last());
        lemma_history_step(before, events.last());
        assert(fold_all(s, events).history.subrange(0, s.history.len() as int)
            =~= before.history.subrange(0, s.history.len() as int));
    }
}

} // verus!
