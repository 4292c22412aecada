//! The chat transcript: its lines, their display times, the input line and
//! the rules for lines that arrive from elsewhere.

use vstd::prelude::*;
use vstd::string::StringExecFns;
use crate::text::{is_blank, trim, has_prefix, blank, trimmed, starts_with, text_eq, skip_chars, concat};
use crate::clock::{
    clock_text, is_clock_shape, is_clock_reading, clock_string, current_timestamp_string,
    lemma_clock_text_shape,
};
use crate::audit::{rfc3339_clock, rfc3339_time_of_day};

verus! {

/// Where a chat line comes from.
#[derive(Clone, Copy, Debug, PartialEq, Eq, Structural)]
pub enum MessageSource {
    /// Typed into the input line.
    Human,
    /// Produced by this application.
    System,
    /// Received over the HTTP API.
    Api,
    /// A reply of the model server.
    Assistant,
}

/// Which lines run the model pipeline: what a person types, and API lines
/// that ask for it.
pub open spec fn dispatches_to_model(source: MessageSource, api_auto_respond: bool) -> bool {
    match source {
        MessageSource::Human => true,
        MessageSource::Api => api_auto_respond,
        _ => false,
    }
}

/// Whether a line that arrives in the inbox is handed to the model.
pub fn should_dispatch_to_model(source: MessageSource, api_auto_respond: bool) -> (b: bool)
    ensures
        b == dispatches_to_model(source, api_auto_respond),
{
    match source {
        MessageSource::Human => true,
        MessageSource::Api => api_auto_respond,
        _ => false,
    }
}

/// Identifiers and time that tie a chat line to the audit log.
#[derive(Debug)]
pub struct MessageCorrelation {
    pub conversation_id: String,
    pub event_id: String,
    pub request_id: String,
    pub timestamp_rfc3339: String,
}

impl Clone for MessageCorrelation {
    fn clone(&self) -> (r: Self)
        ensures
            r == *self,
    {
        MessageCorrelation {
            conversation_id: self.conversation_id.clone(),
            event_id: self.event_id.clone(),
            request_id: self.request_id.clone(),
            timestamp_rfc3339: self.timestamp_rfc3339.clone(),
        }
    }
}

/// Generation settings attached to a reply of the model server.
#[derive(Debug)]
pub struct AssistantGeneration {
    pub model: String,
    pub num_predict: Option<i32>,
}

impl Clone for AssistantGeneration {
    fn clone(&self) -> (r: Self)
        ensures
            r == *self,
    {
        AssistantGeneration { model: self.model.clone(), num_predict: self.num_predict }
    }
}

/// One line of the chat.
#[derive(Debug)]
pub struct ChatMessage {
    pub content: String,
    pub from: Option<String>,
    pub correlation: Option<MessageCorrelation>,
    pub source: MessageSource,
    /// For [`MessageSource::Api`] only: when `true`, the line runs the same
    /// model pipeline as typed input.
    pub api_auto_respond: bool,
    /// Set on replies of the model server.
    pub assistant_generation: Option<AssistantGeneration>,
}

fn clone_opt_string(s: &Option<String>) -> (r: Option<String>)
    ensures
        r == *s,
{
    match s {
        Some(x) => Some(x.clone()),
        None => None,
    }
}

impl Clone for ChatMessage {
    fn clone(&self) -> (r: Self)
        ensures
            r == *self,
    {
        let correlation = match &self.correlation {
            Some(c) => Some(c.clone()),
            None => None,
        };
        let assistant_generation = match &self.assistant_generation {
            Some(g) => Some(g.clone()),
            None => None,
        };
        ChatMessage {
            content: self.content.clone(),
            from: clone_opt_string(&self.from),
            correlation,
            source: self.source,
            api_auto_respond: self.api_auto_respond,
            assistant_generation,
        }
    }
}

/// The sender name of a line, as text.
pub open spec fn sender(m: ChatMessage) -> Option<Seq<char>> {
    match m.from {
        Some(f) => Some(f@),
        None => None,
    }
}

/// A line of this application with the given text, not tied to the log.
pub open spec fn is_system_line(m: ChatMessage, text: Seq<char>) -> bool {
    &&& m.content@ == text
    &&& sender(m) == Some("System"@)
    &&& m.correlation is None
    &&& m.source == MessageSource::System
    &&& !m.api_auto_respond
    &&& m.assistant_generation is None
}

/// A line typed by the person at the keyboard.
pub open spec fn is_human_line(m: ChatMessage, text: Seq<char>) -> bool {
    &&& m.content@ == text
    &&& sender(m) == Some("Human"@)
    &&& m.correlation is None
    &&& m.source == MessageSource::Human
    &&& !m.api_auto_respond
    &&& m.assistant_generation is None
}

/// The first line of a fresh transcript.
pub open spec fn welcome_text() -> Seq<char> {
    "openchat-cogsci Started"@
}

/// A line from this application that carries `text`.
pub fn system_message(text: &str) -> (m: ChatMessage)
    ensures
        is_system_line(m, text@),
{
    ChatMessage {
        content: String::from_str(text),
        from: Some(String::from_str("System")),
        correlation: None,
        source: MessageSource::System,
        api_auto_respond: false,
        assistant_generation: None,
    }
}

/// The time shown next to a line: `HH:MM:SS` of its RFC 3339 timestamp where
/// it carries one that parses, else the current UTC time of day.
pub open spec fn is_display_time(m: ChatMessage, ts: Seq<char>) -> bool {
    &&& is_clock_shape(ts)
    &&& match m.correlation {
        Some(c) => match rfc3339_clock(c.timestamp_rfc3339@) {
            Some((h, mi, s)) => ts == clock_text(h as nat, mi as nat, s as nat),
            None => is_clock_reading(ts),
        },
        None => is_clock_reading(ts),
    }
}

/// The time shown next to a line.
pub fn display_time_for_message(msg: &ChatMessage) -> (r: String)
    ensures
        is_display_time(*msg, r@),
{
    let parsed = match &msg.correlation {
        Some(c) => rfc3339_time_of_day(c.timestamp_rfc3339.as_str()),
        None => None,
    };
    match parsed {
        Some((h, m, s)) => {
            proof {
                lemma_clock_text_shape(h as nat, m as nat, s as nat);
            }
            clock_string(h as u64, m as u64, s as u64)
        },
        None => current_timestamp_string(),
    }
}

/// The notice given when a line is sent and nothing handles it.
pub fn select_model_notice() -> (m: ChatMessage)
    ensures
        is_system_line(m, "Please select a model"@),
{
    system_message("Please select a model")
}

/// A line from this application (`System`) with the given text.
pub fn notice(text: &str) -> (m: ChatMessage)
    ensures
        is_system_line(m, text@),
{
    system_message(text)
}

/// The abstract state of a transcript.
pub struct ChatState {
    pub messages: Seq<ChatMessage>,
    pub timestamps: Seq<Seq<char>>,
    pub input: Seq<char>,
    pub picked_file: Option<Seq<char>>,
    pub input_enabled: bool,
}

/// The transcript of the chat panel and its input line.
pub struct ChatExample {
    messages: Vec<ChatMessage>,
    message_timestamps: Vec<String>,
    input_text: String,
    picked_file_path: Option<String>,
    main_input_enabled: bool,
}

/// The texts of a list of strings.
pub open spec fn texts(v: Seq<String>) -> Seq<Seq<char>> {
    v.map_values(|s: String| s@)
}

/// The row exported for line `i`: its timestamp (the RFC 3339 one when the
/// line carries it, else its display time, else `--:--:--`), its sender
/// (`Unknown` when it has none) and its text.
pub open spec fn export_row(st: ChatState, i: int) -> (Seq<char>, Seq<char>, Seq<char>) {
    let m = st.messages[i];
    let ts = match m.correlation {
        Some(c) => c.timestamp_rfc3339@,
        None => if i < st.timestamps.len() {
            st.timestamps[i]
        } else {
            "--:--:--"@
        },
    };
    let from = match m.from {
        Some(f) => f@,
        None => "Unknown"@,
    };
    (ts, from, m.content@)
}

/// `after` is `before` with lines appended, each with its display time:
/// nothing is removed or reordered, and the lines and the display times
/// grow by the same count.
pub open spec fn grows_in_pairs(before: ChatState, after: ChatState) -> bool {
    &&& before.messages.len() <= after.messages.len()
    &&& after.messages.subrange(0, before.messages.len() as int) == before.messages
    &&& before.timestamps.len() <= after.timestamps.len()
    &&& after.timestamps.subrange(0, before.timestamps.len() as int) == before.timestamps
    &&& after.messages.len() - before.messages.len() == after.timestamps.len()
        - before.timestamps.len()
}

/// Steps that grow a transcript in pairs compose: a whole frame of arriving
/// and sent lines keeps every earlier line and pairs each new line with its
/// display time; a transcript whose lines and times were aligned stays so.
pub proof fn law_grows_in_pairs(a: ChatState, b: ChatState, c: ChatState)
    ensures
        grows_in_pairs(a, a),
        grows_in_pairs(a, b) && grows_in_pairs(b, c) ==> grows_in_pairs(a, c),
        grows_in_pairs(a, b) && a.messages.len() == a.timestamps.len() ==> b.messages.len()
            == b.timestamps.len(),
{
    assert(a.messages.subrange(0, a.messages.len() as int) =~= a.messages);
    assert(a.timestamps.subrange(0, a.timestamps.len() as int) =~= a.timestamps);
    if grows_in_pairs(a, b) && grows_in_pairs(b, c) {
        assert(c.messages.subrange(0, a.messages.len() as int) =~= c.messages.subrange(
            0,
            b.messages.len() as int,
        ).subrange(0, a.messages.len() as int));
        assert(c.timestamps.subrange(0, a.timestamps.len() as int) =~= c.timestamps.subrange(
            0,
            b.timestamps.len() as int,
        ).subrange(0, a.timestamps.len() as int));
    }
}

/// One display time per line.
pub open spec fn is_aligned(st: ChatState) -> bool {
    st.messages.len() == st.timestamps.len()
}

/// A frame of the chat panel is a run of transcript states, each step of
/// which appends lines with their display times (as `accept_incoming` and
/// `submit_input` do). Over the whole frame no earlier line or time is
/// removed or reordered, lines and display times grow by the same count, and
/// a transcript with one display time per line keeps one per line.
pub proof fn law_frame_grows_in_pairs(states: Seq<ChatState>)
    requires
        states.len() > 0,
        forall|i: int|
            0 <= i < states.len() - 1 ==> #[trigger] grows_in_pairs(states[i], states[i + 1]),
    ensures
        grows_in_pairs(states[0], states.last()),
        is_aligned(states[0]) ==> is_aligned(states.last()),
    decreases states.len(),
{
    law_grows_in_pairs(states[0], states[0], states[0]);
    if states.len() > 1 {
        let n = states.len() as int;
        let prefix = states.drop_last();
        assert forall|i: int| 0 <= i < prefix.len() - 1 implies #[trigger] grows_in_pairs(
            prefix[i],
            prefix[i + 1],
        ) by {
            assert(prefix[i] == states[i]);
            assert(prefix[i + 1] == states[i + 1]);
            assert(grows_in_pairs(states[i], states[i + 1]));
        }
        law_frame_grows_in_pairs(prefix);
        let k = n - 2;
        assert(prefix.last() == states[k]);
        assert(grows_in_pairs(states[k], states[k + 1]));
        law_grows_in_pairs(states[0], states[k], states[k + 1]);
    }
    law_grows_in_pairs(states[0], states.last(), states.last());
}

/// What became of a line that arrived in the inbox.
pub struct Delivery {
    /// The line as it was added to the transcript.
    pub committed: ChatMessage,
    /// Its display time.
    pub display_ts: String,
    /// The text to hand to the model, where the line asks for it.
    pub dispatch: Option<String>,
}

/// What became of the input line when it was sent.
pub struct Submission {
    /// The line as it was added to the transcript.
    pub committed: ChatMessage,
    /// Its display time.
    pub display_ts: String,
    /// The trimmed text to hand to the model.
    pub text: String,
}

impl View for ChatExample {
    type V = ChatState;

    closed spec fn view(&self) -> ChatState {
        ChatState {
            messages: self.messages@,
            timestamps: texts(self.message_timestamps@),
            input: self.input_text@,
            picked_file: match self.picked_file_path {
                Some(p) => Some(p@),
                None => None,
            },
            input_enabled: self.main_input_enabled,
        }
    }
}

impl ChatExample {
    /// The welcome line and its display time, used when there is no
    /// history.
    pub fn default_welcome() -> (r: (ChatMessage, String))
        ensures
            is_system_line(r.0, welcome_text()),
            is_clock_reading(r.1@),
    {
        let msg = system_message("openchat-cogsci Started");
        let ts = display_time_for_message(&msg);
        (msg, ts)
    }

    /// A transcript that holds the welcome line, with an empty input line
    /// that is enabled.
    pub fn new() -> (c: Self)
        ensures
            c@.messages.len() == 1,
            is_system_line(c@.messages[0], welcome_text()),
            c@.timestamps.len() == 1,
            is_clock_reading(c@.timestamps[0]),
            c@.input.len() == 0,
            c@.picked_file is None,
            c@.input_enabled,
    {
        let (welcome, ts) = Self::default_welcome();
        let mut messages = Vec::new();
        messages.push(welcome);
        let mut message_timestamps = Vec::new();
        message_timestamps.push(ts);
        let c = ChatExample {
            messages,
            message_timestamps,
            input_text: String::new(),
            picked_file_path: None,
            main_input_enabled: true,
        };
        assert(c@.timestamps[0] == c.message_timestamps@[0]@);
        c
    }

    /// Replaces the lines and their display times (e.g. loaded from storage).
    pub fn hydrate(&mut self, messages: Vec<ChatMessage>, message_timestamps: Vec<String>)
        ensures
            final(self)@ == (ChatState {
                messages: messages@,
                timestamps: texts(message_timestamps@),
                ..old(self)@
            }),
    {
        self.messages = messages;
        self.message_timestamps = message_timestamps;
    }

    /// Whether the input line takes input.
    pub fn main_input_enabled(&self) -> (b: bool)
        ensures
            b == self@.input_enabled,
    {
        self.main_input_enabled
    }

    /// Enables or disables the input line.
    pub fn set_main_input_enabled(&mut self, enabled: bool)
        ensures
            final(self)@ == (ChatState { input_enabled: enabled, ..old(self)@ }),
    {
        self.main_input_enabled = enabled;
    }

    /// The number of lines.
    pub fn len(&self) -> (n: usize)
        ensures
            n == self@.messages.len(),
    {
        self.messages.len()
    }

    /// Line `i` and the display time stored for it, if any.
    pub fn line(&self, i: usize) -> (r: (&ChatMessage, Option<&String>))
        requires
            i < self@.messages.len(),
        ensures
            *r.0 == self@.messages[i as int],
            (r.1 matches Some(t) ==> i < self@.timestamps.len() && t@ == self@.timestamps[i as int]),
            (r.1 is None ==> i >= self@.timestamps.len()),
    {
        let ts = if i < self.message_timestamps.len() {
            Some(&self.message_timestamps[i])
        } else {
            None
        };
        (&self.messages[i], ts)
    }

    /// The rows of a chat export, one per line.
    pub fn export_rows(&self) -> (rows: Vec<(String, String, String)>)
        ensures
            rows@.len() == self@.messages.len(),
            forall|i: int|
                0 <= i < rows@.len() ==> (#[trigger] rows@[i].0@, rows@[i].1@, rows@[i].2@)
                    == export_row(self@, i),
    {
        let mut rows: Vec<(String, String, String)> = Vec::new();
        let n = self.messages.len();
        for idx in 0..n
            invariant
                n == self.messages@.len(),
                rows@.len() == idx,
                forall|i: int|
                    0 <= i < idx ==> (#[trigger] rows@[i].0@, rows@[i].1@, rows@[i].2@)
                        == export_row(self@, i),
        {
            let msg = &self.messages[idx];
            let ts = match &msg.correlation {
                Some(c) => c.timestamp_rfc3339.clone(),
                None => if idx < self.message_timestamps.len() {
                    self.message_timestamps[idx].clone()
                } else {
                    String::from_str("--:--:--")
                },
            };
            let from = match &msg.from {
                Some(f) => f.clone(),
                None => String::from_str("Unknown"),
            };
            rows.push((ts, from, msg.content.clone()));
        }
        rows
    }

    /// Removes every line.
    pub fn clear_messages(&mut self)
        ensures
            final(self)@ == (ChatState {
                messages: Seq::empty(),
                timestamps: Seq::empty(),
                ..old(self)@
            }),
    {
        self.messages = Vec::new();
        self.message_timestamps = Vec::new();
        assert(texts(self.message_timestamps@) =~= Seq::empty());
    }

    /// Resets the transcript to the welcome line.
    pub fn reset_to_welcome(&mut self)
        ensures
            final(self)@.messages.len() == 1,
            is_system_line(final(self)@.messages[0], welcome_text()),
            final(self)@.timestamps.len() == 1,
            is_clock_reading(final(self)@.timestamps[0]),
            final(self)@.input == old(self)@.input,
            final(self)@.picked_file == old(self)@.picked_file,
            final(self)@.input_enabled == old(self)@.input_enabled,
    {
        let (w, t) = Self::default_welcome();
        let mut messages = Vec::new();
        messages.push(w);
        let mut message_timestamps = Vec::new();
        message_timestamps.push(t);
        self.messages = messages;
        self.message_timestamps = message_timestamps;
        assert(self@.timestamps[0] == self.message_timestamps@[0]@);
    }

    /// Takes a line that arrived in the inbox: a blank line is dropped; any
    /// other is appended with its display time, and its text is handed to the
    /// model where its source asks for it.
    pub fn accept_incoming(&mut self, message: ChatMessage) -> (r: Option<Delivery>)
        ensures
            grows_in_pairs(old(self)@, final(self)@),
            is_aligned(old(self)@) ==> is_aligned(final(self)@),
            is_blank(message.content@) ==> r is None && final(self)@ == old(self)@,
            !is_blank(message.content@) ==> (r matches Some(d) && {
                &&& d.committed == message
                &&& is_display_time(message, d.display_ts@)
                &&& final(self)@ == (ChatState {
                    messages: old(self)@.messages.push(message),
                    timestamps: old(self)@.timestamps.push(d.display_ts@),
                    ..old(self)@
                })
                &&& (d.dispatch is Some <==> dispatches_to_model(
                    message.source,
                    message.api_auto_respond,
                ))
                &&& (d.dispatch matches Some(t) ==> t@ == message.content@)
            }),
    {
        proof {
            law_grows_in_pairs(old(self)@, old(self)@, old(self)@);
        }
        if blank(message.content.as_str()) {
            return None;
        }
        let ts = display_time_for_message(&message);
        let run_handler = should_dispatch_to_model(message.source, message.api_auto_respond);
        let text_for_model = message.content.clone();
        let persisted = message.clone();
        self.messages.push(message);
        self.message_timestamps.push(ts.clone());
        assert(texts(self.message_timestamps@) =~= old(self)@.timestamps.push(ts@));
        assert(self@.messages.subrange(0, old(self)@.messages.len() as int) =~= old(self)@.messages);
        assert(self@.timestamps.subrange(0, old(self)@.timestamps.len() as int)
            =~= old(self)@.timestamps);
        Some(Delivery {
            committed: persisted,
            display_ts: ts,
            dispatch: if run_handler {
                Some(text_for_model)
            } else {
                None
            },
        })
    }

    /// The text of the input line.
    pub fn input_text(&self) -> (s: &String)
        ensures
            s@ == self@.input,
    {
        &self.input_text
    }

    /// Replaces the text of the input line.
    pub fn set_input_text(&mut self, text: String)
        ensures
            final(self)@ == (ChatState { input: text@, ..old(self)@ }),
    {
        self.input_text = text;
    }

    /// Sends the input line: a blank one changes nothing; otherwise its
    /// trimmed text becomes a line of the person, the input line is cleared,
    /// and the text is returned for the model.
    pub fn submit_input(&mut self) -> (r: Option<Submission>)
        ensures
            grows_in_pairs(old(self)@, final(self)@),
            is_aligned(old(self)@) ==> is_aligned(final(self)@),
            is_blank(old(self)@.input) ==> r is None && final(self)@ == old(self)@,
            !is_blank(old(self)@.input) ==> (r matches Some(sub) && {
                &&& sub.text@ == trim(old(self)@.input)
                &&& is_human_line(sub.committed, trim(old(self)@.input))
                &&& is_clock_reading(sub.display_ts@)
                &&& final(self)@ == (ChatState {
                    messages: old(self)@.messages.push(sub.committed),
                    timestamps: old(self)@.timestamps.push(sub.display_ts@),
                    input: Seq::empty(),
                    ..old(self)@
                })
            }),
    {
        proof {
            law_grows_in_pairs(old(self)@, old(self)@, old(self)@);
        }
        if blank(self.input_text.as_str()) {
            return None;
        }
        let message_text = trimmed(self.input_text.as_str());
        self.input_text = String::new();
        let user_message = ChatMessage {
            content: message_text.clone(),
            from: Some(String::from_str("Human")),
            correlation: None,
            source: MessageSource::Human,
            api_auto_respond: false,
            assistant_generation: None,
        };
        let ts = current_timestamp_string();
        let persisted = user_message.clone();
        self.messages.push(user_message);
        self.message_timestamps.push(ts.clone());
        assert(texts(self.message_timestamps@) =~= old(self)@.timestamps.push(ts@));
        assert(self@.messages.subrange(0, old(self)@.messages.len() as int) =~= old(self)@.messages);
        assert(self@.timestamps.subrange(0, old(self)@.timestamps.len() as int)
            =~= old(self)@.timestamps);
        Some(Submission { committed: persisted, display_ts: ts, text: message_text })
    }

    /// Records the file chosen with the file picker.
    pub fn set_picked_file(&mut self, path: String)
        ensures
            final(self)@ == (ChatState { picked_file: Some(path@), ..old(self)@ }),
    {
        self.picked_file_path = Some(path);
    }

    /// The label shown for the chosen file: `File: ` and its path.
    pub fn picked_file_label(&self) -> (r: Option<String>)
        ensures
            (match (r, self@.picked_file) {
                (Some(l), Some(p)) => l@ == "File: "@ + p,
                (None, None) => true,
                _ => false,
            }),
    {
        match &self.picked_file_path {
            Some(p) => Some(concat("File: ", p.as_str())),
            None => None,
        }
    }
}

impl Default for ChatExample {
    fn default() -> (c: Self)
        ensures
            c@.messages.len() == 1,
            is_system_line(c@.messages[0], welcome_text()),
            c@.timestamps.len() == 1,
            is_clock_reading(c@.timestamps[0]),
            c@.input.len() == 0,
            c@.picked_file is None,
            c@.input_enabled,
    {
        Self::new()
    }
}

/// The border colour of a line by its sender; `None` is no border.
pub open spec fn border_rgb(from: Option<Seq<char>>) -> Option<(u8, u8, u8)> {
    match from {
        None => None,
        Some(f) => if f == "Human"@ {
            Some((0u8, 255u8, 0u8))
        } else if has_prefix(f, "Ollama"@) {
            Some((255u8, 255u8, 0u8))
        } else if f == "Agent Evaluator"@ {
            Some((255u8, 105u8, 180u8))
        } else if f == "Agent Manager"@ {
            Some((255u8, 0u8, 0u8))
        } else if f == "Agent Researcher"@ {
            Some((128u8, 0u8, 255u8))
        } else if has_prefix(f, "Agent"@) {
            Some((255u8, 255u8, 0u8))
        } else if f == "System"@ || f == "API"@ {
            Some((204u8, 85u8, 0u8))
        } else {
            None
        },
    }
}

/// The border colour of a line from `from` (red, green, blue); `None` is no
/// border.
pub fn sender_border(from: Option<&str>) -> (r: Option<(u8, u8, u8)>)
    ensures
        r == border_rgb(match from {
            Some(f) => Some(f@),
            None => None,
        }),
{
    match from {
        None => None,
        Some(f) => if text_eq(f, "Human") {
            Some((0, 255, 0))
        } else if starts_with(f, "Ollama") {
            Some((255, 255, 0))
        } else if text_eq(f, "Agent Evaluator") {
            Some((255, 105, 180))
        } else if text_eq(f, "Agent Manager") {
            Some((255, 0, 0))
        } else if text_eq(f, "Agent Researcher") {
            Some((128, 0, 255))
        } else if starts_with(f, "Agent") {
            Some((255, 255, 0))
        } else if text_eq(f, "System") || text_eq(f, "API") {
            Some((204, 85, 0))
        } else {
            None
        },
    }
}

/// Lines of the agent manager are set off by a little space above them.
pub fn spaced_before(from: Option<&str>) -> (b: bool)
    ensures
        b == (match from {
            Some(f) => f@ == "Agent Manager"@,
            None => false,
        }),
{
    match from {
        Some(f) => text_eq(f, "Agent Manager"),
        None => false,
    }
}

/// For a sender `Ollama <model>`, the model part shown beside the name.
pub fn ollama_header(from: &str) -> (r: Option<String>)
    ensures
        r is Some <==> has_prefix(from@, "Ollama "@),
        r matches Some(m) ==> m@ == from@.subrange(7, from@.len() as int),
{
    if starts_with(from, "Ollama ") {
        proof {
            reveal_strlit("Ollama ");
        }
        Some(skip_chars(from, 7))
    } else {
        None
    }
}

} // verus!

verus! {

/// Replies of the model and notices of this application never go back to
/// the model, whatever they ask; API lines go only when they ask.
pub proof fn law_dispatch(auto: bool)
    ensures
        !dispatches_to_model(MessageSource::System, auto),
        !dispatches_to_model(MessageSource::Assistant, auto),
        dispatches_to_model(MessageSource::Api, auto) == auto,
        dispatches_to_model(MessageSource::Human, auto),
{
}

} // verus!
