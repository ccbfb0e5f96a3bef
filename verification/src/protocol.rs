//! The two halves of the host protocol: the commands that come in and the
//! events that go out, one JSON object per line.

use crate::json::{
    decimal, json_string_text, lemma_marks_single_line, string_literal, unsigned_literal, Json,
    JsonView,
};
use crate::text::{append_piece, join_upto, opt_view, single_line, strings_view};
use vstd::prelude::*;
use vstd::string::*;

verus! {

/// Starts a new conversation.
#[derive(Debug, Clone, PartialEq, Eq)]
pub struct ChatParams {
    pub prompt: String,
    pub cwd: Option<String>,
    pub context: Option<String>,
    pub model: Option<String>,
    pub allowed_tools: Option<Vec<String>>,
    pub append_system_prompt: Option<String>,
    pub permission_mode: Option<String>,
}

pub ghost struct ChatParamsView {
    pub prompt: Seq<char>,
    pub cwd: Option<Seq<char>>,
    pub context: Option<Seq<char>>,
    pub model: Option<Seq<char>>,
    pub allowed_tools: Option<Seq<Seq<char>>>,
    pub append_system_prompt: Option<Seq<char>>,
    pub permission_mode: Option<Seq<char>>,
}

impl View for ChatParams {
    type V = ChatParamsView;

    open spec fn view(&self) -> ChatParamsView {
        ChatParamsView {
            prompt: self.prompt@,
            cwd: opt_view(self.cwd),
            context: opt_view(self.context),
            model: opt_view(self.model),
            allowed_tools: match self.allowed_tools {
                Some(tools) => Some(strings_view(tools@)),
                None => None,
            },
            append_system_prompt: opt_view(self.append_system_prompt),
            permission_mode: opt_view(self.permission_mode),
        }
    }
}

/// Re-enters a session that was reported earlier, without new input.
#[derive(Debug, Clone, PartialEq, Eq)]
pub struct ResumeParams {
    pub session_id: String,
    pub cwd: Option<String>,
}

pub ghost struct ResumeParamsView {
    pub session_id: Seq<char>,
    pub cwd: Option<Seq<char>>,
}

impl View for ResumeParams {
    type V = ResumeParamsView;

    open spec fn view(&self) -> ResumeParamsView {
        ResumeParamsView { session_id: self.session_id@, cwd: opt_view(self.cwd) }
    }
}

/// Adds a prompt to the session that is currently tracked.
#[derive(Debug, Clone, PartialEq, Eq)]
pub struct ContinueParams {
    pub prompt: String,
    pub context: Option<String>,
}

pub ghost struct ContinueParamsView {
    pub prompt: Seq<char>,
    pub context: Option<Seq<char>>,
}

impl View for ContinueParams {
    type V = ContinueParamsView;

    open spec fn view(&self) -> ContinueParamsView {
        ContinueParamsView { prompt: self.prompt@, context: opt_view(self.context) }
    }
}

/// One control command.
#[derive(Debug, Clone, PartialEq, Eq)]
pub enum Request {
    Chat(ChatParams),
    Resume(ResumeParams),
    Continue(ContinueParams),
    Abort,
    Status,
}

pub ghost enum RequestView {
    Chat(ChatParamsView),
    Resume(ResumeParamsView),
    Continue(ContinueParamsView),
    Abort,
    Status,
}

impl View for Request {
    type V = RequestView;

    open spec fn view(&self) -> RequestView {
        match self {
            Request::Chat(p) => RequestView::Chat(p@),
            Request::Resume(p) => RequestView::Resume(p@),
            Request::Continue(p) => RequestView::Continue(p@),
            Request::Abort => RequestView::Abort,
            Request::Status => RequestView::Status,
        }
    }
}

/// One event of the outgoing stream.
#[derive(Debug, Clone, PartialEq, Eq)]
#[allow(inconsistent_fields)]
pub enum Event {
    Init { session_id: String, model: String, tools: Vec<String> },
    /// An increment of text, as it arrives.
    TextChunk { text: String },
    /// A finished block of text: its increments put together.
    Text { text: String },
    ToolUse { tool: String, id: String, input: Json },
    ToolResult { tool: String, id: String, success: bool, content: String },
    /// `total_usd` is the amount as a JSON number literal, such as `0.01`.
    Cost { total_usd: String, duration_ms: u64, input_tokens: u64, output_tokens: u64 },
    /// The run is over. Nothing follows it.
    Done,
    Error { message: String },
    Status { active: bool, session_id: Option<String> },
}

#[allow(inconsistent_fields)]
pub ghost enum EventView {
    Init { session_id: Seq<char>, model: Seq<char>, tools: Seq<Seq<char>> },
    TextChunk { text: Seq<char> },
    Text { text: Seq<char> },
    ToolUse { tool: Seq<char>, id: Seq<char>, input: JsonView },
    ToolResult { tool: Seq<char>, id: Seq<char>, success: bool, content: Seq<char> },
    Cost { total_usd: Seq<char>, duration_ms: u64, input_tokens: u64, output_tokens: u64 },
    Done,
    Error { message: Seq<char> },
    Status { active: bool, session_id: Option<Seq<char>> },
}

impl View for Event {
    type V = EventView;

    open spec fn view(&self) -> EventView {
        match self {
            Event::Init { session_id, model, tools } => EventView::Init {
                session_id: session_id@,
                model: model@,
                tools: strings_view(tools@),
            },
            Event::TextChunk { text } => EventView::TextChunk { text: text@ },
            Event::Text { text } => EventView::Text { text: text@ },
            Event::ToolUse { tool, id, input } => EventView::ToolUse {
                tool: tool@,
                id: id@,
                input: input@,
            },
            Event::ToolResult { tool, id, success, content } => EventView::ToolResult {
                tool: tool@,
                id: id@,
                success: *success,
                content: content@,
            },
            Event::Cost { total_usd, duration_ms, input_tokens, output_tokens } => EventView::Cost {
                total_usd: total_usd@,
                duration_ms: *duration_ms,
                input_tokens: *input_tokens,
                output_tokens: *output_tokens,
            },
            Event::Done => EventView::Done,
            Event::Error { message } => EventView::Error { message: message@ },
            Event::Status { active, session_id } => EventView::Status {
                active: *active,
                session_id: opt_view(*session_id),
            },
        }
    }
}

/// The views of a sequence of events, in order.
pub open spec fn events_view(events: Seq<Event>) -> Seq<EventView> {
    events.map_values(|e: Event| e@)
}

impl EventView {
    /// Whether the event is plain: the number literals that it carries as
    /// they are (the cost, the numbers of a tool's input) hold no newline.
    pub open spec fn plain(self) -> bool {
        match self {
            EventView::ToolUse { input, .. } => input.plain(),
            EventView::Cost { total_usd, .. } => single_line(total_usd),
            _ => true,
        }
    }
}

/// The first `n` strings as JSON string literals, separated by commas.
pub open spec fn string_literals_upto(items: Seq<Seq<char>>, n: nat) -> Seq<char> {
    join_upto(items.map_values(|s: Seq<char>| json_string_text(s)), ","@, n)
}

/// A list of strings as a JSON array.
pub open spec fn string_array_text(items: Seq<Seq<char>>) -> Seq<char> {
    "["@ + string_literals_upto(items, items.len()) + "]"@
}

pub open spec fn bool_text(b: bool) -> Seq<char> {
    if b {
        "true"@
    } else {
        "false"@
    }
}

/// An optional string as a JSON string literal or `null`.
pub open spec fn opt_string_text(o: Option<Seq<char>>) -> Seq<char> {
    match o {
        Some(s) => json_string_text(s),
        None => "null"@,
    }
}

/// The first `n` members of an object, each as its name, a colon and the
/// text of its value, separated by commas.
pub open spec fn fields_text(fields: Seq<(Seq<char>, Seq<char>)>, n: nat) -> Seq<char>
    decreases n,
{
    if n == 0 || n > fields.len() {
        Seq::empty()
    } else if n == 1 {
        json_string_text(fields[0].0) + ":"@ + fields[0].1
    } else {
        fields_text(fields, (n - 1) as nat) + ","@ + json_string_text(fields[n - 1].0) + ":"@
            + fields[n - 1].1
    }
}

/// The JSON object with the given members, in the given order.
pub open spec fn object_text(fields: Seq<(Seq<char>, Seq<char>)>) -> Seq<char> {
    "{"@ + fields_text(fields, fields.len()) + "}"@
}

/// The member that names the variant.
pub open spec fn tag(name: Seq<char>) -> (Seq<char>, Seq<char>) {
    ("event"@, json_string_text(name))
}

/// The members of the object that stands for an event: `event` names the
/// variant in snake case, then come the variant's fields in declaration order.
pub open spec fn event_fields(e: EventView) -> Seq<(Seq<char>, Seq<char>)> {
    match e {
        EventView::Init { session_id, model, tools } => seq![
            tag("init"@),
            ("session_id"@, json_string_text(session_id)),
            ("model"@, json_string_text(model)),
            ("tools"@, string_array_text(tools)),
        ],
        EventView::TextChunk { text } => seq![
            tag("text_chunk"@),
            ("text"@, json_string_text(text)),
        ],
        EventView::Text { text } => seq![tag("text"@), ("text"@, json_string_text(text))],
        EventView::ToolUse { tool, id, input } => seq![
            tag("tool_use"@),
            ("tool"@, json_string_text(tool)),
            ("id"@, json_string_text(id)),
            ("input"@, input.text()),
        ],
        EventView::ToolResult { tool, id, success, content } => seq![
            tag("tool_result"@),
            ("tool"@, json_string_text(tool)),
            ("id"@, json_string_text(id)),
            ("success"@, bool_text(success)),
            ("content"@, json_string_text(content)),
        ],
        EventView::Cost { total_usd, duration_ms, input_tokens, output_tokens } => seq![
            tag("cost"@),
            ("total_usd"@, total_usd),
            ("duration_ms"@, decimal(duration_ms as nat)),
            ("input_tokens"@, decimal(input_tokens as nat)),
            ("output_tokens"@, decimal(output_tokens as nat)),
        ],
        EventView::Done => seq![tag("done"@)],
        EventView::Error { message } => seq![
            tag("error"@),
            ("message"@, json_string_text(message)),
        ],
        EventView::Status { active, session_id } => seq![
            tag("status"@),
            ("active"@, bool_text(active)),
            ("session_id"@, opt_string_text(session_id)),
        ],
    }
}

/// The JSON object that stands for an event.
pub open spec fn event_text(e: EventView) -> Seq<char> {
    object_text(event_fields(e))
}

/// An event as one line of the outgoing stream.
pub open spec fn json_line(e: EventView) -> Seq<char> {
    event_text(e) + "\n"@
}

/// The views of a list of members.
pub open spec fn fields_view(fields: Seq<(String, String)>) -> Seq<(Seq<char>, Seq<char>)> {
    fields.map_values(|f: (String, String)| (f.0@, f.1@))
}

/// Whether the value of every member is free of newlines.
pub open spec fn values_single_line(fields: Seq<(Seq<char>, Seq<char>)>) -> bool {
    forall|i: int| 0 <= i < fields.len() ==> single_line((#[trigger] fields[i]).1)
}

/// Writes a list of strings as a JSON array.
pub fn string_array(items: &Vec<String>) -> (res: String)
    ensures
        res@ == string_array_text(strings_view(items@)),
        single_line(res@),
{
    let ghost views = strings_view(items@);
    let ghost literals = views.map_values(|s: Seq<char>| json_string_text(s));
    proof {
        lemma_marks_single_line();
    }
    let mut out = String::from_str("[");
    let mut i: usize = 0;
    while i < items.len()
        invariant
            i <= items.len(),
            views == strings_view(items@),
            literals == views.map_values(|s: Seq<char>| json_string_text(s)),
            out@ == "["@ + join_upto(literals, ","@, i as nat),
            single_line(out@),
            single_line(","@),
        decreases items.len() - i,
    {
        if i > 0 {
            append_piece(&mut out, ",");
        }
        let piece = string_literal(items[i].as_str());
        append_piece(&mut out, piece.as_str());
        i = i + 1;
        assert(out@ =~= "["@ + join_upto(literals, ","@, i as nat));
    }
    append_piece(&mut out, "]");
    out
}

/// Writes a JSON object with the given members. Where no value holds a
/// newline, neither does the object.
pub fn write_object(fields: &Vec<(String, String)>) -> (res: String)
    ensures
        res@ == object_text(fields_view(fields@)),
        values_single_line(fields_view(fields@)) ==> single_line(res@),
{
    let ghost all = fields_view(fields@);
    proof {
        lemma_marks_single_line();
    }
    let mut out = String::from_str("{");
    let mut i: usize = 0;
    while i < fields.len()
        invariant
            i <= fields.len(),
            all == fields_view(fields@),
            out@ == "{"@ + fields_text(all, i as nat),
            values_single_line(all) ==> single_line(out@),
            single_line(","@),
            single_line(":"@),
        decreases fields.len() - i,
    {
        if i > 0 {
            append_piece(&mut out, ",");
        }
        let name = string_literal(fields[i].0.as_str());
        append_piece(&mut out, name.as_str());
        append_piece(&mut out, ":");
        append_piece(&mut out, fields[i].1.as_str());
        assert(all[i as int] == (fields@[i as int].0@, fields@[i as int].1@));
        i = i + 1;
        assert(out@ =~= "{"@ + fields_text(all, i as nat));
    }
    append_piece(&mut out, "}");
    out
}

fn bool_literal(b: bool) -> (res: String)
    ensures
        res@ == bool_text(b),
        single_line(res@),
{
    proof {
        lemma_marks_single_line();
    }
    if b {
        String::from_str("true")
    } else {
        String::from_str("false")
    }
}

/// Adds a member to a list of members.
fn push_field(fields: &mut Vec<(String, String)>, name: &str, value: String)
    ensures
        fields_view(final(fields)@) == fields_view(old(fields)@).push((name@, value@)),
        values_single_line(fields_view(final(fields)@)) <==> values_single_line(
            fields_view(old(fields)@),
        ) && single_line(value@),
{
    fields.push((String::from_str(name), value));
    proof {
        let before = fields_view(old(fields)@);
        let after = fields_view(fields@);
        assert(after =~= before.push((name@, value@)));
        if values_single_line(after) {
            assert forall|i: int| 0 <= i < before.len() implies single_line(
                (#[trigger] before[i]).1,
            ) by {
                assert(after[i] == before[i]);
            }
            assert(after[before.len() as int].1 == value@);
        }
    }
}

/// A list of members that starts with the one that names the variant.
fn tagged(name: &str) -> (res: Vec<(String, String)>)
    ensures
        fields_view(res@) == seq![tag(name@)],
        values_single_line(fields_view(res@)),
{
    let mut fields: Vec<(String, String)> = Vec::new();
    assert(fields_view(fields@) =~= Seq::<(Seq<char>, Seq<char>)>::empty());
    push_field(&mut fields, "event", string_literal(name));
    assert(fields_view(fields@) =~= seq![tag(name@)]);
    fields
}

impl Event {
    /// Whether this event ends a run.
    pub fn is_done(&self) -> (res: bool)
        ensures
            res == (self@ is Done),
    {
        match self {
            Event::Done => true,
            _ => false,
        }
    }

    /// The members of the object that stands for the event.
    fn fields(&self) -> (res: Vec<(String, String)>)
        ensures
            fields_view(res@) == event_fields(self@),
            self@.plain() ==> values_single_line(fields_view(res@)),
    {
        proof {
            lemma_marks_single_line();
        }
        let mut fields: Vec<(String, String)>;
        match self {
            Event::Init { session_id, model, tools } => {
                fields = tagged("init");
                push_field(&mut fields, "session_id", string_literal(session_id.as_str()));
                push_field(&mut fields, "model", string_literal(model.as_str()));
                push_field(&mut fields, "tools", string_array(tools));
            },
            Event::TextChunk { text } => {
                fields = tagged("text_chunk");
                push_field(&mut fields, "text", string_literal(text.as_str()));
            },
            Event::Text { text } => {
                fields = tagged("text");
                push_field(&mut fields, "text", string_literal(text.as_str()));
            },
            Event::ToolUse { tool, id, input } => {
                fields = tagged("tool_use");
                push_field(&mut fields, "tool", string_literal(tool.as_str()));
                push_field(&mut fields, "id", string_literal(id.as_str()));
                push_field(&mut fields, "input", input.to_text());
            },
            Event::ToolResult { tool, id, success, content } => {
                fields = tagged("tool_result");
                push_field(&mut fields, "tool", string_literal(tool.as_str()));
                push_field(&mut fields, "id", string_literal(id.as_str()));
                push_field(&mut fields, "success", bool_literal(*success));
                push_field(&mut fields, "content", string_literal(content.as_str()));
            },
            Event::Cost { total_usd, duration_ms, input_tokens, output_tokens } => {
                fields = tagged("cost");
                push_field(&mut fields, "total_usd", total_usd.clone());
                push_field(&mut fields, "duration_ms", unsigned_literal(*duration_ms));
                push_field(&mut fields, "input_tokens", unsigned_literal(*input_tokens));
                push_field(&mut fields, "output_tokens", unsigned_literal(*output_tokens));
            },
            Event::Done => {
                fields = tagged("done");
            },
            Event::Error { message } => {
                fields = tagged("error");
                push_field(&mut fields, "message", string_literal(message.as_str()));
            },
            Event::Status { active, session_id } => {
                fields = tagged("status");
                push_field(&mut fields, "active", bool_literal(*active));
                let id = match session_id {
                    Some(s) => string_literal(s.as_str()),
                    None => String::from_str("null"),
                };
                push_field(&mut fields, "session_id", id);
            },
        }
        assert(fields_view(fields@) =~= event_fields(self@));
        fields
    }

    /// The event as one line of JSON. The line ends in a newline, and the
    /// line of a plain event holds no other.
    pub fn to_json_line(&self) -> (res: String)
        ensures
            res@ == json_line(self@),
            res@.len() > 0 && res@.last() == '\n',
            self@.plain() ==> single_line(res@.drop_last()),
    {
        let fields = self.fields();
        let mut out = write_object(&fields);
        let ghost body = out@;
        out.append("\n");
        proof {
            reveal_strlit("\n");
            assert(out@.drop_last() =~= body);
        }
        out
    }
}

} // verus!
