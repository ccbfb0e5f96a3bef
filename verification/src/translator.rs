//! Turns the agent's output into events.
//!
//! The agent writes one JSON object per line on its standard output. Each
//! object has a `type`; what the bridge does with it depends on that type and
//! on the text gathered so far. Standard error is plain text and becomes
//! error events.

use crate::json::{
    bool_field, json_parse, lemma_get_plain, lemma_items_view, str_field, u64_field, Json,
    JsonView,
};
use crate::protocol::{events_view, Event, EventView};
use crate::session::{SessionManager, SessionStateView};
use crate::text::{same_text, strings_view};
use vstd::prelude::*;
use vstd::string::*;

verus! {

/// `o`, or `default` where there is none.
pub open spec fn or_text(o: Option<Seq<char>>, default: Seq<char>) -> Seq<char> {
    match o {
        Some(s) => s,
        None => default,
    }
}

/// `o`, or zero where there is none.
pub open spec fn or_zero(o: Option<u64>) -> u64 {
    match o {
        Some(n) => n,
        None => 0,
    }
}

/// The member `key` of `j` where it is an array.
pub open spec fn array_field(j: JsonView, key: Seq<char>) -> Option<Seq<JsonView>> {
    match j.get(key) {
        Some(v) => v.as_array(),
        None => None,
    }
}

/// The member `first` of `j`, or `second` where `j` has no `first`.
pub open spec fn either_field(j: JsonView, first: Seq<char>, second: Seq<char>) -> Option<
    JsonView,
> {
    match j.get(first) {
        Some(v) => Some(v),
        None => j.get(second),
    }
}

/// The member `key` of `j`'s member `usage`, read as a counter: zero where
/// it is missing or no unsigned integer.
pub open spec fn usage_count(j: JsonView, key: Seq<char>) -> u64 {
    match j.get("usage"@) {
        Some(usage) => or_zero(u64_field(usage, key)),
        None => 0,
    }
}

/// `a + b`, or the largest `u64` where the sum does not fit.
pub open spec fn capped_sum(a: u64, b: u64) -> u64 {
    if a + b > u64::MAX {
        u64::MAX
    } else {
        (a + b) as u64
    }
}

/// Reads a value as text: a string gives its text, anything else nothing.
pub open spec fn as_text() -> spec_fn(JsonView) -> Option<Seq<char>> {
    |j: JsonView| j.as_str()
}

/// The `type` of an object; empty where it has none or it is not a string.
pub open spec fn type_of(j: JsonView) -> Seq<char> {
    or_text(str_field(j, "type"@), Seq::empty())
}

/// The event that announces a session.
pub open spec fn init_event(j: JsonView) -> EventView {
    EventView::Init {
        session_id: or_text(str_field(j, "session_id"@), Seq::empty()),
        model: or_text(str_field(j, "model"@), "unknown"@),
        tools: match array_field(j, "tools"@) {
            Some(items) => items.filter_map(as_text()),
            None => Seq::empty(),
        },
    }
}

/// The event for one block of an assistant message: a tool call gives a
/// `ToolUse`, any other block nothing.
pub open spec fn tool_use_of(block: JsonView) -> Option<EventView> {
    if type_of(block) == "tool_use"@ {
        Some(
            EventView::ToolUse {
                tool: or_text(str_field(block, "name"@), "unknown"@),
                id: or_text(str_field(block, "id"@), Seq::empty()),
                input: match block.get("input"@) {
                    Some(v) => v,
                    None => JsonView::Null,
                },
            },
        )
    } else {
        None
    }
}

pub open spec fn tool_use() -> spec_fn(JsonView) -> Option<EventView> {
    |block: JsonView| tool_use_of(block)
}

/// The tool calls of an assistant message, in order.
pub open spec fn tool_uses(j: JsonView) -> Seq<EventView> {
    match j.get("message"@) {
        Some(message) => match array_field(message, "content"@) {
            Some(content) => content.filter_map(tool_use()),
            None => Seq::empty(),
        },
        None => Seq::empty(),
    }
}

/// What a tool returned, as text: a string as it is, any other value as
/// compact JSON, nothing as the empty text.
pub open spec fn content_text(o: Option<JsonView>) -> Seq<char> {
    match o {
        Some(JsonView::String(s)) => s,
        Some(v) => v.text(),
        None => Seq::empty(),
    }
}

/// The event for a tool's result.
pub open spec fn tool_result_event(j: JsonView) -> EventView {
    EventView::ToolResult {
        tool: or_text(
            match either_field(j, "tool"@, "name"@) {
                Some(v) => v.as_str(),
                None => None,
            },
            "unknown"@,
        ),
        id: or_text(str_field(j, "tool_use_id"@), Seq::empty()),
        success: bool_field(j, "is_error"@) != Some(true),
        content: content_text(either_field(j, "content"@, "output"@)),
    }
}

/// What the run cost, as its last message reports it.
pub open spec fn cost_event(j: JsonView) -> EventView {
    EventView::Cost {
        total_usd: or_text(
            match j.get("total_cost_usd"@) {
                Some(v) => v.float_text(),
                None => None,
            },
            "0.0"@,
        ),
        duration_ms: or_zero(u64_field(j, "duration_ms"@)),
        input_tokens: capped_sum(
            usage_count(j, "input_tokens"@),
            usage_count(j, "cache_read_input_tokens"@),
        ),
        output_tokens: usage_count(j, "output_tokens"@),
    }
}

/// The events that end a run: its cost, the agent's own error if it reports
/// one, and `Done`.
pub open spec fn result_events(j: JsonView) -> Seq<EventView> {
    if bool_field(j, "is_error"@) == Some(true) {
        seq![
            cost_event(j),
            EventView::Error { message: or_text(str_field(j, "result"@), "Unknown error"@) },
            EventView::Done,
        ]
    } else {
        seq![cost_event(j), EventView::Done]
    }
}

/// The outcome of one line: the events it gives, the text gathered after it
/// and the session after it.
pub ghost struct Step {
    pub events: Seq<EventView>,
    pub text: Seq<char>,
    pub session: SessionStateView,
}

/// A line that changes nothing.
pub open spec fn skip(text: Seq<char>, session: SessionStateView) -> Step {
    Step { events: Seq::empty(), text, session }
}

/// A `stream_event` line: an increment of text is passed on and gathered,
/// the end of a block hands out what was gathered.
pub open spec fn stream_step(text: Seq<char>, session: SessionStateView, j: JsonView) -> Step {
    match j.get("event"@) {
        Some(event) => if type_of(event) == "content_block_delta"@ {
            match event.get("delta"@) {
                Some(delta) => match str_field(delta, "text"@) {
                    Some(chunk) => if type_of(delta) == "text_delta"@ {
                        Step {
                            events: seq![EventView::TextChunk { text: chunk }],
                            text: text + chunk,
                            session,
                        }
                    } else {
                        skip(text, session)
                    },
                    None => skip(text, session),
                },
                None => skip(text, session),
            }
        } else if type_of(event) == "content_block_stop"@ && text.len() > 0 {
            Step { events: seq![EventView::Text { text }], text: Seq::empty(), session }
        } else {
            skip(text, session)
        },
        None => skip(text, session),
    }
}

/// What one decoded line of the agent's output does.
pub open spec fn step(text: Seq<char>, session: SessionStateView, j: JsonView) -> Step {
    let ty = type_of(j);
    if ty == "system"@ {
        if or_text(str_field(j, "subtype"@), Seq::empty()) == "init"@ {
            Step {
                events: seq![init_event(j)],
                text,
                session: session.activated(
                    or_text(str_field(j, "session_id"@), Seq::empty()),
                    or_text(str_field(j, "model"@), "unknown"@),
                ),
            }
        } else {
            skip(text, session)
        }
    } else if ty == "stream_event"@ {
        stream_step(text, session, j)
    } else if ty == "assistant"@ {
        Step { events: tool_uses(j), text, session }
    } else if ty == "tool_result"@ || ty == "tool_use_result"@ {
        Step { events: seq![tool_result_event(j)], text, session }
    } else if ty == "result"@ {
        Step { events: result_events(j), text, session: session.deactivated() }
    } else {
        skip(text, session)
    }
}

/// What one raw line of the agent's output does: an empty line and a line
/// that is not JSON do nothing.
pub open spec fn line_step(text: Seq<char>, session: SessionStateView, line: Seq<char>) -> Step {
    if line.len() == 0 {
        skip(text, session)
    } else {
        match json_parse(line) {
            Some(j) => step(text, session, j),
            None => skip(text, session),
        }
    }
}

/// The event for a line of the agent's standard error.
pub open spec fn stderr_event(line: Seq<char>) -> Option<EventView> {
    if line.len() == 0 {
        None
    } else {
        Some(EventView::Error { message: "[stderr] "@ + line })
    }
}

/// A `result` line ends the run, whatever came before it: the session is
/// inactive afterwards and still knows its session and model, and of the
/// events that the line gives the last one is `Done` and no other is.
pub proof fn lemma_result_line_ends_run(text: Seq<char>, session: SessionStateView, j: JsonView)
    requires
        type_of(j) == "result"@,
    ensures
        step(text, session, j).session == session.deactivated(),
        !step(text, session, j).session.active,
        step(text, session, j).events.len() >= 2,
        step(text, session, j).events.last() is Done,
        forall|i: int|
            0 <= i < step(text, session, j).events.len() - 1 ==> !(#[trigger] step(
                text,
                session,
                j,
            ).events[i] is Done),
{
    reveal_strlit("result");
    reveal_strlit("system");
    reveal_strlit("stream_event");
    reveal_strlit("assistant");
    reveal_strlit("tool_result");
    reveal_strlit("tool_use_result");
    assert("result"@[0] != "system"@[0]);
    assert(step(text, session, j).events == result_events(j));
}

/// A `system` line whose subtype is not `init` gives no event and changes
/// neither the gathered text nor the session.
pub proof fn lemma_other_system_line_changes_nothing(
    text: Seq<char>,
    session: SessionStateView,
    j: JsonView,
)
    requires
        type_of(j) == "system"@,
        or_text(str_field(j, "subtype"@), Seq::empty()) != "init"@,
    ensures
        step(text, session, j) == skip(text, session),
        step(text, session, j).events.len() == 0,
{
}

/// The session that is known stays known: only an `init` line changes the
/// session id and the model, and it always sets both.
pub proof fn lemma_session_is_kept(text: Seq<char>, session: SessionStateView, j: JsonView)
    ensures
        step(text, session, j).session.session_id == session.session_id && step(
            text,
            session,
            j,
        ).session.model == session.model || step(text, session, j).events == seq![init_event(j)],
        session.session_id is Some ==> step(text, session, j).session.session_id is Some,
{
}

/// A line that is not JSON gives no event and changes neither the gathered
/// text nor the session; nor does an empty line.
pub proof fn lemma_malformed_line_changes_nothing(
    text: Seq<char>,
    session: SessionStateView,
    line: Seq<char>,
)
    ensures
        json_parse(line) is None ==> line_step(text, session, line) == skip(text, session),
        json_parse(line) is None ==> line_step(text, session, line).events.len() == 0,
        line.len() == 0 ==> line_step(text, session, line) == skip(text, session),
{
}

/// Increments of text are put together: after an increment `a` the gathered
/// text is what it was followed by `a`, and the end of the block hands out
/// all of it in one event and starts afresh.
pub proof fn lemma_text_is_gathered(
    text: Seq<char>,
    session: SessionStateView,
    delta: JsonView,
    stop: JsonView,
    a: Seq<char>,
)
    requires
        stream_step(text, session, delta).events == seq![EventView::TextChunk { text: a }],
        stop.get("event"@) matches Some(event) && type_of(event) == "content_block_stop"@,
        (text + a).len() > 0,
    ensures
        stream_step(text, session, delta).text == text + a,
        stream_step(text + a, session, stop).events == seq![EventView::Text { text: text + a }],
        stream_step(text + a, session, stop).text == Seq::<char>::empty(),
{
    reveal_strlit("content_block_stop");
    reveal_strlit("content_block_delta");
    assert("content_block_stop"@.len() != "content_block_delta"@.len());
    let s = stream_step(text, session, delta);
    assert(s.events.len() == 1);
    assert(s.events[0] == EventView::TextChunk { text: a });
    if s.events == seq![EventView::Text { text }] {
        assert(s.events[0] == EventView::Text { text });
    }
}

/// The events of a plain line are plain.
pub proof fn lemma_step_plain(text: Seq<char>, session: SessionStateView, j: JsonView)
    requires
        j.plain(),
    ensures
        forall|i: int|
            0 <= i < step(text, session, j).events.len() ==> (#[trigger] step(
                text,
                session,
                j,
            ).events[i]).plain(),
{
    let events = step(text, session, j).events;
    let ty = type_of(j);
    if ty == "system"@ || ty == "stream_event"@ {
    } else if ty == "assistant"@ {
        lemma_tool_uses_plain(j);
    } else if ty == "tool_result"@ || ty == "tool_use_result"@ {
    } else if ty == "result"@ {
        reveal_strlit("0.0");
        lemma_get_plain(j, "total_cost_usd"@);
        assert(cost_event(j).plain());
    }
}

/// The tool calls of a plain message are plain.
proof fn lemma_tool_uses_plain(j: JsonView)
    requires
        j.plain(),
    ensures
        forall|i: int| 0 <= i < tool_uses(j).len() ==> (#[trigger] tool_uses(j)[i]).plain(),
{
    assert forall|i: int| 0 <= i < tool_uses(j).len() implies (#[trigger] tool_uses(
        j,
    )[i]).plain() by {
        let message = j.get("message"@).unwrap();
        lemma_get_plain(j, "message"@);
        lemma_get_plain(message, "content"@);
        let holder = message.get("content"@).unwrap();
        let content = holder.as_array().unwrap();
        assert(holder->Array_0 == content);
        let e = tool_uses(j)[i];
        assert(content.filter_map(tool_use()).contains(e));
        content.lemma_filter_map_contains(tool_use(), e);
        let block = choose|b: JsonView| #[trigger] content.contains(b) && tool_use()(b) == Some(e);
        let k = choose|k: int| 0 <= k < content.len() && content[k] == block;
        assert(content[k].plain());
        lemma_get_plain(block, "input"@);
    }
}

fn no_events() -> (res: Vec<Event>)
    ensures
        events_view(res@) == Seq::<EventView>::empty(),
        res@.len() == 0,
{
    let res: Vec<Event> = Vec::new();
    assert(events_view(res@) =~= Seq::<EventView>::empty());
    res
}

fn push_event(events: &mut Vec<Event>, e: Event)
    ensures
        events_view(final(events)@) == events_view(old(events)@).push(e@),
{
    events.push(e);
    assert(events_view(events@) =~= events_view(old(events)@).push(e@));
}

fn one_event(e: Event) -> (res: Vec<Event>)
    ensures
        events_view(res@) == seq![e@],
{
    let mut res = no_events();
    push_event(&mut res, e);
    assert(events_view(res@) =~= seq![e@]);
    res
}

/// The string member `key` of `j`.
fn text_field<'a>(j: &'a Json, key: &str) -> (res: Option<&'a str>)
    ensures
        match res {
            Some(s) => str_field(j@, key@) == Some(s@),
            None => str_field(j@, key@) is None,
        },
{
    match j.get(key) {
        Some(v) => v.as_str(),
        None => None,
    }
}

/// The string member `key` of `j`, or the empty string.
fn text_field_or_empty(j: &Json, key: &str) -> (res: String)
    ensures
        res@ == or_text(str_field(j@, key@), Seq::empty()),
{
    match text_field(j, key) {
        Some(s) => s.to_owned(),
        None => String::new(),
    }
}

/// The string member `key` of `j`, or `default`.
fn text_field_or(j: &Json, key: &str, default: &str) -> (res: String)
    ensures
        res@ == or_text(str_field(j@, key@), default@),
{
    match text_field(j, key) {
        Some(s) => s.to_owned(),
        None => default.to_owned(),
    }
}

/// The unsigned member `key` of `j`, or zero.
fn count_field(j: &Json, key: &str) -> (res: u64)
    ensures
        res == or_zero(u64_field(j@, key@)),
{
    match j.get(key) {
        Some(v) => match v.as_u64() {
            Some(n) => n,
            None => 0,
        },
        None => 0,
    }
}

/// Whether the member `key` of `j` is `true`.
fn flag_field(j: &Json, key: &str) -> (res: bool)
    ensures
        res == (bool_field(j@, key@) == Some(true)),
{
    match j.get(key) {
        Some(v) => match v.as_bool() {
            Some(b) => b,
            None => false,
        },
        None => false,
    }
}

/// The member `key` of the member `usage` of `j`, or zero.
fn usage_field(j: &Json, key: &str) -> (res: u64)
    ensures
        res == usage_count(j@, key@),
{
    match j.get("usage") {
        Some(usage) => count_field(usage, key),
        None => 0,
    }
}

/// The member `first` of `j`, or else its member `second`.
fn either<'a>(j: &'a Json, first: &str, second: &str) -> (res: Option<&'a Json>)
    ensures
        match res {
            Some(v) => either_field(j@, first@, second@) == Some(v@),
            None => either_field(j@, first@, second@) is None,
        },
{
    match j.get(first) {
        Some(v) => Some(v),
        None => j.get(second),
    }
}

/// The strings among `items`, in order.
fn string_items(items: &Vec<Json>) -> (res: Vec<String>)
    ensures
        strings_view(res@) == Json::Array(*items)@->Array_0.filter_map(as_text()),
{
    let ghost all = Json::Array(*items)@->Array_0;
    proof {
        lemma_items_view(items@, items@.len());
    }
    let mut out: Vec<String> = Vec::new();
    let mut i: usize = 0;
    assert(strings_view(out@) =~= all.take(0).filter_map(as_text()));
    while i < items.len()
        invariant
            i <= items.len(),
            all.len() == items@.len(),
            forall|k: int| 0 <= k < items@.len() ==> all[k] == items@[k]@,
            strings_view(out@) == all.take(i as int).filter_map(as_text()),
        decreases items.len() - i,
    {
        proof {
            all.lemma_filter_map_take_succ(as_text(), i as int);
        }
        let ghost before = out@;
        match items[i].as_str() {
            Some(s) => {
                out.push(s.to_owned());
                assert(strings_view(out@) =~= strings_view(before).push(s@));
            },
            None => {},
        }
        i = i + 1;
    }
    assert(all.take(all.len() as int) =~= all);
    out
}

/// The event for one block of an assistant message, if it is a tool call.
fn tool_use_event(block: &Json) -> (res: Option<Event>)
    ensures
        match res {
            Some(e) => tool_use_of(block@) == Some(e@),
            None => tool_use_of(block@) is None,
        },
{
    let ty = text_field_or_empty(block, "type");
    if same_text(ty.as_str(), "tool_use") {
        let input = match block.get("input") {
            Some(v) => v.clone(),
            None => Json::Null,
        };
        Some(
            Event::ToolUse {
                tool: text_field_or(block, "name", "unknown"),
                id: text_field_or_empty(block, "id"),
                input,
            },
        )
    } else {
        None
    }
}

/// The tool calls among the blocks of an assistant message.
fn tool_use_events(content: &Vec<Json>) -> (res: Vec<Event>)
    ensures
        events_view(res@) == Json::Array(*content)@->Array_0.filter_map(tool_use()),
{
    let ghost all = Json::Array(*content)@->Array_0;
    proof {
        lemma_items_view(content@, content@.len());
    }
    let mut out = no_events();
    let mut i: usize = 0;
    assert(events_view(out@) =~= all.take(0).filter_map(tool_use()));
    while i < content.len()
        invariant
            i <= content.len(),
            all.len() == content@.len(),
            forall|k: int| 0 <= k < content@.len() ==> all[k] == content@[k]@,
            events_view(out@) == all.take(i as int).filter_map(tool_use()),
        decreases content.len() - i,
    {
        proof {
            all.lemma_filter_map_take_succ(tool_use(), i as int);
        }
        match tool_use_event(&content[i]) {
            Some(e) => {
                push_event(&mut out, e);
            },
            None => {},
        }
        i = i + 1;
    }
    assert(all.take(all.len() as int) =~= all);
    out
}

/// Builds the event for a `tool_result` line.
fn make_tool_result(j: &Json) -> (res: Event)
    ensures
        res@ == tool_result_event(j@),
{
    let tool = match either(j, "tool", "name") {
        Some(v) => match v.as_str() {
            Some(s) => s.to_owned(),
            None => String::from_str("unknown"),
        },
        None => String::from_str("unknown"),
    };
    let content = match either(j, "content", "output") {
        Some(v) => match v.as_str() {
            Some(s) => s.to_owned(),
            None => v.to_text(),
        },
        None => String::new(),
    };
    Event::ToolResult {
        tool,
        id: text_field_or_empty(j, "tool_use_id"),
        success: !flag_field(j, "is_error"),
        content,
    }
}

/// Builds the cost event for a `result` line.
fn make_cost(j: &Json) -> (res: Event)
    ensures
        res@ == cost_event(j@),
{
    let total_usd = match j.get("total_cost_usd") {
        Some(v) => match v.float_text() {
            Some(t) => t.to_owned(),
            None => String::from_str("0.0"),
        },
        None => String::from_str("0.0"),
    };
    let input_tokens = usage_field(j, "input_tokens");
    let cache_read = usage_field(j, "cache_read_input_tokens");
    Event::Cost {
        total_usd,
        duration_ms: count_field(j, "duration_ms"),
        input_tokens: input_tokens.saturating_add(cache_read),
        output_tokens: usage_field(j, "output_tokens"),
    }
}

/// The state that one run of the agent needs between lines: the text of the
/// block that is being received.
#[derive(Debug)]
pub struct StreamTranslator {
    accumulated_text: String,
}

impl View for StreamTranslator {
    type V = Seq<char>;

    closed spec fn view(&self) -> Seq<char> {
        self.accumulated_text@
    }
}

impl StreamTranslator {
    /// A translator for a run that has not written anything yet.
    pub fn new() -> (res: Self)
        ensures
            res@ == Seq::<char>::empty(),
    {
        Self { accumulated_text: String::new() }
    }

    /// The text gathered since the last block ended.
    pub fn accumulated_text(&self) -> (res: &str)
        ensures
            res@ == self@,
    {
        self.accumulated_text.as_str()
    }

    fn stream_event(&mut self, parsed: &Json) -> (res: Vec<Event>)
        ensures
            forall|session: SessionStateView|
                #![trigger stream_step(old(self)@, session, parsed@)]
                {
                    let s = stream_step(old(self)@, session, parsed@);
                    events_view(res@) == s.events && final(self)@ == s.text && s.session
                        == session
                },
    {
        match parsed.get("event") {
            Some(event) => {
                let kind = text_field_or_empty(event, "type");
                if same_text(kind.as_str(), "content_block_delta") {
                    match event.get("delta") {
                        Some(delta) => match text_field(delta, "text") {
                            Some(chunk) => {
                                let delta_kind = text_field_or_empty(delta, "type");
                                if same_text(delta_kind.as_str(), "text_delta") {
                                    self.accumulated_text.append(chunk);
                                    one_event(Event::TextChunk { text: chunk.to_owned() })
                                } else {
                                    no_events()
                                }
                            },
                            None => no_events(),
                        },
                        None => no_events(),
                    }
                } else if same_text(kind.as_str(), "content_block_stop")
                    && !self.accumulated_text.as_str().is_empty() {
                    let text = self.accumulated_text.clone();
                    self.accumulated_text = String::new();
                    one_event(Event::Text { text })
                } else {
                    no_events()
                }
            },
            None => no_events(),
        }
    }

    /// Handles one decoded line of the agent's standard output.
    pub fn translate(&mut self, session: &mut SessionManager, parsed: &Json) -> (res: Vec<Event>)
        ensures
            events_view(res@) == step(old(self)@, old(session)@, parsed@).events,
            final(self)@ == step(old(self)@, old(session)@, parsed@).text,
            final(session)@ == step(old(self)@, old(session)@, parsed@).session,
            parsed@.plain() ==> forall|i: int| 0 <= i < res@.len() ==> (#[trigger] res@[i])@.plain(),
    {
        proof {
            if parsed@.plain() {
                lemma_step_plain(self@, session@, parsed@);
            }
        }
        let ghost expected = step(self@, session@, parsed@).events;
        let res = self.translate_line(session, parsed);
        assert forall|i: int| 0 <= i < res@.len() && parsed@.plain() implies (
        #[trigger] res@[i])@.plain() by {
            assert(events_view(res@)[i] == res@[i]@);
            assert(expected[i].plain());
        }
        res
    }

    fn translate_line(&mut self, session: &mut SessionManager, parsed: &Json) -> (res: Vec<Event>)
        ensures
            events_view(res@) == step(old(self)@, old(session)@, parsed@).events,
            final(self)@ == step(old(self)@, old(session)@, parsed@).text,
            final(session)@ == step(old(self)@, old(session)@, parsed@).session,
    {
        let ty = text_field_or_empty(parsed, "type");
        if same_text(ty.as_str(), "system") {
            let subtype = text_field_or_empty(parsed, "subtype");
            if same_text(subtype.as_str(), "init") {
                let session_id = text_field_or_empty(parsed, "session_id");
                let model = text_field_or(parsed, "model", "unknown");
                let tools = match parsed.get("tools") {
                    Some(v) => match v.as_array() {
                        Some(items) => string_items(items),
                        None => Vec::new(),
                    },
                    None => Vec::new(),
                };
                assert(strings_view(Seq::<String>::empty()) =~= Seq::<Seq<char>>::empty());
                session.set_active(session_id.clone(), model.clone());
                one_event(Event::Init { session_id, model, tools })
            } else {
                no_events()
            }
        } else if same_text(ty.as_str(), "stream_event") {
            self.stream_event(parsed)
        } else if same_text(ty.as_str(), "assistant") {
            match parsed.get("message") {
                Some(message) => match message.get("content") {
                    Some(v) => match v.as_array() {
                        Some(content) => tool_use_events(content),
                        None => no_events(),
                    },
                    None => no_events(),
                },
                None => no_events(),
            }
        } else if same_text(ty.as_str(), "tool_result") || same_text(
            ty.as_str(),
            "tool_use_result",
        ) {
            one_event(make_tool_result(parsed))
        } else if same_text(ty.as_str(), "result") {
            let mut events = one_event(make_cost(parsed));
            if flag_field(parsed, "is_error") {
                push_event(
                    &mut events,
                    Event::Error { message: text_field_or(parsed, "result", "Unknown error") },
                );
            }
            session.set_inactive();
            push_event(&mut events, Event::Done);
            assert(events_view(events@) =~= result_events(parsed@));
            events
        } else {
            no_events()
        }
    }

    /// Handles one raw line of the agent's standard output.
    pub fn handle_stdout_line(&mut self, session: &mut SessionManager, line: &str) -> (res: Vec<
        Event,
    >)
        ensures
            events_view(res@) == line_step(old(self)@, old(session)@, line@).events,
            final(self)@ == line_step(old(self)@, old(session)@, line@).text,
            final(session)@ == line_step(old(self)@, old(session)@, line@).session,
            forall|i: int| 0 <= i < res@.len() ==> (#[trigger] res@[i])@.plain(),
    {
        if line.is_empty() {
            return no_events();
        }
        match Json::parse(line) {
            Some(parsed) => self.translate(session, &parsed),
            None => no_events(),
        }
    }

    /// Handles one line of the agent's standard error.
    pub fn handle_stderr_line(line: &str) -> (res: Option<Event>)
        ensures
            match res {
                Some(e) => stderr_event(line@) == Some(e@),
                None => stderr_event(line@) is None,
            },
    {
        if line.is_empty() {
            None
        } else {
            let mut message = String::from_str("[stderr] ");
            message.append(line);
            Some(Event::Error { message })
        }
    }

    /// The agent's standard output has ended, for whatever reason: no run is
    /// in progress any more.
    pub fn handle_stdout_closed(&self, session: &mut SessionManager)
        ensures
            final(session)@ == old(session)@.deactivated(),
    {
        session.set_inactive();
    }
}

} // verus!
