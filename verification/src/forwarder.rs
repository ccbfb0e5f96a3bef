//! Turns events into the lines that the host reads, and knows when to stop.

use crate::protocol::{events_view, json_line, Event, EventView};
use crate::text::{single_line, strings_view};
use vstd::prelude::*;

verus! {

/// One event, ready to be written.
#[derive(Debug, Clone, PartialEq, Eq)]
pub struct Forwarded {
    /// The line to write and flush.
    pub line: String,
    /// Whether this was the last event of the run: the process is to be
    /// reaped and nothing more is read from this run.
    pub done: bool,
}

/// How many of `events` are forwarded: all up to and including the first
/// `Done`, or all of them where there is none.
pub open spec fn forwarded_count(events: Seq<EventView>) -> nat
    decreases events.len(),
{
    if events.len() == 0 {
        0
    } else if events[0] is Done {
        1
    } else {
        1 + forwarded_count(events.drop_first())
    }
}

/// The lines for the first `n` events.
pub open spec fn lines_of(events: Seq<EventView>, n: nat) -> Seq<Seq<char>> {
    events.take(n as int).map_values(|e: EventView| json_line(e))
}

/// The lines that are written for `events`.
pub open spec fn forwarded_lines(events: Seq<EventView>) -> Seq<Seq<char>> {
    lines_of(events, forwarded_count(events))
}

/// `forwarded_count` stays within the sequence, and where it stops early it
/// stops right after a `Done` that has none before it.
pub proof fn lemma_forwarded_count(events: Seq<EventView>)
    ensures
        forwarded_count(events) <= events.len(),
        forall|i: int| 0 <= i < forwarded_count(events) - 1 ==> !(#[trigger] events[i] is Done),
        forwarded_count(events) < events.len() ==> events[forwarded_count(events) - 1] is Done,
        events.len() > 0 ==> forwarded_count(events) > 0,
    decreases events.len(),
{
    if events.len() > 0 && !(events[0] is Done) {
        let rest = events.drop_first();
        lemma_forwarded_count(rest);
        assert forall|i: int| 0 <= i < forwarded_count(events) - 1 implies !(
        #[trigger] events[i] is Done) by {
            if i > 0 {
                assert(events[i] == rest[i - 1]);
            }
        }
        if forwarded_count(events) < events.len() {
            assert(events[forwarded_count(events) - 1] == rest[forwarded_count(rest) - 1]);
        }
    }
}

/// Counting from the front: where the first `i` events hold no `Done`, the
/// count is `i` plus the count of the rest.
proof fn lemma_count_skips(events: Seq<EventView>, i: int)
    requires
        0 <= i <= events.len(),
        forall|k: int| 0 <= k < i ==> !(#[trigger] events[k] is Done),
    ensures
        forwarded_count(events) == i + forwarded_count(events.skip(i)),
    decreases i,
{
    if i == 0 {
        assert(events.skip(0) =~= events);
    } else {
        lemma_count_skips(events, i - 1);
        assert(events.skip(i - 1).drop_first() =~= events.skip(i));
        assert(events.skip(i - 1)[0] == events[i - 1]);
    }
}

/// Prepares one event for the host.
pub fn forward(event: &Event) -> (res: Forwarded)
    ensures
        res.line@ == json_line(event@),
        res.line@.len() > 0 && res.line@.last() == '\n',
        event@.plain() ==> single_line(res.line@.drop_last()),
        res.done == (event@ is Done),
{
    Forwarded { line: event.to_json_line(), done: event.is_done() }
}

/// The lines to write for a batch of events, in order. Events after a `Done`
/// are dropped.
pub fn forward_all(events: &Vec<Event>) -> (res: Vec<String>)
    ensures
        strings_view(res@) == forwarded_lines(events_view(events@)),
{
    let ghost all = events_view(events@);
    let mut lines: Vec<String> = Vec::new();
    let mut i: usize = 0;
    assert(strings_view(lines@) =~= lines_of(all, 0));
    while i < events.len()
        invariant
            i <= events.len(),
            all == events_view(events@),
            forall|k: int| 0 <= k < i ==> !(#[trigger] all[k] is Done),
            strings_view(lines@) == lines_of(all, i as nat),
        decreases events.len() - i,
    {
        let step = forward(&events[i]);
        let ghost before = lines@;
        lines.push(step.line);
        assert(all[i as int] == events@[i as int]@);
        assert(strings_view(lines@) =~= lines_of(all, (i + 1) as nat)) by {
            assert(strings_view(lines@) =~= strings_view(before).push(json_line(all[i as int])));
            assert(all.take(i + 1) =~= all.take(i as int).push(all[i as int]));
        }
        proof {
            lemma_count_skips(all, i as int);
        }
        if step.done {
            assert(all.skip(i as int)[0] == all[i as int]);
            return lines;
        }
        i = i + 1;
    }
    proof {
        lemma_count_skips(all, i as int);
    }
    lines
}

} // verus!
