//! The event log: a flat, append-only record of token boundaries.
//!
//! Each event marks the entry into or the exit out of a token at a source
//! [`Point`].  `Enter` events of content-bearing tokens may carry a
//! [`Link`], chaining non-contiguous slices of content that are later parsed
//! as one logical stream by the sub-tokenizer.

use vstd::prelude::*;
use crate::codes::Point;

verus! {

/// Whether an event opens or closes a token.
#[derive(Clone, Copy, Debug, PartialEq, Eq, Structural)]
pub enum EventType {
    Enter,
    Exit,
}

/// The closed set of token kinds this crate's constructs emit.
#[derive(Clone, Copy, Debug, PartialEq, Eq, Structural)]
pub enum TokenType {
    /// A run of `' '`, `'\t'`, or virtual spaces.
    SpaceOrTab,
    /// A line ending between or inside constructs.
    LineEnding,
    /// A line ending on an otherwise blank line.
    BlankLineEnding,
    /// A paragraph of flow content.
    Paragraph,
    /// Verbatim inline content.
    Data,
    /// A slice of content to be re-parsed in the text context.
    ChunkText,
    /// A slice of content to be re-parsed in the string context.
    ChunkString,
}

/// The context a linked chain of chunks is re-parsed in.
#[derive(Clone, Copy, Debug, PartialEq, Eq, Structural)]
pub enum ContentType {
    /// The constrained inline context.
    String,
    /// The full inline context.
    Text,
}

/// Chain metadata on an `Enter` event: neighbours in the chain of chunks
/// that share one logical stream of `content_type` content.
#[derive(Clone, Copy, Debug, PartialEq, Eq)]
pub struct Link {
    pub previous: Option<usize>,
    pub next: Option<usize>,
    pub content_type: ContentType,
}

/// One record of the event log; immutable once appended, except for the
/// chain wiring in `link`.
#[derive(Clone, Copy, Debug, PartialEq, Eq)]
pub struct Event {
    pub event_type: EventType,
    pub token_type: TokenType,
    pub point: Point,
    pub link: Option<Link>,
}

/// The `Enter` event the tokenizer appends for `token_type` at `p`, with
/// fresh chain metadata when a content type is given.
pub open spec fn enter_event(token_type: TokenType, p: Point, content_type: Option<ContentType>) -> Event {
    Event {
        event_type: EventType::Enter,
        token_type,
        point: p,
        link: match content_type {
            Some(c) => Some(
                (Link { previous: Option::None, next: Option::None, content_type: c }),
            ),
            Option::None => Option::None,
        },
    }
}

/// The `Exit` event the tokenizer appends for `token_type` at `p`.
pub open spec fn exit_event(token_type: TokenType, p: Point) -> Event {
    Event { event_type: EventType::Exit, token_type, point: p, link: Option::None }
}

/// The stack of tokens a well-formed event prefix leaves open, or `None`
/// when some `Exit` fails to match the innermost open `Enter`.
pub open spec fn unmatched(s: Seq<Event>) -> Option<Seq<TokenType>>
    decreases s.len(),
{
    if s.len() == 0 {
        Some(Seq::empty())
    } else {
        match unmatched(s.drop_last()) {
            Option::None => Option::None,
            Some(st) => match s.last().event_type {
                EventType::Enter => Some(st.push(s.last().token_type)),
                EventType::Exit => {
                    if st.len() > 0 && st.last() == s.last().token_type {
                        Some(st.drop_last())
                    } else {
                        Option::None
                    }
                },
            },
        }
    }
}

/// Well-nested: every `Enter` has a later matching `Exit` of the same token
/// type, nesting is LIFO, and nothing stays open.
pub open spec fn balanced(s: Seq<Event>) -> bool {
    unmatched(s) == Some(Seq::<TokenType>::empty())
}

/// Every event points into `[0, codes_len]`, and `point.index` never
/// decreases from one event to the next.
pub open spec fn indexes_ok(s: Seq<Event>, codes_len: int) -> bool {
    &&& forall|i: int| 0 <= i < s.len() ==> #[trigger] s[i].point.index <= codes_len
    &&& forall|i: int| 0 < i < s.len() ==> #[trigger] s[i - 1].point.index <= s[i].point.index
}

/// Line and byte offset never decrease from one event to the next.  (The
/// column is not monotone: it resets to 1 at every line ending.)
pub open spec fn positions_monotone(s: Seq<Event>) -> bool {
    forall|i: int|
        0 < i < s.len() ==> (#[trigger] s[i - 1]).point.line <= s[i].point.line
            && s[i - 1].point.offset <= s[i].point.offset
}

/// Every event sits at a well-formed position: 1-based line and column.
pub open spec fn points_wf(s: Seq<Event>) -> bool {
    forall|i: int| 0 <= i < s.len() ==> (#[trigger] s[i]).point.line >= 1 && s[i].point.column >= 1
}

/// What the core promises of every event stream it hands out.
pub open spec fn events_ok(s: Seq<Event>, codes_len: int) -> bool {
    balanced(s) && indexes_ok(s, codes_len) && points_wf(s) && positions_monotone(s)
}

pub proof fn lemma_unmatched_push(s: Seq<Event>, e: Event)
    ensures
        unmatched(s.push(e)) == match unmatched(s) {
            Option::None => Option::None,
            Some(st) => match e.event_type {
                EventType::Enter => Some(st.push(e.token_type)),
                EventType::Exit => {
                    if st.len() > 0 && st.last() == e.token_type {
                        Some(st.drop_last())
                    } else {
                        Option::None
                    }
                },
            },
        },
{
    assert(s.push(e).last() == e);
    assert(s.push(e).drop_last() =~= s);
}

/// A failed prefix never recovers: once some `Exit` mismatches, the whole
/// stream is ill-nested.
pub proof fn lemma_unmatched_none_extends(s: Seq<Event>, k: int)
    requires
        0 <= k <= s.len(),
        unmatched(s.take(k)) is None,
    ensures
        unmatched(s) is None,
    decreases s.len() - k,
{
    if k == s.len() {
        assert(s.take(k) =~= s);
    } else {
        assert(s.take(k + 1).drop_last() =~= s.take(k));
        assert(s.take(k + 1).last() == s[k]);
        lemma_unmatched_none_extends(s, k + 1);
    }
}

/// Some event still carries chain wiring: a chunk awaiting resolution.
pub open spec fn has_links(s: Seq<Event>) -> bool {
    exists|i: int| 0 <= i < s.len() && (#[trigger] s[i].link) is Some
}

/// Decide `has_links` at run time.
pub fn scan_links(events: &Vec<Event>) -> (r: bool)
    ensures
        r == has_links(events@),
{
    let mut k: usize = 0;
    while k < events.len()
        invariant
            k <= events@.len(),
            forall|i: int| 0 <= i < k ==> (#[trigger] events@[i].link) is None,
        decreases events@.len() - k,
    {
        if events[k].link.is_some() {
            return true;
        }
        k += 1;
    }
    false
}

/// Drop every event's chain wiring, leaving kinds and positions as they
/// are.
pub fn strip_links(events: &mut Vec<Event>)
    ensures
        final(events)@.len() == old(events)@.len(),
        forall|i: int|
            0 <= i < old(events)@.len() ==> final(events)@[i] == (Event {
                link: Option::<Link>::None,
                ..old(events)@[i]
            }),
{
    let mut k: usize = 0;
    while k < events.len()
        invariant
            k <= events@.len(),
            events@.len() == old(events)@.len(),
            forall|i: int|
                0 <= i < k ==> events@[i] == (Event {
                    link: Option::<Link>::None,
                    ..old(events)@[i]
                }),
            forall|i: int| k <= i < events@.len() ==> events@[i] == old(events)@[i],
        decreases events@.len() - k,
    {
        let e = events[k];
        events.set(k, Event { link: Option::None, ..e });
        k += 1;
    }
}

/// Equal but for the chain wiring: same length, and the same kind and
/// position at every index.  Linking mutates only `link` fields, so it
/// keeps the shape.
pub open spec fn same_shape(a: Seq<Event>, b: Seq<Event>) -> bool {
    &&& a.len() == b.len()
    &&& forall|i: int|
        0 <= i < a.len() ==> #[trigger] a[i].event_type == b[i].event_type
            && a[i].token_type == b[i].token_type && a[i].point == b[i].point
}

/// Nesting never depends on the chain wiring.
pub proof fn lemma_unmatched_same_shape(a: Seq<Event>, b: Seq<Event>)
    requires
        same_shape(a, b),
    ensures
        unmatched(a) == unmatched(b),
    decreases a.len(),
{
    if a.len() > 0 {
        assert(same_shape(a.drop_last(), b.drop_last()));
        lemma_unmatched_same_shape(a.drop_last(), b.drop_last());
        assert(a.last().event_type == b.last().event_type && a.last().token_type
            == b.last().token_type);
    }
}

/// Decide `events_ok` at run time: simulate the open-token stack and check
/// the position bounds in one pass.
pub fn check_events(events: &Vec<Event>, codes_len: usize) -> (r: bool)
    ensures
        r == events_ok(events@, codes_len as int),
{
    let mut sim: Vec<TokenType> = Vec::new();
    let mut k: usize = 0;
    while k < events.len()
        invariant
            k <= events@.len(),
            unmatched(events@.take(k as int)) == Some(sim@),
            forall|i: int| 0 <= i < k ==> #[trigger] events@[i].point.index <= codes_len,
            forall|i: int| 0 < i < k ==> #[trigger] events@[i - 1].point.index
                <= events@[i].point.index,
            forall|i: int|
                0 <= i < k ==> (#[trigger] events@[i]).point.line >= 1 && events@[i].point.column
                    >= 1,
            forall|i: int|
                0 < i < k ==> (#[trigger] events@[i - 1]).point.line <= events@[i].point.line
                    && events@[i - 1].point.offset <= events@[i].point.offset,
        decreases events@.len() - k,
    {
        let e = events[k];
        if e.point.index > codes_len {
            return false;
        }
        if e.point.line < 1 || e.point.column < 1 {
            return false;
        }
        if k > 0 && events[k - 1].point.index > e.point.index {
            return false;
        }
        if k > 0 && (events[k - 1].point.line > e.point.line || events[k - 1].point.offset
            > e.point.offset) {
            return false;
        }
        proof {
            assert(events@.take(k + 1).drop_last() =~= events@.take(k as int));
            assert(events@.take(k + 1).last() == events@[k as int]);
        }
        match e.event_type {
            EventType::Enter => {
                sim.push(e.token_type);
            },
            EventType::Exit => {
                if sim.len() > 0 && sim[sim.len() - 1] == e.token_type {
                    proof {
                        assert(sim@.drop_last() =~= sim@.take(sim@.len() - 1));
                    }
                    sim.pop();
                } else {
                    proof {
                        lemma_unmatched_none_extends(events@, k + 1);
                    }
                    return false;
                }
            },
        }
        k += 1;
    }
    proof {
        assert(events@.take(events@.len() as int) =~= events@);
        if sim@.len() == 0 {
            assert(sim@ =~= Seq::<TokenType>::empty());
        }
    }
    sim.len() == 0
}

} // verus!
