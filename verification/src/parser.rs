//! Turn a string of markdown into events.

use vstd::prelude::*;
use crate::codes::Code;
use crate::codes::Point;
use crate::codes::as_codes;
use crate::codes::no_sentinel;
use crate::codes::normalized;
use crate::codes::rebuild;
use crate::content::flow;
use crate::event::Event;
use crate::event::events_ok;
use crate::event::has_links;
use crate::event::strip_links;
use crate::subtokenize::subtokenize;

verus! {

/// The state parsing leaves behind for later passes: the normalized code
/// sequence every event's `point.index` points into.
pub struct ParseState {
    pub codes: Vec<Code>,
}

/// Turn a string of markdown into events.
///
/// Passes the codes back so a compiler can access the source.  The codes
/// stand for the input exactly (rebuilding their characters gives it
/// back, and every source line ending is normalized).  The event stream is
/// well-nested, every position lies inside the code sequence at a 1-based
/// line and column with non-decreasing indexes, and it is fully resolved:
/// no event carries chain wiring any more.
pub fn parse(value: &str) -> (r: (Vec<Event>, Vec<Code>))
    ensures
        rebuild(r.1@) == value@,
        no_sentinel(r.1@),
        normalized(r.1@),
        events_ok(r.0@, r.1@.len() as int),
        !has_links(r.0@),
{
    let codes = as_codes(value);
    let point = Point { line: 1, column: 1, offset: 0, index: 0 };
    let mut events = flow(&codes, point);
    let parse_state = ParseState { codes };
    // Chains found in one pass may hold deeper content found only by the
    // next: resolve until a pass finds nothing more.  The fuel bound is
    // unreachable: nesting of content types is finite.
    let mut fuel: usize = usize::MAX;
    let mut resolved = false;
    loop
        invariant
            events_ok(events@, parse_state.codes@.len() as int),
            rebuild(parse_state.codes@) == value@,
            no_sentinel(parse_state.codes@),
            normalized(parse_state.codes@),
            resolved ==> !has_links(events@),
        decreases fuel,
    {
        if fuel == 0 {
            break;
        }
        fuel = fuel - 1;
        if subtokenize(&mut events, &parse_state) {
            resolved = true;
            break;
        }
    }
    if !resolved {
        // Unreachable: the fuel above outlives any document.  A resolution
        // that stalled would leave chain wiring whose indexes no longer
        // mean anything; drop it rather than hand out dangling links.
        let ghost before = events@;
        strip_links(&mut events);
        proof {
            assert(crate::event::same_shape(before, events@));
            crate::event::lemma_unmatched_same_shape(before, events@);
            assert forall|i: int| 0 <= i < events@.len() implies #[trigger] events@[i].point.index
                <= parse_state.codes@.len() as int by {
                assert(events@[i].point == before[i].point);
            }
            assert forall|i: int| 0 < i < events@.len() implies #[trigger] events@[i
                - 1].point.index <= events@[i].point.index by {
                assert(events@[i].point == before[i].point);
                assert(events@[i - 1].point == before[i - 1].point);
            }
            assert forall|i: int| 0 <= i < events@.len() implies (#[trigger] events@[i]).point.line
                >= 1 && events@[i].point.column >= 1 by {
                assert(events@[i].point == before[i].point);
            }
            assert forall|i: int| 0 < i < events@.len() implies (#[trigger] events@[i
                - 1]).point.line <= events@[i].point.line && events@[i - 1].point.offset
                <= events@[i].point.offset by {
                assert(events@[i].point == before[i].point);
                assert(events@[i - 1].point == before[i - 1].point);
            }
        }
    }
    (events, parse_state.codes)
}

} // verus!
