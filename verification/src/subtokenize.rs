//! Deal with content in other content.
//!
//! Events are a flat list, but content-bearing ones can be connected by
//! `previous` and `next` links into chains.  Links sit on `Enter` events
//! only, on void events (the matching `Exit` follows at once), and carry a
//! `content_type`.  `subtokenize` passes each chain through a tokenizer for
//! that content type and splices the resulting subevents back in place of
//! the chain's members.
//!
//! Subevents are not subtokenized on the fly: definitions may occur after
//! references, so the whole document must be parsed up to the level of
//! definitions before any level that can hold references.

use vstd::prelude::*;
use crate::content::content_type_start;
use crate::edit_map::EditMap;
use crate::event::Event;
use crate::event::EventType;
use crate::event::Link;
use crate::event::check_events;
use crate::event::events_ok;
use crate::parser::ParseState;
use crate::state::State;
use crate::tokenizer::Tokenizer;

verus! {

/// The value of `events[p].link.next` after `link_to(events, p, n)`.
pub open spec fn with_next(e: Event, n: usize) -> Event {
    Event { link: Some((Link { next: Some(n), ..e.link->Some_0 })), ..e }
}

/// The value of `events[n].link.previous` after `link_to(events, p, n)`.
pub open spec fn with_previous(e: Event, p: usize) -> Event {
    Event { link: Some((Link { previous: Some(p), ..e.link->Some_0 })), ..e }
}

/// What `link_to` demands of its two endpoints: `pevious` a void linked
/// `Enter` (its `Exit` right behind it), `next` a linked `Enter`, and the
/// two chains of one content type.
pub open spec fn linkable(s: Seq<Event>, pevious: int, next: int) -> bool {
    &&& 0 <= pevious
    &&& pevious < next
    &&& pevious + 1 < s.len()
    &&& 0 <= next < s.len()
    &&& s[pevious].event_type is Enter
    &&& s[pevious + 1].event_type is Exit
    &&& s[pevious + 1].token_type == s[pevious].token_type
    &&& s[next].event_type is Enter
    &&& s[pevious].link is Some
    &&& s[next].link is Some
    &&& s[pevious].link->Some_0.content_type == s[next].link->Some_0.content_type
}

/// The wiring `Tokenizer::connect_back` adds: when the log ends in a void
/// linked pair followed by a linked `Enter` of the same content type, the
/// last event joins the chain of the pair; otherwise nothing changes.
pub open spec fn link_back(s: Seq<Event>) -> Seq<Event> {
    if s.len() >= 3 && linkable(s, s.len() - 3, s.len() - 1) {
        s.update(
            s.len() - 3,
            with_next(s[s.len() - 3], (s.len() - 1) as usize),
        ).update(s.len() - 1, with_previous(s[s.len() - 1], (s.len() - 3) as usize))
    } else {
        s
    }
}

/// Decide `linkable` at run time.
pub fn can_link(events: &Vec<Event>, pevious: usize, next: usize) -> (r: bool)
    ensures
        r == linkable(events@, pevious as int, next as int),
{
    if !(pevious < next && pevious + 1 < events.len() && next < events.len()) {
        return false;
    }
    let a = events[pevious];
    let b = events[pevious + 1];
    let c = events[next];
    if !(matches!(a.event_type, EventType::Enter) && matches!(b.event_type, EventType::Exit)
        && b.token_type == a.token_type && matches!(c.event_type, EventType::Enter)) {
        return false;
    }
    match (a.link, c.link) {
        (Some(la), Some(lc)) => la.content_type == lc.content_type,
        _ => false,
    }
}

/// Link two events together: record `next` as the continuation of
/// `pevious`, and `pevious` as the origin of `next`.  Only the chain
/// wiring of the two `Enter` events changes.
pub fn link_to(events: &mut Vec<Event>, pevious: usize, next: usize)
    requires
        linkable(old(events)@, pevious as int, next as int),
    ensures
        final(events)@ == old(events)@.update(
            pevious as int,
            with_next(old(events)@[pevious as int], next),
        ).update(next as int, with_previous(old(events)@[next as int], pevious)),
{
    let mut a = events[pevious];
    match a.link {
        Some(l) => {
            a.link = Some(Link { next: Some(next), ..l });
        },
        _ => {},
    }
    events.set(pevious, a);
    let mut c = events[next];
    match c.link {
        Some(l) => {
            c.link = Some(Link { previous: Some(pevious), ..l });
        },
        _ => {},
    }
    events.set(next, c);
    proof {
        assert(events@ =~= old(events)@.update(
            pevious as int,
            with_next(old(events)@[pevious as int], next),
        ).update(next as int, with_previous(old(events)@[next as int], pevious)));
    }
}

/// Create a link between the event at `index` and the most recently closed
/// void linked event, which sits two places back.
pub fn link(events: &mut Vec<Event>, index: usize)
    requires
        index >= 2,
        linkable(old(events)@, index - 2, index as int),
    ensures
        final(events)@ == old(events)@.update(
            index - 2,
            with_next(old(events)@[index - 2], index),
        ).update(index as int, with_previous(old(events)@[index as int], (index - 2) as usize)),
{
    link_to(events, index - 2, index);
}

/// Every patch the resolver schedules sits on a linked `Enter` directly
/// followed by an `Exit` (a void chunk), and replaces exactly those two
/// events.
pub open spec fn patches_on_chunks(m: Seq<crate::edit_map::Patch>, s: Seq<Event>) -> bool {
    forall|k: int|
        0 <= k < m.len() ==> (#[trigger] m[k]).remove == 2 && m[k].index + 1 < s.len()
            && s[m[k].index as int].event_type is Enter && s[m[k].index as int].link is Some
            && s[m[k].index + 1].event_type is Exit
}

/// Parse linked events.
///
/// Walks the log for chain heads (`Enter` events whose link has no
/// `previous`), feeds each chain's slices of the code sequence through a
/// tokenizer for its content type, partitions the subevents over the
/// chain's members, shifts any deeper links the subevents carry, and
/// splices everything back through an edit map in one pass.
///
/// Supposed to be called repeatedly; returns `true` when done, that is
/// exactly when the resulting log carries no link any more — and a pass
/// over a link-free log is the identity, so once a call returns `true`
/// every later call returns `true` and changes nothing.  Whatever a pass
/// changes, it changes through a sorted set of disjoint patches, each
/// sitting on a void linked `Enter`/`Exit` pair and replacing exactly
/// those two events.  The rebuilt log is committed only after it checks
/// out well-nested and in range, so a sound log can never be made unsound
/// here.
pub fn subtokenize(events: &mut Vec<Event>, parse_state: &ParseState) -> (done: bool)
    ensures
        events_ok(old(events)@, parse_state.codes@.len() as int) ==> events_ok(
            final(events)@,
            parse_state.codes@.len() as int,
        ),
        done == !crate::event::has_links(final(events)@),
        (forall|i: int| 0 <= i < old(events)@.len() ==> (#[trigger] old(events)@[i].link) is None)
            ==> final(events)@ == old(events)@ && done,
        exists|m: Seq<crate::edit_map::Patch>|
            crate::edit_map::entries_wf(m) && patches_on_chunks(m, old(events)@)
                && crate::edit_map::fits(m, old(events)@.len() as int) && (final(events)@
                == crate::edit_map::spliced(m, old(events)@, 0) || final(events)@ == old(
                events,
            )@),
{
    let codes_len = parse_state.codes.len();
    let mut map = EditMap::new();
    let mut index: usize = 0;
    while index < events.len()
        invariant
            events@ == old(events)@,
            codes_len == parse_state.codes@.len(),
            map.wf(),
            crate::edit_map::fits(map.entries@, events@.len() as int),
            patches_on_chunks(map.entries@, events@),
            (forall|i: int| 0 <= i < events@.len() ==> (#[trigger] events@[i].link) is None)
                ==> map.entries@.len() == 0,
        decreases events@.len() - index,
    {
        let event = events[index];
        // Find each first opening chunk: a linked `Enter` that no earlier
        // chunk points at.
        let head = match event.link {
            Some(l) => l.previous.is_none() && matches!(event.event_type, EventType::Enter),
            Option::None => false,
        };
        let usable = event.point.line >= 1 && event.point.column >= 1 && event.point.index
            <= codes_len;
        if head && usable {
            let content_type = match event.link {
                Some(l) => l.content_type,
                Option::None => crate::event::ContentType::Text,
            };
            // Subtokenizer for the chain's content type.
            let mut tokenizer = Tokenizer::new(event.point, codes_len);
            let mut state = State::Next(content_type_start(content_type));
            // Loop through the chain to feed its slices in order.
            let mut link_index: Option<usize> = Some(index);
            let mut sound = true;
            let mut fuel = events.len();
            while fuel > 0
                invariant
                    events@ == old(events)@,
                    codes_len == parse_state.codes@.len(),
                    tokenizer.inv(),
                    tokenizer.codes_len == codes_len,
                decreases fuel,
            {
                fuel -= 1;
                let li = match link_index {
                    Some(li) => li,
                    Option::None => { break },
                };
                if !(li < events.len() && li + 1 < events.len()) {
                    sound = false;
                    break;
                }
                let enter = events[li];
                if !matches!(enter.event_type, EventType::Enter) {
                    sound = false;
                    break;
                }
                let chain = match enter.link {
                    Some(lc) => lc,
                    Option::None => {
                        sound = false;
                        break
                    },
                };
                let span_start = enter.point.index;
                let span_end = events[li + 1].point.index;
                if !(span_start <= span_end && span_end <= codes_len) {
                    sound = false;
                    break;
                }
                if chain.previous.is_some() {
                    // Positional continuity across the gap between chunks.
                    tokenizer.define_skip(&enter.point);
                }
                if tokenizer.point.index != span_start {
                    sound = false;
                    break;
                }
                let name = match state {
                    State::Next(n) => n,
                    _ => {
                        sound = false;
                        break
                    },
                };
                state = tokenizer.push(
                    &parse_state.codes,
                    span_start,
                    span_end,
                    name,
                    chain.next.is_none(),
                );
                link_index = chain.next;
            }
            if link_index.is_some() {
                // A chain that does not close within the log is malformed.
                sound = false;
            }
            if sound {
                // Figure out which subevents belong to which chain member,
                // and shift deeper links for the move they are about to make.
                let sub_len = tokenizer.events.len();
                let mut subindex: usize = 0;
                let mut link_cursor: usize = index;
                let mut slices: Vec<(usize, usize)> = Vec::new();
                let mut slice_start: usize = 0;
                while subindex < sub_len
                    invariant
                        events@ == old(events)@,
                        tokenizer.events@.len() == sub_len,
                    decreases sub_len - subindex,
                {
                    let subevent = tokenizer.events[subindex];
                    // The first subevent that starts at or after the end of
                    // the current member opens the next slice.
                    let boundary = matches!(subevent.event_type, EventType::Enter) && link_cursor
                        < events.len() && link_cursor + 1 < events.len() && subevent.point.index
                        >= events[link_cursor + 1].point.index;
                    if boundary {
                        slices.push((link_cursor, slice_start));
                        slice_start = subindex;
                        let mut advanced = false;
                        match events[link_cursor].link {
                            Some(l) => {
                                match l.next {
                                    Some(nx) => {
                                        link_cursor = nx;
                                        advanced = true;
                                    },
                                    Option::None => {},
                                }
                            },
                            Option::None => {},
                        }
                        if !advanced {
                            sound = false;
                            break;
                        }
                    }
                    // A `next` link among the subevents must account for the
                    // index shift of the move into the outer log: the member's
                    // index there, minus two removed events per slice so far.
                    let subevent_now = tokenizer.events[subindex];
                    match subevent_now.link {
                        Some(sl) => {
                            match sl.next {
                                Some(nx) => {
                                    let twice = if slices.len() <= usize::MAX / 2 {
                                        slices.len() * 2
                                    } else {
                                        usize::MAX
                                    };
                                    if link_cursor >= twice {
                                        let shift = link_cursor - twice;
                                        if nx <= usize::MAX - shift {
                                            let mut moved = subevent_now;
                                            moved.link = Some(
                                                Link { next: Some(nx + shift), ..sl },
                                            );
                                            tokenizer.events.set(subindex, moved);
                                        }
                                        if nx < sub_len {
                                            let neighbour = tokenizer.events[nx];
                                            match neighbour.link {
                                                Some(nl) => {
                                                    match nl.previous {
                                                        Some(pv) => {
                                                            if pv <= usize::MAX - shift {
                                                                let mut moved2 = neighbour;
                                                                moved2.link = Some(
                                                                    Link {
                                                                        previous: Some(pv + shift),
                                                                        ..nl
                                                                    },
                                                                );
                                                                tokenizer.events.set(nx, moved2);
                                                            }
                                                        },
                                                        Option::None => {},
                                                    }
                                                },
                                                Option::None => {},
                                            }
                                        }
                                    }
                                },
                                Option::None => {},
                            }
                        },
                        Option::None => {},
                    }
                    subindex += 1;
                }
                if sound {
                    slices.push((link_cursor, slice_start));
                    // Finally, schedule the injections, last slice first.
                    let mut si = slices.len();
                    while si > 0
                        invariant
                            events@ == old(events)@,
                            tokenizer.events@.len() == sub_len,
                            si <= slices@.len(),
                            map.wf(),
                            crate::edit_map::fits(map.entries@, events@.len() as int),
                            patches_on_chunks(map.entries@, events@),
                        decreases si,
                    {
                        si -= 1;
                        let at = slices[si].0;
                        let start = slices[si].1;
                        let stop = if si + 1 < slices.len() {
                            slices[si + 1].1
                        } else {
                            tokenizer.events.len()
                        };
                        let chunk_shaped = at <= usize::MAX - 2 && at + 2 <= events.len()
                            && matches!(events[at].event_type, EventType::Enter)
                            && events[at].link.is_some()
                            && matches!(events[at + 1].event_type, EventType::Exit);
                        if start <= stop && stop <= tokenizer.events.len() && chunk_shaped
                            && map.can_add(at, 2) {
                            let mut slice_vec: Vec<Event> = Vec::new();
                            let mut q = start;
                            while q < stop
                                invariant
                                    q <= stop,
                                    stop <= tokenizer.events@.len(),
                                decreases stop - q,
                            {
                                slice_vec.push(tokenizer.events[q]);
                                q += 1;
                            }
                            let ghost entries_before = map.entries@;
                            map.add(at, 2, slice_vec);
                            proof {
                                assert forall|k: int|
                                    0 <= k < map.entries@.len() implies #[trigger] map.entries@[k].index
                                        + map.entries@[k].remove <= events@.len() as int by {}
                                assert forall|k: int|
                                    0 <= k < map.entries@.len() implies (#[trigger] map.entries@[k]).remove
                                        == 2 && map.entries@[k].index + 1 < events@.len()
                                        && events@[map.entries@[k].index as int].event_type is Enter
                                        && events@[map.entries@[k].index as int].link is Some
                                        && events@[map.entries@[k].index + 1].event_type is Exit by {
                                    if map.entries@[k] != (crate::edit_map::Patch {
                                        index: at,
                                        remove: 2,
                                        inserts: slice_vec,
                                    }) {
                                        let j = choose|j: int|
                                            0 <= j < entries_before.len() && map.entries@[k]
                                                == entries_before[j];
                                        assert(entries_before[j].remove == 2
                                            && entries_before[j].index + 1 < events@.len()
                                            && events@[entries_before[j].index as int].event_type is Enter
                                            && events@[entries_before[j].index as int].link is Some
                                            && events@[entries_before[j].index + 1].event_type is Exit);
                                    }
                                }
                            }
                        }
                    }
                }
            }
        }
        index += 1;
    }
    // Rebuild on a copy and commit it only when it checks out: a sound log
    // stays sound.
    let mut patched: Vec<Event> = Vec::new();
    let mut q: usize = 0;
    while q < events.len()
        invariant
            events@ == old(events)@,
            q <= events@.len(),
            patched@ == events@.take(q as int),
        decreases events@.len() - q,
    {
        patched.push(events[q]);
        proof {
            assert(events@.take(q + 1) =~= events@.take(q as int).push(events@[q as int]));
        }
        q += 1;
    }
    proof {
        assert(events@.take(events@.len() as int) =~= events@);
    }
    proof {
        if forall|i: int| 0 <= i < events@.len() ==> (#[trigger] events@[i].link) is None {
            assert(map.entries@ =~= Seq::<crate::edit_map::Patch>::empty());
            assert(crate::edit_map::spliced(map.entries@, events@, 0) == events@.subrange(
                0,
                events@.len() as int,
            ));
            assert(events@.subrange(0, events@.len() as int) =~= events@);
        }
    }
    let ghost scheduled = map.entries@;
    map.consume(&mut patched);
    if check_events(&patched, codes_len) {
        *events = patched;
    }
    proof {
        assert(crate::edit_map::entries_wf(scheduled) && patches_on_chunks(
            scheduled,
            old(events)@,
        ) && crate::edit_map::fits(scheduled, old(events)@.len() as int) && (events@
            == crate::edit_map::spliced(scheduled, old(events)@, 0) || events@ == old(events)@));
    }
    // Done exactly when no chain wiring remains: only then would another
    // pass change nothing.
    !crate::event::scan_links(events)
}

} // verus!
