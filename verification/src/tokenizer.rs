//! The backtracking tokenizer runtime.
//!
//! A tokenizer owns the growing event log, the current read position, the
//! stack of open tokens and a stack of pending attempts.  State functions
//! mutate it through `enter`, `exit` and `consume`; the composition
//! primitives `attempt`, `check` and `attempt_opt` snapshot the observable
//! state so that a failed construct leaves no trace.
//!
//! Its central invariant, `inv`, ties the event log to the stack of open
//! tokens: the log's unmatched `Enter`s are exactly the stack.  Every
//! primitive preserves it, so any run of the trampoline keeps the log
//! well-nested up to the tokens still open.

use vstd::prelude::*;
use crate::codes::Code;
use crate::codes::Point;
use crate::event::ContentType;
use crate::event::Event;
use crate::event::EventType;
use crate::event::Link;
use crate::event::TokenType;
use crate::event::indexes_ok;
use crate::event::lemma_unmatched_push;
use crate::event::unmatched;
use crate::state::AttemptKind;
use crate::state::State;
use crate::state::StateName;

verus! {

/// Per-construct scratch slots: one flat record, copied verbatim by
/// `attempt` snapshots.
#[derive(Clone, Copy, Debug, PartialEq, Eq)]
pub struct TokenizeState {
    /// `space_or_tab`: minimum codes required (inclusive).
    pub space_or_tab_min: usize,
    /// `space_or_tab`: maximum codes allowed (inclusive).
    pub space_or_tab_max: usize,
    /// `space_or_tab`: codes consumed so far.
    pub space_or_tab_size: usize,
    /// `space_or_tab`: token type for the whitespace event.
    pub space_or_tab_token: TokenType,
    /// `space_or_tab`: content type of the chain the event joins, if any.
    pub space_or_tab_content_type: Option<ContentType>,
    /// `space_or_tab`: connect the event to the previous linked event.
    pub space_or_tab_connect: bool,
    /// `space_or_tab_eol`: content type for all emitted tokens.
    pub eol_content_type: Option<ContentType>,
    /// `space_or_tab_eol`: connect the first emitted token to the chain.
    pub eol_connect_option: bool,
    /// `space_or_tab_eol`: whether the chain has begun inside this helper.
    pub eol_connect: bool,
    /// `space_or_tab_eol`: whether leading whitespace matched.
    pub eol_ok: bool,
}

impl TokenizeState {
    /// Everything cleared.
    pub fn new() -> (r: TokenizeState)
        ensures
            r == TokenizeState::blank(),
    {
        TokenizeState {
            space_or_tab_min: 0,
            space_or_tab_max: 0,
            space_or_tab_size: 0,
            space_or_tab_token: TokenType::SpaceOrTab,
            space_or_tab_content_type: Option::None,
            space_or_tab_connect: false,
            eol_content_type: Option::None,
            eol_connect_option: false,
            eol_connect: false,
            eol_ok: false,
        }
    }

    /// The cleared scratch record.
    pub open spec fn blank() -> TokenizeState {
        TokenizeState {
            space_or_tab_min: 0,
            space_or_tab_max: 0,
            space_or_tab_size: 0,
            space_or_tab_token: TokenType::SpaceOrTab,
            space_or_tab_content_type: Option::None,
            space_or_tab_connect: false,
            eol_content_type: Option::None,
            eol_connect_option: false,
            eol_connect: false,
            eol_ok: false,
        }
    }
}

/// A pending `attempt` or `check`: the snapshot taken when it began,
/// and where to continue on either outcome.
pub struct Attempt {
    pub kind: AttemptKind,
    /// State to continue in when the attempted state yields `Okay`.
    pub ok: StateName,
    /// State to continue in when it yields `Nok`.
    pub nok: StateName,
    pub point: Point,
    pub previous: Code,
    pub consumed: bool,
    pub stack_snapshot: Vec<TokenType>,
    pub state_snapshot: TokenizeState,
    /// The event log at snapshot time, restored verbatim on rollback: no
    /// observable mutation survives a failed attempt.
    pub events_snapshot: Vec<Event>,
}

/// A position fit for this tokenizer: 1-based line and column, index
/// within the code sequence.
pub open spec fn pt_wf(p: Point, codes_len: int) -> bool {
    &&& p.line >= 1
    &&& p.column >= 1
    &&& p.index <= codes_len
}

/// The last appended event does not sit past the read position.
pub open spec fn last_below(s: Seq<Event>, p: Point) -> bool {
    s.len() > 0 ==> s.last().point.index <= p.index && s.last().point.line <= p.line
        && s.last().point.offset <= p.offset
}

/// What `bump` computes: plain addition, held at the current value in the
/// (unreachable for real sources) case that a position outgrows the
/// machine word.
pub open spec fn bump_spec(x: usize, d: usize) -> usize {
    if x + d <= usize::MAX {
        (x + d) as usize
    } else {
        x
    }
}

/// Add without overflow, exactly as `bump_spec` says.
fn bump(x: usize, d: usize) -> (r: usize)
    ensures
        r == bump_spec(x, d),
{
    if x <= usize::MAX - d {
        x + d
    } else {
        x
    }
}

/// Where consuming `c` at `p` puts the read head (spec of the point rules):
/// a line ending opens a new line at column 1 (two bytes for a
/// `CarriageReturnLineFeed`, the character's width otherwise), a
/// `VirtualSpace` advances the column but no byte, any other character
/// advances column and offset by its width; the code index always moves on
/// by one.
pub open spec fn next_point(p: Point, c: Code) -> Point {
    match c {
        Code::CarriageReturnLineFeed => Point {
            line: bump_spec(p.line, 1),
            column: 1,
            offset: bump_spec(p.offset, 2),
            index: (p.index + 1) as usize,
        },
        Code::Char(ch) => if ch == '\n' || ch == '\r' {
            Point {
                line: bump_spec(p.line, 1),
                column: 1,
                offset: bump_spec(p.offset, crate::codes::char_utf8_width(ch) as usize),
                index: (p.index + 1) as usize,
            }
        } else {
            Point {
                line: p.line,
                column: bump_spec(p.column, 1),
                offset: bump_spec(p.offset, crate::codes::char_utf8_width(ch) as usize),
                index: (p.index + 1) as usize,
            }
        },
        Code::VirtualSpace => Point {
            line: p.line,
            column: bump_spec(p.column, 1),
            offset: p.offset,
            index: (p.index + 1) as usize,
        },
        Code::Eof => p,
    }
}

/// The frame holds everything observable exactly as it stood when the
/// attempt began: the snapshot is total.
pub open spec fn snapshot_total(f: Attempt, pre: Tokenizer) -> bool {
    &&& f.events_snapshot@ == pre.events@
    &&& f.stack_snapshot@ == pre.stack@
    &&& f.point == pre.point
    &&& f.previous == pre.previous
    &&& f.consumed == pre.consumed
    &&& f.state_snapshot == pre.tokenize_state
}

/// One composition frame was pushed over `pre` (whose scratch the caller
/// may already have set for the sub-construct), and nothing else moved.
pub open spec fn frame_pushed(
    pre: Tokenizer,
    post: Tokenizer,
    kind: AttemptKind,
    ok: StateName,
    nok: StateName,
) -> bool {
    &&& post.attempts@.len() == pre.attempts@.len() + 1
    &&& post.attempts@.drop_last() == pre.attempts@
    &&& post.attempts@.last().kind == kind
    &&& post.attempts@.last().ok == ok
    &&& post.attempts@.last().nok == nok
    &&& snapshot_total(post.attempts@.last(), pre)
    &&& post.events == pre.events
    &&& post.stack == pre.stack
    &&& post.point == pre.point
    &&& post.current == pre.current
    &&& post.previous == pre.previous
    &&& post.consumed == pre.consumed
    &&& post.tokenize_state == pre.tokenize_state
    &&& post.codes_len == pre.codes_len
}

/// A point `define_skip` accepts: well-formed, in range, and only ever
/// moving the read head forward.
pub open spec fn skip_accepted(p: Point, t: Tokenizer) -> bool {
    &&& p.line >= 1
    &&& p.column >= 1
    &&& p.index <= t.codes_len
    &&& p.index >= t.point.index
    &&& p.line >= t.point.line
    &&& p.offset >= t.point.offset
}

/// Exactly one code was consumed and nothing else changed.
pub open spec fn consumed_only(pre: Tokenizer, post: Tokenizer) -> bool {
    &&& post.events == pre.events
    &&& post.stack == pre.stack
    &&& post.attempts == pre.attempts
    &&& post.tokenize_state == pre.tokenize_state
    &&& post.codes_len == pre.codes_len
    &&& post.current == pre.current
    &&& post.previous == pre.current
    &&& post.consumed
    &&& post.point == next_point(pre.point, pre.current)
}

pub struct Tokenizer {
    /// Length of the code sequence this tokenizer reads; `point.index`
    /// never passes it.
    pub codes_len: usize,
    /// The code under the read head, set by the trampoline.
    pub current: Code,
    /// The last consumed code.
    pub previous: Code,
    /// Whether the current code was consumed already.
    pub consumed: bool,
    /// The read position.
    pub point: Point,
    /// The append-only event log (rewound only by rollback).
    pub events: Vec<Event>,
    /// Open tokens awaiting their `Exit`.
    pub stack: Vec<TokenType>,
    /// Pending attempts, innermost last.
    pub attempts: Vec<Attempt>,
    /// Per-construct scratch.
    pub tokenize_state: TokenizeState,
}

impl Tokenizer {
    /// A pending attempt's snapshot is a state this tokenizer could roll
    /// back to: it satisfies the invariant on its own, at a position no
    /// later than the current one.
    pub open spec fn frame_ok(self, f: Attempt) -> bool {
        &&& unmatched(f.events_snapshot@) == Some(f.stack_snapshot@)
        &&& indexes_ok(f.events_snapshot@, self.codes_len as int)
        &&& crate::event::points_wf(f.events_snapshot@)
        &&& crate::event::positions_monotone(f.events_snapshot@)
        &&& pt_wf(f.point, self.codes_len as int)
        &&& last_below(f.events_snapshot@, f.point)
        &&& f.point.index <= self.point.index
    }

    /// All pending attempts are consistent, and nested ones snapshot
    /// positions and log lengths no earlier than their enclosing ones.
    pub open spec fn frames_ok(self) -> bool {
        &&& forall|k: int|
            0 <= k < self.attempts@.len() ==> self.frame_ok(#[trigger] self.attempts@[k])
        &&& forall|j: int, k: int|
            0 <= j < k < self.attempts@.len() ==> #[trigger] self.attempts@[j].point.index
                <= #[trigger] self.attempts@[k].point.index
    }

    /// The runtime invariant: the unmatched `Enter`s of the log are exactly
    /// the stack, positions are in range and non-decreasing, and every
    /// pending attempt can be rolled back to a state with the same shape.
    pub open spec fn inv(self) -> bool {
        &&& pt_wf(self.point, self.codes_len as int)
        &&& indexes_ok(self.events@, self.codes_len as int)
        &&& crate::event::points_wf(self.events@)
        &&& crate::event::positions_monotone(self.events@)
        &&& unmatched(self.events@) == Some(self.stack@)
        &&& last_below(self.events@, self.point)
        &&& self.frames_ok()
    }

    /// The trampoline fed a real code only while the read head is inside
    /// the sequence.
    pub open spec fn feed_ok(self) -> bool {
        self.current is Eof || self.point.index < self.codes_len
    }

    /// A fresh tokenizer at `point` over a code sequence of length
    /// `codes_len`.
    pub fn new(point: Point, codes_len: usize) -> (r: Tokenizer)
        requires
            point.line >= 1,
            point.column >= 1,
            point.index <= codes_len,
        ensures
            r.inv(),
            r.codes_len == codes_len,
            r.point == point,
            r.events@ == Seq::<Event>::empty(),
            r.stack@ == Seq::<TokenType>::empty(),
            r.attempts@.len() == 0,
            r.tokenize_state == TokenizeState::blank(),
            r.current is Eof,
            r.previous is Eof,
    {
        let r = Tokenizer {
            codes_len,
            current: Code::Eof,
            previous: Code::Eof,
            consumed: true,
            point,
            events: Vec::new(),
            stack: Vec::new(),
            attempts: Vec::new(),
            tokenize_state: TokenizeState::new(),
        };
        proof {
            assert(r.events@ =~= Seq::<Event>::empty());
            assert(r.stack@ =~= Seq::<TokenType>::empty());
        }
        r
    }

    /// Append an `Enter` event at the current point and open the token,
    /// with chain metadata when `content_type` is given.
    pub fn enter_with_content(&mut self, token_type: TokenType, content_type: Option<ContentType>)
        requires
            old(self).inv(),
        ensures
            final(self).inv(),
            final(self).events@ == old(self).events@.push(
                (Event {
                    event_type: EventType::Enter,
                    token_type,
                    point: old(self).point,
                    link: match content_type {
                        Option::None => Option::None,
                        Some(c) => Some(
                            (Link { previous: Option::None, next: Option::None, content_type: c }),
                        ),
                    },
                }),
            ),
            final(self).stack@ == old(self).stack@.push(token_type),
            final(self).point == old(self).point,
            final(self).current == old(self).current,
            final(self).previous == old(self).previous,
            final(self).consumed == old(self).consumed,
            final(self).attempts == old(self).attempts,
            final(self).tokenize_state == old(self).tokenize_state,
            final(self).codes_len == old(self).codes_len,
    {
        let link = match content_type {
            Option::None => Option::None,
            Some(c) => Some(Link { previous: Option::None, next: Option::None, content_type: c }),
        };
        let event = Event {
            event_type: EventType::Enter,
            token_type,
            point: self.point,
            link,
        };
        let ghost prev = self.events@;
        self.events.push(event);
        self.stack.push(token_type);
        proof {
            lemma_unmatched_push(prev, event);
        }
    }

    /// Append an `Enter` event at the current point and open the token.
    pub fn enter(&mut self, token_type: TokenType)
        requires
            old(self).inv(),
        ensures
            final(self).inv(),
            final(self).events@ == old(self).events@.push(
                (Event {
                    event_type: EventType::Enter,
                    token_type,
                    point: old(self).point,
                    link: Option::None,
                }),
            ),
            final(self).stack@ == old(self).stack@.push(token_type),
            final(self).point == old(self).point,
            final(self).current == old(self).current,
            final(self).previous == old(self).previous,
            final(self).consumed == old(self).consumed,
            final(self).attempts == old(self).attempts,
            final(self).tokenize_state == old(self).tokenize_state,
            final(self).codes_len == old(self).codes_len,
    {
        self.enter_with_content(token_type, Option::None);
    }

    /// Close the innermost open token: pop it (it must equal `token_type`)
    /// and append the matching `Exit` at the current point.
    pub fn exit(&mut self, token_type: TokenType)
        requires
            old(self).inv(),
            old(self).stack@.len() > 0,
            old(self).stack@.last() == token_type,
        ensures
            final(self).inv(),
            final(self).events@ == old(self).events@.push(
                (Event {
                    event_type: EventType::Exit,
                    token_type,
                    point: old(self).point,
                    link: Option::None,
                }),
            ),
            final(self).stack@ == old(self).stack@.drop_last(),
            final(self).point == old(self).point,
            final(self).current == old(self).current,
            final(self).previous == old(self).previous,
            final(self).consumed == old(self).consumed,
            final(self).attempts == old(self).attempts,
            final(self).tokenize_state == old(self).tokenize_state,
            final(self).codes_len == old(self).codes_len,
    {
        let event = Event {
            event_type: EventType::Exit,
            token_type,
            point: self.point,
            link: Option::None,
        };
        let ghost prev = self.events@;
        let _ = self.stack.pop();
        self.events.push(event);
        proof {
            assert(self.stack@ =~= old(self).stack@.drop_last());
            lemma_unmatched_push(prev, event);
        }
    }

    /// Record the current code as consumed: remember it as `previous` and
    /// advance the point.  A `CarriageReturnLineFeed`, `'\n'` or `'\r'`
    /// opens a new line; a `VirtualSpace` advances the column but not the
    /// offset; anything else advances column and offset.  Must be called at
    /// most once per state invocation, never on the end-of-input sentinel.
    pub fn consume(&mut self)
        requires
            old(self).inv(),
            old(self).feed_ok(),
            !old(self).consumed,
            !(old(self).current is Eof),
        ensures
            final(self).inv(),
            final(self).consumed,
            final(self).previous == old(self).current,
            final(self).current == old(self).current,
            final(self).point == next_point(old(self).point, old(self).current),
            final(self).point.index == old(self).point.index + 1,
            final(self).events == old(self).events,
            final(self).stack == old(self).stack,
            final(self).attempts == old(self).attempts,
            final(self).tokenize_state == old(self).tokenize_state,
            final(self).codes_len == old(self).codes_len,
    {
        let p = self.point;
        let next = match self.current {
            Code::CarriageReturnLineFeed => Point {
                line: bump(p.line, 1),
                column: 1,
                offset: bump(p.offset, 2),
                index: p.index + 1,
            },
            Code::Char(c) => {
                if c == '\n' || c == '\r' {
                    Point {
                        line: bump(p.line, 1),
                        column: 1,
                        offset: bump(p.offset, crate::codes::char_width(c)),
                        index: p.index + 1,
                    }
                } else {
                    Point {
                        line: p.line,
                        column: bump(p.column, 1),
                        offset: bump(p.offset, crate::codes::char_width(c)),
                        index: p.index + 1,
                    }
                }
            },
            Code::VirtualSpace => Point {
                line: p.line,
                column: bump(p.column, 1),
                offset: p.offset,
                index: p.index + 1,
            },
            Code::Eof => p,
        };
        self.previous = self.current;
        self.consumed = true;
        self.point = next;
    }

    /// Begin a composition frame of the given kind around the state the
    /// caller is about to return: snapshot everything `Nok` must restore.
    fn begin(&mut self, kind: AttemptKind, ok: StateName, nok: StateName)
        requires
            old(self).inv(),
        ensures
            final(self).inv(),
            final(self).attempts@.len() == old(self).attempts@.len() + 1,
            final(self).attempts@.drop_last() == old(self).attempts@,
            final(self).attempts@.last().kind == kind,
            final(self).attempts@.last().ok == ok,
            final(self).attempts@.last().nok == nok,
            snapshot_total(final(self).attempts@.last(), *old(self)),
            final(self).events == old(self).events,
            final(self).stack == old(self).stack,
            final(self).point == old(self).point,
            final(self).current == old(self).current,
            final(self).previous == old(self).previous,
            final(self).consumed == old(self).consumed,
            final(self).tokenize_state == old(self).tokenize_state,
            final(self).codes_len == old(self).codes_len,
    {
        let mut stack_snapshot: Vec<TokenType> = Vec::new();
        let mut k: usize = 0;
        while k < self.stack.len()
            invariant
                k <= self.stack@.len(),
                stack_snapshot@ == self.stack@.take(k as int),
            decreases self.stack@.len() - k,
        {
            stack_snapshot.push(self.stack[k]);
            proof {
                assert(self.stack@.take(k + 1) =~= self.stack@.take(k as int).push(
                    self.stack@[k as int],
                ));
            }
            k += 1;
        }
        proof {
            assert(self.stack@.take(self.stack@.len() as int) =~= self.stack@);
        }
        let mut events_snapshot: Vec<Event> = Vec::new();
        let mut j: usize = 0;
        while j < self.events.len()
            invariant
                j <= self.events@.len(),
                events_snapshot@ == self.events@.take(j as int),
            decreases self.events@.len() - j,
        {
            events_snapshot.push(self.events[j]);
            proof {
                assert(self.events@.take(j + 1) =~= self.events@.take(j as int).push(
                    self.events@[j as int],
                ));
            }
            j += 1;
        }
        proof {
            assert(self.events@.take(self.events@.len() as int) =~= self.events@);
        }
        let frame = Attempt {
            kind,
            ok,
            nok,
            point: self.point,
            previous: self.previous,
            consumed: self.consumed,
            stack_snapshot,
            state_snapshot: self.tokenize_state,
            events_snapshot,
        };
        self.attempts.push(frame);
        proof {
            assert(self.attempts@.drop_last() =~= old(self).attempts@);
        }
    }

    /// Try `sub` (the state the caller returns next): on `Okay` keep all
    /// side effects and continue at `ok`; on `Nok` restore the snapshot and
    /// continue at `nok`.
    pub fn attempt(&mut self, ok: StateName, nok: StateName)
        requires
            old(self).inv(),
        ensures
            final(self).inv(),
            final(self).attempts@.len() == old(self).attempts@.len() + 1,
            final(self).attempts@.drop_last() == old(self).attempts@,
            final(self).attempts@.last().kind == AttemptKind::Attempt,
            final(self).attempts@.last().ok == ok,
            final(self).attempts@.last().nok == nok,
            snapshot_total(final(self).attempts@.last(), *old(self)),
            final(self).events == old(self).events,
            final(self).stack == old(self).stack,
            final(self).point == old(self).point,
            final(self).current == old(self).current,
            final(self).previous == old(self).previous,
            final(self).consumed == old(self).consumed,
            final(self).tokenize_state == old(self).tokenize_state,
            final(self).codes_len == old(self).codes_len,
    {
        self.begin(AttemptKind::Attempt, ok, nok);
    }

    /// Like `attempt`, but the snapshot is restored whatever the outcome:
    /// pure lookahead.
    pub fn check(&mut self, ok: StateName, nok: StateName)
        requires
            old(self).inv(),
        ensures
            final(self).inv(),
            final(self).attempts@.len() == old(self).attempts@.len() + 1,
            final(self).attempts@.drop_last() == old(self).attempts@,
            final(self).attempts@.last().kind == AttemptKind::Check,
            final(self).attempts@.last().ok == ok,
            final(self).attempts@.last().nok == nok,
            snapshot_total(final(self).attempts@.last(), *old(self)),
            final(self).events == old(self).events,
            final(self).stack == old(self).stack,
            final(self).point == old(self).point,
            final(self).current == old(self).current,
            final(self).previous == old(self).previous,
            final(self).consumed == old(self).consumed,
            final(self).tokenize_state == old(self).tokenize_state,
            final(self).codes_len == old(self).codes_len,
    {
        self.begin(AttemptKind::Check, ok, nok);
    }

    /// `attempt` whose continuation ignores the outcome: on `Okay` the
    /// consumed prefix is kept, on `Nok` it is restored, and `next` runs
    /// either way.
    pub fn attempt_opt(&mut self, next: StateName)
        requires
            old(self).inv(),
        ensures
            final(self).inv(),
            final(self).attempts@.len() == old(self).attempts@.len() + 1,
            final(self).attempts@.drop_last() == old(self).attempts@,
            final(self).attempts@.last().kind == AttemptKind::Attempt,
            final(self).attempts@.last().ok == next,
            final(self).attempts@.last().nok == next,
            snapshot_total(final(self).attempts@.last(), *old(self)),
            final(self).events == old(self).events,
            final(self).stack == old(self).stack,
            final(self).point == old(self).point,
            final(self).current == old(self).current,
            final(self).previous == old(self).previous,
            final(self).consumed == old(self).consumed,
            final(self).tokenize_state == old(self).tokenize_state,
            final(self).codes_len == old(self).codes_len,
    {
        self.begin(AttemptKind::Attempt, next, next);
    }

    /// Register the position the next feed resumes at: bridging the gap
    /// between two linked chunks, the read head jumps forward to the
    /// recorded point of the next chain member.  A point that would move
    /// the head backwards or out of range is ignored.
    pub fn define_skip(&mut self, point: &Point)
        requires
            old(self).inv(),
        ensures
            final(self).inv(),
            skip_accepted(*point, *old(self)) ==> final(self).point == *point,
            !skip_accepted(*point, *old(self)) ==> final(self).point == old(self).point,
            final(self).events == old(self).events,
            final(self).stack == old(self).stack,
            final(self).attempts == old(self).attempts,
            final(self).current == old(self).current,
            final(self).previous == old(self).previous,
            final(self).consumed == old(self).consumed,
            final(self).tokenize_state == old(self).tokenize_state,
            final(self).codes_len == old(self).codes_len,
    {
        if point.line >= 1 && point.column >= 1 && point.index <= self.codes_len && point.index
            >= self.point.index && point.line >= self.point.line && point.offset
            >= self.point.offset {
            self.point = Point {
                line: point.line,
                column: point.column,
                offset: point.offset,
                index: point.index,
            };
        }
    }

    /// Wire the just-appended linked `Enter` into the chain ending two
    /// events back, when the log indeed ends in such a pair of linkable
    /// events; only chain wiring changes, never the shape of the log.
    pub fn connect_back(&mut self)
        requires
            old(self).inv(),
        ensures
            final(self).inv(),
            final(self).events@ == crate::subtokenize::link_back(old(self).events@),
            crate::event::same_shape(old(self).events@, final(self).events@),
            final(self).stack == old(self).stack,
            final(self).attempts == old(self).attempts,
            final(self).point == old(self).point,
            final(self).current == old(self).current,
            final(self).previous == old(self).previous,
            final(self).consumed == old(self).consumed,
            final(self).tokenize_state == old(self).tokenize_state,
            final(self).codes_len == old(self).codes_len,
    {
        if self.events.len() >= 3 {
            let index = self.events.len() - 1;
            if crate::subtokenize::can_link(&self.events, index - 2, index) {
                let ghost before = self.events@;
                crate::subtokenize::link(&mut self.events, index);
                proof {
                    assert(self.events@ == crate::subtokenize::link_back(before));
                    assert(crate::event::same_shape(before, self.events@));
                    crate::event::lemma_unmatched_same_shape(before, self.events@);
                    assert forall|i: int| 0 <= i < self.events@.len() implies #[trigger] self.events@[i].point.index
                        <= self.codes_len as int by {
                        assert(self.events@[i].point == before[i].point);
                    }
                    assert forall|i: int| 0 < i < self.events@.len() implies #[trigger] self.events@[i - 1].point.index
                        <= self.events@[i].point.index by {
                        assert(self.events@[i].point == before[i].point);
                        assert(self.events@[i - 1].point == before[i - 1].point);
                    }
                    assert forall|i: int| 0 <= i < self.events@.len() implies (#[trigger] self.events@[i]).point.line
                        >= 1 && self.events@[i].point.column >= 1 by {
                        assert(self.events@[i].point == before[i].point);
                    }
                    assert forall|i: int| 0 < i < self.events@.len() implies (#[trigger] self.events@[i
                        - 1]).point.line <= self.events@[i].point.line && self.events@[i
                        - 1].point.offset <= self.events@[i].point.offset by {
                        assert(self.events@[i].point == before[i].point);
                        assert(self.events@[i - 1].point == before[i - 1].point);
                    }
                    assert(indexes_ok(self.events@, self.codes_len as int));
                }
            }
        }
    }

    /// Feed the codes in `[from, to)` of `codes` to the state machine,
    /// starting in `first`.  One state function runs per fed code; a state
    /// that does not consume sees the same code again.  `Okay`/`Nok`
    /// outcomes resolve pending attempts: `Nok` and every `check` roll the
    /// snapshot back and may re-feed already-fed codes.  With `eof`, the
    /// end-of-input sentinel is fed until the machine yields an outcome.
    pub fn push(&mut self, codes: &Vec<Code>, from: usize, to: usize, first: StateName, eof: bool) -> (r: State)
        requires
            old(self).inv(),
            codes@.len() == old(self).codes_len,
            from <= to <= codes@.len(),
            from == old(self).point.index,
        ensures
            final(self).inv(),
            final(self).codes_len == old(self).codes_len,
            final(self).point.index <= to,
            eof ==> !(r is Next),
            !(r is Next) ==> final(self).attempts@.len() == 0,
            from == to && !eof ==> r == State::Next(first) && *final(self) == *old(self),
    {
        if from == to && !eof {
            // Nothing to feed and no sentinel: hand the start state back.
            return State::Next(first);
        }
        let mut state = State::Next(first);
        let mut i = from;
        // The trampoline's termination rests on the constructs making
        // progress; the fuel bound is unreachable for any of them and
        // makes the loop measure explicit.
        let mut fuel: usize = usize::MAX;
        loop
            invariant
                self.inv(),
                self.codes_len == old(self).codes_len,
                codes@.len() == self.codes_len,
                to <= codes@.len(),
                i == self.point.index,
                i <= to,
                !(from == to && !eof),
            decreases fuel,
        {
            if fuel == 0 {
                break;
            }
            fuel = fuel - 1;
            match state {
                State::Next(name) => {
                    if i < to {
                        self.current = codes[i];
                        self.consumed = false;
                    } else if eof {
                        self.current = Code::Eof;
                        self.consumed = false;
                    } else {
                        return state;
                    }
                    state = crate::content::dispatch(self, name);
                    if self.consumed {
                        i = i + 1;
                    }
                },
                _ => {
                    if self.attempts.len() == 0 {
                        return state;
                    }
                    let frame_opt = self.attempts.pop();
                    match frame_opt {
                        Some(frame) => {
                            let ok_outcome = matches!(state, State::Okay);
                            let target = if ok_outcome {
                                frame.ok
                            } else {
                                frame.nok
                            };
                            let must_restore = !ok_outcome || matches!(
                                frame.kind,
                                AttemptKind::Check,
                            );
                            if must_restore {
                                self.rollback(frame);
                                i = self.point.index;
                            }
                            state = State::Next(target);
                        },
                        _ => {
                            return state;
                        },
                    }
                },
            }
        }
        // Out of fuel (unreachable for the constructs here): resolve every
        // pending attempt as failed, so no snapshot leaks out half-applied.
        while self.attempts.len() > 0
            invariant
                self.inv(),
                self.codes_len == old(self).codes_len,
                self.point.index <= to,
                !(from == to && !eof),
            decreases self.attempts@.len(),
        {
            let frame_opt = self.attempts.pop();
            match frame_opt {
                Some(frame) => {
                    self.rollback(frame);
                },
                _ => {},
            }
        }
        State::Nok
    }

    /// Restore the snapshot of a popped frame: put back the event log,
    /// position, lookback, consumed flag, open-token stack and scratch.
    /// After this, everything `attempt` captured is exactly as it was when
    /// the frame was pushed: no observable mutation survives.
    pub fn rollback(&mut self, frame: Attempt)
        requires
            old(self).inv(),
            old(self).frame_ok(frame),
            forall|j: int|
                0 <= j < old(self).attempts@.len() ==> #[trigger] old(
                    self,
                ).attempts@[j].point.index <= frame.point.index,
        ensures
            final(self).inv(),
            final(self).events@ == frame.events_snapshot@,
            final(self).stack@ == frame.stack_snapshot@,
            final(self).point == frame.point,
            final(self).previous == frame.previous,
            final(self).consumed == frame.consumed,
            final(self).tokenize_state == frame.state_snapshot,
            final(self).current == old(self).current,
            final(self).attempts == old(self).attempts,
            final(self).codes_len == old(self).codes_len,
    {
        self.events = frame.events_snapshot;
        self.stack = frame.stack_snapshot;
        self.point = frame.point;
        self.previous = frame.previous;
        self.consumed = frame.consumed;
        self.tokenize_state = frame.state_snapshot;
    }
}

/// What every state function promises the trampoline: the invariant is
/// kept, and the point moved by exactly the one consumed code, or not at
/// all.
pub open spec fn step_ok(pre: Tokenizer, post: Tokenizer) -> bool {
    &&& post.inv()
    &&& post.codes_len == pre.codes_len
    &&& post.current == pre.current
    &&& (post.consumed ==> post.point.index == pre.point.index + 1)
    &&& (!post.consumed ==> post.point == pre.point)
    &&& (pre.current is Eof ==> !post.consumed)
}

} // verus!
