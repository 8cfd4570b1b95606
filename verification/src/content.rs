//! The three context roots of the grammar and their constructs.
//!
//! *Flow* handles the block level of the document: blank lines, and the
//! paragraph as the fallback that never fails.  *String* and *text* are the
//! inline contexts the sub-tokenizer runs chains through; with no inline
//! construct registered beyond the verbatim-data fallback, they split
//! content into `Data` and `LineEnding` tokens.
//!
//! `dispatch` maps a state name to its state function: the trampoline's
//! single step.

use vstd::prelude::*;
use crate::codes::Code;
use crate::codes::Point;
use crate::codes::is_eol_code;
use crate::codes::is_eol_or_eof;
use crate::codes::is_ws_code;
use crate::construct::partial_space_or_tab;
use crate::event::ContentType;
use crate::event::Event;
use crate::event::TokenType;
use crate::event::enter_event;
use crate::event::exit_event;
use crate::state::AttemptKind;
use crate::state::State;
use crate::state::StateName;
use crate::subtokenize::link_back;
use crate::tokenizer::TokenizeState;
use crate::tokenizer::Tokenizer;
use crate::tokenizer::bump_spec;
use crate::tokenizer::consumed_only;
use crate::tokenizer::frame_pushed;
use crate::tokenizer::next_point;
use crate::tokenizer::step_ok;

verus! {

/// Flow: at the start of the document or of a line.  Try a blank line;
/// fall back to the paragraph, which never fails.
pub fn flow_start(tokenizer: &mut Tokenizer) -> (r: State)
    requires
        old(tokenizer).inv(),
        old(tokenizer).feed_ok(),
        !old(tokenizer).consumed,
    ensures
        step_ok(*old(tokenizer), *final(tokenizer)),
        state_effect(StateName::FlowStart, *old(tokenizer), *final(tokenizer), r),
{
    tokenizer.attempt(StateName::FlowBlankLineAfter, StateName::FlowBeforeParagraph);
    State::Next(StateName::BlankLineStart)
}

/// Blank line construct: skip over optional whitespace first.
pub fn blank_line_start(tokenizer: &mut Tokenizer) -> (r: State)
    requires
        old(tokenizer).inv(),
        old(tokenizer).feed_ok(),
        !old(tokenizer).consumed,
    ensures
        step_ok(*old(tokenizer), *final(tokenizer)),
        state_effect(StateName::BlankLineStart, *old(tokenizer), *final(tokenizer), r),
{
    let name = partial_space_or_tab::space_or_tab(tokenizer);
    tokenizer.attempt_opt(StateName::BlankLineAfterWhitespace);
    State::Next(name)
}

/// Blank line construct: nothing but a line ending or the end of input may
/// remain.
pub fn blank_line_after_whitespace(tokenizer: &mut Tokenizer) -> (r: State)
    requires
        old(tokenizer).inv(),
        old(tokenizer).feed_ok(),
        !old(tokenizer).consumed,
    ensures
        step_ok(*old(tokenizer), *final(tokenizer)),
        state_effect(StateName::BlankLineAfterWhitespace, *old(tokenizer), *final(tokenizer), r),
{
    if matches!(
        tokenizer.current,
        Code::Eof | Code::CarriageReturnLineFeed | Code::Char('\n') | Code::Char('\r')
    ) {
        State::Okay
    } else {
        State::Nok
    }
}

/// Flow: a blank line was recognized; eat its line ending and start over.
pub fn flow_blank_line_after(tokenizer: &mut Tokenizer) -> (r: State)
    requires
        old(tokenizer).inv(),
        old(tokenizer).feed_ok(),
        !old(tokenizer).consumed,
    ensures
        step_ok(*old(tokenizer), *final(tokenizer)),
        state_effect(StateName::FlowBlankLineAfter, *old(tokenizer), *final(tokenizer), r),
{
    match tokenizer.current {
        Code::Eof => State::Okay,
        Code::CarriageReturnLineFeed | Code::Char('\n') | Code::Char('\r') => {
            tokenizer.enter(TokenType::BlankLineEnding);
            tokenizer.consume();
            if tokenizer.stack.len() > 0 && tokenizer.stack[tokenizer.stack.len() - 1]
                == TokenType::BlankLineEnding {
                tokenizer.exit(TokenType::BlankLineEnding);
            }
            proof {
                assert(old(tokenizer).stack@.push(TokenType::BlankLineEnding).drop_last()
                    =~= old(tokenizer).stack@);
            }
            State::Next(StateName::FlowStart)
        },
        _ => State::Nok,
    }
}

/// Flow: the line holds content; run the paragraph fallback.
pub fn flow_before_paragraph(tokenizer: &mut Tokenizer) -> (r: State)
    requires
        old(tokenizer).inv(),
        old(tokenizer).feed_ok(),
        !old(tokenizer).consumed,
    ensures
        step_ok(*old(tokenizer), *final(tokenizer)),
        state_effect(StateName::FlowBeforeParagraph, *old(tokenizer), *final(tokenizer), r),
{
    tokenizer.attempt_opt(StateName::FlowAfterParagraph);
    State::Next(StateName::ParagraphStart)
}

/// Flow: a paragraph closed; eat the line ending between flow constructs
/// and start over.
pub fn flow_after_paragraph(tokenizer: &mut Tokenizer) -> (r: State)
    requires
        old(tokenizer).inv(),
        old(tokenizer).feed_ok(),
        !old(tokenizer).consumed,
    ensures
        step_ok(*old(tokenizer), *final(tokenizer)),
        state_effect(StateName::FlowAfterParagraph, *old(tokenizer), *final(tokenizer), r),
{
    match tokenizer.current {
        Code::Eof => State::Okay,
        Code::CarriageReturnLineFeed | Code::Char('\n') | Code::Char('\r') => {
            tokenizer.enter(TokenType::LineEnding);
            tokenizer.consume();
            if tokenizer.stack.len() > 0 && tokenizer.stack[tokenizer.stack.len() - 1]
                == TokenType::LineEnding {
                tokenizer.exit(TokenType::LineEnding);
            }
            proof {
                assert(old(tokenizer).stack@.push(TokenType::LineEnding).drop_last()
                    =~= old(tokenizer).stack@);
            }
            State::Next(StateName::FlowStart)
        },
        _ => State::Nok,
    }
}

/// Paragraph: open the paragraph and its first chunk of text content.
/// The chunk begins a fresh chain: later chunks link back to it.
pub fn paragraph_start(tokenizer: &mut Tokenizer) -> (r: State)
    requires
        old(tokenizer).inv(),
        old(tokenizer).feed_ok(),
        !old(tokenizer).consumed,
    ensures
        step_ok(*old(tokenizer), *final(tokenizer)),
        state_effect(StateName::ParagraphStart, *old(tokenizer), *final(tokenizer), r),
{
    match tokenizer.current {
        Code::Eof | Code::CarriageReturnLineFeed | Code::Char('\n') | Code::Char('\r') => {
            State::Nok
        },
        _ => {
            tokenizer.enter(TokenType::Paragraph);
            tokenizer.enter_with_content(TokenType::ChunkText, Some(ContentType::Text));
            State::Next(StateName::ParagraphInside)
        },
    }
}

/// Paragraph: inside a line of content.  At a line ending, look ahead
/// (with full rollback) whether the next line continues the paragraph.
pub fn paragraph_inside(tokenizer: &mut Tokenizer) -> (r: State)
    requires
        old(tokenizer).inv(),
        old(tokenizer).feed_ok(),
        !old(tokenizer).consumed,
    ensures
        step_ok(*old(tokenizer), *final(tokenizer)),
        state_effect(StateName::ParagraphInside, *old(tokenizer), *final(tokenizer), r),
{
    match tokenizer.current {
        Code::Eof => {
            paragraph_close(tokenizer);
            State::Okay
        },
        Code::CarriageReturnLineFeed | Code::Char('\n') | Code::Char('\r') => {
            tokenizer.check(StateName::ParagraphContinue, StateName::ParagraphEnd);
            State::Next(StateName::ParagraphContinuationStart)
        },
        _ => {
            tokenizer.consume();
            State::Next(StateName::ParagraphInside)
        },
    }
}

/// Paragraph lookahead: swallow the line ending, then optional whitespace.
pub fn paragraph_continuation_start(tokenizer: &mut Tokenizer) -> (r: State)
    requires
        old(tokenizer).inv(),
        old(tokenizer).feed_ok(),
        !old(tokenizer).consumed,
    ensures
        step_ok(*old(tokenizer), *final(tokenizer)),
        state_effect(StateName::ParagraphContinuationStart, *old(tokenizer), *final(tokenizer), r),
{
    match tokenizer.current {
        Code::CarriageReturnLineFeed | Code::Char('\n') | Code::Char('\r') => {
            tokenizer.consume();
            let name = partial_space_or_tab::space_or_tab(tokenizer);
            tokenizer.attempt_opt(StateName::ParagraphContinuationAfterWhitespace);
            State::Next(name)
        },
        _ => State::Nok,
    }
}

/// Paragraph lookahead: the next line continues the paragraph iff it is
/// not blank.
pub fn paragraph_continuation_after_whitespace(tokenizer: &mut Tokenizer) -> (r: State)
    requires
        old(tokenizer).inv(),
        old(tokenizer).feed_ok(),
        !old(tokenizer).consumed,
    ensures
        step_ok(*old(tokenizer), *final(tokenizer)),
        state_effect(StateName::ParagraphContinuationAfterWhitespace, *old(tokenizer), *final(tokenizer), r),
{
    if matches!(
        tokenizer.current,
        Code::Eof | Code::CarriageReturnLineFeed | Code::Char('\n') | Code::Char('\r')
    ) {
        State::Nok
    } else {
        State::Okay
    }
}

/// Paragraph: the lookahead succeeded (and was rolled back).  The line
/// ending belongs to the paragraph's content: close the chunk behind it
/// and open the next chunk of the chain.
pub fn paragraph_continue(tokenizer: &mut Tokenizer) -> (r: State)
    requires
        old(tokenizer).inv(),
        old(tokenizer).feed_ok(),
        !old(tokenizer).consumed,
    ensures
        step_ok(*old(tokenizer), *final(tokenizer)),
        state_effect(StateName::ParagraphContinue, *old(tokenizer), *final(tokenizer), r),
{
    match tokenizer.current {
        Code::CarriageReturnLineFeed | Code::Char('\n') | Code::Char('\r') => {
            tokenizer.consume();
            if tokenizer.stack.len() > 0 && tokenizer.stack[tokenizer.stack.len() - 1]
                == TokenType::ChunkText {
                tokenizer.exit(TokenType::ChunkText);
            }
            tokenizer.enter_with_content(TokenType::ChunkText, Some(ContentType::Text));
            tokenizer.connect_back();
            State::Next(StateName::ParagraphInside)
        },
        _ => State::Nok,
    }
}

/// Paragraph: the lookahead failed; the paragraph ends here and the line
/// ending is left to flow.
pub fn paragraph_end(tokenizer: &mut Tokenizer) -> (r: State)
    requires
        old(tokenizer).inv(),
        old(tokenizer).feed_ok(),
        !old(tokenizer).consumed,
    ensures
        step_ok(*old(tokenizer), *final(tokenizer)),
        state_effect(StateName::ParagraphEnd, *old(tokenizer), *final(tokenizer), r),
{
    paragraph_close(tokenizer);
    State::Okay
}

/// Close the paragraph's open chunk and the paragraph itself.
fn paragraph_close(tokenizer: &mut Tokenizer)
    requires
        old(tokenizer).inv(),
    ensures
        final(tokenizer).inv(),
        paragraph_closed(*old(tokenizer), *final(tokenizer)),
{
    if tokenizer.stack.len() > 0 && tokenizer.stack[tokenizer.stack.len() - 1]
        == TokenType::ChunkText {
        tokenizer.exit(TokenType::ChunkText);
    }
    if tokenizer.stack.len() > 0 && tokenizer.stack[tokenizer.stack.len() - 1]
        == TokenType::Paragraph {
        tokenizer.exit(TokenType::Paragraph);
    }
}

/// String: between tokens.  With only the verbatim-data fallback
/// registered, content splits into `Data` and `LineEnding` tokens.
pub fn string_start(tokenizer: &mut Tokenizer) -> (r: State)
    requires
        old(tokenizer).inv(),
        old(tokenizer).feed_ok(),
        !old(tokenizer).consumed,
    ensures
        step_ok(*old(tokenizer), *final(tokenizer)),
        state_effect(StateName::StringStart, *old(tokenizer), *final(tokenizer), r),
{
    data_between(tokenizer, StateName::StringStart, StateName::StringInside)
}

/// String: inside verbatim data.
pub fn string_inside(tokenizer: &mut Tokenizer) -> (r: State)
    requires
        old(tokenizer).inv(),
        old(tokenizer).feed_ok(),
        !old(tokenizer).consumed,
    ensures
        step_ok(*old(tokenizer), *final(tokenizer)),
        state_effect(StateName::StringInside, *old(tokenizer), *final(tokenizer), r),
{
    data_inside(tokenizer, StateName::StringStart, StateName::StringInside)
}

/// Text: between tokens.
pub fn text_start(tokenizer: &mut Tokenizer) -> (r: State)
    requires
        old(tokenizer).inv(),
        old(tokenizer).feed_ok(),
        !old(tokenizer).consumed,
    ensures
        step_ok(*old(tokenizer), *final(tokenizer)),
        state_effect(StateName::TextStart, *old(tokenizer), *final(tokenizer), r),
{
    data_between(tokenizer, StateName::TextStart, StateName::TextInside)
}

/// Text: inside verbatim data.
pub fn text_inside(tokenizer: &mut Tokenizer) -> (r: State)
    requires
        old(tokenizer).inv(),
        old(tokenizer).feed_ok(),
        !old(tokenizer).consumed,
    ensures
        step_ok(*old(tokenizer), *final(tokenizer)),
        state_effect(StateName::TextInside, *old(tokenizer), *final(tokenizer), r),
{
    data_inside(tokenizer, StateName::TextStart, StateName::TextInside)
}

/// The verbatim-data fallback at the start of a token: line endings become
/// `LineEnding` tokens, anything else opens `Data`.
fn data_between(tokenizer: &mut Tokenizer, between: StateName, within: StateName) -> (r: State)
    requires
        old(tokenizer).inv(),
        old(tokenizer).feed_ok(),
        !old(tokenizer).consumed,
    ensures
        step_ok(*old(tokenizer), *final(tokenizer)),
        data_between_effect(*old(tokenizer), *final(tokenizer), r, between, within),
{
    match tokenizer.current {
        Code::Eof => State::Okay,
        Code::CarriageReturnLineFeed | Code::Char('\n') | Code::Char('\r') => {
            tokenizer.enter(TokenType::LineEnding);
            tokenizer.consume();
            if tokenizer.stack.len() > 0 && tokenizer.stack[tokenizer.stack.len() - 1]
                == TokenType::LineEnding {
                tokenizer.exit(TokenType::LineEnding);
            }
            proof {
                assert(old(tokenizer).stack@.push(TokenType::LineEnding).drop_last()
                    =~= old(tokenizer).stack@);
            }
            State::Next(between)
        },
        _ => {
            tokenizer.enter(TokenType::Data);
            tokenizer.consume();
            State::Next(within)
        },
    }
}

/// The verbatim-data fallback inside `Data`: close it before a line ending
/// or the end of input.
fn data_inside(tokenizer: &mut Tokenizer, between: StateName, within: StateName) -> (r: State)
    requires
        old(tokenizer).inv(),
        old(tokenizer).feed_ok(),
        !old(tokenizer).consumed,
    ensures
        step_ok(*old(tokenizer), *final(tokenizer)),
        data_inside_effect(*old(tokenizer), *final(tokenizer), r, between, within),
{
    match tokenizer.current {
        Code::Eof | Code::CarriageReturnLineFeed | Code::Char('\n') | Code::Char('\r') => {
            if tokenizer.stack.len() > 0 && tokenizer.stack[tokenizer.stack.len() - 1]
                == TokenType::Data {
                tokenizer.exit(TokenType::Data);
            }
            if matches!(tokenizer.current, Code::Eof) {
                State::Okay
            } else {
                State::Next(between)
            }
        },
        _ => {
            tokenizer.consume();
            State::Next(within)
        },
    }
}


/// The scratch record set up for a `space_or_tab` run.
pub open spec fn sot_scratch(
    ts: TokenizeState,
    min: usize,
    max: usize,
    kind: TokenType,
    content_type: Option<ContentType>,
    connect: bool,
) -> TokenizeState {
    TokenizeState {
        space_or_tab_min: min,
        space_or_tab_max: max,
        space_or_tab_size: 0,
        space_or_tab_token: kind,
        space_or_tab_content_type: content_type,
        space_or_tab_connect: connect,
        ..ts
    }
}

/// The two guarded closing exits of a paragraph at the current point: the
/// open chunk, then the paragraph itself.
pub open spec fn paragraph_closed(pre: Tokenizer, post: Tokenizer) -> bool {
    let ev1 = if pre.stack@.len() > 0 && pre.stack@.last() == TokenType::ChunkText {
        pre.events@.push(exit_event(TokenType::ChunkText, pre.point))
    } else {
        pre.events@
    };
    let st1 = if pre.stack@.len() > 0 && pre.stack@.last() == TokenType::ChunkText {
        pre.stack@.drop_last()
    } else {
        pre.stack@
    };
    let ev2 = if st1.len() > 0 && st1.last() == TokenType::Paragraph {
        ev1.push(exit_event(TokenType::Paragraph, pre.point))
    } else {
        ev1
    };
    let st2 = if st1.len() > 0 && st1.last() == TokenType::Paragraph {
        st1.drop_last()
    } else {
        st1
    };
    &&& post.events@ == ev2
    &&& post.stack@ == st2
    &&& post.attempts == pre.attempts
    &&& post.point == pre.point
    &&& post.current == pre.current
    &&& post.previous == pre.previous
    &&& post.consumed == pre.consumed
    &&& post.tokenize_state == pre.tokenize_state
    &&& post.codes_len == pre.codes_len
}

/// A line ending taken as one `Enter`/`Exit` pair of `kind`, with chain
/// metadata `ct` on the `Enter` (wired into the chain when `linked`), the
/// head moved past the code, and the scratch left as `ts2`.
pub open spec fn eol_token_taken(
    pre: Tokenizer,
    post: Tokenizer,
    kind: TokenType,
    ct: Option<ContentType>,
    linked: bool,
    ts2: TokenizeState,
) -> bool {
    let p2 = next_point(pre.point, pre.current);
    let ev1 = pre.events@.push(enter_event(kind, pre.point, ct));
    let ev2 = if linked {
        link_back(ev1)
    } else {
        ev1
    };
    &&& post.events@ == ev2.push(exit_event(kind, p2))
    &&& post.stack@ == pre.stack@
    &&& post.attempts == pre.attempts
    &&& post.point == p2
    &&& post.current == pre.current
    &&& post.previous == pre.current
    &&& post.consumed
    &&& post.tokenize_state == ts2
    &&& post.codes_len == pre.codes_len
}

/// The verbatim-data fallback between tokens, for either inline context.
pub open spec fn data_between_effect(
    pre: Tokenizer,
    post: Tokenizer,
    r: State,
    between: StateName,
    within: StateName,
) -> bool {
    let c = pre.current;
    if c is Eof {
        post == pre && r == State::Okay
    } else if is_eol_code(c) {
        eol_token_taken(pre, post, TokenType::LineEnding, Option::None, false, pre.tokenize_state)
            && r == State::Next(between)
    } else {
        &&& post.events@ == pre.events@.push(enter_event(TokenType::Data, pre.point, Option::None))
        &&& post.stack@ == pre.stack@.push(TokenType::Data)
        &&& post.attempts == pre.attempts
        &&& post.point == next_point(pre.point, c)
        &&& post.current == c
        &&& post.previous == c
        &&& post.consumed
        &&& post.tokenize_state == pre.tokenize_state
        &&& post.codes_len == pre.codes_len
        &&& r == State::Next(within)
    }
}

/// The verbatim-data fallback inside `Data`, for either inline context.
pub open spec fn data_inside_effect(
    pre: Tokenizer,
    post: Tokenizer,
    r: State,
    between: StateName,
    within: StateName,
) -> bool {
    let c = pre.current;
    if is_eol_or_eof(c) {
        let ev = if pre.stack@.len() > 0 && pre.stack@.last() == TokenType::Data {
            pre.events@.push(exit_event(TokenType::Data, pre.point))
        } else {
            pre.events@
        };
        let st = if pre.stack@.len() > 0 && pre.stack@.last() == TokenType::Data {
            pre.stack@.drop_last()
        } else {
            pre.stack@
        };
        &&& post.events@ == ev
        &&& post.stack@ == st
        &&& post.attempts == pre.attempts
        &&& post.point == pre.point
        &&& post.current == c
        &&& post.previous == pre.previous
        &&& post.consumed == pre.consumed
        &&& post.tokenize_state == pre.tokenize_state
        &&& post.codes_len == pre.codes_len
        &&& r == (if c is Eof {
            State::Okay
        } else {
            State::Next(between)
        })
    } else {
        consumed_only(pre, post) && r == State::Next(within)
    }
}

/// What each state function does, exactly: the semantic table of the
/// machine.  Every state function, and `dispatch`, ensures its own row.
pub open spec fn state_effect(name: StateName, pre: Tokenizer, post: Tokenizer, r: State) -> bool {
    let c = pre.current;
    let ts = pre.tokenize_state;
    match name {
        StateName::FlowStart => frame_pushed(
            pre,
            post,
            AttemptKind::Attempt,
            StateName::FlowBlankLineAfter,
            StateName::FlowBeforeParagraph,
        ) && r == State::Next(StateName::BlankLineStart),
        StateName::BlankLineStart => {
            let ts2 = sot_scratch(ts, 1, usize::MAX, TokenType::SpaceOrTab, Option::None, false);
            frame_pushed(
                (Tokenizer { tokenize_state: ts2, ..pre }),
                post,
                AttemptKind::Attempt,
                StateName::BlankLineAfterWhitespace,
                StateName::BlankLineAfterWhitespace,
            ) && r == State::Next(StateName::SpaceOrTabStart)
        },
        StateName::BlankLineAfterWhitespace => post == pre && r == (if is_eol_or_eof(c) {
            State::Okay
        } else {
            State::Nok
        }),
        StateName::FlowBlankLineAfter => if c is Eof {
            post == pre && r == State::Okay
        } else if is_eol_code(c) {
            eol_token_taken(pre, post, TokenType::BlankLineEnding, Option::None, false, ts)
                && r == State::Next(StateName::FlowStart)
        } else {
            post == pre && r == State::Nok
        },
        StateName::FlowBeforeParagraph => frame_pushed(
            pre,
            post,
            AttemptKind::Attempt,
            StateName::FlowAfterParagraph,
            StateName::FlowAfterParagraph,
        ) && r == State::Next(StateName::ParagraphStart),
        StateName::FlowAfterParagraph => if c is Eof {
            post == pre && r == State::Okay
        } else if is_eol_code(c) {
            eol_token_taken(pre, post, TokenType::LineEnding, Option::None, false, ts)
                && r == State::Next(StateName::FlowStart)
        } else {
            post == pre && r == State::Nok
        },
        StateName::ParagraphStart => if is_eol_or_eof(c) {
            post == pre && r == State::Nok
        } else {
            &&& post.events@ == pre.events@.push(
                enter_event(TokenType::Paragraph, pre.point, Option::None),
            ).push(enter_event(TokenType::ChunkText, pre.point, Some(ContentType::Text)))
            &&& post.stack@ == pre.stack@.push(TokenType::Paragraph).push(TokenType::ChunkText)
            &&& post.attempts == pre.attempts
            &&& post.point == pre.point
            &&& post.current == c
            &&& post.previous == pre.previous
            &&& post.consumed == pre.consumed
            &&& post.tokenize_state == ts
            &&& post.codes_len == pre.codes_len
            &&& r == State::Next(StateName::ParagraphInside)
        },
        StateName::ParagraphInside => if c is Eof {
            paragraph_closed(pre, post) && r == State::Okay
        } else if is_eol_code(c) {
            frame_pushed(
                pre,
                post,
                AttemptKind::Check,
                StateName::ParagraphContinue,
                StateName::ParagraphEnd,
            ) && r == State::Next(StateName::ParagraphContinuationStart)
        } else {
            consumed_only(pre, post) && r == State::Next(StateName::ParagraphInside)
        },
        StateName::ParagraphContinuationStart => if is_eol_code(c) {
            let ts2 = sot_scratch(ts, 1, usize::MAX, TokenType::SpaceOrTab, Option::None, false);
            let mid = Tokenizer {
                point: next_point(pre.point, c),
                previous: c,
                consumed: true,
                tokenize_state: ts2,
                ..pre
            };
            frame_pushed(
                mid,
                post,
                AttemptKind::Attempt,
                StateName::ParagraphContinuationAfterWhitespace,
                StateName::ParagraphContinuationAfterWhitespace,
            ) && r == State::Next(StateName::SpaceOrTabStart)
        } else {
            post == pre && r == State::Nok
        },
        StateName::ParagraphContinuationAfterWhitespace => post == pre && r == (if is_eol_or_eof(c) {
            State::Nok
        } else {
            State::Okay
        }),
        StateName::ParagraphContinue => if is_eol_code(c) {
            let p2 = next_point(pre.point, c);
            let ev1 = if pre.stack@.len() > 0 && pre.stack@.last() == TokenType::ChunkText {
                pre.events@.push(exit_event(TokenType::ChunkText, p2))
            } else {
                pre.events@
            };
            let st1 = if pre.stack@.len() > 0 && pre.stack@.last() == TokenType::ChunkText {
                pre.stack@.drop_last()
            } else {
                pre.stack@
            };
            &&& post.events@ == link_back(
                ev1.push(enter_event(TokenType::ChunkText, p2, Some(ContentType::Text))),
            )
            &&& post.stack@ == st1.push(TokenType::ChunkText)
            &&& post.attempts == pre.attempts
            &&& post.point == p2
            &&& post.current == c
            &&& post.previous == c
            &&& post.consumed
            &&& post.tokenize_state == ts
            &&& post.codes_len == pre.codes_len
            &&& r == State::Next(StateName::ParagraphInside)
        } else {
            post == pre && r == State::Nok
        },
        StateName::ParagraphEnd => paragraph_closed(pre, post) && r == State::Okay,
        StateName::SpaceOrTabStart => if is_ws_code(c) && ts.space_or_tab_max > 0 {
            let ev1 = pre.events@.push(
                enter_event(ts.space_or_tab_token, pre.point, ts.space_or_tab_content_type),
            );
            let ev2 = if ts.space_or_tab_content_type is Some && ts.space_or_tab_connect {
                link_back(ev1)
            } else {
                ev1
            };
            &&& post.events@ == ev2
            &&& post.stack@ == pre.stack@.push(ts.space_or_tab_token)
            &&& post.attempts == pre.attempts
            &&& post.point == next_point(pre.point, c)
            &&& post.current == c
            &&& post.previous == c
            &&& post.consumed
            &&& post.tokenize_state == (TokenizeState {
                space_or_tab_size: bump_spec(ts.space_or_tab_size, 1),
                ..ts
            })
            &&& post.codes_len == pre.codes_len
            &&& r == State::Next(StateName::SpaceOrTabInside)
        } else {
            post == pre && r == (if ts.space_or_tab_min == 0 {
                State::Okay
            } else {
                State::Nok
            })
        },
        StateName::SpaceOrTabInside => if is_ws_code(c) && ts.space_or_tab_size
            < ts.space_or_tab_max {
            &&& post.events == pre.events
            &&& post.stack == pre.stack
            &&& post.attempts == pre.attempts
            &&& post.point == next_point(pre.point, c)
            &&& post.current == c
            &&& post.previous == c
            &&& post.consumed
            &&& post.tokenize_state == (TokenizeState {
                space_or_tab_size: bump_spec(ts.space_or_tab_size, 1),
                ..ts
            })
            &&& post.codes_len == pre.codes_len
            &&& r == State::Next(StateName::SpaceOrTabInside)
        } else {
            let ev = if pre.stack@.len() > 0 && pre.stack@.last() == ts.space_or_tab_token {
                pre.events@.push(exit_event(ts.space_or_tab_token, pre.point))
            } else {
                pre.events@
            };
            let st = if pre.stack@.len() > 0 && pre.stack@.last() == ts.space_or_tab_token {
                pre.stack@.drop_last()
            } else {
                pre.stack@
            };
            &&& post.events@ == ev
            &&& post.stack@ == st
            &&& post.attempts == pre.attempts
            &&& post.point == pre.point
            &&& post.current == c
            &&& post.previous == pre.previous
            &&& post.consumed == pre.consumed
            &&& post.tokenize_state == ts
            &&& post.codes_len == pre.codes_len
            &&& r == (if ts.space_or_tab_size >= ts.space_or_tab_min {
                State::Okay
            } else {
                State::Nok
            })
        },
        StateName::SpaceOrTabEolStart => {
            let ts2 = sot_scratch(
                ts,
                1,
                usize::MAX,
                TokenType::SpaceOrTab,
                ts.eol_content_type,
                ts.eol_connect_option,
            );
            frame_pushed(
                (Tokenizer { tokenize_state: ts2, ..pre }),
                post,
                AttemptKind::Attempt,
                StateName::SpaceOrTabEolOk,
                StateName::SpaceOrTabEolAfterFirst,
            ) && r == State::Next(StateName::SpaceOrTabStart)
        },
        StateName::SpaceOrTabEolOk => post == (Tokenizer {
            tokenize_state: (TokenizeState {
                eol_ok: true,
                eol_connect: ts.eol_content_type is Some,
                ..ts
            }),
            ..pre
        }) && r == State::Next(StateName::SpaceOrTabEolAfterFirst),
        StateName::SpaceOrTabEolAfterFirst => if is_eol_code(c) {
            let ts2 = if ts.eol_connect {
                ts
            } else if ts.eol_content_type is Some {
                TokenizeState { eol_connect: true, ..ts }
            } else {
                ts
            };
            eol_token_taken(pre, post, TokenType::LineEnding, ts.eol_content_type, ts.eol_connect, ts2)
                && r == State::Next(StateName::SpaceOrTabEolAfterEol)
        } else if ts.eol_ok {
            post == pre && r == State::Okay
        } else {
            post == pre && r == State::Nok
        },
        StateName::SpaceOrTabEolAfterEol => {
            let ts2 = sot_scratch(
                ts,
                1,
                usize::MAX,
                TokenType::SpaceOrTab,
                ts.eol_content_type,
                ts.eol_connect,
            );
            frame_pushed(
                (Tokenizer { tokenize_state: ts2, ..pre }),
                post,
                AttemptKind::Attempt,
                StateName::SpaceOrTabEolAfterMore,
                StateName::SpaceOrTabEolAfterMore,
            ) && r == State::Next(StateName::SpaceOrTabStart)
        },
        StateName::SpaceOrTabEolAfterMore => post == pre && r == (if is_eol_or_eof(c) {
            State::Nok
        } else {
            State::Okay
        }),
        StateName::StringStart => data_between_effect(
            pre,
            post,
            r,
            StateName::StringStart,
            StateName::StringInside,
        ),
        StateName::StringInside => data_inside_effect(
            pre,
            post,
            r,
            StateName::StringStart,
            StateName::StringInside,
        ),
        StateName::TextStart => data_between_effect(
            pre,
            post,
            r,
            StateName::TextStart,
            StateName::TextInside,
        ),
        StateName::TextInside => data_inside_effect(
            pre,
            post,
            r,
            StateName::TextStart,
            StateName::TextInside,
        ),
    }
}

/// One step of the trampoline: run the state function `name` names.
pub fn dispatch(tokenizer: &mut Tokenizer, name: StateName) -> (r: State)
    requires
        old(tokenizer).inv(),
        old(tokenizer).feed_ok(),
        !old(tokenizer).consumed,
    ensures
        step_ok(*old(tokenizer), *final(tokenizer)),
        state_effect(name, *old(tokenizer), *final(tokenizer), r),
{
    match name {
        StateName::FlowStart => flow_start(tokenizer),
        StateName::FlowBlankLineAfter => flow_blank_line_after(tokenizer),
        StateName::FlowBeforeParagraph => flow_before_paragraph(tokenizer),
        StateName::FlowAfterParagraph => flow_after_paragraph(tokenizer),
        StateName::BlankLineStart => blank_line_start(tokenizer),
        StateName::BlankLineAfterWhitespace => blank_line_after_whitespace(tokenizer),
        StateName::ParagraphStart => paragraph_start(tokenizer),
        StateName::ParagraphInside => paragraph_inside(tokenizer),
        StateName::ParagraphContinuationStart => paragraph_continuation_start(tokenizer),
        StateName::ParagraphContinuationAfterWhitespace => paragraph_continuation_after_whitespace(
            tokenizer,
        ),
        StateName::ParagraphContinue => paragraph_continue(tokenizer),
        StateName::ParagraphEnd => paragraph_end(tokenizer),
        StateName::SpaceOrTabStart => partial_space_or_tab::start(tokenizer),
        StateName::SpaceOrTabInside => partial_space_or_tab::inside(tokenizer),
        StateName::SpaceOrTabEolStart => partial_space_or_tab::eol_start(tokenizer),
        StateName::SpaceOrTabEolOk => partial_space_or_tab::eol_matched(tokenizer),
        StateName::SpaceOrTabEolAfterFirst => partial_space_or_tab::after_space_or_tab(tokenizer),
        StateName::SpaceOrTabEolAfterEol => partial_space_or_tab::after_eol(tokenizer),
        StateName::SpaceOrTabEolAfterMore => partial_space_or_tab::after_more_space_or_tab(
            tokenizer,
        ),
        StateName::StringStart => string_start(tokenizer),
        StateName::StringInside => string_inside(tokenizer),
        StateName::TextStart => text_start(tokenizer),
        StateName::TextInside => text_inside(tokenizer),
    }
}

/// The entry state of the inline context a chain's content type selects.
pub fn content_type_start(content_type: ContentType) -> (r: StateName)
    ensures
        content_type is String ==> r == StateName::StringStart,
        content_type is Text ==> r == StateName::TextStart,
{
    match content_type {
        ContentType::String => StateName::StringStart,
        ContentType::Text => StateName::TextStart,
    }
}

/// Tokenize the whole code sequence in the flow context, starting at
/// `point`: the first pass over a document.  The result is well-nested,
/// with every position inside the sequence and non-decreasing.
pub fn flow(codes: &Vec<Code>, point: Point) -> (events: Vec<Event>)
    requires
        point.line >= 1,
        point.column >= 1,
        point.index <= codes@.len(),
    ensures
        crate::event::events_ok(events@, codes@.len() as int),
{
    let mut tokenizer = Tokenizer::new(point, codes.len());
    let from = tokenizer.point.index;
    let _ = tokenizer.push(codes, from, codes.len(), StateName::FlowStart, true);
    // Nothing this crate registers leaves tokens open at the end of input;
    // close any that a future construct might.
    while tokenizer.stack.len() > 0
        invariant
            tokenizer.inv(),
            tokenizer.codes_len == codes@.len(),
        decreases tokenizer.stack@.len(),
    {
        let top = tokenizer.stack[tokenizer.stack.len() - 1];
        tokenizer.exit(top);
    }
    proof {
        assert(tokenizer.stack@ =~= Seq::<TokenType>::empty());
    }
    tokenizer.events
}

} // verus!
