//! Several helpers to parse whitespace (`space_or_tab`, `space_or_tab_eol`).
//!
//! The builders put the helper's configuration into the tokenizer's scratch
//! and hand back the name of its entry state; the caller returns that name
//! (usually under an `attempt`) to run the helper on the next code.

use vstd::prelude::*;
use crate::codes::Code;
use crate::event::ContentType;
use crate::event::TokenType;
use crate::state::State;
use crate::state::StateName;
use crate::content::state_effect;
use crate::tokenizer::TokenizeState;
use crate::tokenizer::Tokenizer;
use crate::tokenizer::step_ok;

verus! {

/// Options to parse `space_or_tab`.
#[derive(Clone, Copy, Debug)]
pub struct Options {
    /// Minimum allowed characters (inclusive).
    pub min: usize,
    /// Maximum allowed characters (inclusive).
    pub max: usize,
    /// Token type to use for whitespace events.
    pub kind: TokenType,
    /// Connect this whitespace to the previous.
    pub connect: bool,
    /// Embedded content type to use.
    pub content_type: Option<ContentType>,
}

/// Options to parse `space_or_tab` and one optional eol, but no blank line.
#[derive(Clone, Copy, Debug)]
pub struct EolOptions {
    /// Connect this whitespace to the previous.
    pub connect: bool,
    /// Embedded content type to use.
    pub content_type: Option<ContentType>,
}

/// One or more `space_or_tab`.
///
/// ```bnf
/// space_or_tab ::= 1*( ' ' '\t' )
/// ```
pub fn space_or_tab(tokenizer: &mut Tokenizer) -> (r: StateName)
    requires
        old(tokenizer).inv(),
    ensures
        final(tokenizer).inv(),
        r == StateName::SpaceOrTabStart,
        final(tokenizer).tokenize_state == (TokenizeState {
            space_or_tab_min: 1,
            space_or_tab_max: usize::MAX,
            space_or_tab_size: 0,
            space_or_tab_token: TokenType::SpaceOrTab,
            space_or_tab_content_type: Option::<ContentType>::None,
            space_or_tab_connect: false,
            ..old(tokenizer).tokenize_state
        }),
        only_scratch_changed(*old(tokenizer), *final(tokenizer)),
{
    space_or_tab_min_max(tokenizer, 1, usize::MAX)
}

/// Between `min` and `max` `space_or_tab`.
///
/// ```bnf
/// space_or_tab_min_max ::= x*y( ' ' '\t' )
/// ```
pub fn space_or_tab_min_max(tokenizer: &mut Tokenizer, min: usize, max: usize) -> (r: StateName)
    requires
        old(tokenizer).inv(),
    ensures
        final(tokenizer).inv(),
        r == StateName::SpaceOrTabStart,
        final(tokenizer).tokenize_state == (TokenizeState {
            space_or_tab_min: min,
            space_or_tab_max: max,
            space_or_tab_size: 0,
            space_or_tab_token: TokenType::SpaceOrTab,
            space_or_tab_content_type: Option::<ContentType>::None,
            space_or_tab_connect: false,
            ..old(tokenizer).tokenize_state
        }),
        only_scratch_changed(*old(tokenizer), *final(tokenizer)),
{
    space_or_tab_with_options(
        tokenizer,
        Options {
            kind: TokenType::SpaceOrTab,
            min,
            max,
            content_type: Option::None,
            connect: false,
        },
    )
}

/// `space_or_tab`, with the given options.
pub fn space_or_tab_with_options(tokenizer: &mut Tokenizer, options: Options) -> (r: StateName)
    requires
        old(tokenizer).inv(),
    ensures
        final(tokenizer).inv(),
        r == StateName::SpaceOrTabStart,
        final(tokenizer).tokenize_state == (TokenizeState {
            space_or_tab_min: options.min,
            space_or_tab_max: options.max,
            space_or_tab_size: 0,
            space_or_tab_token: options.kind,
            space_or_tab_content_type: options.content_type,
            space_or_tab_connect: options.connect,
            ..old(tokenizer).tokenize_state
        }),
        only_scratch_changed(*old(tokenizer), *final(tokenizer)),
{
    tokenizer.tokenize_state = TokenizeState {
        space_or_tab_min: options.min,
        space_or_tab_max: options.max,
        space_or_tab_size: 0,
        space_or_tab_token: options.kind,
        space_or_tab_content_type: options.content_type,
        space_or_tab_connect: options.connect,
        ..tokenizer.tokenize_state
    };
    StateName::SpaceOrTabStart
}

/// `space_or_tab`, or optionally `space_or_tab`, one `eol`, and
/// optionally `space_or_tab`.
///
/// ```bnf
/// space_or_tab_eol ::= 1*( ' ' '\t' ) | 0*( ' ' '\t' ) eol 0*( ' ' '\t' )
/// ```
pub fn space_or_tab_eol(tokenizer: &mut Tokenizer) -> (r: StateName)
    requires
        old(tokenizer).inv(),
    ensures
        final(tokenizer).inv(),
        r == StateName::SpaceOrTabEolStart,
        final(tokenizer).tokenize_state == (TokenizeState {
            eol_content_type: Option::<ContentType>::None,
            eol_connect_option: false,
            eol_connect: false,
            eol_ok: false,
            ..old(tokenizer).tokenize_state
        }),
        only_scratch_changed(*old(tokenizer), *final(tokenizer)),
{
    space_or_tab_eol_with_options(
        tokenizer,
        EolOptions { content_type: Option::None, connect: false },
    )
}

/// `space_or_tab_eol`, with the given options.
pub fn space_or_tab_eol_with_options(tokenizer: &mut Tokenizer, options: EolOptions) -> (r:
    StateName)
    requires
        old(tokenizer).inv(),
    ensures
        final(tokenizer).inv(),
        r == StateName::SpaceOrTabEolStart,
        final(tokenizer).tokenize_state == (TokenizeState {
            eol_content_type: options.content_type,
            eol_connect_option: options.connect,
            eol_connect: false,
            eol_ok: false,
            ..old(tokenizer).tokenize_state
        }),
        only_scratch_changed(*old(tokenizer), *final(tokenizer)),
{
    tokenizer.tokenize_state = TokenizeState {
        eol_content_type: options.content_type,
        eol_connect_option: options.connect,
        eol_connect: false,
        eol_ok: false,
        ..tokenizer.tokenize_state
    };
    StateName::SpaceOrTabEolStart
}

/// Everything but the scratch record kept as it was.
pub open spec fn only_scratch_changed(pre: Tokenizer, post: Tokenizer) -> bool {
    &&& post.events == pre.events
    &&& post.stack == pre.stack
    &&& post.attempts == pre.attempts
    &&& post.point == pre.point
    &&& post.current == pre.current
    &&& post.previous == pre.previous
    &&& post.consumed == pre.consumed
    &&& post.codes_len == pre.codes_len
}

/// Before `space_or_tab`.
///
/// ```markdown
/// alpha| bravo
/// ```
pub fn start(tokenizer: &mut Tokenizer) -> (r: State)
    requires
        old(tokenizer).inv(),
        old(tokenizer).feed_ok(),
        !old(tokenizer).consumed,
    ensures
        step_ok(*old(tokenizer), *final(tokenizer)),
        state_effect(StateName::SpaceOrTabStart, *old(tokenizer), *final(tokenizer), r),
{
    let ts = tokenizer.tokenize_state;
    let whitespace = matches!(
        tokenizer.current,
        Code::VirtualSpace | Code::Char('\t') | Code::Char(' ')
    );
    if whitespace && ts.space_or_tab_max > 0 {
        tokenizer.enter_with_content(ts.space_or_tab_token, ts.space_or_tab_content_type);
        if ts.space_or_tab_content_type.is_some() && ts.space_or_tab_connect {
            tokenizer.connect_back();
        }
        tokenizer.consume();
        let size = if ts.space_or_tab_size < usize::MAX {
            ts.space_or_tab_size + 1
        } else {
            ts.space_or_tab_size
        };
        tokenizer.tokenize_state = TokenizeState {
            space_or_tab_size: size,
            ..tokenizer.tokenize_state
        };
        State::Next(StateName::SpaceOrTabInside)
    } else {
        if ts.space_or_tab_min == 0 {
            State::Okay
        } else {
            State::Nok
        }
    }
}

/// In `space_or_tab`.
///
/// ```markdown
/// alpha |bravo
/// ```
pub fn inside(tokenizer: &mut Tokenizer) -> (r: State)
    requires
        old(tokenizer).inv(),
        old(tokenizer).feed_ok(),
        !old(tokenizer).consumed,
    ensures
        step_ok(*old(tokenizer), *final(tokenizer)),
        state_effect(StateName::SpaceOrTabInside, *old(tokenizer), *final(tokenizer), r),
{
    let ts = tokenizer.tokenize_state;
    let whitespace = matches!(
        tokenizer.current,
        Code::VirtualSpace | Code::Char('\t') | Code::Char(' ')
    );
    if whitespace && ts.space_or_tab_size < ts.space_or_tab_max {
        tokenizer.consume();
        let size = if ts.space_or_tab_size < usize::MAX {
            ts.space_or_tab_size + 1
        } else {
            ts.space_or_tab_size
        };
        tokenizer.tokenize_state = TokenizeState {
            space_or_tab_size: size,
            ..tokenizer.tokenize_state
        };
        State::Next(StateName::SpaceOrTabInside)
    } else {
        if tokenizer.stack.len() > 0 && tokenizer.stack[tokenizer.stack.len() - 1]
            == ts.space_or_tab_token {
            tokenizer.exit(ts.space_or_tab_token);
        }
        if ts.space_or_tab_size >= ts.space_or_tab_min {
            State::Okay
        } else {
            State::Nok
        }
    }
}

/// At the start of `space_or_tab_eol`: try the leading whitespace run.
pub fn eol_start(tokenizer: &mut Tokenizer) -> (r: State)
    requires
        old(tokenizer).inv(),
        old(tokenizer).feed_ok(),
        !old(tokenizer).consumed,
    ensures
        step_ok(*old(tokenizer), *final(tokenizer)),
        state_effect(StateName::SpaceOrTabEolStart, *old(tokenizer), *final(tokenizer), r),
{
    let ts = tokenizer.tokenize_state;
    let _ = space_or_tab_with_options(
        tokenizer,
        Options {
            kind: TokenType::SpaceOrTab,
            min: 1,
            max: usize::MAX,
            content_type: ts.eol_content_type,
            connect: ts.eol_connect_option,
        },
    );
    tokenizer.attempt(StateName::SpaceOrTabEolOk, StateName::SpaceOrTabEolAfterFirst);
    State::Next(StateName::SpaceOrTabStart)
}

/// The leading whitespace run of `space_or_tab_eol` matched.
pub fn eol_matched(tokenizer: &mut Tokenizer) -> (r: State)
    requires
        old(tokenizer).inv(),
        old(tokenizer).feed_ok(),
        !old(tokenizer).consumed,
    ensures
        step_ok(*old(tokenizer), *final(tokenizer)),
        state_effect(StateName::SpaceOrTabEolOk, *old(tokenizer), *final(tokenizer), r),
{
    let connect = tokenizer.tokenize_state.eol_content_type.is_some();
    tokenizer.tokenize_state = TokenizeState {
        eol_ok: true,
        eol_connect: connect,
        ..tokenizer.tokenize_state
    };
    State::Next(StateName::SpaceOrTabEolAfterFirst)
}

/// `space_or_tab_eol`: after the optional leading `space_or_tab`.
///
/// ```markdown
/// alpha |
/// bravo
/// ```
pub fn after_space_or_tab(tokenizer: &mut Tokenizer) -> (r: State)
    requires
        old(tokenizer).inv(),
        old(tokenizer).feed_ok(),
        !old(tokenizer).consumed,
    ensures
        step_ok(*old(tokenizer), *final(tokenizer)),
        state_effect(StateName::SpaceOrTabEolAfterFirst, *old(tokenizer), *final(tokenizer), r),
{
    let ts = tokenizer.tokenize_state;
    match tokenizer.current {
        Code::CarriageReturnLineFeed | Code::Char('\n') | Code::Char('\r') => {
            tokenizer.enter_with_content(TokenType::LineEnding, ts.eol_content_type);
            if ts.eol_connect {
                tokenizer.connect_back();
            } else if ts.eol_content_type.is_some() {
                tokenizer.tokenize_state = TokenizeState {
                    eol_connect: true,
                    ..tokenizer.tokenize_state
                };
            }
            tokenizer.consume();
            if tokenizer.stack.len() > 0 && tokenizer.stack[tokenizer.stack.len() - 1]
                == TokenType::LineEnding {
                tokenizer.exit(TokenType::LineEnding);
            }
            proof {
                assert(old(tokenizer).stack@.push(TokenType::LineEnding).drop_last()
                    =~= old(tokenizer).stack@);
            }
            State::Next(StateName::SpaceOrTabEolAfterEol)
        },
        _ => {
            if ts.eol_ok {
                State::Okay
            } else {
                State::Nok
            }
        },
    }
}

/// `space_or_tab_eol`: after the line ending.
///
/// ```markdown
/// alpha
/// |bravo
/// ```
pub fn after_eol(tokenizer: &mut Tokenizer) -> (r: State)
    requires
        old(tokenizer).inv(),
        old(tokenizer).feed_ok(),
        !old(tokenizer).consumed,
    ensures
        step_ok(*old(tokenizer), *final(tokenizer)),
        state_effect(StateName::SpaceOrTabEolAfterEol, *old(tokenizer), *final(tokenizer), r),
{
    let ts = tokenizer.tokenize_state;
    let _ = space_or_tab_with_options(
        tokenizer,
        Options {
            kind: TokenType::SpaceOrTab,
            min: 1,
            max: usize::MAX,
            content_type: ts.eol_content_type,
            connect: ts.eol_connect,
        },
    );
    tokenizer.attempt_opt(StateName::SpaceOrTabEolAfterMore);
    State::Next(StateName::SpaceOrTabStart)
}

/// `space_or_tab_eol`: after the optional trailing `space_or_tab`.  A
/// blank line is not allowed here.
///
/// ```markdown
/// alpha
///  |bravo
/// ```
pub fn after_more_space_or_tab(tokenizer: &mut Tokenizer) -> (r: State)
    requires
        old(tokenizer).inv(),
        old(tokenizer).feed_ok(),
        !old(tokenizer).consumed,
    ensures
        step_ok(*old(tokenizer), *final(tokenizer)),
        state_effect(StateName::SpaceOrTabEolAfterMore, *old(tokenizer), *final(tokenizer), r),
{
    if matches!(
        tokenizer.current,
        Code::Eof | Code::CarriageReturnLineFeed | Code::Char('\n') | Code::Char('\r')
    ) {
        State::Nok
    } else {
        State::Okay
    }
}

} // verus!
