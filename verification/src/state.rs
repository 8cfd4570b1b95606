//! Tagged state variants for the tokenizer's trampoline.
//!
//! Each state function is a named variant rather than a heap-allocated
//! closure: the trampoline dispatches on the name, and per-construct scratch
//! lives in the tokenizer's `tokenize_state`, which makes snapshotting for
//! `attempt` a plain copy.

use vstd::prelude::*;

verus! {

/// The name of one state function of the runtime.
#[derive(Clone, Copy, Debug, PartialEq, Eq, Structural)]
pub enum StateName {
    /// Flow context: at the start of the document or of a line.
    FlowStart,
    /// Flow context: a blank line was recognized.
    FlowBlankLineAfter,
    /// Flow context: the line holds content; the fallback construct begins.
    FlowBeforeParagraph,
    /// Flow context: a paragraph was closed.
    FlowAfterParagraph,
    /// Blank line construct: before optional whitespace.
    BlankLineStart,
    /// Blank line construct: after optional whitespace.
    BlankLineAfterWhitespace,
    /// Paragraph construct: at the first code of a paragraph.
    ParagraphStart,
    /// Paragraph construct: inside a line of content.
    ParagraphInside,
    /// Paragraph construct (lookahead): at the line ending.
    ParagraphContinuationStart,
    /// Paragraph construct (lookahead): after the next line's whitespace.
    ParagraphContinuationAfterWhitespace,
    /// Paragraph construct: the next line continues the paragraph.
    ParagraphContinue,
    /// Paragraph construct: the paragraph ends at this line ending.
    ParagraphEnd,
    /// Whitespace helper: before the first `space_or_tab` code.
    SpaceOrTabStart,
    /// Whitespace helper: inside a `space_or_tab` run.
    SpaceOrTabInside,
    /// Whitespace helper with line ending: before everything.
    SpaceOrTabEolStart,
    /// Whitespace helper with line ending: the leading run matched.
    SpaceOrTabEolOk,
    /// Whitespace helper with line ending: after the optional leading run.
    SpaceOrTabEolAfterFirst,
    /// Whitespace helper with line ending: after the line ending.
    SpaceOrTabEolAfterEol,
    /// Whitespace helper with line ending: after the optional trailing run.
    SpaceOrTabEolAfterMore,
    /// String context: between tokens.
    StringStart,
    /// String context: inside verbatim data.
    StringInside,
    /// Text context: between tokens.
    TextStart,
    /// Text context: inside verbatim data.
    TextInside,
}

/// What a state function hands back to the trampoline.
#[derive(Clone, Copy, Debug, PartialEq, Eq, Structural)]
pub enum State {
    /// The construct matched; fed codes are kept.
    Okay,
    /// The construct did not match; an enclosing `attempt` rolls back.
    Nok,
    /// Continue in this state on the next code.
    Next(StateName),
}

/// How the outcome of an attempted state is treated when it resolves.
#[derive(Clone, Copy, Debug, PartialEq, Eq, Structural)]
pub enum AttemptKind {
    /// Keep the side effects on `Okay`, roll back on `Nok`.
    Attempt,
    /// Roll back whatever the outcome: pure lookahead.
    Check,
}

} // verus!
