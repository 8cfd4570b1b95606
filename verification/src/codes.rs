//! The character classifier: turn source text into the parser's alphabet.
//!
//! The tokenizer never looks at raw characters.  Input is normalized into a
//! sequence of [`Code`]s first: a `\r\n` pair becomes one
//! [`Code::CarriageReturnLineFeed`], and a tab is followed by enough
//! [`Code::VirtualSpace`]s to advance the column to the next 4-column tab
//! stop, without changing the underlying bytes.

use vstd::prelude::*;

verus! {

/// One element of the parser's alphabet.
#[derive(Clone, Copy, Debug, PartialEq, Eq)]
pub enum Code {
    /// End-of-input sentinel: handed to state functions when the feed runs dry.
    Eof,
    /// A `\r\n` pair, normalized into a single line ending.
    CarriageReturnLineFeed,
    /// A column filler emitted after a tab; it occupies no bytes.
    VirtualSpace,
    /// Any other single code point (including a lone `\r` or `\n`).
    Char(char),
}

/// A position in the source.
///
/// `line` and `column` are 1-based, `offset` is the byte offset into the
/// source string, and `index` is the position in the code sequence.
#[derive(Clone, Copy, Debug, PartialEq, Eq, Structural)]
pub struct Point {
    pub line: usize,
    pub column: usize,
    pub offset: usize,
    pub index: usize,
}

/// The number of bytes the UTF-8 encoding of `c` takes.
pub open spec fn char_utf8_width(c: char) -> nat {
    if (c as u32) < 0x80 {
        1
    } else if (c as u32) < 0x800 {
        2
    } else if (c as u32) < 0x10000 {
        3
    } else {
        4
    }
}

/// The characters a single code stands for in the source.
pub open spec fn code_chars(e: Code) -> Seq<char> {
    match e {
        Code::Eof => Seq::empty(),
        Code::CarriageReturnLineFeed => seq!['\r', '\n'],
        Code::VirtualSpace => Seq::empty(),
        Code::Char(c) => seq![c],
    }
}

/// The source text a code sequence stands for: `Char(c)` contributes `c`,
/// `CarriageReturnLineFeed` contributes `"\r\n"`, the rest contribute nothing.
pub open spec fn rebuild(s: Seq<Code>) -> Seq<char>
    decreases s.len(),
{
    if s.len() == 0 {
        Seq::empty()
    } else {
        rebuild(s.drop_last()) + code_chars(s.last())
    }
}

/// A whitespace code: a space, a tab, or a tab's virtual column filler.
pub open spec fn is_ws_code(c: Code) -> bool {
    c is VirtualSpace || c == Code::Char(' ') || c == Code::Char('\t')
}

/// A line ending code.
pub open spec fn is_eol_code(c: Code) -> bool {
    c is CarriageReturnLineFeed || c == Code::Char('\n') || c == Code::Char('\r')
}

/// A line ending or the end of input.
pub open spec fn is_eol_or_eof(c: Code) -> bool {
    c is Eof || is_eol_code(c)
}

/// A code sequence free of the end-of-input sentinel, as `as_codes` produces.
pub open spec fn no_sentinel(s: Seq<Code>) -> bool {
    forall|i: int| 0 <= i < s.len() ==> !(s[i] is Eof)
}

/// Line endings are normalized: no `Char('\r')` stands directly before a
/// `Char('\n')` — every `\r\n` pair of the source became exactly one
/// `CarriageReturnLineFeed` code, the stream's one line-advancing boundary
/// for it.
pub open spec fn normalized(s: Seq<Code>) -> bool {
    forall|i: int|
        0 <= i && i + 1 < s.len() ==> !(#[trigger] s[i] == Code::Char('\r') && s[i + 1]
            == Code::Char('\n'))
}

proof fn lemma_rebuild_push(s: Seq<Code>, e: Code)
    ensures
        rebuild(s.push(e)) == rebuild(s) + code_chars(e),
{
    assert(s.push(e).last() == e);
    assert(s.push(e).drop_last() =~= s);
}

/// The number of bytes the UTF-8 encoding of `c` takes.
pub fn char_width(c: char) -> (n: usize)
    ensures
        n == char_utf8_width(c),
{
    let u = c as u32;
    if u < 0x80 {
        1
    } else if u < 0x800 {
        2
    } else if u < 0x10000 {
        3
    } else {
        4
    }
}

/// Normalize source text into the parser's alphabet.
///
/// A `\r` directly followed by `\n` becomes one `CarriageReturnLineFeed`; a
/// lone `\r` or `\n` stays a `Char`.  A tab emits `Char('\t')` and then
/// `3 - (column - 1) % 4` `VirtualSpace`s, so columns behave as if the tab
/// were spaces up to the next 4-column tab stop.
///
/// The result stands for the input exactly: rebuilding the characters from
/// the codes gives the input back.
pub fn as_codes(value: &str) -> (codes: Vec<Code>)
    ensures
        rebuild(codes@) == value@,
        no_sentinel(codes@),
        normalized(codes@),
{
    let n = value.unicode_len();
    let mut codes: Vec<Code> = Vec::new();
    let mut i: usize = 0;
    // (column - 1) % 4: all the tab stop arithmetic needs of the column.
    let mut colm: usize = 0;
    while i < n
        invariant
            n == value@.len(),
            i <= n,
            colm < 4,
            rebuild(codes@) == value@.take(i as int),
            no_sentinel(codes@),
            normalized(codes@),
            codes@.len() > 0 && codes@.last() == Code::Char('\r') ==> i == n || value@[i as int]
                != '\n',
        decreases n - i,
    {
        let c = value.get_char(i);
        if c == '\r' && i + 1 < n && value.get_char(i + 1) == '\n' {
            let ghost prev = codes@;
            codes.push(Code::CarriageReturnLineFeed);
            proof {
                lemma_rebuild_push(prev, Code::CarriageReturnLineFeed);
                assert(value@.take(i + 2) =~= value@.take(i as int) + seq!['\r', '\n']);
            }
            i += 2;
            colm = 0;
        } else if c == '\t' {
            let ghost prev = codes@;
            codes.push(Code::Char('\t'));
            proof {
                lemma_rebuild_push(prev, Code::Char('\t'));
                assert(value@.take(i + 1) =~= value@.take(i as int) + seq!['\t']);
            }
            let mut vs: usize = 3 - colm;
            while vs > 0
                invariant
                    rebuild(codes@) == value@.take(i + 1),
                    no_sentinel(codes@),
                    normalized(codes@),
                    codes@.len() > 0,
                    !(codes@.last() == Code::Char('\r')),
                decreases vs,
            {
                let ghost mid = codes@;
                codes.push(Code::VirtualSpace);
                proof {
                    lemma_rebuild_push(mid, Code::VirtualSpace);
                    assert(rebuild(mid) + Seq::<char>::empty() =~= rebuild(mid));
                }
                vs -= 1;
            }
            i += 1;
            colm = 0;
        } else {
            let ghost prev = codes@;
            codes.push(Code::Char(c));
            proof {
                lemma_rebuild_push(prev, Code::Char(c));
                assert(value@.take(i + 1) =~= value@.take(i as int) + seq![value@[i as int]]);
            }
            if c == '\n' || c == '\r' {
                colm = 0;
            } else {
                colm = (colm + 1) % 4;
            }
            i += 1;
        }
    }
    proof {
        assert(value@.take(n as int) =~= value@);
    }
    codes
}

} // verus!
