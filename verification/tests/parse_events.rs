use micromark::EventType;
use micromark::TokenType;
use micromark::parse;

fn kinds(value: &str) -> Vec<(EventType, TokenType, usize)> {
    let (events, _codes) = parse(value);
    events
        .iter()
        .map(|e| (e.event_type, e.token_type, e.point.index))
        .collect()
}

#[test]
fn empty_input_yields_no_events() {
    let (events, codes) = parse("");
    assert_eq!(events.len(), 0);
    assert_eq!(codes.len(), 0);
}

#[test]
fn just_a_line_feed_is_a_blank_line() {
    assert_eq!(
        kinds("\n"),
        vec![
            (EventType::Enter, TokenType::BlankLineEnding, 0),
            (EventType::Exit, TokenType::BlankLineEnding, 1),
        ]
    );
}

#[test]
fn just_a_carriage_return_line_feed_is_a_blank_line() {
    assert_eq!(
        kinds("\r\n"),
        vec![
            (EventType::Enter, TokenType::BlankLineEnding, 0),
            (EventType::Exit, TokenType::BlankLineEnding, 1),
        ]
    );
}

#[test]
fn two_line_feeds_are_two_blank_lines() {
    assert_eq!(
        kinds("\n\n"),
        vec![
            (EventType::Enter, TokenType::BlankLineEnding, 0),
            (EventType::Exit, TokenType::BlankLineEnding, 1),
            (EventType::Enter, TokenType::BlankLineEnding, 1),
            (EventType::Exit, TokenType::BlankLineEnding, 2),
        ]
    );
}

#[test]
fn a_line_feed_inside_a_paragraph_is_content() {
    assert_eq!(
        kinds("a\nb"),
        vec![
            (EventType::Enter, TokenType::Paragraph, 0),
            (EventType::Enter, TokenType::Data, 0),
            (EventType::Exit, TokenType::Data, 1),
            (EventType::Enter, TokenType::LineEnding, 1),
            (EventType::Exit, TokenType::LineEnding, 2),
            (EventType::Enter, TokenType::Data, 2),
            (EventType::Exit, TokenType::Data, 3),
            (EventType::Exit, TokenType::Paragraph, 3),
        ]
    );
}

#[test]
fn a_carriage_return_inside_a_paragraph_is_content() {
    assert_eq!(
        kinds("a\rb"),
        vec![
            (EventType::Enter, TokenType::Paragraph, 0),
            (EventType::Enter, TokenType::Data, 0),
            (EventType::Exit, TokenType::Data, 1),
            (EventType::Enter, TokenType::LineEnding, 1),
            (EventType::Exit, TokenType::LineEnding, 2),
            (EventType::Enter, TokenType::Data, 2),
            (EventType::Exit, TokenType::Data, 3),
            (EventType::Exit, TokenType::Paragraph, 3),
        ]
    );
}

#[test]
fn a_crlf_inside_a_paragraph_is_content() {
    let (events, codes) = parse("a\r\nb");
    assert_eq!(codes.len(), 3);
    assert_eq!(
        events
            .iter()
            .map(|e| (e.event_type, e.token_type, e.point.index))
            .collect::<Vec<_>>(),
        vec![
            (EventType::Enter, TokenType::Paragraph, 0),
            (EventType::Enter, TokenType::Data, 0),
            (EventType::Exit, TokenType::Data, 1),
            (EventType::Enter, TokenType::LineEnding, 1),
            (EventType::Exit, TokenType::LineEnding, 2),
            (EventType::Enter, TokenType::Data, 2),
            (EventType::Exit, TokenType::Data, 3),
            (EventType::Exit, TokenType::Paragraph, 3),
        ]
    );
    // The line ending's exit opens line 2 at byte offset 3: CRLF is 2 bytes.
    assert_eq!(events[4].point.line, 2);
    assert_eq!(events[4].point.column, 1);
    assert_eq!(events[4].point.offset, 3);
}

#[test]
fn a_blank_line_separates_paragraphs() {
    assert_eq!(
        kinds("a\n\nb"),
        vec![
            (EventType::Enter, TokenType::Paragraph, 0),
            (EventType::Enter, TokenType::Data, 0),
            (EventType::Exit, TokenType::Data, 1),
            (EventType::Exit, TokenType::Paragraph, 1),
            (EventType::Enter, TokenType::LineEnding, 1),
            (EventType::Exit, TokenType::LineEnding, 2),
            (EventType::Enter, TokenType::BlankLineEnding, 2),
            (EventType::Exit, TokenType::BlankLineEnding, 3),
            (EventType::Enter, TokenType::Paragraph, 3),
            (EventType::Enter, TokenType::Data, 3),
            (EventType::Exit, TokenType::Data, 4),
            (EventType::Exit, TokenType::Paragraph, 4),
        ]
    );
}

#[test]
fn a_whitespace_only_line_is_blank_and_lookahead_leaves_no_trace() {
    // The paragraph's continuation check consumes the line ending and the
    // whitespace before giving up; a failed rollback would leave stray
    // whitespace events inside the paragraph.
    assert_eq!(
        kinds("a\n \nb"),
        vec![
            (EventType::Enter, TokenType::Paragraph, 0),
            (EventType::Enter, TokenType::Data, 0),
            (EventType::Exit, TokenType::Data, 1),
            (EventType::Exit, TokenType::Paragraph, 1),
            (EventType::Enter, TokenType::LineEnding, 1),
            (EventType::Exit, TokenType::LineEnding, 2),
            (EventType::Enter, TokenType::SpaceOrTab, 2),
            (EventType::Exit, TokenType::SpaceOrTab, 3),
            (EventType::Enter, TokenType::BlankLineEnding, 3),
            (EventType::Exit, TokenType::BlankLineEnding, 4),
            (EventType::Enter, TokenType::Paragraph, 4),
            (EventType::Enter, TokenType::Data, 4),
            (EventType::Exit, TokenType::Data, 5),
            (EventType::Exit, TokenType::Paragraph, 5),
        ]
    );
}

#[test]
fn a_trailing_line_ending_stays_outside_the_paragraph() {
    assert_eq!(
        kinds("a\n"),
        vec![
            (EventType::Enter, TokenType::Paragraph, 0),
            (EventType::Enter, TokenType::Data, 0),
            (EventType::Exit, TokenType::Data, 1),
            (EventType::Exit, TokenType::Paragraph, 1),
            (EventType::Enter, TokenType::LineEnding, 1),
            (EventType::Exit, TokenType::LineEnding, 2),
        ]
    );
}

#[test]
fn two_crlf_are_two_blank_lines() {
    assert_eq!(
        kinds("\r\n\r\n"),
        vec![
            (EventType::Enter, TokenType::BlankLineEnding, 0),
            (EventType::Exit, TokenType::BlankLineEnding, 1),
            (EventType::Enter, TokenType::BlankLineEnding, 1),
            (EventType::Exit, TokenType::BlankLineEnding, 2),
        ]
    );
}

#[test]
fn every_stream_is_well_nested_and_monotone() {
    for text in ["", "\n", "a", "a\nb\nc", "a\r\n\r\nb", " \t\n x\ny\n\n"] {
        let (events, codes) = parse(text);
        let mut stack: Vec<TokenType> = Vec::new();
        let mut last: usize = 0;
        for e in &events {
            assert!(e.point.index <= codes.len());
            assert!(last <= e.point.index);
            last = e.point.index;
            match e.event_type {
                EventType::Enter => stack.push(e.token_type),
                EventType::Exit => assert_eq!(stack.pop(), Some(e.token_type)),
            }
        }
        assert!(stack.is_empty());
    }
}
