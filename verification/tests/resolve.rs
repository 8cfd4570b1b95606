use micromark::ContentType;
use micromark::Event;
use micromark::EventType;
use micromark::ParseState;
use micromark::Point;
use micromark::TokenType;
use micromark::as_codes;
use micromark::event::Link;
use micromark::event::check_events;
use micromark::link;
use micromark::link_to;
use micromark::subtokenize;

fn pt(index: usize) -> Point {
    Point { line: 1, column: index + 1, offset: index, index }
}

fn chunk_pair(from: usize, to: usize) -> Vec<Event> {
    vec![
        Event {
            event_type: EventType::Enter,
            token_type: TokenType::ChunkText,
            point: pt(from),
            link: Some(Link {
                previous: None,
                next: None,
                content_type: ContentType::Text,
            }),
        },
        Event {
            event_type: EventType::Exit,
            token_type: TokenType::ChunkText,
            point: pt(to),
            link: None,
        },
    ]
}

#[test]
fn link_wires_both_neighbours() {
    let mut events = chunk_pair(0, 1);
    events.extend(chunk_pair(1, 2));
    link(&mut events, 2);
    assert_eq!(events[0].link.unwrap().next, Some(2));
    assert_eq!(events[0].link.unwrap().previous, None);
    assert_eq!(events[2].link.unwrap().previous, Some(0));
    assert_eq!(events[2].link.unwrap().next, None);
}

#[test]
fn link_to_reaches_over_other_events() {
    let mut events = chunk_pair(0, 1);
    events.extend(chunk_pair(1, 2));
    events.extend(chunk_pair(2, 3));
    link_to(&mut events, 0, 4);
    assert_eq!(events[0].link.unwrap().next, Some(4));
    assert_eq!(events[4].link.unwrap().previous, Some(0));
    // The pair in between is untouched.
    assert_eq!(events[2].link.unwrap().next, None);
    assert_eq!(events[2].link.unwrap().previous, None);
}

#[test]
fn subtokenize_without_links_changes_nothing() {
    let codes = as_codes("ab");
    let parse_state = ParseState { codes };
    let mut events = vec![
        Event {
            event_type: EventType::Enter,
            token_type: TokenType::Paragraph,
            point: pt(0),
            link: None,
        },
        Event {
            event_type: EventType::Exit,
            token_type: TokenType::Paragraph,
            point: pt(2),
            link: None,
        },
    ];
    let before = events.clone();
    assert!(subtokenize(&mut events, &parse_state));
    assert_eq!(events, before);
}

#[test]
fn subtokenize_replaces_a_chain_with_its_content() {
    // A hand-built paragraph of two linked chunks over "a\nb", with the
    // positions flow would have recorded.
    let codes = as_codes("a\nb");
    let parse_state = ParseState { codes };
    let p0 = Point { line: 1, column: 1, offset: 0, index: 0 };
    let p2 = Point { line: 2, column: 1, offset: 2, index: 2 };
    let p3 = Point { line: 2, column: 2, offset: 3, index: 3 };
    let chain = Some(Link { previous: None, next: None, content_type: ContentType::Text });
    let mut events = vec![
        Event {
            event_type: EventType::Enter,
            token_type: TokenType::Paragraph,
            point: p0,
            link: None,
        },
        Event {
            event_type: EventType::Enter,
            token_type: TokenType::ChunkText,
            point: p0,
            link: chain,
        },
        Event {
            event_type: EventType::Exit,
            token_type: TokenType::ChunkText,
            point: p2,
            link: None,
        },
        Event {
            event_type: EventType::Enter,
            token_type: TokenType::ChunkText,
            point: p2,
            link: chain,
        },
        Event {
            event_type: EventType::Exit,
            token_type: TokenType::ChunkText,
            point: p3,
            link: None,
        },
        Event {
            event_type: EventType::Exit,
            token_type: TokenType::Paragraph,
            point: p3,
            link: None,
        },
    ];
    link(&mut events, 3);
    let done = subtokenize(&mut events, &parse_state);
    assert!(done);
    let kinds: Vec<(EventType, TokenType, usize)> = events
        .iter()
        .map(|e| (e.event_type, e.token_type, e.point.index))
        .collect();
    assert_eq!(
        kinds,
        vec![
            (EventType::Enter, TokenType::Paragraph, 0),
            (EventType::Enter, TokenType::Data, 0),
            (EventType::Exit, TokenType::Data, 1),
            (EventType::Enter, TokenType::LineEnding, 1),
            (EventType::Exit, TokenType::LineEnding, 2),
            (EventType::Enter, TokenType::Data, 2),
            (EventType::Exit, TokenType::Data, 3),
            (EventType::Exit, TokenType::Paragraph, 3),
        ]
    );
}

#[test]
fn subtokenize_reaches_a_fixed_point() {
    let (mut events, codes) = micromark::parse("x\ny\n\nz");
    let parse_state = ParseState { codes };
    // Resolution is complete: every further pass reports done and moves
    // nothing.
    let before = events.clone();
    assert!(subtokenize(&mut events, &parse_state));
    assert_eq!(events, before);
    assert!(subtokenize(&mut events, &parse_state));
    assert_eq!(events, before);
}

#[test]
fn check_events_accepts_sound_streams() {
    let (events, codes) = micromark::parse("a\nb");
    assert!(check_events(&events, codes.len()));
}

#[test]
fn check_events_rejects_mismatched_nesting() {
    let events = vec![
        Event {
            event_type: EventType::Enter,
            token_type: TokenType::Paragraph,
            point: pt(0),
            link: None,
        },
        Event {
            event_type: EventType::Exit,
            token_type: TokenType::Data,
            point: pt(1),
            link: None,
        },
    ];
    assert!(!check_events(&events, 4));
}

#[test]
fn check_events_rejects_events_out_of_range() {
    let events = vec![
        Event {
            event_type: EventType::Enter,
            token_type: TokenType::Paragraph,
            point: pt(9),
            link: None,
        },
        Event {
            event_type: EventType::Exit,
            token_type: TokenType::Paragraph,
            point: pt(9),
            link: None,
        },
    ];
    assert!(!check_events(&events, 4));
}
