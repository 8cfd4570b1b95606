use micromark::Code;
use micromark::EventType;
use micromark::Point;
use micromark::TokenType;
use micromark::as_codes;
use micromark::construct::partial_space_or_tab::space_or_tab;
use micromark::construct::partial_space_or_tab::space_or_tab_eol;
use micromark::construct::partial_space_or_tab::space_or_tab_min_max;
use micromark::state::State;
use micromark::tokenizer::Tokenizer;

fn fresh(codes: &Vec<Code>) -> Tokenizer {
    Tokenizer::new(
        Point { line: 1, column: 1, offset: 0, index: 0 },
        codes.len(),
    )
}

#[test]
fn space_or_tab_takes_a_whole_run() {
    let codes = as_codes("  \ta");
    let mut tokenizer = fresh(&codes);
    let name = space_or_tab(&mut tokenizer);
    let state = tokenizer.push(&codes, 0, codes.len(), name, false);
    assert_eq!(state, State::Okay);
    // Two spaces, the tab, and its virtual space: one token of five codes.
    assert_eq!(tokenizer.events.len(), 2);
    assert_eq!(tokenizer.events[0].event_type, EventType::Enter);
    assert_eq!(tokenizer.events[0].token_type, TokenType::SpaceOrTab);
    assert_eq!(tokenizer.events[0].point.index, 0);
    assert_eq!(tokenizer.events[1].event_type, EventType::Exit);
    assert_eq!(tokenizer.events[1].point.index, 4);
    assert_eq!(tokenizer.point.index, 4);
}

#[test]
fn space_or_tab_rejects_other_codes_without_a_trace() {
    let codes = as_codes("a");
    let mut tokenizer = fresh(&codes);
    let name = space_or_tab(&mut tokenizer);
    let state = tokenizer.push(&codes, 0, codes.len(), name, false);
    assert_eq!(state, State::Nok);
    assert_eq!(tokenizer.events.len(), 0);
    assert_eq!(tokenizer.point.index, 0);
}

#[test]
fn space_or_tab_max_stops_the_run() {
    let codes = as_codes("    x");
    let mut tokenizer = fresh(&codes);
    let name = space_or_tab_min_max(&mut tokenizer, 1, 2);
    let state = tokenizer.push(&codes, 0, codes.len(), name, false);
    assert_eq!(state, State::Okay);
    assert_eq!(tokenizer.events[1].point.index, 2);
    assert_eq!(tokenizer.point.index, 2);
}

#[test]
fn space_or_tab_min_not_reached_rolls_back() {
    let codes = as_codes(" x");
    let mut tokenizer = fresh(&codes);
    let name = space_or_tab_min_max(&mut tokenizer, 2, 4);
    let state = tokenizer.push(&codes, 0, codes.len(), name, false);
    assert_eq!(state, State::Nok);
}

#[test]
fn space_or_tab_eol_spans_a_line_ending() {
    let codes = as_codes(" \n b");
    let mut tokenizer = fresh(&codes);
    let name = space_or_tab_eol(&mut tokenizer);
    let state = tokenizer.push(&codes, 0, codes.len(), name, false);
    assert_eq!(state, State::Okay);
    let kinds: Vec<(EventType, TokenType, usize)> = tokenizer
        .events
        .iter()
        .map(|e| (e.event_type, e.token_type, e.point.index))
        .collect();
    assert_eq!(
        kinds,
        vec![
            (EventType::Enter, TokenType::SpaceOrTab, 0),
            (EventType::Exit, TokenType::SpaceOrTab, 1),
            (EventType::Enter, TokenType::LineEnding, 1),
            (EventType::Exit, TokenType::LineEnding, 2),
            (EventType::Enter, TokenType::SpaceOrTab, 2),
            (EventType::Exit, TokenType::SpaceOrTab, 3),
        ]
    );
}

#[test]
fn space_or_tab_eol_takes_a_bare_line_ending() {
    let codes = as_codes("\nb");
    let mut tokenizer = fresh(&codes);
    let name = space_or_tab_eol(&mut tokenizer);
    let state = tokenizer.push(&codes, 0, codes.len(), name, false);
    assert_eq!(state, State::Okay);
    assert_eq!(tokenizer.events.len(), 2);
    assert_eq!(tokenizer.events[0].token_type, TokenType::LineEnding);
}

#[test]
fn space_or_tab_eol_refuses_a_blank_line() {
    let codes = as_codes(" \n\nb");
    let mut tokenizer = fresh(&codes);
    let name = space_or_tab_eol(&mut tokenizer);
    let state = tokenizer.push(&codes, 0, codes.len(), name, false);
    assert_eq!(state, State::Nok);
}

#[test]
fn space_or_tab_eol_refuses_plain_content() {
    let codes = as_codes("b");
    let mut tokenizer = fresh(&codes);
    let name = space_or_tab_eol(&mut tokenizer);
    let state = tokenizer.push(&codes, 0, codes.len(), name, false);
    assert_eq!(state, State::Nok);
}
