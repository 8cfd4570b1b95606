use micromark::Event;
use micromark::EventType;
use micromark::Point;
use micromark::TokenType;
use micromark::edit_map::EditMap;

fn marker(index: usize) -> Event {
    Event {
        event_type: EventType::Enter,
        token_type: TokenType::Data,
        point: Point { line: 1, column: 1, offset: 0, index },
        link: None,
    }
}

fn indexes(events: &[Event]) -> Vec<usize> {
    events.iter().map(|e| e.point.index).collect()
}

#[test]
fn consume_applies_a_single_patch() {
    let mut events: Vec<Event> = (0..5).map(marker).collect();
    let mut map = EditMap::new();
    map.add(1, 2, vec![marker(10), marker(11), marker(12)]);
    map.consume(&mut events);
    assert_eq!(indexes(&events), vec![0, 10, 11, 12, 3, 4]);
}

#[test]
fn consume_applies_patches_in_index_order_whatever_the_add_order() {
    let mut events: Vec<Event> = (0..6).map(marker).collect();
    let mut map = EditMap::new();
    map.add(4, 2, vec![marker(40)]);
    map.add(0, 1, vec![marker(20), marker(21)]);
    map.add(2, 1, vec![]);
    map.consume(&mut events);
    assert_eq!(indexes(&events), vec![20, 21, 1, 3, 40]);
}

#[test]
fn consume_with_no_patches_is_identity() {
    let mut events: Vec<Event> = (0..3).map(marker).collect();
    let mut map = EditMap::new();
    map.consume(&mut events);
    assert_eq!(indexes(&events), vec![0, 1, 2]);
}

#[test]
fn one_pass_equals_one_by_one_from_the_highest_index() {
    let patches: Vec<(usize, usize, Vec<Event>)> = vec![
        (1, 1, vec![marker(31), marker(32)]),
        (3, 2, vec![marker(33)]),
        (6, 1, vec![]),
    ];
    let base: Vec<Event> = (0..8).map(marker).collect();

    // One pass over the whole log.
    let mut swept = base.clone();
    let mut map = EditMap::new();
    for (index, remove, inserts) in &patches {
        map.add(*index, *remove, inserts.clone());
    }
    map.consume(&mut swept);

    // One patch at a time, highest index first, each on the current copy.
    let mut stepped = base.clone();
    for (index, remove, inserts) in patches.iter().rev() {
        let mut one = EditMap::new();
        one.add(*index, *remove, inserts.clone());
        one.consume(&mut stepped);
    }

    assert_eq!(indexes(&swept), indexes(&stepped));
    assert_eq!(swept, stepped);
}
