use micromark::Code;
use micromark::as_codes;

#[test]
fn empty_input_yields_no_codes() {
    assert_eq!(as_codes(""), Vec::<Code>::new());
}

#[test]
fn carriage_return_line_feed_is_one_code() {
    assert_eq!(as_codes("\r\n"), vec![Code::CarriageReturnLineFeed]);
}

#[test]
fn lone_carriage_return_stays_a_char() {
    assert_eq!(
        as_codes("a\rb"),
        vec![Code::Char('a'), Code::Char('\r'), Code::Char('b')]
    );
}

#[test]
fn lone_line_feed_stays_a_char() {
    assert_eq!(
        as_codes("a\nb"),
        vec![Code::Char('a'), Code::Char('\n'), Code::Char('b')]
    );
}

#[test]
fn tab_at_line_start_expands_to_the_tab_stop() {
    assert_eq!(
        as_codes("\ta"),
        vec![
            Code::Char('\t'),
            Code::VirtualSpace,
            Code::VirtualSpace,
            Code::VirtualSpace,
            Code::Char('a'),
        ]
    );
}

#[test]
fn tab_mid_line_fills_only_to_the_next_stop() {
    // The tab sits in column 3: one virtual space reaches column 4's stop.
    assert_eq!(
        as_codes("ab\tc"),
        vec![
            Code::Char('a'),
            Code::Char('b'),
            Code::Char('\t'),
            Code::VirtualSpace,
            Code::Char('c'),
        ]
    );
}

#[test]
fn line_endings_reset_the_tab_column() {
    assert_eq!(
        as_codes("a\nb\t"),
        vec![
            Code::Char('a'),
            Code::Char('\n'),
            Code::Char('b'),
            Code::Char('\t'),
            Code::VirtualSpace,
            Code::VirtualSpace,
        ]
    );
}

#[test]
fn crlf_then_tab_expands_from_column_one() {
    assert_eq!(
        as_codes("\r\n\t."),
        vec![
            Code::CarriageReturnLineFeed,
            Code::Char('\t'),
            Code::VirtualSpace,
            Code::VirtualSpace,
            Code::VirtualSpace,
            Code::Char('.'),
        ]
    );
}

fn rebuild(codes: &[Code]) -> String {
    let mut s = String::new();
    for c in codes {
        match c {
            Code::Char(ch) => s.push(*ch),
            Code::CarriageReturnLineFeed => s.push_str("\r\n"),
            _ => {}
        }
    }
    s
}

#[test]
fn codes_rebuild_to_the_exact_input() {
    for text in [
        "",
        "\n",
        "\r\n",
        "a\rb",
        "a\r\nb\tc",
        "\t\t",
        "páragraph\nwith unicode\r\n",
    ] {
        assert_eq!(rebuild(&as_codes(text)), text);
    }
}
