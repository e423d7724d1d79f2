use xtask::text::{
    any_line_starts_with, chars_of, compare, join2, join3, same, split_lines, starts_with, Rank,
};

fn lines_of(text: &str) -> Vec<String> {
    split_lines(text).into_iter().map(|line| line.into_iter().collect()).collect()
}

#[test]
fn chars_are_those_of_the_string() {
    assert_eq!(chars_of("a\u{e9}\u{10348}"), vec!['a', '\u{e9}', '\u{10348}']);
    assert_eq!(chars_of(""), Vec::<char>::new());
}

#[test]
fn prefix_is_tested_character_by_character() {
    assert!(starts_with("16.0.3", "16"));
    assert!(starts_with("160", "16"));
    assert!(starts_with("16", "16"));
    assert!(starts_with("16", ""));
    assert!(!starts_with("15.9.0", "16"));
    assert!(!starts_with("1", "16"));
    assert!(!starts_with("v16", "16"));
    assert!(!starts_with("Nightly", "nightly"));
}

#[test]
fn compare_ranks_as_std_orders() {
    let samples = ["", "a", "A", "ab", "b", "\u{e9}", "a\u{10348}", "PATH", "PATHS", "10", "9"];
    for x in samples {
        for y in samples {
            let expected = match x.cmp(y) {
                std::cmp::Ordering::Less => Rank::Before,
                std::cmp::Ordering::Equal => Rank::Same,
                std::cmp::Ordering::Greater => Rank::After,
            };
            assert_eq!(compare(x, y), expected, "{x:?} against {y:?}");
            assert_eq!(same(x, y), x == y);
        }
    }
}

#[test]
fn joins_concatenate() {
    assert_eq!(join2("clang-format", "-16"), "clang-format-16");
    assert_eq!(join2("", ""), "");
    assert_eq!(join3("`", "ninja", "` failed"), "`ninja` failed");
}

#[test]
fn lines_end_at_line_feeds() {
    assert_eq!(lines_of(""), Vec::<String>::new());
    assert_eq!(lines_of("abc"), vec!["abc"]);
    assert_eq!(lines_of("abc\n"), vec!["abc"]);
    assert_eq!(lines_of("\n"), vec![""]);
    assert_eq!(lines_of("a\n\nb"), vec!["a", "", "b"]);
    assert_eq!(lines_of("a\r\nb\r\n"), vec!["a", "b"]);
    assert_eq!(lines_of("a\rb\n"), vec!["a\rb"]);
    assert_eq!(lines_of("a\r"), vec!["a\r"]);
    assert_eq!(lines_of("a\r\r\n"), vec!["a\r"]);
}

#[test]
fn lines_are_those_of_std() {
    let samples = ["", "\n", "\r\n", "a", "a\n", "a\r\n", "a\n\n", "\na", "a\rb", "a\r", "x\r\n\r\ny\n\r"];
    for text in samples {
        let expected: Vec<String> = text.lines().map(|l| l.to_string()).collect();
        assert_eq!(lines_of(text), expected, "{text:?}");
    }
}

#[test]
fn a_line_is_found_by_its_beginning() {
    let listing = "stable-x86_64-unknown-linux-gnu (default)\nnightly-2024-01-01-x86_64-unknown-linux-gnu\n";
    assert!(any_line_starts_with(listing, "nightly-2024-01-01"));
    assert!(any_line_starts_with(listing, "stable"));
    assert!(!any_line_starts_with(listing, "nightly-2024-02-01"));
    assert!(!any_line_starts_with(listing, "x86_64"));
    assert!(any_line_starts_with(listing, ""));
    assert!(!any_line_starts_with("", ""));
}
