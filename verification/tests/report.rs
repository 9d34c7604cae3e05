use n3ondiff::report::{chars_of, find_char, read_line, read_number, read_report, BadReport};

fn chars(text: &str) -> Vec<char> {
    text.chars().collect()
}

fn sorted(mut found: Vec<String>) -> Vec<String> {
    found.sort();
    found
}

#[test]
fn a_report_gives_the_locations_that_ran() {
    let report = "mode: set\n\
                  github.com/x/vm/stack.go:10.2,12.3 2 1\n\
                  github.com/x/vm/stack.go:14.2,14.9 1 0\n\
                  github.com/x/vm/vm.go:7.1,9.4 3 12\n";
    assert_eq!(
        read_report(report),
        Ok(vec![
            String::from("github.com/x/vm/stack.go:10.2,12.3"),
            String::from("github.com/x/vm/vm.go:7.1,9.4"),
        ])
    );
}

#[test]
fn an_empty_report_covers_nothing() {
    assert_eq!(read_report(""), Ok(Vec::new()));
    assert_eq!(read_report("mode: atomic\n"), Ok(Vec::new()));
    assert_eq!(read_report("mode: atomic"), Ok(Vec::new()));
}

#[test]
fn a_location_is_listed_once() {
    let report = "a 1 1\nb 1 1\na 1 4\na 1 0\nb 2 2\n";
    assert_eq!(read_report(report), Ok(vec![String::from("a"), String::from("b")]));
}

#[test]
fn a_count_of_zero_or_below_covers_nothing() {
    assert_eq!(read_report("a 1 0\nb 1 -1\nc 1 -2147483648\nd 1 +0\ne 1 -0\n"), Ok(Vec::new()));
}

#[test]
fn a_count_may_carry_a_sign_and_zeros() {
    assert_eq!(
        sorted(read_report("a 1 +1\nb 1 0001\nc 1 2147483647\nd 1 00000000002147483647\n").unwrap()),
        vec!["a", "b", "c", "d"]
    );
}

#[test]
fn the_last_line_needs_no_line_feed() {
    assert_eq!(read_report("a 1 1\nb 1 1"), Ok(vec![String::from("a"), String::from("b")]));
    assert_eq!(read_report("a 1 1"), Ok(vec![String::from("a")]));
}

#[test]
fn a_carriage_return_before_the_line_feed_is_dropped() {
    assert_eq!(
        read_report("mode: set\r\na 1 1\r\nb 1 1\r\n"),
        Ok(vec![String::from("a"), String::from("b")])
    );
    assert_eq!(read_report("a 1 1\r"), Err(BadReport {}));
    assert_eq!(read_report("a 1 1\r\r\n"), Err(BadReport {}));
}

#[test]
fn fields_behind_the_third_are_ignored() {
    assert_eq!(read_report("a 1 1 rest of the line\n"), Ok(vec![String::from("a")]));
    assert_eq!(read_report("a nonsense 1\n"), Ok(vec![String::from("a")]));
    assert_eq!(read_report("a  1\n"), Ok(vec![String::from("a")]));
}

#[test]
fn a_header_is_any_line_that_begins_with_the_marker() {
    assert_eq!(read_report("mode\nmodest.go:1.1,2.2 1 1\nmode: set extra\n"), Ok(Vec::new()));
    assert_eq!(read_report(" mode: set\n"), Err(BadReport {}));
    assert_eq!(read_report("mod 1 1\n"), Ok(vec![String::from("mod")]));
}

#[test]
fn a_line_with_too_few_fields_spoils_the_report() {
    for report in ["a\n", "a 1\n", "\n", "a 1 1\n\nb 1 1\n", "a 1 1\n \n", "a 1 1\n  \n"] {
        assert_eq!(read_report(report), Err(BadReport {}), "{:?}", report);
    }
}

#[test]
fn a_count_that_is_no_number_spoils_the_report() {
    for count in ["", "x", "1x", "x1", "1.0", "+", "-", "+-1", "--1", "1 ", "2147483648",
        "-2147483649", "99999999999999999999999999", "0x10", "\u{661}"]
    {
        let report = format!("a 1 {}\n", count);
        let expected = if count == "1 " { Ok(vec![String::from("a")]) } else { Err(BadReport {}) };
        assert_eq!(read_report(&report), expected, "{:?}", count);
    }
}

#[test]
fn one_bad_line_spoils_an_otherwise_good_report() {
    assert_eq!(read_report("a 1 1\nb 1 one\nc 1 1\n"), Err(BadReport {}));
    assert_eq!(read_report("a 1 1\nb 1 1\nc\n"), Err(BadReport {}));
}

#[test]
fn locations_keep_their_characters() {
    assert_eq!(
        read_report("pfad/größe.go:1.1,2.2 1 1\n\u{1F600}\t:x 1 1\n"),
        Ok(vec![String::from("pfad/größe.go:1.1,2.2"), String::from("\u{1F600}\t:x")])
    );
    assert_eq!(read_report(" 1 1\n"), Ok(vec![String::new()]));
}

#[test]
fn read_number_reads_what_fits() {
    assert_eq!(read_number(&chars("0")), Some(0));
    assert_eq!(read_number(&chars("7")), Some(7));
    assert_eq!(read_number(&chars("42")), Some(42));
    assert_eq!(read_number(&chars("+42")), Some(42));
    assert_eq!(read_number(&chars("-42")), Some(-42));
    assert_eq!(read_number(&chars("007")), Some(7));
    assert_eq!(read_number(&chars("2147483647")), Some(2147483647));
    assert_eq!(read_number(&chars("-2147483648")), Some(-2147483648));
    assert_eq!(read_number(&chars("-0")), Some(0));
}

#[test]
fn read_number_rejects_the_rest() {
    for text in ["", "+", "-", "2147483648", "-2147483649", "12a", "a12", " 1", "1 ", "1_000",
        "٣", "4294967296", "18446744073709551616"]
    {
        assert_eq!(read_number(&chars(text)), None, "{:?}", text);
    }
}

#[test]
fn find_char_gives_the_first_place_or_the_length() {
    let text = chars("a b  c");
    assert_eq!(find_char(&text, 0, ' '), 1);
    assert_eq!(find_char(&text, 1, ' '), 1);
    assert_eq!(find_char(&text, 2, ' '), 3);
    assert_eq!(find_char(&text, 4, ' '), 4);
    assert_eq!(find_char(&text, 5, ' '), 6);
    assert_eq!(find_char(&text, 6, ' '), 6);
    assert_eq!(find_char(&text, 0, 'x'), 6);
    assert_eq!(find_char(&[], 0, 'x'), 0);
}

#[test]
fn chars_of_gives_every_character() {
    assert_eq!(chars_of("aß\u{1F600}\n"), vec!['a', 'ß', '\u{1F600}', '\n']);
    assert_eq!(chars_of(""), Vec::<char>::new());
}

#[test]
fn read_line_tells_headers_hits_and_misses_apart() {
    assert_eq!(read_line(&chars("mode: count")), Ok(None));
    assert_eq!(read_line(&chars("f.go:1.1,2.2 4 3")), Ok(Some(String::from("f.go:1.1,2.2"))));
    assert_eq!(read_line(&chars("f.go:1.1,2.2 4 0")), Ok(None));
    assert_eq!(read_line(&chars("f.go:1.1,2.2 4 -3")), Ok(None));
    assert_eq!(read_line(&chars("f.go:1.1,2.2 4")), Err(BadReport {}));
    assert_eq!(read_line(&chars("f.go:1.1,2.2 4 three")), Err(BadReport {}));
    assert_eq!(read_line(&chars("")), Err(BadReport {}));
}
