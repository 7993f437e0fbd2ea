use hdc_rs::text::{
    chars_of, contains_text, find_char, find_in, has_prefix, is_white_space, parse_number,
    push_chars, push_decimal, split_lines, string_of, trim_range,
};

fn chars(s: &str) -> Vec<char> {
    s.chars().collect()
}

#[test]
fn chars_of_gives_the_characters_in_order() {
    assert_eq!(chars_of(""), Vec::<char>::new());
    assert_eq!(chars_of("abc"), vec!['a', 'b', 'c']);
    assert_eq!(chars_of("é中\u{1f600}"), vec!['é', '中', '\u{1f600}']);
}

#[test]
fn string_of_takes_a_range_of_characters() {
    let c = chars("héllo wörld");
    assert_eq!(string_of(&c, 0, c.len()), "héllo wörld");
    assert_eq!(string_of(&c, 1, 5), "éllo");
    assert_eq!(string_of(&c, 4, 4), "");
    let mut out = String::from("> ");
    push_chars(&mut out, &c, 6, 11);
    assert_eq!(out, "> wörld");
}

#[test]
fn push_decimal_writes_the_shortest_numeral() {
    for (n, text) in [
        (0u64, "0"),
        (7, "7"),
        (9, "9"),
        (10, "10"),
        (99, "99"),
        (100, "100"),
        (8080, "8080"),
        (523264, "523264"),
        (4294967295, "4294967295"),
        (18446744073709551615, "18446744073709551615"),
    ] {
        let mut out = String::from("n=");
        push_decimal(&mut out, n);
        assert_eq!(out, format!("n={}", text));
        assert_eq!(out, format!("n={}", n));
    }
}

#[test]
fn parse_number_agrees_with_the_standard_parser() {
    let inputs = [
        "", "0", "1", "9", "10", "007", "+7", "+", "-7", "++7", "7+", " 7", "7 ", "65535",
        "65536", "4294967295", "4294967296", "99999999999999999999", "0000000000000000000000001",
        "1a", "a1", "１２", "+0", "1_000", "0x10",
    ];
    for input in inputs {
        let c = chars(input);
        assert_eq!(parse_number(&c, 0, c.len(), u32::MAX), input.parse::<u32>().ok(), "{:?}", input);
        assert_eq!(
            parse_number(&c, 0, c.len(), 65535),
            input.parse::<u16>().ok().map(u32::from),
            "{:?}",
            input
        );
    }
    let c = chars("ab123cd");
    assert_eq!(parse_number(&c, 2, 5, 1000), Some(123));
    assert_eq!(parse_number(&c, 2, 5, 122), None);
    assert_eq!(parse_number(&c, 2, 5, 123), Some(123));
    assert_eq!(parse_number(&c, 2, 2, 1000), None);
    assert_eq!(parse_number(&c, 1, 5, 1000), None);
}

#[test]
fn find_char_gives_the_first_position() {
    let c = chars("a@b@c");
    assert_eq!(find_char(&c, 0, 5, '@'), 1);
    assert_eq!(find_char(&c, 2, 5, '@'), 3);
    assert_eq!(find_char(&c, 4, 5, '@'), 5);
    assert_eq!(find_char(&c, 0, 1, '@'), 1);
    assert_eq!(find_char(&c, 1, 5, '@'), 1);
    assert_eq!(find_char(&c, 3, 3, '@'), 3);
}

#[test]
fn has_prefix_compares_the_start() {
    let c = chars("tcp:8080");
    assert!(has_prefix(&c, 0, 8, "tcp:"));
    assert!(has_prefix(&c, 0, 8, ""));
    assert!(has_prefix(&c, 0, 8, "tcp:8080"));
    assert!(!has_prefix(&c, 0, 8, "tcp:80800"));
    assert!(!has_prefix(&c, 0, 3, "tcp:"));
    assert!(!has_prefix(&c, 0, 8, "udp:"));
    assert!(has_prefix(&c, 4, 8, "80"));
    assert!(!has_prefix(&c, 4, 8, "tcp:"));
}

#[test]
fn white_space_is_what_the_standard_library_says() {
    for code in 0..=0x10ffffu32 {
        if let Some(c) = char::from_u32(code) {
            assert_eq!(is_white_space(c), c.is_whitespace(), "U+{:04X}", code);
        }
    }
}

#[test]
fn trim_range_agrees_with_trim() {
    let inputs = [
        "", " ", "   ", "a", " a", "a ", "  a b  ", "\t\r\n x \u{3000}", "\u{a0}x\u{85}",
        "x\u{200b}", "\r", "a\rb", "\u{2028}\u{2029}",
    ];
    for input in inputs {
        let c = chars(input);
        let (a, b) = trim_range(&c, 0, c.len());
        assert_eq!(string_of(&c, a, b), input.trim(), "{:?}", input);
    }
    let c = chars("ab  cd  ef");
    assert_eq!(trim_range(&c, 2, 8), (4, 6));
    assert_eq!(trim_range(&c, 2, 4), (4, 4));
}

fn standard_lines(s: &str) -> Vec<String> {
    s.lines()
        .map(|line| line.trim())
        .filter(|line| !line.is_empty())
        .map(|line| line.to_string())
        .collect()
}

#[test]
fn split_lines_agrees_with_the_standard_library() {
    let inputs = [
        "",
        "\n",
        "\n\n\n",
        "A",
        "A\n",
        "A\nB",
        "A\nB\n",
        "A\r\nB\r\n",
        "  A  \n\n  \n\tB\t\n",
        "A\rB\nC",
        "\r\n",
        "FMR0223C13000649\n127.0.0.1:5555\n",
        "[Empty]",
        "a b\nc d\n",
        "\u{3000}x\u{3000}\n\u{a0}\n",
        "x\n\r",
        "last line without end",
    ];
    for input in inputs {
        assert_eq!(split_lines(input), standard_lines(input), "{:?}", input);
    }
    assert_eq!(split_lines("A\nB\n"), vec!["A".to_string(), "B".to_string()]);
    assert_eq!(split_lines(" \n \n"), Vec::<String>::new());
}

#[test]
fn contains_text_agrees_with_contains() {
    let hays = ["", "a", "Success", "install Success!", "Succes", "xxfailyy", "[Fail]", "aaab", "abab"];
    let needles = ["", "a", "b", "ab", "aab", "Success", "success", "Fail", "fail", "[Fail]", "abab", "ababa"];
    for hay in hays {
        for needle in needles {
            let c = chars(hay);
            assert_eq!(contains_text(&c, needle), hay.contains(needle), "{:?} in {:?}", needle, hay);
        }
    }
}

#[test]
fn find_in_agrees_with_find() {
    let hays = ["", "is ", "this is it", "Wait for connected target is dev is x", "isis is", "aaa"];
    let needles = ["is ", "a", "aa", "", "x", "is it"];
    for hay in hays {
        for needle in needles {
            let c = chars(hay);
            let n = chars(needle);
            assert_eq!(find_in(&c, 0, c.len(), &n), hay.find(needle), "{:?} in {:?}", needle, hay);
        }
    }
    let c = chars("abcabc");
    let n = chars("abc");
    assert_eq!(find_in(&c, 1, 6, &n), Some(2));
    assert_eq!(find_in(&c, 1, 5, &n), None);
    assert_eq!(find_in(&c, 4, 6, &n), None);
}
