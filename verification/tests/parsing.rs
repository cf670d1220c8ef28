use command_bot::parser::{parse, split_words, starts_with, ParsedInvocation};
use command_bot::text::{chars_of, contains_text, is_space_char, str_eq};

fn strings(items: &[&str]) -> Vec<String> {
    items.iter().map(|s| s.to_string()).collect()
}

fn invocation(name: &str, args: &[&str]) -> Option<ParsedInvocation> {
    Some(ParsedInvocation { command_name: name.to_string(), raw_args: strings(args) })
}

#[test]
fn parse_command_without_arguments() {
    assert_eq!(parse("~ping", "~"), invocation("ping", &[]));
}

#[test]
fn parse_command_with_arguments_in_order() {
    assert_eq!(parse("~multiply 3 4", "~"), invocation("multiply", &["3", "4"]));
    assert_eq!(parse("~restart_app app1", "~"), invocation("restart_app", &["app1"]));
}

#[test]
fn parse_message_without_prefix_is_no_command() {
    assert_eq!(parse("ping", "~"), None);
    assert_eq!(parse("hello ~ping", "~"), None);
    assert_eq!(parse(" ~ping", "~"), None);
}

#[test]
fn parse_empty_message_is_no_command() {
    assert_eq!(parse("", "~"), None);
}

#[test]
fn parse_prefix_alone_is_no_command() {
    assert_eq!(parse("~", "~"), None);
    assert_eq!(parse("~   ", "~"), None);
    assert_eq!(parse("~\t\n", "~"), None);
}

#[test]
fn parse_keeps_the_case_of_the_name() {
    assert_eq!(parse("~Ping", "~"), invocation("Ping", &[]));
}

#[test]
fn parse_skips_white_space_after_the_prefix() {
    assert_eq!(parse("~ ping", "~"), invocation("ping", &[]));
}

#[test]
fn parse_takes_any_run_of_white_space_as_one_separator() {
    assert_eq!(parse("~multiply   3\t\t4  ", "~"), invocation("multiply", &["3", "4"]));
    assert_eq!(parse("~multiply\n3\u{3000}4", "~"), invocation("multiply", &["3", "4"]));
}

#[test]
fn parse_has_no_quoting() {
    assert_eq!(parse("~get_app \"my app\"", "~"), invocation("get_app", &["\"my", "app\""]));
}

#[test]
fn parse_with_a_longer_prefix() {
    assert_eq!(parse("bot!ping now", "bot!"), invocation("ping", &["now"]));
    assert_eq!(parse("bot", "bot!"), None);
    assert_eq!(parse("bo!ping", "bot!"), None);
}

#[test]
fn parse_text_that_is_not_ascii() {
    assert_eq!(parse("~grüße wörld ✓", "~"), invocation("grüße", &["wörld", "✓"]));
    assert_eq!(parse("→ping é", "→"), invocation("ping", &["é"]));
}

#[test]
fn split_words_agrees_with_std() {
    let samples = [
        "",
        " ",
        "a",
        " a",
        "a ",
        "a b",
        "  a   b  ",
        "one\ttwo\nthree\r\nfour",
        "x\u{a0}y\u{2003}z\u{85}w",
        "é ü  ✓",
        "\u{1680}\u{2028}\u{2029}\u{202f}\u{205f}",
    ];
    for sample in samples {
        let expected: Vec<String> = sample.split_whitespace().map(|w| w.to_string()).collect();
        assert_eq!(split_words(sample), expected, "sample {:?}", sample);
    }
}

#[test]
fn is_space_char_agrees_with_std_on_every_char() {
    for code in 0u32..=0x10FFFF {
        if let Some(c) = char::from_u32(code) {
            assert_eq!(is_space_char(c), c.is_whitespace(), "code point {:#x}", code);
        }
    }
}

#[test]
fn starts_with_compares_characters() {
    let body: Vec<char> = "~ping".chars().collect();
    let tilde: Vec<char> = "~".chars().collect();
    let bang: Vec<char> = "!".chars().collect();
    let long: Vec<char> = "~ping!".chars().collect();
    let empty: Vec<char> = Vec::new();
    assert!(starts_with(&body, &tilde));
    assert!(starts_with(&body, &empty));
    assert!(starts_with(&body, &body));
    assert!(!starts_with(&body, &bang));
    assert!(!starts_with(&body, &long));
    assert!(!starts_with(&empty, &tilde));
}

#[test]
fn chars_of_gives_the_characters() {
    assert_eq!(chars_of("a✓b"), vec!['a', '✓', 'b']);
    assert_eq!(chars_of(""), Vec::<char>::new());
}

#[test]
fn str_eq_is_exact() {
    assert!(str_eq("", ""));
    assert!(str_eq("ping", "ping"));
    assert!(!str_eq("ping", "Ping"));
    assert!(!str_eq("ping", "pin"));
    assert!(!str_eq("pin", "ping"));
    assert!(!str_eq("é", "e"));
}

#[test]
fn contains_text_finds_exact_entries() {
    let list = strings(&["12345", "678"]);
    assert!(contains_text(&list, "12345"));
    assert!(contains_text(&list, "678"));
    assert!(!contains_text(&list, "1234"));
    assert!(!contains_text(&list, ""));
    assert!(!contains_text(&Vec::new(), "12345"));
}
