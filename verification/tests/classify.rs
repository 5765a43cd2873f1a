use clipboard_history::content::{classify_chars, ContentType};
use clipboard_history::event::ClipboardEvent;
use clipboard_history::text::{
    chars_of, contains_char, contains_run, decimal_text, matches_at, same_chars, starts_with,
};

#[test]
fn web_address_is_url() {
    assert_eq!(ClipboardEvent::detect_content_type("https://x"), ContentType::Url);
    assert_eq!(ClipboardEvent::detect_content_type("http://example.org/a?b=c"), ContentType::Url);
    assert_eq!(ClipboardEvent::detect_content_type("http://"), ContentType::Url);
}

#[test]
fn function_keyword_is_code() {
    assert_eq!(ClipboardEvent::detect_content_type("fn main(){}"), ContentType::Code);
    assert_eq!(ClipboardEvent::detect_content_type("pub fn f"), ContentType::Code);
    assert_eq!(ClipboardEvent::detect_content_type("a function of x"), ContentType::Code);
}

#[test]
fn plain_words_are_text() {
    assert_eq!(ClipboardEvent::detect_content_type("hello"), ContentType::Text);
    assert_eq!(ClipboardEvent::detect_content_type(""), ContentType::Text);
    assert_eq!(ClipboardEvent::detect_content_type("fn"), ContentType::Text);
    assert_eq!(ClipboardEvent::detect_content_type("functio n"), ContentType::Text);
}

#[test]
fn braces_alone_are_code() {
    assert_eq!(ClipboardEvent::detect_content_type("{}"), ContentType::Code);
    assert_eq!(ClipboardEvent::detect_content_type("} and {"), ContentType::Code);
}

#[test]
fn one_brace_is_not_code() {
    assert_eq!(ClipboardEvent::detect_content_type("{ only"), ContentType::Text);
    assert_eq!(ClipboardEvent::detect_content_type("only }"), ContentType::Text);
}

#[test]
fn url_rule_comes_first() {
    assert_eq!(ClipboardEvent::detect_content_type("https://x/{y}"), ContentType::Url);
    assert_eq!(ClipboardEvent::detect_content_type("http://fn function"), ContentType::Url);
}

#[test]
fn scheme_must_be_a_prefix() {
    assert_eq!(ClipboardEvent::detect_content_type(" https://x"), ContentType::Text);
    assert_eq!(ClipboardEvent::detect_content_type("see http://x"), ContentType::Text);
    assert_eq!(ClipboardEvent::detect_content_type("HTTP://x"), ContentType::Text);
    assert_eq!(ClipboardEvent::detect_content_type("https:/"), ContentType::Text);
}

#[test]
fn text_outside_ascii_is_accepted() {
    assert_eq!(ClipboardEvent::detect_content_type("剪贴板"), ContentType::Text);
    assert_eq!(ClipboardEvent::detect_content_type("剪{贴}板"), ContentType::Code);
    assert_eq!(ClipboardEvent::detect_content_type("https://例え.jp"), ContentType::Url);
    assert_eq!(ClipboardEvent::detect_content_type("é fn é"), ContentType::Code);
}

#[test]
fn classify_chars_agrees_with_detect() {
    let chars: Vec<char> = "let f = function() {}".chars().collect();
    assert_eq!(classify_chars(&chars), ContentType::Code);
    let none: Vec<char> = Vec::new();
    assert_eq!(classify_chars(&none), ContentType::Text);
}

#[test]
fn kind_names_are_the_stored_tags() {
    assert_eq!(ContentType::Text.name(), "Text");
    assert_eq!(ContentType::Url.name(), "Url");
    assert_eq!(ContentType::Code.name(), "Code");
}

#[test]
fn kind_is_read_back_from_its_name() {
    assert_eq!(ContentType::from_name("Text"), Some(ContentType::Text));
    assert_eq!(ContentType::from_name("Url"), Some(ContentType::Url));
    assert_eq!(ContentType::from_name("Code"), Some(ContentType::Code));
    assert_eq!(ContentType::from_name("text"), None);
    assert_eq!(ContentType::from_name(""), None);
    assert_eq!(ContentType::from_name("Codes"), None);
    for kind in [ContentType::Text, ContentType::Url, ContentType::Code] {
        assert_eq!(ContentType::from_name(kind.name()), Some(kind));
    }
}

#[test]
fn chars_of_keeps_every_character() {
    assert_eq!(chars_of("aé板"), vec!['a', 'é', '板']);
    assert_eq!(chars_of(""), Vec::<char>::new());
}

#[test]
fn prefix_and_run_search() {
    let s = chars_of("abcabd");
    assert!(starts_with(&s, &chars_of("abc")));
    assert!(starts_with(&s, &chars_of("")));
    assert!(!starts_with(&s, &chars_of("bc")));
    assert!(!starts_with(&chars_of("ab"), &chars_of("abc")));
    assert!(contains_run(&s, &chars_of("abd")));
    assert!(contains_run(&s, &chars_of("")));
    assert!(contains_run(&s, &chars_of("abcabd")));
    assert!(!contains_run(&s, &chars_of("abcabda")));
    assert!(!contains_run(&s, &chars_of("ca d")));
    assert!(matches_at(&s, &chars_of("cab"), 2));
    assert!(!matches_at(&s, &chars_of("cab"), 3));
    assert!(!matches_at(&s, &chars_of("d"), 6));
    assert!(matches_at(&s, &chars_of(""), 6));
    assert!(!matches_at(&s, &chars_of(""), 7));
    assert!(contains_char(&s, 'd'));
    assert!(!contains_char(&s, 'e'));
    assert!(same_chars(&s, &chars_of("abcabd")));
    assert!(!same_chars(&s, &chars_of("abcabc")));
    assert!(!same_chars(&s, &chars_of("abcab")));
}

#[test]
fn decimal_numerals() {
    assert_eq!(decimal_text(0), "0");
    assert_eq!(decimal_text(7), "7");
    assert_eq!(decimal_text(10), "10");
    assert_eq!(decimal_text(1234567890), "1234567890");
    assert_eq!(decimal_text(u64::MAX as u128), "18446744073709551615");
    assert_eq!(decimal_text(u128::MAX), "340282366920938463463374607431768211455");
}
