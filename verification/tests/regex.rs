use smelt_remote::convert::to_nbytes;
use smelt_remote::regex_parts::{
    alfanumeric, alphabetic, any_of, digit, escape_special_characters, exactly, RegExp, RegexPart,
};

#[test]
fn special_characters_are_escaped() {
    assert_eq!(escape_special_characters("a.b"), "a\\.b");
    assert_eq!(escape_special_characters(".+*?^$()[]{}|\\"), "\\.\\+\\*\\?\\^\\$\\(\\)\\[\\]\\{\\}\\|\\\\");
    assert_eq!(escape_special_characters("plain text_1-2"), "plain text_1-2");
    assert_eq!(escape_special_characters(""), "");
    assert_eq!(escape_special_characters("caf\u{e9}?"), "caf\u{e9}\\?");
}

#[test]
fn parts_combine_as_text() {
    let a = RegexPart::new("a");
    let b = RegexPart::new("b+");
    assert_eq!(a.pattern, "a");
    assert_eq!(a.times(3).pattern, "(a){3}");
    assert_eq!(a.times(0).pattern, "(a){0}");
    assert_eq!(a.times(120).pattern, "(a){120}");
    assert_eq!(a.grouped_as("first").pattern, "(?P<first>a)");
    assert_eq!(a.and(&b).pattern, "ab+");
    assert_eq!(a.digit().pattern, "a\\d");
    assert_eq!(a.any_of(vec![a.clone(), b.clone()]).pattern, "(?:a|b+)");
    assert_eq!(a.any_of(Vec::new()).pattern, "(?:)");
    assert_eq!(a.exactly(vec![b.clone(), a.clone()]).pattern, "ab+a");
    assert_eq!(a.any_character().pattern, ".");
    assert_eq!(b.infinity().pattern, "(?:b+)+");
}

#[test]
fn free_parts() {
    assert_eq!(digit().pattern, "\\d");
    assert_eq!(exactly("1+1").pattern, "1\\+1");
    assert_eq!(any_of(vec![RegexPart::new("x"), RegexPart::new("y"), RegexPart::new("z")]).pattern, "(x|y|z)");
    assert_eq!(any_of(vec![RegexPart::new("x")]).pattern, "(x)");
    assert_eq!(alfanumeric().pattern, "\\w");
    assert_eq!(alphabetic().pattern, "([a-zA-Z])");
}

#[test]
fn expressions_concatenate_their_parts() {
    let exp = RegExp::new(vec![exactly("v"), digit(), RegexPart::new("+")]);
    assert_eq!(exp.pattern, "v\\d+");
    assert_eq!(exp.compile(), "v\\d+");
    assert_eq!(RegExp::new(Vec::new()).compile(), "");
}

#[test]
fn byte_sizes() {
    assert_eq!(to_nbytes::<u8>(5), 5);
    assert_eq!(to_nbytes::<u32>(3), 12);
    assert_eq!(to_nbytes::<u64>(0), 0);
    assert_eq!(to_nbytes::<(u64, u64)>(2), 32);
}
