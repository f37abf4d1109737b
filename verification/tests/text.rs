use reth_bench_compare::paths::join;
use reth_bench_compare::text::{
    characters, decimal_text, is_white_space, signed_decimal_text, split_whitespace, trim,
};

const SAMPLES: [&str; 9] = [
    "",
    "   ",
    "word",
    "  two words\t",
    "\u{a0}non\u{a0}breaking\u{2003}space\u{3000}",
    "line\nbreak\r\nand tab\t",
    "\u{1f980} crab \u{e9}t\u{e9}",
    "zero\u{200b}width",
    " \u{85}\u{2028}\u{2029}\u{202f}\u{205f}\u{1680}x",
];

#[test]
fn white_space_agrees_with_the_standard_library_on_every_character() {
    for c in (0..=0x10ffffu32).filter_map(char::from_u32) {
        assert_eq!(is_white_space(c), c.is_whitespace(), "{:?}", c);
    }
}

#[test]
fn splitting_agrees_with_the_standard_library() {
    for s in SAMPLES {
        let expected: Vec<String> = s.split_whitespace().map(|w| w.to_string()).collect();
        assert_eq!(split_whitespace(s), expected, "{:?}", s);
    }
}

#[test]
fn words_are_all_of_the_text_but_its_whitespace() {
    let words = split_whitespace("  two words\t and  more ");
    assert_eq!(words, vec!["two", "words", "and", "more"]);
    assert_eq!(words.concat(), "twowordsandmore");
    for word in &words {
        assert!(!word.is_empty());
        assert!(!word.chars().any(is_white_space));
    }
}

#[test]
fn trimming_agrees_with_the_standard_library() {
    for s in SAMPLES {
        assert_eq!(trim(s), s.trim(), "{:?}", s);
    }
}

#[test]
fn trimming_keeps_inner_whitespace() {
    assert_eq!(trim("\n a  b \t"), "a  b");
    assert_eq!(trim(" \n\t "), "");
}

#[test]
fn characters_are_listed_in_order() {
    assert_eq!(characters("a\u{1f980}b"), vec!['a', '\u{1f980}', 'b']);
    assert_eq!(characters(""), Vec::<char>::new());
}

#[test]
fn decimals_have_no_leading_zeros() {
    assert_eq!(decimal_text(0), "0");
    assert_eq!(decimal_text(9), "9");
    assert_eq!(decimal_text(10), "10");
    assert_eq!(decimal_text(3000), "3000");
    assert_eq!(decimal_text(u64::MAX), "18446744073709551615");
}

#[test]
fn signed_decimals_cover_the_whole_range() {
    assert_eq!(signed_decimal_text(0), "0");
    assert_eq!(signed_decimal_text(101), "101");
    assert_eq!(signed_decimal_text(-1), "-1");
    assert_eq!(signed_decimal_text(i32::MIN), "-2147483648");
    assert_eq!(signed_decimal_text(i32::MAX), "2147483647");
}

#[test]
fn joining_agrees_with_the_standard_library() {
    for base in ["", "/", "a", "a/", "/a/b", "./out", "with space", "~"] {
        for name in ["jwt.hex", "profiles", "x/y"] {
            let expected = std::path::Path::new(base).join(name);
            assert_eq!(join(base, name), expected.to_string_lossy());
        }
    }
}
