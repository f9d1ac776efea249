use fruityger::strutil::{i64_to_string, replace_char, replace_pair, str_ends_with, str_eq,
    strip_char, to_hex_lower, u64_to_string};

#[test]
fn decimal_strings() {
    assert_eq!(u64_to_string(0), "0");
    assert_eq!(u64_to_string(7), "7");
    assert_eq!(u64_to_string(1234567890123456789), "1234567890123456789");
    assert_eq!(u64_to_string(u64::MAX), "18446744073709551615");
}

#[test]
fn signed_decimal_strings() {
    assert_eq!(i64_to_string(0), "0");
    assert_eq!(i64_to_string(-42), "-42");
    assert_eq!(i64_to_string(1700000000), "1700000000");
    assert_eq!(i64_to_string(i64::MIN), "-9223372036854775808");
}

#[test]
fn string_equality_is_by_characters() {
    assert!(str_eq("abc", "abc"));
    assert!(!str_eq("abc", "abd"));
    assert!(!str_eq("abc", "ab"));
    assert!(str_eq("", ""));
    assert!(str_eq("naïve", "naïve"));
}

#[test]
fn suffix_test() {
    assert!(str_ends_with("song.flac", ".flac"));
    assert!(!str_ends_with("song.flacx", ".flac"));
    assert!(!str_ends_with("ac", ".flac"));
    assert!(str_ends_with("x", ""));
}

#[test]
fn character_replacement() {
    assert_eq!(replace_char("ab-cd-", '-', '/'), "ab/cd/");
    assert_eq!(replace_char("", '-', '/'), "");
    assert_eq!(replace_char("nodash", '-', '/'), "nodash");
}

#[test]
fn character_stripping() {
    assert_eq!(strip_char("flac,flac-mp4,aac,aac-mp4,mp3", ','), "flacflac-mp4aacaac-mp4mp3");
    assert_eq!(strip_char("raw", ','), "raw");
    assert_eq!(strip_char(",,,", ','), "");
}

#[test]
fn pair_replacement_scans_left_to_right() {
    assert_eq!(replace_pair("400x400%%", '%', '%', "orig"), "400x400orig");
    assert_eq!(replace_pair("a%%b%%%c", '%', '%', "orig"), "aorigborig%c");
    assert_eq!(replace_pair("%", '%', '%', "orig"), "%");
    assert_eq!(replace_pair("", '%', '%', "orig"), "");
}

#[test]
fn hex_encoding_is_lower_case() {
    assert_eq!(to_hex_lower(&vec![0xbe, 0xef]), "beef");
    assert_eq!(to_hex_lower(&vec![0x00, 0x0f, 0xa0]), "000fa0");
    assert_eq!(to_hex_lower(&Vec::new()), "");
}
