use warehouse_management_system_backend::repositories::like_pattern;
use warehouse_management_system_backend::text::{
    contains_str, i64_to_decimal, join, join_strs, keep_nonempty, parse_bool, parse_i64, parse_u16,
    parse_u32, parse_u64, parse_usize, split_fields, split_whitespace, starts_with, str_eq,
    text_after_last, trim_kind, u64_to_decimal, SplitKind, TrimKind,
};

#[test]
fn str_eq_compares_characters() {
    assert!(str_eq("ADMIN", "ADMIN"));
    assert!(!str_eq("ADMIN", "ADMIn"));
    assert!(!str_eq("ADMIN", "ADMINS"));
    assert!(str_eq("", ""));
    assert!(str_eq("gudang Ω", "gudang Ω"));
}

#[test]
fn decimal_rendering_matches_to_string() {
    for n in [0u64, 7, 10, 99, 100, 4294967296, u64::MAX] {
        assert_eq!(u64_to_decimal(n), n.to_string());
    }
    for n in [0i64, -1, 42, -9876543210, i64::MIN, i64::MAX] {
        assert_eq!(i64_to_decimal(n), n.to_string());
    }
}

#[test]
fn unsigned_parsing_follows_std() {
    assert_eq!(parse_u16("8080"), Some(8080));
    assert_eq!(parse_u16("+8080"), Some(8080));
    assert_eq!(parse_u16("65535"), Some(65535));
    assert_eq!(parse_u16("65536"), None);
    assert_eq!(parse_u16("-1"), None);
    assert_eq!(parse_u16("+"), None);
    assert_eq!(parse_u16(""), None);
    assert_eq!(parse_u16(" 80"), None);
    assert_eq!(parse_u16("80a"), None);
    assert_eq!(parse_u16("0008"), Some(8));
    assert_eq!(parse_u32("4294967295"), Some(u32::MAX));
    assert_eq!(parse_u32("4294967296"), None);
    assert_eq!(parse_u64("18446744073709551615"), Some(u64::MAX));
    assert_eq!(parse_u64("18446744073709551616"), None);
    assert_eq!(parse_u64("99999999999999999999999"), None);
    assert_eq!(parse_usize("32"), Some(32));
    for s in ["0", "1", "+12", "12x", "", "300000", "٣"] {
        assert_eq!(parse_u16(s), s.parse::<u16>().ok(), "input {:?}", s);
        assert_eq!(parse_u64(s), s.parse::<u64>().ok(), "input {:?}", s);
    }
}

#[test]
fn signed_parsing_follows_std() {
    assert_eq!(parse_i64("604800"), Some(604800));
    assert_eq!(parse_i64("-5"), Some(-5));
    assert_eq!(parse_i64("+5"), Some(5));
    assert_eq!(parse_i64("-9223372036854775808"), Some(i64::MIN));
    assert_eq!(parse_i64("9223372036854775807"), Some(i64::MAX));
    assert_eq!(parse_i64("9223372036854775808"), None);
    assert_eq!(parse_i64("-9223372036854775809"), None);
    assert_eq!(parse_i64("-"), None);
    assert_eq!(parse_i64("--1"), None);
    for s in ["12", "-0", "+-1", "1e3", "", "007"] {
        assert_eq!(parse_i64(s), s.parse::<i64>().ok(), "input {:?}", s);
    }
}

#[test]
fn bool_parsing_is_exact() {
    assert_eq!(parse_bool("true"), Some(true));
    assert_eq!(parse_bool("false"), Some(false));
    assert_eq!(parse_bool("True"), None);
    assert_eq!(parse_bool("1"), None);
    assert_eq!(parse_bool(""), None);
}

#[test]
fn trimming_quotes_and_whitespace() {
    assert_eq!(trim_kind("\"refresh\"", TrimKind::Quote), "refresh");
    assert_eq!(trim_kind("\"\"a\"b\"\"", TrimKind::Quote), "a\"b");
    assert_eq!(trim_kind("\"\"\"", TrimKind::Quote), "");
    assert_eq!(trim_kind("plain", TrimKind::Quote), "plain");
    assert_eq!(trim_kind("  http://a.com \t", TrimKind::Whitespace), "http://a.com");
    assert_eq!(trim_kind("\u{3000}x\u{a0}", TrimKind::Whitespace), "x");
    assert_eq!(trim_kind("   ", TrimKind::Whitespace), "");
}

#[test]
fn splitting_on_commas_keeps_empty_fields() {
    assert_eq!(split_fields("a,,b,", SplitKind::Comma), vec!["a", "", "b", ""]);
    assert_eq!(split_fields("", SplitKind::Comma), vec![""]);
    let expected: Vec<String> = "x, y ,z".split(',').map(|s| s.to_string()).collect();
    assert_eq!(split_fields("x, y ,z", SplitKind::Comma), expected);
}

#[test]
fn splitting_on_whitespace_gives_words() {
    assert_eq!(split_whitespace("  gudang   utama\tjakarta \n"), vec!["gudang", "utama", "jakarta"]);
    assert!(split_whitespace("   ").is_empty());
    assert!(split_whitespace("").is_empty());
    let s = "a\u{2003}b  c";
    let expected: Vec<String> = s.split_whitespace().map(|w| w.to_string()).collect();
    assert_eq!(split_whitespace(s), expected);
}

#[test]
fn keep_nonempty_drops_empty_strings_in_order() {
    let v = vec!["".to_string(), "a".to_string(), "".to_string(), "b".to_string()];
    assert_eq!(keep_nonempty(v), vec!["a", "b"]);
}

#[test]
fn joining() {
    let parts = vec!["a".to_string(), "b".to_string(), "c".to_string()];
    assert_eq!(join(&parts, ", "), "a, b, c");
    assert_eq!(join(&Vec::new(), ", "), "");
    assert_eq!(join_strs(&["jpg", "png"], ", "), "jpg, png");
    assert_eq!(join_strs(&["only"], "&"), "only");
}

#[test]
fn membership_and_prefix() {
    assert!(contains_str(&["image/jpeg", "image/png"], "image/png"));
    assert!(!contains_str(&["image/jpeg", "image/png"], "image/gif"));
    assert!(!contains_str(&[], "x"));
    assert!(starts_with("Bearer abc", "Bearer "));
    assert!(!starts_with("Bear", "Bearer "));
    assert!(starts_with("x", ""));
}

#[test]
fn text_after_last_dot() {
    assert_eq!(text_after_last("photo.final.JPG", '.'), "JPG");
    assert_eq!(text_after_last("noext", '.'), "noext");
    assert_eq!(text_after_last("trailing.", '.'), "");
    assert_eq!(text_after_last("", '.'), "");
}

#[test]
fn lowercase_wrapper_changes_its_argument() {
    assert_eq!(like_pattern(Some("ASC")), Some("%asc%".to_string()));
    assert_eq!(like_pattern(Some("ŞEHİR")), Some(format!("%{}%", "ŞEHİR".to_lowercase())));
    assert_ne!(like_pattern(Some("ABC")), Some("%ABC%".to_string()));
}

#[test]
fn push_char_appends() {
    assert_eq!(u64_to_decimal(907), "907");
    assert_eq!(i64_to_decimal(-12), "-12");
}

#[test]
fn whitespace_set_matches_std() {
    let mut text = String::new();
    for u in 0u32..0x3100 {
        if let Some(c) = char::from_u32(u) {
            text.push('x');
            text.push(c);
        }
    }
    let expected: Vec<String> = text.split_whitespace().map(|w| w.to_string()).collect();
    assert_eq!(split_whitespace(&text), expected);
}
