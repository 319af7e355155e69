use hydra_umc_twin::text::{
    chars_eq, chars_of, find_char, parse_u32_chars, push_decimal, slice_chars,
    split_chars, split_once_chars, str_eq, string_of_chars,
};

fn v(s: &str) -> Vec<char> {
    s.chars().collect()
}

#[test]
fn split_matches_std_split() {
    for s in ["", "a", "a.b.c", ".", "..", "a..b", ".a.", "é.ü"] {
        let ours: Vec<String> = split_chars(&v(s), '.')
            .iter()
            .map(|p| p.iter().collect())
            .collect();
        let std: Vec<String> = s.split('.').map(|p| p.to_string()).collect();
        assert_eq!(ours, std, "splitting {s:?}");
    }
}

#[test]
fn split_once_matches_std_split_once() {
    for s in ["", "a", "a=b", "=b", "a=", "a=b=c"] {
        let ours = split_once_chars(&v(s), '=')
            .map(|(a, b)| (a.iter().collect::<String>(), b.iter().collect::<String>()));
        let std = s.split_once('=').map(|(a, b)| (a.to_string(), b.to_string()));
        assert_eq!(ours, std, "split_once {s:?}");
    }
}

#[test]
fn parse_matches_std_u32_parse() {
    for s in [
        "", "0", "7", "007", "+5", "+", "-1", "42", "4294967295", "4294967296", "99999999999",
        "1a", " 1", "١",
    ] {
        assert_eq!(parse_u32_chars(&v(s)), s.parse::<u32>().ok(), "parsing {s:?}");
    }
}

#[test]
fn decimal_matches_display() {
    for n in [0u64, 1, 9, 10, 99, 100, 4294967295, u64::MAX] {
        let mut out = String::from("n=");
        push_decimal(&mut out, n);
        assert_eq!(out, format!("n={n}"));
    }
}

#[test]
fn character_helpers() {
    assert_eq!(chars_of("héllo"), v("héllo"));
    assert!(str_eq("abc", "abc"));
    assert!(!str_eq("abc", "abd"));
    assert!(!str_eq("abc", "ab"));
    assert!(chars_eq(&v("x"), &v("x")));
    assert_eq!(find_char(&v("ab?c?"), '?'), 2);
    assert_eq!(find_char(&v("abc"), '?'), 3);
    assert_eq!(slice_chars(&v("abcdef"), 1, 4), v("bcd"));
    assert_eq!(string_of_chars(&v("ünï")), "ünï");
}
