use std::collections::hash_map::DefaultHasher;
use std::hash::{Hash, Hasher};
use local_ai_harness::cache::{cache_file_name, cache_file_name_of};
use local_ai_harness::clock::{millis_to_u64, now_ms};
use local_ai_harness::text::{
    after_comma, chars_of, join, prefix_chars, push_decimal, push_hexadecimal, string_from, trim,
};

#[test]
fn trim_removes_unicode_whitespace() {
    assert_eq!(trim("  a b \n"), "a b");
    assert_eq!(trim("\u{3000}가나\t\r"), "가나");
    assert_eq!(trim(" \n\t "), "");
    assert_eq!(trim("x"), "x");
    assert_eq!(trim(""), "");
}

#[test]
fn chars_and_strings() {
    let v = chars_of("한a글");
    assert_eq!(v, vec!['한', 'a', '글']);
    assert_eq!(string_from(&v, 1, 3), "a글");
}

#[test]
fn numerals() {
    let mut s = String::from("n=");
    push_decimal(&mut s, 0);
    assert_eq!(s, "n=0");
    let mut s = String::new();
    push_decimal(&mut s, 1234567890123);
    assert_eq!(s, "1234567890123");
    let mut h = String::new();
    push_hexadecimal(&mut h, 0xdead_beef);
    assert_eq!(h, "deadbeef");
    let mut h = String::new();
    push_hexadecimal(&mut h, u64::MAX);
    assert_eq!(h, format!("{:x}", u64::MAX));
}

#[test]
fn prefix_of_sixty_chars() {
    let long: String = "가".repeat(70);
    assert_eq!(prefix_chars(&long, 60), "가".repeat(60));
    assert_eq!(prefix_chars("short", 60), "short");
}

#[test]
fn text_after_last_comma() {
    assert_eq!(after_comma("data:image/png;base64,QUJD"), "QUJD");
    assert_eq!(after_comma("QUJD"), "QUJD");
    assert_eq!(after_comma("a,b,c"), "c");
    assert_eq!(after_comma("a,"), "");
    assert!(!after_comma("x,y,,z").contains(','));
}

#[test]
fn join_with_separator() {
    let parts = vec!["a".to_string(), "b".to_string(), "c".to_string()];
    assert_eq!(join(&parts, "--"), "a--b--c");
    assert_eq!(join(&vec![], "--"), "");
    assert_eq!(join(&vec!["x".to_string()], "--"), "x");
}

#[test]
fn cache_names() {
    assert_eq!(cache_file_name_of(255), "ff.txt");
    assert_eq!(cache_file_name_of(0), "0.txt");
    let a = cache_file_name("m", "p");
    assert_eq!(a, cache_file_name("m", "p"));
    assert!(a.ends_with(".txt"));
    assert!(a.trim_end_matches(".txt").chars().all(|c| c.is_ascii_hexdigit()));
    assert_ne!(a, cache_file_name("m", "q"));
}

#[test]
fn clock_millis() {
    assert_eq!(millis_to_u64(None), 0);
    assert_eq!(millis_to_u64(Some(42)), 42);
    assert_eq!(millis_to_u64(Some((1u128 << 64) + 5)), 5);
    // 2020-01-01 in milliseconds; the clock of any machine running this is later.
    assert!(now_ms() > 1_577_836_800_000);
}

#[test]
fn same_work_same_cache_file_on_examples() {
    let mut h = DefaultHasher::new();
    "llama3.2:3b".hash(&mut h);
    "요청".hash(&mut h);
    assert_eq!(cache_file_name("llama3.2:3b", "요청"), format!("{:x}.txt", h.finish()));
    assert_ne!(cache_file_name("ab", "c"), cache_file_name("a", "bc"));
}

#[test]
fn whitespace_agrees_with_std() {
    for n in 0u32..0x3100 {
        if let Some(c) = char::from_u32(n) {
            let s = c.to_string();
            assert_eq!(trim(&s).is_empty(), c.is_whitespace(), "U+{:04X}", n);
        }
    }
    assert_eq!(trim("\u{200B}x"), "\u{200B}x");
    assert_eq!(trim("\u{85}x\u{2029}"), "x");
}
