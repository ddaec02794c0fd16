use riot_wrappers::helpers::{strip_leading_slashes, until_nul};

#[test]
fn until_nul_gives_what_stands_before_the_first_zero() {
    assert_eq!(until_nul(b"abc\0def\0"), Some(&b"abc"[..]));
    assert_eq!(until_nul(b"abc\0"), Some(&b"abc"[..]));
}

#[test]
fn until_nul_of_a_leading_zero_is_empty() {
    assert_eq!(until_nul(b"\0abc"), Some(&b""[..]));
    assert_eq!(until_nul(b"\0"), Some(&b""[..]));
}

#[test]
fn until_nul_without_a_zero() {
    assert_eq!(until_nul(b"abc"), None);
    assert_eq!(until_nul(b""), None);
}

#[test]
fn until_nul_looks_at_every_byte() {
    let mut bytes = vec![1u8; 300];
    assert_eq!(until_nul(&bytes), None);
    bytes[299] = 0;
    assert_eq!(until_nul(&bytes).map(|head| head.len()), Some(299));
    bytes[150] = 0;
    assert_eq!(until_nul(&bytes).map(|head| head.len()), Some(150));
}

#[test]
fn strip_leading_slashes_takes_the_whole_run() {
    assert_eq!(strip_leading_slashes("/a"), "a");
    assert_eq!(strip_leading_slashes("//a"), "a");
    assert_eq!(strip_leading_slashes("/////a/b"), "a/b");
}

#[test]
fn strip_leading_slashes_leaves_other_texts_alone() {
    assert_eq!(strip_leading_slashes("a/b/"), "a/b/");
    assert_eq!(strip_leading_slashes(" /a"), " /a");
    assert_eq!(strip_leading_slashes("\\a"), "\\a");
    assert_eq!(strip_leading_slashes(""), "");
}

#[test]
fn strip_leading_slashes_of_slashes_only() {
    assert_eq!(strip_leading_slashes("/"), "");
    assert_eq!(strip_leading_slashes("///"), "");
}

#[test]
fn strip_leading_slashes_before_a_long_character() {
    assert_eq!(strip_leading_slashes("/\u{2603}/"), "\u{2603}/");
    assert_eq!(strip_leading_slashes("//\u{1f980}"), "\u{1f980}");
    assert_eq!(strip_leading_slashes("\u{2603}/"), "\u{2603}/");
}
