use ferrishost::k3s::K3s;
use ferrishost::system::SystemInfo;
use ferrishost::text::{
    concat_str, contains_str, decimal_string,
    exit_code_string, lines_str, parse_u64_str, replace_str, signed_decimal_string, split_str,
    starts_with_str, str_eq, strip_leading_str, trim_str,
};

#[test]
fn trim_removes_unicode_white_space_on_both_sides() {
    assert_eq!(trim_str("  \t hello world \n"), "hello world");
    assert_eq!(trim_str("\u{3000}x\u{a0}"), "x");
    assert_eq!(trim_str("   "), "");
    assert_eq!(trim_str(""), "");
}

#[test]
fn split_keeps_empty_pieces() {
    assert_eq!(split_str("a,,b", ','), vec!["a", "", "b"]);
    assert_eq!(split_str("", ','), vec![""]);
    assert_eq!(split_str(",", ','), vec!["", ""]);
}

#[test]
fn lines_follow_std() {
    for text in ["a\nb\n", "a\r\nb", "\n\nx", "", "a\r", "one", "x\r\n\r\n"] {
        let expected: Vec<&str> = text.lines().collect();
        assert_eq!(lines_str(text), expected, "text {:?}", text);
    }
}

#[test]
fn replace_follows_std() {
    let cases = [("aaa", "aa", "b"), ("{{ x }} and {{ x }}", "{{ x }}", "y"), ("abc", "zz", "q")];
    for (s, from, to) in cases {
        assert_eq!(replace_str(s, from, to), s.replace(from, to));
    }
}

#[test]
fn parse_u64_follows_std() {
    for text in ["0", "24576", "+7", "+", "", "-1", "12a", "18446744073709551615", "18446744073709551616", " 1"] {
        assert_eq!(parse_u64_str(text), text.parse::<u64>().ok(), "text {:?}", text);
    }
}

#[test]
fn decimal_formats_like_to_string() {
    for n in [0u64, 7, 10, 1234567890, u64::MAX] {
        assert_eq!(decimal_string(n), n.to_string());
    }
    for n in [0i32, -1, 42, i32::MIN, i32::MAX] {
        assert_eq!(signed_decimal_string(n), n.to_string());
    }
    assert_eq!(exit_code_string(Some(2)), "2");
    assert_eq!(exit_code_string(None), "unknown");
}

#[test]
fn searching_and_comparing() {
    assert!(contains_str("node True", "True"));
    assert!(!contains_str("False", "True"));
    assert!(contains_str("abc", ""));
    assert!(starts_with_str("card0", "card"));
    assert!(!starts_with_str("renderD128", "card"));
    assert!(str_eq("amd", "amd"));
    assert!(!str_eq("amd", "amdx"));
    assert_eq!(strip_leading_str("//assets/app.js", '/'), "assets/app.js");
    assert_eq!(concat_str("a", "b"), "ab");
}

#[test]
fn utf8_decoding() {
    // Strict decoding: a command's output is taken as text only where it is
    // UTF-8.
    let info = SystemInfo::detect(
        Ok(b"Linux\n".to_vec()),
        Ok(b"6.1.0".to_vec()),
        Ok(b"x86_64".to_vec()),
        Ok("h\u{e9}te".as_bytes().to_vec()),
    )
    .expect("UTF-8 output is accepted");
    assert_eq!(info.os, "Linux");
    assert_eq!(info.hostname, "h\u{e9}te");
    let err = SystemInfo::detect(
        Ok(vec![0xff, 0xfe]),
        Ok(b"6.1.0".to_vec()),
        Ok(b"x86_64".to_vec()),
        Ok(b"h".to_vec()),
    )
    .err()
    .expect("output that is not UTF-8 is refused");
    assert_eq!(err.message(), "invalid utf-8 sequence of 1 bytes from index 0");

    // Lossy decoding: what a command printed on stderr is kept, with the
    // replacement character for each byte that is not UTF-8.
    match K3s::download_outcome(Some(22), b"ok") {
        Err(e) => assert_eq!(e.message(), "failed to download k3s install script (curl exited 22)\nok"),
        Ok(()) => panic!("exit code 22 is a failure"),
    }
    match K3s::download_outcome(Some(22), &[b'a', 0xff]) {
        Err(e) => assert!(e.message().ends_with("\na\u{fffd}")),
        Ok(()) => panic!("exit code 22 is a failure"),
    }
}
