use tpower::util::{computer_name, find_byte, trim_bytes};

#[test]
fn the_name_is_the_value_of_the_name_line() {
    let report = b"Software:\n\n    System Software Overview:\n\n      System Version: macOS 14.5\n      Computer Name: the host\n      User Name: someone\n";
    assert_eq!(computer_name(report), Some(&b"the host"[..]));
}

#[test]
fn the_first_name_line_counts() {
    assert_eq!(computer_name(b"Computer Name: a\nComputer Name: b"), Some(&b"a"[..]));
    assert_eq!(computer_name(b"x: y\r\n  Computer Name :  a b \r\nz"), Some(&b"a b"[..]));
    assert_eq!(computer_name(b"Computer Name:"), Some(&b""[..]));
    assert_eq!(computer_name(b"Computer Name: a: b"), Some(&b"a: b"[..]));
}

#[test]
fn a_report_without_the_name_line_has_no_name() {
    assert_eq!(computer_name(b""), None);
    assert_eq!(computer_name(b"Computer Name"), None);
    assert_eq!(computer_name(b"computer name: a"), None);
    assert_eq!(computer_name(b"Computer\nName: a\n\n"), None);
    assert_eq!(computer_name(b"The Computer Name: a"), None);
}

#[test]
fn blanks_are_trimmed_at_both_ends_only() {
    assert_eq!(trim_bytes(b"  a b\t\r\n"), b"a b");
    assert_eq!(trim_bytes(b""), b"");
    assert_eq!(trim_bytes(b" \x0b\x0c "), b"");
    assert_eq!(trim_bytes(b"\x00 a"), b"\x00 a");
    assert_eq!(find_byte(b"abc", b'c'), 2);
    assert_eq!(find_byte(b"abc", b'z'), 3);
    assert_eq!(find_byte(b"", b'z'), 0);
}
