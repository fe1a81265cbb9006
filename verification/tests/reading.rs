use toolchain_version::{Component, Error, FormatError, Version};

const REPORT: &str = "rustc 1.23.0 (766bd11c8 2018-01-01)\n\
binary: rustc\n\
commit-hash: 766bd11c8a3c019ca53febdcd77b2215379dd67d\n\
commit-date: 2018-01-01\n\
host: x86_64-unknown-linux-gnu\n\
release: 1.23.0\n\
LLVM version: 4.0\n";

fn format_error(text: &str) -> FormatError {
    match Version::parse(text) {
        Err(Error::Format(e)) => e,
        other => panic!("expected a format error, got {:?}", other),
    }
}

#[test]
fn release_line_among_other_lines() {
    let v = Version::parse(REPORT).unwrap();
    assert_eq!(v, Version::new(1, 23, 0));
    assert_eq!(v.extra(), None);
}

#[test]
fn release_with_tag() {
    let v = Version::parse("release: 1.23.0-beta.4").unwrap();
    assert_eq!(v.extra(), Some("beta.4"));
    assert_eq!(v.compare(&Version::new(1, 23, 0)), std::cmp::Ordering::Equal);
    assert_ne!(v, Version::new(1, 23, 0));
}

#[test]
fn release_with_tag_in_a_report() {
    let text = "rustc 1.25.0-nightly (0c6091fbd 2018-02-04)\nbinary: rustc\nrelease: 1.25.0-nightly\nLLVM version: 6.0\n";
    let v = Version::parse(text).unwrap();
    assert_eq!(v.extra(), Some("nightly"));
    assert!(v > Version::new(1, 24, 9));
    assert!(v < Version::new(1, 25, 1));
}

#[test]
fn missing_release_line() {
    let text = "rustc 1.23.0 (766bd11c8 2018-01-01)\nbinary: rustc\nhost: x86_64-unknown-linux-gnu\n";
    assert_eq!(format_error(text), FormatError::ReleaseLineNotFound);
    assert_eq!(format_error(""), FormatError::ReleaseLineNotFound);
    assert_eq!(format_error("\n\n"), FormatError::ReleaseLineNotFound);
}

#[test]
fn prefix_must_begin_the_line() {
    assert_eq!(format_error(" release: 1.2.3\n"), FormatError::ReleaseLineNotFound);
    assert_eq!(format_error("the release: 1.2.3\n"), FormatError::ReleaseLineNotFound);
    assert_eq!(format_error("release:1.2.3\n"), FormatError::ReleaseLineNotFound);
    assert_eq!(format_error("Release: 1.2.3\n"), FormatError::ReleaseLineNotFound);
    assert_eq!(format_error("release:\n 1.2.3\n"), FormatError::ReleaseLineNotFound);
}

#[test]
fn missing_patch() {
    assert_eq!(format_error("release: 1.2"), FormatError::Missing(Component::Patch));
    assert_eq!(format_error("release: 1.2\n"), FormatError::Missing(Component::Patch));
    assert_eq!(format_error("release: 1.2-beta.4"), FormatError::Missing(Component::Patch));
}

#[test]
fn missing_minor() {
    assert_eq!(format_error("release: 1"), FormatError::Missing(Component::Minor));
    assert_eq!(format_error("release: "), FormatError::Missing(Component::Minor));
    assert_eq!(format_error("release: -nightly"), FormatError::Missing(Component::Minor));
}

#[test]
fn missing_field_is_reported_before_a_bad_number() {
    assert_eq!(format_error("release: x.1"), FormatError::Missing(Component::Patch));
    assert_eq!(format_error("release: x"), FormatError::Missing(Component::Minor));
}

#[test]
fn non_numeric_minor() {
    assert_eq!(format_error("release: 1.x.0"), FormatError::Invalid(Component::Minor));
}

#[test]
fn non_numeric_major() {
    assert_eq!(format_error("release: x.1.0"), FormatError::Invalid(Component::Major));
    assert_eq!(format_error("release: x.y.z"), FormatError::Invalid(Component::Major));
    assert_eq!(format_error("release: .1.0"), FormatError::Invalid(Component::Major));
    assert_eq!(format_error("release:  1.1.0"), FormatError::Invalid(Component::Major));
}

#[test]
fn non_numeric_patch() {
    assert_eq!(format_error("release: 1.2.z"), FormatError::Invalid(Component::Patch));
    assert_eq!(format_error("release: 1.2."), FormatError::Invalid(Component::Patch));
    assert_eq!(format_error("release: 1.2.3 "), FormatError::Invalid(Component::Patch));
    assert_eq!(format_error("release: 1.2.0x10"), FormatError::Invalid(Component::Patch));
}

#[test]
fn fourth_numeric_group_is_refused() {
    assert_eq!(format_error("release: 1.2.3.4"), FormatError::Invalid(Component::Patch));
}

#[test]
fn number_too_large_is_refused() {
    assert_eq!(
        format_error("release: 340282366920938463463374607431768211456.0.0"),
        FormatError::Invalid(Component::Major)
    );
    assert_eq!(
        format_error("release: 1.340282366920938463463374607431768211456.0"),
        FormatError::Invalid(Component::Minor)
    );
    assert_eq!(
        format_error("release: 1.2.340282366920938463463374607431768211456"),
        FormatError::Invalid(Component::Patch)
    );
}

#[test]
fn largest_number_is_read_and_the_next_is_refused() {
    let text = format!("release: {}.0.{}", usize::MAX, usize::MAX);
    assert_eq!(Version::parse(&text).unwrap(), Version::new(usize::MAX, 0, usize::MAX));
    let digits = format!("{}", usize::MAX);
    let (head, last) = digits.split_at(digits.len() - 1);
    let next = format!("{}{}", head, last.parse::<u8>().unwrap() + 1);
    let text = format!("release: 1.{}.0", next);
    assert_eq!(format_error(&text), FormatError::Invalid(Component::Minor));
}

#[test]
fn leading_zeros_and_plus_sign() {
    assert_eq!(Version::parse("release: 01.002.0003").unwrap(), Version::new(1, 2, 3));
    assert_eq!(Version::parse("release: +1.+2.+3").unwrap(), Version::new(1, 2, 3));
    assert_eq!(Version::parse("release: 0.0.0").unwrap(), Version::new(0, 0, 0));
    assert_eq!(format_error("release: +.2.3"), FormatError::Invalid(Component::Major));
    assert_eq!(format_error("release: 1.++2.3"), FormatError::Invalid(Component::Minor));
}

#[test]
fn exact_values_of_the_fields() {
    let v = Version::parse("release: 12.345.6789").unwrap();
    assert_eq!(v, Version::new(12, 345, 6789));
    assert_ne!(v, Version::new(12, 345, 6780));
    assert_ne!(v, Version::new(12, 340, 6789));
    assert_ne!(v, Version::new(10, 345, 6789));
}

#[test]
fn tag_is_cut_at_the_first_hyphen_only() {
    let v = Version::parse("release: 1.2.3-beta-2").unwrap();
    assert_eq!(v.extra(), Some("beta-2"));
    let v = Version::parse("release: 1.2.3-").unwrap();
    assert_eq!(v.extra(), Some(""));
    let v = Version::parse("release: 1.2.3-1.2.3 (x)").unwrap();
    assert_eq!(v.extra(), Some("1.2.3 (x)"));
}

#[test]
fn hyphen_before_the_numbers_are_complete() {
    assert_eq!(format_error("release: 1.-2.3"), FormatError::Missing(Component::Patch));
    assert_eq!(format_error("release: 1.2.-3"), FormatError::Invalid(Component::Patch));
    assert_eq!(format_error("release: -1.2.3"), FormatError::Missing(Component::Minor));
}

#[test]
fn tag_may_hold_any_characters() {
    let v = Version::parse("x\nrelease: 1.2.3-b\u{ea}ta \u{1f980}.4\nhost: y\n").unwrap();
    assert_eq!(v.extra(), Some("b\u{ea}ta \u{1f980}.4"));
    assert_eq!(v.compare(&Version::new(1, 2, 3)), std::cmp::Ordering::Equal);
}

#[test]
fn text_before_the_release_line_may_hold_any_characters() {
    let v = Version::parse("h\u{f4}te: \u{1f980}\nrelease: 4.5.6-dev\n").unwrap();
    assert_eq!(v.extra(), Some("dev"));
    assert_eq!(v.compare(&Version::new(4, 5, 6)), std::cmp::Ordering::Equal);
}

#[test]
fn first_release_line_decides() {
    let v = Version::parse("release: 1.2.3\nrelease: 4.5.6\n").unwrap();
    assert_eq!(v, Version::new(1, 2, 3));
    assert_eq!(
        format_error("release: bad\nrelease: 4.5.6\n"),
        FormatError::Missing(Component::Minor)
    );
}

#[test]
fn line_endings() {
    assert_eq!(Version::parse("release: 1.2.3\r\nhost: x\r\n").unwrap(), Version::new(1, 2, 3));
    let v = Version::parse("a\r\nrelease: 1.2.3-nightly\r\n").unwrap();
    assert_eq!(v.extra(), Some("nightly"));
    assert_eq!(Version::parse("a\nrelease: 1.2.3").unwrap(), Version::new(1, 2, 3));
    let v = Version::parse("release: 1.2.3-nightly\r").unwrap();
    assert_eq!(v.extra(), Some("nightly\r"));
    assert_eq!(format_error("release: 1.2.3\r"), FormatError::Invalid(Component::Patch));
    assert_eq!(format_error("release: \r\n"), FormatError::Missing(Component::Minor));
}

#[test]
fn reading_twice_gives_equal_versions() {
    let first = Version::parse(REPORT).unwrap();
    let second = Version::parse(REPORT).unwrap();
    assert_eq!(first, second);
    let first = Version::parse("release: 1.2.3-beta.4").unwrap();
    let second = Version::parse("release: 1.2.3-beta.4").unwrap();
    assert_eq!(first, second);
    assert_eq!(format_error("release: 1.2"), format_error("release: 1.2"));
}

#[test]
fn failed_run_gives_a_toolchain_error() {
    assert!(matches!(Version::from_output(false, REPORT.as_bytes()), Err(Error::Toolchain)));
    assert!(matches!(Version::from_output(false, b""), Err(Error::Toolchain)));
    assert!(matches!(Version::from_output(false, &[0xff, 0xfe]), Err(Error::Toolchain)));
}

#[test]
fn output_that_is_no_text_gives_an_encoding_error() {
    assert!(matches!(
        Version::from_output(true, b"release: 1.2.3\n\xff"),
        Err(Error::Encoding)
    ));
    assert!(matches!(Version::from_output(true, &[0xc3]), Err(Error::Encoding)));
    assert!(matches!(Version::from_output(true, &[0xed, 0xa0, 0x80]), Err(Error::Encoding)));
}

#[test]
fn successful_run_is_read() {
    let v = Version::from_output(true, REPORT.as_bytes()).unwrap();
    assert_eq!(v, Version::new(1, 23, 0));
    let v = Version::from_output(true, "release: 1.2.3-b\u{ea}ta\n".as_bytes()).unwrap();
    assert_eq!(v.extra(), Some("b\u{ea}ta"));
    assert!(matches!(
        Version::from_output(true, b"rustc 1.2.3\n"),
        Err(Error::Format(FormatError::ReleaseLineNotFound))
    ));
    assert!(matches!(
        Version::from_output(true, b"release: 1.2\n"),
        Err(Error::Format(FormatError::Missing(Component::Patch)))
    ));
}
