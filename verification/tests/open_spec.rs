use tap::open_spec::parse_fd_spec_body;
use tap::text::{parse_i32, split_once, strip_prefix};
use tap::{parse_tap_open_spec, TapError, TapOpenSpec};

#[test]
fn test_parse_tap_open_spec() {
    assert!(matches!(
        parse_tap_open_spec("tap0").unwrap(),
        TapOpenSpec::Name("tap0")
    ));
    assert!(matches!(
        parse_tap_open_spec("fd:3:tap0").unwrap(),
        TapOpenSpec::Fd {
            fd: 3,
            if_name: "tap0"
        }
    ));
    assert!(matches!(
        parse_tap_open_spec("fdp:3:tap0").unwrap(),
        TapOpenSpec::Fdp {
            fd: 3,
            if_name: "tap0"
        }
    ));

    for spec in [
        "fd:abc:tap0",
        "fd:3:",
        "fd:1:tap0",
        "fd:3tap0",
        "fdp:abc:tap0",
        "fdp:3:",
        "fdp:1:tap0",
        "fdp:3tap0",
    ] {
        assert!(
            matches!(
                parse_tap_open_spec(spec),
                Err(TapError::InvalidFdSpec(_))
            ),
            "expected InvalidFdSpec for {spec:?}"
        );
    }
}

#[test]
fn an_invalid_spec_is_reported_whole() {
    match parse_tap_open_spec("fdp:2:tap0") {
        Err(TapError::InvalidFdSpec(spec)) => assert_eq!(spec, "fdp:2:tap0"),
        other => panic!("{other:?}"),
    }
    match parse_fd_spec_body("fd:x", "x") {
        Err(TapError::InvalidFdSpec(spec)) => assert_eq!(spec, "fd:x"),
        other => panic!("{other:?}"),
    }
}

#[test]
fn the_name_of_a_queue_may_hold_colons() {
    assert!(matches!(
        parse_tap_open_spec("fd:7:a:b").unwrap(),
        TapOpenSpec::Fd {
            fd: 7,
            if_name: "a:b"
        }
    ));
    assert!(matches!(
        parse_tap_open_spec("fdp:+0042::").unwrap(),
        TapOpenSpec::Fdp {
            fd: 42,
            if_name: ":"
        }
    ));
    assert_eq!(parse_fd_spec_body("fd:9:x", "9:x").unwrap(), (9, "x"));
}

#[test]
fn only_the_whole_prefix_makes_a_queue_spec() {
    for name in ["", "fd", "fdp", "fdpp:3:tap0", "FD:3:tap0", " fd:3:tap0", "f", "\u{e9}fd:3:x"] {
        match parse_tap_open_spec(name).unwrap() {
            TapOpenSpec::Name(parsed) => assert_eq!(parsed, name),
            other => panic!("{other:?}"),
        }
    }
    assert!(parse_tap_open_spec("fd:").is_err());
    assert!(parse_tap_open_spec("fdp:").is_err());
}

#[test]
fn written_descriptors_are_read_back() {
    for fd in [3, 9, 10, 99, 12_345, i32::MAX] {
        let inherited = format!("fd:{fd}:eth\u{20ac}:1");
        match parse_tap_open_spec(&inherited).unwrap() {
            TapOpenSpec::Fd { fd: parsed, if_name } => {
                assert_eq!((parsed, if_name), (fd, "eth\u{20ac}:1"));
            }
            other => panic!("{other:?}"),
        }
        let preconfigured = format!("fdp:{fd}:x");
        match parse_tap_open_spec(&preconfigured).unwrap() {
            TapOpenSpec::Fdp { fd: parsed, if_name } => assert_eq!((parsed, if_name), (fd, "x")),
            other => panic!("{other:?}"),
        }
    }
    for fd in [2, 1, 0, -1, -3, i32::MIN] {
        assert!(parse_tap_open_spec(&format!("fd:{fd}:x")).is_err());
    }
}

const TEXTS: [&str; 30] = [
    "", "+", "-", "--1", "+-1", "0", "-0", "+0", "7", "007", "2147483647", "2147483648",
    "-2147483648", "-2147483649", "+2147483647", "99999999999999999999999", "1_000", " 1", "1 ",
    "1a", "0x10", "1.0", "\u{661}", "\u{ff11}", "4\u{e9}", "00000000000000000000000000000000003",
    "-00000000000000000000000000000000003", "\u{0}1", "1\n", "4294967295",
];

#[test]
fn numbers_are_read_as_the_standard_library_reads_them() {
    for text in TEXTS {
        assert_eq!(parse_i32(text), text.parse::<i32>().ok(), "{text:?}");
    }
    assert_eq!(parse_i32("-17"), Some(-17));
}

#[test]
fn texts_are_cut_as_the_standard_library_cuts_them() {
    let texts = ["", ":", "::", "a:b", "a:b:c", "\u{e9}:\u{20ac}", "no", ":x", "x:", "fd:", "\u{10ffff}"];
    for text in texts {
        assert_eq!(split_once(text, ':'), text.split_once(':'), "{text:?}");
        for prefix in ["", ":", "a", "fd:", "fdp:", "\u{e9}", "\u{e9}:", "no", "\u{10ffff}x"] {
            assert_eq!(strip_prefix(text, prefix), text.strip_prefix(prefix), "{text:?} {prefix:?}");
        }
    }
}
