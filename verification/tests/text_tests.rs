use alar2::text::{cut, str_eq, str_has_prefix, trim_end, FatalParseError};

#[test]
fn cut_picks_fields() {
    assert_eq!(cut("1  2048 409600", ' ', 0).unwrap(), "1");
    assert_eq!(cut("a=b=c", '=', 0).unwrap(), "a");
    assert_eq!(cut("a=b=c", '=', 1).unwrap(), "b");
    assert_eq!(cut("a=b=c", '=', 2).unwrap(), "c");
}

#[test]
fn cut_keeps_empty_fields() {
    assert_eq!(cut("1  2048", ' ', 1).unwrap(), "");
    assert_eq!(cut("=x", '=', 0).unwrap(), "");
    assert_eq!(cut("x=", '=', 1).unwrap(), "");
    assert_eq!(cut("", ' ', 0).unwrap(), "");
}

#[test]
fn cut_out_of_range_is_fatal() {
    assert_eq!(cut("a=b", '=', 2), Err(FatalParseError));
    assert_eq!(cut("", ' ', 1), Err(FatalParseError));
    assert_eq!(cut("no delimiter here", '=', 1), Err(FatalParseError));
}

#[test]
fn cut_pretty_name_shape() {
    let line = "PRETTY_NAME=\"Ubuntu 20.04.4 LTS\"";
    assert_eq!(cut(line, '=', 1).unwrap(), "\"Ubuntu 20.04.4 LTS\"");
}

#[test]
fn trim_end_removes_trailing_whitespace() {
    assert_eq!(trim_end("1 \n"), "1");
    assert_eq!(trim_end("14\t\r\n"), "14");
    assert_eq!(trim_end("xfs"), "xfs");
    assert_eq!(trim_end("  7"), "  7");
    assert_eq!(trim_end(""), "");
    assert_eq!(trim_end(" \t\n"), "");
}

#[test]
fn str_eq_compares_contents() {
    assert!(str_eq("xfs", "xfs"));
    assert!(!str_eq("xfs", "ext4"));
    assert!(!str_eq("xfs", "xf"));
    assert!(str_eq("", ""));
}

#[test]
fn str_has_prefix_checks_starts() {
    assert!(str_has_prefix("TYPE=ext4", "TYPE="));
    assert!(!str_has_prefix("PARTTYPE=ext4", "TYPE="));
    assert!(!str_has_prefix("TYP", "TYPE="));
    assert!(str_has_prefix("anything", ""));
}
