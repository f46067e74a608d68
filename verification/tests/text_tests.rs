use es_client::text::dec_str;
use es_client::text::split_on;

#[test]
fn decimal_rendering() {
    assert_eq!(dec_str(0), "0");
    assert_eq!(dec_str(7), "7");
    assert_eq!(dec_str(9200), "9200");
    assert_eq!(dec_str(1234), "1234");
    assert_eq!(dec_str(u64::MAX), "18446744073709551615");
}

#[test]
fn splitting_text() {
    assert_eq!(split_on("", '\n'), vec![""]);
    assert_eq!(split_on("a b c", ' '), vec!["a", "b", "c"]);
    assert_eq!(split_on("a,,b", ','), vec!["a", "", "b"]);
    assert_eq!(split_on("line\n", '\n'), vec!["line", ""]);
    assert_eq!(split_on("no separator", '\n'), vec!["no separator"]);
}
