//! Text the drivers read and write.

use pie_driver::arith::{div_ceil_u32, div_ceil_u64};
use pie_driver::strings::{
    has_prefix, parse_u32, push_decimal, str_eq, without_prefix, without_suffix,
};

#[test]
fn text_is_compared_and_cut_by_characters() {
    assert!(str_eq("héllo", "héllo"));
    assert!(!str_eq("héllo", "hello"));
    assert!(!str_eq("a", ""));
    assert!(has_prefix("scale.x", "scale."));
    assert!(!has_prefix("scal", "scale."));
    assert_eq!(without_prefix("scale.é", "scale."), Some("é"));
    assert_eq!(without_prefix("x", "scale."), None);
    assert_eq!(without_suffix("layer.ple_norm", "ple_norm"), Some("layer."));
    assert_eq!(without_suffix("é", ""), Some("é"));
    assert_eq!(without_suffix("", "x"), None);
    assert_eq!(without_suffix("aé", "é"), Some("a"));
}

#[test]
fn numbers_are_written_as_their_digits() {
    for n in [0, 7, 10, 512, u64::MAX] {
        let mut text = String::from("n=");
        push_decimal(&mut text, n);
        assert_eq!(text, format!("n={n}"));
    }
}

#[test]
fn a_number_is_read_back_from_its_digits() {
    for n in [0, 9, 10, 99, 100, 4096, u32::MAX] {
        let mut text = String::new();
        push_decimal(&mut text, u64::from(n));
        assert_eq!(parse_u32(&text), Some(n));
    }
}

#[test]
fn numbers_are_read_as_rust_reads_them() {
    for text in [
        "0", "7", "+7", "007", "4294967295", "4294967296", "99999999999999999999", "", "+", "-1",
        "1 ", " 1", "1_0", "０", "++1", "1+",
    ] {
        assert_eq!(parse_u32(text), text.parse::<u32>().ok(), "{text:?}");
    }
}

#[test]
fn divisions_round_up() {
    assert_eq!(div_ceil_u32(0, 8), 0);
    assert_eq!(div_ceil_u32(9, 8), 2);
    assert_eq!(div_ceil_u32(u32::MAX, 1), u32::MAX);
    assert_eq!(div_ceil_u64(u64::MAX, u64::MAX), 1);
    assert_eq!(div_ceil_u64(16, 8), 2);
}
