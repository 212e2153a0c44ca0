use spike_hub::decimal::{write_hex, write_i32, write_u32};
use spike_hub::hex::{digit, hex_u32, hex_u8, parse_hex};
use spike_hub::words::{find_space, split_words, word_is};

#[test]
fn digits_are_lower_case() {
    assert_eq!(digit(0), b'0');
    assert_eq!(digit(9), b'9');
    assert_eq!(digit(10), b'a');
    assert_eq!(digit(15), b'f');
}

#[test]
fn words_have_eight_digits() {
    let mut buf = [0u8; 8];
    hex_u32(0xDEAD_B007, &mut buf);
    assert_eq!(&buf, b"deadb007");
    hex_u32(0x1F, &mut buf);
    assert_eq!(&buf, b"0000001f");
    hex_u32(u32::MAX, &mut buf);
    assert_eq!(&buf, b"ffffffff");
}

#[test]
fn bytes_have_two_digits() {
    let mut buf = [0u8; 2];
    hex_u8(0x0A, &mut buf);
    assert_eq!(&buf, b"0a");
    hex_u8(0xF0, &mut buf);
    assert_eq!(&buf, b"f0");
}

#[test]
fn numbers_are_parsed() {
    assert_eq!(parse_hex(b"1f"), Some(0x1F));
    assert_eq!(parse_hex(b"1F"), Some(0x1F));
    assert_eq!(parse_hex(b"deadBEEF"), Some(0xDEAD_BEEF));
    assert_eq!(parse_hex(b"0"), Some(0));
    assert_eq!(parse_hex(b"ffffffff"), Some(u32::MAX));
}

#[test]
fn prefix_may_stand_in_front() {
    assert_eq!(parse_hex(b"0x10"), Some(0x10));
    assert_eq!(parse_hex(b"0Xab"), Some(0xAB));
    assert_eq!(parse_hex(b"0x123456"), Some(0x12_3456));
}

#[test]
fn what_is_no_number_is_refused() {
    assert_eq!(parse_hex(b""), None);
    assert_eq!(parse_hex(b"0x"), None);
    assert_eq!(parse_hex(b"xyz"), None);
    assert_eq!(parse_hex(b"12 4"), None);
    assert_eq!(parse_hex(b"123456789"), None);
    assert_eq!(parse_hex(b"0x1234567"), None);
    assert_eq!(parse_hex(b"-1"), None);
}

#[test]
fn what_is_written_parses_back() {
    for v in [0u32, 1, 0x1234, 0x0801_0000, 0x8000_0000, u32::MAX] {
        let mut buf = [0u8; 8];
        hex_u32(v, &mut buf);
        assert_eq!(parse_hex(&buf), Some(v));
    }
    for b in 0..=255u8 {
        let mut buf = [0u8; 2];
        hex_u8(b, &mut buf);
        assert_eq!(parse_hex(&buf), Some(b as u32));
    }
}

#[test]
fn decimals_have_a_sign_and_no_zeros_in_front() {
    assert_eq!(write_u32(0), b"0");
    assert_eq!(write_u32(4_294_967_295), b"4294967295");
    assert_eq!(write_i32(-99), b"-99");
    assert_eq!(write_i32(i32::MIN), b"-2147483648");
    assert_eq!(write_i32(1000), b"1000");
    assert_eq!(write_hex(0), b"0");
    assert_eq!(write_hex(0x20), b"20");
    assert_eq!(write_hex(0xABC), b"abc");
}

#[test]
fn lines_split_at_blanks_and_tabs() {
    let w = split_words(b"  poke\t20000000  1 ");
    assert_eq!(w, vec![b"poke".to_vec(), b"20000000".to_vec(), b"1".to_vec()]);
}

#[test]
fn only_four_words_are_kept() {
    let w = split_words(b"a b c d e f");
    assert_eq!(w.len(), 4);
    assert_eq!(w[3], b"d".to_vec());
}

#[test]
fn blank_lines_have_no_words() {
    assert!(split_words(b"").is_empty());
    assert!(split_words(b" \t  ").is_empty());
}

#[test]
fn words_are_compared_whole() {
    assert!(word_is(b"peek", "peek"));
    assert!(!word_is(b"peek8", "peek"));
    assert!(!word_is(b"pee", "peek"));
    assert!(!word_is(b"PEEK", "peek"));
}

#[test]
fn the_first_space_is_found() {
    assert_eq!(find_space(b"r0 1 2"), 2);
    assert_eq!(find_space(b" r0"), 0);
    assert_eq!(find_space(b"none"), 4);
}
