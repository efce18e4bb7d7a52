use monoio_driver::wide::to_wide_string;

#[test]
fn wide_strings_end_in_nul() {
    assert_eq!(to_wide_string(""), vec![0]);
    assert_eq!(to_wide_string("ab"), vec![0x61, 0x62, 0]);
    assert_eq!(to_wide_string("a\u{20AC}\u{1F600}"), vec![0x61, 0x20AC, 0xD83D, 0xDE00, 0]);
    let s = "poll \u{10FFFF} \u{FFFF} \u{10000}";
    let mut expected: Vec<u16> = s.encode_utf16().collect();
    expected.push(0);
    assert_eq!(to_wide_string(s), expected);
}
