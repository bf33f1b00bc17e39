//! The text layer of the keyword search: the UTF-8 validity check against
//! the standard library's decoder, and the literal substring test.

use life_and_work::search::check_utf8;
use life_and_work::search::find_substring;

#[test]
fn utf8_check_matches_std_on_notable_cases() {
    let cases: Vec<Vec<u8>> = vec![
        Vec::new(),
        b"hello".to_vec(),
        "h\u{e9}llo \u{20ac} \u{1d11e}".as_bytes().to_vec(),
        vec![0x80],
        vec![0xC0, 0x80],
        vec![0xC1, 0xBF],
        vec![0xC2],
        vec![0xC2, 0x7F],
        vec![0xC2, 0x80],
        vec![0xE0, 0x80, 0x80],
        vec![0xE0, 0xA0, 0x80],
        vec![0xED, 0x9F, 0xBF],
        vec![0xED, 0xA0, 0x80],
        vec![0xEE, 0x80, 0x80],
        vec![0xEF, 0xBF, 0xBF],
        vec![0xF0, 0x80, 0x80, 0x80],
        vec![0xF0, 0x90, 0x80, 0x80],
        vec![0xF4, 0x8F, 0xBF, 0xBF],
        vec![0xF4, 0x90, 0x80, 0x80],
        vec![0xF5, 0x80, 0x80, 0x80],
        vec![0xFF],
        vec![0xE2, 0x82],
        vec![0x61, 0xE2, 0x82, 0xAC],
        vec![0xE2, 0x82, 0xAC, 0x62],
    ];
    for c in cases {
        assert_eq!(check_utf8(&c), std::str::from_utf8(&c).is_ok(), "bytes {:?}", c);
    }
}

#[test]
fn utf8_check_matches_std_on_all_short_sequences() {
    for a in 0..=255u8 {
        let one = vec![a];
        assert_eq!(check_utf8(&one), std::str::from_utf8(&one).is_ok(), "bytes {:?}", one);
        for b in 0..=255u8 {
            let two = vec![a, b];
            assert_eq!(check_utf8(&two), std::str::from_utf8(&two).is_ok(), "bytes {:?}", two);
        }
    }
}

#[test]
fn utf8_check_matches_std_on_boundary_triples_and_quadruples() {
    let marks: [u8; 20] = [
        0x00, 0x61, 0x7F, 0x80, 0x8F, 0x90, 0x9F, 0xA0, 0xBF, 0xC0, 0xC1, 0xC2, 0xDF, 0xE0, 0xED,
        0xEF, 0xF0, 0xF4, 0xF5, 0xFF,
    ];
    for &a in &marks {
        for &b in &marks {
            for &c in &marks {
                let three = vec![a, b, c];
                assert_eq!(
                    check_utf8(&three),
                    std::str::from_utf8(&three).is_ok(),
                    "bytes {:?}",
                    three
                );
                for &d in &marks {
                    let four = vec![a, b, c, d];
                    assert_eq!(
                        check_utf8(&four),
                        std::str::from_utf8(&four).is_ok(),
                        "bytes {:?}",
                        four
                    );
                }
            }
        }
    }
}

#[test]
fn substring_test_matches_std_contains() {
    let hays = ["", "a", "abc", "Blockchain, Rust, Cryptography", "aaaab", "ababab"];
    let needles = ["", "a", "ab", "aab", "Rust", "rust", "Cryptography", "abab", "bab", "x"];
    for h in hays {
        for n in needles {
            assert_eq!(
                find_substring(&h.as_bytes().to_vec(), &n.as_bytes().to_vec()),
                h.contains(n),
                "hay {:?} needle {:?}",
                h,
                n
            );
        }
    }
}
