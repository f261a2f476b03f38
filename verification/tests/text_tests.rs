use cfph_launcher::text::{
    chars_eq_ignore_ascii_case, chars_of, decode_utf16_lossy_units, is_whitespace, push_decimal,
    clean_wide_units, find_text_end, string_of, to_wide, trim_whitespace_end, wstring,
};

fn std_wide(s: &str) -> Vec<u16> {
    s.encode_utf16().chain(std::iter::once(0)).collect()
}

#[test]
fn wstring_ascii_is_units_plus_terminator() {
    assert_eq!(wstring("vgk"), vec![0x76, 0x67, 0x6b, 0]);
}

#[test]
fn wstring_empty_is_terminator_only() {
    assert_eq!(wstring(""), vec![0]);
}

#[test]
fn wstring_supplementary_character_is_a_surrogate_pair() {
    assert_eq!(wstring("\u{1F600}"), vec![0xD83D, 0xDE00, 0]);
    assert_eq!(wstring("\u{10FFFF}"), vec![0xDBFF, 0xDFFF, 0]);
    assert_eq!(wstring("\u{10000}"), vec![0xD800, 0xDC00, 0]);
}

#[test]
fn wstring_agrees_with_std_encoding() {
    for s in [
        "CrossFire PH Launcher",
        "Waiting for Vanguard to exit \u{2014} CrossFire PH will launch",
        "\u{9ed1}\u{98ce}\u{96f7}",
        "a\u{1F468}\u{200D}\u{1F469}z",
        "\u{FFFF}\u{E000}\u{D7FF}",
    ] {
        assert_eq!(wstring(s), std_wide(s));
        assert_eq!(to_wide(s), std_wide(s));
    }
}

#[test]
fn wstring_round_trips_through_lossy_decoding() {
    for s in ["vgc.exe", "\u{1F600} smile", "", "\u{0}inner nul", "\u{10FFFF}"] {
        let w = wstring(s);
        let decoded = decode_utf16_lossy_units(&w[..w.len() - 1]);
        assert_eq!(decoded.iter().collect::<String>(), s);
    }
}

#[test]
fn lossy_decoding_replaces_unpaired_surrogates() {
    assert_eq!(decode_utf16_lossy_units(&[0xD800, 0x41]), vec!['\u{FFFD}', 'A']);
    assert_eq!(decode_utf16_lossy_units(&[0xDC00]), vec!['\u{FFFD}']);
    assert_eq!(decode_utf16_lossy_units(&[0x41, 0xD83D]), vec!['A', '\u{FFFD}']);
    assert_eq!(decode_utf16_lossy_units(&[0xD83D, 0xDE00]), vec!['\u{1F600}']);
    assert_eq!(decode_utf16_lossy_units(&[0xDE00, 0xD83D]), vec!['\u{FFFD}', '\u{FFFD}']);
    assert_eq!(decode_utf16_lossy_units(&[]), Vec::<char>::new());
}

#[test]
fn lossy_decoding_agrees_with_std() {
    let samples: Vec<Vec<u16>> = vec![
        vec![0x76, 0x67, 0x63, 0, 0],
        vec![0xD800, 0xD800, 0xDC00, 0xDC00],
        vec![0xDBFF, 0xDFFF, 0x20, 0xFFFD],
        vec![0xD834, 0xDD1E, 0x006d, 0x0075, 0xD800, 0x0069, 0x0063],
    ];
    for units in samples {
        let ours: String = decode_utf16_lossy_units(&units).iter().collect();
        assert_eq!(ours, String::from_utf16_lossy(&units));
    }
}

#[test]
fn trimming_drops_trailing_whitespace_only() {
    let v: Vec<char> = "vgc.exe \t\u{3000}".chars().collect();
    assert_eq!(trim_whitespace_end(&v), "vgc.exe".chars().collect::<Vec<char>>());
    let w: Vec<char> = " vgc.exe\0".chars().collect();
    assert_eq!(trim_whitespace_end(&w), w);
    let x: Vec<char> = "  ".chars().collect();
    assert_eq!(trim_whitespace_end(&x), Vec::<char>::new());
}

#[test]
fn text_ends_at_the_first_zero_unit() {
    assert_eq!(find_text_end(&[0x76, 0x67, 0, 0x65, 0]), 2);
    assert_eq!(find_text_end(&[0, 0x41]), 0);
    assert_eq!(find_text_end(&[0x41, 0x42]), 2);
    assert_eq!(find_text_end(&[]), 0);
}

#[test]
fn clean_text_cuts_at_terminator_then_trims() {
    let mut buf: Vec<u16> = "vgc.exe \0exe".encode_utf16().collect();
    buf.resize(20, 0);
    assert_eq!(clean_wide_units(&buf), "vgc.exe".chars().collect::<Vec<char>>());
    let unterminated: Vec<u16> = "name\u{2003}".encode_utf16().collect();
    assert_eq!(clean_wide_units(&unterminated), vec!['n', 'a', 'm', 'e']);
    assert_eq!(clean_wide_units(&[0xD800, 0, 0x41]), vec!['\u{FFFD}']);
}

#[test]
fn clean_text_agrees_with_std() {
    for s in ["name  \0junk\0", " lead\u{2028}\0", "\u{A0}\u{1680}x\u{200A}", "plain", "\0all gone"] {
        let units: Vec<u16> = s.encode_utf16().collect();
        let end = units.iter().position(|u| *u == 0).unwrap_or(units.len());
        let expected = String::from_utf16_lossy(&units[..end]);
        let ours: String = clean_wide_units(&units).iter().collect();
        assert_eq!(ours, expected.trim_end());
    }
}

#[test]
fn whitespace_agrees_with_std() {
    for v in 0u32..0x3100 {
        if let Some(c) = char::from_u32(v) {
            assert_eq!(is_whitespace(c), c.is_whitespace(), "code point {:#x}", v);
        }
    }
    for c in ['\u{FEFF}', '\u{200B}', '\u{1F600}', '\u{10FFFF}'] {
        assert_eq!(is_whitespace(c), c.is_whitespace());
    }
}

#[test]
fn ascii_case_is_ignored_only_for_ascii_letters() {
    let a: Vec<char> = "VgTrAy.ExE".chars().collect();
    assert!(chars_eq_ignore_ascii_case(&a, "vgtray.exe"));
    let b: Vec<char> = "vgc.exe".chars().collect();
    assert!(!chars_eq_ignore_ascii_case(&b, "vgtray.exe"));
    let c: Vec<char> = "vgc\u{212A}.exe".chars().collect();
    assert!(!chars_eq_ignore_ascii_case(&c, "vgck.exe"));
    let d: Vec<char> = "VGC@EXE".chars().collect();
    assert!(!chars_eq_ignore_ascii_case(&d, "vgc`exe"));
}

#[test]
fn decimal_rendering() {
    for n in [0u32, 7, 10, 4242, 1061, u32::MAX] {
        let mut s = String::from("pid ");
        push_decimal(&mut s, n);
        assert_eq!(s, format!("pid {}", n));
    }
}

#[test]
fn chars_and_strings_round_trip() {
    let v = chars_of("gr\u{fc}\u{df}e \u{1F600}");
    assert_eq!(v, "gr\u{fc}\u{df}e \u{1F600}".chars().collect::<Vec<char>>());
    assert_eq!(string_of(&v), "gr\u{fc}\u{df}e \u{1F600}");
}
