use rs1541::cbmtype::CbmStatus;
use rs1541::text::{
    char_is_whitespace, chars_equal, chars_of, contains_chars, decimal_len, find_char, hex_digit,
    lines_of, parse_unsigned_chars, push_chars, push_decimal, push_decimal_padded, push_fill,
    push_hex4, slice_of, split_chars, string_of, trim_chars, trim_end_chars,
    trim_end_matches_chars,
};

const SAMPLES: [&str; 24] = [
    "",
    " ",
    "a",
    " a ",
    "\ta b\n",
    "\r\n",
    "a\r\n",
    "a\r",
    "a\n",
    "\n",
    "a\n\nb",
    "a\rb\n",
    "\n\r",
    "a,b",
    ",",
    "a,,b,",
    ",,",
    "\u{a0}5\u{2003}",
    "\u{85}x\u{3000}\u{1680}",
    "\u{200b}x\u{feff}",
    "x\n\n\n",
    "12\n\n",
    "blocks free",
    "no blocks  free here, blocks free",
];

fn text(chars: &[char]) -> String {
    chars.iter().collect()
}

#[test]
fn characters_of_a_text_and_back() {
    for sample in SAMPLES {
        let chars = chars_of(sample);
        assert_eq!(chars, sample.chars().collect::<Vec<char>>());
        assert_eq!(string_of(&chars), sample);
        assert!(chars_equal(&chars, &chars_of(sample)));
        let mut out = String::from("x");
        push_chars(&mut out, &chars);
        assert_eq!(out, format!("x{sample}"));
    }
    assert!(!chars_equal(&chars_of("ab"), &chars_of("ac")));
    assert!(!chars_equal(&chars_of("ab"), &chars_of("a")));
    assert_eq!(slice_of(&chars_of("hello"), 1, 3), vec!['e', 'l']);
    assert_eq!(slice_of(&chars_of("hello"), 2, 2), Vec::<char>::new());
}

#[test]
fn white_space_is_what_the_standard_library_says() {
    for code in 0..=0x3100u32 {
        if let Some(c) = char::from_u32(code) {
            assert_eq!(char_is_whitespace(c), c.is_whitespace(), "{code:#x}");
        }
    }
    assert!(!char_is_whitespace('\u{feff}'));
    assert!(!char_is_whitespace('\u{10ffff}'));
}

#[test]
fn trimming_is_what_the_standard_library_does() {
    for sample in SAMPLES {
        let chars = chars_of(sample);
        assert_eq!(text(&trim_chars(&chars)), sample.trim(), "{sample:?}");
        assert_eq!(text(&trim_end_chars(&chars)), sample.trim_end(), "{sample:?}");
        assert_eq!(
            text(&trim_end_matches_chars(&chars, '\n')),
            sample.trim_end_matches('\n'),
            "{sample:?}"
        );
        assert_eq!(
            text(&trim_end_matches_chars(&chars, ',')),
            sample.trim_end_matches(','),
            "{sample:?}"
        );
    }
}

#[test]
fn splitting_is_what_the_standard_library_does() {
    for sample in SAMPLES {
        let chars = chars_of(sample);
        let pieces: Vec<String> = split_chars(&chars, ',').iter().map(|p| text(p)).collect();
        assert_eq!(pieces, sample.split(',').collect::<Vec<&str>>(), "{sample:?}");
        let lines: Vec<String> = lines_of(&chars).iter().map(|p| text(p)).collect();
        assert_eq!(lines, sample.lines().collect::<Vec<&str>>(), "{sample:?}");
        assert_eq!(find_char(&chars, ','), sample.chars().position(|c| c == ',').unwrap_or(chars.len()));
        for needle in ["", "a", "blocks free", ",,", "\n\n", "b\n"] {
            assert_eq!(
                contains_chars(&chars, &chars_of(needle)),
                sample.contains(needle),
                "{sample:?} {needle:?}"
            );
        }
    }
}

#[test]
fn numbers_are_read_as_the_standard_library_reads_them() {
    let candidates = [
        "0", "+0", "-0", "007", "255", "256", "+255", "+256", "65535", "65536", "+", "", "-",
        "1 2", " 1", "1 ", "12a", "a12", "++1", "+-1", "1+", "0x10", "1e3", "１２", "٣",
        "18446744073709551615", "18446744073709551616", "000000000000000000000000000255",
        "99999999999999999999999999",
    ];
    for candidate in candidates {
        let chars = chars_of(candidate);
        assert_eq!(
            parse_unsigned_chars(&chars, 255),
            candidate.parse::<u8>().ok().map(u64::from),
            "{candidate:?}"
        );
        assert_eq!(
            parse_unsigned_chars(&chars, 65535),
            candidate.parse::<u16>().ok().map(u64::from),
            "{candidate:?}"
        );
        assert_eq!(
            parse_unsigned_chars(&chars, u64::MAX),
            candidate.parse::<u64>().ok(),
            "{candidate:?}"
        );
        // The fields of a status line are read in the same way, after trimming.
        let line = format!("{candidate},x,0,0");
        if !candidate.contains(',') {
            assert_eq!(
                CbmStatus::new(&line, 8).ok().map(|s| s.number),
                if line.trim().is_empty() { None } else { candidate.trim().parse::<u8>().ok() },
                "{candidate:?}"
            );
        }
    }
}

#[test]
fn numbers_are_written_as_the_standard_library_writes_them() {
    for n in [0u64, 1, 9, 10, 11, 99, 100, 255, 999, 1000, 65535, 1 << 32, u64::MAX] {
        let mut out = String::new();
        push_decimal(&mut out, n);
        assert_eq!(out, format!("{n}"));
        assert_eq!(decimal_len(n), format!("{n}").len());
        let mut out = String::from("<");
        push_decimal_padded(&mut out, n, 2, '0');
        assert_eq!(out, format!("<{n:02}"));
        let mut out = String::new();
        push_decimal_padded(&mut out, n, 4, ' ');
        assert_eq!(out, format!("{n:4}"));
        let mut out = String::new();
        push_decimal_padded(&mut out, n, 3, ' ');
        assert_eq!(out, format!("{n:>3}"));
        let mut out = String::new();
        push_decimal_padded(&mut out, n, 0, ' ');
        assert_eq!(out, format!("{n}"));
    }
    for v in [0u16, 1, 9, 10, 15, 16, 0xab, 0x0f0e, 0xbeef, 0xffff] {
        let mut out = String::from("0x");
        push_hex4(&mut out, v);
        assert_eq!(out, format!("0x{v:04x}"));
    }
    for d in 0..16u8 {
        assert_eq!(hex_digit(d).to_string(), format!("{d:x}"));
    }
    let mut out = String::from("a");
    push_fill(&mut out, 3, '.');
    push_fill(&mut out, 0, '!');
    assert_eq!(out, "a...");
    assert_eq!(format!("[{:width$}]", "", width = 3), "[   ]");
}
