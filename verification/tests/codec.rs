use rs1541::string::{AsciiString, CbmString, PetsciiString};
use rs1541::util::{
    ascii_str_to_petscii, ascii_to_petscii, petscii_str_to_ascii, petscii_to_ascii,
};

#[test]
fn decode_bands() {
    // The unshifted letters of the drive are shown in lower case.
    assert_eq!(petscii_to_ascii(0x41), 'a');
    assert_eq!(petscii_to_ascii(0x5a), 'z');
    // The two shifted bands are shown in upper case.
    assert_eq!(petscii_to_ascii(0x61), 'A');
    assert_eq!(petscii_to_ascii(0xc1), 'A');
    assert_eq!(petscii_to_ascii(0xda), 'Z');
    // Digits and punctuation stand for themselves.
    assert_eq!(petscii_to_ascii(0x31), '1');
    assert_eq!(petscii_to_ascii(0x22), '"');
    assert_eq!(petscii_to_ascii(0x3f), '?');
}

#[test]
fn decode_unprintable_as_dot() {
    assert_eq!(petscii_to_ascii(0x00), '.');
    assert_eq!(petscii_to_ascii(0x12), '.');
    assert_eq!(petscii_to_ascii(0x20), '.');
    assert_eq!(petscii_to_ascii(0x80), '.');
    assert_eq!(petscii_to_ascii(0xbf), '.');
    assert_eq!(petscii_to_ascii(0xe1), '.');
    assert_eq!(petscii_to_ascii(0xff), '.');
}

#[test]
fn encode_bands() {
    assert_eq!(ascii_to_petscii('`'), 0x40);
    assert_eq!(ascii_to_petscii('~'), 0x5e);
    assert_eq!(ascii_to_petscii('@'), 0x40);
    assert_eq!(ascii_to_petscii(' '), 0x20);
    assert_eq!(ascii_to_petscii('\n'), 0x0a);
    assert_eq!(ascii_to_petscii('\u{7f}'), 0x7f);
    // Only the low byte of a character beyond ASCII counts.
    assert_eq!(ascii_to_petscii('\u{141}'), 0xc1 & 0x7f);
    assert_eq!(ascii_to_petscii('\u{161}'), 0x41);
}

#[test]
fn display_round_trip_holds_for_every_byte_but_four() {
    for b in 0..=255u8 {
        let shown = petscii_to_ascii(b);
        let again = petscii_to_ascii(ascii_to_petscii(shown));
        if b == 0x5f || b == 0x60 || b == 0xa0 || b == 0xe0 {
            assert_ne!(again, shown, "byte {b:#x}");
        } else {
            assert_eq!(again, shown, "byte {b:#x}");
        }
    }
}

#[test]
fn ascii_round_trip_holds_for_graphic_characters() {
    for b in 0x21..=0x7eu8 {
        let c = b as char;
        let back = petscii_to_ascii(ascii_to_petscii(c));
        if c == '`' {
            assert_eq!(back, '@');
        } else {
            assert_eq!(back, c);
        }
    }
    assert_eq!(petscii_to_ascii(ascii_to_petscii('\n')), '\n');
    assert_eq!(petscii_to_ascii(ascii_to_petscii(' ')), '.');
}

#[test]
fn sequences_convert_character_by_character() {
    assert_eq!(ascii_str_to_petscii("Hello 1"), vec![0xc8, 0x45, 0x4c, 0x4c, 0x4f, 0x20, 0x31]);
    assert_eq!(petscii_str_to_ascii(&[0xc8, 0x45, 0x4c, 0x4c, 0x4f, 0x0d]), "Hello\n");
    assert_eq!(ascii_str_to_petscii(""), Vec::<u8>::new());
    assert_eq!(petscii_str_to_ascii(&[]), "");
}

#[test]
fn ascii_string_accepts_seven_bit_bytes_only() {
    assert!(AsciiString::from_bytes(b"plain text\n").is_some());
    assert!(AsciiString::from_bytes(&[0x7f]).is_some());
    assert!(AsciiString::from_bytes(&[0x41, 0x80]).is_none());
    assert_eq!(AsciiString::from_bytes(b"abc").unwrap().as_bytes(), b"abc");
    assert!(AsciiString::try_from(String::from("abc")).is_ok());
    assert!(AsciiString::try_from(&String::from("ab\u{e9}")).is_err());
    assert_eq!(
        AsciiString::try_from("\u{e9}"),
        Err("String contains non-ASCII characters")
    );
}

#[test]
fn petscii_string_keeps_its_bytes() {
    let bytes = [0x00u8, 0x41, 0xc1, 0xff];
    assert_eq!(PetsciiString::from_petscii_bytes(&bytes).as_bytes(), &bytes);
    assert_eq!(PetsciiString::from_bytes(&bytes).unwrap().as_bytes(), &bytes);
    assert_eq!(PetsciiString::from_bytes_unchecked(bytes.to_vec()).as_bytes(), &bytes);
    assert_eq!(PetsciiString::from_petscii_bytes(&bytes).to_ascii().as_bytes(), b".aA.");
    assert_eq!(PetsciiString::from_petscii_bytes(&bytes).to_string(), ".aA.");
}

#[test]
fn string_conversions() {
    let ascii = AsciiString::from_ascii_str("n0:Test,01");
    assert_eq!(
        ascii.to_petscii().as_bytes(),
        &[0x4e, 0x30, 0x3a, 0xd4, 0x45, 0x53, 0x54, 0x2c, 0x30, 0x31]
    );
    assert_eq!(PetsciiString::from_ascii_str("v").as_bytes(), &[0x56]);
    assert_eq!(ascii.clone(), ascii);
    assert_eq!(String::from(ascii.clone()), "n0:Test,01");
    assert_eq!(PetsciiString::from(&ascii), ascii.to_petscii());
    assert_eq!(AsciiString::from(ascii.to_petscii()), ascii);
    assert_eq!(AsciiString::from_bytes_unchecked(b"x".to_vec()).to_string(), "x");
}

#[test]
fn petscii_strings_are_equal_where_they_are_shown_alike() {
    // 0x61 and 0xc1 are both shown as an upper-case A.
    let one = PetsciiString::from_petscii_bytes(&[0x61]);
    let other = PetsciiString::from_petscii_bytes(&[0xc1]);
    assert_eq!(one, other);
    assert_ne!(one, PetsciiString::from_petscii_bytes(&[0x41]));
}

#[test]
fn cbm_string_is_either_kind() {
    let ascii = CbmString::from_ascii_bytes(b"i0");
    assert_eq!(ascii.to_petscii().as_bytes(), &[0x49, 0x30]);
    let petscii = CbmString::from_petscii_bytes(&[0x49, 0x30]);
    assert_eq!(petscii.to_petscii().as_bytes(), &[0x49, 0x30]);
    assert_eq!(petscii.clone().to_petscii().as_bytes(), &[0x49, 0x30]);

    assert!(matches!(CbmString::try_from("abc"), Ok(CbmString::Ascii(_))));
    match CbmString::try_from("\u{e9}") {
        Ok(CbmString::Petscii(p)) => assert_eq!(p.as_bytes(), &[0xc3, 0xa9]),
        _ => panic!("text beyond ASCII is taken as PETSCII bytes"),
    }
    assert!(matches!(
        CbmString::from(AsciiString::from_ascii_str("a")),
        CbmString::Ascii(_)
    ));
    assert!(matches!(
        CbmString::from(PetsciiString::from_petscii_bytes(&[1])),
        CbmString::Petscii(_)
    ));
}
