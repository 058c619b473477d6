use rs1541::string::AsciiString;
use rs1541::util::{ascii_to_petscii, petscii_to_ascii};

#[test]
fn test_ascii_string_conversion() {
    let ascii = AsciiString::try_from("Hello").unwrap();
    let petscii = ascii.to_petscii();
    let back_to_ascii = petscii.to_ascii();
    assert_eq!(ascii, back_to_ascii);
}

#[test]
fn test_ascii_validation() {
    assert!(AsciiString::try_from("Hello").is_ok());
    assert!(AsciiString::try_from("Hello üåç").is_err());
}

#[test]
fn test_display() {
    let ascii = AsciiString::try_from("Hello").unwrap();
    let petscii = ascii.to_petscii();

    assert_eq!(&ascii.to_string(), "Hello");
    assert_eq!(&petscii.to_string(), "Hello");
}

#[test]
fn test_equality() {
    let ascii1 = AsciiString::try_from("TEST").unwrap();
    let petscii1 = ascii1.to_petscii();
    let ascii2 = AsciiString::try_from("TEST").unwrap();
    let petscii2 = ascii2.to_petscii();

    // Every combination of the two types compares.
    assert_eq!(ascii1, ascii2);
    assert_eq!(petscii1, petscii2);
    assert_eq!(ascii1, petscii1);
    assert_eq!(petscii1, ascii1);

    let different = AsciiString::try_from("OTHER").unwrap();
    assert_ne!(ascii1, different);
    assert_ne!(petscii1, different);
    assert_ne!(petscii1, different.to_petscii());
}

#[test]
fn test_petscii_special_chars() {
    assert_eq!(petscii_to_ascii(0x0a), '\n');
    assert_eq!(petscii_to_ascii(0x0d), '\n');
    assert_eq!(petscii_to_ascii(0x40), '@');
    assert_eq!(petscii_to_ascii(0x60), '`');
    assert_eq!(petscii_to_ascii(0xa0), ' ');
    assert_eq!(petscii_to_ascii(0xe0), ' ');
}

#[test]
fn test_ascii_conversion() {
    // Upper-case letters
    assert_eq!(ascii_to_petscii('A'), 0xc1);
    assert_eq!(ascii_to_petscii('Z'), 0xda);

    // Brackets
    assert_eq!(ascii_to_petscii('['), 0x7b);
    assert_eq!(ascii_to_petscii(']'), 0x7d);

    // Lower-case letters and digits
    assert_eq!(ascii_to_petscii('a'), b'A');
    assert_eq!(ascii_to_petscii('1'), b'1');
}
