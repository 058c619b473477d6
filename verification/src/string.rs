//! Byte strings that know their character set: [`AsciiString`] holds 7-bit
//! ASCII, [`PetsciiString`] holds any bytes in the drive's own character set,
//! and [`CbmString`] is either of the two.

use crate::util::{
    ascii_to_petscii, ascii_to_petscii_spec, lemma_ascii_round_trip, petscii_to_ascii,
    petscii_to_ascii_spec, survives_round_trip,
};
use vstd::prelude::*;
use vstd::std_specs::cmp::PartialEqSpecImpl;
use vstd::std_specs::convert::{FromSpecImpl, TryFromSpecImpl};
use vstd::string::StringSliceAdditionalSpecFns;
use vstd::utf8::is_ascii_chars;

verus! {

/// Whether every byte of `bytes` is 7-bit ASCII.
pub open spec fn is_ascii_bytes(bytes: Seq<u8>) -> bool {
    forall|i: int| 0 <= i < bytes.len() ==> #[trigger] bytes[i] < 0x80
}

/// The PETSCII bytes for a sequence of ASCII bytes.
pub open spec fn encode_bytes(ascii: Seq<u8>) -> Seq<u8> {
    ascii.map_values(|b: u8| ascii_to_petscii_spec(b as char))
}

/// The ASCII bytes that display a sequence of PETSCII bytes.
pub open spec fn decode_bytes(petscii: Seq<u8>) -> Seq<u8> {
    petscii.map_values(|b: u8| petscii_to_ascii_spec(b) as u8)
}

/// The characters with the codes given by `bytes`.
pub open spec fn bytes_as_chars(bytes: Seq<u8>) -> Seq<char> {
    bytes.map_values(|b: u8| b as char)
}

/// The bytes with the codes of the characters of an ASCII text.
pub open spec fn chars_as_bytes(text: Seq<char>) -> Seq<u8> {
    Seq::new(text.len(), |i: int| text[i] as u8)
}

/// Whether two byte sequences hold the same bytes.
pub fn bytes_equal(a: &[u8], b: &[u8]) -> (same: bool)
    ensures
        same == (a@ == b@),
{
    if a.len() != b.len() {
        return false;
    }
    let mut i: usize = 0;
    while i < a.len()
        invariant
            i <= a.len(),
            a.len() == b.len(),
            a@.take(i as int) == b@.take(i as int),
        decreases a.len() - i,
    {
        if a[i] != b[i] {
            return false;
        }
        proof {
            assert(a@.take(i + 1) == a@.take(i as int).push(a@[i as int]));
            assert(b@.take(i + 1) == b@.take(i as int).push(b@[i as int]));
        }
        i = i + 1;
    }
    proof {
        assert(a@.take(a.len() as int) == a@);
        assert(b@.take(b.len() as int) == b@);
    }
    true
}

/// A copy of a byte sequence.
pub fn bytes_to_vec(bytes: &[u8]) -> (out: Vec<u8>)
    ensures
        out@ == bytes@,
{
    let mut out: Vec<u8> = Vec::new();
    let mut i: usize = 0;
    while i < bytes.len()
        invariant
            i <= bytes.len(),
            out@ == bytes@.take(i as int),
        decreases bytes.len() - i,
    {
        out.push(bytes[i]);
        i = i + 1;
    }
    out
}

/// A copy of the bytes of `bytes` from index `from` up to, not including, `to`.
pub fn bytes_to_vec_range(bytes: &[u8], from: usize, to: usize) -> (out: Vec<u8>)
    requires
        from <= to <= bytes@.len(),
    ensures
        out@ == bytes@.subrange(from as int, to as int),
{
    let mut out: Vec<u8> = Vec::new();
    let mut i: usize = from;
    while i < to
        invariant
            from <= i <= to <= bytes@.len(),
            out@ == bytes@.subrange(from as int, i as int),
        decreases to - i,
    {
        out.push(bytes[i]);
        i = i + 1;
    }
    out
}

/// A byte string in the drive's character set. Any byte is allowed.
#[derive(Debug)]
pub struct PetsciiString(Vec<u8>);

/// A byte string of 7-bit ASCII.
#[derive(Debug)]
pub struct AsciiString(Vec<u8>);

impl View for PetsciiString {
    type V = Seq<u8>;

    closed spec fn view(&self) -> Seq<u8> {
        self.0@
    }
}

impl View for AsciiString {
    type V = Seq<u8>;

    closed spec fn view(&self) -> Seq<u8> {
        self.0@
    }
}

impl Clone for PetsciiString {
    fn clone(&self) -> (copy: Self)
        ensures
            copy@ == self@,
    {
        PetsciiString(bytes_to_vec(self.0.as_slice()))
    }
}

impl Clone for AsciiString {
    fn clone(&self) -> (copy: Self)
        ensures
            copy@ == self@,
    {
        proof {
            use_type_invariant(self);
        }
        AsciiString(bytes_to_vec(self.0.as_slice()))
    }
}

impl PetsciiString {
    /// Takes over `bytes` as they are.
    pub fn from_bytes_unchecked(bytes: Vec<u8>) -> (s: Self)
        ensures
            s@ == bytes@,
    {
        PetsciiString(bytes)
    }

    /// Every byte sequence is valid PETSCII, so this always gives `Some`.
    pub fn from_bytes(bytes: &[u8]) -> (s: Option<Self>)
        ensures
            s matches Some(p) && p@ == bytes@,
    {
        Some(PetsciiString(bytes_to_vec(bytes)))
    }

    /// A string holding `bytes`, which are already PETSCII.
    pub fn from_petscii_bytes(bytes: &[u8]) -> (s: Self)
        ensures
            s@ == bytes@,
    {
        PetsciiString(bytes_to_vec(bytes))
    }

    /// The PETSCII encoding of an ASCII text.
    pub fn from_ascii_str(s: &str) -> (p: Self)
        requires
            is_ascii_chars(s@),
        ensures
            p@ == encode_bytes(chars_as_bytes(s@)),
    {
        AsciiString::from_ascii_str(s).to_petscii()
    }

    /// The ASCII string that displays this one.
    pub fn to_ascii(&self) -> (a: AsciiString)
        ensures
            a@ == decode_bytes(self@),
    {
        let mut converted: Vec<u8> = Vec::new();
        let mut i: usize = 0;
        while i < self.0.len()
            invariant
                i <= self.0.len(),
                converted@ == decode_bytes(self.0@.take(i as int)),
                is_ascii_bytes(converted@),
            decreases self.0.len() - i,
        {
            let c: char = petscii_to_ascii(self.0[i]);
            converted.push(c as u8);
            proof {
                assert(self.0@.take(i + 1) == self.0@.take(i as int).push(self.0@[i as int]));
            }
            i = i + 1;
        }
        proof {
            assert(self.0@.take(self.0.len() as int) == self.0@);
        }
        AsciiString(converted)
    }

    /// The bytes of the string.
    pub fn as_bytes(&self) -> (bytes: &[u8])
        ensures
            bytes@ == self@,
    {
        self.0.as_slice()
    }

    /// The text that displays the string.
    pub fn to_string(&self) -> (text: String)
        ensures
            text@ == bytes_as_chars(decode_bytes(self@)),
    {
        self.to_ascii().to_string()
    }
}

impl AsciiString {
    #[verifier::type_invariant]
    spec fn well_formed(self) -> bool {
        is_ascii_bytes(self.0@)
    }

    /// Takes over `bytes`, which the caller knows to be ASCII.
    pub fn from_bytes_unchecked(bytes: Vec<u8>) -> (s: Self)
        requires
            is_ascii_bytes(bytes@),
        ensures
            s@ == bytes@,
    {
        AsciiString(bytes)
    }

    /// A string holding `bytes`, or `None` where one of them is not ASCII.
    pub fn from_bytes(bytes: &[u8]) -> (s: Option<Self>)
        ensures
            s is Some <==> is_ascii_bytes(bytes@),
            s matches Some(a) ==> a@ == bytes@,
    {
        let mut i: usize = 0;
        while i < bytes.len()
            invariant
                i <= bytes.len(),
                is_ascii_bytes(bytes@.take(i as int)),
            decreases bytes.len() - i,
        {
            if bytes[i] >= 0x80 {
                return None;
            }
            proof {
                assert forall|j: int| 0 <= j < i + 1 implies #[trigger] bytes@.take(i + 1)[j] < 0x80 by {
                    if j < i {
                        assert(bytes@.take(i as int)[j] < 0x80);
                    }
                }
            }
            i = i + 1;
        }
        proof {
            assert(bytes@.take(bytes.len() as int) == bytes@);
        }
        Some(AsciiString(bytes_to_vec(bytes)))
    }

    /// The PETSCII encoding of the string.
    pub fn to_petscii(&self) -> (p: PetsciiString)
        ensures
            p@ == encode_bytes(self@),
    {
        let mut converted: Vec<u8> = Vec::new();
        let mut i: usize = 0;
        while i < self.0.len()
            invariant
                i <= self.0.len(),
                converted@ == encode_bytes(self.0@.take(i as int)),
            decreases self.0.len() - i,
        {
            converted.push(ascii_to_petscii(self.0[i] as char));
            proof {
                assert(self.0@.take(i + 1) == self.0@.take(i as int).push(self.0@[i as int]));
            }
            i = i + 1;
        }
        proof {
            assert(self.0@.take(self.0.len() as int) == self.0@);
        }
        PetsciiString(converted)
    }

    /// The string as text: one character for each byte.
    pub fn to_string(&self) -> (text: String)
        ensures
            text@ == bytes_as_chars(self@),
    {
        let mut text = String::new();
        let mut i: usize = 0;
        while i < self.0.len()
            invariant
                i <= self.0.len(),
                text@ == bytes_as_chars(self.0@.take(i as int)),
            decreases self.0.len() - i,
        {
            text.push(self.0[i] as char);
            proof {
                assert(self.0@.take(i + 1) == self.0@.take(i as int).push(self.0@[i as int]));
            }
            i = i + 1;
        }
        proof {
            assert(self.0@.take(self.0.len() as int) == self.0@);
        }
        text
    }

    /// The bytes of the string.
    pub fn as_bytes(&self) -> (bytes: &[u8])
        ensures
            bytes@ == self@,
            is_ascii_bytes(bytes@),
    {
        proof {
            use_type_invariant(self);
        }
        self.0.as_slice()
    }

    /// The bytes of an ASCII text as a string of this type.
    pub fn from_ascii_str(s: &str) -> (a: Self)
        requires
            is_ascii_chars(s@),
        ensures
            a@ == chars_as_bytes(s@),
    {
        let bytes = s.as_bytes();
        proof {
            vstd::string::is_ascii_spec_bytes(s);
            assert(bytes@ == chars_as_bytes(s@));
        }
        AsciiString(bytes_to_vec(bytes))
    }
}


impl PartialEq for AsciiString {
    fn eq(&self, other: &Self) -> (same: bool) {
        bytes_equal(self.0.as_slice(), other.0.as_slice())
    }
}

impl PartialEqSpecImpl for AsciiString {
    open spec fn obeys_eq_spec() -> bool {
        true
    }

    /// Two ASCII strings are equal where they hold the same bytes.
    open spec fn eq_spec(&self, other: &Self) -> bool {
        self@ == other@
    }
}

impl Eq for AsciiString {

}

impl PartialEq for PetsciiString {
    fn eq(&self, other: &Self) -> (same: bool) {
        let mine = self.to_ascii();
        let theirs = other.to_ascii();
        bytes_equal(mine.as_bytes(), theirs.as_bytes())
    }
}

impl PartialEqSpecImpl for PetsciiString {
    open spec fn obeys_eq_spec() -> bool {
        true
    }

    /// Two PETSCII strings are equal where they are displayed alike.
    open spec fn eq_spec(&self, other: &Self) -> bool {
        decode_bytes(self@) == decode_bytes(other@)
    }
}

impl Eq for PetsciiString {

}

impl PartialEq<AsciiString> for PetsciiString {
    fn eq(&self, other: &AsciiString) -> (same: bool) {
        let mine = self.to_ascii();
        bytes_equal(mine.as_bytes(), other.as_bytes())
    }
}

impl PartialEqSpecImpl<AsciiString> for PetsciiString {
    open spec fn obeys_eq_spec() -> bool {
        true
    }

    /// A PETSCII string equals the ASCII string that displays it.
    open spec fn eq_spec(&self, other: &AsciiString) -> bool {
        decode_bytes(self@) == other@
    }
}

impl PartialEq<PetsciiString> for AsciiString {
    fn eq(&self, other: &PetsciiString) -> (same: bool) {
        let theirs = other.to_ascii();
        bytes_equal(self.as_bytes(), theirs.as_bytes())
    }
}

impl PartialEqSpecImpl<PetsciiString> for AsciiString {
    open spec fn obeys_eq_spec() -> bool {
        true
    }

    /// An ASCII string equals the PETSCII strings that it displays.
    open spec fn eq_spec(&self, other: &PetsciiString) -> bool {
        self@ == decode_bytes(other@)
    }
}


impl<'a> TryFrom<&'a str> for AsciiString {
    type Error = &'static str;

    /// The bytes of `s` where it is ASCII, and an error message where it is not.
    fn try_from(s: &'a str) -> (r: Result<Self, Self::Error>)
        ensures
            r is Ok <==> is_ascii_chars(s@),
            r matches Ok(a) ==> a@ == chars_as_bytes(s@),
    {
        if s.is_ascii() {
            Ok(AsciiString::from_ascii_str(s))
        } else {
            Err("String contains non-ASCII characters")
        }
    }
}

impl<'a> TryFromSpecImpl<&'a str> for AsciiString {
    open spec fn obeys_try_from_spec() -> bool {
        false
    }

    open spec fn try_from_spec(v: &'a str) -> Result<Self, Self::Error> {
        arbitrary()
    }
}

impl TryFrom<String> for AsciiString {
    type Error = &'static str;

    /// The bytes of `s` where it is ASCII, and an error message where it is not.
    fn try_from(s: String) -> (r: Result<Self, Self::Error>)
        ensures
            r is Ok <==> is_ascii_chars(s@),
            r matches Ok(a) ==> a@ == chars_as_bytes(s@),
    {
        AsciiString::try_from(s.as_str())
    }
}

impl TryFromSpecImpl<String> for AsciiString {
    open spec fn obeys_try_from_spec() -> bool {
        false
    }

    open spec fn try_from_spec(v: String) -> Result<Self, Self::Error> {
        arbitrary()
    }
}

/// An ASCII or a PETSCII string.
pub enum CbmString {
    Ascii(AsciiString),
    Petscii(PetsciiString),
}

impl Clone for CbmString {
    fn clone(&self) -> (copy: Self)
        ensures
            copy.petscii_bytes() == self.petscii_bytes(),
            copy is Ascii <==> self is Ascii,
    {
        match self {
            CbmString::Ascii(ascii) => CbmString::Ascii(ascii.clone()),
            CbmString::Petscii(petscii) => CbmString::Petscii(petscii.clone()),
        }
    }
}

impl CbmString {
    /// The bytes that the string stands for in the drive's character set.
    pub open spec fn petscii_bytes(&self) -> Seq<u8> {
        match self {
            CbmString::Ascii(ascii) => encode_bytes(ascii@),
            CbmString::Petscii(petscii) => petscii@,
        }
    }

    /// The string in the drive's character set.
    pub fn to_petscii(&self) -> (p: PetsciiString)
        ensures
            p@ == self.petscii_bytes(),
    {
        match self {
            CbmString::Ascii(ascii) => ascii.to_petscii(),
            CbmString::Petscii(petscii) => petscii.clone(),
        }
    }

    /// A PETSCII string holding `bytes`.
    pub fn from_petscii_bytes(bytes: &[u8]) -> (s: Self)
        ensures
            s matches CbmString::Petscii(p) && p@ == bytes@,
    {
        CbmString::Petscii(PetsciiString::from_petscii_bytes(bytes))
    }

    /// An ASCII string holding `bytes`, which must all be ASCII.
    pub fn from_ascii_bytes(bytes: &[u8]) -> (s: Self)
        requires
            is_ascii_bytes(bytes@),
        ensures
            s matches CbmString::Ascii(a) && a@ == bytes@,
    {
        CbmString::Ascii(AsciiString::from_bytes_unchecked(bytes_to_vec(bytes)))
    }
}

impl From<AsciiString> for CbmString {
    fn from(ascii: AsciiString) -> (s: Self) {
        CbmString::Ascii(ascii)
    }
}

impl FromSpecImpl<AsciiString> for CbmString {
    open spec fn obeys_from_spec() -> bool {
        true
    }

    open spec fn from_spec(ascii: AsciiString) -> Self {
        CbmString::Ascii(ascii)
    }
}

impl From<PetsciiString> for CbmString {
    fn from(petscii: PetsciiString) -> (s: Self) {
        CbmString::Petscii(petscii)
    }
}

impl FromSpecImpl<PetsciiString> for CbmString {
    open spec fn obeys_from_spec() -> bool {
        true
    }

    open spec fn from_spec(petscii: PetsciiString) -> Self {
        CbmString::Petscii(petscii)
    }
}


impl<'a> TryFrom<&'a str> for CbmString {
    type Error = &'static str;

    /// Takes `s` as ASCII where it is ASCII, and as PETSCII bytes where it is
    /// not. This never fails.
    fn try_from(s: &'a str) -> (r: Result<Self, Self::Error>)
        ensures
            r is Ok,
            is_ascii_chars(s@) ==> (r matches Ok(CbmString::Ascii(a)) && a@ == chars_as_bytes(s@)),
            !is_ascii_chars(s@) ==> (r matches Ok(CbmString::Petscii(p)) && p@ == s.spec_bytes()),
    {
        if s.is_ascii() {
            Ok(CbmString::Ascii(AsciiString::from_ascii_str(s)))
        } else {
            Ok(CbmString::Petscii(PetsciiString::from_petscii_bytes(s.as_bytes())))
        }
    }
}

impl<'a> TryFromSpecImpl<&'a str> for CbmString {
    open spec fn obeys_try_from_spec() -> bool {
        false
    }

    open spec fn try_from_spec(v: &'a str) -> Result<Self, Self::Error> {
        arbitrary()
    }
}


impl From<AsciiString> for PetsciiString {
    /// The PETSCII encoding of an ASCII string.
    fn from(v: AsciiString) -> (r: Self)
        ensures
            r@ == encode_bytes(v@),
    {
        v.to_petscii()
    }
}

impl FromSpecImpl<AsciiString> for PetsciiString {
    open spec fn obeys_from_spec() -> bool {
        false
    }

    open spec fn from_spec(v: AsciiString) -> Self {
        arbitrary()
    }
}

impl From<PetsciiString> for AsciiString {
    /// The ASCII string that displays a PETSCII string.
    fn from(v: PetsciiString) -> (r: Self)
        ensures
            r@ == decode_bytes(v@),
    {
        v.to_ascii()
    }
}

impl FromSpecImpl<PetsciiString> for AsciiString {
    open spec fn obeys_from_spec() -> bool {
        false
    }

    open spec fn from_spec(v: PetsciiString) -> Self {
        arbitrary()
    }
}

impl<'a> From<&'a AsciiString> for PetsciiString {
    /// The PETSCII encoding of an ASCII string.
    fn from(v: &'a AsciiString) -> (r: Self)
        ensures
            r@ == encode_bytes(v@),
    {
        v.to_petscii()
    }
}

impl<'a> FromSpecImpl<&'a AsciiString> for PetsciiString {
    open spec fn obeys_from_spec() -> bool {
        false
    }

    open spec fn from_spec(v: &'a AsciiString) -> Self {
        arbitrary()
    }
}

impl<'a> From<&'a PetsciiString> for AsciiString {
    /// The ASCII string that displays a PETSCII string.
    fn from(v: &'a PetsciiString) -> (r: Self)
        ensures
            r@ == decode_bytes(v@),
    {
        v.to_ascii()
    }
}

impl<'a> FromSpecImpl<&'a PetsciiString> for AsciiString {
    open spec fn obeys_from_spec() -> bool {
        false
    }

    open spec fn from_spec(v: &'a PetsciiString) -> Self {
        arbitrary()
    }
}

impl From<AsciiString> for String {
    /// The string as text: one character for each byte.
    fn from(v: AsciiString) -> (r: Self)
        ensures
            r@ == bytes_as_chars(v@),
    {
        v.to_string()
    }
}

impl FromSpecImpl<AsciiString> for String {
    open spec fn obeys_from_spec() -> bool {
        false
    }

    open spec fn from_spec(v: AsciiString) -> Self {
        arbitrary()
    }
}

impl<'a> TryFrom<&'a String> for AsciiString {
    type Error = &'static str;

    /// The bytes of `s` where it is ASCII, and an error message where it is not.
    fn try_from(s: &'a String) -> (r: Result<Self, Self::Error>)
        ensures
            r is Ok <==> is_ascii_chars(s@),
            r matches Ok(a) ==> a@ == chars_as_bytes(s@),
    {
        AsciiString::try_from(s.as_str())
    }
}

impl<'a> TryFromSpecImpl<&'a String> for AsciiString {
    open spec fn obeys_try_from_spec() -> bool {
        false
    }

    open spec fn try_from_spec(v: &'a String) -> Result<Self, Self::Error> {
        arbitrary()
    }
}


/// An ASCII string of graphic characters other than the backquote, and of
/// newlines, comes back unchanged from its PETSCII encoding.
pub proof fn lemma_string_round_trip(ascii: Seq<u8>)
    requires
        forall|i: int| 0 <= i < ascii.len() ==> survives_round_trip(#[trigger] ascii[i] as char),
    ensures
        decode_bytes(encode_bytes(ascii)) == ascii,
{
    assert forall|i: int| 0 <= i < ascii.len() implies decode_bytes(encode_bytes(ascii))[i]
        == ascii[i] by {
        lemma_ascii_round_trip(ascii[i] as char);
    }
}

} // verus!
