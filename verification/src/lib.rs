//! A validated four-byte chunk type tag, as used to classify chunks in a
//! binary container format.
//!
//! A [`ChunkType`] holds exactly four bytes, each of which must be an ASCII
//! letter (`A`-`Z` or `a`-`z`).  Bit 5 of each byte -- the bit that
//! distinguishes an uppercase letter from a lowercase one -- doubles as a
//! semantic flag: criticality, public registration, reserved-bit validity and
//! copy-safety are each read off one fixed byte position.

use vstd::prelude::*;
use vstd::string::StringSliceAdditionalSpecFns;
use vstd::utf8::encode_utf8;
use vstd::utf8::encode_utf8_decode_utf8;
use vstd::utf8::is_ascii_chars;
use vstd::utf8::is_ascii_chars_encode_utf8;
use vstd::utf8::is_leading_byte_width_1;
use vstd::utf8::partial_valid_utf8;
use vstd::utf8::partial_valid_utf8_extend_ascii_block;
use vstd::utf8::valid_utf8;

verus! {

/// True of a byte that is an ASCII letter, uppercase or lowercase.
pub open spec fn spec_is_ascii_letter(b: u8) -> bool {
    spec_is_uppercase_letter(b) || spec_is_lowercase_letter(b)
}

/// True of a byte that is an uppercase ASCII letter (`A`-`Z`).
pub open spec fn spec_is_uppercase_letter(b: u8) -> bool {
    65 <= b <= 90
}

/// True of a byte that is a lowercase ASCII letter (`a`-`z`).
pub open spec fn spec_is_lowercase_letter(b: u8) -> bool {
    97 <= b <= 122
}

/// True of a byte sequence in which every byte is an ASCII letter.
pub open spec fn spec_code_valid(s: Seq<u8>) -> bool {
    forall|i: int| 0 <= i < s.len() ==> spec_is_ascii_letter(#[trigger] s[i])
}

/// True when bit 5 (value 32) of the byte is clear.  For an ASCII letter this
/// is exactly the uppercase case; see [`lemma_letter_case_bit`].
pub open spec fn spec_bit_five_clear(b: u8) -> bool {
    b & 0x20 == 0
}

/// For an ASCII letter, bit 5 is clear exactly when the letter is uppercase,
/// and set exactly when it is lowercase.
pub proof fn lemma_letter_case_bit(b: u8)
    requires
        spec_is_ascii_letter(b),
    ensures
        spec_bit_five_clear(b) <==> spec_is_uppercase_letter(b),
        !spec_bit_five_clear(b) <==> spec_is_lowercase_letter(b),
{
    assert((b & 0x20 == 0) <==> (65 <= b <= 90)) by (bit_vector)
        requires
            (65 <= b <= 90) || (97 <= b <= 122),
    ;
}

/// Reports whether all four bytes are ASCII letters: the validation that both
/// construction paths share.
pub fn bytes_are_valid(bytes: [u8; 4]) -> (r: bool)
    ensures
        r == spec_code_valid(bytes@),
{
    let r = byte_is_ascii_letter(bytes[0]) && byte_is_ascii_letter(bytes[1])
        && byte_is_ascii_letter(bytes[2]) && byte_is_ascii_letter(bytes[3]);
    proof {
        if r {
            assert forall|i: int| 0 <= i < bytes@.len() implies spec_is_ascii_letter(
                #[trigger] bytes@[i],
            ) by {
                assert(i == 0 || i == 1 || i == 2 || i == 3);
            }
        }
    }
    r
}

/// Reports whether one byte is an ASCII letter.
fn byte_is_ascii_letter(b: u8) -> (r: bool)
    ensures
        r == spec_is_ascii_letter(b),
{
    (65 <= b && b <= 90) || (97 <= b && b <= 122)
}

/// The ways construction of a [`ChunkType`] can fail.
#[derive(Clone, Copy, Debug, PartialEq, Eq, Structural)]
pub enum ChunkTypeError {
    /// One or more of the four bytes is not an ASCII letter.
    InvalidBytes,
    /// The four bytes do not form valid UTF-8.  A defensive second gate on
    /// the byte path: four ASCII letters always form valid UTF-8, so this
    /// variant is never produced, and the constructors' contracts prove so.
    Utf8Error,
    /// The text input does not encode to exactly four bytes.
    WrongLength,
}

impl ChunkTypeError {
    /// A fixed descriptive message for the error.
    pub fn message(&self) -> (r: String)
        ensures
            *self == ChunkTypeError::InvalidBytes ==> r@
                == "Bytes must represent valid uppercase or lowercase ASCII letters!"@,
            *self == ChunkTypeError::Utf8Error ==> r@ == "Failure in parsing UTF-8!"@,
            *self == ChunkTypeError::WrongLength ==> r@
                == "Unable to convert string! Ensure string is 4 bytes!"@,
    {
        match self {
            ChunkTypeError::InvalidBytes => (
                "Bytes must represent valid uppercase or lowercase ASCII letters!"
            ).to_owned(),
            ChunkTypeError::Utf8Error => ("Failure in parsing UTF-8!").to_owned(),
            ChunkTypeError::WrongLength => (
                "Unable to convert string! Ensure string is 4 bytes!"
            ).to_owned(),
        }
    }
}

/// A validated four-byte chunk type tag.  Every byte of the code is an ASCII
/// letter; values exist only through the two validated constructors.
#[derive(Clone, Copy, Debug)]
pub struct ChunkType {
    code: [u8; 4],
}

impl View for ChunkType {
    type V = Seq<u8>;

    closed spec fn view(&self) -> Seq<u8> {
        self.code@
    }
}

impl ChunkType {
    /// Every one of the four stored bytes is an ASCII letter.
    #[verifier::type_invariant]
    pub open spec fn wf(self) -> bool {
        spec_code_valid(self@)
    }

    /// Constructs a tag from four raw bytes.
    ///
    /// Succeeds exactly when every byte is an ASCII letter, and stores the
    /// bytes unchanged.  Otherwise fails with `InvalidBytes`; the defensive
    /// UTF-8 gate behind the letter check never fires, so `Utf8Error` is
    /// never returned.
    pub fn construct_from_bytes(bytes: [u8; 4]) -> (r: Result<ChunkType, ChunkTypeError>)
        ensures
            r is Ok <==> spec_code_valid(bytes@),
            r matches Ok(t) ==> t@ == bytes@,
            r matches Err(e) ==> e == ChunkTypeError::InvalidBytes,
    {
        if !bytes_are_valid(bytes) {
            return Err(ChunkTypeError::InvalidBytes);
        }
        if code_is_utf8(bytes) {
            return Ok(ChunkType { code: bytes });
        }
        Err(ChunkTypeError::Utf8Error)
    }

    /// Constructs a tag from a text string.
    ///
    /// The string must encode to exactly four bytes -- measured in raw
    /// encoded bytes, not in characters -- or the construction fails with
    /// `WrongLength`.  A four-byte encoding then passes the same letter
    /// validation as the byte path, failing with `InvalidBytes` otherwise.
    /// On success the tag holds the string's four bytes unchanged.
    pub fn construct_from_text(s: &str) -> (r: Result<ChunkType, ChunkTypeError>)
        ensures
            r is Ok <==> (s.spec_bytes().len() == 4 && spec_code_valid(s.spec_bytes())),
            r matches Ok(t) ==> t@ == s.spec_bytes(),
            r matches Err(e) ==> (e == ChunkTypeError::WrongLength <==> s.spec_bytes().len()
                != 4) && (e == ChunkTypeError::InvalidBytes <==> (s.spec_bytes().len() == 4
                && !spec_code_valid(s.spec_bytes()))),
    {
        let b: &[u8] = s.as_bytes();
        if b.len() != 4 {
            return Err(ChunkTypeError::WrongLength);
        }
        let code: [u8; 4] = [b[0], b[1], b[2], b[3]];
        proof {
            assert(code@ =~= s.spec_bytes());
        }
        if !bytes_are_valid(code) {
            return Err(ChunkTypeError::InvalidBytes);
        }
        Ok(ChunkType { code })
    }

    /// A copy of the tag's four raw bytes.
    pub fn bytes(&self) -> (r: [u8; 4])
        ensures
            r@ == self@,
    {
        self.code
    }

    /// Reports whether the two tags hold the same four bytes.  Equality is
    /// exact, and in particular case-sensitive.
    pub fn equals(&self, other: &ChunkType) -> (r: bool)
        ensures
            r == (self@ == other@),
    {
        let r = self.code[0] == other.code[0] && self.code[1] == other.code[1]
            && self.code[2] == other.code[2] && self.code[3] == other.code[3];
        proof {
            if r {
                assert(self.code@ =~= other.code@);
            }
        }
        r
    }

    /// The chunk is critical (must be understood by every consumer) exactly
    /// when bit 5 of byte 0 is clear, that is, when the first letter is
    /// uppercase.
    pub fn is_critical(&self) -> (r: bool)
        ensures
            r == self.spec_is_critical(),
    {
        self.code[0] & 0x20 == 0
    }

    /// The chunk type is publicly registered exactly when bit 5 of byte 1 is
    /// clear, that is, when the second letter is uppercase.
    pub fn is_public(&self) -> (r: bool)
        ensures
            r == self.spec_is_public(),
    {
        self.code[1] & 0x20 == 0
    }

    /// The reserved bit is valid exactly when bit 5 of byte 2 is clear, that
    /// is, when the third letter is uppercase.
    pub fn is_reserved_bit_valid(&self) -> (r: bool)
        ensures
            r == self.spec_is_reserved_bit_valid(),
    {
        self.code[2] & 0x20 == 0
    }

    /// The chunk is safe to copy unmodified exactly when bit 5 of byte 3 is
    /// set, that is, when the fourth letter is lowercase.
    pub fn is_safe_to_copy(&self) -> (r: bool)
        ensures
            r == self.spec_is_safe_to_copy(),
    {
        let b = self.code[3];
        proof {
            assert((b & 0x20 == 0x20) <==> !(b & 0x20 == 0)) by (bit_vector);
        }
        b & 0x20 == 0x20
    }

    /// Overall validity of the tag: a single derived predicate, equal to
    /// [`ChunkType::is_reserved_bit_valid`] and independent of the other
    /// three classifications.
    pub fn is_valid(&self) -> (r: bool)
        ensures
            r == self.spec_is_valid(),
    {
        self.is_reserved_bit_valid()
    }

    /// The canonical text rendering of the tag: its four bytes reinterpreted
    /// as four ASCII characters, byte order and case preserved.  Always
    /// succeeds, since every stored byte is an ASCII letter.
    pub fn render(&self) -> (r: String)
        ensures
            r@.len() == 4,
            forall|i: int| 0 <= i < 4 ==> r@[i] == (self@[i] as char),
            encode_utf8(r@) == self@,
    {
        proof {
            use_type_invariant(&*self);
            assert forall|i: int| 0 <= i < self.code@.len() implies #[trigger] self.code@[i]
                < 128 by {}
            lemma_ascii_code_valid_utf8(self.code@);
        }
        let r = text_from_utf8(self.code);
        proof {
            lemma_ascii_code_decodes_bytewise(self.code@, r@);
        }
        r
    }

    /// Bit 5 of byte 0 is clear.
    pub open spec fn spec_is_critical(self) -> bool {
        spec_bit_five_clear(self@[0])
    }

    /// Bit 5 of byte 1 is clear.
    pub open spec fn spec_is_public(self) -> bool {
        spec_bit_five_clear(self@[1])
    }

    /// Bit 5 of byte 2 is clear.
    pub open spec fn spec_is_reserved_bit_valid(self) -> bool {
        spec_bit_five_clear(self@[2])
    }

    /// Bit 5 of byte 3 is set.
    pub open spec fn spec_is_safe_to_copy(self) -> bool {
        !spec_bit_five_clear(self@[3])
    }

    /// Validity is reserved-bit validity, by definition.
    pub open spec fn spec_is_valid(self) -> bool {
        self.spec_is_reserved_bit_valid()
    }
}

/// Case-bit law: each classification of a tag is decided by the case of one
/// fixed letter of its code.  An uppercase byte 0 means critical and a
/// lowercase byte 0 means not critical; bytes 1 and 2 decide public
/// registration and reserved-bit validity the same way; byte 3 decides
/// copy-safety with the polarity inverted (safe to copy exactly when
/// lowercase).
pub proof fn lemma_case_bit_flags(t: ChunkType)
    requires
        t.wf(),
    ensures
        t.spec_is_critical() <==> spec_is_uppercase_letter(t@[0]),
        !t.spec_is_critical() <==> spec_is_lowercase_letter(t@[0]),
        t.spec_is_public() <==> spec_is_uppercase_letter(t@[1]),
        !t.spec_is_public() <==> spec_is_lowercase_letter(t@[1]),
        t.spec_is_reserved_bit_valid() <==> spec_is_uppercase_letter(t@[2]),
        !t.spec_is_reserved_bit_valid() <==> spec_is_lowercase_letter(t@[2]),
        t.spec_is_safe_to_copy() <==> spec_is_lowercase_letter(t@[3]),
        !t.spec_is_safe_to_copy() <==> spec_is_uppercase_letter(t@[3]),
{
    lemma_letter_case_bit(t@[0]);
    lemma_letter_case_bit(t@[1]);
    lemma_letter_case_bit(t@[2]);
    lemma_letter_case_bit(t@[3]);
}

/// Overall validity is reserved-bit validity, for every tag, independent of
/// the other three classifications.
pub proof fn lemma_valid_is_reserved_bit_valid(t: ChunkType)
    ensures
        t.spec_is_valid() == t.spec_is_reserved_bit_valid(),
{
}

/// Equality of tags is exact byte equality, case included: two tags are the
/// same value exactly when their four-byte codes match.
pub proof fn lemma_equality_is_byte_equality(a: ChunkType, b: ChunkType)
    ensures
        (a == b) <==> (a@ == b@),
{
    if a@ == b@ {
        assert(a.code =~= b.code);
    }
}

/// Round-trip law: rendering a tag and re-parsing the rendering through the
/// text constructor always succeeds and reconstructs an equal tag.
/// [`ChunkType::render`] returns text whose UTF-8 encoding is the tag's own
/// four bytes; this lemma shows that such text meets the success condition
/// of [`ChunkType::construct_from_text`], and that the tag the constructor
/// then returns equals the original.
pub proof fn lemma_render_round_trip(t: ChunkType, rendered: Seq<char>, reparsed: ChunkType)
    requires
        t.wf(),
        encode_utf8(rendered) == t@,
        reparsed@ == encode_utf8(rendered),
    ensures
        encode_utf8(rendered).len() == 4,
        spec_code_valid(encode_utf8(rendered)),
        reparsed == t,
{
    lemma_equality_is_byte_equality(reparsed, t);
}

impl PartialEq for ChunkType {
    /// Tags are equal exactly when their four bytes match, case included.
    fn eq(&self, other: &ChunkType) -> (r: bool) {
        self.equals(other)
    }
}

impl Eq for ChunkType {

}

impl vstd::std_specs::cmp::PartialEqSpecImpl for ChunkType {
    open spec fn obeys_eq_spec() -> bool {
        true
    }

    open spec fn eq_spec(&self, other: &ChunkType) -> bool {
        self@ == other@
    }
}

/// The defensive second gate on the byte path: checks that the four bytes are
/// ASCII, and hence are their own valid UTF-8 encoding.  Reached only after
/// the letter check, where it always passes.
fn code_is_utf8(bytes: [u8; 4]) -> (r: bool)
    ensures
        r == (forall|i: int| 0 <= i < 4 ==> bytes@[i] < 128),
        r ==> valid_utf8(bytes@),
{
    let r = bytes[0] < 128 && bytes[1] < 128 && bytes[2] < 128 && bytes[3] < 128;
    proof {
        if r {
            assert forall|i: int| 0 <= i < 4 implies #[trigger] bytes@[i] < 128 by {
                assert(i == 0 || i == 1 || i == 2 || i == 3);
            }
            lemma_ascii_code_valid_utf8(bytes@);
        }
    }
    r
}

/// Relies on `String::from_utf8`: on success the returned text is exactly
/// the text whose UTF-8 encoding is the given bytes.  The `requires` makes
/// the failure case, and so the `unwrap`, unreachable.
#[verifier::external_body]
fn text_from_utf8(bytes: [u8; 4]) -> (r: String)
    requires
        valid_utf8(bytes@),
    ensures
        encode_utf8(r@) == bytes@,
{
    String::from_utf8(bytes.to_vec()).unwrap()
}

/// A sequence of ASCII bytes decodes bytewise: the text whose UTF-8 encoding
/// is an all-ASCII byte sequence has one character per byte, each the byte's
/// own codepoint.
proof fn lemma_ascii_code_decodes_bytewise(bytes: Seq<u8>, chars: Seq<char>)
    requires
        forall|i: int| 0 <= i < bytes.len() ==> #[trigger] bytes[i] < 128,
        encode_utf8(chars) == bytes,
    ensures
        chars.len() == bytes.len(),
        forall|i: int| 0 <= i < bytes.len() ==> chars[i] == (#[trigger] bytes[i] as char),
{
    let cs = Seq::new(bytes.len(), |i: int| bytes[i] as char);
    assert(is_ascii_chars(cs));
    is_ascii_chars_encode_utf8(cs);
    assert(encode_utf8(cs) =~= bytes);
    encode_utf8_decode_utf8(cs);
    encode_utf8_decode_utf8(chars);
    assert(chars == cs);
}

/// A sequence of ASCII bytes is a valid UTF-8 encoding.
proof fn lemma_ascii_code_valid_utf8(s: Seq<u8>)
    requires
        forall|i: int| 0 <= i < s.len() ==> #[trigger] s[i] < 128,
    ensures
        valid_utf8(s),
{
    assert(s.subrange(0, 0) =~= Seq::<u8>::empty());
    assert(valid_utf8(s.subrange(0, 0)));
    assert(partial_valid_utf8(s, 0));
    assert forall|i: int| 0 <= i < s.len() implies #[trigger] is_leading_byte_width_1(s[i]) by {}
    partial_valid_utf8_extend_ascii_block(s, 0, s.len() as int);
    assert(s.subrange(0, s.len() as int) =~= s);
}

} // verus!
