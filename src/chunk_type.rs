use vstd::prelude::*;
use vstd::std_specs::convert::TryFromSpec;
use vstd::string::StringSliceAdditionalSpecFns;

verus! {

/// Whether bit 5 (value 32) of `b` is set.
pub open spec fn bit5_set(b: u8) -> bool {
    (b as int / 32) % 2 == 1
}

proof fn lemma_bit5(b: u8)
    ensures
        (b & 0x20u8 != 0u8) == bit5_set(b),
{
    assert((b & 0x20u8 != 0u8) == ((b / 32u8) % 2u8 == 1u8)) by (bit_vector);
}

/// The four bytes that spell the characters `a`, `b`, `c`, `d`.
pub open spec fn tag_of(a: char, b: char, c: char, d: char) -> Seq<u8> {
    seq![a as u8, b as u8, c as u8, d as u8]
}

/// The chunk types this library recognises, compared byte for byte.
pub open spec fn known_tags() -> Seq<Seq<u8>> {
    seq![
        tag_of('I', 'H', 'D', 'R'),
        tag_of('P', 'L', 'T', 'E'),
        tag_of('I', 'D', 'A', 'T'),
        tag_of('I', 'E', 'N', 'D'),
        tag_of('t', 'E', 'X', 't'),
        tag_of('z', 'T', 'X', 't'),
        tag_of('i', 'T', 'X', 't'),
        tag_of('p', 'H', 'Y', 's'),
    ]
}

/// The recognised chunk types as text, in the order of `known_tags`.
pub open spec fn known_names() -> Seq<Seq<char>> {
    seq![
        seq!['I', 'H', 'D', 'R'],
        seq!['P', 'L', 'T', 'E'],
        seq!['I', 'D', 'A', 'T'],
        seq!['I', 'E', 'N', 'D'],
        seq!['t', 'E', 'X', 't'],
        seq!['z', 'T', 'X', 't'],
        seq!['i', 'T', 'X', 't'],
        seq!['p', 'H', 'Y', 's'],
    ]
}

/// A printable ASCII character, space to tilde.
pub open spec fn printable_ascii(c: char) -> bool {
    ' ' <= c && c <= '~'
}

/// Every byte is an ASCII code (below 128).
pub open spec fn ascii_bytes(b: Seq<u8>) -> bool {
    forall|i: int| 0 <= i < b.len() ==> b[i] < 128
}

/// Each byte read as the character with that code.
pub open spec fn chars_of(b: Seq<u8>) -> Seq<char> {
    b.map_values(|c: u8| c as char)
}

/// What `String::from_utf8_lossy` makes of the bytes `b`.
pub uninterp spec fn utf8_lossy(b: Seq<u8>) -> Seq<char>;

/// The text of a tag: ASCII bytes as their characters, anything else as
/// UTF-8 with invalid sequences replaced.
pub open spec fn rendered(b: Seq<u8>) -> Seq<char> {
    if ascii_bytes(b) {
        chars_of(b)
    } else {
        utf8_lossy(b)
    }
}

/// Relies on `String::from_utf8_lossy`: the text depends on the bytes alone,
/// and bytes that are valid UTF-8 (ASCII bytes among them, one character
/// each) come back unchanged.
#[verifier::external_body]
fn decode_lossy(b: &[u8]) -> (r: String)
    ensures
        r@ == utf8_lossy(b@),
        ascii_bytes(b@) ==> r@ == chars_of(b@),
{
    String::from_utf8_lossy(b).into_owned()
}

/// Whether `v` spells the characters `a`, `b`, `c`, `d`.
fn spells(v: &[u8; 4], a: char, b: char, c: char, d: char) -> (r: bool)
    ensures
        r == (v@ == tag_of(a, b, c, d)),
{
    let r = v[0] == a as u8 && v[1] == b as u8 && v[2] == c as u8 && v[3] == d as u8;
    proof {
        if r {
            assert(v@ =~= tag_of(a, b, c, d));
        }
    }
    r
}

/// Why a chunk type could not be built.
#[derive(Debug, PartialEq, Eq, Structural)]
pub enum ChunkTypeError {
    /// The source did not hold exactly four bytes.
    SizeError,
    /// The bytes are not a recognised chunk type. Construction is permissive
    /// and never reports this: use `ChunkType::is_valid` to check a tag.
    InvalidChunkType,
}

/// A chunk type: four bytes, stored as they were given.
#[derive(Debug)]
pub struct ChunkType {
    value: [u8; 4],
}

impl View for ChunkType {
    type V = Seq<u8>;

    closed spec fn view(&self) -> Seq<u8> {
        self.value@
    }
}

impl ChunkType {
    /// The view of every chunk type holds exactly four bytes.
    pub proof fn lemma_view_len(&self)
        ensures
            self@.len() == 4,
    {
    }

    /// The four bytes of the tag.
    pub fn bytes(&self) -> (r: [u8; 4])
        ensures
            r@ == self@,
    {
        self.value
    }

    /// Whether the tag is one of the recognised chunk types. This is a
    /// lookup in a fixed list, independent of the property bits.
    pub fn is_valid(&self) -> (r: bool)
        ensures
            r == known_tags().contains(self@),
    {
        let v = &self.value;
        let r = spells(v, 'I', 'H', 'D', 'R') || spells(v, 'P', 'L', 'T', 'E')
            || spells(v, 'I', 'D', 'A', 'T') || spells(v, 'I', 'E', 'N', 'D')
            || spells(v, 't', 'E', 'X', 't') || spells(v, 'z', 'T', 'X', 't')
            || spells(v, 'i', 'T', 'X', 't') || spells(v, 'p', 'H', 'Y', 's');
        proof {
            let k = known_tags();
            if r {
                let i: int = if self@ == k[0] {
                    0
                } else if self@ == k[1] {
                    1
                } else if self@ == k[2] {
                    2
                } else if self@ == k[3] {
                    3
                } else if self@ == k[4] {
                    4
                } else if self@ == k[5] {
                    5
                } else if self@ == k[6] {
                    6
                } else {
                    7
                };
                assert(k[i] == self@);
            } else {
                assert(!k.contains(self@)) by {
                    if k.contains(self@) {
                        let i = choose|i: int| 0 <= i < k.len() && k[i] == self@;
                        assert(0 <= i < 8);
                    }
                }
            }
        }
        r
    }

    /// The tag as text: its four characters when every byte is ASCII.
    pub fn to_string(&self) -> (r: String)
        ensures
            r@ == rendered(self@),
    {
        decode_lossy(self.value.as_slice())
    }

    /// Critical: bit 5 of the first byte is unset.
    pub fn is_critical(&self) -> (r: bool)
        ensures
            r == !bit5_set(self@[0]),
    {
        proof { lemma_bit5(self.value[0]); }
        self.value[0] & 0x20 == 0
    }

    /// Public: bit 5 of the second byte is unset.
    pub fn is_public(&self) -> (r: bool)
        ensures
            r == !bit5_set(self@[1]),
    {
        proof { lemma_bit5(self.value[1]); }
        self.value[1] & 0x20 == 0
    }

    /// Reserved bit valid: bit 5 of the third byte is unset.
    pub fn is_reserved_bit_valid(&self) -> (r: bool)
        ensures
            r == !bit5_set(self@[2]),
    {
        proof { lemma_bit5(self.value[2]); }
        self.value[2] & 0x20 == 0
    }

    /// Safe to copy: bit 5 of the fourth byte is set.
    pub fn is_safe_to_copy(&self) -> (r: bool)
        ensures
            r == bit5_set(self@[3]),
    {
        proof { lemma_bit5(self.value[3]); }
        self.value[3] & 0x20 != 0
    }
}

impl TryFrom<[u8; 4]> for ChunkType {
    type Error = ();

    /// Wraps the four bytes as they are; this never fails.
    fn try_from(bytes: [u8; 4]) -> (r: Result<ChunkType, ()>)
        ensures
            r matches Ok(t) && t@ == bytes@,
    {
        Ok(ChunkType { value: bytes })
    }
}

impl vstd::std_specs::convert::TryFromSpecImpl<[u8; 4]> for ChunkType {
    open spec fn obeys_try_from_spec() -> bool {
        true
    }

    closed spec fn try_from_spec(bytes: [u8; 4]) -> Result<ChunkType, ()> {
        Ok(ChunkType { value: bytes })
    }
}

impl std::str::FromStr for ChunkType {
    type Err = ChunkTypeError;

    /// Takes the UTF-8 bytes of `s` as they are, when there are exactly four.
    /// The tag is not checked against the recognised chunk types.
    fn from_str(s: &str) -> (r: Result<ChunkType, ChunkTypeError>)
        ensures
            s.spec_bytes().len() == 4 ==> (r matches Ok(t) && t@ == s.spec_bytes()),
            s.spec_bytes().len() != 4 ==> r == Err::<ChunkType, ChunkTypeError>(
                ChunkTypeError::SizeError,
            ),
    {
        let b = s.as_bytes();
        if b.len() != 4 {
            return Err(ChunkTypeError::SizeError);
        }
        let value: [u8; 4] = [b[0], b[1], b[2], b[3]];
        assert(value@ =~= s.spec_bytes());
        Ok(ChunkType { value })
    }
}

impl PartialEq for ChunkType {
    fn eq(&self, other: &ChunkType) -> (r: bool)
        ensures
            r == (self@ == other@),
    {
        let r = self.value[0] == other.value[0] && self.value[1] == other.value[1]
            && self.value[2] == other.value[2] && self.value[3] == other.value[3];
        proof {
            if r {
                assert(self.value@ =~= other.value@);
            }
        }
        r
    }
}

impl vstd::std_specs::cmp::PartialEqSpecImpl for ChunkType {
    open spec fn obeys_eq_spec() -> bool {
        true
    }

    open spec fn eq_spec(&self, other: &ChunkType) -> bool {
        self@ == other@
    }
}

impl Eq for ChunkType {

}

/// Building a tag from four bytes always succeeds, and the tag's bytes are
/// exactly the bytes it was built from.
pub proof fn law_bytes_round_trip(b: [u8; 4])
    ensures
        <ChunkType as TryFromSpec<[u8; 4]>>::try_from_spec(b) matches Ok(t) && t@ == b@,
{
}

/// Text of four printable ASCII characters is four bytes long, so it makes a
/// tag, and that tag renders as the same text.
pub proof fn law_text_round_trip(s: &str)
    requires
        s@.len() == 4,
        forall|i: int| 0 <= i < 4 ==> printable_ascii(#[trigger] s@[i]),
    ensures
        s.spec_bytes().len() == 4,
        rendered(s.spec_bytes()) == s@,
{
    assert(vstd::string::is_ascii(s));
    vstd::string::is_ascii_spec_bytes(s);
    let b = s.spec_bytes();
    assert(ascii_bytes(b));
    assert(chars_of(b) =~= s@) by {
        assert forall|i: int| 0 <= i < 4 implies chars_of(b)[i] == s@[i] by {
            let c = s@[i];
            assert(printable_ascii(c));
            assert((c as u8) as char == c);
        }
    }
}

/// A tag built from four bytes and a tag built from text whose UTF-8 bytes
/// are those four hold the same bytes, so the two compare equal.
pub proof fn law_same_bytes_same_tag(b: [u8; 4], s: &str)
    requires
        s.spec_bytes() == b@,
    ensures
        s.spec_bytes().len() == 4,
        <ChunkType as TryFromSpec<[u8; 4]>>::try_from_spec(b) matches Ok(t) && t@ == s.spec_bytes(),
{
}

/// Every recognised chunk type renders as its four characters.
pub proof fn law_known_tags_render(i: int)
    requires
        0 <= i < known_tags().len(),
    ensures
        rendered(known_tags()[i]) == known_names()[i],
{
    let v = known_tags()[i];
    assert(ascii_bytes(v));
    assert(chars_of(v) =~= known_names()[i]);
}

} // verus!
