use vstd::prelude::*;
use vstd::string::*;
use vstd::utf8::*;

verus! {

broadcast use encode_utf8_decode_utf8;

/// Number of bytes in an identifier.
pub const FOURCC_LEN: usize = 4;

/// A FourCC is a sequence of four bytes used to identify data chunks.
///
/// The bytes are kept verbatim: case, punctuation and non-printable values
/// are preserved. Two identifiers are equal exactly when their bytes are.
#[derive(Clone, Copy, Debug)]
pub struct FourCC {
    value: [u8; 4],
}

/// Why a source was refused as an identifier.
#[derive(Clone, Copy, Debug, PartialEq, Eq, Structural)]
pub enum ParseErrorKind {
    /// Fewer than four bytes were given.
    TooShort,
    /// More than four bytes were given.
    TooLong,
}

/// Error returned from parsing a `FourCC`. Its reason in words follows
/// from its kind.
#[derive(Clone, Copy, Debug, PartialEq, Eq, Structural)]
pub struct FourCCParseError {
    kind: ParseErrorKind,
}

/// The error, if any, that a source of `n` bytes is refused with.
pub open spec fn length_error(n: int) -> Option<ParseErrorKind> {
    if n < FOURCC_LEN {
        Some(ParseErrorKind::TooShort)
    } else if n > FOURCC_LEN {
        Some(ParseErrorKind::TooLong)
    } else {
        None
    }
}

/// The reason carried by an error of the given kind.
pub open spec fn reason_text(kind: ParseErrorKind) -> Seq<char> {
    match kind {
        ParseErrorKind::TooShort => "given FourCC too short"@,
        ParseErrorKind::TooLong => "given FourCC too long"@,
    }
}

/// The full message of an error of the given kind.
pub open spec fn message_text(kind: ParseErrorKind) -> Seq<char> {
    "FourCC parsing error: "@ + reason_text(kind)
}

/// The upper-case hexadecimal digit for a value below sixteen.
pub open spec fn hex_digit(d: u8) -> char
    recommends
        d < 16,
{
    seq!['0', '1', '2', '3', '4', '5', '6', '7', '8', '9', 'A', 'B', 'C', 'D', 'E', 'F'][d as int]
}

/// One byte written as `\xHH`.
pub open spec fn escaped_byte(b: u8) -> Seq<char> {
    seq!['\\', 'x', hex_digit(b / 16), hex_digit(b % 16)]
}

/// Every byte written as `\xHH`, in order.
pub open spec fn hex_escaped(b: Seq<u8>) -> Seq<char>
    decreases b.len(),
{
    if b.len() == 0 {
        Seq::empty()
    } else {
        hex_escaped(b.drop_last()) + escaped_byte(b.last())
    }
}

/// How identifier bytes are shown: decoded when they are valid UTF-8, and
/// otherwise each byte hex-escaped, so that no byte is ever hidden.
pub open spec fn rendered(b: Seq<u8>) -> Seq<char> {
    if valid_utf8(b) {
        decode_utf8(b)
    } else {
        hex_escaped(b)
    }
}

/// Relies on std::str::from_utf8: it accepts exactly the byte sequences that
/// are valid UTF-8, and then hands back a string slice over those same bytes.
#[verifier::external_body]
fn utf8_str(b: &[u8]) -> (r: Option<&str>)
    ensures
        r is Some <==> valid_utf8(b@),
        r matches Some(s) ==> s.spec_bytes() == b@,
{
    std::str::from_utf8(b).ok()
}

/// Appends the upper-case hexadecimal digit of `d`.
fn push_hex_digit(s: &mut String, d: u8)
    requires
        d < 16,
    ensures
        final(s)@ == old(s)@.push(hex_digit(d)),
{
    let digits = "0123456789ABCDEF";
    proof {
        reveal_strlit("0123456789ABCDEF");
    }
    let one = digits.substring_ascii(d as usize, d as usize + 1);
    assert(one@ =~= seq![hex_digit(d)]);
    s.append(one);
}

impl View for FourCC {
    type V = Seq<u8>;

    closed spec fn view(&self) -> Seq<u8> {
        self.value@
    }
}

impl PartialEq for FourCC {
    fn eq(&self, other: &FourCC) -> (r: bool) {
        let r = self.value[0] == other.value[0] && self.value[1] == other.value[1]
            && self.value[2] == other.value[2] && self.value[3] == other.value[3];
        assert(r ==> self.value@ =~= other.value@);
        r
    }
}

impl vstd::std_specs::cmp::PartialEqSpecImpl for FourCC {
    open spec fn obeys_eq_spec() -> bool {
        true
    }

    open spec fn eq_spec(&self, other: &FourCC) -> bool {
        self@ == other@
    }
}

impl Eq for FourCC {

}

impl FourCC {
    /// Every identifier holds exactly four bytes.
    pub proof fn lemma_len(&self)
        ensures
            self@.len() == FOURCC_LEN,
    {
    }

    /// Identifiers are equal exactly when their bytes are.
    pub proof fn lemma_eq_iff_bytes(a: FourCC, b: FourCC)
        ensures
            a == b <==> a@ == b@,
    {
        if a@ == b@ {
            assert(a.value =~= b.value);
        }
    }

    /// Two identifiers built from the same four-byte source are equal.
    pub proof fn lemma_same_source_equal(a: FourCC, b: FourCC, source: Seq<u8>)
        requires
            a@ == source,
            b@ == source,
        ensures
            a == b,
    {
        FourCC::lemma_eq_iff_bytes(a, b);
    }

    /// Builds an identifier from a byte source, which must hold exactly four
    /// bytes. They are copied verbatim, whatever their values.
    pub fn from_bytes(source: &[u8]) -> (r: Result<FourCC, FourCCParseError>)
        ensures
            match r {
                Ok(id) => length_error(source@.len() as int) is None && id@ == source@,
                Err(e) => length_error(source@.len() as int) == Some(e@),
            },
    {
        if source.len() < FOURCC_LEN {
            Err(FourCCParseError::new(ParseErrorKind::TooShort))
        } else if source.len() > FOURCC_LEN {
            Err(FourCCParseError::new(ParseErrorKind::TooLong))
        } else {
            let id = FourCC { value: [source[0], source[1], source[2], source[3]] };
            assert(id@ =~= source@);
            Ok(id)
        }
    }

    /// Builds an identifier from text, which must encode to exactly four
    /// bytes. Length is counted in bytes, not characters.
    pub fn from_str(id: &str) -> (r: Result<FourCC, FourCCParseError>)
        ensures
            match r {
                Ok(f) => length_error(id.spec_bytes().len() as int) is None && f@
                    == id.spec_bytes(),
                Err(e) => length_error(id.spec_bytes().len() as int) == Some(e@),
            },
    {
        FourCC::from_bytes(id.as_bytes())
    }

    /// The four bytes of the identifier.
    pub fn bytes(&self) -> (r: [u8; 4])
        ensures
            r@ == self@,
    {
        self.value
    }

    /// The identifier as text: the decoded bytes when they are valid UTF-8,
    /// otherwise `\xHH` for each byte, with upper-case hexadecimal digits.
    pub fn to_string(&self) -> (r: String)
        ensures
            r@ == rendered(self@),
    {
        match utf8_str(self.value.as_slice()) {
            Some(s) => {
                let r = s.to_owned();
                assert(decode_utf8(encode_utf8(s@)) == s@);
                r
            },
            None => {
                let mut r = String::new();
                let mut i: usize = 0;
                while i < FOURCC_LEN
                    invariant
                        i <= FOURCC_LEN,
                        self@.len() == FOURCC_LEN,
                        r@ == hex_escaped(self@.subrange(0, i as int)),
                    decreases FOURCC_LEN - i,
                {
                    let b = self.value[i];
                    r.append("\\x");
                    proof {
                        reveal_strlit("\\x");
                    }
                    push_hex_digit(&mut r, b / 16);
                    push_hex_digit(&mut r, b % 16);
                    let ghost next = self@.subrange(0, i + 1);
                    assert(next.drop_last() =~= self@.subrange(0, i as int));
                    assert(r@ =~= hex_escaped(next));
                    i = i + 1;
                }
                assert(self@.subrange(0, FOURCC_LEN as int) =~= self@);
                r
            },
        }
    }
}

impl View for FourCCParseError {
    type V = ParseErrorKind;

    closed spec fn view(&self) -> ParseErrorKind {
        self.kind
    }
}

impl FourCCParseError {
    /// An error of the given kind.
    pub fn new(kind: ParseErrorKind) -> (r: FourCCParseError)
        ensures
            r@ == kind,
    {
        FourCCParseError { kind }
    }

    /// Which rule the source broke.
    pub fn kind(&self) -> (r: ParseErrorKind)
        ensures
            r == self@,
    {
        self.kind
    }

    /// The reason in words.
    pub fn description(&self) -> (r: &'static str)
        ensures
            r@ == reason_text(self@),
    {
        match self.kind {
            ParseErrorKind::TooShort => "given FourCC too short",
            ParseErrorKind::TooLong => "given FourCC too long",
        }
    }

    /// The full message: a fixed prefix followed by the reason.
    pub fn to_string(&self) -> (r: String)
        ensures
            r@ == message_text(self@),
    {
        String::from_str("FourCC parsing error: ").concat(self.description())
    }
}

} // verus!
