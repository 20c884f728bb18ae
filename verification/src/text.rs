//! Text helpers: UTF-8 decoding of bodies, percent-encoding of query
//! values, and random transaction ids.
use rand::Rng;
use vstd::prelude::*;
use vstd::utf8::*;

verus! {

/// The text of an optional string.
pub open spec fn opt_view(o: Option<String>) -> Option<Seq<char>> {
    match o {
        Some(s) => Some(s@),
        None => None,
    }
}

/// `part` stands in `text` from position `start` on.
pub open spec fn stands_at(text: Seq<char>, start: int, part: Seq<char>) -> bool {
    &&& 0 <= start
    &&& start + part.len() <= text.len()
    &&& text.subrange(start, start + part.len()) == part
}

// ---------------------------------------------------------------------
// UTF-8
// ---------------------------------------------------------------------

/// What `String::from_utf8_lossy` gives for `bytes`: the decoded text,
/// with U+FFFD in place of each ill-formed sequence.
pub uninterp spec fn lossy_utf8(bytes: Seq<u8>) -> Seq<char>;

/// `String::from_utf8`: per std's documentation it fails exactly when the
/// bytes are not UTF-8, and otherwise holds their text.
#[verifier::external_body]
pub(crate) fn string_from_utf8(bytes: Vec<u8>) -> (res: Result<String, std::string::FromUtf8Error>)
    ensures
        res is Ok <==> valid_utf8(bytes@),
        res matches Ok(s) ==> s@ == decode_utf8(bytes@),
{
    String::from_utf8(bytes)
}

/// `String::from_utf8_lossy` (made owned): its result is named
/// `lossy_utf8`; per std's documentation, valid UTF-8 comes back as its
/// own text. What it gives for invalid input is left to the name.
#[verifier::external_body]
pub(crate) fn string_from_utf8_lossy(bytes: &[u8]) -> (res: String)
    ensures
        res@ == lossy_utf8(bytes@),
        valid_utf8(bytes@) ==> res@ == decode_utf8(bytes@),
{
    String::from_utf8_lossy(bytes).into_owned()
}

// ---------------------------------------------------------------------
// Percent-encoding
// ---------------------------------------------------------------------

/// Bytes that percent-encoding leaves as they are: ASCII letters and
/// digits and `-`, `.`, `_`, `~`.
pub open spec fn is_unreserved(b: u8) -> bool {
    ||| 48 <= b <= 57
    ||| 65 <= b <= 90
    ||| 97 <= b <= 122
    ||| b == 45
    ||| b == 46
    ||| b == 95
    ||| b == 126
}

/// The upper-case hexadecimal digit for `d < 16`.
pub open spec fn hex_digit(d: u8) -> char {
    if d < 10 {
        (48 + d) as char
    } else {
        (55 + d) as char
    }
}

/// The text that stands for one byte in a percent-encoded string.
pub open spec fn encode_byte(b: u8) -> Seq<char> {
    if is_unreserved(b) {
        seq![b as char]
    } else {
        seq!['%', hex_digit(b / 16), hex_digit(b % 16)]
    }
}

/// Percent-encoding of a byte string, byte by byte.
pub open spec fn percent_encode_bytes(bytes: Seq<u8>) -> Seq<char>
    decreases bytes.len(),
{
    if bytes.len() == 0 {
        Seq::empty()
    } else {
        encode_byte(bytes[0]) + percent_encode_bytes(bytes.drop_first())
    }
}

/// Percent-encoding of a text: that of its UTF-8 bytes.
pub open spec fn percent_encode(s: Seq<char>) -> Seq<char> {
    percent_encode_bytes(encode_utf8(s))
}

/// `urlencoding::encode`: every byte of the UTF-8 form of `s` but the
/// unreserved ones becomes `%` and two upper-case hex digits.
#[verifier::external_body]
pub(crate) fn url_encode(s: &str) -> (res: String)
    ensures
        res@ == percent_encode(s@),
{
    urlencoding::encode(s)
}

/// Characters that may appear in a percent-encoded text.
pub open spec fn is_encoded_char(c: char) -> bool {
    ||| '0' <= c <= '9'
    ||| 'A' <= c <= 'Z'
    ||| 'a' <= c <= 'z'
    ||| c == '-'
    ||| c == '.'
    ||| c == '_'
    ||| c == '~'
    ||| c == '%'
}

/// A percent-encoded text is made of unreserved characters and `%` alone,
/// so it never holds `&`, `=`, `?`, `#`, `/` or a space: a value encoded
/// this way cannot end a query parameter or start another one.
pub proof fn lemma_percent_encoded_chars(bytes: Seq<u8>)
    ensures
        forall|i: int|
            0 <= i < percent_encode_bytes(bytes).len() ==> is_encoded_char(
                #[trigger] percent_encode_bytes(bytes)[i],
            ),
    decreases bytes.len(),
{
    if bytes.len() > 0 {
        lemma_percent_encoded_chars(bytes.drop_first());
        let b = bytes[0];
        let head = encode_byte(b);
        let tail = percent_encode_bytes(bytes.drop_first());
        assert(forall|i: int| 0 <= i < head.len() ==> is_encoded_char(#[trigger] head[i])) by {
            assert(b / 16 < 16 && b % 16 < 16);
        }
        assert forall|i: int|
            0 <= i < percent_encode_bytes(bytes).len() implies is_encoded_char(
                #[trigger] percent_encode_bytes(bytes)[i],
            ) by {
            if i < head.len() {
                assert(percent_encode_bytes(bytes)[i] == head[i]);
            } else {
                assert(percent_encode_bytes(bytes)[i] == tail[i - head.len()]);
            }
        }
    }
}

// ---------------------------------------------------------------------
// Transaction ids
// ---------------------------------------------------------------------

/// ASCII letters and digits.
pub open spec fn is_ascii_alphanumeric(c: char) -> bool {
    ||| '0' <= c <= '9'
    ||| 'A' <= c <= 'Z'
    ||| 'a' <= c <= 'z'
}

/// `rand::Rng::gen_ascii_chars` on the thread's generator, `len` of them:
/// the source draws each character from the ASCII letters and digits and
/// never ends, so the text has exactly `len` such characters. Which ones
/// come out is chance and is not stated.
#[verifier::external_body]
pub(crate) fn random_alphanumeric(len: usize) -> (s: String)
    ensures
        s@.len() == len,
        forall|i: int| 0 <= i < s@.len() ==> is_ascii_alphanumeric(#[trigger] s@[i]),
{
    rand::thread_rng().gen_ascii_chars().take(len).collect()
}

} // verus!
