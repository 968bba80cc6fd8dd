//! The text form of byte strings: URL-safe base64, as the `base64` crate
//! computes it, and the lenient URL decoding of a path segment, as `rocket`
//! computes it. The functions that call the two crates are trusted; what
//! they are trusted for is written above each.

use vstd::prelude::*;

verus! {

/// `a / b`, rounded up.
pub open spec fn ceil_div(a: nat, b: nat) -> nat
    recommends
        b > 0,
{
    ((a + b - 1) / (b as int)) as nat
}

/// Length of the shortest accepted text for `n` bytes: the symbols alone,
/// without padding.
pub open spec fn min_length(n: nat) -> nat {
    ceil_div(4 * n, 3)
}

/// Length of the longest accepted text for `n` bytes: the symbols, padded
/// to a whole number of groups of four.
pub open spec fn max_length(n: nat) -> nat {
    ceil_div(n, 3) * 4
}

/// The longest text form is a whole number of groups of four characters,
/// and the shortest lacks at most two characters of it: the padding.
pub proof fn lemma_bounds(n: nat)
    ensures
        min_length(n) <= max_length(n) <= min_length(n) + 2,
        max_length(n) % 4 == 0,
        max_length(n) == min_length(n) <==> n % 3 == 0,
{
}

/// Whether `c` is one of the 64 symbols of the URL-safe alphabet.
pub open spec fn is_symbol(c: char) -> bool {
    ||| 'A' <= c <= 'Z'
    ||| 'a' <= c <= 'z'
    ||| '0' <= c <= '9'
    ||| c == '-'
    ||| c == '_'
}

/// The padding character.
pub const PAD: char = '=';

/// Whether `text` has the shape of the text form of `n` bytes: the symbols
/// of the alphabet, `min_length(n)` of them, and then no more padding
/// characters than bring it to `max_length(n)`.
pub open spec fn conforms(text: Seq<char>, n: nat) -> bool {
    &&& min_length(n) <= text.len() <= max_length(n)
    &&& forall|i: int| 0 <= i < min_length(n) ==> is_symbol(#[trigger] text[i])
    &&& forall|i: int| min_length(n) <= i < text.len() ==> #[trigger] text[i] == PAD
}

/// The least and the greatest length of a text that stands for `n` bytes.
pub fn validation_bounds(n: usize) -> (bounds: (usize, usize))
    requires
        max_length(n as nat) <= usize::MAX,
    ensures
        bounds.0 == min_length(n as nat),
        bounds.1 == max_length(n as nat),
{
    let groups: usize = if n % 3 == 0 {
        n / 3
    } else {
        n / 3 + 1
    };
    (n + groups, groups * 4)
}

/// The text that `base64::encode_config` returns for `bytes` under
/// `base64::URL_SAFE`.
pub uninterp spec fn url_safe_encoding(bytes: Seq<u8>) -> Seq<char>;

/// The bytes that `base64::decode_config` returns for `text` under
/// `base64::URL_SAFE`, or `None` where it returns an error.
pub uninterp spec fn url_safe_decoding(text: Seq<char>) -> Option<Seq<u8>>;

/// The text that `rocket::http::RawStr::url_decode_lossy` returns for `raw`.
pub uninterp spec fn url_decoding(raw: Seq<char>) -> Seq<char>;

/// The error of `base64::decode_config`. Nothing is read from it.
#[verifier::external_type_specification]
#[verifier::external_body]
pub struct ExDecodeError(base64::DecodeError);

/// Calls `base64::encode_config` with `base64::URL_SAFE`.
///
/// Trusted: the text is a function of the bytes alone. It holds four
/// characters for every three bytes, begun or whole: the symbols of the
/// alphabet first, then the padding. `base64::decode_config` gives the
/// bytes back from it, with its padding and without. The call panics
/// where the length of the text overflows, which the precondition rules
/// out.
#[verifier::external_body]
pub(crate) fn encode(bytes: &[u8]) -> (text: String)
    requires
        max_length(bytes@.len()) <= isize::MAX,
    ensures
        text@ == url_safe_encoding(bytes@),
        text@.len() == max_length(bytes@.len()),
        conforms(text@, bytes@.len()),
        url_safe_decoding(text@) == Some(bytes@),
        url_safe_decoding(text@.take(min_length(bytes@.len()) as int)) == Some(bytes@),
{
    base64::encode_config(bytes, base64::URL_SAFE)
}

/// Calls `base64::decode_config` with `base64::URL_SAFE`.
///
/// Trusted: whether the call succeeds, and the bytes it gives, are a
/// function of the text alone. The call panics only where a length that
/// it computes from the length of the text overflows, which no text is
/// long enough for.
#[verifier::external_body]
pub(crate) fn decode(text: &str) -> (decoded: Result<Vec<u8>, base64::DecodeError>)
    ensures
        match decoded {
            Ok(bytes) => url_safe_decoding(text@) == Some(bytes@),
            Err(_) => url_safe_decoding(text@) is None,
        },
{
    base64::decode_config(text, base64::URL_SAFE)
}

/// Calls `rocket::http::RawStr::url_decode_lossy`.
///
/// Trusted: the decoded text is a function of the raw text alone.
#[verifier::external_body]
pub(crate) fn url_decode_lossy(raw: &str) -> (decoded: String)
    ensures
        decoded@ == url_decoding(raw@),
{
    rocket::http::RawStr::new(raw).url_decode_lossy().into_owned()
}

} // verus!
