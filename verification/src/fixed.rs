//! Byte strings of a fixed length and their text form.

use vstd::prelude::*;
use crate::encoding::{
    conforms, decode, encode, max_length, min_length, url_decode_lossy, url_decoding,
    url_safe_decoding, url_safe_encoding, validation_bounds,
};
use crate::schema::{pattern, text_schema, TextSchema};

verus! {

/// Why a text is not the text form of `N` bytes.
#[derive(Clone, Copy, Debug, PartialEq, Eq, Structural)]
pub enum ParseError {
    /// The text is not URL-safe base64.
    InvalidEncoding,
    /// The text decodes to some other number of bytes.
    InvalidSize,
}

impl ParseError {
    /// The error's text.
    pub fn message(&self) -> (text: &'static str)
        ensures
            text@ == match *self {
                ParseError::InvalidEncoding => "Invalid base64 text"@,
                ParseError::InvalidSize => "Invalid byte size"@,
            },
    {
        match self {
            ParseError::InvalidEncoding => "Invalid base64 text",
            ParseError::InvalidSize => "Invalid byte size",
        }
    }
}

/// A value of exactly `N` bytes. Two values are equal where they hold the
/// same bytes, and they are ordered byte by byte.
#[derive(Clone, Copy, Debug, Eq, Ord)]
pub struct FixedByteArray<const N: usize>([u8; N]);

impl<const N: usize> View for FixedByteArray<N> {
    type V = Seq<u8>;

    closed spec fn view(&self) -> Seq<u8> {
        self.0@
    }
}

impl<const N: usize> FixedByteArray<N> {
    /// What `text` stands for: the bytes it decodes to, where there are
    /// exactly `N` of them.
    pub open spec fn parsed(text: Seq<char>) -> Result<Seq<u8>, ParseError> {
        match url_safe_decoding(text) {
            None => Err(ParseError::InvalidEncoding),
            Some(bytes) => if bytes.len() == N {
                Ok(bytes)
            } else {
                Err(ParseError::InvalidSize)
            },
        }
    }

    /// Every value holds `N` bytes.
    pub proof fn lemma_len(&self)
        ensures
            self@.len() == N,
    {
    }

    /// A value is its bytes: two values that hold the same bytes are the
    /// same value.
    pub proof fn lemma_same_bytes(&self, other: &Self)
        requires
            self@ == other@,
        ensures
            *self == *other,
    {
        assert(self.0@ =~= other.0@);
        assert(self.0 =~= other.0);
    }

    /// The bytes, as a slice.
    pub fn as_slice(&self) -> (bytes: &[u8])
        ensures
            bytes@ == self@,
            bytes@.len() == N,
    {
        self.0.as_slice()
    }

    /// The bytes, as an array.
    pub fn as_array(&self) -> (bytes: &[u8; N])
        ensures
            bytes@ == self@,
    {
        &self.0
    }

    /// The bytes, by value.
    pub fn to_bytes(&self) -> (bytes: [u8; N])
        ensures
            bytes@ == self@,
    {
        self.0
    }

    /// The value that holds `bytes_vec`, which must be `N` bytes long.
    pub fn from_bytes(bytes_vec: Vec<u8>) -> (made: Result<Self, ParseError>)
        ensures
            bytes_vec@.len() == N ==> made is Ok && made->Ok_0@ == bytes_vec@,
            bytes_vec@.len() != N ==> made == Err::<Self, ParseError>(ParseError::InvalidSize),
    {
        if bytes_vec.len() == N {
            let mut bytes: [u8; N] = [0u8; N];
            let mut i: usize = 0;
            while i < N
                invariant
                    i <= N,
                    bytes_vec@.len() == N,
                    forall|j: int| 0 <= j < i ==> bytes@[j] == bytes_vec@[j],
                decreases N - i,
            {
                bytes[i] = bytes_vec[i];
                i += 1;
            }
            assert(bytes@ =~= bytes_vec@);
            Ok(Self(bytes))
        } else {
            Err(ParseError::InvalidSize)
        }
    }

    /// The value that a finished base64 decoding stands for.
    pub fn from_decoded(decoded: Result<Vec<u8>, base64::DecodeError>) -> (made: Result<Self, ParseError>)
        ensures
            match decoded {
                Ok(bytes) => if bytes@.len() == N {
                    made is Ok && made->Ok_0@ == bytes@
                } else {
                    made == Err::<Self, ParseError>(ParseError::InvalidSize)
                },
                Err(_) => made == Err::<Self, ParseError>(ParseError::InvalidEncoding),
            },
    {
        match decoded {
            Ok(bytes) => Self::from_bytes(bytes),
            Err(_) => Err(ParseError::InvalidEncoding),
        }
    }

    /// Reads the text form: URL-safe base64, padded or not, of exactly `N`
    /// bytes.
    pub fn decode_text(text: &str) -> (made: Result<Self, ParseError>)
        ensures
            match Self::parsed(text@) {
                Ok(bytes) => made is Ok && made->Ok_0@ == bytes,
                Err(e) => made == Err::<Self, ParseError>(e),
            },
    {
        Self::from_decoded(decode(text))
    }

    /// Reads a raw path segment: URL-decodes it leniently, then reads the
    /// text form. Every failure is the same `Err(())`.
    pub fn from_param(param: &str) -> (made: Result<Self, ()>)
        ensures
            match Self::parsed(url_decoding(param@)) {
                Ok(bytes) => made is Ok && made->Ok_0@ == bytes,
                Err(_) => made is Err,
            },
    {
        let decoded = url_decode_lossy(param);
        match Self::decode_text(decoded.as_str()) {
            Ok(value) => Ok(value),
            Err(_) => Err(()),
        }
    }

    /// The text form: URL-safe base64 with padding. It has the shape that
    /// the schema describes, at the greatest length, and reads back as the
    /// value it was written from, with its padding and without.
    pub fn encode_text(&self) -> (text: String)
        requires
            max_length(N as nat) <= isize::MAX,
        ensures
            text@ == url_safe_encoding(self@),
            text@.len() == max_length(N as nat),
            conforms(text@, N as nat),
            Self::parsed(text@) == Ok::<Seq<u8>, ParseError>(self@),
            Self::parsed(text@.take(min_length(N as nat) as int)) == Ok::<Seq<u8>, ParseError>(self@),
    {
        encode(self.as_slice())
    }

    /// The least and the greatest length of a text form.
    pub fn validation_bounds() -> (bounds: (usize, usize))
        requires
            max_length(N as nat) <= usize::MAX,
        ensures
            bounds.0 == min_length(N as nat),
            bounds.1 == max_length(N as nat),
    {
        validation_bounds(N)
    }

    /// What a schema says of a text form.
    pub fn schema() -> (schema: TextSchema)
        requires
            max_length(N as nat) <= usize::MAX,
        ensures
            schema.format@ == "base64url"@,
            schema.min_length == min_length(N as nat),
            schema.max_length == max_length(N as nat),
            schema.max_padding == max_length(N as nat) - min_length(N as nat),
            schema.pattern@ == pattern(N as nat),
    {
        text_schema(N)
    }
}

/// Reading gives back what writing wrote: whatever text `encode_text`
/// returns for a value, `decode_text` returns that value for it.
pub proof fn lemma_round_trip<const N: usize>(
    value: FixedByteArray<N>,
    written: String,
    text: &str,
    read: Result<FixedByteArray<N>, ParseError>,
)
    requires
        call_ensures(FixedByteArray::<N>::encode_text, (&value,), written),
        text@ == written@,
        call_ensures(FixedByteArray::<N>::decode_text, (text,), read),
    ensures
        read == Ok::<FixedByteArray<N>, ParseError>(value),
{
    value.lemma_same_bytes(&read->Ok_0);
}

impl<const N: usize> From<[u8; N]> for FixedByteArray<N> {
    fn from(bytes: [u8; N]) -> (made: Self)
        ensures
            made@ == bytes@,
    {
        Self(bytes)
    }
}

impl<const N: usize> vstd::std_specs::convert::FromSpecImpl<[u8; N]> for FixedByteArray<N> {
    open spec fn obeys_from_spec() -> bool {
        true
    }

    closed spec fn from_spec(bytes: [u8; N]) -> Self {
        Self(bytes)
    }
}

impl<const N: usize> TryFrom<Vec<u8>> for FixedByteArray<N> {
    type Error = ParseError;

    fn try_from(bytes_vec: Vec<u8>) -> (made: Result<Self, ParseError>)
        ensures
            bytes_vec@.len() == N ==> made is Ok && made->Ok_0@ == bytes_vec@,
            bytes_vec@.len() != N ==> made == Err::<Self, ParseError>(ParseError::InvalidSize),
    {
        let made = Self::from_bytes(bytes_vec);
        proof {
            if let Ok(value) = made {
                let chosen = choose|value: Self| value@ == bytes_vec@;
                value.lemma_same_bytes(&chosen);
            }
        }
        made
    }
}

impl<const N: usize> vstd::std_specs::convert::TryFromSpecImpl<Vec<u8>> for FixedByteArray<N> {
    open spec fn obeys_try_from_spec() -> bool {
        true
    }

    open spec fn try_from_spec(bytes_vec: Vec<u8>) -> Result<Self, ParseError> {
        if bytes_vec@.len() == N {
            Ok(choose|value: Self| value@ == bytes_vec@)
        } else {
            Err(ParseError::InvalidSize)
        }
    }
}

} // verus!
