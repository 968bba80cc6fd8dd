use std::cmp::Ordering;
use std::convert::TryFrom;

use bitlog::fixed::{FixedByteArray, ParseError};
use bitlog::web::{MessageData, MessageSignature, StreamId};

fn pattern<const N: usize>(start: u8) -> [u8; N] {
    let mut bytes = [0u8; N];
    for (i, byte) in bytes.iter_mut().enumerate() {
        *byte = start.wrapping_add((i * 37) as u8);
    }
    bytes
}

#[test]
fn text_round_trip_of_8_bytes() {
    let id = StreamId::from(pattern::<8>(250));
    let text = id.encode_text();
    assert_eq!(StreamId::decode_text(&text), Ok(id));
}

#[test]
fn text_round_trip_of_64_bytes() {
    let signature = MessageSignature::from(pattern::<64>(3));
    let text = signature.encode_text();
    assert_eq!(MessageSignature::decode_text(&text), Ok(signature));
}

#[test]
fn text_round_trip_of_128_bytes() {
    let data = MessageData::from(pattern::<128>(129));
    let text = data.encode_text();
    assert_eq!(MessageData::decode_text(&text), Ok(data));
}

#[test]
fn text_round_trip_of_every_byte_value() {
    for byte in 0..=255u8 {
        let id = StreamId::from([byte; 8]);
        assert_eq!(StreamId::decode_text(&id.encode_text()), Ok(id));
    }
}

#[test]
fn encodes_with_the_url_safe_alphabet_and_padding() {
    assert_eq!(StreamId::from([0; 8]).encode_text(), "AAAAAAAAAAA=");
    assert_eq!(StreamId::from([0, 0, 0, 0, 0, 0, 0, 1]).encode_text(), "AAAAAAAAAAE=");
    assert_eq!(StreamId::from([0xfb; 8]).encode_text(), "-_v7-_v7-_s=");
    assert_eq!(StreamId::from([0xff; 8]).encode_text(), "__________8=");
    assert_eq!(FixedByteArray::<1>::from([0xff]).encode_text(), "_w==");
    assert_eq!(FixedByteArray::<3>::from([0xff, 0xef, 0xbe]).encode_text(), "_---");
    assert_eq!(FixedByteArray::<0>::from([]).encode_text(), "");
}

#[test]
fn encoded_text_has_the_greatest_length() {
    assert_eq!(StreamId::from([7; 8]).encode_text().len(), 12);
    assert_eq!(MessageSignature::from([7; 64]).encode_text().len(), 88);
    assert_eq!(MessageData::from([7; 128]).encode_text().len(), 172);
}

#[test]
fn decodes_padded_and_unpadded_text() {
    let id = StreamId::from([0, 0, 0, 0, 0, 0, 0, 1]);
    assert_eq!(StreamId::decode_text("AAAAAAAAAAE="), Ok(id));
    assert_eq!(StreamId::decode_text("AAAAAAAAAAE"), Ok(id));
    let signature = MessageSignature::from(pattern::<64>(9));
    let text = signature.encode_text();
    assert_eq!(MessageSignature::decode_text(&text[..86]), Ok(signature));
    assert_eq!(MessageSignature::decode_text(&text[..87]), Ok(signature));
}

#[test]
fn decode_rejects_what_is_not_base64() {
    assert_eq!(StreamId::decode_text("AAAAAAAAAA*="), Err(ParseError::InvalidEncoding));
    assert_eq!(StreamId::decode_text("AAAAAAAAAAA=="), Err(ParseError::InvalidEncoding));
    assert_eq!(StreamId::decode_text("AAAAAAAAAAAAA"), Err(ParseError::InvalidEncoding));
    assert_eq!(StreamId::decode_text("AAAAAAAAAAE =="), Err(ParseError::InvalidEncoding));
    // The standard alphabet is not the URL-safe one.
    assert_eq!(StreamId::decode_text("++++++++++8="), Err(ParseError::InvalidEncoding));
    assert_eq!(StreamId::decode_text("//////////8="), Err(ParseError::InvalidEncoding));
    // The last symbol leaves bits over that are not zero.
    assert_eq!(StreamId::decode_text("AAAAAAAAAAF="), Err(ParseError::InvalidEncoding));
}

#[test]
fn decode_rejects_another_number_of_bytes() {
    assert_eq!(StreamId::decode_text(""), Err(ParseError::InvalidSize));
    assert_eq!(StreamId::decode_text("AAAAAAAAAA="), Err(ParseError::InvalidSize));
    assert_eq!(StreamId::decode_text("AAAAAAAAAAAA"), Err(ParseError::InvalidSize));
    assert_eq!(MessageSignature::decode_text("AAAAAAAAAAA="), Err(ParseError::InvalidSize));
}

#[test]
fn from_decoded_maps_each_outcome() {
    assert_eq!(
        StreamId::from_decoded(Ok(vec![1, 2, 3, 4, 5, 6, 7, 8])),
        Ok(StreamId::from([1, 2, 3, 4, 5, 6, 7, 8]))
    );
    assert_eq!(StreamId::from_decoded(Ok(vec![1; 7])), Err(ParseError::InvalidSize));
    assert_eq!(StreamId::from_decoded(Ok(vec![1; 9])), Err(ParseError::InvalidSize));
    assert_eq!(
        StreamId::from_decoded(Err(base64::DecodeError::InvalidLength)),
        Err(ParseError::InvalidEncoding)
    );
    assert_eq!(
        StreamId::from_decoded(Err(base64::DecodeError::InvalidByte(3, b'*'))),
        Err(ParseError::InvalidEncoding)
    );
}

#[test]
fn from_bytes_rejects_other_lengths() {
    assert_eq!(StreamId::from_bytes(vec![0; 7]), Err(ParseError::InvalidSize));
    assert_eq!(StreamId::from_bytes(vec![0; 9]), Err(ParseError::InvalidSize));
    assert_eq!(MessageSignature::from_bytes(vec![0; 63]), Err(ParseError::InvalidSize));
    assert_eq!(MessageSignature::from_bytes(vec![0; 65]), Err(ParseError::InvalidSize));
    assert_eq!(MessageData::from_bytes(vec![0; 127]), Err(ParseError::InvalidSize));
    assert_eq!(MessageData::from_bytes(vec![0; 129]), Err(ParseError::InvalidSize));
    assert_eq!(MessageData::from_bytes(vec![]), Err(ParseError::InvalidSize));
}

#[test]
fn from_bytes_keeps_the_bytes() {
    let bytes = pattern::<8>(17);
    let id = StreamId::from_bytes(bytes.to_vec()).unwrap();
    assert_eq!(id.to_bytes(), bytes);
    assert_eq!(id.as_slice(), &bytes[..]);
    assert_eq!(id.as_array(), &bytes);
    let bytes = pattern::<128>(99);
    assert_eq!(MessageData::from_bytes(bytes.to_vec()).unwrap().to_bytes(), bytes);
}

#[test]
fn try_from_is_from_bytes() {
    assert_eq!(StreamId::try_from(vec![5; 8]), Ok(StreamId::from([5; 8])));
    assert_eq!(StreamId::try_from(vec![5; 9]), Err(ParseError::InvalidSize));
    assert_eq!(ParseError::InvalidSize.message(), "Invalid byte size");
    assert_eq!(ParseError::InvalidEncoding.message(), "Invalid base64 text");
}

#[test]
fn from_param_reads_a_path_segment() {
    let id = StreamId::from([0, 0, 0, 0, 0, 0, 0, 1]);
    assert_eq!(StreamId::from_param("AAAAAAAAAAE="), Ok(id));
    assert_eq!(StreamId::from_param("AAAAAAAAAAE"), Ok(id));
    // Percent escapes are decoded before the text is read.
    assert_eq!(StreamId::from_param("AAAAAAAAAAE%3D"), Ok(id));
    assert_eq!(StreamId::from_param("%41AAAAAAAAAE%3d"), Ok(id));
    assert_eq!(StreamId::from_param("-_v7-_v7-_s="), Ok(StreamId::from([0xfb; 8])));
}

#[test]
fn from_param_has_one_error_for_all_failures() {
    assert_eq!(StreamId::from_param("AAAAAAAAAA="), Err(()));
    assert_eq!(StreamId::from_param("AAAAAAAAAA*="), Err(()));
    assert_eq!(StreamId::from_param(""), Err(()));
    // A plus sign stands for a space, which is no symbol.
    assert_eq!(StreamId::from_param("AAAAAAAAAA+="), Err(()));
    // An escape that is no escape stays as it is, and is no symbol either.
    assert_eq!(StreamId::from_param("AAAAAAAAAAE%3"), Err(()));
    assert_eq!(StreamId::from_param("AAAAAAAAAAE%FF"), Err(()));
}

#[test]
fn equality_goes_by_the_bytes() {
    let a = StreamId::from([1, 2, 3, 4, 5, 6, 7, 8]);
    let b = StreamId::from_bytes(vec![1, 2, 3, 4, 5, 6, 7, 8]).unwrap();
    let c = StreamId::from([1, 2, 3, 4, 5, 6, 7, 9]);
    let d = StreamId::from([0, 2, 3, 4, 5, 6, 7, 8]);
    assert!(a == b);
    assert!(a != c);
    assert!(a != d);
    assert!(FixedByteArray::<0>::from([]) == FixedByteArray::<0>::from([]));
}

#[test]
fn order_goes_by_the_first_byte_that_differs() {
    let a = StreamId::from([1, 2, 3, 4, 5, 6, 7, 8]);
    let b = StreamId::from([1, 2, 3, 4, 5, 6, 7, 9]);
    let c = StreamId::from([1, 3, 0, 0, 0, 0, 0, 0]);
    let d = StreamId::from([0, 255, 255, 255, 255, 255, 255, 255]);
    assert_eq!(a.partial_cmp(&a), Some(Ordering::Equal));
    assert_eq!(a.partial_cmp(&b), Some(Ordering::Less));
    assert_eq!(b.partial_cmp(&a), Some(Ordering::Greater));
    assert_eq!(b.partial_cmp(&c), Some(Ordering::Less));
    assert_eq!(d.partial_cmp(&a), Some(Ordering::Less));
    assert!(a < b && b < c && d < a);
    assert!(c > a && a >= a && a <= a);
    assert_eq!(a.cmp(&b), Ordering::Less);
    assert_eq!(c.cmp(&b), Ordering::Greater);
    assert_eq!(a.cmp(&a), Ordering::Equal);
    let mut sorted = vec![c, a, d, b];
    sorted.sort();
    assert_eq!(sorted, vec![d, a, b, c]);
}
