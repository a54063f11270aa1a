use sunk::error::{DecodeError, Error, Field};

#[test]
fn decode_errors_in_words() {
    assert_eq!(DecodeError::NotAnObject.message(), "the payload is not an object");
    assert_eq!(DecodeError::NotAList.message(), "the payload is not a list");
    assert_eq!(DecodeError::Missing(Field::AlbumCount).message(), "missing field albumCount");
    assert_eq!(DecodeError::Mismatch(Field::CoverArt).message(), "wrong type of field coverArt");
    assert_eq!(DecodeError::NotNumeric(Field::Id).message(), "no number in field id");
}

#[test]
fn errors_in_words() {
    assert_eq!(
        Error::Decode(DecodeError::Missing(Field::Name)).message(),
        "decode error: missing field name"
    );
    assert_eq!(
        Error::Protocol { code: 70, message: String::from("Artist not found") }.message(),
        "server error 70: Artist not found"
    );
    assert_eq!(Error::Transport(String::from("reset")).message(), "transport error: reset");
    assert_eq!(Error::NoCoverArt.message(), "no cover art");
}

#[test]
fn absence_is_told_apart_from_failures() {
    assert_ne!(Error::NoCoverArt, Error::Transport(String::new()));
    assert_ne!(Error::NoCoverArt, Error::Protocol { code: 0, message: String::new() });
    assert_ne!(Error::NoCoverArt, Error::Decode(DecodeError::NotAnObject));
}
