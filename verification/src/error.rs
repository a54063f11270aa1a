//! What can go wrong in an operation, and the names of the fields that the
//! decoders read.

use vstd::prelude::*;
use vstd::string::*;
use crate::decimal::{decimal, to_decimal};

verus! {

/// A member of a payload object that a decoder reads. The entities name their
/// fields in snake case; on the wire the same fields are in camel case.
#[derive(Clone, Copy, Debug, PartialEq, Eq, Structural)]
pub enum Field {
    Id,
    Name,
    Title,
    CoverArt,
    AlbumCount,
    SongCount,
    Album,
    Biography,
    MusicBrainzId,
    LastFmUrl,
    SmallImageUrl,
    MediumImageUrl,
    LargeImageUrl,
    SimilarArtist,
}

impl Field {
    /// The name of the field on the wire.
    pub open spec fn name(self) -> Seq<char> {
        match self {
            Field::Id => "id"@,
            Field::Name => "name"@,
            Field::Title => "title"@,
            Field::CoverArt => "coverArt"@,
            Field::AlbumCount => "albumCount"@,
            Field::SongCount => "songCount"@,
            Field::Album => "album"@,
            Field::Biography => "biography"@,
            Field::MusicBrainzId => "musicBrainzId"@,
            Field::LastFmUrl => "lastFmUrl"@,
            Field::SmallImageUrl => "smallImageUrl"@,
            Field::MediumImageUrl => "mediumImageUrl"@,
            Field::LargeImageUrl => "largeImageUrl"@,
            Field::SimilarArtist => "similarArtist"@,
        }
    }

    /// The name of the field on the wire.
    pub fn wire_name(self) -> (s: &'static str)
        ensures
            s@ == self.name(),
    {
        match self {
            Field::Id => "id",
            Field::Name => "name",
            Field::Title => "title",
            Field::CoverArt => "coverArt",
            Field::AlbumCount => "albumCount",
            Field::SongCount => "songCount",
            Field::Album => "album",
            Field::Biography => "biography",
            Field::MusicBrainzId => "musicBrainzId",
            Field::LastFmUrl => "lastFmUrl",
            Field::SmallImageUrl => "smallImageUrl",
            Field::MediumImageUrl => "mediumImageUrl",
            Field::LargeImageUrl => "largeImageUrl",
            Field::SimilarArtist => "similarArtist",
        }
    }
}

/// No two fields have the same name on the wire.
pub proof fn lemma_field_names_differ(a: Field, b: Field)
    requires
        a != b,
    ensures
        a.name() != b.name(),
{
    reveal_strlit("id");
    reveal_strlit("name");
    reveal_strlit("title");
    reveal_strlit("coverArt");
    reveal_strlit("albumCount");
    reveal_strlit("songCount");
    reveal_strlit("album");
    reveal_strlit("biography");
    reveal_strlit("musicBrainzId");
    reveal_strlit("lastFmUrl");
    reveal_strlit("smallImageUrl");
    reveal_strlit("mediumImageUrl");
    reveal_strlit("largeImageUrl");
    reveal_strlit("similarArtist");
    if a.name().len() == b.name().len() {
        assert(a.name()[0] != b.name()[0] || a.name()[1] != b.name()[1]);
    }
}

/// Why a payload could not be turned into an entity. A payload that fails in
/// any of these ways yields no entity at all.
#[derive(Clone, Copy, Debug, PartialEq, Eq, Structural)]
pub enum DecodeError {
    /// The payload of an entity is not a JSON object.
    NotAnObject,
    /// The payload of a list of entities is not a JSON array.
    NotAList,
    /// A required field is absent.
    Missing(Field),
    /// A field holds a JSON value of the wrong type.
    Mismatch(Field),
    /// The string of an identifier or a count denotes no unsigned 64-bit
    /// integer.
    NotNumeric(Field),
}

impl DecodeError {
    /// The failure in words.
    pub open spec fn text(self) -> Seq<char> {
        match self {
            DecodeError::NotAnObject => "the payload is not an object"@,
            DecodeError::NotAList => "the payload is not a list"@,
            DecodeError::Missing(field) => "missing field "@ + field.name(),
            DecodeError::Mismatch(field) => "wrong type of field "@ + field.name(),
            DecodeError::NotNumeric(field) => "no number in field "@ + field.name(),
        }
    }

    /// Describes the failure.
    pub fn message(&self) -> (s: String)
        ensures
            s@ == self.text(),
    {
        match self {
            DecodeError::NotAnObject => "the payload is not an object".to_owned(),
            DecodeError::NotAList => "the payload is not a list".to_owned(),
            DecodeError::Missing(field) => "missing field ".to_owned().concat(field.wire_name()),
            DecodeError::Mismatch(field) => "wrong type of field ".to_owned().concat(
                field.wire_name(),
            ),
            DecodeError::NotNumeric(field) => "no number in field ".to_owned().concat(
                field.wire_name(),
            ),
        }
    }
}

/// The failure of an operation.
#[derive(Debug, PartialEq, Eq)]
pub enum Error {
    /// The payload of the answer could not be decoded.
    Decode(DecodeError),
    /// The server answered with a failure of its own.
    Protocol { code: u64, message: String },
    /// The transport could not complete the round trip.
    Transport(String),
    /// The entity has no cover art. This is an absence, not a fault: nothing
    /// was asked of the server.
    NoCoverArt,
}

/// The mathematical value of an [`Error`].
pub enum ErrorView {
    Decode(DecodeError),
    Protocol { code: u64, message: Seq<char> },
    Transport(Seq<char>),
    NoCoverArt,
}

impl View for Error {
    type V = ErrorView;

    open spec fn view(&self) -> ErrorView {
        match self {
            Error::Decode(e) => ErrorView::Decode(*e),
            Error::Protocol { code, message } => ErrorView::Protocol {
                code: *code,
                message: message@,
            },
            Error::Transport(message) => ErrorView::Transport(message@),
            Error::NoCoverArt => ErrorView::NoCoverArt,
        }
    }
}

impl Error {
    /// Describes the failure.
    pub fn message(&self) -> (s: String)
        ensures
            s@ == self@.text(),
    {
        match self {
            Error::Decode(e) => "decode error: ".to_owned().concat(e.message().as_str()),
            Error::Protocol { code, message } => "server error ".to_owned().concat(
                to_decimal(*code).as_str(),
            ).concat(": ").concat(message.as_str()),
            Error::Transport(message) => "transport error: ".to_owned().concat(message.as_str()),
            Error::NoCoverArt => "no cover art".to_owned(),
        }
    }
}

impl ErrorView {
    /// The failure in words.
    pub open spec fn text(self) -> Seq<char> {
        match self {
            ErrorView::Decode(e) => "decode error: "@ + e.text(),
            ErrorView::Protocol { code, message } => "server error "@ + decimal(code as nat)
                + ": "@ + message,
            ErrorView::Transport(message) => "transport error: "@ + message,
            ErrorView::NoCoverArt => "no cover art"@,
        }
    }
}

impl DeepView for Error {
    type V = ErrorView;

    open spec fn deep_view(&self) -> ErrorView {
        self@
    }
}

} // verus!
