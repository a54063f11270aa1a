//! Songs, as far as a list of an artist's top songs shows them.

use vstd::prelude::*;
use crate::decode::{id_field, read_id, read_text, text_field, Decode};
use crate::error::{DecodeError, Field};
use crate::json::{Json, JsonView};

verus! {

/// A song.
#[derive(Debug, PartialEq, Eq)]
pub struct Song {
    pub id: u64,
    pub title: String,
}

/// The mathematical value of a [`Song`].
pub struct SongView {
    pub id: u64,
    pub title: Seq<char>,
}

impl View for Song {
    type V = SongView;

    open spec fn view(&self) -> SongView {
        SongView { id: self.id, title: self.title@ }
    }
}

impl DeepView for Song {
    type V = SongView;

    open spec fn deep_view(&self) -> SongView {
        self@
    }
}

impl Decode for Song {
    /// A song is an object with the identifier `id` and the string `title`.
    /// Other members are passed over.
    open spec fn decoded_from(payload: JsonView) -> Result<SongView, DecodeError> {
        if !(payload is Object) {
            Err(DecodeError::NotAnObject)
        } else if let Err(e) = id_field(payload, Field::Id) {
            Err(e)
        } else if let Err(e) = text_field(payload, Field::Title) {
            Err(e)
        } else {
            Ok(
                SongView {
                    id: id_field(payload, Field::Id)->Ok_0,
                    title: text_field(payload, Field::Title)->Ok_0,
                },
            )
        }
    }

    fn decode(payload: &Json) -> (r: Result<Song, DecodeError>) {
        if !payload.is_object() {
            return Err(DecodeError::NotAnObject);
        }
        let id = read_id(payload, Field::Id)?;
        let title = read_text(payload, Field::Title)?;
        Ok(Song { id, title })
    }
}

} // verus!
