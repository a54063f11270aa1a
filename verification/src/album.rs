//! Albums, as far as an artist's list of albums shows them.

use vstd::prelude::*;
use crate::decode::{count_field, id_field, read_count, read_id, read_text, text_field, Decode};
use crate::error::{DecodeError, Field};
use crate::json::{Json, JsonView};

verus! {

/// An album.
#[derive(Debug, PartialEq, Eq)]
pub struct Album {
    pub id: u64,
    pub name: String,
    pub song_count: u64,
}

/// The mathematical value of an [`Album`].
pub struct AlbumView {
    pub id: u64,
    pub name: Seq<char>,
    pub song_count: u64,
}

impl View for Album {
    type V = AlbumView;

    open spec fn view(&self) -> AlbumView {
        AlbumView { id: self.id, name: self.name@, song_count: self.song_count }
    }
}

impl DeepView for Album {
    type V = AlbumView;

    open spec fn deep_view(&self) -> AlbumView {
        self@
    }
}

impl Clone for Album {
    fn clone(&self) -> (copy: Album)
        ensures
            copy == *self,
    {
        Album { id: self.id, name: self.name.clone(), song_count: self.song_count }
    }
}

impl Decode for Album {
    /// An album is an object with the identifier `id`, the string `name` and
    /// the count `songCount`. Other members are passed over.
    open spec fn decoded_from(payload: JsonView) -> Result<AlbumView, DecodeError> {
        if !(payload is Object) {
            Err(DecodeError::NotAnObject)
        } else if let Err(e) = id_field(payload, Field::Id) {
            Err(e)
        } else if let Err(e) = text_field(payload, Field::Name) {
            Err(e)
        } else if let Err(e) = count_field(payload, Field::SongCount) {
            Err(e)
        } else {
            Ok(
                AlbumView {
                    id: id_field(payload, Field::Id)->Ok_0,
                    name: text_field(payload, Field::Name)->Ok_0,
                    song_count: count_field(payload, Field::SongCount)->Ok_0,
                },
            )
        }
    }

    fn decode(payload: &Json) -> (r: Result<Album, DecodeError>) {
        if !payload.is_object() {
            return Err(DecodeError::NotAnObject);
        }
        let id = read_id(payload, Field::Id)?;
        let name = read_text(payload, Field::Name)?;
        let song_count = read_count(payload, Field::SongCount)?;
        Ok(Album { id, name, song_count })
    }
}

} // verus!
