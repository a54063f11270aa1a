//! Artists: the entity, the details that the server gives about one, and the
//! operations on one.

use vstd::prelude::*;
use vstd::string::*;
use crate::album::{Album, AlbumView};
use crate::cover::{cover_art, cover_art_step, CoverArt};
use crate::decimal::decimal;
use crate::decode::{
    count_field,
    decode_each,
    id_field,
    list_field,
    optional_text_field,
    read_count,
    read_id,
    read_list,
    read_optional_text,
    read_text,
    text_field,
    Decode,
};
use crate::dispatch::{
    answer_view,
    conclude,
    exchange,
    reply_view,
    Outcome,
    Request,
    RequestView,
    Step,
};
use crate::error::{DecodeError, Error, ErrorView, Field};
use crate::decimal::parse_decimal;
use crate::json::{member, Json, JsonView};
use crate::query::{with_arg, wire_of, Query};
use crate::song::{Song, SongView};

verus! {

/// An artist. `album_count` is the number of albums that the server says the
/// artist has. `albums` holds the albums that came with the artist, which may
/// be fewer: the server may cut the list short. [`Artist::albums`] gives the
/// whole list.
#[derive(Debug, PartialEq, Eq)]
pub struct Artist {
    pub id: u64,
    pub name: String,
    pub cover_id: Option<String>,
    pub albums: Vec<Album>,
    pub album_count: u64,
}

/// The mathematical value of an [`Artist`].
pub struct ArtistView {
    pub id: u64,
    pub name: Seq<char>,
    pub cover_id: Option<Seq<char>>,
    pub albums: Seq<AlbumView>,
    pub album_count: u64,
}

impl CoverArt for Artist {
    open spec fn cover(&self) -> Option<Seq<char>> {
        self.cover_id.deep_view()
    }

    fn cover_id(&self) -> (id: Option<&String>) {
        self.cover_id.as_ref()
    }
}

impl View for Artist {
    type V = ArtistView;

    open spec fn view(&self) -> ArtistView {
        ArtistView {
            id: self.id,
            name: self.name@,
            cover_id: self.cover_id.deep_view(),
            albums: self.albums.deep_view(),
            album_count: self.album_count,
        }
    }
}

impl DeepView for Artist {
    type V = ArtistView;

    open spec fn deep_view(&self) -> ArtistView {
        self@
    }
}

impl Decode for Artist {
    /// An artist is an object with the identifier `id`, the string `name`,
    /// the count `albumCount`, and, where the server gave them, the string
    /// `coverArt` and the list `album` of albums. Other members are passed
    /// over.
    open spec fn decoded_from(payload: JsonView) -> Result<ArtistView, DecodeError> {
        if !(payload is Object) {
            Err(DecodeError::NotAnObject)
        } else if let Err(e) = id_field(payload, Field::Id) {
            Err(e)
        } else if let Err(e) = text_field(payload, Field::Name) {
            Err(e)
        } else if let Err(e) = optional_text_field(payload, Field::CoverArt) {
            Err(e)
        } else if let Err(e) = count_field(payload, Field::AlbumCount) {
            Err(e)
        } else if let Err(e) = list_field(payload, Field::Album) {
            Err(e)
        } else if let Err(e) = decode_each::<Album>(list_field(payload, Field::Album)->Ok_0) {
            Err(e)
        } else {
            Ok(
                ArtistView {
                    id: id_field(payload, Field::Id)->Ok_0,
                    name: text_field(payload, Field::Name)->Ok_0,
                    cover_id: optional_text_field(payload, Field::CoverArt)->Ok_0,
                    albums: decode_each::<Album>(list_field(payload, Field::Album)->Ok_0)->Ok_0,
                    album_count: count_field(payload, Field::AlbumCount)->Ok_0,
                },
            )
        }
    }

    fn decode(payload: &Json) -> (r: Result<Artist, DecodeError>) {
        if !payload.is_object() {
            return Err(DecodeError::NotAnObject);
        }
        let id = read_id(payload, Field::Id)?;
        let name = read_text(payload, Field::Name)?;
        let cover_id = read_optional_text(payload, Field::CoverArt)?;
        let album_count = read_count(payload, Field::AlbumCount)?;
        let albums = read_list::<Album>(payload, Field::Album)?;
        Ok(Artist { id, name, cover_id, albums, album_count })
    }
}

/// An artist that the server holds to be similar to another.
#[derive(Debug, PartialEq, Eq)]
pub struct SimilarArtist {
    pub id: u64,
    pub name: String,
    pub cover_art: Option<String>,
    pub album_count: u64,
}

/// The mathematical value of a [`SimilarArtist`].
pub struct SimilarArtistView {
    pub id: u64,
    pub name: Seq<char>,
    pub cover_art: Option<Seq<char>>,
    pub album_count: u64,
}

impl View for SimilarArtist {
    type V = SimilarArtistView;

    open spec fn view(&self) -> SimilarArtistView {
        SimilarArtistView {
            id: self.id,
            name: self.name@,
            cover_art: self.cover_art.deep_view(),
            album_count: self.album_count,
        }
    }
}

impl DeepView for SimilarArtist {
    type V = SimilarArtistView;

    open spec fn deep_view(&self) -> SimilarArtistView {
        self@
    }
}

impl CoverArt for SimilarArtist {
    open spec fn cover(&self) -> Option<Seq<char>> {
        self.cover_art.deep_view()
    }

    fn cover_id(&self) -> (id: Option<&String>) {
        self.cover_art.as_ref()
    }
}

impl Decode for SimilarArtist {
    /// A similar artist is an object with the identifier `id`, the string
    /// `name`, the count `albumCount`, and, where the server gave it, the
    /// string `coverArt`. Other members are passed over.
    open spec fn decoded_from(payload: JsonView) -> Result<SimilarArtistView, DecodeError> {
        if !(payload is Object) {
            Err(DecodeError::NotAnObject)
        } else if let Err(e) = id_field(payload, Field::Id) {
            Err(e)
        } else if let Err(e) = text_field(payload, Field::Name) {
            Err(e)
        } else if let Err(e) = optional_text_field(payload, Field::CoverArt) {
            Err(e)
        } else if let Err(e) = count_field(payload, Field::AlbumCount) {
            Err(e)
        } else {
            Ok(
                SimilarArtistView {
                    id: id_field(payload, Field::Id)->Ok_0,
                    name: text_field(payload, Field::Name)->Ok_0,
                    cover_art: optional_text_field(payload, Field::CoverArt)->Ok_0,
                    album_count: count_field(payload, Field::AlbumCount)->Ok_0,
                },
            )
        }
    }

    fn decode(payload: &Json) -> (r: Result<SimilarArtist, DecodeError>) {
        if !payload.is_object() {
            return Err(DecodeError::NotAnObject);
        }
        let id = read_id(payload, Field::Id)?;
        let name = read_text(payload, Field::Name)?;
        let cover_art = read_optional_text(payload, Field::CoverArt)?;
        let album_count = read_count(payload, Field::AlbumCount)?;
        Ok(SimilarArtist { id, name, cover_art, album_count })
    }
}

/// What the server knows about an artist beyond the catalogue. The three
/// image addresses are the small, the medium and the large image, in this
/// order.
#[derive(Debug, PartialEq, Eq)]
pub struct ArtistInfo {
    pub biography: String,
    pub musicbrainz_id: String,
    pub lastfm_url: String,
    pub image_urls: (String, String, String),
    pub similar_artists: Vec<SimilarArtist>,
}

/// The mathematical value of an [`ArtistInfo`].
pub struct ArtistInfoView {
    pub biography: Seq<char>,
    pub musicbrainz_id: Seq<char>,
    pub lastfm_url: Seq<char>,
    pub image_urls: (Seq<char>, Seq<char>, Seq<char>),
    pub similar_artists: Seq<SimilarArtistView>,
}

impl View for ArtistInfo {
    type V = ArtistInfoView;

    open spec fn view(&self) -> ArtistInfoView {
        ArtistInfoView {
            biography: self.biography@,
            musicbrainz_id: self.musicbrainz_id@,
            lastfm_url: self.lastfm_url@,
            image_urls: (self.image_urls.0@, self.image_urls.1@, self.image_urls.2@),
            similar_artists: self.similar_artists.deep_view(),
        }
    }
}

impl DeepView for ArtistInfo {
    type V = ArtistInfoView;

    open spec fn deep_view(&self) -> ArtistInfoView {
        self@
    }
}

impl Decode for ArtistInfo {
    /// The details of an artist are an object with the strings `biography`,
    /// `musicBrainzId`, `lastFmUrl`, `smallImageUrl`, `mediumImageUrl` and
    /// `largeImageUrl`, and, where the server gave it, the list
    /// `similarArtist` of similar artists. Other members are passed over.
    open spec fn decoded_from(payload: JsonView) -> Result<ArtistInfoView, DecodeError> {
        if !(payload is Object) {
            Err(DecodeError::NotAnObject)
        } else if let Err(e) = text_field(payload, Field::Biography) {
            Err(e)
        } else if let Err(e) = text_field(payload, Field::MusicBrainzId) {
            Err(e)
        } else if let Err(e) = text_field(payload, Field::LastFmUrl) {
            Err(e)
        } else if let Err(e) = text_field(payload, Field::SmallImageUrl) {
            Err(e)
        } else if let Err(e) = text_field(payload, Field::MediumImageUrl) {
            Err(e)
        } else if let Err(e) = text_field(payload, Field::LargeImageUrl) {
            Err(e)
        } else if let Err(e) = list_field(payload, Field::SimilarArtist) {
            Err(e)
        } else if let Err(e) = decode_each::<SimilarArtist>(
            list_field(payload, Field::SimilarArtist)->Ok_0,
        ) {
            Err(e)
        } else {
            Ok(
                ArtistInfoView {
                    biography: text_field(payload, Field::Biography)->Ok_0,
                    musicbrainz_id: text_field(payload, Field::MusicBrainzId)->Ok_0,
                    lastfm_url: text_field(payload, Field::LastFmUrl)->Ok_0,
                    image_urls: (
                        text_field(payload, Field::SmallImageUrl)->Ok_0,
                        text_field(payload, Field::MediumImageUrl)->Ok_0,
                        text_field(payload, Field::LargeImageUrl)->Ok_0,
                    ),
                    similar_artists: decode_each::<SimilarArtist>(
                        list_field(payload, Field::SimilarArtist)->Ok_0,
                    )->Ok_0,
                },
            )
        }
    }

    fn decode(payload: &Json) -> (r: Result<ArtistInfo, DecodeError>) {
        if !payload.is_object() {
            return Err(DecodeError::NotAnObject);
        }
        let biography = read_text(payload, Field::Biography)?;
        let musicbrainz_id = read_text(payload, Field::MusicBrainzId)?;
        let lastfm_url = read_text(payload, Field::LastFmUrl)?;
        let small = read_text(payload, Field::SmallImageUrl)?;
        let medium = read_text(payload, Field::MediumImageUrl)?;
        let large = read_text(payload, Field::LargeImageUrl)?;
        let similar_artists = read_list::<SimilarArtist>(payload, Field::SimilarArtist)?;
        Ok(
            ArtistInfo {
                biography,
                musicbrainz_id,
                lastfm_url,
                image_urls: (small, medium, large),
                similar_artists,
            },
        )
    }
}

/// The request for the artist `id`.
pub open spec fn get_artist_request(id: u64) -> RequestView {
    RequestView { operation: "getArtist"@, params: seq![("id"@, decimal(id as nat))] }
}

/// The request for the details of the artist `id`. The parameters `count`
/// and `includeNotPresent` go on the wire only where the caller gave them.
pub open spec fn info_request(
    id: u64,
    count: Option<usize>,
    include_not_present: Option<bool>,
) -> RequestView {
    RequestView {
        operation: "getArtistInfo"@,
        params: with_arg(
            with_arg(seq![("id"@, decimal(id as nat))], "count"@, wire_of(count)),
            "includeNotPresent"@,
            wire_of(include_not_present),
        ),
    }
}

/// The request for the top songs of the artist `id`. The parameter `count`
/// goes on the wire only where the caller gave it.
pub open spec fn top_songs_request(id: u64, count: Option<usize>) -> RequestView {
    RequestView {
        operation: "getTopSongs"@,
        params: with_arg(seq![("id"@, decimal(id as nat))], "count"@, wire_of(count)),
    }
}

/// Whether the albums that came with an artist are all of the artist's
/// albums.
pub open spec fn is_complete(artist: ArtistView) -> bool {
    artist.albums.len() == artist.album_count
}

/// The albums operation. Where the albums that came with the artist are all
/// there, they are the result, whatever `reply` holds, and nothing is asked
/// of the server. Otherwise the artist is fetched again, in one round trip,
/// and the albums of the artist that comes back are the result.
pub open spec fn albums_step(
    artist: ArtistView,
    reply: Option<Result<JsonView, ErrorView>>,
) -> Outcome<Seq<AlbumView>> {
    if is_complete(artist) {
        Outcome::Done(Ok(artist.albums))
    } else {
        match exchange::<Artist>(get_artist_request(artist.id), reply) {
            Outcome::Send(request) => Outcome::Send(request),
            Outcome::Done(Ok(fresh)) => Outcome::Done(Ok(fresh.albums)),
            Outcome::Done(Err(error)) => Outcome::Done(Err(error)),
        }
    }
}

/// One step of fetching the artist `id`: one round trip, whose answer holds
/// the artist.
pub fn get_artist(id: u64, reply: Option<Result<Json, Error>>) -> (step: Step<Artist>)
    ensures
        step.deep_view() == exchange::<Artist>(get_artist_request(id), reply_view(reply)),
{
    match reply {
        None => Step::Send(Request::new("getArtist", Query::with("id", id))),
        Some(answer) => Step::Done(conclude::<Artist>(answer)),
    }
}

impl Artist {
    /// One step of listing the artist's albums.
    pub fn albums(&self, reply: Option<Result<Json, Error>>) -> (step: Step<Vec<Album>>)
        ensures
            step.deep_view() == albums_step(self@, reply_view(reply)),
    {
        if self.albums.len() as u64 == self.album_count {
            let albums = self.albums.clone();
            assert(albums.deep_view() =~= self.albums.deep_view());
            Step::Done(Ok(albums))
        } else {
            match get_artist(self.id, reply) {
                Step::Send(request) => Step::Send(request),
                Step::Done(Ok(fresh)) => Step::Done(Ok(fresh.albums)),
                Step::Done(Err(error)) => Step::Done(Err(error)),
            }
        }
    }

    /// One step of fetching the details of the artist: one round trip, whose
    /// answer holds them. `count` bounds the number of similar artists asked
    /// for; `include_not_present` asks for similar artists that the server
    /// has no music of.
    pub fn info(
        &self,
        count: Option<usize>,
        include_not_present: Option<bool>,
        reply: Option<Result<Json, Error>>,
    ) -> (step: Step<ArtistInfo>)
        ensures
            step.deep_view() == exchange::<ArtistInfo>(
                info_request(self.id, count, include_not_present),
                reply_view(reply),
            ),
    {
        match reply {
            None => {
                let query = Query::with("id", self.id).arg("count", count).arg(
                    "includeNotPresent",
                    include_not_present,
                );
                Step::Send(Request::new("getArtistInfo", query))
            },
            Some(answer) => Step::Done(conclude::<ArtistInfo>(answer)),
        }
    }

    /// One step of listing the top songs of the artist: one round trip,
    /// whose answer is the list. `count` bounds the number of songs asked
    /// for.
    pub fn top_songs(&self, count: Option<usize>, reply: Option<Result<Json, Error>>) -> (step:
        Step<Vec<Song>>)
        ensures
            step.deep_view() == exchange::<Vec<Song>>(
                top_songs_request(self.id, count),
                reply_view(reply),
            ),
    {
        match reply {
            None => {
                let query = Query::with("id", self.id).arg("count", count);
                Step::Send(Request::new("getTopSongs", query))
            },
            Some(answer) => Step::Done(conclude::<Vec<Song>>(answer)),
        }
    }

    /// One step of fetching the artist's cover art, scaled to `size` pixels
    /// where a size is given.
    pub fn cover_art(&self, size: Option<usize>, reply: Option<Result<Vec<u8>, Error>>) -> (step:
        Step<Vec<u8>>)
        ensures
            step.deep_view() == cover_art_step(self@.cover_id, size, reply_view(reply)),
    {
        cover_art(self, size, reply)
    }
}

/// Whether `params` holds a parameter named `key`.
pub open spec fn has_param(params: Seq<(Seq<char>, Seq<char>)>, key: Seq<char>) -> bool {
    exists|i: int| 0 <= i < params.len() && (#[trigger] params[i]).0 == key
}

/// An artist that a payload holds has the numbers that the payload's strings
/// denote: `id` is a string, and the artist's identifier is the number that
/// it denotes; `albumCount` is a number, which is the artist's album count,
/// or a string, and then the album count is the number that it denotes.
pub proof fn lemma_artist_numbers(payload: JsonView, artist: ArtistView)
    requires
        Artist::decoded_from(payload) == Ok::<ArtistView, DecodeError>(artist),
    ensures
        member(payload, Field::Id.name()) matches Some(JsonView::Text(s)) && parse_decimal(s)
            == Some(artist.id),
        match member(payload, Field::AlbumCount.name()) {
            Some(JsonView::Text(s)) => parse_decimal(s) == Some(artist.album_count),
            Some(JsonView::Number(n)) => n == artist.album_count,
            _ => false,
        },
{
}

/// An object whose `id` is a string that denotes no number holds no artist.
pub proof fn lemma_artist_id_not_numeric(payload: JsonView, id: Seq<char>)
    requires
        payload is Object,
        member(payload, Field::Id.name()) == Some(JsonView::Text(id)),
        parse_decimal(id) is None,
    ensures
        Artist::decoded_from(payload) == Err::<ArtistView, DecodeError>(
            DecodeError::NotNumeric(Field::Id),
        ),
{
}

/// A payload without the member `album` holds an artist wherever its other
/// fields can be read. The artist then has no albums embedded, and the album
/// count that the payload gives.
pub proof fn lemma_artist_without_albums(payload: JsonView)
    requires
        payload is Object,
        member(payload, Field::Album.name()) is None,
        id_field(payload, Field::Id) is Ok,
        text_field(payload, Field::Name) is Ok,
        optional_text_field(payload, Field::CoverArt) is Ok,
        count_field(payload, Field::AlbumCount) is Ok,
    ensures
        Artist::decoded_from(payload) matches Ok(artist) && artist.albums == Seq::<
            AlbumView,
        >::empty() && artist.album_count == count_field(payload, Field::AlbumCount)->Ok_0,
{
}

/// Where the albums that came with an artist are as many as its album count,
/// the albums operation sends nothing and gives those albums, unchanged,
/// whatever the server may have answered.
pub proof fn lemma_albums_embedded(artist: ArtistView, reply: Option<Result<JsonView, ErrorView>>)
    requires
        artist.albums.len() == artist.album_count,
    ensures
        albums_step(artist, reply) == Outcome::Done(Ok::<Seq<AlbumView>, ErrorView>(artist.albums)),
{
}

/// Where the albums that came with an artist are not as many as its album
/// count, the albums operation asks for the artist by its identifier, and
/// once only: on any answer it is over. The albums of the artist that the
/// answer holds are then the result.
pub proof fn lemma_albums_refetched(
    artist: ArtistView,
    answer: Result<JsonView, ErrorView>,
    fresh: ArtistView,
)
    requires
        artist.albums.len() != artist.album_count,
    ensures
        albums_step(artist, None) == Outcome::<Seq<AlbumView>>::Send(
            get_artist_request(artist.id),
        ),
        albums_step(artist, Some(answer)) is Done,
        answer matches Ok(payload) && Artist::decoded_from(payload) == Ok::<
            ArtistView,
            DecodeError,
        >(fresh) ==> albums_step(artist, Some(answer)) == Outcome::Done(
            Ok::<Seq<AlbumView>, ErrorView>(fresh.albums),
        ),
{
}

/// An entity without a cover identifier has no cover art: the operation
/// sends nothing and ends with the absence, whatever the server may have
/// answered.
pub proof fn lemma_no_cover_art(size: Option<usize>, reply: Option<Result<Seq<u8>, ErrorView>>)
    ensures
        cover_art_step(None, size, reply) == Outcome::<Seq<u8>>::Done(Err(ErrorView::NoCoverArt)),
{
}

/// The requests for an artist's details and for its top songs name a count
/// exactly where the caller gave one, and then with that count in decimal.
pub proof fn lemma_count_sent_when_given(
    id: u64,
    count: Option<usize>,
    include_not_present: Option<bool>,
)
    ensures
        has_param(info_request(id, count, include_not_present).params, "count"@) <==> count
            is Some,
        has_param(top_songs_request(id, count).params, "count"@) <==> count is Some,
        count matches Some(n) ==> info_request(id, count, include_not_present).params[1] == (
            "count"@,
            decimal(n as nat),
        ) && top_songs_request(id, count).params[1] == ("count"@, decimal(n as nat)),
{
    reveal_strlit("id");
    reveal_strlit("count");
    reveal_strlit("includeNotPresent");
    let info = info_request(id, count, include_not_present).params;
    let top = top_songs_request(id, count).params;
    assert("id"@ != "count"@) by {
        assert("id"@.len() != "count"@.len());
    }
    assert("includeNotPresent"@ != "count"@) by {
        assert("includeNotPresent"@.len() != "count"@.len());
    }
    if count is Some {
        assert(info[1].0 == "count"@);
        assert(top[1].0 == "count"@);
    }
}

} // verus!
