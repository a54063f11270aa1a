use sunk::album::Album;
use sunk::artist::{get_artist, Artist, SimilarArtist};
use sunk::cover::{cover_art, CoverArt};
use sunk::decode::Decode;
use sunk::dispatch::{Request, Step};
use sunk::error::{DecodeError, Error, Field};
use sunk::json::Json;
use sunk::song::Song;

fn text(s: &str) -> Json {
    Json::Text(String::from(s))
}

fn object(members: Vec<(&str, Json)>) -> Json {
    Json::Object(members.into_iter().map(|(k, v)| (String::from(k), v)).collect())
}

fn pair(key: &str, value: &str) -> (String, String) {
    (String::from(key), String::from(value))
}

fn request(operation: &str, params: Vec<(String, String)>) -> Request {
    Request { operation: String::from(operation), params }
}

fn bellevue() -> Json {
    object(vec![
        ("id", text("1")),
        ("name", text("Bellevue")),
        ("artist", text("Misteur Valaire")),
        ("artistId", text("1")),
        ("coverArt", text("al-1")),
        ("songCount", Json::Number(9)),
        ("duration", Json::Number(1920)),
        ("playCount", Json::Number(2223)),
        ("created", text("2017-03-12T11:07:25.000Z")),
        ("genre", text("(255)")),
    ])
}

fn raw() -> Json {
    object(vec![
        ("id", text("1")),
        ("name", text("Misteur Valaire")),
        ("coverArt", text("ar-1")),
        ("albumCount", Json::Number(1)),
        ("album", Json::Array(vec![bellevue()])),
    ])
}

fn truncated() -> Json {
    object(vec![
        ("id", text("1")),
        ("name", text("Misteur Valaire")),
        ("coverArt", text("ar-1")),
        ("albumCount", Json::Number(5)),
        ("album", Json::Array(vec![bellevue()])),
    ])
}

fn full() -> Json {
    let album = |id: &str, name: &str| {
        object(vec![("id", text(id)), ("name", text(name)), ("songCount", text("10"))])
    };
    object(vec![
        ("id", text("1")),
        ("name", text("Misteur Valaire")),
        ("albumCount", Json::Number(2)),
        ("album", Json::Array(vec![album("1", "Bellevue"), album("2", "Golden Bombay")])),
    ])
}

#[test]
fn parse_artist() {
    let parsed = Artist::decode(&raw()).unwrap();

    assert_eq!(parsed.id, 1);
    assert_eq!(parsed.name, String::from("Misteur Valaire"));
    assert_eq!(parsed.album_count, 1);
}

#[test]
fn parse_artist_deep() {
    let parsed = Artist::decode(&raw()).unwrap();

    assert_eq!(parsed.albums.len() as u64, parsed.album_count);
    assert_eq!(parsed.albums[0].id, 1);
    assert_eq!(parsed.albums[0].name, String::from("Bellevue"));
    assert_eq!(parsed.albums[0].song_count, 9);
}

#[test]
fn remote_artist_album_list() {
    let parsed = Artist::decode(&raw()).unwrap();
    let albums = match parsed.albums(None) {
        Step::Done(result) => result.unwrap(),
        Step::Send(request) => panic!("nothing is to be sent, but got {:?}", request),
    };

    assert_eq!(albums[0].id, 1);
    assert_eq!(albums[0].name, String::from("Bellevue"));
    assert_eq!(albums[0].song_count, 9);
}

#[test]
fn remote_artist_cover_art() {
    let parsed = Artist::decode(&raw()).unwrap();
    assert_eq!(parsed.cover_id, Some(String::from("ar-1")));

    let sent = match parsed.cover_art(None, None) {
        Step::Send(request) => request,
        Step::Done(result) => panic!("a request is to be sent, but got {:?}", result),
    };
    assert_eq!(sent, request("getCoverArt", vec![pair("id", "ar-1")]));
    let image = vec![0x89u8, 0x50, 0x4e, 0x47];
    let cover = match parsed.cover_art(None, Some(Ok(image.clone()))) {
        Step::Done(result) => result.unwrap(),
        Step::Send(request) => panic!("the operation is over, but got {:?}", request),
    };
    println!("{:?}", cover);
    assert!(!cover.is_empty());
    assert_eq!(cover, image);
}

#[test]
fn artist_id_and_count_from_strings() {
    let j = object(vec![
        ("id", text("18446744073709551615")),
        ("name", text("n")),
        ("albumCount", text("12")),
    ]);
    let artist = Artist::decode(&j).unwrap();
    assert_eq!(artist.id, u64::MAX);
    assert_eq!(artist.album_count, 12);
}

#[test]
fn artist_with_an_id_that_is_no_number() {
    let j = object(vec![("id", text("ar-1")), ("name", text("n")), ("albumCount", Json::Number(0))]);
    assert_eq!(Artist::decode(&j), Err(DecodeError::NotNumeric(Field::Id)));
    let j = object(vec![
        ("id", text("18446744073709551616")),
        ("name", text("n")),
        ("albumCount", Json::Number(0)),
    ]);
    assert_eq!(Artist::decode(&j), Err(DecodeError::NotNumeric(Field::Id)));
}

#[test]
fn artist_without_album_key() {
    let j = object(vec![("id", text("3")), ("name", text("n")), ("albumCount", Json::Number(4))]);
    let artist = Artist::decode(&j).unwrap();
    assert!(artist.albums.is_empty());
    assert_eq!(artist.album_count, 4);
    assert_eq!(artist.cover_id, None);
}

#[test]
fn artist_with_null_cover() {
    let j = object(vec![
        ("id", text("3")),
        ("name", text("n")),
        ("coverArt", Json::Null),
        ("albumCount", Json::Number(0)),
    ]);
    assert_eq!(Artist::decode(&j).unwrap().cover_id, None);
}

#[test]
fn albums_embedded_are_returned_whatever_was_answered() {
    let parsed = Artist::decode(&raw()).unwrap();
    let expected = vec![Album { id: 1, name: String::from("Bellevue"), song_count: 9 }];
    assert_eq!(parsed.albums(None), Step::Done(Ok(expected.clone())));
    assert_eq!(
        parsed.albums(Some(Err(Error::Transport(String::from("down"))))),
        Step::Done(Ok(expected.clone()))
    );
    assert_eq!(parsed.albums(Some(Ok(full()))), Step::Done(Ok(expected)));
    assert_eq!(parsed.albums.len(), 1);
}

#[test]
fn albums_cut_short_are_fetched_again() {
    let parsed = Artist::decode(&truncated()).unwrap();
    assert_eq!(parsed.album_count, 5);
    assert_eq!(parsed.albums.len(), 1);
    assert_eq!(parsed.albums(None), Step::Send(request("getArtist", vec![pair("id", "1")])));
    let albums = match parsed.albums(Some(Ok(full()))) {
        Step::Done(result) => result.unwrap(),
        Step::Send(request) => panic!("the operation is over, but got {:?}", request),
    };
    assert_eq!(
        albums,
        vec![
            Album { id: 1, name: String::from("Bellevue"), song_count: 10 },
            Album { id: 2, name: String::from("Golden Bombay"), song_count: 10 },
        ]
    );
}

#[test]
fn albums_more_than_counted_are_fetched_again() {
    let j = object(vec![
        ("id", text("8")),
        ("name", text("n")),
        ("albumCount", Json::Number(0)),
        ("album", Json::Array(vec![bellevue()])),
    ]);
    let parsed = Artist::decode(&j).unwrap();
    assert_eq!(parsed.albums(None), Step::Send(request("getArtist", vec![pair("id", "8")])));
}

#[test]
fn albums_refetch_hands_failures_on() {
    let parsed = Artist::decode(&truncated()).unwrap();
    let protocol = || Error::Protocol { code: 70, message: String::from("not found") };
    assert_eq!(parsed.albums(Some(Err(protocol()))), Step::Done(Err(protocol())));
    assert_eq!(
        parsed.albums(Some(Err(Error::Transport(String::from("reset"))))),
        Step::Done(Err(Error::Transport(String::from("reset"))))
    );
    assert_eq!(
        parsed.albums(Some(Ok(Json::Null))),
        Step::Done(Err(Error::Decode(DecodeError::NotAnObject)))
    );
}

#[test]
fn get_artist_steps() {
    assert_eq!(get_artist(42, None), Step::Send(request("getArtist", vec![pair("id", "42")])));
    let artist = match get_artist(42, Some(Ok(raw()))) {
        Step::Done(result) => result.unwrap(),
        Step::Send(request) => panic!("the operation is over, but got {:?}", request),
    };
    assert_eq!(artist, Artist::decode(&raw()).unwrap());
    assert_eq!(
        get_artist(42, Some(Ok(object(vec![("id", text("x"))])))),
        Step::Done(Err(Error::Decode(DecodeError::NotNumeric(Field::Id))))
    );
    assert_eq!(
        get_artist(42, Some(Err(Error::Protocol { code: 40, message: String::from("denied") }))),
        Step::Done(Err(Error::Protocol { code: 40, message: String::from("denied") }))
    );
}

#[test]
fn info_request_with_and_without_count() {
    let parsed = Artist::decode(&raw()).unwrap();
    assert_eq!(
        parsed.info(None, None, None),
        Step::Send(request("getArtistInfo", vec![pair("id", "1")]))
    );
    assert_eq!(
        parsed.info(Some(20), None, None),
        Step::Send(request("getArtistInfo", vec![pair("id", "1"), pair("count", "20")]))
    );
    assert_eq!(
        parsed.info(None, Some(false), None),
        Step::Send(request("getArtistInfo", vec![pair("id", "1"), pair("includeNotPresent", "false")]))
    );
    assert_eq!(
        parsed.info(Some(0), Some(true), None),
        Step::Send(request(
            "getArtistInfo",
            vec![pair("id", "1"), pair("count", "0"), pair("includeNotPresent", "true")]
        ))
    );
}

#[test]
fn info_from_the_answer() {
    let parsed = Artist::decode(&raw()).unwrap();
    let payload = object(vec![
        ("biography", text("bio")),
        ("musicBrainzId", text("mb")),
        ("lastFmUrl", text("url")),
        ("smallImageUrl", text("s")),
        ("mediumImageUrl", text("m")),
        ("largeImageUrl", text("l")),
        (
            "similarArtist",
            Json::Array(vec![object(vec![
                ("id", text("2")),
                ("name", text("Chromeo")),
                ("coverArt", text("ar-2")),
                ("albumCount", text("3")),
            ])]),
        ),
    ]);
    let info = match parsed.info(Some(1), None, Some(Ok(payload))) {
        Step::Done(result) => result.unwrap(),
        Step::Send(request) => panic!("the operation is over, but got {:?}", request),
    };
    assert_eq!(info.biography, "bio");
    assert_eq!(
        info.similar_artists,
        vec![SimilarArtist {
            id: 2,
            name: String::from("Chromeo"),
            cover_art: Some(String::from("ar-2")),
            album_count: 3,
        }]
    );
    assert_eq!(
        parsed.info(None, None, Some(Ok(object(vec![])))),
        Step::Done(Err(Error::Decode(DecodeError::Missing(Field::Biography))))
    );
}

#[test]
fn top_songs_request_with_and_without_count() {
    let parsed = Artist::decode(&raw()).unwrap();
    assert_eq!(
        parsed.top_songs(None, None),
        Step::Send(request("getTopSongs", vec![pair("id", "1")]))
    );
    assert_eq!(
        parsed.top_songs(Some(50), None),
        Step::Send(request("getTopSongs", vec![pair("id", "1"), pair("count", "50")]))
    );
}

#[test]
fn top_songs_from_the_answer() {
    let parsed = Artist::decode(&raw()).unwrap();
    let payload = Json::Array(vec![
        object(vec![("id", text("11")), ("title", text("Ave Mucho"))]),
        object(vec![("id", text("12")), ("title", text("Dan Dan"))]),
    ]);
    assert_eq!(
        parsed.top_songs(None, Some(Ok(payload))),
        Step::Done(Ok(vec![
            Song { id: 11, title: String::from("Ave Mucho") },
            Song { id: 12, title: String::from("Dan Dan") },
        ]))
    );
    assert_eq!(
        parsed.top_songs(None, Some(Ok(object(vec![])))),
        Step::Done(Err(Error::Decode(DecodeError::NotAList)))
    );
    assert_eq!(
        parsed.top_songs(Some(3), Some(Err(Error::Transport(String::from("timeout"))))),
        Step::Done(Err(Error::Transport(String::from("timeout"))))
    );
}

#[test]
fn cover_art_of_an_artist_without_one() {
    let j = object(vec![("id", text("3")), ("name", text("n")), ("albumCount", Json::Number(0))]);
    let parsed = Artist::decode(&j).unwrap();
    assert_eq!(parsed.cover_art(None, None), Step::Done(Err(Error::NoCoverArt)));
    assert_eq!(parsed.cover_art(Some(64), None), Step::Done(Err(Error::NoCoverArt)));
    assert_eq!(parsed.cover_art(None, Some(Ok(vec![1, 2, 3]))), Step::Done(Err(Error::NoCoverArt)));
    assert_eq!(
        parsed.cover_art(None, Some(Err(Error::Protocol { code: 70, message: String::new() }))),
        Step::Done(Err(Error::NoCoverArt))
    );
}

#[test]
fn cover_art_with_a_size() {
    let parsed = Artist::decode(&raw()).unwrap();
    assert_eq!(
        parsed.cover_art(Some(300), None),
        Step::Send(request("getCoverArt", vec![pair("id", "ar-1"), pair("size", "300")]))
    );
    assert_eq!(
        parsed.cover_art(Some(300), Some(Err(Error::Transport(String::from("down"))))),
        Step::Done(Err(Error::Transport(String::from("down"))))
    );
    assert_eq!(parsed.cover_art(Some(300), Some(Ok(vec![]))), Step::Done(Ok(vec![])));
}

#[test]
fn cover_art_of_a_similar_artist() {
    let with = SimilarArtist {
        id: 2,
        name: String::from("Chromeo"),
        cover_art: Some(String::from("ar-2")),
        album_count: 3,
    };
    assert_eq!(with.cover_id(), Some(&String::from("ar-2")));
    assert_eq!(
        cover_art(&with, None, None),
        Step::Send(request("getCoverArt", vec![pair("id", "ar-2")]))
    );
    let without = SimilarArtist { id: 2, name: String::new(), cover_art: None, album_count: 0 };
    assert_eq!(without.cover_id(), None);
    assert_eq!(cover_art(&without, Some(10), None), Step::Done(Err(Error::NoCoverArt)));
}
