use subsonic_client::artist::{
    get_artist, refetched_albums, upgraded_artist, AlbumsOutcome, Artist, ArtistInfo,
    SimilarArtist,
};
use subsonic_client::error::Error;
use subsonic_client::json::{parse_json, Json};
use subsonic_client::media::Media;
use subsonic_client::response::Response;

fn raw() -> Json {
    parse_json(
        r#"{
        "id" : "1",
        "name" : "Misteur Valaire",
        "coverArt" : "ar-1",
        "albumCount" : 1,
        "album" : [ {
            "id" : "1",
            "name" : "Bellevue",
            "artist" : "Misteur Valaire",
            "artistId" : "1",
            "coverArt" : "al-1",
            "songCount" : 9,
            "duration" : 1920,
            "playCount" : 2223,
            "created" : "2017-03-12T11:07:25.000Z",
            "genre" : "(255)"
        } ]
    }"#,
    )
    .unwrap()
}

#[test]
fn parse_artist() {
    let parsed = Artist::from_json(&raw()).unwrap();

    assert_eq!(parsed.id, 1);
    assert_eq!(parsed.name, String::from("Misteur Valaire"));
    assert_eq!(parsed.album_count, 1);
}

#[test]
fn parse_artist_deep() {
    let parsed = Artist::from_json(&raw()).unwrap();

    assert_eq!(parsed.albums.len() as u64, parsed.album_count);
    assert_eq!(parsed.albums[0].id, 1);
    assert_eq!(parsed.albums[0].name, String::from("Bellevue"));
    assert_eq!(parsed.albums[0].song_count, 9);
}

#[test]
fn remote_artist_album_list() {
    let parsed = Artist::from_json(&raw()).unwrap();
    let albums = match parsed.albums() {
        AlbumsOutcome::Ready(albums) => albums,
        AlbumsOutcome::Fetch(_) => panic!("embedded list is authoritative"),
    };

    assert_eq!(albums[0].id, 1);
    assert_eq!(albums[0].name, String::from("Bellevue"));
    assert_eq!(albums[0].song_count, 9);
}

#[test]
fn remote_artist_cover_art() {
    let parsed = Artist::from_json(&raw()).unwrap();
    assert_eq!(parsed.cover_id, Some(String::from("ar-1")));

    let req = parsed.cover_art(None).unwrap();
    assert_eq!(req.operation, String::from("getCoverArt"));
    assert_eq!(
        req.query.pairs,
        vec![(String::from("id"), String::from("ar-1"))]
    );
}

#[test]
fn cover_art_missing_is_refused() {
    let parsed =
        Artist::from_json(&parse_json(r#"{"id":2,"name":"N","albumCount":0}"#).unwrap()).unwrap();
    assert!(!parsed.has_cover_art());
    assert_eq!(parsed.cover_art(None), Err(Error::Other("no cover art found")));
    assert_eq!(parsed.cover_art_url(Some(64)), Err(Error::Other("no cover art found")));
}

#[test]
fn identity_as_string_and_as_number_agree() {
    let from_string =
        Artist::from_json(&parse_json(r#"{"id":"7","name":"A","albumCount":"2"}"#).unwrap())
            .unwrap();
    let from_number =
        Artist::from_json(&parse_json(r#"{"id":7,"name":"A","albumCount":2}"#).unwrap()).unwrap();
    assert_eq!(from_string, from_number);
    assert_eq!(from_string.id, 7);
    assert_eq!(from_string.album_count, 2);
}

#[test]
fn non_numeric_identity_is_fatal() {
    let r = Artist::from_json(&parse_json(r#"{"id":"abc","name":"A","albumCount":1}"#).unwrap());
    assert_eq!(
        r,
        Err(Error::Malformed(String::from("id"), String::from("abc")))
    );
}

#[test]
fn fractional_count_is_fatal() {
    let r = Artist::from_json(&parse_json(r#"{"id":1,"name":"A","albumCount":1.5}"#).unwrap());
    assert_eq!(
        r,
        Err(Error::Malformed(String::from("albumCount"), String::from("1.5")))
    );
}

#[test]
fn stale_album_list_triggers_one_follow_up_fetch() {
    let parsed =
        Artist::from_json(&parse_json(r#"{"id":"1","name":"Misteur Valaire","albumCount":1}"#).unwrap())
            .unwrap();
    assert_eq!(parsed.albums.len(), 0);

    let req = match parsed.albums() {
        AlbumsOutcome::Ready(_) => panic!("a partial list must be repaired"),
        AlbumsOutcome::Fetch(req) => req,
    };
    assert_eq!(req.operation, String::from("getArtist"));
    assert_eq!(req.query.pairs, vec![(String::from("id"), String::from("1"))]);

    let follow_up = Response::from_json(
        parse_json(
            r#"{"subsonic-response":{
                "status":"ok","version":"1.14.0",
                "artist":{"id":"1","name":"Misteur Valaire","coverArt":"ar-1","albumCount":1,
                    "album":[{"id":"1","name":"Bellevue","songCount":9}]}
            }}"#,
        )
        .unwrap(),
    )
    .unwrap();
    let fresh = refetched_albums(&follow_up).unwrap();
    assert_eq!(fresh.len(), 1);
    assert_eq!(fresh[0].name, String::from("Bellevue"));
    assert_eq!(fresh[0].song_count, 9);
}

#[test]
fn round_trip_is_idempotent() {
    let parsed = Artist::from_json(&raw()).unwrap();
    let reparsed = Artist::from_json(&parsed.to_json()).unwrap();
    assert_eq!(parsed, reparsed);
}

#[test]
fn end_to_end_example() {
    let parsed = Artist::from_json(
        &parse_json(
            r#"{"id":"1","name":"Misteur Valaire","coverArt":"ar-1","albumCount":1,
                "album":[{"id":"1","name":"Bellevue","songCount":9}]}"#,
        )
        .unwrap(),
    )
    .unwrap();
    assert_eq!(parsed.id, 1);
    assert_eq!(parsed.name, String::from("Misteur Valaire"));
    assert_eq!(parsed.cover_id, Some(String::from("ar-1")));
    assert_eq!(parsed.album_count, 1);
    assert_eq!(parsed.albums.len(), 1);
    assert_eq!(parsed.albums[0].id, 1);
    assert_eq!(parsed.albums[0].name, String::from("Bellevue"));
    assert_eq!(parsed.albums[0].song_count, 9);
}

#[test]
fn similar_artist_parses_and_upgrades() {
    let similar = SimilarArtist::from_json(
        &parse_json(r#"{"id":"5","name":"Other","coverArt":"ar-5","albumCount":"3"}"#).unwrap(),
    )
    .unwrap();
    assert_eq!(similar.id, 5);
    assert_eq!(similar.album_count, 3);
    assert_eq!(similar.cover_id(), Some("ar-5"));

    let req = similar.into_artist();
    assert_eq!(req, get_artist(5));
    assert_eq!(req.operation, String::from("getArtist"));
    assert_eq!(req.query.pairs, vec![(String::from("id"), String::from("5"))]);
}

#[test]
fn upgrade_surfaces_not_found() {
    let resp = Response::from_json(
        parse_json(
            r#"{"subsonic-response":{"status":"failed","version":"1.14.0",
                "error":{"code":70,"message":"Requested resource not found"}}}"#,
        )
        .unwrap(),
    )
    .unwrap();
    assert_eq!(upgraded_artist(&resp), Err(Error::NotFound));
}

#[test]
fn upgrade_hands_other_api_errors_through() {
    let resp = Response::from_json(
        parse_json(
            r#"{"subsonic-response":{"status":"failed","version":"1.14.0",
                "error":{"code":50,"message":"Not authorized"}}}"#,
        )
        .unwrap(),
    )
    .unwrap();
    assert_eq!(
        upgraded_artist(&resp),
        Err(Error::Api(50, String::from("Not authorized")))
    );
}

#[test]
fn artist_info_parses() {
    let info = ArtistInfo::from_json(
        &parse_json(
            r#"{"biography":"A band.","musicBrainzId":"mb-1","lastFmUrl":"https://last.fm/a",
                "smallImageUrl":"s","mediumImageUrl":"m","largeImageUrl":"l",
                "similarArtist":[{"id":"5","name":"Other","albumCount":"3"}]}"#,
        )
        .unwrap(),
    )
    .unwrap();
    assert_eq!(info.biography, String::from("A band."));
    assert_eq!(info.musicbrainz_id, String::from("mb-1"));
    assert_eq!(info.lastfm_url, String::from("https://last.fm/a"));
    assert_eq!(
        info.image_urls,
        (String::from("s"), String::from("m"), String::from("l"))
    );
    assert_eq!(info.similar_artists.len(), 1);
    assert_eq!(info.similar_artists[0].name, String::from("Other"));
}

#[test]
fn info_request_omits_absent_arguments() {
    let artist = Artist::from_json(&raw()).unwrap();

    let bare = artist.info(None, None);
    assert_eq!(bare.operation, String::from("getArtistInfo"));
    assert_eq!(bare.query.pairs, vec![(String::from("id"), String::from("1"))]);

    let full = artist.info(Some(20), Some(false));
    assert_eq!(
        full.query.pairs,
        vec![
            (String::from("id"), String::from("1")),
            (String::from("count"), String::from("20")),
            (String::from("includeNotPresent"), String::from("false")),
        ]
    );
}

#[test]
fn top_songs_request_and_list() {
    let artist = Artist::from_json(&raw()).unwrap();
    let req = artist.top_songs(Some(2));
    assert_eq!(req.operation, String::from("getTopSongs"));
    assert_eq!(
        req.query.pairs,
        vec![
            (String::from("id"), String::from("1")),
            (String::from("count"), String::from("2")),
        ]
    );

    let songs = subsonic_client::song::songs_from_json(
        &parse_json(r#"{"song":[{"id":"11","title":"Space Food"},{"id":12,"title":"Known By Sight"}]}"#)
            .unwrap(),
    )
    .unwrap();
    assert_eq!(songs.len(), 2);
    assert_eq!(songs[0].id, 11);
    assert_eq!(songs[0].title, String::from("Space Food"));
    assert_eq!(songs[1].id, 12);
}

#[test]
fn null_cover_art_is_unset() {
    let parsed = Artist::from_json(
        &parse_json(r#"{"id":3,"name":"N","coverArt":null,"albumCount":0}"#).unwrap(),
    )
    .unwrap();
    assert_eq!(parsed.cover_id, None);
    assert!(!parsed.has_cover_art());
}
