//! Artists: normalization, reconciliation of the embedded album list, and
//! the accessor operations that describe follow-up round trips.
use vstd::prelude::*;

use crate::album::{
    album_list_parse, albums_from_json, albums_view, duplicate_albums, lemma_albums_parse_all_ok,
    Album, AlbumView,
};
use crate::coerce::{u64_digits, u64_to_string};
use crate::error::{Error, ErrorView, NOT_FOUND_CODE};
use crate::json::{
    field, get_field, get_opt_str_field, get_str_field, get_uint_field, lookup, opt_str_field,
    raw_text, raw_text_of, str_field, uint_field, Json,
};
use crate::media::{cover_art_request, Media};
use crate::query::{Query, Request, RequestView};
use crate::response::{resolved, Response, ResponseView};

verus! {

/// Basic information about an artist.
///
/// The embedded album list may legitimately be shorter than the declared
/// `album_count`: the server sends only a prefix or omits nested detail.
/// It is treated as authoritative only when the lengths match; see
/// [`Artist::albums`].
#[derive(Debug, PartialEq)]
pub struct Artist {
    pub id: u64,
    pub name: String,
    pub cover_id: Option<String>,
    pub albums: Vec<Album>,
    pub album_count: u64,
}

/// The mathematical shadow of [`Artist`].
#[verifier::ext_equal]
pub struct ArtistView {
    pub id: u64,
    pub name: Seq<char>,
    pub cover_id: Option<Seq<char>>,
    pub albums: Seq<AlbumView>,
    pub album_count: u64,
}

impl View for Artist {
    type V = ArtistView;

    open spec fn view(&self) -> ArtistView {
        ArtistView {
            id: self.id,
            name: self.name@,
            cover_id: (match self.cover_id {
                Some(s) => Some(s@),
                None => None,
            }),
            albums: albums_view(self.albums@),
            album_count: self.album_count,
        }
    }
}

/// An artist suggested by the recommendation service: a lighter-weight
/// projection, upgradable to a full [`Artist`] via [`SimilarArtist::into_artist`].
#[derive(Debug, PartialEq)]
pub struct SimilarArtist {
    pub id: u64,
    pub name: String,
    pub cover_art: Option<String>,
    pub album_count: u64,
}

/// The mathematical shadow of [`SimilarArtist`].
#[verifier::ext_equal]
pub struct SimilarArtistView {
    pub id: u64,
    pub name: Seq<char>,
    pub cover_art: Option<Seq<char>>,
    pub album_count: u64,
}

impl View for SimilarArtist {
    type V = SimilarArtistView;

    open spec fn view(&self) -> SimilarArtistView {
        SimilarArtistView {
            id: self.id,
            name: self.name@,
            cover_art: (match self.cover_art {
                Some(s) => Some(s@),
                None => None,
            }),
            album_count: self.album_count,
        }
    }
}

/// What normalizing one artist object yields: lenient coercion for the
/// identity and the count, the optional cover reference, and the embedded
/// album list (absent meaning empty).
pub open spec fn artist_parse(v: Json) -> Result<ArtistView, ErrorView> {
    match uint_field(v, "id"@) {
        Err(e) => Err(e),
        Ok(id) => match str_field(v, "name"@) {
            Err(e) => Err(e),
            Ok(name) => match opt_str_field(v, "coverArt"@) {
                Err(e) => Err(e),
                Ok(cover_id) => match uint_field(v, "albumCount"@) {
                    Err(e) => Err(e),
                    Ok(album_count) => match album_list_parse(v) {
                        Err(e) => Err(e),
                        Ok(albums) => Ok(
                            ArtistView { id, name, cover_id, albums, album_count },
                        ),
                    },
                },
            },
        },
    }
}

/// What normalizing one suggested-artist object yields.
pub open spec fn similar_artist_parse(v: Json) -> Result<SimilarArtistView, ErrorView> {
    match uint_field(v, "id"@) {
        Err(e) => Err(e),
        Ok(id) => match str_field(v, "name"@) {
            Err(e) => Err(e),
            Ok(name) => match opt_str_field(v, "coverArt"@) {
                Err(e) => Err(e),
                Ok(cover_art) => match uint_field(v, "albumCount"@) {
                    Err(e) => Err(e),
                    Ok(album_count) => Ok(
                        SimilarArtistView { id, name, cover_art, album_count },
                    ),
                },
            },
        },
    }
}

/// The request description for a full fetch of an artist by identity.
pub open spec fn get_artist_request(id: u64) -> RequestView {
    RequestView { operation: "getArtist"@, params: seq![("id"@, u64_digits(id))] }
}

/// The request description for the artist-info lookup.
pub open spec fn artist_info_request(
    id: u64,
    count: Option<u64>,
    include_not_present: Option<bool>,
) -> RequestView {
    RequestView {
        operation: "getArtistInfo"@,
        params: seq![("id"@, u64_digits(id))]
            + (match count {
                Some(n) => seq![("count"@, u64_digits(n))],
                None => Seq::<(Seq<char>, Seq<char>)>::empty(),
            })
            + (match include_not_present {
                Some(b) => seq![("includeNotPresent"@, bool_chars(b))],
                None => Seq::<(Seq<char>, Seq<char>)>::empty(),
            }),
    }
}

/// The request description for the top-songs lookup.
pub open spec fn top_songs_request(id: u64, count: Option<u64>) -> RequestView {
    RequestView {
        operation: "getTopSongs"@,
        params: seq![("id"@, u64_digits(id))]
            + (match count {
                Some(n) => seq![("count"@, u64_digits(n))],
                None => Seq::<(Seq<char>, Seq<char>)>::empty(),
            }),
    }
}

/// The wire spelling of a boolean argument.
pub open spec fn bool_chars(b: bool) -> Seq<char> {
    if b {
        "true"@
    } else {
        "false"@
    }
}

fn bool_string(b: bool) -> (r: String)
    ensures
        r@ == bool_chars(b),
{
    if b {
        "true".to_owned()
    } else {
        "false".to_owned()
    }
}

/// Builds the request for a full fetch of an artist by identity.
pub fn get_artist(id: u64) -> (r: Request)
    ensures
        r@ == get_artist_request(id),
{
    let r = Request {
        operation: "getArtist".to_owned(),
        query: Query::with("id", u64_to_string(id)),
    };
    proof {
        assert(r@.params =~= get_artist_request(id).params);
        assert(r@ =~= get_artist_request(id));
    }
    r
}

/// The outcome of asking an artist for its albums without touching the
/// network: the embedded list when it is authoritative, else the follow-up
/// request that reconciliation must issue.
pub enum AlbumsOutcome {
    Ready(Vec<Album>),
    Fetch(Request),
}

impl Artist {
    /// Normalizes one artist object.
    pub fn from_json(v: &Json) -> (r: Result<Artist, Error>)
        ensures
            (match artist_parse(*v) {
                Ok(av) => r matches Ok(a) && a@ == av,
                Err(e) => r matches Err(err) && err@ == e,
            }),
    {
        let id = match get_uint_field(v, "id") {
            Ok(n) => n,
            Err(e) => return Err(e),
        };
        let name = match get_str_field(v, "name") {
            Ok(s) => s,
            Err(e) => return Err(e),
        };
        let cover_id = match get_opt_str_field(v, "coverArt") {
            Ok(c) => c,
            Err(e) => return Err(e),
        };
        let album_count = match get_uint_field(v, "albumCount") {
            Ok(n) => n,
            Err(e) => return Err(e),
        };
        let albums = match albums_from_json(v) {
            Ok(a) => a,
            Err(e) => return Err(e),
        };
        let a = Artist { id, name, cover_id, albums, album_count };
        proof {
            assert(a@ =~= artist_parse(*v)->Ok_0);
        }
        Ok(a)
    }

    /// The canonical wire form of the artist.  Normalizing it yields this
    /// very artist back: serialization then normalization is the identity,
    /// so normalization is idempotent across a round trip.
    #[verifier::loop_isolation(false)]
    pub fn to_json(&self) -> (r: Json)
        ensures
            artist_parse(r) == Ok::<ArtistView, ErrorView>(self@),
    {
        let mut arr: Vec<Json> = Vec::new();
        let mut i: usize = 0;
        while i < self.albums.len()
            invariant
                0 <= i <= self.albums@.len(),
                arr@.len() == i,
                forall|k: int|
                    0 <= k < i
                        ==> #[trigger] crate::album::album_parse(arr@[k])
                            == Ok::<AlbumView, ErrorView>(self.albums@[k]@),
            decreases self.albums@.len() - i,
        {
            arr.push(self.albums[i].to_json());
            i = i + 1;
        }
        let cover_json = match &self.cover_id {
            Some(c) => Json::Str(c.clone()),
            None => Json::Null,
        };
        let mut pairs: Vec<(String, Json)> = Vec::new();
        pairs.push(("id".to_owned(), Json::Num(self.id)));
        pairs.push(("name".to_owned(), Json::Str(self.name.clone())));
        pairs.push(("coverArt".to_owned(), cover_json));
        pairs.push(("albumCount".to_owned(), Json::Num(self.album_count)));
        pairs.push(("album".to_owned(), Json::Arr(arr)));
        let r = Json::Obj(pairs);
        proof {
            reveal_strlit("id");
            reveal_strlit("name");
            reveal_strlit("coverArt");
            reveal_strlit("albumCount");
            reveal_strlit("album");
            let ps = r->Obj_0@;
            assert(ps.len() == 5);
            let t1 = ps.drop_first();
            let t2 = t1.drop_first();
            let t3 = t2.drop_first();
            let t4 = t3.drop_first();
            assert(t1[0] == ps[1] && t1[1] == ps[2] && t1[2] == ps[3] && t1[3] == ps[4]);
            assert(t2[0] == ps[2] && t2[1] == ps[3] && t2[2] == ps[4]);
            assert(t3[0] == ps[3] && t3[1] == ps[4]);
            assert(t4[0] == ps[4]);
            assert("id"@.len() == 2);
            assert("name"@.len() == 4);
            assert("coverArt"@.len() == 8);
            assert("albumCount"@.len() == 10);
            assert("album"@.len() == 5);
            assert(lookup(ps, "id"@) == Some(ps[0].1));
            assert(lookup(t1, "name"@) == Some(ps[1].1));
            assert(lookup(ps, "name"@) == Some(ps[1].1));
            assert(lookup(t2, "coverArt"@) == Some(ps[2].1));
            assert(lookup(t1, "coverArt"@) == Some(ps[2].1));
            assert(lookup(ps, "coverArt"@) == Some(ps[2].1));
            assert(lookup(t3, "albumCount"@) == Some(ps[3].1));
            assert(lookup(t2, "albumCount"@) == Some(ps[3].1));
            assert(lookup(t1, "albumCount"@) == Some(ps[3].1));
            assert(lookup(ps, "albumCount"@) == Some(ps[3].1));
            assert(lookup(t4, "album"@) == Some(ps[4].1));
            assert(lookup(t3, "album"@) == Some(ps[4].1));
            assert(lookup(t2, "album"@) == Some(ps[4].1));
            assert(lookup(t1, "album"@) == Some(ps[4].1));
            assert(lookup(ps, "album"@) == Some(ps[4].1));
            assert(uint_field(r, "id"@) == Ok::<u64, ErrorView>(self.id));
            assert(str_field(r, "name"@) == Ok::<Seq<char>, ErrorView>(self.name@));
            assert(opt_str_field(r, "coverArt"@) == Ok::<Option<Seq<char>>, ErrorView>(
                self@.cover_id,
            ));
            assert(uint_field(r, "albumCount"@) == Ok::<u64, ErrorView>(self.album_count));
            lemma_albums_parse_all_ok(arr@, albums_view(self.albums@));
            assert(album_list_parse(r) == Ok::<Seq<AlbumView>, ErrorView>(self@.albums));
            assert(artist_parse(r) == Ok::<ArtistView, ErrorView>(self@));
        }
        r
    }

    /// The reconciliation decision for the embedded album list, lazy and
    /// free of side effects: the embedded list is returned only when its
    /// length matches the declared count; otherwise the follow-up full
    /// fetch to issue is described, and its fresh list is the answer.
    pub fn albums(&self) -> (r: AlbumsOutcome)
        ensures
            self@.albums.len() == self.album_count ==> (r matches AlbumsOutcome::Ready(a)
                && albums_view(a@) == self@.albums),
            self@.albums.len() != self.album_count ==> (r matches AlbumsOutcome::Fetch(req)
                && req@ == get_artist_request(self.id)),
    {
        if self.albums.len() as u64 == self.album_count {
            AlbumsOutcome::Ready(duplicate_albums(&self.albums))
        } else {
            AlbumsOutcome::Fetch(get_artist(self.id))
        }
    }

    /// Describes the artist-info lookup: an optional cap on the number of
    /// similar artists, and whether to include those the server lacks.
    pub fn info(&self, count: Option<u64>, include_not_present: Option<bool>) -> (r: Request)
        ensures
            r@ == artist_info_request(self.id, count, include_not_present),
    {
        let q = Query::with("id", u64_to_string(self.id)).arg(
            "count",
            (match count {
                Some(n) => Some(u64_to_string(n)),
                None => None,
            }),
        ).arg(
            "includeNotPresent",
            (match include_not_present {
                Some(b) => Some(bool_string(b)),
                None => None,
            }),
        );
        let r = Request { operation: "getArtistInfo".to_owned(), query: q };
        proof {
            assert(r@.params =~= artist_info_request(
                self.id,
                count,
                include_not_present,
            ).params);
            assert(r@ =~= artist_info_request(self.id, count, include_not_present));
        }
        r
    }

    /// Describes the lookup of the artist's most played songs.
    pub fn top_songs(&self, count: Option<u64>) -> (r: Request)
        ensures
            r@ == top_songs_request(self.id, count),
    {
        let q = Query::with("id", u64_to_string(self.id)).arg(
            "count",
            (match count {
                Some(n) => Some(u64_to_string(n)),
                None => None,
            }),
        );
        let r = Request { operation: "getTopSongs".to_owned(), query: q };
        proof {
            assert(r@.params =~= top_songs_request(self.id, count).params);
            assert(r@ =~= top_songs_request(self.id, count));
        }
        r
    }
}

impl Media for Artist {
    open spec fn cover(&self) -> Option<Seq<char>> {
        self@.cover_id
    }

    fn has_cover_art(&self) -> (r: bool) {
        match &self.cover_id {
            Some(_) => true,
            None => false,
        }
    }

    fn cover_id(&self) -> (r: Option<&str>) {
        match &self.cover_id {
            Some(s) => Some(s.as_str()),
            None => None,
        }
    }

    fn cover_art(&self, size: Option<u64>) -> (r: Result<Request, Error>) {
        match &self.cover_id {
            None => Err(Error::Other("no cover art found")),
            Some(c) => Ok(cover_request(c.clone(), size)),
        }
    }

    fn cover_art_url(&self, size: Option<u64>) -> (r: Result<Request, Error>) {
        match &self.cover_id {
            None => Err(Error::Other("no cover art found")),
            Some(c) => Ok(cover_request(c.clone(), size)),
        }
    }
}

/// Builds the cover-art request shared by every [`Media`] entity.
fn cover_request(cover: String, size: Option<u64>) -> (r: Request)
    ensures
        r@ == cover_art_request(cover@, size),
{
    let q = Query::with("id", cover).arg(
        "size",
        (match size {
            Some(n) => Some(u64_to_string(n)),
            None => None,
        }),
    );
    let r = Request { operation: "getCoverArt".to_owned(), query: q };
    proof {
        assert(r@.params =~= cover_art_request(cover@, size).params);
        assert(r@ =~= cover_art_request(cover@, size));
    }
    r
}

impl SimilarArtist {
    /// Normalizes one suggested-artist object.
    pub fn from_json(v: &Json) -> (r: Result<SimilarArtist, Error>)
        ensures
            (match similar_artist_parse(*v) {
                Ok(sv) => r matches Ok(s) && s@ == sv,
                Err(e) => r matches Err(err) && err@ == e,
            }),
    {
        let id = match get_uint_field(v, "id") {
            Ok(n) => n,
            Err(e) => return Err(e),
        };
        let name = match get_str_field(v, "name") {
            Ok(s) => s,
            Err(e) => return Err(e),
        };
        let cover_art = match get_opt_str_field(v, "coverArt") {
            Ok(c) => c,
            Err(e) => return Err(e),
        };
        let album_count = match get_uint_field(v, "albumCount") {
            Ok(n) => n,
            Err(e) => return Err(e),
        };
        Ok(SimilarArtist { id, name, cover_art, album_count })
    }

    /// The upgrade operation: describes the fresh full fetch by this
    /// artist's identity; [`upgraded_artist`] consumes its envelope.
    pub fn into_artist(self) -> (r: Request)
        ensures
            r@ == get_artist_request(self.id),
    {
        get_artist(self.id)
    }
}

impl Media for SimilarArtist {
    open spec fn cover(&self) -> Option<Seq<char>> {
        self@.cover_art
    }

    fn has_cover_art(&self) -> (r: bool) {
        match &self.cover_art {
            Some(_) => true,
            None => false,
        }
    }

    fn cover_id(&self) -> (r: Option<&str>) {
        match &self.cover_art {
            Some(s) => Some(s.as_str()),
            None => None,
        }
    }

    fn cover_art(&self, size: Option<u64>) -> (r: Result<Request, Error>) {
        match &self.cover_art {
            None => Err(Error::Other("no cover art found")),
            Some(c) => Ok(cover_request(c.clone(), size)),
        }
    }

    fn cover_art_url(&self, size: Option<u64>) -> (r: Result<Request, Error>) {
        match &self.cover_art {
            None => Err(Error::Other("no cover art found")),
            Some(c) => Ok(cover_request(c.clone(), size)),
        }
    }
}

/// Detailed information about an artist, provided by the recommendation
/// service.
#[derive(Debug, PartialEq)]
pub struct ArtistInfo {
    /// A blurb about the artist.
    pub biography: String,
    /// The artist's MusicBrainz identifier.
    pub musicbrainz_id: String,
    /// The artist's last.fm landing page.
    pub lastfm_url: String,
    /// URLs for the artist's image, in small, medium and large.
    pub image_urls: (String, String, String),
    /// Artists similar to this one.
    pub similar_artists: Vec<SimilarArtist>,
}

/// The mathematical shadow of [`ArtistInfo`].
#[verifier::ext_equal]
pub struct ArtistInfoView {
    pub biography: Seq<char>,
    pub musicbrainz_id: Seq<char>,
    pub lastfm_url: Seq<char>,
    pub image_urls: (Seq<char>, Seq<char>, Seq<char>),
    pub similar_artists: Seq<SimilarArtistView>,
}

impl View for ArtistInfo {
    type V = ArtistInfoView;

    open spec fn view(&self) -> ArtistInfoView {
        ArtistInfoView {
            biography: self.biography@,
            musicbrainz_id: self.musicbrainz_id@,
            lastfm_url: self.lastfm_url@,
            image_urls: (self.image_urls.0@, self.image_urls.1@, self.image_urls.2@),
            similar_artists: similar_artists_view(self.similar_artists@),
        }
    }
}

/// The views of a list of suggested artists.
pub open spec fn similar_artists_view(s: Seq<SimilarArtist>) -> Seq<SimilarArtistView> {
    s.map_values(|x: SimilarArtist| x@)
}

/// What normalizing a sequence of suggested-artist objects yields.
pub open spec fn similars_parse(s: Seq<Json>) -> Result<Seq<SimilarArtistView>, ErrorView>
    decreases s.len(),
{
    if s.len() == 0 {
        Ok(Seq::<SimilarArtistView>::empty())
    } else {
        match similar_artist_parse(s[0]) {
            Err(e) => Err(e),
            Ok(a) => match similars_parse(s.drop_first()) {
                Err(e) => Err(e),
                Ok(rest) => Ok(seq![a] + rest),
            },
        }
    }
}

/// What the similar-artist field of an artist-info payload yields: the
/// field is required, and must be a list.
pub open spec fn similar_list_parse(v: Json) -> Result<Seq<SimilarArtistView>, ErrorView> {
    match get_field(v, "similarArtist"@) {
        None => Err(ErrorView::Malformed("similarArtist"@, Seq::<char>::empty())),
        Some(j) => match j {
            Json::Arr(elems) => similars_parse(elems@),
            _ => Err(ErrorView::Malformed("similarArtist"@, raw_text(j))),
        },
    }
}

/// What normalizing an artist-info payload yields.
pub open spec fn artist_info_parse(v: Json) -> Result<ArtistInfoView, ErrorView> {
    match str_field(v, "biography"@) {
        Err(e) => Err(e),
        Ok(biography) => match str_field(v, "musicBrainzId"@) {
            Err(e) => Err(e),
            Ok(musicbrainz_id) => match str_field(v, "lastFmUrl"@) {
                Err(e) => Err(e),
                Ok(lastfm_url) => match str_field(v, "smallImageUrl"@) {
                    Err(e) => Err(e),
                    Ok(small) => match str_field(v, "mediumImageUrl"@) {
                        Err(e) => Err(e),
                        Ok(medium) => match str_field(v, "largeImageUrl"@) {
                            Err(e) => Err(e),
                            Ok(large) => match similar_list_parse(v) {
                                Err(e) => Err(e),
                                Ok(similar_artists) => Ok(
                                    ArtistInfoView {
                                        biography,
                                        musicbrainz_id,
                                        lastfm_url,
                                        image_urls: (small, medium, large),
                                        similar_artists,
                                    },
                                ),
                            },
                        },
                    },
                },
            },
        },
    }
}

proof fn lemma_similars_parse_all_ok(s: Seq<Json>, vs: Seq<SimilarArtistView>)
    requires
        s.len() == vs.len(),
        forall|k: int|
            0 <= k < s.len()
                ==> #[trigger] similar_artist_parse(s[k])
                    == Ok::<SimilarArtistView, ErrorView>(vs[k]),
    ensures
        similars_parse(s) == Ok::<Seq<SimilarArtistView>, ErrorView>(vs),
    decreases s.len(),
{
    if s.len() == 0 {
        assert(vs =~= Seq::<SimilarArtistView>::empty());
    } else {
        assert(forall|k: int|
            0 <= k < s.drop_first().len()
                ==> #[trigger] similar_artist_parse(s.drop_first()[k])
                    == Ok::<SimilarArtistView, ErrorView>(vs.drop_first()[k]));
        lemma_similars_parse_all_ok(s.drop_first(), vs.drop_first());
        assert(seq![vs[0]] + vs.drop_first() =~= vs);
    }
}

proof fn lemma_similars_parse_first_err(s: Seq<Json>, i: int)
    requires
        0 <= i < s.len(),
        forall|k: int| 0 <= k < i ==> #[trigger] similar_artist_parse(s[k]) is Ok,
        similar_artist_parse(s[i]) is Err,
    ensures
        similars_parse(s) == Err::<Seq<SimilarArtistView>, ErrorView>(
            similar_artist_parse(s[i])->Err_0,
        ),
    decreases i,
{
    if i > 0 {
        assert(forall|k: int|
            0 <= k < i - 1 ==> #[trigger] similar_artist_parse(s.drop_first()[k]) is Ok);
        assert(s.drop_first()[i - 1] == s[i]);
        lemma_similars_parse_first_err(s.drop_first(), i - 1);
    }
}

/// Extracts and normalizes the required similar-artist list.
#[verifier::loop_isolation(false)]
fn similars_from_json(v: &Json) -> (r: Result<Vec<SimilarArtist>, Error>)
    ensures
        (match similar_list_parse(*v) {
            Ok(s) => r matches Ok(out) && similar_artists_view(out@) == s,
            Err(e) => r matches Err(err) && err@ == e,
        }),
{
    match field(v, "similarArtist") {
        None => Err(Error::Malformed("similarArtist".to_owned(), String::new())),
        Some(j) => match j {
            Json::Arr(elems) => {
                let mut out: Vec<SimilarArtist> = Vec::new();
                let mut i: usize = 0;
                while i < elems.len()
                    invariant
                        0 <= i <= elems@.len(),
                        out@.len() == i,
                        forall|k: int|
                            0 <= k < i
                                ==> #[trigger] similar_artist_parse(elems@[k])
                                    == Ok::<SimilarArtistView, ErrorView>(out@[k]@),
                    decreases elems@.len() - i,
                {
                    match SimilarArtist::from_json(&elems[i]) {
                        Ok(s) => out.push(s),
                        Err(e) => {
                            proof {
                                lemma_similars_parse_first_err(elems@, i as int);
                            }
                            return Err(e);
                        },
                    }
                    i = i + 1;
                }
                proof {
                    lemma_similars_parse_all_ok(elems@, similar_artists_view(out@));
                }
                Ok(out)
            },
            _ => Err(Error::Malformed("similarArtist".to_owned(), raw_text_of(j))),
        },
    }
}

impl ArtistInfo {
    /// Normalizes one artist-info payload.
    pub fn from_json(v: &Json) -> (r: Result<ArtistInfo, Error>)
        ensures
            (match artist_info_parse(*v) {
                Ok(iv) => r matches Ok(info) && info@ == iv,
                Err(e) => r matches Err(err) && err@ == e,
            }),
    {
        let biography = match get_str_field(v, "biography") {
            Ok(s) => s,
            Err(e) => return Err(e),
        };
        let musicbrainz_id = match get_str_field(v, "musicBrainzId") {
            Ok(s) => s,
            Err(e) => return Err(e),
        };
        let lastfm_url = match get_str_field(v, "lastFmUrl") {
            Ok(s) => s,
            Err(e) => return Err(e),
        };
        let small = match get_str_field(v, "smallImageUrl") {
            Ok(s) => s,
            Err(e) => return Err(e),
        };
        let medium = match get_str_field(v, "mediumImageUrl") {
            Ok(s) => s,
            Err(e) => return Err(e),
        };
        let large = match get_str_field(v, "largeImageUrl") {
            Ok(s) => s,
            Err(e) => return Err(e),
        };
        let similar_artists = match similars_from_json(v) {
            Ok(s) => s,
            Err(e) => return Err(e),
        };
        let info = ArtistInfo {
            biography,
            musicbrainz_id,
            lastfm_url,
            image_urls: (small, medium, large),
            similar_artists,
        };
        proof {
            assert(info@ =~= artist_info_parse(*v)->Ok_0);
        }
        Ok(info)
    }
}

/// What consuming the envelope of an upgrade fetch yields: the server's
/// data-not-found failure surfaces as `NotFound`, every other outcome is
/// handed through the normal artist pipeline.
pub open spec fn upgraded_artist_spec(rv: ResponseView) -> Result<ArtistView, ErrorView> {
    match resolved(rv) {
        Err(e) => (match e {
            ErrorView::Api(code, m) => if code == NOT_FOUND_CODE {
                Err(ErrorView::NotFound)
            } else {
                Err(ErrorView::Api(code, m))
            },
            _ => Err(e),
        }),
        Ok(j) => artist_parse(j),
    }
}

/// Consumes the envelope of an upgrade fetch; see [`upgraded_artist_spec`].
pub fn upgraded_artist(resp: &Response) -> (r: Result<Artist, Error>)
    ensures
        (match upgraded_artist_spec(resp@) {
            Ok(av) => r matches Ok(a) && a@ == av,
            Err(e) => r matches Err(err) && err@ == e,
        }),
{
    let payload = match resp.into_value() {
        Ok(j) => j,
        Err(e) => match e {
            Error::Api(code, m) => {
                if code == NOT_FOUND_CODE {
                    return Err(Error::NotFound);
                }
                return Err(Error::Api(code, m));
            },
            _ => {
                return Err(e);
            },
        },
    };
    Artist::from_json(payload)
}

/// What consuming the envelope of the reconciliation follow-up yields: the
/// freshly embedded album list of the re-fetched artist, the stale partial
/// list playing no part.
pub open spec fn refetched_albums_spec(rv: ResponseView) -> Result<Seq<AlbumView>, ErrorView> {
    match resolved(rv) {
        Err(e) => Err(e),
        Ok(j) => match artist_parse(j) {
            Err(e) => Err(e),
            Ok(av) => Ok(av.albums),
        },
    }
}

/// Consumes the envelope of the reconciliation follow-up fetch; see
/// [`refetched_albums_spec`].
pub fn refetched_albums(resp: &Response) -> (r: Result<Vec<Album>, Error>)
    ensures
        (match refetched_albums_spec(resp@) {
            Ok(s) => r matches Ok(a) && albums_view(a@) == s,
            Err(e) => r matches Err(err) && err@ == e,
        }),
{
    let payload = match resp.into_value() {
        Ok(j) => j,
        Err(e) => return Err(e),
    };
    let artist = match Artist::from_json(payload) {
        Ok(a) => a,
        Err(e) => return Err(e),
    };
    Ok(artist.albums)
}

} // verus!
