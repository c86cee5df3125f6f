//! Songs, as the top-songs lookup returns them.
use vstd::prelude::*;

use crate::error::{Error, ErrorView};
use crate::json::{field, get_field, get_str_field, get_uint_field, raw_text, raw_text_of, str_field, uint_field, Json};

verus! {

/// Basic information about a song.
#[derive(Debug, PartialEq)]
pub struct Song {
    pub id: u64,
    pub title: String,
}

/// The mathematical shadow of [`Song`].
#[verifier::ext_equal]
pub struct SongView {
    pub id: u64,
    pub title: Seq<char>,
}

impl View for Song {
    type V = SongView;

    open spec fn view(&self) -> SongView {
        SongView { id: self.id, title: self.title@ }
    }
}

/// The views of a list of songs.
pub open spec fn songs_view(s: Seq<Song>) -> Seq<SongView> {
    s.map_values(|x: Song| x@)
}

/// What normalizing one song object yields.
pub open spec fn song_parse(v: Json) -> Result<SongView, ErrorView> {
    match uint_field(v, "id"@) {
        Err(e) => Err(e),
        Ok(id) => match str_field(v, "title"@) {
            Err(e) => Err(e),
            Ok(title) => Ok(SongView { id, title }),
        },
    }
}

/// What normalizing a sequence of song objects yields.
pub open spec fn songs_parse(s: Seq<Json>) -> Result<Seq<SongView>, ErrorView>
    decreases s.len(),
{
    if s.len() == 0 {
        Ok(Seq::<SongView>::empty())
    } else {
        match song_parse(s[0]) {
            Err(e) => Err(e),
            Ok(a) => match songs_parse(s.drop_first()) {
                Err(e) => Err(e),
                Ok(rest) => Ok(seq![a] + rest),
            },
        }
    }
}

/// What the song list of a top-songs payload yields: the "song" field,
/// absent meaning empty.
pub open spec fn song_list_parse(v: Json) -> Result<Seq<SongView>, ErrorView> {
    match get_field(v, "song"@) {
        None => Ok(Seq::<SongView>::empty()),
        Some(j) => match j {
            Json::Arr(elems) => songs_parse(elems@),
            _ => Err(ErrorView::Malformed("song"@, raw_text(j))),
        },
    }
}

proof fn lemma_songs_parse_all_ok(s: Seq<Json>, vs: Seq<SongView>)
    requires
        s.len() == vs.len(),
        forall|k: int|
            0 <= k < s.len()
                ==> #[trigger] song_parse(s[k]) == Ok::<SongView, ErrorView>(vs[k]),
    ensures
        songs_parse(s) == Ok::<Seq<SongView>, ErrorView>(vs),
    decreases s.len(),
{
    if s.len() == 0 {
        assert(vs =~= Seq::<SongView>::empty());
    } else {
        assert(forall|k: int|
            0 <= k < s.drop_first().len()
                ==> #[trigger] song_parse(s.drop_first()[k])
                    == Ok::<SongView, ErrorView>(vs.drop_first()[k]));
        lemma_songs_parse_all_ok(s.drop_first(), vs.drop_first());
        assert(seq![vs[0]] + vs.drop_first() =~= vs);
    }
}

proof fn lemma_songs_parse_first_err(s: Seq<Json>, i: int)
    requires
        0 <= i < s.len(),
        forall|k: int| 0 <= k < i ==> #[trigger] song_parse(s[k]) is Ok,
        song_parse(s[i]) is Err,
    ensures
        songs_parse(s) == Err::<Seq<SongView>, ErrorView>(song_parse(s[i])->Err_0),
    decreases i,
{
    if i > 0 {
        assert(forall|k: int|
            0 <= k < i - 1 ==> #[trigger] song_parse(s.drop_first()[k]) is Ok);
        assert(s.drop_first()[i - 1] == s[i]);
        lemma_songs_parse_first_err(s.drop_first(), i - 1);
    }
}

impl Song {
    /// Normalizes one song object.
    pub fn from_json(v: &Json) -> (r: Result<Song, Error>)
        ensures
            (match song_parse(*v) {
                Ok(sv) => r matches Ok(s) && s@ == sv,
                Err(e) => r matches Err(err) && err@ == e,
            }),
    {
        let id = match get_uint_field(v, "id") {
            Ok(n) => n,
            Err(e) => return Err(e),
        };
        let title = match get_str_field(v, "title") {
            Ok(s) => s,
            Err(e) => return Err(e),
        };
        Ok(Song { id, title })
    }
}

/// Extracts and normalizes the song list of a top-songs payload.
#[verifier::loop_isolation(false)]
pub fn songs_from_json(v: &Json) -> (r: Result<Vec<Song>, Error>)
    ensures
        (match song_list_parse(*v) {
            Ok(s) => r matches Ok(out) && songs_view(out@) == s,
            Err(e) => r matches Err(err) && err@ == e,
        }),
{
    match field(v, "song") {
        None => {
            let out: Vec<Song> = Vec::new();
            proof {
                assert(songs_view(out@) =~= Seq::<SongView>::empty());
            }
            Ok(out)
        },
        Some(j) => match j {
            Json::Arr(elems) => {
                let mut out: Vec<Song> = Vec::new();
                let mut i: usize = 0;
                while i < elems.len()
                    invariant
                        0 <= i <= elems@.len(),
                        out@.len() == i,
                        forall|k: int|
                            0 <= k < i
                                ==> #[trigger] song_parse(elems@[k])
                                    == Ok::<SongView, ErrorView>(out@[k]@),
                    decreases elems@.len() - i,
                {
                    match Song::from_json(&elems[i]) {
                        Ok(s) => out.push(s),
                        Err(e) => {
                            proof {
                                lemma_songs_parse_first_err(elems@, i as int);
                            }
                            return Err(e);
                        },
                    }
                    i = i + 1;
                }
                proof {
                    lemma_songs_parse_all_ok(elems@, songs_view(out@));
                }
                Ok(out)
            },
            _ => Err(Error::Malformed("song".to_owned(), raw_text_of(j))),
        },
    }
}

} // verus!
