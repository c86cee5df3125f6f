//! Albums as they appear embedded in an artist.
use vstd::prelude::*;

use crate::error::{Error, ErrorView};
use crate::json::{
    get_field, get_str_field, get_uint_field, lookup, raw_text, str_field, uint_field, Json,
};

verus! {

/// Basic information about an album.
#[derive(Debug, PartialEq)]
pub struct Album {
    pub id: u64,
    pub name: String,
    pub song_count: u64,
}

/// The mathematical shadow of [`Album`].
#[verifier::ext_equal]
pub struct AlbumView {
    pub id: u64,
    pub name: Seq<char>,
    pub song_count: u64,
}

impl View for Album {
    type V = AlbumView;

    open spec fn view(&self) -> AlbumView {
        AlbumView { id: self.id, name: self.name@, song_count: self.song_count }
    }
}

/// The views of a list of albums.
pub open spec fn albums_view(s: Seq<Album>) -> Seq<AlbumView> {
    s.map_values(|a: Album| a@)
}

/// What normalizing one album object yields.
pub open spec fn album_parse(v: Json) -> Result<AlbumView, ErrorView> {
    match uint_field(v, "id"@) {
        Err(e) => Err(e),
        Ok(id) => match str_field(v, "name"@) {
            Err(e) => Err(e),
            Ok(name) => match uint_field(v, "songCount"@) {
                Err(e) => Err(e),
                Ok(song_count) => Ok(AlbumView { id, name, song_count }),
            },
        },
    }
}

/// What normalizing a sequence of album objects yields: the first failure
/// wins, else all albums in their wire order.
pub open spec fn albums_parse(s: Seq<Json>) -> Result<Seq<AlbumView>, ErrorView>
    decreases s.len(),
{
    if s.len() == 0 {
        Ok(Seq::<AlbumView>::empty())
    } else {
        match album_parse(s[0]) {
            Err(e) => Err(e),
            Ok(a) => match albums_parse(s.drop_first()) {
                Err(e) => Err(e),
                Ok(rest) => Ok(seq![a] + rest),
            },
        }
    }
}

/// What the embedded album field of an artist yields: an absent field is an
/// empty list, not an error.
pub open spec fn album_list_parse(v: Json) -> Result<Seq<AlbumView>, ErrorView> {
    match get_field(v, "album"@) {
        None => Ok(Seq::<AlbumView>::empty()),
        Some(j) => match j {
            Json::Arr(elems) => albums_parse(elems@),
            _ => Err(ErrorView::Malformed("album"@, raw_text(j))),
        },
    }
}

/// A sequence whose members all normalize normalizes to their results.
pub proof fn lemma_albums_parse_all_ok(s: Seq<Json>, vs: Seq<AlbumView>)
    requires
        s.len() == vs.len(),
        forall|k: int|
            0 <= k < s.len()
                ==> #[trigger] album_parse(s[k]) == Ok::<AlbumView, ErrorView>(vs[k]),
    ensures
        albums_parse(s) == Ok::<Seq<AlbumView>, ErrorView>(vs),
    decreases s.len(),
{
    if s.len() == 0 {
        assert(vs =~= Seq::<AlbumView>::empty());
    } else {
        assert(forall|k: int|
            0 <= k < s.drop_first().len()
                ==> #[trigger] album_parse(s.drop_first()[k])
                    == Ok::<AlbumView, ErrorView>(vs.drop_first()[k]));
        lemma_albums_parse_all_ok(s.drop_first(), vs.drop_first());
        assert(seq![vs[0]] + vs.drop_first() =~= vs);
    }
}

/// The first member that fails normalization decides the whole sequence.
pub proof fn lemma_albums_parse_first_err(s: Seq<Json>, i: int)
    requires
        0 <= i < s.len(),
        forall|k: int| 0 <= k < i ==> #[trigger] album_parse(s[k]) is Ok,
        album_parse(s[i]) is Err,
    ensures
        albums_parse(s) == Err::<Seq<AlbumView>, ErrorView>(album_parse(s[i])->Err_0),
    decreases i,
{
    if i > 0 {
        assert(forall|k: int|
            0 <= k < i - 1 ==> #[trigger] album_parse(s.drop_first()[k]) is Ok);
        assert(s.drop_first()[i - 1] == s[i]);
        lemma_albums_parse_first_err(s.drop_first(), i - 1);
    }
}

/// Extracts and normalizes the embedded album list of an artist object.
#[verifier::loop_isolation(false)]
pub fn albums_from_json(v: &Json) -> (r: Result<Vec<Album>, Error>)
    ensures
        (match album_list_parse(*v) {
            Ok(s) => r matches Ok(out) && albums_view(out@) == s,
            Err(e) => r matches Err(err) && err@ == e,
        }),
{
    match crate::json::field(v, "album") {
        None => {
            let out: Vec<Album> = Vec::new();
            proof {
                assert(albums_view(out@) =~= Seq::<AlbumView>::empty());
            }
            Ok(out)
        },
        Some(j) => match j {
            Json::Arr(elems) => {
                let mut out: Vec<Album> = Vec::new();
                let mut i: usize = 0;
                while i < elems.len()
                    invariant
                        0 <= i <= elems@.len(),
                        out@.len() == i,
                        forall|k: int|
                            0 <= k < i
                                ==> #[trigger] album_parse(elems@[k])
                                    == Ok::<AlbumView, ErrorView>(out@[k]@),
                    decreases elems@.len() - i,
                {
                    match Album::from_json(&elems[i]) {
                        Ok(a) => out.push(a),
                        Err(e) => {
                            proof {
                                lemma_albums_parse_first_err(elems@, i as int);
                            }
                            return Err(e);
                        },
                    }
                    i = i + 1;
                }
                proof {
                    lemma_albums_parse_all_ok(elems@, albums_view(out@));
                }
                Ok(out)
            },
            _ => Err(Error::Malformed("album".to_owned(), crate::json::raw_text_of(j))),
        },
    }
}

/// Copies a list of albums, keeping every view.
pub fn duplicate_albums(v: &Vec<Album>) -> (r: Vec<Album>)
    ensures
        albums_view(r@) == albums_view(v@),
{
    let mut out: Vec<Album> = Vec::new();
    let mut i: usize = 0;
    while i < v.len()
        invariant
            0 <= i <= v@.len(),
            out@.len() == i,
            forall|k: int| 0 <= k < i ==> #[trigger] out@[k]@ == v@[k]@,
        decreases v@.len() - i,
    {
        out.push(v[i].duplicate());
        i = i + 1;
    }
    proof {
        assert(albums_view(out@) =~= albums_view(v@));
    }
    out
}

impl Album {
    /// Normalizes one album object.
    pub fn from_json(v: &Json) -> (r: Result<Album, Error>)
        ensures
            (match album_parse(*v) {
                Ok(av) => r matches Ok(a) && a@ == av,
                Err(e) => r matches Err(err) && err@ == e,
            }),
    {
        let id = match get_uint_field(v, "id") {
            Ok(n) => n,
            Err(e) => return Err(e),
        };
        let name = match get_str_field(v, "name") {
            Ok(s) => s,
            Err(e) => return Err(e),
        };
        let song_count = match get_uint_field(v, "songCount") {
            Ok(n) => n,
            Err(e) => return Err(e),
        };
        Ok(Album { id, name, song_count })
    }

    /// An owned copy with the same view.
    pub fn duplicate(&self) -> (r: Album)
        ensures
            r@ == self@,
    {
        Album { id: self.id, name: self.name.clone(), song_count: self.song_count }
    }

    /// The canonical wire form of the album.  Normalizing it yields this
    /// very album back: serialization and normalization are inverse.
    pub fn to_json(&self) -> (r: Json)
        ensures
            album_parse(r) == Ok::<AlbumView, ErrorView>(self@),
    {
        let mut pairs: Vec<(String, Json)> = Vec::new();
        pairs.push(("id".to_owned(), Json::Num(self.id)));
        pairs.push(("name".to_owned(), Json::Str(self.name.clone())));
        pairs.push(("songCount".to_owned(), Json::Num(self.song_count)));
        let r = Json::Obj(pairs);
        proof {
            reveal_strlit("id");
            reveal_strlit("name");
            reveal_strlit("songCount");
            let ps = r->Obj_0@;
            assert(ps.len() == 3);
            let t1 = ps.drop_first();
            let t2 = t1.drop_first();
            assert(t1[0] == ps[1] && t1[1] == ps[2]);
            assert(t2[0] == ps[2]);
            assert(ps[0].0@ == "id"@);
            assert("id"@.len() == 2);
            assert("name"@.len() == 4);
            assert("songCount"@.len() == 9);
            assert(lookup(ps, "id"@) == Some(Json::Num(self.id)));
            assert(ps[0].0@ != "name"@);
            assert(lookup(t1, "name"@) == Some(ps[1].1));
            assert(lookup(ps, "name"@) == Some(ps[1].1));
            assert(ps[0].0@ != "songCount"@);
            assert(t1[0].0@ != "songCount"@);
            assert(lookup(t2, "songCount"@) == Some(ps[2].1));
            assert(lookup(t1, "songCount"@) == Some(ps[2].1));
            assert(lookup(ps, "songCount"@) == Some(ps[2].1));
            assert(uint_field(r, "id"@) == Ok::<u64, ErrorView>(self.id));
            assert(str_field(r, "name"@) == Ok::<Seq<char>, ErrorView>(self.name@));
            assert(uint_field(r, "songCount"@) == Ok::<u64, ErrorView>(self.song_count));
        }
        r
    }
}

} // verus!
