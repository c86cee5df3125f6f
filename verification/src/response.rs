//! The response envelope and its deterministic resolution.
//!
//! Every call to a Subsonic server is answered with one envelope: a status,
//! a version, an optional business error, and at most one of a closed set of
//! payload fields.  Resolution picks the embedded error, or the first
//! populated payload field of a fixed canonical priority order — the order
//! of [`payload_key`] — so that the outcome is deterministic even for a
//! server that erroneously populates more than one field.
use vstd::prelude::*;

use crate::coerce::str_eq;
use crate::error::{Error, ErrorView};
use crate::json::{
    field, get_field, get_str_field, get_uint_field, str_field, take_field, uint_field, Json,
};

verus! {

/// The status a server declares on an envelope; `Okay` is the wire string
/// "ok", `Failed` the wire string "failed".
#[derive(Clone, Copy, PartialEq, Eq, Structural, Debug)]
pub enum Status {
    Okay,
    Failed,
}

/// The business-level error a failed envelope embeds.
#[derive(Debug, PartialEq)]
pub struct ApiError {
    pub code: u64,
    pub message: String,
}

/// The mathematical shadow of [`ApiError`].
#[verifier::ext_equal]
pub struct ApiErrorView {
    pub code: u64,
    pub message: Seq<char>,
}

impl View for ApiError {
    type V = ApiErrorView;

    open spec fn view(&self) -> ApiErrorView {
        ApiErrorView { code: self.code, message: self.message@ }
    }
}

/// The inside of a top-level response: the declared status and version, the
/// embedded error if any, and the payload object exactly as received.
#[derive(Debug, PartialEq)]
pub struct InnerResponse {
    pub status: Status,
    pub version: String,
    pub error: Option<ApiError>,
    pub payload: Json,
}

/// A top-level response from a Subsonic server.
#[derive(Debug, PartialEq)]
pub struct Response {
    pub inner: InnerResponse,
}

/// The mathematical shadow of [`Response`]: the payload fields stand in
/// their canonical priority order.
#[verifier::ext_equal]
pub struct ResponseView {
    pub status: Status,
    pub version: Seq<char>,
    pub error: Option<ApiErrorView>,
    pub payloads: Seq<Option<Json>>,
}

/// The wire name of the payload kind at rank `i` of the canonical priority
/// order.  Adding a server operation means adding one rank here and one scan
/// line in `into_value`.
pub open spec fn payload_key(i: int) -> Seq<char> {
    if i == 0 {
        "license"@
    } else if i == 1 {
        "musicFolders"@
    } else if i == 2 {
        "indexes"@
    } else if i == 3 {
        "directory"@
    } else if i == 4 {
        "genres"@
    } else if i == 5 {
        "artists"@
    } else if i == 6 {
        "artist"@
    } else if i == 7 {
        "albums"@
    } else if i == 8 {
        "album"@
    } else if i == 9 {
        "song"@
    } else if i == 10 {
        "videos"@
    } else if i == 11 {
        "videoInfo"@
    } else if i == 12 {
        "artistInfo"@
    } else if i == 13 {
        "artistInfo2"@
    } else if i == 14 {
        "albumInfo"@
    } else if i == 15 {
        "similarSongs"@
    } else if i == 16 {
        "similarSongs2"@
    } else if i == 17 {
        "topSongs"@
    } else if i == 18 {
        "albumList"@
    } else if i == 19 {
        "albumList2"@
    } else if i == 20 {
        "randomSongs"@
    } else if i == 21 {
        "songsByGenre"@
    } else if i == 22 {
        "nowPlaying"@
    } else if i == 23 {
        "starred"@
    } else if i == 24 {
        "starred2"@
    } else if i == 25 {
        "searchResult"@
    } else if i == 26 {
        "searchResult2"@
    } else if i == 27 {
        "searchResult3"@
    } else if i == 28 {
        "playlists"@
    } else if i == 29 {
        "playlist"@
    } else if i == 30 {
        "lyrics"@
    } else if i == 31 {
        "shares"@
    } else if i == 32 {
        "podcasts"@
    } else if i == 33 {
        "newestPodcasts"@
    } else if i == 34 {
        "jukeboxStatus"@
    } else if i == 35 {
        "jukeboxPlaylist"@
    } else if i == 36 {
        "internetRadioStations"@
    } else if i == 37 {
        "chatMessages"@
    } else if i == 38 {
        "user"@
    } else if i == 39 {
        "users"@
    } else if i == 40 {
        "bookmarks"@
    } else if i == 41 {
        "playQueue"@
    } else {
        "scanStatus"@
    }
}

/// The payload fields of an envelope's payload object, by rank.
pub open spec fn payloads_of(payload: Json) -> Seq<Option<Json>> {
    Seq::new(43, |i: int| get_field(payload, payload_key(i)))
}

impl View for Response {
    type V = ResponseView;

    open spec fn view(&self) -> ResponseView {
        ResponseView {
            status: self.inner.status,
            version: self.inner.version@,
            error: (match self.inner.error {
                Some(e) => Some(e@),
                None => None,
            }),
            payloads: payloads_of(self.inner.payload),
        }
    }
}

/// The envelope invariant the server guarantees: an error is embedded
/// exactly in a failed envelope.
pub open spec fn envelope_wf(rv: ResponseView) -> bool {
    (rv.status is Failed) <==> (rv.error is Some)
}

/// The first populated payload field, or the Unrecognized failure.
pub open spec fn first_payload(s: Seq<Option<Json>>) -> Result<Json, ErrorView>
    decreases s.len(),
{
    if s.len() == 0 {
        Err(ErrorView::Unrecognized)
    } else if s[0] is Some {
        Ok(s[0].unwrap())
    } else {
        first_payload(s.drop_first())
    }
}

/// What resolving an envelope yields: the embedded error when one is
/// present — payload fields are never inspected then — and otherwise the
/// first populated payload field of the canonical order.
pub open spec fn resolved(rv: ResponseView) -> Result<Json, ErrorView> {
    match rv.error {
        Some(e) => Err(ErrorView::Api(e.code, e.message)),
        None => first_payload(rv.payloads),
    }
}

proof fn lemma_first_payload_found(s: Seq<Option<Json>>, i: int)
    requires
        0 <= i < s.len(),
        forall|j: int| 0 <= j < i ==> #[trigger] s[j] is None,
        s[i] is Some,
    ensures
        first_payload(s) == Ok::<Json, ErrorView>(s[i].unwrap()),
    decreases i,
{
    if i > 0 {
        assert(s[0] is None);
        assert(forall|j: int|
            0 <= j < i - 1 ==> #[trigger] s.drop_first()[j] is None);
        assert(s.drop_first()[i - 1] == s[i]);
        lemma_first_payload_found(s.drop_first(), i - 1);
    }
}

proof fn lemma_first_payload_none(s: Seq<Option<Json>>)
    requires
        forall|j: int| 0 <= j < s.len() ==> #[trigger] s[j] is None,
    ensures
        first_payload(s) == Err::<Json, ErrorView>(ErrorView::Unrecognized),
    decreases s.len(),
{
    if s.len() > 0 {
        assert(forall|j: int|
            0 <= j < s.drop_first().len() ==> #[trigger] s.drop_first()[j] is None);
        lemma_first_payload_none(s.drop_first());
    }
}

/// A failed well-formed envelope always resolves to the embedded business
/// error with its code and message, whatever payload fields may hold.
pub proof fn lemma_failed_resolves_to_api(rv: ResponseView)
    requires
        envelope_wf(rv),
        rv.status is Failed,
    ensures
        rv.error is Some,
        resolved(rv) == Err::<Json, ErrorView>(
            ErrorView::Api(rv.error.unwrap().code, rv.error.unwrap().message),
        ),
{
}

/// An ok well-formed envelope with exactly one populated payload field
/// resolves to that field's value, unchanged.
pub proof fn lemma_ok_single_payload(rv: ResponseView, i: int)
    requires
        envelope_wf(rv),
        rv.status is Okay,
        0 <= i < rv.payloads.len(),
        rv.payloads[i] is Some,
        forall|j: int|
            0 <= j < rv.payloads.len() && j != i ==> #[trigger] rv.payloads[j] is None,
    ensures
        resolved(rv) == Ok::<Json, ErrorView>(rv.payloads[i].unwrap()),
{
    lemma_first_payload_found(rv.payloads, i);
}

/// An ok well-formed envelope with no populated payload field resolves to
/// the Unrecognized failure — never to a silent empty value.
pub proof fn lemma_ok_no_payload(rv: ResponseView)
    requires
        envelope_wf(rv),
        rv.status is Okay,
        forall|j: int|
            0 <= j < rv.payloads.len() ==> #[trigger] rv.payloads[j] is None,
    ensures
        resolved(rv) == Err::<Json, ErrorView>(ErrorView::Unrecognized),
{
    lemma_first_payload_none(rv.payloads);
}

/// What parsing the status field yields.
pub open spec fn status_parse(v: Json) -> Result<Status, ErrorView> {
    match str_field(v, "status"@) {
        Err(e) => Err(e),
        Ok(s) => if s == "ok"@ {
            Ok(Status::Okay)
        } else if s == "failed"@ {
            Ok(Status::Failed)
        } else {
            Err(ErrorView::Malformed("status"@, s))
        },
    }
}

/// What parsing the embedded error object yields.
pub open spec fn api_error_parse(v: Json) -> Result<ApiErrorView, ErrorView> {
    match uint_field(v, "code"@) {
        Err(e) => Err(e),
        Ok(code) => match str_field(v, "message"@) {
            Err(e) => Err(e),
            Ok(message) => Ok(ApiErrorView { code, message }),
        },
    }
}

/// What parsing the optional error field yields.
pub open spec fn error_field_parse(inner: Json) -> Result<Option<ApiErrorView>, ErrorView> {
    match get_field(inner, "error"@) {
        None => Ok(None),
        Some(ej) => match api_error_parse(ej) {
            Err(e) => Err(e),
            Ok(ae) => Ok(Some(ae)),
        },
    }
}

/// What parsing a whole wire value as an envelope yields.
pub open spec fn response_parse(v: Json) -> Result<ResponseView, ErrorView> {
    match get_field(v, "subsonic-response"@) {
        None => Err(ErrorView::Malformed("subsonic-response"@, Seq::<char>::empty())),
        Some(inner) => match status_parse(inner) {
            Err(e) => Err(e),
            Ok(status) => match str_field(inner, "version"@) {
                Err(e) => Err(e),
                Ok(version) => match error_field_parse(inner) {
                    Err(e) => Err(e),
                    Ok(error) => Ok(
                        ResponseView { status, version, error, payloads: payloads_of(inner) },
                    ),
                },
            },
        },
    }
}

fn parse_status(v: &Json) -> (r: Result<Status, Error>)
    ensures
        (match status_parse(*v) {
            Ok(s) => r == Ok::<Status, Error>(s),
            Err(e) => r matches Err(err) && err@ == e,
        }),
{
    let s = match get_str_field(v, "status") {
        Ok(s) => s,
        Err(e) => return Err(e),
    };
    if str_eq(s.as_str(), "ok") {
        Ok(Status::Okay)
    } else if str_eq(s.as_str(), "failed") {
        Ok(Status::Failed)
    } else {
        Err(Error::Malformed("status".to_owned(), s))
    }
}

fn parse_api_error(v: &Json) -> (r: Result<ApiError, Error>)
    ensures
        (match api_error_parse(*v) {
            Ok(ae) => r matches Ok(out) && out@ == ae,
            Err(e) => r matches Err(err) && err@ == e,
        }),
{
    let code = match get_uint_field(v, "code") {
        Ok(n) => n,
        Err(e) => return Err(e),
    };
    let message = match get_str_field(v, "message") {
        Ok(s) => s,
        Err(e) => return Err(e),
    };
    Ok(ApiError { code, message })
}

impl Response {
    /// Builds an envelope from a parsed wire value, consuming it.
    pub fn from_json(v: Json) -> (r: Result<Response, Error>)
        ensures
            (match response_parse(v) {
                Ok(rv) => r matches Ok(resp) && resp@ == rv,
                Err(e) => r matches Err(err) && err@ == e,
            }),
    {
        let inner_json = match take_field(v, "subsonic-response") {
            Some(j) => j,
            None => return Err(
                Error::Malformed("subsonic-response".to_owned(), String::new()),
            ),
        };
        let status = match parse_status(&inner_json) {
            Ok(s) => s,
            Err(e) => return Err(e),
        };
        let version = match get_str_field(&inner_json, "version") {
            Ok(s) => s,
            Err(e) => return Err(e),
        };
        let error = match field(&inner_json, "error") {
            None => None,
            Some(ej) => match parse_api_error(ej) {
                Ok(ae) => Some(ae),
                Err(e) => return Err(e),
            },
        };
        let resp = Response {
            inner: InnerResponse { status, version, error, payload: inner_json },
        };
        proof {
            assert(resp@ =~= response_parse(v)->Ok_0);
        }
        Ok(resp)
    }

    /// Extracts the embedded error of a failed envelope; `None` on success.
    pub fn into_error(self) -> (r: Option<Error>)
        ensures
            (match self@.error {
                Some(e) => r matches Some(err) && err@ == ErrorView::Api(e.code, e.message),
                None => r is None,
            }),
    {
        match self.inner.error {
            Some(e) => Some(Error::Api(e.code, e.message)),
            None => None,
        }
    }

    /// Whether the envelope declares success.
    pub fn is_ok(&self) -> (r: bool)
        ensures
            r == (self@.status is Okay),
    {
        match self.inner.status {
            Status::Okay => true,
            Status::Failed => false,
        }
    }

    /// Whether the envelope declares failure.
    pub fn is_err(&self) -> (r: bool)
        ensures
            r == (self@.status is Failed),
    {
        match self.inner.status {
            Status::Okay => false,
            Status::Failed => true,
        }
    }

    /// Resolves the envelope: the embedded error of a failure, else the
    /// first populated payload field of the canonical priority order, else
    /// the Unrecognized failure.
    #[verifier::rlimit(100)]
    pub fn into_value(&self) -> (r: Result<&Json, Error>)
        ensures
            (match r {
                Ok(j) => resolved(self@) == Ok::<Json, ErrorView>(*j),
                Err(e) => resolved(self@) == Err::<Json, ErrorView>(e@),
            }),
    {
        if let Some(err) = &self.inner.error {
            return Err(Error::Api(err.code, err.message.clone()));
        }
        let p = &self.inner.payload;
        if let Some(j) = field(p, "license") {
            proof {
                lemma_first_payload_found(self@.payloads, 0);
            }
            return Ok(j);
        }
        if let Some(j) = field(p, "musicFolders") {
            proof {
                lemma_first_payload_found(self@.payloads, 1);
            }
            return Ok(j);
        }
        if let Some(j) = field(p, "indexes") {
            proof {
                lemma_first_payload_found(self@.payloads, 2);
            }
            return Ok(j);
        }
        if let Some(j) = field(p, "directory") {
            proof {
                lemma_first_payload_found(self@.payloads, 3);
            }
            return Ok(j);
        }
        if let Some(j) = field(p, "genres") {
            proof {
                lemma_first_payload_found(self@.payloads, 4);
            }
            return Ok(j);
        }
        if let Some(j) = field(p, "artists") {
            proof {
                lemma_first_payload_found(self@.payloads, 5);
            }
            return Ok(j);
        }
        if let Some(j) = field(p, "artist") {
            proof {
                lemma_first_payload_found(self@.payloads, 6);
            }
            return Ok(j);
        }
        if let Some(j) = field(p, "albums") {
            proof {
                lemma_first_payload_found(self@.payloads, 7);
            }
            return Ok(j);
        }
        if let Some(j) = field(p, "album") {
            proof {
                lemma_first_payload_found(self@.payloads, 8);
            }
            return Ok(j);
        }
        if let Some(j) = field(p, "song") {
            proof {
                lemma_first_payload_found(self@.payloads, 9);
            }
            return Ok(j);
        }
        if let Some(j) = field(p, "videos") {
            proof {
                lemma_first_payload_found(self@.payloads, 10);
            }
            return Ok(j);
        }
        if let Some(j) = field(p, "videoInfo") {
            proof {
                lemma_first_payload_found(self@.payloads, 11);
            }
            return Ok(j);
        }
        if let Some(j) = field(p, "artistInfo") {
            proof {
                lemma_first_payload_found(self@.payloads, 12);
            }
            return Ok(j);
        }
        if let Some(j) = field(p, "artistInfo2") {
            proof {
                lemma_first_payload_found(self@.payloads, 13);
            }
            return Ok(j);
        }
        if let Some(j) = field(p, "albumInfo") {
            proof {
                lemma_first_payload_found(self@.payloads, 14);
            }
            return Ok(j);
        }
        if let Some(j) = field(p, "similarSongs") {
            proof {
                lemma_first_payload_found(self@.payloads, 15);
            }
            return Ok(j);
        }
        if let Some(j) = field(p, "similarSongs2") {
            proof {
                lemma_first_payload_found(self@.payloads, 16);
            }
            return Ok(j);
        }
        if let Some(j) = field(p, "topSongs") {
            proof {
                lemma_first_payload_found(self@.payloads, 17);
            }
            return Ok(j);
        }
        if let Some(j) = field(p, "albumList") {
            proof {
                lemma_first_payload_found(self@.payloads, 18);
            }
            return Ok(j);
        }
        if let Some(j) = field(p, "albumList2") {
            proof {
                lemma_first_payload_found(self@.payloads, 19);
            }
            return Ok(j);
        }
        if let Some(j) = field(p, "randomSongs") {
            proof {
                lemma_first_payload_found(self@.payloads, 20);
            }
            return Ok(j);
        }
        if let Some(j) = field(p, "songsByGenre") {
            proof {
                lemma_first_payload_found(self@.payloads, 21);
            }
            return Ok(j);
        }
        if let Some(j) = field(p, "nowPlaying") {
            proof {
                lemma_first_payload_found(self@.payloads, 22);
            }
            return Ok(j);
        }
        if let Some(j) = field(p, "starred") {
            proof {
                lemma_first_payload_found(self@.payloads, 23);
            }
            return Ok(j);
        }
        if let Some(j) = field(p, "starred2") {
            proof {
                lemma_first_payload_found(self@.payloads, 24);
            }
            return Ok(j);
        }
        if let Some(j) = field(p, "searchResult") {
            proof {
                lemma_first_payload_found(self@.payloads, 25);
            }
            return Ok(j);
        }
        if let Some(j) = field(p, "searchResult2") {
            proof {
                lemma_first_payload_found(self@.payloads, 26);
            }
            return Ok(j);
        }
        if let Some(j) = field(p, "searchResult3") {
            proof {
                lemma_first_payload_found(self@.payloads, 27);
            }
            return Ok(j);
        }
        if let Some(j) = field(p, "playlists") {
            proof {
                lemma_first_payload_found(self@.payloads, 28);
            }
            return Ok(j);
        }
        if let Some(j) = field(p, "playlist") {
            proof {
                lemma_first_payload_found(self@.payloads, 29);
            }
            return Ok(j);
        }
        if let Some(j) = field(p, "lyrics") {
            proof {
                lemma_first_payload_found(self@.payloads, 30);
            }
            return Ok(j);
        }
        if let Some(j) = field(p, "shares") {
            proof {
                lemma_first_payload_found(self@.payloads, 31);
            }
            return Ok(j);
        }
        if let Some(j) = field(p, "podcasts") {
            proof {
                lemma_first_payload_found(self@.payloads, 32);
            }
            return Ok(j);
        }
        if let Some(j) = field(p, "newestPodcasts") {
            proof {
                lemma_first_payload_found(self@.payloads, 33);
            }
            return Ok(j);
        }
        if let Some(j) = field(p, "jukeboxStatus") {
            proof {
                lemma_first_payload_found(self@.payloads, 34);
            }
            return Ok(j);
        }
        if let Some(j) = field(p, "jukeboxPlaylist") {
            proof {
                lemma_first_payload_found(self@.payloads, 35);
            }
            return Ok(j);
        }
        if let Some(j) = field(p, "internetRadioStations") {
            proof {
                lemma_first_payload_found(self@.payloads, 36);
            }
            return Ok(j);
        }
        if let Some(j) = field(p, "chatMessages") {
            proof {
                lemma_first_payload_found(self@.payloads, 37);
            }
            return Ok(j);
        }
        if let Some(j) = field(p, "user") {
            proof {
                lemma_first_payload_found(self@.payloads, 38);
            }
            return Ok(j);
        }
        if let Some(j) = field(p, "users") {
            proof {
                lemma_first_payload_found(self@.payloads, 39);
            }
            return Ok(j);
        }
        if let Some(j) = field(p, "bookmarks") {
            proof {
                lemma_first_payload_found(self@.payloads, 40);
            }
            return Ok(j);
        }
        if let Some(j) = field(p, "playQueue") {
            proof {
                lemma_first_payload_found(self@.payloads, 41);
            }
            return Ok(j);
        }
        if let Some(j) = field(p, "scanStatus") {
            proof {
                lemma_first_payload_found(self@.payloads, 42);
            }
            return Ok(j);
        }
        proof {
            lemma_first_payload_none(self@.payloads);
        }
        Err(Error::Unrecognized)
    }
}

} // verus!
