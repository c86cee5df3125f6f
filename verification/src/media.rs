//! The shared capability of entities that may carry cover art.
use vstd::prelude::*;

use crate::coerce::u64_digits;
use crate::error::Error;
use crate::query::RequestView;
use crate::query::Request;

verus! {

/// The request description that retrieves a piece of cover art, optionally
/// scaled to `size` pixels.
pub open spec fn cover_art_request(cover: Seq<char>, size: Option<u64>) -> RequestView {
    RequestView {
        operation: "getCoverArt"@,
        params: seq![("id"@, cover)]
            + (match size {
                Some(n) => seq![("size"@, u64_digits(n))],
                None => Seq::<(Seq<char>, Seq<char>)>::empty(),
            }),
    }
}

/// An entity that may carry a cover-art reference.
///
/// The byte retrieval itself belongs to the transport collaborator; the
/// capability describes the round trip to make.
pub trait Media {
    /// The cover-art reference the entity carries, if any.
    spec fn cover(&self) -> Option<Seq<char>>;

    /// Whether the entity carries a cover-art reference.
    fn has_cover_art(&self) -> (r: bool)
        ensures
            r == (self.cover() is Some),
    ;

    /// The cover-art reference.
    fn cover_id(&self) -> (r: Option<&str>)
        ensures
            (match r {
                Some(s) => self.cover() == Some(s@),
                None => self.cover() is None,
            }),
    ;

    /// The request that retrieves the entity's cover art bytes.
    fn cover_art(&self, size: Option<u64>) -> (r: Result<Request, Error>)
        ensures
            (match self.cover() {
                Some(c) => r matches Ok(req) && req@ == cover_art_request(c, size),
                None => r matches Err(e) && e@ == crate::error::ErrorView::Other(
                    "no cover art found"@,
                ),
            }),
    ;

    /// The request whose addressable URL serves the entity's cover art.
    fn cover_art_url(&self, size: Option<u64>) -> (r: Result<Request, Error>)
        ensures
            (match self.cover() {
                Some(c) => r matches Ok(req) && req@ == cover_art_request(c, size),
                None => r matches Err(e) && e@ == crate::error::ErrorView::Other(
                    "no cover art found"@,
                ),
            }),
    ;
}

} // verus!
