//! Ordered query parameters and the request descriptions that accessor
//! operations hand to the transport collaborator.
//!
//! The transport layer is an external collaborator: the verified core never
//! performs a network round trip itself, it only describes the one to make.
use vstd::prelude::*;

verus! {

/// An ordered mapping from parameter names to values; an optional argument
/// that is absent is excluded entirely rather than sent empty.
#[derive(Debug, PartialEq)]
pub struct Query {
    pub pairs: Vec<(String, String)>,
}

impl View for Query {
    type V = Seq<(Seq<char>, Seq<char>)>;

    open spec fn view(&self) -> Seq<(Seq<char>, Seq<char>)> {
        self.pairs@.map_values(|p: (String, String)| (p.0@, p.1@))
    }
}

impl Query {
    /// A query holding the one given parameter.
    pub fn with(key: &str, value: String) -> (q: Query)
        ensures
            q@ == seq![(key@, value@)],
    {
        let ghost value_chars = value@;
        let mut pairs: Vec<(String, String)> = Vec::new();
        pairs.push((key.to_owned(), value));
        let q = Query { pairs };
        proof {
            assert(q@ =~= seq![(key@, value_chars)]);
        }
        q
    }

    /// Appends one parameter; an absent value is omitted entirely.
    pub fn arg(self, key: &str, value: Option<String>) -> (q: Query)
        ensures
            (match value {
                Some(v) => q@ == self@ + seq![(key@, v@)],
                None => q@ == self@,
            }),
    {
        match value {
            Some(v) => {
                let ghost before = self@;
                let ghost v_chars = v@;
                let mut pairs = self.pairs;
                pairs.push((key.to_owned(), v));
                let q = Query { pairs };
                proof {
                    assert(q@ =~= before + seq![(key@, v_chars)]);
                }
                q
            },
            None => self,
        }
    }
}

/// A named remote operation together with its query parameters: everything
/// the transport collaborator needs to perform one round trip, or to build
/// the addressable URL for it.
#[derive(Debug, PartialEq)]
pub struct Request {
    pub operation: String,
    pub query: Query,
}

/// The mathematical shadow of [`Request`].
#[verifier::ext_equal]
pub struct RequestView {
    pub operation: Seq<char>,
    pub params: Seq<(Seq<char>, Seq<char>)>,
}

impl View for Request {
    type V = RequestView;

    open spec fn view(&self) -> RequestView {
        RequestView { operation: self.operation@, params: self.query@ }
    }
}

} // verus!
