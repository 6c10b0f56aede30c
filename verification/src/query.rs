//! The query string of a request, as far as the site reads it: which
//! parameters are there. Their values play no part.

use vstd::prelude::*;
use crate::text::same_text;

verus! {

/// Name of the parameter that asks for the JSON listing.
pub const IMAGES_PARAM: &'static str = "images";

/// Name of the parameter that says the client runs scripts.
pub const JS_PARAM: &'static str = "js";

/// The decoded query string of a request.
#[derive(Clone, Debug, PartialEq, Eq)]
pub enum Query {
    /// The names of the parameters that were sent, in any order; a name
    /// may stand more than once.
    Decoded(Vec<String>),
    /// The query string was missing or could not be decoded.
    Undecodable,
}

impl Query {
    /// A parameter called `name` was sent.
    pub open spec fn sent(&self, name: Seq<char>) -> bool {
        match self {
            Query::Decoded(names) => names.deep_view().contains(name),
            Query::Undecodable => false,
        }
    }

    /// The client asks for the JSON listing.
    pub open spec fn wants_listing(&self) -> bool {
        self.sent(IMAGES_PARAM@)
    }

    /// The client runs scripts.
    pub open spec fn js_enabled(&self) -> bool {
        self.sent(JS_PARAM@)
    }

    /// Whether a parameter called `name` was sent, whatever its value.
    pub fn contains_key(&self, name: &str) -> (b: bool)
        ensures
            b == self.sent(name@),
    {
        match self {
            Query::Decoded(names) => {
                let mut i: usize = 0;
                while i < names.len()
                    invariant
                        i <= names.len(),
                        *self == Query::Decoded(*names),
                        forall|k: int| 0 <= k < i ==> names.deep_view()[k] != name@,
                    decreases names.len() - i,
                {
                    if same_text(names[i].as_str(), name) {
                        assert(names.deep_view()[i as int] == name@);
                        return true;
                    }
                    i += 1;
                }
                false
            },
            Query::Undecodable => false,
        }
    }
}

} // verus!
