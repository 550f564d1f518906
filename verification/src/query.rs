//! The query of a URL, built pair by pair in the order of the calls.
use vstd::prelude::*;
use crate::text::opt_str_view;
use crate::urls::{byte_serialize, form_text};

verus! {

/// A query with one more pair: behind `?` where the query was empty and
/// behind `&` where it was not, the key and the value both encoded.
pub open spec fn with_pair(query: Seq<char>, key: Seq<char>, value: Seq<char>) -> Seq<char> {
    if query.len() == 0 {
        "?"@ + form_text(key) + "="@ + form_text(value)
    } else {
        query + "&"@ + form_text(key) + "="@ + form_text(value)
    }
}

/// A query with one more pair where there is a value, and unchanged where
/// there is none.
pub open spec fn with_optional_pair(
    query: Seq<char>,
    key: Seq<char>,
    value: Option<Seq<char>>,
) -> Seq<char> {
    match value {
        Some(v) => with_pair(query, key, v),
        None => query,
    }
}

/// The query of a URL. It is empty until the first pair is added, and from
/// then on begins with `?`.
#[derive(Debug, Clone, PartialEq, Eq)]
pub struct Query {
    text: String,
}

impl View for Query {
    type V = Seq<char>;

    closed spec fn view(&self) -> Seq<char> {
        self.text@
    }
}

impl Query {
    /// The empty query.
    pub fn new() -> (r: Query)
        ensures
            r@ == Seq::<char>::empty(),
    {
        Query { text: String::new() }
    }

    /// Adds a pair behind those that are there.
    pub fn pair(self, key: &str, value: &str) -> (r: Query)
        ensures
            r@ == with_pair(self@, key@, value@),
    {
        let name = byte_serialize(key);
        let encoded = byte_serialize(value);
        if self.text.as_str().is_empty() {
            let text = self.text.concat("?").concat(name.as_str()).concat("=").concat(
                encoded.as_str(),
            );
            assert(text@ =~= "?"@ + form_text(key@) + "="@ + form_text(value@));
            Query { text }
        } else {
            Query {
                text: self.text.concat("&").concat(name.as_str()).concat("=").concat(
                    encoded.as_str(),
                ),
            }
        }
    }

    /// Adds a pair where there is a value.
    pub fn optional_pair(self, key: &str, value: Option<&str>) -> (r: Query)
        ensures
            r@ == with_optional_pair(self@, key@, opt_str_view(value)),
    {
        match value {
            Some(v) => self.pair(key, v),
            None => self,
        }
    }

    /// The text of the query, to stand behind the path of a URL.
    pub fn as_str(&self) -> (r: &str)
        ensures
            r@ == self@,
    {
        self.text.as_str()
    }
}

} // verus!
