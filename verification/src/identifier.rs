//! The identifier of one request: an immutable piece of text, equal to another
//! when the text is the same.

use vstd::prelude::*;
use vstd::std_specs::cmp::PartialEqSpecImpl;
use vstd::std_specs::convert::FromSpecImpl;

verus! {

/// The identifier attached to a request.
#[derive(Debug)]
pub struct RequestID {
    inner: String,
}

impl View for RequestID {
    type V = Seq<char>;

    /// The characters of the identifier.
    open spec fn view(&self) -> Seq<char> {
        self.text()@
    }
}

impl RequestID {
    /// The string that the identifier wraps.
    pub closed spec fn text(self) -> String {
        self.inner
    }

    /// The identifier with the given text.
    pub fn new(inner: String) -> (id: RequestID)
        ensures
            id.text() == inner,
    {
        RequestID { inner }
    }

    /// The text of the identifier.
    pub fn as_str(&self) -> (text: &str)
        ensures
            text@ == self@,
    {
        self.inner.as_str()
    }

    /// The text of the identifier, as a new `String`.
    pub fn to_string(&self) -> (text: String)
        ensures
            text@ == self@,
    {
        self.inner.clone()
    }
}

impl Clone for RequestID {
    fn clone(&self) -> (copy: RequestID)
        ensures
            copy == *self,
    {
        RequestID { inner: self.inner.clone() }
    }
}

impl PartialEq for RequestID {
    fn eq(&self, other: &RequestID) -> (equal: bool) {
        self.inner == other.inner
    }
}

impl Eq for RequestID {

}

impl PartialEqSpecImpl for RequestID {
    open spec fn obeys_eq_spec() -> bool {
        true
    }

    open spec fn eq_spec(&self, other: &RequestID) -> bool {
        self@ == other@
    }
}

impl From<RequestID> for String {
    fn from(id: RequestID) -> (text: String) {
        id.inner
    }
}

impl FromSpecImpl<RequestID> for String {
    open spec fn obeys_from_spec() -> bool {
        true
    }

    open spec fn from_spec(id: RequestID) -> String {
        id.text()
    }
}

} // verus!
