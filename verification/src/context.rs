//! The per-request context: the request's own extension bag, in which at most
//! one identifier is kept for as long as the request lives.

use vstd::prelude::*;
use actix_web::dev::Extensions;
use crate::canonical::is_canonical_random;
use crate::identifier::RequestID;
use crate::random::{fresh_random_value, hyphenated_string};

verus! {

/// Actix Web's extension bag, which holds at most one entry of each type.
#[verifier::external_type_specification]
#[verifier::external_body]
pub struct ExExtensions(Extensions);

/// The text of the identifier that the bag holds, or `None` when it holds no
/// identifier. The bag's other entries are not described.
pub uninterp spec fn stored_request_id(extensions: Extensions) -> Option<Seq<char>>;

/// `Extensions::get` looks the entry up by its type and hands out a reference
/// to it; the bag is left as it is.
#[verifier::external_body]
pub(crate) fn lookup_request_id(extensions: &Extensions) -> (found: Option<&RequestID>)
    ensures
        found matches Some(id) ==> stored_request_id(*extensions) == Some(id@),
        found is None ==> stored_request_id(*extensions) is None,
{
    extensions.get::<RequestID>()
}

/// `Extensions::insert` puts the entry in, replacing one of the same type.
#[verifier::external_body]
pub(crate) fn store_request_id(extensions: &mut Extensions, id: RequestID)
    ensures
        stored_request_id(*final(extensions)) == Some(id@),
{
    extensions.insert(id);
}

/// Access to the identifier of the request that a context belongs to.
pub trait RequestIDMessage {
    /// The identifier that the context holds, if any.
    spec fn held_request_id(&self) -> Option<Seq<char>>;

    /// The identifier of the request. One that the context already holds is
    /// returned unchanged; otherwise a fresh one in the canonical 36-character
    /// form is made, stored, and returned.
    fn request_id(&mut self) -> (id: RequestID)
        ensures
            final(self).held_request_id() == Some(id@),
            old(self).held_request_id() matches Some(text) ==> id@ == text,
            old(self).held_request_id() is None ==> is_canonical_random(id@),
    ;
}

impl RequestIDMessage for Extensions {
    open spec fn held_request_id(&self) -> Option<Seq<char>> {
        stored_request_id(*self)
    }

    fn request_id(&mut self) -> (id: RequestID) {
        if let Some(existing) = lookup_request_id(self) {
            return existing.clone();
        }
        let fresh = fresh_random_value();
        let new_id = RequestID::new(hyphenated_string(fresh));
        store_request_id(self, new_id.clone());
        new_id
    }
}

} // verus!
