//! The thread-scoped slot: the identifier of whichever request is active on a
//! thread. The slot is an ordinary value here; the caller decides where it
//! lives (one per worker thread).
//!
//! A slot belongs to the thread, not to a request. Where requests take turns
//! on a thread, what the slot holds after a suspension point may be another
//! request's identifier, or nothing; the request's own context has no such
//! hazard.

use vstd::prelude::*;

verus! {

/// Holds at most one identifier.
pub struct ThreadSlot {
    current: Option<String>,
}

impl View for ThreadSlot {
    type V = Option<Seq<char>>;

    closed spec fn view(&self) -> Option<Seq<char>> {
        match self.current {
            Some(id) => Some(id@),
            None => None,
        }
    }
}

impl ThreadSlot {
    /// A slot that holds nothing, as on a thread that has not handled a request.
    pub fn new() -> (slot: ThreadSlot)
        ensures
            slot@ is None,
    {
        ThreadSlot { current: None }
    }
}

/// Overwrites the slot with `id`, whatever it held.
pub fn set_current_request_id(slot: &mut ThreadSlot, id: &str)
    ensures
        final(slot)@ == Some(id@),
{
    slot.current = Some(id.to_string());
}

/// Reads the slot: the identifier it holds, or `None` when it is empty.
pub fn get_current_request_id(slot: &ThreadSlot) -> (id: Option<String>)
    ensures
        id is Some <==> slot@ is Some,
        id matches Some(s) ==> slot@ == Some(s@),
{
    match &slot.current {
        Some(id) => Some(id.clone()),
        None => None,
    }
}

/// Empties the slot; on an empty slot nothing changes.
pub fn clear_current_request_id(slot: &mut ThreadSlot)
    ensures
        final(slot)@ is None,
        old(slot)@ is None ==> *final(slot) == *old(slot),
{
    slot.current = None;
}

} // verus!
