//! Capabilities: what a provider hands out to a subject that may do
//! something. The stores say who a subject is; what follows from that is
//! decided here.

use crate::id30::Id30;
use vstd::prelude::*;

verus! {

/// The capability to upload and to edit. It is made by `edit_capability`
/// alone.
#[derive(Debug, PartialEq, Eq)]
pub struct CanEdit(());

/// The capability to edit, for a subject that is an uploader.
pub fn edit_capability(is_uploader: bool) -> (r: Option<CanEdit>)
    ensures
        r is Some <==> is_uploader,
{
    if is_uploader {
        Some(CanEdit(()))
    } else {
        None
    }
}

/// The capability to see the resource `id`: the identifier itself, for an
/// uploader and for a subject that the resource is shared with.
pub fn view_capability(id: Id30, is_uploader: bool, is_shared_with: bool) -> (r: Option<Id30>)
    ensures
        r == (if is_uploader || is_shared_with {
            Some(id)
        } else {
            None
        }),
{
    if is_uploader || is_shared_with {
        Some(id)
    } else {
        None
    }
}

} // verus!
