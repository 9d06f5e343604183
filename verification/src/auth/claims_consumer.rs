//! What is handed the claims of a request and makes the resource.

use crate::auth::Claims;
use crate::resource::{Error, Get, Post, Resource};
use vstd::prelude::*;

verus! {

/// What takes the claims of the user who sent a request, where the request
/// carries any, and makes the resource.
pub trait ClaimsConsumer: Sized {
    type Get: Get;

    type Post: Post;

    fn claims(self, claims: Option<Claims>) -> Result<Resource<Self::Get, Self::Post>, Error>;
}

} // verus!
