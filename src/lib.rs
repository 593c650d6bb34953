//! Resolution of a book's bibliographic record from its ISBN.
use vstd::prelude::*;

pub mod classify;
pub mod endpoints;
pub mod image;
pub mod normalize;
pub mod page;
pub mod pipeline;
pub mod providers;
pub mod record;
pub mod text;

verus! {

} // verus!
