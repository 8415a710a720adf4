//! Pipeline-state-object related input descriptions.

use vstd::prelude::*;
use crate::Resources;

verus! {

/// The set of vertex buffers bound by one bind call: each entry pairs a
/// buffer handle with a starting offset in bytes.
#[verifier::reject_recursive_types(R)]
pub struct VertexBufferSet<R: Resources>(pub Vec<(R::Buffer, usize)>);

} // verus!
