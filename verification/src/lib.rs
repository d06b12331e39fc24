pub mod apply;
pub mod classify;
pub mod filter;
pub mod refine;
pub mod pipeline;
pub mod scan;
pub mod text;

use vstd::prelude::*;

verus! {

/// Upper bound, in bytes, on files accepted for classification.
pub const MAX_FILE_SIZE: u64 = 5 * 1024 * 1024;

} // verus!
