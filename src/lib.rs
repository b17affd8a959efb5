//! Per-project file watches that trigger re-indexing after a quiet period,
//! and the request and reply logic of a documentation query tool.

use vstd::prelude::*;

pub mod context7;
pub mod interaction;
pub mod path_key;
pub mod pipeline;
pub mod text;
pub mod uiux;
pub mod watcher;

verus! {

} // verus!
