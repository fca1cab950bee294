//! Shared state handed to a transport front-end: the service behind a
//! request router.

use vstd::prelude::*;

use crate::service::PuzzleService;

verus! {

/// Request-handling context: the one service a front-end dispatches into.
pub struct Context<P> where P: PuzzleService + Send + Sync + 'static {
    pub puzzle_service: P,
}

} // verus!
