//! Retrieval of log groups, log streams and log events from a paginated
//! log-storage service: the time window, the pagination engine and the
//! record handling, with their contracts.

use vstd::prelude::*;

pub mod paging;
pub mod records;
pub mod requests;
pub mod retrieval;
pub mod window;

verus! {

/// The text an optional `String` holds, if any.
pub open spec fn opt_view(o: Option<String>) -> Option<Seq<char>> {
    match o {
        Some(s) => Some(s@),
        None => None,
    }
}

} // verus!
