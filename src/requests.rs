//! The parameters of the three page requests, and how a throttle is told
//! apart from other failures.

use vstd::prelude::*;
use crate::opt_view;
use crate::window::TimeWindow;

verus! {

/// Page size asked for when listing groups.
pub const GROUPS_PAGE_SIZE: i64 = 50;

/// Page size asked for when listing the streams of a group.
pub const STREAMS_PAGE_SIZE: i64 = 50;

/// Page size asked for when reading the events of a stream.
pub const EVENTS_PAGE_SIZE: i64 = 10000;

/// Delay before a request that was throttled is sent again.
pub const THROTTLE_MILLIS: u64 = 100;

/// The HTTP status by which the service signals rate limiting.
pub const THROTTLE_STATUS: u16 = 400;

/// Request for one page of log groups.
#[derive(Debug)]
pub struct GroupsQuery {
    pub limit: i64,
    pub next_token: Option<String>,
}

/// Request for one page of the streams of a group.
#[derive(Debug)]
pub struct StreamsQuery {
    pub group: String,
    pub limit: i64,
    pub next_token: Option<String>,
    /// Order the streams by the time of their last event.
    pub order_by_last_event_time: bool,
    pub descending: bool,
}

/// Request for one page of the events of a stream within a window.
#[derive(Debug)]
pub struct EventsQuery {
    pub group: String,
    pub stream: String,
    pub window: TimeWindow,
    pub limit: i64,
    pub next_token: Option<String>,
    /// Read forward, from the start of the window.
    pub start_from_head: bool,
}

/// The request for the page of groups at `next_token`.
pub fn groups_query(next_token: Option<String>) -> (r: GroupsQuery)
    ensures
        r.limit == GROUPS_PAGE_SIZE,
        r.next_token == next_token,
{
    GroupsQuery { limit: GROUPS_PAGE_SIZE, next_token }
}

/// The request for the page of streams of `group` at `next_token`, oldest
/// last event first.
pub fn streams_query(group: &String, next_token: Option<String>) -> (r: StreamsQuery)
    ensures
        r.group@ == group@,
        r.limit == STREAMS_PAGE_SIZE,
        r.next_token == next_token,
        r.order_by_last_event_time,
        !r.descending,
{
    StreamsQuery {
        group: group.clone(),
        limit: STREAMS_PAGE_SIZE,
        next_token,
        order_by_last_event_time: true,
        descending: false,
    }
}

/// The request for the page of events of `stream` in `group` at
/// `next_token`, read forward within `window`.
pub fn events_query(group: &String, stream: &String, window: TimeWindow, next_token: Option<String>) -> (r: EventsQuery)
    ensures
        r.group@ == group@,
        r.stream@ == stream@,
        r.window == window,
        r.limit == EVENTS_PAGE_SIZE,
        opt_view(r.next_token) == opt_view(next_token),
        r.start_from_head,
{
    EventsQuery {
        group: group.clone(),
        stream: stream.clone(),
        window,
        limit: EVENTS_PAGE_SIZE,
        next_token,
        start_from_head: true,
    }
}

/// Whether a failure with this HTTP status is the service's throttle signal.
pub fn is_throttle_status(status: u16) -> (r: bool)
    ensures
        r == (status == THROTTLE_STATUS),
{
    status == THROTTLE_STATUS
}

} // verus!
