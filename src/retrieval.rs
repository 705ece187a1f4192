//! Reading the events of every stream of a group: one forward pagination run
//! per stream, one stream after the other, the events gathered in stream
//! order and then page order.

use vstd::prelude::*;
use crate::opt_view;
use crate::paging::{Action, Paginator, PagerState, Reply, action_after, initial_state, lemma_next_state_well_formed, next_state, well_formed};
use crate::records::{LogEvent, RawEvent, complete_events, complete_events_spec};
use crate::requests::{EventsQuery, EVENTS_PAGE_SIZE, events_query};
use crate::window::TimeWindow;

verus! {

/// The mathematical state of an events retrieval.
pub struct RetrievalState {
    pub group: Seq<char>,
    pub window: TimeWindow,
    /// Names of the streams, in the order they are read.
    pub streams: Seq<Seq<char>>,
    /// Position of the stream being read.
    pub index: int,
    /// The run on the stream being read.
    pub pager: PagerState<RawEvent>,
    /// Events of the streams already read, in order.
    pub collected: Seq<RawEvent>,
}

/// Whether every stream has been read.
pub open spec fn finished(s: RetrievalState) -> bool {
    s.index >= s.streams.len()
}

/// The shape of every state a retrieval reaches: the stream being read has
/// a live, well-formed run on the forward rule.
pub open spec fn live(s: RetrievalState) -> bool {
    &&& s.pager.forward
    &&& well_formed(s.pager)
    &&& !s.pager.done
    &&& 0 <= s.index <= s.streams.len()
}

/// The state after one reply for the stream being read: when its run ends,
/// its events join the collection and the next stream begins.
pub open spec fn retrieval_next(s: RetrievalState, r: Reply<RawEvent>) -> RetrievalState {
    let p = next_state(s.pager, r);
    if p.done {
        RetrievalState {
            index: s.index + 1,
            pager: initial_state(true),
            collected: s.collected + p.items,
            ..s
        }
    } else {
        RetrievalState { pager: p, ..s }
    }
}

/// The action that follows reply `r` to a request made in state `s`.
pub open spec fn retrieval_action(s: RetrievalState, r: Reply<RawEvent>) -> Action {
    if finished(retrieval_next(s, r)) {
        Action::Finish
    } else if action_after(next_state(s.pager, r), r) == Action::WaitThenFetch {
        Action::WaitThenFetch
    } else {
        Action::Fetch
    }
}

/// On a stream being read, a page that repeats the token it was requested
/// with moves on to the same token once when a throttle came just before it,
/// and ends that stream's run, moving to the next stream with the page's
/// events kept, when none did.
pub proof fn lemma_stream_repeat(s: RetrievalState, items: Vec<RawEvent>, t: String)
    requires
        live(s),
        !finished(s),
        s.pager.token == Some(t@),
    ensures
        ({
            let n = retrieval_next(s, Reply::Page { items, next_token: Some(t) });
            &&& s.pager.is_retry ==> n.index == s.index && n.pager.token == Some(t@) && !n.pager.is_retry
                && n.pager.items == s.pager.items + items@ && n.collected == s.collected
            &&& !s.pager.is_retry ==> n.index == s.index + 1 && n.pager == initial_state::<RawEvent>(true)
                && n.collected == s.collected + s.pager.items + items@
        }),
{
    assert(s.collected + (s.pager.items + items@) =~= s.collected + s.pager.items + items@);
}

/// Retrieval of the events of a list of streams within one window.
pub struct EventRetrieval {
    group: String,
    window: TimeWindow,
    streams: Vec<String>,
    index: usize,
    pager: Paginator<RawEvent>,
    collected: Vec<RawEvent>,
}

impl View for EventRetrieval {
    type V = RetrievalState;

    closed spec fn view(&self) -> RetrievalState {
        RetrievalState {
            group: self.group@,
            window: self.window,
            streams: self.streams@.map_values(|s: String| s@),
            index: self.index as int,
            pager: self.pager@,
            collected: self.collected@,
        }
    }
}

impl EventRetrieval {
    /// A retrieval that reads `streams` of `group`, in order, within `window`.
    pub fn new(group: String, window: TimeWindow, streams: Vec<String>) -> (r: Self)
        ensures
            r@.group == group@,
            r@.window == window,
            r@.streams == streams@.map_values(|s: String| s@),
            r@.index == 0,
            r@.pager == initial_state::<RawEvent>(true),
            r@.collected == Seq::<RawEvent>::empty(),
            live(r@),
    {
        EventRetrieval { group, window, streams, index: 0, pager: Paginator::new_forward(), collected: Vec::new() }
    }

    /// Whether every stream has been read.
    pub fn is_done(&self) -> (r: bool)
        ensures
            r == finished(self@),
    {
        self.index >= self.streams.len()
    }

    /// The request to send next, or `None` once every stream has been read.
    pub fn next_query(&self) -> (r: Option<EventsQuery>)
        ensures
            match r {
                None => finished(self@),
                Some(q) => {
                    &&& !finished(self@)
                    &&& q.group@ == self@.group
                    &&& q.stream@ == self@.streams[self@.index]
                    &&& q.window == self@.window
                    &&& q.limit == EVENTS_PAGE_SIZE
                    &&& opt_view(q.next_token) == self@.pager.token
                    &&& q.start_from_head
                },
            },
    {
        if self.index >= self.streams.len() {
            None
        } else {
            Some(events_query(&self.group, &self.streams[self.index], self.window, self.pager.next_token()))
        }
    }

    /// Takes in the reply to the last request and says what to do next.
    pub fn step(&mut self, reply: Reply<RawEvent>) -> (a: Action)
        requires
            !finished(old(self)@),
            live(old(self)@),
        ensures
            final(self)@ == retrieval_next(old(self)@, reply),
            live(final(self)@),
            a == retrieval_action(old(self)@, reply),
    {
        assert(self.index < self.streams.len());
        proof {
            lemma_next_state_well_formed(self.pager@, reply);
        }
        let paged = self.pager.step(reply);
        if self.pager.is_done() {
            let mut fresh = Paginator::new_forward();
            core::mem::swap(&mut self.pager, &mut fresh);
            let mut items = fresh.into_items();
            self.collected.append(&mut items);
            self.index = self.index + 1;
        }
        if self.index >= self.streams.len() {
            Action::Finish
        } else if paged == Action::WaitThenFetch {
            Action::WaitThenFetch
        } else {
            Action::Fetch
        }
    }

    /// The complete events gathered, stream by stream in order.
    pub fn into_events(self) -> (r: Vec<LogEvent>)
        ensures
            r@ == complete_events_spec(self@.collected),
    {
        complete_events(&self.collected)
    }
}

} // verus!
