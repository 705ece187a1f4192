//! The pagination engine: a state machine that threads a continuation token
//! through successive page requests, waits out rate limiting, and stops on
//! exhaustion, on failure, or (on the forward rule) on a stalled token.

use vstd::prelude::*;
use crate::opt_view;

verus! {

/// What the remote service answered to one page request.
pub enum Reply<T> {
    /// A page of items, with the token of the next page if there is one.
    Page { items: Vec<T>, next_token: Option<String> },
    /// The service asked the caller to slow down.
    RateLimited,
    /// Any other failure.
    Failed,
}

/// What the caller does next.
#[derive(PartialEq, Eq, Structural, Clone, Copy, Debug)]
pub enum Action {
    /// Request the page at `Paginator::next_token`.
    Fetch,
    /// Wait out the throttle delay, then request the page at
    /// `Paginator::next_token` again.
    WaitThenFetch,
    /// Pagination is over; take the items.
    Finish,
}

/// The mathematical state of a pagination run.
pub struct PagerState<T> {
    /// Items accumulated so far, in the order pages arrived.
    pub items: Seq<T>,
    /// Token of the next request (`None` before the first page).
    pub token: Option<Seq<char>>,
    /// Whether a first page has arrived.
    pub started: bool,
    /// Whether the step just before was a throttle.
    pub is_retry: bool,
    /// Whether the run is over.
    pub done: bool,
    /// Whether the forward rule (stall detection) applies.
    pub forward: bool,
}

/// The state in which a run begins.
pub open spec fn initial_state<T>(forward: bool) -> PagerState<T> {
    PagerState {
        items: Seq::empty(),
        token: None,
        started: false,
        is_retry: false,
        done: false,
        forward,
    }
}

/// Whether, on the forward rule, a page's next token is a plain advance:
/// present, and different from the token the page was requested with.
pub open spec fn fresh_token<T>(s: PagerState<T>, next: Option<Seq<char>>) -> bool {
    match (s.token, next) {
        (Some(c), Some(n)) => c != n,
        _ => false,
    }
}

/// The state after one reply.
pub open spec fn next_state<T>(s: PagerState<T>, r: Reply<T>) -> PagerState<T> {
    if s.done {
        s
    } else {
        match r {
            Reply::RateLimited => PagerState { is_retry: true, ..s },
            Reply::Failed => PagerState { done: true, ..s },
            Reply::Page { items, next_token } => {
                let next = opt_view(next_token);
                let all = s.items + items@;
                if !s.started || !s.forward || fresh_token(s, next) || s.is_retry {
                    PagerState { items: all, token: next, started: true, is_retry: false, done: next is None, ..s }
                } else {
                    PagerState { items: all, token: None, is_retry: false, done: true, ..s }
                }
            },
        }
    }
}

/// The action that follows reply `r`, once the state is `s`.
pub open spec fn action_after<T>(s: PagerState<T>, r: Reply<T>) -> Action {
    if s.done {
        Action::Finish
    } else if r is RateLimited {
        Action::WaitThenFetch
    } else {
        Action::Fetch
    }
}

/// The state after a whole sequence of replies, in order.
pub open spec fn run<T>(s: PagerState<T>, rs: Seq<Reply<T>>) -> PagerState<T>
    decreases rs.len(),
{
    if rs.len() == 0 {
        s
    } else {
        next_state(run(s, rs.drop_last()), rs.last())
    }
}

/// A state that some run can reach: a token is held only after a first page.
pub open spec fn well_formed<T>(s: PagerState<T>) -> bool {
    s.token is Some ==> s.started
}

/// The next token that a reply names, if it is a page that names one.
pub open spec fn page_token<T>(r: Reply<T>) -> Option<Seq<char>> {
    match r {
        Reply::Page { next_token, .. } => opt_view(next_token),
        _ => None,
    }
}

/// The items of all the pages among `rs`, in order.
pub open spec fn page_items<T>(rs: Seq<Reply<T>>) -> Seq<T>
    decreases rs.len(),
{
    if rs.len() == 0 {
        Seq::empty()
    } else {
        page_items(rs.drop_last()) + match rs.last() {
            Reply::Page { items, .. } => items@,
            _ => Seq::empty(),
        }
    }
}

/// Pages that chain properly: every reply is a page, each but the last names
/// a next token that differs from the one before it, and the last names none.
pub open spec fn chained_pages<T>(rs: Seq<Reply<T>>) -> bool {
    &&& rs.len() > 0
    &&& forall|i: int| 0 <= i < rs.len() ==> #[trigger] rs[i] is Page
    &&& forall|i: int| 0 <= i < rs.len() - 1 ==> #[trigger] page_token(rs[i]) is Some
    &&& forall|i: int| 1 <= i < rs.len() - 1 ==> #[trigger] page_token(rs[i]) != page_token(rs[i - 1])
    &&& page_token(rs.last()) is None
}

proof fn lemma_chain_prefix<T>(forward: bool, rs: Seq<Reply<T>>, k: int)
    requires
        chained_pages(rs),
        1 <= k <= rs.len(),
    ensures
        ({
            let s = run(initial_state::<T>(forward), rs.take(k));
            &&& s.items == page_items(rs.take(k))
            &&& s.started
            &&& !s.is_retry
            &&& s.forward == forward
            &&& s.token == page_token(rs[k - 1])
            &&& s.done == (k == rs.len())
        }),
    decreases k,
{
    let p = rs.take(k);
    assert(p.drop_last() =~= rs.take(k - 1));
    assert(p.last() == rs[k - 1]);
    assert(rs[k - 1] is Page);
    if k > 1 {
        lemma_chain_prefix(forward, rs, k - 1);
        assert(page_token(rs[k - 2]) is Some);
        if k < rs.len() {
            assert(page_token(rs[k - 1]) is Some);
            assert(page_token(rs[k - 1]) != page_token(rs[k - 2]));
        } else {
            assert(rs.last() == rs[k - 1]);
        }
    } else {
        assert(rs.take(0) =~= Seq::<Reply<T>>::empty());
        assert(page_items(rs.take(0)) =~= Seq::<T>::empty());
        if k == rs.len() {
            assert(rs.last() == rs[k - 1]);
        } else {
            assert(page_token(rs[0]) is Some);
        }
    }
}

/// Over pages whose tokens chain properly, a run on either rule requests
/// each page with the token that the page before it named, goes on until the
/// last, and returns all their items concatenated in request order.
pub proof fn lemma_chained_pages_concatenate<T>(forward: bool, rs: Seq<Reply<T>>)
    requires
        chained_pages(rs),
    ensures
        run(initial_state::<T>(forward), rs).items == page_items(rs),
        run(initial_state::<T>(forward), rs).done,
        forall|i: int|
            0 < i < rs.len() ==> {
                let s = #[trigger] run(initial_state::<T>(forward), rs.take(i));
                &&& !s.done
                &&& s.token == page_token(rs[i - 1])
            },
{
    lemma_chain_prefix(forward, rs, rs.len() as int);
    assert(rs.take(rs.len() as int) =~= rs);
    assert forall|i: int| 0 < i < rs.len() implies {
        let s = #[trigger] run(initial_state::<T>(forward), rs.take(i));
        &&& !s.done
        &&& s.token == page_token(rs[i - 1])
    } by {
        lemma_chain_prefix(forward, rs, i);
    }
}

/// Rate-limited replies, however many, add no items and leave the token
/// where it was; each one is followed by a wait and a request for the same
/// page.
pub proof fn lemma_rate_limited_keeps_place<T>(s: PagerState<T>, rs: Seq<Reply<T>>)
    requires
        !s.done,
        forall|i: int| 0 <= i < rs.len() ==> #[trigger] rs[i] is RateLimited,
    ensures
        run(s, rs).items == s.items,
        run(s, rs).token == s.token,
        !run(s, rs).done,
        rs.len() > 0 ==> run(s, rs).is_retry,
        rs.len() > 0 ==> action_after(run(s, rs), rs.last()) == Action::WaitThenFetch,
    decreases rs.len(),
{
    if rs.len() > 0 {
        lemma_rate_limited_keeps_place(s, rs.drop_last());
        assert(rs.last() is RateLimited);
    }
}

/// On the forward rule, a page that names as next token the very token it
/// was requested with, with no throttle before it, ends the run; its items
/// are still kept.
pub proof fn lemma_repeated_token_stalls<T>(s: PagerState<T>, items: Vec<T>, t: String)
    requires
        well_formed(s),
        s.forward,
        !s.done,
        !s.is_retry,
        s.token == Some(t@),
    ensures
        next_state(s, Reply::Page { items, next_token: Some(t) }).done,
        next_state(s, Reply::Page { items, next_token: Some(t) }).items == s.items + items@,
{
}

/// On the forward rule, after a throttle a repeated token is followed exactly
/// once; a second repeat of it ends the run.
pub proof fn lemma_retry_follows_repeat_once<T>(
    s: PagerState<T>,
    first: Vec<T>,
    second: Vec<T>,
    t: String,
)
    requires
        well_formed(s),
        s.forward,
        !s.done,
        s.is_retry,
        s.token == Some(t@),
    ensures
        ({
            let s1 = next_state(s, Reply::Page { items: first, next_token: Some(t) });
            &&& !s1.done
            &&& !s1.is_retry
            &&& s1.token == Some(t@)
            &&& s1.items == s.items + first@
            &&& next_state(s1, Reply::Page { items: second, next_token: Some(t) }).done
        }),
{
}

/// On the forward rule, a throttle excuses a repeated token only on the page
/// right after it: once a page with a fresh token has come in between, a
/// repeat of that token ends the run.
pub proof fn lemma_throttle_excuses_only_next_page<T>(
    s: PagerState<T>,
    first: Vec<T>,
    second: Vec<T>,
    t1: String,
    t2: String,
)
    requires
        well_formed(s),
        s.forward,
        !s.done,
        s.token == Some(t1@),
        t1@ != t2@,
    ensures
        ({
            let s1 = next_state(next_state(s, Reply::RateLimited), Reply::Page { items: first, next_token: Some(t2) });
            &&& !s1.done
            &&& !s1.is_retry
            &&& s1.token == Some(t2@)
            &&& next_state(s1, Reply::Page { items: second, next_token: Some(t2) }).done
        }),
{
}

/// Every page, whatever its token, leaves the run with no throttle just
/// before its next step.
pub proof fn lemma_page_clears_retry<T>(s: PagerState<T>, items: Vec<T>, next_token: Option<String>)
    requires
        !s.done,
    ensures
        !next_state(s, Reply::Page { items, next_token }).is_retry,
{
}

/// One reply keeps a state well-formed and on its rule.
pub proof fn lemma_next_state_well_formed<T>(s: PagerState<T>, r: Reply<T>)
    requires
        well_formed(s),
    ensures
        well_formed(next_state(s, r)),
        next_state(s, r).forward == s.forward,
{
}

/// A run from the initial state only reaches well-formed states.
pub proof fn lemma_run_well_formed<T>(forward: bool, rs: Seq<Reply<T>>)
    ensures
        well_formed(run(initial_state::<T>(forward), rs)),
    decreases rs.len(),
{
    if rs.len() > 0 {
        lemma_run_well_formed::<T>(forward, rs.drop_last());
    }
}

/// A pagination run over one resource kind.
pub struct Paginator<T> {
    items: Vec<T>,
    token: Option<String>,
    started: bool,
    is_retry: bool,
    done: bool,
    forward: bool,
}

impl<T> View for Paginator<T> {
    type V = PagerState<T>;

    closed spec fn view(&self) -> PagerState<T> {
        PagerState {
            items: self.items@,
            token: opt_view(self.token),
            started: self.started,
            is_retry: self.is_retry,
            done: self.done,
            forward: self.forward,
        }
    }
}

impl<T> Paginator<T> {
    /// A run on the plain rule: an absent token ends it.
    pub fn new() -> (r: Self)
        ensures
            r@ == initial_state::<T>(false),
    {
        Paginator { items: Vec::new(), token: None, started: false, is_retry: false, done: false, forward: false }
    }

    /// A run on the forward rule: a repeated token ends it too, unless a
    /// throttle came before it.
    pub fn new_forward() -> (r: Self)
        ensures
            r@ == initial_state::<T>(true),
    {
        Paginator { items: Vec::new(), token: None, started: false, is_retry: false, done: false, forward: true }
    }

    /// Whether the run is over.
    pub fn is_done(&self) -> (r: bool)
        ensures
            r == self@.done,
    {
        self.done
    }

    /// The token to send with the next request.
    pub fn next_token(&self) -> (r: Option<String>)
        ensures
            opt_view(r) == self@.token,
    {
        self.token.clone()
    }

    /// Takes in the reply to the last request and says what to do next.
    pub fn step(&mut self, reply: Reply<T>) -> (a: Action)
        ensures
            final(self)@ == next_state(old(self)@, reply),
            a == action_after(final(self)@, reply),
    {
        if self.done {
            return Action::Finish;
        }
        match reply {
            Reply::RateLimited => {
                self.is_retry = true;
                Action::WaitThenFetch
            },
            Reply::Failed => {
                self.done = true;
                Action::Finish
            },
            Reply::Page { items, next_token } => {
                let mut items = items;
                self.items.append(&mut items);
                let fresh = match (&self.token, &next_token) {
                    (Some(c), Some(n)) => !c.eq(n),
                    _ => false,
                };
                if !self.started || !self.forward || fresh || self.is_retry {
                    self.token = next_token;
                } else {
                    self.token = None;
                }
                self.started = true;
                self.is_retry = false;
                self.done = self.token.is_none();
                if self.done {
                    Action::Finish
                } else {
                    Action::Fetch
                }
            },
        }
    }

    /// The items gathered, in the order they arrived.
    pub fn into_items(self) -> (r: Vec<T>)
        ensures
            r@ == self@.items,
    {
        self.items
    }
}

} // verus!
