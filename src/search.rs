//! Cursor-driven pagination of one search. A `Pager` decides, each time the
//! consumer pulls, whether to hand out a buffered record, ask for a page,
//! report a failure or end; the caller performs the fetch it asks for and
//! hands back the page or the error.
use vstd::prelude::*;

verus! {

/// How many times a rate-limited or transient failure is retried.
pub const MAX_RETRIES: u32 = 3;

/// Delay before the first retry; each further retry doubles it.
pub const BASE_BACKOFF_MS: u64 = 500;

/// The classes of failure a search can meet.
#[derive(Clone, Copy, Debug, PartialEq, Eq, Structural)]
pub enum FailureKind {
    InvalidTimeRange,
    Authentication,
    RateLimited,
    Transient,
    Api,
    Serialization,
}

pub open spec fn is_retryable(k: FailureKind) -> bool {
    k is RateLimited || k is Transient
}

/// Whether a failure of kind `k` is retried with backoff.
pub fn retryable(k: FailureKind) -> (r: bool)
    ensures
        r == is_retryable(k),
{
    match k {
        FailureKind::RateLimited | FailureKind::Transient => true,
        _ => false,
    }
}

pub open spec fn status_kind(status: u16) -> FailureKind {
    if status == 401 || status == 403 {
        FailureKind::Authentication
    } else if status == 429 {
        FailureKind::RateLimited
    } else if status == 408 {
        FailureKind::Transient
    } else {
        FailureKind::Api
    }
}

/// The kind of failure a non-success HTTP status stands for.
pub fn failure_for_status(status: u16) -> (r: FailureKind)
    ensures
        r == status_kind(status),
{
    if status == 401 || status == 403 {
        FailureKind::Authentication
    } else if status == 429 {
        FailureKind::RateLimited
    } else if status == 408 {
        FailureKind::Transient
    } else {
        FailureKind::Api
    }
}

/// A failure of a search, with a human-readable detail.
#[derive(Debug)]
pub struct SearchError {
    pub kind: FailureKind,
    pub detail: String,
}

/// Where a pager stands.
#[derive(Clone, Copy, Debug, PartialEq, Eq, Structural)]
pub enum Phase {
    /// Nothing fetched yet.
    Idle,
    /// A fetch has been asked for and its result is awaited.
    Fetching,
    /// A page has been received; its records are being handed out.
    Ready,
    /// A failure waits to be handed to the consumer.
    Failing,
    /// The last page has been drained.
    Exhausted,
    /// The failure has been handed out.
    Failed,
    /// The consumer closed the sequence.
    Closed,
}

/// The abstract state of a pager.
pub struct PagerModel<R> {
    pub phase: Phase,
    pub cursor: Option<Seq<char>>,
    pub buffer: Seq<R>,
    pub retries: nat,
    pub pending: Option<SearchError>,
}

/// What a pull yields, over the abstract state.
pub enum PullOut<R> {
    Item(R),
    Fetch(Option<Seq<char>>),
    Failure(SearchError),
    End,
}

/// What a pull yields: a record, a request to fetch the page at a cursor
/// (none for the first page), a failure, or the end of the sequence.
pub enum Pull<R> {
    Item(R),
    Fetch(Option<String>),
    Failure(SearchError),
    End,
}

pub open spec fn cursor_view(c: Option<String>) -> Option<Seq<char>> {
    match c {
        Some(s) => Some(s@),
        None => None,
    }
}

impl<R> Pull<R> {
    pub open spec fn out(self) -> PullOut<R> {
        match self {
            Pull::Item(r) => PullOut::Item(r),
            Pull::Fetch(c) => PullOut::Fetch(cursor_view(c)),
            Pull::Failure(e) => PullOut::Failure(e),
            Pull::End => PullOut::End,
        }
    }
}

/// How the pager reacts to a failed fetch.
#[derive(Clone, Copy, Debug, PartialEq, Eq, Structural)]
pub enum Decision {
    /// Wait `delay_ms`, then pull again: the same fetch is asked for.
    Retry { delay_ms: u64 },
    /// The failure is final; the next pull hands it out.
    GiveUp,
    /// No fetch was awaited (the sequence was closed or ended): discarded.
    Ignored,
}

pub open spec fn doubling(n: nat) -> nat
    decreases n,
{
    if n == 0 {
        1
    } else {
        2 * doubling((n - 1) as nat)
    }
}

/// Delay before retry number `attempt` (counted from zero).
pub open spec fn backoff_spec(attempt: nat) -> int {
    BASE_BACKOFF_MS * doubling(attempt)
}

pub open spec fn start_model<R>() -> PagerModel<R> {
    PagerModel { phase: Phase::Idle, cursor: None, buffer: Seq::empty(), retries: 0, pending: None }
}

pub open spec fn pull_spec<R>(m: PagerModel<R>) -> (PagerModel<R>, PullOut<R>) {
    if m.buffer.len() > 0 {
        (PagerModel { buffer: m.buffer.drop_first(), ..m }, PullOut::Item(m.buffer[0]))
    } else {
        match m.phase {
            Phase::Idle => (
                PagerModel { phase: Phase::Fetching, cursor: None, ..m },
                PullOut::Fetch(None),
            ),
            Phase::Ready => match m.cursor {
                Some(c) => (PagerModel { phase: Phase::Fetching, ..m }, PullOut::Fetch(Some(c))),
                None => (PagerModel { phase: Phase::Exhausted, ..m }, PullOut::End),
            },
            Phase::Fetching => (m, PullOut::Fetch(m.cursor)),
            Phase::Failing => match m.pending {
                Some(e) => (
                    PagerModel { phase: Phase::Failed, pending: None, ..m },
                    PullOut::Failure(e),
                ),
                None => (PagerModel { phase: Phase::Failed, ..m }, PullOut::End),
            },
            _ => (m, PullOut::End),
        }
    }
}

pub open spec fn deliver_page_spec<R>(
    m: PagerModel<R>,
    records: Seq<R>,
    next: Option<Seq<char>>,
) -> PagerModel<R> {
    if m.phase == Phase::Fetching {
        PagerModel { phase: Phase::Ready, cursor: next, buffer: records, retries: 0, ..m }
    } else {
        m
    }
}

pub open spec fn deliver_error_spec<R>(m: PagerModel<R>, e: SearchError) -> (
    PagerModel<R>,
    Decision,
) {
    if m.phase != Phase::Fetching {
        (m, Decision::Ignored)
    } else if is_retryable(e.kind) && m.retries < MAX_RETRIES {
        (
            PagerModel { retries: m.retries + 1, ..m },
            Decision::Retry { delay_ms: backoff_spec(m.retries) as u64 },
        )
    } else {
        (PagerModel { phase: Phase::Failing, pending: Some(e), ..m }, Decision::GiveUp)
    }
}

pub open spec fn close_spec<R>(m: PagerModel<R>) -> PagerModel<R> {
    PagerModel { phase: Phase::Closed, cursor: None, buffer: Seq::empty(), pending: None, ..m }
}

/// The pull-based state machine of one search.
pub struct Pager<R> {
    phase: Phase,
    cursor: Option<String>,
    buffer: Vec<R>,
    retries: u32,
    pending: Option<SearchError>,
}

impl<R> View for Pager<R> {
    type V = PagerModel<R>;

    closed spec fn view(&self) -> PagerModel<R> {
        PagerModel {
            phase: self.phase,
            cursor: cursor_view(self.cursor),
            buffer: self.buffer@,
            retries: self.retries as nat,
            pending: self.pending,
        }
    }
}

fn backoff_delay(attempt: u32) -> (r: u64)
    requires
        attempt < MAX_RETRIES,
    ensures
        r as int == backoff_spec(attempt as nat),
{
    proof {
        reveal_with_fuel(doubling, 3);
    }
    if attempt == 0 {
        BASE_BACKOFF_MS
    } else if attempt == 1 {
        BASE_BACKOFF_MS * 2
    } else {
        BASE_BACKOFF_MS * 4
    }
}

fn clone_cursor(c: &Option<String>) -> (r: Option<String>)
    ensures
        cursor_view(r) == cursor_view(*c),
{
    match c {
        Some(s) => Some(s.clone()),
        None => None,
    }
}

impl<R> Pager<R> {
    /// A pager that has fetched nothing yet.
    pub fn new() -> (p: Self)
        ensures
            p@ == start_model::<R>(),
    {
        let p = Pager { phase: Phase::Idle, cursor: None, buffer: Vec::new(), retries: 0, pending: None };
        assert(p@.buffer =~= Seq::<R>::empty());
        p
    }

    /// The current phase.
    pub fn phase(&self) -> (r: Phase)
        ensures
            r == self@.phase,
    {
        self.phase
    }

    /// The consumer asks for the next element.
    pub fn pull(&mut self) -> (r: Pull<R>)
        ensures
            pull_spec(old(self)@) == (final(self)@, r.out()),
    {
        if self.buffer.len() > 0 {
            let item = self.buffer.remove(0);
            assert(self.buffer@ =~= old(self)@.buffer.drop_first());
            return Pull::Item(item);
        }
        match self.phase {
            Phase::Idle => {
                self.phase = Phase::Fetching;
                self.cursor = None;
                Pull::Fetch(None)
            },
            Phase::Ready => {
                if self.cursor.is_some() {
                    self.phase = Phase::Fetching;
                    Pull::Fetch(clone_cursor(&self.cursor))
                } else {
                    self.phase = Phase::Exhausted;
                    Pull::End
                }
            },
            Phase::Fetching => Pull::Fetch(clone_cursor(&self.cursor)),
            Phase::Failing => {
                self.phase = Phase::Failed;
                let pending = self.pending.take();
                match pending {
                    Some(e) => Pull::Failure(e),
                    None => Pull::End,
                }
            },
            _ => Pull::End,
        }
    }

    /// The page asked for has arrived: its records, in the order received,
    /// and the cursor of the next page, if any. A page that arrives when no
    /// fetch is awaited is discarded.
    pub fn deliver_page(&mut self, records: Vec<R>, next: Option<String>)
        ensures
            final(self)@ == deliver_page_spec(old(self)@, records@, cursor_view(next)),
    {
        if self.phase == Phase::Fetching {
            self.phase = Phase::Ready;
            self.cursor = next;
            self.buffer = records;
            self.retries = 0;
        }
    }

    /// The fetch asked for failed with `err`.
    pub fn deliver_error(&mut self, err: SearchError) -> (r: Decision)
        ensures
            deliver_error_spec(old(self)@, err) == (final(self)@, r),
    {
        if self.phase != Phase::Fetching {
            return Decision::Ignored;
        }
        if retryable(err.kind) && self.retries < MAX_RETRIES {
            let delay_ms = backoff_delay(self.retries);
            self.retries = self.retries + 1;
            Decision::Retry { delay_ms }
        } else {
            self.phase = Phase::Failing;
            self.pending = Some(err);
            Decision::GiveUp
        }
    }

    /// The consumer stops: buffered records are dropped and no fetch is
    /// asked for again.
    pub fn close(&mut self)
        ensures
            final(self)@ == close_spec(old(self)@),
    {
        self.phase = Phase::Closed;
        self.cursor = None;
        self.buffer = Vec::new();
        self.pending = None;
        assert(self@.buffer =~= Seq::<R>::empty());
    }
}

/// A page as the search service returns it: its records and the cursor of
/// the next page, if any.
pub type PageSpec<R> = (Seq<R>, Option<Seq<char>>);

/// The consumer pulls until the sequence ends; every fetch the pager asks
/// for is answered with the next of `pages`. Gives the records yielded, the
/// number of fetches made, and whether the sequence ended.
pub open spec fn drive<R>(m: PagerModel<R>, pages: Seq<PageSpec<R>>) -> (Seq<R>, nat, bool)
    decreases pages.len(), m.buffer.len(),
{
    let (m2, out) = pull_spec(m);
    match out {
        PullOut::Item(r) => {
            let rest = drive(m2, pages);
            (seq![r] + rest.0, rest.1, rest.2)
        },
        PullOut::Fetch(_) => if pages.len() == 0 {
            (Seq::empty(), 0, false)
        } else {
            let rest = drive(deliver_page_spec(m2, pages[0].0, pages[0].1), pages.drop_first());
            (rest.0, rest.1 + 1, rest.2)
        },
        PullOut::End => (Seq::empty(), 0, true),
        PullOut::Failure(_) => (Seq::empty(), 0, false),
    }
}

/// The records of all `pages`, page after page.
pub open spec fn concat_pages<R>(pages: Seq<PageSpec<R>>) -> Seq<R>
    decreases pages.len(),
{
    if pages.len() == 0 {
        Seq::empty()
    } else {
        pages[0].0 + concat_pages(pages.drop_first())
    }
}

/// The index of the first page without a next cursor, or `pages.len()`.
pub open spec fn first_final<R>(pages: Seq<PageSpec<R>>) -> nat
    decreases pages.len(),
{
    if pages.len() == 0 {
        0
    } else if pages[0].1 is None {
        0
    } else {
        1 + first_final(pages.drop_first())
    }
}

proof fn lemma_drive_drains_buffer<R>(m: PagerModel<R>, pages: Seq<PageSpec<R>>)
    requires
        m.phase == Phase::Ready,
    ensures
        ({
            let e = PagerModel { buffer: Seq::<R>::empty(), ..m };
            &&& drive(m, pages).0 =~= m.buffer + drive(e, pages).0
            &&& drive(m, pages).1 == drive(e, pages).1
            &&& drive(m, pages).2 == drive(e, pages).2
        }),
    decreases m.buffer.len(),
{
    let e = PagerModel { buffer: Seq::<R>::empty(), ..m };
    if m.buffer.len() == 0 {
        assert(m.buffer =~= Seq::<R>::empty());
        assert(m == e);
    } else {
        let m2 = PagerModel { buffer: m.buffer.drop_first(), ..m };
        lemma_drive_drains_buffer(m2, pages);
        let e2 = PagerModel { buffer: Seq::<R>::empty(), ..m2 };
        assert(e2 == e);
        assert(m.buffer =~= seq![m.buffer[0]] + m2.buffer);
    }
}

proof fn lemma_drive_pages<R>(m: PagerModel<R>, pages: Seq<PageSpec<R>>)
    requires
        m.buffer.len() == 0,
        m.phase == Phase::Idle || (m.phase == Phase::Ready && m.cursor is Some),
    ensures
        first_final(pages) <= pages.len(),
        first_final(pages) < pages.len() ==> drive(m, pages) == (
            concat_pages(pages.take(first_final(pages) + 1 as int)),
            first_final(pages) + 1,
            true,
        ),
        first_final(pages) == pages.len() ==> drive(m, pages) == (
            concat_pages(pages),
            pages.len(),
            false,
        ),
    decreases pages.len(),
{
    let (m2, out) = pull_spec(m);
    assert(m2.phase == Phase::Fetching);
    if pages.len() > 0 {
        let p0 = pages[0];
        let rest = pages.drop_first();
        let m3 = deliver_page_spec(m2, p0.0, p0.1);
        lemma_drive_drains_buffer(m3, rest);
        let e3 = PagerModel { buffer: Seq::<R>::empty(), ..m3 };
        assert(pages.take(1).drop_first() =~= Seq::<PageSpec<R>>::empty());
        assert(pages.take(1)[0] == p0);
        if p0.1 is None {
            assert(drive(e3, rest) == (Seq::<R>::empty(), 0nat, true));
            assert(concat_pages(pages.take(1)) =~= p0.0 + concat_pages(pages.take(1).drop_first()));
            assert(concat_pages(pages.take(1)) =~= p0.0);
        } else {
            lemma_drive_pages(e3, rest);
            let k = first_final(rest) as int;
            if k < rest.len() {
                assert(pages.take(k + 2).drop_first() =~= rest.take(k + 1));
                assert(pages.take(k + 2)[0] == p0);
                assert(drive(m, pages).0 =~= concat_pages(pages.take(k + 2)));
            } else {
                assert(drive(m, pages).0 =~= concat_pages(pages));
            }
        }
    }
}

/// Pagination over pages without errors: a fresh pager, pulled until it
/// ends, yields the records of every page in the order received, up to and
/// including the first page that carries no next cursor; it fetches exactly
/// those pages, and ends exactly when it has seen such a page.
pub proof fn lemma_pagination_yields_pages_in_order<R>(pages: Seq<PageSpec<R>>)
    ensures
        first_final(pages) <= pages.len(),
        first_final(pages) < pages.len() ==> drive(start_model::<R>(), pages) == (
            concat_pages(pages.take(first_final(pages) + 1 as int)),
            first_final(pages) + 1,
            true,
        ),
        first_final(pages) == pages.len() ==> drive(start_model::<R>(), pages) == (
            concat_pages(pages),
            pages.len(),
            false,
        ),
{
    lemma_drive_pages(start_model::<R>(), pages);
}

/// A pager that has ended, failed for good, or been closed, and holds no
/// records.
pub open spec fn is_stopped<R>(m: PagerModel<R>) -> bool {
    (m.phase == Phase::Exhausted || m.phase == Phase::Failed || m.phase == Phase::Closed)
        && m.buffer.len() == 0
}

/// What can happen to a pager: the consumer pulls, a fetch returns a page or
/// fails, or the consumer closes the sequence.
pub enum PagerEvent<R> {
    Pull,
    Page(Seq<R>, Option<Seq<char>>),
    Error(SearchError),
    Close,
}

pub open spec fn step<R>(m: PagerModel<R>, ev: PagerEvent<R>) -> (PagerModel<R>, Option<PullOut<R>>) {
    match ev {
        PagerEvent::Pull => {
            let (m2, o) = pull_spec(m);
            (m2, Some(o))
        },
        PagerEvent::Page(r, c) => (deliver_page_spec(m, r, c), None),
        PagerEvent::Error(e) => (deliver_error_spec(m, e).0, None),
        PagerEvent::Close => (close_spec(m), None),
    }
}

/// Whether some pull in `evs`, replayed from `m`, asks for a fetch.
pub open spec fn asks_fetch<R>(m: PagerModel<R>, evs: Seq<PagerEvent<R>>) -> bool
    decreases evs.len(),
{
    if evs.len() == 0 {
        false
    } else {
        let (m2, o) = step(m, evs[0]);
        (o matches Some(PullOut::Fetch(_))) || asks_fetch(m2, evs.drop_first())
    }
}

/// Once the consumer has closed the sequence (or it has ended), no pull
/// asks for a fetch again, whatever happens next; a result of a fetch that
/// was still in flight is discarded.
pub proof fn lemma_no_fetch_after_close<R>(m: PagerModel<R>, evs: Seq<PagerEvent<R>>)
    ensures
        is_stopped(close_spec(m)),
        !asks_fetch(close_spec(m), evs),
{
    lemma_stopped_stays_stopped(close_spec(m), evs);
}

proof fn lemma_stopped_stays_stopped<R>(m: PagerModel<R>, evs: Seq<PagerEvent<R>>)
    requires
        is_stopped(m),
    ensures
        !asks_fetch(m, evs),
    decreases evs.len(),
{
    if evs.len() > 0 {
        let (m2, o) = step(m, evs[0]);
        assert(is_stopped(m2));
        lemma_stopped_stays_stopped(m2, evs.drop_first());
    }
}

} // verus!
