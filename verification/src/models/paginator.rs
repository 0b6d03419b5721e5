use vstd::prelude::*;
use crate::error::IdalonError;
use crate::models::generic::{cursor_of, Collection, Cursor, Paginable};

verus! {

/// Where a paginator stands between two calls.
#[derive(Debug, Clone, Copy, PartialEq, Eq, Structural)]
pub enum Phase {
    /// No request is outstanding; the next pull issues one.
    Idle,
    /// One request is outstanding.
    Fetching,
    /// The sequence has ended; no request is issued any more.
    Exhausted,
}

/// The mathematical content of a [`Paginator`].
pub struct PaginatorView {
    pub cursor: Cursor,
    pub phase: Phase,
}

/// What a pull asks of the caller.
#[derive(Debug)]
pub enum Step<F> {
    /// Start a listing request with these filters, and hand its result to
    /// [`Paginator::on_response`].
    Fetch(F),
    /// A request is outstanding: wait for it.
    Wait,
    /// The sequence has ended.
    Done,
}

/// How one listing request ended, as far as pagination reads it.
pub enum Outcome {
    /// The request failed, whatever the error.
    Failed,
    /// A page came back that reports `total` records in all and holds `count`.
    Page { total: nat, count: nat },
}

/// The outcome that a listing result stands for.
pub open spec fn outcome_of<T>(result: Result<Collection<T>, IdalonError>) -> Outcome {
    match result {
        Ok(page) => Outcome::Page { total: page.total as nat, count: page.items@.len() },
        Err(_) => Outcome::Failed,
    }
}

/// Whether the page of this outcome is handed to the consumer.
pub open spec fn yields(outcome: Outcome) -> bool {
    outcome matches Outcome::Page { count, .. } && count > 0
}

/// The state after the request that carried `cursor` ended in `outcome`.
/// The records before the page that came back are those of the full pages
/// before `cursor`.
pub open spec fn resolve(cursor: Cursor, outcome: Outcome) -> PaginatorView {
    match outcome {
        Outcome::Failed => PaginatorView { cursor, phase: Phase::Exhausted },
        Outcome::Page { total, count } => PaginatorView {
            cursor: cursor.next(),
            phase: if count == 0 || total <= cursor.page() * cursor.limit {
                Phase::Exhausted
            } else {
                Phase::Idle
            },
        },
    }
}

/// Walks a listing page by page. It holds the filters of the page to ask
/// for next, and issues one request at a time.
pub struct Paginator<F: Paginable> {
    filters: F,
    fetching: bool,
    was_last: bool,
}

impl<F: Paginable> Paginator<F> {
    /// While a request is outstanding, the cursor can advance.
    pub closed spec fn wf(&self) -> bool {
        self.fetching && !self.was_last ==> cursor_of(self.filters).can_advance()
    }

    /// The filters that the paginator holds.
    pub closed spec fn spec_filters(&self) -> F {
        self.filters
    }

    /// The phase that the paginator is in.
    pub closed spec fn spec_phase(&self) -> Phase {
        if self.was_last {
            Phase::Exhausted
        } else if self.fetching {
            Phase::Fetching
        } else {
            Phase::Idle
        }
    }

    /// The cursor of the filters, and the phase.
    pub open spec fn view(&self) -> PaginatorView {
        PaginatorView { cursor: cursor_of(self.spec_filters()), phase: self.spec_phase() }
    }

    /// An idle paginator with the cursor as `filters` have it.
    pub fn new(filters: F) -> (paginator: Self)
        ensures
            paginator.wf(),
            paginator@.phase == Phase::Idle,
            paginator.spec_filters() == filters,
    {
        Paginator { filters, fetching: false, was_last: false }
    }

    /// The filters that the paginator holds.
    pub fn filters(&self) -> (filters: &F)
        ensures
            *filters == self.spec_filters(),
    {
        &self.filters
    }

    /// The phase that the paginator is in.
    pub fn phase(&self) -> (phase: Phase)
        ensures
            phase == self@.phase,
    {
        if self.was_last {
            Phase::Exhausted
        } else if self.fetching {
            Phase::Fetching
        } else {
            Phase::Idle
        }
    }

    /// Whether [`Paginator::poll_next`] may be called: always, unless the
    /// paginator is idle on a cursor that cannot advance.
    pub fn can_poll(&self) -> (ok: bool)
        ensures
            ok == (self@.phase == Phase::Idle ==> self@.cursor.can_advance()),
    {
        if self.was_last || self.fetching {
            return true;
        }
        let size = self.filters.get_page_size();
        if size == 0 {
            return false;
        }
        let page = self.filters.get_page();
        match page.checked_add(1) {
            None => {
                assert((page + 1) * size > usize::MAX) by (nonlinear_arith)
                    requires
                        page + 1 > usize::MAX,
                        size >= 1,
                ;
                false
            },
            Some(next) => next.checked_mul(size).is_some(),
        }
    }

    /// One pull on the sequence. An idle paginator asks for the page that
    /// its filters are on, with a clone of the filters as they stand; its own
    /// filters move on when the page has come back. While that request is
    /// outstanding no other is issued, and after the end none at all.
    pub fn poll_next(&mut self) -> (step: Step<F>)
        requires
            old(self).wf(),
            old(self)@.phase == Phase::Idle ==> old(self)@.cursor.can_advance(),
        ensures
            final(self).wf(),
            final(self).spec_filters() == old(self).spec_filters(),
            match old(self)@.phase {
                Phase::Idle => {
                    &&& final(self)@.phase == Phase::Fetching
                    &&& step == Step::Fetch(old(self).spec_filters())
                },
                Phase::Fetching => {
                    &&& final(self)@.phase == Phase::Fetching
                    &&& step == Step::<F>::Wait
                },
                Phase::Exhausted => {
                    &&& final(self)@.phase == Phase::Exhausted
                    &&& step == Step::<F>::Done
                },
            },
    {
        if self.was_last {
            return Step::Done;
        }
        if self.fetching {
            return Step::Wait;
        }
        let request = self.filters.clone();
        proof {
            self.filters.lemma_clone(&request);
        }
        self.fetching = true;
        Step::Fetch(request)
    }

    /// Takes in the result of the outstanding request. A page with records
    /// in it is handed on, and the paginator's filters move to the page
    /// after it; the sequence ends after it if the server's total is no more
    /// than the records of the pages before it. An empty page or an error
    /// ends the sequence at once, and the error is dropped.
    pub fn on_response<T>(&mut self, result: Result<Collection<T>, IdalonError>) -> (item: Option<
        Result<Collection<T>, IdalonError>,
    >)
        requires
            old(self).wf(),
            old(self)@.phase == Phase::Fetching,
        ensures
            final(self).wf(),
            final(self)@ == resolve(old(self)@.cursor, outcome_of(result)),
            item == (if yields(outcome_of(result)) {
                Some(result)
            } else {
                None
            }),
            final(self).spec_filters() == (if result is Ok {
                old(self).spec_filters().at_page(old(self)@.cursor.page() + 1)
            } else {
                old(self).spec_filters()
            }),
    {
        self.fetching = false;
        match result {
            Err(_) => {
                self.was_last = true;
                None
            },
            Ok(data) => {
                let ghost before = self.filters;
                let ghost size = before.spec_page_size();
                let page = self.filters.get_page();
                assert(page + 1 <= usize::MAX) by (nonlinear_arith)
                    requires
                        (page + 1) * size <= usize::MAX,
                        size >= 1,
                ;
                self.filters.set_page(page + 1);
                proof {
                    before.lemma_at_page((page + 1) as nat);
                    assert(((page + 1) * size) / (size as int) == page + 1) by (nonlinear_arith)
                        requires
                            size >= 1,
                    ;
                    assert(page * size <= (page + 1) * size) by (nonlinear_arith)
                        requires
                            size >= 1,
                            page >= 0,
                    ;
                }
                let polled = (self.filters.get_page() - 1) * self.filters.get_page_size();
                if data.total <= polled {
                    self.was_last = true;
                }
                if data.items.len() == 0 {
                    self.was_last = true;
                    None
                } else {
                    Some(Ok(data))
                }
            },
        }
    }
}

/// The number of pages that reach a consumer who pulls at most `pulls` times
/// on an idle paginator at `cursor`, and stops when the sequence ends, where
/// `server` answers each request by the cursor that it carries.
pub open spec fn pages_yielded(
    cursor: Cursor,
    server: spec_fn(Cursor) -> Outcome,
    pulls: nat,
) -> nat
    decreases pulls,
{
    if pulls == 0 {
        0
    } else {
        let outcome = server(cursor);
        let after = resolve(cursor, outcome);
        let here: nat = if yields(outcome) {
            1
        } else {
            0
        };
        if after.phase == Phase::Idle {
            here + pages_yielded(after.cursor, server, (pulls - 1) as nat)
        } else {
            here
        }
    }
}

/// The state in which those pulls leave the paginator.
pub open spec fn state_after(
    cursor: Cursor,
    server: spec_fn(Cursor) -> Outcome,
    pulls: nat,
) -> PaginatorView
    decreases pulls,
{
    if pulls == 0 {
        PaginatorView { cursor, phase: Phase::Idle }
    } else {
        let after = resolve(cursor, server(cursor));
        if after.phase == Phase::Idle {
            state_after(after.cursor, server, (pulls - 1) as nat)
        } else {
            after
        }
    }
}

/// The number of pages of `limit` records that hold `total` records: the
/// quotient, rounded up.
pub open spec fn pages_needed(total: nat, limit: nat) -> nat {
    ((total + limit - 1) / (limit as int)) as nat
}

/// The answer of a server that holds `total` records to a request that
/// carries `cursor`: the records from the offset on, a page of them at most.
pub open spec fn served(total: nat, cursor: Cursor) -> Outcome {
    Outcome::Page {
        total,
        count: if total <= cursor.offset {
            0
        } else if total - cursor.offset >= cursor.limit {
            cursor.limit
        } else {
            (total - cursor.offset) as nat
        },
    }
}

/// `before` full pages fall short of `total` records exactly when `before`
/// is less than the number of pages needed.
pub proof fn lemma_pages_needed(total: nat, limit: nat, before: nat)
    requires
        limit > 0,
    ensures
        before < pages_needed(total, limit) <==> before * limit < total,
{
    let needed = (total + limit - 1) / (limit as int);
    vstd::arithmetic::div_mod::lemma_fundamental_div_mod(total + limit - 1, limit as int);
    if before < needed {
        assert(before * limit <= (needed - 1) * limit) by (nonlinear_arith)
            requires
                before <= needed - 1,
                limit > 0,
        ;
        assert((needed - 1) * limit == limit * needed - limit) by (nonlinear_arith);
    } else {
        assert(before * limit >= needed * limit) by (nonlinear_arith)
            requires
                before >= needed,
                limit > 0,
        ;
    }
}

/// From the start of page `page`, the next request carries the offset one
/// limit further on, which is the start of page `page + 1`.
pub proof fn lemma_next_adds_limit(cursor: Cursor, page: nat)
    requires
        cursor.limit > 0,
        cursor.offset == page * cursor.limit,
    ensures
        cursor.page() == page,
        cursor.next().offset == cursor.offset + cursor.limit,
        cursor.next().offset == (page + 1) * cursor.limit,
        cursor.next().limit == cursor.limit,
{
    let limit = cursor.limit;
    assert((page * limit) / limit == page) by (nonlinear_arith)
        requires
            limit > 0,
    ;
    assert((page + 1) * limit == page * limit + limit) by (nonlinear_arith);
}

/// Against a server that holds `total` records and answers by the offset
/// asked for, a paginator at the start of page `before` yields the pages
/// from that one on, each with a record in it, and then ends: as many as
/// are needed for `total` less those before, or none where the start lies
/// behind the last record.
pub proof fn lemma_yields_pages_from(
    total: nat,
    start: Cursor,
    before: nat,
    server: spec_fn(Cursor) -> Outcome,
    pulls: nat,
)
    requires
        start.limit > 0,
        start.offset == before * start.limit,
        forall|cursor: Cursor| #[trigger] server(cursor) == served(total, cursor),
        pulls > pages_needed(total, start.limit) - before,
        pulls > 0,
    ensures
        pages_yielded(start, server, pulls) == (if before < pages_needed(total, start.limit) {
            pages_needed(total, start.limit) - before
        } else {
            0
        }),
        state_after(start, server, pulls).phase == Phase::Exhausted,
    decreases pulls,
{
    lemma_pages_needed(total, start.limit, before);
    lemma_next_adds_limit(start, before);
    if before < pages_needed(total, start.limit) {
        lemma_yields_pages_from(total, start.next(), before + 1, server, (pulls - 1) as nat);
    }
}

/// Against a server that holds `total` records and answers by the offset
/// asked for, a paginator that starts at offset zero yields every page that
/// holds a record, as many as `total` divided by the limit and rounded up,
/// and then ends.
pub proof fn lemma_yields_every_page(
    total: nat,
    start: Cursor,
    server: spec_fn(Cursor) -> Outcome,
    pulls: nat,
)
    requires
        start.limit > 0,
        start.offset == 0,
        forall|cursor: Cursor| #[trigger] server(cursor) == served(total, cursor),
        pulls > pages_needed(total, start.limit),
    ensures
        pages_yielded(start, server, pulls) == pages_needed(total, start.limit),
        state_after(start, server, pulls).phase == Phase::Exhausted,
{
    assert(0 * start.limit == 0) by (nonlinear_arith);
    lemma_yields_pages_from(total, start, 0, server, pulls);
}

/// When the first page comes back empty, no page is yielded and the
/// sequence has ended, whatever the server would have answered next.
pub proof fn lemma_empty_first_page(
    cursor: Cursor,
    server: spec_fn(Cursor) -> Outcome,
    pulls: nat,
)
    requires
        pulls > 0,
        server(cursor) matches Outcome::Page { count, .. } && count == 0,
    ensures
        pages_yielded(cursor, server, pulls) == 0,
        state_after(cursor, server, pulls).phase == Phase::Exhausted,
{
}

/// When the first request fails, no page is yielded and the sequence has
/// ended with the cursor where it was, whatever the server would have
/// answered next.
pub proof fn lemma_failed_first_fetch(
    cursor: Cursor,
    server: spec_fn(Cursor) -> Outcome,
    pulls: nat,
)
    requires
        pulls > 0,
        server(cursor) == Outcome::Failed,
    ensures
        pages_yielded(cursor, server, pulls) == 0,
        state_after(cursor, server, pulls) == (PaginatorView { cursor, phase: Phase::Exhausted }),
{
}

} // verus!
