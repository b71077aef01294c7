use vstd::prelude::*;

use crate::error::TraceError;
use crate::model::views_of;

verus! {

/// The most items that the source hands out in one page.
pub const MAX_PAGE_SIZE: u8 = 100;

/// A request for one page of a listing.
#[derive(Clone, Copy, Debug, PartialEq, Eq, Structural)]
pub struct PageRequest {
    /// What is listed: the workflow whose runs, or the run whose jobs.
    pub owner_id: u64,
    /// The number of the page; the first page is page one.
    pub page: u64,
    /// The most items that the page may hold.
    pub per_page: u8,
}

/// What the source answered to a request for a page.
#[derive(Debug, PartialEq, Eq)]
pub enum PageResponse<T> {
    /// The items of the page. A page without items says that the source has
    /// no more of them.
    Page(Vec<T>),
    /// The request failed.
    Unavailable,
}

/// What the source answered: the mathematical value that contracts speak of.
pub enum ResponseView<T> {
    Page(Seq<T>),
    Unavailable,
}

impl<T: View> View for PageResponse<T> {
    type V = ResponseView<T::V>;

    open spec fn view(&self) -> ResponseView<T::V> {
        match self {
            PageResponse::Page(items) => ResponseView::Page(views_of(items@)),
            PageResponse::Unavailable => ResponseView::Unavailable,
        }
    }
}

/// Whether a listing can go on.
#[derive(Clone, Copy, Debug, PartialEq, Eq, Structural)]
pub enum PaginatorStatus {
    /// No answer so far has ended the listing.
    Open,
    /// The source answered with a page without items.
    Exhausted,
    /// The source failed to answer.
    Failed,
}

/// A listing in progress: what was asked for, and what has arrived so far.
pub struct PaginatorView<T> {
    pub owner_id: u64,
    /// The most items that the listing is to collect.
    pub limit: u64,
    /// The items collected so far, in the order in which they arrived.
    pub items: Seq<T>,
    /// The number of pages that brought items.
    pub pages: nat,
    pub status: PaginatorStatus,
}

impl<T> PaginatorView<T> {
    /// Never more items than were asked for, and no page without an item.
    pub open spec fn wf(self) -> bool {
        &&& self.items.len() <= self.limit
        &&& self.pages <= self.items.len()
    }

    /// A listing for which nothing has been asked yet.
    pub open spec fn fresh(owner_id: u64, limit: u64) -> PaginatorView<T> {
        PaginatorView {
            owner_id,
            limit,
            items: Seq::empty(),
            pages: 0,
            status: PaginatorStatus::Open,
        }
    }

    /// How many items are still wanted.
    pub open spec fn remaining(self) -> nat {
        (self.limit - self.items.len()) as nat
    }

    /// Whether another page is to be asked for: the source has neither
    /// failed nor run out, and items are still wanted.
    pub open spec fn wants_more(self) -> bool {
        self.status == PaginatorStatus::Open && self.items.len() < self.limit
    }

    /// The size of the next page: what is still wanted, but never more
    /// than the source hands out at once.
    pub open spec fn next_page_size(self) -> nat {
        if self.remaining() < MAX_PAGE_SIZE as nat {
            self.remaining()
        } else {
            MAX_PAGE_SIZE as nat
        }
    }

    /// The request to make next, if the listing goes on.
    pub open spec fn request(self) -> Option<PageRequest> {
        if self.wants_more() {
            Some(
                PageRequest {
                    owner_id: self.owner_id,
                    page: (self.pages + 1) as u64,
                    per_page: self.next_page_size() as u8,
                },
            )
        } else {
            None
        }
    }

    /// The listing after the answer to its request. An answer that no
    /// request asked for changes nothing. Of a page that holds more items
    /// than are still wanted, the first that are wanted are kept.
    pub open spec fn accept(self, response: ResponseView<T>) -> PaginatorView<T> {
        if !self.wants_more() {
            self
        } else {
            match response {
                ResponseView::Unavailable => PaginatorView {
                    status: PaginatorStatus::Failed,
                    ..self
                },
                ResponseView::Page(items) => if items.len() == 0 {
                    PaginatorView { status: PaginatorStatus::Exhausted, ..self }
                } else if items.len() <= self.remaining() {
                    PaginatorView { items: self.items + items, pages: self.pages + 1, ..self }
                } else {
                    PaginatorView {
                        items: self.items + items.take(self.remaining() as int),
                        pages: self.pages + 1,
                        ..self
                    }
                },
            }
        }
    }

    /// The listing after a sequence of answers, each to the request that
    /// the listing made after the answer before it.
    pub open spec fn accept_all(self, responses: Seq<ResponseView<T>>) -> PaginatorView<T>
        decreases responses.len(),
    {
        if responses.len() == 0 {
            self
        } else {
            self.accept_all(responses.drop_last()).accept(responses.last())
        }
    }

    /// What the listing gives: the items collected, unless the source
    /// failed.
    pub open spec fn outcome(self) -> Result<Seq<T>, TraceError> {
        if self.status == PaginatorStatus::Failed {
            Err(TraceError::SourceUnavailable)
        } else {
            Ok(self.items)
        }
    }
}

/// Collects the pages of one listing. It decides which page to ask for next
/// and when to stop; whoever drives it makes the requests.
pub struct Paginator<T: View> {
    owner_id: u64,
    limit: u64,
    items: Vec<T>,
    pages: u64,
    status: PaginatorStatus,
}

impl<T: View> View for Paginator<T> {
    type V = PaginatorView<T::V>;

    closed spec fn view(&self) -> PaginatorView<T::V> {
        PaginatorView {
            owner_id: self.owner_id,
            limit: self.limit,
            items: views_of(self.items@),
            pages: self.pages as nat,
            status: self.status,
        }
    }
}

impl<T: View> Paginator<T> {
    #[verifier::type_invariant]
    spec fn well_formed(self) -> bool {
        self@.wf()
    }

    /// Starts a listing that collects at most `limit` items.
    pub fn new(owner_id: u64, limit: u64) -> (pager: Paginator<T>)
        ensures
            pager@ == PaginatorView::<T::V>::fresh(owner_id, limit),
    {
        let pager = Paginator {
            owner_id,
            limit,
            items: Vec::new(),
            pages: 0,
            status: PaginatorStatus::Open,
        };
        assert(pager@.items =~= Seq::empty());
        pager
    }

    /// Starts a listing of everything that the source holds.
    pub fn unbounded(owner_id: u64) -> (pager: Paginator<T>)
        ensures
            pager@ == PaginatorView::<T::V>::fresh(owner_id, u64::MAX),
    {
        Paginator::new(owner_id, u64::MAX)
    }

    /// The request to make next; none once the listing is over.
    pub fn next_request(&self) -> (request: Option<PageRequest>)
        ensures
            self@.wf(),
            request == self@.request(),
    {
        proof {
            use_type_invariant(self);
        }
        let collected: u64 = self.items.len() as u64;
        if self.status == PaginatorStatus::Open && collected < self.limit {
            let remaining: u64 = self.limit - collected;
            let per_page: u8 = if remaining < MAX_PAGE_SIZE as u64 {
                remaining as u8
            } else {
                MAX_PAGE_SIZE
            };
            Some(PageRequest { owner_id: self.owner_id, page: self.pages + 1, per_page })
        } else {
            None
        }
    }

    /// Takes the answer to the request that `next_request` gave.
    pub fn accept(self, response: PageResponse<T>) -> (pager: Paginator<T>)
        ensures
            self@.wf(),
            pager@.wf(),
            pager@ == self@.accept(response@),
    {
        proof {
            use_type_invariant(&self);
        }
        let collected: u64 = self.items.len() as u64;
        if !(self.status == PaginatorStatus::Open && collected < self.limit) {
            return self;
        }
        let Paginator { owner_id, limit, items, pages, status } = self;
        match response {
            PageResponse::Unavailable => Paginator {
                owner_id,
                limit,
                items,
                pages,
                status: PaginatorStatus::Failed,
            },
            PageResponse::Page(page) => {
                if page.len() == 0 {
                    Paginator { owner_id, limit, items, pages, status: PaginatorStatus::Exhausted }
                } else {
                    let remaining: u64 = limit - collected;
                    let ghost whole = page@;
                    let ghost before = items@;
                    let mut page = page;
                    if page.len() as u64 > remaining {
                        page.truncate(remaining as usize);
                        assert(views_of(page@) =~= views_of(whole).take(remaining as int));
                    }
                    let ghost kept = page@;
                    let mut items = items;
                    items.append(&mut page);
                    assert(views_of(items@) =~= views_of(before) + views_of(kept));
                    Paginator { owner_id, limit, items, pages: pages + 1, status }
                }
            },
        }
    }

    /// Ends the listing and hands out what it collected.
    pub fn finish(self) -> (res: Result<Vec<T>, TraceError>)
        ensures
            self@.wf(),
            res is Ok == self@.outcome() is Ok,
            res matches Ok(items) ==> self@.outcome() == Ok::<Seq<T::V>, TraceError>(
                views_of(items@),
            ),
            res matches Err(e) ==> self@.outcome() == Err::<Seq<T::V>, TraceError>(e),
    {
        proof {
            use_type_invariant(&self);
        }
        if self.status == PaginatorStatus::Failed {
            Err(TraceError::SourceUnavailable)
        } else {
            Ok(self.items)
        }
    }
}

/// Lists the runs of a workflow: `owner_id` is the identifier of the
/// workflow.
pub type RunPaginator = Paginator<crate::model::RunSummary>;

/// Lists the jobs of a run: `owner_id` is the identifier of the run.
pub type JobPaginator = Paginator<crate::model::JobRecord>;

/// A listing that has asked for nothing yet asks for the first page, of as
/// many items as are wanted and at most a hundred; it asks for nothing
/// where nothing is wanted.
pub proof fn lemma_first_request<T>(owner_id: u64, limit: u64)
    ensures
        PaginatorView::<T>::fresh(owner_id, limit).wf(),
        limit == 0 ==> PaginatorView::<T>::fresh(owner_id, limit).request() is None,
        limit > 0 ==> PaginatorView::<T>::fresh(owner_id, limit).request() == Some(
            PageRequest {
                owner_id,
                page: 1,
                per_page: if limit < 100 {
                    limit as u8
                } else {
                    100u8
                },
            },
        ),
{
}

/// Every request asks for at least one item and at most a hundred, for as
/// many as are still wanted where that is fewer, and for the page after the
/// last that brought items.
pub proof fn lemma_request_shape<T>(pager: PaginatorView<T>)
    requires
        pager.wf(),
    ensures
        pager.request() matches Some(request) ==> {
            &&& request.owner_id == pager.owner_id
            &&& request.page == pager.pages + 1
            &&& 1 <= request.per_page <= MAX_PAGE_SIZE
            &&& request.per_page <= pager.limit - pager.items.len()
            &&& request.per_page == MAX_PAGE_SIZE || request.per_page == pager.limit
                - pager.items.len()
        },
        pager.request() is None <==> pager.status != PaginatorStatus::Open || pager.items.len()
            == pager.limit,
{
}

/// Taking an answer keeps the listing well formed, never loses an item
/// that was collected, and never collects more than were asked for.
pub proof fn lemma_accept_keeps_items<T>(pager: PaginatorView<T>, response: ResponseView<T>)
    requires
        pager.wf(),
    ensures
        pager.accept(response).wf(),
        pager.accept(response).owner_id == pager.owner_id,
        pager.accept(response).limit == pager.limit,
        pager.items.is_prefix_of(pager.accept(response).items),
        pager.accept(response).items.len() <= pager.limit,
{
}

/// After a page with items, a listing that goes on asks for the next page;
/// page numbers go up by one from page one.
pub proof fn lemma_pages_in_order<T>(pager: PaginatorView<T>, items: Seq<T>)
    requires
        pager.wf(),
        items.len() > 0,
    ensures
        pager.request() matches Some(asked) ==> (pager.accept(
            ResponseView::Page(items),
        ).request() matches Some(next) ==> next.page == asked.page + 1 && next.owner_id
            == asked.owner_id),
{
}

/// A page that holds no more items than its request allowed is collected
/// whole, behind the items collected before.
pub proof fn lemma_fitting_page_is_collected<T>(pager: PaginatorView<T>, items: Seq<T>)
    requires
        pager.wf(),
        pager.request() is Some,
        0 < items.len() <= pager.request()->0.per_page,
    ensures
        pager.accept(ResponseView::Page(items)).items == pager.items + items,
        pager.accept(ResponseView::Page(items)).status == PaginatorStatus::Open,
{
}

/// A page without items ends the listing without an error: what was
/// collected is handed out, though it may be less than was asked for.
pub proof fn lemma_empty_page_ends_listing<T>(pager: PaginatorView<T>)
    requires
        pager.wf(),
        pager.request() is Some,
    ensures
        pager.accept(ResponseView::Page(Seq::empty())).request() is None,
        pager.accept(ResponseView::Page(Seq::empty())).outcome() == Ok::<Seq<T>, TraceError>(
            pager.items,
        ),
{
}

/// A failed request ends the listing with an error.
pub proof fn lemma_failure_ends_listing<T>(pager: PaginatorView<T>)
    requires
        pager.wf(),
        pager.request() is Some,
    ensures
        pager.accept(ResponseView::Unavailable).request() is None,
        pager.accept(ResponseView::Unavailable).outcome() == Err::<Seq<T>, TraceError>(
            TraceError::SourceUnavailable,
        ),
{
}

/// A listing that is over stays as it is, whatever is answered.
pub proof fn lemma_finished_listing_is_final<T>(pager: PaginatorView<T>, response: ResponseView<T>)
    requires
        pager.request() is None,
    ensures
        pager.accept(response) == pager,
{
}

/// Whatever the source answers and however often, the listing stays well
/// formed: it holds at most as many items as were asked for, and it cannot
/// fail once it is over.
pub proof fn lemma_accept_all<T>(pager: PaginatorView<T>, responses: Seq<ResponseView<T>>)
    requires
        pager.wf(),
    ensures
        pager.accept_all(responses).wf(),
        pager.accept_all(responses).owner_id == pager.owner_id,
        pager.accept_all(responses).limit == pager.limit,
        pager.items.is_prefix_of(pager.accept_all(responses).items),
        pager.accept_all(responses).items.len() <= pager.limit,
        pager.accept_all(responses).pages <= pager.pages + responses.len(),
        pager.request() is None ==> pager.accept_all(responses) == pager,
    decreases responses.len(),
{
    if responses.len() > 0 {
        lemma_accept_all(pager, responses.drop_last());
        let before = pager.accept_all(responses.drop_last());
        lemma_accept_keeps_items(before, responses.last());
    }
}

/// The smaller of two numbers.
pub open spec fn smaller(a: nat, b: nat) -> nat {
    if a < b {
        a
    } else {
        b
    }
}

/// The page that a source gives which hands out its items in order, as
/// many at a time as are asked for: the first items of `rest`, which is
/// what the source has not handed out yet.
pub open spec fn page_in_order<T>(pager: PaginatorView<T>, rest: Seq<T>) -> Seq<T> {
    rest.take(smaller(pager.next_page_size(), rest.len()) as int)
}

/// The listing driven to its end against a source that hands out its items
/// in order, as many at a time as are asked for.
pub open spec fn listed_in_order<T>(pager: PaginatorView<T>, rest: Seq<T>) -> PaginatorView<T>
    decreases rest.len(),
{
    if !pager.wants_more() {
        pager
    } else {
        let page = page_in_order(pager, rest);
        let next = pager.accept(ResponseView::Page(page));
        if page.len() == 0 {
            next
        } else {
            listed_in_order(next, rest.skip(page.len() as int))
        }
    }
}

/// The number of requests that are made while the listing is driven to its
/// end against a source that hands out its items in order.
pub open spec fn requests_in_order<T>(pager: PaginatorView<T>, rest: Seq<T>) -> nat
    decreases rest.len(),
{
    if !pager.wants_more() {
        0
    } else {
        let page = page_in_order(pager, rest);
        let next = pager.accept(ResponseView::Page(page));
        if page.len() == 0 {
            1
        } else {
            1 + requests_in_order(next, rest.skip(page.len() as int))
        }
    }
}

/// The number of pages of at most a hundred items that `count` items fill.
pub open spec fn pages_filled(count: nat) -> nat {
    ((count + 99) / 100) as nat
}

proof fn lemma_listed_in_order<T>(pager: PaginatorView<T>, rest: Seq<T>)
    requires
        pager.wf(),
        pager.status == PaginatorStatus::Open,
    ensures
        listed_in_order(pager, rest).wf(),
        !listed_in_order(pager, rest).wants_more(),
        listed_in_order(pager, rest).status != PaginatorStatus::Failed,
        listed_in_order(pager, rest).items == pager.items + rest.take(
            smaller(pager.remaining(), rest.len()) as int,
        ),
        requests_in_order(pager, rest) == pages_filled(smaller(pager.remaining(), rest.len())) + (
        if rest.len() < pager.remaining() {
            1nat
        } else {
            0nat
        }),
    decreases rest.len(),
{
    let wanted = smaller(pager.remaining(), rest.len());
    if !pager.wants_more() {
        assert(rest.take(0) =~= Seq::<T>::empty());
        assert(pager.items + rest.take(0) =~= pager.items);
    } else {
        let page = page_in_order(pager, rest);
        let next = pager.accept(ResponseView::Page(page));
        if page.len() == 0 {
            assert(rest.len() == 0);
            assert(pager.items + rest.take(0) =~= pager.items);
        } else {
            let size = page.len();
            let later = rest.skip(size as int);
            assert(size == smaller(100, wanted));
            assert(next.items == pager.items + page);
            lemma_listed_in_order(next, later);
            let more = smaller(next.remaining(), later.len());
            assert(more == wanted - size);
            assert(page + later.take(more as int) =~= rest.take(wanted as int));
            assert((pager.items + page) + later.take(more as int) =~= pager.items + rest.take(
                wanted as int,
            ));
            assert(pages_filled(wanted) == 1 + pages_filled(more));
        }
    }
}

/// Against a source that hands out its items in order, as many at a time
/// as are asked for, a listing collects the first items of the source, as
/// many as were asked for, or all of them where the source holds fewer;
/// and it does so without an error. It asks for as many pages as those
/// items fill, and for one more where the source holds fewer items than
/// were asked for: only a page without items says that the source has no
/// more.
pub proof fn lemma_listing_in_order<T>(owner_id: u64, limit: u64, source: Seq<T>)
    ensures
        ({
            let fresh = PaginatorView::<T>::fresh(owner_id, limit);
            let wanted = smaller(limit as nat, source.len());
            &&& listed_in_order(fresh, source).request() is None
            &&& listed_in_order(fresh, source).outcome() == Ok::<Seq<T>, TraceError>(
                source.take(wanted as int),
            )
            &&& requests_in_order(fresh, source) == pages_filled(wanted) + (if source.len()
                < limit {
                1nat
            } else {
                0nat
            })
        }),
{
    let fresh = PaginatorView::<T>::fresh(owner_id, limit);
    lemma_listed_in_order(fresh, source);
    let wanted = smaller(limit as nat, source.len());
    assert(fresh.items + source.take(wanted as int) =~= source.take(wanted as int));
}

} // verus!
