//! The walk over the pages of a plan's post listing.

use crate::client::{MyfansClient, Request, RequestView, QueryView, posts_path, BASE_URL};
use crate::error::{description, with_context, ErrorView, PipelineError};
use crate::text::{decimal, decimal_text, lemma_views_concat, views};
use vstd::prelude::*;

verus! {

/// The number of the page a walk begins with.
pub const FIRST_PAGE: usize = 1;

/// The number of posts asked for with each page.
pub const PAGE_SIZE: usize = 20;

/// The key by which the listing is ordered.
pub const SORT_KEY: &'static str = "publish_start_at";

/// One page as the walk reads it: the identifiers on it, and the number of
/// the page after it, if there is one.
pub struct PageView {
    pub ids: Seq<Seq<char>>,
    pub next: Option<usize>,
}

/// The mathematical value of the outcome of one listing request.
pub open spec fn outcome_view(outcome: Result<(Vec<String>, Option<usize>), PipelineError>) -> Result<
    PageView,
    ErrorView,
> {
    match outcome {
        Ok(page) => Ok(PageView { ids: views(page.0@), next: page.1 }),
        Err(error) => Err(error@),
    }
}

/// A walk over the pages of a listing.
#[derive(Debug, PartialEq, Eq)]
pub enum PageWalk {
    /// The page `page` is to be requested; `ids` are those of the pages before it.
    Fetching { page: usize, ids: Vec<String> },
    /// The last page has been read; `ids` are those of all pages.
    Done { ids: Vec<String> },
    /// The request for the page `page` failed with `cause`.
    Failed { page: usize, cause: PipelineError },
}

/// The mathematical value of a [`PageWalk`].
pub enum WalkView {
    Fetching { page: usize, ids: Seq<Seq<char>> },
    Done { ids: Seq<Seq<char>> },
    Failed { page: usize, cause: ErrorView },
}

impl View for PageWalk {
    type V = WalkView;

    open spec fn view(&self) -> WalkView {
        match self {
            PageWalk::Fetching { page, ids } => WalkView::Fetching { page: *page, ids: views(ids@) },
            PageWalk::Done { ids } => WalkView::Done { ids: views(ids@) },
            PageWalk::Failed { page, cause } => WalkView::Failed { page: *page, cause: cause@ },
        }
    }
}

/// A walk that has requested nothing yet.
pub open spec fn start_spec() -> WalkView {
    WalkView::Fetching { page: FIRST_PAGE, ids: Seq::empty() }
}

/// The walk after the request for its pending page came back as `outcome`.
///
/// A page adds its identifiers behind those already seen, and its cursor
/// decides whether another page is requested. A failure ends the walk and
/// keeps the number of the page that failed, not the identifiers seen so
/// far. A walk that is over stays as it is.
pub open spec fn walk_step(walk: WalkView, outcome: Result<PageView, ErrorView>) -> WalkView {
    match walk {
        WalkView::Fetching { page, ids } => match outcome {
            Ok(found) => match found.next {
                Some(next) => WalkView::Fetching { page: next, ids: ids + found.ids },
                None => WalkView::Done { ids: ids + found.ids },
            },
            Err(cause) => WalkView::Failed { page, cause },
        },
        _ => walk,
    }
}

/// The walk after the outcomes of its first `outcomes.len()` requests.
pub open spec fn walk_over(outcomes: Seq<Result<PageView, ErrorView>>) -> WalkView
    decreases outcomes.len(),
{
    if outcomes.len() == 0 {
        start_spec()
    } else {
        walk_step(walk_over(outcomes.drop_last()), outcomes.last())
    }
}

/// The number of the page that a walk waits for, if it waits for one.
pub open spec fn pending_spec(walk: WalkView) -> Option<usize> {
    match walk {
        WalkView::Fetching { page, .. } => Some(page),
        _ => None,
    }
}

/// The request that fetches the page `page` of the plan `plan_id`.
pub open spec fn page_request(client: MyfansClient, plan_id: Seq<char>, page: usize) -> RequestView {
    RequestView {
        url: BASE_URL@ + posts_path(plan_id),
        headers: client.headers(),
        query: Some(QueryView { sort_key: SORT_KEY@, per_page: PAGE_SIZE, page }),
    }
}

/// Why a walk did not reach the last page.
#[derive(Debug, PartialEq, Eq)]
pub struct WalkError {
    /// The number of the page whose request failed.
    pub page: usize,
    pub cause: PipelineError,
}

/// The description of a failed walk: it names the page whose request
/// failed.
pub open spec fn walk_failure_text(page: usize) -> Seq<char> {
    "Failed to get post ids (page="@ + decimal_text(page as nat) + ")."@
}

/// The report of a failed walk: its description, then the description of
/// the failure behind it.
pub open spec fn walk_report_text(page: usize, cause: ErrorView) -> Seq<char> {
    with_context(walk_failure_text(page), description(cause))
}

impl WalkError {
    /// Describes the failed walk: the page whose request failed. The cause
    /// is kept in `cause`.
    pub fn describe(&self) -> (res: String)
        ensures
            res@ == walk_failure_text(self.page),
    {
        let page = decimal(self.page);
        String::from_str("Failed to get post ids (page=").concat(page.as_str()).concat(").")
    }

    /// Reports the failed walk with its cause, for a reader.
    pub fn report(&self) -> (res: String)
        ensures
            res@ == walk_report_text(self.page, self.cause@),
    {
        let cause = self.cause.describe();
        self.describe().concat(": ").concat(cause.as_str())
    }
}

/// How a walk ended: with the identifiers of all pages, or with the failure
/// of one page.
pub open spec fn result_spec(walk: WalkView) -> Option<Result<Seq<Seq<char>>, (usize, ErrorView)>> {
    match walk {
        WalkView::Fetching { .. } => None,
        WalkView::Done { ids } => Some(Ok(ids)),
        WalkView::Failed { page, cause } => Some(Err((page, cause))),
    }
}

/// The mathematical value of the result of a walk.
pub open spec fn walk_result_view(result: Option<Result<Vec<String>, WalkError>>) -> Option<
    Result<Seq<Seq<char>>, (usize, ErrorView)>,
> {
    match result {
        None => None,
        Some(Ok(ids)) => Some(Ok(views(ids@))),
        Some(Err(error)) => Some(Err((error.page, error.cause@))),
    }
}

impl PageWalk {
    /// A walk that has requested nothing yet: it waits for the first page.
    pub fn start() -> (res: PageWalk)
        ensures
            res@ == start_spec(),
    {
        let ids: Vec<String> = Vec::new();
        assert(views(ids@) =~= Seq::<Seq<char>>::empty());
        PageWalk::Fetching { page: FIRST_PAGE, ids }
    }

    /// The number of the page to request now; `None` once the walk is over.
    pub fn pending(&self) -> (res: Option<usize>)
        ensures
            res == pending_spec(self@),
    {
        match self {
            PageWalk::Fetching { page, .. } => Some(*page),
            _ => None,
        }
    }

    /// The request for the pending page of the plan `plan_id`, to be sent by
    /// `client`; `None` once the walk is over.
    pub fn request(&self, client: &MyfansClient, plan_id: &str) -> (res: Option<Request>)
        ensures
            match pending_spec(self@) {
                Some(page) => res is Some && res.unwrap()@ == page_request(*client, plan_id@, page),
                None => res is None,
            },
    {
        match self {
            PageWalk::Fetching { page, .. } => Some(
                client.post_ids_by_plan_id(plan_id, SORT_KEY, PAGE_SIZE, *page),
            ),
            _ => None,
        }
    }

    /// Takes the outcome of the request for the pending page.
    pub fn step(self, outcome: Result<(Vec<String>, Option<usize>), PipelineError>) -> (res:
        PageWalk)
        ensures
            res@ == walk_step(self@, outcome_view(outcome)),
    {
        match self {
            PageWalk::Fetching { page, ids } => match outcome {
                Ok((found, next)) => {
                    let mut ids = ids;
                    let mut found = found;
                    proof {
                        lemma_views_concat(ids@, found@);
                    }
                    ids.append(&mut found);
                    match next {
                        Some(next) => PageWalk::Fetching { page: next, ids },
                        None => PageWalk::Done { ids },
                    }
                },
                Err(cause) => PageWalk::Failed { page, cause },
            },
            PageWalk::Done { ids } => PageWalk::Done { ids },
            PageWalk::Failed { page, cause } => PageWalk::Failed { page, cause },
        }
    }

    /// How the walk ended; `None` while a page is still pending.
    pub fn into_result(self) -> (res: Option<Result<Vec<String>, WalkError>>)
        ensures
            walk_result_view(res) == result_spec(self@),
    {
        match self {
            PageWalk::Fetching { .. } => None,
            PageWalk::Done { ids } => Some(Ok(ids)),
            PageWalk::Failed { page, cause } => Some(Err(WalkError { page, cause })),
        }
    }
}

/// The outcomes of requests that all succeeded and found `pages`, in order.
pub open spec fn all_ok(pages: Seq<PageView>) -> Seq<Result<PageView, ErrorView>> {
    pages.map_values(|page: PageView| Ok::<PageView, ErrorView>(page))
}

/// The identifiers on `pages`, page after page.
pub open spec fn all_ids(pages: Seq<PageView>) -> Seq<Seq<char>>
    decreases pages.len(),
{
    if pages.len() == 0 {
        Seq::empty()
    } else {
        all_ids(pages.drop_last()) + pages.last().ids
    }
}

/// The number that the request with index `k` asks for when the requests
/// before it found `pages`: the first page, then what the page before named.
pub open spec fn requested_page(pages: Seq<PageView>, k: int) -> usize {
    if k == 0 {
        FIRST_PAGE
    } else {
        pages[k - 1].next.unwrap()
    }
}

/// Whether `pages` are the pages of one listing: there is at least one,
/// each but the last names a next page, and the last names none.
pub open spec fn is_listing(pages: Seq<PageView>) -> bool {
    &&& pages.len() > 0
    &&& pages.last().next is None
    &&& forall|i: int| 0 <= i < pages.len() - 1 ==> (#[trigger] pages[i]).next is Some
}

/// How many requests a walk makes while its outcomes come in: one for each
/// outcome that finds the walk still waiting for a page.
pub open spec fn requests_made(outcomes: Seq<Result<PageView, ErrorView>>) -> nat
    decreases outcomes.len(),
{
    if outcomes.len() == 0 {
        0
    } else if pending_spec(walk_over(outcomes.drop_last())) is Some {
        requests_made(outcomes.drop_last()) + 1
    } else {
        requests_made(outcomes.drop_last())
    }
}

/// While every page so far named a next page, the walk waits for the page
/// that the last one named, holds the identifiers of all pages so far, and
/// has made one request for each.
pub proof fn lemma_walk_in_progress(pages: Seq<PageView>, k: int)
    requires
        0 <= k <= pages.len(),
        forall|i: int| 0 <= i < k ==> (#[trigger] pages[i]).next is Some,
    ensures
        walk_over(all_ok(pages.take(k))) == (WalkView::Fetching {
            page: requested_page(pages, k),
            ids: all_ids(pages.take(k)),
        }),
        requests_made(all_ok(pages.take(k))) == k,
    decreases k,
{
    if k > 0 {
        let seen = pages.take(k);
        lemma_walk_in_progress(pages, k - 1);
        assert(seen.drop_last() =~= pages.take(k - 1));
        assert(all_ok(seen).drop_last() =~= all_ok(pages.take(k - 1)));
    }
}

/// Completeness: a walk over a listing of K pages ends with the identifiers
/// of all its pages, page after page, after exactly K requests; before each
/// of them it waits for the page that the page before named.
pub proof fn lemma_walk_is_complete(pages: Seq<PageView>)
    requires
        is_listing(pages),
    ensures
        walk_over(all_ok(pages)) == (WalkView::Done { ids: all_ids(pages) }),
        requests_made(all_ok(pages)) == pages.len(),
        forall|k: int|
            0 <= k < pages.len() ==> pending_spec(#[trigger] walk_over(all_ok(pages.take(k))))
                == Some(requested_page(pages, k)),
{
    let k = pages.len() - 1;
    assert forall|j: int| 0 <= j < pages.len() implies pending_spec(
        #[trigger] walk_over(all_ok(pages.take(j))),
    ) == Some(requested_page(pages, j)) by {
        lemma_walk_in_progress(pages, j);
    }
    lemma_walk_in_progress(pages, k);
    assert(all_ok(pages).drop_last() =~= all_ok(pages.take(k)));
}

/// Termination: while every request succeeds, the walk is over exactly when
/// one of the pages it read named no next page. However many pages name a
/// next one, the walk goes on.
pub proof fn lemma_walk_ends_on_last_page(pages: Seq<PageView>)
    ensures
        pending_spec(walk_over(all_ok(pages))) is None <==> exists|i: int|
            0 <= i < pages.len() && (#[trigger] pages[i]).next is None,
        !(walk_over(all_ok(pages)) is Failed),
    decreases pages.len(),
{
    if pages.len() > 0 {
        let front = pages.drop_last();
        lemma_walk_ends_on_last_page(front);
        assert(all_ok(pages).drop_last() =~= all_ok(front));
        if exists|i: int| 0 <= i < front.len() && (#[trigger] front[i]).next is None {
            let i = choose|i: int| 0 <= i < front.len() && (#[trigger] front[i]).next is None;
            assert(pages[i] == front[i]);
        } else if pages.last().next is Some {
            assert forall|i: int| 0 <= i < pages.len() implies (#[trigger] pages[i]).next
                is Some by {
                if i < front.len() {
                    assert(front[i] == pages[i]);
                }
            }
        }
    }
}

/// Fail fast: once a request fails, the walk has failed with the number of
/// the page that was asked for, whatever is reported afterwards.
pub proof fn lemma_walk_fails_at_page(
    walk: WalkView,
    cause: ErrorView,
    later: Result<PageView, ErrorView>,
)
    requires
        walk is Fetching,
    ensures
        walk_step(walk, Err(cause)) == (WalkView::Failed {
            page: pending_spec(walk).unwrap(),
            cause,
        }),
        walk_step(walk_step(walk, Err(cause)), later) == walk_step(walk, Err(cause)),
{
}

} // verus!
