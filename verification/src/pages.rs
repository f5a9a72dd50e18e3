//! The page aggregator: follow the links of a listing from its first page
//! to its last and hand out one sequence, in the order of the service.
//!
//! The aggregator sends no request. While a page carries a link, the
//! aggregation is [`Aggregation::Pending`] on that link; the caller fetches
//! the page behind it and hands the result to [`Aggregation::resume`].

use crate::error::{ErrorView, SyncError};
use crate::repo::{ListingPage, PageView, RepositoryDescriptor, RepositoryView};
use vstd::prelude::*;

verus! {

/// How far the aggregation of one listing has come.
#[derive(Debug, PartialEq, Eq)]
pub enum Aggregation {
    /// More is to come: the page behind `link` is to be fetched next. `repos`
    /// holds the entries of the pages received so far.
    Pending { repos: Vec<RepositoryDescriptor>, link: String },
    /// The last page has been received: `repos` is the whole listing.
    Complete { repos: Vec<RepositoryDescriptor> },
    /// A page could not be fetched. What had been collected is dropped.
    Failed { error: SyncError },
}

/// What an [`Aggregation`] holds, as mathematical values.
pub enum AggregationView {
    Pending { repos: Seq<RepositoryView>, link: Seq<char> },
    Complete { repos: Seq<RepositoryView> },
    Failed { error: ErrorView },
}

impl View for Aggregation {
    type V = AggregationView;

    open spec fn view(&self) -> AggregationView {
        match self {
            Aggregation::Pending { repos, link } => AggregationView::Pending {
                repos: repos.deep_view(),
                link: link@,
            },
            Aggregation::Complete { repos } => AggregationView::Complete {
                repos: repos.deep_view(),
            },
            Aggregation::Failed { error } => AggregationView::Failed { error: error@ },
        }
    }
}

/// The aggregation that has received the entries of `page` and nothing
/// after them: pending on the link of the page if it has one, else complete.
pub open spec fn collected(page: PageView) -> AggregationView {
    match page.next {
        Some(link) => AggregationView::Pending { repos: page.items, link },
        None => AggregationView::Complete { repos: page.items },
    }
}

/// What the caller got when it fetched a page, as mathematical values.
pub open spec fn fetched(outcome: Result<ListingPage, String>) -> Result<PageView, Seq<char>> {
    match outcome {
        Ok(page) => Ok(page@),
        Err(detail) => Err(detail@),
    }
}

impl AggregationView {
    /// The aggregation after the request for the pending link has ended
    /// with `outcome`.
    ///
    /// The entries of a page that arrived go behind those that are there,
    /// and its link decides whether more is to come. A failed request fails
    /// the aggregation. An aggregation that is not pending stays as it is.
    pub open spec fn resume(self, outcome: Result<PageView, Seq<char>>) -> AggregationView {
        match self {
            AggregationView::Pending { repos, link } => match outcome {
                Ok(page) => collected(PageView { items: repos + page.items, next: page.next }),
                Err(detail) => AggregationView::Failed {
                    error: ErrorView::NextPage { link, detail },
                },
            },
            _ => self,
        }
    }
}

fn collect(repos: Vec<RepositoryDescriptor>, next: Option<String>) -> (aggregation: Aggregation)
    ensures
        aggregation@ == collected(PageView { items: repos.deep_view(), next: next.deep_view() }),
{
    match next {
        Some(link) => Aggregation::Pending { repos, link },
        None => Aggregation::Complete { repos },
    }
}

/// Starts the aggregation of a listing from its first page.
pub fn fetch_all_repo_pages(first_page: ListingPage) -> (aggregation: Aggregation)
    ensures
        aggregation@ == collected(first_page@),
{
    let ListingPage { items, next } = first_page;
    collect(items, next)
}

impl Aggregation {
    /// Takes in the outcome of the request for the pending link: the page
    /// that came, or the description of what went wrong.
    pub fn resume(self, outcome: Result<ListingPage, String>) -> (aggregation: Aggregation)
        ensures
            aggregation@ == self@.resume(fetched(outcome)),
    {
        match self {
            Aggregation::Pending { repos, link } => match outcome {
                Ok(page) => {
                    let ghost before = repos.deep_view();
                    let ListingPage { items, next } = page;
                    let mut repos = repos;
                    let mut items = items;
                    let ghost added = items.deep_view();
                    repos.append(&mut items);
                    assert(repos.deep_view() =~= before + added);
                    collect(repos, next)
                },
                Err(detail) => Aggregation::Failed { error: SyncError::NextPage { link, detail } },
            },
            Aggregation::Complete { repos } => Aggregation::Complete { repos },
            Aggregation::Failed { error } => Aggregation::Failed { error },
        }
    }
}

/// The entries of `pages`, page after page.
pub open spec fn concatenated(pages: Seq<PageView>) -> Seq<RepositoryView>
    decreases pages.len(),
{
    if pages.len() == 0 {
        Seq::empty()
    } else {
        concatenated(pages.drop_last()) + pages.last().items
    }
}

/// The aggregation that `state` becomes when `pages` arrive in this order,
/// each in answer to one request.
pub open spec fn delivered(state: AggregationView, pages: Seq<PageView>) -> AggregationView
    decreases pages.len(),
{
    if pages.len() == 0 {
        state
    } else {
        delivered(state, pages.drop_last()).resume(Ok(pages.last()))
    }
}

/// Whether `pages` is one listing cut into pages: there is a first page,
/// every page but the last carries a link, and the last carries none.
pub open spec fn linked(pages: Seq<PageView>) -> bool {
    &&& pages.len() >= 1
    &&& forall|i: int| 0 <= i < pages.len() - 1 ==> (#[trigger] pages[i]).next is Some
    &&& pages.last().next is None
}

/// Pages are taken in as they come: once the first `count` pages of a
/// listing have arrived, the aggregation stands where it would stand had
/// their entries come as one page with the link of the last of them. So
/// while that page has a link the aggregation is pending on exactly that
/// link.
pub proof fn lemma_pages_in_order(pages: Seq<PageView>, count: int)
    requires
        1 <= count <= pages.len(),
        forall|i: int| 0 <= i < count - 1 ==> (#[trigger] pages[i]).next is Some,
    ensures
        delivered(collected(pages[0]), pages.subrange(1, count)) == collected(
            PageView { items: concatenated(pages.take(count)), next: pages[count - 1].next },
        ),
    decreases count,
{
    if count == 1 {
        assert(pages.take(1).drop_last() =~= Seq::<PageView>::empty());
        assert(concatenated(Seq::<PageView>::empty()) =~= Seq::<RepositoryView>::empty());
        assert(concatenated(pages.take(1)) =~= pages[0].items);
        assert(pages.subrange(1, 1) =~= Seq::<PageView>::empty());
    } else {
        lemma_pages_in_order(pages, count - 1);
        assert(pages.subrange(1, count).drop_last() =~= pages.subrange(1, count - 1));
        assert(pages.take(count).drop_last() =~= pages.take(count - 1));
        assert(pages[count - 2].next is Some);
    }
}

/// Pagination equivalence: a listing that arrives cut into pages, each but
/// the last with a link, aggregates to its entries in their order, page
/// after page; and so does the same listing when it arrives as one page.
pub proof fn lemma_pagination_equivalence(pages: Seq<PageView>)
    requires
        linked(pages),
    ensures
        delivered(collected(pages[0]), pages.skip(1)) == (AggregationView::Complete {
            repos: concatenated(pages),
        }),
        collected(PageView { items: concatenated(pages), next: None }) == (
        AggregationView::Complete { repos: concatenated(pages) }),
{
    lemma_pages_in_order(pages, pages.len() as int);
    assert(pages.subrange(1, pages.len() as int) =~= pages.skip(1));
    assert(pages.take(pages.len() as int) =~= pages);
}

} // verus!
