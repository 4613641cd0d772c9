//! Pages of a paginated listing, and the mathematical model of draining a
//! chain of pages into one continuous item sequence.
//!
//! [`page_run`] defines what sequence of items a pagination traversal
//! produces from a starting page and the succession of fetch results it is
//! fed.  The proof functions at the end of the module state the laws of that
//! traversal: a terminal page drains with no further fetch, a chain of pages
//! concatenates (empty intermediate pages vanish), and a failed fetch ends
//! the sequence with exactly one trailing error.
use vstd::prelude::*;

use std::collections::VecDeque;
use crate::error::BeatSaverApiError;

verus! {

/// Page metadata for APIs that paginate results.
///
/// One fetched batch of a listing plus its navigation metadata.  `next_page`
/// is `None` exactly on the terminal page, `prev_page` is `None` exactly on
/// the first page.
#[derive(Clone)]
pub struct Page<T> {
    /// Documents in the page, drained front to back.
    pub docs: VecDeque<T>,
    /// Total number of documents in the listing.
    pub total_docs: usize,
    /// Index of the last page available.
    pub last_page: usize,
    /// Index of the previous page, absent on the first page.
    pub prev_page: Option<usize>,
    /// Index of the next page, absent on the terminal page.
    pub next_page: Option<usize>,
}

/// Mathematical content of a page: its items and its next-page link.
#[verifier::ext_equal]
pub ghost struct PageModel<T> {
    /// The items of the page, in server order.
    pub docs: Seq<T>,
    /// The next-page index, absent on the terminal page.
    pub next: Option<usize>,
}

impl<T> View for Page<T> {
    type V = PageModel<T>;

    open spec fn view(&self) -> PageModel<T> {
        PageModel { docs: self.docs@, next: self.next_page }
    }
}

/// The items of a page lifted to successful traversal elements.
pub open spec fn ok_items<T>(docs: Seq<T>) -> Seq<Result<T, BeatSaverApiError>> {
    docs.map(|i: int, t: T| Ok(t))
}

/// The state a traversal starts from: no items yet, about to fetch `start`.
pub open spec fn start_model<T>(start: usize) -> PageModel<T> {
    PageModel { docs: Seq::empty(), next: Some(start) }
}

/// The item sequence produced by draining pages, given the current page `m`
/// and the succession `feeds` of fetch results the traversal will receive.
///
/// Items of the current page come first, in order.  When the page is
/// exhausted, a terminal page ends the sequence; otherwise the next fetch
/// result is consumed: a fetched page continues the traversal, a fetch error
/// becomes the single final element.  A traversal that stops being driven
/// (no feeds remain) simply ends.
pub open spec fn page_run<T>(
    m: PageModel<T>,
    feeds: Seq<Result<PageModel<T>, BeatSaverApiError>>,
) -> Seq<Result<T, BeatSaverApiError>>
    decreases feeds.len(), m.docs.len(),
{
    if m.docs.len() > 0 {
        seq![Ok(m.docs[0])] + page_run(PageModel { docs: m.docs.drop_first(), next: m.next }, feeds)
    } else if m.next is None {
        Seq::empty()
    } else if feeds.len() == 0 {
        Seq::empty()
    } else {
        match feeds[0] {
            Ok(p) => page_run(p, feeds.drop_first()),
            Err(e) => seq![Err(e)],
        }
    }
}

/// Draining splits: a run yields the current page's items first, then
/// whatever the rest of the traversal yields.
pub proof fn lemma_page_run_drain<T>(
    m: PageModel<T>,
    feeds: Seq<Result<PageModel<T>, BeatSaverApiError>>,
)
    ensures
        page_run(m, feeds) == ok_items(m.docs) + page_run(
            PageModel { docs: Seq::empty(), next: m.next },
            feeds,
        ),
    decreases m.docs.len(),
{
    if m.docs.len() == 0 {
        assert(m =~= (PageModel { docs: Seq::<T>::empty(), next: m.next }));
        assert(ok_items(m.docs) + page_run(m, feeds) =~= page_run(m, feeds));
    } else {
        let rest = PageModel { docs: m.docs.drop_first(), next: m.next };
        lemma_page_run_drain(rest, feeds);
        assert(page_run(m, feeds) == seq![Ok::<T, BeatSaverApiError>(m.docs[0])] + page_run(
            rest,
            feeds,
        ));
        assert(ok_items(m.docs) =~= seq![Ok::<T, BeatSaverApiError>(m.docs[0])] + ok_items(
            m.docs.drop_first(),
        ));
        assert(page_run(m, feeds) =~= ok_items(m.docs) + page_run(
            PageModel { docs: Seq::empty(), next: m.next },
            feeds,
        ));
    }
}

/// A terminal page drains and nothing follows: whatever fetch results might
/// be offered, none is consumed and the run is exactly the page's own items.
pub proof fn lemma_terminal_page_run<T>(
    m: PageModel<T>,
    feeds: Seq<Result<PageModel<T>, BeatSaverApiError>>,
)
    requires
        m.next is None,
    ensures
        page_run(m, feeds) == ok_items(m.docs),
{
    lemma_page_run_drain(m, feeds);
    assert(page_run(PageModel { docs: Seq::<T>::empty(), next: m.next }, feeds)
        =~= Seq::<Result<T, BeatSaverApiError>>::empty());
    assert(ok_items(m.docs) + Seq::<Result<T, BeatSaverApiError>>::empty() =~= ok_items(m.docs));
}

/// Concatenation of the items of a succession of successfully fetched pages.
pub open spec fn chain_docs<T>(feeds: Seq<Result<PageModel<T>, BeatSaverApiError>>) -> Seq<T>
    decreases feeds.len(),
{
    if feeds.len() == 0 {
        Seq::empty()
    } else if feeds[0] is Ok {
        feeds[0]->Ok_0.docs + chain_docs(feeds.drop_first())
    } else {
        Seq::empty()
    }
}

/// A chain of fetched pages produces exactly the concatenation of their
/// items: pages with empty item lists contribute nothing and cause neither
/// errors nor early termination.
pub proof fn lemma_page_run_chain<T>(
    m: PageModel<T>,
    feeds: Seq<Result<PageModel<T>, BeatSaverApiError>>,
)
    requires
        m.docs.len() == 0,
        m.next is Some,
        feeds.len() > 0,
        forall|i: int| 0 <= i < feeds.len() ==> #[trigger] feeds[i] is Ok,
        forall|i: int|
            0 <= i < feeds.len() - 1 ==> (#[trigger] feeds[i])->Ok_0.next is Some,
        feeds.last()->Ok_0.next is None,
    ensures
        page_run(m, feeds) == ok_items(chain_docs(feeds)),
    decreases feeds.len(),
{
    let p0 = feeds[0]->Ok_0;
    assert(page_run(m, feeds) == page_run(p0, feeds.drop_first()));
    lemma_page_run_drain(p0, feeds.drop_first());
    let after = PageModel { docs: Seq::<T>::empty(), next: p0.next };
    if feeds.len() == 1 {
        assert(p0.next is None);
        assert(page_run(after, feeds.drop_first()) =~= Seq::<Result<T, BeatSaverApiError>>::empty());
        assert(chain_docs(feeds.drop_first()) =~= Seq::<T>::empty());
        assert(chain_docs(feeds) =~= p0.docs);
        assert(page_run(m, feeds) =~= ok_items(p0.docs));
    } else {
        assert(p0.next is Some);
        let rest = feeds.drop_first();
        assert(rest.last() == feeds.last());
        lemma_page_run_chain(after, rest);
        assert(page_run(m, feeds) == ok_items(p0.docs) + ok_items(chain_docs(rest)));
        assert(chain_docs(feeds) == p0.docs + chain_docs(rest));
        assert(ok_items(p0.docs + chain_docs(rest)) =~= ok_items(p0.docs) + ok_items(
            chain_docs(rest),
        ));
    }
}

/// Fail-stop: when a fetch fails after a succession of fetched pages, the
/// run is exactly the items of those pages followed by the single error, and
/// nothing comes after it.
pub proof fn lemma_page_run_fail_stop<T>(
    m: PageModel<T>,
    feeds: Seq<Result<PageModel<T>, BeatSaverApiError>>,
)
    requires
        m.docs.len() == 0,
        m.next is Some,
        feeds.len() > 0,
        feeds.last() is Err,
        forall|i: int| 0 <= i < feeds.len() - 1 ==> #[trigger] feeds[i] is Ok,
        forall|i: int|
            0 <= i < feeds.len() - 1 ==> (#[trigger] feeds[i])->Ok_0.next is Some,
    ensures
        page_run(m, feeds) == ok_items(chain_docs(feeds.drop_last())) + seq![
            Err::<T, BeatSaverApiError>(feeds.last()->Err_0),
        ],
    decreases feeds.len(),
{
    if feeds.len() == 1 {
        let e = feeds[0]->Err_0;
        assert(page_run(m, feeds) == seq![Err::<T, BeatSaverApiError>(e)]);
        assert(chain_docs(feeds.drop_last()) =~= Seq::<T>::empty());
        assert(ok_items(Seq::<T>::empty()) =~= Seq::<Result<T, BeatSaverApiError>>::empty());
        assert(ok_items(chain_docs(feeds.drop_last())) + seq![Err::<T, BeatSaverApiError>(e)]
            =~= seq![Err::<T, BeatSaverApiError>(e)]);
    } else {
        let p0 = feeds[0]->Ok_0;
        assert(page_run(m, feeds) == page_run(p0, feeds.drop_first()));
        lemma_page_run_drain(p0, feeds.drop_first());
        let after = PageModel { docs: Seq::<T>::empty(), next: p0.next };
        let rest = feeds.drop_first();
        assert(rest.last() == feeds.last());
        lemma_page_run_fail_stop(after, rest);
        assert(page_run(m, feeds) == ok_items(p0.docs) + (ok_items(chain_docs(rest.drop_last()))
            + seq![Err::<T, BeatSaverApiError>(feeds.last()->Err_0)]));
        assert(feeds.drop_last().drop_first() =~= rest.drop_last());
        assert(feeds.drop_last()[0] == feeds[0]);
        assert(chain_docs(feeds.drop_last()) == p0.docs + chain_docs(rest.drop_last()));
        assert(ok_items(p0.docs + chain_docs(rest.drop_last())) =~= ok_items(p0.docs) + ok_items(
            chain_docs(rest.drop_last()),
        ));
        assert(ok_items(p0.docs) + (ok_items(chain_docs(rest.drop_last())) + seq![
            Err::<T, BeatSaverApiError>(feeds.last()->Err_0),
        ]) =~= ok_items(chain_docs(feeds.drop_last())) + seq![
            Err::<T, BeatSaverApiError>(feeds.last()->Err_0),
        ]);
    }
}

} // verus!
