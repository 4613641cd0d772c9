//! The pagination adapter: page-by-page fetching turned into one continuous,
//! lazily produced, non-restartable sequence of items.
//!
//! [`Pager`] is the execution-model-independent core: a small state object
//! holding the current page and a done flag.  It decides, one step at a
//! time, whether to yield an item, request a page fetch, or finish, and is
//! fed each fetch result as it arrives; the caller performs the fetches, so
//! the same state machine drives both blocking and cooperatively suspending
//! traversals.  Its ghost state records the fetch results consumed and the
//! items produced, and its well-formedness invariant ties the two together:
//! the items produced are exactly [`page_run`] of the consumed results.
//!
//! [`PageIterator`] is the blocking adapter: it owns a [`PageFetcher`] and
//! pulls one item per call, fetching pages as needed.
use vstd::prelude::*;

use std::collections::VecDeque;
use crate::error::BeatSaverApiError;
use crate::page::{
    Page, PageModel, chain_docs, lemma_page_run_chain, lemma_page_run_fail_stop, ok_items,
    page_run, start_model,
};

verus! {

/// What a pagination traversal does next.
pub enum PagerAction<T> {
    /// The front item of the current page.
    Yield(T),
    /// The traversal needs the page with this index fetched.
    Fetch(usize),
    /// The traversal has ended.
    Done,
}

/// Cursor state of one pagination traversal.
///
/// Owned exclusively by one traversal; holds no shared state.
pub struct Pager<T> {
    curr: Page<T>,
    done: bool,
    start: Ghost<PageModel<T>>,
    feeds: Ghost<Seq<Result<PageModel<T>, BeatSaverApiError>>>,
    emitted: Ghost<Seq<Result<T, BeatSaverApiError>>>,
}

impl<T> Pager<T> {
    /// The traversal's starting state.
    pub closed spec fn start(&self) -> PageModel<T> {
        self.start@
    }

    /// The fetch results consumed so far, in order.
    pub closed spec fn feeds(&self) -> Seq<Result<PageModel<T>, BeatSaverApiError>> {
        self.feeds@
    }

    /// The items produced so far, in order.
    pub closed spec fn emitted(&self) -> Seq<Result<T, BeatSaverApiError>> {
        self.emitted@
    }

    /// Whether the traversal has ended.
    pub closed spec fn is_done(&self) -> bool {
        self.done
    }

    /// Model of the current page.
    pub closed spec fn current(&self) -> PageModel<T> {
        self.curr@
    }

    /// Well-formedness: however the traversal is driven from here on, the
    /// whole item sequence equals the items already produced followed by the
    /// run of the current page.
    pub closed spec fn wf(&self) -> bool {
        forall|fs: Seq<Result<PageModel<T>, BeatSaverApiError>>|
            #[trigger] page_run(self.start@, self.feeds@ + fs) == self.emitted@ + (
                if self.done {
                    Seq::<Result<T, BeatSaverApiError>>::empty()
                } else {
                    page_run(self.curr@, fs)
                }
            )
    }

    /// Starts a traversal that will first fetch the page with index `start`.
    pub fn begin(start: usize) -> (p: Pager<T>)
        ensures
            p.wf(),
            p.start() == start_model::<T>(start),
            p.feeds() == Seq::<Result<PageModel<T>, BeatSaverApiError>>::empty(),
            p.emitted() == Seq::<Result<T, BeatSaverApiError>>::empty(),
            !p.is_done(),
            p.current() == start_model::<T>(start),
    {
        let curr = Page {
            docs: VecDeque::new(),
            total_docs: 0,
            last_page: 0,
            prev_page: None,
            next_page: Some(start),
        };
        let p = Pager {
            curr,
            done: false,
            start: Ghost(start_model(start)),
            feeds: Ghost(Seq::empty()),
            emitted: Ghost(Seq::empty()),
        };
        proof {
            assert(p.curr@ =~= start_model::<T>(start));
            assert forall|fs: Seq<Result<PageModel<T>, BeatSaverApiError>>|
                #[trigger] page_run(p.start@, p.feeds@ + fs) == p.emitted@ + page_run(
                    p.curr@,
                    fs,
                ) by {
                assert(p.feeds@ + fs =~= fs);
                assert(p.emitted@ + page_run(p.curr@, fs) =~= page_run(p.curr@, fs));
            }
        }
        p
    }

    /// Takes one decision: yield the front item of the current page, ask for
    /// the next page, or finish.  Asking for a page changes nothing; the
    /// answer is delivered through [`Pager::feed_page`] or
    /// [`Pager::feed_error`].
    pub fn step(&mut self) -> (r: PagerAction<T>)
        requires
            old(self).wf(),
        ensures
            final(self).wf(),
            ({
                let m = old(self).current();
                if old(self).is_done() {
                    &&& r is Done
                    &&& *final(self) == *old(self)
                } else if m.docs.len() > 0 {
                    &&& r == PagerAction::Yield(m.docs[0])
                    &&& !final(self).is_done()
                    &&& final(self).current() == (PageModel {
                        docs: m.docs.drop_first(),
                        next: m.next,
                    })
                    &&& final(self).emitted() == old(self).emitted().push(
                        Ok::<T, BeatSaverApiError>(m.docs[0]),
                    )
                    &&& final(self).feeds() == old(self).feeds()
                    &&& final(self).start() == old(self).start()
                } else if m.next is Some {
                    &&& r == PagerAction::<T>::Fetch(m.next->0)
                    &&& !final(self).is_done()
                    &&& final(self).current() == m
                    &&& final(self).emitted() == old(self).emitted()
                    &&& final(self).feeds() == old(self).feeds()
                    &&& final(self).start() == old(self).start()
                } else {
                    &&& r is Done
                    &&& final(self).is_done()
                    &&& final(self).current() == m
                    &&& final(self).emitted() == old(self).emitted()
                    &&& final(self).feeds() == old(self).feeds()
                    &&& final(self).start() == old(self).start()
                }
            }),
    {
        if self.done {
            return PagerAction::Done;
        }
        match self.curr.docs.pop_front() {
            Some(t) => {
                proof {
                    let ghost m = old(self).curr@;
                    self.emitted@ = self.emitted@.push(Ok(t));
                    assert(self.curr@.docs =~= m.docs.drop_first());
                    assert forall|fs: Seq<Result<PageModel<T>, BeatSaverApiError>>|
                        #[trigger] page_run(self.start@, self.feeds@ + fs) == self.emitted@
                            + page_run(self.curr@, fs) by {
                        assert(page_run(old(self).start@, old(self).feeds@ + fs) == old(
                            self,
                        ).emitted@ + page_run(m, fs));
                        assert(page_run(m, fs) == seq![Ok::<T, BeatSaverApiError>(m.docs[0])]
                            + page_run(PageModel { docs: m.docs.drop_first(), next: m.next }, fs));
                        assert(self.curr@ =~= (PageModel {
                            docs: m.docs.drop_first(),
                            next: m.next,
                        }));
                        assert(old(self).emitted@ + (seq![Ok::<T, BeatSaverApiError>(m.docs[0])]
                            + page_run(self.curr@, fs)) =~= self.emitted@ + page_run(
                            self.curr@,
                            fs,
                        ));
                    }
                }
                PagerAction::Yield(t)
            },
            None => {
                match self.curr.next_page {
                    Some(n) => PagerAction::Fetch(n),
                    None => {
                        self.done = true;
                        proof {
                            let ghost m = old(self).curr@;
                            assert forall|fs: Seq<Result<PageModel<T>, BeatSaverApiError>>|
                                #[trigger] page_run(self.start@, self.feeds@ + fs)
                                    == self.emitted@ + Seq::<Result<T, BeatSaverApiError>>::empty()
                                by {
                                assert(page_run(old(self).start@, old(self).feeds@ + fs) == old(
                                    self,
                                ).emitted@ + page_run(m, fs));
                                assert(page_run(m, fs) =~= Seq::<
                                    Result<T, BeatSaverApiError>,
                                >::empty());
                                assert(self.emitted@ + Seq::<
                                    Result<T, BeatSaverApiError>,
                                >::empty() =~= self.emitted@);
                            }
                        }
                        PagerAction::Done
                    },
                }
            },
        }
    }

    /// True when the traversal is waiting for a page to be fetched: the
    /// current page is drained and declares a next page.
    pub fn needs_page(&self) -> (b: bool)
        ensures
            b == (!self.is_done() && self.current().docs.len() == 0 && self.current().next
                is Some),
    {
        !self.done && self.curr.docs.len() == 0 && self.curr.next_page.is_some()
    }

    /// Delivers a successfully fetched page; it becomes the current page.
    pub fn feed_page(&mut self, p: Page<T>)
        requires
            old(self).wf(),
            !old(self).is_done(),
            old(self).current().docs.len() == 0,
            old(self).current().next is Some,
        ensures
            final(self).wf(),
            final(self).start() == old(self).start(),
            !final(self).is_done(),
            final(self).current() == p@,
            final(self).feeds() == old(self).feeds().push(
                Ok::<PageModel<T>, BeatSaverApiError>(p@),
            ),
            final(self).emitted() == old(self).emitted(),
    {
        proof {
            self.feeds@ = self.feeds@.push(Ok(p@));
        }
        self.curr = p;
        proof {
            let ghost m = old(self).curr@;
            assert forall|fs: Seq<Result<PageModel<T>, BeatSaverApiError>>|
                #[trigger] page_run(self.start@, self.feeds@ + fs) == self.emitted@ + page_run(
                    self.curr@,
                    fs,
                ) by {
                let ext = seq![Ok::<PageModel<T>, BeatSaverApiError>(self.curr@)] + fs;
                assert(self.feeds@ + fs =~= old(self).feeds@ + ext);
                assert(page_run(old(self).start@, old(self).feeds@ + ext) == old(self).emitted@
                    + page_run(m, ext));
                assert(page_run(m, ext) == page_run(ext[0]->Ok_0, ext.drop_first()));
                assert(ext.drop_first() =~= fs);
            }
        }
    }

    /// Delivers a failed fetch: the error becomes the final item of the
    /// traversal and the traversal ends.  No further fetch will be asked
    /// for: every later [`Pager::step`] answers `Done`.
    pub fn feed_error(&mut self, e: &BeatSaverApiError)
        requires
            old(self).wf(),
            !old(self).is_done(),
            old(self).current().docs.len() == 0,
            old(self).current().next is Some,
        ensures
            final(self).wf(),
            final(self).start() == old(self).start(),
            final(self).is_done(),
            final(self).feeds() == old(self).feeds().push(
                Err::<PageModel<T>, BeatSaverApiError>(*e),
            ),
            final(self).emitted() == old(self).emitted().push(Err::<T, BeatSaverApiError>(*e)),
    {
        proof {
            self.feeds@ = self.feeds@.push(Err(*e));
            self.emitted@ = self.emitted@.push(Err(*e));
        }
        self.done = true;
        proof {
            let ghost m = old(self).curr@;
            assert forall|fs: Seq<Result<PageModel<T>, BeatSaverApiError>>|
                #[trigger] page_run(self.start@, self.feeds@ + fs) == self.emitted@ + Seq::<
                    Result<T, BeatSaverApiError>,
                >::empty() by {
                let ext = seq![Err::<PageModel<T>, BeatSaverApiError>(*e)] + fs;
                assert(self.feeds@ + fs =~= old(self).feeds@ + ext);
                assert(page_run(old(self).start@, old(self).feeds@ + ext) == old(self).emitted@
                    + page_run(m, ext));
                assert(page_run(m, ext) == seq![Err::<T, BeatSaverApiError>(*e)]);
                assert(old(self).emitted@ + seq![Err::<T, BeatSaverApiError>(*e)] =~= self.emitted@
                    + Seq::<Result<T, BeatSaverApiError>>::empty());
            }
        }
    }

    /// Once the traversal has ended, the items it produced are exactly the
    /// run of its starting page over the fetch results it consumed.
    pub proof fn lemma_done_run(&self)
        requires
            self.wf(),
            self.is_done(),
        ensures
            self.emitted() == page_run(self.start(), self.feeds()),
    {
        let fs = Seq::<Result<PageModel<T>, BeatSaverApiError>>::empty();
        assert(page_run(self.start@, self.feeds@ + fs) == self.emitted@ + Seq::<
            Result<T, BeatSaverApiError>,
        >::empty());
        assert(self.feeds@ + fs =~= self.feeds@);
        assert(self.emitted@ + Seq::<Result<T, BeatSaverApiError>>::empty() =~= self.emitted@);
    }
}

/// The abstract "fetch one page" capability the blocking adapter is built
/// over.  Implementations wrap a concrete request-decode round trip.
pub trait PageFetcher<T> {
    /// Fetches the page with the given index.
    fn fetch_page(&mut self, page: usize) -> Result<Page<T>, BeatSaverApiError>;
}

/// Blocking traversal over a paginated listing: a [`Pager`] joined to the
/// [`PageFetcher`] that answers its page requests.
pub struct PageIterator<T, F: PageFetcher<T>> {
    pager: Pager<T>,
    fetcher: F,
}

impl<T, F: PageFetcher<T>> PageIterator<T, F> {
    /// Well-formedness of the underlying pager.
    pub closed spec fn wf(&self) -> bool {
        self.pager.wf()
    }

    /// The traversal's starting state.
    pub closed spec fn start(&self) -> PageModel<T> {
        self.pager.start()
    }

    /// The fetch results consumed so far.
    pub closed spec fn feeds(&self) -> Seq<Result<PageModel<T>, BeatSaverApiError>> {
        self.pager.feeds()
    }

    /// The items produced so far.
    pub closed spec fn emitted(&self) -> Seq<Result<T, BeatSaverApiError>> {
        self.pager.emitted()
    }

    /// Whether the traversal has ended.
    pub closed spec fn is_done(&self) -> bool {
        self.pager.is_done()
    }

    /// Model of the current page.
    pub closed spec fn current(&self) -> PageModel<T> {
        self.pager.current()
    }

    /// Starts a traversal at page `start`, fetching through `fetcher`.
    pub fn new(fetcher: F, start: usize) -> (it: PageIterator<T, F>)
        ensures
            it.wf(),
            it.start() == start_model::<T>(start),
            it.feeds() == Seq::<Result<PageModel<T>, BeatSaverApiError>>::empty(),
            it.emitted() == Seq::<Result<T, BeatSaverApiError>>::empty(),
            !it.is_done(),
    {
        PageIterator { pager: Pager::begin(start), fetcher }
    }

    /// Produces the next element of the sequence: the next item, the error
    /// that ended the traversal, or `None` once the sequence is over.
    ///
    /// Fetching happens only here, and only when the current page is
    /// drained; pages with empty item lists are skipped transparently, an
    /// error ends the traversal for good, and a terminal page finishes it
    /// without any further fetch being consumed.  One call tolerates
    /// `usize::MAX` consecutive empty pages before it reports the traversal
    /// as failed; the bound is unreachable in practice and exists so that
    /// every call provably terminates.
    pub fn next(&mut self) -> (r: Option<Result<T, BeatSaverApiError>>)
        requires
            old(self).wf(),
        ensures
            final(self).wf(),
            final(self).start() == old(self).start(),
            old(self).feeds().is_prefix_of(final(self).feeds()),
            match r {
                Some(item) => {
                    &&& final(self).emitted() == old(self).emitted().push(item)
                    &&& (item is Err ==> final(self).is_done())
                },
                None => {
                    &&& final(self).emitted() == old(self).emitted()
                    &&& final(self).is_done()
                },
            },
            old(self).is_done() ==> r is None && final(self).feeds() == old(self).feeds(),
            !old(self).is_done() && old(self).current().docs.len() > 0 ==> ({
                &&& r == Some(Ok::<T, BeatSaverApiError>(old(self).current().docs[0]))
                &&& final(self).feeds() == old(self).feeds()
                &&& final(self).current() == (PageModel {
                    docs: old(self).current().docs.drop_first(),
                    next: old(self).current().next,
                })
            }),
            !old(self).is_done() && old(self).current().next is None ==> final(self).feeds()
                == old(self).feeds(),
            final(self).is_done() ==> final(self).emitted() == page_run(
                final(self).start(),
                final(self).feeds(),
            ),
    {
        let ghost orig = *self;
        let mut fuel: usize = usize::MAX;
        #[verifier::loop_isolation(false)]
        loop
            invariant
                self.pager.wf(),
                self.pager.start() == orig.pager.start(),
                self.pager.emitted() == orig.pager.emitted(),
                orig.pager.feeds().is_prefix_of(self.pager.feeds()),
                (orig.pager.is_done() || orig.pager.current().next is None
                    || orig.pager.current().docs.len() > 0) ==> {
                    &&& self.pager.is_done() == orig.pager.is_done()
                    &&& self.pager.current() == orig.pager.current()
                    &&& self.pager.feeds() == orig.pager.feeds()
                },
                !self.pager.is_done() || orig.pager.is_done(),
            decreases fuel,
        {
            match self.pager.step() {
                PagerAction::Yield(t) => {
                    return Some(Ok(t));
                },
                PagerAction::Done => {
                    proof {
                        self.pager.lemma_done_run();
                    }
                    return None;
                },
                PagerAction::Fetch(n) => {
                    let outcome = if fuel == 0 {
                        Err(BeatSaverApiError::RequestError(
                            String::from_str("page fetch limit reached"),
                        ))
                    } else {
                        fuel = fuel - 1;
                        self.fetcher.fetch_page(n)
                    };
                    match outcome {
                        Ok(p) => {
                            let ghost before = self.pager.feeds();
                            self.pager.feed_page(p);
                            proof {
                                assert(before.is_prefix_of(self.pager.feeds()));
                                assert(orig.pager.feeds().is_prefix_of(self.pager.feeds()));
                            }
                        },
                        Err(e) => {
                            self.pager.feed_error(&e);
                            proof {
                                self.pager.lemma_done_run();
                                assert(orig.pager.feeds().is_prefix_of(self.pager.feeds()));
                            }
                            return Some(Err(e));
                        },
                    }
                },
            }
        }
    }

    /// A finished traversal whose fetches all succeeded, ending on a
    /// terminal page, produced exactly the concatenation of the fetched
    /// pages' items, in order: pages with empty item lists left no trace.
    pub proof fn lemma_chain_result(&self)
        requires
            self.wf(),
            self.is_done(),
            self.start().docs.len() == 0,
            self.start().next is Some,
            self.feeds().len() > 0,
            forall|i: int| 0 <= i < self.feeds().len() ==> #[trigger] self.feeds()[i] is Ok,
            forall|i: int|
                0 <= i < self.feeds().len() - 1 ==> (#[trigger] self.feeds()[i])->Ok_0.next
                    is Some,
            self.feeds().last()->Ok_0.next is None,
        ensures
            self.emitted() == ok_items(chain_docs(self.feeds())),
    {
        self.pager.lemma_done_run();
        lemma_page_run_chain(self.start(), self.feeds());
    }

    /// A finished traversal whose last fetch failed produced exactly the
    /// items of the pages before it followed by that one error, and nothing
    /// after it.
    pub proof fn lemma_fail_stop_result(&self)
        requires
            self.wf(),
            self.is_done(),
            self.start().docs.len() == 0,
            self.start().next is Some,
            self.feeds().len() > 0,
            self.feeds().last() is Err,
            forall|i: int| 0 <= i < self.feeds().len() - 1 ==> #[trigger] self.feeds()[i] is Ok,
            forall|i: int|
                0 <= i < self.feeds().len() - 1 ==> (#[trigger] self.feeds()[i])->Ok_0.next
                    is Some,
        ensures
            self.emitted() == ok_items(chain_docs(self.feeds().drop_last())) + seq![
                Err::<T, BeatSaverApiError>(self.feeds().last()->Err_0),
            ],
    {
        self.pager.lemma_done_run();
        lemma_page_run_fail_stop(self.start(), self.feeds());
    }
}

} // verus!
