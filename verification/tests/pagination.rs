use beatsaver_rs::error::BeatSaverApiError;
use beatsaver_rs::page::Page;
use beatsaver_rs::pagination::{PageFetcher, PageIterator};
use std::cell::RefCell;
use std::collections::VecDeque;
use std::rc::Rc;

fn page(docs: &[u32], next_page: Option<usize>) -> Page<u32> {
    Page {
        docs: docs.iter().copied().collect::<VecDeque<u32>>(),
        total_docs: docs.len(),
        last_page: 0,
        prev_page: None,
        next_page,
    }
}

/// Hands out a fixed script of fetch results and records every request in a
/// log the test keeps a handle to.
struct ScriptedFetcher {
    script: Vec<Result<Page<u32>, BeatSaverApiError>>,
    requested: Rc<RefCell<Vec<usize>>>,
}

impl ScriptedFetcher {
    fn new(script: Vec<Result<Page<u32>, BeatSaverApiError>>) -> ScriptedFetcher {
        ScriptedFetcher { script, requested: Rc::new(RefCell::new(Vec::new())) }
    }

    fn log(&self) -> Rc<RefCell<Vec<usize>>> {
        Rc::clone(&self.requested)
    }
}

impl PageFetcher<u32> for ScriptedFetcher {
    fn fetch_page(&mut self, page: usize) -> Result<Page<u32>, BeatSaverApiError> {
        assert!(!self.script.is_empty(), "fetch invoked beyond the scripted responses");
        self.requested.borrow_mut().push(page);
        self.script.remove(0)
    }
}

fn drain(it: &mut PageIterator<u32, ScriptedFetcher>) -> Vec<Result<u32, BeatSaverApiError>> {
    let mut out = Vec::new();
    while let Some(item) = it.next() {
        out.push(item);
    }
    out
}

#[test]
fn terminal_page_drains_with_no_further_fetch() {
    let fetcher = ScriptedFetcher::new(vec![Ok(page(&[1, 2], None))]);
    let log = fetcher.log();
    let mut it = PageIterator::new(fetcher, 0);
    assert_eq!(it.next(), Some(Ok(1)));
    assert_eq!(it.next(), Some(Ok(2)));
    assert_eq!(it.next(), None);
    assert_eq!(it.next(), None);
    assert_eq!(*log.borrow(), vec![0]);
}

#[test]
fn trailing_empty_page_concatenates_cleanly() {
    let fetcher = ScriptedFetcher::new(vec![Ok(page(&[10, 20], Some(1))), Ok(page(&[], None))]);
    let mut it = PageIterator::new(fetcher, 0);
    assert_eq!(drain(&mut it), vec![Ok(10), Ok(20)]);
}

#[test]
fn empty_intermediate_pages_are_skipped_transparently() {
    let fetcher = ScriptedFetcher::new(vec![
        Ok(page(&[1, 2], Some(1))),
        Ok(page(&[], Some(2))),
        Ok(page(&[], Some(3))),
        Ok(page(&[7], None)),
    ]);
    let mut it = PageIterator::new(fetcher, 0);
    assert_eq!(drain(&mut it), vec![Ok(1), Ok(2), Ok(7)]);
}

#[test]
fn fetch_error_is_final_element_and_stops_fetching() {
    let boom = BeatSaverApiError::RequestError(String::from("boom"));
    let fetcher = ScriptedFetcher::new(vec![Ok(page(&[3, 4], Some(2))), Err(boom.clone())]);
    let log = fetcher.log();
    let mut it = PageIterator::new(fetcher, 1);
    assert_eq!(it.next(), Some(Ok(3)));
    assert_eq!(it.next(), Some(Ok(4)));
    assert_eq!(it.next(), Some(Err(boom)));
    assert_eq!(it.next(), None);
    assert_eq!(it.next(), None);
    assert_eq!(*log.borrow(), vec![1, 2]);
}

#[test]
fn immediate_fetch_error_yields_single_error() {
    let boom = BeatSaverApiError::RequestError(String::from("down"));
    let fetcher = ScriptedFetcher::new(vec![Err(boom.clone())]);
    let mut it = PageIterator::new(fetcher, 0);
    assert_eq!(it.next(), Some(Err(boom)));
    assert_eq!(it.next(), None);
}

#[test]
fn traversal_requests_pages_in_declared_order() {
    let fetcher = ScriptedFetcher::new(vec![
        Ok(page(&[1], Some(7))),
        Ok(page(&[2], Some(9))),
        Ok(page(&[3], None)),
    ]);
    let log = fetcher.log();
    let mut it = PageIterator::new(fetcher, 5);
    assert_eq!(drain(&mut it), vec![Ok(1), Ok(2), Ok(3)]);
    assert_eq!(*log.borrow(), vec![5, 7, 9]);
}
