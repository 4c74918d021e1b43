//! Walking a paginated listing page by page.
//!
//! A [`PageStream`] decides which page to ask for next and when the walk is
//! over; the caller runs the query and hands back what it returned. The walk
//! starts at page 0, goes on while the listing reports further pages, and
//! ends without an error when the listing says that the page asked for does
//! not exist: a listing may shrink while it is walked.

use vstd::prelude::*;
use crate::error::Error;
use crate::pagination::{Page, PageParams};

verus! {

/// A walk over the pages of a listing.
#[derive(Debug)]
pub struct PageStream {
    page_size: u64,
    next_page_id: u64,
    finished: bool,
}

/// Starts a walk over a listing in pages of `page_size` items.
pub fn iterate_pages(page_size: u64) -> (stream: PageStream)
    ensures
        stream.page_size() == page_size,
        stream.next_page_id() == 0,
        !stream.is_finished(),
{
    PageStream { page_size, next_page_id: 0, finished: false }
}

/// Whether a walk that got a page counting `page_count` pages in answer to
/// its request for page `page_id` has reached the last page.
pub open spec fn is_last_page(page_id: u64, page_count: u64) -> bool {
    page_id + 1 >= page_count
}

impl PageStream {
    /// The size of the pages that the walk asks for.
    pub closed spec fn page_size(self) -> u64 {
        self.page_size
    }

    /// The page that the walk asks for next, while it is not over.
    pub closed spec fn next_page_id(self) -> u64 {
        self.next_page_id
    }

    /// Whether the walk is over.
    pub closed spec fn is_finished(self) -> bool {
        self.finished
    }

    /// A bound on the number of pages that the walk may still ask for.
    pub closed spec fn remaining(self) -> nat {
        if self.finished {
            0
        } else {
            (u64::MAX - self.next_page_id + 1) as nat
        }
    }

    /// The request to make next, or `None` once the walk is over.
    pub fn next_params(&self) -> (params: Option<PageParams>)
        ensures
            params == if self.is_finished() {
                None
            } else {
                Some(PageParams { page_id: Some(self.next_page_id()), page_size: self.page_size() })
            },
    {
        if self.finished {
            None
        } else {
            Some(PageParams { page_id: Some(self.next_page_id), page_size: self.page_size })
        }
    }

    /// Whether the walk is over.
    pub fn finished(&self) -> (finished: bool)
        ensures
            finished == self.is_finished(),
    {
        self.finished
    }

    /// Takes the answer to the last request and returns what the walk
    /// yields for it.
    ///
    /// A page is yielded as it is; the walk then goes on to the next page
    /// unless this was the last one. The answer that the page does not exist
    /// ends the walk and yields nothing. Any other error is yielded and ends
    /// the walk. A walk that is over yields nothing and stays over.
    pub fn advance<T>(&mut self, outcome: Result<Page<T>, Error>) -> (item: Option<
        Result<Page<T>, Error>,
    >)
        ensures
            final(self).page_size() == old(self).page_size(),
            old(self).is_finished() ==> item.is_none() && *final(self) == *old(self),
            !old(self).is_finished() ==> match outcome {
                Ok(page) => {
                    &&& item == Some(Ok::<Page<T>, Error>(page))
                    &&& final(self).is_finished() == is_last_page(
                        old(self).next_page_id(),
                        page.page_count,
                    )
                    &&& !final(self).is_finished() ==> final(self).next_page_id() == old(self).next_page_id() + 1
                },
                Err(Error::PageDoesNotExist) => item.is_none() && final(self).is_finished(),
                Err(error) => item == Some(Err::<Page<T>, Error>(error)) && final(self).is_finished(),
            },
            final(self).is_finished() ==> final(self).next_page_id() == old(self).next_page_id(),
            !old(self).is_finished() ==> final(self).remaining() < old(self).remaining(),
    {
        if self.finished {
            return None;
        }
        match outcome {
            Ok(page) => {
                if page.page_count == 0 || self.next_page_id >= page.page_count - 1 {
                    self.finished = true;
                } else {
                    self.next_page_id = self.next_page_id + 1;
                }
                Some(Ok(page))
            },
            Err(Error::PageDoesNotExist) => {
                self.finished = true;
                None
            },
            Err(error) => {
                self.finished = true;
                Some(Err(error))
            },
        }
    }
}

} // verus!
