//! Cursor pagination: which slice of a listing a request asks for.

use vstd::prelude::*;
use crate::error::Error;

verus! {

/// The limits that a deployment sets on page sizes.
#[derive(Clone, Copy, Debug, PartialEq, Eq, Structural)]
pub struct PaginationConfig {
    pub max_page_size: u64,
    pub default_page_size: u64,
}

/// The page that a request asks for. Without a `page_id` it asks for the
/// last page.
#[derive(Clone, Copy, Debug, PartialEq, Eq)]
pub struct PageParams {
    pub page_id: Option<u64>,
    pub page_size: u64,
}

/// One page of a listing, with the counts of the listing it was cut from.
#[derive(Debug, PartialEq, Eq)]
pub struct Page<T> {
    pub items: Vec<T>,
    pub page_id: u64,
    pub page_size: u64,
    pub page_count: u64,
    pub total_item_count: u64,
}

/// The number of pages of `page_size` items that `total_item_count` items
/// fill, the last one possibly in part.
pub open spec fn page_count_of(total_item_count: u64, page_size: u64) -> int
    recommends
        page_size > 0,
{
    (total_item_count + page_size - 1) / (page_size as int)
}

/// The page that `params` points at in a listing of `total_page_count`
/// pages: the one named, if there is such a page; without a name the last
/// one, or page 0 of an empty listing.
pub open spec fn selected_page(params: PageParams, total_page_count: u64) -> Option<u64> {
    match params.page_id {
        Some(page_id) => if page_id < total_page_count {
            Some(page_id)
        } else {
            None
        },
        None => if total_page_count > 0 {
            Some((total_page_count - 1) as u64)
        } else {
            Some(0)
        },
    }
}

/// The limit, the offset and the page id with which to query a listing of
/// `total_page_count` pages for the page that `params` asks for.
pub open spec fn limit_offset_and_page_id(params: PageParams, total_page_count: u64) -> Result<
    (i64, i64, u64),
    Error,
> {
    if params.page_size == 0 {
        Err(Error::InvalidPagination)
    } else {
        match selected_page(params, total_page_count) {
            None => Err(Error::PageDoesNotExist),
            Some(page_id) => if page_id > i64::MAX || params.page_size > i64::MAX || page_id
                * params.page_size > i64::MAX {
                Err(Error::InvalidPagination)
            } else {
                Ok((params.page_size as i64, (page_id * params.page_size) as i64, page_id))
            },
        }
    }
}

/// The slice of a listing that a query is to return, and the number of
/// pages of the listing.
#[derive(Clone, Copy, Debug, PartialEq, Eq, Structural)]
pub struct PageWindow {
    pub limit: i64,
    pub offset: i64,
    pub page_id: u64,
    pub page_count: u64,
}

/// The window with which to query a listing of `total_item_count` items
/// for the page that `params` asks for.
pub open spec fn page_window(params: PageParams, total_item_count: u64) -> Result<
    PageWindow,
    Error,
> {
    if params.page_size == 0 {
        Err(Error::InvalidPagination)
    } else {
        let page_count = page_count_of(total_item_count, params.page_size) as u64;
        match limit_offset_and_page_id(params, page_count) {
            Ok((limit, offset, page_id)) => Ok(PageWindow { limit, offset, page_id, page_count }),
            Err(error) => Err(error),
        }
    }
}

/// The number of pages of `page_size` items that `total_item_count` items
/// fill.
pub fn count_pages(total_item_count: u64, page_size: u64) -> (count: u64)
    requires
        page_size > 0,
    ensures
        count == page_count_of(total_item_count, page_size),
        count * page_size >= total_item_count,
        total_item_count > 0 ==> (count - 1) * page_size < total_item_count,
        total_item_count == 0 ==> count == 0,
{
    let full: u64 = total_item_count / page_size;
    let rest: u64 = total_item_count % page_size;
    proof {
        lemma_page_count(total_item_count, page_size);
    }
    if rest == 0 {
        full
    } else {
        assert(full < u64::MAX) by (nonlinear_arith)
            requires
                full == total_item_count / page_size,
                rest == total_item_count % page_size,
                rest != 0,
                page_size > 0,
                total_item_count <= u64::MAX,
        {
            assert(total_item_count == page_size * (total_item_count / page_size)
                + total_item_count % page_size);
            assert(page_size * (total_item_count / page_size) >= total_item_count / page_size);
        }
        full + 1
    }
}

/// Rounding the quotient up adds one to it exactly when there is a rest.
pub proof fn lemma_page_count(total_item_count: u64, page_size: u64)
    requires
        page_size > 0,
    ensures
        total_item_count % page_size == 0 ==> page_count_of(total_item_count, page_size)
            == total_item_count / page_size,
        total_item_count % page_size != 0 ==> page_count_of(total_item_count, page_size)
            == total_item_count / page_size + 1,
        page_count_of(total_item_count, page_size) * page_size >= total_item_count,
        total_item_count > 0 ==> (page_count_of(total_item_count, page_size) - 1) * page_size
            < total_item_count,
        total_item_count == 0 ==> page_count_of(total_item_count, page_size) == 0,
{
    let t = total_item_count as int;
    let p = page_size as int;
    let q = t / p;
    let r = t % p;
    assert(t == p * q + r && 0 <= r < p) by (nonlinear_arith)
        requires
            p > 0,
            q == t / p,
            r == t % p,
    ;
    assert((t + p - 1) / p == if r == 0 {
        q
    } else {
        q + 1
    }) by (nonlinear_arith)
        requires
            p > 0,
            t == p * q + r,
            0 <= r < p,
            t >= 0,
    {
        if r == 0 {
            assert(t + p - 1 == p * q + (p - 1));
            assert((p * q + (p - 1)) / p == q);
        } else {
            assert(t + p - 1 == p * (q + 1) + (r - 1));
            assert((p * (q + 1) + (r - 1)) / p == q + 1);
        }
    }
    let c = page_count_of(total_item_count, page_size);
    assert(c * p >= t && (t > 0 ==> (c - 1) * p < t) && (t == 0 ==> c == 0))
        by (nonlinear_arith)
        requires
            p > 0,
            t == p * q + r,
            0 <= r < p,
            t >= 0,
            q >= 0,
            c == if r == 0 {
                q
            } else {
                q + 1
            },
    ;
}

impl PageParams {
    /// Whether the page size is one that `config` admits: above zero and
    /// at most its maximum.
    pub fn check(&self, config: &PaginationConfig) -> (result: Result<(), Error>)
        ensures
            result == if self.page_size == 0 || self.page_size > config.max_page_size {
                Err::<(), Error>(Error::InvalidPagination)
            } else {
                Ok::<(), Error>(())
            },
    {
        if (self.page_size == 0) || (self.page_size > config.max_page_size) {
            Err(Error::InvalidPagination)
        } else {
            Ok(())
        }
    }

    /// The limit, the offset and the page id with which to query a listing
    /// of `total_page_count` pages.
    pub fn get_limit_offset_and_page_id(&self, total_page_count: u64) -> (result: Result<
        (i64, i64, u64),
        Error,
    >)
        ensures
            result == limit_offset_and_page_id(*self, total_page_count),
    {
        if self.page_size == 0 {
            return Err(Error::InvalidPagination);
        }
        let page_id: u64 = match self.page_id {
            Some(page_id) => {
                if page_id < total_page_count {
                    page_id
                } else {
                    return Err(Error::PageDoesNotExist);
                }
            },
            None => {
                if total_page_count > 0 {
                    total_page_count - 1
                } else {
                    0
                }
            },
        };
        if page_id > i64::MAX as u64 || self.page_size > i64::MAX as u64 {
            return Err(Error::InvalidPagination);
        }
        let page_id_i64: i64 = page_id as i64;
        let limit_i64: i64 = self.page_size as i64;
        match page_id_i64.checked_mul(limit_i64) {
            Some(offset) => Ok((limit_i64, offset, page_id)),
            None => Err(Error::InvalidPagination),
        }
    }
}

impl PageParams {
    /// The page that a request asks for with `page_id` and `page_size`:
    /// without a size it asks for pages of the default size of `config`. A
    /// size that `config` does not admit is refused with
    /// `InvalidPagination`.
    pub fn from_query(page_id: Option<u64>, page_size: Option<u64>, config: &PaginationConfig)
        -> (result: Result<PageParams, Error>)
        ensures
            ({
                let size = match page_size {
                    Some(size) => size,
                    None => config.default_page_size,
                };
                result == if size == 0 || size > config.max_page_size {
                    Err::<PageParams, Error>(Error::InvalidPagination)
                } else {
                    Ok::<PageParams, Error>(PageParams { page_id, page_size: size })
                }
            }),
    {
        let params = PageParams {
            page_id,
            page_size: match page_size {
                Some(size) => size,
                None => config.default_page_size,
            },
        };
        match params.check(config) {
            Ok(_) => Ok(params),
            Err(error) => Err(error),
        }
    }

    /// The window with which to query a listing of `total_item_count`
    /// items: `InvalidPagination` where the page size is zero or a number
    /// does not fit the query, `PageDoesNotExist` where the listing has no
    /// such page.
    pub fn get_window(&self, total_item_count: u64) -> (result: Result<PageWindow, Error>)
        ensures
            result == page_window(*self, total_item_count),
    {
        if self.page_size == 0 {
            return Err(Error::InvalidPagination);
        }
        let page_count: u64 = count_pages(total_item_count, self.page_size);
        match self.get_limit_offset_and_page_id(page_count) {
            Ok((limit, offset, page_id)) => Ok(PageWindow { limit, offset, page_id, page_count }),
            Err(error) => Err(error),
        }
    }
}

impl<T> Page<T> {
    /// The page with each item replaced by what `func` makes of it.
    pub fn map<F, Y>(&self, func: F) -> (mapped: Page<Y>) where F: Fn(&T) -> Y
        requires
            forall|i: int| 0 <= i < self.items@.len() ==> func.requires((&#[trigger] self.items@[i],)),
        ensures
            mapped.items@.len() == self.items@.len(),
            forall|i: int|
                0 <= i < self.items@.len() ==> func.ensures(
                    (&self.items@[i],),
                    #[trigger] mapped.items@[i],
                ),
            mapped.page_id == self.page_id,
            mapped.page_size == self.page_size,
            mapped.page_count == self.page_count,
            mapped.total_item_count == self.total_item_count,
    {
        let mut items: Vec<Y> = Vec::new();
        let mut index: usize = 0;
        while index < self.items.len()
            invariant
                index <= self.items@.len(),
                items@.len() == index,
                forall|i: int|
                    0 <= i < self.items@.len() ==> func.requires((&#[trigger] self.items@[i],)),
                forall|i: int|
                    0 <= i < index ==> func.ensures((&self.items@[i],), #[trigger] items@[i]),
            decreases self.items@.len() - index,
        {
            let item = func(&self.items[index]);
            items.push(item);
            index = index + 1;
        }
        Page {
            items,
            page_id: self.page_id,
            page_size: self.page_size,
            page_count: self.page_count,
            total_item_count: self.total_item_count,
        }
    }
}

} // verus!
