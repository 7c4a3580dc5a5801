//! Pagination builder and response envelopes.

use crate::text::dec_of;
use crate::text::fmt_u32;
use vstd::prelude::*;

verus! {

#[derive(Debug, Clone)]
pub struct PaginationParams {
    pub page: Option<u32>,
    pub limit: Option<u32>,
}

/// The `(key, value)` pairs `to_query_params` renders, in order.
pub open spec fn pagination_query_of(p: PaginationParams) -> Seq<(Seq<char>, Seq<char>)> {
    let s = Seq::<(Seq<char>, Seq<char>)>::empty();
    let s = if p.page is Some {
        s.push(("page"@, dec_of(p.page->0 as nat)))
    } else {
        s
    };
    let s = if p.limit is Some {
        s.push(("limit"@, dec_of(p.limit->0 as nat)))
    } else {
        s
    };
    s
}

impl PaginationParams {
    pub fn new() -> (r: Self)
        ensures
            r.page is None,
            r.limit is None,
    {
        Self { page: None, limit: None }
    }

    pub fn page(self, page: u32) -> (r: Self)
        ensures
            r.page == Some(page),
            r.limit == self.limit,
    {
        let mut p = self;
        p.page = Some(page);
        p
    }

    pub fn limit(self, limit: u32) -> (r: Self)
        ensures
            r.limit == Some(limit),
            r.page == self.page,
    {
        let mut p = self;
        p.limit = Some(limit);
        p
    }

    pub fn to_query_params(&self) -> (r: Vec<(&'static str, String)>)
        ensures
            r@.map_values(|q: (&'static str, String)| (q.0@, q.1@)) == pagination_query_of(
                *self,
            ),
    {
        let mut params: Vec<(&'static str, String)> = Vec::new();

        if let Some(page) = self.page {
            params.push(("page", fmt_u32(page)));
        }

        if let Some(limit) = self.limit {
            params.push(("limit", fmt_u32(limit)));
        }

        proof {
            assert(params@.map_values(|q: (&'static str, String)| (q.0@, q.1@))
                =~= pagination_query_of(*self));
        }
        params
    }
}

impl Default for PaginationParams {
    fn default() -> (r: Self)
        ensures
            r.page is None,
            r.limit is None,
    {
        Self::new()
    }
}

#[derive(Debug, Clone)]
pub struct PaginatedResponse<T> {
    pub data: Vec<T>,
    pub pagination: Option<PaginationInfo>,
}

#[derive(Debug, Clone)]
pub struct PaginationInfo {
    pub current_page: u32,
    pub total_pages: u32,
    pub total_items: u32,
    pub items_per_page: u32,
    pub has_next: bool,
    pub has_prev: bool,
}

} // verus!
