use vstd::prelude::*;

verus! {

/// Page size used when a request names none.
pub const DEFAULT_LIMIT: u32 = 20;

/// Which window of a listing a request asks for: `page` counts from zero,
/// `limit` is the page size.
#[derive(Debug, Clone)]
pub struct Pagination {
    pub limit: Option<u32>,
    pub page: Option<u32>,
}

impl Pagination {
    pub open spec fn spec_limit(&self) -> u32 {
        match self.limit {
            Some(l) => l,
            None => DEFAULT_LIMIT,
        }
    }

    pub open spec fn spec_page(&self) -> u32 {
        match self.page {
            Some(p) => p,
            None => 0,
        }
    }

    /// Number of rows skipped before the window starts.
    pub open spec fn spec_offset(&self) -> int {
        self.spec_page() * self.spec_limit()
    }

    pub fn limit(&self) -> (r: u32)
        ensures
            r == self.spec_limit(),
    {
        match self.limit {
            Some(l) => l,
            None => DEFAULT_LIMIT,
        }
    }

    pub fn page(&self) -> (r: u32)
        ensures
            r == self.spec_page(),
    {
        match self.page {
            Some(p) => p,
            None => 0,
        }
    }

    /// The offset as a wide integer, which always fits.
    pub fn offset(&self) -> (r: u64)
        ensures
            r == self.spec_offset(),
            r <= u32::MAX as int * u32::MAX as int,
    {
        let l = self.limit() as u64;
        let p = self.page() as u64;
        proof {
            vstd::arithmetic::mul::lemma_mul_upper_bound(
                p as int,
                u32::MAX as int,
                l as int,
                u32::MAX as int,
            );
        }
        p * l
    }

    /// The named parameters `:limit` and `:offset` of a listing query.
    pub fn params(&self) -> (r: [(&'static str, u32); 2])
        requires
            self.spec_offset() <= u32::MAX,
        ensures
            r@[0].0@ == ":limit"@,
            r@[0].1 == self.spec_limit(),
            r@[1].0@ == ":offset"@,
            r@[1].1 == self.spec_offset(),
    {
        let limit = self.limit();
        let page = self.page() * limit;
        [(":limit", limit), (":offset", page)]
    }
}

} // verus!
