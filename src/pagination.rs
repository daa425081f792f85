use vstd::prelude::*;

verus! {

/// A request for one page of the contracts instantiated from a code id.
#[derive(Clone, Debug, PartialEq, Eq)]
pub struct PageRequest {
    pub code_id: u64,
    /// The continuation token of the previous page; `None` on the first call.
    pub key: Option<Vec<u8>>,
}

/// Collects a paginated contract listing: each page's items are appended in
/// order, and the listing ends at the first page whose continuation token is
/// absent or empty.
pub struct ContractPager {
    pub code_id: u64,
    pub contracts: Vec<String>,
    pub next_key: Option<Vec<u8>>,
    pub finished: bool,
    pub pages: u64,
}

/// The bytes of an optional continuation token.
pub open spec fn key_view(key: Option<Vec<u8>>) -> Option<Seq<u8>> {
    match key {
        Some(k) => Some(k@),
        None => None,
    }
}

/// A continuation token that ends the listing.
pub open spec fn ends_listing(key: Option<Vec<u8>>) -> bool {
    match key {
        Some(k) => k@.len() == 0,
        None => true,
    }
}

impl ContractPager {
    pub fn new(code_id: u64) -> (r: ContractPager)
        ensures
            r.code_id == code_id,
            r.contracts@.len() == 0,
            r.next_key is None,
            !r.finished,
            r.pages == 0,
    {
        ContractPager { code_id, contracts: Vec::new(), next_key: None, finished: false, pages: 0 }
    }

    /// The next request to make, or `None` once the listing has ended.
    pub fn next_request(&self) -> (r: Option<PageRequest>)
        ensures
            r is None <==> self.finished,
            r matches Some(req) ==> req.code_id == self.code_id && key_view(req.key) == key_view(self.next_key),
    {
        if self.finished {
            None
        } else {
            let key = match &self.next_key {
                Some(k) => Some(k.clone()),
                None => None,
            };
            Some(PageRequest { code_id: self.code_id, key })
        }
    }

    /// Takes in one page: its items and its continuation token.
    pub fn absorb(&mut self, page: Vec<String>, next_key: Option<Vec<u8>>)
        requires
            !old(self).finished,
            old(self).pages < u64::MAX,
        ensures
            final(self).contracts@ == old(self).contracts@ + page@,
            final(self).finished == ends_listing(next_key),
            final(self).next_key == next_key,
            final(self).pages == old(self).pages + 1,
            final(self).code_id == old(self).code_id,
    {
        let mut page = page;
        self.contracts.append(&mut page);
        let finished = match &next_key {
            Some(k) => k.len() == 0,
            None => true,
        };
        self.finished = finished;
        self.next_key = next_key;
        self.pages = self.pages + 1;
    }

    /// The contracts collected so far, in order.
    pub fn into_contracts(self) -> (r: Vec<String>)
        ensures
            r@ == self.contracts@,
    {
        self.contracts
    }
}

} // verus!
