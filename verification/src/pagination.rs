//! Accumulation of cursor-paged responses.
//!
//! The server delivers large result sets one page at a time; each page names
//! the cursor of the next one. The accumulator below makes every decision of
//! that walk — which URI to fetch first, which to fetch next, when to stop,
//! and when the server broke its cursor contract — while the caller performs
//! the fetches and feeds each page back in arrival order.

use crate::models::PagedResponse;
use crate::uri_builders::{spec_dec_str, u64_to_string};
use vstd::prelude::*;
use vstd::string::StringExecFns;

verus! {

/// The URI of the first page: the base URI with the fixed page limit.
pub open spec fn spec_first_page_uri(base: Seq<char>) -> Seq<char> {
    base + "?limit=50"@
}

/// The URI of a later page: the first page's URI with the server-issued
/// cursor appended.
pub open spec fn spec_next_page_uri(first: Seq<char>, start: nat) -> Seq<char> {
    first + "&start="@ + spec_dec_str(start)
}

/// What the accumulator asks of the caller after absorbing one page.
#[derive(Debug, PartialEq, Eq)]
pub enum PageStep {
    /// Fetch this URI and feed the resulting page back.
    Next(String),
    /// The last page arrived; the accumulated values are complete.
    Finished,
    /// A page that was not the last came without its cursor: the server
    /// broke the paging contract, and the walk cannot continue.
    MissingCursor,
}

/// Accumulates the values of consecutive pages in arrival order.
#[derive(Debug)]
pub struct PageAccumulator<T> {
    base_uri: String,
    values: Vec<T>,
    done: bool,
}

impl<T> PageAccumulator<T> {
    /// The first page's URI, to which every cursor is appended.
    pub closed spec fn spec_base(&self) -> Seq<char> {
        self.base_uri@
    }

    /// Every value absorbed so far, in arrival order.
    pub closed spec fn spec_values(&self) -> Seq<T> {
        self.values@
    }

    /// Whether the last page has been absorbed.
    pub closed spec fn spec_done(&self) -> bool {
        self.done
    }

    /// Starts a walk over `uri`; the second component is the URI of the
    /// first page to fetch.
    pub fn new(uri: &str) -> (r: (Self, String))
        ensures
            r.0.spec_base() == spec_first_page_uri(uri@),
            r.0.spec_values() == Seq::<T>::empty(),
            !r.0.spec_done(),
            r.1@ == spec_first_page_uri(uri@),
    {
        let base = uri.to_owned().concat("?limit=50");
        let first = base.clone();
        (PageAccumulator { base_uri: base, values: Vec::new(), done: false }, first)
    }

    /// Absorbs one page: appends its values, then either finishes, names
    /// the next URI to fetch, or reports the broken cursor contract.
    pub fn absorb(&mut self, page: PagedResponse<T>) -> (r: PageStep)
        requires
            !old(self).spec_done(),
        ensures
            final(self).spec_base() == old(self).spec_base(),
            final(self).spec_values() == old(self).spec_values() + page.values@,
            final(self).spec_done() == page.is_last_page,
            (r is Finished) == page.is_last_page,
            (r is MissingCursor) == (!page.is_last_page && page.next_page_start is None),
            !page.is_last_page && page.next_page_start is Some ==> (r matches PageStep::Next(u)
                && u@ == spec_next_page_uri(
                old(self).spec_base(),
                page.next_page_start->0 as nat,
            )),
    {
        let mut arrived = page.values;
        self.values.append(&mut arrived);
        if page.is_last_page {
            self.done = true;
            PageStep::Finished
        } else {
            match page.next_page_start {
                Option::Some(start) => {
                    let rendered = u64_to_string(start as u64);
                    let uri = self.base_uri.clone().concat("&start=").concat(rendered.as_str());
                    PageStep::Next(uri)
                },
                Option::None => PageStep::MissingCursor,
            }
        }
    }

    /// Whether the last page has been absorbed.
    pub fn is_finished(&self) -> (r: bool)
        ensures
            r == self.spec_done(),
    {
        self.done
    }

    /// Hands the accumulated values out once the walk has finished.
    pub fn into_values(self) -> (r: Vec<T>)
        requires
            self.spec_done(),
        ensures
            r@ == self.spec_values(),
    {
        self.values
    }
}

} // verus!
