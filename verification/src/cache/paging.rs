//! Collecting every page of mailing lists during a refresh.
use vstd::prelude::*;

use crate::lore::{LoreMailingList, LorePage};

verus! {

/// The mailing lists gathered, page after page, by a refresh.
#[derive(Debug)]
pub struct ListsCollector {
    /// Every list received so far, in the order of the pages
    pub lists: Vec<LoreMailingList>,
}

impl ListsCollector {
    /// A refresh that has received nothing yet; it starts at index 0.
    pub fn new() -> (r: ListsCollector)
        ensures
            r.lists@.len() == 0,
    {
        ListsCollector { lists: Vec::new() }
    }

    /// Takes in a page fetched by the refresh: a missing page ends it;
    /// otherwise its lists are kept and the refresh goes on at the next
    /// page, if the archive has one.
    pub fn take_page(&mut self, page: Option<LorePage<LoreMailingList>>) -> (r: Option<usize>)
        ensures
            match page {
                None => r is None && final(self).lists@ == old(self).lists@,
                Some(p) => final(self).lists@ == old(self).lists@ + p.items@ && r
                    == p.next_page_index,
            },
    {
        match page {
            None => None,
            Some(p) => {
                let next = p.next_page_index;
                let mut items = p.items;
                self.lists.append(&mut items);
                next
            },
        }
    }
}

} // verus!
