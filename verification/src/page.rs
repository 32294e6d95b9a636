//! Page keys and the registry of the pages that have been opened.
use crate::components::header::HeaderLayout;
use std::collections::HashMap;
use vstd::prelude::*;

verus! {

broadcast use vstd::std_specs::hash::group_hash_axioms;

/// Identifies a logical page by a stable number.
#[derive(Debug, Clone, Copy, PartialEq, Eq, Hash, Structural)]
pub struct PageKey(pub u64);

/// What is rendered for a page in one layer: the page below its header,
/// where it shows one.
#[derive(Debug, Clone, Copy, PartialEq, Eq, Structural)]
pub struct PageLayer {
    pub page: PageKey,
    pub header: Option<HeaderLayout>,
}

/// What is kept of a page once it has been opened: its identity among the
/// layers, and its chrome where it has any.
pub struct PageEntry<C> {
    pub id: u64,
    pub chrome: Option<C>,
}

/// The pages that have been opened, by key. A page is entered when it is
/// first navigated to and stays for as long as the registry lives.
pub struct PageRegistry<C> {
    entries: HashMap<u64, PageEntry<C>>,
}

impl<C> View for PageRegistry<C> {
    type V = Map<PageKey, PageEntry<C>>;

    closed spec fn view(&self) -> Map<PageKey, PageEntry<C>> {
        Map::new(
            |key: PageKey| self.entries@.contains_key(key.0),
            |key: PageKey| self.entries@[key.0],
        )
    }
}

impl<C> PageRegistry<C> {
    /// A registry without pages.
    pub fn new() -> (registry: Self)
        ensures
            registry@ == Map::<PageKey, PageEntry<C>>::empty(),
    {
        let registry = PageRegistry { entries: HashMap::new() };
        proof {
            assert(registry@ =~= Map::<PageKey, PageEntry<C>>::empty());
        }
        registry
    }

    /// Whether `key` has been opened.
    pub fn contains(&self, key: PageKey) -> (found: bool)
        ensures
            found == self@.contains_key(key),
    {
        self.entries.contains_key(&key.0)
    }

    /// Enters `entry` under `key` unless the page is there already, and says
    /// whether it was entered. An entry that is there is never replaced.
    pub fn get_or_create(&mut self, key: PageKey, entry: PageEntry<C>) -> (created: bool)
        ensures
            created == !old(self)@.contains_key(key),
            final(self)@ == if created {
                old(self)@.insert(key, entry)
            } else {
                old(self)@
            },
    {
        if self.entries.contains_key(&key.0) {
            return false;
        }
        self.entries.insert(key.0, entry);
        proof {
            assert(self@ =~= old(self)@.insert(key, entry));
        }
        true
    }

    /// The entry of a page that has been opened.
    pub fn lookup(&self, key: PageKey) -> (entry: &PageEntry<C>)
        requires
            self@.contains_key(key),
        ensures
            *entry == self@[key],
    {
        match self.entries.get(&key.0) {
            Some(entry) => entry,
            None => vstd::pervasive::unreached(),
        }
    }
}

} // verus!
