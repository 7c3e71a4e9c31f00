//! Slideshow page positions and the per-page ink of one slideshow run.

use std::collections::HashMap;
use vstd::prelude::*;

verus! {

broadcast use vstd::std_specs::hash::group_hash_axioms;

/// A position within one slideshow run; a slide repeated in a custom show has
/// distinct positions.
#[derive(Debug, Clone, Copy, PartialEq, Eq, Hash, PartialOrd, Ord, Structural)]
pub struct PageKey(u32);

impl PageKey {
    /// Show positions are 1-based.
    #[verifier::type_invariant]
    spec fn positive(self) -> bool {
        self.0 > 0
    }

    /// The 1-based show position.
    pub closed spec fn position(self) -> u32 {
        self.0
    }

    /// Makes a page key from the 1-based show position that the presentation
    /// application reports; zero is unreliable and refused.
    pub fn new(show_position: u32) -> (key: Option<PageKey>)
        ensures
            show_position == 0 ==> key is None,
            show_position != 0 ==> (key matches Some(k) && k.position() == show_position),
    {
        if show_position == 0 {
            None
        } else {
            Some(PageKey(show_position))
        }
    }

    /// A page key is its show position: two keys at the same position are the
    /// same key.
    pub proof fn lemma_position_identifies(a: PageKey, b: PageKey)
        ensures
            (a.position() == b.position()) == (a == b),
    {
    }

    /// The 1-based show position.
    pub fn show_position(self) -> (position: u32)
        ensures
            position == self.position(),
            position > 0,
    {
        proof {
            use_type_invariant(&self);
        }
        self.0
    }
}

/// The ink document and auxiliary slide identifier of one show position.
#[derive(Debug, Clone, PartialEq)]
pub struct PageInkEntry<D> {
    pub stable_slide_id: Option<i64>,
    pub document: D,
}

impl<D: Default> Default for PageInkEntry<D> {
    /// An empty document with no slide identifier.
    fn default() -> (entry: PageInkEntry<D>)
        ensures
            entry.stable_slide_id is None,
    {
        PageInkEntry { stable_slide_id: None, document: D::default() }
    }
}

/// The ink of the positions that a slideshow run left, kept in memory for the
/// run only.
#[derive(Debug)]
pub struct PageInkStore<D> {
    pages: HashMap<u32, PageInkEntry<D>>,
}

impl<D: Default> PageInkStore<D> {
    /// The saved entries by show position.
    pub closed spec fn pages(&self) -> Map<u32, PageInkEntry<D>> {
        self.pages@
    }

    /// An empty store.
    pub fn new() -> (store: PageInkStore<D>)
        ensures
            store.pages() == Map::<u32, PageInkEntry<D>>::empty(),
    {
        PageInkStore { pages: HashMap::new() }
    }

    /// Saves the position being left, replacing what was saved for it before.
    pub fn save(&mut self, key: PageKey, entry: PageInkEntry<D>)
        ensures
            final(self).pages() == old(self).pages().insert(key.position(), entry),
    {
        self.pages.insert(key.show_position(), entry);
    }

    /// Takes the entry of the position being entered; a first visit gives an
    /// empty document.
    pub fn take(&mut self, key: PageKey) -> (entry: PageInkEntry<D>)
        ensures
            final(self).pages() == old(self).pages().remove(key.position()),
            old(self).pages().contains_key(key.position()) ==> entry == old(self).pages()[key.position()],
            !old(self).pages().contains_key(key.position()) ==> entry.stable_slide_id is None,
    {
        let position = key.show_position();
        match self.pages.remove(&position) {
            Some(entry) => entry,
            None => PageInkEntry::default(),
        }
    }

    /// How many positions have saved ink.
    pub fn saved_page_count(&self) -> (count: usize)
        ensures
            count == self.pages().len(),
    {
        self.pages.len()
    }

    /// Forgets every saved position.
    pub fn clear(&mut self)
        ensures
            final(self).pages() == Map::<u32, PageInkEntry<D>>::empty(),
    {
        self.pages.clear();
    }
}

/// What was saved for a position is what taking it gives back, and taking it
/// leaves the other positions as they were.
pub proof fn lemma_saved_page_is_taken_back<D>(
    pages: Map<u32, PageInkEntry<D>>,
    position: u32,
    entry: PageInkEntry<D>,
)
    ensures
        pages.insert(position, entry).contains_key(position),
        pages.insert(position, entry)[position] == entry,
        pages.insert(position, entry).remove(position) == pages.remove(position),
{
    assert(pages.insert(position, entry).remove(position) =~= pages.remove(position));
}

} // verus!
