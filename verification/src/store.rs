//! The in-memory cache of decks the user sees. Each deck is paired with a
//! flag saying whether its cards have been fetched, or only the summary
//! fields are populated.

use vstd::prelude::*;

use crate::entities::{Card, Deck};

verus! {

/// The deck cache: a deck per position, with a per-position flag that is
/// true once the deck's cards have been fetched.
#[derive(Debug)]
pub struct DeckStore {
    pub decks: Vec<Deck>,
    pub fully_fetched: Vec<bool>,
}

impl DeckStore {
    /// Every deck has its flag: both columns have the same length.
    pub open spec fn wf(&self) -> bool {
        self.fully_fetched@.len() == self.decks@.len()
    }

    /// An empty cache, the state before the first list fetch.
    pub fn new() -> (s: Self)
        ensures
            s.decks@.len() == 0,
            s.fully_fetched@.len() == 0,
            s.wf(),
    {
        DeckStore { decks: Vec::new(), fully_fetched: Vec::new() }
    }

    /// How many decks the cache holds.
    pub fn len(&self) -> (n: usize)
        ensures
            n == self.decks@.len(),
    {
        self.decks.len()
    }

    /// Replaces the whole cache with freshly listed summaries, none of
    /// them fetched in full yet.
    pub fn replace_with_summaries(&mut self, decks: Vec<Deck>)
        ensures
            final(self).decks == decks,
            final(self).fully_fetched@.len() == decks@.len(),
            forall|i: int| 0 <= i < decks@.len() ==> !(#[trigger] final(self).fully_fetched@[i]),
            final(self).wf(),
    {
        let n = decks.len();
        self.decks = decks;
        self.fully_fetched = vec![false; n];
    }

    /// Upgrades one entry to fully fetched, replacing its cards with the
    /// ones the server returned.
    pub fn set_cards(&mut self, index: usize, cards: Vec<Card>)
        requires
            old(self).wf(),
            index < old(self).decks@.len(),
        ensures
            final(self).decks@ == old(self).decks@.update(
                index as int,
                (Deck { cards: cards, ..old(self).decks@[index as int] }),
            ),
            final(self).fully_fetched@ == old(self).fully_fetched@.update(index as int, true),
            final(self).wf(),
    {
        let description = self.decks[index].description.clone();
        let title = self.decks[index].title.clone();
        let id = self.decks[index].id.clone();
        self.decks[index] = Deck { cards, description, title, id };
        self.fully_fetched[index] = true;
        proof {
            assert(final(self).decks@ =~= old(self).decks@.update(
                index as int,
                final(self).decks@[index as int],
            ));
            assert(final(self).fully_fetched@ =~= old(self).fully_fetched@.update(
                index as int,
                true,
            ));
        }
    }

    /// Appends a deck whose cards are already complete, as after a
    /// successful create.
    pub fn push_full(&mut self, deck: Deck)
        requires
            old(self).wf(),
        ensures
            final(self).decks@ == old(self).decks@.push(deck),
            final(self).fully_fetched@ == old(self).fully_fetched@.push(true),
            final(self).wf(),
    {
        self.decks.push(deck);
        self.fully_fetched.push(true);
    }

    /// Replaces the deck at a position, keeping its fetched flag.
    pub fn replace_deck(&mut self, index: usize, deck: Deck)
        requires
            old(self).wf(),
            index < old(self).decks@.len(),
        ensures
            final(self).decks@ == old(self).decks@.update(index as int, deck),
            final(self).fully_fetched == old(self).fully_fetched,
            final(self).wf(),
    {
        self.decks[index] = deck;
        proof {
            assert(final(self).decks@ =~= old(self).decks@.update(
                index as int,
                final(self).decks@[index as int],
            ));
        }
    }

    /// Removes the deck at a position, flag and all; the entries after it
    /// move up.
    pub fn remove(&mut self, index: usize) -> (removed: Deck)
        requires
            old(self).wf(),
            index < old(self).decks@.len(),
        ensures
            removed == old(self).decks@[index as int],
            final(self).decks@ == old(self).decks@.remove(index as int),
            final(self).fully_fetched@ == old(self).fully_fetched@.remove(index as int),
            final(self).wf(),
    {
        let removed = self.decks.remove(index);
        self.fully_fetched.remove(index);
        removed
    }
}

} // verus!
