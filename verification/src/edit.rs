//! The staging area for the create-deck and edit-deck forms: mutable
//! mirrors of the canonical entities, converted to and from them without
//! loss. The mirrors share the entities' views, so a conversion's contract
//! is plain equality of views.

use vstd::prelude::*;

use crate::entities::{empty_deck_view, Answer, AnswerView, Card, CardView, Deck, DeckView};

verus! {

/// A possible answer while it is being composed.
#[derive(Debug, PartialEq, Eq)]
pub struct EditAnswer {
    pub text: String,
    pub is_correct: bool,
}

impl View for EditAnswer {
    type V = AnswerView;

    open spec fn view(&self) -> AnswerView {
        AnswerView { text: self.text@, is_correct: self.is_correct }
    }
}

/// The views of a sequence of answers under edit, element by element.
pub open spec fn edit_answers_view(answers: Seq<EditAnswer>) -> Seq<AnswerView> {
    answers.map_values(|a: EditAnswer| a@)
}

impl EditAnswer {
    /// A blank answer: empty text, not correct.
    pub fn new() -> (r: Self)
        ensures
            r@ == (AnswerView { text: Seq::<char>::empty(), is_correct: false }),
    {
        let r = EditAnswer { text: "".to_owned(), is_correct: false };
        proof {
            reveal_strlit("");
            assert(r@ =~= (AnswerView { text: Seq::<char>::empty(), is_correct: false }));
        }
        r
    }

    /// A copy of a canonical answer, ready for editing.
    pub fn from_answer(answer: &Answer) -> (r: Self)
        ensures
            r@ == answer@,
    {
        EditAnswer { text: answer.text.clone(), is_correct: answer.is_correct }
    }
}

/// Seals an answer under edit into a canonical [`Answer`].
pub fn answer_from_edit_answer(edit_answer: &EditAnswer) -> (r: Answer)
    ensures
        r@ == edit_answer@,
{
    Answer { text: edit_answer.text.clone(), is_correct: edit_answer.is_correct }
}

/// A card while it is being composed.
#[derive(Debug, PartialEq, Eq)]
pub struct EditCard {
    pub title: String,
    pub possible_answers: Vec<EditAnswer>,
}

impl View for EditCard {
    type V = CardView;

    open spec fn view(&self) -> CardView {
        CardView { title: self.title@, answers: edit_answers_view(self.possible_answers@) }
    }
}

/// The views of a sequence of cards under edit, element by element.
pub open spec fn edit_cards_view(cards: Seq<EditCard>) -> Seq<CardView> {
    cards.map_values(|c: EditCard| c@)
}

impl EditCard {
    /// A blank card: empty title, no answers.
    pub fn new() -> (r: Self)
        ensures
            r@ == (CardView { title: Seq::<char>::empty(), answers: Seq::empty() }),
    {
        let r = EditCard { title: "".to_owned(), possible_answers: Vec::new() };
        proof {
            reveal_strlit("");
            assert(r@.answers =~= Seq::<AnswerView>::empty());
            assert(r@ =~= (CardView { title: Seq::<char>::empty(), answers: Seq::empty() }));
        }
        r
    }

    /// A copy of a canonical card, ready for editing.
    pub fn from_card(card: &Card) -> (r: Self)
        ensures
            r@ == card@,
    {
        let mut answers: Vec<EditAnswer> = Vec::new();
        let n = card.possible_answers.len();
        let mut i: usize = 0;
        while i < n
            invariant
                n == card.possible_answers@.len(),
                0 <= i <= n,
                answers@.len() == i,
                forall|j: int| 0 <= j < i ==> answers@[j]@ == card.possible_answers@[j]@,
            decreases n - i,
        {
            answers.push(EditAnswer::from_answer(&card.possible_answers[i]));
            i += 1;
        }
        let r = EditCard { title: card.title.clone(), possible_answers: answers };
        proof {
            assert(r@.answers =~= card@.answers);
            assert(r@ =~= card@);
        }
        r
    }
}

/// Seals a card under edit into a canonical [`Card`].
pub fn card_from_edit_card(edit_card: &EditCard) -> (r: Card)
    ensures
        r@ == edit_card@,
{
    let mut answers: Vec<Answer> = Vec::new();
    let n = edit_card.possible_answers.len();
    let mut i: usize = 0;
    while i < n
        invariant
            n == edit_card.possible_answers@.len(),
            0 <= i <= n,
            answers@.len() == i,
            forall|j: int| 0 <= j < i ==> answers@[j]@ == edit_card.possible_answers@[j]@,
        decreases n - i,
    {
        answers.push(answer_from_edit_answer(&edit_card.possible_answers[i]));
        i += 1;
    }
    let r = Card { title: edit_card.title.clone(), possible_answers: answers };
    proof {
        assert(r@.answers =~= edit_card@.answers);
        assert(r@ =~= edit_card@);
    }
    r
}

/// A deck while it is being composed.
#[derive(Debug, PartialEq, Eq)]
pub struct EditDeck {
    pub id: String,
    pub title: String,
    pub description: String,
    pub cards: Vec<EditCard>,
}

impl View for EditDeck {
    type V = DeckView;

    open spec fn view(&self) -> DeckView {
        DeckView {
            cards: edit_cards_view(self.cards@),
            description: self.description@,
            title: self.title@,
            id: self.id@,
        }
    }
}

impl EditDeck {
    /// A blank deck for the create form: empty id, title and description,
    /// no cards.
    pub fn new() -> (r: Self)
        ensures
            r@ == empty_deck_view(),
    {
        let r = EditDeck {
            id: "".to_owned(),
            title: "".to_owned(),
            description: "".to_owned(),
            cards: Vec::new(),
        };
        proof {
            reveal_strlit("");
            assert(r@.cards =~= Seq::<CardView>::empty());
            assert(r@ =~= empty_deck_view());
        }
        r
    }

    /// A copy of a canonical deck, seeding the edit form.
    pub fn from_deck(deck: &Deck) -> (r: Self)
        ensures
            r@ == deck@,
    {
        let mut cards: Vec<EditCard> = Vec::new();
        let n = deck.cards.len();
        let mut i: usize = 0;
        while i < n
            invariant
                n == deck.cards@.len(),
                0 <= i <= n,
                cards@.len() == i,
                forall|j: int| 0 <= j < i ==> cards@[j]@ == deck.cards@[j]@,
            decreases n - i,
        {
            cards.push(EditCard::from_card(&deck.cards[i]));
            i += 1;
        }
        let r = EditDeck {
            id: deck.id.clone(),
            title: deck.title.clone(),
            description: deck.description.clone(),
            cards,
        };
        proof {
            assert(r@.cards =~= deck@.cards);
            assert(r@ =~= deck@);
        }
        r
    }
}

impl EditDeck {
    /// Appends a blank card to the form.
    pub fn add_card(&mut self)
        ensures
            *final(self) == (EditDeck { cards: final(self).cards, ..*old(self) }),
            final(self).cards@.len() == old(self).cards@.len() + 1,
            forall|j: int|
                0 <= j < old(self).cards@.len() ==> final(self).cards@[j] == old(self).cards@[j],
            final(self).cards@.last()@ == (CardView {
                title: Seq::<char>::empty(),
                answers: Seq::empty(),
            }),
    {
        self.cards.push(EditCard::new());
    }

    /// Removes the card at `card_index` from the form.
    pub fn remove_card(&mut self, card_index: usize)
        requires
            card_index < old(self).cards@.len(),
        ensures
            *final(self) == (EditDeck { cards: final(self).cards, ..*old(self) }),
            final(self).cards@ == old(self).cards@.remove(card_index as int),
    {
        self.cards.remove(card_index);
    }

    /// Replaces the title of the card at `card_index`.
    pub fn set_card_title(&mut self, card_index: usize, title: String)
        requires
            card_index < old(self).cards@.len(),
        ensures
            *final(self) == (EditDeck { cards: final(self).cards, ..*old(self) }),
            final(self).cards@ == old(self).cards@.update(
                card_index as int,
                (EditCard { title: title, ..old(self).cards@[card_index as int] }),
            ),
    {
        let mut card = self.cards.remove(card_index);
        card.title = title;
        self.cards.insert(card_index, card);
        proof {
            assert(final(self).cards@ =~= old(self).cards@.update(
                card_index as int,
                final(self).cards@[card_index as int],
            ));
        }
    }

    /// Appends a blank answer to the card at `card_index`.
    pub fn add_answer(&mut self, card_index: usize)
        requires
            card_index < old(self).cards@.len(),
        ensures
            *final(self) == (EditDeck { cards: final(self).cards, ..*old(self) }),
            final(self).cards@ == old(self).cards@.update(
                card_index as int,
                (EditCard {
                    possible_answers: final(self).cards@[card_index as int].possible_answers,
                    ..old(self).cards@[card_index as int]
                }),
            ),
            final(self).cards@[card_index as int].possible_answers@.len() == old(self).cards@[card_index as int].possible_answers@.len() + 1,
            forall|j: int|
                0 <= j < old(self).cards@[card_index as int].possible_answers@.len() ==> final(self).cards@[card_index as int].possible_answers@[j] == old(self).cards@[card_index as int].possible_answers@[j],
            final(self).cards@[card_index as int].possible_answers@.last()@ == (AnswerView {
                text: Seq::<char>::empty(),
                is_correct: false,
            }),
    {
        let mut card = self.cards.remove(card_index);
        card.possible_answers.push(EditAnswer::new());
        self.cards.insert(card_index, card);
        proof {
            assert(final(self).cards@ =~= old(self).cards@.update(
                card_index as int,
                final(self).cards@[card_index as int],
            ));
        }
    }

    /// Removes the answer at `answer_index` from the card at `card_index`.
    pub fn remove_answer(&mut self, card_index: usize, answer_index: usize)
        requires
            card_index < old(self).cards@.len(),
            answer_index < old(self).cards@[card_index as int].possible_answers@.len(),
        ensures
            *final(self) == (EditDeck { cards: final(self).cards, ..*old(self) }),
            final(self).cards@ == old(self).cards@.update(
                card_index as int,
                (EditCard {
                    possible_answers: final(self).cards@[card_index as int].possible_answers,
                    ..old(self).cards@[card_index as int]
                }),
            ),
            final(self).cards@[card_index as int].possible_answers@ == old(self).cards@[card_index as int].possible_answers@.remove(answer_index as int),
    {
        let mut card = self.cards.remove(card_index);
        card.possible_answers.remove(answer_index);
        self.cards.insert(card_index, card);
        proof {
            assert(final(self).cards@ =~= old(self).cards@.update(
                card_index as int,
                final(self).cards@[card_index as int],
            ));
        }
    }

    /// Replaces the text of one answer of one card.
    pub fn set_answer_text(&mut self, card_index: usize, answer_index: usize, text: String)
        requires
            card_index < old(self).cards@.len(),
            answer_index < old(self).cards@[card_index as int].possible_answers@.len(),
        ensures
            *final(self) == (EditDeck { cards: final(self).cards, ..*old(self) }),
            final(self).cards@ == old(self).cards@.update(
                card_index as int,
                (EditCard {
                    possible_answers: final(self).cards@[card_index as int].possible_answers,
                    ..old(self).cards@[card_index as int]
                }),
            ),
            final(self).cards@[card_index as int].possible_answers@ == old(self).cards@[card_index as int].possible_answers@.update(
                answer_index as int,
                (EditAnswer {
                    text: text,
                    ..old(self).cards@[card_index as int].possible_answers@[answer_index as int]
                }),
            ),
    {
        let mut card = self.cards.remove(card_index);
        let mut answer = card.possible_answers.remove(answer_index);
        answer.text = text;
        card.possible_answers.insert(answer_index, answer);
        self.cards.insert(card_index, card);
        proof {
            assert(final(self).cards@[card_index as int].possible_answers@ =~= old(self).cards@[card_index as int].possible_answers@.update(
                answer_index as int,
                final(self).cards@[card_index as int].possible_answers@[answer_index as int],
            ));
            assert(final(self).cards@ =~= old(self).cards@.update(
                card_index as int,
                final(self).cards@[card_index as int],
            ));
        }
    }

    /// Replaces the correctness flag of one answer of one card.
    pub fn set_answer_correct(&mut self, card_index: usize, answer_index: usize, is_correct: bool)
        requires
            card_index < old(self).cards@.len(),
            answer_index < old(self).cards@[card_index as int].possible_answers@.len(),
        ensures
            *final(self) == (EditDeck { cards: final(self).cards, ..*old(self) }),
            final(self).cards@ == old(self).cards@.update(
                card_index as int,
                (EditCard {
                    possible_answers: final(self).cards@[card_index as int].possible_answers,
                    ..old(self).cards@[card_index as int]
                }),
            ),
            final(self).cards@[card_index as int].possible_answers@ == old(self).cards@[card_index as int].possible_answers@.update(
                answer_index as int,
                (EditAnswer {
                    is_correct: is_correct,
                    ..old(self).cards@[card_index as int].possible_answers@[answer_index as int]
                }),
            ),
    {
        let mut card = self.cards.remove(card_index);
        let mut answer = card.possible_answers.remove(answer_index);
        answer.is_correct = is_correct;
        card.possible_answers.insert(answer_index, answer);
        self.cards.insert(card_index, card);
        proof {
            assert(final(self).cards@[card_index as int].possible_answers@ =~= old(self).cards@[card_index as int].possible_answers@.update(
                answer_index as int,
                final(self).cards@[card_index as int].possible_answers@[answer_index as int],
            ));
            assert(final(self).cards@ =~= old(self).cards@.update(
                card_index as int,
                final(self).cards@[card_index as int],
            ));
        }
    }
}

/// Seals the edit form into a canonical [`Deck`], the value submitted to
/// the server.
pub fn deck_from_edit_deck(edit_deck: &EditDeck) -> (r: Deck)
    ensures
        r@ == edit_deck@,
{
    let mut cards: Vec<Card> = Vec::new();
    let n = edit_deck.cards.len();
    let mut i: usize = 0;
    while i < n
        invariant
            n == edit_deck.cards@.len(),
            0 <= i <= n,
            cards@.len() == i,
            forall|j: int| 0 <= j < i ==> cards@[j]@ == edit_deck.cards@[j]@,
        decreases n - i,
    {
        cards.push(card_from_edit_card(&edit_deck.cards[i]));
        i += 1;
    }
    let r = Deck {
        cards,
        description: edit_deck.description.clone(),
        title: edit_deck.title.clone(),
        id: edit_deck.id.clone(),
    };
    proof {
        assert(r@.cards =~= edit_deck@.cards);
        assert(r@ =~= edit_deck@);
    }
    r
}

} // verus!
