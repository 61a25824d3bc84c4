//! The canonical entities: decks, cards, answers, credentials, tokens,
//! and the classification of failed remote calls.

use vstd::prelude::*;

verus! {

/// Classification of a failed remote call, as the transport layer reports it.
#[derive(Clone, Copy, Debug, PartialEq, Eq, Structural)]
pub enum Error {
    /// The response was malformed or structurally invalid.
    PayloadError,
    /// The server classified the request as failed.
    APIError,
    /// The authentication token was missing, wrong, or expired.
    AuthError,
    /// The requested entity does not exist.
    NotFound,
    /// The request never produced a server response.
    NetworkError,
}

impl Error {
    /// A short human-readable description, suitable for inline display.
    pub fn message(&self) -> (r: String)
        ensures
            *self is PayloadError ==> r@ == "Malformed json"@,
            *self is APIError ==> r@ == "Server error"@,
            *self is AuthError ==> r@ == "Wrong login"@,
            *self is NotFound ==> r@ == "Not found"@,
            *self is NetworkError ==> r@ == "Network error"@,
    {
        match self {
            Error::PayloadError => "Malformed json".to_owned(),
            Error::APIError => "Server error".to_owned(),
            Error::AuthError => "Wrong login".to_owned(),
            Error::NotFound => "Not found".to_owned(),
            Error::NetworkError => "Network error".to_owned(),
        }
    }
}

/// An authentication token handed out by the server on sign-up or log-in.
#[derive(Debug, PartialEq, Eq)]
pub struct Token {
    pub token: String,
}

impl View for Token {
    type V = Seq<char>;

    open spec fn view(&self) -> Seq<char> {
        self.token@
    }
}

impl Clone for Token {
    fn clone(&self) -> (r: Self)
        ensures
            r == *self,
    {
        Token { token: self.token.clone() }
    }
}

/// One possible answer of a card.
#[derive(Debug, PartialEq, Eq)]
pub struct Answer {
    pub text: String,
    pub is_correct: bool,
}

/// The mathematical content of an [`Answer`].
#[verifier::ext_equal]
pub ghost struct AnswerView {
    pub text: Seq<char>,
    pub is_correct: bool,
}

impl View for Answer {
    type V = AnswerView;

    open spec fn view(&self) -> AnswerView {
        AnswerView { text: self.text@, is_correct: self.is_correct }
    }
}

impl Clone for Answer {
    fn clone(&self) -> (r: Self)
        ensures
            r == *self,
    {
        Answer { text: self.text.clone(), is_correct: self.is_correct }
    }
}

/// A question together with its ordered list of possible answers.
#[derive(Debug, PartialEq, Eq)]
pub struct Card {
    pub title: String,
    pub possible_answers: Vec<Answer>,
}

/// The mathematical content of a [`Card`].
#[verifier::ext_equal]
pub ghost struct CardView {
    pub title: Seq<char>,
    pub answers: Seq<AnswerView>,
}

/// The views of a sequence of answers, element by element.
pub open spec fn answers_view(answers: Seq<Answer>) -> Seq<AnswerView> {
    answers.map_values(|a: Answer| a@)
}

/// The views of a sequence of cards, element by element.
pub open spec fn cards_view(cards: Seq<Card>) -> Seq<CardView> {
    cards.map_values(|c: Card| c@)
}

impl View for Card {
    type V = CardView;

    open spec fn view(&self) -> CardView {
        CardView { title: self.title@, answers: answers_view(self.possible_answers@) }
    }
}

impl Clone for Card {
    fn clone(&self) -> (r: Self)
        ensures
            r@ == self@,
    {
        let r = Card {
            title: self.title.clone(),
            possible_answers: self.possible_answers.clone(),
        };
        proof {
            assert(r@.answers =~= self@.answers);
            assert(r@ =~= self@);
        }
        r
    }
}

/// A named collection of cards. An empty `id` means the deck has not yet
/// been created on the server.
#[derive(Debug, PartialEq, Eq)]
pub struct Deck {
    pub cards: Vec<Card>,
    pub description: String,
    pub title: String,
    pub id: String,
}

/// The mathematical content of a [`Deck`].
#[verifier::ext_equal]
pub ghost struct DeckView {
    pub cards: Seq<CardView>,
    pub description: Seq<char>,
    pub title: Seq<char>,
    pub id: Seq<char>,
}

/// The view of a deck with nothing in it: every field empty.
pub open spec fn empty_deck_view() -> DeckView {
    DeckView {
        cards: Seq::empty(),
        description: Seq::empty(),
        title: Seq::empty(),
        id: Seq::empty(),
    }
}

impl View for Deck {
    type V = DeckView;

    open spec fn view(&self) -> DeckView {
        DeckView {
            cards: cards_view(self.cards@),
            description: self.description@,
            title: self.title@,
            id: self.id@,
        }
    }
}

impl Clone for Deck {
    fn clone(&self) -> (r: Self)
        ensures
            r@ == self@,
    {
        let r = Deck {
            cards: self.cards.clone(),
            description: self.description.clone(),
            title: self.title.clone(),
            id: self.id.clone(),
        };
        proof {
            assert(r@.cards =~= self@.cards);
            assert(r@ =~= self@);
        }
        r
    }
}

/// Form state for creating an account.
#[derive(Debug, PartialEq, Eq)]
pub struct Signup {
    pub nick: String,
    pub bio: String,
    pub username: String,
    pub password: String,
}

impl Clone for Signup {
    fn clone(&self) -> (r: Self)
        ensures
            r == *self,
    {
        Signup {
            nick: self.nick.clone(),
            bio: self.bio.clone(),
            username: self.username.clone(),
            password: self.password.clone(),
        }
    }
}

/// Form state for logging in.
#[derive(Debug, PartialEq, Eq)]
pub struct Login {
    pub username: String,
    pub password: String,
}

impl Clone for Login {
    fn clone(&self) -> (r: Self)
        ensures
            r == *self,
    {
        Login { username: self.username.clone(), password: self.password.clone() }
    }
}

/// A card list with nothing in it, the card list of a deck summary.
pub fn empty_cards() -> (r: Vec<Card>)
    ensures
        r@.len() == 0,
{
    Vec::new()
}

/// The correctness flag an answer carries when none was given: not correct.
pub fn false_answer() -> (r: bool)
    ensures
        !r,
{
    false
}

/// The title and description of a deck, the fields a summary screen shows.
pub fn get_selected_deck_info(deck: &Deck) -> (r: (String, String))
    ensures
        r.0@ == deck.title@,
        r.1@ == deck.description@,
{
    (deck.title.clone(), deck.description.clone())
}

} // verus!
