//! Classification of server responses. The transport layer reduces each
//! response to plain values — a status code, and the nullable fields the
//! backend may send — and the functions here decide, exactly, what the
//! session learns from them: a value, or one of the error kinds.

use vstd::prelude::*;

use crate::entities::{Answer, AnswerView, Card, CardView, Deck, DeckView, Error, Token};

verus! {

/// The error kind a status code stands for: `401` is an authentication
/// failure, `404` a missing entity, anything else a server-side failure.
pub open spec fn status_error(status: u16) -> Error {
    if status == 401 {
        Error::AuthError
    } else if status == 404 {
        Error::NotFound
    } else {
        Error::APIError
    }
}

/// Maps a non-success status code to the error kind it stands for.
pub fn error_from_status(status: u16) -> (e: Error)
    ensures
        e == status_error(status),
{
    if status == 401 {
        Error::AuthError
    } else if status == 404 {
        Error::NotFound
    } else {
        Error::APIError
    }
}

/// The outcome of a sign-up or log-in exchange: on a `200` the body must
/// have parsed to a token, and any other status is classified by
/// [`status_error`].
pub fn auth_response(status: u16, token: Option<Token>) -> (r: Result<Token, Error>)
    ensures
        status == 200 ==> (match token {
            Some(t) => r matches Ok(rt) && rt == t,
            None => r == Result::<Token, Error>::Err(Error::PayloadError),
        }),
        status != 200 ==> r == Result::<Token, Error>::Err(status_error(status)),
{
    if status == 200 {
        match token {
            Some(t) => Ok(t),
            None => Err(Error::PayloadError),
        }
    } else {
        Err(error_from_status(status))
    }
}

/// A deck as the list query reports it: summary fields only, no cards.
#[derive(Debug, PartialEq, Eq)]
pub struct DeckSummary {
    pub id: String,
    pub title: String,
    pub description: String,
}

impl View for DeckSummary {
    type V = DeckView;

    /// A summary stands for the deck with these fields and no cards.
    open spec fn view(&self) -> DeckView {
        DeckView {
            cards: Seq::empty(),
            description: self.description@,
            title: self.title@,
            id: self.id@,
        }
    }
}

impl Clone for DeckSummary {
    fn clone(&self) -> (r: Self)
        ensures
            r == *self,
    {
        DeckSummary {
            id: self.id.clone(),
            title: self.title.clone(),
            description: self.description.clone(),
        }
    }
}

/// An answer as the deck query reports it.
#[derive(Debug, PartialEq, Eq)]
pub struct AnswerPayload {
    pub text: String,
    pub is_correct: bool,
}

impl View for AnswerPayload {
    type V = AnswerView;

    open spec fn view(&self) -> AnswerView {
        AnswerView { text: self.text@, is_correct: self.is_correct }
    }
}

/// A card as the deck query reports it: the answer list may be absent.
#[derive(Debug, PartialEq, Eq)]
pub struct CardPayload {
    pub title: String,
    pub answers: Option<Vec<AnswerPayload>>,
}

/// The mathematical content of a [`CardPayload`].
#[verifier::ext_equal]
pub ghost struct CardPayloadView {
    pub title: Seq<char>,
    pub answers: Option<Seq<AnswerView>>,
}

impl View for CardPayload {
    type V = CardPayloadView;

    open spec fn view(&self) -> CardPayloadView {
        CardPayloadView {
            title: self.title@,
            answers: match self.answers {
                Some(a) => Some(a@.map_values(|x: AnswerPayload| x@)),
                None => None,
            },
        }
    }
}

/// A deck as the deck query reports it: the card list may be absent.
#[derive(Debug, PartialEq, Eq)]
pub struct DeckPayload {
    pub id: String,
    pub title: String,
    pub description: String,
    pub cards: Option<Vec<CardPayload>>,
}

/// The mathematical content of a [`DeckPayload`].
#[verifier::ext_equal]
pub ghost struct DeckPayloadView {
    pub id: Seq<char>,
    pub title: Seq<char>,
    pub description: Seq<char>,
    pub cards: Option<Seq<CardPayloadView>>,
}

impl View for DeckPayload {
    type V = DeckPayloadView;

    open spec fn view(&self) -> DeckPayloadView {
        DeckPayloadView {
            id: self.id@,
            title: self.title@,
            description: self.description@,
            cards: match self.cards {
                Some(c) => Some(c@.map_values(|x: CardPayload| x@)),
                None => None,
            },
        }
    }
}

/// The cards a deck payload carries: an absent card list stands for none.
pub open spec fn payload_cards(p: DeckPayloadView) -> Seq<CardPayloadView> {
    match p.cards {
        Some(cs) => cs,
        None => Seq::empty(),
    }
}

/// A reported card is structurally valid when it has at least one answer.
pub open spec fn card_payload_ok(c: CardPayloadView) -> bool {
    c.answers matches Some(a) && a.len() > 0
}

/// A reported deck is structurally valid when every one of its cards is.
pub open spec fn deck_payload_ok(p: DeckPayloadView) -> bool {
    forall|i: int| 0 <= i < payload_cards(p).len() ==> card_payload_ok(#[trigger] payload_cards(p)[i])
}

/// The card a structurally valid card payload stands for.
pub open spec fn card_of_payload(c: CardPayloadView) -> CardView
    recommends
        card_payload_ok(c),
{
    CardView {
        title: c.title,
        answers: match c.answers {
            Some(a) => a,
            None => Seq::empty(),
        },
    }
}

/// The deck a structurally valid deck payload stands for.
pub open spec fn deck_of_payload(p: DeckPayloadView) -> DeckView
    recommends
        deck_payload_ok(p),
{
    DeckView {
        cards: payload_cards(p).map_values(|c: CardPayloadView| card_of_payload(c)),
        description: p.description,
        title: p.title,
        id: p.id,
    }
}

/// Builds the deck a payload stands for, or rejects the payload wholesale:
/// a card with an absent or empty answer list is a structural violation,
/// and no part of such a payload is applied.
pub fn deck_from_payload(payload: &DeckPayload) -> (r: Result<Deck, Error>)
    ensures
        r is Ok <==> deck_payload_ok(payload@),
        r matches Ok(d) ==> d@ == deck_of_payload(payload@),
        r matches Err(e) ==> e == Error::PayloadError,
{
    let ghost pv = payload@;
    let mut out: Vec<Card> = Vec::new();
    match &payload.cards {
        None => {
            let deck = Deck {
                cards: out,
                description: payload.description.clone(),
                title: payload.title.clone(),
                id: payload.id.clone(),
            };
            proof {
                assert(payload_cards(pv) =~= Seq::<CardPayloadView>::empty());
                assert(deck@ =~= deck_of_payload(pv));
            }
            Ok(deck)
        },
        Some(cs) => {
            let n = cs.len();
            let mut i: usize = 0;
            while i < n
                invariant
                    pv == payload@,
                    n == cs@.len(),
                    pv.cards matches Some(pcs) && pcs == cs@.map_values(|x: CardPayload| x@),
                    0 <= i <= n,
                    out@.len() == i,
                    forall|j: int| 0 <= j < i ==> card_payload_ok(#[trigger] payload_cards(pv)[j]),
                    forall|j: int|
                        0 <= j < i ==> out@[j]@ == card_of_payload(#[trigger] payload_cards(pv)[j]),
                decreases n - i,
            {
                let card = &cs[i];
                match &card.answers {
                    None => {
                        proof {
                            assert(payload_cards(pv).len() == n);
                            assert(!card_payload_ok(payload_cards(pv)[i as int]));
                            assert(!deck_payload_ok(pv));
                        }
                        return Err(Error::PayloadError);
                    },
                    Some(answers) => {
                        if answers.len() == 0 {
                            proof {
                                assert(payload_cards(pv).len() == n);
                                assert(!card_payload_ok(payload_cards(pv)[i as int]));
                                assert(!deck_payload_ok(pv));
                            }
                            return Err(Error::PayloadError);
                        }
                        let mut converted: Vec<Answer> = Vec::new();
                        let m = answers.len();
                        let mut j: usize = 0;
                        while j < m
                            invariant
                                m == answers@.len(),
                                0 <= j <= m,
                                converted@.len() == j,
                                forall|k: int| 0 <= k < j ==> converted@[k]@ == answers@[k]@,
                            decreases m - j,
                        {
                            converted.push(Answer {
                                text: answers[j].text.clone(),
                                is_correct: answers[j].is_correct,
                            });
                            j += 1;
                        }
                        let built = Card { title: card.title.clone(), possible_answers: converted };
                        proof {
                            assert(card_payload_ok(payload_cards(pv)[i as int]));
                            assert(built@.answers =~= card_of_payload(
                                payload_cards(pv)[i as int],
                            ).answers);
                            assert(built@ =~= card_of_payload(payload_cards(pv)[i as int]));
                        }
                        out.push(built);
                    },
                }
                i += 1;
            }
            let deck = Deck {
                cards: out,
                description: payload.description.clone(),
                title: payload.title.clone(),
                id: payload.id.clone(),
            };
            proof {
                assert(deck@.cards =~= deck_of_payload(pv).cards);
                assert(deck@ =~= deck_of_payload(pv));
            }
            Ok(deck)
        },
    }
}

/// The outcome of the single-deck query, whose body may lack the deck
/// entirely: an absent deck is a malformed response.
pub fn deck_response(payload: Option<DeckPayload>) -> (r: Result<Deck, Error>)
    ensures
        payload matches Some(p) ==> {
            &&& r is Ok <==> deck_payload_ok(p@)
            &&& (r matches Ok(d) ==> d@ == deck_of_payload(p@))
        },
        payload is None ==> r is Err,
        r matches Err(e) ==> e == Error::PayloadError,
{
    match payload {
        Some(p) => deck_from_payload(&p),
        None => Err(Error::PayloadError),
    }
}

/// The outcome of the deck-list query. The outer level is the response
/// body's deck listing — absent when the response was malformed — and the
/// inner level the listing's entries, which the backend may omit for an
/// empty listing.
pub fn decks_from_list_payload(payload: Option<Option<Vec<DeckSummary>>>) -> (r: Result<
    Vec<Deck>,
    Error,
>)
    ensures
        payload is None ==> r == Result::<Vec<Deck>, Error>::Err(Error::PayloadError),
        payload matches Some(inner) ==> r matches Ok(decks) && (match inner {
            Some(items) => decks@.len() == items@.len() && forall|i: int|
                0 <= i < items@.len() ==> #[trigger] decks@[i]@ == items@[i]@,
            None => decks@.len() == 0,
        }),
{
    match payload {
        None => Err(Error::PayloadError),
        Some(inner) => {
            let mut decks: Vec<Deck> = Vec::new();
            match inner {
                None => Ok(decks),
                Some(items) => {
                    let n = items.len();
                    let mut i: usize = 0;
                    while i < n
                        invariant
                            n == items@.len(),
                            0 <= i <= n,
                            decks@.len() == i,
                            forall|j: int| 0 <= j < i ==> #[trigger] decks@[j]@ == items@[j]@,
                        decreases n - i,
                    {
                        let s = &items[i];
                        let deck = Deck {
                            cards: Vec::new(),
                            description: s.description.clone(),
                            title: s.title.clone(),
                            id: s.id.clone(),
                        };
                        proof {
                            assert(deck@.cards =~= items@[i as int]@.cards);
                            assert(deck@ =~= items@[i as int]@);
                        }
                        decks.push(deck);
                        i += 1;
                    }
                    Ok(decks)
                },
            }
        },
    }
}

/// The outcome of the delete-deck exchange: the response counts as a
/// success exactly when its body carried the success marker, whatever the
/// marker's value.
pub fn delete_response(success: Option<bool>) -> (r: Result<(), Error>)
    ensures
        r is Ok <==> success is Some,
        r matches Err(e) ==> e == Error::PayloadError,
{
    match success {
        Some(_) => Ok(()),
        None => Err(Error::PayloadError),
    }
}

} // verus!
