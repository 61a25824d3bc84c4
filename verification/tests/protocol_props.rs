use shisho::entities::{Error, Token};
use shisho::protocol::{
    auth_response, deck_from_payload, deck_response, decks_from_list_payload, delete_response,
    error_from_status, AnswerPayload, CardPayload, DeckPayload, DeckSummary,
};

fn answer_payload(text: &str, is_correct: bool) -> AnswerPayload {
    AnswerPayload { text: text.to_owned(), is_correct }
}

fn good_payload() -> DeckPayload {
    DeckPayload {
        id: "d1".to_owned(),
        title: "Title".to_owned(),
        description: "Desc".to_owned(),
        cards: Some(vec![
            CardPayload {
                title: "q1".to_owned(),
                answers: Some(vec![answer_payload("a", true), answer_payload("b", false)]),
            },
            CardPayload { title: "q2".to_owned(), answers: Some(vec![answer_payload("c", true)]) },
        ]),
    }
}

#[test]
fn status_classification() {
    assert_eq!(error_from_status(401), Error::AuthError);
    assert_eq!(error_from_status(404), Error::NotFound);
    assert_eq!(error_from_status(500), Error::APIError);
    assert_eq!(error_from_status(418), Error::APIError);
}

#[test]
fn auth_ok_with_token() {
    let r = auth_response(200, Some(Token { token: "t1".to_owned() }));
    assert_eq!(r.unwrap().token, "t1");
}

#[test]
fn auth_ok_without_token_is_payload_error() {
    let r = auth_response(200, None);
    assert_eq!(r.unwrap_err(), Error::PayloadError);
}

#[test]
fn auth_unauthorized_is_auth_error() {
    let r = auth_response(401, None);
    assert_eq!(r.unwrap_err(), Error::AuthError);
}

#[test]
fn good_deck_payload_is_accepted() {
    let deck = deck_from_payload(&good_payload()).unwrap();
    assert_eq!(deck.id, "d1");
    assert_eq!(deck.title, "Title");
    assert_eq!(deck.description, "Desc");
    assert_eq!(deck.cards.len(), 2);
    assert_eq!(deck.cards[0].possible_answers.len(), 2);
    assert_eq!(deck.cards[0].possible_answers[0].text, "a");
    assert!(deck.cards[0].possible_answers[0].is_correct);
    assert_eq!(deck.cards[1].title, "q2");
}

#[test]
fn empty_answer_list_rejects_whole_deck() {
    let mut p = good_payload();
    p.cards.as_mut().unwrap().push(CardPayload { title: "q3".to_owned(), answers: Some(vec![]) });
    assert_eq!(deck_from_payload(&p).unwrap_err(), Error::PayloadError);
}

#[test]
fn absent_answer_list_rejects_whole_deck() {
    let mut p = good_payload();
    p.cards.as_mut().unwrap()[0].answers = None;
    assert_eq!(deck_from_payload(&p).unwrap_err(), Error::PayloadError);
}

#[test]
fn deck_without_card_list_is_empty_deck() {
    let mut p = good_payload();
    p.cards = None;
    let deck = deck_from_payload(&p).unwrap();
    assert_eq!(deck.cards.len(), 0);
    assert_eq!(deck.id, "d1");
}

#[test]
fn absent_deck_is_payload_error() {
    assert_eq!(deck_response(None).unwrap_err(), Error::PayloadError);
}

#[test]
fn list_without_body_is_payload_error() {
    assert_eq!(decks_from_list_payload(None).unwrap_err(), Error::PayloadError);
}

#[test]
fn list_without_entries_is_empty() {
    assert_eq!(decks_from_list_payload(Some(None)).unwrap().len(), 0);
}

#[test]
fn list_entries_become_summaries() {
    let items = vec![
        DeckSummary { id: "1".to_owned(), title: "A".to_owned(), description: "da".to_owned() },
        DeckSummary { id: "2".to_owned(), title: "B".to_owned(), description: "db".to_owned() },
    ];
    let decks = decks_from_list_payload(Some(Some(items))).unwrap();
    assert_eq!(decks.len(), 2);
    assert_eq!(decks[0].id, "1");
    assert_eq!(decks[0].title, "A");
    assert_eq!(decks[0].cards.len(), 0);
    assert_eq!(decks[1].id, "2");
    assert_eq!(decks[1].title, "B");
}

#[test]
fn delete_marker_present_is_ok() {
    assert!(delete_response(Some(true)).is_ok());
    assert!(delete_response(Some(false)).is_ok());
}

#[test]
fn delete_marker_absent_is_payload_error() {
    assert_eq!(delete_response(None).unwrap_err(), Error::PayloadError);
}

#[test]
fn error_messages() {
    assert_eq!(Error::PayloadError.message(), "Malformed json");
    assert_eq!(Error::APIError.message(), "Server error");
    assert_eq!(Error::AuthError.message(), "Wrong login");
    assert_eq!(Error::NotFound.message(), "Not found");
    assert_eq!(Error::NetworkError.message(), "Network error");
}
