use shisho::edit::{
    answer_from_edit_answer, card_from_edit_card, deck_from_edit_deck, EditAnswer, EditCard,
    EditDeck,
};
use shisho::entities::{empty_cards, false_answer, get_selected_deck_info, Answer, Card, Deck};

fn sample_deck() -> Deck {
    Deck {
        id: "d9".to_owned(),
        title: "Geography".to_owned(),
        description: "Capitals".to_owned(),
        cards: vec![
            Card {
                title: "Capital of France?".to_owned(),
                possible_answers: vec![
                    Answer { text: "Paris".to_owned(), is_correct: true },
                    Answer { text: "Lyon".to_owned(), is_correct: false },
                ],
            },
            Card {
                title: "Capital of Japan?".to_owned(),
                possible_answers: vec![Answer { text: "Tokyo".to_owned(), is_correct: true }],
            },
        ],
    }
}

#[test]
fn new_edit_deck_is_blank() {
    let e = EditDeck::new();
    assert_eq!(e.id, "");
    assert_eq!(e.title, "");
    assert_eq!(e.description, "");
    assert_eq!(e.cards.len(), 0);
}

#[test]
fn new_edit_card_is_blank() {
    let c = EditCard::new();
    assert_eq!(c.title, "");
    assert_eq!(c.possible_answers.len(), 0);
}

#[test]
fn new_edit_answer_is_blank() {
    let a = EditAnswer::new();
    assert_eq!(a.text, "");
    assert!(!a.is_correct);
}

#[test]
fn answer_round_trip() {
    let e = EditAnswer { text: "Rome".to_owned(), is_correct: true };
    let a = answer_from_edit_answer(&e);
    assert_eq!(a.text, "Rome");
    assert!(a.is_correct);
}

#[test]
fn card_round_trip() {
    let e = EditCard {
        title: "q".to_owned(),
        possible_answers: vec![
            EditAnswer { text: "x".to_owned(), is_correct: false },
            EditAnswer { text: "y".to_owned(), is_correct: true },
        ],
    };
    let c = card_from_edit_card(&e);
    assert_eq!(c.title, "q");
    assert_eq!(c.possible_answers.len(), 2);
    assert_eq!(c.possible_answers[1].text, "y");
    assert!(c.possible_answers[1].is_correct);
}

#[test]
fn deck_round_trip_preserves_everything() {
    let deck = sample_deck();
    let edit = EditDeck::from_deck(&deck);
    let back = deck_from_edit_deck(&edit);
    assert_eq!(back, deck);
}

#[test]
fn edit_buffer_mutators() {
    let mut e = EditDeck::new();
    e.add_card();
    e.add_card();
    assert_eq!(e.cards.len(), 2);
    e.add_answer(0);
    e.add_answer(0);
    e.add_answer(1);
    assert_eq!(e.cards[0].possible_answers.len(), 2);
    assert_eq!(e.cards[1].possible_answers.len(), 1);
    e.set_card_title(0, "first".to_owned());
    assert_eq!(e.cards[0].title, "first");
    e.set_answer_text(0, 1, "two".to_owned());
    e.set_answer_correct(0, 1, true);
    assert_eq!(e.cards[0].possible_answers[1].text, "two");
    assert!(e.cards[0].possible_answers[1].is_correct);
    e.remove_answer(0, 0);
    assert_eq!(e.cards[0].possible_answers.len(), 1);
    assert_eq!(e.cards[0].possible_answers[0].text, "two");
    e.remove_card(1);
    assert_eq!(e.cards.len(), 1);
    assert_eq!(e.cards[0].title, "first");
}

#[test]
fn entity_helpers() {
    assert_eq!(empty_cards().len(), 0);
    assert!(!false_answer());
    let deck = sample_deck();
    let (title, description) = get_selected_deck_info(&deck);
    assert_eq!(title, "Geography");
    assert_eq!(description, "Capitals");
}
