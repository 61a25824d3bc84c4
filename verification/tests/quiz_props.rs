use shisho::entities::{Answer, Card};
use shisho::quiz::{calculate_score, card_is_correct, Score};

fn card(title: &str, answers: &[(&str, bool)]) -> Card {
    Card {
        title: title.to_owned(),
        possible_answers: answers
            .iter()
            .map(|(text, is_correct)| Answer { text: (*text).to_owned(), is_correct: *is_correct })
            .collect(),
    }
}

#[test]
fn card_is_correct_exact_match() {
    let c = card("q", &[("a", true), ("b", false), ("c", true)]);
    assert!(card_is_correct(&c.possible_answers, &vec![true, false, true]));
}

#[test]
fn card_is_correct_missing_selection() {
    let c = card("q", &[("a", true), ("b", false)]);
    assert!(!card_is_correct(&c.possible_answers, &vec![false, false]));
}

#[test]
fn card_is_correct_extra_selection() {
    let c = card("q", &[("a", true), ("b", false)]);
    assert!(!card_is_correct(&c.possible_answers, &vec![true, true]));
}

#[test]
fn card_is_correct_all_false_card() {
    let c = card("q", &[("a", false), ("b", false)]);
    assert!(card_is_correct(&c.possible_answers, &vec![false, false]));
    assert!(!card_is_correct(&c.possible_answers, &vec![true, false]));
}

#[test]
fn score_no_correct_cards_is_zero() {
    let cards = vec![card("q1", &[("a", true)]), card("q2", &[("a", true)])];
    let chosen = vec![vec![false], vec![false]];
    let score = calculate_score(&cards, &chosen);
    assert_eq!(score.correct_cards, 0);
    assert_eq!(score.total_cards, 2);
    assert_eq!(score.percent_times_100(), 0);
}

#[test]
fn score_all_correct_is_full() {
    let cards = vec![card("q1", &[("a", true)]), card("q2", &[("a", false), ("b", true)])];
    let chosen = vec![vec![true], vec![false, true]];
    let score = calculate_score(&cards, &chosen);
    assert_eq!(score.correct_cards, 2);
    assert_eq!(score.total_cards, 2);
    assert_eq!(score.percent_times_100(), 10000);
}

#[test]
fn score_three_of_four_is_seventy_five() {
    let cards = vec![
        card("q1", &[("a", true)]),
        card("q2", &[("a", true)]),
        card("q3", &[("a", true)]),
        card("q4", &[("a", true)]),
    ];
    let chosen = vec![vec![true], vec![true], vec![true], vec![false]];
    let score = calculate_score(&cards, &chosen);
    assert_eq!(score.correct_cards, 3);
    assert_eq!(score.total_cards, 4);
    assert_eq!(score.percent_times_100(), 7500);
}

#[test]
fn score_one_of_three_rounds_down() {
    let cards =
        vec![card("q1", &[("a", true)]), card("q2", &[("a", true)]), card("q3", &[("a", true)])];
    let chosen = vec![vec![true], vec![false], vec![false]];
    let score = calculate_score(&cards, &chosen);
    assert_eq!(score.percent_times_100(), 3333);
}

#[test]
fn score_zero_value_has_zero_percent() {
    let score = Score::zero();
    assert_eq!(score.correct_cards, 0);
    assert_eq!(score.total_cards, 0);
    assert_eq!(score.percent_times_100(), 0);
}
