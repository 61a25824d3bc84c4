use shisho::entities::{Answer, Card, Deck, Error, Token};
use shisho::session::{
    to_answer, Effect, Message, PendingOperation, Session, States, TargetView, ANSWER_DELAY_MS,
    RESULTS_DELAY_MS,
};

fn card(title: &str, answers: &[(&str, bool)]) -> Card {
    Card {
        title: title.to_owned(),
        possible_answers: answers
            .iter()
            .map(|(text, is_correct)| Answer { text: (*text).to_owned(), is_correct: *is_correct })
            .collect(),
    }
}

fn deck(id: &str, title: &str, cards: Vec<Card>) -> Deck {
    Deck { id: id.to_owned(), title: title.to_owned(), description: "d".to_owned(), cards }
}

fn summary(id: &str, title: &str) -> Deck {
    deck(id, title, Vec::new())
}

/// A session that has logged in and holds two summaries, as after a
/// successful list fetch.
fn loaded_session() -> Session {
    let mut s = Session::new();
    s.handle(Message::UsernameChanged("u".to_owned()));
    s.handle(Message::PasswordChanged("p".to_owned()));
    let eff = s.handle(Message::HandleAuthResponse(Ok(Token { token: "tok".to_owned() })));
    assert_eq!(eff, Some(Effect::FetchDecks("tok".to_owned())));
    let eff = s.handle(Message::HandleDecksResponse(Ok(vec![
        summary("1", "A"),
        summary("2", "B"),
    ])));
    assert_eq!(eff, None);
    s
}

fn two_cards() -> Vec<Card> {
    vec![card("q1", &[("a", true), ("b", false)]), card("q2", &[("c", false), ("d", true)])]
}

/// Drives the session to the round screen on deck 0 with two cards.
fn round_session() -> Session {
    let mut s = loaded_session();
    s.handle(Message::SelectDeck(0));
    s.handle(Message::HandleDeckResponse(Ok(deck("1", "A", two_cards()))));
    assert_eq!(s.state, States::Details);
    s.handle(Message::StartRound);
    assert_eq!(s.state, States::Round);
    s
}

#[test]
fn first_login_fetches_decks_and_queues_them() {
    let mut s = Session::new();
    assert!(s.first_login);
    let eff = s.handle(Message::HandleAuthResponse(Ok(Token { token: "tok".to_owned() })));
    assert_eq!(eff, Some(Effect::FetchDecks("tok".to_owned())));
    assert!(!s.first_login);
    assert_eq!(s.token, "tok");
    assert_eq!(s.pending_operation, PendingOperation::GetDecks);
}

#[test]
fn list_fetch_scenario() {
    // The listing yields two summaries, neither fully fetched; selecting
    // index 0 issues the single-deck fetch; its success upgrades the
    // entry and opens the details screen.
    let mut s = loaded_session();
    assert_eq!(s.state, States::Loaded);
    assert_eq!(s.store.decks.len(), 2);
    assert_eq!(s.store.fully_fetched, vec![false, false]);
    assert_eq!(s.pending_operation, PendingOperation::Idle);

    let eff = s.handle(Message::SelectDeck(0));
    assert_eq!(eff, Some(Effect::FetchDeck("tok".to_owned(), "1".to_owned())));
    assert_eq!(s.pending_operation, PendingOperation::GetDeck("1".to_owned()));

    let eff = s.handle(Message::HandleDeckResponse(Ok(deck("1", "A", two_cards()))));
    assert_eq!(eff, None);
    assert_eq!(s.state, States::Details);
    assert_eq!(s.store.fully_fetched, vec![true, false]);
    assert_eq!(s.store.decks[0].cards.len(), 2);
    assert_eq!(s.pending_operation, PendingOperation::Idle);
}

#[test]
fn select_fetched_deck_is_synchronous() {
    let mut s = loaded_session();
    s.handle(Message::SelectDeck(0));
    s.handle(Message::HandleDeckResponse(Ok(deck("1", "A", two_cards()))));
    s.handle(Message::CancelRound(TargetView::Welcome));
    assert_eq!(s.state, States::Loaded);

    let eff = s.handle(Message::SelectDeck(0));
    assert_eq!(eff, None);
    assert_eq!(s.state, States::Details);
}

#[test]
fn start_round_builds_blank_answer_rows() {
    let s = round_session();
    assert_eq!(s.selected_answers.len(), 2);
    assert_eq!(s.selected_answers[0], vec![false, false]);
    assert_eq!(s.selected_answers[1], vec![false, false]);
    assert_eq!(s.selected_card, 0);
    assert!(!s.check);
    assert!(!s.answered);
    assert_eq!(s.duration_ms, 0);
}

#[test]
fn start_round_on_empty_deck_is_refused() {
    let mut s = loaded_session();
    s.handle(Message::SelectDeck(0));
    s.handle(Message::HandleDeckResponse(Ok(deck("1", "A", Vec::new()))));
    assert_eq!(s.state, States::Details);
    s.handle(Message::StartRound);
    assert_eq!(s.state, States::Details);
}

#[test]
fn answer_marks_choice_and_starts_feedback() {
    let mut s = round_session();
    let eff = s.handle(Message::Answer(1));
    assert_eq!(eff, None);
    assert_eq!(s.selected_answers[0], vec![false, true]);
    assert!(s.check);
    assert!(s.answered);
    assert_eq!(s.duration_ms, 0);
}

#[test]
fn answer_is_idempotent_once_locked_in() {
    let mut s = round_session();
    s.handle(Message::Answer(0));
    let rows = s.selected_answers.clone();
    let check = s.check;
    let duration = s.duration_ms;
    s.handle(Message::Answer(1));
    s.handle(Message::Answer(0));
    assert_eq!(s.selected_answers, rows);
    assert_eq!(s.check, check);
    assert_eq!(s.duration_ms, duration);
    assert!(s.answered);
    assert_eq!(s.state, States::Round);
}

#[test]
fn answer_out_of_range_is_ignored() {
    let mut s = round_session();
    s.handle(Message::Answer(5));
    assert!(!s.answered);
    assert_eq!(s.selected_answers[0], vec![false, false]);
}

#[test]
fn keyboard_answer_works_only_in_round() {
    let mut s = loaded_session();
    s.handle(Message::KeyboardAnswer(0));
    assert!(!s.answered);
    let mut s = round_session();
    s.handle(Message::KeyboardAnswer(1));
    assert!(s.answered);
    assert_eq!(s.selected_answers[0], vec![false, true]);
}

#[test]
fn to_answer_maps_digits() {
    assert!(matches!(to_answer(1), Message::KeyboardAnswer(0)));
    assert!(matches!(to_answer(9), Message::KeyboardAnswer(8)));
    assert!(matches!(to_answer(0), Message::Noop(_)));
    assert!(matches!(to_answer(10), Message::Noop(_)));
}

#[test]
fn tick_advances_to_next_card_after_delay() {
    let mut s = round_session();
    s.handle(Message::Answer(0));
    s.handle(Message::Tick(ANSWER_DELAY_MS / 2));
    assert_eq!(s.duration_ms, ANSWER_DELAY_MS / 2);
    assert_eq!(s.selected_card, 0);
    s.handle(Message::Tick(ANSWER_DELAY_MS));
    assert_eq!(s.selected_card, 1);
    assert!(!s.check);
    assert!(!s.answered);
    assert_eq!(s.state, States::Round);
}

#[test]
fn round_ends_in_result_with_score() {
    let mut s = round_session();
    s.handle(Message::Answer(0)); // q1: correct pattern is [true, false]
    s.handle(Message::Tick(ANSWER_DELAY_MS + 1));
    s.handle(Message::Answer(0)); // q2: correct pattern is [false, true]
    s.handle(Message::Tick(ANSWER_DELAY_MS + 1));
    assert_eq!(s.state, States::Result);
    assert_eq!(s.selected_card, 0);
    assert_eq!(s.duration_ms, 0);
    assert_eq!(s.score.total_cards, 2);
    assert_eq!(s.score.correct_cards, 1);
    assert_eq!(s.score.percent_times_100(), 5000);
}

#[test]
fn result_timer_freezes_at_delay() {
    let mut s = round_session();
    s.handle(Message::Answer(0));
    s.handle(Message::Tick(ANSWER_DELAY_MS + 1));
    s.handle(Message::Answer(1));
    s.handle(Message::Tick(ANSWER_DELAY_MS + 1));
    assert_eq!(s.state, States::Result);
    assert!(s.answered);
    s.handle(Message::Tick(RESULTS_DELAY_MS / 2));
    assert_eq!(s.duration_ms, RESULTS_DELAY_MS / 2);
    s.handle(Message::Tick(RESULTS_DELAY_MS));
    assert_eq!(s.duration_ms, RESULTS_DELAY_MS);
    assert!(!s.answered);
}

#[test]
fn cancel_round_resets_and_returns() {
    let mut s = round_session();
    s.handle(Message::Answer(0));
    let eff = s.handle(Message::CancelRound(TargetView::Details));
    assert_eq!(eff, None);
    assert_eq!(s.state, States::Details);
    assert_eq!(s.selected_card, 0);
    assert!(!s.check);
    assert!(!s.answered);
    assert_eq!(s.duration_ms, 0);
}

#[test]
fn delete_is_optimistic_and_issues_call() {
    let mut s = loaded_session();
    s.handle(Message::SelectDeck(0));
    s.handle(Message::HandleDeckResponse(Ok(deck("1", "A", two_cards()))));
    let eff = s.handle(Message::DeleteDeck);
    assert_eq!(eff, Some(Effect::DeleteDeck("tok".to_owned(), "1".to_owned())));
    assert_eq!(s.store.decks.len(), 1);
    assert_eq!(s.store.decks[0].id, "2");
    assert_eq!(s.store.fully_fetched, vec![false]);
    assert!(!s.already_selected);
    assert_eq!(s.state, States::Loaded);
    assert_eq!(s.pending_operation, PendingOperation::DeleteDeck("1".to_owned()));
}

#[test]
fn delete_failure_is_not_rolled_back() {
    let mut s = loaded_session();
    s.handle(Message::SelectDeck(0));
    s.handle(Message::HandleDeckResponse(Ok(deck("1", "A", two_cards()))));
    s.handle(Message::DeleteDeck);
    let eff = s.handle(Message::HandleDeleteDeckResponse(Err(Error::APIError)));
    assert_eq!(eff, None);
    assert_eq!(s.remote_error, Some(Error::APIError));
    assert_eq!(s.store.decks.len(), 1);
}

#[test]
fn delete_recovery_replays_exactly_the_delete() {
    // PendingOperation = DeleteDeck("d1"), then a log-in success: the
    // next issued call is exactly the delete with the new token.
    let mut s = loaded_session();
    s.pending_operation = PendingOperation::DeleteDeck("d1".to_owned());
    let eff = s.handle(Message::HandleAuthResponse(Ok(Token { token: "fresh".to_owned() })));
    assert_eq!(eff, Some(Effect::DeleteDeck("fresh".to_owned(), "d1".to_owned())));
    assert_eq!(s.token, "fresh");
    assert_eq!(s.pending_operation, PendingOperation::DeleteDeck("d1".to_owned()));
}

#[test]
fn auth_expired_fetch_triggers_silent_relogin() {
    let mut s = loaded_session();
    s.handle(Message::SelectDeck(1));
    let eff = s.handle(Message::HandleDeckResponse(Err(Error::AuthError)));
    match eff {
        Some(Effect::LogIn(login)) => {
            assert_eq!(login.username, "u");
            assert_eq!(login.password, "p");
        },
        other => panic!("expected a re-login, got {:?}", other),
    }
    assert_eq!(s.remote_error, None);
    assert_eq!(s.pending_operation, PendingOperation::GetDeck("2".to_owned()));
}

#[test]
fn second_auth_failure_is_surfaced() {
    let mut s = loaded_session();
    s.pending_operation = PendingOperation::DeleteDeck("d1".to_owned());
    let eff = s.handle(Message::HandleAuthResponse(Err(Error::AuthError)));
    assert_eq!(eff, None);
    assert_eq!(s.remote_error, Some(Error::AuthError));
    assert_eq!(s.pending_operation, PendingOperation::Idle);
}

#[test]
fn create_from_form_appends_and_selects() {
    let mut s = loaded_session();
    s.handle(Message::NewDeck);
    assert_eq!(s.state, States::Create);
    s.handle(Message::EditDeckTitleChanged("New deck".to_owned()));
    s.handle(Message::AddCard);
    s.handle(Message::AddAnswer(0));
    s.handle(Message::AnswerTextChanged((0, 0), "yes".to_owned()));
    s.handle(Message::AnswerIsCorrectChanged((0, 0), true));
    let eff = s.handle(Message::SendCreateDeckRequest);
    match eff {
        Some(Effect::CreateDeck(token, composed)) => {
            assert_eq!(token, "tok");
            assert_eq!(composed.title, "New deck");
            assert_eq!(composed.cards.len(), 1);
            assert_eq!(composed.cards[0].possible_answers[0].text, "yes");
        },
        other => panic!("expected a create call, got {:?}", other),
    }
    let created = deck("9", "New deck", vec![card("q", &[("yes", true)])]);
    let eff = s.handle(Message::HandleCreateDeckResponse(Ok(created)));
    assert_eq!(eff, None);
    assert_eq!(s.state, States::Details);
    assert_eq!(s.store.decks.len(), 3);
    assert_eq!(s.selected_deck, 2);
    assert!(s.already_selected);
    assert_eq!(s.store.fully_fetched, vec![false, false, true]);
}

#[test]
fn edit_save_replaces_and_deletes_old_copy() {
    let mut s = loaded_session();
    s.handle(Message::SelectDeck(0));
    s.handle(Message::HandleDeckResponse(Ok(deck("1", "A", two_cards()))));
    s.handle(Message::EditDeck);
    assert_eq!(s.state, States::Edit);
    assert_eq!(s.edit_deck.title, "A");
    s.handle(Message::EditDeckTitleChanged("A2".to_owned()));
    let replacement = deck("77", "A2", two_cards());
    let eff = s.handle(Message::HandleCreateDeckResponse(Ok(replacement)));
    assert_eq!(eff, Some(Effect::DeleteDeck("tok".to_owned(), "1".to_owned())));
    assert_eq!(s.state, States::Details);
    assert_eq!(s.store.decks[0].id, "77");
    assert_eq!(s.store.decks[0].title, "A2");
}

#[test]
fn create_auth_failure_queues_composed_deck() {
    let mut s = loaded_session();
    s.handle(Message::NewDeck);
    s.handle(Message::EditDeckTitleChanged("Pending".to_owned()));
    let eff = s.handle(Message::HandleCreateDeckResponse(Err(Error::AuthError)));
    assert!(matches!(eff, Some(Effect::LogIn(_))));
    match &s.pending_operation {
        PendingOperation::CreateDeck(d) => assert_eq!(d.title, "Pending"),
        other => panic!("expected a queued create, got {:?}", other),
    }
    let eff = s.handle(Message::HandleAuthResponse(Ok(Token { token: "tok2".to_owned() })));
    match eff {
        Some(Effect::CreateDeck(token, d)) => {
            assert_eq!(token, "tok2");
            assert_eq!(d.title, "Pending");
        },
        other => panic!("expected the create replay, got {:?}", other),
    }
}

#[test]
fn form_field_messages_update_credentials() {
    let mut s = Session::new();
    s.handle(Message::UsernameChanged("alice".to_owned()));
    s.handle(Message::PasswordChanged("pw".to_owned()));
    assert_eq!(s.login.username, "alice");
    assert_eq!(s.login.password, "pw");
    let eff = s.handle(Message::SignUp);
    assert_eq!(eff, None);
    assert_eq!(s.state, States::Signup);
    assert_eq!(s.signup.username, "alice");
    assert_eq!(s.signup.password, "pw");
    s.handle(Message::SignupNickChanged("al".to_owned()));
    s.handle(Message::SignupBioChanged("hi".to_owned()));
    match s.handle(Message::SendSignUp) {
        Some(Effect::SignUp(form)) => {
            assert_eq!(form.nick, "al");
            assert_eq!(form.bio, "hi");
            assert_eq!(form.username, "alice");
        },
        other => panic!("expected a sign-up call, got {:?}", other),
    }
}

#[test]
fn back_from_signup_fills_blank_login() {
    let mut s = Session::new();
    s.handle(Message::SignUp);
    s.handle(Message::SignupUsernameChanged("bob".to_owned()));
    s.handle(Message::SignupPasswordChanged("pw2".to_owned()));
    s.handle(Message::ToLoginFromSignUp);
    assert_eq!(s.state, States::Welcome);
    assert_eq!(s.login.username, "bob");
    assert_eq!(s.login.password, "pw2");
}

#[test]
fn back_from_signup_keeps_filled_login() {
    let mut s = Session::new();
    s.handle(Message::UsernameChanged("kept".to_owned()));
    s.handle(Message::SignUp);
    s.handle(Message::SignupUsernameChanged("other".to_owned()));
    s.handle(Message::ToLoginFromSignUp);
    assert_eq!(s.login.username, "kept");
}

#[test]
fn decks_failure_keeps_screen_and_records_error() {
    let mut s = loaded_session();
    let eff = s.handle(Message::HandleDecksResponse(Err(Error::NetworkError)));
    assert_eq!(eff, None);
    assert_eq!(s.remote_error, Some(Error::NetworkError));
    assert_eq!(s.state, States::Loaded);
    assert_eq!(s.store.decks.len(), 2);
}

#[test]
fn refresh_issues_list_fetch() {
    let mut s = loaded_session();
    let eff = s.handle(Message::GetDecks);
    assert_eq!(eff, Some(Effect::FetchDecks("tok".to_owned())));
}

#[test]
fn delete_card_and_answer_messages() {
    let mut s = loaded_session();
    s.handle(Message::NewDeck);
    s.handle(Message::AddCard);
    s.handle(Message::AddCard);
    s.handle(Message::AddAnswer(1));
    s.handle(Message::AddAnswer(1));
    s.handle(Message::CardTitleChanged(1, "second".to_owned()));
    s.handle(Message::DeleteAnswer(1, 0));
    assert_eq!(s.edit_deck.cards[1].possible_answers.len(), 1);
    s.handle(Message::DeleteCard(0));
    assert_eq!(s.edit_deck.cards.len(), 1);
    assert_eq!(s.edit_deck.cards[0].title, "second");
}

#[test]
fn focus_and_noop_messages() {
    let mut s = Session::new();
    assert_eq!(s.handle(Message::FocusNext), Some(Effect::FocusNext));
    assert_eq!(s.handle(Message::FocusPrevious), Some(Effect::FocusPrevious));
    assert_eq!(s.handle(Message::Noop(3)), None);
    assert_eq!(s.state, States::Welcome);
}

#[test]
fn tick_runs_only_while_answered() {
    let mut s = round_session();
    assert!(!s.wants_tick());
    s.handle(Message::Tick(500));
    assert_eq!(s.duration_ms, 0);
    s.handle(Message::Answer(0));
    assert!(s.wants_tick());
}

#[test]
fn add_card_scrolls_edit_view() {
    let mut s = Session::new();
    s.handle(Message::NewDeck);
    assert_eq!(s.handle(Message::AddCard), Some(Effect::ScrollEditViewToEnd));
}
