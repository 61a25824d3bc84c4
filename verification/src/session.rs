//! The session state machine. Every user action and every completed
//! remote call arrives as one [`Message`]; [`Session::handle`] performs
//! the transition and says which asynchronous call, if any, the driver
//! must start next as an [`Effect`]. The driver performs the call and
//! feeds the result back in as another message.

use vstd::prelude::*;

use crate::edit::{EditAnswer, EditCard, EditDeck};
use crate::entities::{cards_view, Card, Deck, Error, Login, Signup, Token};
use crate::quiz::{calculate_score, count_correct, Score};
use crate::store::DeckStore;

verus! {

/// How long the per-card feedback stays on screen, in milliseconds.
pub const ANSWER_DELAY_MS: u64 = 1000;

/// How long the score animation of the results screen runs, in
/// milliseconds.
pub const RESULTS_DELAY_MS: u64 = 2000;

/// The screen the session is showing.
#[derive(Clone, Copy, Debug, PartialEq, Eq, Structural)]
pub enum States {
    Welcome,
    Signup,
    Loaded,
    Details,
    Round,
    Result,
    Create,
    Edit,
}

/// Where a cancelled round returns to.
#[derive(Clone, Copy, Debug, PartialEq, Eq, Structural)]
pub enum TargetView {
    Details,
    Welcome,
}

/// The one remote operation queued for replay after the token is
/// renewed. It is overwritten, never queued as a list.
#[derive(Debug, PartialEq, Eq)]
pub enum PendingOperation {
    GetDecks,
    GetDeck(String),
    DeleteDeck(String),
    CreateDeck(Deck),
    Idle,
}

/// An asynchronous remote call the driver must start, tagged with the
/// values it needs. The result comes back as the matching response
/// message.
#[derive(Debug, PartialEq, Eq)]
pub enum Effect {
    /// Post the sign-up form; answer with `HandleAuthResponse`.
    SignUp(Signup),
    /// Post the log-in form; answer with `HandleAuthResponse`.
    LogIn(Login),
    /// Fetch the deck listing with this token; answer with
    /// `HandleDecksResponse`.
    FetchDecks(String),
    /// Fetch one deck in full, by token and id; answer with
    /// `HandleDeckResponse`.
    FetchDeck(String, String),
    /// Create a deck on the server, by token; answer with
    /// `HandleCreateDeckResponse`.
    CreateDeck(String, Deck),
    /// Delete a deck on the server, by token and id; answer with
    /// `HandleDeleteDeckResponse`.
    DeleteDeck(String, String),
    /// Move keyboard focus to the next widget.
    FocusNext,
    /// Move keyboard focus to the previous widget.
    FocusPrevious,
    /// Scroll the edit view to its end, showing the card just added.
    ScrollEditViewToEnd,
}

/// Everything that can happen to the session: user actions and completed
/// remote calls.
#[derive(Debug)]
pub enum Message {
    SignUp,
    SendSignUp,
    ToLoginFromSignUp,
    SendLogIn,
    HandleAuthResponse(Result<Token, Error>),
    GetDecks,
    HandleDecksResponse(Result<Vec<Deck>, Error>),
    HandleDeckResponse(Result<Deck, Error>),
    SendCreateDeckRequest,
    HandleCreateDeckResponse(Result<Deck, Error>),
    HandleDeleteDeckResponse(Result<(), Error>),
    UsernameChanged(String),
    PasswordChanged(String),
    SignupUsernameChanged(String),
    SignupPasswordChanged(String),
    SignupBioChanged(String),
    SignupNickChanged(String),
    SelectDeck(usize),
    StartRound,
    CancelRound(TargetView),
    Answer(usize),
    /// A timer tick; carries the milliseconds elapsed since the last one.
    Tick(u64),
    EditDeck,
    NewDeck,
    AddCard,
    DeleteDeck,
    DeleteCard(usize),
    DeleteAnswer(usize, usize),
    AddAnswer(usize),
    EditDeckTitleChanged(String),
    EditDeckDescriptionChanged(String),
    CardTitleChanged(usize, String),
    AnswerTextChanged((usize, usize), String),
    AnswerIsCorrectChanged((usize, usize), bool),
    FocusNext,
    FocusPrevious,
    KeyboardAnswer(usize),
    Noop(usize),
}

/// The whole session: credentials, the deck cache, the quiz round, the
/// edit buffer, and the screen being shown.
#[derive(Debug)]
pub struct Session {
    pub signup: Signup,
    pub login: Login,
    pub first_login: bool,
    pub remote_error: Option<Error>,
    pub token: String,
    pub store: DeckStore,
    pub selected_deck: usize,
    pub selected_card: usize,
    pub selected_answers: Vec<Vec<bool>>,
    pub check: bool,
    pub answered: bool,
    pub duration_ms: u64,
    pub already_selected: bool,
    pub state: States,
    pub score: Score,
    pub edit_deck: EditDeck,
    pub pending_operation: PendingOperation,
}

impl Session {
    /// The cards of the deck the round is being played on.
    pub open spec fn round_cards(&self) -> Seq<Card> {
        self.store.decks@[self.selected_deck as int].cards@
    }

    /// What must hold of a session whose screen is the quiz round: the
    /// selected deck exists and has cards, the current card exists, and
    /// the chosen-answer rows mirror the cards row for row.
    pub open spec fn round_wf(&self) -> bool {
        &&& self.selected_deck < self.store.decks@.len()
        &&& self.round_cards().len() > 0
        &&& self.selected_card < self.round_cards().len()
        &&& self.selected_answers@.len() == self.round_cards().len()
        &&& forall|i: int|
            0 <= i < self.round_cards().len() ==> #[trigger] self.selected_answers@[i]@.len()
                == self.round_cards()[i].possible_answers@.len()
        &&& self.answered ==> self.duration_ms <= ANSWER_DELAY_MS
    }

    /// The session invariant: the deck cache is well formed, a round
    /// screen has a well-formed round, a results screen never shows a
    /// timer beyond its delay, and the score is a valid fraction.
    pub open spec fn wf(&self) -> bool {
        &&& self.store.wf()
        &&& self.state is Round ==> self.round_wf()
        &&& self.state is Result ==> self.duration_ms <= RESULTS_DELAY_MS
        &&& self.score.wf()
    }

    /// The fresh session: the welcome screen, blank credentials, an empty
    /// cache, no round, no pending operation.
    pub fn new() -> (s: Session)
        ensures
            s.state is Welcome,
            s.signup.nick@.len() == 0,
            s.signup.bio@.len() == 0,
            s.signup.username@.len() == 0,
            s.signup.password@.len() == 0,
            s.login.username@.len() == 0,
            s.login.password@.len() == 0,
            s.first_login,
            s.remote_error is None,
            s.token@.len() == 0,
            s.store.decks@.len() == 0,
            s.store.fully_fetched@.len() == 0,
            s.selected_deck == 0,
            s.selected_card == 0,
            s.selected_answers@.len() == 0,
            !s.check,
            !s.answered,
            s.duration_ms == 0,
            !s.already_selected,
            s.score == (Score { correct_cards: 0, total_cards: 0 }),
            s.edit_deck@ == crate::entities::empty_deck_view(),
            s.pending_operation is Idle,
            s.wf(),
    {
        let s = Session {
            signup: Signup {
                nick: "".to_owned(),
                bio: "".to_owned(),
                username: "".to_owned(),
                password: "".to_owned(),
            },
            login: Login { username: "".to_owned(), password: "".to_owned() },
            first_login: true,
            remote_error: None,
            token: "".to_owned(),
            store: DeckStore::new(),
            selected_deck: 0,
            selected_card: 0,
            selected_answers: Vec::new(),
            check: false,
            answered: false,
            duration_ms: 0,
            already_selected: false,
            state: States::Welcome,
            score: Score::zero(),
            edit_deck: EditDeck::new(),
            pending_operation: PendingOperation::Idle,
        };
        proof {
            reveal_strlit("");
        }
        s
    }
}

/// What recording an answer does: ignored once a choice is locked in or
/// when the index is out of range for the current card; otherwise the
/// choice is marked, feedback turns on, and the feedback timer restarts.
pub open spec fn answer_step(pre: Session, post: Session, answer: usize) -> bool {
    if pre.answered {
        post == pre
    } else if answer < pre.selected_answers@[pre.selected_card as int]@.len() {
        &&& post == (Session {
            selected_answers: post.selected_answers,
            check: true,
            duration_ms: 0,
            answered: true,
            ..pre
        })
        &&& post.selected_answers@.len() == pre.selected_answers@.len()
        &&& post.selected_answers@[pre.selected_card as int]@ == pre.selected_answers@[pre.selected_card as int]@.update(answer as int, true)
        &&& forall|j: int|
            0 <= j < pre.selected_answers@.len() && j != pre.selected_card
                ==> post.selected_answers@[j] == pre.selected_answers@[j]
    } else {
        post == pre
    }
}

/// What starting a round does: nothing on a deck with no cards; otherwise
/// the round screen opens on the first card with a blank all-false answer
/// row per card and a reset timer.
pub open spec fn start_round_step(pre: Session, post: Session) -> bool {
    if pre.store.decks@[pre.selected_deck as int].cards@.len() == 0 {
        post == pre
    } else {
        &&& post == (Session {
            state: States::Round,
            selected_answers: post.selected_answers,
            selected_card: 0,
            check: false,
            answered: false,
            duration_ms: 0,
            ..pre
        })
        &&& post.selected_answers@.len() == pre.store.decks@[pre.selected_deck as int].cards@.len()
        &&& forall|i: int|
            0 <= i < post.selected_answers@.len() ==> #[trigger] post.selected_answers@[i]@.len()
                == pre.store.decks@[pre.selected_deck as int].cards@[i].possible_answers@.len()
        &&& forall|i: int, j: int|
            0 <= i < post.selected_answers@.len() && 0 <= j < post.selected_answers@[i]@.len()
                ==> !(#[trigger] post.selected_answers@[i]@[j])
    }
}

/// What cancelling a round does: the transient round fields reset and the
/// named screen is shown.
pub open spec fn cancel_round_step(pre: Session, post: Session, target: TargetView) -> bool {
    post == (Session {
        selected_card: 0,
        check: false,
        duration_ms: 0,
        answered: false,
        state: (match target {
            TargetView::Details => States::Details,
            TargetView::Welcome => States::Loaded,
        }),
        ..pre
    })
}

/// What a timer tick does. On the round screen with a locked-in choice it
/// accumulates time, and past the feedback delay it advances: to the next
/// card, or — after the last card — to the results screen with the score
/// computed. On the results screen it accumulates time up to the results
/// delay, then freezes.
pub open spec fn tick_step(pre: Session, post: Session, elapsed: u64) -> bool {
    if pre.state is Round && pre.answered {
        let d = pre.duration_ms + elapsed;
        if d > ANSWER_DELAY_MS {
            if pre.selected_card + 1 == pre.round_cards().len() {
                &&& post == (Session {
                    state: States::Result,
                    duration_ms: 0,
                    selected_card: 0,
                    score: post.score,
                    ..pre
                })
                &&& post.score.total_cards == pre.round_cards().len()
                &&& post.score.correct_cards == count_correct(
                    cards_view(pre.round_cards()),
                    pre.selected_answers.deep_view(),
                )
            } else {
                post == (Session {
                    selected_card: (pre.selected_card + 1) as usize,
                    check: false,
                    answered: false,
                    duration_ms: d as u64,
                    ..pre
                })
            }
        } else {
            post == (Session { duration_ms: d as u64, ..pre })
        }
    } else if pre.state is Result {
        if pre.duration_ms < RESULTS_DELAY_MS {
            let d = pre.duration_ms + elapsed;
            if d > RESULTS_DELAY_MS {
                post == (Session { duration_ms: RESULTS_DELAY_MS, answered: false, ..pre })
            } else {
                post == (Session { duration_ms: d as u64, ..pre })
            }
        } else {
            post == (Session { answered: false, ..pre })
        }
    } else {
        post == pre
    }
}

/// What selecting a deck does: a fully fetched deck opens its details at
/// once with no remote call; otherwise the single-deck fetch is issued
/// and recorded as the pending operation.
pub open spec fn select_deck_step(
    pre: Session,
    post: Session,
    index: usize,
    eff: Option<Effect>,
) -> bool {
    if pre.store.fully_fetched@[index as int] {
        &&& post == (Session {
            already_selected: true,
            selected_deck: index,
            state: States::Details,
            ..pre
        })
        &&& eff is None
    } else {
        &&& post == (Session {
            already_selected: true,
            selected_deck: index,
            pending_operation: post.pending_operation,
            ..pre
        })
        &&& post.pending_operation matches PendingOperation::GetDeck(id) && id
            == pre.store.decks@[index as int].id
        &&& eff matches Some(Effect::FetchDeck(t, i)) && t == pre.token && i
            == pre.store.decks@[index as int].id
    }
}

impl Session {
    /// Records the choice of answer `answer` for the current card, unless
    /// one is already locked in or the index is out of range.
    pub fn answer(&mut self, answer: usize)
        requires
            !old(self).answered ==> old(self).selected_card < old(self).selected_answers@.len(),
        ensures
            answer_step(*old(self), *final(self), answer),
            old(self).wf() ==> final(self).wf(),
    {
        if !self.answered && answer < self.selected_answers[self.selected_card].len() {
            let row_index = self.selected_card;
            let mut row = self.selected_answers.remove(row_index);
            row[answer] = true;
            self.selected_answers.insert(row_index, row);
            self.check = true;
            self.duration_ms = 0;
            self.answered = true;
            proof {
                assert(final(self).selected_answers@ =~= old(self).selected_answers@.update(
                    row_index as int,
                    final(self).selected_answers@[row_index as int],
                ));
            }
        }
    }

    /// Opens the round screen on the selected deck, with a blank answer
    /// row per card; a deck without cards starts no round.
    pub fn start_round(&mut self)
        requires
            old(self).selected_deck < old(self).store.decks@.len(),
            old(self).store.wf(),
        ensures
            start_round_step(*old(self), *final(self)),
            old(self).wf() ==> final(self).wf(),
    {
        let index = self.selected_deck;
        let n = self.store.decks[index].cards.len();
        if n > 0 {
            let mut rows: Vec<Vec<bool>> = Vec::new();
            let mut i: usize = 0;
            while i < n
                invariant
                    *self == *old(self),
                    index == self.selected_deck,
                    n == self.store.decks@[index as int].cards@.len(),
                    index < self.store.decks@.len(),
                    0 <= i <= n,
                    rows@.len() == i,
                    forall|j: int|
                        0 <= j < i ==> #[trigger] rows@[j]@.len()
                            == self.store.decks@[index as int].cards@[j].possible_answers@.len(),
                    forall|j: int, k: int|
                        0 <= j < i && 0 <= k < rows@[j]@.len() ==> !(#[trigger] rows@[j]@[k]),
                decreases n - i,
            {
                let m = self.store.decks[index].cards[i].possible_answers.len();
                rows.push(vec![false; m]);
                i += 1;
            }
            self.state = States::Round;
            self.selected_answers = rows;
            self.selected_card = 0;
            self.check = false;
            self.answered = false;
            self.duration_ms = 0;
        }
    }

    /// Leaves the round or results screen for the named target, resetting
    /// the transient round fields.
    pub fn cancel_round(&mut self, target: TargetView)
        ensures
            cancel_round_step(*old(self), *final(self), target),
            old(self).wf() ==> final(self).wf(),
    {
        self.selected_card = 0;
        self.check = false;
        self.duration_ms = 0;
        self.answered = false;
        self.state = match target {
            TargetView::Details => States::Details,
            TargetView::Welcome => States::Loaded,
        };
    }

    /// Advances the round or results screen by `elapsed` milliseconds of
    /// wall-clock time.
    pub fn on_tick(&mut self, elapsed: u64)
        requires
            old(self).wf(),
            elapsed <= u64::MAX - RESULTS_DELAY_MS,
        ensures
            tick_step(*old(self), *final(self), elapsed),
            final(self).wf(),
    {
        match self.state {
            States::Round => {
                if self.answered {
                    self.duration_ms = self.duration_ms + elapsed;
                    if self.duration_ms > ANSWER_DELAY_MS {
                        let last = self.store.decks[self.selected_deck].cards.len() - 1;
                        if self.selected_card == last {
                            self.state = States::Result;
                            self.duration_ms = 0;
                            self.selected_card = 0;
                            self.score = calculate_score(
                                &self.store.decks[self.selected_deck].cards,
                                &self.selected_answers,
                            );
                        } else {
                            self.selected_card = self.selected_card + 1;
                            self.check = false;
                            self.answered = false;
                        }
                    }
                }
            },
            States::Result => {
                if self.duration_ms < RESULTS_DELAY_MS {
                    self.duration_ms = self.duration_ms + elapsed;
                    if self.duration_ms > RESULTS_DELAY_MS {
                        self.duration_ms = RESULTS_DELAY_MS;
                        self.answered = false;
                    }
                } else {
                    self.answered = false;
                }
            },
            _ => {},
        }
    }

    /// Selects the deck at `index`: synchronously when it is already
    /// fully fetched, otherwise by issuing the single-deck fetch.
    pub fn select_deck(&mut self, index: usize) -> (eff: Option<Effect>)
        requires
            old(self).store.wf(),
            index < old(self).store.decks@.len(),
            !(old(self).state is Round),
        ensures
            select_deck_step(*old(self), *final(self), index, eff),
            old(self).wf() ==> final(self).wf(),
    {
        self.already_selected = true;
        self.selected_deck = index;
        if self.store.fully_fetched[index] {
            self.state = States::Details;
            return None;
        }
        let id = self.store.decks[index].id.clone();
        self.pending_operation = PendingOperation::GetDeck(id.clone());
        Some(Effect::FetchDeck(self.token.clone(), id))
    }
}

/// What a completed deck-list fetch does. On success the cache is
/// replaced with the summaries, none fully fetched, the pending operation
/// is cleared and the deck listing is shown. An authentication failure
/// triggers a silent re-login; any other failure is recorded and the
/// screen stays.
pub open spec fn decks_response_step(
    pre: Session,
    post: Session,
    result: Result<Vec<Deck>, Error>,
    eff: Option<Effect>,
) -> bool {
    match result {
        Ok(decks) => {
            &&& post == (Session {
                store: post.store,
                pending_operation: PendingOperation::Idle,
                state: States::Loaded,
                ..pre
            })
            &&& post.store.decks == decks
            &&& post.store.fully_fetched@.len() == decks@.len()
            &&& forall|i: int|
                0 <= i < decks@.len() ==> !(#[trigger] post.store.fully_fetched@[i])
            &&& eff is None
        },
        Err(e) => {
            if e is AuthError {
                &&& post == pre
                &&& eff matches Some(Effect::LogIn(l)) && l == pre.login
            } else {
                &&& post == (Session { remote_error: Some(e), ..pre })
                &&& eff is None
            }
        },
    }
}

/// What a completed single-deck fetch does. On success the selected entry
/// is upgraded to fully fetched with the returned cards, the pending
/// operation is cleared and the details screen opens. An authentication
/// failure triggers a silent re-login; any other failure is recorded.
pub open spec fn deck_response_step(
    pre: Session,
    post: Session,
    result: Result<Deck, Error>,
    eff: Option<Effect>,
) -> bool {
    match result {
        Ok(deck) => {
            &&& post == (Session {
                store: post.store,
                pending_operation: PendingOperation::Idle,
                state: States::Details,
                ..pre
            })
            &&& post.store.decks@ == pre.store.decks@.update(
                pre.selected_deck as int,
                (Deck { cards: deck.cards, ..pre.store.decks@[pre.selected_deck as int] }),
            )
            &&& post.store.fully_fetched@ == pre.store.fully_fetched@.update(
                pre.selected_deck as int,
                true,
            )
            &&& eff is None
        },
        Err(e) => {
            if e is AuthError {
                &&& post == pre
                &&& eff matches Some(Effect::LogIn(l)) && l == pre.login
            } else {
                &&& post == (Session { remote_error: Some(e), ..pre })
                &&& eff is None
            }
        },
    }
}

/// What a completed create-or-replace call does. On success from the
/// create form the new deck is appended fully fetched and its details
/// open; from the edit form the deck replaces the selected entry and the
/// old server copy is deleted, without waiting for that delete. An
/// authentication failure queues the composed deck for replay and
/// triggers a silent re-login; any other failure is recorded.
pub open spec fn create_response_step(
    pre: Session,
    post: Session,
    result: Result<Deck, Error>,
    eff: Option<Effect>,
) -> bool {
    match result {
        Ok(deck) => {
            match pre.state {
                States::Create => {
                    &&& post == (Session {
                        store: post.store,
                        already_selected: true,
                        selected_deck: post.selected_deck,
                        state: States::Details,
                        ..pre
                    })
                    &&& post.store.decks@ == pre.store.decks@.push(deck)
                    &&& post.store.fully_fetched@ == pre.store.fully_fetched@.push(true)
                    &&& post.selected_deck == pre.store.decks@.len()
                    &&& eff is None
                },
                States::Edit => {
                    &&& post == (Session { store: post.store, state: States::Details, ..pre })
                    &&& post.store.decks@ == pre.store.decks@.update(
                        pre.selected_deck as int,
                        deck,
                    )
                    &&& post.store.fully_fetched == pre.store.fully_fetched
                    &&& eff matches Some(Effect::DeleteDeck(t, id)) && t == pre.token && id
                        == pre.store.decks@[pre.selected_deck as int].id
                },
                _ => post == pre && eff is None,
            }
        },
        Err(e) => {
            if e is AuthError {
                &&& post == (Session { pending_operation: post.pending_operation, ..pre })
                &&& post.pending_operation matches PendingOperation::CreateDeck(d) && d@
                    == pre.edit_deck@
                &&& eff matches Some(Effect::LogIn(l)) && l == pre.login
            } else {
                &&& post == (Session { remote_error: Some(e), ..pre })
                &&& eff is None
            }
        },
    }
}

/// What a completed delete call does. On success only the pending
/// operation is cleared: the local removal already happened when the
/// delete was requested. An authentication failure triggers a silent
/// re-login; any other failure is recorded, and the optimistic local
/// removal is deliberately not rolled back.
pub open spec fn delete_response_step(
    pre: Session,
    post: Session,
    result: Result<(), Error>,
    eff: Option<Effect>,
) -> bool {
    match result {
        Ok(_) => {
            &&& post == (Session { pending_operation: PendingOperation::Idle, ..pre })
            &&& eff is None
        },
        Err(e) => {
            if e is AuthError {
                &&& post == pre
                &&& eff matches Some(Effect::LogIn(l)) && l == pre.login
            } else {
                &&& post == (Session { remote_error: Some(e), ..pre })
                &&& eff is None
            }
        },
    }
}

/// What a completed sign-up or log-in does. On the session's first
/// successful login the deck listing is fetched and recorded as pending;
/// on a later one — a token renewal — exactly the pending operation is
/// re-issued with the new token. On failure the pending operation is
/// dropped and the error recorded.
pub open spec fn auth_response_step(
    pre: Session,
    post: Session,
    result: Result<Token, Error>,
    eff: Option<Effect>,
) -> bool {
    match result {
        Ok(t) => {
            if pre.first_login {
                &&& post == (Session {
                    token: t.token,
                    first_login: false,
                    pending_operation: PendingOperation::GetDecks,
                    ..pre
                })
                &&& eff matches Some(Effect::FetchDecks(tok)) && tok == t.token
            } else {
                &&& post == (Session { token: t.token, ..pre })
                &&& match pre.pending_operation {
                    PendingOperation::GetDecks => eff matches Some(Effect::FetchDecks(tok)) && tok
                        == t.token,
                    PendingOperation::GetDeck(id) => eff matches Some(Effect::FetchDeck(tok, i))
                        && tok == t.token && i == id,
                    PendingOperation::DeleteDeck(id) => eff matches Some(
                        Effect::DeleteDeck(tok, i),
                    ) && tok == t.token && i == id,
                    PendingOperation::CreateDeck(d) => eff matches Some(
                        Effect::CreateDeck(tok, dd),
                    ) && tok == t.token && dd@ == d@,
                    PendingOperation::Idle => eff is None,
                }
            }
        },
        Err(e) => {
            &&& post == (Session {
                pending_operation: PendingOperation::Idle,
                remote_error: Some(e),
                ..pre
            })
            &&& eff is None
        },
    }
}

/// What requesting a delete does: the selected deck is removed locally at
/// once, the delete is recorded as pending and issued, and the deck
/// listing is shown again.
pub open spec fn delete_deck_step(pre: Session, post: Session, eff: Option<Effect>) -> bool {
    &&& post == (Session {
        store: post.store,
        already_selected: false,
        pending_operation: post.pending_operation,
        state: States::Loaded,
        ..pre
    })
    &&& post.store.decks@ == pre.store.decks@.remove(pre.selected_deck as int)
    &&& post.store.fully_fetched@ == pre.store.fully_fetched@.remove(pre.selected_deck as int)
    &&& post.pending_operation matches PendingOperation::DeleteDeck(id) && id
        == pre.store.decks@[pre.selected_deck as int].id
    &&& eff matches Some(Effect::DeleteDeck(t, i)) && t == pre.token && i
        == pre.store.decks@[pre.selected_deck as int].id
}

impl Session {
    /// Applies a completed deck-list fetch.
    pub fn on_decks_response(&mut self, result: Result<Vec<Deck>, Error>) -> (eff: Option<Effect>)
        ensures
            decks_response_step(*old(self), *final(self), result, eff),
            old(self).wf() ==> final(self).wf(),
    {
        match result {
            Ok(decks) => {
                self.store.replace_with_summaries(decks);
                self.pending_operation = PendingOperation::Idle;
                self.state = States::Loaded;
                None
            },
            Err(err) => {
                match err {
                    Error::AuthError => Some(Effect::LogIn(self.login.clone())),
                    _ => {
                        self.remote_error = Some(err);
                        None
                    },
                }
            },
        }
    }

    /// Applies a completed single-deck fetch.
    pub fn on_deck_response(&mut self, result: Result<Deck, Error>) -> (eff: Option<Effect>)
        requires
            old(self).store.wf(),
            result is Ok ==> old(self).selected_deck < old(self).store.decks@.len(),
        ensures
            deck_response_step(*old(self), *final(self), result, eff),
            old(self).wf() ==> final(self).wf(),
    {
        match result {
            Ok(deck) => {
                let index = self.selected_deck;
                self.store.set_cards(index, deck.cards);
                self.pending_operation = PendingOperation::Idle;
                self.state = States::Details;
                None
            },
            Err(err) => {
                match err {
                    Error::AuthError => Some(Effect::LogIn(self.login.clone())),
                    _ => {
                        self.remote_error = Some(err);
                        None
                    },
                }
            },
        }
    }

    /// Applies a completed create-or-replace call.
    pub fn on_create_deck_response(&mut self, result: Result<Deck, Error>) -> (eff: Option<Effect>)
        requires
            old(self).store.wf(),
            old(self).state is Edit && result is Ok ==> old(self).selected_deck < old(self).store.decks@.len(),
        ensures
            create_response_step(*old(self), *final(self), result, eff),
            old(self).wf() ==> final(self).wf(),
    {
        match result {
            Ok(deck) => {
                match self.state {
                    States::Create => {
                        let index = self.store.len();
                        self.store.push_full(deck);
                        self.already_selected = true;
                        self.selected_deck = index;
                        self.state = States::Details;
                        None
                    },
                    States::Edit => {
                        let index = self.selected_deck;
                        let id = self.store.decks[index].id.clone();
                        self.store.replace_deck(index, deck);
                        self.state = States::Details;
                        Some(Effect::DeleteDeck(self.token.clone(), id))
                    },
                    _ => None,
                }
            },
            Err(err) => {
                match err {
                    Error::AuthError => {
                        let deck = crate::edit::deck_from_edit_deck(&self.edit_deck);
                        self.pending_operation = PendingOperation::CreateDeck(deck);
                        Some(Effect::LogIn(self.login.clone()))
                    },
                    _ => {
                        self.remote_error = Some(err);
                        None
                    },
                }
            },
        }
    }

    /// Applies a completed delete call.
    pub fn on_delete_deck_response(&mut self, result: Result<(), Error>) -> (eff: Option<Effect>)
        ensures
            delete_response_step(*old(self), *final(self), result, eff),
            old(self).wf() ==> final(self).wf(),
    {
        match result {
            Ok(_) => {
                self.pending_operation = PendingOperation::Idle;
                None
            },
            Err(err) => {
                match err {
                    Error::AuthError => Some(Effect::LogIn(self.login.clone())),
                    _ => {
                        self.remote_error = Some(err);
                        None
                    },
                }
            },
        }
    }

    /// Applies a completed sign-up or log-in.
    pub fn on_auth_response(&mut self, result: Result<Token, Error>) -> (eff: Option<Effect>)
        ensures
            auth_response_step(*old(self), *final(self), result, eff),
            old(self).wf() ==> final(self).wf(),
    {
        match result {
            Ok(t) => {
                self.token = t.token.clone();
                if self.first_login {
                    self.first_login = false;
                    self.pending_operation = PendingOperation::GetDecks;
                    Some(Effect::FetchDecks(t.token))
                } else {
                    match &self.pending_operation {
                        PendingOperation::GetDecks => Some(Effect::FetchDecks(t.token)),
                        PendingOperation::GetDeck(id) => Some(
                            Effect::FetchDeck(t.token, id.clone()),
                        ),
                        PendingOperation::DeleteDeck(id) => Some(
                            Effect::DeleteDeck(t.token, id.clone()),
                        ),
                        PendingOperation::CreateDeck(deck) => Some(
                            Effect::CreateDeck(t.token, deck.clone()),
                        ),
                        PendingOperation::Idle => None,
                    }
                }
            },
            Err(err) => {
                self.pending_operation = PendingOperation::Idle;
                self.remote_error = Some(err);
                None
            },
        }
    }

    /// Removes the selected deck locally and issues its delete.
    pub fn delete_selected_deck(&mut self) -> (eff: Option<Effect>)
        requires
            old(self).store.wf(),
            old(self).selected_deck < old(self).store.decks@.len(),
        ensures
            delete_deck_step(*old(self), *final(self), eff),
            old(self).wf() ==> final(self).wf(),
    {
        let index = self.selected_deck;
        let id = self.store.decks[index].id.clone();
        self.store.remove(index);
        self.already_selected = false;
        self.pending_operation = PendingOperation::DeleteDeck(id.clone());
        self.state = States::Loaded;
        Some(Effect::DeleteDeck(self.token.clone(), id))
    }

    /// What each message demands of the session before it can be
    /// handled: the index it carries must exist, a tick must not overflow
    /// the timer, and an answer must have a current card to land on.
    /// Messages whose index is stale are a caller contract violation.
    pub open spec fn msg_wf(&self, msg: Message) -> bool {
        match msg {
            Message::HandleDeckResponse(result) => result is Ok ==> self.selected_deck
                < self.store.decks@.len(),
            Message::HandleCreateDeckResponse(result) => self.state is Edit && result is Ok
                ==> self.selected_deck < self.store.decks@.len(),
            Message::SelectDeck(index) => index < self.store.decks@.len() && !(self.state
                is Round),
            Message::StartRound => self.selected_deck < self.store.decks@.len(),
            Message::DeleteDeck => self.selected_deck < self.store.decks@.len(),
            Message::EditDeck => self.selected_deck < self.store.decks@.len(),
            Message::Answer(_) => !self.answered ==> self.selected_card
                < self.selected_answers@.len(),
            Message::Tick(elapsed) => elapsed <= u64::MAX - RESULTS_DELAY_MS,
            Message::CardTitleChanged(i, _) => i < self.edit_deck.cards@.len(),
            Message::AnswerTextChanged((i, j), _) => i < self.edit_deck.cards@.len() && j
                < self.edit_deck.cards@[i as int].possible_answers@.len(),
            Message::AnswerIsCorrectChanged((i, j), _) => i < self.edit_deck.cards@.len() && j
                < self.edit_deck.cards@[i as int].possible_answers@.len(),
            Message::AddAnswer(i) => i < self.edit_deck.cards@.len(),
            Message::DeleteCard(i) => i < self.edit_deck.cards@.len(),
            Message::DeleteAnswer(i, j) => i < self.edit_deck.cards@.len() && j
                < self.edit_deck.cards@[i as int].possible_answers@.len(),
            _ => true,
        }
    }

    /// The session's one entry point: performs the transition the message
    /// calls for and returns the asynchronous call to start, if any.
    pub fn handle(&mut self, msg: Message) -> (eff: Option<Effect>)
        requires
            old(self).wf(),
            old(self).msg_wf(msg),
        ensures
            final(self).wf(),
            match msg {
                Message::SignUp => {
                    &&& *final(self) == (Session {
                        signup: (Signup {
                            username: old(self).login.username,
                            password: old(self).login.password,
                            ..old(self).signup
                        }),
                        state: States::Signup,
                        ..*old(self)
                    })
                    &&& eff is None
                },
                Message::SendSignUp => *final(self) == *old(self) && (eff matches Some(
                    Effect::SignUp(s),
                ) && s == old(self).signup),
                Message::ToLoginFromSignUp => {
                    &&& *final(self) == (Session {
                        login: final(self).login,
                        state: States::Welcome,
                        ..*old(self)
                    })
                    &&& final(self).login.username == (if old(self).login.username@.len() == 0 {
                        old(self).signup.username
                    } else {
                        old(self).login.username
                    })
                    &&& final(self).login.password == (if old(self).login.password@.len() == 0 {
                        old(self).signup.password
                    } else {
                        old(self).login.password
                    })
                    &&& eff is None
                },
                Message::SendLogIn => *final(self) == *old(self) && (eff matches Some(
                    Effect::LogIn(l),
                ) && l == old(self).login),
                Message::HandleAuthResponse(result) => auth_response_step(
                    *old(self),
                    *final(self),
                    result,
                    eff,
                ),
                Message::GetDecks => *final(self) == *old(self) && (eff matches Some(
                    Effect::FetchDecks(t),
                ) && t == old(self).token),
                Message::HandleDecksResponse(result) => decks_response_step(
                    *old(self),
                    *final(self),
                    result,
                    eff,
                ),
                Message::HandleDeckResponse(result) => deck_response_step(
                    *old(self),
                    *final(self),
                    result,
                    eff,
                ),
                Message::SendCreateDeckRequest => *final(self) == *old(self) && (eff matches Some(
                    Effect::CreateDeck(t, d),
                ) && t == old(self).token && d@ == old(self).edit_deck@),
                Message::HandleCreateDeckResponse(result) => create_response_step(
                    *old(self),
                    *final(self),
                    result,
                    eff,
                ),
                Message::HandleDeleteDeckResponse(result) => delete_response_step(
                    *old(self),
                    *final(self),
                    result,
                    eff,
                ),
                Message::UsernameChanged(u) => {
                    &&& *final(self) == (Session {
                        login: (Login { username: u, ..old(self).login }),
                        ..*old(self)
                    })
                    &&& eff is None
                },
                Message::PasswordChanged(p) => {
                    &&& *final(self) == (Session {
                        login: (Login { password: p, ..old(self).login }),
                        ..*old(self)
                    })
                    &&& eff is None
                },
                Message::SignupUsernameChanged(u) => {
                    &&& *final(self) == (Session {
                        signup: (Signup { username: u, ..old(self).signup }),
                        ..*old(self)
                    })
                    &&& eff is None
                },
                Message::SignupPasswordChanged(p) => {
                    &&& *final(self) == (Session {
                        signup: (Signup { password: p, ..old(self).signup }),
                        ..*old(self)
                    })
                    &&& eff is None
                },
                Message::SignupBioChanged(b) => {
                    &&& *final(self) == (Session {
                        signup: (Signup { bio: b, ..old(self).signup }),
                        ..*old(self)
                    })
                    &&& eff is None
                },
                Message::SignupNickChanged(n) => {
                    &&& *final(self) == (Session {
                        signup: (Signup { nick: n, ..old(self).signup }),
                        ..*old(self)
                    })
                    &&& eff is None
                },
                Message::SelectDeck(index) => select_deck_step(
                    *old(self),
                    *final(self),
                    index,
                    eff,
                ),
                Message::StartRound => start_round_step(*old(self), *final(self)) && eff is None,
                Message::CancelRound(target) => cancel_round_step(*old(self), *final(self), target)
                    && eff is None,
                Message::Answer(index) => answer_step(*old(self), *final(self), index) && eff
                    is None,
                Message::Tick(elapsed) => tick_step(*old(self), *final(self), elapsed) && eff
                    is None,
                Message::EditDeck => {
                    &&& *final(self) == (Session {
                        edit_deck: final(self).edit_deck,
                        state: States::Edit,
                        ..*old(self)
                    })
                    &&& final(self).edit_deck@ == old(self).store.decks@[old(self).selected_deck as int]@
                    &&& eff is None
                },
                Message::NewDeck => {
                    &&& *final(self) == (Session {
                        edit_deck: final(self).edit_deck,
                        state: States::Create,
                        ..*old(self)
                    })
                    &&& final(self).edit_deck@ == crate::entities::empty_deck_view()
                    &&& eff is None
                },
                Message::AddCard => {
                    &&& *final(self) == (Session { edit_deck: final(self).edit_deck, ..*old(self) })
                    &&& final(self).edit_deck == (EditDeck {
                        cards: final(self).edit_deck.cards,
                        ..old(self).edit_deck
                    })
                    &&& final(self).edit_deck.cards@.len() == old(self).edit_deck.cards@.len() + 1
                    &&& forall|j: int|
                        0 <= j < old(self).edit_deck.cards@.len() ==> final(self).edit_deck.cards@[j] == old(self).edit_deck.cards@[j]
                    &&& final(self).edit_deck.cards@.last()@.title.len() == 0
                    &&& final(self).edit_deck.cards@.last()@.answers.len() == 0
                    &&& eff matches Some(Effect::ScrollEditViewToEnd)
                },
                Message::DeleteDeck => delete_deck_step(*old(self), *final(self), eff),
                Message::DeleteCard(i) => {
                    &&& *final(self) == (Session { edit_deck: final(self).edit_deck, ..*old(self) })
                    &&& final(self).edit_deck == (EditDeck {
                        cards: final(self).edit_deck.cards,
                        ..old(self).edit_deck
                    })
                    &&& final(self).edit_deck.cards@ == old(self).edit_deck.cards@.remove(i as int)
                    &&& eff is None
                },
                Message::DeleteAnswer(i, j) => {
                    &&& *final(self) == (Session { edit_deck: final(self).edit_deck, ..*old(self) })
                    &&& final(self).edit_deck == (EditDeck {
                        cards: final(self).edit_deck.cards,
                        ..old(self).edit_deck
                    })
                    &&& final(self).edit_deck.cards@ == old(self).edit_deck.cards@.update(
                        i as int,
                        (EditCard {
                            possible_answers: final(self).edit_deck.cards@[i as int].possible_answers,
                            ..old(self).edit_deck.cards@[i as int]
                        }),
                    )
                    &&& final(self).edit_deck.cards@[i as int].possible_answers@ == old(self).edit_deck.cards@[i as int].possible_answers@.remove(j as int)
                    &&& eff is None
                },
                Message::AddAnswer(i) => {
                    &&& *final(self) == (Session { edit_deck: final(self).edit_deck, ..*old(self) })
                    &&& final(self).edit_deck == (EditDeck {
                        cards: final(self).edit_deck.cards,
                        ..old(self).edit_deck
                    })
                    &&& final(self).edit_deck.cards@ == old(self).edit_deck.cards@.update(
                        i as int,
                        (EditCard {
                            possible_answers: final(self).edit_deck.cards@[i as int].possible_answers,
                            ..old(self).edit_deck.cards@[i as int]
                        }),
                    )
                    &&& final(self).edit_deck.cards@[i as int].possible_answers@.len() == old(self).edit_deck.cards@[i as int].possible_answers@.len() + 1
                    &&& forall|k: int|
                        0 <= k < old(self).edit_deck.cards@[i as int].possible_answers@.len()
                            ==> final(self).edit_deck.cards@[i as int].possible_answers@[k] == old(self).edit_deck.cards@[i as int].possible_answers@[k]
                    &&& final(self).edit_deck.cards@[i as int].possible_answers@.last()@.text.len()
                        == 0
                    &&& !final(self).edit_deck.cards@[i as int].possible_answers@.last()@.is_correct
                    &&& eff is None
                },
                Message::EditDeckTitleChanged(t) => {
                    &&& *final(self) == (Session {
                        edit_deck: (EditDeck { title: t, ..old(self).edit_deck }),
                        ..*old(self)
                    })
                    &&& eff is None
                },
                Message::EditDeckDescriptionChanged(d) => {
                    &&& *final(self) == (Session {
                        edit_deck: (EditDeck { description: d, ..old(self).edit_deck }),
                        ..*old(self)
                    })
                    &&& eff is None
                },
                Message::CardTitleChanged(i, t) => {
                    &&& *final(self) == (Session { edit_deck: final(self).edit_deck, ..*old(self) })
                    &&& final(self).edit_deck == (EditDeck {
                        cards: final(self).edit_deck.cards,
                        ..old(self).edit_deck
                    })
                    &&& final(self).edit_deck.cards@ == old(self).edit_deck.cards@.update(
                        i as int,
                        (EditCard { title: t, ..old(self).edit_deck.cards@[i as int] }),
                    )
                    &&& eff is None
                },
                Message::AnswerTextChanged((i, j), t) => {
                    &&& *final(self) == (Session { edit_deck: final(self).edit_deck, ..*old(self) })
                    &&& final(self).edit_deck == (EditDeck {
                        cards: final(self).edit_deck.cards,
                        ..old(self).edit_deck
                    })
                    &&& final(self).edit_deck.cards@ == old(self).edit_deck.cards@.update(
                        i as int,
                        (EditCard {
                            possible_answers: final(self).edit_deck.cards@[i as int].possible_answers,
                            ..old(self).edit_deck.cards@[i as int]
                        }),
                    )
                    &&& final(self).edit_deck.cards@[i as int].possible_answers@ == old(self).edit_deck.cards@[i as int].possible_answers@.update(
                        j as int,
                        (EditAnswer {
                            text: t,
                            ..old(self).edit_deck.cards@[i as int].possible_answers@[j as int]
                        }),
                    )
                    &&& eff is None
                },
                Message::AnswerIsCorrectChanged((i, j), b) => {
                    &&& *final(self) == (Session { edit_deck: final(self).edit_deck, ..*old(self) })
                    &&& final(self).edit_deck == (EditDeck {
                        cards: final(self).edit_deck.cards,
                        ..old(self).edit_deck
                    })
                    &&& final(self).edit_deck.cards@ == old(self).edit_deck.cards@.update(
                        i as int,
                        (EditCard {
                            possible_answers: final(self).edit_deck.cards@[i as int].possible_answers,
                            ..old(self).edit_deck.cards@[i as int]
                        }),
                    )
                    &&& final(self).edit_deck.cards@[i as int].possible_answers@ == old(self).edit_deck.cards@[i as int].possible_answers@.update(
                        j as int,
                        (EditAnswer {
                            is_correct: b,
                            ..old(self).edit_deck.cards@[i as int].possible_answers@[j as int]
                        }),
                    )
                    &&& eff is None
                },
                Message::FocusNext => *final(self) == *old(self) && eff matches Some(
                    Effect::FocusNext,
                ),
                Message::FocusPrevious => *final(self) == *old(self) && eff matches Some(
                    Effect::FocusPrevious,
                ),
                Message::KeyboardAnswer(index) => {
                    if old(self).state is Round {
                        answer_step(*old(self), *final(self), index) && eff is None
                    } else {
                        *final(self) == *old(self) && eff is None
                    }
                },
                Message::Noop(_) => *final(self) == *old(self) && eff is None,
            },
    {
        match msg {
            Message::GetDecks => Some(Effect::FetchDecks(self.token.clone())),
            Message::HandleDecksResponse(result) => self.on_decks_response(result),
            Message::HandleDeckResponse(result) => self.on_deck_response(result),
            Message::SendCreateDeckRequest => {
                let deck = crate::edit::deck_from_edit_deck(&self.edit_deck);
                Some(Effect::CreateDeck(self.token.clone(), deck))
            },
            Message::HandleCreateDeckResponse(result) => self.on_create_deck_response(result),
            Message::HandleDeleteDeckResponse(result) => self.on_delete_deck_response(result),
            Message::DeleteDeck => self.delete_selected_deck(),
            Message::SendLogIn => Some(Effect::LogIn(self.login.clone())),
            Message::SignUp => {
                self.signup.username = self.login.username.clone();
                self.signup.password = self.login.password.clone();
                self.state = States::Signup;
                None
            },
            Message::HandleAuthResponse(result) => self.on_auth_response(result),
            Message::UsernameChanged(new_username) => {
                self.login.username = new_username;
                None
            },
            Message::PasswordChanged(new_password) => {
                self.login.password = new_password;
                None
            },
            Message::SignupUsernameChanged(new_username) => {
                self.signup.username = new_username;
                None
            },
            Message::SignupPasswordChanged(new_password) => {
                self.signup.password = new_password;
                None
            },
            Message::SignupBioChanged(new_bio) => {
                self.signup.bio = new_bio;
                None
            },
            Message::SignupNickChanged(new_nick) => {
                self.signup.nick = new_nick;
                None
            },
            Message::EditDeckTitleChanged(new_title) => {
                self.edit_deck.title = new_title;
                None
            },
            Message::EditDeckDescriptionChanged(new_description) => {
                self.edit_deck.description = new_description;
                None
            },
            Message::CardTitleChanged(index, new_title) => {
                self.edit_deck.set_card_title(index, new_title);
                None
            },
            Message::AnswerTextChanged((card_index, answer_index), new_text) => {
                self.edit_deck.set_answer_text(card_index, answer_index, new_text);
                None
            },
            Message::AnswerIsCorrectChanged((card_index, answer_index), is_correct) => {
                self.edit_deck.set_answer_correct(card_index, answer_index, is_correct);
                None
            },
            Message::SendSignUp => Some(Effect::SignUp(self.signup.clone())),
            Message::SelectDeck(index) => self.select_deck(index),
            Message::ToLoginFromSignUp => {
                if self.login.username.as_str().is_empty() {
                    self.login.username = self.signup.username.clone();
                }
                if self.login.password.as_str().is_empty() {
                    self.login.password = self.signup.password.clone();
                }
                self.state = States::Welcome;
                None
            },
            Message::StartRound => {
                self.start_round();
                None
            },
            Message::CancelRound(target) => {
                self.cancel_round(target);
                None
            },
            Message::Answer(index) => {
                self.answer(index);
                None
            },
            Message::Tick(elapsed) => {
                self.on_tick(elapsed);
                None
            },
            Message::EditDeck => {
                let index = self.selected_deck;
                self.edit_deck = EditDeck::from_deck(&self.store.decks[index]);
                self.state = States::Edit;
                None
            },
            Message::NewDeck => {
                self.edit_deck = EditDeck::new();
                self.state = States::Create;
                None
            },
            Message::AddCard => {
                self.edit_deck.add_card();
                Some(Effect::ScrollEditViewToEnd)
            },
            Message::AddAnswer(card_index) => {
                self.edit_deck.add_answer(card_index);
                None
            },
            Message::DeleteCard(card_index) => {
                self.edit_deck.remove_card(card_index);
                None
            },
            Message::DeleteAnswer(card_index, answer_index) => {
                self.edit_deck.remove_answer(card_index, answer_index);
                None
            },
            Message::FocusNext => Some(Effect::FocusNext),
            Message::FocusPrevious => Some(Effect::FocusPrevious),
            Message::KeyboardAnswer(index) => {
                match self.state {
                    States::Round => self.answer(index),
                    _ => {},
                }
                None
            },
            Message::Noop(_) => None,
        }
    }

    /// Whether the driver must run the recurring timer: ticks matter only
    /// while a choice is locked in.
    pub fn wants_tick(&self) -> (r: bool)
        ensures
            r == self.answered,
    {
        self.answered
    }
}

/// The message a number key sends during a round: keys 1 to 9 choose the
/// answers at positions 0 to 8, and any other key does nothing.
pub fn to_answer(key_number: usize) -> (msg: Message)
    ensures
        1 <= key_number <= 9 ==> (msg matches Message::KeyboardAnswer(i) && i == key_number - 1),
        !(1 <= key_number <= 9) ==> msg matches Message::Noop(_),
{
    if 1 <= key_number && key_number <= 9 {
        Message::KeyboardAnswer(key_number - 1)
    } else {
        Message::Noop(0)
    }
}

/// Once a choice is locked in, recording an answer changes nothing:
/// repeated `Answer` messages before the advance leave the session
/// exactly as it was.
pub proof fn lemma_answer_locked_in_is_noop(pre: Session, post: Session, index: usize)
    requires
        pre.answered,
        answer_step(pre, post, index),
    ensures
        post == pre,
{
}

/// After a token renewal, the call that is re-issued is exactly the
/// pending one: with a queued delete, the new log-in's success issues the
/// same delete, for the same deck id, under the fresh token.
pub proof fn lemma_renewal_replays_pending_delete(
    pre: Session,
    post: Session,
    token: Token,
    eff: Option<Effect>,
)
    requires
        !pre.first_login,
        pre.pending_operation is DeleteDeck,
        auth_response_step(pre, post, Ok(token), eff),
    ensures
        eff matches Some(Effect::DeleteDeck(tok, id)) && tok == token.token && id
            == pre.pending_operation->DeleteDeck_0,
        post.pending_operation == pre.pending_operation,
{
}

/// Selecting a deck that is already fully fetched issues no remote call
/// and opens the details screen at once.
pub proof fn lemma_select_fetched_is_synchronous(
    pre: Session,
    post: Session,
    index: usize,
    eff: Option<Effect>,
)
    requires
        index < pre.store.fully_fetched@.len(),
        pre.store.fully_fetched@[index as int],
        select_deck_step(pre, post, index, eff),
    ensures
        eff is None,
        post.state is Details,
        post.store == pre.store,
{
}

} // verus!
