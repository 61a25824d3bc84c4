//! Scoring of a quiz round: when a card counts as answered correctly, and
//! the round score as an exact fraction of correct cards.

use vstd::arithmetic::div_mod::{lemma_div_is_ordered, lemma_div_multiples_vanish};
use vstd::prelude::*;

use crate::entities::{answers_view, cards_view, Answer, AnswerView, Card, CardView};

verus! {

/// A card is answered correctly exactly when the chosen flags equal the
/// `is_correct` flags position for position.
pub open spec fn card_correct(answers: Seq<AnswerView>, chosen: Seq<bool>) -> bool {
    &&& chosen.len() == answers.len()
    &&& forall|i: int| 0 <= i < answers.len() ==> chosen[i] == answers[i].is_correct
}

/// How many cards of `cards` are answered correctly by `chosen`.
pub open spec fn count_correct(cards: Seq<CardView>, chosen: Seq<Seq<bool>>) -> int
    recommends
        cards.len() == chosen.len(),
    decreases cards.len(),
{
    if cards.len() == 0 {
        0
    } else {
        count_correct(cards.drop_last(), chosen.drop_last()) + (if card_correct(
            cards.last().answers,
            chosen.last(),
        ) {
            1int
        } else {
            0int
        })
    }
}

/// The score of a round, in hundredths of a percent: `10000` stands for a
/// perfect round. An empty round scores zero.
pub open spec fn percent_times_100(correct: int, total: int) -> int {
    if total <= 0 {
        0
    } else {
        correct * 10000 / total
    }
}

/// The outcome of a round: how many cards were answered correctly, out of
/// how many.
#[derive(Clone, Copy, Debug, PartialEq, Eq, Structural)]
pub struct Score {
    pub correct_cards: usize,
    pub total_cards: usize,
}

impl Score {
    /// A score can never count more correct cards than the round had.
    pub open spec fn wf(&self) -> bool {
        self.correct_cards <= self.total_cards
    }

    /// The score of a round that was never played: nothing out of nothing.
    pub fn zero() -> (s: Score)
        ensures
            s == (Score { correct_cards: 0, total_cards: 0 }),
            s.wf(),
    {
        Score { correct_cards: 0, total_cards: 0 }
    }

    /// The score scaled to hundredths of a percent, an exact integer in
    /// `0 ..= 10000`.
    pub fn percent_times_100(&self) -> (r: u64)
        requires
            self.wf(),
        ensures
            r == percent_times_100(self.correct_cards as int, self.total_cards as int),
            r <= 10000,
    {
        if self.total_cards == 0 {
            0
        } else {
            let n: u128 = (self.correct_cards as u128) * 10000;
            let r: u128 = n / (self.total_cards as u128);
            proof {
                let c = self.correct_cards as int;
                let t = self.total_cards as int;
                assert(c * 10000 <= t * 10000) by (nonlinear_arith)
                    requires
                        0 <= c <= t,
                ;
                lemma_div_is_ordered(c * 10000, t * 10000, t);
                lemma_div_multiples_vanish(10000, t);
            }
            r as u64
        }
    }
}

/// Whether the chosen flags answer every option of the card correctly:
/// an option is chosen exactly when it is a correct one.
pub fn card_is_correct(answers: &Vec<Answer>, chosen: &Vec<bool>) -> (r: bool)
    requires
        chosen@.len() == answers@.len(),
    ensures
        r == card_correct(answers_view(answers@), chosen@),
{
    let n = answers.len();
    let mut i: usize = 0;
    while i < n
        invariant
            n == answers@.len() == chosen@.len(),
            0 <= i <= n,
            forall|j: int| 0 <= j < i ==> chosen@[j] == answers_view(answers@)[j].is_correct,
        decreases n - i,
    {
        if answers[i].is_correct != chosen[i] {
            return false;
        }
        i += 1;
    }
    true
}

/// The round score for `cards` under the chosen answer flags: the exact
/// fraction of correctly answered cards.
pub fn calculate_score(cards: &Vec<Card>, chosen: &Vec<Vec<bool>>) -> (s: Score)
    requires
        chosen@.len() == cards@.len(),
        forall|i: int|
            0 <= i < cards@.len() ==> #[trigger] chosen@[i]@.len()
                == cards@[i].possible_answers@.len(),
    ensures
        s.total_cards == cards@.len(),
        s.correct_cards == count_correct(cards_view(cards@), chosen.deep_view()),
        s.wf(),
{
    let ghost cv = cards_view(cards@);
    let ghost ch = chosen.deep_view();
    let n = cards.len();
    let mut correct: usize = 0;
    let mut i: usize = 0;
    while i < n
        invariant
            n == cards@.len() == chosen@.len(),
            cv == cards_view(cards@),
            ch == chosen.deep_view(),
            0 <= i <= n,
            correct <= i,
            correct == count_correct(cv.subrange(0, i as int), ch.subrange(0, i as int)),
            forall|k: int|
                0 <= k < cards@.len() ==> #[trigger] chosen@[k]@.len()
                    == cards@[k].possible_answers@.len(),
        decreases n - i,
    {
        proof {
            assert(cv.subrange(0, i + 1).drop_last() =~= cv.subrange(0, i as int));
            assert(ch.subrange(0, i + 1).drop_last() =~= ch.subrange(0, i as int));
            assert(ch[i as int] == chosen@[i as int]@);
        }
        if card_is_correct(&cards[i].possible_answers, &chosen[i]) {
            correct += 1;
        }
        i += 1;
    }
    proof {
        assert(cv.subrange(0, n as int) =~= cv);
        assert(ch.subrange(0, n as int) =~= ch);
    }
    Score { correct_cards: correct, total_cards: n }
}

/// A round in which no card was answered correctly scores zero.
pub proof fn lemma_score_none_correct(cards: Seq<CardView>, chosen: Seq<Seq<bool>>)
    requires
        cards.len() == chosen.len(),
        forall|i: int| 0 <= i < cards.len() ==> !card_correct(cards[i].answers, chosen[i]),
    ensures
        count_correct(cards, chosen) == 0,
        percent_times_100(count_correct(cards, chosen), cards.len() as int) == 0,
    decreases cards.len(),
{
    if cards.len() > 0 {
        lemma_score_none_correct(cards.drop_last(), chosen.drop_last());
    }
}

/// A round in which every card was answered correctly scores a full
/// hundred percent.
pub proof fn lemma_score_all_correct(cards: Seq<CardView>, chosen: Seq<Seq<bool>>)
    requires
        cards.len() == chosen.len(),
        cards.len() > 0,
        forall|i: int| 0 <= i < cards.len() ==> card_correct(cards[i].answers, chosen[i]),
    ensures
        count_correct(cards, chosen) == cards.len(),
        percent_times_100(count_correct(cards, chosen), cards.len() as int) == 10000,
{
    lemma_count_all_correct(cards, chosen);
    lemma_div_multiples_vanish(10000, cards.len() as int);
}

proof fn lemma_count_all_correct(cards: Seq<CardView>, chosen: Seq<Seq<bool>>)
    requires
        cards.len() == chosen.len(),
        forall|i: int| 0 <= i < cards.len() ==> card_correct(cards[i].answers, chosen[i]),
    ensures
        count_correct(cards, chosen) == cards.len(),
    decreases cards.len(),
{
    if cards.len() > 0 {
        lemma_count_all_correct(cards.drop_last(), chosen.drop_last());
    }
}

} // verus!
