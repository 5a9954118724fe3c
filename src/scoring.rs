use vstd::prelude::*;
use crate::question::{Question, QuestionModel};

verus! {

/// Qualitative result of a finished quiz.
#[derive(Debug, Clone, Copy, PartialEq, Eq, Structural)]
pub enum ScoreBand {
    /// 90% and above.
    Excellent,
    /// 70% to 89%.
    Great,
    /// 50% to 69%.
    Good,
    /// 30% to 49%.
    Fair,
    /// Below 30%.
    Encouragement,
}

/// Outcome of a quiz.
#[derive(Debug, Clone, Copy, PartialEq, Eq, Structural)]
pub struct ScoreReport {
    pub correct_count: usize,
    pub percentage: usize,
    pub band: ScoreBand,
}

/// Whether `answer` is the right answer to `q`.
pub open spec fn answered_right(q: QuestionModel, answer: Option<usize>) -> bool {
    match answer {
        Some(a) => a as nat == q.correct_answer_index,
        None => false,
    }
}

/// Number of right answers among the first `n` positions.
pub open spec fn correct_count_upto(
    questions: Seq<QuestionModel>,
    answers: Seq<Option<usize>>,
    n: int,
) -> nat
    decreases n,
{
    if n <= 0 {
        0
    } else {
        correct_count_upto(questions, answers, n - 1) + if answered_right(
            questions[n - 1],
            answers[n - 1],
        ) {
            1nat
        } else {
            0nat
        }
    }
}

/// Share of right answers in whole percent, rounded down; 0 for an empty quiz.
pub open spec fn percentage_of(correct: nat, total: nat) -> nat {
    if total == 0 {
        0
    } else {
        correct * 100 / total
    }
}

/// The band that a percentage falls in.
pub open spec fn band_of(percentage: nat) -> ScoreBand {
    if percentage >= 90 {
        ScoreBand::Excellent
    } else if percentage >= 70 {
        ScoreBand::Great
    } else if percentage >= 50 {
        ScoreBand::Good
    } else if percentage >= 30 {
        ScoreBand::Fair
    } else {
        ScoreBand::Encouragement
    }
}

/// The score of `answers` to `questions`.
pub open spec fn score_of(questions: Seq<QuestionModel>, answers: Seq<Option<usize>>) -> ScoreReport {
    let c = correct_count_upto(questions, answers, questions.len() as int);
    let p = percentage_of(c, questions.len());
    ScoreReport { correct_count: c as usize, percentage: p as usize, band: band_of(p) }
}

/// The band that `percentage` falls in.
pub fn band_for(percentage: usize) -> (r: ScoreBand)
    ensures
        r == band_of(percentage as nat),
{
    if percentage >= 90 {
        ScoreBand::Excellent
    } else if percentage >= 70 {
        ScoreBand::Great
    } else if percentage >= 50 {
        ScoreBand::Good
    } else if percentage >= 30 {
        ScoreBand::Fair
    } else {
        ScoreBand::Encouragement
    }
}

/// Scores `answers` against `active_questions`, position by position.
pub fn score(active_questions: &[Question], answers: &[Option<usize>]) -> (r: ScoreReport)
    requires
        answers@.len() == active_questions@.len(),
    ensures
        r == score_of(active_questions.deep_view(), answers@),
        r.correct_count <= active_questions@.len(),
        r.percentage <= 100,
{
    let n = active_questions.len();
    let mut count: usize = 0;
    let mut i: usize = 0;
    while i < n
        invariant
            n == active_questions@.len(),
            answers@.len() == n,
            i <= n,
            count <= i,
            count == correct_count_upto(active_questions.deep_view(), answers@, i as int),
        decreases n - i,
    {
        let right = active_questions[i].is_correct(answers[i]);
        if right {
            count = count + 1;
        }
        i = i + 1;
    }
    let percentage: usize = if n == 0 {
        0
    } else {
        let wide: u128 = (count as u128) * 100 / (n as u128);
        proof {
            assert((count as int) * 100 / (n as int) <= 100) by (nonlinear_arith)
                requires
                    count <= n,
                    n > 0,
            ;
        }
        wide as usize
    };
    ScoreReport { correct_count: count, percentage, band: band_for(percentage) }
}

} // verus!
