use vstd::prelude::*;
use rand::rngs::{OsRng, SmallRng};
use rand::{Rng, SeedableRng};
use crate::question::{Question, QuestionModel};

verus! {

#[verifier::external_type_specification]
#[verifier::external_body]
pub struct ExSmallRng(SmallRng);

/// Relies on rand's `SeedableRng::from_rng` for `SmallRng`, seeded from
/// `OsRng`: a generator freshly seeded from the system's entropy source, or
/// `None` where that source fails (the call reports the failure, it does not
/// panic).
#[verifier::external_body]
fn seeded_rng() -> Option<SmallRng> {
    SmallRng::from_rng(OsRng).ok()
}

/// Relies on rand's `Rng::gen_range` on the inclusive range `0..=max`, which
/// is never empty: a value of that range.
#[verifier::external_body]
fn draw_at_most(rng: &mut SmallRng, max: usize) -> (r: usize)
    ensures
        r <= max,
{
    rng.gen_range(0..=max)
}

/// `run` is the `count` consecutive questions of `bank` that start at `start`.
pub open spec fn is_run_at(
    run: Seq<QuestionModel>,
    bank: Seq<QuestionModel>,
    count: nat,
    start: int,
) -> bool {
    &&& 0 <= start <= bank.len() - count
    &&& run == bank.subrange(start, start + count)
}

/// `run` is a possible outcome of sampling `count` questions from `bank`:
/// the whole bank where it is not longer than `count`, else `count`
/// consecutive questions of it.
pub open spec fn is_sample_of(run: Seq<QuestionModel>, bank: Seq<QuestionModel>, count: nat) -> bool {
    if bank.len() <= count {
        run == bank
    } else {
        exists|s: int| is_run_at(run, bank, count, s)
    }
}

/// Copies of the `count` questions of `questions` that start at `start`.
pub fn sequence_at(questions: &[Question], count: usize, start: usize) -> (r: Vec<Question>)
    requires
        start + count <= questions@.len(),
    ensures
        r@.len() == count,
        r.deep_view() == questions.deep_view().subrange(start as int, start + count),
{
    let mut r: Vec<Question> = Vec::new();
    let len = questions.len();
    let end = start + count;
    assert(end <= len);
    let mut i: usize = start;
    while i < end
        invariant
            end == start + count,
            start <= i <= start + count,
            start + count <= questions@.len(),
            r@.len() == i - start,
            r.deep_view() =~= questions.deep_view().subrange(start as int, i as int),
        decreases end - i,
    {
        let q = questions[i].clone();
        r.push(q);
        i = i + 1;
        assert(r.deep_view() =~= questions.deep_view().subrange(start as int, i as int));
    }
    r
}

/// Picks `count` consecutive questions of `questions` from a random offset,
/// drawn afresh on each call (the first `count` where no entropy can be had);
/// returns every question, in order, where there are no more than `count`.
pub fn get_random_question_sequence_from_list(questions: &[Question], count: usize) -> (r: Vec<
    Question,
>)
    ensures
        is_sample_of(r.deep_view(), questions.deep_view(), count as nat),
        questions@.len() > count ==> r@.len() == count,
{
    if questions.len() <= count {
        let r = sequence_at(questions, questions.len(), 0);
        assert(r.deep_view() =~= questions.deep_view());
        return r;
    }
    let max_start = questions.len() - count;
    let start = match seeded_rng() {
        Some(mut rng) => draw_at_most(&mut rng, max_start),
        None => 0,
    };
    let r = sequence_at(questions, count, start);
    assert(is_run_at(r.deep_view(), questions.deep_view(), count as nat, start as int));
    r
}

} // verus!
