use vstd::prelude::*;
use crate::question::{all_wf, Question, QuestionModel};
use crate::sampler::{get_random_question_sequence_from_list, is_sample_of};
use crate::scoring::{score, score_of, ScoreReport};

verus! {

/// Phase of a quiz session.
#[derive(Debug, Clone, Copy, PartialEq, Eq, Structural)]
pub enum QuizState {
    /// Waiting for the question bank.
    Loading,
    /// Questions are being answered.
    InProgress,
    /// The last question was advanced past.
    Completed,
}

/// Mathematical value of a [`QuizSession`].
pub struct SessionView {
    pub state: QuizState,
    pub quiz_size: nat,
    pub bank: Seq<QuestionModel>,
    pub active: Seq<QuestionModel>,
    pub current_index: nat,
    pub answers: Seq<Option<usize>>,
    pub submitted: bool,
    pub loading_failed: bool,
    pub load_ticket: u64,
}

/// `n` positions, none answered.
pub open spec fn unanswered(n: nat) -> Seq<Option<usize>> {
    Seq::new(n, |_i: int| None::<usize>)
}

/// The ticket that follows `t`.
pub open spec fn next_ticket(t: u64) -> u64 {
    if t == u64::MAX {
        0
    } else {
        (t + 1) as u64
    }
}

impl SessionView {
    pub open spec fn wf(self) -> bool {
        &&& self.quiz_size > 0
        &&& self.answers.len() == self.quiz_size
        &&& self.current_index < self.quiz_size
        &&& all_wf(self.bank)
        &&& all_wf(self.active)
        &&& self.submitted ==> self.answers[self.current_index as int] is Some
        &&& self.state == QuizState::Loading ==> {
            &&& self.current_index == 0
            &&& !self.submitted
            &&& self.answers == unanswered(self.quiz_size)
        }
        &&& self.state != QuizState::Loading ==> {
            &&& self.bank.len() >= self.quiz_size
            &&& self.active.len() == self.quiz_size
            &&& is_sample_of(self.active, self.bank, self.quiz_size)
        }
        &&& self.state == QuizState::Completed ==> {
            &&& self.submitted
            &&& self.current_index == self.quiz_size - 1
        }
    }

    /// Records choice `option` for the current question, unless the answer
    /// is locked in or no quiz is running.
    pub open spec fn select_option(self, option: usize) -> SessionView {
        if self.state == QuizState::InProgress && !self.submitted {
            SessionView {
                answers: self.answers.update(self.current_index as int, Some(option)),
                ..self
            }
        } else {
            self
        }
    }

    /// Locks in the current answer, where there is one.
    pub open spec fn submit(self) -> SessionView {
        if self.state == QuizState::InProgress && self.answers[self.current_index as int] is Some {
            SessionView { submitted: true, ..self }
        } else {
            self
        }
    }

    /// Moves past a locked-in question: to the next one, or to the end.
    pub open spec fn advance(self) -> SessionView {
        if self.state == QuizState::InProgress && self.submitted {
            if self.current_index + 1 < self.quiz_size {
                SessionView { current_index: self.current_index + 1, submitted: false, ..self }
            } else {
                SessionView { state: QuizState::Completed, ..self }
            }
        } else {
            self
        }
    }

    /// `next` is `self` started afresh on the bank: a new sample, nothing
    /// answered, at the first question.
    pub open spec fn restarted_as(self, next: SessionView) -> bool {
        &&& next == SessionView {
            state: QuizState::InProgress,
            active: next.active,
            current_index: 0,
            answers: unanswered(self.quiz_size),
            submitted: false,
            ..self
        }
        &&& next.active.len() == self.quiz_size
        &&& is_sample_of(next.active, self.bank, self.quiz_size)
    }
}

/// From the last question, with an answer chosen, locking the answer in and
/// moving on completes the quiz.
pub proof fn lemma_last_question_completes(s: SessionView)
    requires
        s.wf(),
        s.state == QuizState::InProgress,
        s.current_index == s.quiz_size - 1,
        s.answers[s.current_index as int] is Some,
    ensures
        s.submit().advance().state == QuizState::Completed,
{
}

/// One player's quiz: the resolved bank, the questions drawn from it, the
/// answers given and the progress through them.
pub struct QuizSession {
    quiz_size: usize,
    bank: Vec<Question>,
    active_questions: Vec<Question>,
    current_index: usize,
    answers: Vec<Option<usize>>,
    submitted: bool,
    loading_failed: bool,
    state: QuizState,
    load_ticket: u64,
}

impl View for QuizSession {
    type V = SessionView;

    closed spec fn view(&self) -> SessionView {
        SessionView {
            state: self.state,
            quiz_size: self.quiz_size as nat,
            bank: self.bank.deep_view(),
            active: self.active_questions.deep_view(),
            current_index: self.current_index as nat,
            answers: self.answers@,
            submitted: self.submitted,
            loading_failed: self.loading_failed,
            load_ticket: self.load_ticket,
        }
    }
}

fn no_answers(n: usize) -> (r: Vec<Option<usize>>)
    ensures
        r@ == unanswered(n as nat),
{
    let mut r: Vec<Option<usize>> = Vec::new();
    let mut i: usize = 0;
    while i < n
        invariant
            i <= n,
            r@ =~= unanswered(i as nat),
        decreases n - i,
    {
        r.push(None);
        i = i + 1;
    }
    r
}

impl QuizSession {
    /// A session waiting for its bank, that will ask `quiz_size` questions.
    pub fn new(quiz_size: usize) -> (r: Self)
        requires
            quiz_size > 0,
        ensures
            r@.wf(),
            r@.state == QuizState::Loading,
            r@.quiz_size == quiz_size,
            r@.bank.len() == 0,
            r@.active.len() == 0,
            r@.current_index == 0,
            r@.answers == unanswered(quiz_size as nat),
            !r@.submitted,
            !r@.loading_failed,
            r@.load_ticket == 0,
    {
        let r = QuizSession {
            quiz_size,
            bank: Vec::new(),
            active_questions: Vec::new(),
            current_index: 0,
            answers: no_answers(quiz_size),
            submitted: false,
            loading_failed: false,
            state: QuizState::Loading,
            load_ticket: 0,
        };
        assert(r@.bank =~= Seq::<QuestionModel>::empty());
        assert(r@.active =~= Seq::<QuestionModel>::empty());
        r
    }

    /// Starts a load and returns its ticket; the result of any earlier load
    /// is refused from now on.
    pub fn begin_load(&mut self) -> (ticket: u64)
        requires
            old(self)@.wf(),
        ensures
            ticket == next_ticket(old(self)@.load_ticket),
            final(self)@ == (SessionView { load_ticket: ticket, ..old(self)@ }),
            final(self)@.wf(),
    {
        let t = if self.load_ticket == u64::MAX {
            0
        } else {
            self.load_ticket + 1
        };
        self.load_ticket = t;
        t
    }

    /// Hands the session the bank that load `ticket` resolved. It is taken
    /// only while the session is loading, from the latest load, and where it
    /// holds enough questions; the quiz then starts on a sample of it.
    /// Returns whether it was taken.
    pub fn bank_ready(&mut self, ticket: u64, bank: Vec<Question>, loading_failed: bool) -> (taken: bool)
        requires
            old(self)@.wf(),
            forall|k: int| 0 <= k < bank@.len() ==> (#[trigger] bank@[k])@.wf(),
        ensures
            taken == (old(self)@.state == QuizState::Loading && ticket == old(self)@.load_ticket
                && bank@.len() >= old(self)@.quiz_size),
            taken ==> (SessionView { bank: bank.deep_view(), loading_failed, ..old(self)@ }).restarted_as(final(self)@),
            !taken ==> final(self)@ == old(self)@,
            final(self)@.wf(),
    {
        if self.state == QuizState::Loading && ticket == self.load_ticket && bank.len() >= self.quiz_size {
            let active = get_random_question_sequence_from_list(bank.as_slice(), self.quiz_size);
            self.bank = bank;
            self.active_questions = active;
            self.current_index = 0;
            self.answers = no_answers(self.quiz_size);
            self.submitted = false;
            self.loading_failed = loading_failed;
            self.state = QuizState::InProgress;
            true
        } else {
            false
        }
    }

    /// Chooses option `option` for the current question. Ignored once the
    /// answer is locked in, and outside a running quiz.
    pub fn select_option(&mut self, option: usize)
        requires
            old(self)@.wf(),
        ensures
            final(self)@ == old(self)@.select_option(option),
            old(self)@.submitted ==> final(self)@.answers == old(self)@.answers,
            final(self)@.wf(),
    {
        if self.state == QuizState::InProgress && !self.submitted {
            let i = self.current_index;
            self.answers.set(i, Some(option));
        }
    }

    /// Locks in the current answer. Ignored where nothing is chosen.
    pub fn submit(&mut self)
        requires
            old(self)@.wf(),
        ensures
            final(self)@ == old(self)@.submit(),
            final(self)@.wf(),
    {
        if self.state == QuizState::InProgress && self.answers[self.current_index].is_some() {
            self.submitted = true;
        }
    }

    /// Moves past the current, locked-in question; past the last one the
    /// quiz is completed. Ignored before the answer is locked in.
    pub fn advance(&mut self)
        requires
            old(self)@.wf(),
        ensures
            final(self)@ == old(self)@.advance(),
            final(self)@.wf(),
    {
        if self.state == QuizState::InProgress && self.submitted {
            if self.current_index + 1 < self.quiz_size {
                self.current_index = self.current_index + 1;
                self.submitted = false;
            } else {
                self.state = QuizState::Completed;
            }
        }
    }

    /// Starts a completed quiz again on a fresh sample of the same bank.
    /// Ignored before completion.
    pub fn retry(&mut self)
        requires
            old(self)@.wf(),
        ensures
            old(self)@.state == QuizState::Completed ==> old(self)@.restarted_as(final(self)@),
            old(self)@.state != QuizState::Completed ==> final(self)@ == old(self)@,
            final(self)@.wf(),
    {
        if self.state == QuizState::Completed {
            let active = get_random_question_sequence_from_list(self.bank.as_slice(), self.quiz_size);
            self.active_questions = active;
            self.current_index = 0;
            self.answers = no_answers(self.quiz_size);
            self.submitted = false;
            self.state = QuizState::InProgress;
        }
    }

    /// Phase of the session.
    pub fn state(&self) -> (r: QuizState)
        ensures
            r == self@.state,
    {
        self.state
    }

    /// Number of questions a quiz asks.
    pub fn quiz_size(&self) -> (r: usize)
        ensures
            r == self@.quiz_size,
    {
        self.quiz_size
    }

    /// Position of the current question.
    pub fn current_index(&self) -> (r: usize)
        ensures
            r == self@.current_index,
    {
        self.current_index
    }

    /// Whether the current answer is locked in.
    pub fn is_submitted(&self) -> (r: bool)
        ensures
            r == self@.submitted,
    {
        self.submitted
    }

    /// Whether the built-in bank stands in for the source.
    pub fn loading_failed(&self) -> (r: bool)
        ensures
            r == self@.loading_failed,
    {
        self.loading_failed
    }

    /// The answers, by position.
    pub fn answers(&self) -> (r: &Vec<Option<usize>>)
        ensures
            r@ == self@.answers,
    {
        &self.answers
    }

    /// The questions of the current quiz.
    pub fn active_questions(&self) -> (r: &Vec<Question>)
        ensures
            r.deep_view() == self@.active,
    {
        &self.active_questions
    }

    /// The resolved bank.
    pub fn bank(&self) -> (r: &Vec<Question>)
        ensures
            r.deep_view() == self@.bank,
    {
        &self.bank
    }

    /// The option chosen for the current question.
    pub fn selected_option(&self) -> (r: Option<usize>)
        requires
            self@.wf(),
        ensures
            r == self@.answers[self@.current_index as int],
    {
        self.answers[self.current_index]
    }

    /// The current question, once the bank is there.
    pub fn current_question(&self) -> (r: Option<&Question>)
        requires
            self@.wf(),
        ensures
            self@.state == QuizState::Loading ==> r is None,
            self@.state != QuizState::Loading ==> r is Some && r->0@ == self@.active[self@.current_index as int],
    {
        if self.state == QuizState::Loading {
            None
        } else {
            Some(&self.active_questions[self.current_index])
        }
    }

    /// The score of the answers given so far.
    pub fn score(&self) -> (r: ScoreReport)
        requires
            self@.wf(),
            self@.state != QuizState::Loading,
        ensures
            r == score_of(self@.active, self@.answers),
    {
        score(self.active_questions.as_slice(), self.answers.as_slice())
    }
}

} // verus!
