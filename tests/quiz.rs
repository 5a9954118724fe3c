use quiz_app::loader::{load_bank, parse_csv_string, parse_rows, LoadError, RowFault};
use quiz_app::location::{get_base_url, questions_url};
use quiz_app::question::{get_fallback_questions, OptionMark, Question, FALLBACK_SIZE};
use quiz_app::sampler::{get_random_question_sequence_from_list, sequence_at};
use quiz_app::scoring::{band_for, score, ScoreBand};
use quiz_app::session::{QuizSession, QuizState};

fn numbered_bank(n: usize) -> Vec<Question> {
    (0..n)
        .map(|i| {
            let text = format!("q{}", i);
            Question::new(&text, vec!["a", "b", "c", "d"], i % 4)
        })
        .collect()
}

fn texts(qs: &[Question]) -> Vec<String> {
    qs.iter().map(|q| q.text.clone()).collect()
}

fn started_session(size: usize, bank_len: usize) -> QuizSession {
    let mut s = QuizSession::new(size);
    let ticket = s.begin_load();
    assert!(s.bank_ready(ticket, numbered_bank(bank_len), false));
    s
}

fn answer_all(s: &mut QuizSession, choice: usize) {
    for _ in 0..s.quiz_size() {
        s.select_option(choice);
        s.submit();
        s.advance();
    }
}

#[test]
fn question_new_keeps_fields() {
    let q = Question::new("Why?", vec!["a", "b", "c", "d"], 3);
    assert_eq!(q.text, "Why?");
    assert_eq!(q.options, vec!["a", "b", "c", "d"]);
    assert_eq!(q.correct_answer_index, 3);
    assert_eq!(q.clone(), q);
}

#[test]
fn fallback_bank_has_five_valid_questions() {
    let bank = get_fallback_questions();
    assert_eq!(bank.len(), FALLBACK_SIZE);
    let answers: Vec<usize> = bank.iter().map(|q| q.correct_answer_index).collect();
    assert_eq!(answers, vec![0, 1, 0, 0, 1]);
    for q in &bank {
        assert_eq!(q.options.len(), 4);
        assert!(q.correct_answer_index < q.options.len());
    }
    assert_eq!(bank[1].options[1], "Néandertal");
}

#[test]
fn option_marks_before_and_after_submit() {
    let q = Question::new("q", vec!["a", "b", "c", "d"], 2);
    assert_eq!(q.option_mark(Some(1), false, 1), OptionMark::Selected);
    assert_eq!(q.option_mark(Some(1), false, 2), OptionMark::Plain);
    assert_eq!(q.option_mark(None, false, 0), OptionMark::Plain);
    assert_eq!(q.option_mark(Some(1), true, 1), OptionMark::Incorrect);
    assert_eq!(q.option_mark(Some(1), true, 2), OptionMark::Correct);
    assert_eq!(q.option_mark(Some(1), true, 3), OptionMark::Plain);
    assert_eq!(q.option_mark(Some(2), true, 2), OptionMark::Correct);
    assert!(q.is_valid());
    assert!(!Question::new("q", vec!["a", "b", "c", "d"], 4).is_valid());
    assert!(!Question::new("q", vec!["a", "b"], 1).is_valid());
    assert!(q.is_correct(Some(2)));
    assert!(!q.is_correct(Some(1)));
    assert!(!q.is_correct(None));
}

#[test]
fn sample_longer_bank_gives_contiguous_run() {
    let bank = numbered_bank(10);
    for _ in 0..50 {
        let run = get_random_question_sequence_from_list(&bank, 3);
        assert_eq!(run.len(), 3);
        let start: usize = run[0].text[1..].parse().unwrap();
        assert!(start <= 7);
        assert_eq!(texts(&run), texts(&bank[start..start + 3]));
    }
}

#[test]
fn sample_short_bank_passes_through() {
    let bank = numbered_bank(4);
    assert_eq!(texts(&get_random_question_sequence_from_list(&bank, 4)), texts(&bank));
    assert_eq!(texts(&get_random_question_sequence_from_list(&bank, 9)), texts(&bank));
    assert!(get_random_question_sequence_from_list(&[], 3).is_empty());
}

#[test]
fn sequence_at_copies_the_slice() {
    let bank = numbered_bank(6);
    assert_eq!(texts(&sequence_at(&bank, 2, 3)), vec!["q3", "q4"]);
    assert!(sequence_at(&bank, 0, 6).is_empty());
}

#[test]
fn score_three_questions() {
    let qs = vec![
        Question::new("Q0", vec!["a", "b", "c", "d"], 0),
        Question::new("Q1", vec!["a", "b", "c", "d"], 1),
        Question::new("Q2", vec!["a", "b", "c", "d"], 2),
    ];
    let r = score(&qs, &[Some(0), None, Some(2)]);
    assert_eq!(r.correct_count, 2);
    assert_eq!(r.percentage, 66);
    assert_eq!(r.band, ScoreBand::Good);
}

#[test]
fn score_is_repeatable() {
    let qs = numbered_bank(7);
    let answers = vec![Some(0), Some(1), Some(0), None, Some(0), Some(1), Some(3)];
    let first = score(&qs, &answers);
    let second = score(&qs, &answers);
    assert_eq!(first, second);
    assert_eq!(first.correct_count, 4);
    assert_eq!(first.percentage, 57);
    assert_eq!(first.band, ScoreBand::Good);
}

#[test]
fn score_edges() {
    let qs = numbered_bank(10);
    let all_right: Vec<Option<usize>> = (0..10).map(|i| Some(i % 4)).collect();
    let r = score(&qs, &all_right);
    assert_eq!((r.correct_count, r.percentage, r.band), (10, 100, ScoreBand::Excellent));
    let none: Vec<Option<usize>> = vec![None; 10];
    let r = score(&qs, &none);
    assert_eq!((r.correct_count, r.percentage, r.band), (0, 0, ScoreBand::Encouragement));
    let r = score(&[], &[]);
    assert_eq!((r.correct_count, r.percentage), (0, 0));
}

#[test]
fn bands_cover_every_percentage() {
    assert_eq!(band_for(100), ScoreBand::Excellent);
    assert_eq!(band_for(90), ScoreBand::Excellent);
    assert_eq!(band_for(89), ScoreBand::Great);
    assert_eq!(band_for(70), ScoreBand::Great);
    assert_eq!(band_for(69), ScoreBand::Good);
    assert_eq!(band_for(50), ScoreBand::Good);
    assert_eq!(band_for(49), ScoreBand::Fair);
    assert_eq!(band_for(30), ScoreBand::Fair);
    assert_eq!(band_for(29), ScoreBand::Encouragement);
    assert_eq!(band_for(0), ScoreBand::Encouragement);
}

#[test]
fn new_session_is_loading() {
    let s = QuizSession::new(5);
    assert_eq!(s.state(), QuizState::Loading);
    assert_eq!(s.current_index(), 0);
    assert_eq!(s.answers(), &vec![None; 5]);
    assert!(!s.is_submitted());
    assert!(s.current_question().is_none());
}

#[test]
fn bank_ready_starts_quiz() {
    let mut s = QuizSession::new(3);
    let ticket = s.begin_load();
    assert!(s.bank_ready(ticket, numbered_bank(8), true));
    assert_eq!(s.state(), QuizState::InProgress);
    assert_eq!(s.active_questions().len(), 3);
    assert_eq!(s.bank().len(), 8);
    assert!(s.loading_failed());
    assert_eq!(s.current_question().unwrap().text, s.active_questions()[0].text);
}

#[test]
fn stale_or_short_bank_is_refused() {
    let mut s = QuizSession::new(3);
    let old_ticket = s.begin_load();
    let new_ticket = s.begin_load();
    assert_ne!(old_ticket, new_ticket);
    assert!(!s.bank_ready(old_ticket, numbered_bank(8), false));
    assert_eq!(s.state(), QuizState::Loading);
    assert!(!s.bank_ready(new_ticket, numbered_bank(2), false));
    assert_eq!(s.state(), QuizState::Loading);
    assert!(s.bank_ready(new_ticket, numbered_bank(3), false));
    assert!(!s.bank_ready(new_ticket, numbered_bank(3), false));
}

#[test]
fn select_after_submit_is_ignored() {
    let mut s = started_session(3, 3);
    s.select_option(2);
    s.select_option(1);
    assert_eq!(s.selected_option(), Some(1));
    s.submit();
    assert!(s.is_submitted());
    s.select_option(3);
    assert_eq!(s.answers(), &vec![Some(1), None, None]);
}

#[test]
fn submit_without_choice_is_ignored() {
    let mut s = started_session(3, 3);
    s.submit();
    assert!(!s.is_submitted());
    s.advance();
    assert_eq!(s.current_index(), 0);
}

#[test]
fn last_question_completes() {
    let mut s = started_session(3, 5);
    for _ in 0..2 {
        s.select_option(0);
        s.submit();
        s.advance();
    }
    assert_eq!(s.current_index(), 2);
    s.select_option(0);
    s.submit();
    s.advance();
    assert_eq!(s.state(), QuizState::Completed);
}

#[test]
fn retry_resets_session() {
    let mut s = started_session(4, 10);
    answer_all(&mut s, 1);
    assert_eq!(s.state(), QuizState::Completed);
    s.retry();
    assert_eq!(s.state(), QuizState::InProgress);
    assert_eq!(s.current_index(), 0);
    assert_eq!(s.answers(), &vec![None; 4]);
    assert!(!s.is_submitted());
    assert_eq!(s.active_questions().len(), 4);
}

#[test]
fn retry_before_completion_is_ignored() {
    let mut s = started_session(2, 2);
    s.select_option(1);
    s.retry();
    assert_eq!(s.answers(), &vec![Some(1), None]);
}

#[test]
fn session_score_counts_answers() {
    let mut s = started_session(4, 4);
    answer_all(&mut s, 1);
    let r = s.score();
    assert_eq!(r.correct_count, 1);
    assert_eq!(r.percentage, 25);
    assert_eq!(r.band, ScoreBand::Encouragement);
}

#[test]
fn parse_with_header_and_id() {
    let text = "id,question,option1,option2,option3,option4,correct_answer_index\n\
                1,\"Which, of these?\",a,b,c,d,2\n\
                2,Second,e,f,g,h,+0\n";
    let bank = parse_csv_string(text).unwrap();
    assert_eq!(bank.len(), 2);
    assert_eq!(bank[0].text, "Which, of these?");
    assert_eq!(bank[0].options, vec!["a", "b", "c", "d"]);
    assert_eq!(bank[0].correct_answer_index, 2);
    assert_eq!(bank[1].correct_answer_index, 0);
}

#[test]
fn parse_without_header() {
    let bank = parse_csv_string("First,a,b,c,d,3\nSecond,e,f,g,h,1\n").unwrap();
    assert_eq!(bank.len(), 2);
    assert_eq!(bank[1].text, "Second");
    assert_eq!(bank[1].options, vec!["e", "f", "g", "h"]);
    assert_eq!(bank[1].correct_answer_index, 1);
    assert!(parse_csv_string("").unwrap().is_empty());
}

#[test]
fn parse_errors() {
    assert_eq!(
        parse_csv_string("q,a,b,c,d,x\n"),
        Err(LoadError::Row { row: 0, fault: RowFault::NotANumber })
    );
    assert_eq!(
        parse_csv_string("q,a,b,c,d,1\nq,a,b,c,d,4\n"),
        Err(LoadError::Row { row: 1, fault: RowFault::AnswerOutOfRange })
    );
    assert_eq!(
        parse_csv_string("q,a,b,c,1\n"),
        Err(LoadError::Row { row: 0, fault: RowFault::ColumnCount })
    );
    assert_eq!(parse_csv_string("q,a,b,c,d,1\nq,a\n"), Err(LoadError::Csv));
}

#[test]
fn parse_rows_directly() {
    let row = |fields: &[&str]| fields.iter().map(|f| f.to_string()).collect::<Vec<String>>();
    let rows = vec![row(&["q", "a", "b", "c", "d", "1"]), row(&["r", "a", "b", "c", "d", "2", "extra"])];
    assert_eq!(parse_rows(&rows), Err(LoadError::Row { row: 1, fault: RowFault::ColumnCount }));
    let rows = vec![row(&["7", "q", "a", "b", "c", "d", "3"])];
    let bank = parse_rows(&rows).unwrap();
    assert_eq!(bank[0].text, "q");
    assert_eq!(bank[0].correct_answer_index, 3);
}

#[test]
fn load_bank_uses_source() {
    let text = "q1,a,b,c,d,0\nq2,a,b,c,d,1\nq3,a,b,c,d,2\n";
    let loaded = load_bank(Some(text), 3);
    assert!(!loaded.loading_failed);
    assert_eq!(texts(&loaded.questions), vec!["q1", "q2", "q3"]);
}

#[test]
fn load_bank_falls_back() {
    let bad = load_bank(Some("q,a,b,c,d,not-a-number\n"), 5);
    assert!(bad.loading_failed);
    assert!(bad.questions.len() >= 5);
    assert_eq!(bad.questions, get_fallback_questions());
    let missing = load_bank(None, 5);
    assert!(missing.loading_failed);
    assert_eq!(missing.questions.len(), FALLBACK_SIZE);
    let garbled = load_bank(Some("q,a,b,c,d,1\nq,a\n"), 5);
    assert!(garbled.loading_failed);
    assert_eq!(garbled.questions, get_fallback_questions());
    let short = load_bank(Some("q1,a,b,c,d,0\n"), 2);
    assert!(short.loading_failed);
    assert_eq!(short.questions.len(), FALLBACK_SIZE);
}

#[test]
fn base_url_depends_on_path() {
    assert_eq!(get_base_url("/quiz-app/index.html"), "/quiz-app/");
    assert_eq!(get_base_url("/quiz-app/"), "/quiz-app/");
    assert_eq!(get_base_url("/quiz-app"), "");
    assert_eq!(get_base_url("/"), "");
    assert_eq!(questions_url("/quiz-app/x"), "/quiz-app/questions.csv");
    assert_eq!(questions_url("/index.html"), "questions.csv");
}
