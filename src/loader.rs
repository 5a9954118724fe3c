use vstd::prelude::*;
use crate::question::{
    fallback_bank, get_fallback_questions, Question, QuestionModel, FALLBACK_SIZE, OPTION_COUNT,
};

verus! {

/// What the csv reader yields for `text`: its records, each as its fields,
/// or `None` where the reader fails.
pub uninterp spec fn csv_records(text: Seq<char>) -> Option<Seq<Seq<Seq<char>>>>;

#[verifier::external_type_specification]
#[verifier::external_body]
pub struct ExCsvError(csv::Error);

/// Relies on csv's `ReaderBuilder` (first row not taken as a header) and
/// `Reader::records`: every record of `text` as owned fields, or the reader's
/// first error.
#[verifier::external_body]
fn read_records(text: &str) -> (r: Result<Vec<Vec<String>>, csv::Error>)
    ensures
        match r {
            Ok(rows) => csv_records(text@) == Some(rows.deep_view()),
            Err(_) => csv_records(text@) is None,
        },
{
    let mut reader = csv::ReaderBuilder::new().has_headers(false).from_reader(text.as_bytes());
    reader.records().map(|rec| rec.map(|fields| fields.iter().map(|f| f.to_string()).collect())).collect()
}

/// Value of a non-empty run of decimal digits.
pub open spec fn digits_value(d: Seq<char>) -> nat
    decreases d.len(),
{
    if d.len() == 0 {
        0
    } else {
        digits_value(d.drop_last()) * 10 + ((d.last() as u32) - ('0' as u32)) as nat
    }
}

pub open spec fn is_digit(c: char) -> bool {
    '0' <= c && c <= '9'
}

/// The unsigned integer written in `s`: an optional `+`, then one or more
/// decimal digits, whose value fits in a `usize`.
pub open spec fn decimal_value(s: Seq<char>) -> Option<usize> {
    let d = if s.len() > 0 && s[0] == '+' {
        s.drop_first()
    } else {
        s
    };
    if d.len() > 0 && (forall|i: int| 0 <= i < d.len() ==> is_digit(#[trigger] d[i]))
        && digits_value(d) <= usize::MAX {
        Some(digits_value(d) as usize)
    } else {
        None
    }
}

/// Relies on `str::parse::<usize>`: an optional `+` followed by decimal digits
/// only, whose value fits in a `usize`; anything else is an error.
#[verifier::external_body]
fn parse_usize(s: &str) -> (r: Option<usize>)
    ensures
        r == decimal_value(s@),
{
    s.parse::<usize>().ok()
}

/// Why a row of the question source was rejected.
#[derive(Debug, Clone, Copy, PartialEq, Eq, Structural)]
pub enum RowFault {
    /// The row does not have the six or seven columns of a question.
    ColumnCount,
    /// The answer column is not an unsigned integer.
    NotANumber,
    /// The answer column does not name one of the four options.
    AnswerOutOfRange,
}

/// Why a question source could not be read.
#[derive(Debug, Clone, Copy, PartialEq, Eq, Structural)]
pub enum LoadError {
    /// The text is not well-formed delimited text.
    Csv,
    /// Row `row` (counted from 0, header included) is not a valid question.
    Row { row: usize, fault: RowFault },
}

/// Name of the last column in a header row.
pub open spec fn header_marker() -> Seq<char> {
    "correct_answer_index"@
}

/// Columns of a question row: six, or seven with a leading id.
pub open spec fn valid_width(width: int) -> bool {
    width == 6 || width == 7
}

/// Index of the first data row: 1 where the first row is a header.
pub open spec fn first_data_row(rows: Seq<Seq<Seq<char>>>) -> int {
    if rows.len() > 0 && valid_width(rows[0].len() as int) && rows[0].last() == header_marker() {
        1
    } else {
        0
    }
}

/// What is wrong with `row` in a source whose rows have `width` columns.
pub open spec fn row_fault(row: Seq<Seq<char>>, width: int) -> Option<RowFault> {
    if !valid_width(width) || row.len() != width {
        Some(RowFault::ColumnCount)
    } else {
        match decimal_value(row[width - 1]) {
            None => Some(RowFault::NotANumber),
            Some(n) => if n >= OPTION_COUNT {
                Some(RowFault::AnswerOutOfRange)
            } else {
                None
            },
        }
    }
}

/// The question that a valid row of `width` columns holds.
pub open spec fn row_question(row: Seq<Seq<char>>, width: int) -> QuestionModel {
    QuestionModel {
        text: row[width - 6],
        options: row.subrange(width - 5, width - 1),
        correct_answer_index: decimal_value(row[width - 1])->0 as nat,
    }
}

/// The bank read from the first `n` rows: the first faulty data row decides
/// the error.
pub open spec fn bank_of_rows_upto(rows: Seq<Seq<Seq<char>>>, n: int) -> Result<
    Seq<QuestionModel>,
    LoadError,
>
    decreases n,
{
    if n <= first_data_row(rows) {
        Ok(Seq::empty())
    } else {
        match bank_of_rows_upto(rows, n - 1) {
            Err(e) => Err(e),
            Ok(b) => match row_fault(rows[n - 1], rows[0].len() as int) {
                Some(f) => Err(LoadError::Row { row: (n - 1) as usize, fault: f }),
                None => Ok(b.push(row_question(rows[n - 1], rows[0].len() as int))),
            },
        }
    }
}

/// The bank that the records `rows` hold.
pub open spec fn bank_of_rows(rows: Seq<Seq<Seq<char>>>) -> Result<Seq<QuestionModel>, LoadError> {
    bank_of_rows_upto(rows, rows.len() as int)
}

/// The bank that the delimited text `text` holds.
pub open spec fn bank_of_text(text: Seq<char>) -> Result<Seq<QuestionModel>, LoadError> {
    match csv_records(text) {
        None => Err(LoadError::Csv),
        Some(rows) => bank_of_rows(rows),
    }
}

/// Model of a parse result.
pub open spec fn bank_result_view(r: Result<Vec<Question>, LoadError>) -> Result<
    Seq<QuestionModel>,
    LoadError,
> {
    match r {
        Ok(b) => Ok(b.deep_view()),
        Err(e) => Err(e),
    }
}

proof fn lemma_error_persists(rows: Seq<Seq<Seq<char>>>, i: int, n: int)
    requires
        i <= n,
        bank_of_rows_upto(rows, i) is Err,
    ensures
        bank_of_rows_upto(rows, n) == bank_of_rows_upto(rows, i),
    decreases n - i,
{
    if i < n {
        lemma_error_persists(rows, i, n - 1);
    }
}

proof fn lemma_bank_questions_wf(rows: Seq<Seq<Seq<char>>>, n: int)
    requires
        bank_of_rows_upto(rows, n) is Ok,
    ensures
        forall|k: int|
            0 <= k < bank_of_rows_upto(rows, n)->Ok_0.len()
                ==> (#[trigger] bank_of_rows_upto(rows, n)->Ok_0[k]).wf(),
    decreases n,
{
    if n > first_data_row(rows) {
        lemma_bank_questions_wf(rows, n - 1);
    }
}

/// Checks one row against the column count `width`; on success returns the
/// answer index it holds.
fn check_row(row: &Vec<String>, width: usize) -> (r: Result<usize, RowFault>)
    ensures
        match r {
            Ok(n) => row_fault(row.deep_view(), width as int) is None
                && decimal_value(row.deep_view()[width - 1]) == Some(n),
            Err(f) => row_fault(row.deep_view(), width as int) == Some(f),
        },
{
    if !(width == 6 || width == 7) || row.len() != width {
        return Err(RowFault::ColumnCount);
    }
    match parse_usize(row[width - 1].as_str()) {
        None => Err(RowFault::NotANumber),
        Some(n) => if n >= OPTION_COUNT {
            Err(RowFault::AnswerOutOfRange)
        } else {
            Ok(n)
        },
    }
}

/// Reads a question bank from records, each given as its fields. A first row
/// whose last column is `correct_answer_index` is a header and is skipped.
/// Rows have six columns (question, four options, answer index) or seven
/// (a leading id, ignored). The first faulty data row makes the whole read
/// fail.
pub fn parse_rows(rows: &Vec<Vec<String>>) -> (r: Result<Vec<Question>, LoadError>)
    ensures
        bank_result_view(r) == bank_of_rows(rows.deep_view()),
        r is Ok ==> forall|k: int| 0 <= k < r->Ok_0@.len() ==> (#[trigger] r->Ok_0@[k])@.wf(),
{
    let ghost dv = rows.deep_view();
    let mut bank: Vec<Question> = Vec::new();
    assert(bank.deep_view() =~= Seq::<QuestionModel>::empty());
    if rows.len() == 0 {
        return Ok(bank);
    }
    let width = rows[0].len();
    let marker = "correct_answer_index".to_string();
    let mut i: usize = 0;
    if (width == 6 || width == 7) && rows[0][width - 1] == marker {
        i = 1;
    }
    while i < rows.len()
        invariant
            dv == rows.deep_view(),
            rows.len() > 0,
            width == dv[0].len(),
            first_data_row(dv) <= i <= rows.len(),
            bank_of_rows_upto(dv, i as int) == Ok::<Seq<QuestionModel>, LoadError>(
                bank.deep_view(),
            ),
        decreases rows.len() - i,
    {
        let row = &rows[i];
        match check_row(row, width) {
            Err(f) => {
                proof {
                    lemma_error_persists(dv, i + 1, dv.len() as int);
                }
                return Err(LoadError::Row { row: i, fault: f });
            },
            Ok(n) => {
                let mut options: Vec<String> = Vec::new();
                let mut j: usize = width - 5;
                while j < width - 1
                    invariant
                        width - 5 <= j <= width - 1,
                        row.len() == width,
                        valid_width(width as int),
                        options@.len() == j - (width - 5),
                        options.deep_view() =~= row.deep_view().subrange(
                            width - 5,
                            j as int,
                        ),
                    decreases width - 1 - j,
                {
                    let o = row[j].clone();
                    options.push(o);
                    j = j + 1;
                    assert(options.deep_view() =~= row.deep_view().subrange(width - 5, j as int));
                }
                let q = Question { text: row[width - 6].clone(), options, correct_answer_index: n };
                bank.push(q);
                assert(bank.deep_view() =~= bank_of_rows_upto(dv, i as int)->Ok_0.push(
                    row_question(dv[i as int], width as int),
                ));
                i = i + 1;
            },
        }
    }
    proof {
        lemma_bank_questions_wf(dv, dv.len() as int);
        assert forall|k: int| 0 <= k < bank@.len() implies (#[trigger] bank@[k])@.wf() by {
            assert(bank@[k]@ == bank.deep_view()[k]);
            assert(bank_of_rows_upto(dv, dv.len() as int)->Ok_0[k].wf());
        }
    }
    Ok(bank)
}

/// Reads a question bank from delimited text (see [`parse_rows`]).
pub fn parse_csv_string(csv_data: &str) -> (r: Result<Vec<Question>, LoadError>)
    ensures
        bank_result_view(r) == bank_of_text(csv_data@),
        r is Ok ==> forall|k: int| 0 <= k < r->Ok_0@.len() ==> (#[trigger] r->Ok_0@[k])@.wf(),
{
    match read_records(csv_data) {
        Err(_) => Err(LoadError::Csv),
        Ok(rows) => parse_rows(&rows),
    }
}

/// A resolved question bank, and whether the built-in bank stands in for the
/// source.
pub struct LoadedBank {
    pub questions: Vec<Question>,
    pub loading_failed: bool,
}

/// The text of a fetched source.
pub open spec fn source_text(source: Option<&str>) -> Option<Seq<char>> {
    match source {
        Some(t) => Some(t@),
        None => None,
    }
}

/// The bank resolved from `source`, and whether the built-in bank stands in:
/// the source's own bank where it can be read and holds at least
/// `quiz_size` questions, else the built-in bank.
pub open spec fn loaded_bank_of(source: Option<Seq<char>>, quiz_size: nat) -> (
    Seq<QuestionModel>,
    bool,
) {
    match source {
        Some(t) => if bank_of_text(t) is Ok && bank_of_text(t)->Ok_0.len() >= quiz_size {
            (bank_of_text(t)->Ok_0, false)
        } else {
            (fallback_bank(), true)
        },
        None => (fallback_bank(), true),
    }
}

/// A source that could not be fetched or read yields the built-in bank,
/// flagged, and that bank holds at least `quiz_size` questions.
pub proof fn lemma_unreadable_source_falls_back(source: Option<Seq<char>>, quiz_size: nat)
    requires
        quiz_size <= FALLBACK_SIZE,
        source is None || bank_of_text(source->0) is Err,
    ensures
        loaded_bank_of(source, quiz_size).1,
        loaded_bank_of(source, quiz_size).0 == fallback_bank(),
        loaded_bank_of(source, quiz_size).0.len() >= quiz_size,
{
    assert(fallback_bank().len() == FALLBACK_SIZE);
}

/// Resolves the question bank from the fetched text of the source (`None`
/// where fetching failed). A source that cannot be read, or holds fewer than
/// `quiz_size` questions, is replaced by the built-in bank and flagged.
pub fn load_bank(source: Option<&str>, quiz_size: usize) -> (r: LoadedBank)
    requires
        quiz_size <= FALLBACK_SIZE,
    ensures
        (r.questions.deep_view(), r.loading_failed) == loaded_bank_of(
            source_text(source),
            quiz_size as nat,
        ),
        r.questions@.len() >= quiz_size,
        forall|k: int| 0 <= k < r.questions@.len() ==> (#[trigger] r.questions@[k])@.wf(),
{
    if let Some(text) = source {
        match parse_csv_string(text) {
            Ok(questions) => {
                if questions.len() >= quiz_size {
                    return LoadedBank { questions, loading_failed: false };
                }
            },
            Err(_) => {},
        }
    }
    LoadedBank { questions: get_fallback_questions(), loading_failed: true }
}

} // verus!
