use vstd::prelude::*;

verus! {

/// Number of options every question offers.
pub const OPTION_COUNT: usize = 4;

/// Mathematical value of a [`Question`].
pub struct QuestionModel {
    pub text: Seq<char>,
    pub options: Seq<Seq<char>>,
    pub correct_answer_index: nat,
}

/// One multiple-choice question.
#[derive(Debug, PartialEq)]
pub struct Question {
    pub text: String,
    pub options: Vec<String>,
    pub correct_answer_index: usize,
}

impl View for Question {
    type V = QuestionModel;

    open spec fn view(&self) -> QuestionModel {
        QuestionModel {
            text: self.text@,
            options: self.options.deep_view(),
            correct_answer_index: self.correct_answer_index as nat,
        }
    }
}

impl DeepView for Question {
    type V = QuestionModel;

    open spec fn deep_view(&self) -> QuestionModel {
        self@
    }
}

impl QuestionModel {
    /// Four options and an answer index that names one of them.
    pub open spec fn wf(self) -> bool {
        &&& self.options.len() == OPTION_COUNT
        &&& self.correct_answer_index < self.options.len()
    }
}

/// Every question of `qs` is well-formed.
pub open spec fn all_wf(qs: Seq<QuestionModel>) -> bool {
    forall|k: int| 0 <= k < qs.len() ==> (#[trigger] qs[k]).wf()
}

impl Clone for Question {
    fn clone(&self) -> (r: Self)
        ensures
            r@ == self@,
    {
        let mut options: Vec<String> = Vec::new();
        let mut i: usize = 0;
        while i < self.options.len()
            invariant
                i <= self.options.len(),
                options@.len() == i,
                options.deep_view() =~= self.options.deep_view().subrange(0, i as int),
            decreases self.options.len() - i,
        {
            let o = self.options[i].clone();
            options.push(o);
            i = i + 1;
            assert(options.deep_view() =~= self.options.deep_view().subrange(0, i as int));
        }
        let r = Question {
            text: self.text.clone(),
            options,
            correct_answer_index: self.correct_answer_index,
        };
        assert(r.options.deep_view() =~= self.options.deep_view());
        r
    }
}

impl Question {
    /// Builds a question from borrowed text.
    pub fn new(text: &str, options: Vec<&str>, correct_answer_index: usize) -> (r: Self)
        ensures
            r@.text == text@,
            r@.options == options@.map_values(|s: &str| s@),
            r.correct_answer_index == correct_answer_index,
    {
        let mut owned: Vec<String> = Vec::new();
        let mut i: usize = 0;
        while i < options.len()
            invariant
                i <= options.len(),
                owned@.len() == i,
                owned.deep_view() =~= options@.map_values(|s: &str| s@).subrange(0, i as int),
            decreases options.len() - i,
        {
            let s: &str = options[i];
            owned.push(s.to_string());
            i = i + 1;
            assert(owned.deep_view() =~= options@.map_values(|s: &str| s@).subrange(0, i as int));
        }
        assert(owned.deep_view() =~= options@.map_values(|s: &str| s@));
        Question { text: text.to_string(), options: owned, correct_answer_index }
    }
}

/// Number of questions in the built-in bank.
pub const FALLBACK_SIZE: usize = 5;

/// Contents of the built-in bank.
pub open spec fn fallback_bank() -> Seq<QuestionModel> {
    seq![
        QuestionModel {
            text: "Dans quelle période préhistorique les premiers outils en pierre taillée ont-ils été utilisés ?"@,
            options: seq!["Le Paléolithique inférieur"@, "Le Néolithique"@, "Le Mésolithique"@, "L'âge du bronze"@],
            correct_answer_index: 0,
        },
        QuestionModel {
            text: "Quel hominidé est associé à la culture moustérienne ?"@,
            options: seq!["Homo habilis"@, "Néandertal"@, "Homo sapiens"@, "Australopithèque"@],
            correct_answer_index: 1,
        },
        QuestionModel {
            text: "Comment appelle-t-on les dessins réalisés sur les parois des grottes, comme à Lascaux ?"@,
            options: seq!["Art rupestre"@, "Fresque primitive"@, "Peinture paléolithique"@, "Pictogramme préhistorique"@],
            correct_answer_index: 0,
        },
        QuestionModel {
            text: "Quelle invention marque le début de la sédentarisation au Néolithique ?"@,
            options: seq!["L'agriculture"@, "La roue"@, "L'écriture"@, "Le feu"@],
            correct_answer_index: 0,
        },
        QuestionModel {
            text: "Quelle ville grecque antique est connue pour avoir inventé la démocratie ?"@,
            options: seq!["Sparte"@, "Athènes"@, "Corinthe"@, "Thèbes"@],
            correct_answer_index: 1,
        },
    ]
}

/// The built-in bank used when no usable bank could be loaded.
pub fn get_fallback_questions() -> (r: Vec<Question>)
    ensures
        r.deep_view() == fallback_bank(),
        r@.len() == FALLBACK_SIZE,
        forall|i: int| 0 <= i < r@.len() ==> (#[trigger] r@[i])@.wf(),
{
    let mut r: Vec<Question> = Vec::new();
    r.push(Question::new(
        "Dans quelle période préhistorique les premiers outils en pierre taillée ont-ils été utilisés ?",
        vec!["Le Paléolithique inférieur", "Le Néolithique", "Le Mésolithique", "L'âge du bronze"],
        0,
    ));
    r.push(Question::new(
        "Quel hominidé est associé à la culture moustérienne ?",
        vec!["Homo habilis", "Néandertal", "Homo sapiens", "Australopithèque"],
        1,
    ));
    r.push(Question::new(
        "Comment appelle-t-on les dessins réalisés sur les parois des grottes, comme à Lascaux ?",
        vec!["Art rupestre", "Fresque primitive", "Peinture paléolithique", "Pictogramme préhistorique"],
        0,
    ));
    r.push(Question::new(
        "Quelle invention marque le début de la sédentarisation au Néolithique ?",
        vec!["L'agriculture", "La roue", "L'écriture", "Le feu"],
        0,
    ));
    r.push(Question::new(
        "Quelle ville grecque antique est connue pour avoir inventé la démocratie ?",
        vec!["Sparte", "Athènes", "Corinthe", "Thèbes"],
        1,
    ));
    assert forall|i: int| 0 <= i < 5 implies #[trigger] r.deep_view()[i] == fallback_bank()[i] by {
        assert(r.deep_view()[i].options =~= fallback_bank()[i].options);
    }
    assert(r.deep_view() =~= fallback_bank());
    r
}

/// How one option of a question is shown.
#[derive(Debug, Clone, Copy, PartialEq, Eq, Structural)]
pub enum OptionMark {
    /// Neither chosen nor revealed.
    Plain,
    /// Chosen, before the answer is locked in.
    Selected,
    /// The right option, once the answer is locked in.
    Correct,
    /// The chosen option, once locked in, when it is wrong.
    Incorrect,
}

/// How option `index` is shown, given the selection and whether it was submitted.
pub open spec fn mark_of(correct: usize, selected: Option<usize>, submitted: bool, index: usize) -> OptionMark {
    let is_selected = selected == Some(index);
    if submitted {
        if index == correct {
            OptionMark::Correct
        } else if is_selected {
            OptionMark::Incorrect
        } else {
            OptionMark::Plain
        }
    } else if is_selected {
        OptionMark::Selected
    } else {
        OptionMark::Plain
    }
}

impl Question {
    /// Whether the question has four options and its answer index names one.
    pub fn is_valid(&self) -> (r: bool)
        ensures
            r == self@.wf(),
    {
        self.options.len() == OPTION_COUNT && self.correct_answer_index < self.options.len()
    }

    /// Whether `selected` is this question's right answer.
    pub fn is_correct(&self, selected: Option<usize>) -> (r: bool)
        ensures
            r == (selected == Some(self.correct_answer_index)),
    {
        match selected {
            Some(s) => s == self.correct_answer_index,
            None => false,
        }
    }

    /// How option `index` of this question is shown.
    pub fn option_mark(&self, selected: Option<usize>, submitted: bool, index: usize) -> (r: OptionMark)
        ensures
            r == mark_of(self.correct_answer_index, selected, submitted, index),
    {
        let is_selected = match selected {
            Some(s) => s == index,
            None => false,
        };
        if submitted {
            if index == self.correct_answer_index {
                OptionMark::Correct
            } else if is_selected {
                OptionMark::Incorrect
            } else {
                OptionMark::Plain
            }
        } else if is_selected {
            OptionMark::Selected
        } else {
            OptionMark::Plain
        }
    }
}

} // verus!
