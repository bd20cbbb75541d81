//! Question content variants, per-type validity rules, and the
//! immutability rules of updates.

use vstd::prelude::*;

use crate::error::Error;
use crate::json::JsonDoc;
use crate::models::{Audience, QuestionType};

verus! {

/// A statement that is simply true or false.
#[derive(Clone, Debug, PartialEq)]
pub struct TrueFalseQuestion {
    pub description: String,
    pub is_true: bool,
}

/// A question with one correct choice.
#[derive(Clone, Debug, PartialEq)]
pub struct MultiChoiceQuestion {
    pub description: String,
    pub choices: Vec<String>,
    pub answer: usize,
}

/// A question with one or more correct choices.
#[derive(Clone, Debug, PartialEq)]
pub struct MultiAnswerQuestion {
    pub description: String,
    pub choices: Vec<String>,
    pub answer: Vec<usize>,
}

/// User-authored question content, one variant per question type.
#[derive(Clone, Debug, PartialEq)]
pub enum QuestionContent {
    TrueFalse(TrueFalseQuestion),
    MultiChoice(MultiChoiceQuestion),
    MultiAnswer(MultiAnswerQuestion),
}

/// Request to create a question.
#[derive(Clone, Debug)]
pub struct QuestionCreationRequest {
    pub content: QuestionContent,
    pub audiences: Vec<Audience>,
    pub draft: bool,
}

impl QuestionCreationRequest {
    /// The wire identifiers of the requested audiences, in order.
    pub fn audiences(&self) -> (r: Vec<String>)
        ensures
            r.deep_view() == self.audiences@.map_values(
                |a: Audience| crate::models::spec_audience_name(a),
            ),
    {
        crate::models::audience_names(&self.audiences)
    }
}

/// A persisted question. Timestamps are milliseconds since the Unix epoch.
#[derive(Debug, PartialEq)]
pub struct Question {
    pub id: i32,
    pub creator: i32,
    pub description: String,
    pub choices: Vec<String>,
    pub answer: Vec<i32>,
    pub question_type: QuestionType,
    pub audiences: Vec<String>,
    pub draft: bool,
    pub deleted: bool,
    pub created: i64,
    pub updated: i64,
}

/// Two question records carry the same content: every field agrees, the
/// string and vector fields at the level of their views.
pub open spec fn q_like(a: Question, b: Question) -> bool {
    &&& a.id == b.id
    &&& a.creator == b.creator
    &&& a.description@ == b.description@
    &&& a.choices.deep_view() == b.choices.deep_view()
    &&& a.answer@ == b.answer@
    &&& a.question_type == b.question_type
    &&& a.audiences.deep_view() == b.audiences.deep_view()
    &&& a.draft == b.draft
    &&& a.deleted == b.deleted
    &&& a.created == b.created
    &&& a.updated == b.updated
}

/// Copies a vector of strings, element by element.
pub fn clone_strings(v: &Vec<String>) -> (r: Vec<String>)
    ensures
        r@ == v@,
{
    let mut r: Vec<String> = Vec::new();
    let mut i: usize = 0;
    while i < v.len()
        invariant
            i <= v@.len(),
            r@ == v@.subrange(0, i as int),
        decreases v@.len() - i,
    {
        r.push(v[i].clone());
        i = i + 1;
    }
    assert(r@ =~= v@);
    r
}

impl Clone for Question {
    /// Field-for-field copy; the copy carries the same content.
    fn clone(&self) -> (r: Self)
        ensures
            q_like(r, *self),
    {
        Question {
            id: self.id,
            creator: self.creator,
            description: self.description.clone(),
            choices: clone_strings(&self.choices),
            answer: clone_ints(&self.answer),
            question_type: self.question_type,
            audiences: clone_strings(&self.audiences),
            draft: self.draft,
            deleted: self.deleted,
            created: self.created,
            updated: self.updated,
        }
    }
}

/// Copies a vector of 32-bit integers, element by element.
pub fn clone_ints(v: &Vec<i32>) -> (r: Vec<i32>)
    ensures
        r@ == v@,
{
    let mut r: Vec<i32> = Vec::new();
    let mut i: usize = 0;
    while i < v.len()
        invariant
            i <= v@.len(),
            r@ == v@.subrange(0, i as int),
        decreases v@.len() - i,
    {
        r.push(v[i]);
        i = i + 1;
    }
    assert(r@ =~= v@);
    r
}

/// Description text of the content.
pub open spec fn spec_content_description(c: QuestionContent) -> Seq<char> {
    match c {
        QuestionContent::TrueFalse(q) => q.description@,
        QuestionContent::MultiChoice(q) => q.description@,
        QuestionContent::MultiAnswer(q) => q.description@,
    }
}

/// Choice labels the content persists: a true/false question always
/// stores the fixed labels `T` and `F`.
pub open spec fn spec_content_choices(c: QuestionContent) -> Seq<Seq<char>> {
    match c {
        QuestionContent::TrueFalse(_) => seq!["T"@, "F"@],
        QuestionContent::MultiChoice(q) => q.choices.deep_view(),
        QuestionContent::MultiAnswer(q) => q.choices.deep_view(),
    }
}

/// Answer indices the content persists: `true` is index 0, `false` index 1.
pub open spec fn spec_content_answer(c: QuestionContent) -> Seq<int> {
    match c {
        QuestionContent::TrueFalse(q) => if q.is_true {
            seq![0int]
        } else {
            seq![1int]
        },
        QuestionContent::MultiChoice(q) => seq![q.answer as int],
        QuestionContent::MultiAnswer(q) => q.answer@.map_values(|v: usize| v as int),
    }
}

/// Question type of the content.
pub open spec fn spec_content_ty(c: QuestionContent) -> QuestionType {
    match c {
        QuestionContent::TrueFalse(_) => QuestionType::TrueFalse,
        QuestionContent::MultiChoice(_) => QuestionType::MultiChoice,
        QuestionContent::MultiAnswer(_) => QuestionType::MultiAnswer,
    }
}

/// The per-type validity rules on raw content: a true/false question is
/// valid by construction; a multi-choice answer must index a choice; a
/// multi-answer set must be non-empty, within range, and no larger than
/// the choice list.
pub open spec fn spec_content_valid(c: QuestionContent) -> bool {
    match c {
        QuestionContent::TrueFalse(_) => true,
        QuestionContent::MultiChoice(q) => q.answer < q.choices@.len(),
        QuestionContent::MultiAnswer(q) => {
            &&& 1 <= q.answer@.len() <= q.choices@.len()
            &&& forall|i: int| 0 <= i < q.answer@.len() ==> q.answer@[i] < q.choices@.len()
        },
    }
}

/// Every index of the sequence fits the persisted 32-bit representation.
pub open spec fn spec_fits_i32(answer: Seq<usize>) -> bool {
    forall|i: int| 0 <= i < answer.len() ==> (#[trigger] answer[i]) <= i32::MAX
}

/// Answer indices small enough for the persisted 32-bit representation.
pub open spec fn spec_answers_fit(c: QuestionContent) -> bool {
    match c {
        QuestionContent::TrueFalse(_) => true,
        QuestionContent::MultiChoice(q) => q.answer <= i32::MAX,
        QuestionContent::MultiAnswer(q) => spec_fits_i32(q.answer@),
    }
}

impl QuestionContent {
    /// Description text, for any variant.
    pub fn description(&self) -> (r: &str)
        ensures
            r@ == spec_content_description(*self),
    {
        match self {
            QuestionContent::TrueFalse(q) => q.description.as_str(),
            QuestionContent::MultiChoice(q) => q.description.as_str(),
            QuestionContent::MultiAnswer(q) => q.description.as_str(),
        }
    }

    /// Choice labels to persist.
    pub fn choices(&self) -> (r: Vec<String>)
        ensures
            r.deep_view() == spec_content_choices(*self),
    {
        match self {
            QuestionContent::TrueFalse(_) => {
                let mut v: Vec<String> = Vec::new();
                v.push(String::from_str("T"));
                v.push(String::from_str("F"));
                assert(v.deep_view() =~= spec_content_choices(*self));
                v
            },
            QuestionContent::MultiChoice(q) => {
                let v = clone_strings(&q.choices);
                assert(v.deep_view() =~= q.choices.deep_view());
                v
            },
            QuestionContent::MultiAnswer(q) => {
                let v = clone_strings(&q.choices);
                assert(v.deep_view() =~= q.choices.deep_view());
                v
            },
        }
    }

    /// Answer indices to persist, in 32-bit form.
    pub fn answer(&self) -> (r: Vec<i32>)
        requires
            spec_answers_fit(*self),
        ensures
            r@.map_values(|v: i32| v as int) == spec_content_answer(*self),
    {
        match self {
            QuestionContent::TrueFalse(q) => {
                let mut v: Vec<i32> = Vec::new();
                if q.is_true {
                    v.push(0);
                } else {
                    v.push(1);
                }
                assert(v@.map_values(|x: i32| x as int) =~= spec_content_answer(*self));
                v
            },
            QuestionContent::MultiChoice(q) => {
                let mut v: Vec<i32> = Vec::new();
                v.push(q.answer as i32);
                assert(v@.map_values(|x: i32| x as int) =~= spec_content_answer(*self));
                v
            },
            QuestionContent::MultiAnswer(q) => {
                let mut v: Vec<i32> = Vec::new();
                let mut i: usize = 0;
                while i < q.answer.len()
                    invariant
                        i <= q.answer@.len(),
                        spec_answers_fit(*self),
                        *self == QuestionContent::MultiAnswer(*q),
                        v@.len() == i,
                        forall|k: int| 0 <= k < i ==> v@[k] == q.answer@[k] as i32,
                    decreases q.answer@.len() - i,
                {
                    v.push(q.answer[i] as i32);
                    i = i + 1;
                }
                assert(v@.map_values(|x: i32| x as int) =~= spec_content_answer(*self)) by {
                    assert(forall|k: int|
                        0 <= k < v@.len() ==> v@.map_values(|x: i32| x as int)[k] == v@[k] as int);
                }
                v
            },
        }
    }

    /// Question type of this content.
    pub fn ty(&self) -> (r: QuestionType)
        ensures
            r == spec_content_ty(*self),
    {
        match self {
            QuestionContent::TrueFalse(_) => QuestionType::TrueFalse,
            QuestionContent::MultiChoice(_) => QuestionType::MultiChoice,
            QuestionContent::MultiAnswer(_) => QuestionType::MultiAnswer,
        }
    }

    /// The true/false payload, or a validation failure on a variant mismatch.
    pub fn unwrap_true_false(self) -> (r: Result<TrueFalseQuestion, Error>)
        ensures
            self is TrueFalse <==> r is Ok,
            self matches QuestionContent::TrueFalse(q) ==> r == Ok::<TrueFalseQuestion, Error>(q),
            !(self is TrueFalse) ==> r == Err::<TrueFalseQuestion, Error>(Error::ValidationFailure),
    {
        if let QuestionContent::TrueFalse(q) = self {
            Ok(q)
        } else {
            Err(Error::ValidationFailure)
        }
    }

    /// The multi-choice payload, or a validation failure on a variant mismatch.
    pub fn unwrap_multi_choice(self) -> (r: Result<MultiChoiceQuestion, Error>)
        ensures
            self is MultiChoice <==> r is Ok,
            self matches QuestionContent::MultiChoice(q) ==> r == Ok::<MultiChoiceQuestion, Error>(q),
            !(self is MultiChoice) ==> r == Err::<MultiChoiceQuestion, Error>(Error::ValidationFailure),
    {
        if let QuestionContent::MultiChoice(q) = self {
            Ok(q)
        } else {
            Err(Error::ValidationFailure)
        }
    }

    /// The multi-answer payload, or a validation failure on a variant mismatch.
    pub fn unwrap_multi_answer(self) -> (r: Result<MultiAnswerQuestion, Error>)
        ensures
            self is MultiAnswer <==> r is Ok,
            self matches QuestionContent::MultiAnswer(q) ==> r == Ok::<MultiAnswerQuestion, Error>(q),
            !(self is MultiAnswer) ==> r == Err::<MultiAnswerQuestion, Error>(Error::ValidationFailure),
    {
        if let QuestionContent::MultiAnswer(q) = self {
            Ok(q)
        } else {
            Err(Error::ValidationFailure)
        }
    }

    /// Answer indices small enough for the persisted 32-bit representation.
    pub fn answers_fit(&self) -> (r: bool)
        ensures
            r == spec_answers_fit(*self),
    {
        match self {
            QuestionContent::TrueFalse(_) => true,
            QuestionContent::MultiChoice(q) => q.answer <= (i32::MAX as usize),
            QuestionContent::MultiAnswer(q) => {
                let mut i: usize = 0;
                while i < q.answer.len()
                    invariant
                        i <= q.answer@.len(),
                        *self == QuestionContent::MultiAnswer(*q),
                        forall|k: int| 0 <= k < i ==> #[trigger] q.answer@[k] <= i32::MAX,
                    decreases q.answer@.len() - i,
                {
                    if q.answer[i] > (i32::MAX as usize) {
                        assert(!spec_fits_i32(q.answer@)) by {
                            assert(q.answer@[i as int] > i32::MAX);
                        }
                        return false;
                    }
                    i = i + 1;
                }
                true
            },
        }
    }

    /// Checks the per-type validity rules on the raw content.
    pub fn content_is_valid(&self) -> (r: bool)
        ensures
            r == spec_content_valid(*self),
    {
        match self {
            QuestionContent::TrueFalse(_) => true,
            QuestionContent::MultiChoice(q) => q.answer < q.choices.len(),
            QuestionContent::MultiAnswer(q) => {
                if q.answer.len() < 1 || q.answer.len() > q.choices.len() {
                    return false;
                }
                let mut i: usize = 0;
                while i < q.answer.len()
                    invariant
                        i <= q.answer@.len(),
                        *self == QuestionContent::MultiAnswer(*q),
                        1 <= q.answer@.len() <= q.choices@.len(),
                        forall|k: int| 0 <= k < i ==> q.answer@[k] < q.choices@.len(),
                    decreases q.answer@.len() - i,
                {
                    if q.answer[i] >= q.choices.len() {
                        return false;
                    }
                    i = i + 1;
                }
                true
            },
        }
    }
}

/// The content as the decoded document determines it, over plain values.
pub enum SpecContent {
    TrueFalse { description: Seq<char>, is_true: bool },
    MultiChoice { description: Seq<char>, choices: Seq<Seq<char>>, answer: u64 },
    MultiAnswer { description: Seq<char>, choices: Seq<Seq<char>>, answer: Seq<u64> },
}

/// The texts of a sequence of string documents; `None` if any element is
/// not a string.
pub open spec fn strings_of(items: Seq<JsonDoc>) -> Option<Seq<Seq<char>>>
    decreases items.len(),
{
    if items.len() == 0 {
        Some(Seq::empty())
    } else {
        match strings_of(items.drop_last()) {
            None => None,
            Some(pre) => match crate::json::doc_str(items.last()) {
                None => None,
                Some(t) => Some(pre.push(t)),
            },
        }
    }
}

/// The values of a sequence of index documents; `None` if any element is
/// not a non-negative integer or does not fit an in-memory index.
pub open spec fn indices_of(items: Seq<JsonDoc>) -> Option<Seq<u64>>
    decreases items.len(),
{
    if items.len() == 0 {
        Some(Seq::empty())
    } else {
        match indices_of(items.drop_last()) {
            None => None,
            Some(pre) => match crate::json::doc_u64(items.last()) {
                None => None,
                Some(u) => if u > usize::MAX {
                    None
                } else {
                    Some(pre.push(u))
                },
            },
        }
    }
}

/// The texts of an array document of strings.
pub open spec fn doc_strings(d: JsonDoc) -> Option<Seq<Seq<char>>> {
    match d {
        JsonDoc::Arr(items) => strings_of(items),
        _ => None,
    }
}

/// The values of an array document of indices.
pub open spec fn doc_indices(d: JsonDoc) -> Option<Seq<u64>> {
    match d {
        JsonDoc::Arr(items) => indices_of(items),
        _ => None,
    }
}

/// What the content decode returns, as a function of the document the
/// body text denotes: the payload's shape picks the variant — an
/// `is_true` boolean marks a true/false question, a numeric `answer` a
/// multi-choice question, an array `answer` a multi-answer question —
/// and anything else is no content at all.
pub open spec fn spec_content_of(parsed: Option<JsonDoc>) -> Option<SpecContent> {
    match parsed {
        None => None,
        Some(d) => match crate::json::field_str(d, "description"@) {
            None => None,
            Some(description) => match crate::json::doc_field(d, "is_true"@) {
                Some(flag) => match crate::json::doc_bool(flag) {
                    None => None,
                    Some(b) => Some(SpecContent::TrueFalse { description, is_true: b }),
                },
                None => match crate::json::doc_field(d, "choices"@) {
                    None => None,
                    Some(cdoc) => match doc_strings(cdoc) {
                        None => None,
                        Some(choices) => match crate::json::doc_field(d, "answer"@) {
                            None => None,
                            Some(adoc) => match crate::json::doc_u64(adoc) {
                                Some(single) => if single > usize::MAX {
                                    None
                                } else {
                                    Some(
                                        SpecContent::MultiChoice {
                                            description,
                                            choices,
                                            answer: single,
                                        },
                                    )
                                },
                                None => match doc_indices(adoc) {
                                    None => None,
                                    Some(answer) => Some(
                                        SpecContent::MultiAnswer { description, choices, answer },
                                    ),
                                },
                            },
                        },
                    },
                },
            },
        },
    }
}

/// The executable content carries the determined plain values.
pub open spec fn content_matches(c: QuestionContent, s: SpecContent) -> bool {
    match (c, s) {
        (
            QuestionContent::TrueFalse(t),
            SpecContent::TrueFalse { description, is_true },
        ) => t.description@ == description && t.is_true == is_true,
        (
            QuestionContent::MultiChoice(m),
            SpecContent::MultiChoice { description, choices, answer },
        ) => m.description@ == description && m.choices.deep_view() == choices && m.answer as u64
            == answer,
        (
            QuestionContent::MultiAnswer(m),
            SpecContent::MultiAnswer { description, choices, answer },
        ) => m.description@ == description && m.choices.deep_view() == choices
            && m.answer@.map_values(|v: usize| v as u64) == answer,
        _ => false,
    }
}

/// On a sequence with one element that is no string, no text list exists.
proof fn lemma_strings_of_none(items: Seq<JsonDoc>, i: int)
    requires
        0 <= i < items.len(),
        crate::json::doc_str(items[i]) is None,
    ensures
        strings_of(items) is None,
    decreases items.len(),
{
    if i < items.len() - 1 {
        assert(items.drop_last()[i] == items[i]);
        lemma_strings_of_none(items.drop_last(), i);
    }
}

/// On a sequence with one element that is no admissible index, no index
/// list exists.
proof fn lemma_indices_of_none(items: Seq<JsonDoc>, i: int)
    requires
        0 <= i < items.len(),
        match crate::json::doc_u64(items[i]) {
            None => true,
            Some(u) => u > usize::MAX,
        },
    ensures
        indices_of(items) is None,
    decreases items.len(),
{
    if i < items.len() - 1 {
        assert(items.drop_last()[i] == items[i]);
        lemma_indices_of_none(items.drop_last(), i);
    }
}

/// Reads a JSON array of strings.
fn read_string_array(v: &serde_json::Value) -> (r: Option<Vec<String>>)
    ensures
        r is Some <==> doc_strings(crate::json::json_view(*v)) is Some,
        r matches Some(out) ==> Some(out.deep_view()) == doc_strings(crate::json::json_view(*v)),
{
    let items = match crate::json::json_as_array(v) {
        Some(items) => items,
        None => {
            return None;
        },
    };
    let ghost doc_elems = crate::json::doc_items(crate::json::json_view(*v));
    let mut r: Vec<String> = Vec::new();
    let mut i: usize = 0;
    while i < items.len()
        invariant
            i <= items@.len(),
            crate::json::json_view(*v) is Arr,
            doc_elems == crate::json::doc_items(crate::json::json_view(*v)),
            items@.len() == doc_elems.len(),
            forall|k: int|
                0 <= k < items@.len() ==> crate::json::json_view(#[trigger] items@[k])
                    == doc_elems[k],
            strings_of(doc_elems.take(i as int)) == Some(r.deep_view()),
        decreases items@.len() - i,
    {
        match crate::json::json_as_string(&items[i]) {
            Some(s) => {
                let ghost pre = r.deep_view();
                r.push(s);
                proof {
                    let cur = doc_elems.take(i + 1);
                    assert(cur.drop_last() =~= doc_elems.take(i as int));
                    assert(cur.last() == doc_elems[i as int]);
                    assert(r.deep_view() =~= pre.push(s@));
                }
            },
            None => {
                proof {
                    lemma_strings_of_none(doc_elems, i as int);
                }
                return None;
            },
        }
        i = i + 1;
    }
    proof {
        assert(doc_elems.take(doc_elems.len() as int) =~= doc_elems);
    }
    Some(r)
}

/// Reads a JSON array of unsigned numbers as indices.
fn read_index_array(v: &serde_json::Value) -> (r: Option<Vec<usize>>)
    ensures
        r is Some <==> doc_indices(crate::json::json_view(*v)) is Some,
        r matches Some(out) ==> Some(out@.map_values(|u: usize| u as u64)) == doc_indices(
            crate::json::json_view(*v),
        ),
{
    let items = match crate::json::json_as_array(v) {
        Some(items) => items,
        None => {
            return None;
        },
    };
    let ghost doc_elems = crate::json::doc_items(crate::json::json_view(*v));
    let mut r: Vec<usize> = Vec::new();
    let mut i: usize = 0;
    while i < items.len()
        invariant
            i <= items@.len(),
            crate::json::json_view(*v) is Arr,
            doc_elems == crate::json::doc_items(crate::json::json_view(*v)),
            items@.len() == doc_elems.len(),
            forall|k: int|
                0 <= k < items@.len() ==> crate::json::json_view(#[trigger] items@[k])
                    == doc_elems[k],
            indices_of(doc_elems.take(i as int)) == Some(
                r@.map_values(|u: usize| u as u64),
            ),
        decreases items@.len() - i,
    {
        match crate::json::json_as_u64(&items[i]) {
            Some(u) => {
                if u > (usize::MAX as u64) {
                    proof {
                        lemma_indices_of_none(doc_elems, i as int);
                    }
                    return None;
                }
                let ghost pre = r@.map_values(|x: usize| x as u64);
                r.push(u as usize);
                proof {
                    let cur = doc_elems.take(i + 1);
                    assert(cur.drop_last() =~= doc_elems.take(i as int));
                    assert(cur.last() == doc_elems[i as int]);
                    assert(r@.map_values(|x: usize| x as u64) =~= pre.push(u));
                }
            },
            None => {
                proof {
                    lemma_indices_of_none(doc_elems, i as int);
                }
                return None;
            },
        }
        i = i + 1;
    }
    proof {
        assert(doc_elems.take(doc_elems.len() as int) =~= doc_elems);
    }
    Some(r)
}

/// Reconstructs question content from its JSON form by the shape of the
/// payload, the way the wire format distinguishes the variants: a
/// `is_true` boolean marks a true/false question, a numeric `answer` a
/// multi-choice question, an array `answer` a multi-answer question.
/// Anything else is a validation failure, not a crash. The result is
/// exactly what the document denoted by the body determines.
pub fn parse_question_content(body: &str) -> (r: Result<QuestionContent, Error>)
    ensures
        ({
            let expected = spec_content_of(crate::json::json_of(body@));
            match r {
                Ok(c) => expected matches Some(sc) && content_matches(c, sc),
                Err(e) => expected is None && e == Error::ValidationFailure,
            }
        }),
{
    let v = match crate::json::json_parse(body) {
        Some(v) => v,
        None => {
            return Err(Error::ValidationFailure);
        },
    };
    let description = match crate::json::read_string_field(&v, "description") {
        Some(d) => d,
        None => {
            return Err(Error::ValidationFailure);
        },
    };
    if let Some(flag) = crate::json::json_get(&v, "is_true") {
        let is_true = match crate::json::json_as_bool(flag) {
            Some(b) => b,
            None => {
                return Err(Error::ValidationFailure);
            },
        };
        return Ok(QuestionContent::TrueFalse(TrueFalseQuestion { description, is_true }));
    }
    let choices = match crate::json::json_get(&v, "choices") {
        Some(c) => match read_string_array(c) {
            Some(c) => c,
            None => {
                return Err(Error::ValidationFailure);
            },
        },
        None => {
            return Err(Error::ValidationFailure);
        },
    };
    let answer_field = match crate::json::json_get(&v, "answer") {
        Some(a) => a,
        None => {
            return Err(Error::ValidationFailure);
        },
    };
    if let Some(single) = crate::json::json_as_u64(answer_field) {
        if single > (usize::MAX as u64) {
            return Err(Error::ValidationFailure);
        }
        return Ok(
            QuestionContent::MultiChoice(
                MultiChoiceQuestion { description, choices, answer: single as usize },
            ),
        );
    }
    match read_index_array(answer_field) {
        Some(answer) => Ok(
            QuestionContent::MultiAnswer(MultiAnswerQuestion { description, choices, answer }),
        ),
        None => Err(Error::ValidationFailure),
    }
}

/// The fixed choice labels of a persisted true/false question.
pub open spec fn spec_tf_choice_labels(cs: Seq<Seq<char>>) -> bool {
    cs.len() == 2 && cs[0] == "T"@ && cs[1] == "F"@
}

/// The per-type validity rules, stated over the parts a record persists:
/// a true/false question has exactly the choices `T` and `F` and one
/// answer index that is 0 or 1; a multi-choice question has exactly one
/// answer index, within range; a multi-answer question has one or more
/// answer indices, all within range, no more than there are choices.
pub open spec fn spec_valid_parts(ty: QuestionType, choices: Seq<Seq<char>>, answer: Seq<
    int,
>) -> bool {
    match ty {
        QuestionType::TrueFalse => {
            &&& spec_tf_choice_labels(choices)
            &&& answer.len() == 1
            &&& 0 <= answer[0] <= 1
        },
        QuestionType::MultiChoice => {
            &&& answer.len() == 1
            &&& 0 <= answer[0] < choices.len()
        },
        QuestionType::MultiAnswer => {
            &&& 1 <= answer.len() <= choices.len()
            &&& forall|i: int| 0 <= i < answer.len() ==> 0 <= #[trigger] answer[i] < choices.len()
        },
    }
}

/// The validity rules applied to a persisted record.
pub open spec fn spec_valid_question(q: Question) -> bool {
    spec_valid_parts(q.question_type, q.choices.deep_view(), q.answer@.map_values(|v: i32| v as int))
}

impl Question {
    /// Checks the per-type validity rules on this record.
    pub fn is_valid(&self) -> (r: bool)
        ensures
            r == spec_valid_question(*self),
    {
        proof {
            let m = self.answer@.map_values(|v: i32| v as int);
            assert(m.len() == self.answer@.len());
            assert(forall|k: int| 0 <= k < self.answer@.len() ==> m[k] == self.answer@[k] as int);
            assert(self.choices.deep_view().len() == self.choices@.len());
        }
        match self.question_type {
            QuestionType::TrueFalse => {
                if self.choices.len() != 2 {
                    return false;
                }
                let labels_ok = crate::text::str_eq(self.choices[0].as_str(), "T")
                    && crate::text::str_eq(self.choices[1].as_str(), "F");
                labels_ok && self.answer.len() == 1 && 0 <= self.answer[0] && self.answer[0] <= 1
            },
            QuestionType::MultiChoice => {
                self.answer.len() == 1 && 0 <= self.answer[0] && (self.answer[0] as usize)
                    < self.choices.len()
            },
            QuestionType::MultiAnswer => {
                if self.answer.len() < 1 || self.answer.len() > self.choices.len() {
                    return false;
                }
                let mut i: usize = 0;
                while i < self.answer.len()
                    invariant
                        i <= self.answer@.len(),
                        self.question_type is MultiAnswer,
                        forall|k: int|
                            0 <= k < i ==> 0 <= #[trigger] self.answer@[k] < self.choices@.len(),
                    decreases self.answer@.len() - i,
                {
                    if self.answer[i] < 0 || (self.answer[i] as usize) >= self.choices.len() {
                        assert(!spec_valid_question(*self)) by {
                            let m = self.answer@.map_values(|v: i32| v as int);
                            assert(m[i as int] == self.answer@[i as int] as int);
                            assert(self.choices.deep_view().len() == self.choices@.len());
                        }
                        return false;
                    }
                    i = i + 1;
                }
                true
            },
        }
    }

    /// The true/false payload of a valid true/false question; a variant
    /// mismatch or an invalid record is a validation failure, not a crash.
    pub fn unwrap_true_false(&self) -> (r: Result<TrueFalseQuestion, Error>)
        ensures
            r is Ok <==> self.question_type is TrueFalse && spec_valid_question(*self),
            r matches Ok(t) ==> {
                &&& t.description@ == self.description@
                &&& t.is_true == (self.answer@[0] == 0)
            },
            r is Err ==> r == Err::<TrueFalseQuestion, Error>(Error::ValidationFailure),
    {
        if !(matches!(self.question_type, QuestionType::TrueFalse) && self.is_valid()) {
            return Err(Error::ValidationFailure);
        }
        Ok(TrueFalseQuestion { description: self.description.clone(), is_true: self.answer[0] == 0 })
    }

    /// The multi-choice payload of a valid multi-choice question; a
    /// variant mismatch or an invalid record is a validation failure.
    pub fn unwrap_multi_choice(&self) -> (r: Result<MultiChoiceQuestion, Error>)
        ensures
            r is Ok <==> self.question_type is MultiChoice && spec_valid_question(*self),
            r matches Ok(t) ==> {
                &&& t.description@ == self.description@
                &&& t.choices.deep_view() == self.choices.deep_view()
                &&& t.answer == self.answer@[0] as int
            },
            r is Err ==> r == Err::<MultiChoiceQuestion, Error>(Error::ValidationFailure),
    {
        if !(matches!(self.question_type, QuestionType::MultiChoice) && self.is_valid()) {
            return Err(Error::ValidationFailure);
        }
        let choices = clone_strings(&self.choices);
        assert(choices.deep_view() =~= self.choices.deep_view());
        Ok(MultiChoiceQuestion {
            description: self.description.clone(),
            choices,
            answer: self.answer[0] as usize,
        })
    }

    /// The multi-answer payload of a valid multi-answer question; a
    /// variant mismatch or an invalid record is a validation failure.
    pub fn unwrap_multi_answer(&self) -> (r: Result<MultiAnswerQuestion, Error>)
        ensures
            r is Ok <==> self.question_type is MultiAnswer && spec_valid_question(*self),
            r matches Ok(t) ==> {
                &&& t.description@ == self.description@
                &&& t.choices.deep_view() == self.choices.deep_view()
                &&& t.answer@.map_values(|v: usize| v as int) == self.answer@.map_values(
                    |v: i32| v as int,
                )
            },
            r is Err ==> r == Err::<MultiAnswerQuestion, Error>(Error::ValidationFailure),
    {
        if !(matches!(self.question_type, QuestionType::MultiAnswer) && self.is_valid()) {
            return Err(Error::ValidationFailure);
        }
        let choices = clone_strings(&self.choices);
        assert(choices.deep_view() =~= self.choices.deep_view());
        let mut answer: Vec<usize> = Vec::new();
        let mut i: usize = 0;
        while i < self.answer.len()
            invariant
                i <= self.answer@.len(),
                spec_valid_question(*self),
                self.question_type is MultiAnswer,
                answer@.len() == i,
                forall|k: int| 0 <= k < i ==> answer@[k] == self.answer@[k] as usize,
            decreases self.answer@.len() - i,
        {
            answer.push(self.answer[i] as usize);
            i = i + 1;
        }
        assert(answer@.map_values(|v: usize| v as int) =~= self.answer@.map_values(
            |v: i32| v as int,
        ));
        Ok(MultiAnswerQuestion { description: self.description.clone(), choices, answer })
    }

    /// The caller-mutable fields (description, choices, answer, audiences,
    /// draft flag) taken from `submitted`; identifier, creator, type,
    /// soft-delete flag and creation time kept from `self`; the update time
    /// always server-set to `now`.
    pub fn apply_update(&self, submitted: &Question, now: i64) -> (r: Question)
        ensures
            spec_merged(*self, *submitted, now, r),
    {
        Question {
            id: self.id,
            creator: self.creator,
            description: submitted.description.clone(),
            choices: clone_strings(&submitted.choices),
            answer: clone_ints(&submitted.answer),
            question_type: self.question_type,
            audiences: clone_strings(&submitted.audiences),
            draft: submitted.draft,
            deleted: self.deleted,
            created: self.created,
            updated: now,
        }
    }
}

/// `m` is the record that an update of `orig` with caller input `sub` at
/// time `now` must persist: caller-mutable fields from `sub`, immutable
/// fields from `orig`, the update time server-set.
pub open spec fn spec_merged(orig: Question, sub: Question, now: i64, m: Question) -> bool {
    &&& m.id == orig.id
    &&& m.creator == orig.creator
    &&& m.question_type == orig.question_type
    &&& m.deleted == orig.deleted
    &&& m.created == orig.created
    &&& m.description@ == sub.description@
    &&& m.choices.deep_view() == sub.choices.deep_view()
    &&& m.answer@ == sub.answer@
    &&& m.audiences.deep_view() == sub.audiences.deep_view()
    &&& m.draft == sub.draft
    &&& m.updated == now
}

/// Valid raw content that fits the persisted 32-bit representation always
/// builds a valid persisted question.
pub proof fn lemma_content_builds_valid_question(c: QuestionContent, q: Question)
    requires
        spec_content_valid(c),
        spec_answers_fit(c),
        q.question_type == spec_content_ty(c),
        q.choices.deep_view() == spec_content_choices(c),
        q.answer@.map_values(|v: i32| v as int) == spec_content_answer(c),
    ensures
        spec_valid_question(q),
{
    let answers = q.answer@.map_values(|v: i32| v as int);
    assert(q.choices.deep_view().len() == q.choices@.len());
    assert(q.answer@.len() == answers.len());
    match c {
        QuestionContent::TrueFalse(t) => {
            assert(answers[0] == q.answer@[0] as int);
        },
        QuestionContent::MultiChoice(m) => {
            assert(answers[0] == q.answer@[0] as int);
            assert(spec_content_choices(c).len() == m.choices@.len());
        },
        QuestionContent::MultiAnswer(m) => {
            assert(spec_content_choices(c).len() == m.choices@.len());
            assert forall|i: int| 0 <= i < q.answer@.len() implies 0 <= #[trigger] q.answer@[i]
                < q.choices@.len() by {
                assert(answers[i] == q.answer@[i] as int);
                assert(spec_content_answer(c)[i] == m.answer@[i] as int);
            }
        },
    }
}

} // verus!
