use vstd::prelude::*;

use crate::error::DBError;
use crate::ident::uuid_parse_of;
use crate::model::{
    answer_detail_identifies, answer_detail_of, question_detail_identifies, question_detail_of, Answer, AnswerDetail, AnswerDetailView, AnswerRecord,
    Question, QuestionDetail, QuestionDetailView, QuestionRecord,
};

verus! {

/// The contents of both tables.
pub struct StoreState {
    pub questions: Seq<QuestionRecord>,
    pub answers: Seq<AnswerRecord>,
}

/// The state with no rows.
pub open spec fn empty_state() -> StoreState {
    StoreState { questions: Seq::empty(), answers: Seq::empty() }
}

pub open spec fn has_question_id(qs: Seq<QuestionRecord>, id: u128) -> bool {
    exists|i: int| 0 <= i < qs.len() && #[trigger] qs[i].id == id
}

pub open spec fn has_answer_id(ans: Seq<AnswerRecord>, id: u128) -> bool {
    exists|i: int| 0 <= i < ans.len() && #[trigger] ans[i].id == id
}

/// The questions, in order, but those with the given identifier.
pub open spec fn without_question(qs: Seq<QuestionRecord>, id: u128) -> Seq<QuestionRecord>
    decreases qs.len(),
{
    if qs.len() == 0 {
        qs
    } else {
        let rest = without_question(qs.drop_last(), id);
        if qs.last().id == id {
            rest
        } else {
            rest.push(qs.last())
        }
    }
}

/// The answers, in order, but those with the given identifier.
pub open spec fn without_answer(ans: Seq<AnswerRecord>, id: u128) -> Seq<AnswerRecord>
    decreases ans.len(),
{
    if ans.len() == 0 {
        ans
    } else {
        let rest = without_answer(ans.drop_last(), id);
        if ans.last().id == id {
            rest
        } else {
            rest.push(ans.last())
        }
    }
}

/// The answers, in order, that refer to the given question.
pub open spec fn answers_to(ans: Seq<AnswerRecord>, question_id: u128) -> Seq<AnswerRecord>
    decreases ans.len(),
{
    if ans.len() == 0 {
        ans
    } else {
        let rest = answers_to(ans.drop_last(), question_id);
        if ans.last().question_id == question_id {
            rest.push(ans.last())
        } else {
            rest
        }
    }
}

/// What listing the questions shows.
pub open spec fn listed_questions(s: StoreState) -> Seq<QuestionDetailView> {
    s.questions.map_values(|r: QuestionRecord| question_detail_of(r))
}

/// What listing the answers to a question shows.
pub open spec fn listed_answers(s: StoreState, question_id: u128) -> Seq<AnswerDetailView> {
    answers_to(s.answers, question_id).map_values(|r: AnswerRecord| answer_detail_of(r))
}

/// `after` is `before` with one question more, at the end, under an
/// identifier that no stored question had.
pub open spec fn question_added(
    before: StoreState,
    after: StoreState,
    title: Seq<char>,
    description: Seq<char>,
) -> bool {
    &&& after.answers == before.answers
    &&& after.questions.len() == before.questions.len() + 1
    &&& after.questions.drop_last() == before.questions
    &&& !has_question_id(before.questions, after.questions.last().id)
    &&& after.questions.last().title == title
    &&& after.questions.last().description == description
}

/// `after` is `before` with one answer more to the given question, at the
/// end, under an identifier that no stored answer had.
pub open spec fn answer_added(
    before: StoreState,
    after: StoreState,
    question_id: u128,
    content: Seq<char>,
) -> bool {
    &&& after.questions == before.questions
    &&& after.answers.len() == before.answers.len() + 1
    &&& after.answers.drop_last() == before.answers
    &&& !has_answer_id(before.answers, after.answers.last().id)
    &&& after.answers.last().question_id == question_id
    &&& after.answers.last().content == content
}

pub open spec fn question_details_view(v: Seq<QuestionDetail>) -> Seq<QuestionDetailView> {
    v.map_values(|d: QuestionDetail| d@)
}

pub open spec fn answer_details_view(v: Seq<AnswerDetail>) -> Seq<AnswerDetailView> {
    v.map_values(|d: AnswerDetail| d@)
}

/// Persistence of questions.
pub trait QuestionsDao {
    /// The stored rows.
    spec fn stored(&self) -> StoreState;

    /// Stores a new question; on success returns it as stored. Only a
    /// clash of the generated identifier with a stored one can make it
    /// fail, so it succeeds on an empty table.
    fn create_question(&mut self, question: Question) -> (r: Result<QuestionDetail, DBError>)
        ensures
            old(self).stored().questions.len() == 0 ==> r is Ok,
            match r {
                Ok(d) => {
                    &&& question_added(
                        old(self).stored(),
                        final(self).stored(),
                        question.title@,
                        question.description@,
                    )
                    &&& d@ == question_detail_of(final(self).stored().questions.last())
                    &&& question_detail_identifies(d@, final(self).stored().questions.last())
                    &&& d.created_at@.len() > 0
                },
                Err(e) => e is Other && final(self).stored() == old(self).stored(),
            },
    ;

    /// Removes the question with the given identifier, if there is one.
    fn delete_question(&mut self, question_uuid: String) -> (r: Result<(), DBError>)
        ensures
            match uuid_parse_of(question_uuid@) {
                Err(_) => r matches Err(DBError::InvalidUUID(_)) && final(self).stored()
                    == old(self).stored(),
                Ok(id) => r is Ok && final(self).stored() == (StoreState {
                    questions: without_question(old(self).stored().questions, id),
                    answers: old(self).stored().answers,
                }),
            },
    ;

    /// All stored questions.
    fn get_questions(&self) -> (r: Result<Vec<QuestionDetail>, DBError>)
        ensures
            r matches Ok(v) && question_details_view(v@) == listed_questions(self.stored()),
    ;
}

/// Persistence of answers, each of which refers to a stored question.
pub trait AnswersDao: QuestionsDao {
    /// Stores a new answer to an existing question; on success returns it
    /// as stored. Where the question exists, only a clash of the generated
    /// identifier with a stored one can make it fail, so it succeeds where no
    /// answer is stored.
    fn create_answer(&mut self, answer: Answer) -> (r: Result<AnswerDetail, DBError>)
        ensures
            match uuid_parse_of(answer.question_uuid@) {
                Err(_) => r matches Err(DBError::InvalidUUID(_)) && final(self).stored()
                    == old(self).stored(),
                Ok(q) => if !has_question_id(old(self).stored().questions, q) {
                    r matches Err(DBError::InvalidUUID(_)) && final(self).stored()
                        == old(self).stored()
                } else {
                    &&& (old(self).stored().answers.len() == 0 ==> r is Ok)
                    &&& match r {
                        Ok(d) => {
                            &&& answer_added(
                                old(self).stored(),
                                final(self).stored(),
                                q,
                                answer.content@,
                            )
                            &&& d@ == answer_detail_of(final(self).stored().answers.last())
                            &&& answer_detail_identifies(d@, final(self).stored().answers.last())
                            &&& d.created_at@.len() > 0
                        },
                        Err(e) => e is Other && final(self).stored() == old(self).stored(),
                    }
                },
            },
    ;

    /// Removes the answer with the given identifier, if there is one.
    fn delete_answer(&mut self, answer_uuid: String) -> (r: Result<(), DBError>)
        ensures
            match uuid_parse_of(answer_uuid@) {
                Err(_) => r matches Err(DBError::InvalidUUID(_)) && final(self).stored()
                    == old(self).stored(),
                Ok(id) => r is Ok && final(self).stored() == (StoreState {
                    questions: old(self).stored().questions,
                    answers: without_answer(old(self).stored().answers, id),
                }),
            },
    ;

    /// The answers to the question with the given identifier.
    fn get_answers(&self, question_uuid: String) -> (r: Result<Vec<AnswerDetail>, DBError>)
        ensures
            match uuid_parse_of(question_uuid@) {
                Err(_) => r matches Err(DBError::InvalidUUID(_)),
                Ok(q) => r matches Ok(v) && answer_details_view(v@) == listed_answers(
                    self.stored(),
                    q,
                ),
            },
    ;
}

} // verus!
