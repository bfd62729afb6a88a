use vstd::prelude::*;

use crate::error::DBError;
use crate::ident::{fresh_uuid, parse_identifier, uuid_parse_of};
use crate::model::{
    answer_detail_identifies, answer_detail_of, question_detail_identifies, question_detail_of, Answer, AnswerDetail, AnswerRecord, AnswerRow,
    Question, QuestionDetail, QuestionRecord, QuestionRow,
};
use crate::store::{
    answer_details_view, answers_to, empty_state, has_answer_id, has_question_id,
    listed_answers, listed_questions, question_details_view, without_answer, without_question,
    AnswersDao, QuestionsDao, StoreState,
};

verus! {

/// A store that keeps both tables in memory, with the same behaviour as
/// the relational backend: generated identifiers, a unique key per table
/// and the reference from answers to questions.
pub struct MemoryStore {
    questions: Vec<QuestionRow>,
    answers: Vec<AnswerRow>,
}

pub open spec fn question_records(rows: Seq<QuestionRow>) -> Seq<QuestionRecord> {
    rows.map_values(|r: QuestionRow| r@)
}

pub open spec fn answer_records(rows: Seq<AnswerRow>) -> Seq<AnswerRecord> {
    rows.map_values(|r: AnswerRow| r@)
}

/// Relies on `time::OffsetDateTime::now_utc` and `time::PrimitiveDateTime`'s
/// `Display`: the current UTC time as text, a date, a space and a time, so
/// never empty; its value is not known in advance.
#[verifier::external_body]
fn current_timestamp() -> (r: String)
    ensures
        r@.len() > 0,
{
    let now = time::OffsetDateTime::now_utc();
    time::PrimitiveDateTime::new(now.date(), now.time()).to_string()
}

impl View for MemoryStore {
    type V = StoreState;

    closed spec fn view(&self) -> StoreState {
        StoreState {
            questions: question_records(self.questions@),
            answers: answer_records(self.answers@),
        }
    }
}

impl MemoryStore {
    /// A store with no rows.
    pub fn new() -> (r: MemoryStore)
        ensures
            r@ == empty_state(),
    {
        let r = MemoryStore { questions: Vec::new(), answers: Vec::new() };
        assert(r@.questions =~= Seq::<QuestionRecord>::empty());
        assert(r@.answers =~= Seq::<AnswerRecord>::empty());
        r
    }

    /// Whether a question with the given identifier is stored.
    pub fn contains_question(&self, id: u128) -> (r: bool)
        ensures
            r == has_question_id(self@.questions, id),
    {
        let mut i: usize = 0;
        while i < self.questions.len()
            invariant
                i <= self.questions.len(),
                forall|j: int| 0 <= j < i ==> (#[trigger] self.questions@[j]).question_uuid != id,
            decreases self.questions.len() - i,
        {
            if self.questions[i].question_uuid == id {
                assert(self@.questions[i as int].id == id);
                return true;
            }
            i += 1;
        }
        assert forall|j: int| 0 <= j < self@.questions.len() implies #[trigger] self@.questions[j].id
            != id by {
            assert(self.questions@[j].question_uuid != id);
        }
        false
    }

    /// Whether an answer with the given identifier is stored.
    pub fn contains_answer(&self, id: u128) -> (r: bool)
        ensures
            r == has_answer_id(self@.answers, id),
    {
        let mut i: usize = 0;
        while i < self.answers.len()
            invariant
                i <= self.answers.len(),
                forall|j: int| 0 <= j < i ==> (#[trigger] self.answers@[j]).answer_uuid != id,
            decreases self.answers.len() - i,
        {
            if self.answers[i].answer_uuid == id {
                assert(self@.answers[i as int].id == id);
                return true;
            }
            i += 1;
        }
        assert forall|j: int| 0 <= j < self@.answers.len() implies #[trigger] self@.answers[j].id
            != id by {
            assert(self.answers@[j].answer_uuid != id);
        }
        false
    }

    /// Stores a question under the given identifier and creation time; fails
    /// with a storage error, changing nothing, where that identifier is
    /// taken.
    pub fn insert_question(&mut self, id: u128, created_at: String, question: Question) -> (r:
        Result<QuestionDetail, DBError>)
        ensures
            has_question_id(old(self)@.questions, id) ==> r is Err && r->Err_0 is Other
                && final(self)@ == old(self)@,
            !has_question_id(old(self)@.questions, id) ==> {
                let rec = QuestionRecord {
                    id,
                    title: question.title@,
                    description: question.description@,
                    created_at: created_at@,
                };
                &&& final(self)@ == (StoreState {
                    questions: old(self)@.questions.push(rec),
                    answers: old(self)@.answers,
                })
                &&& r matches Ok(d) && d@ == question_detail_of(rec) && question_detail_identifies(d@, rec)
            },
    {
        if self.contains_question(id) {
            return Err(DBError::Other("duplicate key in questions".to_string()));
        }
        let row = QuestionRow {
            question_uuid: id,
            title: question.title,
            description: question.description,
            created_at,
        };
        let d = row.to_detail();
        self.questions.push(row);
        assert(self@.questions =~= old(self)@.questions.push(row@));
        Ok(d)
    }

    /// Stores an answer under the given identifier and creation time. Fails
    /// with `InvalidUUID`, changing nothing, where the question identifier is
    /// malformed or names no stored question, and with a storage error where
    /// the answer identifier is taken.
    pub fn insert_answer(&mut self, id: u128, created_at: String, answer: Answer) -> (r: Result<
        AnswerDetail,
        DBError,
    >)
        ensures
            match uuid_parse_of(answer.question_uuid@) {
                Err(_) => r matches Err(DBError::InvalidUUID(_)) && final(self)@ == old(self)@,
                Ok(q) => if !has_question_id(old(self)@.questions, q) {
                    r matches Err(DBError::InvalidUUID(_)) && final(self)@ == old(self)@
                } else if has_answer_id(old(self)@.answers, id) {
                    r matches Err(DBError::Other(_)) && final(self)@ == old(self)@
                } else {
                    let rec = AnswerRecord {
                        id,
                        question_id: q,
                        content: answer.content@,
                        created_at: created_at@,
                    };
                    &&& final(self)@ == (StoreState {
                        questions: old(self)@.questions,
                        answers: old(self)@.answers.push(rec),
                    })
                    &&& r matches Ok(d) && d@ == answer_detail_of(rec) && answer_detail_identifies(d@, rec)
                },
            },
    {
        let q = match parse_identifier(answer.question_uuid.as_str()) {
            Ok(q) => q,
            Err(e) => return Err(e),
        };
        if !self.contains_question(q) {
            return Err(
                DBError::InvalidUUID("the question that the answer refers to does not exist".to_string()),
            );
        }
        if self.contains_answer(id) {
            return Err(DBError::Other("duplicate key in answers".to_string()));
        }
        let row = AnswerRow { answer_uuid: id, question_uuid: q, content: answer.content, created_at };
        let d = row.to_detail();
        self.answers.push(row);
        assert(self@.answers =~= old(self)@.answers.push(row@));
        Ok(d)
    }

    /// Removes the questions with the given identifier.
    pub fn remove_question(&mut self, id: u128)
        ensures
            final(self)@ == (StoreState {
                questions: without_question(old(self)@.questions, id),
                answers: old(self)@.answers,
            }),
    {
        let mut kept: Vec<QuestionRow> = Vec::new();
        let mut i: usize = 0;
        while i < self.questions.len()
            invariant
                i <= self.questions.len(),
                question_records(kept@) == without_question(
                    question_records(self.questions@.subrange(0, i as int)),
                    id,
                ),
            decreases self.questions.len() - i,
        {
            let ghost prefix = question_records(self.questions@.subrange(0, i as int));
            let ghost next = question_records(self.questions@.subrange(0, i + 1));
            assert(next.drop_last() =~= prefix);
            assert(next.last() == self.questions@[i as int]@);
            if self.questions[i].question_uuid != id {
                let row = self.questions[i].duplicate();
                kept.push(row);
                assert(question_records(kept@) =~= without_question(prefix, id).push(row@));
            }
            i += 1;
        }
        assert(self.questions@.subrange(0, self.questions@.len() as int) =~= self.questions@);
        self.questions = kept;
    }

    /// Removes the answers with the given identifier.
    pub fn remove_answer(&mut self, id: u128)
        ensures
            final(self)@ == (StoreState {
                questions: old(self)@.questions,
                answers: without_answer(old(self)@.answers, id),
            }),
    {
        let mut kept: Vec<AnswerRow> = Vec::new();
        let mut i: usize = 0;
        while i < self.answers.len()
            invariant
                i <= self.answers.len(),
                answer_records(kept@) == without_answer(
                    answer_records(self.answers@.subrange(0, i as int)),
                    id,
                ),
            decreases self.answers.len() - i,
        {
            let ghost prefix = answer_records(self.answers@.subrange(0, i as int));
            let ghost next = answer_records(self.answers@.subrange(0, i + 1));
            assert(next.drop_last() =~= prefix);
            assert(next.last() == self.answers@[i as int]@);
            if self.answers[i].answer_uuid != id {
                let row = self.answers[i].duplicate();
                kept.push(row);
                assert(answer_records(kept@) =~= without_answer(prefix, id).push(row@));
            }
            i += 1;
        }
        assert(self.answers@.subrange(0, self.answers@.len() as int) =~= self.answers@);
        self.answers = kept;
    }

    /// The details of all stored questions, in order.
    pub fn question_details(&self) -> (r: Vec<QuestionDetail>)
        ensures
            question_details_view(r@) == listed_questions(self@),
    {
        let mut out: Vec<QuestionDetail> = Vec::new();
        let mut i: usize = 0;
        while i < self.questions.len()
            invariant
                i <= self.questions.len(),
                question_details_view(out@) == listed_questions(self@).subrange(0, i as int),
            decreases self.questions.len() - i,
        {
            let ghost before = out@;
            let d = self.questions[i].to_detail();
            out.push(d);
            assert(self@.questions[i as int] == self.questions@[i as int]@);
            assert(out@ =~= before.push(d));
            assert(question_details_view(out@) =~= question_details_view(before).push(d@));
            assert(question_details_view(out@) =~= listed_questions(self@).subrange(0, i + 1));
            i += 1;
        }
        assert(listed_questions(self@).subrange(0, i as int) =~= listed_questions(self@));
        out
    }

    /// The details of the stored answers to a question, in order.
    pub fn answer_details(&self, question_id: u128) -> (r: Vec<AnswerDetail>)
        ensures
            answer_details_view(r@) == listed_answers(self@, question_id),
    {
        let mut out: Vec<AnswerDetail> = Vec::new();
        let mut i: usize = 0;
        while i < self.answers.len()
            invariant
                i <= self.answers.len(),
                answer_details_view(out@) == answers_to(
                    answer_records(self.answers@.subrange(0, i as int)),
                    question_id,
                ).map_values(|r: AnswerRecord| answer_detail_of(r)),
            decreases self.answers.len() - i,
        {
            let ghost prefix = answer_records(self.answers@.subrange(0, i as int));
            let ghost next = answer_records(self.answers@.subrange(0, i + 1));
            assert(next.drop_last() =~= prefix);
            assert(next.last() == self.answers@[i as int]@);
            if self.answers[i].question_uuid == question_id {
                let ghost before = out@;
                let d = self.answers[i].to_detail();
                out.push(d);
                assert(answers_to(next, question_id) == answers_to(prefix, question_id).push(
                    next.last(),
                ));
                assert(out@ =~= before.push(d));
                assert(answer_details_view(out@) =~= answer_details_view(before).push(d@));
                assert(answer_details_view(out@) =~= answers_to(next, question_id).map_values(
                    |r: AnswerRecord| answer_detail_of(r),
                ));
            } else {
                assert(answers_to(next, question_id) == answers_to(prefix, question_id));
            }
            i += 1;
        }
        assert(self.answers@.subrange(0, self.answers@.len() as int) =~= self.answers@);
        out
    }
}

impl QuestionsDao for MemoryStore {
    open spec fn stored(&self) -> StoreState {
        self@
    }

    fn create_question(&mut self, question: Question) -> (r: Result<QuestionDetail, DBError>) {
        let id = fresh_uuid();
        let created_at = current_timestamp();
        let r = self.insert_question(id, created_at, question);
        proof {
            if r is Ok {
                assert(self@.questions.drop_last() =~= old(self)@.questions);
            }
        }
        r
    }

    fn delete_question(&mut self, question_uuid: String) -> (r: Result<(), DBError>) {
        let id = parse_identifier(question_uuid.as_str())?;
        self.remove_question(id);
        Ok(())
    }

    fn get_questions(&self) -> (r: Result<Vec<QuestionDetail>, DBError>) {
        Ok(self.question_details())
    }
}

impl AnswersDao for MemoryStore {
    fn create_answer(&mut self, answer: Answer) -> (r: Result<AnswerDetail, DBError>) {
        let id = fresh_uuid();
        let created_at = current_timestamp();
        let r = self.insert_answer(id, created_at, answer);
        proof {
            if r is Ok {
                assert(self@.answers.drop_last() =~= old(self)@.answers);
            }
        }
        r
    }

    fn delete_answer(&mut self, answer_uuid: String) -> (r: Result<(), DBError>) {
        let id = parse_identifier(answer_uuid.as_str())?;
        self.remove_answer(id);
        Ok(())
    }

    fn get_answers(&self, question_uuid: String) -> (r: Result<Vec<AnswerDetail>, DBError>) {
        let q = parse_identifier(question_uuid.as_str())?;
        Ok(self.answer_details(q))
    }
}

} // verus!
