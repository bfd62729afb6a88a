use vstd::prelude::*;

use crate::ident::{identifier_text, identifies, uuid_text_of};

verus! {

/// A question as a caller submits it.
#[derive(Debug)]
pub struct Question {
    pub title: String,
    pub description: String,
}

/// A stored question, with the identifier and timestamp the store gave it.
#[derive(Debug)]
pub struct QuestionDetail {
    pub question_uuid: String,
    pub title: String,
    pub description: String,
    pub created_at: String,
}

/// The identifier of a question, as a caller submits it.
#[derive(Debug)]
pub struct QuestionId {
    pub question_uuid: String,
}

/// An answer as a caller submits it.
#[derive(Debug)]
pub struct Answer {
    pub question_uuid: String,
    pub content: String,
}

/// A stored answer, with the identifier and timestamp the store gave it.
#[derive(Debug)]
pub struct AnswerDetail {
    pub answer_uuid: String,
    pub question_uuid: String,
    pub content: String,
    pub created_at: String,
}

/// The identifier of an answer, as a caller submits it.
#[derive(Debug)]
pub struct AnswerId {
    pub answer_uuid: String,
}

/// The textual fields of a question detail.
pub struct QuestionDetailView {
    pub question_uuid: Seq<char>,
    pub title: Seq<char>,
    pub description: Seq<char>,
    pub created_at: Seq<char>,
}

/// The textual fields of an answer detail.
pub struct AnswerDetailView {
    pub answer_uuid: Seq<char>,
    pub question_uuid: Seq<char>,
    pub content: Seq<char>,
    pub created_at: Seq<char>,
}

impl View for QuestionDetail {
    type V = QuestionDetailView;

    open spec fn view(&self) -> QuestionDetailView {
        QuestionDetailView {
            question_uuid: self.question_uuid@,
            title: self.title@,
            description: self.description@,
            created_at: self.created_at@,
        }
    }
}

impl View for AnswerDetail {
    type V = AnswerDetailView;

    open spec fn view(&self) -> AnswerDetailView {
        AnswerDetailView {
            answer_uuid: self.answer_uuid@,
            question_uuid: self.question_uuid@,
            content: self.content@,
            created_at: self.created_at@,
        }
    }
}

/// A row of the `questions` table.
pub struct QuestionRecord {
    pub id: u128,
    pub title: Seq<char>,
    pub description: Seq<char>,
    pub created_at: Seq<char>,
}

/// A row of the `answers` table; `question_id` refers to a question.
pub struct AnswerRecord {
    pub id: u128,
    pub question_id: u128,
    pub content: Seq<char>,
    pub created_at: Seq<char>,
}

/// A row of the `questions` table as the backend hands it over, columns in
/// order: identifier, title, description, creation time.
#[derive(Debug)]
pub struct QuestionRow {
    pub question_uuid: u128,
    pub title: String,
    pub description: String,
    pub created_at: String,
}

/// A row of the `answers` table as the backend hands it over, columns in
/// order: identifier, question identifier, content, creation time.
#[derive(Debug)]
pub struct AnswerRow {
    pub answer_uuid: u128,
    pub question_uuid: u128,
    pub content: String,
    pub created_at: String,
}

impl View for QuestionRow {
    type V = QuestionRecord;

    open spec fn view(&self) -> QuestionRecord {
        QuestionRecord {
            id: self.question_uuid,
            title: self.title@,
            description: self.description@,
            created_at: self.created_at@,
        }
    }
}

impl View for AnswerRow {
    type V = AnswerRecord;

    open spec fn view(&self) -> AnswerRecord {
        AnswerRecord {
            id: self.answer_uuid,
            question_id: self.question_uuid,
            content: self.content@,
            created_at: self.created_at@,
        }
    }
}

/// How a stored question reads to a caller.
pub open spec fn question_detail_of(r: QuestionRecord) -> QuestionDetailView {
    QuestionDetailView {
        question_uuid: uuid_text_of(r.id),
        title: r.title,
        description: r.description,
        created_at: r.created_at,
    }
}

/// How a stored answer reads to a caller.
pub open spec fn answer_detail_of(r: AnswerRecord) -> AnswerDetailView {
    AnswerDetailView {
        answer_uuid: uuid_text_of(r.id),
        question_uuid: uuid_text_of(r.question_id),
        content: r.content,
        created_at: r.created_at,
    }
}

/// The identifier of a question detail is a canonical text, 36 characters
/// long, from which the stored question's identifier reads back.
pub open spec fn question_detail_identifies(d: QuestionDetailView, r: QuestionRecord) -> bool {
    &&& identifies(d.question_uuid, r.id)
    &&& d.question_uuid.len() == 36
}

/// Both identifiers of an answer detail are canonical texts, 36 characters
/// long, from which the stored answer's identifiers read back.
pub open spec fn answer_detail_identifies(d: AnswerDetailView, r: AnswerRecord) -> bool {
    &&& identifies(d.answer_uuid, r.id)
    &&& d.answer_uuid.len() == 36
    &&& identifies(d.question_uuid, r.question_id)
    &&& d.question_uuid.len() == 36
}

impl QuestionRow {
    /// A copy of the row.
    pub fn duplicate(&self) -> (r: QuestionRow)
        ensures
            r@ == self@,
    {
        QuestionRow {
            question_uuid: self.question_uuid,
            title: self.title.clone(),
            description: self.description.clone(),
            created_at: self.created_at.clone(),
        }
    }

    /// The question detail this row stands for.
    pub fn to_detail(&self) -> (r: QuestionDetail)
        ensures
            r@ == question_detail_of(self@),
            question_detail_identifies(r@, self@),
    {
        QuestionDetail {
            question_uuid: identifier_text(self.question_uuid),
            title: self.title.clone(),
            description: self.description.clone(),
            created_at: self.created_at.clone(),
        }
    }
}

impl AnswerRow {
    /// A copy of the row.
    pub fn duplicate(&self) -> (r: AnswerRow)
        ensures
            r@ == self@,
    {
        AnswerRow {
            answer_uuid: self.answer_uuid,
            question_uuid: self.question_uuid,
            content: self.content.clone(),
            created_at: self.created_at.clone(),
        }
    }

    /// The answer detail this row stands for.
    pub fn to_detail(&self) -> (r: AnswerDetail)
        ensures
            r@ == answer_detail_of(self@),
            answer_detail_identifies(r@, self@),
    {
        AnswerDetail {
            answer_uuid: identifier_text(self.answer_uuid),
            question_uuid: identifier_text(self.question_uuid),
            content: self.content.clone(),
            created_at: self.created_at.clone(),
        }
    }
}

} // verus!
