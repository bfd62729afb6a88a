use vstd::prelude::*;

use crate::ident::uuid_text_of;
use crate::model::{
    answer_detail_of, question_detail_of, AnswerDetailView, AnswerRecord, QuestionDetailView,
    QuestionRecord,
};
use crate::store::{
    answer_added, answers_to, empty_state, has_answer_id, has_question_id, listed_answers,
    listed_questions, question_added, without_answer, without_question, StoreState,
};

verus! {

/// A question just created is the last one listed, with the title and
/// description it was created with, and the questions listed before it are
/// those listed before the creation.
pub proof fn lemma_created_question_is_listed(
    before: StoreState,
    after: StoreState,
    title: Seq<char>,
    description: Seq<char>,
)
    requires
        question_added(before, after, title, description),
    ensures
        listed_questions(after).len() == listed_questions(before).len() + 1,
        listed_questions(after).drop_last() == listed_questions(before),
        listed_questions(after).last() == question_detail_of(after.questions.last()),
        listed_questions(after).last().title == title,
        listed_questions(after).last().description == description,
{
    assert(listed_questions(after).drop_last() =~= listed_questions(before));
}

/// An answer just created is the last one listed for its question, with the
/// content it was created with and that question's identifier, and the
/// answers listed before it are those listed before the creation.
pub proof fn lemma_created_answer_is_listed(
    before: StoreState,
    after: StoreState,
    question_id: u128,
    content: Seq<char>,
)
    requires
        answer_added(before, after, question_id, content),
    ensures
        listed_answers(after, question_id) == listed_answers(before, question_id).push(
            answer_detail_of(after.answers.last()),
        ),
        listed_answers(after, question_id).last().content == content,
        listed_answers(after, question_id).last().question_uuid == uuid_text_of(question_id),
{
    let a = after.answers;
    assert(answers_to(a, question_id) == answers_to(a.drop_last(), question_id).push(a.last()));
    assert(listed_answers(after, question_id) =~= listed_answers(before, question_id).push(
        answer_detail_of(after.answers.last()),
    ));
}

/// Deleting a question identifier that is not stored changes nothing.
pub proof fn lemma_delete_absent_question(qs: Seq<QuestionRecord>, id: u128)
    requires
        !has_question_id(qs, id),
    ensures
        without_question(qs, id) == qs,
    decreases qs.len(),
{
    if qs.len() > 0 {
        assert(!has_question_id(qs.drop_last(), id)) by {
            if has_question_id(qs.drop_last(), id) {
                let i = choose|i: int| 0 <= i < qs.drop_last().len() && #[trigger] qs.drop_last()[i].id == id;
                assert(qs[i].id == id);
            }
        }
        assert(qs.last().id != id) by {
            assert(qs[qs.len() - 1].id == qs.last().id);
        }
        lemma_delete_absent_question(qs.drop_last(), id);
        assert(qs.drop_last().push(qs.last()) =~= qs);
    }
}

/// After a question identifier is deleted, no question has it.
pub proof fn lemma_deleted_question_is_gone(qs: Seq<QuestionRecord>, id: u128)
    ensures
        !has_question_id(without_question(qs, id), id),
    decreases qs.len(),
{
    if qs.len() > 0 {
        lemma_deleted_question_is_gone(qs.drop_last(), id);
        let rest = without_question(qs.drop_last(), id);
        if qs.last().id != id {
            assert forall|i: int| 0 <= i < rest.push(qs.last()).len() implies #[trigger] rest.push(
                qs.last(),
            )[i].id != id by {
                if i < rest.len() {
                    assert(rest.push(qs.last())[i] == rest[i]);
                }
            }
        }
    }
}

/// Deleting a question identifier twice is deleting it once.
pub proof fn lemma_delete_question_idempotent(qs: Seq<QuestionRecord>, id: u128)
    ensures
        without_question(without_question(qs, id), id) == without_question(qs, id),
{
    lemma_deleted_question_is_gone(qs, id);
    lemma_delete_absent_question(without_question(qs, id), id);
}

/// Deleting an answer identifier that is not stored changes nothing.
pub proof fn lemma_delete_absent_answer(ans: Seq<AnswerRecord>, id: u128)
    requires
        !has_answer_id(ans, id),
    ensures
        without_answer(ans, id) == ans,
    decreases ans.len(),
{
    if ans.len() > 0 {
        assert(!has_answer_id(ans.drop_last(), id)) by {
            if has_answer_id(ans.drop_last(), id) {
                let i = choose|i: int| 0 <= i < ans.drop_last().len() && #[trigger] ans.drop_last()[i].id == id;
                assert(ans[i].id == id);
            }
        }
        assert(ans.last().id != id) by {
            assert(ans[ans.len() - 1].id == ans.last().id);
        }
        lemma_delete_absent_answer(ans.drop_last(), id);
        assert(ans.drop_last().push(ans.last()) =~= ans);
    }
}

/// After an answer identifier is deleted, no answer has it.
pub proof fn lemma_deleted_answer_is_gone(ans: Seq<AnswerRecord>, id: u128)
    ensures
        !has_answer_id(without_answer(ans, id), id),
    decreases ans.len(),
{
    if ans.len() > 0 {
        lemma_deleted_answer_is_gone(ans.drop_last(), id);
        let rest = without_answer(ans.drop_last(), id);
        if ans.last().id != id {
            assert forall|i: int| 0 <= i < rest.push(ans.last()).len() implies #[trigger] rest.push(
                ans.last(),
            )[i].id != id by {
                if i < rest.len() {
                    assert(rest.push(ans.last())[i] == rest[i]);
                }
            }
        }
    }
}

/// Deleting an answer identifier twice is deleting it once.
pub proof fn lemma_delete_answer_idempotent(ans: Seq<AnswerRecord>, id: u128)
    ensures
        without_answer(without_answer(ans, id), id) == without_answer(ans, id),
{
    lemma_deleted_answer_is_gone(ans, id);
    lemma_delete_absent_answer(without_answer(ans, id), id);
}

/// With no rows stored, both listings are empty.
pub proof fn lemma_empty_listings(question_id: u128)
    ensures
        listed_questions(empty_state()) == Seq::<QuestionDetailView>::empty(),
        listed_answers(empty_state(), question_id) == Seq::<AnswerDetailView>::empty(),
{
    assert(listed_questions(empty_state()) =~= Seq::<QuestionDetailView>::empty());
    assert(listed_answers(empty_state(), question_id) =~= Seq::<AnswerDetailView>::empty());
}

} // verus!
