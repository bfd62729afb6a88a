use qa_store::error::DBError;
use qa_store::memory::MemoryStore;
use qa_store::model::{Answer, Question};
use qa_store::store::{AnswersDao, QuestionsDao};

fn question(title: &str, description: &str) -> Question {
    Question { title: title.to_string(), description: description.to_string() }
}

fn answer(question_uuid: &str, content: &str) -> Answer {
    Answer { question_uuid: question_uuid.to_string(), content: content.to_string() }
}

fn is_invalid<T>(r: &Result<T, DBError>) -> bool {
    matches!(r, Err(DBError::InvalidUUID(_)))
}

#[test]
fn question_then_answer_scenario() {
    let mut store = MemoryStore::new();
    let q = store.create_question(question("Q1", "D1")).unwrap();
    assert!(!q.question_uuid.is_empty());
    assert_eq!(q.title, "Q1");
    assert_eq!(q.description, "D1");

    let a = store.create_answer(answer(&q.question_uuid, "A1")).unwrap();
    assert_eq!(a.question_uuid, q.question_uuid);
    assert_eq!(a.content, "A1");

    let listed = store.get_answers(q.question_uuid.clone()).unwrap();
    assert_eq!(listed.len(), 1);
    assert_eq!(listed[0].answer_uuid, a.answer_uuid);
    assert_eq!(listed[0].question_uuid, a.question_uuid);
    assert_eq!(listed[0].content, a.content);
    assert_eq!(listed[0].created_at, a.created_at);

    assert!(store.delete_question(q.question_uuid.clone()).is_ok());
    assert!(store.delete_answer(a.answer_uuid.clone()).is_ok());
}

#[test]
fn answer_with_malformed_question_id_is_rejected() {
    let mut store = MemoryStore::new();
    let r = store.create_answer(answer("not-a-uuid", "A1"));
    assert!(is_invalid(&r));
    assert!(store.get_questions().unwrap().is_empty());
    let some_id = "550e8400-e29b-41d4-a716-446655440000".to_string();
    assert!(store.get_answers(some_id).unwrap().is_empty());
}

#[test]
fn created_question_is_listed_with_its_fields() {
    let mut store = MemoryStore::new();
    let first = store.create_question(question("First", "one")).unwrap();
    let second = store.create_question(question("Second", "two")).unwrap();
    assert_ne!(first.question_uuid, second.question_uuid);
    let listed = store.get_questions().unwrap();
    assert_eq!(listed.len(), 2);
    assert_eq!(listed[0].question_uuid, first.question_uuid);
    assert_eq!(listed[0].title, "First");
    assert_eq!(listed[0].description, "one");
    assert_eq!(listed[1].question_uuid, second.question_uuid);
    assert_eq!(listed[1].title, "Second");
    assert_eq!(listed[1].description, "two");
    assert_eq!(listed[1].created_at, second.created_at);
    assert!(!second.created_at.is_empty());
}

#[test]
fn answers_are_listed_per_question() {
    let mut store = MemoryStore::new();
    let q1 = store.create_question(question("Q1", "D1")).unwrap();
    let q2 = store.create_question(question("Q2", "D2")).unwrap();
    let a1 = store.create_answer(answer(&q1.question_uuid, "A1")).unwrap();
    store.create_answer(answer(&q2.question_uuid, "B1")).unwrap();
    let a2 = store.create_answer(answer(&q1.question_uuid, "A2")).unwrap();
    let listed = store.get_answers(q1.question_uuid.clone()).unwrap();
    assert_eq!(listed.len(), 2);
    assert_eq!(listed[0].answer_uuid, a1.answer_uuid);
    assert_eq!(listed[1].answer_uuid, a2.answer_uuid);
    assert_eq!(listed[1].content, "A2");
}

#[test]
fn malformed_identifiers_are_rejected_everywhere() {
    let mut store = MemoryStore::new();
    let q = store.create_question(question("Q1", "D1")).unwrap();
    let a = store.create_answer(answer(&q.question_uuid, "A1")).unwrap();
    for bad in ["", "not-a-uuid", "550e8400-e29b-41d4-a716-44665544000g", "{550e8400}"] {
        assert!(is_invalid(&store.delete_question(bad.to_string())));
        assert!(is_invalid(&store.delete_answer(bad.to_string())));
        assert!(is_invalid(&store.get_answers(bad.to_string())));
        assert!(is_invalid(&store.create_answer(answer(bad, "x"))));
    }
    assert_eq!(store.get_questions().unwrap().len(), 1);
    let listed = store.get_answers(q.question_uuid.clone()).unwrap();
    assert_eq!(listed.len(), 1);
    assert_eq!(listed[0].answer_uuid, a.answer_uuid);
}

#[test]
fn answer_to_absent_question_is_rejected() {
    let mut store = MemoryStore::new();
    let absent = "550e8400-e29b-41d4-a716-446655440000";
    let r = store.create_answer(answer(absent, "A1"));
    assert!(is_invalid(&r));
    assert!(store.get_answers(absent.to_string()).unwrap().is_empty());
}

#[test]
fn deleting_absent_identifiers_succeeds() {
    let mut store = MemoryStore::new();
    let q = store.create_question(question("Q1", "D1")).unwrap();
    let absent = "550e8400-e29b-41d4-a716-446655440000".to_string();
    assert!(store.delete_question(absent.clone()).is_ok());
    assert!(store.delete_answer(absent).is_ok());
    assert_eq!(store.get_questions().unwrap().len(), 1);
    assert!(store.delete_question(q.question_uuid.clone()).is_ok());
    assert!(store.delete_question(q.question_uuid.clone()).is_ok());
    assert!(store.get_questions().unwrap().is_empty());
}

#[test]
fn deleting_removes_only_the_named_row() {
    let mut store = MemoryStore::new();
    let q = store.create_question(question("Q1", "D1")).unwrap();
    let a1 = store.create_answer(answer(&q.question_uuid, "A1")).unwrap();
    let a2 = store.create_answer(answer(&q.question_uuid, "A2")).unwrap();
    assert!(store.delete_answer(a1.answer_uuid.clone()).is_ok());
    let listed = store.get_answers(q.question_uuid.clone()).unwrap();
    assert_eq!(listed.len(), 1);
    assert_eq!(listed[0].answer_uuid, a2.answer_uuid);
}

#[test]
fn deleting_a_question_leaves_its_answers() {
    let mut store = MemoryStore::new();
    let q = store.create_question(question("Q1", "D1")).unwrap();
    store.create_answer(answer(&q.question_uuid, "A1")).unwrap();
    assert!(store.delete_question(q.question_uuid.clone()).is_ok());
    assert!(store.get_questions().unwrap().is_empty());
    assert_eq!(store.get_answers(q.question_uuid.clone()).unwrap().len(), 1);
    let r = store.create_answer(answer(&q.question_uuid, "A2"));
    assert!(is_invalid(&r));
}

#[test]
fn empty_store_lists_nothing() {
    let store = MemoryStore::new();
    assert!(store.get_questions().unwrap().is_empty());
    let id = "550e8400-e29b-41d4-a716-446655440000".to_string();
    assert!(store.get_answers(id).unwrap().is_empty());
}

#[test]
fn insert_with_taken_identifier_is_a_storage_error() {
    let mut store = MemoryStore::new();
    let d = store.insert_question(7, "t0".to_string(), question("Q1", "D1")).unwrap();
    assert_eq!(d.question_uuid, "00000000-0000-0000-0000-000000000007");
    assert_eq!(d.created_at, "t0");
    let r = store.insert_question(7, "t1".to_string(), question("Q2", "D2"));
    assert!(matches!(r, Err(DBError::Other(_))));
    assert_eq!(store.get_questions().unwrap().len(), 1);

    let a = store.insert_answer(9, "t2".to_string(), answer(&d.question_uuid, "A1")).unwrap();
    assert_eq!(a.answer_uuid, "00000000-0000-0000-0000-000000000009");
    assert_eq!(a.question_uuid, d.question_uuid);
    let r = store.insert_answer(9, "t3".to_string(), answer(&d.question_uuid, "A2"));
    assert!(matches!(r, Err(DBError::Other(_))));
    let r = store.insert_answer(10, "t4".to_string(), answer("00000000-0000-0000-0000-000000000008", "A3"));
    assert!(is_invalid(&r));
    assert_eq!(store.get_answers(d.question_uuid.clone()).unwrap().len(), 1);
}
