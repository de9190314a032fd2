use rustwebdev::answer::NewAnswer;
use rustwebdev::error::{classify_db_error, Error, StorageErrorClass};
use rustwebdev::question::{NewQuestion, Question, QuestionId};
use rustwebdev::recovery::{return_error, Rejection};
use rustwebdev::store::Store;

fn new_question(title: &str, content: &str, tags: Option<Vec<String>>) -> NewQuestion {
    NewQuestion {
        title: title.to_string(),
        content: content.to_string(),
        tags,
    }
}

fn same_record(a: &Question, b: &Question) -> bool {
    a.id == b.id && a.title == b.title && a.content == b.content && a.tags == b.tags
}

#[test]
fn create_then_list_returns_the_record() {
    // Scenario: create `{title: T, content: C, tags: null}`; the response
    // carries an assigned identity, and listing one record from offset zero
    // returns exactly that record.
    let mut store = Store::new();
    let created = store.add_question(new_question("T", "C", None)).unwrap();
    assert_eq!(created.id, QuestionId(1));
    assert_eq!(created.title, "T");
    assert_eq!(created.content, "C");
    assert_eq!(created.tags, None);
    let listed = store.get_questions(Some(1), 0).unwrap();
    assert_eq!(listed.len(), 1);
    assert!(same_record(&listed[0], &created));
}

#[test]
fn listing_respects_limit_and_offset() {
    let mut store = Store::new();
    for n in ["a", "b", "c", "d"] {
        store.add_question(new_question(n, "body", None)).unwrap();
    }
    let page = store.get_questions(Some(2), 1).unwrap();
    assert_eq!(page.len(), 2);
    assert_eq!(page[0].title, "b");
    assert_eq!(page[1].title, "c");
    let all = store.get_questions(None, 0).unwrap();
    assert_eq!(all.len(), 4);
    let tail = store.get_questions(None, 3).unwrap();
    assert_eq!(tail.len(), 1);
    assert_eq!(tail[0].title, "d");
    let none = store.get_questions(Some(0), 0).unwrap();
    assert_eq!(none.len(), 0);
}

#[test]
fn offset_past_the_end_yields_empty_not_failure() {
    let mut store = Store::new();
    store.add_question(new_question("only", "one", None)).unwrap();
    let page = store.get_questions(Some(5), 9).unwrap();
    assert!(page.is_empty());
    let page = store.get_questions(None, 1).unwrap();
    assert!(page.is_empty());
}

#[test]
fn repeated_listings_are_identical() {
    // Idempotence: the same window against the same state returns the same
    // sequence, in the same order.
    let mut store = Store::new();
    for n in ["a", "b", "c"] {
        store.add_question(new_question(n, "body", None)).unwrap();
    }
    let first = store.get_questions(Some(2), 1).unwrap();
    let second = store.get_questions(Some(2), 1).unwrap();
    assert_eq!(first.len(), second.len());
    for (x, y) in first.iter().zip(second.iter()) {
        assert!(same_record(x, y));
    }
}

#[test]
fn colliding_identity_reports_duplicate_key() {
    // Scenario: two create calls race on one caller-supplied identity;
    // exactly one succeeds, and the loser's failure is a duplicate key
    // mapped to status 422 with its own message.
    let mut store = Store::new();
    let first = store.add_question_with_id(7, new_question("first", "in", None));
    assert!(first.is_ok());
    let second = store.add_question_with_id(7, new_question("second", "in", None));
    let err = second.unwrap_err();
    match &err {
        Error::DatabaseQueryError(db) => {
            assert_eq!(db.code.as_deref(), Some("23505"));
            assert_eq!(classify_db_error(db), StorageErrorClass::DuplicateKey);
        },
        other => panic!("unexpected failure kind: {:?}", other),
    }
    let (status, message) = return_error(&Rejection::Failure(err));
    assert_eq!(status, 422);
    assert_eq!(message, "Account already exists");
    // The duplicate-key message is distinct from the generic storage one.
    let generic = return_error(&Rejection::Failure(Error::DatabaseQueryError(
        rustwebdev::error::DbError {
            code: None,
            message: "something else went wrong".to_string(),
        },
    )));
    assert_eq!(generic.0, 422);
    assert_ne!(message, generic.1);
    // Only the winner's record is stored.
    let listed = store.get_questions(None, 0).unwrap();
    assert_eq!(listed.len(), 1);
    assert_eq!(listed[0].title, "first");
}

#[test]
fn caller_supplied_identity_keeps_fresh_ids_above() {
    let mut store = Store::new();
    store.add_question_with_id(10, new_question("ten", "x", None)).unwrap();
    let next = store.add_question(new_question("fresh", "y", None)).unwrap();
    assert_eq!(next.id, QuestionId(11));
}

#[test]
fn update_replaces_an_existing_record() {
    let mut store = Store::new();
    let created = store.add_question(new_question("old", "body", None)).unwrap();
    let updated = store
        .update_question(
            Question {
                id: QuestionId(999), // ignored: the path identity wins
                title: "new".to_string(),
                content: "fresh".to_string(),
                tags: Some(vec!["t".to_string()]),
            },
            created.id.0,
        )
        .unwrap();
    assert_eq!(updated.id, created.id);
    assert_eq!(updated.title, "new");
    let listed = store.get_questions(None, 0).unwrap();
    assert_eq!(listed.len(), 1);
    assert_eq!(listed[0].title, "new");
    assert_eq!(listed[0].tags, Some(vec!["t".to_string()]));
}

#[test]
fn update_of_missing_identity_fails_plainly() {
    let mut store = Store::new();
    let err = store
        .update_question(
            Question {
                id: QuestionId(3),
                title: "t".to_string(),
                content: "c".to_string(),
                tags: None,
            },
            3,
        )
        .unwrap_err();
    match &err {
        Error::DatabaseQueryError(db) => {
            assert!(db.code.is_none());
            assert_eq!(classify_db_error(db), StorageErrorClass::Other);
        },
        other => panic!("unexpected failure kind: {:?}", other),
    }
}

#[test]
fn delete_reports_success_even_on_no_match() {
    let mut store = Store::new();
    store.add_question(new_question("keep", "x", None)).unwrap();
    let removed = store.add_question(new_question("drop", "y", None)).unwrap();
    assert_eq!(store.delete_question(removed.id.0).unwrap(), true);
    let listed = store.get_questions(None, 0).unwrap();
    assert_eq!(listed.len(), 1);
    assert_eq!(listed[0].title, "keep");
    // Documented behaviour: deleting an absent identity still answers true.
    assert_eq!(store.delete_question(12345).unwrap(), true);
}

#[test]
fn answers_persist_without_question_existence_check() {
    // Documented invariant gap: the referenced question is not validated.
    let mut store = Store::new();
    let answer = store
        .add_answer(NewAnswer {
            content: "an answer".to_string(),
            question_id: QuestionId(42),
        })
        .unwrap();
    assert_eq!(answer.id.0, 1);
    assert_eq!(answer.content, "an answer");
    assert_eq!(answer.question_id, QuestionId(42));
}

#[test]
fn negative_window_is_a_storage_failure() {
    let store = Store::new();
    let err = store.get_questions(None, -1).unwrap_err();
    assert!(matches!(err, Error::DatabaseQueryError(_)));
    let err = store.get_questions(Some(-2), 0).unwrap_err();
    assert!(matches!(err, Error::DatabaseQueryError(_)));
}
