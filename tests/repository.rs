use shelf_db::codec::SqlValue;
use shelf_db::entity::{Author, Book, PartialAuthor};
use shelf_db::error::{classify, expect_one, RepoError, Stage, StoreFault};
use shelf_db::migrate::{
    creation_order, known_versions, pending_versions, version_steps, Table, SCHEMA_VERSION,
};
use shelf_db::repo::{delete_outcome, fetch_all_of, fetch_one_of, plan_update};
use shelf_db::scope::{Finish, Scope, ScopeState};

fn author(id: u64, name: &str) -> Author {
    Author {
        id,
        name: String::from(name),
        description: Some(String::from("D")),
        birth: None,
        date_added: Some(10),
        date_last_updated: Some(11),
    }
}

#[test]
fn fetch_one_needs_exactly_one_row() {
    let none: Vec<Vec<SqlValue>> = Vec::new();
    assert_eq!(fetch_one_of::<Author>(none), Err(RepoError::NotFound));
    let two = vec![author(1, "a").to_row(), author(2, "b").to_row()];
    assert_eq!(fetch_one_of::<Author>(two), Err(RepoError::Ambiguous));
    let one = vec![author(1, "a").to_row()];
    assert_eq!(fetch_one_of::<Author>(one), Ok(author(1, "a")));
    let wrong = vec![author(1, "a").to_row()];
    assert_eq!(fetch_one_of::<Book>(wrong), Err(RepoError::Validation));
}

#[test]
fn expect_one_counts_rows() {
    assert_eq!(expect_one::<u8>(vec![]), Err(RepoError::NotFound));
    assert_eq!(expect_one(vec![4u8]), Ok(4));
    assert_eq!(expect_one(vec![4u8, 5]), Err(RepoError::Ambiguous));
}

#[test]
fn fetch_all_keeps_order_and_rejects_bad_rows() {
    let rows = vec![author(2, "b").to_row(), author(1, "a").to_row()];
    assert_eq!(fetch_all_of::<Author>(rows), Ok(vec![author(2, "b"), author(1, "a")]));
    let empty: Vec<Vec<SqlValue>> = Vec::new();
    assert_eq!(fetch_all_of::<Author>(empty), Ok(vec![]));
    let bad = vec![author(2, "b").to_row(), vec![SqlValue::Null]];
    assert_eq!(fetch_all_of::<Author>(bad), Err(RepoError::Validation));
}

#[test]
fn update_merges_onto_the_current_row() {
    let rows = vec![author(5, "A").to_row()];
    let patch = PartialAuthor { name: Some(String::from("A2")), description: None, birth: None };
    let (merged, binds) = plan_update::<Author>(rows, patch).expect("one row");
    assert_eq!(merged.name, "A2");
    assert_eq!(merged.description, Some(String::from("D")));
    assert_eq!(binds, vec![
        SqlValue::Text(String::from("A2")),
        SqlValue::Text(String::from("D")),
        SqlValue::Null,
        SqlValue::UInt(5),
    ]);
    let none: Vec<Vec<SqlValue>> = Vec::new();
    let patch = PartialAuthor { name: None, description: None, birth: None };
    assert_eq!(plan_update::<Author>(none, patch), Err(RepoError::NotFound));
}

#[test]
fn delete_twice_reports_zero_the_second_time() {
    assert_eq!(delete_outcome(1), Ok(1));
    assert_eq!(delete_outcome(0), Ok(0));
}

#[test]
fn fetch_after_delete_is_not_found() {
    let after_delete: Vec<Vec<SqlValue>> = Vec::new();
    assert_eq!(fetch_one_of::<Book>(after_delete), Err(RepoError::NotFound));
}

#[test]
fn faults_are_classified() {
    assert_eq!(classify(StoreFault::ForeignKey, Stage::Operate), RepoError::ConstraintViolation);
    assert_eq!(classify(StoreFault::Unique, Stage::Operate), RepoError::ConstraintViolation);
    assert_eq!(classify(StoreFault::RowNotFound, Stage::Operate), RepoError::NotFound);
    assert_eq!(classify(StoreFault::Io, Stage::Operate), RepoError::Transport);
    assert_eq!(classify(StoreFault::Check, Stage::Operate), RepoError::Validation);
    assert_eq!(classify(StoreFault::Io, Stage::Connect), RepoError::Connection);
    assert_eq!(classify(StoreFault::ForeignKey, Stage::Migrate), RepoError::Migration);
}

#[test]
fn unimplemented_lookups_say_so() {
    assert_eq!(Book::fetch_authors(), Err(RepoError::NotImplemented));
    assert_eq!(Book::fetch_books_by_author(1), Err(RepoError::NotImplemented));
}

#[test]
fn publisher_key_of_a_book() {
    let mut b = Book {
        id: 1,
        isbn: String::from("i"),
        name: String::from("n"),
        description: None,
        language: None,
        nsfw: false,
        num_pages: 1,
        image_formatted: false,
        publisher_id: Some(9),
        date_published: None,
        date_added: None,
        date_last_updated: None,
    };
    assert_eq!(b.publisher_key(), Ok(9));
    b.publisher_id = None;
    assert_eq!(b.publisher_key(), Err(RepoError::NotFound));
}

#[test]
fn migration_runs_once() {
    let known = known_versions();
    assert_eq!(known, vec![SCHEMA_VERSION]);
    let first = pending_versions(&known, &vec![]);
    assert_eq!(first, vec![1]);
    let second = pending_versions(&known, &first);
    assert_eq!(second, Vec::<u32>::new());
    assert_eq!(pending_versions(&vec![1, 2, 3], &vec![2]), vec![1, 3]);
}

#[test]
fn tables_are_created_after_what_they_reference() {
    let order = creation_order();
    assert_eq!(order, vec![Table::Author, Table::Publisher, Table::Book, Table::User, Table::Progress]);
    assert_eq!(version_steps(1), order);
    assert_eq!(version_steps(2), Vec::<Table>::new());
    assert_eq!(Table::Book.name(), "book");
    assert!(Table::Progress.create_statement().contains("REFERENCES `book`"));
}

#[test]
fn failed_step_rolls_the_scope_back() {
    let mut s = Scope::begin();
    let ok: Result<u64, RepoError> = Ok(1);
    let err: Result<u64, RepoError> = Err(RepoError::ConstraintViolation);
    s.record(&ok);
    s.record(&err);
    assert!(s.failed);
    assert_eq!(s.steps, 2);
    assert_eq!(s.finish(true), Finish::Rollback);
    assert_eq!(s.state, ScopeState::RolledBack);
}

#[test]
fn clean_scope_commits_only_when_asked() {
    let ok: Result<u64, RepoError> = Ok(1);
    let mut s = Scope::begin();
    s.record(&ok);
    assert_eq!(s.finish(true), Finish::Commit);
    assert_eq!(s.state, ScopeState::Committed);
    let mut abandoned = Scope::begin();
    abandoned.record(&ok);
    assert_eq!(abandoned.finish(false), Finish::Rollback);
}

#[test]
fn key16_rejects_wide_keys() {
    assert_eq!(shelf_db::repo::key16(65535), Ok(65535));
    assert_eq!(shelf_db::repo::key16(65536), Err(RepoError::Validation));
}

#[test]
fn update_rejects_a_missing_birth_day() {
    let rows = vec![author(5, "A").to_row()];
    let patch = PartialAuthor {
        name: None,
        description: None,
        birth: Some(Some(shelf_db::date::Date { year: 2023, month: 2, day: 30 })),
    };
    assert_eq!(plan_update::<Author>(rows, patch), Err(RepoError::Validation));
}
