use shelf_db::codec::SqlValue;
use shelf_db::date::Date;
use shelf_db::entity::{Author, Book, PartialAuthor, PartialBook, PartialPublisher, Progress, Publisher, User};
use shelf_db::error::RepoError;

fn day(y: i32, m: u32, d: u32) -> Date {
    Date::from_ymd(y, m, d).expect("valid day")
}

fn stored_author() -> Author {
    Author {
        id: 7,
        name: String::from("TEST AUTHOR"),
        description: Some(String::from("TEST DESCRIPTION")),
        birth: Some(day(0, 12, 12)),
        date_added: Some(1_700_000_000),
        date_last_updated: Some(1_700_000_100),
    }
}

fn stored_book() -> Book {
    Book {
        id: 3,
        isbn: String::from("978-0"),
        name: String::from("Dune"),
        description: Some(String::from("Sand")),
        language: Some(String::from("en")),
        nsfw: false,
        num_pages: 412,
        image_formatted: true,
        publisher_id: Some(2),
        date_published: Some(-100),
        date_added: Some(5),
        date_last_updated: Some(6),
    }
}

#[test]
fn date_from_ymd_accepts_real_days() {
    assert_eq!(Date::from_ymd(0, 12, 12), Some(Date { year: 0, month: 12, day: 12 }));
    assert_eq!(Date::from_ymd(2024, 2, 29), Some(Date { year: 2024, month: 2, day: 29 }));
    assert_eq!(Date::from_ymd(2000, 2, 29), Some(Date { year: 2000, month: 2, day: 29 }));
    assert_eq!(Date::from_ymd(-262143, 1, 1), Some(Date { year: -262143, month: 1, day: 1 }));
    assert_eq!(Date::from_ymd(262142, 12, 31), Some(Date { year: 262142, month: 12, day: 31 }));
}

#[test]
fn date_from_ymd_rejects_missing_days() {
    assert_eq!(Date::from_ymd(2023, 2, 29), None);
    assert_eq!(Date::from_ymd(1900, 2, 29), None);
    assert_eq!(Date::from_ymd(2023, 4, 31), None);
    assert_eq!(Date::from_ymd(2023, 13, 1), None);
    assert_eq!(Date::from_ymd(2023, 0, 1), None);
    assert_eq!(Date::from_ymd(2023, 1, 0), None);
    assert_eq!(Date::from_ymd(262143, 1, 1), None);
    assert_eq!(Date::from_ymd(-262144, 1, 1), None);
}

#[test]
fn author_update_keeps_absent_birth() {
    let changes = PartialAuthor {
        name: Some(String::from("Updated Name")),
        description: Some(Some(String::from("Updated Desc"))),
        birth: None,
    };
    let before = stored_author();
    let after = before.clone().merge(changes);
    assert_eq!(after.name, "Updated Name");
    assert_eq!(after.description, Some(String::from("Updated Desc")));
    assert_eq!(after.birth, Some(day(0, 12, 12)));
    assert_eq!(after.id, before.id);
    assert_ne!(before, after);
}

#[test]
fn author_merge_name_only() {
    let a = Author {
        id: 1,
        name: String::from("A"),
        description: Some(String::from("D")),
        birth: Some(day(1950, 6, 1)),
        date_added: None,
        date_last_updated: None,
    };
    let p = PartialAuthor { name: Some(String::from("A2")), description: None, birth: None };
    let m = a.clone().merge(p);
    assert_eq!(m, Author { name: String::from("A2"), ..a });
}

#[test]
fn author_merge_empty_name_is_ignored_and_null_clears() {
    let p = PartialAuthor { name: Some(String::new()), description: Some(None), birth: Some(None) };
    let m = stored_author().merge(p);
    assert_eq!(m.name, "TEST AUTHOR");
    assert_eq!(m.description, None);
    assert_eq!(m.birth, None);
}

#[test]
fn book_merge_separates_absent_from_null() {
    let clear = PartialBook {
        isbn: None,
        name: None,
        description: Some(None),
        language: None,
        nsfw: Some(true),
        num_pages: Some(500),
        image_formatted: None,
        publisher_id: Some(None),
        date_published: None,
    };
    let m = stored_book().merge(clear);
    assert_eq!(m.description, None);
    assert_eq!(m.language, Some(String::from("en")));
    assert_eq!(m.publisher_id, None);
    assert_eq!(m.date_published, Some(-100));
    assert!(m.nsfw);
    assert_eq!(m.num_pages, 500);
    assert!(m.image_formatted);
    assert_eq!(m.name, "Dune");
}

#[test]
fn publisher_merge() {
    let p = Publisher {
        id: 4,
        name: String::from("Ace"),
        description: String::from("Paperbacks"),
        city: Some(String::from("New York")),
        date_added: None,
        date_last_updated: None,
    };
    let m = p.clone().merge(PartialPublisher { name: None, description: Some(String::from("SF")), city: Some(None) });
    assert_eq!(m.name, "Ace");
    assert_eq!(m.description, "SF");
    assert_eq!(m.city, None);
    let same = p.clone().merge(PartialPublisher { name: None, description: None, city: None });
    assert_eq!(same, p);
}

#[test]
fn author_row_round_trip() {
    let a = stored_author();
    let row = a.to_row();
    assert_eq!(row[0], SqlValue::UInt(7));
    assert_eq!(row[3], SqlValue::Day(day(0, 12, 12)));
    assert_eq!(row[5], SqlValue::Int(1_700_000_100));
    assert_eq!(Author::from_row(&row), Ok(a));
}

#[test]
fn other_rows_round_trip() {
    let b = stored_book();
    assert_eq!(Book::from_row(&b.to_row()), Ok(b));
    let p = Publisher {
        id: 65535,
        name: String::from("P"),
        description: String::from("D"),
        city: None,
        date_added: Some(1),
        date_last_updated: Some(2),
    };
    assert_eq!(Publisher::from_row(&p.to_row()), Ok(p));
    let u = User { id: 255, name: String::from("reader"), date_added: Some(1), date_last_updated: Some(1) };
    assert_eq!(User::from_row(&u.to_row()), Ok(u));
    let g = Progress { id: 9, user_id: 1, book_id: 3, current_page: 40, date_added: Some(3), date_last_updated: Some(4) };
    assert_eq!(Progress::from_row(&g.to_row()), Ok(g));
}

#[test]
fn rows_that_do_not_fit_are_validation_errors() {
    let mut row = stored_book().to_row();
    row[6] = SqlValue::UInt(70000);
    assert_eq!(Book::from_row(&row), Err(RepoError::Validation));
    let user = vec![SqlValue::UInt(256), SqlValue::Text(String::from("x")), SqlValue::Null, SqlValue::Null];
    assert_eq!(User::from_row(&user), Err(RepoError::Validation));
    let short = vec![SqlValue::UInt(1)];
    assert_eq!(Author::from_row(&short), Err(RepoError::Validation));
    let mut wrong = stored_author().to_row();
    wrong[1] = SqlValue::Null;
    assert_eq!(Author::from_row(&wrong), Err(RepoError::Validation));
    let mut bad_day = stored_author().to_row();
    bad_day[3] = SqlValue::Day(Date { year: 2023, month: 2, day: 30 });
    assert_eq!(Author::from_row(&bad_day), Err(RepoError::Validation));
}

#[test]
fn author_insert_needs_a_name() {
    let missing = PartialAuthor { name: None, description: None, birth: None };
    assert_eq!(missing.insert_binds(), Err(RepoError::Validation));
    let empty = PartialAuthor { name: Some(String::new()), description: None, birth: None };
    assert_eq!(empty.insert_binds(), Err(RepoError::Validation));
    let full = PartialAuthor {
        name: Some(String::from("TEST AUTHOR 2")),
        description: Some(Some(String::from("TEST DESCRIPTION 2"))),
        birth: Some(Some(day(0, 12, 12))),
    };
    assert_eq!(
        full.insert_binds(),
        Ok(vec![
            SqlValue::Text(String::from("TEST AUTHOR 2")),
            SqlValue::Text(String::from("TEST DESCRIPTION 2")),
            SqlValue::Day(day(0, 12, 12)),
        ])
    );
}

#[test]
fn book_insert_needs_every_non_null_column() {
    let mut p = PartialBook {
        isbn: Some(String::from("1")),
        name: Some(String::from("N")),
        description: None,
        language: Some(Some(String::from("fr"))),
        nsfw: Some(false),
        num_pages: Some(12),
        image_formatted: Some(false),
        publisher_id: Some(Some(8)),
        date_published: None,
    };
    let binds = p.insert_binds().expect("complete");
    assert_eq!(binds.len(), 9);
    assert_eq!(binds[2], SqlValue::Null);
    assert_eq!(binds[3], SqlValue::Text(String::from("fr")));
    assert_eq!(binds[5], SqlValue::UInt(12));
    assert_eq!(binds[7], SqlValue::UInt(8));
    p.num_pages = None;
    assert_eq!(p.insert_binds(), Err(RepoError::Validation));
}

#[test]
fn publisher_insert_and_update_params() {
    let p = PartialPublisher { name: Some(String::from("Ace")), description: None, city: None };
    assert_eq!(p.insert_binds(), Err(RepoError::Validation));
    let q = PartialPublisher {
        name: Some(String::from("Ace")),
        description: Some(String::from("D")),
        city: Some(Some(String::from("Paris"))),
    };
    assert_eq!(
        q.insert_binds(),
        Ok(vec![
            SqlValue::Text(String::from("Ace")),
            SqlValue::Text(String::from("D")),
            SqlValue::Text(String::from("Paris")),
        ])
    );
}

#[test]
fn update_params_end_with_the_key() {
    let a = stored_author();
    let binds = a.update_binds();
    assert_eq!(binds.len(), 4);
    assert_eq!(binds[0], SqlValue::Text(String::from("TEST AUTHOR")));
    assert_eq!(binds[3], SqlValue::UInt(7));
    let b = stored_book().update_binds();
    assert_eq!(b.len(), 10);
    assert_eq!(b[0], SqlValue::Text(String::from("978-0")));
    assert_eq!(b[9], SqlValue::UInt(3));
    let u = User::update_binds(4, String::from("n"));
    assert_eq!(u, vec![SqlValue::Text(String::from("n")), SqlValue::UInt(4)]);
    let u = User::insert_binds(4, String::from("n"));
    assert_eq!(u, vec![SqlValue::UInt(4), SqlValue::Text(String::from("n"))]);
    assert_eq!(
        Progress::update_binds(1, 2, 3),
        vec![SqlValue::UInt(3), SqlValue::UInt(1), SqlValue::UInt(2)]
    );
    assert_eq!(
        Progress::insert_binds(1, 2, 3),
        vec![SqlValue::UInt(1), SqlValue::UInt(2), SqlValue::UInt(3)]
    );
    assert_eq!(Progress::key_binds(5, 6), vec![SqlValue::UInt(5), SqlValue::UInt(6)]);
}

#[test]
fn rows_without_store_timestamps_are_rejected() {
    let mut row = stored_author().to_row();
    row[4] = SqlValue::Null;
    assert_eq!(Author::from_row(&row), Err(RepoError::Validation));
    let mut row = stored_book().to_row();
    row[11] = SqlValue::Null;
    assert_eq!(Book::from_row(&row), Err(RepoError::Validation));
    let user = vec![SqlValue::UInt(1), SqlValue::Text(String::from("x")), SqlValue::Int(1), SqlValue::Null];
    assert_eq!(User::from_row(&user), Err(RepoError::Validation));
    let mut row = stored_book().to_row();
    row[9] = SqlValue::Null;
    assert_eq!(Book::from_row(&row).map(|b| b.date_published), Ok(None));
}

#[test]
fn author_insert_rejects_a_missing_day() {
    let p = PartialAuthor {
        name: Some(String::from("A")),
        description: None,
        birth: Some(Some(Date { year: 2023, month: 2, day: 29 })),
    };
    assert_eq!(p.insert_binds(), Err(RepoError::Validation));
    let cleared = PartialAuthor { name: Some(String::from("A")), description: None, birth: Some(None) };
    assert_eq!(
        cleared.insert_binds(),
        Ok(vec![SqlValue::Text(String::from("A")), SqlValue::Null, SqlValue::Null])
    );
}

#[test]
fn publisher_insert_accepts_empty_text() {
    let p = PartialPublisher { name: Some(String::new()), description: Some(String::new()), city: None };
    assert_eq!(
        p.insert_binds(),
        Ok(vec![SqlValue::Text(String::new()), SqlValue::Text(String::new()), SqlValue::Null])
    );
}
