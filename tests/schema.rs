use shelf_db::ddl::{column_text, foreign_key_text, version_table_statement};
use shelf_db::migrate::Table;

#[test]
fn author_statement_text() {
    assert_eq!(
        Table::Author.create_statement(),
        "CREATE TABLE IF NOT EXISTS `author` (\
`id` BIGINT UNSIGNED PRIMARY KEY NOT NULL AUTO_INCREMENT, \
`name` TEXT NOT NULL, \
`description` TEXT, \
`birth` DATE, \
`date_added` TIMESTAMP NOT NULL DEFAULT CURRENT_TIMESTAMP, \
`date_last_updated` TIMESTAMP NOT NULL DEFAULT CURRENT_TIMESTAMP ON UPDATE CURRENT_TIMESTAMP)"
    );
}

#[test]
fn progress_statement_has_both_foreign_keys() {
    let s = Table::Progress.create_statement();
    assert!(s.starts_with("CREATE TABLE IF NOT EXISTS `progress` (`id` BIGINT UNSIGNED"));
    assert!(s.ends_with(
        "CONSTRAINT `fk_user_id` FOREIGN KEY (`user_id`) REFERENCES `user`(`id`), \
CONSTRAINT `fk_book_id` FOREIGN KEY (`book_id`) REFERENCES `book`(`id`))"
    ));
}

#[test]
fn book_statement_references_publisher() {
    let s = Table::Book.create_statement();
    assert!(s.contains("`publisher_id` SMALLINT UNSIGNED, "));
    assert!(s.ends_with(
        "CONSTRAINT `fk_publisher_id` FOREIGN KEY (`publisher_id`) REFERENCES `publisher`(`id`))"
    ));
}

#[test]
fn every_table_is_created_if_missing_with_timestamps() {
    for t in [Table::Author, Table::Publisher, Table::Book, Table::User, Table::Progress] {
        let s = t.create_statement();
        assert!(s.starts_with(&format!("CREATE TABLE IF NOT EXISTS `{}` (`id` ", t.name())));
        assert!(s.contains("`date_added` TIMESTAMP NOT NULL DEFAULT CURRENT_TIMESTAMP, "));
        assert!(s.contains("`date_last_updated` TIMESTAMP NOT NULL DEFAULT CURRENT_TIMESTAMP ON UPDATE CURRENT_TIMESTAMP"));
    }
    assert!(!Table::Author.create_statement().contains("FOREIGN KEY"));
    assert!(!Table::User.create_statement().contains("FOREIGN KEY"));
}

#[test]
fn version_table_text() {
    assert_eq!(
        version_table_statement(),
        "CREATE TABLE IF NOT EXISTS `schema_version` (`version` INT UNSIGNED PRIMARY KEY NOT NULL)"
    );
}

#[test]
fn pieces_of_statements() {
    assert_eq!(column_text("a", "TEXT"), "`a` TEXT");
    assert_eq!(foreign_key_text("k", "c", "t"), "CONSTRAINT `k` FOREIGN KEY (`c`) REFERENCES `t`(`id`)");
}

#[test]
fn author_statements() {
    let cols = "`id`, `name`, `description`, `birth`, `date_added`, `date_last_updated`";
    assert_eq!(Table::Author.select_statement(), format!("SELECT {} FROM `author`", cols));
    assert_eq!(
        Table::Author.select_by_key_statement(),
        format!("SELECT {} FROM `author` WHERE `id` = ?", cols)
    );
    assert_eq!(
        Table::Author.insert_statement(),
        "INSERT INTO `author` (`name`, `description`, `birth`) VALUES (?, ?, ?)"
    );
    assert_eq!(
        Table::Author.update_statement(),
        "UPDATE `author` SET `name` = ?, `description` = ?, `birth` = ? WHERE `id` = ?"
    );
    assert_eq!(Table::Author.delete_statement(), "DELETE FROM `author` WHERE `id` = ?");
    assert_eq!(
        Table::Author.select_last_statement(),
        format!("SELECT {} FROM `author` WHERE `id` = LAST_INSERT_ID()", cols)
    );
}

#[test]
fn progress_and_user_statements() {
    assert_eq!(
        Table::Progress.update_statement(),
        "UPDATE `progress` SET `current_page` = ? WHERE `user_id` = ? AND `book_id` = ?"
    );
    assert_eq!(Table::Progress.delete_statement(), "DELETE FROM `progress` WHERE `user_id` = ? AND `book_id` = ?");
    assert_eq!(
        Table::Progress.insert_statement(),
        "INSERT INTO `progress` (`user_id`, `book_id`, `current_page`) VALUES (?, ?, ?)"
    );
    assert_eq!(Table::User.insert_statement(), "INSERT INTO `user` (`id`, `name`) VALUES (?, ?)");
    assert_eq!(Table::User.update_statement(), "UPDATE `user` SET `name` = ? WHERE `id` = ?");
    assert!(Table::Book
        .select_where_statement("publisher_id")
        .ends_with("FROM `book` WHERE `publisher_id` = ?"));
    assert!(Table::Book.insert_statement().ends_with("VALUES (?, ?, ?, ?, ?, ?, ?, ?, ?)"));
}
