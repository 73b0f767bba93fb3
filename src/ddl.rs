use vstd::prelude::*;
use vstd::string::StringExecFns;

use crate::migrate::{references, Table};

verus! {

/// A name between backquotes.
pub open spec fn quoted(n: Seq<char>) -> Seq<char> {
    "`"@ + n + "`"@
}

/// The declaration of one column: its quoted name, then its type and
/// constraints.
pub open spec fn column_def(name: Seq<char>, decl: Seq<char>) -> Seq<char> {
    quoted(name) + " "@ + decl
}

/// A named foreign key from a column to the `id` of another table.
pub open spec fn foreign_key_def(constraint: Seq<char>, column: Seq<char>, target: Seq<char>) -> Seq<char> {
    "CONSTRAINT "@ + quoted(constraint) + " FOREIGN KEY ("@ + quoted(column) + ") REFERENCES "@
        + quoted(target) + "(`id`)"@
}

/// Items with a separator between each two.
pub open spec fn join_with(items: Seq<Seq<char>>, sep: Seq<char>) -> Seq<char>
    decreases items.len(),
{
    if items.len() == 0 {
        Seq::empty()
    } else if items.len() == 1 {
        items[0]
    } else {
        join_with(items.drop_last(), sep) + sep + items.last()
    }
}

/// Items separated by commas.
pub open spec fn join(items: Seq<Seq<char>>) -> Seq<char> {
    join_with(items, ", "@)
}

/// A statement that creates a table only where none of that name exists, so
/// that running it again changes nothing.
pub open spec fn create_text(table: Seq<char>, items: Seq<Seq<char>>) -> Seq<char> {
    "CREATE TABLE IF NOT EXISTS "@ + quoted(table) + " ("@ + join(items) + ")"@
}

pub open spec fn text_views(v: Seq<String>) -> Seq<Seq<char>> {
    v.map_values(|s: String| s@)
}

pub(crate) fn push_quoted(s: &mut String, n: &str)
    ensures
        final(s)@ == old(s)@ + quoted(n@),
{
    s.append("`");
    s.append(n);
    s.append("`");
    assert(final(s)@ =~= old(s)@ + quoted(n@));
}

/// The declaration text of one column.
pub fn column_text(name: &str, decl: &str) -> (r: String)
    ensures
        r@ == column_def(name@, decl@),
{
    let mut s = String::new();
    push_quoted(&mut s, name);
    s.append(" ");
    s.append(decl);
    assert(s@ =~= column_def(name@, decl@));
    s
}

/// The text of a foreign key from `column` to the `id` of `target`.
pub fn foreign_key_text(constraint: &str, column: &str, target: &str) -> (r: String)
    ensures
        r@ == foreign_key_def(constraint@, column@, target@),
{
    let mut s = String::from_str("CONSTRAINT ");
    push_quoted(&mut s, constraint);
    s.append(" FOREIGN KEY (");
    push_quoted(&mut s, column);
    s.append(") REFERENCES ");
    push_quoted(&mut s, target);
    s.append("(`id`)");
    assert(s@ =~= foreign_key_def(constraint@, column@, target@));
    s
}

/// The texts of `items` with `sep` between each two.
pub fn join_text(items: &Vec<String>, sep: &str) -> (r: String)
    ensures
        r@ == join_with(text_views(items@), sep@),
{
    let ghost views = text_views(items@);
    let mut s = String::new();
    let mut i: usize = 0;
    while i < items.len()
        invariant
            i <= items@.len(),
            views == text_views(items@),
            s@ == join_with(views.take(i as int), sep@),
        decreases items@.len() - i,
    {
        proof {
            assert(views.take(i as int + 1).drop_last() =~= views.take(i as int));
            assert(views.take(i as int + 1).last() == items@[i as int]@);
        }
        if i > 0 {
            s.append(sep);
        } else {
            assert(views.take(0) =~= Seq::<Seq<char>>::empty());
        }
        s.append(items[i].as_str());
        proof {
            if i == 0 {
                assert(join_with(views.take(1), sep@) == views.take(1)[0]);
            }
            assert(s@ =~= join_with(views.take(i as int + 1), sep@));
        }
        i = i + 1;
    }
    assert(views.take(items@.len() as int) =~= views);
    s
}

/// The create-if-missing statement of a table with the given items.
pub fn create_text_of(table: &str, items: &Vec<String>) -> (r: String)
    ensures
        r@ == create_text(table@, text_views(items@)),
{
    let mut s = String::from_str("CREATE TABLE IF NOT EXISTS ");
    push_quoted(&mut s, table);
    s.append(" (");
    let body = join_text(items, ", ");
    s.append(body.as_str());
    s.append(")");
    assert(s@ =~= create_text(table@, text_views(items@)));
    s
}

pub open spec fn id_column(decl: Seq<char>) -> (Seq<char>, Seq<char>) {
    ("id"@, decl)
}

/// Set by the store when the row is inserted.
pub open spec fn added_column() -> (Seq<char>, Seq<char>) {
    ("date_added"@, "TIMESTAMP NOT NULL DEFAULT CURRENT_TIMESTAMP"@)
}

/// Set by the store when the row is inserted, and again on every update.
pub open spec fn updated_column() -> (Seq<char>, Seq<char>) {
    ("date_last_updated"@, "TIMESTAMP NOT NULL DEFAULT CURRENT_TIMESTAMP ON UPDATE CURRENT_TIMESTAMP"@)
}

/// Each table's columns, name and declaration, in the order that the
/// records' rows use.
pub open spec fn columns_spec(t: Table) -> Seq<(Seq<char>, Seq<char>)> {
    match t {
        Table::Author => seq![
            id_column("BIGINT UNSIGNED PRIMARY KEY NOT NULL AUTO_INCREMENT"@),
            ("name"@, "TEXT NOT NULL"@),
            ("description"@, "TEXT"@),
            ("birth"@, "DATE"@),
            added_column(),
            updated_column(),
        ],
        Table::Publisher => seq![
            id_column("SMALLINT UNSIGNED PRIMARY KEY NOT NULL AUTO_INCREMENT"@),
            ("name"@, "TEXT NOT NULL"@),
            ("description"@, "TEXT NOT NULL"@),
            ("city"@, "TEXT"@),
            added_column(),
            updated_column(),
        ],
        Table::Book => seq![
            id_column("BIGINT UNSIGNED PRIMARY KEY NOT NULL AUTO_INCREMENT"@),
            ("isbn"@, "TEXT NOT NULL"@),
            ("name"@, "TEXT NOT NULL"@),
            ("description"@, "TEXT"@),
            ("language"@, "TEXT"@),
            ("nsfw"@, "BOOL NOT NULL"@),
            ("num_pages"@, "SMALLINT UNSIGNED NOT NULL"@),
            ("image_formatted"@, "BOOL NOT NULL"@),
            ("publisher_id"@, "SMALLINT UNSIGNED"@),
            ("date_published"@, "TIMESTAMP NULL"@),
            added_column(),
            updated_column(),
        ],
        Table::User => seq![
            id_column("TINYINT UNSIGNED PRIMARY KEY NOT NULL AUTO_INCREMENT"@),
            ("name"@, "TEXT NOT NULL"@),
            added_column(),
            updated_column(),
        ],
        Table::Progress => seq![
            id_column("BIGINT UNSIGNED PRIMARY KEY NOT NULL AUTO_INCREMENT"@),
            ("user_id"@, "TINYINT UNSIGNED NOT NULL"@),
            ("book_id"@, "BIGINT UNSIGNED NOT NULL"@),
            ("current_page"@, "SMALLINT UNSIGNED NOT NULL"@),
            added_column(),
            updated_column(),
        ],
    }
}

/// Each table's foreign keys: constraint name, column, referenced table.
pub open spec fn foreign_keys_spec(t: Table) -> Seq<(Seq<char>, Seq<char>, Table)> {
    match t {
        Table::Book => seq![("fk_publisher_id"@, "publisher_id"@, Table::Publisher)],
        Table::Progress => seq![
            ("fk_user_id"@, "user_id"@, Table::User),
            ("fk_book_id"@, "book_id"@, Table::Book),
        ],
        _ => Seq::empty(),
    }
}

/// The declarations in a table's create statement: the columns, then the
/// foreign keys.
pub open spec fn items_spec(t: Table) -> Seq<Seq<char>> {
    columns_spec(t).map_values(|c: (Seq<char>, Seq<char>)| column_def(c.0, c.1))
        + foreign_keys_spec(t).map_values(
        |f: (Seq<char>, Seq<char>, Table)| foreign_key_def(f.0, f.1, f.2.name_spec()),
    )
}

pub open spec fn ddl_spec(t: Table) -> Seq<char> {
    create_text(t.name_spec(), items_spec(t))
}

pub open spec fn version_table_spec() -> Seq<char> {
    create_text("schema_version"@, seq![column_def("version"@, "INT UNSIGNED PRIMARY KEY NOT NULL"@)])
}

pub(crate) fn columns(t: Table) -> (r: Vec<(&'static str, &'static str)>)
    ensures
        r@.map_values(|c: (&str, &str)| (c.0@, c.1@)) == columns_spec(t),
{
    let r = match t {
        Table::Author => vec![
            ("id", "BIGINT UNSIGNED PRIMARY KEY NOT NULL AUTO_INCREMENT"),
            ("name", "TEXT NOT NULL"),
            ("description", "TEXT"),
            ("birth", "DATE"),
            ("date_added", "TIMESTAMP NOT NULL DEFAULT CURRENT_TIMESTAMP"),
            ("date_last_updated", "TIMESTAMP NOT NULL DEFAULT CURRENT_TIMESTAMP ON UPDATE CURRENT_TIMESTAMP"),
        ],
        Table::Publisher => vec![
            ("id", "SMALLINT UNSIGNED PRIMARY KEY NOT NULL AUTO_INCREMENT"),
            ("name", "TEXT NOT NULL"),
            ("description", "TEXT NOT NULL"),
            ("city", "TEXT"),
            ("date_added", "TIMESTAMP NOT NULL DEFAULT CURRENT_TIMESTAMP"),
            ("date_last_updated", "TIMESTAMP NOT NULL DEFAULT CURRENT_TIMESTAMP ON UPDATE CURRENT_TIMESTAMP"),
        ],
        Table::Book => vec![
            ("id", "BIGINT UNSIGNED PRIMARY KEY NOT NULL AUTO_INCREMENT"),
            ("isbn", "TEXT NOT NULL"),
            ("name", "TEXT NOT NULL"),
            ("description", "TEXT"),
            ("language", "TEXT"),
            ("nsfw", "BOOL NOT NULL"),
            ("num_pages", "SMALLINT UNSIGNED NOT NULL"),
            ("image_formatted", "BOOL NOT NULL"),
            ("publisher_id", "SMALLINT UNSIGNED"),
            ("date_published", "TIMESTAMP NULL"),
            ("date_added", "TIMESTAMP NOT NULL DEFAULT CURRENT_TIMESTAMP"),
            ("date_last_updated", "TIMESTAMP NOT NULL DEFAULT CURRENT_TIMESTAMP ON UPDATE CURRENT_TIMESTAMP"),
        ],
        Table::User => vec![
            ("id", "TINYINT UNSIGNED PRIMARY KEY NOT NULL AUTO_INCREMENT"),
            ("name", "TEXT NOT NULL"),
            ("date_added", "TIMESTAMP NOT NULL DEFAULT CURRENT_TIMESTAMP"),
            ("date_last_updated", "TIMESTAMP NOT NULL DEFAULT CURRENT_TIMESTAMP ON UPDATE CURRENT_TIMESTAMP"),
        ],
        Table::Progress => vec![
            ("id", "BIGINT UNSIGNED PRIMARY KEY NOT NULL AUTO_INCREMENT"),
            ("user_id", "TINYINT UNSIGNED NOT NULL"),
            ("book_id", "BIGINT UNSIGNED NOT NULL"),
            ("current_page", "SMALLINT UNSIGNED NOT NULL"),
            ("date_added", "TIMESTAMP NOT NULL DEFAULT CURRENT_TIMESTAMP"),
            ("date_last_updated", "TIMESTAMP NOT NULL DEFAULT CURRENT_TIMESTAMP ON UPDATE CURRENT_TIMESTAMP"),
        ],
    };
    assert(r@.map_values(|c: (&str, &str)| (c.0@, c.1@)) =~= columns_spec(t));
    r
}

fn foreign_keys(t: Table) -> (r: Vec<(&'static str, &'static str, Table)>)
    ensures
        r@.map_values(|f: (&str, &str, Table)| (f.0@, f.1@, f.2)) == foreign_keys_spec(t),
{
    let r = match t {
        Table::Book => vec![("fk_publisher_id", "publisher_id", Table::Publisher)],
        Table::Progress => vec![("fk_user_id", "user_id", Table::User), ("fk_book_id", "book_id", Table::Book)],
        _ => Vec::new(),
    };
    assert(r@.map_values(|f: (&str, &str, Table)| (f.0@, f.1@, f.2)) =~= foreign_keys_spec(t));
    r
}

impl Table {
    /// The statement that creates the table, with its columns and foreign
    /// keys, where it does not exist yet.
    pub fn create_statement(self) -> (r: String)
        ensures
            r@ == ddl_spec(self),
    {
        let cols = columns(self);
        let fks = foreign_keys(self);
        let ghost cs = columns_spec(self);
        let ghost fs = foreign_keys_spec(self);
        let mut items: Vec<String> = Vec::new();
        let mut i: usize = 0;
        while i < cols.len()
            invariant
                i <= cols@.len(),
                cs == cols@.map_values(|c: (&str, &str)| (c.0@, c.1@)),
                items@.len() == i,
                forall|j: int| 0 <= j < i ==> (#[trigger] items@[j])@ == column_def(cs[j].0, cs[j].1),
            decreases cols@.len() - i,
        {
            let (name, decl) = cols[i];
            items.push(column_text(name, decl));
            i = i + 1;
        }
        let mut k: usize = 0;
        while k < fks.len()
            invariant
                k <= fks@.len(),
                cs.len() == cols@.len(),
                fs == fks@.map_values(|f: (&str, &str, Table)| (f.0@, f.1@, f.2)),
                items@.len() == cols@.len() + k,
                forall|j: int| 0 <= j < cols@.len() ==> (#[trigger] items@[j])@ == column_def(cs[j].0, cs[j].1),
                forall|j: int|
                    0 <= j < k ==> (#[trigger] items@[cols@.len() + j])@ == foreign_key_def(
                        fs[j].0,
                        fs[j].1,
                        fs[j].2.name_spec(),
                    ),
            decreases fks@.len() - k,
        {
            let (constraint, column, target) = fks[k];
            items.push(foreign_key_text(constraint, column, target.name()));
            proof {
                assert(items@[cols@.len() + k as int] == items@.last());
            }
            k = k + 1;
        }
        assert(text_views(items@) =~= items_spec(self)) by {
            assert forall|j: int| 0 <= j < items@.len() implies text_views(items@)[j] == items_spec(self)[j] by {
                if j >= cols@.len() {
                    assert(items@[cols@.len() + (j - cols@.len())] == items@[j]);
                }
            }
        }
        create_text_of(self.name(), &items)
    }
}

/// The statement that creates the table recording applied schema versions,
/// where it does not exist yet.
pub fn version_table_statement() -> (r: String)
    ensures
        r@ == version_table_spec(),
{
    let mut items: Vec<String> = Vec::new();
    items.push(column_text("version", "INT UNSIGNED PRIMARY KEY NOT NULL"));
    assert(text_views(items@) =~= seq![column_def("version"@, "INT UNSIGNED PRIMARY KEY NOT NULL"@)]);
    create_text_of("schema_version", &items)
}

/// A table's foreign keys point exactly at the tables it references, each
/// from one of its own columns.
pub proof fn lemma_foreign_keys_follow_references(t: Table, u: Table)
    ensures
        references(t, u) <==> exists|i: int|
            0 <= i < foreign_keys_spec(t).len() && (#[trigger] foreign_keys_spec(t)[i]).2 == u,
        forall|i: int|
            0 <= i < foreign_keys_spec(t).len() ==> exists|j: int|
                0 <= j < columns_spec(t).len() && (#[trigger] columns_spec(t)[j]).0 == (
                #[trigger] foreign_keys_spec(t)[i]).1,
{
    let fs = foreign_keys_spec(t);
    let cs = columns_spec(t);
    match t {
        Table::Book => {
            if references(t, u) {
                assert(fs[0].2 == u);
            }
            assert(cs[8].0 == fs[0].1);
        },
        Table::Progress => {
            if u == Table::User {
                assert(fs[0].2 == u);
            }
            if u == Table::Book {
                assert(fs[1].2 == u);
            }
            assert(cs[1].0 == fs[0].1);
            assert(cs[2].0 == fs[1].1);
        },
        _ => {},
    }
}

/// Every table starts with its `id` key and ends with the two timestamps that
/// the store fills in: both on insert, the second again on each update.
pub proof fn lemma_tables_carry_timestamps(t: Table)
    ensures
        columns_spec(t).len() >= 3,
        columns_spec(t)[0].0 == "id"@,
        columns_spec(t)[columns_spec(t).len() - 2] == added_column(),
        columns_spec(t).last() == updated_column(),
{
}

} // verus!
