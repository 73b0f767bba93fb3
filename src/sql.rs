use vstd::prelude::*;
use vstd::string::StringExecFns;

use crate::ddl::{columns, columns_spec, join, join_text, join_with, push_quoted, quoted, text_views};
use crate::codec::SqlValue;
use crate::entity::{Author, Book, PartialAuthor, PartialBook, PartialPublisher, Progress, Publisher, User};
use crate::migrate::Table;
use crate::rows::supplied;

verus! {

/// The column names of a table, in row order.
pub open spec fn column_names(t: Table) -> Seq<Seq<char>> {
    columns_spec(t).map_values(|c: (Seq<char>, Seq<char>)| c.0)
}

/// Each name quoted and followed by `suffix`.
pub open spec fn quoted_each(names: Seq<Seq<char>>, suffix: Seq<char>) -> Seq<Seq<char>> {
    names.map_values(|n: Seq<char>| quoted(n) + suffix)
}

/// The columns, as a range of row positions, that a row is looked up by.
pub open spec fn key_range(t: Table) -> (int, int) {
    match t {
        Table::Progress => (1, 3),
        _ => (0, 1),
    }
}

/// The columns, as a range of row positions, that an insert fills.
pub open spec fn insert_range(t: Table) -> (int, int) {
    match t {
        Table::Author => (1, 4),
        Table::Book => (1, 10),
        Table::Publisher => (1, 4),
        Table::User => (0, 2),
        Table::Progress => (1, 4),
    }
}

/// The columns, as a range of row positions, that an update writes.
pub open spec fn update_range(t: Table) -> (int, int) {
    match t {
        Table::Author => (1, 4),
        Table::Book => (1, 10),
        Table::Publisher => (1, 4),
        Table::User => (1, 2),
        Table::Progress => (3, 4),
    }
}

pub open spec fn names_in(t: Table, range: (int, int)) -> Seq<Seq<char>> {
    column_names(t).subrange(range.0, range.1)
}

pub open spec fn select_spec(t: Table) -> Seq<char> {
    "SELECT "@ + join(quoted_each(column_names(t), ""@)) + " FROM "@ + quoted(t.name_spec())
}

/// ` WHERE` and one `= ?` test per key column, joined by `AND`.
pub open spec fn where_key_spec(t: Table) -> Seq<char> {
    " WHERE "@ + join_with(quoted_each(names_in(t, key_range(t)), " = ?"@), " AND "@)
}

pub open spec fn insert_spec(t: Table) -> Seq<char> {
    "INSERT INTO "@ + quoted(t.name_spec()) + " ("@ + join(quoted_each(names_in(t, insert_range(t)), ""@))
        + ") VALUES ("@ + join(Seq::new((insert_range(t).1 - insert_range(t).0) as nat, |i: int| "?"@)) + ")"@
}

pub open spec fn update_spec(t: Table) -> Seq<char> {
    "UPDATE "@ + quoted(t.name_spec()) + " SET "@ + join(quoted_each(names_in(t, update_range(t)), " = ?"@))
        + where_key_spec(t)
}

pub open spec fn delete_spec(t: Table) -> Seq<char> {
    "DELETE FROM "@ + quoted(t.name_spec()) + where_key_spec(t)
}

/// The quoted names of the columns at row positions `from..to`, each followed
/// by `suffix`.
fn quoted_names(t: Table, from: usize, to: usize, suffix: &str) -> (r: Vec<String>)
    requires
        from <= to <= columns_spec(t).len(),
    ensures
        text_views(r@) == quoted_each(column_names(t).subrange(from as int, to as int), suffix@),
{
    let cols = columns(t);
    let ghost cs = columns_spec(t);
    let mut r: Vec<String> = Vec::new();
    let mut i: usize = from;
    while i < to
        invariant
            from <= i <= to <= cs.len(),
            cs == cols@.map_values(|c: (&str, &str)| (c.0@, c.1@)),
            r@.len() == i - from,
            forall|j: int| 0 <= j < r@.len() ==> (#[trigger] r@[j])@ == quoted(cs[from + j].0) + suffix@,
        decreases to - i,
    {
        let (name, _) = cols[i];
        let mut s = String::new();
        push_quoted(&mut s, name);
        s.append(suffix);
        assert(s@ =~= quoted(cs[i as int].0) + suffix@);
        r.push(s);
        proof {
            assert(r@[r@.len() - 1] == s);
        }
        i = i + 1;
    }
    assert(text_views(r@) =~= quoted_each(column_names(t).subrange(from as int, to as int), suffix@));
    r
}

impl Table {
    fn key_range_of(self) -> (r: (usize, usize))
        ensures
            r.0 as int == key_range(self).0 && r.1 as int == key_range(self).1,
            r.0 <= r.1 <= columns_spec(self).len(),
    {
        match self {
            Table::Progress => (1, 3),
            _ => (0, 1),
        }
    }

    fn insert_range_of(self) -> (r: (usize, usize))
        ensures
            r.0 as int == insert_range(self).0 && r.1 as int == insert_range(self).1,
            r.0 <= r.1 <= columns_spec(self).len(),
    {
        match self {
            Table::Author => (1, 4),
            Table::Book => (1, 10),
            Table::Publisher => (1, 4),
            Table::User => (0, 2),
            Table::Progress => (1, 4),
        }
    }

    fn update_range_of(self) -> (r: (usize, usize))
        ensures
            r.0 as int == update_range(self).0 && r.1 as int == update_range(self).1,
            r.0 <= r.1 <= columns_spec(self).len(),
    {
        match self {
            Table::Author => (1, 4),
            Table::Book => (1, 10),
            Table::Publisher => (1, 4),
            Table::User => (1, 2),
            Table::Progress => (3, 4),
        }
    }

    /// `SELECT` of every column, in row order, from this table.
    pub fn select_statement(self) -> (r: String)
        ensures
            r@ == select_spec(self),
    {
        let names = quoted_names(self, 0, columns(self).len(), "");
        let mut s = String::from_str("SELECT ");
        let list = join_text(&names, ", ");
        s.append(list.as_str());
        s.append(" FROM ");
        push_quoted(&mut s, self.name());
        assert(column_names(self).subrange(0, columns_spec(self).len() as int) =~= column_names(self));
        assert(s@ =~= select_spec(self));
        s
    }

    fn where_key(self) -> (r: String)
        ensures
            r@ == where_key_spec(self),
    {
        let (from, to) = self.key_range_of();
        let tests = quoted_names(self, from, to, " = ?");
        let mut s = String::from_str(" WHERE ");
        let list = join_text(&tests, " AND ");
        s.append(list.as_str());
        assert(s@ =~= where_key_spec(self));
        s
    }

    /// The row with a given key: its key columns are the parameters, in row
    /// order.
    pub fn select_by_key_statement(self) -> (r: String)
        ensures
            r@ == select_spec(self) + where_key_spec(self),
    {
        let mut s = self.select_statement();
        let w = self.where_key();
        s.append(w.as_str());
        s
    }

    /// The rows whose `column` equals the one parameter.
    pub fn select_where_statement(self, column: &str) -> (r: String)
        ensures
            r@ == select_spec(self) + " WHERE "@ + quoted(column@) + " = ?"@,
    {
        let mut s = self.select_statement();
        s.append(" WHERE ");
        push_quoted(&mut s, column);
        s.append(" = ?");
        assert(s@ =~= select_spec(self) + " WHERE "@ + quoted(column@) + " = ?"@);
        s
    }

    /// The row that the connection inserted last.
    pub fn select_last_statement(self) -> (r: String)
        ensures
            r@ == select_spec(self) + " WHERE `id` = LAST_INSERT_ID()"@,
    {
        let mut s = self.select_statement();
        s.append(" WHERE `id` = LAST_INSERT_ID()");
        s
    }

    /// Insert of the columns at the insert range, one parameter each, in row
    /// order.
    pub fn insert_statement(self) -> (r: String)
        ensures
            r@ == insert_spec(self),
    {
        let (from, to) = self.insert_range_of();
        let names = quoted_names(self, from, to, "");
        let mut marks: Vec<String> = Vec::new();
        let mut i: usize = from;
        while i < to
            invariant
                from <= i <= to,
                marks@.len() == i - from,
                forall|j: int| 0 <= j < marks@.len() ==> (#[trigger] marks@[j])@ == "?"@,
            decreases to - i,
        {
            marks.push(String::from_str("?"));
            proof {
                assert(marks@[marks@.len() - 1]@ == "?"@);
            }
            i = i + 1;
        }
        let mut s = String::from_str("INSERT INTO ");
        push_quoted(&mut s, self.name());
        s.append(" (");
        let list = join_text(&names, ", ");
        s.append(list.as_str());
        s.append(") VALUES (");
        let qs = join_text(&marks, ", ");
        s.append(qs.as_str());
        s.append(")");
        assert(text_views(marks@) =~= Seq::new((to - from) as nat, |i: int| "?"@));
        assert(s@ =~= insert_spec(self));
        s
    }

    /// Update of the columns at the update range, then the key test; the
    /// parameters are those columns and then the key columns.
    pub fn update_statement(self) -> (r: String)
        ensures
            r@ == update_spec(self),
    {
        let (from, to) = self.update_range_of();
        let sets = quoted_names(self, from, to, " = ?");
        let mut s = String::from_str("UPDATE ");
        push_quoted(&mut s, self.name());
        s.append(" SET ");
        let list = join_text(&sets, ", ");
        s.append(list.as_str());
        let w = self.where_key();
        s.append(w.as_str());
        assert(s@ =~= update_spec(self));
        s
    }

    /// Delete of the row with a given key.
    pub fn delete_statement(self) -> (r: String)
        ensures
            r@ == delete_spec(self),
    {
        let mut s = String::from_str("DELETE FROM ");
        push_quoted(&mut s, self.name());
        let w = self.where_key();
        s.append(w.as_str());
        assert(s@ =~= delete_spec(self));
        s
    }
}

/// The values of a row at a range of positions.
pub open spec fn at(row: Seq<SqlValue>, range: (int, int)) -> Seq<SqlValue> {
    row.subrange(range.0, range.1)
}

/// The parameters of every statement line up with its columns: a record's
/// row has one value per column, and the update (then key) and insert
/// parameters are the row's values at the positions of the columns that the
/// statement names, in the same order.
pub proof fn lemma_params_match_columns(
    a: Author,
    pa: PartialAuthor,
    b: Book,
    pb: PartialBook,
    c: Publisher,
    pc: PartialPublisher,
    u: User,
    g: Progress,
)
    ensures
        a.row().len() == column_names(Table::Author).len(),
        b.row().len() == column_names(Table::Book).len(),
        c.row().len() == column_names(Table::Publisher).len(),
        u.row().len() == column_names(Table::User).len(),
        g.row().len() == column_names(Table::Progress).len(),
        a.update_params() == at(a.row(), update_range(Table::Author)) + at(a.row(), key_range(Table::Author)),
        b.update_params() == at(b.row(), update_range(Table::Book)) + at(b.row(), key_range(Table::Book)),
        c.update_params() == at(c.row(), update_range(Table::Publisher)) + at(c.row(), key_range(Table::Publisher)),
        User::update_params(u.id, u.name) == at(u.row(), update_range(Table::User)) + at(
            u.row(),
            key_range(Table::User),
        ),
        Progress::update_params(g.user_id, g.book_id, g.current_page) == at(g.row(), update_range(Table::Progress))
            + at(g.row(), key_range(Table::Progress)),
        Progress::key_params(g.user_id, g.book_id) == at(g.row(), key_range(Table::Progress)),
        User::insert_params(u.id, u.name) == at(u.row(), insert_range(Table::User)),
        Progress::insert_params(g.user_id, g.book_id, g.current_page) == at(g.row(), insert_range(Table::Progress)),
        supplied(pa.name) ==> pa.insert_params().len() == insert_range(Table::Author).1 - insert_range(Table::Author).0,
        pb.complete() ==> pb.insert_params().len() == insert_range(Table::Book).1 - insert_range(Table::Book).0,
        pc.complete() ==> pc.insert_params().len() == insert_range(Table::Publisher).1 - insert_range(
            Table::Publisher,
        ).0,
{
    assert(a.update_params() =~= at(a.row(), update_range(Table::Author)) + at(a.row(), key_range(Table::Author)));
    assert(b.update_params() =~= at(b.row(), update_range(Table::Book)) + at(b.row(), key_range(Table::Book)));
    assert(c.update_params() =~= at(c.row(), update_range(Table::Publisher)) + at(c.row(), key_range(Table::Publisher)));
    assert(User::update_params(u.id, u.name) =~= at(u.row(), update_range(Table::User)) + at(u.row(), key_range(Table::User)));
    assert(Progress::update_params(g.user_id, g.book_id, g.current_page) =~= at(g.row(), update_range(Table::Progress))
        + at(g.row(), key_range(Table::Progress)));
    assert(Progress::key_params(g.user_id, g.book_id) =~= at(g.row(), key_range(Table::Progress)));
    assert(User::insert_params(u.id, u.name) =~= at(u.row(), insert_range(Table::User)));
    assert(Progress::insert_params(g.user_id, g.book_id, g.current_page) =~= at(g.row(), insert_range(Table::Progress)));
}

} // verus!
