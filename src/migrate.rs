use vstd::prelude::*;

verus! {

/// The tables of the schema.
#[derive(Clone, Copy, Debug, PartialEq, Eq, Structural)]
pub enum Table {
    Author,
    Publisher,
    Book,
    User,
    Progress,
}

/// The tables that a table's foreign keys point at.
pub open spec fn references(t: Table, u: Table) -> bool {
    match t {
        Table::Book => u == Table::Publisher,
        Table::Progress => u == Table::User || u == Table::Book,
        _ => false,
    }
}

/// The version that the schema reaches once every step has run.
pub const SCHEMA_VERSION: u32 = 1;

pub open spec fn creation_order_spec() -> Seq<Table> {
    seq![Table::Author, Table::Publisher, Table::Book, Table::User, Table::Progress]
}

/// The order in which the first version creates the tables.
pub fn creation_order() -> (r: Vec<Table>)
    ensures
        r@ == creation_order_spec(),
        forall|t: Table| #[trigger] r@.contains(t),
        forall|i: int, j: int|
            0 <= i < r@.len() && 0 <= j < r@.len() && #[trigger] references(r@[i], r@[j]) ==> j < i,
{
    let r = vec![Table::Author, Table::Publisher, Table::Book, Table::User, Table::Progress];
    assert(r@ =~= creation_order_spec());
    assert forall|t: Table| #[trigger] r@.contains(t) by {
        match t {
            Table::Author => assert(r@[0] == t),
            Table::Publisher => assert(r@[1] == t),
            Table::Book => assert(r@[2] == t),
            Table::User => assert(r@[3] == t),
            Table::Progress => assert(r@[4] == t),
        }
    }
    r
}

impl Table {
    pub open spec fn name_spec(self) -> Seq<char> {
        match self {
            Table::Author => "author"@,
            Table::Publisher => "publisher"@,
            Table::Book => "book"@,
            Table::User => "user"@,
            Table::Progress => "progress"@,
        }
    }

    /// The table's name in the store.
    pub fn name(self) -> (r: &'static str)
        ensures
            r@ == self.name_spec(),
    {
        match self {
            Table::Author => "author",
            Table::Publisher => "publisher",
            Table::Book => "book",
            Table::User => "user",
            Table::Progress => "progress",
        }
    }
}

/// The versions that are known and not yet recorded as applied, in order.
pub open spec fn pending_spec(known: Seq<u32>, applied: Seq<u32>) -> Seq<u32>
    decreases known.len(),
{
    if known.len() == 0 {
        Seq::empty()
    } else {
        let rest = pending_spec(known.drop_last(), applied);
        if applied.contains(known.last()) {
            rest
        } else {
            rest.push(known.last())
        }
    }
}

pub open spec fn known_versions_spec() -> Seq<u32> {
    seq![SCHEMA_VERSION]
}

/// Every schema version, oldest first.
pub fn known_versions() -> (r: Vec<u32>)
    ensures
        r@ == known_versions_spec(),
{
    let r = vec![SCHEMA_VERSION];
    assert(r@ =~= known_versions_spec());
    r
}

fn contains_version(v: &Vec<u32>, x: u32) -> (r: bool)
    ensures
        r == v@.contains(x),
{
    let mut i: usize = 0;
    while i < v.len()
        invariant
            i <= v@.len(),
            forall|j: int| 0 <= j < i ==> v@[j] != x,
        decreases v@.len() - i,
    {
        if v[i] == x {
            assert(v@[i as int] == x);
            return true;
        }
        i = i + 1;
    }
    false
}

/// The versions still to apply, in the order known, given those already
/// recorded in the store.
pub fn pending_versions(known: &Vec<u32>, applied: &Vec<u32>) -> (r: Vec<u32>)
    ensures
        r@ == pending_spec(known@, applied@),
{
    let mut out: Vec<u32> = Vec::new();
    let mut i: usize = 0;
    while i < known.len()
        invariant
            i <= known@.len(),
            out@ == pending_spec(known@.subrange(0, i as int), applied@),
        decreases known@.len() - i,
    {
        let v = known[i];
        assert(known@.subrange(0, i as int + 1).drop_last() =~= known@.subrange(0, i as int));
        if !contains_version(applied, v) {
            out.push(v);
        }
        i = i + 1;
    }
    assert(known@.subrange(0, known@.len() as int) =~= known@);
    out
}

proof fn lemma_pending_empty(known: Seq<u32>, applied: Seq<u32>)
    requires
        forall|v: u32| known.contains(v) ==> applied.contains(v),
    ensures
        pending_spec(known, applied) =~= Seq::<u32>::empty(),
    decreases known.len(),
{
    if known.len() > 0 {
        assert forall|v: u32| known.drop_last().contains(v) implies applied.contains(v) by {
            let k = choose|k: int| 0 <= k < known.drop_last().len() && known.drop_last()[k] == v;
            assert(known[k] == v);
        }
        lemma_pending_empty(known.drop_last(), applied);
        assert(known.contains(known.last())) by {
            assert(known[known.len() - 1] == known.last());
        }
    }
}

proof fn lemma_pending_covers(known: Seq<u32>, applied: Seq<u32>, v: u32)
    requires
        known.contains(v),
        !applied.contains(v),
    ensures
        pending_spec(known, applied).contains(v),
    decreases known.len(),
{
    let rest = pending_spec(known.drop_last(), applied);
    if known.last() == v {
        assert(pending_spec(known, applied) == rest.push(v));
        assert(rest.push(v)[rest.len() as int] == v);
    } else {
        let k = choose|k: int| 0 <= k < known.len() && known[k] == v;
        assert(known.drop_last()[k] == v);
        lemma_pending_covers(known.drop_last(), applied, v);
        let m = choose|m: int| 0 <= m < rest.len() && rest[m] == v;
        if applied.contains(known.last()) {
        } else {
            assert(rest.push(known.last())[m] == v);
        }
    }
}

/// Migrating twice is migrating once: once the pending versions are recorded
/// as applied, nothing is pending any more.
pub proof fn lemma_migration_idempotent(known: Seq<u32>, applied: Seq<u32>)
    ensures
        pending_spec(known, applied + pending_spec(known, applied)) =~= Seq::<u32>::empty(),
{
    let p = pending_spec(known, applied);
    assert forall|v: u32| known.contains(v) implies (applied + p).contains(v) by {
        if applied.contains(v) {
            let k = choose|k: int| 0 <= k < applied.len() && applied[k] == v;
            assert((applied + p)[k] == v);
        } else {
            lemma_pending_covers(known, applied, v);
            let m = choose|m: int| 0 <= m < p.len() && p[m] == v;
            assert((applied + p)[applied.len() + m] == v);
        }
    }
    lemma_pending_empty(known, applied + p);
}

/// The tables that a schema version creates, in creation order; an unknown
/// version creates none.
pub fn version_steps(version: u32) -> (r: Vec<Table>)
    ensures
        version == SCHEMA_VERSION ==> r@ == creation_order_spec(),
        version != SCHEMA_VERSION ==> r@.len() == 0,
{
    if version == SCHEMA_VERSION {
        creation_order()
    } else {
        Vec::new()
    }
}

} // verus!
