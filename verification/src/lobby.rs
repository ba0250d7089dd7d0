//! The table registry: an insertion-ordered list of tables with unique ids,
//! a single-writer mutation protocol (add after a predecessor, update in
//! place, remove), and a defensively-copied snapshot. Every mutation either
//! succeeds as a whole or leaves the list unchanged.

use vstd::prelude::*;

use crate::protocol::{Table, TableId, TableName, TableToAdd, TableToAddV, TableV, ABSENT_ID};
use crate::protocol::tables_view;

verus! {

/// Mathematical state of the registry: the table views in order, and the id
/// that the next successful insertion will be given.
pub ghost struct LobbyV {
    pub tables: Seq<TableV>,
    pub next_id: int,
}

/// Whether some table in the sequence carries the given id.
pub open spec fn has_table(tables: Seq<TableV>, id: int) -> bool {
    exists|i: int| 0 <= i < tables.len() && tables[i].id == id
}

/// The index of the table with the given id; meaningful only when
/// `has_table` holds (the registry keeps ids unique, so it is then the one
/// index carrying the id).
pub open spec fn table_index(tables: Seq<TableV>, id: int) -> int {
    choose|i: int| 0 <= i < tables.len() && tables[i].id == id
}

impl LobbyV {
    /// Registry well-formedness: ids are positive, below the allocation
    /// counter, and pairwise distinct. The sentinel `ABSENT_ID` is negative,
    /// so it never identifies a stored table.
    pub open spec fn wf(self) -> bool {
        &&& 1 <= self.next_id
        &&& forall|i: int|
            0 <= i < self.tables.len() ==> 1 <= (#[trigger] self.tables[i]).id < self.next_id
        &&& forall|i: int, j: int|
            0 <= i < j < self.tables.len() ==> self.tables[i].id != self.tables[j].id
    }
}

/// The table that a successful insertion builds: the payload's fields under
/// the registry's next fresh id.
pub open spec fn fresh_table(l: LobbyV, table_to_add: TableToAddV) -> TableV {
    TableV { id: l.next_id, name: table_to_add.name, participants: table_to_add.participants }
}

/// What adding a table does: under the sentinel predecessor the new table
/// goes to the head; after a known id it goes immediately after that id's
/// index; after an unknown id nothing changes and no table is returned.
pub open spec fn add_spec(l: LobbyV, after_id: int, table_to_add: TableToAddV) -> (LobbyV, Option<
    TableV,
>) {
    let nt = fresh_table(l, table_to_add);
    if after_id == ABSENT_ID {
        (LobbyV { tables: l.tables.insert(0, nt), next_id: l.next_id + 1 }, Some(nt))
    } else if has_table(l.tables, after_id) {
        (
            LobbyV {
                tables: l.tables.insert(table_index(l.tables, after_id) + 1, nt),
                next_id: l.next_id + 1,
            },
            Some(nt),
        )
    } else {
        (l, None)
    }
}

/// What updating a table does: the entry with the supplied table's id keeps
/// its position and id and takes the supplied name and participant count; an
/// unknown id changes nothing and returns no table.
pub open spec fn update_spec(l: LobbyV, table: TableV) -> (LobbyV, Option<TableV>) {
    if has_table(l.tables, table.id) {
        (
            LobbyV {
                tables: l.tables.update(table_index(l.tables, table.id), table),
                next_id: l.next_id,
            },
            Some(table),
        )
    } else {
        (l, None)
    }
}

/// What removing a table does: the entry with the given id leaves the list;
/// an unknown id changes nothing.
pub open spec fn remove_spec(l: LobbyV, id: int) -> (LobbyV, bool) {
    if has_table(l.tables, id) {
        (LobbyV { tables: l.tables.remove(table_index(l.tables, id)), next_id: l.next_id }, true)
    } else {
        (l, false)
    }
}

/// Law: adding under the sentinel predecessor always places the new table at
/// index 0; adding after a known id places it at that id's index plus one,
/// shifting only what follows; adding after an unknown id fails and leaves
/// the list unchanged. In every case the surviving tables keep their order.
pub proof fn lemma_add_table_placement(l: LobbyV, after_id: int, table_to_add: TableToAddV)
    requires
        l.wf(),
    ensures
        after_id == ABSENT_ID ==> ({
            let (l2, added) = add_spec(l, after_id, table_to_add);
            &&& added == Some(fresh_table(l, table_to_add))
            &&& l2.tables.len() == l.tables.len() + 1
            &&& l2.tables[0] == fresh_table(l, table_to_add)
            &&& forall|j: int| 0 <= j < l.tables.len() ==> l2.tables[j + 1] == l.tables[j]
        }),
        has_table(l.tables, after_id) ==> ({
            let (l2, added) = add_spec(l, after_id, table_to_add);
            let i = table_index(l.tables, after_id);
            &&& added == Some(fresh_table(l, table_to_add))
            &&& l2.tables.len() == l.tables.len() + 1
            &&& l2.tables[i + 1] == fresh_table(l, table_to_add)
            &&& forall|j: int| 0 <= j <= i ==> l2.tables[j] == l.tables[j]
            &&& forall|j: int| i < j < l.tables.len() ==> l2.tables[j + 1] == l.tables[j]
        }),
        after_id != ABSENT_ID && !has_table(l.tables, after_id) ==> add_spec(
            l,
            after_id,
            table_to_add,
        ) == (l, None::<TableV>),
{
    if after_id == ABSENT_ID {
        assert(!has_table(l.tables, after_id));
    } else if has_table(l.tables, after_id) {
        let i = table_index(l.tables, after_id);
        assert(0 <= i < l.tables.len() && l.tables[i].id == after_id);
    }
}

/// Law: updating a known id preserves the entry's position and id while
/// replacing its name and participant count, and touches no other entry;
/// updating an unknown id fails and leaves the list unchanged.
pub proof fn lemma_update_table_placement(l: LobbyV, table: TableV)
    requires
        l.wf(),
    ensures
        has_table(l.tables, table.id) ==> ({
            let (l2, updated) = update_spec(l, table);
            let i = table_index(l.tables, table.id);
            &&& updated == Some(table)
            &&& l2.tables.len() == l.tables.len()
            &&& l2.tables[i].id == l.tables[i].id
            &&& l2.tables[i] == table
            &&& forall|j: int| 0 <= j < l.tables.len() && j != i ==> l2.tables[j] == l.tables[j]
        }),
        !has_table(l.tables, table.id) ==> update_spec(l, table) == (l, None::<TableV>),
{
    if has_table(l.tables, table.id) {
        let i = table_index(l.tables, table.id);
        assert(0 <= i < l.tables.len() && l.tables[i].id == table.id);
    }
}

/// Law: removing a known id decreases the length by exactly one and the id
/// is no longer present afterwards; removing an unknown id fails and leaves
/// the list unchanged.
pub proof fn lemma_remove_table_erases(l: LobbyV, id: int)
    requires
        l.wf(),
    ensures
        has_table(l.tables, id) ==> ({
            let (l2, removed) = remove_spec(l, id);
            &&& removed
            &&& l2.tables.len() == l.tables.len() - 1
            &&& !has_table(l2.tables, id)
        }),
        !has_table(l.tables, id) ==> remove_spec(l, id) == (l, false),
{
    if has_table(l.tables, id) {
        let i = table_index(l.tables, id);
        assert(0 <= i < l.tables.len() && l.tables[i].id == id);
        let l2 = remove_spec(l, id).0;
        assert forall|j: int| 0 <= j < l2.tables.len() implies (#[trigger] l2.tables[j]).id
            != id by {
            if j < i {
                assert(l2.tables[j] == l.tables[j]);
            } else {
                assert(l2.tables[j] == l.tables[j + 1]);
            }
        }
    }
}

/// Law: mutations compose by their net effect — removing the table that a
/// successful insertion just created restores the list exactly, whatever the
/// insertion position was.
pub proof fn lemma_add_then_remove_roundtrip(l: LobbyV, after_id: int, table_to_add: TableToAddV)
    requires
        l.wf(),
        add_spec(l, after_id, table_to_add).1 is Some,
    ensures
        remove_spec(add_spec(l, after_id, table_to_add).0, l.next_id).0.tables == l.tables,
{
    let l2 = add_spec(l, after_id, table_to_add).0;
    let p: int = if after_id == ABSENT_ID {
        0
    } else {
        table_index(l.tables, after_id) + 1
    };
    if after_id != ABSENT_ID {
        let i = table_index(l.tables, after_id);
        assert(0 <= i < l.tables.len() && l.tables[i].id == after_id);
    }
    assert(l2.tables == l.tables.insert(p, fresh_table(l, table_to_add)));
    assert(l2.tables[p].id == l.next_id);
    assert(has_table(l2.tables, l.next_id));
    let q = table_index(l2.tables, l.next_id);
    assert(0 <= q < l2.tables.len() && l2.tables[q].id == l.next_id);
    assert(q == p) by {
        if q < p {
            assert(l2.tables[q] == l.tables[q]);
        } else if q > p {
            assert(l2.tables[q] == l.tables[q - 1]);
        }
    }
    assert(l2.tables.remove(p) =~= l.tables);
}

/// Typed failure of a registry mutation.
#[derive(Clone, Copy, Debug, Eq, PartialEq, Structural)]
pub enum LobbyError {
    TableNotFound { id: TableId },
}

/// The insertion-ordered table registry.
pub struct Lobby {
    tables: Vec<Table>,
    next_id: isize,
}

impl View for Lobby {
    type V = LobbyV;

    closed spec fn view(&self) -> LobbyV {
        LobbyV { tables: tables_view(self.tables@), next_id: self.next_id as int }
    }
}

impl Lobby {
    /// The empty registry.
    pub fn new() -> (r: Self)
        ensures
            r@.wf(),
            r@.tables.len() == 0,
            r@.next_id == 1,
    {
        let r = Lobby { tables: Vec::new(), next_id: 1 };
        proof {
            assert(r@.tables =~= Seq::<TableV>::empty());
        }
        r
    }

    /// The registry seeded with the two demonstration tables.
    pub fn prepopulated() -> (r: Self)
        ensures
            r@.wf(),
            r@.tables.len() == 2,
            r@.tables[0] == (TableV { id: 1, name: "James Bond"@, participants: 7 }),
            r@.tables[1] == (TableV { id: 2, name: "Mission Impossible"@, participants: 9 }),
            r@.next_id == 3,
    {
        let mut tables: Vec<Table> = Vec::new();
        tables.push(
            Table {
                id: TableId(1),
                name: TableName(String::from_str("James Bond")),
                participants: 7,
            },
        );
        tables.push(
            Table {
                id: TableId(2),
                name: TableName(String::from_str("Mission Impossible")),
                participants: 9,
            },
        );
        Lobby { tables, next_id: 3 }
    }

    /// Whether the id allocator can still produce a fresh id, which
    /// insertion requires; callers outside verified code test this before
    /// adding a table.
    pub fn has_fresh_ids(&self) -> (r: bool)
        ensures
            r == (self@.next_id < isize::MAX),
    {
        self.next_id < isize::MAX
    }

    /// The index of the table with the given id, or `None` if no table
    /// carries it.
    fn find_index(&self, id: TableId) -> (r: Option<usize>)
        ensures
            match r {
                Some(i) => i < self@.tables.len() && self@.tables[i as int].id == id.0,
                None => !has_table(self@.tables, id.0 as int),
            },
    {
        let mut i: usize = 0;
        while i < self.tables.len()
            invariant
                i <= self@.tables.len(),
                self@.tables.len() == self.tables@.len(),
                forall|j: int| 0 <= j < i ==> (#[trigger] self@.tables[j]).id != id.0,
            decreases self.tables@.len() - i,
        {
            if self.tables[i].id.0 == id.0 {
                return Some(i);
            }
            i = i + 1;
        }
        None
    }

    /// A full, defensively-copied snapshot of the current list; never fails.
    pub fn read_tables(&self) -> (r: Vec<Table>)
        ensures
            tables_view(r@) == self@.tables,
    {
        let r = self.tables.clone();
        proof {
            assert(r@ =~= self.tables@);
        }
        r
    }

    /// Allocates a fresh id for the payload and inserts the resulting table:
    /// at the head when `after_id` is the sentinel, immediately after the
    /// table with id `after_id` when one exists, and nowhere otherwise, in
    /// which case the list is left unchanged and the failure is returned.
    pub fn add_table(&mut self, after_id: TableId, table_to_add: TableToAdd) -> (r: Result<
        Table,
        LobbyError,
    >)
        requires
            old(self)@.wf(),
            old(self)@.next_id < isize::MAX,
        ensures
            final(self)@.wf(),
            final(self)@ == add_spec(old(self)@, after_id.0 as int, table_to_add@).0,
            match r {
                Ok(t) => add_spec(old(self)@, after_id.0 as int, table_to_add@).1 == Some(t@),
                Err(e) => add_spec(old(self)@, after_id.0 as int, table_to_add@).1 is None && e == (
                LobbyError::TableNotFound { id: after_id }),
            },
    {
        if after_id.0 == ABSENT_ID {
            let table = table_to_add.into_table(TableId(self.next_id));
            let result = table.clone();
            self.tables.insert(0, table);
            self.next_id = self.next_id + 1;
            proof {
                assert(self@.tables =~= add_spec(old(self)@, after_id.0 as int, table_to_add@).0.tables);
            }
            Ok(result)
        } else {
            match self.find_index(after_id) {
                Some(index) => {
                    let ghost l0 = self@;
                    proof {
                        assert(has_table(l0.tables, after_id.0 as int));
                        let k = table_index(l0.tables, after_id.0 as int);
                        assert(l0.tables[k].id == after_id.0 as int);
                        assert(k == index as int);
                    }
                    let len = self.tables.len();
                    proof {
                        assert(index < len);
                    }
                    let table = table_to_add.into_table(TableId(self.next_id));
                    let result = table.clone();
                    self.tables.insert(index + 1, table);
                    self.next_id = self.next_id + 1;
                    proof {
                        assert(self@.tables =~= add_spec(l0, after_id.0 as int, table_to_add@).0.tables);
                    }
                    Ok(result)
                },
                None => Err(LobbyError::TableNotFound { id: after_id }),
            }
        }
    }

    /// Locates the existing table by the supplied table's id and overwrites
    /// every field except the id with the supplied fields, returning the
    /// resulting table; an unknown id leaves the list unchanged and fails.
    /// The supplied id is the lookup key, not a new position: the entry keeps
    /// its place in the order.
    pub fn update_table(&mut self, table_to_update: Table) -> (r: Result<Table, LobbyError>)
        requires
            old(self)@.wf(),
        ensures
            final(self)@.wf(),
            final(self)@ == update_spec(old(self)@, table_to_update@).0,
            match r {
                Ok(t) => update_spec(old(self)@, table_to_update@).1 == Some(t@),
                Err(e) => update_spec(old(self)@, table_to_update@).1 is None && e == (
                LobbyError::TableNotFound { id: table_to_update.id }),
            },
    {
        match self.find_index(table_to_update.id) {
            Some(index) => {
                let ghost l0 = self@;
                proof {
                    assert(has_table(l0.tables, table_to_update@.id));
                    let k = table_index(l0.tables, table_to_update@.id);
                    assert(l0.tables[k].id == table_to_update@.id);
                    assert(k == index as int);
                }
                let mut table = self.tables.remove(index);
                table.update_with(table_to_update);
                let result = table.clone();
                self.tables.insert(index, table);
                proof {
                    assert(self@.tables =~= update_spec(l0, table_to_update@).0.tables);
                }
                Ok(result)
            },
            None => Err(LobbyError::TableNotFound { id: table_to_update.id }),
        }
    }

    /// Deletes the table with the given id and returns the id; an unknown id
    /// leaves the list unchanged and fails.
    pub fn remove_table(&mut self, id: TableId) -> (r: Result<TableId, LobbyError>)
        requires
            old(self)@.wf(),
        ensures
            final(self)@.wf(),
            final(self)@ == remove_spec(old(self)@, id.0 as int).0,
            match r {
                Ok(removed) => remove_spec(old(self)@, id.0 as int).1 && removed == id,
                Err(e) => !remove_spec(old(self)@, id.0 as int).1 && e == (LobbyError::TableNotFound {
                    id,
                }),
            },
    {
        match self.find_index(id) {
            Some(index) => {
                let ghost l0 = self@;
                proof {
                    assert(has_table(l0.tables, id.0 as int));
                    let k = table_index(l0.tables, id.0 as int);
                    assert(l0.tables[k].id == id.0 as int);
                    assert(k == index as int);
                }
                self.tables.remove(index);
                proof {
                    assert(self@.tables =~= remove_spec(l0, id.0 as int).0.tables);
                }
                Ok(id)
            },
            None => Err(LobbyError::TableNotFound { id }),
        }
    }
}

} // verus!
