use lobby_api::lobby::{Lobby, LobbyError};
use lobby_api::protocol::{Table, TableId, TableName, TableToAdd};

fn table_id_invalid() -> TableId {
    TableId(99999)
}

fn table_to_add_foo_fighters() -> TableToAdd {
    TableToAdd {
        name: TableName(String::from("table - Foo Fighters")),
        participants: 4,
    }
}

fn table_james_bond() -> Table {
    Table {
        id: TableId(1),
        name: TableName(String::from("table - James Bond")),
        participants: 7,
    }
}

fn len(lobby: &Lobby) -> usize {
    lobby.read_tables().len()
}

fn read_table(lobby: &Lobby, index: usize) -> Table {
    lobby
        .read_tables()
        .into_iter()
        .nth(index)
        .unwrap_or_else(|| panic!("Table at index {} should exist", index))
}

#[test]
fn add_table_in_front() {
    let mut lobby = Lobby::prepopulated();
    let len_before = len(&lobby);

    // when
    let result = lobby.add_table(TableId::absent(), table_to_add_foo_fighters());

    // then
    let added_table = result.expect("Table should be added");
    let first_table = read_table(&lobby, 0);
    assert_eq!(added_table, first_table);

    let len_after = len(&lobby);
    assert_eq!(len_after, len_before + 1, "Number of tables should increase by one");
}

#[test]
fn add_table_after_another_table() {
    let mut lobby = Lobby::prepopulated();
    let len_before = len(&lobby);
    let first_table = read_table(&lobby, 0);

    // when
    let result = lobby.add_table(first_table.id, table_to_add_foo_fighters());

    // then
    let added_table = result.expect("Table should be added");
    let second_table = read_table(&lobby, 1);
    assert_eq!(added_table, second_table);

    let len_after = len(&lobby);
    assert_eq!(len_after, len_before + 1, "Number of tables should increase by one");
}

#[test]
fn not_add_table_when_after_id_does_not_exist() {
    let mut lobby = Lobby::prepopulated();
    let len_before = len(&lobby);

    // when
    let result = lobby.add_table(table_id_invalid(), table_to_add_foo_fighters());

    // then
    assert!(result.is_err(), "Table should not be added");
    assert_eq!(result, Err(LobbyError::TableNotFound { id: table_id_invalid() }));

    let len_after = len(&lobby);
    assert_eq!(len_after, len_before, "Number of tables should remain the same");
}

#[test]
fn update_table() {
    let mut lobby = Lobby::prepopulated();
    let len_before = len(&lobby);

    let index = 0;
    let prepopulated_table = read_table(&lobby, index);
    let table_to_update = Table {
        name: TableName(String::from("Updated")),
        ..prepopulated_table
    };

    // when
    let result = lobby.update_table(table_to_update.clone());

    // then
    let updated_table = result.expect("Table should be updated");
    assert_eq!(updated_table, table_to_update);

    let len_after = len(&lobby);
    assert_eq!(len_after, len_before, "Number of tables should remain the same");

    let updated_table = read_table(&lobby, index);
    assert_eq!(updated_table, table_to_update);
}

#[test]
fn not_update_table_when_table_id_does_not_exist() {
    let mut lobby = Lobby::prepopulated();
    let len_before = len(&lobby);

    let table_to_update = Table {
        id: table_id_invalid(),
        ..table_james_bond()
    };

    // when
    let result = lobby.update_table(table_to_update);

    // then
    assert!(result.is_err(), "Table should not be updated");

    let len_after = len(&lobby);
    assert_eq!(len_after, len_before, "Number of tables should remain the same");
}

#[test]
fn remove_table() {
    let mut lobby = Lobby::prepopulated();
    let len_before = len(&lobby);

    let index = 0;
    let prepopulated_table = read_table(&lobby, index);

    // when
    let result = lobby.remove_table(prepopulated_table.id);

    // then
    let removed_table_id = result.expect("Table should be removed");
    assert_eq!(removed_table_id, prepopulated_table.id);

    let len_after = len(&lobby);
    assert_eq!(len_after, len_before - 1, "Number of tables should decrease by one");
}

#[test]
fn not_remove_table_when_table_id_does_not_exist() {
    let mut lobby = Lobby::prepopulated();
    let len_before = len(&lobby);

    // when
    let result = lobby.remove_table(table_id_invalid());

    // then
    assert!(result.is_err(), "Table should not be removed");
    assert_eq!(result, Err(LobbyError::TableNotFound { id: table_id_invalid() }));

    let len_after = len(&lobby);
    assert_eq!(len_after, len_before, "Number of tables should remain the same");
}

#[test]
fn prepopulated_tables_are_seeded_in_order() {
    let lobby = Lobby::prepopulated();
    let tables = lobby.read_tables();
    assert_eq!(tables.len(), 2);
    assert_eq!(tables[0].id, TableId(1));
    assert_eq!(tables[0].name, TableName(String::from("James Bond")));
    assert_eq!(tables[0].participants, 7);
    assert_eq!(tables[1].id, TableId(2));
    assert_eq!(tables[1].name, TableName(String::from("Mission Impossible")));
    assert_eq!(tables[1].participants, 9);
}

#[test]
fn snapshot_reflects_mutation_sequence() {
    // A fresh registry, then a sequence of successful mutations: the final
    // snapshot must show exactly their net effect, in order.
    let mut lobby = Lobby::new();
    assert!(lobby.read_tables().is_empty());

    let a = lobby
        .add_table(
            TableId::absent(),
            TableToAdd { name: TableName(String::from("a")), participants: 1 },
        )
        .expect("first add should succeed");
    let b = lobby
        .add_table(a.id, TableToAdd { name: TableName(String::from("b")), participants: 2 })
        .expect("second add should succeed");
    let c = lobby
        .add_table(
            TableId::absent(),
            TableToAdd { name: TableName(String::from("c")), participants: 3 },
        )
        .expect("third add should succeed");
    // order now: c, a, b
    let updated_a = lobby
        .update_table(Table { id: a.id, name: TableName(String::from("a2")), participants: 9 })
        .expect("update should succeed");
    lobby.remove_table(b.id).expect("remove should succeed");
    // order now: c, updated a

    let snapshot = lobby.read_tables();
    assert_eq!(snapshot.len(), 2);
    assert_eq!(snapshot[0], c);
    assert_eq!(snapshot[1], updated_a);
    assert_eq!(snapshot[1].name, TableName(String::from("a2")));
    assert_eq!(snapshot[1].participants, 9);
    assert_eq!(snapshot[1].id, a.id);
}
