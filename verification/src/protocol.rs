//! Shared data model: identifiers, tables, roles, and the command and reply
//! vocabulary exchanged with clients. Each executable type has a mathematical
//! view over `int` and `Seq<char>`, and the contracts of the registry, the
//! session directory and the dispatcher are stated over those views.

use vstd::prelude::*;

verus! {

/// Sequence number carried by ping commands and echoed by pong replies.
#[derive(Clone, Copy, Debug, Hash, Eq, PartialEq, Structural)]
pub struct SeqNum(pub u64);

#[derive(Debug, Hash, Eq, PartialEq)]
pub struct Username(pub String);

#[derive(Debug, Hash, Eq, PartialEq)]
pub struct Password(pub String);

/// The table id that never identifies a real table: as the predecessor
/// argument of an insertion it means "insert at the head of the list".
pub const ABSENT_ID: isize = -1;

#[derive(Clone, Copy, Debug, Hash, Eq, PartialEq, Structural)]
pub struct TableId(pub isize);

impl TableId {
    pub fn new(value: isize) -> (r: Self)
        ensures
            r.0 == value,
    {
        TableId(value)
    }

    /// The sentinel id meaning "no predecessor" (see [`ABSENT_ID`]).
    pub fn absent() -> (r: Self)
        ensures
            r.0 == ABSENT_ID,
    {
        TableId(ABSENT_ID)
    }
}

/// Identity of one client connection.
#[derive(Clone, Copy, Debug, Hash, Eq, PartialEq, Structural)]
pub struct ClientId(pub usize);

impl ClientId {
    pub fn new(value: usize) -> (r: Self)
        ensures
            r.0 == value,
    {
        ClientId(value)
    }
}

#[derive(Debug, Hash, Eq, PartialEq)]
pub struct TableName(pub String);

impl Clone for TableName {
    fn clone(&self) -> (r: Self)
        ensures
            r == *self,
    {
        TableName(self.0.clone())
    }
}

/// Mathematical value of a table: its id as an integer, its display name as a
/// character sequence, and its participant count.
pub ghost struct TableV {
    pub id: int,
    pub name: Seq<char>,
    pub participants: u64,
}

#[derive(Debug, Hash, Eq, PartialEq)]
pub struct Table {
    pub id: TableId,
    pub name: TableName,
    pub participants: u64,
}

impl View for Table {
    type V = TableV;

    open spec fn view(&self) -> TableV {
        TableV { id: self.id.0 as int, name: self.name.0@, participants: self.participants }
    }
}

impl Clone for Table {
    fn clone(&self) -> (r: Self)
        ensures
            r == *self,
    {
        Table { id: self.id, name: self.name.clone(), participants: self.participants }
    }
}

impl Table {
    /// Overwrites every field of this table with the other table's fields,
    /// excluding the id, which is immutable after creation.
    pub fn update_with(&mut self, other: Table)
        ensures
            final(self)@ == (TableV {
                id: old(self)@.id,
                name: other@.name,
                participants: other@.participants,
            }),
    {
        self.name = other.name;
        self.participants = other.participants;
    }
}

/// Mathematical value of a creation payload: no id, the registry assigns one.
pub ghost struct TableToAddV {
    pub name: Seq<char>,
    pub participants: u64,
}

#[derive(Debug, Hash, Eq, PartialEq)]
pub struct TableToAdd {
    pub name: TableName,
    pub participants: u64,
}

impl View for TableToAdd {
    type V = TableToAddV;

    open spec fn view(&self) -> TableToAddV {
        TableToAddV { name: self.name.0@, participants: self.participants }
    }
}

impl Clone for TableToAdd {
    fn clone(&self) -> (r: Self)
        ensures
            r == *self,
    {
        TableToAdd { name: self.name.clone(), participants: self.participants }
    }
}

impl TableToAdd {
    /// Builds the table that this payload describes, under the given id.
    pub fn into_table(self, id: TableId) -> (r: Table)
        ensures
            r@ == (TableV { id: id.0 as int, name: self@.name, participants: self@.participants }),
    {
        Table { id, name: self.name, participants: self.participants }
    }
}

/// Authorization level of an authenticated session.
#[derive(Clone, Copy, Debug, Hash, Eq, PartialEq, Structural)]
pub enum UserType {
    User,
    Admin,
}

/// Commands consumed by the dispatcher.
#[derive(Debug, Hash, Eq, PartialEq)]
#[allow(inconsistent_fields)]
pub enum Input {
    Ping { seq: SeqNum },
    Login { username: Username, password: Password },
    SubscribeTables,
    UnsubscribeTables,
    AddTable { after_id: TableId, table: TableToAdd },
    UpdateTable { table: Table },
    RemoveTable { id: TableId },
}

/// Mathematical value of a command.
#[allow(inconsistent_fields)]
pub ghost enum InputV {
    Ping { seq: SeqNum },
    Login { username: Seq<char>, password: Seq<char> },
    SubscribeTables,
    UnsubscribeTables,
    AddTable { after_id: int, table: TableToAddV },
    UpdateTable { table: TableV },
    RemoveTable { id: int },
}

impl View for Input {
    type V = InputV;

    open spec fn view(&self) -> InputV {
        match *self {
            Input::Ping { seq } => InputV::Ping { seq },
            Input::Login { ref username, ref password } => InputV::Login {
                username: username.0@,
                password: password.0@,
            },
            Input::SubscribeTables => InputV::SubscribeTables,
            Input::UnsubscribeTables => InputV::UnsubscribeTables,
            Input::AddTable { after_id, ref table } => InputV::AddTable {
                after_id: after_id.0 as int,
                table: table@,
            },
            Input::UpdateTable { ref table } => InputV::UpdateTable { table: table@ },
            Input::RemoveTable { id } => InputV::RemoveTable { id: id.0 as int },
        }
    }
}

/// The views of the tables held in a vector, in order.
pub open spec fn tables_view(tables: Seq<Table>) -> Seq<TableV> {
    tables.map_values(|t: Table| t@)
}

/// Replies and broadcast events produced by the dispatcher.
#[derive(Debug, Hash, Eq, PartialEq)]
pub enum Output {
    LoginSuccessful { user_type: UserType },
    LoginFailed,
    Pong { seq: SeqNum },
    TableList { tables: Vec<Table> },
    TableAdded { after_id: TableId, table: Table },
    TableUpdated { table: Table },
    TableRemoved { id: TableId },
    TableAddFailed,
    TableUpdateFailed { id: TableId },
    TableRemoveFailed { id: TableId },
    NotAuthorized,
    NotAuthenticated,
    InvalidMessage,
}

/// Mathematical value of a reply or broadcast event.
pub ghost enum OutputV {
    LoginSuccessful { user_type: UserType },
    LoginFailed,
    Pong { seq: SeqNum },
    TableList { tables: Seq<TableV> },
    TableAdded { after_id: int, table: TableV },
    TableUpdated { table: TableV },
    TableRemoved { id: int },
    TableAddFailed,
    TableUpdateFailed { id: int },
    TableRemoveFailed { id: int },
    NotAuthorized,
    NotAuthenticated,
    InvalidMessage,
}

impl View for Output {
    type V = OutputV;

    open spec fn view(&self) -> OutputV {
        match *self {
            Output::LoginSuccessful { user_type } => OutputV::LoginSuccessful { user_type },
            Output::LoginFailed => OutputV::LoginFailed,
            Output::Pong { seq } => OutputV::Pong { seq },
            Output::TableList { ref tables } => OutputV::TableList {
                tables: tables_view(tables@),
            },
            Output::TableAdded { after_id, ref table } => OutputV::TableAdded {
                after_id: after_id.0 as int,
                table: table@,
            },
            Output::TableUpdated { ref table } => OutputV::TableUpdated { table: table@ },
            Output::TableRemoved { id } => OutputV::TableRemoved { id: id.0 as int },
            Output::TableAddFailed => OutputV::TableAddFailed,
            Output::TableUpdateFailed { id } => OutputV::TableUpdateFailed { id: id.0 as int },
            Output::TableRemoveFailed { id } => OutputV::TableRemoveFailed { id: id.0 as int },
            Output::NotAuthorized => OutputV::NotAuthorized,
            Output::NotAuthenticated => OutputV::NotAuthenticated,
            Output::InvalidMessage => OutputV::InvalidMessage,
        }
    }
}

impl Clone for Output {
    fn clone(&self) -> (r: Self)
        ensures
            r@ == self@,
    {
        match *self {
            Output::LoginSuccessful { user_type } => Output::LoginSuccessful { user_type },
            Output::LoginFailed => Output::LoginFailed,
            Output::Pong { seq } => Output::Pong { seq },
            Output::TableList { ref tables } => {
                let copied = tables.clone();
                proof {
                    assert(copied@ =~= tables@);
                }
                Output::TableList { tables: copied }
            },
            Output::TableAdded { after_id, ref table } => Output::TableAdded {
                after_id,
                table: table.clone(),
            },
            Output::TableUpdated { ref table } => Output::TableUpdated { table: table.clone() },
            Output::TableRemoved { id } => Output::TableRemoved { id },
            Output::TableAddFailed => Output::TableAddFailed,
            Output::TableUpdateFailed { id } => Output::TableUpdateFailed { id },
            Output::TableRemoveFailed { id } => Output::TableRemoveFailed { id },
            Output::NotAuthorized => Output::NotAuthorized,
            Output::NotAuthenticated => Output::NotAuthenticated,
            Output::InvalidMessage => Output::InvalidMessage,
        }
    }
}

} // verus!
