//! The command dispatcher: a role-gated state machine that decides, for the
//! session's current role and one inbound command, the direct reply, the
//! broadcast event and the session-state change that result, touching the
//! table registry as needed. `dispatch_spec` is the complete mathematical
//! description of that decision; `process` refines it exactly.

use vstd::prelude::*;

use crate::lobby::{add_spec, remove_spec, update_spec, Lobby, LobbyV};
use crate::protocol::{
    ClientId, Input, InputV, Output, OutputV, Password, SeqNum, Table, TableId, TableToAdd,
    TableToAddV, TableV, UserType, Username,
};
use crate::session::{
    client_index, has_client, write_subscribed_spec, write_user_type_spec, SessionV, Sessions,
};

verus! {

/// The change to perform to the client's session after processing one input.
#[derive(Clone, Copy, Debug, Eq, PartialEq)]
pub enum ClientSessionAction {
    DoNothing,
    UpdateUserType { user_type: Option<UserType> },
    UpdateSubscribed { subscribed: bool },
}

/// The result of processing one input: an optional direct reply to the
/// originating session, an optional broadcast event for subscribers, and an
/// optional session-state change. The three are independent.
pub struct ProcessResult {
    pub output: Option<Output>,
    pub subscription_output: Option<Output>,
    pub action: ClientSessionAction,
}

/// Mathematical value of a processing result.
pub ghost struct ProcessResultV {
    pub output: Option<OutputV>,
    pub subscription_output: Option<OutputV>,
    pub action: ClientSessionAction,
}

/// The view of an optional reply.
pub open spec fn output_view(output: Option<Output>) -> Option<OutputV> {
    match output {
        Some(o) => Some(o@),
        None => None,
    }
}

impl View for ProcessResult {
    type V = ProcessResultV;

    open spec fn view(&self) -> ProcessResultV {
        ProcessResultV {
            output: output_view(self.output),
            subscription_output: output_view(self.subscription_output),
            action: self.action,
        }
    }
}

/// A result that only replies directly to the actor: no broadcast, no
/// session-state change.
pub open spec fn reply(output: OutputV) -> ProcessResultV {
    ProcessResultV {
        output: Some(output),
        subscription_output: None,
        action: ClientSessionAction::DoNothing,
    }
}

/// The role that a credential pair earns: exactly two fixed accounts exist,
/// and anything else earns none.
pub open spec fn login_role(username: Seq<char>, password: Seq<char>) -> Option<UserType> {
    if username == "admin"@ && password == "admin"@ {
        Some(UserType::Admin)
    } else if username == "user"@ && password == "user"@ {
        Some(UserType::User)
    } else {
        None
    }
}

/// What a login does, in every state: the role is re-evaluated from scratch
/// and written to the session, successful or not, and the reply names the
/// earned role or reports the failure.
pub open spec fn login_spec(username: Seq<char>, password: Seq<char>) -> ProcessResultV {
    let role = login_role(username, password);
    ProcessResultV {
        output: Some(
            match role {
                Some(user_type) => OutputV::LoginSuccessful { user_type },
                None => OutputV::LoginFailed,
            },
        ),
        subscription_output: None,
        action: ClientSessionAction::UpdateUserType { user_type: role },
    }
}

/// What an unauthenticated session gets: a login is evaluated, everything
/// else is answered `NotAuthenticated` and changes nothing.
pub open spec fn unauthenticated_spec(input: InputV) -> ProcessResultV {
    match input {
        InputV::Login { username, password } => login_spec(username, password),
        _ => reply(OutputV::NotAuthenticated),
    }
}

/// What subscribing does: the reply carries a full snapshot of the current
/// list, and the session's subscription is turned on.
pub open spec fn subscribe_spec(lobby: LobbyV) -> ProcessResultV {
    ProcessResultV {
        output: Some(OutputV::TableList { tables: lobby.tables }),
        subscription_output: None,
        action: ClientSessionAction::UpdateSubscribed { subscribed: true },
    }
}

/// What unsubscribing does: no reply payload, the subscription is turned
/// off.
pub open spec fn unsubscribe_spec() -> ProcessResultV {
    ProcessResultV {
        output: None,
        subscription_output: None,
        action: ClientSessionAction::UpdateSubscribed { subscribed: false },
    }
}

/// What an authenticated non-admin session gets: ping, login and the
/// subscription commands work, and every registry mutation is answered
/// `NotAuthorized` with the registry untouched.
pub open spec fn user_spec(input: InputV, lobby: LobbyV) -> ProcessResultV {
    match input {
        InputV::Ping { seq } => reply(OutputV::Pong { seq }),
        InputV::Login { username, password } => login_spec(username, password),
        InputV::SubscribeTables => subscribe_spec(lobby),
        InputV::UnsubscribeTables => unsubscribe_spec(),
        _ => reply(OutputV::NotAuthorized),
    }
}

/// What an admin's table insertion does: on registry success no direct
/// reply, only the broadcast event carrying the new table; on failure a
/// direct failure reply and no broadcast, with the registry untouched.
pub open spec fn add_table_spec(after_id: int, table: TableToAddV, lobby: LobbyV) -> (
    ProcessResultV,
    LobbyV,
) {
    let (l2, added) = add_spec(lobby, after_id, table);
    match added {
        Some(t) => (
            ProcessResultV {
                output: None,
                subscription_output: Some(OutputV::TableAdded { after_id, table: t }),
                action: ClientSessionAction::DoNothing,
            },
            l2,
        ),
        None => (reply(OutputV::TableAddFailed), lobby),
    }
}

/// What an admin's table update does; same outcome policy as insertion.
pub open spec fn update_table_spec(table: TableV, lobby: LobbyV) -> (ProcessResultV, LobbyV) {
    let (l2, updated) = update_spec(lobby, table);
    match updated {
        Some(t) => (
            ProcessResultV {
                output: None,
                subscription_output: Some(OutputV::TableUpdated { table: t }),
                action: ClientSessionAction::DoNothing,
            },
            l2,
        ),
        None => (reply(OutputV::TableUpdateFailed { id: table.id }), lobby),
    }
}

/// What an admin's table removal does; same outcome policy as insertion.
pub open spec fn remove_table_spec(id: int, lobby: LobbyV) -> (ProcessResultV, LobbyV) {
    let (l2, removed) = remove_spec(lobby, id);
    if removed {
        (
            ProcessResultV {
                output: None,
                subscription_output: Some(OutputV::TableRemoved { id }),
                action: ClientSessionAction::DoNothing,
            },
            l2,
        )
    } else {
        (reply(OutputV::TableRemoveFailed { id }), lobby)
    }
}

/// What an admin session gets: everything a user gets, and the three
/// registry mutations.
pub open spec fn admin_spec(input: InputV, lobby: LobbyV) -> (ProcessResultV, LobbyV) {
    match input {
        InputV::Ping { seq } => (reply(OutputV::Pong { seq }), lobby),
        InputV::Login { username, password } => (login_spec(username, password), lobby),
        InputV::SubscribeTables => (subscribe_spec(lobby), lobby),
        InputV::UnsubscribeTables => (unsubscribe_spec(), lobby),
        InputV::AddTable { after_id, table } => add_table_spec(after_id, table, lobby),
        InputV::UpdateTable { table } => update_table_spec(table, lobby),
        InputV::RemoveTable { id } => remove_table_spec(id, lobby),
    }
}

/// The authorization state machine in one function: what processing one
/// command under one role replies, broadcasts and changes, and the registry
/// state it leaves behind.
pub open spec fn dispatch_spec(user_type: Option<UserType>, input: InputV, lobby: LobbyV) -> (
    ProcessResultV,
    LobbyV,
) {
    match user_type {
        None => (unauthenticated_spec(input), lobby),
        Some(UserType::User) => (user_spec(input, lobby), lobby),
        Some(UserType::Admin) => admin_spec(input, lobby),
    }
}

/// Law: the two fixed accounts earn exactly their roles, any other pair
/// earns none, and a login in any state overwrites the session's role with
/// the (possibly empty) outcome of the new evaluation — a failed login
/// clears a previously held role. The reply reports success with the earned
/// role, or the failure.
pub proof fn lemma_login_rules(
    username: Seq<char>,
    password: Seq<char>,
    user_type: Option<UserType>,
    lobby: LobbyV,
)
    ensures
        login_role("admin"@, "admin"@) == Some(UserType::Admin),
        login_role("user"@, "user"@) == Some(UserType::User),
        !(username == "admin"@ && password == "admin"@) && !(username == "user"@ && password
            == "user"@) ==> login_role(username, password) is None,
        dispatch_spec(user_type, InputV::Login { username, password }, lobby) == (
            login_spec(username, password),
            lobby,
        ),
        login_spec(username, password).action == (ClientSessionAction::UpdateUserType {
            user_type: login_role(username, password),
        }),
        login_role(username, password) matches Some(role) ==> login_spec(
            username,
            password,
        ).output == Some(OutputV::LoginSuccessful { user_type: role }),
        login_role(username, password) is None ==> login_spec(username, password).output == Some(
            OutputV::LoginFailed,
        ),
{
    reveal_strlit("admin");
    reveal_strlit("user");
    assert("admin"@.len() == 5);
    assert("user"@.len() == 4);
}

/// Processes one command under the session's current role; the result and
/// the registry it leaves behind are exactly what `dispatch_spec` names.
pub fn process(input: Input, user_type: &Option<UserType>, lobby: &mut Lobby) -> (r: ProcessResult)
    requires
        old(lobby)@.wf(),
        old(lobby)@.next_id < isize::MAX,
    ensures
        final(lobby)@.wf(),
        r@ == dispatch_spec(*user_type, input@, old(lobby)@).0,
        final(lobby)@ == dispatch_spec(*user_type, input@, old(lobby)@).1,
{
    match user_type {
        None => process_unathenticated(input),
        Some(UserType::User) => process_user(input, lobby),
        Some(UserType::Admin) => process_admin(input, lobby),
    }
}

fn process_unathenticated(input: Input) -> (r: ProcessResult)
    ensures
        r@ == unauthenticated_spec(input@),
{
    match input {
        Input::Login { username, password } => login(username, password),
        _ => ProcessResult {
            output: Some(Output::NotAuthenticated),
            subscription_output: None,
            action: ClientSessionAction::DoNothing,
        },
    }
}

fn process_user(input: Input, lobby: &Lobby) -> (r: ProcessResult)
    ensures
        r@ == user_spec(input@, lobby@),
{
    match input {
        Input::Ping { seq } => ping(seq),
        Input::Login { username, password } => login(username, password),
        Input::SubscribeTables => subscribe(lobby),
        Input::UnsubscribeTables => unsubscribe(),
        _ => ProcessResult {
            output: Some(Output::NotAuthorized),
            subscription_output: None,
            action: ClientSessionAction::DoNothing,
        },
    }
}

fn process_admin(input: Input, lobby: &mut Lobby) -> (r: ProcessResult)
    requires
        old(lobby)@.wf(),
        old(lobby)@.next_id < isize::MAX,
    ensures
        final(lobby)@.wf(),
        r@ == admin_spec(input@, old(lobby)@).0,
        final(lobby)@ == admin_spec(input@, old(lobby)@).1,
{
    match input {
        Input::Ping { seq } => ping(seq),
        Input::Login { username, password } => login(username, password),
        Input::SubscribeTables => subscribe(lobby),
        Input::UnsubscribeTables => unsubscribe(),
        Input::AddTable { after_id, table } => add_table(after_id, table, lobby),
        Input::UpdateTable { table } => update_table(table, lobby),
        Input::RemoveTable { id } => remove_table(id, lobby),
    }
}

fn ping(seq: SeqNum) -> (r: ProcessResult)
    ensures
        r@ == reply(OutputV::Pong { seq }),
{
    ProcessResult {
        output: Some(Output::Pong { seq }),
        subscription_output: None,
        action: ClientSessionAction::DoNothing,
    }
}

fn login(username: Username, password: Password) -> (r: ProcessResult)
    ensures
        r@ == login_spec(username.0@, password.0@),
{
    let admin = String::from_str("admin");
    let user = String::from_str("user");
    let user_type: Option<UserType> = if username.0 == admin && password.0 == admin {
        Some(UserType::Admin)
    } else if username.0 == user && password.0 == user {
        Some(UserType::User)
    } else {
        None
    };
    let output = match user_type {
        None => Output::LoginFailed,
        Some(user_type) => Output::LoginSuccessful { user_type },
    };
    ProcessResult {
        output: Some(output),
        subscription_output: None,
        action: ClientSessionAction::UpdateUserType { user_type },
    }
}

fn subscribe(lobby: &Lobby) -> (r: ProcessResult)
    ensures
        r@ == subscribe_spec(lobby@),
{
    let tables = lobby.read_tables();
    ProcessResult {
        output: Some(Output::TableList { tables }),
        subscription_output: None,
        action: ClientSessionAction::UpdateSubscribed { subscribed: true },
    }
}

fn unsubscribe() -> (r: ProcessResult)
    ensures
        r@ == unsubscribe_spec(),
{
    ProcessResult {
        output: None,
        subscription_output: None,
        action: ClientSessionAction::UpdateSubscribed { subscribed: false },
    }
}

fn add_table(after_id: TableId, table_to_add: TableToAdd, lobby: &mut Lobby) -> (r: ProcessResult)
    requires
        old(lobby)@.wf(),
        old(lobby)@.next_id < isize::MAX,
    ensures
        final(lobby)@.wf(),
        r@ == add_table_spec(after_id.0 as int, table_to_add@, old(lobby)@).0,
        final(lobby)@ == add_table_spec(after_id.0 as int, table_to_add@, old(lobby)@).1,
{
    match lobby.add_table(after_id, table_to_add) {
        Ok(table) => ProcessResult {
            output: None,
            subscription_output: Some(Output::TableAdded { after_id, table }),
            action: ClientSessionAction::DoNothing,
        },
        Err(_) => ProcessResult {
            output: Some(Output::TableAddFailed),
            subscription_output: None,
            action: ClientSessionAction::DoNothing,
        },
    }
}

fn update_table(table_to_update: Table, lobby: &mut Lobby) -> (r: ProcessResult)
    requires
        old(lobby)@.wf(),
    ensures
        final(lobby)@.wf(),
        r@ == update_table_spec(table_to_update@, old(lobby)@).0,
        final(lobby)@ == update_table_spec(table_to_update@, old(lobby)@).1,
{
    let id = table_to_update.id;
    match lobby.update_table(table_to_update) {
        Ok(table) => ProcessResult {
            output: None,
            subscription_output: Some(Output::TableUpdated { table }),
            action: ClientSessionAction::DoNothing,
        },
        Err(_) => ProcessResult {
            output: Some(Output::TableUpdateFailed { id }),
            subscription_output: None,
            action: ClientSessionAction::DoNothing,
        },
    }
}

fn remove_table(id: TableId, lobby: &mut Lobby) -> (r: ProcessResult)
    requires
        old(lobby)@.wf(),
    ensures
        final(lobby)@.wf(),
        r@ == remove_table_spec(id.0 as int, old(lobby)@).0,
        final(lobby)@ == remove_table_spec(id.0 as int, old(lobby)@).1,
{
    match lobby.remove_table(id) {
        Ok(removed_id) => ProcessResult {
            output: None,
            subscription_output: Some(Output::TableRemoved { id: removed_id }),
            action: ClientSessionAction::DoNothing,
        },
        Err(_) => ProcessResult {
            output: Some(Output::TableRemoveFailed { id }),
            subscription_output: None,
            action: ClientSessionAction::DoNothing,
        },
    }
}

/// What applying a session-state change does to the directory.
pub open spec fn apply_action_spec(
    s: Seq<SessionV>,
    client_id: ClientId,
    action: ClientSessionAction,
) -> Seq<SessionV> {
    match action {
        ClientSessionAction::DoNothing => s,
        ClientSessionAction::UpdateUserType { user_type } => write_user_type_spec(
            s,
            client_id,
            user_type,
        ),
        ClientSessionAction::UpdateSubscribed { subscribed } => write_subscribed_spec(
            s,
            client_id,
            subscribed,
        ),
    }
}

/// Applies the session-state change a dispatch decided to the client's
/// session; a change aimed at a client that disconnected meanwhile is
/// dropped.
pub fn apply_action(sessions: &mut Sessions, client_id: ClientId, action: ClientSessionAction)
    requires
        old(sessions).wf(),
    ensures
        final(sessions).wf(),
        final(sessions)@ == apply_action_spec(old(sessions)@, client_id, action),
{
    match action {
        ClientSessionAction::DoNothing => {},
        ClientSessionAction::UpdateUserType { user_type } => {
            let _ = sessions.write_user_type(client_id, user_type);
        },
        ClientSessionAction::UpdateSubscribed { subscribed } => {
            let _ = sessions.write_subscribed(client_id, subscribed);
        },
    }
}

/// The view of an optionally decoded command; `None` stands for a transport
/// message that did not decode.
pub open spec fn input_view(input: Option<Input>) -> Option<InputV> {
    match input {
        Some(i) => Some(i@),
        None => None,
    }
}

/// The directory and registry states that processing one inbound transport
/// event leaves behind: an undecodable message and an unknown client change
/// nothing; otherwise the dispatch decides and its session-state change is
/// applied.
pub open spec fn process_input_spec(
    s: Seq<SessionV>,
    l: LobbyV,
    client_id: ClientId,
    input: Option<InputV>,
) -> (Seq<SessionV>, LobbyV) {
    match input {
        None => (s, l),
        Some(i) => if has_client(s, client_id) {
            let role = s[client_index(s, client_id)].user_type;
            let (pr, l2) = dispatch_spec(role, i, l);
            (apply_action_spec(s, client_id, pr.action), l2)
        } else {
            (s, l)
        },
    }
}

/// Processes one inbound transport event for a client: an undecodable
/// message (`None`) is answered `InvalidMessage`; a decoded command is
/// dispatched under the client's current role, the direct reply (if any) is
/// sent to the client, the broadcast event (if any) goes to all subscribers,
/// and the session-state change (if any) is applied, in that order.
pub fn process_input(
    client_id: ClientId,
    sessions: &mut Sessions,
    lobby: &mut Lobby,
    input: Option<Input>,
)
    requires
        old(sessions).wf(),
        old(lobby)@.wf(),
        old(lobby)@.next_id < isize::MAX,
    ensures
        final(sessions).wf(),
        final(lobby)@.wf(),
        (final(sessions)@, final(lobby)@) == process_input_spec(
            old(sessions)@,
            old(lobby)@,
            client_id,
            input_view(input),
        ),
{
    match input {
        Some(input) => {
            match sessions.read_user_type(client_id) {
                Ok(user_type) => {
                    let process_result = process(input, &user_type, lobby);
                    if let Some(output) = process_result.output {
                        let _ = sessions.send(client_id, output);
                    }
                    if let Some(subscription_output) = process_result.subscription_output {
                        let _ = sessions.broadcast(subscription_output);
                    }
                    apply_action(sessions, client_id, process_result.action);
                },
                Err(_) => {},
            }
        },
        None => {
            let _ = sessions.send(client_id, Output::InvalidMessage);
        },
    }
}

} // verus!
