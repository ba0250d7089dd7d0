use tokio::sync::mpsc;

use lobby_api::lobby::Lobby;
use lobby_api::protocol::{
    ClientId, Input, Output, Password, SeqNum, TableId, TableName, TableToAdd, UserType, Username,
};
use lobby_api::service::{apply_action, process, process_input, ClientSessionAction, ProcessResult};
use lobby_api::session::Sessions;

fn login_input(username: &str, password: &str) -> Input {
    Input::Login {
        username: Username(String::from(username)),
        password: Password(String::from(password)),
    }
}

fn table_to_add(name: &str, participants: u64) -> TableToAdd {
    TableToAdd { name: TableName(String::from(name)), participants }
}

#[test]
fn login_as_admin_succeeds_with_admin_role() {
    let mut lobby = Lobby::new();
    let result = process(login_input("admin", "admin"), &None, &mut lobby);
    assert_eq!(result.output, Some(Output::LoginSuccessful { user_type: UserType::Admin }));
    assert_eq!(result.subscription_output, None);
    assert!(matches!(
        result.action,
        ClientSessionAction::UpdateUserType { user_type: Some(UserType::Admin) }
    ));
}

#[test]
fn login_as_user_succeeds_with_user_role() {
    let mut lobby = Lobby::new();
    let result = process(login_input("user", "user"), &None, &mut lobby);
    assert_eq!(result.output, Some(Output::LoginSuccessful { user_type: UserType::User }));
    assert!(matches!(
        result.action,
        ClientSessionAction::UpdateUserType { user_type: Some(UserType::User) }
    ));
}

#[test]
fn login_with_wrong_credentials_fails_and_clears_role() {
    let mut lobby = Lobby::new();
    // even a session that already holds a role loses it on a failed login
    let result = process(login_input("admin", "wrong"), &Some(UserType::Admin), &mut lobby);
    assert_eq!(result.output, Some(Output::LoginFailed));
    assert!(matches!(
        result.action,
        ClientSessionAction::UpdateUserType { user_type: None }
    ));
}

#[test]
fn relogin_may_switch_the_role() {
    let mut lobby = Lobby::new();
    let result = process(login_input("user", "user"), &Some(UserType::Admin), &mut lobby);
    assert_eq!(result.output, Some(Output::LoginSuccessful { user_type: UserType::User }));
    assert!(matches!(
        result.action,
        ClientSessionAction::UpdateUserType { user_type: Some(UserType::User) }
    ));
}

#[test]
fn ping_is_answered_for_authenticated_sessions_only() {
    let mut lobby = Lobby::new();
    let ping = |lobby: &mut Lobby, role: &Option<UserType>| -> ProcessResult {
        process(Input::Ping { seq: SeqNum(12345) }, role, lobby)
    };
    let unauthenticated = ping(&mut lobby, &None);
    assert_eq!(unauthenticated.output, Some(Output::NotAuthenticated));
    let user = ping(&mut lobby, &Some(UserType::User));
    assert_eq!(user.output, Some(Output::Pong { seq: SeqNum(12345) }));
    let admin = ping(&mut lobby, &Some(UserType::Admin));
    assert_eq!(admin.output, Some(Output::Pong { seq: SeqNum(12345) }));
}

#[test]
fn mutations_fail_for_admin_on_unknown_ids_with_direct_replies() {
    let mut lobby = Lobby::new();
    let admin = Some(UserType::Admin);

    let add = process(
        Input::AddTable { after_id: TableId(42), table: table_to_add("x", 1) },
        &admin,
        &mut lobby,
    );
    assert_eq!(add.output, Some(Output::TableAddFailed));
    assert_eq!(add.subscription_output, None);

    let update = process(
        Input::UpdateTable {
            table: lobby_api::protocol::Table {
                id: TableId(42),
                name: TableName(String::from("x")),
                participants: 1,
            },
        },
        &admin,
        &mut lobby,
    );
    assert_eq!(update.output, Some(Output::TableUpdateFailed { id: TableId(42) }));
    assert_eq!(update.subscription_output, None);

    let remove = process(Input::RemoveTable { id: TableId(42) }, &admin, &mut lobby);
    assert_eq!(remove.output, Some(Output::TableRemoveFailed { id: TableId(42) }));
    assert_eq!(remove.subscription_output, None);

    assert!(lobby.read_tables().is_empty(), "failed mutations must not touch the registry");
}

#[test]
fn fresh_user_session_scenario() {
    // fresh session: subscribe while unauthenticated, log in as user,
    // subscribe, then attempt a mutation
    let mut lobby = Lobby::new();
    let mut sessions = Sessions::new();
    let client_id = ClientId::new(1);
    let (client_sender, mut client_receiver) = mpsc::unbounded_channel::<Output>();
    sessions.add(client_id, client_sender);

    // SubscribeTables while unauthenticated
    process_input(client_id, &mut sessions, &mut lobby, Some(Input::SubscribeTables));
    assert_eq!(client_receiver.try_recv(), Ok(Output::NotAuthenticated));
    // subscribed remains false: a broadcast does not reach the session
    let broadcast_result = sessions.broadcast(Output::LoginFailed);
    assert!(broadcast_result.success_client_ids.is_empty());
    assert!(broadcast_result.failure_client_ids.is_empty());
    assert!(client_receiver.try_recv().is_err());

    // Login as user
    process_input(client_id, &mut sessions, &mut lobby, Some(login_input("user", "user")));
    assert_eq!(
        client_receiver.try_recv(),
        Ok(Output::LoginSuccessful { user_type: UserType::User })
    );
    assert_eq!(sessions.read_user_type(client_id), Ok(Some(UserType::User)));

    // SubscribeTables: the reply carries the snapshot (empty here) and the
    // subscription turns on
    process_input(client_id, &mut sessions, &mut lobby, Some(Input::SubscribeTables));
    assert_eq!(client_receiver.try_recv(), Ok(Output::TableList { tables: Vec::new() }));

    // AddTable as a plain user: refused, nothing broadcast, registry unchanged
    process_input(
        client_id,
        &mut sessions,
        &mut lobby,
        Some(Input::AddTable { after_id: TableId::absent(), table: table_to_add("x", 1) }),
    );
    assert_eq!(client_receiver.try_recv(), Ok(Output::NotAuthorized));
    assert!(client_receiver.try_recv().is_err(), "no broadcast may follow");
    assert!(lobby.read_tables().is_empty());
}

#[test]
fn admin_add_scenario_reaches_subscribers_only_by_broadcast() {
    // Admin path: login, subscribe, add a table; the actor gets no direct
    // reply, only the broadcast event of its own subscription
    let mut lobby = Lobby::new();
    let mut sessions = Sessions::new();
    let admin_id = ClientId::new(1);
    let other_id = ClientId::new(2);
    let (admin_sender, mut admin_receiver) = mpsc::unbounded_channel::<Output>();
    let (other_sender, mut other_receiver) = mpsc::unbounded_channel::<Output>();
    sessions.add(admin_id, admin_sender);
    sessions.add(other_id, other_sender);

    process_input(admin_id, &mut sessions, &mut lobby, Some(login_input("admin", "admin")));
    assert_eq!(
        admin_receiver.try_recv(),
        Ok(Output::LoginSuccessful { user_type: UserType::Admin })
    );
    process_input(admin_id, &mut sessions, &mut lobby, Some(Input::SubscribeTables));
    assert_eq!(admin_receiver.try_recv(), Ok(Output::TableList { tables: Vec::new() }));

    // the other session subscribes as user
    process_input(other_id, &mut sessions, &mut lobby, Some(login_input("user", "user")));
    process_input(other_id, &mut sessions, &mut lobby, Some(Input::SubscribeTables));
    assert_eq!(
        other_receiver.try_recv(),
        Ok(Output::LoginSuccessful { user_type: UserType::User })
    );
    assert_eq!(other_receiver.try_recv(), Ok(Output::TableList { tables: Vec::new() }));

    let len_before = lobby.read_tables().len();
    process_input(
        admin_id,
        &mut sessions,
        &mut lobby,
        Some(Input::AddTable { after_id: TableId::absent(), table: table_to_add("x", 4) }),
    );

    let tables = lobby.read_tables();
    assert_eq!(tables.len(), len_before + 1, "registry length increases by one");
    let added = tables[0].clone();

    let expected = Output::TableAdded { after_id: TableId::absent(), table: added };
    // no direct reply: the one message each subscriber sees is the broadcast
    assert_eq!(admin_receiver.try_recv(), Ok(expected.clone()));
    assert!(admin_receiver.try_recv().is_err());
    assert_eq!(other_receiver.try_recv(), Ok(expected));
    assert!(other_receiver.try_recv().is_err());
}

#[test]
fn unsubscribe_stops_broadcasts_without_a_reply() {
    let mut lobby = Lobby::new();
    let mut sessions = Sessions::new();
    let client_id = ClientId::new(1);
    let (client_sender, mut client_receiver) = mpsc::unbounded_channel::<Output>();
    sessions.add(client_id, client_sender);

    process_input(client_id, &mut sessions, &mut lobby, Some(login_input("user", "user")));
    process_input(client_id, &mut sessions, &mut lobby, Some(Input::SubscribeTables));
    client_receiver.try_recv().expect("login reply expected");
    client_receiver.try_recv().expect("table list reply expected");

    process_input(client_id, &mut sessions, &mut lobby, Some(Input::UnsubscribeTables));
    assert!(client_receiver.try_recv().is_err(), "unsubscribing sends no reply payload");

    let broadcast_result = sessions.broadcast(Output::LoginFailed);
    assert!(broadcast_result.success_client_ids.is_empty());
    assert!(client_receiver.try_recv().is_err());
}

#[test]
fn undecodable_message_is_answered_invalid_message() {
    let mut lobby = Lobby::new();
    let mut sessions = Sessions::new();
    let client_id = ClientId::new(1);
    let (client_sender, mut client_receiver) = mpsc::unbounded_channel::<Output>();
    sessions.add(client_id, client_sender);

    process_input(client_id, &mut sessions, &mut lobby, None);

    assert_eq!(client_receiver.try_recv(), Ok(Output::InvalidMessage));
    assert_eq!(sessions.read_user_type(client_id), Ok(None));
    assert!(lobby.read_tables().is_empty());
}

#[test]
fn apply_action_writes_role_and_subscription() {
    let mut sessions = Sessions::new();
    let client_id = ClientId::new(1);
    let (client_sender, _client_receiver) = mpsc::unbounded_channel::<Output>();
    sessions.add(client_id, client_sender);

    apply_action(
        &mut sessions,
        client_id,
        ClientSessionAction::UpdateUserType { user_type: Some(UserType::Admin) },
    );
    assert_eq!(sessions.read_user_type(client_id), Ok(Some(UserType::Admin)));

    apply_action(&mut sessions, client_id, ClientSessionAction::DoNothing);
    assert_eq!(sessions.read_user_type(client_id), Ok(Some(UserType::Admin)));

    apply_action(
        &mut sessions,
        client_id,
        ClientSessionAction::UpdateUserType { user_type: None },
    );
    assert_eq!(sessions.read_user_type(client_id), Ok(None));

    apply_action(
        &mut sessions,
        client_id,
        ClientSessionAction::UpdateSubscribed { subscribed: true },
    );
    let broadcast_result = sessions.broadcast(Output::LoginFailed);
    assert_eq!(broadcast_result.success_client_ids, vec![client_id]);
}
