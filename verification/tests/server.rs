use record_sync::delivery::Delivery;
use record_sync::message::{Inbound, Request, Response};
use record_sync::record::User;
use record_sync::server::Server;

fn member(id: &str, username: &str) -> User {
    User {
        id: id.to_string(),
        username: username.to_string(),
        password: "pw".to_string(),
        profile_image: "img".to_string(),
        joined_date: "2024-06-01".to_string(),
    }
}

fn add(data: User) -> Inbound {
    Inbound::Request(Request::Add { data })
}

fn edit(id: &str, data: User) -> Inbound {
    Inbound::Request(Request::Edit { id: id.to_string(), data })
}

fn delete(id: &str) -> Inbound {
    Inbound::Request(Request::Delete { id: id.to_string() })
}

#[test]
fn connect_assigns_fresh_monotonic_identities() {
    let mut server = Server::new();
    let a = server.client_connected();
    let b = server.client_connected();
    assert_eq!(a, 1);
    assert_eq!(b, 2);
    server.client_disconnected(a);
    let c = server.client_connected();
    assert_eq!(c, 3);
}

#[test]
fn get_answers_the_requester_alone() {
    let mut server = Server::new();
    let a = server.client_connected();
    let _b = server.client_connected();
    let ds = server.client_message(a, add(member("1", "alice")));
    assert_eq!(ds.len(), 2);
    let ds = server.client_message(a, Inbound::Request(Request::Get));
    assert_eq!(ds.len(), 1);
    assert_eq!(ds[0].target, a);
    assert_eq!(ds[0].message, Response::Reload { data: vec![member("1", "alice")] });
}

#[test]
fn create_broadcasts_append_to_everyone() {
    let mut server = Server::new();
    let a = server.client_connected();
    let b = server.client_connected();
    let c = server.client_connected();
    let ds = server.client_message(a, add(member("1", "alice")));
    assert_eq!(ds.len(), 3);
    for (d, id) in ds.iter().zip([a, b, c]) {
        assert_eq!(d.target, id);
        assert_eq!(d.message, Response::Append { data: member("1", "alice") });
    }
    assert_eq!(server.list().len(), 1);
}

#[test]
fn duplicate_create_errors_to_sender_alone() {
    let mut server = Server::new();
    let a = server.client_connected();
    let b = server.client_connected();
    let _ = server.client_message(a, add(member("1", "alice")));
    let ds = server.client_message(b, add(member("1", "impostor")));
    assert_eq!(ds.len(), 1);
    assert_eq!(ds[0].target, b);
    assert_eq!(
        ds[0].message,
        Response::Error { message: "User with ID '1' already exists".to_string() }
    );
    let listed = server.list();
    assert_eq!(listed.len(), 1);
    assert_eq!(listed[0].username, "alice");
}

#[test]
fn edit_broadcasts_reload_of_the_new_snapshot() {
    let mut server = Server::new();
    let a = server.client_connected();
    let b = server.client_connected();
    let _ = server.client_message(a, add(member("1", "alice")));
    let ds = server.client_message(a, edit("1", member("x", "new")));
    assert_eq!(ds.len(), 2);
    let expected = Response::Reload { data: vec![member("1", "new")] };
    for (d, id) in ds.iter().zip([a, b]) {
        assert_eq!(d.target, id);
        assert_eq!(d.message, expected);
    }
    let listed = server.list();
    assert_eq!(listed.len(), 1);
    assert_eq!(listed[0].id, "1");
    assert_eq!(listed[0].username, "new");
}

#[test]
fn edit_of_missing_id_errors_to_sender_and_keeps_store() {
    let mut server = Server::new();
    let a = server.client_connected();
    let _b = server.client_connected();
    let _ = server.client_message(a, add(member("1", "alice")));
    let before = server.list();
    let ds = server.client_message(a, edit("9", member("9", "ghost")));
    assert_eq!(ds.len(), 1);
    assert_eq!(ds[0].target, a);
    assert_eq!(
        ds[0].message,
        Response::Error { message: "Cannot find user with ID '9'".to_string() }
    );
    assert_eq!(server.list(), before);
}

#[test]
fn delete_broadcasts_reload_of_the_new_snapshot() {
    let mut server = Server::new();
    let a = server.client_connected();
    let b = server.client_connected();
    let _ = server.client_message(a, add(member("1", "alice")));
    let _ = server.client_message(a, add(member("2", "bob")));
    let ds = server.client_message(b, delete("1"));
    assert_eq!(ds.len(), 2);
    let expected = Response::Reload { data: vec![member("2", "bob")] };
    for (d, id) in ds.iter().zip([a, b]) {
        assert_eq!(d.target, id);
        assert_eq!(d.message, expected);
    }
}

#[test]
fn delete_of_missing_id_errors_to_sender_and_keeps_store() {
    let mut server = Server::new();
    let a = server.client_connected();
    let before = server.list();
    let ds = server.client_message(a, delete("9"));
    assert_eq!(ds.len(), 1);
    assert_eq!(ds[0].target, a);
    assert_eq!(
        ds[0].message,
        Response::Error { message: "Cannot find user with ID '9'".to_string() }
    );
    assert_eq!(server.list(), before);
}

#[test]
fn non_text_frame_is_rejected_to_sender_alone() {
    let mut server = Server::new();
    let a = server.client_connected();
    let _b = server.client_connected();
    let ds = server.client_message(a, Inbound::NonText);
    assert_eq!(ds.len(), 1);
    assert_eq!(ds[0].target, a);
    assert_eq!(ds[0].message, Response::Error { message: "Invalid request type".to_string() });
}

#[test]
fn malformed_text_is_rejected_to_sender_alone() {
    let mut server = Server::new();
    let a = server.client_connected();
    let ds = server.client_message(a, Inbound::Malformed);
    assert_eq!(ds.len(), 1);
    assert_eq!(ds[0].target, a);
    assert_eq!(ds[0].message, Response::Error { message: "Invalid request format".to_string() });
}

#[test]
fn message_from_unregistered_sender_is_dropped() {
    let mut server = Server::new();
    let a = server.client_connected();
    server.client_disconnected(a);
    let ds = server.client_message(a, Inbound::NonText);
    assert_eq!(ds.len(), 0);
}

#[test]
fn broadcast_after_disconnect_reaches_everyone_remaining() {
    let mut server = Server::new();
    let a = server.client_connected();
    let b = server.client_connected();
    let c = server.client_connected();
    let _ = server.client_message(a, add(member("1", "alice")));
    server.client_disconnected(b);
    let ds = server.client_message(c, edit("1", member("1", "renamed")));
    let targets: Vec<u64> = ds.iter().map(|d: &Delivery| d.target).collect();
    assert_eq!(targets, vec![a, c]);
}

#[test]
fn full_scenario_add_duplicate_then_edit() {
    let mut server = Server::new();
    let a = server.client_connected();
    let b = server.client_connected();

    let ds = server.client_message(a, add(member("1", "alice")));
    assert_eq!(ds.len(), 2);
    for d in &ds {
        assert_eq!(d.message, Response::Append { data: member("1", "alice") });
    }
    assert_eq!(server.list().len(), 1);

    let ds = server.client_message(b, add(member("1", "other")));
    assert_eq!(ds.len(), 1);
    assert_eq!(ds[0].target, b);
    assert!(matches!(ds[0].message, Response::Error { .. }));
    assert_eq!(server.list().len(), 1);

    let ds = server.client_message(a, edit("1", member("x", "new")));
    assert_eq!(ds.len(), 2);
    for d in &ds {
        match &d.message {
            Response::Reload { data } => {
                assert_eq!(data.len(), 1);
                assert_eq!(data[0].id, "1");
                assert_eq!(data[0].username, "new");
            },
            other => panic!("expected a reload, got {:?}", other),
        }
    }
}
