use shared_tier_list::object_id::ObjectId;
use shared_tier_list::registry::{Polled, SessionRegistry};
use shared_tier_list::ws::{Action, Connection, Delivery, Dropped};
use shared_tier_list::ws_types::{ClientMessage, ProjectContentsResponse};

fn id(last: u8) -> ObjectId {
    ObjectId::from_bytes([0x50, 0x7f, 0x1f, 0x77, 0xbc, 0xf8, 0x6c, 0xd7, 0x99, 0x43, 0x90, last])
}

fn contents(tier: &str, carousel: &str) -> ProjectContentsResponse {
    ProjectContentsResponse {
        tier_container_html: tier.to_string(),
        image_carousel_html: carousel.to_string(),
    }
}

fn open_frame(project: ObjectId) -> String {
    format!("{{\"action\":\"open_project\",\"project_id\":\"{}\"}}", project.to_hex())
}

fn edit_frame(tier: &str, carousel: &str) -> String {
    format!(
        "{{\"action\":\"edit_project\",\"tier_container_html\":\"{}\",\"image_carousel_html\":\"{}\"}}",
        tier, carousel
    )
}

fn follow(connection: &mut Connection, registry: &mut SessionRegistry, project: ObjectId, stored: ProjectContentsResponse) {
    assert!(matches!(connection.receive(&open_frame(project)), Action::CheckMembership { .. }));
    assert!(matches!(connection.check_project_permissions(Some(true)), Action::ReadProject { .. }));
    assert!(matches!(connection.open_project(registry, Some(stored)), Action::Subscribed { .. }));
}

fn drain(connection: &mut Connection) -> Vec<ProjectContentsResponse> {
    let mut seen = Vec::new();
    loop {
        match connection.next_payload() {
            Delivery::Payload(payload) => seen.push(payload),
            Delivery::Skipped(_) => {}
            Delivery::Idle | Delivery::Detached => return seen,
        }
    }
}

#[test]
fn fresh_connection_follows_nothing() {
    let mut connection = Connection::new(id(1));
    assert_eq!(connection.user_id(), id(1));
    assert_eq!(connection.project_id(), None);
    assert!(!connection.is_closed());
    assert!(matches!(connection.next_payload(), Delivery::Detached));
}

#[test]
fn open_asks_for_membership_then_content_then_subscribes() {
    let mut registry = SessionRegistry::new();
    let mut connection = Connection::new(id(1));
    match connection.receive(&open_frame(id(9))) {
        Action::CheckMembership { user_id, project_id } => {
            assert_eq!(user_id, id(1));
            assert_eq!(project_id, id(9));
        }
        other => panic!("{:?}", other),
    }
    assert_eq!(connection.project_id(), None);
    match connection.check_project_permissions(Some(true)) {
        Action::ReadProject { project_id } => assert_eq!(project_id, id(9)),
        other => panic!("{:?}", other),
    }
    assert_eq!(registry.len(), 0);
    match connection.open_project(&mut registry, Some(contents("t", "c"))) {
        Action::Subscribed { project_id, delivered } => {
            assert_eq!(project_id, id(9));
            assert_eq!(delivered, Some(1));
        }
        other => panic!("{:?}", other),
    }
    assert_eq!(connection.project_id(), Some(id(9)));
    assert_eq!(registry.len(), 1);
    assert_eq!(registry.subscriber_count(id(9)), 1);
    assert_eq!(drain(&mut connection), vec![contents("t", "c")]);
}

#[test]
fn non_member_is_never_subscribed() {
    let mut registry = SessionRegistry::new();
    let mut member = Connection::new(id(1));
    follow(&mut member, &mut registry, id(9), contents("t", "c"));
    assert_eq!(drain(&mut member).len(), 1);

    for answer in [Some(false), None] {
        let mut stranger = Connection::new(id(2));
        assert!(matches!(stranger.receive(&open_frame(id(9))), Action::CheckMembership { .. }));
        assert!(matches!(
            stranger.check_project_permissions(answer),
            Action::Dropped(Dropped::AuthorizationDenied)
        ));
        assert!(matches!(
            stranger.open_project(&mut registry, Some(contents("t", "c"))),
            Action::Dropped(Dropped::Unexpected)
        ));
        assert_eq!(stranger.project_id(), None);
        assert!(matches!(stranger.next_payload(), Delivery::Detached));
        assert_eq!(registry.subscriber_count(id(9)), 1);
        assert!(drain(&mut member).is_empty());
        assert!(matches!(stranger.receive(&open_frame(id(9))), Action::CheckMembership { .. }));
    }
}

#[test]
fn edit_reaches_followers_of_its_project_only() {
    let mut registry = SessionRegistry::new();
    let mut a = Connection::new(id(1));
    let mut b = Connection::new(id(2));
    let mut c = Connection::new(id(3));
    follow(&mut a, &mut registry, id(9), contents("t0", "c0"));
    follow(&mut b, &mut registry, id(9), contents("t0", "c0"));
    follow(&mut c, &mut registry, id(8), contents("u0", "d0"));
    drain(&mut a);
    drain(&mut b);
    drain(&mut c);

    match a.receive(&edit_frame("X", "Y")) {
        Action::CheckMembership { user_id, project_id } => {
            assert_eq!(user_id, id(1));
            assert_eq!(project_id, id(9));
        }
        other => panic!("{:?}", other),
    }
    match a.check_project_permissions(Some(true)) {
        Action::WriteProject { project_id, contents: written } => {
            assert_eq!(project_id, id(9));
            assert_eq!(written, contents("X", "Y"));
        }
        other => panic!("{:?}", other),
    }
    match a.edit_project(&mut registry, true) {
        Action::Published { project_id, delivered } => {
            assert_eq!(project_id, id(9));
            assert_eq!(delivered, Some(2));
        }
        other => panic!("{:?}", other),
    }
    assert_eq!(drain(&mut a), vec![contents("X", "Y")]);
    assert_eq!(drain(&mut b), vec![contents("X", "Y")]);
    assert!(drain(&mut c).is_empty());
    assert_eq!(registry.subscriber_count(id(9)), 2);
    assert_eq!(registry.subscriber_count(id(8)), 1);
}

#[test]
fn unsaved_edit_is_not_published() {
    let mut registry = SessionRegistry::new();
    let mut a = Connection::new(id(1));
    let mut b = Connection::new(id(2));
    follow(&mut a, &mut registry, id(9), contents("t0", "c0"));
    follow(&mut b, &mut registry, id(9), contents("t0", "c0"));
    drain(&mut a);
    drain(&mut b);

    assert!(matches!(a.receive(&edit_frame("X", "Y")), Action::CheckMembership { .. }));
    assert!(matches!(a.check_project_permissions(Some(true)), Action::WriteProject { .. }));
    assert!(matches!(
        a.edit_project(&mut registry, false),
        Action::Dropped(Dropped::PersistenceFailure)
    ));
    assert!(drain(&mut a).is_empty());
    assert!(drain(&mut b).is_empty());
    assert_eq!(a.project_id(), Some(id(9)));
    assert!(matches!(a.receive(&edit_frame("X", "Y")), Action::CheckMembership { .. }));
}

#[test]
fn refused_edit_is_neither_written_nor_published() {
    let mut registry = SessionRegistry::new();
    let mut a = Connection::new(id(1));
    let mut b = Connection::new(id(2));
    follow(&mut a, &mut registry, id(9), contents("t0", "c0"));
    follow(&mut b, &mut registry, id(9), contents("t0", "c0"));
    drain(&mut a);
    drain(&mut b);

    assert!(matches!(a.receive(&edit_frame("X", "Y")), Action::CheckMembership { .. }));
    assert!(matches!(
        a.check_project_permissions(Some(false)),
        Action::Dropped(Dropped::AuthorizationDenied)
    ));
    assert!(matches!(a.edit_project(&mut registry, true), Action::Dropped(Dropped::Unexpected)));
    assert!(drain(&mut b).is_empty());
}

#[test]
fn edit_without_a_project_is_dropped() {
    let mut connection = Connection::new(id(1));
    assert!(matches!(
        connection.receive(&edit_frame("X", "Y")),
        Action::Dropped(Dropped::NotSubscribed)
    ));
    assert!(matches!(connection.receive(&open_frame(id(9))), Action::CheckMembership { .. }));
}

#[test]
fn malformed_frame_is_dropped_and_connection_stays_usable() {
    let mut registry = SessionRegistry::new();
    let mut connection = Connection::new(id(1));
    for frame in ["", "not json", "{}", "{\"action\":\"open_project\",\"project_id\":\"12\"}", "[1]"] {
        assert!(matches!(
            connection.receive(frame),
            Action::Dropped(Dropped::MalformedMessage)
        ));
    }
    assert!(matches!(connection.receive_message(None), Action::Dropped(Dropped::MalformedMessage)));
    follow(&mut connection, &mut registry, id(9), contents("t", "c"));
    assert_eq!(connection.project_id(), Some(id(9)));
}

#[test]
fn project_that_cannot_be_read_is_not_followed() {
    let mut registry = SessionRegistry::new();
    let mut connection = Connection::new(id(1));
    follow(&mut connection, &mut registry, id(8), contents("t", "c"));
    assert!(matches!(connection.receive(&open_frame(id(9))), Action::CheckMembership { .. }));
    assert!(matches!(connection.check_project_permissions(Some(true)), Action::ReadProject { .. }));
    assert!(matches!(
        connection.open_project(&mut registry, None),
        Action::Dropped(Dropped::ProjectNotFound)
    ));
    assert_eq!(connection.project_id(), Some(id(8)));
    assert!(!registry.contains(id(9)));
    assert_eq!(registry.subscriber_count(id(8)), 1);
}

#[test]
fn reopening_the_same_project_counts_once() {
    let mut registry = SessionRegistry::new();
    let mut a = Connection::new(id(1));
    let mut b = Connection::new(id(2));
    follow(&mut b, &mut registry, id(9), contents("t", "c"));
    follow(&mut a, &mut registry, id(9), contents("t", "c"));
    assert_eq!(registry.subscriber_count(id(9)), 2);
    follow(&mut a, &mut registry, id(9), contents("t2", "c2"));
    assert_eq!(a.project_id(), Some(id(9)));
    assert_eq!(registry.subscriber_count(id(9)), 2);
    assert_eq!(registry.len(), 1);
    assert_eq!(drain(&mut a), vec![contents("t2", "c2")]);
    assert_eq!(
        drain(&mut b),
        vec![contents("t", "c"), contents("t", "c"), contents("t2", "c2")]
    );
}

#[test]
fn reopening_as_the_only_follower_counts_once() {
    let mut registry = SessionRegistry::new();
    let mut a = Connection::new(id(1));
    follow(&mut a, &mut registry, id(9), contents("t", "c"));
    follow(&mut a, &mut registry, id(9), contents("t2", "c2"));
    assert_eq!(a.project_id(), Some(id(9)));
    assert_eq!(registry.subscriber_count(id(9)), 1);
    assert_eq!(registry.len(), 1);
    assert_eq!(drain(&mut a), vec![contents("t2", "c2")]);
}

#[test]
fn switching_projects_releases_the_old_one() {
    let mut registry = SessionRegistry::new();
    let mut a = Connection::new(id(1));
    let mut b = Connection::new(id(2));
    follow(&mut a, &mut registry, id(8), contents("t8", "c8"));
    follow(&mut b, &mut registry, id(8), contents("t8", "c8"));
    follow(&mut a, &mut registry, id(9), contents("t9", "c9"));
    assert_eq!(a.project_id(), Some(id(9)));
    assert_eq!(registry.subscriber_count(id(8)), 1);
    assert_eq!(registry.subscriber_count(id(9)), 1);
    assert_eq!(drain(&mut a), vec![contents("t9", "c9")]);
    follow(&mut b, &mut registry, id(9), contents("t9", "c9"));
    assert!(!registry.contains(id(8)));
    assert_eq!(registry.subscriber_count(id(9)), 2);
    assert_eq!(registry.len(), 1);
}

#[test]
fn closing_the_last_follower_ends_the_session() {
    let mut registry = SessionRegistry::new();
    let mut a = Connection::new(id(1));
    let mut b = Connection::new(id(2));
    follow(&mut a, &mut registry, id(9), contents("t", "c"));
    follow(&mut b, &mut registry, id(9), contents("t", "c"));
    a.close(&mut registry);
    assert!(a.is_closed());
    assert_eq!(a.project_id(), None);
    assert_eq!(registry.subscriber_count(id(9)), 1);
    b.close(&mut registry);
    assert!(!registry.contains(id(9)));
    assert_eq!(registry.len(), 0);
    b.close(&mut registry);
    assert_eq!(registry.len(), 0);
}

#[test]
fn closed_connection_takes_nothing() {
    let mut registry = SessionRegistry::new();
    let mut connection = Connection::new(id(1));
    follow(&mut connection, &mut registry, id(9), contents("t", "c"));
    connection.close(&mut registry);
    assert!(matches!(
        connection.receive(&open_frame(id(9))),
        Action::Dropped(Dropped::Unexpected)
    ));
    assert!(matches!(
        connection.check_project_permissions(Some(true)),
        Action::Dropped(Dropped::Unexpected)
    ));
    assert!(matches!(
        connection.open_project(&mut registry, Some(contents("t", "c"))),
        Action::Dropped(Dropped::Unexpected)
    ));
    assert!(matches!(
        connection.edit_project(&mut registry, true),
        Action::Dropped(Dropped::Unexpected)
    ));
    assert!(matches!(connection.next_payload(), Delivery::Detached));
    assert_eq!(registry.len(), 0);
}

#[test]
fn close_while_waiting_forgets_the_request() {
    let mut registry = SessionRegistry::new();
    let mut connection = Connection::new(id(1));
    assert!(matches!(connection.receive(&open_frame(id(9))), Action::CheckMembership { .. }));
    assert!(matches!(connection.check_project_permissions(Some(true)), Action::ReadProject { .. }));
    connection.close(&mut registry);
    assert!(matches!(
        connection.open_project(&mut registry, Some(contents("t", "c"))),
        Action::Dropped(Dropped::Unexpected)
    ));
    assert_eq!(registry.len(), 0);
}

#[test]
fn answers_out_of_turn_are_dropped() {
    let mut registry = SessionRegistry::new();
    let mut connection = Connection::new(id(1));
    assert!(matches!(
        connection.check_project_permissions(Some(true)),
        Action::Dropped(Dropped::Unexpected)
    ));
    assert!(matches!(
        connection.open_project(&mut registry, Some(contents("t", "c"))),
        Action::Dropped(Dropped::Unexpected)
    ));
    assert!(matches!(
        connection.edit_project(&mut registry, true),
        Action::Dropped(Dropped::Unexpected)
    ));
    assert!(matches!(connection.receive(&open_frame(id(9))), Action::CheckMembership { .. }));
    assert!(matches!(
        connection.receive(&open_frame(id(8))),
        Action::Dropped(Dropped::Unexpected)
    ));
    assert!(matches!(
        connection.edit_project(&mut registry, true),
        Action::Dropped(Dropped::Unexpected)
    ));
    match connection.check_project_permissions(Some(true)) {
        Action::ReadProject { project_id } => assert_eq!(project_id, id(9)),
        other => panic!("{:?}", other),
    }
    assert_eq!(registry.len(), 0);
}

#[test]
fn receive_message_takes_an_open_request() {
    let mut connection = Connection::new(id(1));
    match connection.receive_message(Some(ClientMessage::OpenProject { project_id: id(4) })) {
        Action::CheckMembership { user_id, project_id } => {
            assert_eq!(user_id, id(1));
            assert_eq!(project_id, id(4));
        }
        other => panic!("{:?}", other),
    }
}

#[test]
fn slow_follower_loses_the_oldest_snapshots() {
    let mut registry = SessionRegistry::new();
    let mut fast = Connection::new(id(1));
    let mut slow = Connection::new(id(2));
    follow(&mut slow, &mut registry, id(9), contents("t", "c"));
    follow(&mut fast, &mut registry, id(9), contents("t", "c"));
    drain(&mut slow);
    for n in 0..70 {
        assert!(matches!(fast.receive(&edit_frame(&n.to_string(), "c")), Action::CheckMembership { .. }));
        assert!(matches!(fast.check_project_permissions(Some(true)), Action::WriteProject { .. }));
        assert!(matches!(fast.edit_project(&mut registry, true), Action::Published { .. }));
    }
    match slow.next_payload() {
        Delivery::Skipped(skipped) => assert_eq!(skipped, 6),
        other => panic!("{:?}", other),
    }
    let seen = drain(&mut slow);
    assert_eq!(seen.len(), 64);
    assert_eq!(seen[0], contents("6", "c"));
    assert_eq!(seen[63], contents("69", "c"));
}

#[test]
fn relay_keeps_what_was_found() {
    match Delivery::relay(Polled::Payload(contents("t", "c"))) {
        Delivery::Payload(payload) => assert_eq!(payload, contents("t", "c")),
        other => panic!("{:?}", other),
    }
    assert!(matches!(Delivery::relay(Polled::Empty), Delivery::Idle));
    assert!(matches!(Delivery::relay(Polled::Lagged(0)), Delivery::Skipped(0)));
    assert!(matches!(Delivery::relay(Polled::Lagged(6)), Delivery::Skipped(6)));
    assert!(matches!(Delivery::relay(Polled::Closed), Delivery::Detached));
}
