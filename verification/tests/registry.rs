use shared_tier_list::object_id::ObjectId;
use shared_tier_list::registry::SessionRegistry;
use shared_tier_list::ws_types::ProjectContentsResponse;

fn project(last: u8) -> ObjectId {
    ObjectId::from_bytes([0, 0, 0, 0, 0, 0, 0, 0, 0, 0, 0, last])
}

fn contents(tier: &str, carousel: &str) -> ProjectContentsResponse {
    ProjectContentsResponse {
        tier_container_html: tier.to_string(),
        image_carousel_html: carousel.to_string(),
    }
}

#[test]
fn new_registry_is_empty() {
    let registry = SessionRegistry::new();
    assert_eq!(registry.len(), 0);
    assert!(!registry.contains(project(1)));
    assert_eq!(registry.subscriber_count(project(1)), 0);
}

#[test]
fn many_first_followers_share_one_topic() {
    let mut registry = SessionRegistry::new();
    let mut receivers = Vec::new();
    for _ in 0..16 {
        let topic = registry.get_or_create(project(7)).unwrap();
        receivers.push(topic.subscribe());
    }
    assert_eq!(registry.len(), 1);
    assert_eq!(registry.subscriber_count(project(7)), 16);
    assert_eq!(registry.publish(project(7), contents("a", "b")), Some(16));
    for receiver in receivers.iter_mut() {
        assert_eq!(receiver.try_recv().unwrap(), contents("a", "b"));
    }
}

#[test]
fn last_release_removes_session() {
    let mut registry = SessionRegistry::new();
    let _first = registry.get_or_create(project(1)).unwrap();
    let _second = registry.get_or_create(project(1)).unwrap();
    registry.release(project(1));
    assert!(registry.contains(project(1)));
    assert_eq!(registry.subscriber_count(project(1)), 1);
    registry.release(project(1));
    assert!(!registry.contains(project(1)));
    assert_eq!(registry.len(), 0);
}

#[test]
fn release_of_unknown_project_changes_nothing() {
    let mut registry = SessionRegistry::new();
    let _topic = registry.get_or_create(project(1)).unwrap();
    registry.release(project(2));
    assert_eq!(registry.len(), 1);
    assert_eq!(registry.subscriber_count(project(1)), 1);
}

#[test]
fn publish_without_session_delivers_nothing() {
    let mut registry = SessionRegistry::new();
    assert_eq!(registry.publish(project(3), contents("x", "y")), None);
    assert_eq!(registry.len(), 0);
}

#[test]
fn publish_reaches_only_its_project() {
    let mut registry = SessionRegistry::new();
    let mut here = registry.get_or_create(project(1)).unwrap().subscribe();
    let mut there = registry.get_or_create(project(2)).unwrap().subscribe();
    assert_eq!(registry.publish(project(1), contents("x", "y")), Some(1));
    assert_eq!(here.try_recv().unwrap(), contents("x", "y"));
    assert!(there.try_recv().is_err());
}
