use stratisd::actions::{ActionQueue, DeferredAction};
use stratisd::api::process_deferred_actions;
use stratisd::errors::{engine_to_dbus_err_tuple, msg_code_ok, msg_string_ok, EngineError, ErrorKind};
use stratisd::paths::{decimal_string, object_path};
use stratisd::registry::{ObjectData, ObjectKind, Registry};

fn data(uuid: u128) -> ObjectData {
    ObjectData::new(ObjectKind::Pool, "/org/storage/stratis1".to_string(), uuid)
}

#[test]
fn drain_empty_queue_twice() {
    let mut registry = Registry::new();
    registry.bind("/a".to_string(), Some(data(1)));
    let mut queue = ActionQueue::new();
    let first = process_deferred_actions(&mut registry, &mut queue);
    let second = process_deferred_actions(&mut registry, &mut queue);
    assert!(first.is_empty() && second.is_empty());
    assert!(queue.is_empty());
    assert_eq!(registry.paths(), vec!["/a".to_string()]);
    assert_eq!(registry.lookup(&"/a".to_string()).unwrap().unwrap().uuid, 1);
}

#[test]
fn drain_is_fifo() {
    let mut registry = Registry::new();
    registry.bind("/b".to_string(), Some(data(2)));
    let mut queue = ActionQueue::new();
    queue.push_add("/a".to_string(), data(1));
    queue.push_remove("/b".to_string());
    queue.push_add("/c".to_string(), data(3));
    // A later action on the same path wins only if it comes later.
    queue.push_remove("/a".to_string());
    queue.push_add("/a".to_string(), data(4));
    let applied = process_deferred_actions(&mut registry, &mut queue);
    let order: Vec<(bool, String)> = applied
        .iter()
        .map(|a| (matches!(a, DeferredAction::Add { .. }), a.path().clone()))
        .collect();
    assert_eq!(
        order,
        vec![
            (true, "/a".to_string()),
            (false, "/b".to_string()),
            (true, "/c".to_string()),
            (false, "/a".to_string()),
            (true, "/a".to_string()),
        ]
    );
    assert!(queue.is_empty());
    assert!(!registry.contains(&"/b".to_string()));
    assert_eq!(registry.lookup(&"/c".to_string()).unwrap().unwrap().uuid, 3);
    assert_eq!(registry.lookup(&"/a".to_string()).unwrap().unwrap().uuid, 4);
    assert_eq!(registry.len(), 2);
}

#[test]
fn registry_bind_unbind_lookup() {
    let mut registry = Registry::new();
    assert_eq!(registry.len(), 0);
    assert!(registry.unbind(&"/x".to_string()).is_none());
    registry.bind("/x".to_string(), Some(data(7)));
    registry.bind("/x".to_string(), Some(data(8)));
    assert_eq!(registry.len(), 1);
    assert_eq!(registry.lookup(&"/x".to_string()).unwrap().unwrap().uuid, 8);
    assert!(registry.lookup(&"/y".to_string()).is_none());
    registry.bind("/root".to_string(), None);
    assert_eq!(registry.path_of(8), Some("/x".to_string()));
    assert_eq!(registry.path_of(7), None);
    registry.unbind(&"/root".to_string());
    let removed = registry.unbind(&"/x".to_string()).unwrap().unwrap();
    assert_eq!(removed.uuid, 8);
    assert_eq!(registry.len(), 0);
    assert_eq!(registry.path_of(8), None);
}

#[test]
fn error_translation() {
    let cases = [
        (ErrorKind::Error, 1u16),
        (ErrorKind::AlreadyExists, 2),
        (ErrorKind::Busy, 3),
        (ErrorKind::Io, 4),
        (ErrorKind::Internal, 5),
        (ErrorKind::Invalid, 6),
        (ErrorKind::NotFound, 7),
    ];
    for (kind, code) in cases {
        let (c, m) = engine_to_dbus_err_tuple(&EngineError::new(kind, "why".to_string()));
        assert_eq!(c, code);
        assert_eq!(m, "why");
    }
    assert_eq!(msg_code_ok(), 0);
    assert_eq!(msg_string_ok(), "OK");
}

#[test]
fn object_paths_are_numbered() {
    assert_eq!(decimal_string(0), "0");
    assert_eq!(decimal_string(907), "907");
    assert_eq!(decimal_string(u64::MAX), "18446744073709551615");
    assert_eq!(object_path(12), "/org/storage/stratis1/12");
}
