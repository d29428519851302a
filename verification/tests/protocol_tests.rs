use kolla::protocol::FromBrowser;
use kolla::protocol::RoomState;
use kolla::protocol::resolve_id;
use kolla::room::Room;
use kolla::room::decorate_name;

#[test]
fn resolve_id_overwrites_wire_ids() {
    let forged = FromBrowser::Play { id: Some(99), request_id: 4, time: 8 };
    assert_eq!(
        resolve_id(forged, 7),
        FromBrowser::Play { id: Some(7), request_id: 4, time: 8 }
    );

    let missing = FromBrowser::Status {
        id: None,
        position: 1,
        buffered: 2,
        state: RoomState::Playing,
    };
    assert_eq!(
        resolve_id(missing, 7),
        FromBrowser::Status { id: Some(7), position: 1, buffered: 2, state: RoomState::Playing }
    );

    let pause = FromBrowser::Pause { id: Some(3), request_id: 1, time: 2 };
    assert_eq!(
        resolve_id(pause, 7),
        FromBrowser::Pause { id: Some(7), request_id: 1, time: 2 }
    );

    let seek = FromBrowser::Seek { id: None, request_id: 9, time: 10 };
    assert_eq!(
        resolve_id(seek, 7),
        FromBrowser::Seek { id: Some(7), request_id: 9, time: 10 }
    );
}

#[test]
fn resolve_id_leaves_registry_events_alone() {
    let join = FromBrowser::Join { name: String::from("Alice") };
    assert_eq!(resolve_id(join, 7), FromBrowser::Join { name: String::from("Alice") });

    let leave = FromBrowser::Leave { id: 3 };
    assert_eq!(resolve_id(leave, 7), FromBrowser::Leave { id: 3 });
}

#[test]
fn decorate_name_joins_marker_and_base() {
    assert_eq!(decorate_name("*", "Alice"), "* Alice");
    assert_eq!(decorate_name("", ""), " ");
}

#[test]
fn add_watcher_decorates_the_display_name() {
    let mut room = Room::new(String::from("foo"), String::from("url"));
    let (id, ev) = room.add_watcher(String::from("Alice"));
    assert_eq!(id, 1);

    let full = room.watchers[0].name.clone();
    // The marker is real: the stored name is the base name plus a
    // non-empty prefix ending in a space.
    assert!(full.ends_with(" Alice"));
    assert!(full.len() > " Alice".len());
    assert_ne!(full, "Alice");
    // The Join event announces the decorated name.
    assert_eq!(ev, FromBrowser::Join { name: full });
}
