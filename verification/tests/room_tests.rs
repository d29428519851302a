use kolla::protocol::FromBrowser;
use kolla::protocol::RoomState;
use kolla::protocol::ToBrowser;
use kolla::protocol::resolve_id;
use kolla::room::Room;

fn fresh_room() -> Room {
    Room::new(String::from("foo"), String::from("http://example/video"))
}

#[test]
fn new_room_is_empty() {
    let room = fresh_room();
    assert_eq!(room.name, "foo");
    assert_eq!(room.url, "http://example/video");
    assert_eq!(room.next_id, 1);
    assert_eq!(room.watchers.len(), 0);
    assert!(room.wf_check());
}

#[test]
fn scenario_two_watchers_play_and_leave() {
    // Room "foo" with url X.  Alice joins and gets id 1; everyone then
    // sees a snapshot with one watcher.  Bob joins and gets id 2; both
    // see a snapshot with watchers 1 and 2.  Alice presses play; both
    // receive the exact echo.  Bob disconnects; Alice sees a snapshot
    // with only watcher 1.
    let mut room = fresh_room();

    let (id_a, ev_a) = room.add_watcher_named(String::from("Alice"));
    assert_eq!(id_a, 1);
    assert_eq!(ev_a, FromBrowser::Join { name: String::from("Alice") });
    room.handle_event(ev_a);
    let to_a = room.take_outbound(id_a);
    assert_eq!(to_a.len(), 1);
    match &to_a[0] {
        ToBrowser::Metadata(info) => {
            assert_eq!(info.name, "foo");
            assert_eq!(info.url, "http://example/video");
            assert_eq!(info.watchers.len(), 1);
            assert_eq!(info.watchers[0].id, 1);
            assert_eq!(info.watchers[0].name, "Alice");
        }
        other => panic!("expected a snapshot, got {:?}", other),
    }

    let (id_b, ev_b) = room.add_watcher_named(String::from("Bob"));
    assert_eq!(id_b, 2);
    room.handle_event(ev_b);
    let to_a = room.take_outbound(id_a);
    let to_b = room.take_outbound(id_b);
    assert_eq!(to_a, to_b);
    assert_eq!(to_a.len(), 1);
    match &to_a[0] {
        ToBrowser::Metadata(info) => {
            let ids: Vec<u32> = info.watchers.iter().map(|w| w.id).collect();
            assert_eq!(ids, vec![1, 2]);
            assert_eq!(info.watchers[1].name, "Bob");
        }
        other => panic!("expected a snapshot, got {:?}", other),
    }

    let time = 12.3f64.to_bits();
    let play = resolve_id(
        FromBrowser::Play { id: None, request_id: 5, time },
        id_a,
    );
    room.handle_event(play);
    let to_a = room.take_outbound(id_a);
    let to_b = room.take_outbound(id_b);
    let expected = ToBrowser::Play { id: 1, request_id: 5, time };
    assert_eq!(to_a, vec![expected.clone()]);
    assert_eq!(to_b, vec![expected]);

    let left = room.remove_watcher(id_b);
    assert_eq!(left, Some(FromBrowser::Leave { id: 2 }));
    room.handle_event(left.unwrap());
    let to_a = room.take_outbound(id_a);
    assert_eq!(to_a.len(), 1);
    match &to_a[0] {
        ToBrowser::Metadata(info) => {
            let ids: Vec<u32> = info.watchers.iter().map(|w| w.id).collect();
            assert_eq!(ids, vec![1]);
        }
        other => panic!("expected a snapshot, got {:?}", other),
    }
    // Bob's queue is gone with him.
    assert_eq!(room.take_outbound(id_b), Vec::<ToBrowser>::new());
}

#[test]
fn ids_strictly_increase_and_are_never_reused() {
    let mut room = fresh_room();
    let mut seen: Vec<u32> = Vec::new();
    for n in 0..5u32 {
        let (id, ev) = room.add_watcher_named(format!("w{}", n));
        room.handle_event(ev);
        seen.push(id);
    }
    assert_eq!(seen, vec![1, 2, 3, 4, 5]);

    // A leave never frees an id for reuse.
    let left = room.remove_watcher(3);
    assert!(left.is_some());
    room.handle_event(left.unwrap());
    let (id, _ev) = room.add_watcher_named(String::from("late"));
    assert_eq!(id, 6);
    assert!(room.wf_check());
}

#[test]
fn remove_twice_is_a_noop() {
    let mut room = fresh_room();
    let (id_a, ev_a) = room.add_watcher_named(String::from("Alice"));
    let (id_b, ev_b) = room.add_watcher_named(String::from("Bob"));
    room.handle_event(ev_a);
    room.handle_event(ev_b);

    let first = room.remove_watcher(id_b);
    assert_eq!(first, Some(FromBrowser::Leave { id: id_b }));
    room.handle_event(first.unwrap());
    let broadcasts_after_first = room.take_outbound(id_a).len();

    // The duplicate disconnect: no event, no state change, nothing new
    // to broadcast.
    let second = room.remove_watcher(id_b);
    assert_eq!(second, None);
    assert_eq!(room.watchers.len(), 1);
    assert_eq!(room.take_outbound(id_a).len(), 0);
    assert!(broadcasts_after_first > 0);
    assert!(room.wf_check());
}

#[test]
fn status_updates_telemetry_and_broadcasts_snapshot() {
    let mut room = fresh_room();
    let (id, ev) = room.add_watcher_named(String::from("Alice"));
    room.handle_event(ev);
    room.take_outbound(id);

    let position = 41.5f64.to_bits();
    let buffered = 47.25f64.to_bits();
    let status = resolve_id(
        FromBrowser::Status {
            id: None,
            position,
            buffered,
            state: RoomState::Playing,
        },
        id,
    );
    room.handle_event(status);

    assert_eq!(room.watchers[0].position, position);
    assert_eq!(room.watchers[0].buffered, buffered);
    assert_eq!(room.watchers[0].state, RoomState::Playing);

    let msgs = room.take_outbound(id);
    assert_eq!(msgs.len(), 1);
    match &msgs[0] {
        ToBrowser::Metadata(info) => {
            assert_eq!(info.watchers[0].position, position);
            assert_eq!(info.watchers[0].buffered, buffered);
            assert_eq!(info.watchers[0].state, RoomState::Playing);
        }
        other => panic!("expected a snapshot, got {:?}", other),
    }
}

#[test]
fn status_for_unknown_id_changes_nothing() {
    let mut room = fresh_room();
    let (id, ev) = room.add_watcher_named(String::from("Alice"));
    room.handle_event(ev);
    room.take_outbound(id);

    room.update_status(999, 7, 8, RoomState::Playing);
    assert_eq!(room.watchers[0].position, 0);
    assert_eq!(room.watchers[0].buffered, 0);
    assert_eq!(room.watchers[0].state, RoomState::Paused);
}

#[test]
fn echo_keeps_request_id_and_time_exactly() {
    let mut room = fresh_room();
    let (id_a, ev_a) = room.add_watcher_named(String::from("Alice"));
    let (id_b, ev_b) = room.add_watcher_named(String::from("Bob"));
    room.handle_event(ev_a);
    room.handle_event(ev_b);
    room.take_outbound(id_a);
    room.take_outbound(id_b);

    let time = 0.1f64.to_bits();
    let msg = room.handle_event(FromBrowser::Seek { id: Some(id_b), request_id: 77, time });
    let expected = ToBrowser::Seek { id: id_b, request_id: 77, time };
    assert_eq!(msg, expected);
    assert_eq!(room.take_outbound(id_a), vec![expected.clone()]);
    assert_eq!(room.take_outbound(id_b), vec![expected]);
    assert_eq!(0.1f64.to_bits(), time);
}

#[test]
fn all_watchers_observe_the_same_order() {
    let mut room = fresh_room();
    let (id_a, ev_a) = room.add_watcher_named(String::from("Alice"));
    let (id_b, ev_b) = room.add_watcher_named(String::from("Bob"));
    room.handle_event(ev_a);
    room.handle_event(ev_b);
    room.take_outbound(id_a);
    room.take_outbound(id_b);

    room.handle_event(FromBrowser::Play { id: Some(id_a), request_id: 1, time: 10 });
    room.handle_event(FromBrowser::Pause { id: Some(id_b), request_id: 2, time: 20 });
    room.handle_event(FromBrowser::Seek { id: Some(id_a), request_id: 3, time: 30 });

    let to_a = room.take_outbound(id_a);
    let to_b = room.take_outbound(id_b);
    assert_eq!(to_a, to_b);
    assert_eq!(
        to_a,
        vec![
            ToBrowser::Play { id: id_a, request_id: 1, time: 10 },
            ToBrowser::Pause { id: id_b, request_id: 2, time: 20 },
            ToBrowser::Seek { id: id_a, request_id: 3, time: 30 },
        ]
    );
}

#[test]
fn take_outbound_drains_the_queue() {
    let mut room = fresh_room();
    let (id, ev) = room.add_watcher_named(String::from("Alice"));
    room.handle_event(ev);

    let first = room.take_outbound(id);
    assert_eq!(first.len(), 1);
    assert_eq!(room.take_outbound(id), Vec::<ToBrowser>::new());
    assert_eq!(room.take_outbound(42), Vec::<ToBrowser>::new());
}

#[test]
fn events_in_an_empty_room_are_harmless() {
    let mut room = fresh_room();
    // A control event with a resolved id from a watcher that is already
    // gone: broadcast to nobody, no state change.
    let msg = room.handle_event(FromBrowser::Play { id: Some(9), request_id: 1, time: 2 });
    assert_eq!(msg, ToBrowser::Play { id: 9, request_id: 1, time: 2 });
    assert_eq!(room.watchers.len(), 0);
    assert_eq!(room.remove_watcher(9), None);
    room.update_status(9, 1, 2, RoomState::Playing);
    assert_eq!(room.watchers.len(), 0);
    assert!(room.wf_check());
}

#[test]
fn get_info_projects_the_current_state() {
    let mut room = fresh_room();
    let (id, ev) = room.add_watcher_named(String::from("Alice"));
    room.handle_event(ev);

    let info = room.get_info();
    assert_eq!(info.name, "foo");
    assert_eq!(info.url, "http://example/video");
    assert_eq!(info.position, 0);
    assert_eq!(info.state, RoomState::Paused);
    assert_eq!(info.watchers.len(), 1);
    assert_eq!(info.watchers[0].id, id);
    assert_eq!(info.watchers[0].name, "Alice");
    assert_eq!(info.watchers[0].position, 0);
    assert_eq!(info.watchers[0].buffered, 0);
    assert_eq!(info.watchers[0].state, RoomState::Paused);
}
