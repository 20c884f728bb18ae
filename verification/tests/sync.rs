use rix::client::sync::{
    sync_body_text, sync_response, sync_stream, Event, EventContainer, GroupSyncResult,
    GroupsSyncResult, StreamPoll, SyncPoll, SyncResult,
};
use rix::RixError;

fn event(kind: &str, body: &str) -> Event {
    Event {
        content: serde_json::Value::String(body.to_string()),
        event_type: kind.to_string(),
        sender: Some("@s:hs".to_string()),
        room: None,
    }
}

fn container(events: Vec<Event>) -> EventContainer {
    EventContainer { events }
}

fn sample() -> SyncResult {
    SyncResult {
        next_batch: "batch2".to_string(),
        presence: container(vec![event("m.presence", "p")]),
        rooms: GroupsSyncResult {
            leave: vec![(
                "!left:hs".to_string(),
                GroupSyncResult { timeline: Some(container(vec![event("m.room.message", "l1")])), ephemeral: None },
            )],
            join: vec![
                (
                    "!a:hs".to_string(),
                    GroupSyncResult {
                        timeline: Some(container(vec![event("m.room.message", "a1"), event("m.room.message", "a2")])),
                        ephemeral: Some(container(vec![event("m.typing", "a3")])),
                    },
                ),
                (
                    "!b:hs".to_string(),
                    GroupSyncResult { timeline: None, ephemeral: Some(container(vec![event("m.receipt", "b1")])) },
                ),
            ],
            invite: vec![(
                "!inv:hs".to_string(),
                GroupSyncResult { timeline: Some(container(vec![])), ephemeral: None },
            )],
        },
    }
}

fn bodies(r: &SyncResult) -> Vec<String> {
    r.events().iter().map(|e| e.content.as_str().unwrap().to_string()).collect()
}

#[test]
fn events_come_in_order() {
    let r = sample();
    assert_eq!(bodies(&r), vec!["p", "l1", "a1", "a2", "a3", "b1"]);
}

#[test]
fn sync_fills_in_the_rooms() {
    let r = sync_response(Ok(sample())).unwrap();
    assert_eq!(r.next_batch, "batch2");
    let rooms: Vec<Option<String>> = r.events().iter().map(|e| e.room.clone()).collect();
    assert_eq!(
        rooms,
        vec![
            None,
            Some("!left:hs".to_string()),
            Some("!a:hs".to_string()),
            Some("!a:hs".to_string()),
            Some("!a:hs".to_string()),
            Some("!b:hs".to_string()),
        ]
    );
    assert_eq!(bodies(&r), vec!["p", "l1", "a1", "a2", "a3", "b1"]);
    let first = &r.rooms.join[0].1.timeline.as_ref().unwrap().events[0];
    assert_eq!(first.event_type, "m.room.message");
    assert_eq!(first.sender.as_deref(), Some("@s:hs"));
}

#[test]
fn sync_replaces_a_room_already_set() {
    let mut r = sample();
    r.rooms.join[1].1.ephemeral.as_mut().unwrap().events[0].room = Some("!wrong:hs".to_string());
    let r = sync_response(Ok(r)).unwrap();
    assert_eq!(r.rooms.join[1].1.ephemeral.as_ref().unwrap().events[0].room.as_deref(), Some("!b:hs"));
}

#[test]
fn sync_json_error() {
    let e = serde_json::from_str::<serde_json::Value>("[").unwrap_err();
    assert!(matches!(sync_response(Err(e)), Err(RixError::JSON(_))));
}

#[test]
fn sync_body_must_be_utf8() {
    assert_eq!(sync_body_text(b"{\"next_batch\":\"x\"}".to_vec()).unwrap(), "{\"next_batch\":\"x\"}");
    assert!(matches!(sync_body_text(vec![0xe2, 0x82]), Err(RixError::UTF8(_))));
}

#[test]
fn stream_continues_from_the_last_batch() {
    let mut s = sync_stream("https://hs", "tok");
    assert_eq!(s.next_request().uri, "https://hs/_matrix/client/r0/sync?access_token=tok");
    assert!(matches!(s.on_poll(SyncPoll::NotReady), StreamPoll::NotReady));
    assert_eq!(s.next_request().uri, "https://hs/_matrix/client/r0/sync?access_token=tok");
    match s.on_poll(SyncPoll::Ready(sample())) {
        StreamPoll::Item(item) => assert_eq!(item.next_batch, "batch2"),
        _ => panic!("expected an item"),
    }
    assert_eq!(
        s.next_request().uri,
        "https://hs/_matrix/client/r0/sync?access_token=tok&since=batch2&timeout=30000"
    );
    match s.on_poll(SyncPoll::Failed(RixError::Other("down".to_string()))) {
        StreamPoll::Failed(RixError::Other(m)) => assert_eq!(m, "down"),
        _ => panic!("expected the failure"),
    }
    assert_eq!(
        s.next_request().uri,
        "https://hs/_matrix/client/r0/sync?access_token=tok&since=batch2&timeout=30000"
    );
}

#[test]
fn filling_twice_changes_nothing() {
    let once = sync_response(Ok(sample())).unwrap();
    let rooms_once: Vec<Option<String>> = once.events().iter().map(|e| e.room.clone()).collect();
    let once_text = format!("{:?}", once);
    let twice = sync_response(Ok(once)).unwrap();
    assert_eq!(format!("{:?}", twice), once_text);
    let rooms_twice: Vec<Option<String>> = twice.events().iter().map(|e| e.room.clone()).collect();
    assert_eq!(rooms_once, rooms_twice);
    assert_eq!(bodies(&twice), vec!["p", "l1", "a1", "a2", "a3", "b1"]);
}
