use media_core::frame::CodecId;
use media_core::media::Media;
use media_core::registry::{MediaChangedEvent, MediaRegistry, StreamKey};

fn ready_media(stream: &str) -> Media {
    let mut m = Media::new("__defaultVhost__", "live", stream, 0, false, false);
    m.init_video(CodecId::H264, 1920, 1080, 25);
    m.init_complete();
    m
}

#[test]
fn register_raises_one_event() {
    let mut reg = MediaRegistry::new();
    let ev = reg.register(ready_media("cam"));
    match ev {
        Some(MediaChangedEvent::Registered(k)) => {
            assert_eq!(k.vhost, "__defaultVhost__");
            assert_eq!(k.app, "live");
            assert_eq!(k.stream, "cam");
        }
        _ => panic!("registration must raise exactly one registered event"),
    }
}

#[test]
fn duplicate_registration_is_rejected_without_event() {
    let mut reg = MediaRegistry::new();
    let first = reg.register(ready_media("cam"));
    assert!(first.is_some());
    // Same key, same tracks: the second registration is the conflict case.
    let second = reg.register(ready_media("cam"));
    assert!(second.is_none());
    assert_eq!(reg.len(), 1);
}

#[test]
fn find_returns_full_snapshot() {
    let mut reg = MediaRegistry::new();
    reg.register(ready_media("cam"));
    let key = StreamKey::new("__defaultVhost__", "live", "cam");
    reg.add_reader(&key);
    reg.add_reader(&key);
    let src = reg.find(&key).expect("registered source must be found");
    assert_eq!(src.vhost(), "__defaultVhost__");
    assert_eq!(src.app(), "live");
    assert_eq!(src.stream(), "cam");
    assert_eq!(src.reader_count(), 2);
    assert_eq!(src.total_reader_count(), 2);
    assert_eq!(src.track_count(), 1);
    let track = src.get_track(0).expect("one track is attached");
    assert!(track.is_video());
    assert!(src.get_track(1).is_none());
}

#[test]
fn snapshot_survives_forced_close_untorn() {
    let mut reg = MediaRegistry::new();
    reg.register(ready_media("cam"));
    let key = StreamKey::new("__defaultVhost__", "live", "cam");
    reg.add_reader(&key);
    let snapshot = reg.find(&key).expect("found before close");
    let (closed, ev) = reg.close(&key, true);
    assert!(closed);
    assert!(matches!(ev, Some(MediaChangedEvent::Unregistered(_))));
    assert!(reg.find(&key).is_none());
    // The earlier snapshot is still whole: closing cannot tear it.
    assert_eq!(snapshot.stream(), "cam");
    assert_eq!(snapshot.reader_count(), 1);
    assert_eq!(snapshot.track_count(), 1);
}

#[test]
fn close_without_force_refuses_while_readers_attached() {
    let mut reg = MediaRegistry::new();
    reg.register(ready_media("cam"));
    let key = StreamKey::new("__defaultVhost__", "live", "cam");
    reg.add_reader(&key);
    let (closed, ev) = reg.close(&key, false);
    assert!(!closed);
    assert!(ev.is_none());
    assert!(reg.find(&key).is_some());
    // Once drained, the gentle close goes through.
    reg.remove_reader(&key);
    let (closed2, ev2) = reg.close(&key, false);
    assert!(closed2);
    assert!(ev2.is_some());
}

#[test]
fn unregister_raises_event_only_when_live() {
    let mut reg = MediaRegistry::new();
    let key = StreamKey::new("__defaultVhost__", "live", "cam");
    assert!(reg.unregister(&key).is_none());
    reg.register(ready_media("cam"));
    match reg.unregister(&key) {
        Some(MediaChangedEvent::Unregistered(k)) => assert_eq!(k.stream, "cam"),
        _ => panic!("deregistration must raise exactly one unregistered event"),
    }
    assert!(reg.unregister(&key).is_none());
}

#[test]
fn last_reader_detaching_reports_drain() {
    let mut reg = MediaRegistry::new();
    reg.register(ready_media("cam"));
    let key = StreamKey::new("__defaultVhost__", "live", "cam");
    reg.add_reader(&key);
    reg.add_reader(&key);
    assert!(!reg.remove_reader(&key));
    assert!(reg.remove_reader(&key));
    assert!(!reg.remove_reader(&key));
    // Total stays: it counts history, not attachment.
    let src = reg.find(&key).unwrap();
    assert_eq!(src.reader_count(), 0);
    assert_eq!(src.total_reader_count(), 2);
}

#[test]
fn distinct_keys_live_side_by_side() {
    let mut reg = MediaRegistry::new();
    assert!(reg.register(ready_media("one")).is_some());
    assert!(reg.register(ready_media("two")).is_some());
    assert_eq!(reg.len(), 2);
    let one = StreamKey::new("__defaultVhost__", "live", "one");
    let two = StreamKey::new("__defaultVhost__", "live", "two");
    assert!(reg.contains(&one));
    assert!(reg.contains(&two));
    reg.close(&one, true);
    assert!(!reg.contains(&one));
    assert!(reg.contains(&two));
}
