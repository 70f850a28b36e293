use media_core::event::{Event, EventKind};
use media_core::frame::{CodecId, Frame};
use media_core::media::Media;
use media_core::registry::{MediaChangedEvent, MediaRegistry, StreamKey};
use media_core::splitter::H264Splitter;

#[test]
fn pull_on_demand_flow() {
    // A viewer asks for a stream that is not live.  The hub's handler
    // promises an asynchronous creation; the dispatch itself creates
    // nothing, and only the caller's explicit registration does.
    let mut hub = Event::new();
    hub.subscribe(EventKind::MediaNotFound);
    let mut reg = MediaRegistry::new();
    let key = StreamKey::new("__defaultVhost__", "live", "ondemand");

    assert!(reg.find(&key).is_none());
    assert!(hub.dispatch_media_not_found(Some(true)));
    // The connection is still pending: nothing was created by the answer.
    assert!(reg.find(&key).is_none());

    // The caller now creates the source explicitly.
    let mut m = Media::new("__defaultVhost__", "live", "ondemand", 0, false, false);
    m.init_video(CodecId::H264, 1280, 720, 30);
    m.init_complete();
    let ev = reg.register(m);
    assert!(matches!(ev, Some(MediaChangedEvent::Registered(_))));
    let src = reg.find(&key).expect("now live");
    assert_eq!(src.track_count(), 1);

    // Ingestion feeds frames once tracks are ready.
    let frame = Frame::new(CodecId::H264, 0, 0, vec![0, 0, 0, 1, 101]);
    let mut again = Media::new("__defaultVhost__", "live", "other", 0, false, false);
    again.init_video(CodecId::H264, 1280, 720, 30);
    again.init_complete();
    assert!(again.input_frame(&frame));
}

#[test]
fn splitter_agrees_under_adversarial_chunking() {
    // One fixed stream, cut at every second position by a marching
    // window, must always yield the same units.
    let mut stream: Vec<u8> = Vec::new();
    for unit in 0..8u8 {
        if unit % 2 == 0 {
            stream.extend_from_slice(&[0, 0, 1]);
        } else {
            stream.extend_from_slice(&[0, 0, 0, 1]);
        }
        for b in 0..(4 + unit) {
            stream.push(unit * 16 + b);
        }
    }
    let mut reference = H264Splitter::new(false);
    let mut expected = reference.input(&stream);
    if let Some(last) = reference.flush() {
        expected.push(last);
    }
    for cut in 1..stream.len() {
        let mut sp = H264Splitter::new(false);
        let mut got = sp.input(&stream[..cut]);
        got.extend(sp.input(&stream[cut..]));
        if let Some(last) = sp.flush() {
            got.push(last);
        }
        assert_eq!(got, expected, "cut at {}", cut);
    }
}
