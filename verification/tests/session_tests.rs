use media_core::frame::CodecId;
use media_core::media::Media;
use media_core::registry::{MediaRegistry, StreamKey};
use media_core::session::{ProxyPlayerBuilder, PusherBuilder};

#[test]
fn close_notice_fires_exactly_once_on_local_failure() {
    let mut player = ProxyPlayerBuilder::new()
        .vhost("__defaultVhost__")
        .app("live")
        .stream("pull")
        .build();
    player.on_close();
    player.play("rtsp://bad-host/404");
    // Local failure: the connect never came up.
    let first = player.complete(-1, "connect refused", 111);
    let notice = first.expect("the first completion fires");
    assert_eq!(notice.err_code, -1);
    assert_eq!(notice.what, "connect refused");
    assert_eq!(notice.sys_err, 111);
    // Whatever arrives later fires nothing further.
    assert!(player.complete(-1, "connect refused", 111).is_none());
    assert!(player.complete(0, "eof", 0).is_none());
}

#[test]
fn close_notice_fires_exactly_once_on_remote_reset() {
    let mut player = ProxyPlayerBuilder::new()
        .vhost("__defaultVhost__")
        .app("live")
        .stream("pull")
        .build();
    player.play("rtsp://peer/stream");
    player.connected();
    // Remote failure after the session was playing.
    let first = player.complete(-104, "peer reset", 104);
    assert!(first.is_some());
    assert!(player.complete(-104, "peer reset", 104).is_none());
}

#[test]
fn never_played_session_fires_nothing() {
    let mut player = ProxyPlayerBuilder::new().build();
    assert!(player.complete(0, "", 0).is_none());
}

#[test]
fn builder_accepts_empty_identity() {
    // Lazy validation: building with nothing set still yields a session,
    // and even play succeeds; the failure would arrive via the notice.
    let mut player = ProxyPlayerBuilder::new().hls_enabled(true).mp4_enabled(true).build();
    player.play("rtmp://host/app/stream");
    let notice = player.complete(-22, "invalid identity", 22);
    assert_eq!(notice.expect("fails at play time, not build time").err_code, -22);
}

#[test]
fn player_options_accumulate() {
    let mut player = ProxyPlayerBuilder::new()
        .add_option("rtp_type", "0")
        .add_option("rtsp_user", "admin")
        .build();
    player.set_options("protocol_timeout_ms", "5000");
    player.play("rtsp://cam/live");
    assert!(player.complete(0, "", 0).is_some());
}

#[test]
fn pusher_notice_fires_exactly_once() {
    let mut pusher = PusherBuilder::new()
        .schema("rtmp")
        .vhost("__defaultVhost__")
        .app("live")
        .stream("out")
        .build();
    pusher.on_result();
    pusher.on_shutdown();
    pusher.publish("rtmp://origin/live/out");
    pusher.connected();
    let first = pusher.complete(0, "normal stop");
    let notice = first.expect("the first completion fires");
    assert_eq!(notice.err_code, 0);
    assert_eq!(notice.msg, "normal stop");
    assert!(pusher.complete(0, "normal stop").is_none());
}

#[test]
fn pusher_from_source_takes_its_identity() {
    let mut reg = MediaRegistry::new();
    let mut m = Media::new("__defaultVhost__", "live", "cam", 0, false, false);
    m.init_video(CodecId::H265, 1280, 720, 30);
    m.init_complete();
    reg.register(m);
    let key = StreamKey::new("__defaultVhost__", "live", "cam");
    let src = reg.find(&key).unwrap();
    let mut pusher = media_core::session::Pusher::from_source(&src);
    pusher.publish("srt://relay:9000");
    assert!(pusher.complete(0, "").is_some());
}

#[test]
fn player_reader_count_reads_the_registry() {
    let mut reg = MediaRegistry::new();
    let mut m = Media::new("__defaultVhost__", "live", "pull", 0, false, false);
    m.init_video(CodecId::H264, 640, 480, 15);
    m.init_complete();
    reg.register(m);
    let key = StreamKey::new("__defaultVhost__", "live", "pull");
    reg.add_reader(&key);
    reg.add_reader(&key);
    reg.remove_reader(&key);
    let player = ProxyPlayerBuilder::new()
        .vhost("__defaultVhost__")
        .app("live")
        .stream("pull")
        .build();
    assert_eq!(player.total_reader_count(&reg), 2);
    let elsewhere = ProxyPlayerBuilder::new()
        .vhost("__defaultVhost__")
        .app("live")
        .stream("absent")
        .build();
    assert_eq!(elsewhere.total_reader_count(&reg), 0);
}
