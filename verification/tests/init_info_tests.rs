use media_core::info::{MediaInfo, Parser, RecordInfo, SockInfo};
use media_core::init::EnvInitBuilder;

#[test]
fn env_builder_collects_every_field() {
    let cfg = EnvInitBuilder::new()
        .thread_num(4)
        .log_level(2)
        .log_mask(1)
        .log_file_path("/var/log/media")
        .log_file_days(7)
        .ini("[protocol]\nhls_demand=1\n")
        .ssl("/etc/ssl/server.pem")
        .ssl_is_path(true)
        .ssl_pwd("pem-pass")
        .build();
    assert_eq!(cfg.thread_num, 4);
    assert_eq!(cfg.log_level, 2);
    assert_eq!(cfg.log_mask, 1);
    assert_eq!(cfg.log_file_path.as_deref(), Some("/var/log/media"));
    assert_eq!(cfg.log_file_days, 7);
    assert_eq!(cfg.ini.as_deref(), Some("[protocol]\nhls_demand=1\n"));
    assert!(!cfg.ini_is_path);
    assert_eq!(cfg.ssl.as_deref(), Some("/etc/ssl/server.pem"));
    assert!(cfg.ssl_is_path);
    assert_eq!(cfg.ssl_pwd.as_deref(), Some("pem-pass"));
}

#[test]
fn env_builder_ini_by_file_sets_the_flag() {
    let cfg = EnvInitBuilder::default().ini_by_file("/etc/media/config.ini").build();
    assert_eq!(cfg.ini.as_deref(), Some("/etc/media/config.ini"));
    assert!(cfg.ini_is_path);
}

#[test]
fn parser_lookups_take_the_first_match() {
    let p = Parser {
        method: String::from("GET"),
        url: String::from("/index/api"),
        query_str: String::from("secret=a&secret=b"),
        queries: vec![
            (String::from("secret"), String::from("a")),
            (String::from("secret"), String::from("b")),
            (String::from("stream"), String::from("cam")),
        ],
        headers: vec![(String::from("Host"), String::from("example.org"))],
        body: String::from(""),
    };
    assert_eq!(p.method(), "GET");
    assert_eq!(p.url(), "/index/api");
    assert_eq!(p.query("secret"), "a");
    assert_eq!(p.query("stream"), "cam");
    assert_eq!(p.query("absent"), "");
    assert_eq!(p.header("Host"), "example.org");
    assert_eq!(p.header("Cookie"), "");
    assert_eq!(p.body(), "");
}

#[test]
fn sock_and_media_info_hold_their_fields() {
    let sock = SockInfo::new("198.51.100.7", 52311, "192.0.2.1", 554);
    assert_eq!(sock.peer_ip(), "198.51.100.7");
    assert_eq!(sock.peer_port(), 52311);
    assert_eq!(sock.local_ip(), "192.0.2.1");
    assert_eq!(sock.local_port(), 554);
    let info = MediaInfo {
        schema: String::from("rtsp"),
        vhost: String::from("__defaultVhost__"),
        app: String::from("live"),
        stream: String::from("cam"),
        host: String::from("192.0.2.1"),
        port: 554,
        params: String::from("token=t"),
    };
    assert_eq!(info.schema(), "rtsp");
    assert_eq!(info.vhost(), "__defaultVhost__");
    assert_eq!(info.app(), "live");
    assert_eq!(info.stream(), "cam");
    assert_eq!(info.host(), "192.0.2.1");
    assert_eq!(info.port(), 554);
    assert_eq!(info.params(), "token=t");
}

#[test]
fn record_info_holds_its_fields() {
    let rec = RecordInfo {
        start_time: 1700000000,
        duration_ms: 10000,
        file_size: 4096,
        file_name: String::from("0.mp4"),
        file_path: String::from("/rec/live/cam/0.mp4"),
        folder: String::from("/rec/live/cam"),
        vhost: String::from("__defaultVhost__"),
        app: String::from("live"),
        stream: String::from("cam"),
    };
    assert_eq!(rec.start_time(), 1700000000);
    assert_eq!(rec.duration_ms(), 10000);
    assert_eq!(rec.file_size(), 4096);
    assert_eq!(rec.file_name(), "0.mp4");
    assert_eq!(rec.file_path(), "/rec/live/cam/0.mp4");
    assert_eq!(rec.folder(), "/rec/live/cam");
    assert_eq!(rec.vhost(), "__defaultVhost__");
    assert_eq!(rec.app(), "live");
    assert_eq!(rec.stream(), "cam");
}
