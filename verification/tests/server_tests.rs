use media_core::server::{RtpServer, Server};

#[test]
fn listeners_start_once_per_port() {
    let mut srv = Server::new();
    assert!(srv.http_server_start(80, false));
    assert!(srv.rtsp_server_start(554, false));
    assert!(srv.rtmp_server_start(1935, false));
    assert!(srv.rtp_server_start(10000));
    assert!(srv.srt_server_start(9000));
    assert!(srv.rtc_server_start(8000));
    // The same port again is a duplicate bind, whatever the protocol.
    assert!(!srv.http_server_start(80, true));
    assert!(!srv.rtsp_server_start(80, false));
}

#[test]
fn stop_is_collective_only() {
    let mut srv = Server::new();
    assert!(srv.http_server_start(80, false));
    assert!(srv.rtsp_server_start(554, false));
    srv.stop_all_server();
    // Everything is gone; the ports can be bound anew.
    assert!(srv.http_server_start(80, false));
    assert!(srv.rtsp_server_start(554, true));
}

#[test]
fn rtp_server_reports_its_binding() {
    let mut rtp = RtpServer::new(10020, 1, "feed");
    assert_eq!(rtp.bind_port(), 10020);
    rtp.on_detach();
    rtp.connect("203.0.113.9", 10020);
}
