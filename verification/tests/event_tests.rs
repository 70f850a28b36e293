use media_core::event::{
    AuthInvoker, Event, EventKind, HandlerReply, HttpDispatch, HttpHandlerOutcome,
    HttpResponseInvoker, PlayDecision, PublishAuthInvoker, PublishDecision, RealmDecision,
    RealmReply, RtspAuthDecision, RtspAuthInvoker, RtspGetRealmInvoker,
};
use media_core::registry::{MediaRegistry, StreamKey};

#[test]
fn subscription_table_inserts_and_removes() {
    let mut hub = Event::new();
    assert!(!hub.is_registered(EventKind::MediaPlay));
    hub.subscribe(EventKind::MediaPlay);
    assert!(hub.is_registered(EventKind::MediaPlay));
    // Registering again replaces the handler; the table does not grow.
    hub.subscribe(EventKind::MediaPlay);
    assert!(hub.is_registered(EventKind::MediaPlay));
    assert!(!hub.is_registered(EventKind::Log));
    assert!(hub.unsubscribe(EventKind::MediaPlay));
    assert!(!hub.is_registered(EventKind::MediaPlay));
    assert!(!hub.unsubscribe(EventKind::MediaPlay));
}

#[test]
fn play_defaults_to_allow_without_handler() {
    let hub = Event::new();
    assert!(matches!(hub.dispatch_media_play(None), PlayDecision::Allow));
}

#[test]
fn play_failure_denies_with_its_description() {
    let mut hub = Event::new();
    hub.subscribe(EventKind::MediaPlay);
    assert!(matches!(
        hub.dispatch_media_play(Some(Ok(()))),
        PlayDecision::Allow
    ));
    match hub.dispatch_media_play(Some(Err(String::from("no ticket")))) {
        PlayDecision::Deny(reason) => assert_eq!(reason, "no ticket"),
        PlayDecision::Allow => panic!("a failed handler must deny"),
    }
}

#[test]
fn not_found_defaults_to_not_found() {
    let hub = Event::new();
    assert!(!hub.dispatch_media_not_found(None));
}

#[test]
fn not_found_true_creates_nothing() {
    let mut hub = Event::new();
    hub.subscribe(EventKind::MediaNotFound);
    let reg = MediaRegistry::new();
    // The handler promises an asynchronous creation...
    assert!(hub.dispatch_media_not_found(Some(true)));
    // ...but the dispatch itself created no source: after any wait, the
    // stream is still absent until the caller explicitly registers one.
    let key = StreamKey::new("__defaultVhost__", "live", "promised");
    assert!(reg.find(&key).is_none());
    assert_eq!(reg.len(), 0);
}

#[test]
fn http_request_without_handler_falls_through() {
    let hub = Event::new();
    assert!(matches!(
        hub.dispatch_http_request(None),
        HttpDispatch::NotConsumed
    ));
}

#[test]
fn http_consumed_without_invocation_hangs() {
    let mut hub = Event::new();
    hub.subscribe(EventKind::HttpRequest);
    // Handler claimed the request but never invoked the responder: the
    // client gets nothing, and no default response is substituted.
    let d = hub.dispatch_http_request(Some(HttpHandlerOutcome {
        consumed: true,
        response: None,
    }));
    assert!(matches!(d, HttpDispatch::Pending));
}

#[test]
fn http_response_passes_through_unchanged() {
    let mut hub = Event::new();
    hub.subscribe(EventKind::HttpRequest);
    let invoker = HttpResponseInvoker::new();
    let response = invoker.invoke(200, vec![String::from("Content-Type: text/plain")], "ok");
    let d = hub.dispatch_http_request(Some(HttpHandlerOutcome {
        consumed: true,
        response: Some(response),
    }));
    match d {
        HttpDispatch::Respond(sent) => {
            assert_eq!(sent.code, 200);
            assert_eq!(sent.headers, vec![String::from("Content-Type: text/plain")]);
            assert_eq!(sent.body, "ok");
        }
        _ => panic!("a consumed request with a response must be answered"),
    }
}

#[test]
fn http_unconsumed_report_falls_through() {
    let mut hub = Event::new();
    hub.subscribe(EventKind::HttpRequest);
    let d = hub.dispatch_http_request(Some(HttpHandlerOutcome {
        consumed: false,
        response: None,
    }));
    assert!(matches!(d, HttpDispatch::NotConsumed));
}

#[test]
fn publish_decisions() {
    let mut hub = Event::new();
    assert!(matches!(
        hub.dispatch_media_publish(HandlerReply::NotRegistered),
        PublishDecision::Allow { enable_mp4: false, enable_hls: false }
    ));
    hub.subscribe(EventKind::MediaPublish);
    assert!(matches!(
        hub.dispatch_media_publish(HandlerReply::NoReply),
        PublishDecision::Pending
    ));
    let allow = PublishAuthInvoker::new().call("", true, false);
    assert!(matches!(
        hub.dispatch_media_publish(HandlerReply::Replied(allow)),
        PublishDecision::Allow { enable_mp4: true, enable_hls: false }
    ));
    let deny = PublishAuthInvoker::new().call("bad credentials", false, false);
    match hub.dispatch_media_publish(HandlerReply::Replied(deny)) {
        PublishDecision::Deny(msg) => assert_eq!(msg, "bad credentials"),
        _ => panic!("a nonempty message must deny"),
    }
}

#[test]
fn before_access_defaults_to_identity() {
    let hub = Event::new();
    let p = hub.dispatch_http_before_access(None, String::from("/www/index.html"));
    assert_eq!(p, "/www/index.html");
}

#[test]
fn before_access_rewrites_path() {
    let mut hub = Event::new();
    hub.subscribe(EventKind::HttpBeforeAccess);
    let p = hub.dispatch_http_before_access(
        Some(String::from("/alt/index.html")),
        String::from("/www/index.html"),
    );
    assert_eq!(p, "/alt/index.html");
}

#[test]
fn realm_decisions() {
    let mut hub = Event::new();
    assert!(matches!(
        hub.dispatch_rtsp_get_realm(HandlerReply::NotRegistered),
        RealmDecision::NoAuth
    ));
    hub.subscribe(EventKind::RtspGetRealm);
    assert!(matches!(
        hub.dispatch_rtsp_get_realm(HandlerReply::NoReply),
        RealmDecision::Pending
    ));
    let open_reply = RtspGetRealmInvoker::new().call("");
    assert!(matches!(
        hub.dispatch_rtsp_get_realm(HandlerReply::Replied(open_reply)),
        RealmDecision::NoAuth
    ));
    let named = RtspGetRealmInvoker::new().call("cameras");
    match hub.dispatch_rtsp_get_realm(HandlerReply::Replied(named)) {
        RealmDecision::Challenge(realm) => assert_eq!(realm, "cameras"),
        _ => panic!("a nonempty realm must challenge"),
    }
}

#[test]
fn rtsp_auth_decisions() {
    let mut hub = Event::new();
    hub.subscribe(EventKind::RtspAuth);
    assert!(matches!(
        hub.dispatch_rtsp_auth(HandlerReply::NoReply),
        RtspAuthDecision::Pending
    ));
    let reply = RtspAuthInvoker::new().call("secret", false);
    match hub.dispatch_rtsp_auth(HandlerReply::Replied(reply)) {
        RtspAuthDecision::Credential {
            pwd_or_md5,
            encrypted,
        } => {
            assert_eq!(pwd_or_md5, "secret");
            assert!(!encrypted);
        }
        RtspAuthDecision::Pending => panic!("a consumed invoker must yield the credential"),
    }
}

#[test]
fn auth_invoker_consumes_into_its_verdict() {
    let allowed = AuthInvoker::new().allow();
    assert!(allowed.allowed);
    assert_eq!(allowed.reason, "");
    let denied = AuthInvoker::new().deny("who are you");
    assert!(!denied.allowed);
    assert_eq!(denied.reason, "who are you");
}

#[test]
fn notify_kinds_deliver_only_when_subscribed() {
    let mut hub = Event::new();
    assert!(!hub.delivers(EventKind::RecordMp4));
    hub.subscribe(EventKind::RecordMp4);
    assert!(hub.delivers(EventKind::RecordMp4));
    assert!(!hub.delivers(EventKind::RecordTs));
    let reply = RealmReply {
        realm: String::from("r"),
    };
    assert_eq!(reply.realm, "r");
}
