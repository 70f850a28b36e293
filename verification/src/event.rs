//! Event-dispatch hub.
//!
//! A process-wide table holds at most one handler per event kind;
//! registering a kind again replaces the previous handler.  Handlers run
//! synchronously on whatever thread raised the event, so dispatch here is
//! split in two: this module records which kinds have a handler and turns
//! each handler's answer into the engine's action, while the code that
//! owns the actual callbacks invokes them and feeds the answers back.
//!
//! Pending protocol decisions (authentication verdicts, HTTP responses,
//! realm challenges) are answered through single-use invokers: values
//! that are consumed by their one invocation, so a second call is ruled
//! out by ownership.

use vstd::prelude::*;

use crate::info::{MediaInfo, Parser, RecordInfo, SockInfo};
use crate::registry::MediaSource;

verus! {

/// The kinds of server-wide events a handler can be registered for.
#[derive(Clone, Copy, PartialEq, Eq, Structural, Debug)]
pub enum EventKind {
    MediaChanged,
    MediaPublish,
    MediaNotFound,
    MediaPlay,
    MediaNoReader,
    HttpRequest,
    HttpBeforeAccess,
    RtspGetRealm,
    RtspAuth,
    RecordMp4,
    RecordTs,
    ShellLogin,
    FlowReport,
    Log,
    MediaSendRtpStop,
    RtcSctpConnecting,
    RtcSctpConnected,
    RtcSctpFailed,
    RtcSctpClosed,
    RtcSctpSend,
    RtcSctpReceived,
}

/// What came back from the handler of one dispatched event.
pub enum HandlerReply<T> {
    /// No handler is registered for the kind.
    NotRegistered,
    /// A handler ran but never consumed its invoker.
    NoReply,
    /// A handler ran and answered through its invoker.
    Replied(T),
}

/// Verdict on a pending playback or login request.
pub struct AuthReply {
    pub allowed: bool,
    pub reason: String,
}

/// Single-use capability answering one pending allow/deny decision.
/// Invoking it consumes it, so it fires at most once.
pub struct AuthInvoker {}

impl AuthInvoker {
    pub fn new() -> AuthInvoker {
        AuthInvoker {}
    }

    /// Allow the pending request.
    pub fn allow(self) -> (r: AuthReply)
        ensures
            r.allowed,
            r.reason@ == Seq::<char>::empty(),
    {
        AuthReply { allowed: true, reason: String::new() }
    }

    /// Deny the pending request with a reason.
    pub fn deny(self, error: &str) -> (r: AuthReply)
        ensures
            !r.allowed,
            r.reason@ == error@,
    {
        AuthReply { allowed: false, reason: error.to_owned() }
    }
}

/// Verdict on a pending publish request: an empty message allows, any
/// other denies with that message.
pub struct PublishReply {
    pub err_msg: String,
    pub enable_mp4: bool,
    pub enable_hls: bool,
}

/// Single-use capability answering one pending publish request.
pub struct PublishAuthInvoker {}

impl PublishAuthInvoker {
    pub fn new() -> PublishAuthInvoker {
        PublishAuthInvoker {}
    }

    /// Answer the pending publish request.
    pub fn call(self, err_msg: &str, enable_mp4: bool, enable_hls: bool) -> (r: PublishReply)
        ensures
            r.err_msg@ == err_msg@,
            r.enable_mp4 == enable_mp4,
            r.enable_hls == enable_hls,
    {
        PublishReply { err_msg: err_msg.to_owned(), enable_mp4, enable_hls }
    }
}

/// One HTTP response: status code, header lines and body.
pub struct HttpResponse {
    pub code: i32,
    pub headers: Vec<String>,
    pub body: String,
}

/// Single-use capability answering one intercepted HTTP request.
pub struct HttpResponseInvoker {}

impl HttpResponseInvoker {
    pub fn new() -> HttpResponseInvoker {
        HttpResponseInvoker {}
    }

    /// Send exactly this response to the waiting client.
    pub fn invoke(self, code: i32, headers: Vec<String>, body: &str) -> (r: HttpResponse)
        ensures
            r.code == code,
            r.headers@ == headers@,
            r.body@ == body@,
    {
        HttpResponse { code, headers, body: body.to_owned() }
    }
}

/// The realm a client must authenticate against; empty for open access.
pub struct RealmReply {
    pub realm: String,
}

/// Single-use capability answering one realm challenge.
pub struct RtspGetRealmInvoker {}

impl RtspGetRealmInvoker {
    pub fn new() -> RtspGetRealmInvoker {
        RtspGetRealmInvoker {}
    }

    /// Answer with the realm to challenge the client with.
    pub fn call(self, realm: &str) -> (r: RealmReply)
        ensures
            r.realm@ == realm@,
    {
        RealmReply { realm: realm.to_owned() }
    }
}

/// The credential the engine must verify an RTSP client against.
pub struct RtspAuthReply {
    pub pwd_or_md5: String,
    pub encrypted: bool,
}

/// Single-use capability answering one credential lookup.
pub struct RtspAuthInvoker {}

impl RtspAuthInvoker {
    pub fn new() -> RtspAuthInvoker {
        RtspAuthInvoker {}
    }

    /// Hand the stored password (or its digest) to the engine.
    pub fn call(self, pwd_or_md5: &str, encrypted: bool) -> (r: RtspAuthReply)
        ensures
            r.pwd_or_md5@ == pwd_or_md5@,
            r.encrypted == encrypted,
    {
        RtspAuthReply { pwd_or_md5: pwd_or_md5.to_owned(), encrypted }
    }
}

/// Engine action after a playback request was dispatched.
pub enum PlayDecision {
    Allow,
    Deny(String),
}

/// Engine action after a publish request was dispatched.
pub enum PublishDecision {
    Allow { enable_mp4: bool, enable_hls: bool },
    Deny(String),
    Pending,
}

/// What a registered HTTP handler reported back.
pub struct HttpHandlerOutcome {
    pub consumed: bool,
    pub response: Option<HttpResponse>,
}

/// Engine action after an HTTP request was dispatched.
pub enum HttpDispatch {
    /// Nobody consumed the request; the engine serves it itself.
    NotConsumed,
    /// The handler's response goes to the client.
    Respond(HttpResponse),
    /// The handler consumed the request but sent nothing: the client
    /// stays waiting; no default response is substituted.
    Pending,
}

/// Engine action after a realm challenge was dispatched.
pub enum RealmDecision {
    /// No authentication: the request proceeds unchallenged.
    NoAuth,
    /// Challenge the client against this realm.
    Challenge(String),
    /// The handler never answered; the client stays waiting.
    Pending,
}

/// Engine action after a credential lookup was dispatched.
pub enum RtspAuthDecision {
    /// Verify the client against this stored credential.
    Credential { pwd_or_md5: String, encrypted: bool },
    /// No credential arrived; the client stays waiting.
    Pending,
}

/// The dispatch table: which event kinds currently have a handler.
///
/// Its view is the set of subscribed kinds.
pub struct Event {
    kinds: Vec<EventKind>,
}

impl Event {
    /// No kind is recorded twice.
    pub closed spec fn wf(&self) -> bool {
        forall|i: int, j: int|
            0 <= i < j < self.kinds@.len() ==> self.kinds@[i] != self.kinds@[j]
    }

    pub closed spec fn view(&self) -> Set<EventKind> {
        Set::new(|k: EventKind| exists|i: int| 0 <= i < self.kinds@.len() && self.kinds@[i] == k)
    }

    /// A table with no handler registered.
    pub fn new() -> (r: Self)
        ensures
            r.wf(),
            r@ == Set::<EventKind>::empty(),
    {
        let r = Event { kinds: Vec::new() };
        proof {
            assert(r@ =~= Set::<EventKind>::empty());
        }
        r
    }

    fn find_index(&self, kind: EventKind) -> (r: Option<usize>)
        ensures
            match r {
                Some(i) => i < self.kinds@.len() && self.kinds@[i as int] == kind,
                None => forall|i: int| 0 <= i < self.kinds@.len() ==> self.kinds@[i] != kind,
            },
    {
        let mut i: usize = 0;
        while i < self.kinds.len()
            invariant
                i <= self.kinds@.len(),
                forall|j: int| 0 <= j < i ==> self.kinds@[j] != kind,
            decreases self.kinds@.len() - i,
        {
            if self.kinds[i] == kind {
                return Some(i);
            }
            i = i + 1;
        }
        None
    }

    /// Whether a handler is registered for `kind`.
    pub fn is_registered(&self, kind: EventKind) -> (r: bool)
        ensures
            r == self@.contains(kind),
    {
        match self.find_index(kind) {
            Some(_) => true,
            None => false,
        }
    }

    /// Record that a handler now serves `kind`.  Registering a kind that
    /// already has one replaces that handler, so the table is unchanged.
    pub fn subscribe(&mut self, kind: EventKind)
        requires
            old(self).wf(),
        ensures
            final(self).wf(),
            final(self)@ == old(self)@.insert(kind),
    {
        match self.find_index(kind) {
            Some(_) => {
                proof {
                    assert(self@ =~= old(self)@.insert(kind));
                }
            },
            None => {
                self.kinds.push(kind);
                proof {
                    let last = self.kinds@.len() - 1;
                    assert(self.kinds@[last] == kind);
                    assert forall|a: int, b: int|
                        0 <= a < b < self.kinds@.len() implies self.kinds@[a]
                        != self.kinds@[b] by {
                        if b < last {
                            assert(old(self).kinds@[a] != old(self).kinds@[b]);
                        } else {
                            assert(old(self).kinds@[a] != kind);
                        }
                    }
                    assert forall|k2: EventKind| self@.contains(k2) implies old(self)@.insert(
                        kind,
                    ).contains(k2) by {
                        let j = choose|j: int|
                            0 <= j < self.kinds@.len() && self.kinds@[j] == k2;
                        if j < last {
                            assert(old(self).kinds@[j] == k2);
                        }
                    }
                    assert forall|k2: EventKind| old(self)@.insert(kind).contains(k2)
                        implies self@.contains(k2) by {
                        if k2 == kind {
                            assert(self.kinds@[last] == k2);
                        } else {
                            let j = choose|j: int|
                                0 <= j < old(self).kinds@.len() && old(self).kinds@[j] == k2;
                            assert(self.kinds@[j] == k2);
                        }
                    }
                    assert(self@ =~= old(self)@.insert(kind));
                }
            },
        }
    }

    /// Drop the handler of `kind`, if one is registered.
    pub fn unsubscribe(&mut self, kind: EventKind) -> (r: bool)
        requires
            old(self).wf(),
        ensures
            final(self).wf(),
            r == old(self)@.contains(kind),
            final(self)@ == old(self)@.remove(kind),
    {
        match self.find_index(kind) {
            Some(i) => {
                self.kinds.remove(i);
                proof {
                    assert(old(self).kinds@[i as int] == kind);
                    assert forall|a: int, b: int|
                        0 <= a < b < self.kinds@.len() implies self.kinds@[a]
                        != self.kinds@[b] by {
                        let oa: int = if a < i {
                            a
                        } else {
                            a + 1
                        };
                        let ob: int = if b < i {
                            b
                        } else {
                            b + 1
                        };
                        assert(self.kinds@[a] == old(self).kinds@[oa]);
                        assert(self.kinds@[b] == old(self).kinds@[ob]);
                        assert(old(self).kinds@[oa] != old(self).kinds@[ob]);
                    }
                    assert forall|k2: EventKind| self@.contains(k2) implies old(self)@.remove(
                        kind,
                    ).contains(k2) by {
                        let j = choose|j: int|
                            0 <= j < self.kinds@.len() && self.kinds@[j] == k2;
                        let oj: int = if j < i {
                            j
                        } else {
                            j + 1
                        };
                        assert(self.kinds@[j] == old(self).kinds@[oj]);
                        if k2 == kind {
                            if oj < i {
                                assert(old(self).kinds@[oj] != old(self).kinds@[i as int]);
                            } else {
                                assert(old(self).kinds@[i as int] != old(self).kinds@[oj]);
                            }
                        }
                    }
                    assert forall|k2: EventKind| old(self)@.remove(kind).contains(k2)
                        implies self@.contains(k2) by {
                        let oj = choose|j: int|
                            0 <= j < old(self).kinds@.len() && old(self).kinds@[j] == k2;
                        if oj < i {
                            assert(self.kinds@[oj] == k2);
                        } else {
                            assert(oj != i);
                            assert(self.kinds@[oj - 1] == k2);
                        }
                    }
                    assert(self@ =~= old(self)@.remove(kind));
                }
                true
            },
            None => {
                proof {
                    assert(self@ =~= old(self)@.remove(kind));
                }
                false
            },
        }
    }

    /// Whether a notify-only event of `kind` reaches a handler.
    pub fn delivers(&self, kind: EventKind) -> (r: bool)
        ensures
            r == self@.contains(kind),
    {
        self.is_registered(kind)
    }

    /// Turn the playback handler's answer into the engine's action.
    ///
    /// With no handler, playback is allowed by default.  A handler's
    /// success allows; its failure denies with the failure's description.
    pub fn dispatch_media_play(&self, outcome: Option<Result<(), String>>) -> (d: PlayDecision)
        requires
            (outcome is Some) == self@.contains(EventKind::MediaPlay),
        ensures
            match outcome {
                None => d is Allow,
                Some(res) => match res {
                    Ok(_) => d is Allow,
                    Err(e) => d matches PlayDecision::Deny(m) && m@ == e@,
                },
            },
    {
        match outcome {
            None => PlayDecision::Allow,
            Some(Ok(())) => PlayDecision::Allow,
            Some(Err(e)) => PlayDecision::Deny(e),
        }
    }

    /// Turn the not-found handler's answer into the engine's action.
    ///
    /// `true` promises only that the caller will try to create the stream
    /// asynchronously; this dispatch itself creates no source (it reaches
    /// no registry), so creation remains the caller's explicit act.  With
    /// no handler, the stream is reported genuinely not found.
    pub fn dispatch_media_not_found(&self, answer: Option<bool>) -> (will_retry: bool)
        requires
            (answer is Some) == self@.contains(EventKind::MediaNotFound),
        ensures
            will_retry == (answer matches Some(true)),
    {
        match answer {
            Some(b) => b,
            None => false,
        }
    }

    /// Turn the publish handler's answer into the engine's action.
    ///
    /// With no handler, publishing is allowed with both recording flags
    /// off.  An empty error message allows with the handler's flags; any
    /// other denies with that message.  A handler that never consumed its
    /// invoker leaves the publisher waiting.
    pub fn dispatch_media_publish(&self, reply: HandlerReply<PublishReply>) -> (d: PublishDecision)
        requires
            (reply is NotRegistered) == !self@.contains(EventKind::MediaPublish),
        ensures
            match reply {
                HandlerReply::NotRegistered => d matches PublishDecision::Allow {
                    enable_mp4: false,
                    enable_hls: false,
                },
                HandlerReply::NoReply => d is Pending,
                HandlerReply::Replied(rep) => if rep.err_msg@.len() == 0 {
                    d matches PublishDecision::Allow { enable_mp4, enable_hls } && enable_mp4
                        == rep.enable_mp4 && enable_hls == rep.enable_hls
                } else {
                    d matches PublishDecision::Deny(m) && m@ == rep.err_msg@
                },
            },
    {
        match reply {
            HandlerReply::NotRegistered => PublishDecision::Allow {
                enable_mp4: false,
                enable_hls: false,
            },
            HandlerReply::NoReply => PublishDecision::Pending,
            HandlerReply::Replied(rep) => {
                if rep.err_msg.as_str().is_empty() {
                    PublishDecision::Allow {
                        enable_mp4: rep.enable_mp4,
                        enable_hls: rep.enable_hls,
                    }
                } else {
                    PublishDecision::Deny(rep.err_msg)
                }
            },
        }
    }

    /// Turn the HTTP handler's report into the engine's action.
    ///
    /// An unconsumed request falls back to the engine's own serving.  A
    /// consumed request is answered with exactly the handler's response;
    /// a consumed request with no response leaves the client waiting: no
    /// default response is substituted.
    pub fn dispatch_http_request(&self, outcome: Option<HttpHandlerOutcome>) -> (d: HttpDispatch)
        requires
            (outcome is Some) == self@.contains(EventKind::HttpRequest),
        ensures
            match outcome {
                None => d is NotConsumed,
                Some(o) => {
                    &&& !o.consumed ==> d is NotConsumed
                    &&& o.consumed ==> match o.response {
                        Some(resp) => d matches HttpDispatch::Respond(sent) && sent.code
                            == resp.code && sent.headers@ == resp.headers@ && sent.body@
                            == resp.body@,
                        None => d is Pending,
                    }
                },
            },
    {
        match outcome {
            None => HttpDispatch::NotConsumed,
            Some(o) => {
                if !o.consumed {
                    HttpDispatch::NotConsumed
                } else {
                    match o.response {
                        Some(resp) => HttpDispatch::Respond(resp),
                        None => HttpDispatch::Pending,
                    }
                }
            },
        }
    }

    /// Turn the path-rewrite handler's answer into the path to serve:
    /// the handler's replacement, or the unchanged path without one.
    pub fn dispatch_http_before_access(&self, answer: Option<String>, current_path: String) -> (p:
        String)
        requires
            (answer is Some) == self@.contains(EventKind::HttpBeforeAccess),
        ensures
            p@ == (match answer {
                None => current_path@,
                Some(a) => a@,
            }),
    {
        match answer {
            Some(a) => a,
            None => current_path,
        }
    }

    /// Turn the realm handler's answer into the engine's action: no
    /// challenge without a handler or with an empty realm, a challenge
    /// against the named realm otherwise.
    pub fn dispatch_rtsp_get_realm(&self, reply: HandlerReply<RealmReply>) -> (d: RealmDecision)
        requires
            (reply is NotRegistered) == !self@.contains(EventKind::RtspGetRealm),
        ensures
            match reply {
                HandlerReply::NotRegistered => d is NoAuth,
                HandlerReply::NoReply => d is Pending,
                HandlerReply::Replied(rep) => if rep.realm@.len() == 0 {
                    d is NoAuth
                } else {
                    d matches RealmDecision::Challenge(c) && c@ == rep.realm@
                },
            },
    {
        match reply {
            HandlerReply::NotRegistered => RealmDecision::NoAuth,
            HandlerReply::NoReply => RealmDecision::Pending,
            HandlerReply::Replied(rep) => {
                if rep.realm.as_str().is_empty() {
                    RealmDecision::NoAuth
                } else {
                    RealmDecision::Challenge(rep.realm)
                }
            },
        }
    }

    /// Turn the credential handler's answer into the engine's action.
    /// Only a consumed invoker yields a credential to verify against;
    /// anything else leaves the challenge unanswered.
    pub fn dispatch_rtsp_auth(&self, reply: HandlerReply<RtspAuthReply>) -> (d: RtspAuthDecision)
        requires
            (reply is NotRegistered) == !self@.contains(EventKind::RtspAuth),
        ensures
            match reply {
                HandlerReply::Replied(rep) => d matches RtspAuthDecision::Credential {
                    pwd_or_md5,
                    encrypted,
                } && pwd_or_md5@ == rep.pwd_or_md5@ && encrypted == rep.encrypted,
                _ => d is Pending,
            },
    {
        match reply {
            HandlerReply::Replied(rep) => RtspAuthDecision::Credential {
                pwd_or_md5: rep.pwd_or_md5,
                encrypted: rep.encrypted,
            },
            _ => RtspAuthDecision::Pending,
        }
    }
}

/// Payload of a source lifecycle event.
pub enum MediaChangedMessage {
    Regist(MediaSource),
    UnRegist(MediaSource),
}

/// Payload of a publish request: where from, what URL, and the one
/// invoker that answers it.
pub struct MediaPublishMessage {
    pub url_info: MediaInfo,
    pub auth_invoker: PublishAuthInvoker,
    pub sender: SockInfo,
}

/// Payload of a lookup that found no live source.
pub struct MediaNotFoundMessage {
    pub url_info: MediaInfo,
    pub sock_info: SockInfo,
}

/// Payload of a playback request.
pub struct MediaPlayMessage {
    pub url_info: MediaInfo,
    pub sender: SockInfo,
}

/// Payload raised when a source's last reader detached.
pub struct MediaNoReaderMessage {
    pub sender: MediaSource,
}

/// Payload of an intercepted HTTP request, with the one invoker that
/// answers it.
pub struct HttpRequestMessage {
    pub sender: SockInfo,
    pub parser: Parser,
    pub invoker: HttpResponseInvoker,
}

/// Payload of the path-rewrite hook before an HTTP file access.
pub struct HttpBeforeRequestMessage {
    pub sender: SockInfo,
    pub parser: Parser,
    pub path: String,
}

/// Payload of a realm challenge, with the one invoker that answers it.
pub struct RtspGetRealmMessage {
    pub url_info: MediaInfo,
    pub sender: SockInfo,
    pub invoker: RtspGetRealmInvoker,
}

/// Payload of a credential lookup, with the one invoker that answers it.
pub struct RtspAuthMessage {
    pub url_info: MediaInfo,
    pub realm: String,
    pub user_name: String,
    pub must_no_encrypt: bool,
    pub invoker: RtspAuthInvoker,
    pub sender: SockInfo,
}

/// Payload raised when an MP4 recording segment finished.
pub struct RecordMp4Message {
    pub mp4: RecordInfo,
}

/// Payload raised when a TS recording segment finished.
pub struct RecordTsMessage {
    pub ts: RecordInfo,
}

/// Payload of a debug-shell login attempt, with the one invoker that
/// answers it.
pub struct ShellLoginMessage {
    pub user_name: String,
    pub passwd: String,
    pub invoker: AuthInvoker,
    pub sender: SockInfo,
}

/// Per-session traffic totals, raised at session end.
pub struct FlowReportMessage {
    pub url_info: MediaInfo,
    pub total_bytes: u64,
    pub total_seconds: u64,
    pub is_player: bool,
    pub sender: SockInfo,
}

/// One forwarded log line.
pub struct LogMessage {
    pub level: i32,
    pub file: String,
    pub line: i32,
    pub function: String,
    pub message: String,
}

/// Termination notice of a push-as-RTP client.
pub struct MediaSendRtpStopMessage {
    pub vhost: String,
    pub app: String,
    pub stream: String,
    pub ssrc: String,
    pub err: i32,
    pub msg: String,
}

/// WebRTC data-channel transport state or data event.
pub enum RtcSctpStateMessage {
    Connecting,
    Connected,
    Closed,
    Failed,
    Send(Vec<u8>),
    Received(u16, u32, Vec<u8>),
}

} // verus!
