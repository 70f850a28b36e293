//! Protocol listener lifecycle.
//!
//! Each listener binds one port and is started independently; binding a
//! port twice is refused and reported synchronously.  Listeners stop only
//! collectively: there is deliberately no per-listener stop, and callers
//! needing selective shutdown must not rely on one.

use vstd::prelude::*;

verus! {

/// The protocols a listener can serve.
#[derive(Clone, Copy, PartialEq, Eq, Structural, Debug)]
pub enum Protocol {
    Http,
    Rtsp,
    Rtmp,
    Rtp,
    Srt,
    Rtc,
}

/// One bound listener.
#[derive(Clone, Copy, PartialEq, Eq, Structural, Debug)]
pub struct ListenerView {
    pub protocol: Protocol,
    pub ssl: bool,
}

struct Listener {
    protocol: Protocol,
    port: u16,
    ssl: bool,
}

/// The set of running protocol listeners.
///
/// Its view is the map from bound port to what listens there.
pub struct Server {
    listeners: Vec<Listener>,
}

impl Server {
    /// No port is bound twice.
    pub closed spec fn wf(&self) -> bool {
        forall|i: int, j: int|
            0 <= i < j < self.listeners@.len() ==> self.listeners@[i].port
                != self.listeners@[j].port
    }

    pub closed spec fn view(&self) -> Map<u16, ListenerView> {
        Map::new(
            |p: u16|
                exists|i: int| 0 <= i < self.listeners@.len() && self.listeners@[i].port == p,
            |p: u16|
                {
                    let e = self.listeners@[choose|i: int|
                        0 <= i < self.listeners@.len() && self.listeners@[i].port == p];
                    ListenerView { protocol: e.protocol, ssl: e.ssl }
                },
        )
    }

    proof fn lemma_entry_value(&self, i: int)
        requires
            self.wf(),
            0 <= i < self.listeners@.len(),
        ensures
            self@.dom().contains(self.listeners@[i].port),
            self@[self.listeners@[i].port] == (ListenerView {
                protocol: self.listeners@[i].protocol,
                ssl: self.listeners@[i].ssl,
            }),
    {
        let p = self.listeners@[i].port;
        assert(0 <= i < self.listeners@.len() && self.listeners@[i].port == p);
        let j = choose|j: int| 0 <= j < self.listeners@.len() && self.listeners@[j].port == p;
        if j < i {
            assert(self.listeners@[j].port != self.listeners@[i].port);
        } else if i < j {
            assert(self.listeners@[i].port != self.listeners@[j].port);
        }
    }

    /// A server with nothing listening.
    pub fn new() -> (r: Self)
        ensures
            r.wf(),
            r@ == Map::<u16, ListenerView>::empty(),
    {
        let r = Server { listeners: Vec::new() };
        proof {
            assert(r@ =~= Map::<u16, ListenerView>::empty());
        }
        r
    }

    fn find_port(&self, port: u16) -> (r: Option<usize>)
        requires
            self.wf(),
        ensures
            match r {
                Some(i) => i < self.listeners@.len() && self.listeners@[i as int].port == port,
                None => forall|i: int|
                    0 <= i < self.listeners@.len() ==> self.listeners@[i].port != port,
            },
    {
        let mut i: usize = 0;
        while i < self.listeners.len()
            invariant
                i <= self.listeners@.len(),
                forall|j: int| 0 <= j < i ==> self.listeners@[j].port != port,
            decreases self.listeners@.len() - i,
        {
            if self.listeners[i].port == port {
                return Some(i);
            }
            i = i + 1;
        }
        None
    }

    /// Start a listener.  A free port is bound and the call reports
    /// `true`; a port already bound is refused, whatever protocol holds
    /// it, and nothing changes.
    pub fn start(&mut self, protocol: Protocol, port: u16, ssl: bool) -> (r: bool)
        requires
            old(self).wf(),
        ensures
            final(self).wf(),
            r == !old(self)@.dom().contains(port),
            r ==> final(self)@ == old(self)@.insert(port, ListenerView { protocol, ssl }),
            !r ==> final(self)@ == old(self)@,
    {
        match self.find_port(port) {
            Some(i) => {
                proof {
                    self.lemma_entry_value(i as int);
                }
                false
            },
            None => {
                self.listeners.push(Listener { protocol, port, ssl });
                proof {
                    let last = self.listeners@.len() - 1;
                    assert(self.listeners@[last].port == port);
                    assert forall|a: int, b: int|
                        0 <= a < b < self.listeners@.len() implies self.listeners@[a].port
                        != self.listeners@[b].port by {
                        if b < last {
                            assert(old(self).listeners@[a].port != old(self).listeners@[b].port);
                        } else {
                            assert(old(self).listeners@[a].port != port);
                        }
                    }
                    let m = old(self)@.insert(port, ListenerView { protocol, ssl });
                    assert forall|p2: u16| self@.dom().contains(p2) implies m.dom().contains(p2)
                        && self@[p2] == m[p2] by {
                        let j = choose|j: int|
                            0 <= j < self.listeners@.len() && self.listeners@[j].port == p2;
                        self.lemma_entry_value(j);
                        if j == last {
                            assert(p2 == port);
                        } else {
                            assert(old(self).listeners@[j].port == p2);
                            old(self).lemma_entry_value(j);
                            assert(p2 != port);
                        }
                    }
                    assert forall|p2: u16| m.dom().contains(p2) implies self@.dom().contains(
                        p2,
                    ) by {
                        if p2 == port {
                            assert(self.listeners@[last].port == p2);
                        } else {
                            let j = choose|j: int|
                                0 <= j < old(self).listeners@.len() && old(
                                    self,
                                ).listeners@[j].port == p2;
                            assert(self.listeners@[j].port == p2);
                        }
                    }
                    assert(self@ =~= m);
                }
                true
            },
        }
    }

    /// Start the HTTP (or HTTPS) listener on `port`.
    pub fn http_server_start(&mut self, port: u16, ssl: bool) -> (r: bool)
        requires
            old(self).wf(),
        ensures
            final(self).wf(),
            r == !old(self)@.dom().contains(port),
            r ==> final(self)@ == old(self)@.insert(
                port,
                ListenerView { protocol: Protocol::Http, ssl },
            ),
            !r ==> final(self)@ == old(self)@,
    {
        self.start(Protocol::Http, port, ssl)
    }

    /// Start the RTSP (or RTSPS) listener on `port`.
    pub fn rtsp_server_start(&mut self, port: u16, ssl: bool) -> (r: bool)
        requires
            old(self).wf(),
        ensures
            final(self).wf(),
            r == !old(self)@.dom().contains(port),
            r ==> final(self)@ == old(self)@.insert(
                port,
                ListenerView { protocol: Protocol::Rtsp, ssl },
            ),
            !r ==> final(self)@ == old(self)@,
    {
        self.start(Protocol::Rtsp, port, ssl)
    }

    /// Start the RTMP (or RTMPS) listener on `port`.
    pub fn rtmp_server_start(&mut self, port: u16, ssl: bool) -> (r: bool)
        requires
            old(self).wf(),
        ensures
            final(self).wf(),
            r == !old(self)@.dom().contains(port),
            r ==> final(self)@ == old(self)@.insert(
                port,
                ListenerView { protocol: Protocol::Rtmp, ssl },
            ),
            !r ==> final(self)@ == old(self)@,
    {
        self.start(Protocol::Rtmp, port, ssl)
    }

    /// Start the RTP listener on `port`.
    pub fn rtp_server_start(&mut self, port: u16) -> (r: bool)
        requires
            old(self).wf(),
        ensures
            final(self).wf(),
            r == !old(self)@.dom().contains(port),
            r ==> final(self)@ == old(self)@.insert(
                port,
                ListenerView { protocol: Protocol::Rtp, ssl: false },
            ),
            !r ==> final(self)@ == old(self)@,
    {
        self.start(Protocol::Rtp, port, false)
    }

    /// Start the SRT listener on `port`.
    pub fn srt_server_start(&mut self, port: u16) -> (r: bool)
        requires
            old(self).wf(),
        ensures
            final(self).wf(),
            r == !old(self)@.dom().contains(port),
            r ==> final(self)@ == old(self)@.insert(
                port,
                ListenerView { protocol: Protocol::Srt, ssl: false },
            ),
            !r ==> final(self)@ == old(self)@,
    {
        self.start(Protocol::Srt, port, false)
    }

    /// Start the WebRTC listener on `port`.
    pub fn rtc_server_start(&mut self, port: u16) -> (r: bool)
        requires
            old(self).wf(),
        ensures
            final(self).wf(),
            r == !old(self)@.dom().contains(port),
            r ==> final(self)@ == old(self)@.insert(
                port,
                ListenerView { protocol: Protocol::Rtc, ssl: false },
            ),
            !r ==> final(self)@ == old(self)@,
    {
        self.start(Protocol::Rtc, port, false)
    }

    /// Stop every listener.  This is the only stop there is.
    pub fn stop_all_server(&mut self)
        ensures
            final(self).wf(),
            final(self)@ == Map::<u16, ListenerView>::empty(),
    {
        self.listeners.clear();
        proof {
            assert(self@ =~= Map::<u16, ListenerView>::empty());
        }
    }
}

/// One stream-scoped RTP receiver, bound to its own port.
pub struct RtpServer {
    port: u16,
    tcp_mode: i32,
    stream_id: String,
    detach_handler: bool,
    target: Option<(String, u16)>,
}

impl RtpServer {
    pub closed spec fn spec_port(&self) -> u16 {
        self.port
    }

    pub closed spec fn spec_tcp_mode(&self) -> i32 {
        self.tcp_mode
    }

    pub closed spec fn spec_stream_id(&self) -> Seq<char> {
        self.stream_id@
    }

    pub closed spec fn has_detach_handler(&self) -> bool {
        self.detach_handler
    }

    /// The remote endpoint a connect was issued towards, if any.
    pub closed spec fn spec_target(&self) -> Option<(Seq<char>, u16)> {
        match self.target {
            Some(t) => Some((t.0@, t.1)),
            None => None,
        }
    }

    /// A receiver bound to `port` for the stream named `stream_id`.
    pub fn new(port: u16, tcp_mode: i32, stream_id: &str) -> (r: Self)
        ensures
            r.spec_port() == port,
            r.spec_tcp_mode() == tcp_mode,
            r.spec_stream_id() == stream_id@,
            !r.has_detach_handler(),
            r.spec_target() is None,
    {
        RtpServer {
            port,
            tcp_mode,
            stream_id: stream_id.to_owned(),
            detach_handler: false,
            target: None,
        }
    }

    /// The port this receiver is bound to.
    pub fn bind_port(&self) -> (r: u16)
        ensures
            r == self.spec_port(),
    {
        self.port
    }

    /// Register the detach callback slot.
    pub fn on_detach(&mut self)
        ensures
            final(self).has_detach_handler(),
            final(self).spec_port() == old(self).spec_port(),
            final(self).spec_tcp_mode() == old(self).spec_tcp_mode(),
            final(self).spec_stream_id() == old(self).spec_stream_id(),
            final(self).spec_target() == old(self).spec_target(),
    {
        self.detach_handler = true;
    }

    /// Issue an active connect towards `url:dst_port`; its outcome
    /// arrives through the connect callback.
    pub fn connect(&mut self, url: &str, dst_port: u16)
        ensures
            final(self).spec_target() == Some((url@, dst_port)),
            final(self).spec_port() == old(self).spec_port(),
            final(self).spec_tcp_mode() == old(self).spec_tcp_mode(),
            final(self).spec_stream_id() == old(self).spec_stream_id(),
            final(self).has_detach_handler() == old(self).has_detach_handler(),
    {
        self.target = Some((url.to_owned(), dst_port));
    }
}

} // verus!
