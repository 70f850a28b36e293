//! Pull (play) and push (publish) session objects.
//!
//! Both share one lifecycle: `Created`, then `Connecting` once the network
//! action starts, then `Playing` or `Publishing`, and finally `Closed`.
//! The terminal transition happens exactly once and carries the one
//! completion notice `(code, description, system errno)`; code zero is a
//! normal stop, anything else the failure's reason.  No retry is built in:
//! a caller that wants one observes the notice and builds a new session.
//!
//! Identity fields are validated lazily: a builder with empty parts still
//! produces a session, and the failure surfaces through the completion
//! notice after the network action starts, not at construction.

use vstd::prelude::*;

use crate::registry::{KeyView, MediaRegistry, StreamKey};

verus! {

/// Lifecycle state of a session.
#[derive(Clone, Copy, PartialEq, Eq, Structural, Debug)]
pub enum SessionState {
    Created,
    Connecting,
    Playing,
    Publishing,
    Closed,
}

/// The terminal transition: a session in flight closes and its one notice
/// fires; any other state is left as it is and nothing fires.
pub open spec fn spec_terminate(s: SessionState) -> (SessionState, bool) {
    if s is Connecting || s is Playing || s is Publishing {
        (SessionState::Closed, true)
    } else {
        (s, false)
    }
}

/// A session's completion notice fires exactly once: once in flight, the
/// first termination closes the session and fires, and every further
/// termination fires nothing — whether the first failure was local or
/// remote makes no difference to the count.
pub proof fn lemma_completion_fires_exactly_once(s: SessionState)
    requires
        s is Connecting || s is Playing || s is Publishing,
    ensures
        ({
            let (s1, fired1) = spec_terminate(s);
            let (s2, fired2) = spec_terminate(s1);
            fired1 && s1 is Closed && !fired2 && s2 is Closed
        }),
{
}

/// The one completion notice of a pull session.
pub struct CloseNotice {
    pub err_code: i32,
    pub what: String,
    pub sys_err: i32,
}

/// The one completion notice of a push session.
pub struct PushNotice {
    pub err_code: i32,
    pub msg: String,
}

/// A pull session: plays a remote URL into a local source.
pub struct ProxyPlayer {
    vhost: String,
    app: String,
    stream: String,
    hls_enabled: bool,
    mp4_enabled: bool,
    options: Vec<(String, String)>,
    url: Option<String>,
    state: SessionState,
    close_handler: bool,
}

impl ProxyPlayer {
    pub closed spec fn spec_state(&self) -> SessionState {
        self.state
    }

    /// The identity the session was built with; possibly empty parts.
    pub closed spec fn spec_identity(&self) -> KeyView {
        KeyView { vhost: self.vhost@, app: self.app@, stream: self.stream@ }
    }

    pub closed spec fn spec_options(&self) -> Seq<(Seq<char>, Seq<char>)> {
        crate::info::pair_views(self.options@)
    }

    pub closed spec fn spec_url(&self) -> Option<Seq<char>> {
        match self.url {
            Some(u) => Some(u@),
            None => None,
        }
    }

    pub closed spec fn has_close_handler(&self) -> bool {
        self.close_handler
    }

    pub closed spec fn spec_hls_enabled(&self) -> bool {
        self.hls_enabled
    }

    pub closed spec fn spec_mp4_enabled(&self) -> bool {
        self.mp4_enabled
    }

    /// Add one engine option (adapter, transport mode, credentials,
    /// timeouts); later values for a key override earlier ones.
    pub fn set_options(&mut self, key: &str, val: &str)
        ensures
            final(self).spec_options() == old(self).spec_options().push((key@, val@)),
            final(self).spec_state() == old(self).spec_state(),
            final(self).spec_identity() == old(self).spec_identity(),
            final(self).spec_url() == old(self).spec_url(),
            final(self).has_close_handler() == old(self).has_close_handler(),
            final(self).spec_hls_enabled() == old(self).spec_hls_enabled(),
            final(self).spec_mp4_enabled() == old(self).spec_mp4_enabled(),
    {
        self.options.push((key.to_owned(), val.to_owned()));
        proof {
            assert(crate::info::pair_views(self.options@) =~= crate::info::pair_views(
                old(self).options@,
            ).push((key@, val@)));
        }
    }

    /// Register the close callback slot.  At most one is held; a second
    /// registration replaces the first.
    pub fn on_close(&mut self)
        ensures
            final(self).has_close_handler(),
            final(self).spec_state() == old(self).spec_state(),
            final(self).spec_identity() == old(self).spec_identity(),
            final(self).spec_options() == old(self).spec_options(),
            final(self).spec_url() == old(self).spec_url(),
            final(self).spec_hls_enabled() == old(self).spec_hls_enabled(),
            final(self).spec_mp4_enabled() == old(self).spec_mp4_enabled(),
    {
        self.close_handler = true;
    }

    /// Start pulling `url`.  The session goes in flight; whether the
    /// identity or the URL were usable surfaces later through the
    /// completion notice, never here.
    pub fn play(&mut self, url: &str)
        requires
            old(self).spec_state() is Created,
        ensures
            final(self).spec_state() is Connecting,
            final(self).spec_url() == Some(url@),
            final(self).spec_identity() == old(self).spec_identity(),
            final(self).spec_options() == old(self).spec_options(),
            final(self).has_close_handler() == old(self).has_close_handler(),
            final(self).spec_hls_enabled() == old(self).spec_hls_enabled(),
            final(self).spec_mp4_enabled() == old(self).spec_mp4_enabled(),
    {
        self.url = Some(url.to_owned());
        self.state = SessionState::Connecting;
    }

    /// The connection came up: the session is now playing.
    pub fn connected(&mut self)
        requires
            old(self).spec_state() is Connecting,
        ensures
            final(self).spec_state() is Playing,
            final(self).spec_identity() == old(self).spec_identity(),
            final(self).spec_options() == old(self).spec_options(),
            final(self).spec_url() == old(self).spec_url(),
            final(self).has_close_handler() == old(self).has_close_handler(),
            final(self).spec_hls_enabled() == old(self).spec_hls_enabled(),
            final(self).spec_mp4_enabled() == old(self).spec_mp4_enabled(),
    {
        self.state = SessionState::Playing;
    }

    /// Terminal transition.  A session in flight closes and its one
    /// notice is returned for delivery; a session not in flight (never
    /// played, or already closed) stays as it is and nothing fires.
    pub fn complete(&mut self, err_code: i32, what: &str, sys_err: i32) -> (r: Option<CloseNotice>)
        ensures
            final(self).spec_state() == spec_terminate(old(self).spec_state()).0,
            (r is Some) == spec_terminate(old(self).spec_state()).1,
            r matches Some(n) ==> n.err_code == err_code && n.what@ == what@ && n.sys_err
                == sys_err,
            final(self).spec_identity() == old(self).spec_identity(),
            final(self).spec_options() == old(self).spec_options(),
            final(self).spec_url() == old(self).spec_url(),
            final(self).has_close_handler() == old(self).has_close_handler(),
            final(self).spec_hls_enabled() == old(self).spec_hls_enabled(),
            final(self).spec_mp4_enabled() == old(self).spec_mp4_enabled(),
    {
        match self.state {
            SessionState::Connecting | SessionState::Playing => {
                self.state = SessionState::Closed;
                Some(CloseNotice { err_code, what: what.to_owned(), sys_err })
            },
            SessionState::Publishing => {
                self.state = SessionState::Closed;
                Some(CloseNotice { err_code, what: what.to_owned(), sys_err })
            },
            _ => None,
        }
    }

    /// Total number of readers the pulled source ever had, read from the
    /// registry under the session's identity; zero when the source is not
    /// live.
    pub fn total_reader_count(&self, registry: &MediaRegistry) -> (r: u64)
        requires
            registry.wf(),
        ensures
            registry@.dom().contains(self.spec_identity()) ==> r as nat
                == registry@[self.spec_identity()].total_readers,
            !registry@.dom().contains(self.spec_identity()) ==> r == 0,
    {
        let key = StreamKey::new(self.vhost.as_str(), self.app.as_str(), self.stream.as_str());
        match registry.find(&key) {
            Some(src) => src.total_reader_count(),
            None => 0,
        }
    }
}

/// Builder of a pull session.  Field validation is deliberately lazy:
/// empty identity parts are accepted here and fail only once the session
/// is played, through its completion notice.
pub struct ProxyPlayerBuilder {
    vhost: String,
    app: String,
    stream: String,
    hls_enabled: bool,
    mp4_enabled: bool,
    options: Vec<(String, String)>,
}

impl ProxyPlayerBuilder {
    pub closed spec fn spec_identity(&self) -> KeyView {
        KeyView { vhost: self.vhost@, app: self.app@, stream: self.stream@ }
    }

    pub closed spec fn spec_options(&self) -> Seq<(Seq<char>, Seq<char>)> {
        crate::info::pair_views(self.options@)
    }

    pub closed spec fn spec_hls_enabled(&self) -> bool {
        self.hls_enabled
    }

    pub closed spec fn spec_mp4_enabled(&self) -> bool {
        self.mp4_enabled
    }

    /// A builder with every part empty and every flag off.
    pub fn new() -> (r: Self)
        ensures
            r.spec_identity() == (KeyView {
                vhost: Seq::empty(),
                app: Seq::empty(),
                stream: Seq::empty(),
            }),
            r.spec_options() == Seq::<(Seq<char>, Seq<char>)>::empty(),
            !r.spec_hls_enabled(),
            !r.spec_mp4_enabled(),
    {
        ProxyPlayerBuilder {
            vhost: String::new(),
            app: String::new(),
            stream: String::new(),
            hls_enabled: false,
            mp4_enabled: false,
            options: Vec::new(),
        }
    }

    pub fn vhost(self, vhost: &str) -> (r: Self)
        ensures
            r.spec_identity() == (KeyView { vhost: vhost@, ..self.spec_identity() }),
            r.spec_options() == self.spec_options(),
            r.spec_hls_enabled() == self.spec_hls_enabled(),
            r.spec_mp4_enabled() == self.spec_mp4_enabled(),
    {
        ProxyPlayerBuilder { vhost: vhost.to_owned(), ..self }
    }

    pub fn app(self, app: &str) -> (r: Self)
        ensures
            r.spec_identity() == (KeyView { app: app@, ..self.spec_identity() }),
            r.spec_options() == self.spec_options(),
            r.spec_hls_enabled() == self.spec_hls_enabled(),
            r.spec_mp4_enabled() == self.spec_mp4_enabled(),
    {
        ProxyPlayerBuilder { app: app.to_owned(), ..self }
    }

    pub fn stream(self, stream: &str) -> (r: Self)
        ensures
            r.spec_identity() == (KeyView { stream: stream@, ..self.spec_identity() }),
            r.spec_options() == self.spec_options(),
            r.spec_hls_enabled() == self.spec_hls_enabled(),
            r.spec_mp4_enabled() == self.spec_mp4_enabled(),
    {
        ProxyPlayerBuilder { stream: stream.to_owned(), ..self }
    }

    pub fn hls_enabled(self, hls_enabled: bool) -> (r: Self)
        ensures
            r.spec_identity() == self.spec_identity(),
            r.spec_options() == self.spec_options(),
            r.spec_hls_enabled() == hls_enabled,
            r.spec_mp4_enabled() == self.spec_mp4_enabled(),
    {
        ProxyPlayerBuilder { hls_enabled, ..self }
    }

    pub fn mp4_enabled(self, mp4_enabled: bool) -> (r: Self)
        ensures
            r.spec_identity() == self.spec_identity(),
            r.spec_options() == self.spec_options(),
            r.spec_hls_enabled() == self.spec_hls_enabled(),
            r.spec_mp4_enabled() == mp4_enabled,
    {
        ProxyPlayerBuilder { mp4_enabled, ..self }
    }

    /// Add one engine option for the session.
    pub fn add_option(self, key: &str, val: &str) -> (r: Self)
        ensures
            r.spec_identity() == self.spec_identity(),
            r.spec_options() == self.spec_options().push((key@, val@)),
            r.spec_hls_enabled() == self.spec_hls_enabled(),
            r.spec_mp4_enabled() == self.spec_mp4_enabled(),
    {
        let mut b = self;
        b.options.push((key.to_owned(), val.to_owned()));
        proof {
            assert(crate::info::pair_views(b.options@) =~= crate::info::pair_views(
                self.options@,
            ).push((key@, val@)));
        }
        b
    }

    /// Build the session.  Always succeeds: missing identity parts
    /// surface later, through the completion notice.
    pub fn build(self) -> (r: ProxyPlayer)
        ensures
            r.spec_state() is Created,
            r.spec_identity() == self.spec_identity(),
            r.spec_options() == self.spec_options(),
            r.spec_url() is None,
            !r.has_close_handler(),
            r.spec_hls_enabled() == self.spec_hls_enabled(),
            r.spec_mp4_enabled() == self.spec_mp4_enabled(),
    {
        ProxyPlayer {
            vhost: self.vhost,
            app: self.app,
            stream: self.stream,
            hls_enabled: self.hls_enabled,
            mp4_enabled: self.mp4_enabled,
            options: self.options,
            url: None,
            state: SessionState::Created,
            close_handler: false,
        }
    }
}

/// A push session: publishes a local source to a remote URL.
pub struct Pusher {
    schema: String,
    vhost: String,
    app: String,
    stream: String,
    options: Vec<(String, String)>,
    url: Option<String>,
    state: SessionState,
    result_handler: bool,
}

impl Pusher {
    pub closed spec fn spec_state(&self) -> SessionState {
        self.state
    }

    pub closed spec fn spec_schema(&self) -> Seq<char> {
        self.schema@
    }

    pub closed spec fn spec_identity(&self) -> KeyView {
        KeyView { vhost: self.vhost@, app: self.app@, stream: self.stream@ }
    }

    pub closed spec fn spec_options(&self) -> Seq<(Seq<char>, Seq<char>)> {
        crate::info::pair_views(self.options@)
    }

    pub closed spec fn spec_url(&self) -> Option<Seq<char>> {
        match self.url {
            Some(u) => Some(u@),
            None => None,
        }
    }

    pub closed spec fn has_result_handler(&self) -> bool {
        self.result_handler
    }

    /// A push session bound to an already registered source.
    pub fn from_source(src: &crate::registry::MediaSource) -> (r: Pusher)
        ensures
            r.spec_state() is Created,
            r.spec_identity() == src.spec_key(),
            r.spec_schema() == Seq::<char>::empty(),
            r.spec_options() == Seq::<(Seq<char>, Seq<char>)>::empty(),
            r.spec_url() is None,
            !r.has_result_handler(),
    {
        Pusher {
            schema: String::new(),
            vhost: src.vhost(),
            app: src.app(),
            stream: src.stream(),
            options: Vec::new(),
            url: None,
            state: SessionState::Created,
            result_handler: false,
        }
    }

    /// Add one engine option for the session.
    pub fn set_options(&mut self, key: &str, val: &str)
        ensures
            final(self).spec_options() == old(self).spec_options().push((key@, val@)),
            final(self).spec_state() == old(self).spec_state(),
            final(self).spec_identity() == old(self).spec_identity(),
            final(self).spec_schema() == old(self).spec_schema(),
            final(self).spec_url() == old(self).spec_url(),
            final(self).has_result_handler() == old(self).has_result_handler(),
    {
        self.options.push((key.to_owned(), val.to_owned()));
        proof {
            assert(crate::info::pair_views(self.options@) =~= crate::info::pair_views(
                old(self).options@,
            ).push((key@, val@)));
        }
    }

    /// Register the result callback slot.
    pub fn on_result(&mut self)
        ensures
            final(self).has_result_handler(),
            final(self).spec_state() == old(self).spec_state(),
            final(self).spec_identity() == old(self).spec_identity(),
            final(self).spec_schema() == old(self).spec_schema(),
            final(self).spec_options() == old(self).spec_options(),
            final(self).spec_url() == old(self).spec_url(),
    {
        self.result_handler = true;
    }

    /// Register the shutdown callback slot.  It shares the one slot with
    /// `on_result`: a session holds at most one completion callback.
    pub fn on_shutdown(&mut self)
        ensures
            final(self).has_result_handler(),
            final(self).spec_state() == old(self).spec_state(),
            final(self).spec_identity() == old(self).spec_identity(),
            final(self).spec_schema() == old(self).spec_schema(),
            final(self).spec_options() == old(self).spec_options(),
            final(self).spec_url() == old(self).spec_url(),
    {
        self.result_handler = true;
    }

    /// Start publishing to `url`.  The session goes in flight; problems
    /// surface later through the completion notice.
    pub fn publish(&mut self, url: &str)
        requires
            old(self).spec_state() is Created,
        ensures
            final(self).spec_state() is Connecting,
            final(self).spec_url() == Some(url@),
            final(self).spec_identity() == old(self).spec_identity(),
            final(self).spec_schema() == old(self).spec_schema(),
            final(self).spec_options() == old(self).spec_options(),
            final(self).has_result_handler() == old(self).has_result_handler(),
    {
        self.url = Some(url.to_owned());
        self.state = SessionState::Connecting;
    }

    /// The connection came up: the session is now publishing.
    pub fn connected(&mut self)
        requires
            old(self).spec_state() is Connecting,
        ensures
            final(self).spec_state() is Publishing,
            final(self).spec_identity() == old(self).spec_identity(),
            final(self).spec_schema() == old(self).spec_schema(),
            final(self).spec_options() == old(self).spec_options(),
            final(self).spec_url() == old(self).spec_url(),
            final(self).has_result_handler() == old(self).has_result_handler(),
    {
        self.state = SessionState::Publishing;
    }

    /// Terminal transition; fires the one notice exactly when the session
    /// was in flight.
    pub fn complete(&mut self, err_code: i32, msg: &str) -> (r: Option<PushNotice>)
        ensures
            final(self).spec_state() == spec_terminate(old(self).spec_state()).0,
            (r is Some) == spec_terminate(old(self).spec_state()).1,
            r matches Some(n) ==> n.err_code == err_code && n.msg@ == msg@,
            final(self).spec_identity() == old(self).spec_identity(),
            final(self).spec_schema() == old(self).spec_schema(),
            final(self).spec_options() == old(self).spec_options(),
            final(self).spec_url() == old(self).spec_url(),
            final(self).has_result_handler() == old(self).has_result_handler(),
    {
        match self.state {
            SessionState::Connecting | SessionState::Playing | SessionState::Publishing => {
                self.state = SessionState::Closed;
                Some(PushNotice { err_code, msg: msg.to_owned() })
            },
            _ => None,
        }
    }
}

/// Builder of a push session, as lazily validated as the player's.
pub struct PusherBuilder {
    schema: String,
    vhost: String,
    app: String,
    stream: String,
}

impl PusherBuilder {
    pub closed spec fn spec_schema(&self) -> Seq<char> {
        self.schema@
    }

    pub closed spec fn spec_identity(&self) -> KeyView {
        KeyView { vhost: self.vhost@, app: self.app@, stream: self.stream@ }
    }

    /// A builder with every part empty.
    pub fn new() -> (r: Self)
        ensures
            r.spec_schema() == Seq::<char>::empty(),
            r.spec_identity() == (KeyView {
                vhost: Seq::empty(),
                app: Seq::empty(),
                stream: Seq::empty(),
            }),
    {
        PusherBuilder {
            schema: String::new(),
            vhost: String::new(),
            app: String::new(),
            stream: String::new(),
        }
    }

    pub fn schema(self, schema: &str) -> (r: Self)
        ensures
            r.spec_schema() == schema@,
            r.spec_identity() == self.spec_identity(),
    {
        PusherBuilder { schema: schema.to_owned(), ..self }
    }

    pub fn vhost(self, vhost: &str) -> (r: Self)
        ensures
            r.spec_schema() == self.spec_schema(),
            r.spec_identity() == (KeyView { vhost: vhost@, ..self.spec_identity() }),
    {
        PusherBuilder { vhost: vhost.to_owned(), ..self }
    }

    pub fn app(self, app: &str) -> (r: Self)
        ensures
            r.spec_schema() == self.spec_schema(),
            r.spec_identity() == (KeyView { app: app@, ..self.spec_identity() }),
    {
        PusherBuilder { app: app.to_owned(), ..self }
    }

    pub fn stream(self, stream: &str) -> (r: Self)
        ensures
            r.spec_schema() == self.spec_schema(),
            r.spec_identity() == (KeyView { stream: stream@, ..self.spec_identity() }),
    {
        PusherBuilder { stream: stream.to_owned(), ..self }
    }

    /// Build the session.  Always succeeds; missing parts fail only at
    /// publish time, through the completion notice.
    pub fn build(self) -> (r: Pusher)
        ensures
            r.spec_state() is Created,
            r.spec_schema() == self.spec_schema(),
            r.spec_identity() == self.spec_identity(),
            r.spec_options() == Seq::<(Seq<char>, Seq<char>)>::empty(),
            r.spec_url() is None,
            !r.has_result_handler(),
    {
        Pusher {
            schema: self.schema,
            vhost: self.vhost,
            app: self.app,
            stream: self.stream,
            options: Vec::new(),
            url: None,
            state: SessionState::Created,
            result_handler: false,
        }
    }
}

/// Request to load an MP4 file as a live source: the engine plays the
/// file into the named stream, optionally looping, with an optional
/// scoped configuration.
pub struct Mp4ProxyPlayer {
    vhost: String,
    app: String,
    stream: String,
    file_path: String,
    file_repeat: i32,
    ini: Option<crate::config::EnvIni>,
}

impl Mp4ProxyPlayer {
    pub closed spec fn spec_identity(&self) -> KeyView {
        KeyView { vhost: self.vhost@, app: self.app@, stream: self.stream@ }
    }

    pub closed spec fn spec_file_path(&self) -> Seq<char> {
        self.file_path@
    }

    pub closed spec fn spec_file_repeat(&self) -> i32 {
        self.file_repeat
    }

    /// The scoped configuration, when one was given.
    pub closed spec fn spec_ini(&self) -> Option<Map<Seq<char>, Seq<char>>> {
        match self.ini {
            Some(i) => Some(i@),
            None => None,
        }
    }

    /// Assemble a load request exactly as given.
    pub fn new(
        vhost: &str,
        app: &str,
        stream: &str,
        file_path: &str,
        file_repeat: i32,
        ini: Option<crate::config::EnvIni>,
    ) -> (r: Self)
        ensures
            r.spec_identity() == (KeyView { vhost: vhost@, app: app@, stream: stream@ }),
            r.spec_file_path() == file_path@,
            r.spec_file_repeat() == file_repeat,
            (ini is Some) == (r.spec_ini() is Some),
            ini matches Some(i) ==> r.spec_ini() == Some(i@),
    {
        Mp4ProxyPlayer {
            vhost: vhost.to_owned(),
            app: app.to_owned(),
            stream: stream.to_owned(),
            file_path: file_path.to_owned(),
            file_repeat,
            ini,
        }
    }
}

} // verus!
