//! Registry of live media sources.
//!
//! At most one live source exists per `StreamKey` at a time.  Registration
//! and deregistration each raise exactly one "media changed" event, which
//! the registry hands back to its caller for dispatch.  Registering a key
//! that is already live is rejected and raises nothing.  Reader counts are
//! advisory telemetry: destruction is driven by explicit release or forced
//! close, never by a count reaching zero.
//!
//! A lookup hands out a complete copy of the entry taken under the
//! registry's exclusive borrow, so no reader ever observes a partially
//! updated source.

use vstd::prelude::*;

use crate::frame::Track;
use crate::media::Media;

verus! {

/// The text of a stream key: virtual host, application and stream name.
#[verifier::ext_equal]
pub struct KeyView {
    pub vhost: Seq<char>,
    pub app: Seq<char>,
    pub stream: Seq<char>,
}

impl KeyView {
    /// No part of the key is empty.
    pub open spec fn wf(&self) -> bool {
        self.vhost.len() > 0 && self.app.len() > 0 && self.stream.len() > 0
    }
}

/// Identifier of one live source: `{vhost, app, stream}`.
pub struct StreamKey {
    pub vhost: String,
    pub app: String,
    pub stream: String,
}

impl View for StreamKey {
    type V = KeyView;

    open spec fn view(&self) -> KeyView {
        KeyView { vhost: self.vhost@, app: self.app@, stream: self.stream@ }
    }
}

impl StreamKey {
    /// A key made of the given parts.
    pub fn new(vhost: &str, app: &str, stream: &str) -> (r: Self)
        ensures
            r@ == (KeyView { vhost: vhost@, app: app@, stream: stream@ }),
    {
        StreamKey { vhost: vhost.to_owned(), app: app.to_owned(), stream: stream.to_owned() }
    }

    /// A copy of this key.
    pub fn duplicate(&self) -> (r: Self)
        ensures
            r@ == self@,
    {
        StreamKey {
            vhost: self.vhost.clone(),
            app: self.app.clone(),
            stream: self.stream.clone(),
        }
    }
}

impl PartialEq for StreamKey {
    /// Two keys are equal when all three parts read the same.
    fn eq(&self, other: &StreamKey) -> (r: bool) {
        self.vhost == other.vhost && self.app == other.app && self.stream == other.stream
    }
}

impl vstd::std_specs::cmp::PartialEqSpecImpl for StreamKey {
    open spec fn obeys_eq_spec() -> bool {
        true
    }

    open spec fn eq_spec(&self, other: &StreamKey) -> bool {
        self@ =~= other@
    }
}

/// Lifecycle transition of a source, raised once per transition.
pub enum MediaChangedEvent {
    Registered(StreamKey),
    Unregistered(StreamKey),
}

impl MediaChangedEvent {
    /// The key the transition concerns.
    pub open spec fn spec_key(&self) -> KeyView {
        match self {
            MediaChangedEvent::Registered(k) => k@,
            MediaChangedEvent::Unregistered(k) => k@,
        }
    }

    /// Whether this is a registration (rather than a deregistration).
    pub open spec fn is_registered(&self) -> bool {
        self is Registered
    }
}

/// Abstract state of one registered source.
#[verifier::ext_equal]
pub struct SourceView {
    pub tracks: Seq<Track>,
    pub init_complete: bool,
    pub readers: nat,
    pub total_readers: nat,
}

/// Read-only snapshot of a registered source, complete and consistent:
/// it is copied in one piece from the entry it describes.
pub struct MediaSource {
    key: StreamKey,
    tracks: Vec<Track>,
    reader_count: u64,
    total_reader_count: u64,
}

impl MediaSource {
    pub closed spec fn spec_key(&self) -> KeyView {
        self.key@
    }

    pub closed spec fn spec_tracks(&self) -> Seq<Track> {
        self.tracks@
    }

    pub closed spec fn spec_reader_count(&self) -> u64 {
        self.reader_count
    }

    pub closed spec fn spec_total_reader_count(&self) -> u64 {
        self.total_reader_count
    }

    /// The virtual host part of the key.
    pub fn vhost(&self) -> (r: String)
        ensures
            r@ == self.spec_key().vhost,
    {
        self.key.vhost.clone()
    }

    /// The application part of the key.
    pub fn app(&self) -> (r: String)
        ensures
            r@ == self.spec_key().app,
    {
        self.key.app.clone()
    }

    /// The stream name part of the key.
    pub fn stream(&self) -> (r: String)
        ensures
            r@ == self.spec_key().stream,
    {
        self.key.stream.clone()
    }

    /// The key of the source.
    pub fn key(&self) -> (r: &StreamKey)
        ensures
            r@ == self.spec_key(),
    {
        &self.key
    }

    /// Number of readers attached when the snapshot was taken.
    pub fn reader_count(&self) -> (r: u64)
        ensures
            r == self.spec_reader_count(),
    {
        self.reader_count
    }

    /// Total number of readers ever attached when the snapshot was taken.
    pub fn total_reader_count(&self) -> (r: u64)
        ensures
            r == self.spec_total_reader_count(),
    {
        self.total_reader_count
    }

    /// Number of attached tracks.
    pub fn track_count(&self) -> (r: usize)
        ensures
            r == self.spec_tracks().len(),
    {
        self.tracks.len()
    }

    /// The track at `index`, when there is one.
    pub fn get_track(&self, index: usize) -> (r: Option<Track>)
        ensures
            match r {
                Some(t) => index < self.spec_tracks().len() && t == self.spec_tracks()[index as int],
                None => index >= self.spec_tracks().len(),
            },
    {
        if index < self.tracks.len() {
            Some(self.tracks[index])
        } else {
            None
        }
    }
}

struct RegEntry {
    media: Media,
    readers: u64,
    total_readers: u64,
}

impl RegEntry {
    spec fn key(&self) -> KeyView {
        self.media.spec_key()
    }

    spec fn entry_view(&self) -> SourceView {
        SourceView {
            tracks: self.media.spec_tracks(),
            init_complete: self.media.spec_ready(),
            readers: self.readers as nat,
            total_readers: self.total_readers as nat,
        }
    }
}

/// The single live source per key, with its advisory reader counts.
///
/// Its view is the map from key text to source state.
pub struct MediaRegistry {
    entries: Vec<RegEntry>,
}

impl MediaRegistry {
    /// No two entries share a key, so each key denotes one source.
    pub closed spec fn wf(&self) -> bool {
        forall|i: int, j: int|
            0 <= i < j < self.entries@.len() ==> self.entries@[i].key() != self.entries@[j].key()
    }

    pub closed spec fn view(&self) -> Map<KeyView, SourceView> {
        Map::new(
            |k: KeyView| exists|i: int| 0 <= i < self.entries@.len() && self.entries@[i].key() == k,
            |k: KeyView|
                self.entries@[choose|i: int|
                    0 <= i < self.entries@.len() && self.entries@[i].key() == k].entry_view(),
        )
    }

    /// With unique keys, entry `i` is exactly what the view binds its key
    /// to.
    proof fn lemma_entry_value(&self, i: int)
        requires
            self.wf(),
            0 <= i < self.entries@.len(),
        ensures
            self@.dom().contains(self.entries@[i].key()),
            self@[self.entries@[i].key()] == self.entries@[i].entry_view(),
    {
        let k = self.entries@[i].key();
        assert(0 <= i < self.entries@.len() && self.entries@[i].key() == k);
        let j = choose|j: int| 0 <= j < self.entries@.len() && self.entries@[j].key() == k;
        if j < i {
            assert(self.entries@[j].key() != self.entries@[i].key());
        } else if i < j {
            assert(self.entries@[i].key() != self.entries@[j].key());
        }
    }

    /// An empty registry.
    pub fn new() -> (r: Self)
        ensures
            r.wf(),
            r@ == Map::<KeyView, SourceView>::empty(),
    {
        let r = MediaRegistry { entries: Vec::new() };
        proof {
            assert(r@ =~= Map::<KeyView, SourceView>::empty());
        }
        r
    }

    fn find_index(&self, key: &StreamKey) -> (r: Option<usize>)
        requires
            self.wf(),
        ensures
            match r {
                Some(i) => i < self.entries@.len() && self.entries@[i as int].key() == key@,
                None => forall|i: int|
                    0 <= i < self.entries@.len() ==> self.entries@[i].key() != key@,
            },
    {
        let mut i: usize = 0;
        while i < self.entries.len()
            invariant
                i <= self.entries@.len(),
                forall|j: int| 0 <= j < i ==> self.entries@[j].key() != key@,
            decreases self.entries@.len() - i,
        {
            if *self.entries[i].media.key() == *key {
                return Some(i);
            }
            i = i + 1;
        }
        None
    }

    /// Register a live source.
    ///
    /// When its key is free, the source is installed with both reader
    /// counts zero, and the one registration event is returned for
    /// dispatch.  When a source with that key is already live, the
    /// conflict policy is to reject: the registry is unchanged, the new
    /// source is dropped, and no event is raised.
    pub fn register(&mut self, media: Media) -> (r: Option<MediaChangedEvent>)
        requires
            old(self).wf(),
            media.wf(),
        ensures
            final(self).wf(),
            old(self)@.dom().contains(media.spec_key()) ==> final(self)@ == old(self)@ && r
                is None,
            !old(self)@.dom().contains(media.spec_key()) ==> {
                &&& final(self)@ == old(self)@.insert(
                    media.spec_key(),
                    SourceView {
                        tracks: media.spec_tracks(),
                        init_complete: media.spec_ready(),
                        readers: 0,
                        total_readers: 0,
                    },
                )
                &&& r matches Some(e) && e.is_registered() && e.spec_key() == media.spec_key()
            },
            ({
                let (m2, raised) = spec_register(
                    old(self)@,
                    media.spec_key(),
                    SourceView {
                        tracks: media.spec_tracks(),
                        init_complete: media.spec_ready(),
                        readers: 0,
                        total_readers: 0,
                    },
                );
                final(self)@ == m2 && (r is Some) == raised
            }),
    {
        let key_copy = media.key().duplicate();
        match self.find_index(&key_copy) {
            Some(i) => {
                proof {
                    self.lemma_entry_value(i as int);
                }
                None
            },
            None => {
                let ghost k = media.spec_key();
                self.entries.push(RegEntry { media, readers: 0, total_readers: 0 });
                proof {
                    let last = self.entries@.len() - 1;
                    assert(self.entries@[last].key() == k);
                    assert forall|a: int, b: int|
                        0 <= a < b < self.entries@.len() implies self.entries@[a].key()
                        != self.entries@[b].key() by {
                        if b < last {
                            assert(old(self).entries@[a].key() != old(self).entries@[b].key());
                        } else {
                            assert(old(self).entries@[a].key() != k);
                        }
                    }
                    let m = old(self)@.insert(
                        k,
                        SourceView {
                            tracks: self.entries@[last].media.spec_tracks(),
                            init_complete: self.entries@[last].media.spec_ready(),
                            readers: 0,
                            total_readers: 0,
                        },
                    );
                    assert forall|k2: KeyView| self@.dom().contains(k2) implies m.dom().contains(
                        k2,
                    ) && self@[k2] == m[k2] by {
                        let j = choose|j: int|
                            0 <= j < self.entries@.len() && self.entries@[j].key() == k2;
                        self.lemma_entry_value(j);
                        if j == last {
                            assert(k2 == k);
                        } else {
                            assert(old(self).entries@[j].key() == k2);
                            old(self).lemma_entry_value(j);
                            assert(k2 != k);
                        }
                    }
                    assert forall|k2: KeyView| m.dom().contains(k2) implies self@.dom().contains(
                        k2,
                    ) by {
                        if k2 == k {
                            assert(self.entries@[last].key() == k2);
                        } else {
                            let j = choose|j: int|
                                0 <= j < old(self).entries@.len() && old(self).entries@[j].key()
                                    == k2;
                            assert(self.entries@[j].key() == k2);
                        }
                    }
                    assert(self@ =~= m);
                }
                Some(MediaChangedEvent::Registered(key_copy))
            },
        }
    }

    /// Whether a live source exists under `key`.
    pub fn contains(&self, key: &StreamKey) -> (r: bool)
        requires
            self.wf(),
        ensures
            r == self@.dom().contains(key@),
    {
        match self.find_index(key) {
            Some(i) => {
                proof {
                    self.lemma_entry_value(i as int);
                }
                true
            },
            None => false,
        }
    }

    /// Look a source up.  The returned snapshot is copied whole from the
    /// live entry: every field agrees with the registered state, so no
    /// caller observes a torn source.
    pub fn find(&self, key: &StreamKey) -> (r: Option<MediaSource>)
        requires
            self.wf(),
        ensures
            match r {
                Some(src) => {
                    &&& self@.dom().contains(key@)
                    &&& src.spec_key() == key@
                    &&& src.spec_tracks() == self@[key@].tracks
                    &&& src.spec_reader_count() as nat == self@[key@].readers
                    &&& src.spec_total_reader_count() as nat == self@[key@].total_readers
                },
                None => !self@.dom().contains(key@),
            },
    {
        match self.find_index(key) {
            Some(i) => {
                proof {
                    self.lemma_entry_value(i as int);
                }
                let e = &self.entries[i];
                Some(
                    MediaSource {
                        key: e.media.key().duplicate(),
                        tracks: e.media.clone_tracks(),
                        reader_count: e.readers,
                        total_reader_count: e.total_readers,
                    },
                )
            },
            None => None,
        }
    }

    /// Remove the source under `key`, raising its one deregistration
    /// event; with no such source, nothing changes and nothing is raised.
    pub fn unregister(&mut self, key: &StreamKey) -> (r: Option<MediaChangedEvent>)
        requires
            old(self).wf(),
        ensures
            final(self).wf(),
            final(self)@ == old(self)@.remove(key@),
            old(self)@.dom().contains(key@) ==> (r matches Some(e) && !e.is_registered()
                && e.spec_key() == key@),
            !old(self)@.dom().contains(key@) ==> r is None,
    {
        match self.find_index(key) {
            Some(i) => {
                proof {
                    old(self).lemma_entry_value(i as int);
                }
                let ghost k = key@;
                self.entries.remove(i);
                proof {
                    self.lemma_after_removal(*old(self), i as int, k);
                }
                Some(MediaChangedEvent::Unregistered(key.duplicate()))
            },
            None => {
                proof {
                    let m = old(self)@.remove(key@);
                    assert forall|k2: KeyView| m.dom().contains(k2) implies self@.dom().contains(
                        k2,
                    ) by {}
                    assert(self@ =~= m);
                }
                None
            },
        }
    }

    /// After removing entry `i`, whose key was `k`, the registry's view is
    /// the old view without `k`.
    proof fn lemma_after_removal(&self, prev: MediaRegistry, i: int, k: KeyView)
        requires
            prev.wf(),
            0 <= i < prev.entries@.len(),
            prev.entries@[i].key() == k,
            self.entries@ == prev.entries@.remove(i),
        ensures
            self.wf(),
            self@ =~= prev@.remove(k),
    {
        assert forall|a: int, b: int|
            0 <= a < b < self.entries@.len() implies self.entries@[a].key()
            != self.entries@[b].key() by {
            let oa: int = if a < i {
                a
            } else {
                a + 1
            };
            let ob: int = if b < i {
                b
            } else {
                b + 1
            };
            assert(self.entries@[a] == prev.entries@[oa]);
            assert(self.entries@[b] == prev.entries@[ob]);
            assert(prev.entries@[oa].key() != prev.entries@[ob].key());
        }
        let m = prev@.remove(k);
        assert forall|k2: KeyView| self@.dom().contains(k2) implies m.dom().contains(k2)
            && self@[k2] == m[k2] by {
            let j = choose|j: int| 0 <= j < self.entries@.len() && self.entries@[j].key() == k2;
            self.lemma_entry_value(j);
            let oj: int = if j < i {
                j
            } else {
                j + 1
            };
            assert(self.entries@[j] == prev.entries@[oj]);
            assert(prev.entries@[oj].key() == k2);
            prev.lemma_entry_value(oj);
            if k2 == k {
                if oj < i {
                    assert(prev.entries@[oj].key() != prev.entries@[i].key());
                } else {
                    assert(prev.entries@[i].key() != prev.entries@[oj].key());
                }
            }
        }
        assert forall|k2: KeyView| m.dom().contains(k2) implies self@.dom().contains(k2) by {
            let oj = choose|j: int| 0 <= j < prev.entries@.len() && prev.entries@[j].key() == k2;
            if oj < i {
                assert(self.entries@[oj].key() == k2);
            } else {
                assert(prev.entries@[i].key() == k);
                assert(oj != i);
                assert(self.entries@[oj - 1].key() == k2);
            }
        }
    }

    /// Close the source under `key`.
    ///
    /// Without `force`, a source that still has attached readers is left
    /// alone and the call reports `false`.  With `force`, a live source is
    /// closed unconditionally.  Closing removes the source and raises its
    /// one deregistration event.
    pub fn close(&mut self, key: &StreamKey, force: bool) -> (r: (bool, Option<MediaChangedEvent>))
        requires
            old(self).wf(),
        ensures
            final(self).wf(),
            r.0 == (old(self)@.dom().contains(key@) && (force || old(self)@[key@].readers == 0)),
            r.0 ==> final(self)@ == old(self)@.remove(key@) && (r.1 matches Some(e)
                && !e.is_registered() && e.spec_key() == key@),
            !r.0 ==> final(self)@ == old(self)@ && r.1 is None,
    {
        match self.find_index(key) {
            Some(i) => {
                proof {
                    old(self).lemma_entry_value(i as int);
                }
                if force || self.entries[i].readers == 0 {
                    let ghost k = key@;
                    self.entries.remove(i);
                    proof {
                        self.lemma_after_removal(*old(self), i as int, k);
                    }
                    (true, Some(MediaChangedEvent::Unregistered(key.duplicate())))
                } else {
                    (false, None)
                }
            },
            None => (false, None),
        }
    }

    /// Attach one reader to the source under `key`; reports whether the
    /// source exists.  Both counts grow by one (they stop at the
    /// representable maximum rather than wrap).
    pub fn add_reader(&mut self, key: &StreamKey) -> (r: bool)
        requires
            old(self).wf(),
        ensures
            final(self).wf(),
            r == old(self)@.dom().contains(key@),
            r ==> final(self)@ == old(self)@.insert(
                key@,
                SourceView {
                    tracks: old(self)@[key@].tracks,
                    init_complete: old(self)@[key@].init_complete,
                    readers: bump(old(self)@[key@].readers),
                    total_readers: bump(old(self)@[key@].total_readers),
                },
            ),
            !r ==> final(self)@ == old(self)@,
    {
        match self.find_index(key) {
            Some(i) => {
                proof {
                    old(self).lemma_entry_value(i as int);
                }
                let e = &self.entries[i];
                let new_readers = if e.readers < u64::MAX {
                    e.readers + 1
                } else {
                    e.readers
                };
                let new_total = if e.total_readers < u64::MAX {
                    e.total_readers + 1
                } else {
                    e.total_readers
                };
                self.entries[i].readers = new_readers;
                self.entries[i].total_readers = new_total;
                proof {
                    self.lemma_after_update(*old(self), i as int, key@);
                }
                true
            },
            None => false,
        }
    }

    /// Detach one reader from the source under `key`.  Reports `true`
    /// exactly when this detached the last reader, the moment a
    /// drain-driven teardown policy would act on.
    pub fn remove_reader(&mut self, key: &StreamKey) -> (r: bool)
        requires
            old(self).wf(),
        ensures
            final(self).wf(),
            r == (old(self)@.dom().contains(key@) && old(self)@[key@].readers == 1),
            old(self)@.dom().contains(key@) ==> final(self)@ == old(self)@.insert(
                key@,
                SourceView {
                    tracks: old(self)@[key@].tracks,
                    init_complete: old(self)@[key@].init_complete,
                    readers: if old(self)@[key@].readers > 0 {
                        (old(self)@[key@].readers - 1) as nat
                    } else {
                        0
                    },
                    total_readers: old(self)@[key@].total_readers,
                },
            ),
            !old(self)@.dom().contains(key@) ==> final(self)@ == old(self)@,
    {
        match self.find_index(key) {
            Some(i) => {
                proof {
                    old(self).lemma_entry_value(i as int);
                }
                let had = self.entries[i].readers;
                if had > 0 {
                    self.entries[i].readers = had - 1;
                }
                proof {
                    self.lemma_after_update(*old(self), i as int, key@);
                }
                had == 1
            },
            None => false,
        }
    }

    /// After updating the counts of entry `i` (key and media unchanged),
    /// the registry's view is the old view with that key rebound.
    proof fn lemma_after_update(&self, prev: MediaRegistry, i: int, k: KeyView)
        requires
            prev.wf(),
            0 <= i < prev.entries@.len(),
            prev.entries@[i].key() == k,
            self.entries@.len() == prev.entries@.len(),
            self.entries@[i].media == prev.entries@[i].media,
            forall|j: int|
                0 <= j < prev.entries@.len() && j != i ==> self.entries@[j] == prev.entries@[j],
        ensures
            self.wf(),
            self@ =~= prev@.insert(k, self.entries@[i].entry_view()),
    {
        assert forall|a: int, b: int|
            0 <= a < b < self.entries@.len() implies self.entries@[a].key()
            != self.entries@[b].key() by {
            assert(self.entries@[a].key() == prev.entries@[a].key());
            assert(self.entries@[b].key() == prev.entries@[b].key());
        }
        let m = prev@.insert(k, self.entries@[i].entry_view());
        assert forall|k2: KeyView| self@.dom().contains(k2) implies m.dom().contains(k2)
            && self@[k2] == m[k2] by {
            let j = choose|j: int| 0 <= j < self.entries@.len() && self.entries@[j].key() == k2;
            self.lemma_entry_value(j);
            assert(prev.entries@[j].key() == k2);
            if k2 == k {
                if j < i {
                    assert(prev.entries@[j].key() != prev.entries@[i].key());
                } else if i < j {
                    assert(prev.entries@[i].key() != prev.entries@[j].key());
                }
            } else {
                prev.lemma_entry_value(j);
            }
        }
        assert forall|k2: KeyView| m.dom().contains(k2) implies self@.dom().contains(k2) by {
            if k2 == k {
                assert(self.entries@[i].key() == k2);
            } else {
                let j = choose|j: int|
                    0 <= j < prev.entries@.len() && prev.entries@[j].key() == k2;
                assert(self.entries@[j].key() == k2);
            }
        }
    }

    /// Number of live sources.
    pub fn len(&self) -> (r: usize)
        ensures
            r == self.spec_len(),
    {
        self.entries.len()
    }

    pub closed spec fn spec_len(&self) -> nat {
        self.entries@.len()
    }
}

/// The registration transition `register` conforms to: a free key is
/// bound and the event is raised; a live key leaves the map unchanged and
/// raises nothing.
pub open spec fn spec_register(m: Map<KeyView, SourceView>, k: KeyView, s: SourceView) -> (
    Map<KeyView, SourceView>,
    bool,
) {
    if m.dom().contains(k) {
        (m, false)
    } else {
        (m.insert(k, s), true)
    }
}

/// Registering the same key twice has the net effect of one transition:
/// the first registration binds the key and raises the one changed event;
/// the second is rejected, raises nothing, and leaves the registry as the
/// first left it — whatever source it carried.
pub proof fn lemma_register_twice(
    m: Map<KeyView, SourceView>,
    k: KeyView,
    s1: SourceView,
    s2: SourceView,
)
    requires
        !m.dom().contains(k),
    ensures
        ({
            let (m1, raised1) = spec_register(m, k, s1);
            let (m2, raised2) = spec_register(m1, k, s2);
            raised1 && !raised2 && m2 == m1 && m1[k] == s1
        }),
{
}

/// One more, stopping at the representable maximum.
pub open spec fn bump(n: nat) -> nat {
    if n < u64::MAX {
        n + 1
    } else {
        n
    }
}

} // verus!
