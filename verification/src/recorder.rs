//! Recording state.
//!
//! The engine records a live source to HLS or MP4 on request, keyed by
//! recording type and stream key; at most one recording runs per pair.
//! An FLV recorder is a small session-like object of its own.

use vstd::prelude::*;

use crate::registry::{KeyView, StreamKey};

verus! {

/// Recording type selector: HLS.
pub const RECORD_HLS: u32 = 0;

/// Recording type selector: MP4.
pub const RECORD_MP4: u32 = 1;

struct RecEntry {
    typ: u32,
    key: StreamKey,
    file_path: String,
    max_seconds: u64,
}

/// Running recordings, at most one per (type, stream key).
///
/// Its view is the set of running (type, key) pairs.
pub struct Recorder {
    entries: Vec<RecEntry>,
}

impl Recorder {
    pub closed spec fn wf(&self) -> bool {
        forall|i: int, j: int|
            0 <= i < j < self.entries@.len() ==> !(self.entries@[i].typ == self.entries@[j].typ
                && self.entries@[i].key@ == self.entries@[j].key@)
    }

    pub closed spec fn view(&self) -> Set<(u32, KeyView)> {
        Set::new(
            |p: (u32, KeyView)|
                exists|i: int|
                    0 <= i < self.entries@.len() && self.entries@[i].typ == p.0
                        && self.entries@[i].key@ == p.1,
        )
    }

    /// A recorder with nothing running.
    pub fn new() -> (r: Self)
        ensures
            r.wf(),
            r@ == Set::<(u32, KeyView)>::empty(),
    {
        let r = Recorder { entries: Vec::new() };
        proof {
            assert(r@ =~= Set::<(u32, KeyView)>::empty());
        }
        r
    }

    fn find_index(&self, typ: u32, key: &StreamKey) -> (r: Option<usize>)
        ensures
            match r {
                Some(i) => i < self.entries@.len() && self.entries@[i as int].typ == typ
                    && self.entries@[i as int].key@ == key@,
                None => forall|i: int|
                    0 <= i < self.entries@.len() ==> !(self.entries@[i].typ == typ
                        && self.entries@[i].key@ == key@),
            },
    {
        let mut i: usize = 0;
        while i < self.entries.len()
            invariant
                i <= self.entries@.len(),
                forall|j: int|
                    0 <= j < i ==> !(self.entries@[j].typ == typ && self.entries@[j].key@
                        == key@),
            decreases self.entries@.len() - i,
        {
            if self.entries[i].typ == typ && self.entries[i].key == *key {
                return Some(i);
            }
            i = i + 1;
        }
        None
    }

    /// Whether a recording of `typ` runs for the given stream.
    pub fn is_recording(&self, typ: u32, vhost: &str, app: &str, stream: &str) -> (r: bool)
        ensures
            r == self@.contains(
                (typ, KeyView { vhost: vhost@, app: app@, stream: stream@ }),
            ),
    {
        let key = StreamKey::new(vhost, app, stream);
        match self.find_index(typ, &key) {
            Some(i) => {
                proof {
                    let p = (typ, key@);
                    assert(0 <= i < self.entries@.len() && self.entries@[i as int].typ == p.0
                        && self.entries@[i as int].key@ == p.1);
                }
                true
            },
            None => false,
        }
    }

    /// Start recording.  Reports `true` and records the request when no
    /// recording of that type runs for the stream; reports `false` and
    /// changes nothing when one does.
    pub fn start(
        &mut self,
        typ: u32,
        vhost: &str,
        app: &str,
        stream: &str,
        file_path: &str,
        max_seconds: u64,
    ) -> (r: bool)
        requires
            old(self).wf(),
        ensures
            final(self).wf(),
            r == !old(self)@.contains(
                (typ, KeyView { vhost: vhost@, app: app@, stream: stream@ }),
            ),
            r ==> final(self)@ == old(self)@.insert(
                (typ, KeyView { vhost: vhost@, app: app@, stream: stream@ }),
            ),
            !r ==> final(self)@ == old(self)@,
    {
        let key = StreamKey::new(vhost, app, stream);
        let ghost p = (typ, key@);
        match self.find_index(typ, &key) {
            Some(i) => {
                proof {
                    assert(0 <= i < self.entries@.len() && self.entries@[i as int].typ == p.0
                        && self.entries@[i as int].key@ == p.1);
                }
                false
            },
            None => {
                self.entries.push(
                    RecEntry {
                        typ,
                        key,
                        file_path: file_path.to_owned(),
                        max_seconds,
                    },
                );
                proof {
                    let last = self.entries@.len() - 1;
                    assert(self.entries@[last].typ == p.0 && self.entries@[last].key@ == p.1);
                    assert forall|a: int, b: int|
                        0 <= a < b < self.entries@.len() implies !(self.entries@[a].typ
                        == self.entries@[b].typ && self.entries@[a].key@
                        == self.entries@[b].key@) by {
                        if b < last {
                            assert(!(old(self).entries@[a].typ == old(self).entries@[b].typ && old(
                                self,
                            ).entries@[a].key@ == old(self).entries@[b].key@));
                        } else {
                            assert(!(old(self).entries@[a].typ == p.0 && old(
                                self,
                            ).entries@[a].key@ == p.1));
                        }
                    }
                    assert forall|p2: (u32, KeyView)| self@.contains(p2) implies old(
                        self,
                    )@.insert(p).contains(p2) by {
                        let j = choose|j: int|
                            0 <= j < self.entries@.len() && self.entries@[j].typ == p2.0
                                && self.entries@[j].key@ == p2.1;
                        if j < last {
                            assert(old(self).entries@[j].typ == p2.0 && old(
                                self,
                            ).entries@[j].key@ == p2.1);
                        }
                    }
                    assert forall|p2: (u32, KeyView)| old(self)@.insert(p).contains(p2)
                        implies self@.contains(p2) by {
                        if p2 == p {
                            assert(self.entries@[last].typ == p2.0 && self.entries@[last].key@
                                == p2.1);
                        } else {
                            let j = choose|j: int|
                                0 <= j < old(self).entries@.len() && old(self).entries@[j].typ
                                    == p2.0 && old(self).entries@[j].key@ == p2.1;
                            assert(self.entries@[j].typ == p2.0 && self.entries@[j].key@ == p2.1);
                        }
                    }
                    assert(self@ =~= old(self)@.insert(p));
                }
                true
            },
        }
    }

    /// Stop recording.  Reports whether one of that type was running for
    /// the stream; afterwards none is.
    pub fn stop(&mut self, typ: u32, vhost: &str, app: &str, stream: &str) -> (r: bool)
        requires
            old(self).wf(),
        ensures
            final(self).wf(),
            r == old(self)@.contains(
                (typ, KeyView { vhost: vhost@, app: app@, stream: stream@ }),
            ),
            final(self)@ == old(self)@.remove(
                (typ, KeyView { vhost: vhost@, app: app@, stream: stream@ }),
            ),
    {
        let key = StreamKey::new(vhost, app, stream);
        let ghost p = (typ, key@);
        match self.find_index(typ, &key) {
            Some(i) => {
                proof {
                    assert(0 <= i < self.entries@.len() && self.entries@[i as int].typ == p.0
                        && self.entries@[i as int].key@ == p.1);
                }
                self.entries.remove(i);
                proof {
                    assert forall|a: int, b: int|
                        0 <= a < b < self.entries@.len() implies !(self.entries@[a].typ
                        == self.entries@[b].typ && self.entries@[a].key@
                        == self.entries@[b].key@) by {
                        let oa: int = if a < i {
                            a
                        } else {
                            a + 1
                        };
                        let ob: int = if b < i {
                            b
                        } else {
                            b + 1
                        };
                        assert(self.entries@[a] == old(self).entries@[oa]);
                        assert(self.entries@[b] == old(self).entries@[ob]);
                        assert(!(old(self).entries@[oa].typ == old(self).entries@[ob].typ && old(
                            self,
                        ).entries@[oa].key@ == old(self).entries@[ob].key@));
                    }
                    assert forall|p2: (u32, KeyView)| self@.contains(p2) implies old(
                        self,
                    )@.remove(p).contains(p2) by {
                        let j = choose|j: int|
                            0 <= j < self.entries@.len() && self.entries@[j].typ == p2.0
                                && self.entries@[j].key@ == p2.1;
                        let oj: int = if j < i {
                            j
                        } else {
                            j + 1
                        };
                        assert(self.entries@[j] == old(self).entries@[oj]);
                        assert(old(self).entries@[oj].typ == p2.0 && old(self).entries@[oj].key@
                            == p2.1);
                        if p2 == p {
                            if oj < i {
                                assert(!(old(self).entries@[oj].typ == old(
                                    self,
                                ).entries@[i as int].typ && old(self).entries@[oj].key@ == old(
                                    self,
                                ).entries@[i as int].key@));
                            } else {
                                assert(!(old(self).entries@[i as int].typ == old(
                                    self,
                                ).entries@[oj].typ && old(self).entries@[i as int].key@ == old(
                                    self,
                                ).entries@[oj].key@));
                            }
                        }
                    }
                    assert forall|p2: (u32, KeyView)| old(self)@.remove(p).contains(p2)
                        implies self@.contains(p2) by {
                        let oj = choose|j: int|
                            0 <= j < old(self).entries@.len() && old(self).entries@[j].typ == p2.0
                                && old(self).entries@[j].key@ == p2.1;
                        if oj < i {
                            assert(self.entries@[oj].typ == p2.0 && self.entries@[oj].key@
                                == p2.1);
                        } else {
                            assert(oj != i);
                            assert(self.entries@[oj - 1].typ == p2.0 && self.entries@[oj
                                - 1].key@ == p2.1);
                        }
                    }
                    assert(self@ =~= old(self)@.remove(p));
                }
                true
            },
            None => {
                proof {
                    assert(self@ =~= old(self)@.remove(p));
                }
                false
            },
        }
    }
}

/// A session-like FLV recorder: created idle, started once onto a file.
pub struct FlvRecorder {
    target: Option<(StreamKey, String)>,
}

impl FlvRecorder {
    /// The stream and file this recorder was started on, if any.
    pub closed spec fn spec_target(&self) -> Option<(KeyView, Seq<char>)> {
        match self.target {
            Some(t) => Some((t.0@, t.1@)),
            None => None,
        }
    }

    /// An idle recorder.
    pub fn new() -> (r: Self)
        ensures
            r.spec_target() is None,
    {
        FlvRecorder { target: None }
    }

    /// Start recording the given stream to `file_path`.  Reports `true`
    /// on the first start; a recorder already started refuses.
    pub fn start(&mut self, vhost: &str, app: &str, stream: &str, file_path: &str) -> (r: bool)
        ensures
            r == (old(self).spec_target() is None),
            r ==> final(self).spec_target() == Some(
                (KeyView { vhost: vhost@, app: app@, stream: stream@ }, file_path@),
            ),
            !r ==> final(self).spec_target() == old(self).spec_target(),
    {
        match self.target {
            Some(_) => false,
            None => {
                self.target = Some((StreamKey::new(vhost, app, stream), file_path.to_owned()));
                true
            },
        }
    }
}

} // verus!
