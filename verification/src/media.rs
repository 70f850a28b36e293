//! Live media source objects.
//!
//! A `Media` is the producer-side aggregate for one stream: its key, the
//! tracks attached so far, and the flag that says track setup is complete.
//! Tracks are attached before frames flow; `init_complete` marks that no
//! more tracks will come.  Frames are then pushed repeatedly until the
//! producer releases the object.

use vstd::prelude::*;

use crate::frame::{AudioCodecArgs, CodecArgs, CodecId, Frame, Track, VideoCodecArgs};
use crate::registry::{KeyView, StreamKey};

verus! {

/// A live, mutable media source under construction or in use.
pub struct Media {
    key: StreamKey,
    duration_ms: u64,
    hls_enabled: bool,
    mp4_enabled: bool,
    tracks: Vec<Track>,
    ready: bool,
}

impl Media {
    /// The key this source is registered under.
    pub closed spec fn spec_key(&self) -> KeyView {
        self.key@
    }

    /// The tracks attached so far, in attachment order.
    pub closed spec fn spec_tracks(&self) -> Seq<Track> {
        self.tracks@
    }

    /// Whether track setup is complete.
    pub closed spec fn spec_ready(&self) -> bool {
        self.ready
    }

    pub closed spec fn spec_duration_ms(&self) -> u64 {
        self.duration_ms
    }

    pub closed spec fn spec_hls_enabled(&self) -> bool {
        self.hls_enabled
    }

    pub closed spec fn spec_mp4_enabled(&self) -> bool {
        self.mp4_enabled
    }

    /// A source is well formed when no part of its key is empty.
    pub open spec fn wf(&self) -> bool {
        self.spec_key().wf()
    }

    /// Frames with codec `c` are accepted once track setup is complete and
    /// some attached track carries that codec.
    pub open spec fn spec_accepts(&self, c: CodecId) -> bool {
        self.spec_ready() && exists|i: int|
            0 <= i < self.spec_tracks().len() && self.spec_tracks()[i].codec_id == c
    }

    /// A fresh source with no tracks and setup still open.
    pub fn new(
        vhost: &str,
        app: &str,
        stream: &str,
        duration_ms: u64,
        hls_enabled: bool,
        mp4_enabled: bool,
    ) -> (r: Self)
        requires
            vhost@.len() > 0,
            app@.len() > 0,
            stream@.len() > 0,
        ensures
            r.wf(),
            r.spec_key() == (KeyView { vhost: vhost@, app: app@, stream: stream@ }),
            r.spec_tracks() == Seq::<Track>::empty(),
            !r.spec_ready(),
            r.spec_duration_ms() == duration_ms,
            r.spec_hls_enabled() == hls_enabled,
            r.spec_mp4_enabled() == mp4_enabled,
    {
        Media {
            key: StreamKey::new(vhost, app, stream),
            duration_ms,
            hls_enabled,
            mp4_enabled,
            tracks: Vec::new(),
            ready: false,
        }
    }

    /// The key of this source.
    pub fn key(&self) -> (r: &StreamKey)
        ensures
            r@ == self.spec_key(),
    {
        &self.key
    }

    /// Attach one track.  Accepted (and reported `true`) only while track
    /// setup is still open.
    pub fn init_track(&mut self, track: Track) -> (r: bool)
        ensures
            r == !old(self).spec_ready(),
            final(self).spec_ready() == old(self).spec_ready(),
            final(self).spec_key() == old(self).spec_key(),
            final(self).spec_tracks() == if r {
                old(self).spec_tracks().push(track)
            } else {
                old(self).spec_tracks()
            },
            final(self).spec_duration_ms() == old(self).spec_duration_ms(),
            final(self).spec_hls_enabled() == old(self).spec_hls_enabled(),
            final(self).spec_mp4_enabled() == old(self).spec_mp4_enabled(),
    {
        if self.ready {
            false
        } else {
            self.tracks.push(track);
            true
        }
    }

    /// Attach a video track with the given parameters.
    pub fn init_video(&mut self, codec_id: CodecId, width: i32, height: i32, fps: i32) -> (r: bool)
        ensures
            r == !old(self).spec_ready(),
            final(self).spec_ready() == old(self).spec_ready(),
            final(self).spec_key() == old(self).spec_key(),
            final(self).spec_tracks() == if r {
                old(self).spec_tracks().push(
                    Track {
                        codec_id,
                        args: CodecArgs::Video(VideoCodecArgs { width, height, fps }),
                    },
                )
            } else {
                old(self).spec_tracks()
            },
            final(self).spec_duration_ms() == old(self).spec_duration_ms(),
            final(self).spec_hls_enabled() == old(self).spec_hls_enabled(),
            final(self).spec_mp4_enabled() == old(self).spec_mp4_enabled(),
    {
        self.init_track(
            Track::new(codec_id, CodecArgs::Video(VideoCodecArgs { width, height, fps })),
        )
    }

    /// Attach an audio track with the given parameters.
    pub fn init_audio(&mut self, codec_id: CodecId, sample_rate: i32, channels: i32) -> (r: bool)
        ensures
            r == !old(self).spec_ready(),
            final(self).spec_ready() == old(self).spec_ready(),
            final(self).spec_key() == old(self).spec_key(),
            final(self).spec_tracks() == if r {
                old(self).spec_tracks().push(
                    Track {
                        codec_id,
                        args: CodecArgs::Audio(AudioCodecArgs { channels, sample_rate }),
                    },
                )
            } else {
                old(self).spec_tracks()
            },
            final(self).spec_duration_ms() == old(self).spec_duration_ms(),
            final(self).spec_hls_enabled() == old(self).spec_hls_enabled(),
            final(self).spec_mp4_enabled() == old(self).spec_mp4_enabled(),
    {
        self.init_track(
            Track::new(codec_id, CodecArgs::Audio(AudioCodecArgs { channels, sample_rate })),
        )
    }

    /// Close track setup: no more tracks will be attached.
    pub fn init_complete(&mut self)
        ensures
            final(self).spec_ready(),
            final(self).spec_key() == old(self).spec_key(),
            final(self).spec_tracks() == old(self).spec_tracks(),
            final(self).spec_duration_ms() == old(self).spec_duration_ms(),
            final(self).spec_hls_enabled() == old(self).spec_hls_enabled(),
            final(self).spec_mp4_enabled() == old(self).spec_mp4_enabled(),
    {
        self.ready = true;
    }

    /// Ingest one frame.  Accepted exactly when track setup is complete
    /// and a track with the frame's codec is attached.
    pub fn input_frame(&self, frame: &Frame) -> (r: bool)
        ensures
            r == self.spec_accepts(frame.codec_id),
    {
        if !self.ready {
            return false;
        }
        let mut i: usize = 0;
        while i < self.tracks.len()
            invariant
                self.spec_ready(),
                i <= self.tracks@.len(),
                forall|j: int| 0 <= j < i ==> self.tracks@[j].codec_id != frame.codec_id,
            decreases self.tracks@.len() - i,
        {
            if self.tracks[i].codec_id == frame.codec_id {
                proof {
                    assert(0 <= i < self.spec_tracks().len() && self.spec_tracks()[i as int].codec_id
                        == frame.codec_id);
                }
                return true;
            }
            i = i + 1;
        }
        false
    }

    /// The attached tracks, as a copy.
    pub fn clone_tracks(&self) -> (r: Vec<Track>)
        ensures
            r@ == self.spec_tracks(),
    {
        let mut r: Vec<Track> = Vec::new();
        let mut i: usize = 0;
        while i < self.tracks.len()
            invariant
                i <= self.tracks@.len(),
                r@ == self.tracks@.take(i as int),
            decreases self.tracks@.len() - i,
        {
            r.push(self.tracks[i]);
            proof {
                assert(self.tracks@.take(i as int + 1) =~= self.tracks@.take(i as int).push(
                    self.tracks@[i as int],
                ));
            }
            i = i + 1;
        }
        proof {
            assert(self.tracks@.take(self.tracks@.len() as int) =~= self.tracks@);
        }
        r
    }
}

} // verus!
