//! Codec-tagged frames and track descriptors.
//!
//! A `Frame` is one timestamped buffer of encoded media data; the engine
//! is unit-agnostic about timestamps and forwards them unchanged.  A
//! `Track` describes one elementary stream (its codec and its video or
//! audio parameters) and is immutable once constructed.

use vstd::prelude::*;

verus! {

/// Supported codec identifiers.
#[derive(Clone, Copy, PartialEq, Eq, Structural, Debug)]
pub enum CodecId {
    H264,
    H265,
}

/// Video track parameters.
#[derive(Clone, Copy, PartialEq, Eq, Structural, Debug)]
pub struct VideoCodecArgs {
    pub width: i32,
    pub height: i32,
    pub fps: i32,
}

/// Audio track parameters.
#[derive(Clone, Copy, PartialEq, Eq, Structural, Debug)]
pub struct AudioCodecArgs {
    pub channels: i32,
    pub sample_rate: i32,
}

/// Parameters of a track, tagged by its kind.
#[derive(Clone, Copy, PartialEq, Eq, Structural, Debug)]
pub enum CodecArgs {
    Video(VideoCodecArgs),
    Audio(AudioCodecArgs),
}

/// Descriptor of one elementary stream.  Immutable once constructed.
#[derive(Clone, Copy, PartialEq, Eq, Structural, Debug)]
pub struct Track {
    pub codec_id: CodecId,
    pub args: CodecArgs,
}

impl Track {
    /// A descriptor carrying exactly the given codec and parameters.
    pub fn new(codec_id: CodecId, args: CodecArgs) -> (r: Self)
        ensures
            r.codec_id == codec_id,
            r.args == args,
    {
        Track { codec_id, args }
    }

    /// Whether this is a video track.
    pub fn is_video(&self) -> (r: bool)
        ensures
            r == (self.args is Video),
    {
        match self.args {
            CodecArgs::Video(_) => true,
            CodecArgs::Audio(_) => false,
        }
    }

    /// The codec of this track.
    pub fn get_codec_id(&self) -> (r: CodecId)
        ensures
            r == self.codec_id,
    {
        self.codec_id
    }

    /// The codec's display name.
    pub fn get_codec_name(&self) -> (r: String)
        ensures
            r@ == spec_codec_name(self.codec_id),
    {
        match self.codec_id {
            CodecId::H264 => String::from_str("H264"),
            CodecId::H265 => String::from_str("H265"),
        }
    }

    /// Frame width of a video track; zero on an audio track.
    pub fn video_width(&self) -> (r: i32)
        ensures
            r == (match self.args {
                CodecArgs::Video(v) => v.width,
                CodecArgs::Audio(_) => 0,
            }),
    {
        match self.args {
            CodecArgs::Video(v) => v.width,
            CodecArgs::Audio(_) => 0,
        }
    }

    /// Frame height of a video track; zero on an audio track.
    pub fn video_height(&self) -> (r: i32)
        ensures
            r == (match self.args {
                CodecArgs::Video(v) => v.height,
                CodecArgs::Audio(_) => 0,
            }),
    {
        match self.args {
            CodecArgs::Video(v) => v.height,
            CodecArgs::Audio(_) => 0,
        }
    }

    /// Frame rate of a video track; zero on an audio track.
    pub fn video_fps(&self) -> (r: i32)
        ensures
            r == (match self.args {
                CodecArgs::Video(v) => v.fps,
                CodecArgs::Audio(_) => 0,
            }),
    {
        match self.args {
            CodecArgs::Video(v) => v.fps,
            CodecArgs::Audio(_) => 0,
        }
    }

    /// Sample rate of an audio track; zero on a video track.
    pub fn audio_sample_rate(&self) -> (r: i32)
        ensures
            r == (match self.args {
                CodecArgs::Audio(a) => a.sample_rate,
                CodecArgs::Video(_) => 0,
            }),
    {
        match self.args {
            CodecArgs::Audio(a) => a.sample_rate,
            CodecArgs::Video(_) => 0,
        }
    }

    /// Channel count of an audio track; zero on a video track.
    pub fn audio_channel(&self) -> (r: i32)
        ensures
            r == (match self.args {
                CodecArgs::Audio(a) => a.channels,
                CodecArgs::Video(_) => 0,
            }),
    {
        match self.args {
            CodecArgs::Audio(a) => a.channels,
            CodecArgs::Video(_) => 0,
        }
    }
}

/// The display name of a codec.
pub open spec fn spec_codec_name(c: CodecId) -> Seq<char> {
    match c {
        CodecId::H264 => "H264"@,
        CodecId::H265 => "H265"@,
    }
}

/// One timestamped, codec-tagged buffer of encoded data.
///
/// `dts <= pts` is expected but deliberately not enforced: timestamps are
/// forwarded as the producer supplied them.
pub struct Frame {
    pub codec_id: CodecId,
    pub dts: u64,
    pub pts: u64,
    pub payload: Vec<u8>,
}

impl Frame {
    /// A frame holding exactly the given codec, timestamps and bytes.
    pub fn new(codec_id: CodecId, dts: u64, pts: u64, payload: Vec<u8>) -> (r: Self)
        ensures
            r.codec_id == codec_id,
            r.dts == dts,
            r.pts == pts,
            r.payload@ == payload@,
    {
        Frame { codec_id, dts, pts, payload }
    }
}

} // verus!
