use media_core::frame::{AudioCodecArgs, CodecArgs, CodecId, Frame, Track};
use media_core::media::Media;

#[test]
fn frames_rejected_before_init_complete() {
    let mut m = Media::new("__defaultVhost__", "live", "cam", 0, false, false);
    m.init_video(CodecId::H264, 1920, 1080, 25);
    let frame = Frame::new(CodecId::H264, 1000, 1000, vec![1, 2, 3, 4]);
    assert!(!m.input_frame(&frame));
    m.init_complete();
    assert!(m.input_frame(&frame));
}

#[test]
fn frames_need_a_matching_track() {
    let mut m = Media::new("__defaultVhost__", "live", "cam", 0, false, false);
    m.init_video(CodecId::H264, 1280, 720, 30);
    m.init_complete();
    let hevc = Frame::new(CodecId::H265, 0, 0, vec![0; 8]);
    assert!(!m.input_frame(&hevc));
    let avc = Frame::new(CodecId::H264, 0, 40, vec![0; 8]);
    assert!(m.input_frame(&avc));
}

#[test]
fn tracks_refused_after_init_complete() {
    let mut m = Media::new("__defaultVhost__", "live", "cam", 0, true, true);
    assert!(m.init_audio(CodecId::H264, 48000, 2));
    m.init_complete();
    let late = Track::new(
        CodecId::H265,
        CodecArgs::Audio(AudioCodecArgs {
            channels: 1,
            sample_rate: 8000,
        }),
    );
    assert!(!m.init_track(late));
}

#[test]
fn frame_carries_exactly_what_it_was_given() {
    let f = Frame::new(CodecId::H265, 90, 120, vec![9, 9, 9]);
    assert!(matches!(f.codec_id, CodecId::H265));
    assert_eq!(f.dts, 90);
    assert_eq!(f.pts, 120);
    assert_eq!(f.payload, vec![9, 9, 9]);
}

#[test]
fn track_kind_is_observable() {
    let v = Track::new(
        CodecId::H264,
        CodecArgs::Video(media_core::frame::VideoCodecArgs {
            width: 320,
            height: 240,
            fps: 10,
        }),
    );
    assert!(v.is_video());
    let a = Track::new(
        CodecId::H264,
        CodecArgs::Audio(AudioCodecArgs {
            channels: 2,
            sample_rate: 44100,
        }),
    );
    assert!(!a.is_video());
}
