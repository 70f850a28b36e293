use media_core::recorder::{FlvRecorder, Recorder, RECORD_HLS, RECORD_MP4};

#[test]
fn recording_starts_once_per_type_and_stream() {
    let mut rec = Recorder::new();
    assert!(!rec.is_recording(RECORD_MP4, "__defaultVhost__", "live", "cam"));
    assert!(rec.start(RECORD_MP4, "__defaultVhost__", "live", "cam", "/rec", 3600));
    assert!(rec.is_recording(RECORD_MP4, "__defaultVhost__", "live", "cam"));
    assert!(!rec.start(RECORD_MP4, "__defaultVhost__", "live", "cam", "/rec", 3600));
    // The other type is independent.
    assert!(!rec.is_recording(RECORD_HLS, "__defaultVhost__", "live", "cam"));
    assert!(rec.start(RECORD_HLS, "__defaultVhost__", "live", "cam", "/rec", 0));
}

#[test]
fn stop_reports_whether_one_ran() {
    let mut rec = Recorder::new();
    assert!(!rec.stop(RECORD_MP4, "__defaultVhost__", "live", "cam"));
    rec.start(RECORD_MP4, "__defaultVhost__", "live", "cam", "/rec", 60);
    assert!(rec.stop(RECORD_MP4, "__defaultVhost__", "live", "cam"));
    assert!(!rec.is_recording(RECORD_MP4, "__defaultVhost__", "live", "cam"));
    assert!(!rec.stop(RECORD_MP4, "__defaultVhost__", "live", "cam"));
}

#[test]
fn flv_recorder_starts_once() {
    let mut flv = FlvRecorder::new();
    assert!(flv.start("__defaultVhost__", "live", "cam", "/tmp/cam.flv"));
    assert!(!flv.start("__defaultVhost__", "live", "cam", "/tmp/cam2.flv"));
}
