use fl_caption::capture::{CaptureSettings, CaptureStep, CaptureWindow, VoiceCheck};

const SECOND: u128 = 1_000_000_000;

fn chunk(start: i32, len: i32) -> Vec<i32> {
    (start..start + len).collect()
}

fn settings(max_s: u32, use_vad: bool) -> CaptureSettings {
    CaptureSettings::from_options(Some(2000), Some(max_s), use_vad)
}

fn transcribed(step: CaptureStep<i32>) -> Vec<i32> {
    match step {
        CaptureStep::Transcribe(v) => v,
        CaptureStep::Wait => panic!("expected a transcription, got a wait"),
        CaptureStep::DetectVoice(_) => panic!("expected a transcription, got a voice check"),
    }
}

#[test]
fn default_settings() {
    let s = CaptureSettings::from_options(None, None, true);
    assert_eq!(s.inference_interval_ms, 2000);
    assert_eq!(s.max_audio_duration_s, 12);
    assert!(s.use_vad);
    let t = CaptureSettings::from_options(Some(500), Some(30), false);
    assert_eq!(t.inference_interval_ms, 500);
    assert_eq!(t.max_audio_duration_s, 30);
    assert!(!t.use_vad);
}

#[test]
fn inference_timeout_defaults_to_interval() {
    let s = settings(12, false);
    assert_eq!(s.inference_timeout_ns(None), 2 * SECOND);
    assert_eq!(s.inference_timeout_ns(Some(7)), 7);
}

#[test]
fn first_transcription_waits_for_three_seconds() {
    let mut w = CaptureWindow::new(settings(12, false), 0);
    assert!(matches!(w.on_audio(&chunk(0, 16000), 10 * SECOND), CaptureStep::Wait));
    assert!(matches!(w.on_audio(&chunk(16000, 16000), 11 * SECOND), CaptureStep::Wait));
    assert!(matches!(w.on_audio(&chunk(32000, 15999), 12 * SECOND), CaptureStep::Wait));
    assert_eq!(w.buffered_len(), 47999);
    let audio = transcribed(w.on_audio(&chunk(47999, 1), 12 * SECOND));
    assert_eq!(audio, chunk(0, 48000));
    assert_eq!(w.buffered_len(), 0);
    assert_eq!(w.history_len(), 48000);
}

#[test]
fn transcriptions_keep_the_interval() {
    let mut w = CaptureWindow::new(settings(12, false), 0);
    let first = transcribed(w.on_audio(&chunk(0, 48000), 3 * SECOND));
    assert_eq!(first.len(), 48000);
    // One second later: too early.
    assert!(matches!(w.on_audio(&chunk(48000, 16000), 4 * SECOND), CaptureStep::Wait));
    // Just under two seconds: still too early.
    assert!(matches!(w.on_audio(&chunk(64000, 100), 5 * SECOND - 1), CaptureStep::Wait));
    // Two seconds after the last transcription: history plus all new audio.
    let second = transcribed(w.on_audio(&chunk(64100, 15900), 5 * SECOND));
    assert_eq!(second, chunk(0, 80000));
    assert_eq!(w.history_len(), 80000);
}

#[test]
fn clock_going_back_counts_as_no_time() {
    let mut w = CaptureWindow::new(settings(12, false), 10 * SECOND);
    assert!(matches!(w.on_audio(&chunk(0, 48000), 5 * SECOND), CaptureStep::Wait));
    assert_eq!(w.buffered_len(), 48000);
}

#[test]
fn window_keeps_most_recent_audio() {
    // Four seconds of context: 64000 samples.
    let mut w = CaptureWindow::new(settings(4, false), 0);
    let first = transcribed(w.on_audio(&chunk(0, 48000), 3 * SECOND));
    assert_eq!(first, chunk(0, 48000));
    let second = transcribed(w.on_audio(&chunk(48000, 32000), 5 * SECOND));
    // 48000 + 32000 = 80000 samples; the oldest 16000 are cut.
    assert_eq!(second, chunk(16000, 64000));
    assert_eq!(w.history_len(), 64000);
}

#[test]
fn fresh_audio_longer_than_context_is_kept_whole() {
    // One second of context, but the first transcription has three.
    let mut w = CaptureWindow::new(settings(1, false), 0);
    let first = transcribed(w.on_audio(&chunk(0, 48000), 3 * SECOND));
    assert_eq!(first, chunk(0, 48000));
    let second = transcribed(w.on_audio(&chunk(48000, 8000), 5 * SECOND));
    // 8000 fresh samples fit, and 8000 of the history fill the second.
    assert_eq!(second, chunk(40000, 16000));
}

#[test]
fn zero_context_keeps_only_fresh_audio() {
    let mut w = CaptureWindow::new(settings(0, false), 0);
    let first = transcribed(w.on_audio(&chunk(0, 48000), 3 * SECOND));
    assert_eq!(first, chunk(0, 48000));
    let second = transcribed(w.on_audio(&chunk(48000, 10), 5 * SECOND));
    assert_eq!(second, chunk(48000, 10));
}

#[test]
fn voice_check_silence_drops_audio_and_restarts_interval() {
    let mut w = CaptureWindow::new(settings(12, true), 0);
    match w.on_audio(&chunk(0, 48000), 3 * SECOND) {
        CaptureStep::DetectVoice(a) => assert_eq!(a, chunk(0, 48000)),
        _ => panic!("expected a voice check"),
    }
    assert!(w.awaiting_voice_check());
    assert!(matches!(w.on_voice_check(VoiceCheck::Silence, 4 * SECOND), CaptureStep::Wait));
    assert!(!w.awaiting_voice_check());
    assert_eq!(w.buffered_len(), 0);
    assert_eq!(w.history_len(), 0);
    // The interval now counts from the silence, at 4 s.
    assert!(matches!(w.on_audio(&chunk(48000, 1000), 5 * SECOND), CaptureStep::Wait));
    assert!(matches!(w.on_audio(&chunk(49000, 1000), 6 * SECOND), CaptureStep::DetectVoice(_)));
}

#[test]
fn voice_check_speech_replaces_audio() {
    let mut w = CaptureWindow::new(settings(12, true), 0);
    assert!(matches!(w.on_audio(&chunk(0, 48000), 3 * SECOND), CaptureStep::DetectVoice(_)));
    let audio = transcribed(w.on_voice_check(VoiceCheck::Speech(chunk(100, 500)), 4 * SECOND));
    assert_eq!(audio, chunk(100, 500));
    assert_eq!(w.history_len(), 500);
    // The interval counts from the decision at 3 s, not from the check at 4 s.
    assert!(matches!(w.on_audio(&chunk(0, 10), 5 * SECOND), CaptureStep::DetectVoice(_)));
}

#[test]
fn voice_check_failure_uses_audio_as_is() {
    let mut w = CaptureWindow::new(settings(12, true), 0);
    assert!(matches!(w.on_audio(&chunk(0, 48000), 3 * SECOND), CaptureStep::DetectVoice(_)));
    let audio = transcribed(w.on_voice_check(VoiceCheck::Failed, 4 * SECOND));
    assert_eq!(audio, chunk(0, 48000));
    assert_eq!(w.buffered_len(), 0);
}

#[test]
fn settings_are_kept() {
    let w: CaptureWindow<i32> = CaptureWindow::new(settings(7, true), 0);
    assert_eq!(w.settings(), settings(7, true));
}

#[test]
fn session_rounds_are_paced() {
    // 37 chunks of 3200 samples (0.2 s each) arriving every 0.2 s, with a
    // detector that finds silence every other time.
    let mut w = CaptureWindow::new(settings(12, true), 0);
    let mut received = 0usize;
    let mut rounds: Vec<u128> = Vec::new();
    let mut silence = true;
    for k in 1..=37u128 {
        let now = k * SECOND / 5;
        received += 3200;
        let step = w.on_audio(&chunk(0, 3200), now);
        if let CaptureStep::DetectVoice(_) = step {
            assert!(received >= 48000);
            rounds.push(now);
            let outcome = if silence { VoiceCheck::Silence } else { VoiceCheck::Failed };
            silence = !silence;
            let _ = w.on_voice_check(outcome, now);
        } else {
            assert!(matches!(step, CaptureStep::Wait));
        }
    }
    assert!(rounds.len() >= 2);
    assert_eq!(rounds[0], 3 * SECOND);
    for pair in rounds.windows(2) {
        assert!(pair[1] - pair[0] >= 2 * SECOND);
    }
}
