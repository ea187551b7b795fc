//! The streaming audio window of a captioning session.
//!
//! Audio arrives in chunks. The window collects them and decides, at each
//! chunk, whether to wait, to ask a voice-activity detector about the
//! collected audio, or to run the speech model. The model always sees the
//! audio collected since its last run, preceded by as much of the audio it
//! saw before as fits into the configured context length.
//!
//! The window never looks at the samples themselves, so it is generic over
//! the sample type; time is a count of nanoseconds on a monotonic clock.

use vstd::prelude::*;

verus! {

/// Samples per second of the captured audio.
pub const SAMPLE_RATE: u32 = 16000;

/// Number of samples collected before the very first transcription (3 s).
pub const FIRST_INFERENCE_SAMPLES: usize = 48000;

/// Time between two transcriptions when none is configured.
pub const DEFAULT_INFERENCE_INTERVAL_MS: u64 = 2000;

/// Audio context length, in seconds, when none is configured.
pub const DEFAULT_MAX_AUDIO_DURATION_S: u32 = 12;

/// Nanoseconds in a millisecond.
pub const NANOS_PER_MILLI: u128 = 1000000;

/// The session's constants: 16 kHz audio, a first transcription after 3 s
/// (48000 samples), 2000 ms between transcriptions and 12 s of context
/// unless configured otherwise.
pub proof fn law_session_constants()
    ensures
        SAMPLE_RATE == 16000,
        FIRST_INFERENCE_SAMPLES == 3 * 16000,
        DEFAULT_INFERENCE_INTERVAL_MS == 2000,
        DEFAULT_MAX_AUDIO_DURATION_S == 12,
        NANOS_PER_MILLI == 1000000,
{
}

/// How a captioning session paces its transcriptions.
#[derive(Clone, Copy, Debug, PartialEq, Eq, Structural)]
pub struct CaptureSettings {
    /// Least time between two runs of the speech model.
    pub inference_interval_ms: u64,
    /// Longest audio, in seconds, that the speech model is given.
    pub max_audio_duration_s: u32,
    /// Whether a voice-activity detector screens the audio first.
    pub use_vad: bool,
}

impl CaptureSettings {
    /// The least time between two transcriptions, in nanoseconds.
    pub open spec fn interval_ns(self) -> int {
        self.inference_interval_ms * NANOS_PER_MILLI
    }

    /// The longest audio the speech model is given, in samples.
    pub open spec fn max_samples(self) -> int {
        self.max_audio_duration_s * SAMPLE_RATE
    }

    /// The time limit of one run of the speech model, in nanoseconds: the
    /// configured limit, or else the interval between transcriptions.
    pub fn inference_timeout_ns(&self, configured_ns: Option<u128>) -> (r: u128)
        ensures
            r == match configured_ns {
                Some(t) => t as int,
                None => self.interval_ns(),
            },
    {
        match configured_ns {
            Some(t) => t,
            None => self.inference_interval_ms as u128 * NANOS_PER_MILLI,
        }
    }

    /// Settings from the optional session parameters, with the defaults
    /// of 2000 ms between transcriptions and 12 s of audio context.
    pub fn from_options(
        inference_interval_ms: Option<u64>,
        max_audio_duration_s: Option<u32>,
        use_vad: bool,
    ) -> (r: CaptureSettings)
        ensures
            r.inference_interval_ms == match inference_interval_ms {
                Some(ms) => ms,
                None => DEFAULT_INFERENCE_INTERVAL_MS,
            },
            r.max_audio_duration_s == match max_audio_duration_s {
                Some(s) => s,
                None => DEFAULT_MAX_AUDIO_DURATION_S,
            },
            r.use_vad == use_vad,
    {
        let interval = match inference_interval_ms {
            Some(ms) => ms,
            None => DEFAULT_INFERENCE_INTERVAL_MS,
        };
        let duration = match max_audio_duration_s {
            Some(s) => s,
            None => DEFAULT_MAX_AUDIO_DURATION_S,
        };
        CaptureSettings {
            inference_interval_ms: interval,
            max_audio_duration_s: duration,
            use_vad,
        }
    }
}

/// The abstract state of a capture window.
pub struct CaptureModel<T> {
    pub settings: CaptureSettings,
    /// Audio received since the last transcription.
    pub buffered: Seq<T>,
    /// The audio given to the speech model at its last run.
    pub history: Seq<T>,
    /// Whether the initial 3 s of audio have been collected.
    pub started: bool,
    /// When the speech model last ran (or when silence was last detected).
    pub last_inference_ns: u128,
    /// While a voice check is outstanding: the time of the decision that
    /// asked for it.
    pub voice_check_ns: Option<u128>,
}

/// What the session has to do next.
pub enum CaptureStep<T> {
    /// Keep receiving audio.
    Wait,
    /// Run the voice-activity detector on this audio and report the outcome.
    DetectVoice(Vec<T>),
    /// Run the speech model on this audio.
    Transcribe(Vec<T>),
}

/// The abstract view of a [`CaptureStep`].
pub enum StepModel<T> {
    Wait,
    DetectVoice(Seq<T>),
    Transcribe(Seq<T>),
}

impl<T> View for CaptureStep<T> {
    type V = StepModel<T>;

    open spec fn view(&self) -> StepModel<T> {
        match self {
            CaptureStep::Wait => StepModel::Wait,
            CaptureStep::DetectVoice(v) => StepModel::DetectVoice(v@),
            CaptureStep::Transcribe(v) => StepModel::Transcribe(v@),
        }
    }
}

/// The outcome of a voice-activity check.
pub enum VoiceCheck<T> {
    /// The detector failed; the audio is used as it is.
    Failed,
    /// Speech was found; the detector's filtered audio replaces the audio.
    Speech(Vec<T>),
    /// No speech: the audio is dropped.
    Silence,
}

/// The abstract view of a [`VoiceCheck`].
pub enum VoiceModel<T> {
    Failed,
    Speech(Seq<T>),
    Silence,
}

impl<T> View for VoiceCheck<T> {
    type V = VoiceModel<T>;

    open spec fn view(&self) -> VoiceModel<T> {
        match self {
            VoiceCheck::Failed => VoiceModel::Failed,
            VoiceCheck::Speech(v) => VoiceModel::Speech(v@),
            VoiceCheck::Silence => VoiceModel::Silence,
        }
    }
}

/// Time from `last` to `now`, or zero when `last` is later.
pub open spec fn elapsed_ns(now: u128, last: u128) -> int {
    if now >= last {
        now - last
    } else {
        0
    }
}

/// The audio the speech model is given: the earlier audio `history`
/// followed by the `fresh` audio, where history is cut from the front so
/// that the whole fits into `max_samples`; when the fresh audio alone is
/// longer than that, history is dropped and the fresh audio is kept whole.
pub open spec fn window<T>(history: Seq<T>, fresh: Seq<T>, max_samples: int) -> Seq<T> {
    let total = history.len() + fresh.len();
    if total > max_samples {
        let excess = total - max_samples;
        if history.len() > excess {
            history.skip(excess) + fresh
        } else {
            fresh
        }
    } else {
        history + fresh
    }
}

/// Transcribing `fresh` audio at time `at`: the window becomes the new
/// history, the buffer is emptied and the time is recorded.
pub open spec fn transcribe_step<T>(s: CaptureModel<T>, fresh: Seq<T>, at: u128) -> (
    CaptureModel<T>,
    StepModel<T>,
) {
    let w = window(s.history, fresh, s.settings.max_samples());
    (
        CaptureModel {
            buffered: Seq::empty(),
            history: w,
            last_inference_ns: at,
            voice_check_ns: None,
            ..s
        },
        StepModel::Transcribe(w),
    )
}

/// A chunk `pcm` of audio arrives at time `now`.
pub open spec fn audio_step<T>(s: CaptureModel<T>, pcm: Seq<T>, now: u128) -> (
    CaptureModel<T>,
    StepModel<T>,
) {
    let buffered = s.buffered + pcm;
    let started = s.started || buffered.len() >= FIRST_INFERENCE_SAMPLES;
    if !started {
        (CaptureModel { buffered, ..s }, StepModel::Wait)
    } else if elapsed_ns(now, s.last_inference_ns) < s.settings.interval_ns() {
        (CaptureModel { buffered, started, ..s }, StepModel::Wait)
    } else if s.settings.use_vad {
        (
            CaptureModel { buffered, started, voice_check_ns: Some(now), ..s },
            StepModel::DetectVoice(buffered),
        )
    } else {
        transcribe_step(CaptureModel { started, ..s }, buffered, now)
    }
}

/// The outcome of a voice check arrives; `now` is the time it arrived.
pub open spec fn voice_step<T>(s: CaptureModel<T>, outcome: VoiceModel<T>, now: u128) -> (
    CaptureModel<T>,
    StepModel<T>,
) {
    let at = s.voice_check_ns.unwrap();
    match outcome {
        VoiceModel::Failed => transcribe_step(s, s.buffered, at),
        VoiceModel::Speech(pcm) => transcribe_step(s, pcm, at),
        VoiceModel::Silence => (
            CaptureModel {
                buffered: Seq::empty(),
                last_inference_ns: now,
                voice_check_ns: None,
                ..s
            },
            StepModel::Wait,
        ),
    }
}

/// The speech model always sees the most recent audio: the window is the
/// tail of the earlier audio followed by the fresh audio, it always holds
/// all of the fresh audio, and it is as long as the context length allows
/// (all of the audio when that fits, else the context length, else the fresh
/// audio alone when that is longer than the context length).
pub proof fn law_window_is_most_recent_audio<T>(
    history: Seq<T>,
    fresh: Seq<T>,
    settings: CaptureSettings,
)
    ensures
        ({
            let max = settings.max_samples();
            let w = window(history, fresh, max);
            let total: int = (history.len() + fresh.len()) as int;
            &&& w.len() == (if total <= max {
                total
            } else if fresh.len() >= max {
                fresh.len() as int
            } else {
                max
            })
            &&& w == (history + fresh).skip(total - w.len())
            &&& w.skip(w.len() - fresh.len()) == fresh
        }),
{
    let max = settings.max_samples();
    let w = window(history, fresh, max);
    let all = history + fresh;
    let total = history.len() + fresh.len();
    if total > max {
        let excess = total - max;
        if history.len() > excess {
            assert(all.skip(excess) =~= history.skip(excess) + fresh);
        } else {
            assert(all.skip(history.len() as int) =~= fresh);
        }
    } else {
        assert(all.skip(0) =~= all);
    }
    assert(w.skip(w.len() - fresh.len()) =~= fresh);
}

/// Every transcription hands the speech model exactly the audio that
/// becomes the new history, empties the buffer and ends any voice check;
/// a chunk that is not transcribed is kept in the buffer.
pub proof fn law_transcription_becomes_history<T>(
    s: CaptureModel<T>,
    pcm: Seq<T>,
    now: u128,
    outcome: VoiceModel<T>,
)
    ensures
        ({
            let (a, step) = audio_step(s, pcm, now);
            &&& step matches StepModel::Transcribe(w) ==> {
                &&& a.history == w
                &&& a.buffered.len() == 0
                &&& a.last_inference_ns == now
                &&& w == window(s.history, s.buffered + pcm, s.settings.max_samples())
            }
            &&& step !is Transcribe ==> a.buffered == s.buffered + pcm && a.history == s.history
        }),
        s.voice_check_ns is Some ==> ({
            let (v, step) = voice_step(s, outcome, now);
            &&& step matches StepModel::Transcribe(w) ==> {
                &&& v.history == w
                &&& v.buffered.len() == 0
                &&& v.last_inference_ns == s.voice_check_ns.unwrap()
            }
            &&& v.voice_check_ns is None
        }),
{
}

/// Nothing is transcribed or checked for voice before the first 3 s of
/// audio have arrived, and once they have, the session stays started.
pub proof fn law_first_transcription_waits<T>(s: CaptureModel<T>, pcm: Seq<T>, now: u128)
    ensures
        ({
            let (a, step) = audio_step(s, pcm, now);
            &&& (!s.started && (s.buffered + pcm).len() < FIRST_INFERENCE_SAMPLES) ==> step is Wait
                && !a.started
            &&& s.started ==> a.started
            &&& step !is Wait ==> a.started
        }),
{
}

/// Two runs of the speech model, or a run and a voice check, are at least
/// the configured interval apart; a detected silence restarts the interval.
pub proof fn law_interval_between_transcriptions<T>(
    s: CaptureModel<T>,
    pcm: Seq<T>,
    now: u128,
)
    ensures
        ({
            let (a, step) = audio_step(s, pcm, now);
            step !is Wait ==> elapsed_ns(now, s.last_inference_ns) >= s.settings.interval_ns()
        }),
        s.voice_check_ns is Some ==> ({
            let (v, step) = voice_step(s, VoiceModel::Silence, now);
            &&& step is Wait
            &&& v.last_inference_ns == now
            &&& v.buffered.len() == 0
            &&& v.history == s.history
        }),
{
}

/// A voice check is asked for exactly when the session uses a detector and
/// has decided to run the speech model; the audio checked is the whole
/// buffer, and a session without a detector never asks for one.
pub proof fn law_voice_check_protocol<T>(s: CaptureModel<T>, pcm: Seq<T>, now: u128)
    requires
        s.voice_check_ns is None,
    ensures
        ({
            let (a, step) = audio_step(s, pcm, now);
            &&& (a.voice_check_ns is Some <==> step is DetectVoice)
            &&& step matches StepModel::DetectVoice(audio) ==> audio == a.buffered
                && a.voice_check_ns == Some(now)
            &&& !s.settings.use_vad ==> step !is DetectVoice
        }),
{
}

/// `w` is the most recent audio of `history` followed by `fresh` that the
/// context of `max` samples allows: all of it when it fits, else its last
/// `max` samples, else (when `fresh` alone is longer) exactly `fresh`.
pub open spec fn is_recent_window<T>(w: Seq<T>, history: Seq<T>, fresh: Seq<T>, max: int) -> bool {
    let total: int = (history.len() + fresh.len()) as int;
    &&& w.len() == (if total <= max {
        total
    } else if fresh.len() >= max {
        fresh.len() as int
    } else {
        max
    })
    &&& w == (history + fresh).skip(total - w.len())
}

/// Whatever starts a transcription (fresh audio without a detector, a
/// failed voice check, or speech found by the detector), the speech model
/// gets the earlier history followed by the new audio (the buffer, or the
/// detector's filtered speech), cut from the front to the context of
/// `max_audio_duration_s * 16000` samples.
pub proof fn law_transcription_sees_recent_audio<T>(
    s: CaptureModel<T>,
    pcm: Seq<T>,
    now: u128,
    speech: Seq<T>,
)
    ensures
        ({
            let max = s.settings.max_audio_duration_s * 16000;
            &&& audio_step(s, pcm, now).1 matches StepModel::Transcribe(w) ==> is_recent_window(
                w,
                s.history,
                s.buffered + pcm,
                max,
            )
            &&& s.voice_check_ns is Some ==> (voice_step(s, VoiceModel::Speech(speech), now).1 matches StepModel::Transcribe(w)
                && is_recent_window(w, s.history, speech, max))
            &&& s.voice_check_ns is Some ==> (voice_step(s, VoiceModel::Failed, now).1 matches StepModel::Transcribe(w)
                && is_recent_window(w, s.history, s.buffered, max))
        }),
{
    law_window_is_most_recent_audio(s.history, s.buffered + pcm, s.settings);
    law_window_is_most_recent_audio(s.history, speech, s.settings);
    law_window_is_most_recent_audio(s.history, s.buffered, s.settings);
}

/// Progress: once 3 s of audio have arrived (48000 samples) and the
/// configured interval has passed since the last run, a chunk of audio
/// starts a round: a voice check with a detector, else a transcription.
/// Before that, the session waits.
pub proof fn law_round_starts_when_due<T>(s: CaptureModel<T>, pcm: Seq<T>, now: u128)
    requires
        s.voice_check_ns is None,
    ensures
        ({
            let step = audio_step(s, pcm, now).1;
            let started = s.started || (s.buffered + pcm).len() >= 48000;
            let interval = s.settings.inference_interval_ms * 1000000;
            let due = if now >= s.last_inference_ns {
                now - s.last_inference_ns >= interval
            } else {
                interval == 0
            };
            &&& (started && due && s.settings.use_vad) ==> step is DetectVoice
            &&& (started && due && !s.settings.use_vad) ==> step is Transcribe
            &&& !(started && due) ==> step is Wait
        }),
{
}

/// An event of a captioning session: a chunk of audio, or the outcome of
/// the voice check the session asked for, each with the time it arrived.
pub enum SessionEvent<T> {
    Audio(Seq<T>, u128),
    VoiceOutcome(VoiceModel<T>, u128),
}

/// The time an event arrived.
pub open spec fn event_time<T>(e: SessionEvent<T>) -> u128 {
    match e {
        SessionEvent::Audio(_, t) => t,
        SessionEvent::VoiceOutcome(_, t) => t,
    }
}

/// One event of a session. A session follows the protocol of
/// [`CaptureWindow`]: audio only while no voice check is outstanding, an
/// outcome only while one is; an event out of turn changes nothing.
pub open spec fn session_step<T>(s: CaptureModel<T>, e: SessionEvent<T>) -> (
    CaptureModel<T>,
    StepModel<T>,
) {
    match e {
        SessionEvent::Audio(pcm, now) => if s.voice_check_ns is None {
            audio_step(s, pcm, now)
        } else {
            (s, StepModel::Wait)
        },
        SessionEvent::VoiceOutcome(outcome, now) => if s.voice_check_ns is Some {
            voice_step(s, outcome, now)
        } else {
            (s, StepModel::Wait)
        },
    }
}

/// The state after a sequence of events.
pub open spec fn session_state<T>(s0: CaptureModel<T>, events: Seq<SessionEvent<T>>) -> CaptureModel<T>
    decreases events.len(),
{
    if events.len() == 0 {
        s0
    } else {
        session_step(session_state(s0, events.drop_last()), events.last()).0
    }
}

/// What the session does at event `i`.
pub open spec fn step_at<T>(s0: CaptureModel<T>, events: Seq<SessionEvent<T>>, i: int) -> StepModel<T> {
    session_step(session_state(s0, events.take(i)), events[i]).1
}

/// Whether event `i` starts a round: audio on which the session decides to
/// run the speech model or the voice-activity detector.
pub open spec fn is_round_start<T>(s0: CaptureModel<T>, events: Seq<SessionEvent<T>>, i: int) -> bool {
    &&& events[i] is Audio
    &&& step_at(s0, events, i) !is Wait
}

/// The number of samples received in a sequence of events.
pub open spec fn audio_received<T>(events: Seq<SessionEvent<T>>) -> nat
    decreases events.len(),
{
    if events.len() == 0 {
        0
    } else {
        audio_received(events.drop_last()) + match events.last() {
            SessionEvent::Audio(pcm, _) => pcm.len(),
            SessionEvent::VoiceOutcome(_, _) => 0,
        }
    }
}

/// The events arrive in time order.
pub open spec fn times_non_decreasing<T>(events: Seq<SessionEvent<T>>) -> bool {
    forall|i: int, j: int|
        0 <= i <= j < events.len() ==> event_time(#[trigger] events[i]) <= event_time(
            #[trigger] events[j],
        )
}

/// A session that has received nothing yet.
pub open spec fn fresh_session<T>(s: CaptureModel<T>) -> bool {
    &&& !s.started
    &&& s.buffered.len() == 0
    &&& s.voice_check_ns is None
}

/// What holds of a session after its first `n` events.
spec fn session_invariant<T>(s0: CaptureModel<T>, events: Seq<SessionEvent<T>>, n: int) -> bool {
    let s = session_state(s0, events.take(n));
    &&& s.settings == s0.settings
    &&& s.voice_check_ns is Some ==> s.started
    &&& !s.started ==> s.buffered.len() <= audio_received(events.take(n))
    &&& s.started ==> audio_received(events.take(n)) >= FIRST_INFERENCE_SAMPLES
    &&& forall|i: int|
        0 <= i < n && #[trigger] is_round_start(s0, events, i) ==> match s.voice_check_ns {
            None => s.last_inference_ns >= event_time(events[i]),
            Some(t) => t >= event_time(events[i]),
        }
    &&& forall|i: int|
        0 <= i < n && #[trigger] step_at(s0, events, i) !is Wait ==> audio_received(
            events.take(i + 1),
        ) >= FIRST_INFERENCE_SAMPLES
    &&& forall|i: int, j: int|
        0 <= i < j < n && #[trigger] is_round_start(s0, events, i) && #[trigger] is_round_start(
            s0,
            events,
            j,
        ) ==> event_time(events[j]) >= event_time(events[i]) + s0.settings.interval_ns()
}

proof fn lemma_session_invariant<T>(s0: CaptureModel<T>, events: Seq<SessionEvent<T>>, n: int)
    requires
        fresh_session(s0),
        times_non_decreasing(events),
        0 <= n <= events.len(),
    ensures
        session_invariant(s0, events, n),
    decreases n,
{
    if n == 0 {
        assert(events.take(0) =~= Seq::<SessionEvent<T>>::empty());
    } else {
        let m = n - 1;
        lemma_session_invariant(s0, events, m);
        let prefix = events.take(m);
        let s = session_state(s0, prefix);
        let e = events[m];
        assert(events.take(n).drop_last() =~= prefix);
        assert(events.take(n).last() == e);
        let (s1, step) = session_step(s, e);
        assert(session_state(s0, events.take(n)) == s1);
        assert(step_at(s0, events, m) == step);
        assert(audio_received(events.take(n)) == audio_received(prefix) + match e {
            SessionEvent::Audio(pcm, _) => pcm.len(),
            SessionEvent::VoiceOutcome(_, _) => 0,
        });
        let now = event_time(e);
        assert forall|i: int| 0 <= i < m implies event_time(#[trigger] events[i]) <= now by {}
        if is_round_start(s0, events, m) {
            assert forall|i: int|
                0 <= i < m && #[trigger] is_round_start(s0, events, i) implies now >= event_time(
                events[i],
            ) + s0.settings.interval_ns() by {
                assert(s.voice_check_ns is None);
                assert(s.last_inference_ns >= event_time(events[i]));
                assert(event_time(events[i]) <= now);
            }
        }
    }
}

/// The pacing of a whole session: nothing is run (model or detector)
/// before 48000 samples (3 s) have been received, and the rounds, each
/// started by the audio on which the session decides to run the detector
/// or the model, start at least the configured interval apart, however the
/// audio is chunked and whatever the detector answers.
pub proof fn law_session_pacing<T>(s0: CaptureModel<T>, events: Seq<SessionEvent<T>>)
    requires
        fresh_session(s0),
        times_non_decreasing(events),
    ensures
        forall|i: int|
            0 <= i < events.len() && #[trigger] step_at(s0, events, i) !is Wait ==> audio_received(
                events.take(i + 1),
            ) >= FIRST_INFERENCE_SAMPLES,
        forall|i: int, j: int|
            0 <= i < j < events.len() && #[trigger] is_round_start(s0, events, i)
                && #[trigger] is_round_start(s0, events, j) ==> event_time(events[j]) >= event_time(
                events[i],
            ) + s0.settings.interval_ns(),
{
    lemma_session_invariant(s0, events, events.len() as int);
}

/// The audio state of a captioning session.
pub struct CaptureWindow<T> {
    settings: CaptureSettings,
    buffered: Vec<T>,
    history: Vec<T>,
    first_inference_done: bool,
    last_inference_ns: u128,
    voice_check_ns: Option<u128>,
}

impl<T> View for CaptureWindow<T> {
    type V = CaptureModel<T>;

    closed spec fn view(&self) -> CaptureModel<T> {
        CaptureModel {
            settings: self.settings,
            buffered: self.buffered@,
            history: self.history@,
            started: self.first_inference_done,
            last_inference_ns: self.last_inference_ns,
            voice_check_ns: self.voice_check_ns,
        }
    }
}

/// Appends `src[from..]` to `dst`.
fn append_from<T: Copy>(dst: &mut Vec<T>, src: &Vec<T>, from: usize)
    requires
        from <= src@.len(),
    ensures
        final(dst)@ == old(dst)@ + src@.skip(from as int),
{
    let mut i = from;
    while i < src.len()
        invariant
            from <= i <= src@.len(),
            dst@ == old(dst)@ + src@.subrange(from as int, i as int),
        decreases src@.len() - i,
    {
        let x = src[i];
        dst.push(x);
        i = i + 1;
        assert(src@.subrange(from as int, i as int) =~= src@.subrange(from as int, (i - 1) as int).push(x));
    }
    assert(src@.subrange(from as int, src@.len() as int) =~= src@.skip(from as int));
}

/// Appends all of `src` to `dst`.
fn append_all<T: Copy>(dst: &mut Vec<T>, src: &[T])
    ensures
        final(dst)@ == old(dst)@ + src@,
{
    let mut i: usize = 0;
    while i < src.len()
        invariant
            i <= src@.len(),
            dst@ == old(dst)@ + src@.subrange(0, i as int),
        decreases src@.len() - i,
    {
        let x = src[i];
        dst.push(x);
        i = i + 1;
        assert(src@.subrange(0, i as int) =~= src@.subrange(0, (i - 1) as int).push(x));
    }
    assert(src@.subrange(0, src@.len() as int) =~= src@);
}

impl<T: Copy> CaptureWindow<T> {
    /// A new session that starts at time `now_ns`, with no audio.
    pub fn new(settings: CaptureSettings, now_ns: u128) -> (r: CaptureWindow<T>)
        ensures
            r@ == (CaptureModel::<T> {
                settings,
                buffered: Seq::empty(),
                history: Seq::empty(),
                started: false,
                last_inference_ns: now_ns,
                voice_check_ns: None,
            }),
    {
        CaptureWindow {
            settings,
            buffered: Vec::new(),
            history: Vec::new(),
            first_inference_done: false,
            last_inference_ns: now_ns,
            voice_check_ns: None,
        }
    }

    /// The session's settings.
    pub fn settings(&self) -> (r: CaptureSettings)
        ensures
            r == self@.settings,
    {
        self.settings
    }

    /// Number of samples received since the last transcription.
    pub fn buffered_len(&self) -> (r: usize)
        ensures
            r == self@.buffered.len(),
    {
        self.buffered.len()
    }

    /// Number of samples the speech model was given at its last run.
    pub fn history_len(&self) -> (r: usize)
        ensures
            r == self@.history.len(),
    {
        self.history.len()
    }

    /// Whether the session waits for the outcome of a voice check.
    pub fn awaiting_voice_check(&self) -> (r: bool)
        ensures
            r == self@.voice_check_ns is Some,
    {
        self.voice_check_ns.is_some()
    }

    /// The audio for the speech model: the window over the history and `fresh`.
    fn take_window(&self, fresh: &Vec<T>) -> (w: Vec<T>)
        ensures
            w@ == window(self.history@, fresh@, self.settings.max_samples()),
    {
        let total: u128 = self.history.len() as u128 + fresh.len() as u128;
        let max_samples: u128 = self.settings.max_audio_duration_s as u128 * SAMPLE_RATE as u128;
        let start: usize = if total > max_samples {
            let excess: u128 = total - max_samples;
            if (self.history.len() as u128) > excess {
                excess as usize
            } else {
                self.history.len()
            }
        } else {
            0
        };
        let mut w: Vec<T> = Vec::new();
        append_from(&mut w, &self.history, start);
        append_from(&mut w, fresh, 0);
        proof {
            assert(fresh@.skip(0) =~= fresh@);
            assert(self.history@.skip(0) =~= self.history@);
            assert(self.history@.skip(self.history@.len() as int) =~= Seq::<T>::empty());
            assert(Seq::<T>::empty() + fresh@ =~= fresh@);
        }
        w
    }

    /// Transcribes `fresh` at time `at`.
    fn transcribe(&mut self, fresh: Vec<T>, at: u128) -> (step: CaptureStep<T>)
        ensures
            (final(self)@, step@) == transcribe_step(old(self)@, fresh@, at),
    {
        let w = self.take_window(&fresh);
        let mut kept: Vec<T> = Vec::new();
        append_from(&mut kept, &w, 0);
        proof {
            assert(w@.skip(0) =~= w@);
            assert(Seq::<T>::empty() + w@ =~= w@);
        }
        self.history = kept;
        self.buffered = Vec::new();
        self.last_inference_ns = at;
        self.voice_check_ns = None;
        CaptureStep::Transcribe(w)
    }

    /// A chunk of audio `pcm` arrived at time `now_ns`.
    pub fn on_audio(&mut self, pcm: &[T], now_ns: u128) -> (step: CaptureStep<T>)
        requires
            old(self)@.voice_check_ns is None,
        ensures
            (final(self)@, step@) == audio_step(old(self)@, pcm@, now_ns),
    {
        append_all(&mut self.buffered, pcm);
        if !self.first_inference_done {
            if self.buffered.len() < FIRST_INFERENCE_SAMPLES {
                return CaptureStep::Wait;
            }
            self.first_inference_done = true;
        }
        let elapsed: u128 = if now_ns >= self.last_inference_ns {
            now_ns - self.last_inference_ns
        } else {
            0
        };
        let interval: u128 = self.settings.inference_interval_ms as u128 * NANOS_PER_MILLI;
        if elapsed < interval {
            return CaptureStep::Wait;
        }
        if self.settings.use_vad {
            self.voice_check_ns = Some(now_ns);
            let mut audio: Vec<T> = Vec::new();
            append_from(&mut audio, &self.buffered, 0);
            proof {
                assert(self.buffered@.skip(0) =~= self.buffered@);
                assert(Seq::<T>::empty() + self.buffered@ =~= self.buffered@);
            }
            return CaptureStep::DetectVoice(audio);
        }
        let mut fresh: Vec<T> = Vec::new();
        std::mem::swap(&mut fresh, &mut self.buffered);
        self.transcribe(fresh, now_ns)
    }

    /// The outcome of the voice check asked for by the last step arrived at
    /// time `now_ns`.
    pub fn on_voice_check(&mut self, outcome: VoiceCheck<T>, now_ns: u128) -> (step: CaptureStep<T>)
        requires
            old(self)@.voice_check_ns is Some,
        ensures
            (final(self)@, step@) == voice_step(old(self)@, outcome@, now_ns),
    {
        let at = match self.voice_check_ns {
            Some(t) => t,
            None => 0,
        };
        match outcome {
            VoiceCheck::Failed => {
                let mut fresh: Vec<T> = Vec::new();
                std::mem::swap(&mut fresh, &mut self.buffered);
                self.transcribe(fresh, at)
            },
            VoiceCheck::Speech(pcm) => self.transcribe(pcm, at),
            VoiceCheck::Silence => {
                self.buffered = Vec::new();
                self.last_inference_ns = now_ns;
                self.voice_check_ns = None;
                CaptureStep::Wait
            },
        }
    }
}

} // verus!
