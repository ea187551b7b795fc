//! The messages a captioning session sends to the user interface:
//! `Loading` while the model loads, `Ready` once audio is captured, then
//! caption batches (and `Error` for a failed round when the session reports
//! failures), and `Exit` when the session ends normally. A session whose
//! setup fails, or that aborts on a failed round, ends with the error and
//! sends nothing more.

use vstd::prelude::*;

use crate::segment::{_make_status_response, is_bare_status_segment, Segment, WhisperStatus};

verus! {

/// What a failed run of the speech model does to the session.
#[derive(Clone, Copy, Debug, PartialEq, Eq, Structural)]
pub enum OnInferenceError {
    /// End the session with the error.
    Abort,
    /// Report an `Error` status and go on.
    ReportStatus,
}

/// Where a session stands in its report.
#[derive(Clone, Copy, Debug, PartialEq, Eq, Structural)]
pub enum SessionPhase {
    /// Nothing sent yet.
    Starting,
    /// `Loading` sent.
    Loading,
    /// `Ready` sent; rounds run.
    Ready,
    /// `Exit` sent: the session ended normally.
    Exited,
    /// The session ended with an error.
    Failed,
}

/// A message sent to the interface: a status, or a batch of captions.
#[derive(Clone, Copy, Debug, PartialEq, Eq, Structural)]
pub enum Message {
    Status(WhisperStatus),
    Batch,
}

/// What a round sends: captions, or an `Error` status.
pub open spec fn is_round_message(m: Message) -> bool {
    m == Message::Batch || m == Message::Status(WhisperStatus::Error)
}

/// `Loading`, `Ready`, then the messages of the rounds.
pub open spec fn running_log(log: Seq<Message>) -> bool {
    &&& log.len() >= 2
    &&& log[0] == Message::Status(WhisperStatus::Loading)
    &&& log[1] == Message::Status(WhisperStatus::Ready)
    &&& forall|i: int| 2 <= i < log.len() ==> is_round_message(#[trigger] log[i])
}

/// The messages a session in `phase` has sent.
pub open spec fn log_matches_phase(log: Seq<Message>, phase: SessionPhase) -> bool {
    match phase {
        SessionPhase::Starting => log.len() == 0,
        SessionPhase::Loading => log == seq![Message::Status(WhisperStatus::Loading)],
        SessionPhase::Ready => running_log(log),
        SessionPhase::Exited => log.len() >= 1 && log.last() == Message::Status(WhisperStatus::Exit)
            && running_log(log.drop_last()),
        SessionPhase::Failed => log.len() == 0 || log == seq![
            Message::Status(WhisperStatus::Loading),
        ] || running_log(log),
    }
}

/// A single status segment with the given status.
pub open spec fn is_status_message(m: Seq<Segment>, status: WhisperStatus) -> bool {
    m.len() == 1 && is_bare_status_segment(m[0], status)
}

/// The report of a session.
pub struct SessionReport {
    phase: SessionPhase,
    on_error: OnInferenceError,
    log: Ghost<Seq<Message>>,
}

impl SessionReport {
    #[verifier::type_invariant]
    spec fn sent_in_order(self) -> bool {
        log_matches_phase(self.log@, self.phase)
    }

    pub closed spec fn spec_phase(&self) -> SessionPhase {
        self.phase
    }

    pub closed spec fn spec_on_error(&self) -> OnInferenceError {
        self.on_error
    }

    /// The messages sent so far.
    pub closed spec fn spec_log(&self) -> Seq<Message> {
        self.log@
    }

    /// A session that has sent nothing yet.
    pub fn new(on_error: OnInferenceError) -> (r: SessionReport)
        ensures
            r.spec_phase() == SessionPhase::Starting,
            r.spec_on_error() == on_error,
            r.spec_log().len() == 0,
            log_matches_phase(r.spec_log(), r.spec_phase()),
    {
        SessionReport { phase: SessionPhase::Starting, on_error, log: Ghost(Seq::empty()) }
    }

    /// Where the session stands.
    pub fn phase(&self) -> (r: SessionPhase)
        ensures
            r == self.spec_phase(),
            log_matches_phase(self.spec_log(), self.spec_phase()),
    {
        proof {
            use_type_invariant(self);
        }
        self.phase
    }

    /// The model starts loading: the `Loading` status.
    pub fn loading(&mut self) -> (m: Vec<Segment>)
        requires
            old(self).spec_phase() == SessionPhase::Starting,
        ensures
            final(self).spec_phase() == SessionPhase::Loading,
            final(self).spec_on_error() == old(self).spec_on_error(),
            log_matches_phase(final(self).spec_log(), final(self).spec_phase()),
            final(self).spec_log() == old(self).spec_log().push(
                Message::Status(WhisperStatus::Loading),
            ),
            is_status_message(m@, WhisperStatus::Loading),
    {
        proof {
            use_type_invariant(&*self);
        }
        let ghost log = self.log@.push(Message::Status(WhisperStatus::Loading));
        proof {
            assert(log =~= seq![Message::Status(WhisperStatus::Loading)]);
        }
        *self = SessionReport { phase: SessionPhase::Loading, on_error: self.on_error, log: Ghost(log) };
        proof {
            use_type_invariant(&*self);
        }
        _make_status_response(WhisperStatus::Loading)
    }

    /// Setting up failed: the session ends with the error, sending nothing.
    pub fn setup_failed(&mut self)
        requires
            old(self).spec_phase() == SessionPhase::Starting || old(self).spec_phase()
                == SessionPhase::Loading,
        ensures
            final(self).spec_phase() == SessionPhase::Failed,
            final(self).spec_on_error() == old(self).spec_on_error(),
            log_matches_phase(final(self).spec_log(), final(self).spec_phase()),
            final(self).spec_log() == old(self).spec_log(),
    {
        proof {
            use_type_invariant(&*self);
        }
        let ghost log = self.log@;
        *self = SessionReport { phase: SessionPhase::Failed, on_error: self.on_error, log: Ghost(log) };
    }

    /// Audio capture runs: the `Ready` status.
    pub fn ready(&mut self) -> (m: Vec<Segment>)
        requires
            old(self).spec_phase() == SessionPhase::Loading,
        ensures
            final(self).spec_phase() == SessionPhase::Ready,
            final(self).spec_on_error() == old(self).spec_on_error(),
            log_matches_phase(final(self).spec_log(), final(self).spec_phase()),
            final(self).spec_log() == old(self).spec_log().push(Message::Status(WhisperStatus::Ready)),
            is_status_message(m@, WhisperStatus::Ready),
    {
        proof {
            use_type_invariant(&*self);
        }
        let ghost log = self.log@.push(Message::Status(WhisperStatus::Ready));
        *self = SessionReport { phase: SessionPhase::Ready, on_error: self.on_error, log: Ghost(log) };
        _make_status_response(WhisperStatus::Ready)
    }

    /// A round produced captions: the batch, sent as it is.
    pub fn deliver<S>(&mut self, batch: Vec<S>) -> (m: Vec<S>)
        requires
            old(self).spec_phase() == SessionPhase::Ready,
        ensures
            final(self).spec_phase() == SessionPhase::Ready,
            final(self).spec_on_error() == old(self).spec_on_error(),
            log_matches_phase(final(self).spec_log(), final(self).spec_phase()),
            final(self).spec_log() == old(self).spec_log().push(Message::Batch),
            m == batch,
    {
        proof {
            use_type_invariant(&*self);
        }
        let ghost log = self.log@.push(Message::Batch);
        *self = SessionReport { phase: SessionPhase::Ready, on_error: self.on_error, log: Ghost(log) };
        batch
    }

    /// A round failed: with [`OnInferenceError::ReportStatus`] the `Error`
    /// status, and the session goes on; with [`OnInferenceError::Abort`]
    /// nothing, and the session has ended with the error.
    pub fn inference_failed(&mut self) -> (m: Option<Vec<Segment>>)
        requires
            old(self).spec_phase() == SessionPhase::Ready,
        ensures
            final(self).spec_on_error() == old(self).spec_on_error(),
            log_matches_phase(final(self).spec_log(), final(self).spec_phase()),
            old(self).spec_on_error() == OnInferenceError::Abort ==> m is None
                && final(self).spec_phase() == SessionPhase::Failed
                && final(self).spec_log() == old(self).spec_log(),
            old(self).spec_on_error() == OnInferenceError::ReportStatus ==> (m matches Some(v)
                && is_status_message(v@, WhisperStatus::Error)) && final(self).spec_phase()
                == SessionPhase::Ready && final(self).spec_log() == old(self).spec_log().push(
                Message::Status(WhisperStatus::Error),
            ),
    {
        proof {
            use_type_invariant(&*self);
        }
        match self.on_error {
            OnInferenceError::Abort => {
                let ghost log = self.log@;
                *self = SessionReport { phase: SessionPhase::Failed, on_error: self.on_error, log: Ghost(log) };
                None
            },
            OnInferenceError::ReportStatus => {
                let ghost log = self.log@.push(Message::Status(WhisperStatus::Error));
                *self = SessionReport { phase: SessionPhase::Ready, on_error: self.on_error, log: Ghost(log) };
                Some(_make_status_response(WhisperStatus::Error))
            },
        }
    }

    /// The session ends normally: the `Exit` status.
    pub fn exit(&mut self) -> (m: Vec<Segment>)
        requires
            old(self).spec_phase() == SessionPhase::Ready,
        ensures
            final(self).spec_phase() == SessionPhase::Exited,
            final(self).spec_on_error() == old(self).spec_on_error(),
            log_matches_phase(final(self).spec_log(), final(self).spec_phase()),
            final(self).spec_log() == old(self).spec_log().push(Message::Status(WhisperStatus::Exit)),
            is_status_message(m@, WhisperStatus::Exit),
    {
        proof {
            use_type_invariant(&*self);
        }
        let ghost log = self.log@.push(Message::Status(WhisperStatus::Exit));
        proof {
            assert(log.drop_last() =~= self.log@);
        }
        *self = SessionReport { phase: SessionPhase::Exited, on_error: self.on_error, log: Ghost(log) };
        _make_status_response(WhisperStatus::Exit)
    }
}

/// The order of a session's messages: `Loading` comes first and only
/// first; `Ready` comes second and only second; captions come only after
/// `Ready`; `Exit` comes at most once, last, and exactly when the session
/// ended normally. Every report keeps its messages in this order: each
/// method of [`SessionReport`] ensures `log_matches_phase` of its result.
pub proof fn law_session_messages(log: Seq<Message>, phase: SessionPhase)
    requires
        log_matches_phase(log, phase),
    ensures
        log.len() > 0 ==> log[0] == Message::Status(WhisperStatus::Loading),
        forall|i: int|
            0 <= i < log.len() && #[trigger] log[i] == Message::Status(WhisperStatus::Loading) ==> i
                == 0,
        forall|i: int|
            0 <= i < log.len() && #[trigger] log[i] == Message::Status(WhisperStatus::Ready) ==> i
                == 1,
        forall|i: int|
            0 <= i < log.len() && #[trigger] log[i] == Message::Batch ==> i >= 2 && log[1]
                == Message::Status(WhisperStatus::Ready),
        forall|i: int|
            0 <= i < log.len() && #[trigger] log[i] == Message::Status(WhisperStatus::Exit) ==> i
                == log.len() - 1,
        phase == SessionPhase::Exited <==> (log.len() > 0 && log.last() == Message::Status(
            WhisperStatus::Exit,
        )),
{
    if phase == SessionPhase::Exited {
        let body = log.drop_last();
        assert forall|i: int| 0 <= i < body.len() implies #[trigger] log[i] == body[i] by {}
        assert forall|i: int| 2 <= i < body.len() implies is_round_message(#[trigger] log[i]) by {
            assert(is_round_message(body[i]));
        }
    }
}

} // verus!
