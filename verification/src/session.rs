//! The recording session: `Idle` and `Recording`, and the steps between them.

use vstd::prelude::*;
use crate::buffer::BufferAction;
use crate::encoder::{effective_sample_rate, sample_rate_or_fallback};
use crate::error::CaptureError;
use crate::format::SampleFormat;

verus! {

/// What the audio host answered when asked for its default input device.
pub enum DeviceProbe {
    /// The host has no input device.
    NoDevice,
    /// The device did not report a default input configuration.
    ConfigUnavailable(String),
    /// The device's default input configuration; `format` is `None` when its
    /// native encoding is none of the supported three.
    Ready { sample_rate: u32, channels: u16, format: Option<SampleFormat> },
}

/// The stream that the caller is to build for a start that goes ahead.
#[derive(Clone, Copy, Debug, PartialEq, Eq, Structural)]
pub struct StreamPlan {
    pub format: SampleFormat,
    pub channels: u16,
    pub sample_rate: u32,
}

/// How building and starting the hardware stream ended.
pub enum StreamOutcome<S> {
    /// The stream could not be built or did not start.
    Failed(String),
    /// The stream is running; the handle keeps it alive.
    Started(S),
}

/// What a start request asks of the caller.
#[derive(Clone, Copy, Debug, PartialEq, Eq, Structural)]
pub enum StartStep {
    /// A recording is running already: the request is complete.
    AlreadyRecording,
    /// No recording is running: probe the default input device next.
    ProbeDevice,
}

/// The control state of the capture pipeline, generic in the handle `S` that
/// keeps a hardware stream alive. The session is the only owner of that
/// handle: it is recording exactly while it holds one, and releasing the
/// handle stops the stream.
pub struct CaptureSession<S> {
    active_stream: Option<S>,
    sample_rate: u32,
    channel_count: u16,
}

/// The session as contracts see it.
pub ghost struct SessionModel<S> {
    pub stream: Option<S>,
    pub sample_rate: u32,
    pub channel_count: u16,
}

impl<S> SessionModel<S> {
    /// `Recording`, as opposed to `Idle`.
    pub open spec fn is_recording(self) -> bool {
        self.stream is Some
    }

    /// What a start request asks of the caller.
    pub open spec fn start_step(self) -> StartStep {
        if self.is_recording() { StartStep::AlreadyRecording } else { StartStep::ProbeDevice }
    }

    /// What `configure` answers: on a recording session that there is
    /// nothing to build, on an idle one the stream to build or why none can
    /// be built.
    pub open spec fn configure_answer(self, probe: DeviceProbe) -> Result<
        Option<StreamPlan>,
        CaptureError,
    > {
        if self.is_recording() {
            Ok(None)
        } else {
            match probe {
                DeviceProbe::NoDevice => Err(CaptureError::DeviceUnavailable),
                DeviceProbe::ConfigUnavailable(detail) => Err(CaptureError::ConfigError(detail)),
                DeviceProbe::Ready { sample_rate, channels, format: None } => Err(
                    CaptureError::UnsupportedFormat,
                ),
                DeviceProbe::Ready { sample_rate, channels, format: Some(format) } => Ok(
                    Some(StreamPlan { format, channels, sample_rate }),
                ),
            }
        }
    }

    /// The session after the outcome of building the stream for `plan` has
    /// been taken in: changed only where an idle session is handed a
    /// running stream.
    pub open spec fn activated(self, plan: StreamPlan, outcome: StreamOutcome<S>) -> SessionModel<
        S,
    > {
        if self.is_recording() {
            self
        } else {
            match outcome {
                StreamOutcome::Started(handle) => SessionModel {
                    stream: Some(handle),
                    sample_rate: plan.sample_rate,
                    channel_count: plan.channels,
                },
                StreamOutcome::Failed(_) => self,
            }
        }
    }

    /// What `activate` answers: for a start that has gone through the order
    /// to reset the buffer, for one that had nothing to do no order, for a
    /// stream that failed the error.
    pub open spec fn activate_answer(self, outcome: StreamOutcome<S>) -> Result<
        Option<BufferAction>,
        CaptureError,
    > {
        if self.is_recording() {
            Ok(None)
        } else {
            match outcome {
                StreamOutcome::Started(_) => Ok(Some(BufferAction::Discard)),
                StreamOutcome::Failed(detail) => Err(CaptureError::StreamError(detail)),
            }
        }
    }

    /// The session after `stop` or `cancel`: idle, with the rate and the
    /// channel count it had.
    pub open spec fn released(self) -> SessionModel<S> {
        SessionModel { stream: None, ..self }
    }

    /// What `stop` answers: on a recording session the order to drain the
    /// buffer, with the rate to encode at; on an idle one a refusal.
    pub open spec fn stop_answer(self) -> Result<BufferAction, CaptureError> {
        if self.is_recording() {
            Ok(BufferAction::Drain { sample_rate: effective_sample_rate(self.sample_rate) })
        } else {
            Err(CaptureError::NotRecording)
        }
    }

    /// The session and the buffer contents fit together: an idle session
    /// has nothing buffered.
    pub open spec fn settled(self, contents: Seq<i16>) -> bool {
        !self.is_recording() ==> contents.len() == 0
    }
}

impl<S> View for CaptureSession<S> {
    type V = SessionModel<S>;

    closed spec fn view(&self) -> SessionModel<S> {
        SessionModel {
            stream: self.active_stream,
            sample_rate: self.sample_rate,
            channel_count: self.channel_count,
        }
    }
}

impl<S> CaptureSession<S> {
    /// The session a process starts with: `Idle`, no rate learned yet.
    pub fn new() -> (session: Self)
        ensures
            session@ == (SessionModel::<S> { stream: None, sample_rate: 0, channel_count: 0 }),
    {
        CaptureSession { active_stream: None, sample_rate: 0, channel_count: 0 }
    }

    /// Whether a recording is running.
    pub fn is_recording(&self) -> (recording: bool)
        ensures
            recording == self@.is_recording(),
    {
        self.active_stream.is_some()
    }

    /// The sample rate of the stream last started, zero before the first.
    pub fn sample_rate(&self) -> (rate: u32)
        ensures
            rate == self@.sample_rate,
    {
        self.sample_rate
    }

    /// The channel count of the stream last started, zero before the first.
    pub fn channel_count(&self) -> (channels: u16)
        ensures
            channels == self@.channel_count,
    {
        self.channel_count
    }

    /// First step of a start: decides whether there is anything to do.
    pub fn begin_start(&self) -> (step: StartStep)
        ensures
            step == self@.start_step(),
    {
        if self.active_stream.is_some() {
            StartStep::AlreadyRecording
        } else {
            StartStep::ProbeDevice
        }
    }

    /// Second step of a start: decides from what the device answered
    /// whether a stream is to be built, and which. The session itself is
    /// left as it is: a start changes it only once it has gone through.
    pub fn configure(&self, probe: DeviceProbe) -> (answer: Result<Option<StreamPlan>, CaptureError>)
        ensures
            answer == self@.configure_answer(probe),
    {
        if self.active_stream.is_some() {
            return Ok(None);
        }
        match probe {
            DeviceProbe::NoDevice => Err(CaptureError::DeviceUnavailable),
            DeviceProbe::ConfigUnavailable(detail) => Err(CaptureError::ConfigError(detail)),
            DeviceProbe::Ready { sample_rate, channels, format } => match format {
                None => Err(CaptureError::UnsupportedFormat),
                Some(format) => Ok(Some(StreamPlan { format, channels, sample_rate })),
            },
        }
    }

    /// Last step of a start: takes in how building the stream for `plan`
    /// ended.
    ///
    /// A running stream makes an idle session `Recording`: the plan's rate
    /// and channel count are recorded, the handle is stored, and the answer
    /// is the order to reset the buffer. A stream that failed leaves the
    /// idle session untouched. A recording session keeps the handle it has
    /// and lets go of the one offered.
    pub fn activate(&mut self, plan: StreamPlan, outcome: StreamOutcome<S>) -> (answer: Result<
        Option<BufferAction>,
        CaptureError,
    >)
        ensures
            final(self)@ == old(self)@.activated(plan, outcome),
            answer == old(self)@.activate_answer(outcome),
    {
        if self.active_stream.is_some() {
            return Ok(None);
        }
        match outcome {
            StreamOutcome::Started(handle) => {
                self.sample_rate = plan.sample_rate;
                self.channel_count = plan.channels;
                self.active_stream = Some(handle);
                Ok(Some(BufferAction::Discard))
            },
            StreamOutcome::Failed(detail) => Err(CaptureError::StreamError(detail)),
        }
    }

    /// Ends the recording.
    ///
    /// Fails with `NotRecording` on an idle session, which it leaves as it
    /// is. Otherwise the stream handle is released, which stops the stream,
    /// the session is `Idle`, and the answer is the order to drain the
    /// buffer into a finished recording. The order is carried out by
    /// [`CaptureBuffer::settle`] once the stream is gone, so that the
    /// buffer is never held while a stream winds down.
    pub fn stop(&mut self) -> (answer: Result<BufferAction, CaptureError>)
        ensures
            final(self)@ == old(self)@.released(),
            !final(self)@.is_recording(),
            answer == old(self)@.stop_answer(),
    {
        if self.active_stream.is_none() {
            return Err(CaptureError::NotRecording);
        }
        self.active_stream = None;
        Ok(BufferAction::Drain { sample_rate: sample_rate_or_fallback(self.sample_rate) })
    }

    /// Abandons the recording: releases the stream handle, if there is one,
    /// and orders the buffer to be emptied. Nothing is handed out to encode.
    pub fn cancel(&mut self) -> (action: BufferAction)
        ensures
            final(self)@ == old(self)@.released(),
            !final(self)@.is_recording(),
            action == BufferAction::Discard,
    {
        self.active_stream = None;
        BufferAction::Discard
    }
}

/// A start that goes through on an idle session records the rate and the
/// channel count of its plan, stores the handle and orders the buffer to be
/// reset.
pub proof fn lemma_start_goes_through<S>(session: SessionModel<S>, plan: StreamPlan, handle: S)
    requires
        !session.is_recording(),
    ensures
        ({
            let recording = session.activated(plan, StreamOutcome::Started(handle));
            &&& recording.is_recording()
            &&& recording.stream == Some(handle)
            &&& recording.sample_rate == plan.sample_rate
            &&& recording.channel_count == plan.channels
        }),
        session.activate_answer(StreamOutcome::Started(handle)) == Ok::<
            Option<BufferAction>,
            CaptureError,
        >(Some(BufferAction::Discard)),
{
}

/// A start that fails changes nothing. Whichever way it fails, for want of
/// a device, of a configuration or of a supported encoding, or because the
/// stream does not come up, the session is as it was and no order goes out
/// to the buffer.
pub proof fn lemma_failed_start_changes_nothing<S>(
    session: SessionModel<S>,
    plan: StreamPlan,
    detail: String,
)
    requires
        !session.is_recording(),
    ensures
        session.activated(plan, StreamOutcome::Failed(detail)) == session,
        session.activate_answer(StreamOutcome::Failed(detail)) == Err::<
            Option<BufferAction>,
            CaptureError,
        >(CaptureError::StreamError(detail)),
{
}

/// Start is idempotent. Once a start has gone through on an idle session,
/// the session is recording and holds the handle of that start; every step
/// of a second start then asks for nothing, changes nothing and answers
/// success without an order, so the handle of the first start stays the
/// only one.
pub proof fn lemma_second_start_changes_nothing<S>(
    session: SessionModel<S>,
    plan: StreamPlan,
    handle: S,
    second_probe: DeviceProbe,
    second_plan: StreamPlan,
    second_outcome: StreamOutcome<S>,
)
    requires
        !session.is_recording(),
    ensures
        ({
            let recording = session.activated(plan, StreamOutcome::Started(handle));
            &&& recording.is_recording()
            &&& recording.stream == Some(handle)
            &&& recording.start_step() == StartStep::AlreadyRecording
            &&& recording.configure_answer(second_probe) == Ok::<Option<StreamPlan>, CaptureError>(
                None,
            )
            &&& recording.activated(second_plan, second_outcome) == recording
            &&& recording.activate_answer(second_outcome) == Ok::<
                Option<BufferAction>,
                CaptureError,
            >(None)
        }),
{
}

/// A stop on an idle session is refused with `NotRecording` and changes
/// nothing: the session stays as it was and no order goes out to the
/// buffer, which for a settled session means that it is still empty.
pub proof fn lemma_stop_while_idle<S>(session: SessionModel<S>, contents: Seq<i16>)
    requires
        !session.is_recording(),
        session.settled(contents),
    ensures
        session.stop_answer() == Err::<BufferAction, CaptureError>(CaptureError::NotRecording),
        session.released() == session,
        contents.len() == 0,
{
}

/// A stop on a recording session hands out exactly what is buffered, at
/// the session's rate or the fallback, and leaves the session idle.
pub proof fn lemma_stop_while_recording<S>(session: SessionModel<S>, contents: Seq<i16>)
    requires
        session.is_recording(),
    ensures
        !session.released().is_recording(),
        session.stop_answer() matches Ok(order) && order.handed_out(contents) == Some(
            (contents, effective_sample_rate(session.sample_rate)),
        ),
{
}

/// A cancel leaves the session idle, with the rate and the channel count it
/// had, and its order hands out nothing, whatever has been appended: no
/// recording comes of it. Carrying out the order empties the buffer.
pub proof fn lemma_cancel_after_appending<S>(
    session: SessionModel<S>,
    contents: Seq<i16>,
    appended: Seq<i16>,
)
    ensures
        !session.released().is_recording(),
        session.released().sample_rate == session.sample_rate,
        session.released().channel_count == session.channel_count,
        BufferAction::Discard.handed_out(contents + appended) is None,
{
}

/// Every step keeps session and buffer settled: whenever the session is
/// idle afterwards, nothing is buffered. A step that gives an order leaves
/// the buffer empty once the order has been carried out; a step that gives
/// none leaves the buffer as it was.
pub proof fn lemma_steps_keep_settled<S>(
    session: SessionModel<S>,
    contents: Seq<i16>,
    plan: StreamPlan,
    outcome: StreamOutcome<S>,
)
    requires
        session.settled(contents),
    ensures
        session.activate_answer(outcome) matches Ok(Some(_)) ==> session.activated(
            plan,
            outcome,
        ).settled(Seq::<i16>::empty()),
        !(session.activate_answer(outcome) matches Ok(Some(_))) ==> session.activated(
            plan,
            outcome,
        ).settled(contents),
        session.stop_answer() is Err ==> session.released().settled(contents),
        session.released().settled(Seq::<i16>::empty()),
{
}

} // verus!
