//! The recorder: at most one recording session, started and stopped in a
//! fixed order.
//!
//! The handles of a session (the capture stream and the join handle of the
//! writer thread) are values of the caller's types `S` and `J`. The recorder
//! and the teardown keep them and let go of them in the order that stopping
//! requires; what is done with a handle that was given out is the caller's
//! part.

use vstd::prelude::*;
use crate::error::{BuildFailure, RecorderError};
use crate::sample::{CaptureFormat, SampleFormat};
use crate::writer::MAX_SAMPLE_RATE;

verus! {

/// What a device's default input configuration says.
#[derive(Clone, Copy, Debug, PartialEq, Eq, Structural)]
pub struct StreamConfiguration {
    pub sample_rate: u32,
    pub channel_count: u32,
    pub sample_format: SampleFormat,
}

/// What a capture stream is built with.
#[derive(Clone, Copy, Debug, PartialEq, Eq, Structural)]
pub struct CapturePlan {
    pub sample_rate: u32,
    pub channels: usize,
    pub format: CaptureFormat,
}

impl StreamConfiguration {
    /// Whether a container can be written at this rate and a buffer can be
    /// cut into frames of this many channels.
    pub open spec fn usable(self) -> bool {
        0 < self.sample_rate <= MAX_SAMPLE_RATE && 0 < self.channel_count
    }

    /// The plan of a stream on this configuration, where there is one.
    pub open spec fn plan(self) -> Option<CapturePlan> {
        match self.sample_format.rule() {
            Some(format) if self.usable() => Some(
                CapturePlan {
                    sample_rate: self.sample_rate,
                    channels: self.channel_count as usize,
                    format,
                },
            ),
            _ => None,
        }
    }

    /// What settling the stream on this configuration gives. A native format
    /// without a conversion rule is a stream build error, whatever the rate
    /// and the channels are. With a format that has a rule, a configuration
    /// without channels, or with a sample rate that no container can carry,
    /// is a device configuration error.
    pub open spec fn settled(self, r: Result<CapturePlan, RecorderError>) -> bool {
        match self.sample_format.rule() {
            None => r == Err::<CapturePlan, RecorderError>(
                RecorderError::StreamBuildError(BuildFailure::UnsupportedFormat),
            ),
            Some(format) => if self.usable() {
                r == Ok::<CapturePlan, RecorderError>(
                    CapturePlan {
                        sample_rate: self.sample_rate,
                        channels: self.channel_count as usize,
                        format,
                    },
                )
            } else {
                r matches Err(RecorderError::DeviceConfigError(text)) && text@
                    == "unusable sample rate or channel count"@
            },
        }
    }

    /// Settles what the capture stream is built with, before anything is
    /// opened: the format is looked at first, so that a format without a
    /// conversion rule is refused here and never met in a callback.
    pub fn negotiate(&self) -> (r: Result<CapturePlan, RecorderError>)
        ensures
            self.settled(r),
            r matches Ok(plan) ==> self.plan() == Some(plan),
    {
        let format: CaptureFormat = match self.sample_format.capture_format() {
            Some(format) => format,
            None => {
                return Err(RecorderError::StreamBuildError(BuildFailure::UnsupportedFormat));
            },
        };
        if self.sample_rate == 0 || self.sample_rate > MAX_SAMPLE_RATE || self.channel_count == 0 {
            return Err(
                RecorderError::DeviceConfigError("unusable sample rate or channel count".to_owned()),
            );
        }
        Ok(CapturePlan { sample_rate: self.sample_rate, channels: self.channel_count as usize, format })
    }
}

/// Takes what reading the device's default input configuration gave, the
/// configuration or the device's refusal, and settles the plan of the stream.
/// A refusal is a device configuration error with the device's text.
pub fn configured(read: Result<StreamConfiguration, String>) -> (r: Result<
    CapturePlan,
    RecorderError,
>)
    ensures
        match read {
            Ok(configuration) => configuration.settled(r),
            Err(refusal) => r == Err::<CapturePlan, RecorderError>(
                RecorderError::DeviceConfigError(refusal),
            ),
        },
{
    match read {
        Ok(configuration) => configuration.negotiate(),
        Err(refusal) => Err(RecorderError::DeviceConfigError(refusal)),
    }
}

/// Takes what building the capture stream gave: the stream, or the device's
/// refusal, which is a stream build error.
pub fn opened<S>(built: Result<S, String>) -> (r: Result<S, RecorderError>)
    ensures
        match built {
            Ok(stream) => r == Ok::<S, RecorderError>(stream),
            Err(refusal) => r == Err::<S, RecorderError>(
                RecorderError::StreamBuildError(BuildFailure::Device(refusal)),
            ),
        },
{
    match built {
        Ok(stream) => Ok(stream),
        Err(refusal) => Err(RecorderError::StreamBuildError(BuildFailure::Device(refusal))),
    }
}

/// Takes what starting the capture gave: a refusal is a stream play error.
pub fn started(played: Result<(), String>) -> (r: Result<(), RecorderError>)
    ensures
        match played {
            Ok(()) => r == Ok::<(), RecorderError>(()),
            Err(refusal) => r == Err::<(), RecorderError>(RecorderError::StreamPlayError(refusal)),
        },
{
    match played {
        Ok(()) => Ok(()),
        Err(refusal) => Err(RecorderError::StreamPlayError(refusal)),
    }
}

/// A recording in progress.
pub struct Session<S, J> {
    /// Where the writer thread writes the container.
    pub output_path: String,
    /// The configuration the stream was built on.
    pub configuration: StreamConfiguration,
    /// The reading of the caller's millisecond clock at the start.
    pub started_at_ms: u64,
    /// The capture stream; letting go of it stops the capture.
    pub stream: S,
    /// The sending end of the chunk channel; letting go of it lets the
    /// writer drain the channel and finish.
    pub sender: crossbeam_channel::Sender<Vec<i16>>,
    /// The join handle of the writer thread.
    pub writer: J,
}

/// What a finished recording hands to the transcription.
#[derive(Clone, Debug, PartialEq, Eq)]
pub struct RecordingStopped {
    pub path: String,
    pub sample_rate: u32,
    pub duration_ms: u64,
}

/// How the writer thread ended.
#[derive(Debug, PartialEq, Eq)]
pub enum WriterOutcome {
    /// It finalized the container, which holds this many samples.
    Finished(u32),
    /// It returned a failure of the container.
    Failed(String),
    /// It panicked.
    Panicked,
}

/// What is found at the output path once the writer thread has ended.
#[derive(Clone, Copy, Debug, PartialEq, Eq, Structural)]
pub enum FileProbe {
    /// No file.
    Missing,
    /// A file of this many bytes.
    Present(u64),
}

/// The stages of stopping a session, in their order.
#[derive(Clone, Copy, Debug, PartialEq, Eq, Structural)]
pub enum TeardownStage {
    /// Nothing has been stopped yet.
    Active,
    /// The capture stream is gone: no further chunk is produced.
    StreamClosed,
    /// The sender is gone too: the writer drains the channel and ends.
    ChannelClosed,
    /// The writer thread has ended well.
    WriterJoined,
    /// The teardown is over, with a result or a failure.
    Closed,
}

/// The state of a teardown as a plain value.
pub struct TeardownView {
    pub stage: TeardownStage,
    pub output_path: Seq<char>,
    pub sample_rate: u32,
    pub started_at_ms: u64,
    /// The number of samples the writer reported; 0 before it was joined.
    pub samples: u32,
    /// Whether the teardown still holds the capture stream.
    pub has_stream: bool,
    /// Whether the teardown still holds the sender.
    pub has_sender: bool,
    /// Whether the teardown still holds the writer's join handle.
    pub has_writer: bool,
}

/// The time from `started_at_ms` to `now_ms`, and 0 if the clock went back.
pub open spec fn elapsed_ms(started_at_ms: u64, now_ms: u64) -> u64 {
    if now_ms >= started_at_ms {
        (now_ms - started_at_ms) as u64
    } else {
        0
    }
}

impl TeardownView {
    /// The order of letting go: the stream is held only while the session is
    /// active, the sender only until the channel is closed, and the join
    /// handle only until the writer is joined.
    pub open spec fn ordered(self) -> bool {
        &&& self.has_stream ==> self.stage == TeardownStage::Active
        &&& self.has_sender ==> self.stage == TeardownStage::Active || self.stage
            == TeardownStage::StreamClosed
        &&& self.has_writer ==> self.stage == TeardownStage::Active || self.stage
            == TeardownStage::StreamClosed || self.stage == TeardownStage::ChannelClosed
    }

    /// The teardown of a session that has just been taken from the recorder.
    pub open spec fn begun<S, J>(session: Session<S, J>) -> TeardownView {
        TeardownView {
            stage: TeardownStage::Active,
            output_path: session.output_path@,
            sample_rate: session.configuration.sample_rate,
            started_at_ms: session.started_at_ms,
            samples: 0,
            has_stream: true,
            has_sender: true,
            has_writer: true,
        }
    }

    /// The state after the capture was stopped, which an active teardown
    /// does and no other.
    pub open spec fn after_stop_capture(self) -> TeardownView {
        if self.stage == TeardownStage::Active {
            TeardownView { stage: TeardownStage::StreamClosed, has_stream: false, ..self }
        } else {
            self
        }
    }

    /// The state after the channel was closed, which happens only once the
    /// stream is closed.
    pub open spec fn after_close_channel(self) -> TeardownView {
        if self.stage == TeardownStage::StreamClosed {
            TeardownView { stage: TeardownStage::ChannelClosed, has_sender: false, ..self }
        } else {
            self
        }
    }

    /// Whether the join handle is given out now: once, after the channel was
    /// closed.
    pub open spec fn gives_writer(self) -> bool {
        self.stage == TeardownStage::ChannelClosed && self.has_writer
    }

    /// Whether the writer's end can be reported now: after the channel was
    /// closed and the join handle was given out.
    pub open spec fn awaits_writer(self) -> bool {
        self.stage == TeardownStage::ChannelClosed && !self.has_writer
    }

    /// What the report of the writer's end leads to.
    pub open spec fn joined(self, outcome: WriterOutcome) -> Result<(), RecorderError> {
        if !self.awaits_writer() {
            Err(RecorderError::NotRecording)
        } else {
            match outcome {
                WriterOutcome::Finished(_) => Ok(()),
                WriterOutcome::Failed(text) => Err(RecorderError::WriterIOError(text)),
                WriterOutcome::Panicked => Err(RecorderError::WriterPanicked),
            }
        }
    }

    /// The state after the writer's end was reported.
    pub open spec fn after_joined(self, outcome: WriterOutcome) -> TeardownView {
        if !self.awaits_writer() {
            self
        } else {
            match outcome {
                WriterOutcome::Finished(samples) => TeardownView {
                    stage: TeardownStage::WriterJoined,
                    samples,
                    ..self
                },
                _ => TeardownView { stage: TeardownStage::Closed, ..self },
            }
        }
    }

    /// The state after the file was probed.
    pub open spec fn after_conclude(self) -> TeardownView {
        if self.stage == TeardownStage::WriterJoined {
            TeardownView { stage: TeardownStage::Closed, ..self }
        } else {
            self
        }
    }
}

impl TeardownStage {
    /// The place of a stage in the order of a teardown.
    pub open spec fn rank(self) -> int {
        match self {
            TeardownStage::Active => 0,
            TeardownStage::StreamClosed => 1,
            TeardownStage::ChannelClosed => 2,
            TeardownStage::WriterJoined => 3,
            TeardownStage::Closed => 4,
        }
    }
}

/// A teardown never goes back: every step leaves the stage where it is or
/// moves it on, and keeps the order of letting go.
pub proof fn teardown_only_advances(view: TeardownView, outcome: WriterOutcome)
    requires
        view.ordered(),
    ensures
        view.after_stop_capture().ordered(),
        view.after_close_channel().ordered(),
        view.after_joined(outcome).ordered(),
        view.after_conclude().ordered(),
        view.stage.rank() <= view.after_stop_capture().stage.rank() <= view.stage.rank() + 1,
        view.stage.rank() <= view.after_close_channel().stage.rank() <= view.stage.rank() + 1,
        view.stage.rank() <= view.after_joined(outcome).stage.rank(),
        view.stage.rank() <= view.after_conclude().stage.rank() <= view.stage.rank() + 1,
{
}

/// A teardown keeps what it took from the session: no step changes the output
/// path, the sample rate or the start, so a result carries the path that the
/// session was installed with.
pub proof fn teardown_keeps_the_session(view: TeardownView, outcome: WriterOutcome)
    ensures
        view.after_stop_capture().output_path == view.output_path,
        view.after_close_channel().output_path == view.output_path,
        view.after_joined(outcome).output_path == view.output_path,
        view.after_conclude().output_path == view.output_path,
        view.after_stop_capture().sample_rate == view.sample_rate,
        view.after_close_channel().sample_rate == view.sample_rate,
        view.after_joined(outcome).sample_rate == view.sample_rate,
        view.after_conclude().sample_rate == view.sample_rate,
        view.after_stop_capture().started_at_ms == view.started_at_ms,
        view.after_close_channel().started_at_ms == view.started_at_ms,
        view.after_joined(outcome).started_at_ms == view.started_at_ms,
        view.after_conclude().started_at_ms == view.started_at_ms,
{
}

/// The results of two sessions with different output paths name different
/// files.
pub proof fn different_paths_different_results(
    first: RecordingStopped,
    first_view: TeardownView,
    first_now_ms: u64,
    second: RecordingStopped,
    second_view: TeardownView,
    second_now_ms: u64,
)
    requires
        is_result_of(first, first_view, first_now_ms),
        is_result_of(second, second_view, second_now_ms),
        first_view.output_path != second_view.output_path,
    ensures
        first.path@ != second.path@,
{
}

/// A teardown whose writer was joined holds no handle any more: the stream,
/// the sender and the join handle were let go on the way.
pub proof fn joined_teardown_holds_nothing(view: TeardownView)
    requires
        view.ordered(),
        view.stage == TeardownStage::WriterJoined || view.stage == TeardownStage::Closed,
    ensures
        !view.has_stream && !view.has_sender && !view.has_writer,
{
}

/// Whether a finished recording is what this teardown hands on when the
/// clock reads `now_ms`: the path and the sample rate of the session and the
/// time since its start.
pub open spec fn is_result_of(done: RecordingStopped, view: TeardownView, now_ms: u64) -> bool {
    &&& done.path@ == view.output_path
    &&& done.sample_rate == view.sample_rate
    &&& done.duration_ms == elapsed_ms(view.started_at_ms, now_ms)
}

/// The stopping of one session. It is made by `Recorder::begin_stop`, which
/// leaves the recorder without a session whatever happens here.
pub struct Teardown<S, J> {
    stage: TeardownStage,
    stream: Option<S>,
    sender: Option<crossbeam_channel::Sender<Vec<i16>>>,
    writer: Option<J>,
    output_path: String,
    sample_rate: u32,
    started_at_ms: u64,
    samples: u32,
}

impl<S, J> Teardown<S, J> {
    /// The teardown's state as a plain value.
    pub closed spec fn view(&self) -> TeardownView {
        TeardownView {
            stage: self.stage,
            output_path: self.output_path@,
            sample_rate: self.sample_rate,
            started_at_ms: self.started_at_ms,
            samples: self.samples,
            has_stream: self.stream is Some,
            has_sender: self.sender is Some,
            has_writer: self.writer is Some,
        }
    }

    #[verifier::type_invariant]
    spec fn in_order(self) -> bool {
        self.view().ordered()
    }

    /// The stage the teardown is at.
    pub fn stage(&self) -> (stage: TeardownStage)
        ensures
            stage == self@.stage,
            self@.ordered(),
    {
        proof {
            use_type_invariant(self);
        }
        self.stage
    }

    /// Where the container is written.
    pub fn output_path(&self) -> (path: &String)
        ensures
            path@ == self@.output_path,
    {
        &self.output_path
    }

    /// First step: lets go of the capture stream, which releases the device;
    /// no chunk is produced after it. Tells whether this was the step due.
    pub fn stop_capture(&mut self) -> (done: bool)
        ensures
            done == (old(self)@.stage == TeardownStage::Active),
            final(self)@ == old(self)@.after_stop_capture(),
            final(self)@.ordered(),
    {
        proof {
            use_type_invariant(&*self);
        }
        match self.stage {
            TeardownStage::Active => {
                self.stream = None;
                self.stage = TeardownStage::StreamClosed;
                true
            },
            _ => false,
        }
    }

    /// Second step: lets go of the sender, which lets the writer drain what
    /// is queued and end. Tells whether this was the step due.
    pub fn close_channel(&mut self) -> (done: bool)
        ensures
            done == (old(self)@.stage == TeardownStage::StreamClosed),
            final(self)@ == old(self)@.after_close_channel(),
            final(self)@.ordered(),
    {
        proof {
            use_type_invariant(&*self);
        }
        match self.stage {
            TeardownStage::StreamClosed => {
                self.sender = None;
                self.stage = TeardownStage::ChannelClosed;
                true
            },
            _ => false,
        }
    }

    /// Third step: gives out the join handle of the writer thread, once and
    /// only after the channel was closed. The caller joins the thread and
    /// reports with `writer_joined`.
    pub fn take_writer(self) -> (r: (Option<J>, Teardown<S, J>))
        ensures
            r.0 is Some <==> self@.gives_writer(),
            r.1@ == (TeardownView {
                has_writer: self@.has_writer && !self@.gives_writer(),
                ..self@
            }),
            r.1@.ordered(),
    {
        proof {
            use_type_invariant(&self);
        }
        let Teardown {
            stage,
            stream,
            sender,
            writer,
            output_path,
            sample_rate,
            started_at_ms,
            samples,
        } = self;
        let (handle, writer): (Option<J>, Option<J>) = match stage {
            TeardownStage::ChannelClosed => (writer, None),
            _ => (None, writer),
        };
        (
            handle,
            Teardown {
                stage,
                stream,
                sender,
                writer,
                output_path,
                sample_rate,
                started_at_ms,
                samples,
            },
        )
    }

    /// Takes the report of how the writer thread ended. A writer that
    /// panicked or failed closes the teardown with that failure.
    pub fn writer_joined(&mut self, outcome: WriterOutcome) -> (r: Result<(), RecorderError>)
        ensures
            r == old(self)@.joined(outcome),
            final(self)@ == old(self)@.after_joined(outcome),
            final(self)@.ordered(),
    {
        proof {
            use_type_invariant(&*self);
        }
        let due: bool = match self.stage {
            TeardownStage::ChannelClosed => self.writer.is_none(),
            _ => false,
        };
        if !due {
            return Err(RecorderError::NotRecording);
        }
        match outcome {
            WriterOutcome::Finished(samples) => {
                self.samples = samples;
                self.stage = TeardownStage::WriterJoined;
                Ok(())
            },
            WriterOutcome::Failed(text) => {
                self.stage = TeardownStage::Closed;
                Err(RecorderError::WriterIOError(text))
            },
            WriterOutcome::Panicked => {
                self.stage = TeardownStage::Closed;
                Err(RecorderError::WriterPanicked)
            },
        }
    }

    /// Last step: takes what was found at the output path and the clock's
    /// reading, and gives the result of the recording. A recording without
    /// a file, without bytes or without samples is never handed on.
    pub fn conclude(&mut self, probe: FileProbe, now_ms: u64) -> (r: Result<
        RecordingStopped,
        RecorderError,
    >)
        ensures
            final(self)@ == old(self)@.after_conclude(),
            final(self)@.ordered(),
            old(self)@.stage != TeardownStage::WriterJoined ==> r == Err::<
                RecordingStopped,
                RecorderError,
            >(RecorderError::NotRecording),
            old(self)@.stage == TeardownStage::WriterJoined ==> match r {
                Ok(done) => probe matches FileProbe::Present(bytes) && bytes > 0 && old(
                    self,
                )@.samples > 0 && is_result_of(done, old(self)@, now_ms),
                Err(RecorderError::FileMissing(path)) => probe == FileProbe::Missing && path@
                    == old(self)@.output_path,
                Err(RecorderError::EmptyRecording) => probe matches FileProbe::Present(bytes) && (
                bytes == 0 || old(self)@.samples == 0),
                Err(_) => false,
            },
    {
        proof {
            use_type_invariant(&*self);
        }
        match self.stage {
            TeardownStage::WriterJoined => {},
            _ => {
                return Err(RecorderError::NotRecording);
            },
        }
        self.stage = TeardownStage::Closed;
        match probe {
            FileProbe::Missing => Err(RecorderError::FileMissing(self.output_path.clone())),
            FileProbe::Present(bytes) => {
                if bytes == 0 || self.samples == 0 {
                    Err(RecorderError::EmptyRecording)
                } else {
                    let duration_ms: u64 = if now_ms >= self.started_at_ms {
                        now_ms - self.started_at_ms
                    } else {
                        0
                    };
                    Ok(
                        RecordingStopped {
                            path: self.output_path.clone(),
                            sample_rate: self.sample_rate,
                            duration_ms,
                        },
                    )
                }
            },
        }
    }
}

/// The recorder: the one place that holds a session.
pub struct Recorder<S, J> {
    session: Option<Session<S, J>>,
}

impl<S, J> Recorder<S, J> {
    /// The session in progress, if there is one.
    pub closed spec fn session(&self) -> Option<Session<S, J>> {
        self.session
    }

    /// A recorder without a session.
    pub fn new() -> (recorder: Recorder<S, J>)
        ensures
            recorder.session() is None,
    {
        Recorder { session: None }
    }

    /// Whether a session is in progress.
    pub fn is_recording(&self) -> (busy: bool)
        ensures
            busy == self.session() is Some,
    {
        self.session.is_some()
    }

    /// The first check of a start: fails while a session is in progress.
    pub fn ensure_idle(&self) -> (r: Result<(), RecorderError>)
        ensures
            r == (if self.session() is Some {
                Err::<(), RecorderError>(RecorderError::AlreadyRecording)
            } else {
                Ok::<(), RecorderError>(())
            }),
    {
        if self.session.is_some() {
            Err(RecorderError::AlreadyRecording)
        } else {
            Ok(())
        }
    }

    /// The last step of a start: makes `session` the one session and gives
    /// its output path. While another session is in progress the start is
    /// refused and that session stays as it is.
    pub fn install(&mut self, session: Session<S, J>) -> (r: Result<String, RecorderError>)
        ensures
            old(self).session() is Some ==> r == Err::<String, RecorderError>(
                RecorderError::AlreadyRecording,
            ) && final(self).session() == old(self).session(),
            old(self).session() is None ==> final(self).session() == Some(session) && (r matches Ok(
                path,
            ) && path@ == session.output_path@),
    {
        if self.session.is_some() {
            return Err(RecorderError::AlreadyRecording);
        }
        let path: String = session.output_path.clone();
        self.session = Some(session);
        Ok(path)
    }

    /// The first step of a stop: takes the session out of the recorder, so
    /// that no session is left whatever the teardown runs into.
    pub fn begin_stop(&mut self) -> (r: Result<Teardown<S, J>, RecorderError>)
        ensures
            final(self).session() is None,
            match r {
                Ok(teardown) => old(self).session() matches Some(session) && teardown@
                    == TeardownView::begun(session),
                Err(e) => old(self).session() is None && e == RecorderError::NotRecording,
            },
    {
        match self.session.take() {
            None => Err(RecorderError::NotRecording),
            Some(session) => Ok(
                Teardown {
                    stage: TeardownStage::Active,
                    stream: Some(session.stream),
                    sender: Some(session.sender),
                    writer: Some(session.writer),
                    output_path: session.output_path,
                    sample_rate: session.configuration.sample_rate,
                    started_at_ms: session.started_at_ms,
                    samples: 0,
                },
            ),
        }
    }
}

} // verus!
