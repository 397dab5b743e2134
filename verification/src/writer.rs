//! The container writer: the decisions of the thread that drains the chunk
//! channel into a mono 16-bit PCM container and finalizes it once.
//!
//! The thread owns the file. It asks the writer for its next step, performs
//! it on the file and reports how that went; the writer keeps the state
//! `Open → (repeatedly) Append → Finalized` and the first failure.

use vstd::prelude::*;
use crate::channel::recv_chunk;

verus! {

/// The number of channels of every container written here.
pub const CONTAINER_CHANNELS: u16 = 1;

/// The number of bits of every sample written here.
pub const CONTAINER_BITS: u16 = 16;

/// The highest sample rate a container header can carry for two-byte mono
/// samples: the header's bytes-per-second field has 32 bits.
pub const MAX_SAMPLE_RATE: u32 = 0x7fff_ffff;

/// The number of samples a container can hold: the header's size fields have
/// 32 bits and count the two bytes of every sample and 36 bytes of header.
pub const CONTAINER_CAPACITY: u32 = 2147483629;

/// The header fields of a container.
#[derive(Clone, Copy, Debug, PartialEq, Eq, Structural)]
pub struct ContainerSpec {
    pub channels: u16,
    pub sample_rate: u32,
    pub bits_per_sample: u16,
}

/// Why a container could not be written.
#[derive(Clone, Debug, PartialEq, Eq)]
pub enum WriterError {
    /// The sample rate is zero or above `MAX_SAMPLE_RATE`.
    SampleRate(u32),
    /// The container refused a write or its finalization; the text is the
    /// container's own.
    Container(String),
    /// The container cannot hold the next chunk.
    Full,
}

impl WriterError {
    /// The text shown for this failure.
    pub open spec fn text(self) -> Seq<char> {
        match self {
            WriterError::SampleRate(_) => "sample rate out of range"@,
            WriterError::Container(e) => e@,
            WriterError::Full => "container is full"@,
        }
    }

    /// Renders the failure as text.
    pub fn message(&self) -> (s: String)
        ensures
            s@ == self.text(),
    {
        match self {
            WriterError::SampleRate(_) => "sample rate out of range".to_owned(),
            WriterError::Container(e) => e.clone(),
            WriterError::Full => "container is full".to_owned(),
        }
    }
}

/// What the writer thread does next.
#[derive(Debug, PartialEq, Eq)]
pub enum WriterStep {
    /// Append every sample of this chunk to the container, in order, and
    /// report with `appended`.
    Append(Vec<i16>),
    /// Finalize the container and report with `finalized`.
    Finalize,
}

/// How appending one chunk went.
#[derive(Debug, PartialEq, Eq)]
pub enum AppendOutcome {
    /// Every sample of the chunk was written.
    Whole,
    /// The container failed after `written` samples of the chunk.
    Failed { written: usize, error: String },
}

/// The count of samples taken, with the samples themselves as ghost state.
struct Tally {
    count: u32,
    log: Ghost<Seq<i16>>,
}

impl Tally {
    #[verifier::type_invariant]
    spec fn counted(self) -> bool {
        self.count == self.log@.len() && self.count <= CONTAINER_CAPACITY
    }
}

/// The state of a writer as a plain value.
pub struct WriterView {
    /// The sample rate the container was opened with.
    pub sample_rate: u32,
    /// The samples the container has taken, in order.
    pub samples: Seq<i16>,
    /// The first failure, if the writer has failed. A failed writer takes no
    /// more samples.
    pub failure: Option<WriterError>,
}

impl WriterView {
    /// A writer that has just been opened.
    pub open spec fn fresh(sample_rate: u32) -> WriterView {
        WriterView { sample_rate, samples: Seq::empty(), failure: None }
    }

    /// Whether the writer still takes samples.
    pub open spec fn is_open(self) -> bool {
        self.failure is None
    }

    /// How many more samples the container can hold.
    pub open spec fn room(self) -> int {
        CONTAINER_CAPACITY - self.samples.len()
    }

    /// The step that follows on what the channel gave: a chunk is appended
    /// while the writer is open and the chunk fits; everything else leads to
    /// finalization.
    pub open spec fn step(self, received: Option<Vec<i16>>) -> WriterStep {
        match received {
            Some(chunk) if self.is_open() && chunk@.len() <= self.room() => WriterStep::Append(
                chunk,
            ),
            _ => WriterStep::Finalize,
        }
    }

    /// The state after the channel gave `received`: a chunk that does not
    /// fit makes an open writer fail as full.
    pub open spec fn after_receive(self, received: Option<Vec<i16>>) -> WriterView {
        match received {
            Some(chunk) if self.is_open() && chunk@.len() > self.room() => WriterView {
                failure: Some(WriterError::Full),
                ..self
            },
            _ => self,
        }
    }

    /// The samples of `chunk` that `outcome` says were written, cut to the
    /// room that is left.
    pub open spec fn written(self, chunk: Seq<i16>, outcome: AppendOutcome) -> Seq<i16> {
        let claimed: int = match outcome {
            AppendOutcome::Whole => chunk.len() as int,
            AppendOutcome::Failed { written, .. } => if written <= chunk.len() {
                written as int
            } else {
                chunk.len() as int
            },
        };
        chunk.take(if claimed <= self.room() {
            claimed
        } else {
            self.room()
        })
    }

    /// The state after `chunk` was appended with `outcome`. A failed writer
    /// stays as it is. An open writer takes the written samples; it fails
    /// with the container's error, or as full if the chunk did not fit.
    pub open spec fn after_append(self, chunk: Seq<i16>, outcome: AppendOutcome) -> WriterView {
        if !self.is_open() {
            self
        } else {
            WriterView {
                sample_rate: self.sample_rate,
                samples: self.samples + self.written(chunk, outcome),
                failure: match outcome {
                    AppendOutcome::Failed { error, .. } => Some(WriterError::Container(error)),
                    AppendOutcome::Whole => if chunk.len() <= self.room() {
                        None
                    } else {
                        Some(WriterError::Full)
                    },
                },
            }
        }
    }

    /// The state after every chunk of `chunks` was appended whole, one after
    /// the other.
    pub open spec fn after_chunks(self, chunks: Seq<Seq<i16>>) -> WriterView
        decreases chunks.len(),
    {
        if chunks.len() == 0 {
            self
        } else {
            self.after_chunks(chunks.drop_last()).after_append(chunks.last(), AppendOutcome::Whole)
        }
    }

    /// What the writer thread returns once the container was finalized with
    /// `error`: the first failure if there was one before, else the
    /// finalization's, else the number of samples in the container.
    pub open spec fn outcome(self, error: Option<String>) -> Result<u32, WriterError> {
        match (self.failure, error) {
            (Some(first), _) => Err(first),
            (None, Some(e)) => Err(WriterError::Container(e)),
            (None, None) => Ok(self.samples.len() as u32),
        }
    }
}

/// A recording whose chunks all fit into the container holds exactly the
/// concatenation of the chunks, in the order in which they were appended,
/// and the writer thread returns their number.
pub proof fn chunks_are_written_in_order(sample_rate: u32, chunks: Seq<Seq<i16>>)
    requires
        chunks.flatten().len() <= CONTAINER_CAPACITY,
    ensures
        WriterView::fresh(sample_rate).after_chunks(chunks).samples == chunks.flatten(),
        WriterView::fresh(sample_rate).after_chunks(chunks).is_open(),
        WriterView::fresh(sample_rate).after_chunks(chunks).outcome(None) == Ok::<u32, WriterError>(
            chunks.flatten().len() as u32,
        ),
    decreases chunks.len(),
{
    chunks.lemma_flatten_and_flatten_alt_are_equivalent();
    if chunks.len() > 0 {
        let earlier = chunks.drop_last();
        earlier.lemma_flatten_and_flatten_alt_are_equivalent();
        assert(chunks.flatten() == earlier.flatten() + chunks.last());
        chunks_are_written_in_order(sample_rate, earlier);
        let before = WriterView::fresh(sample_rate).after_chunks(earlier);
        assert(before.written(chunks.last(), AppendOutcome::Whole) =~= chunks.last());
    }
}

/// A writer of one container.
pub struct ContainerWriter {
    sample_rate: u32,
    tally: Tally,
    failure: Option<WriterError>,
}

impl View for ContainerWriter {
    type V = WriterView;

    closed spec fn view(&self) -> WriterView {
        WriterView {
            sample_rate: self.sample_rate,
            samples: self.tally.log@,
            failure: self.failure,
        }
    }
}

impl ContainerWriter {
    /// Opens the writer of a container at `sample_rate`. A rate that the
    /// container's header cannot carry is refused.
    pub fn open(sample_rate: u32) -> (r: Result<ContainerWriter, WriterError>)
        ensures
            match r {
                Ok(writer) => 0 < sample_rate <= MAX_SAMPLE_RATE && writer@ == WriterView::fresh(
                    sample_rate,
                ),
                Err(e) => (sample_rate == 0 || sample_rate > MAX_SAMPLE_RATE) && e
                    == WriterError::SampleRate(sample_rate),
            },
    {
        if sample_rate == 0 || sample_rate > MAX_SAMPLE_RATE {
            return Err(WriterError::SampleRate(sample_rate));
        }
        Ok(
            ContainerWriter {
                sample_rate,
                tally: Tally { count: 0, log: Ghost(Seq::empty()) },
                failure: None,
            },
        )
    }

    /// The header fields to create the container with: mono, 16 bits, the
    /// sample rate given at `open`.
    pub fn spec(&self) -> (spec: ContainerSpec)
        ensures
            spec == (ContainerSpec {
                channels: CONTAINER_CHANNELS,
                sample_rate: self@.sample_rate,
                bits_per_sample: CONTAINER_BITS,
            }),
    {
        ContainerSpec {
            channels: CONTAINER_CHANNELS,
            sample_rate: self.sample_rate,
            bits_per_sample: CONTAINER_BITS,
        }
    }

    /// The number of samples taken so far.
    pub fn len(&self) -> (n: u32)
        ensures
            n == self@.samples.len(),
            n <= CONTAINER_CAPACITY,
    {
        proof {
            use_type_invariant(&self.tally);
        }
        self.tally.count
    }

    /// Whether the writer still takes samples.
    pub fn is_open(&self) -> (open: bool)
        ensures
            open == self@.is_open(),
    {
        self.failure.is_none()
    }

    /// Decides the next step from what the channel gave: `Some` chunk, or
    /// `None` once the channel is closed and drained.
    pub fn step_for(&mut self, received: Option<Vec<i16>>) -> (step: WriterStep)
        ensures
            step == old(self)@.step(received),
            final(self)@ == old(self)@.after_receive(received),
    {
        proof {
            use_type_invariant(&self.tally);
        }
        match received {
            None => WriterStep::Finalize,
            Some(chunk) => {
                if self.failure.is_some() {
                    WriterStep::Finalize
                } else if chunk.len() > (CONTAINER_CAPACITY - self.tally.count) as usize {
                    self.failure = Some(WriterError::Full);
                    WriterStep::Finalize
                } else {
                    WriterStep::Append(chunk)
                }
            },
        }
    }

    /// Waits for the next chunk and decides the next step. A writer that has
    /// failed does not wait: it is finalized at once.
    pub fn next_step(&mut self, rx: &crossbeam_channel::Receiver<Vec<i16>>) -> (step: WriterStep)
        ensures
            !old(self)@.is_open() ==> step == WriterStep::Finalize && final(self)@ == old(self)@,
            exists|received: Option<Vec<i16>>|
                step == old(self)@.step(received) && final(self)@ == old(self)@.after_receive(
                    received,
                ),
    {
        if self.failure.is_some() {
            assert(WriterStep::Finalize == self@.step(None) && self@ == self@.after_receive(None));
            return WriterStep::Finalize;
        }
        let received: Option<Vec<i16>> = recv_chunk(rx);
        self.step_for(received)
    }

    /// Takes the report of appending `chunk`.
    pub fn appended(&mut self, chunk: &[i16], outcome: AppendOutcome) -> (open: bool)
        ensures
            final(self)@ == old(self)@.after_append(chunk@, outcome),
            open == final(self)@.is_open(),
    {
        proof {
            use_type_invariant(&self.tally);
        }
        if self.failure.is_some() {
            return false;
        }
        let room: usize = (CONTAINER_CAPACITY - self.tally.count) as usize;
        let ghost before = self@;
        let claimed: usize = match &outcome {
            AppendOutcome::Whole => chunk.len(),
            AppendOutcome::Failed { written, .. } => if *written <= chunk.len() {
                *written
            } else {
                chunk.len()
            },
        };
        let taken: usize = if claimed <= room {
            claimed
        } else {
            room
        };
        self.tally =
        Tally {
            count: self.tally.count + taken as u32,
            log: Ghost(self.tally.log@ + chunk@.take(taken as int)),
        };
        match outcome {
            AppendOutcome::Failed { written: _, error } => {
                self.failure = Some(WriterError::Container(error));
            },
            AppendOutcome::Whole => {
                if chunk.len() > room {
                    self.failure = Some(WriterError::Full);
                }
            },
        }
        assert(self@.samples == before.samples + before.written(chunk@, outcome));
        self.failure.is_none()
    }

    /// Takes the report of the finalization, `None` if it went well, and
    /// gives what the writer thread returns.
    pub fn finalized(self, error: Option<String>) -> (r: Result<u32, WriterError>)
        ensures
            r == self@.outcome(error),
    {
        proof {
            use_type_invariant(&self.tally);
        }
        match self.failure {
            Some(first) => Err(first),
            None => match error {
                Some(e) => Err(WriterError::Container(e)),
                None => Ok(self.tally.count),
            },
        }
    }
}

} // verus!
