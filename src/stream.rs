//! The stream engine's decisions: the lifecycle of a hardware unit, the
//! initialization sequence, and the checks a render invocation's buffers
//! must pass before they are handed to the user callback.

use vstd::prelude::*;

verus! {

/// A failure status reported by the hardware unit.
#[derive(Clone, Copy, Debug, PartialEq, Eq, Structural)]
pub struct UnitError {
    pub status: i32,
}

/// Why a stream operation failed.
#[derive(Clone, Copy, Debug, PartialEq, Eq, Structural)]
pub enum Error {
    AudioUnit(UnitError),
}

/// The primitives a stream issues to its hardware unit.
#[derive(Clone, Copy, Debug, PartialEq, Eq, Structural)]
pub enum UnitCommand {
    SetStreamFormat,
    SetRenderCallback,
    Initialize,
    Start,
    Stop,
    Uninitialize,
}

/// Where a stream stands in its lifecycle.
#[derive(Clone, Copy, Debug, PartialEq, Eq, Structural)]
pub enum Phase {
    Constructed,
    Initialized,
    Started,
    Stopped,
    TornDown,
}

/// What initialization does next: issue a command, or finish.
#[derive(Clone, Copy, Debug, PartialEq, Eq, Structural)]
pub enum InitProgress {
    Run(UnitCommand),
    Initialized,
    Failed(Error),
}

/// The commands of initialization, in order.
pub open spec fn is_init_command(c: UnitCommand) -> bool {
    c == UnitCommand::SetStreamFormat || c == UnitCommand::SetRenderCallback || c
        == UnitCommand::Initialize
}

/// What follows an initialization command that ended with `outcome`: the
/// first failure ends the sequence with that failure.
pub open spec fn spec_after_init(c: UnitCommand, outcome: Result<(), UnitError>) -> InitProgress {
    match outcome {
        Err(e) => InitProgress::Failed(Error::AudioUnit(e)),
        Ok(()) => match c {
            UnitCommand::SetStreamFormat => InitProgress::Run(UnitCommand::SetRenderCallback),
            UnitCommand::SetRenderCallback => InitProgress::Run(UnitCommand::Initialize),
            _ => InitProgress::Initialized,
        },
    }
}

/// Maps a hardware-unit outcome to a stream outcome.
pub open spec fn spec_unit_result(outcome: Result<(), UnitError>) -> Result<(), Error> {
    match outcome {
        Ok(()) => Ok(()),
        Err(e) => Err(Error::AudioUnit(e)),
    }
}

fn unit_result(outcome: Result<(), UnitError>) -> (r: Result<(), Error>)
    ensures
        r == spec_unit_result(outcome),
{
    match outcome {
        Ok(()) => Ok(()),
        Err(e) => Err(Error::AudioUnit(e)),
    }
}

/// The lifecycle of one stream: constructed, then initialized (format set,
/// callback registered, unit initialized), then started and stopped any
/// number of times, then torn down.
#[derive(Clone, Copy, Debug, PartialEq, Eq, Structural)]
pub struct Lifecycle {
    pub phase: Phase,
}

impl Lifecycle {
    /// A freshly constructed stream: nothing configured or registered yet,
    /// so that registration happens only once the stream has its final address.
    pub fn new() -> (r: Lifecycle)
        ensures
            r.phase == Phase::Constructed,
    {
        Lifecycle { phase: Phase::Constructed }
    }

    /// The first command of initialization.
    pub fn first_init_command() -> (r: UnitCommand)
        ensures
            r == UnitCommand::SetStreamFormat,
    {
        UnitCommand::SetStreamFormat
    }

    /// Records the outcome of an initialization command and says what comes
    /// next; a torn-down stream stays torn down.
    pub fn after_init_command(&mut self, command: UnitCommand, outcome: Result<(), UnitError>) -> (r:
        InitProgress)
        requires
            is_init_command(command),
        ensures
            r == spec_after_init(command, outcome),
            final(self).phase == (if r == InitProgress::Initialized && old(self).phase
                != Phase::TornDown {
                Phase::Initialized
            } else {
                old(self).phase
            }),
    {
        match outcome {
            Err(e) => InitProgress::Failed(Error::AudioUnit(e)),
            Ok(()) => match command {
                UnitCommand::SetStreamFormat => InitProgress::Run(UnitCommand::SetRenderCallback),
                UnitCommand::SetRenderCallback => InitProgress::Run(UnitCommand::Initialize),
                _ => {
                    if self.phase != Phase::TornDown {
                        self.phase = Phase::Initialized;
                    }
                    InitProgress::Initialized
                },
            },
        }
    }

    /// Records the outcome of a start; a start is passed through whatever
    /// the phase, and only a successful one moves a stream that is not torn
    /// down to started.
    pub fn after_start(&mut self, outcome: Result<(), UnitError>) -> (r: Result<(), Error>)
        ensures
            r == spec_unit_result(outcome),
            final(self).phase == (if outcome is Ok && old(self).phase != Phase::TornDown {
                Phase::Started
            } else {
                old(self).phase
            }),
    {
        if outcome.is_ok() && self.phase != Phase::TornDown {
            self.phase = Phase::Started;
        }
        unit_result(outcome)
    }

    /// Records the outcome of a stop; only a successful one moves a
    /// stream that is not torn down to stopped.
    pub fn after_stop(&mut self, outcome: Result<(), UnitError>) -> (r: Result<(), Error>)
        ensures
            r == spec_unit_result(outcome),
            final(self).phase == (if outcome is Ok && old(self).phase != Phase::TornDown {
                Phase::Stopped
            } else {
                old(self).phase
            }),
    {
        if outcome.is_ok() && self.phase != Phase::TornDown {
            self.phase = Phase::Stopped;
        }
        unit_result(outcome)
    }

    /// Records a teardown: the stream is torn down whatever happened, and the
    /// first failure, if any, is reported rather than fatal.
    pub fn after_teardown(
        &mut self,
        stopped: Result<(), UnitError>,
        uninitialized: Result<(), UnitError>,
    ) -> (r: Result<(), Error>)
        ensures
            final(self).phase == Phase::TornDown,
            r == (if stopped is Err {
                spec_unit_result(stopped)
            } else {
                spec_unit_result(uninitialized)
            }),
    {
        self.phase = Phase::TornDown;
        match stopped {
            Err(e) => Err(Error::AudioUnit(e)),
            Ok(()) => unit_result(uninitialized),
        }
    }
}

/// One buffer descriptor of a render invocation's buffer list.
#[derive(Clone, Copy, Debug, PartialEq, Eq, Structural)]
pub struct BufferDescriptor {
    /// Interleaved channels the buffer carries.
    pub channels: u32,
    /// Bytes the buffer holds.
    pub byte_size: u32,
}

/// A structural fault in a render invocation's buffers.
#[derive(Clone, Copy, Debug, PartialEq, Eq, Structural)]
pub enum RenderFault {
    /// The buffer count differs from the stream's channel count.
    ChannelCountMismatch,
    /// The buffer at this index carries other than exactly one channel.
    InterleavedBuffer(usize),
    /// The buffer at this index holds other than one sample per frame.
    ByteSizeMismatch(usize),
}

/// A buffer of a non-interleaved stream holds one channel of `frames`
/// samples of `sample_size` bytes.
pub open spec fn buffer_fits(b: BufferDescriptor, frames: u32, sample_size: usize) -> bool {
    b.channels == 1 && b.byte_size == frames * sample_size
}

/// The buffers before index `i` all fit.
pub open spec fn fits_before(
    buffers: Seq<BufferDescriptor>,
    i: int,
    frames: u32,
    sample_size: usize,
) -> bool {
    forall|j: int| 0 <= j < i ==> #[trigger] buffer_fits(buffers[j], frames, sample_size)
}

/// Checks the buffer count of a render invocation against the stream's
/// channel count.
pub fn check_buffer_count(channels: u32, count: usize) -> (r: Result<(), RenderFault>)
    ensures
        r is Ok <==> count == channels,
        r is Err ==> r == Err::<(), RenderFault>(RenderFault::ChannelCountMismatch),
{
    if count as u64 != channels as u64 {
        Err(RenderFault::ChannelCountMismatch)
    } else {
        Ok(())
    }
}

/// Checks the buffer at `index` of a render invocation: one channel of
/// `frames` samples of `sample_size` bytes.
pub fn check_render_buffer(
    index: usize,
    buffer: BufferDescriptor,
    frames: u32,
    sample_size: usize,
) -> (r: Result<(), RenderFault>)
    ensures
        r is Ok <==> buffer_fits(buffer, frames, sample_size),
        r is Err ==> r == (if buffer.channels != 1 {
            Err::<(), RenderFault>(RenderFault::InterleavedBuffer(index))
        } else {
            Err::<(), RenderFault>(RenderFault::ByteSizeMismatch(index))
        }),
{
    if buffer.channels != 1 {
        return Err(RenderFault::InterleavedBuffer(index));
    }
    let fits = match (frames as u64).checked_mul(sample_size as u64) {
        Some(e) => buffer.byte_size as u64 == e,
        None => false,
    };
    if fits {
        Ok(())
    } else {
        Err(RenderFault::ByteSizeMismatch(index))
    }
}

/// Checks a render invocation's buffer list against the stream: one buffer
/// per channel, each carrying one channel of `frames` samples. On success
/// the length of every channel slice handed to the callback.
pub fn check_render_buffers(
    channels: u32,
    frames: u32,
    sample_size: usize,
    buffers: &Vec<BufferDescriptor>,
) -> (r: Result<usize, RenderFault>)
    ensures
        match r {
            Ok(n) => n == frames && buffers@.len() == channels && fits_before(
                buffers@,
                buffers@.len() as int,
                frames,
                sample_size,
            ),
            Err(RenderFault::ChannelCountMismatch) => buffers@.len() != channels,
            Err(RenderFault::InterleavedBuffer(i)) => buffers@.len() == channels && i
                < buffers@.len() && fits_before(buffers@, i as int, frames, sample_size)
                && buffers@[i as int].channels != 1,
            Err(RenderFault::ByteSizeMismatch(i)) => buffers@.len() == channels && i
                < buffers@.len() && fits_before(buffers@, i as int, frames, sample_size)
                && buffers@[i as int].channels == 1 && buffers@[i as int].byte_size != frames
                * sample_size,
        },
{
    if let Err(fault) = check_buffer_count(channels, buffers.len()) {
        return Err(fault);
    }
    let mut i: usize = 0;
    while i < buffers.len()
        invariant
            buffers@.len() == channels,
            i <= buffers@.len(),
            fits_before(buffers@, i as int, frames, sample_size),
        decreases buffers.len() - i,
    {
        if let Err(fault) = check_render_buffer(i, buffers[i], frames, sample_size) {
            return Err(fault);
        }
        i = i + 1;
    }
    Ok(frames as usize)
}

} // verus!
