use vstd::prelude::*;

use crate::error::FerriaError;

verus! {

/// True when `n` is a power of two (1, 2, 4, 8, ...).
pub open spec fn is_power_of_two(n: nat) -> bool
    decreases n,
{
    if n == 0 {
        false
    } else if n == 1 {
        true
    } else {
        n % 2 == 0 && is_power_of_two(n / 2)
    }
}

/// Configuration of the spectrum analyzer: the frame (FFT) size and the
/// sample rate of the stream it analyzes. The numeric transform itself runs
/// outside this crate; this type owns the configuration rules and the frame
/// acceptance check that the transform relies on.
#[derive(Debug, Clone, Copy, PartialEq, Eq, Structural)]
pub struct AudioAnalyzer {
    fft_size: usize,
    sample_rate: u32,
}

impl AudioAnalyzer {
    pub closed spec fn spec_fft_size(&self) -> usize {
        self.fft_size
    }

    pub closed spec fn spec_sample_rate(&self) -> u32 {
        self.sample_rate
    }

    /// A valid analyzer was built for a non-zero power-of-two frame size.
    pub open spec fn wf(&self) -> bool {
        is_power_of_two(self.spec_fft_size() as nat)
    }

    /// Accepts exactly the non-zero power-of-two frame sizes; any other size
    /// is an invalid configuration.
    pub fn new(fft_size: usize, sample_rate: u32) -> (r: Result<AudioAnalyzer, FerriaError>)
        ensures
            is_power_of_two(fft_size as nat) ==> (r matches Ok(a)
                && a.spec_fft_size() == fft_size
                && a.spec_sample_rate() == sample_rate
                && a.wf()),
            !is_power_of_two(fft_size as nat) ==> r == Err::<AudioAnalyzer, FerriaError>(
                FerriaError::InvalidConfiguration { fft_size },
            ),
    {
        if !check_power_of_two(fft_size) {
            return Err(FerriaError::InvalidConfiguration { fft_size });
        }
        Ok(AudioAnalyzer { fft_size, sample_rate })
    }

    /// The configured frame size.
    pub fn fft_size(&self) -> (r: usize)
        ensures
            r == self.spec_fft_size(),
    {
        self.fft_size
    }

    /// The sample rate the analyzer was configured for.
    pub fn sample_rate(&self) -> (r: u32)
        ensures
            r == self.spec_sample_rate(),
    {
        self.sample_rate
    }

    /// The acceptance gate of an analysis pass: a frame is analyzed only when
    /// its length equals the configured FFT size, and a frame of any other
    /// length is rejected with the mismatch condition.
    pub fn check_frame_size(&self, frame_len: usize) -> (r: Result<(), FerriaError>)
        ensures
            r == (if frame_len == self.spec_fft_size() {
                Ok::<(), FerriaError>(())
            } else {
                Err::<(), FerriaError>(FerriaError::InputSizeMismatch {
                    given: frame_len,
                    expected: self.spec_fft_size(),
                })
            }),
    {
        if frame_len == self.fft_size {
            Ok(())
        } else {
            Err(FerriaError::InputSizeMismatch { given: frame_len, expected: self.fft_size })
        }
    }
}

/// What one channel receive of the analysis task produced. A sample travels
/// as its IEEE-754 bit pattern: the task only buffers and forwards it in
/// order and never interprets it numerically.
#[derive(Debug, Clone, Copy, PartialEq, Eq, Structural)]
pub enum RecvOutcome {
    /// The next sample of the stream arrived.
    Sample(u32),
    /// The bounded wait ran out; not an error, the task simply retries.
    TimedOut,
    /// The sending side is gone: the cooperative shutdown signal.
    Closed,
}

/// What the analysis task must do next.
#[derive(Debug, Clone, Copy, PartialEq, Eq, Structural)]
pub enum TaskAction {
    /// Wait for the next sample.
    Receive,
    /// The frame is complete: run an analysis pass on it.
    Analyze,
    /// Terminate the task.
    Exit,
}

/// How one analysis pass ended, as seen by the task loop.
#[derive(Debug, Clone, Copy, PartialEq, Eq, Structural)]
pub enum AnalysisOutcome {
    /// The spectrum was computed and delivered downstream.
    Delivered,
    /// The spectrum was computed but its receiver is gone: the cooperative
    /// shutdown signal of the output side.
    ReceiverGone,
    /// The analysis itself failed; the frame is discarded and the task
    /// carries on.
    AnalysisFailed,
}

/// The state of the background analysis task: the frame under construction.
///
/// The task loop lives with the channels and the thread, outside this crate;
/// every decision of that loop comes from `on_receive` and `after_analysis`,
/// whose contracts pin down the shutdown and frame-accounting rules: input
/// disconnection terminates the task at once with no partial frame flushed,
/// output disconnection terminates it on the send attempt, a timeout merely
/// retries, and the frame is cleared after every analysis attempt no matter
/// how it ended.
pub struct AnalyzerTask {
    frame: Vec<u32>,
    fft_size: usize,
}

impl AnalyzerTask {
    /// The samples accumulated so far, oldest first.
    pub closed spec fn spec_frame(&self) -> Seq<u32> {
        self.frame@
    }

    pub closed spec fn spec_fft_size(&self) -> usize {
        self.fft_size
    }

    /// The frame under construction never outgrows the configured size.
    pub open spec fn wf(&self) -> bool {
        self.spec_frame().len() <= self.spec_fft_size() && self.spec_fft_size() >= 1
    }

    /// A task for the given analyzer, with an empty frame.
    pub fn new(analyzer: &AudioAnalyzer) -> (r: AnalyzerTask)
        requires
            analyzer.wf(),
        ensures
            r.wf(),
            r.spec_fft_size() == analyzer.spec_fft_size(),
            r.spec_frame() == Seq::<u32>::empty(),
    {
        proof {
            lemma_power_of_two_pos(analyzer.spec_fft_size() as nat);
        }
        AnalyzerTask { frame: Vec::new(), fft_size: analyzer.fft_size() }
    }

    /// True when the frame has reached the configured size and is ready for
    /// an analysis pass.
    pub fn is_full(&self) -> (r: bool)
        ensures
            r == (self.spec_frame().len() == self.spec_fft_size()),
    {
        self.frame.len() == self.fft_size
    }

    /// The completed frame, in arrival order, for the analysis pass.
    pub fn frame(&self) -> (r: &Vec<u32>)
        ensures
            r@ == self.spec_frame(),
    {
        &self.frame
    }

    /// Reacts to one channel receive. A sample is appended in arrival order;
    /// the task analyzes exactly when the frame is complete. A timeout
    /// retries. A closed input terminates the task immediately, leaving the
    /// partial frame unflushed.
    pub fn on_receive(&mut self, received: RecvOutcome) -> (action: TaskAction)
        requires
            old(self).wf(),
            old(self).spec_frame().len() < old(self).spec_fft_size(),
        ensures
            final(self).wf(),
            final(self).spec_fft_size() == old(self).spec_fft_size(),
            received matches RecvOutcome::Sample(bits) ==> {
                &&& final(self).spec_frame() == old(self).spec_frame().push(bits)
                &&& action == (if final(self).spec_frame().len() == final(self).spec_fft_size() {
                    TaskAction::Analyze
                } else {
                    TaskAction::Receive
                })
            },
            received == RecvOutcome::TimedOut ==> final(self).spec_frame() == old(
                self,
            ).spec_frame() && action == TaskAction::Receive,
            received == RecvOutcome::Closed ==> final(self).spec_frame() == old(
                self,
            ).spec_frame() && action == TaskAction::Exit,
    {
        match received {
            RecvOutcome::Sample(bits) => {
                self.frame.push(bits);
                if self.frame.len() == self.fft_size {
                    TaskAction::Analyze
                } else {
                    TaskAction::Receive
                }
            },
            RecvOutcome::TimedOut => TaskAction::Receive,
            RecvOutcome::Closed => TaskAction::Exit,
        }
    }

    /// Closes one analysis attempt. The frame is cleared whatever the
    /// outcome; the task terminates exactly when the spectrum receiver is
    /// gone, and otherwise keeps receiving (a failed analysis never kills the
    /// pipeline).
    pub fn after_analysis(&mut self, outcome: AnalysisOutcome) -> (action: TaskAction)
        requires
            old(self).wf(),
        ensures
            final(self).wf(),
            final(self).spec_fft_size() == old(self).spec_fft_size(),
            final(self).spec_frame() == Seq::<u32>::empty(),
            action == (if outcome == AnalysisOutcome::ReceiverGone {
                TaskAction::Exit
            } else {
                TaskAction::Receive
            }),
    {
        self.frame.clear();
        if outcome == AnalysisOutcome::ReceiverGone {
            TaskAction::Exit
        } else {
            TaskAction::Receive
        }
    }
}

/// A power of two is never zero.
pub proof fn lemma_power_of_two_pos(n: nat)
    requires
        is_power_of_two(n),
    ensures
        n >= 1,
{
}

/// Decides whether `n` is a power of two by stripping factors of two.
fn check_power_of_two(n: usize) -> (r: bool)
    ensures
        r == is_power_of_two(n as nat),
{
    if n == 0 {
        return false;
    }
    let mut m: usize = n;
    while m % 2 == 0
        invariant
            m >= 1,
            is_power_of_two(n as nat) == is_power_of_two(m as nat),
        decreases m,
    {
        m = m / 2;
    }
    m == 1
}

} // verus!
