use vstd::prelude::*;

verus! {

/// Length of the trigger pulse, in microseconds.
pub const TRIGGER_PULSE_US: u32 = 10;

/// Polls allowed while waiting for the echo line to rise.
pub const RISE_WAIT_LIMIT: u16 = 1000;

/// Polls allowed while the echo line is high.
pub const PULSE_LIMIT: u16 = 30000;

/// Microseconds of echo per centimetre of distance (sound's round trip).
pub const US_PER_CM: u16 = 58;

/// Upper bound on the samples a measurement takes from start to report.
pub const MAX_SAMPLES: u32 = 31002;

/// Distance in centimetres for an echo pulse of `duration_us` microseconds,
/// truncated.
pub fn distance(duration_us: u16) -> (r: u16)
    ensures
        r == duration_us / 58,
{
    duration_us / US_PER_CM
}

/// A longer echo never gives a shorter distance.
pub proof fn lemma_distance_monotonic(a: u16, b: u16)
    requires
        a <= b,
    ensures
        a / 58 <= b / 58,
{
}

/// Where a measurement stands.
#[derive(Clone, Copy, Debug, PartialEq, Eq, Structural)]
pub enum EchoPhase {
    /// Trigger sent; waiting for the echo line to go high.
    AwaitRise,
    /// Echo line is high; counting microseconds.
    Timing,
    /// The measurement is over.
    Finished,
}

/// What the caller does after handing a sample of the echo line to the timer.
#[derive(Clone, Copy, Debug, PartialEq, Eq, Structural)]
pub enum EchoAction {
    /// Wait one microsecond, then sample the echo line again.
    WaitMicro,
    /// Sample the echo line again at once.
    SampleNow,
    /// The measurement is done: the distance in centimetres.
    Report(u16),
}

/// The decisions of one distance measurement, fed one echo sample at a time.
///
/// A sample is `Some(true)` for a high line, `Some(false)` for a low one and
/// `None` for a failed read, which ends either wait.
#[derive(Clone, Copy, Debug)]
pub struct EchoTimer {
    pub phase: EchoPhase,
    /// Microseconds waited for the rising edge.
    pub waited: u16,
    /// Microseconds the echo line has been seen high.
    pub pulse: u16,
}

impl EchoTimer {
    pub open spec fn wf(self) -> bool {
        self.waited <= RISE_WAIT_LIMIT && self.pulse <= PULSE_LIMIT
    }

    pub open spec fn initial() -> EchoTimer {
        EchoTimer { phase: EchoPhase::AwaitRise, waited: 0, pulse: 0 }
    }

    /// The timer after one sample, and what the caller does next.
    pub open spec fn next(self, level: Option<bool>) -> (EchoTimer, EchoAction) {
        match self.phase {
            EchoPhase::AwaitRise => {
                if level == Some(false) && self.waited < RISE_WAIT_LIMIT {
                    (EchoTimer { waited: (self.waited + 1) as u16, ..self }, EchoAction::WaitMicro)
                } else {
                    (EchoTimer { phase: EchoPhase::Timing, ..self }, EchoAction::SampleNow)
                }
            },
            EchoPhase::Timing => {
                if level == Some(true) && self.pulse < PULSE_LIMIT {
                    (EchoTimer { pulse: (self.pulse + 1) as u16, ..self }, EchoAction::WaitMicro)
                } else {
                    (
                        EchoTimer { phase: EchoPhase::Finished, ..self },
                        EchoAction::Report(self.pulse / 58),
                    )
                }
            },
            EchoPhase::Finished => (self, EchoAction::Report(self.pulse / 58)),
        }
    }

    /// The timer after a run of samples.
    pub open spec fn run(self, levels: Seq<Option<bool>>) -> EchoTimer
        decreases levels.len(),
    {
        if levels.len() == 0 {
            self
        } else {
            self.next(levels[0]).0.run(levels.skip(1))
        }
    }

    /// Most samples still needed before the timer finishes.
    pub open spec fn budget(self) -> nat {
        match self.phase {
            EchoPhase::AwaitRise => ((RISE_WAIT_LIMIT - self.waited) + 1 + PULSE_LIMIT + 1) as nat,
            EchoPhase::Timing => ((PULSE_LIMIT - self.pulse) + 1) as nat,
            EchoPhase::Finished => 0,
        }
    }

    /// A timer for a measurement whose trigger pulse has just been sent.
    pub fn new() -> (r: EchoTimer)
        ensures
            r == EchoTimer::initial(),
            r.wf(),
    {
        EchoTimer { phase: EchoPhase::AwaitRise, waited: 0, pulse: 0 }
    }

    /// Takes one sample of the echo line and says what to do next.
    pub fn step(&mut self, level: Option<bool>) -> (r: EchoAction)
        requires
            old(self).wf(),
        ensures
            (*final(self), r) == old(self).next(level),
            final(self).wf(),
    {
        match self.phase {
            EchoPhase::AwaitRise => {
                if level == Some(false) && self.waited < RISE_WAIT_LIMIT {
                    self.waited = self.waited + 1;
                    EchoAction::WaitMicro
                } else {
                    self.phase = EchoPhase::Timing;
                    EchoAction::SampleNow
                }
            },
            EchoPhase::Timing => {
                if level == Some(true) && self.pulse < PULSE_LIMIT {
                    self.pulse = self.pulse + 1;
                    EchoAction::WaitMicro
                } else {
                    self.phase = EchoPhase::Finished;
                    EchoAction::Report(distance(self.pulse))
                }
            },
            EchoPhase::Finished => EchoAction::Report(distance(self.pulse)),
        }
    }
}

/// Each sample either finishes the timer or uses up some of its budget.
pub proof fn lemma_step_spends_budget(t: EchoTimer, level: Option<bool>)
    requires
        t.wf(),
    ensures
        t.next(level).0.wf(),
        t.phase == EchoPhase::Finished ==> t.next(level).0 == t,
        t.phase != EchoPhase::Finished ==> t.next(level).0.budget() < t.budget(),
{
}

/// A timer with no more samples than its budget to go has finished.
pub proof fn lemma_run_finishes(t: EchoTimer, levels: Seq<Option<bool>>)
    requires
        t.wf(),
        levels.len() >= t.budget(),
    ensures
        t.run(levels).phase == EchoPhase::Finished,
    decreases levels.len(),
{
    if levels.len() == 0 {
    } else {
        lemma_step_spends_budget(t, levels[0]);
        lemma_run_finishes(t.next(levels[0]).0, levels.skip(1));
    }
}

/// Whatever the echo line does, a measurement is over after `MAX_SAMPLES`
/// samples: no stuck sensor line can stall the caller.
pub proof fn lemma_measurement_bounded(levels: Seq<Option<bool>>)
    requires
        levels.len() >= MAX_SAMPLES,
    ensures
        EchoTimer::initial().run(levels).phase == EchoPhase::Finished,
{
    lemma_run_finishes(EchoTimer::initial(), levels);
}

} // verus!
