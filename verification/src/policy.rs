//! Threshold policy: the pure decision rule that maps a current peer count to
//! the action the controller should take, given a low/high watermark pair.

use vstd::prelude::*;

verus! {

/// Action decided by the threshold policy for one control-loop tick.
#[derive(Clone, Copy, Debug, PartialEq, Eq, Structural)]
pub enum Action {
    /// The peer count is under the low watermark: try to connect this many new peers.
    AcquirePeers(usize),
    /// The peer count is over the high watermark: ask this many peers to stop.
    ShedPeers(usize),
    /// The peer count is inside the band: do nothing this tick.
    NoOp,
}

/// Rejected controller configuration: the low watermark was above the high one.
#[derive(Clone, Copy, Debug, PartialEq, Eq, Structural)]
pub struct ConfigError {
    pub low: usize,
    pub high: usize,
}

/// An immutable low/high watermark pair with the invariant `low <= high`,
/// established once at construction and never violated afterwards.
#[derive(Clone, Copy, Debug)]
pub struct Threshold {
    low: usize,
    high: usize,
}

impl Threshold {
    /// The configured band, as a pair of mathematical integers.
    pub closed spec fn spec_low(self) -> int {
        self.low as int
    }

    /// The high watermark of the configured band.
    pub closed spec fn spec_high(self) -> int {
        self.high as int
    }

    /// Construction-time invariant: the band is not empty.
    pub open spec fn wf(self) -> bool {
        self.spec_low() <= self.spec_high()
    }

    /// Builds a threshold pair, rejecting any configuration whose low watermark
    /// exceeds its high watermark before any tick can run.
    pub fn new(low: usize, high: usize) -> (r: Result<Threshold, ConfigError>)
        ensures
            low <= high <==> r is Ok,
            r matches Ok(t) ==> t.wf() && t.spec_low() == low && t.spec_high() == high,
            r matches Err(e) ==> e.low == low && e.high == high,
    {
        if low <= high {
            Ok(Threshold { low, high })
        } else {
            Err(ConfigError { low, high })
        }
    }

    /// The low watermark.
    pub fn low(&self) -> (r: usize)
        ensures
            r == self.spec_low(),
    {
        self.low
    }

    /// The high watermark.
    pub fn high(&self) -> (r: usize)
        ensures
            r == self.spec_high(),
    {
        self.high
    }

    /// The decision an `evaluate` call returns for a given count: acquire up to
    /// the low watermark when under it, shed down to the high watermark when
    /// over it, and otherwise do nothing.
    pub open spec fn spec_evaluate(self, count: int) -> Action {
        if count < self.spec_low() {
            Action::AcquirePeers((self.spec_low() - count) as usize)
        } else if count > self.spec_high() {
            Action::ShedPeers((count - self.spec_high()) as usize)
        } else {
            Action::NoOp
        }
    }

    /// Pure, total decision function: maps the current peer count to the action
    /// that brings the count back into the configured band.
    pub fn evaluate(&self, current_count: usize) -> (r: Action)
        ensures
            r == self.spec_evaluate(current_count as int),
    {
        if current_count < self.low {
            Action::AcquirePeers(self.low - current_count)
        } else if current_count > self.high {
            Action::ShedPeers(current_count - self.high)
        } else {
            Action::NoOp
        }
    }

    /// Midpoint of the band. The surrounding system reserves this knob but the
    /// evaluate rule never consults it.
    pub fn mid_range(&self) -> (r: usize)
        requires
            self.wf(),
        ensures
            r == self.spec_low() + (self.spec_high() - self.spec_low()) / 2,
    {
        self.low + ((self.high - self.low) / 2)
    }
}

/// In a well-formed band, a count under the low watermark always yields an
/// acquisition of exactly the shortfall, and the requested amount is positive.
pub proof fn lemma_evaluate_low(t: Threshold, count: int)
    requires
        t.wf(),
        0 <= count < t.spec_low(),
    ensures
        t.spec_evaluate(count) == Action::AcquirePeers((t.spec_low() - count) as usize),
        t.spec_low() - count > 0,
{
}

/// In a well-formed band, a count over the high watermark always yields a
/// shedding of exactly the excess, and the requested amount is positive.
pub proof fn lemma_evaluate_high(t: Threshold, count: int)
    requires
        t.wf(),
        count > t.spec_high(),
    ensures
        t.spec_evaluate(count) == Action::ShedPeers((count - t.spec_high()) as usize),
        count - t.spec_high() > 0,
{
}

/// Any count inside the band yields no action at all.
pub proof fn lemma_evaluate_in_band(t: Threshold, count: int)
    requires
        t.spec_low() <= count <= t.spec_high(),
    ensures
        t.spec_evaluate(count) == Action::NoOp,
{
}

} // verus!
