//! Startup ordering.
//!
//! Bring-up happens in one fixed order: clocks, peripherals, the entropy
//! seed, the network stack and its runner, the readiness gate for the
//! static configuration, and only then the server tasks. The `Startup`
//! value makes each stage demand the one before it, and the trace law shows
//! that a system that reached `Serving` passed `ConfigUp` strictly earlier.

use vstd::prelude::*;

verus! {

/// The phases of bring-up, in the one order they may happen.
#[derive(Clone, Copy, Debug, PartialEq, Eq, Structural)]
pub enum Phase {
    /// Nothing is configured yet.
    PowerOn,
    /// The clock tree is resolved; peripherals may be initialized.
    ClocksConfigured,
    /// Peripherals run against the configured clocks.
    PeripheralsReady,
    /// The 64-bit seed was drawn from the entropy source.
    SeedDrawn,
    /// The network stack exists and its runner task is spawned.
    StackStarted,
    /// The static configuration is active; sockets may be opened.
    ConfigUp,
    /// The server tasks are accepting connections.
    Serving,
}

/// Position of a phase in the bring-up order.
pub open spec fn phase_rank(p: Phase) -> nat {
    match p {
        Phase::PowerOn => 0,
        Phase::ClocksConfigured => 1,
        Phase::PeripheralsReady => 2,
        Phase::SeedDrawn => 3,
        Phase::StackStarted => 4,
        Phase::ConfigUp => 5,
        Phase::Serving => 6,
    }
}

/// The startup sequence: its phase, and the seed once one was drawn.
pub struct Startup {
    /// Where bring-up stands.
    pub phase: Phase,
    /// The stack seed, present from `SeedDrawn` on; drawn once, never
    /// replaced.
    pub seed: Option<u64>,
}

impl Startup {
    /// From `SeedDrawn` on, the seed is held.
    pub open spec fn wf(self) -> bool {
        phase_rank(self.phase) >= 3 ==> self.seed is Some
    }

    /// A system at power-on: nothing configured, no seed.
    pub fn new() -> (s: Startup)
        ensures
            s.phase is PowerOn,
            s.seed is None,
            s.wf(),
    {
        Startup { phase: Phase::PowerOn, seed: None }
    }

    /// The clock tree was resolved and applied; only possible first.
    pub fn clocks_configured(&mut self)
        requires
            old(self).phase is PowerOn,
            old(self).wf(),
        ensures
            final(self).phase is ClocksConfigured,
            final(self).seed == old(self).seed,
            final(self).wf(),
    {
        self.phase = Phase::ClocksConfigured;
    }

    /// Peripherals were brought up, after the clocks and before anything
    /// touches them.
    pub fn peripherals_ready(&mut self)
        requires
            old(self).phase is ClocksConfigured,
            old(self).wf(),
        ensures
            final(self).phase is PeripheralsReady,
            final(self).seed == old(self).seed,
            final(self).wf(),
    {
        self.phase = Phase::PeripheralsReady;
    }

    /// The seed was drawn from the entropy source, once, after the
    /// peripherals and before the stack is built.
    pub fn seed_drawn(&mut self, seed: u64)
        requires
            old(self).phase is PeripheralsReady,
            old(self).wf(),
        ensures
            final(self).phase is SeedDrawn,
            final(self).seed == Some(seed),
            final(self).wf(),
    {
        self.phase = Phase::SeedDrawn;
        self.seed = Some(seed);
    }

    /// The stack was built around the seed and its runner task spawned.
    pub fn stack_started(&mut self)
        requires
            old(self).phase is SeedDrawn,
            old(self).wf(),
        ensures
            final(self).phase is StackStarted,
            final(self).seed == old(self).seed,
            final(self).wf(),
    {
        self.phase = Phase::StackStarted;
    }

    /// The readiness gate resolved: the static configuration is active and
    /// sockets may be opened from here on.
    pub fn config_up(&mut self)
        requires
            old(self).phase is StackStarted,
            old(self).wf(),
        ensures
            final(self).phase is ConfigUp,
            final(self).seed == old(self).seed,
            final(self).wf(),
    {
        self.phase = Phase::ConfigUp;
    }

    /// The server tasks were spawned; demands the readiness gate, so no
    /// task can accept before the configuration is up.
    pub fn begin_serving(&mut self)
        requires
            old(self).phase is ConfigUp,
            old(self).wf(),
        ensures
            final(self).phase is Serving,
            final(self).seed == old(self).seed,
            final(self).wf(),
    {
        self.phase = Phase::Serving;
    }
}

/// One legal bring-up step: directly to the next phase in order.
pub open spec fn startup_step(a: Phase, b: Phase) -> bool {
    phase_rank(b) == phase_rank(a) + 1
}

/// A bring-up history: starts at power-on and only ever takes legal steps.
pub open spec fn valid_trace(tr: Seq<Phase>) -> bool {
    &&& tr.len() > 0
    &&& tr[0] is PowerOn
    &&& forall|i: int| 0 <= i < tr.len() - 1 ==> #[trigger] startup_step(tr[i], tr[i + 1])
}

/// In a bring-up history, the phase at position `i` has rank `i`.
pub proof fn lemma_trace_rank(tr: Seq<Phase>, i: int)
    requires
        valid_trace(tr),
        0 <= i < tr.len(),
    ensures
        phase_rank(tr[i]) == i,
    decreases i,
{
    if i > 0 {
        lemma_trace_rank(tr, i - 1);
        assert(startup_step(tr[i - 1], tr[i]));
    }
}

/// Law: no server task accepts before the network stack is up — in every
/// bring-up history that reaches `Serving`, `ConfigUp` stands strictly
/// earlier.
pub proof fn lemma_serving_after_config_up(tr: Seq<Phase>, i: int)
    requires
        valid_trace(tr),
        0 <= i < tr.len(),
        tr[i] is Serving,
    ensures
        exists|j: int| 0 <= j < i && #[trigger] tr[j] is ConfigUp,
{
    lemma_trace_rank(tr, i);
    lemma_trace_rank(tr, i - 1);
    assert(tr[i - 1] is ConfigUp);
}

} // verus!
