//! The lazy, at-most-once configuration state machine.
//!
//! A page must run exactly one signing + host-configure handshake before any
//! capability call. The state machine decides, for each caller, whether it
//! runs the handshake, may proceed at once, or must fail fast because
//! another caller's handshake is in flight. The runtime is a single-threaded
//! event loop, so "concurrency" is the interleaving of asynchronous callers;
//! the embedding application performs the asynchronous handshake itself and
//! reports its outcome back through [`ConfigGate::finish`].
//!
//! The state machine is an explicit, injectable object rather than an implicit
//! process-wide variable, so independent instances can be constructed and
//! driven; an embedding shares one instance process-wide.

use vstd::prelude::*;

verus! {

/// The tri-state lifecycle of the configuration handshake. It never reverts
/// to `Uninitialized` within the life of a page.
#[derive(Clone, Copy, Debug, PartialEq, Eq, Structural)]
pub enum InitState {
    /// No handshake has been attempted.
    Uninitialized,
    /// A caller's handshake is in flight (or has failed; see
    /// [`ConfigGate::finish`]).
    Initializing,
    /// A handshake succeeded; terminal.
    Initialized,
}

/// What a caller learns from [`ConfigGate::begin`].
#[derive(Clone, Copy, Debug, PartialEq, Eq, Structural)]
pub enum ConfigStep {
    /// This caller won the transition out of `Uninitialized`: it must run
    /// the handshake and report the outcome through [`ConfigGate::finish`].
    RunHandshake,
    /// Configuration already succeeded: proceed at once, with no further
    /// network or host activity.
    AlreadyConfigured,
    /// Another caller's handshake is in flight: fail fast with
    /// [`crate::error::JSApiError::StillInitializing`]. Callers are not
    /// queued and do not wait.
    Busy,
}

/// The state after one call of [`ConfigGate::begin`].
pub open spec fn begin_state(s: InitState) -> InitState {
    match s {
        InitState::Uninitialized => InitState::Initializing,
        _ => s,
    }
}

/// What one call of [`ConfigGate::begin`] tells its caller.
pub open spec fn begin_step(s: InitState) -> ConfigStep {
    match s {
        InitState::Uninitialized => ConfigStep::RunHandshake,
        InitState::Initializing => ConfigStep::Busy,
        InitState::Initialized => ConfigStep::AlreadyConfigured,
    }
}

/// The state after the winning caller reports its handshake outcome.
pub open spec fn finish_state(s: InitState, success: bool) -> InitState {
    if success {
        InitState::Initialized
    } else {
        s
    }
}

/// The configuration state machine: holds the lifecycle state and hands out the
/// single right to run the handshake.
pub struct ConfigGate {
    state: InitState,
}

impl View for ConfigGate {
    type V = InitState;

    closed spec fn view(&self) -> InitState {
        self.state
    }
}

impl ConfigGate {
    /// A fresh state machine: nothing attempted yet.
    pub fn new() -> (g: Self)
        ensures
            g@ == InitState::Uninitialized,
    {
        ConfigGate { state: InitState::Uninitialized }
    }

    /// The lifecycle state reached so far.
    pub fn state(&self) -> (s: InitState)
        ensures
            s == self@,
    {
        self.state
    }

    /// One caller checks in. The single transition out of `Uninitialized`
    /// happens here and nowhere else, so among any number of interleaved
    /// callers exactly the first wins the right to run the handshake; every
    /// later caller sees `Busy` until the winner finishes, and
    /// `AlreadyConfigured` ever after.
    pub fn begin(&mut self) -> (step: ConfigStep)
        ensures
            final(self)@ == begin_state(old(self)@),
            step == begin_step(old(self)@),
    {
        match self.state {
            InitState::Uninitialized => {
                self.state = InitState::Initializing;
                ConfigStep::RunHandshake
            },
            InitState::Initializing => ConfigStep::Busy,
            InitState::Initialized => ConfigStep::AlreadyConfigured,
        }
    }

    /// The winning caller reports whether its handshake succeeded. Success
    /// moves the lifecycle to `Initialized`, terminally.
    ///
    /// A failed handshake deliberately leaves the lifecycle at `Initializing`:
    /// later callers keep failing fast rather than retry the handshake, and
    /// only a forced reconfiguration — which bypasses the state machine — can
    /// still reach the host. Rolling back to `Uninitialized` to allow retries
    /// would be the plausible alternative; this crate fixes the fail-fast
    /// reading and records that choice here.
    pub fn finish(&mut self, success: bool)
        requires
            old(self)@ == InitState::Initializing,
        ensures
            final(self)@ == finish_state(old(self)@, success),
    {
        if success {
            self.state = InitState::Initialized;
        }
    }
}

/// The state after `n` interleaved callers have each called
/// [`ConfigGate::begin`] once, none of them having finished yet.
pub open spec fn state_after_begins(s: InitState, n: nat) -> InitState
    decreases n,
{
    if n == 0 {
        s
    } else {
        begin_state(state_after_begins(s, (n - 1) as nat))
    }
}

/// How many of `n` such callers were told to run the handshake.
pub open spec fn handshakes_begun(s: InitState, n: nat) -> nat
    decreases n,
{
    if n == 0 {
        0
    } else {
        handshakes_begun(s, (n - 1) as nat) + (
        if begin_step(state_after_begins(s, (n - 1) as nat)) is RunHandshake {
            1nat
        } else {
            0nat
        })
    }
}

/// Law: however many callers check in before any handshake resolves,
/// starting from `Uninitialized`, exactly one of them is told to run the
/// handshake — the first — and every later one fails fast with `Busy`;
/// only that first caller moves the state away from `Uninitialized`.
pub proof fn lemma_exactly_one_handshake(n: nat)
    requires
        n >= 1,
    ensures
        handshakes_begun(InitState::Uninitialized, n) == 1,
        state_after_begins(InitState::Uninitialized, n) == InitState::Initializing,
        begin_step(InitState::Uninitialized) is RunHandshake,
        forall|i: nat|
            1 <= i < n ==> begin_step(
                #[trigger] state_after_begins(InitState::Uninitialized, i),
            ) is Busy,
    decreases n,
{
    if n == 1 {
        assert(state_after_begins(InitState::Uninitialized, 0) == InitState::Uninitialized);
        assert(handshakes_begun(InitState::Uninitialized, 0) == 0);
    } else {
        lemma_exactly_one_handshake((n - 1) as nat);
        assert(begin_step(state_after_begins(InitState::Uninitialized, (n - 1) as nat))
            is Busy);
    }
}

/// Law: once the lifecycle is `Initialized` it stays so, and arbitrarily
/// many further callers all proceed at once — none is ever told to run
/// another handshake, so no further network or host activity happens.
pub proof fn lemma_initialized_is_terminal(n: nat)
    ensures
        state_after_begins(InitState::Initialized, n) == InitState::Initialized,
        handshakes_begun(InitState::Initialized, n) == 0,
        forall|i: nat|
            i < n ==> begin_step(
                #[trigger] state_after_begins(InitState::Initialized, i),
            ) is AlreadyConfigured,
    decreases n,
{
    if n > 0 {
        lemma_initialized_is_terminal((n - 1) as nat);
    }
}

} // verus!
