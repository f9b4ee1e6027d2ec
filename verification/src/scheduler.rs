use vstd::prelude::*;

verus! {

/// Seconds waited after a login attempt before the connectivity re-check.
pub const POST_ATTEMPT_WAIT_SECS: u64 = 1;

/// Seconds between consecutive login attempts while still offline; this
/// spacing keeps rapid repeated submissions from triggering a ban.
pub const INTER_ATTEMPT_WAIT_SECS: u64 = 5;

/// Seconds between connectivity checks while online.
pub const IDLE_WAIT_SECS: u64 = 60;

/// The states of the retry scheduler. `CheckingOnline` is the initial state
/// and `Cancelled` the only terminal one, reached only through the
/// cancellation signal.
#[derive(Debug, Clone, Copy, PartialEq, Eq, Structural)]
pub enum State {
    CheckingOnline,
    AttemptingLogin,
    PostAttemptPause,
    InterAttemptPause,
    IdlePolling,
    Cancelled,
}

/// What the driver reports back after carrying out the action the current
/// state asked for.
#[derive(Debug, Clone, Copy, PartialEq, Eq, Structural)]
pub enum Event {
    /// A connectivity probe finished with this answer.
    ProbeDone { online: bool },
    /// One whole login attempt finished; failures are logged, never fatal.
    AttemptDone { success: bool },
    /// The cancellation signal arrived during a wait.
    Quit,
    /// A wait ran its full course and the re-check probe gave this answer.
    ElapsedProbed { online: bool },
    /// A wait ran its full course; this state re-checks nothing.
    Elapsed,
}

/// What the scheduler asks the driver to do in the current state.
#[derive(Debug, Clone, Copy, PartialEq, Eq, Structural)]
pub enum Action {
    /// Probe connectivity and answer with `ProbeDone`.
    Probe,
    /// Run one whole login attempt and answer with `AttemptDone`.
    Attempt,
    /// Block on the cancellation channel for up to `secs` seconds; answer
    /// `Quit` if the signal arrives, else probe and answer `ElapsedProbed`.
    WaitThenProbe { secs: u64 },
    /// Block on the cancellation channel for up to `secs` seconds; answer
    /// `Quit` if the signal arrives, else `Elapsed`.
    Wait { secs: u64 },
    /// The loop is over: return cleanly, with no error.
    Finish,
}

/// The action each state asks for.
pub open spec fn action_spec(s: State) -> Action {
    match s {
        State::CheckingOnline => Action::Probe,
        State::AttemptingLogin => Action::Attempt,
        State::PostAttemptPause => (Action::WaitThenProbe { secs: POST_ATTEMPT_WAIT_SECS }),
        State::InterAttemptPause => (Action::Wait { secs: INTER_ATTEMPT_WAIT_SECS }),
        State::IdlePolling => (Action::WaitThenProbe { secs: IDLE_WAIT_SECS }),
        State::Cancelled => Action::Finish,
    }
}

pub fn action_of(s: State) -> (a: Action)
    ensures
        a == action_spec(s),
{
    match s {
        State::CheckingOnline => Action::Probe,
        State::AttemptingLogin => Action::Attempt,
        State::PostAttemptPause => Action::WaitThenProbe { secs: POST_ATTEMPT_WAIT_SECS },
        State::InterAttemptPause => Action::Wait { secs: INTER_ATTEMPT_WAIT_SECS },
        State::IdlePolling => Action::WaitThenProbe { secs: IDLE_WAIT_SECS },
        State::Cancelled => Action::Finish,
    }
}

/// Whether `e` is an answer the driver can give to the action state `s`
/// asks for. `Cancelled` asks for nothing, so nothing answers it: a run
/// ends there.
pub open spec fn answers(s: State, e: Event) -> bool {
    match s {
        State::CheckingOnline => e is ProbeDone,
        State::AttemptingLogin => e is AttemptDone,
        State::PostAttemptPause => e is Quit || e is ElapsedProbed,
        State::InterAttemptPause => e is Quit || e is Elapsed,
        State::IdlePolling => e is Quit || e is ElapsedProbed,
        State::Cancelled => false,
    }
}

/// The transition relation of the scheduler. An event that does not answer
/// the state's action leaves the state unchanged; a well-formed run never
/// contains one.
pub open spec fn step_spec(s: State, e: Event) -> State {
    match (s, e) {
        (State::CheckingOnline, Event::ProbeDone { online }) => if online {
            State::IdlePolling
        } else {
            State::AttemptingLogin
        },
        (State::AttemptingLogin, Event::AttemptDone { .. }) => State::PostAttemptPause,
        (State::PostAttemptPause, Event::Quit) => State::Cancelled,
        (State::PostAttemptPause, Event::ElapsedProbed { online }) => if online {
            State::IdlePolling
        } else {
            State::InterAttemptPause
        },
        (State::InterAttemptPause, Event::Quit) => State::Cancelled,
        (State::InterAttemptPause, Event::Elapsed) => State::AttemptingLogin,
        (State::IdlePolling, Event::Quit) => State::Cancelled,
        (State::IdlePolling, Event::ElapsedProbed { online }) => if online {
            State::IdlePolling
        } else {
            State::AttemptingLogin
        },
        (State::Cancelled, _) => State::Cancelled,
        _ => s,
    }
}

pub fn step(s: State, e: Event) -> (r: State)
    ensures
        r == step_spec(s, e),
{
    match (s, e) {
        (State::CheckingOnline, Event::ProbeDone { online }) => if online {
            State::IdlePolling
        } else {
            State::AttemptingLogin
        },
        (State::AttemptingLogin, Event::AttemptDone { .. }) => State::PostAttemptPause,
        (State::PostAttemptPause, Event::Quit) => State::Cancelled,
        (State::PostAttemptPause, Event::ElapsedProbed { online }) => if online {
            State::IdlePolling
        } else {
            State::InterAttemptPause
        },
        (State::InterAttemptPause, Event::Quit) => State::Cancelled,
        (State::InterAttemptPause, Event::Elapsed) => State::AttemptingLogin,
        (State::IdlePolling, Event::Quit) => State::Cancelled,
        (State::IdlePolling, Event::ElapsedProbed { online }) => if online {
            State::IdlePolling
        } else {
            State::AttemptingLogin
        },
        (State::Cancelled, _) => State::Cancelled,
        _ => s,
    }
}

/// Seconds of waiting that a step is known to consume in full: a pause state
/// whose wait ran its whole course consumed its budget, and every other
/// step — a probe, an attempt, or a cancelled wait — counts as zero.
pub open spec fn elapsed_secs(s: State, e: Event) -> nat {
    match (s, e) {
        (State::PostAttemptPause, Event::ElapsedProbed { .. }) => POST_ATTEMPT_WAIT_SECS as nat,
        (State::InterAttemptPause, Event::Elapsed) => INTER_ATTEMPT_WAIT_SECS as nat,
        (State::IdlePolling, Event::ElapsedProbed { .. }) => IDLE_WAIT_SECS as nat,
        _ => 0,
    }
}

/// The state after the first `k` events of a run that starts at `s0`.
pub open spec fn state_at(s0: State, es: Seq<Event>, k: int) -> State
    decreases k when k >= 0
{
    if k <= 0 {
        s0
    } else {
        step_spec(state_at(s0, es, k - 1), es[k - 1])
    }
}

/// A run is well formed when every event answers the action of the state it
/// was delivered in; the driver builds every event that way.
pub open spec fn well_formed(s0: State, es: Seq<Event>) -> bool {
    forall|k: int| 0 <= k < es.len() ==> answers(#[trigger] state_at(s0, es, k), es[k])
}

/// Seconds of waiting known to be consumed by the steps `i` up to `j`.
pub open spec fn elapsed_between(s0: State, es: Seq<Event>, i: int, j: int) -> nat
    decreases j - i when i <= j
{
    if i >= j {
        0
    } else {
        elapsed_secs(state_at(s0, es, i), es[i]) + elapsed_between(s0, es, i + 1, j)
    }
}

proof fn lemma_elapsed_snoc(s0: State, es: Seq<Event>, i: int, j: int)
    requires
        0 <= i <= j < es.len(),
    ensures
        elapsed_between(s0, es, i, j + 1) == elapsed_between(s0, es, i, j) + elapsed_secs(
            state_at(s0, es, j), es[j]),
    decreases j - i,
{
    if i == j {
        assert(elapsed_between(s0, es, j + 1, j + 1) == 0);
        assert(elapsed_between(s0, es, i, j + 1) == elapsed_secs(state_at(s0, es, i), es[i])
            + elapsed_between(s0, es, i + 1, j + 1));
    } else {
        lemma_elapsed_snoc(s0, es, i + 1, j);
        assert(elapsed_between(s0, es, i, j + 1) == elapsed_secs(state_at(s0, es, i), es[i])
            + elapsed_between(s0, es, i + 1, j + 1));
        assert(elapsed_between(s0, es, i, j) == elapsed_secs(state_at(s0, es, i), es[i])
            + elapsed_between(s0, es, i + 1, j));
    }
}

/// A lower bound, from each state, on the waiting that must still be
/// consumed before the scheduler can enter `AttemptingLogin` again.
pub open spec fn attempt_gap(s: State) -> nat {
    match s {
        State::CheckingOnline => 0,
        State::AttemptingLogin => 6,
        State::PostAttemptPause => 6,
        State::InterAttemptPause => 5,
        State::IdlePolling => 60,
        State::Cancelled => 61,
    }
}

proof fn lemma_step_gap(s: State, e: Event)
    requires
        answers(s, e),
    ensures
        elapsed_secs(s, e) + attempt_gap(step_spec(s, e)) >= attempt_gap(s),
{
}

proof fn lemma_gap_from_attempt(s0: State, es: Seq<Event>, i: int, k: int)
    requires
        well_formed(s0, es),
        0 <= i < k <= es.len(),
        state_at(s0, es, i) == State::AttemptingLogin,
    ensures
        elapsed_between(s0, es, i, k) + attempt_gap(state_at(s0, es, k)) >= 6,
    decreases k - i,
{
    if k == i + 1 {
        assert(answers(state_at(s0, es, i), es[i]));
        assert(state_at(s0, es, k) == State::PostAttemptPause);
        lemma_elapsed_snoc(s0, es, i, i);
    } else {
        lemma_gap_from_attempt(s0, es, i, k - 1);
        lemma_elapsed_snoc(s0, es, i, k - 1);
        assert(answers(state_at(s0, es, k - 1), es[k - 1]));
        lemma_step_gap(state_at(s0, es, k - 1), es[k - 1]);
    }
}

proof fn lemma_checking_online_is_initial_only(s0: State, es: Seq<Event>, k: int)
    requires
        well_formed(s0, es),
        1 <= k <= es.len(),
    ensures
        state_at(s0, es, k) != State::CheckingOnline,
{
    assert(answers(state_at(s0, es, k - 1), es[k - 1]));
}

/// The scheduler never performs two login attempts back to back: between any
/// two passages through `AttemptingLogin` in a well-formed run, its waits
/// consume at least six seconds in full; the state a re-entry comes from is
/// one of the two pause states, whose wait ran its whole course and so put
/// at least the five-second spacing right before the new attempt.
pub proof fn lemma_attempts_separated(s0: State, es: Seq<Event>, i: int, j: int)
    requires
        well_formed(s0, es),
        0 <= i < j <= es.len(),
        state_at(s0, es, i) == State::AttemptingLogin,
        state_at(s0, es, j) == State::AttemptingLogin,
    ensures
        elapsed_between(s0, es, i, j) >= 6,
        state_at(s0, es, j - 1) == State::InterAttemptPause || state_at(s0, es, j - 1)
            == State::IdlePolling,
        elapsed_secs(state_at(s0, es, j - 1), es[j - 1]) >= 5,
{
    assert(answers(state_at(s0, es, i), es[i]));
    if j == i + 1 {
        assert(state_at(s0, es, j) == State::PostAttemptPause);
        assert(false);
    } else {
        lemma_gap_from_attempt(s0, es, i, j - 1);
        lemma_elapsed_snoc(s0, es, i, j - 1);
        let sp = state_at(s0, es, j - 1);
        assert(answers(sp, es[j - 1]));
        assert(step_spec(sp, es[j - 1]) == State::AttemptingLogin);
        lemma_step_gap(sp, es[j - 1]);
        lemma_checking_online_is_initial_only(s0, es, j - 1);
    }
}

/// Immediately after a login attempt the scheduler always pauses: the only
/// successor of `AttemptingLogin` in a well-formed run is the one-second
/// post-attempt pause.
pub proof fn lemma_attempt_then_pause(s: State, e: Event)
    requires
        s == State::AttemptingLogin,
        answers(s, e),
    ensures
        step_spec(s, e) == State::PostAttemptPause,
{
}

/// Cancellation during any pause state ends the loop at once: the wait is
/// cut short — the step consumes none of the remaining budget — and the
/// machine reaches its terminal state, whose only action is to finish.
pub proof fn lemma_quit_cancels(s: State)
    requires
        s == State::PostAttemptPause || s == State::InterAttemptPause || s == State::IdlePolling,
    ensures
        step_spec(s, Event::Quit) == State::Cancelled,
        elapsed_secs(s, Event::Quit) == 0,
        action_spec(State::Cancelled) == Action::Finish,
{
}

/// The loop can end no other way: short of the terminal state the machine is
/// never stuck — every state has an answer the driver can give — and its only
/// finishing action belongs to the terminal state.
pub proof fn lemma_never_stuck(s: State)
    requires
        s != State::Cancelled,
    ensures
        exists|e: Event| answers(s, e),
        action_spec(s) != Action::Finish,
{
    if s == State::CheckingOnline {
        assert(answers(s, Event::ProbeDone { online: true }));
    } else if s == State::AttemptingLogin {
        assert(answers(s, Event::AttemptDone { success: true }));
    } else {
        assert(answers(s, Event::Quit));
    }
}

/// The terminal state is reached only through the cancellation signal: no
/// probe answer, attempt outcome or elapsed wait ever cancels the loop.
pub proof fn lemma_only_quit_cancels(s: State, e: Event)
    requires
        s != State::Cancelled,
        answers(s, e),
        step_spec(s, e) == State::Cancelled,
    ensures
        e == Event::Quit,
{
}

/// After cancellation nothing further happens: `Cancelled` answers no event,
/// so it can only be the last state of a well-formed run — no probe and no
/// attempt follows it.
pub proof fn lemma_cancelled_is_final(s0: State, es: Seq<Event>, k: int)
    requires
        well_formed(s0, es),
        0 <= k <= es.len(),
        state_at(s0, es, k) == State::Cancelled,
    ensures
        k == es.len(),
{
    if k < es.len() {
        assert(answers(state_at(s0, es, k), es[k]));
    }
}

} // verus!
