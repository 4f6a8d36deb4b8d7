use vstd::prelude::*;

verus! {

/// Where a dispatcher stands. A run goes `Constructed`, `StartingTick`,
/// `StartingChange`, `Running`; a failed start ends in `Failed`, a stop in
/// `Stopped`. Neither of the last two is left again.
#[derive(Debug, Clone, Copy, PartialEq, Eq, Structural)]
pub enum Phase {
    Constructed,
    StartingTick,
    StartingChange,
    Running,
    Failed,
    Stopped,
}

/// The outcome of starting one of the two sources.
#[derive(Debug, Clone, Copy, PartialEq, Eq, Structural)]
pub enum Startup {
    TickStarted,
    TickFailed,
    ChangeStarted,
    ChangeFailed,
}

/// What the host does next while a run starts up.
#[derive(Debug, Clone, Copy, PartialEq, Eq, Structural)]
pub enum Action {
    /// Start the periodic source.
    StartTick,
    /// Start the change source.
    StartChange,
    /// Both sources are up: spawn the merge loop and hand out its channel.
    SpawnMerge,
    /// The run fails; first stop the sources that are marked.
    Abort { stop_tick: bool, stop_change: bool },
    /// Out of turn (a second run, or an outcome nobody waits for): do nothing.
    Ignore,
}

/// Whether the periodic source is up in a phase.
pub open spec fn tick_up(p: Phase) -> bool {
    p == Phase::StartingChange || p == Phase::Running
}

/// Whether the change source is up in a phase.
pub open spec fn change_up(p: Phase) -> bool {
    p == Phase::Running
}

/// A call of `run`: accepted once, from a freshly constructed dispatcher.
pub open spec fn run_step(p: Phase) -> (Phase, Action) {
    if p == Phase::Constructed {
        (Phase::StartingTick, Action::StartTick)
    } else {
        (p, Action::Ignore)
    }
}

/// The outcome of a source start, in the phase that waits for it. A stop that
/// came while starting makes the run fail, and whatever came up is stopped.
pub open spec fn startup_step(p: Phase, s: Startup) -> (Phase, Action) {
    match (p, s) {
        (Phase::StartingTick, Startup::TickStarted) => (Phase::StartingChange, Action::StartChange),
        (Phase::StartingTick, Startup::TickFailed) => (
            Phase::Failed,
            Action::Abort { stop_tick: false, stop_change: false },
        ),
        (Phase::StartingChange, Startup::ChangeStarted) => (Phase::Running, Action::SpawnMerge),
        (Phase::StartingChange, Startup::ChangeFailed) => (
            Phase::Failed,
            Action::Abort { stop_tick: true, stop_change: false },
        ),
        (Phase::Stopped, Startup::TickStarted) => (
            Phase::Stopped,
            Action::Abort { stop_tick: true, stop_change: false },
        ),
        (Phase::Stopped, Startup::TickFailed) => (
            Phase::Stopped,
            Action::Abort { stop_tick: false, stop_change: false },
        ),
        (Phase::Stopped, Startup::ChangeStarted) => (
            Phase::Stopped,
            Action::Abort { stop_tick: true, stop_change: true },
        ),
        (Phase::Stopped, Startup::ChangeFailed) => (
            Phase::Stopped,
            Action::Abort { stop_tick: true, stop_change: false },
        ),
        _ => (p, Action::Ignore),
    }
}

/// A call of `stop`: from a run that is starting or running, the phase
/// becomes `Stopped` and cancellation is to be signalled (`true`); from any
/// other phase nothing changes.
pub open spec fn stop_step(p: Phase) -> (Phase, bool) {
    if p == Phase::StartingTick || p == Phase::StartingChange || p == Phase::Running {
        (Phase::Stopped, true)
    } else {
        (p, false)
    }
}

/// The lifecycle of one dispatcher: which calls are accepted, and what each
/// start-up outcome leads to.
pub struct Lifecycle {
    phase: Phase,
}

impl Lifecycle {
    pub closed spec fn spec_phase(&self) -> Phase {
        self.phase
    }

    /// A dispatcher that has not run.
    pub fn new() -> (r: Self)
        ensures
            r.spec_phase() == Phase::Constructed,
    {
        Lifecycle { phase: Phase::Constructed }
    }

    /// The current phase.
    pub fn phase(&self) -> (r: Phase)
        ensures
            r == self.spec_phase(),
    {
        self.phase
    }

    /// A request to run. Only the first one, on a dispatcher that was neither
    /// run nor stopped, starts anything.
    pub fn run(&mut self) -> (r: Action)
        ensures
            (final(self).spec_phase(), r) == run_step(old(self).spec_phase()),
    {
        if self.phase == Phase::Constructed {
            self.phase = Phase::StartingTick;
            Action::StartTick
        } else {
            Action::Ignore
        }
    }

    /// The outcome of starting a source.
    pub fn on_startup(&mut self, s: Startup) -> (r: Action)
        ensures
            (final(self).spec_phase(), r) == startup_step(old(self).spec_phase(), s),
    {
        match (self.phase, s) {
            (Phase::StartingTick, Startup::TickStarted) => {
                self.phase = Phase::StartingChange;
                Action::StartChange
            },
            (Phase::StartingTick, Startup::TickFailed) => {
                self.phase = Phase::Failed;
                Action::Abort { stop_tick: false, stop_change: false }
            },
            (Phase::StartingChange, Startup::ChangeStarted) => {
                self.phase = Phase::Running;
                Action::SpawnMerge
            },
            (Phase::StartingChange, Startup::ChangeFailed) => {
                self.phase = Phase::Failed;
                Action::Abort { stop_tick: true, stop_change: false }
            },
            (Phase::Stopped, Startup::TickStarted) => Action::Abort {
                stop_tick: true,
                stop_change: false,
            },
            (Phase::Stopped, Startup::TickFailed) => Action::Abort {
                stop_tick: false,
                stop_change: false,
            },
            (Phase::Stopped, Startup::ChangeStarted) => Action::Abort {
                stop_tick: true,
                stop_change: true,
            },
            (Phase::Stopped, Startup::ChangeFailed) => Action::Abort {
                stop_tick: true,
                stop_change: false,
            },
            _ => Action::Ignore,
        }
    }

    /// A request to stop. Returns whether cancellation is to be signalled to
    /// the sources and the merge loop; calling it again changes nothing.
    pub fn stop(&mut self) -> (r: bool)
        ensures
            (final(self).spec_phase(), r) == stop_step(old(self).spec_phase()),
    {
        match self.phase {
            Phase::StartingTick | Phase::StartingChange | Phase::Running => {
                self.phase = Phase::Stopped;
                true
            },
            _ => false,
        }
    }
}

/// Which sources are up at the moment a start-up outcome arrives: the change
/// source is started only once the periodic one is up.
pub open spec fn up_at(s: Startup) -> (bool, bool) {
    match s {
        Startup::TickStarted => (true, false),
        Startup::TickFailed => (false, false),
        Startup::ChangeStarted => (true, true),
        Startup::ChangeFailed => (true, false),
    }
}

/// No partial start-up: whenever a start-up outcome makes the run fail
/// (a source that did not start, or a stop that came first), exactly the
/// sources that are up are stopped, none is up afterwards, and the
/// dispatcher never runs again.
pub proof fn lemma_aborted_start_leaves_nothing_up(p: Phase, s: Startup)
    ensures
        ({
            let (q, a) = startup_step(p, s);
            (q == Phase::Failed && p != Phase::Failed ==> a is Abort) && (a is Abort ==> {
                &&& a == Action::Abort { stop_tick: up_at(s).0, stop_change: up_at(s).1 }
                &&& !tick_up(q)
                &&& !change_up(q)
                &&& run_step(q) == (q, Action::Ignore)
            })
        }),
        (p == Phase::StartingChange && s == Startup::ChangeFailed) ==> startup_step(p, s) == (
            Phase::Failed,
            Action::Abort { stop_tick: true, stop_change: false },
        ),
{
}

/// Stopping twice is stopping once: the second call signals nothing and
/// changes nothing.
pub proof fn lemma_stop_idempotent(p: Phase)
    ensures
        stop_step(stop_step(p).0) == (stop_step(p).0, false),
{
}

/// The source an event came from.
#[derive(Debug, Clone, Copy, PartialEq, Eq, Structural)]
pub enum Source {
    Tick,
    FileChange,
}

/// What the merge loop's wait returned: the cancellation signal fired, or one
/// of the two sources produced an event.
#[derive(Debug, Clone, PartialEq, Eq)]
pub enum Wake<E> {
    Cancelled,
    Tick(E),
    FileChange(E),
}

/// What the merge loop does with a wake-up.
#[derive(Debug, Clone, PartialEq, Eq)]
pub enum Step<E> {
    /// Leave the loop; nothing more is forwarded.
    Exit,
    /// Forward the event, which came from the named source.
    Forward(Source, E),
}

/// One turn of the merge loop. Cancellation wins: once it is seen, either as
/// the wake-up or as already fired, or once the loop has exited, the turn
/// exits, even where an event is ready.
pub open spec fn merge_step<E>(finished: bool, cancelled: bool, wake: Wake<E>) -> (bool, Step<E>) {
    if finished || cancelled {
        (true, Step::Exit)
    } else {
        match wake {
            Wake::Cancelled => (true, Step::Exit),
            Wake::Tick(e) => (false, Step::Forward(Source::Tick, e)),
            Wake::FileChange(e) => (false, Step::Forward(Source::FileChange, e)),
        }
    }
}

/// The events that a run of turns forwards, in order.
pub open spec fn forwarded<E>(finished: bool, turns: Seq<(bool, Wake<E>)>) -> Seq<E>
    decreases turns.len(),
{
    if turns.len() == 0 {
        Seq::empty()
    } else {
        let (f2, step) = merge_step(finished, turns[0].0, turns[0].1);
        let rest = forwarded(f2, turns.drop_first());
        match step {
            Step::Forward(_, e) => seq![e].add(rest),
            Step::Exit => rest,
        }
    }
}

/// Whether a turn sees cancellation.
pub open spec fn sees_cancel<E>(turn: (bool, Wake<E>)) -> bool {
    turn.0 || turn.1 is Cancelled
}

/// A loop that has exited forwards nothing more.
pub proof fn lemma_nothing_after_exit<E>(turns: Seq<(bool, Wake<E>)>)
    ensures
        forwarded(true, turns) == Seq::<E>::empty(),
    decreases turns.len(),
{
    if turns.len() > 0 {
        lemma_nothing_after_exit(turns.drop_first());
    }
}

/// Cancellation precedence: once a turn sees cancellation, the loop forwards
/// nothing after it, whatever the sources still have ready; what it forwards
/// is what the turns before that one forwarded.
pub proof fn lemma_cancel_ends_forwarding<E>(finished: bool, turns: Seq<(bool, Wake<E>)>, i: int)
    requires
        0 <= i < turns.len(),
        sees_cancel(turns[i]),
    ensures
        forwarded(finished, turns) == forwarded(finished, turns.take(i)),
    decreases i,
{
    let (f2, _) = merge_step(finished, turns[0].0, turns[0].1);
    if i == 0 {
        lemma_nothing_after_exit(turns.drop_first());
        assert(turns.take(0) =~= Seq::<(bool, Wake<E>)>::empty());
    } else {
        lemma_cancel_ends_forwarding(f2, turns.drop_first(), i - 1);
        assert(turns.take(i).drop_first() =~= turns.drop_first().take(i - 1));
        assert(turns.take(i)[0] == turns[0]);
    }
}

/// The state of one merge loop: whether it has exited.
pub struct MergeLoop {
    finished: bool,
}

impl MergeLoop {
    pub closed spec fn spec_finished(&self) -> bool {
        self.finished
    }

    /// A loop that has not exited.
    pub fn new() -> (r: Self)
        ensures
            !r.spec_finished(),
    {
        MergeLoop { finished: false }
    }

    /// Whether the loop has exited.
    pub fn is_finished(&self) -> (r: bool)
        ensures
            r == self.spec_finished(),
    {
        self.finished
    }

    /// Decides one turn: `cancelled` is whether the cancellation signal has
    /// fired, `wake` what the wait returned.
    pub fn step<E>(&mut self, cancelled: bool, wake: Wake<E>) -> (r: Step<E>)
        ensures
            (final(self).spec_finished(), r) == merge_step(old(self).spec_finished(), cancelled, wake),
    {
        if self.finished || cancelled {
            self.finished = true;
            return Step::Exit;
        }
        match wake {
            Wake::Cancelled => {
                self.finished = true;
                Step::Exit
            },
            Wake::Tick(e) => Step::Forward(Source::Tick, e),
            Wake::FileChange(e) => Step::Forward(Source::FileChange, e),
        }
    }
}

} // verus!
