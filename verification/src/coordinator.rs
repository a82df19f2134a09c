use vstd::prelude::*;

verus! {

/// The state of the process-wide capture session.
///
/// Transitions form a total order per capture episode:
/// `Idle -> Starting -> Active -> (Unsubscribing -> Active |
/// Unsubscribing -> ShuttingDown -> Idle)`.  No two episodes overlap: while
/// the state is not `Idle`, a new episode cannot begin.
#[derive(Clone, Copy, PartialEq, Eq, Structural, Debug)]
pub enum SessionState {
    /// No capture session exists.
    Idle,
    /// A subscriber won the race to start the session; the capture thread is
    /// being set up and the hooks are being installed.
    Starting,
    /// The session is live: the capture thread feeds the channel and the
    /// dispatcher delivers to the registry.
    Active,
    /// A registry mutation window is open: dispatch and mutation never
    /// interleave.
    Unsubscribing,
    /// The last subscriber left; the dispatcher and the capture thread are
    /// being torn down.
    ShuttingDown,
}

/// The outcome of an attempt to begin a capture episode.
#[derive(Clone, Copy, PartialEq, Eq, Structural, Debug)]
pub enum BeginOutcome {
    /// The caller won the race: it now owns the `Starting` state and must
    /// install the hooks.
    WonRace,
    /// An episode already exists; the caller must not start anything.
    AlreadyActive,
}

/// The lifecycle coordinator: the state machine gating session start and
/// stop, used by every subscribe and unsubscribe call and by the dispatcher.
///
/// The two `alive` flags and the two `spawned` counters model the threads an
/// episode owns: the capture thread that holds the hooks, and the dispatcher
/// that drains the channel.  Within one episode each is created exactly
/// once; the counters are reset when the coordinator returns to `Idle`, so
/// they always count the current episode.
pub struct Coordinator {
    /// The current session state.
    pub state: SessionState,
    /// Whether the episode's capture thread exists.
    pub capture_alive: bool,
    /// Whether the episode's dispatcher thread exists.
    pub dispatcher_alive: bool,
    /// How many capture threads the current episode has created.
    pub captures_spawned: u64,
    /// How many dispatcher threads the current episode has created.
    pub dispatchers_spawned: u64,
}

impl Coordinator {
    /// Well-formed: the threads an episode owns match its state. At most one
    /// capture thread and one dispatcher thread ever exist.
    pub open spec fn wf(&self) -> bool {
        match self.state {
            SessionState::Idle => {
                &&& !self.capture_alive
                &&& !self.dispatcher_alive
                &&& self.captures_spawned == 0
                &&& self.dispatchers_spawned == 0
            },
            SessionState::Starting => {
                &&& self.capture_alive
                &&& !self.dispatcher_alive
                &&& self.captures_spawned == 1
                &&& self.dispatchers_spawned == 0
            },
            SessionState::Active | SessionState::Unsubscribing => {
                &&& self.capture_alive
                &&& self.dispatcher_alive
                &&& self.captures_spawned == 1
                &&& self.dispatchers_spawned == 1
            },
            SessionState::ShuttingDown => {
                &&& self.capture_alive
                &&& self.captures_spawned == 1
                &&& self.dispatchers_spawned == 1
            },
        }
    }

    /// Creates the coordinator of a process that has no capture session.
    pub fn new() -> (r: Coordinator)
        ensures
            r.wf(),
            r.state == SessionState::Idle,
    {
        Coordinator {
            state: SessionState::Idle,
            capture_alive: false,
            dispatcher_alive: false,
            captures_spawned: 0,
            dispatchers_spawned: 0,
        }
    }

    /// Whether a capture episode exists, in any of its phases.
    pub fn is_active(&self) -> (r: bool)
        ensures
            r == (self.state != SessionState::Idle),
    {
        self.state != SessionState::Idle
    }

    /// Tries to begin a new capture episode. Exactly one concurrent caller
    /// can win: the winner finds the coordinator `Idle`, moves it to
    /// `Starting` and thereby becomes the owner of the episode's capture
    /// thread; every other caller is told an episode already exists and
    /// creates nothing.
    pub fn try_begin_episode(&mut self) -> (r: BeginOutcome)
        requires
            old(self).wf(),
        ensures
            final(self).wf(),
            old(self).state == SessionState::Idle ==> {
                &&& r == BeginOutcome::WonRace
                &&& final(self).state == SessionState::Starting
                &&& final(self).capture_alive
                &&& !final(self).dispatcher_alive
                &&& final(self).captures_spawned == 1
                &&& final(self).dispatchers_spawned == 0
            },
            old(self).state != SessionState::Idle ==> {
                &&& r == BeginOutcome::AlreadyActive
                &&& *final(self) == *old(self)
            },
    {
        if self.state == SessionState::Idle {
            self.state = SessionState::Starting;
            self.capture_alive = true;
            self.captures_spawned = 1;
            BeginOutcome::WonRace
        } else {
            BeginOutcome::AlreadyActive
        }
    }

    /// Moves the episode from `Starting` to `Active`, creating its single
    /// dispatcher thread. Called only by the episode's owner, after the
    /// capture thread reported that both hooks are installed.
    pub fn advance_to_active(&mut self)
        requires
            old(self).wf(),
            old(self).state == SessionState::Starting,
        ensures
            final(self).wf(),
            final(self).state == SessionState::Active,
            final(self).capture_alive,
            final(self).dispatcher_alive,
            final(self).captures_spawned == 1,
            final(self).dispatchers_spawned == 1,
    {
        self.state = SessionState::Active;
        self.dispatcher_alive = true;
        self.dispatchers_spawned = 1;
    }

    /// Aborts a `Starting` episode whose hook installation failed: the
    /// capture thread is torn down, no dispatcher is ever created, and the
    /// coordinator is `Idle` again the moment the failing call returns.
    pub fn abort_start(&mut self)
        requires
            old(self).wf(),
            old(self).state == SessionState::Starting,
        ensures
            final(self).wf(),
            final(self).state == SessionState::Idle,
            !final(self).capture_alive,
            !final(self).dispatcher_alive,
            final(self).captures_spawned == 0,
            final(self).dispatchers_spawned == 0,
    {
        self.state = SessionState::Idle;
        self.capture_alive = false;
        self.captures_spawned = 0;
    }

    /// Opens the exclusive window in which the registry may be mutated;
    /// the dispatcher never iterates while it is open.
    pub fn begin_unsubscribe(&mut self)
        requires
            old(self).wf(),
            old(self).state == SessionState::Active,
        ensures
            final(self).wf(),
            *final(self) == (Coordinator { state: SessionState::Unsubscribing, ..*old(self) }),
    {
        self.state = SessionState::Unsubscribing;
    }

    /// Closes the mutation window: the registry still holds consumers, so
    /// the episode stays live.
    pub fn end_unsubscribe(&mut self)
        requires
            old(self).wf(),
            old(self).state == SessionState::Unsubscribing,
        ensures
            final(self).wf(),
            *final(self) == (Coordinator { state: SessionState::Active, ..*old(self) }),
    {
        self.state = SessionState::Active;
    }

    /// Closes the mutation window after the last consumer left: the episode
    /// must shut down. The dispatcher observes this after its next drained
    /// event or periodic wake and exits its loop.
    pub fn request_shutdown(&mut self)
        requires
            old(self).wf(),
            old(self).state == SessionState::Unsubscribing,
        ensures
            final(self).wf(),
            *final(self) == (Coordinator { state: SessionState::ShuttingDown, ..*old(self) }),
    {
        self.state = SessionState::ShuttingDown;
    }

    /// Records that the dispatcher observed the shutdown request and exited
    /// its loop.
    pub fn acknowledge_shutdown(&mut self)
        requires
            old(self).wf(),
            old(self).state == SessionState::ShuttingDown,
            old(self).dispatcher_alive,
        ensures
            final(self).wf(),
            *final(self) == (Coordinator { dispatcher_alive: false, ..*old(self) }),
    {
        self.dispatcher_alive = false;
    }

    /// Records that the capture thread uninstalled both hooks and exited:
    /// the episode is over and the coordinator is `Idle` again.
    pub fn finish_shutdown(&mut self)
        requires
            old(self).wf(),
            old(self).state == SessionState::ShuttingDown,
            !old(self).dispatcher_alive,
        ensures
            final(self).wf(),
            final(self).state == SessionState::Idle,
            !final(self).capture_alive,
            !final(self).dispatcher_alive,
            final(self).captures_spawned == 0,
            final(self).dispatchers_spawned == 0,
    {
        self.state = SessionState::Idle;
        self.capture_alive = false;
        self.captures_spawned = 0;
        self.dispatchers_spawned = 0;
    }
}

} // verus!
