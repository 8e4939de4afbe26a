use vstd::prelude::*;
use crate::platform::Platform;
use crate::registry::{capability_modules, modules_for, Capability};

verus! {

/// Why startup was abandoned. Any failure is fatal: the process never runs
/// with part of its capabilities.
#[derive(Clone, Copy, Debug, PartialEq, Eq, Structural)]
pub enum StartupFailure {
    /// A capability module could not be activated.
    Module(Capability),
    /// The bridge command could not be registered.
    Command,
    /// The runtime failed to start or stopped with an error.
    Runtime,
}

/// Where the assembly of the application stands.
#[derive(Clone, Copy, Debug, PartialEq, Eq, Structural)]
pub enum Phase {
    /// Activating the capability modules, in list order.
    Activating,
    /// All modules are attached; the bridge command is next.
    Registering,
    /// The descriptor is complete and goes to the runtime.
    Launching,
    /// The runtime's event loop ran and returned normally.
    Exited,
    /// Startup stopped on a failure.
    Aborted(StartupFailure),
}

/// The work the host performs next, then reports back on.
#[derive(Clone, Copy, Debug, PartialEq, Eq, Structural)]
pub enum StartupAction {
    /// Attach this capability module to the descriptor.
    Activate(Capability),
    /// Register the bridge command on the descriptor.
    RegisterCommand,
    /// Hand the descriptor to the runtime and run its event loop.
    RunEventLoop,
    /// The application has exited; nothing is left to do.
    Finished,
    /// Terminate the process, reporting this failure.
    Abort(StartupFailure),
}

/// The abstract state of a startup sequence.
pub struct StartupView {
    pub platform: Platform,
    /// How many modules of the activation list have been attached.
    pub activated: nat,
    pub phase: Phase,
}

impl StartupView {
    /// The state in which a process for `p` begins.
    pub open spec fn initial(p: Platform) -> StartupView {
        StartupView { platform: p, activated: 0, phase: Phase::Activating }
    }

    /// The action this state asks of the host.
    pub open spec fn action(self) -> StartupAction {
        match self.phase {
            Phase::Activating => StartupAction::Activate(modules_for(self.platform)[self.activated as int]),
            Phase::Registering => StartupAction::RegisterCommand,
            Phase::Launching => StartupAction::RunEventLoop,
            Phase::Exited => StartupAction::Finished,
            Phase::Aborted(f) => StartupAction::Abort(f),
        }
    }

    /// The state after the host reports whether the current action succeeded.
    pub open spec fn after(self, succeeded: bool) -> StartupView {
        match self.phase {
            Phase::Activating => {
                if !succeeded {
                    StartupView {
                        phase: Phase::Aborted(
                            StartupFailure::Module(modules_for(self.platform)[self.activated as int]),
                        ),
                        ..self
                    }
                } else if self.activated + 1 == modules_for(self.platform).len() {
                    StartupView { activated: self.activated + 1, phase: Phase::Registering, ..self }
                } else {
                    StartupView { activated: self.activated + 1, ..self }
                }
            },
            Phase::Registering => {
                if succeeded {
                    StartupView { phase: Phase::Launching, ..self }
                } else {
                    StartupView { phase: Phase::Aborted(StartupFailure::Command), ..self }
                }
            },
            Phase::Launching => {
                if succeeded {
                    StartupView { phase: Phase::Exited, ..self }
                } else {
                    StartupView { phase: Phase::Aborted(StartupFailure::Runtime), ..self }
                }
            },
            _ => self,
        }
    }

    /// The state after the host reports `outcomes`, one per action, in order.
    pub open spec fn replay(self, outcomes: Seq<bool>) -> StartupView
        decreases outcomes.len(),
    {
        if outcomes.len() == 0 {
            self
        } else {
            self.after(outcomes[0]).replay(outcomes.drop_first())
        }
    }
}

/// The decisions of process startup: which module to attach next, when the
/// bridge command is registered, when the runtime takes over, and when to give
/// up. The host carries out each action and reports its outcome.
pub struct Startup {
    platform: Platform,
    modules: Vec<Capability>,
    activated: usize,
    phase: Phase,
}

impl View for Startup {
    type V = StartupView;

    closed spec fn view(&self) -> StartupView {
        StartupView { platform: self.platform, activated: self.activated as nat, phase: self.phase }
    }
}

impl Startup {
    pub closed spec fn wf(&self) -> bool {
        &&& self.modules@ == modules_for(self.platform)
        &&& self.activated <= self.modules.len()
        &&& (self.phase is Activating) ==> self.activated < self.modules.len()
        &&& (self.phase is Registering || self.phase is Launching || self.phase is Exited)
            ==> self.activated == self.modules.len()
    }

    pub fn new(platform: Platform) -> (r: Startup)
        ensures
            r.wf(),
            r@ == StartupView::initial(platform),
    {
        Startup { platform, modules: capability_modules(platform), activated: 0, phase: Phase::Activating }
    }

    pub fn platform(&self) -> (r: Platform)
        ensures
            r == self@.platform,
    {
        self.platform
    }

    pub fn phase(&self) -> (r: Phase)
        ensures
            r == self@.phase,
    {
        self.phase
    }

    /// How many modules have been attached so far.
    pub fn activated(&self) -> (r: usize)
        ensures
            r == self@.activated,
    {
        self.activated
    }

    /// The action the host is to carry out now.
    pub fn next_action(&self) -> (r: StartupAction)
        requires
            self.wf(),
        ensures
            r == self@.action(),
    {
        match self.phase {
            Phase::Activating => StartupAction::Activate(self.modules[self.activated]),
            Phase::Registering => StartupAction::RegisterCommand,
            Phase::Launching => StartupAction::RunEventLoop,
            Phase::Exited => StartupAction::Finished,
            Phase::Aborted(f) => StartupAction::Abort(f),
        }
    }

    /// Records whether the current action succeeded and returns the next one.
    pub fn advance(&mut self, succeeded: bool) -> (r: StartupAction)
        requires
            old(self).wf(),
        ensures
            final(self).wf(),
            final(self)@ == old(self)@.after(succeeded),
            r == final(self)@.action(),
    {
        match self.phase {
            Phase::Activating => {
                if !succeeded {
                    self.phase = Phase::Aborted(StartupFailure::Module(self.modules[self.activated]));
                } else {
                    self.activated = self.activated + 1;
                    if self.activated == self.modules.len() {
                        self.phase = Phase::Registering;
                    }
                }
            },
            Phase::Registering => {
                self.phase = if succeeded {
                    Phase::Launching
                } else {
                    Phase::Aborted(StartupFailure::Command)
                };
            },
            Phase::Launching => {
                self.phase = if succeeded {
                    Phase::Exited
                } else {
                    Phase::Aborted(StartupFailure::Runtime)
                };
            },
            _ => {},
        }
        self.next_action()
    }
}

/// `k` successful outcomes in a row.
pub open spec fn successes(k: nat) -> Seq<bool> {
    Seq::new(k, |i: int| true)
}

proof fn lemma_replay_push(v: StartupView, s: Seq<bool>, x: bool)
    ensures
        v.replay(s.push(x)) == v.replay(s).after(x),
    decreases s.len(),
{
    if s.len() == 0 {
        assert(s.push(x).drop_first() =~= s);
        assert(v.after(x).replay(s) == v.after(x));
    } else {
        assert(s.push(x).drop_first() =~= s.drop_first().push(x));
        assert(s.push(x)[0] == s[0]);
        lemma_replay_push(v.after(s[0]), s.drop_first(), x);
    }
}

/// Once startup has been abandoned it stays abandoned, whatever is reported
/// afterwards: no later action registers the bridge command or runs the
/// event loop.
pub proof fn lemma_abort_is_terminal(v: StartupView, outcomes: Seq<bool>)
    requires
        v.phase is Aborted,
    ensures
        v.replay(outcomes) == v,
        v.replay(outcomes).action() == StartupAction::Abort(v.phase->Aborted_0),
    decreases outcomes.len(),
{
    if outcomes.len() > 0 {
        lemma_abort_is_terminal(v.after(outcomes[0]), outcomes.drop_first());
    }
}

/// On any platform, a failed storage activation stops startup at once: from
/// then on, whatever else is reported, the only action is to terminate with
/// that failure, so the bridge command never becomes reachable.
pub proof fn lemma_storage_failure_stops_startup(p: Platform, outcomes: Seq<bool>)
    requires
        outcomes.len() > 0,
        !outcomes[0],
    ensures
        forall|k: int|
            1 <= k <= outcomes.len() ==> #[trigger] StartupView::initial(p).replay(outcomes.take(k)).action()
                == StartupAction::Abort(StartupFailure::Module(Capability::Storage)),
{
    let v = StartupView::initial(p);
    let aborted = v.after(false);
    assert(modules_for(p)[0] == Capability::Storage);
    assert forall|k: int| 1 <= k <= outcomes.len() implies #[trigger] v.replay(outcomes.take(k)).action()
        == StartupAction::Abort(StartupFailure::Module(Capability::Storage)) by {
        let t = outcomes.take(k);
        assert(t[0] == outcomes[0]);
        lemma_abort_is_terminal(aborted, t.drop_first());
    }
}

/// When every step succeeds, the host is asked to activate the platform's
/// modules one by one in list order, then to register the bridge command,
/// then to run the event loop, and is then done.
pub proof fn lemma_successful_startup(p: Platform, k: nat)
    requires
        k <= modules_for(p).len() + 2,
    ensures
        k < modules_for(p).len() ==> StartupView::initial(p).replay(successes(k)).action()
            == StartupAction::Activate(modules_for(p)[k as int]),
        k == modules_for(p).len() ==> StartupView::initial(p).replay(successes(k)).action()
            == StartupAction::RegisterCommand,
        k == modules_for(p).len() + 1 ==> StartupView::initial(p).replay(successes(k)).action()
            == StartupAction::RunEventLoop,
        k == modules_for(p).len() + 2 ==> StartupView::initial(p).replay(successes(k)).action()
            == StartupAction::Finished,
{
    lemma_successful_state(p, k);
}

proof fn lemma_successful_state(p: Platform, k: nat)
    requires
        k <= modules_for(p).len() + 2,
    ensures
        ({
            let n = modules_for(p).len();
            let w = StartupView::initial(p).replay(successes(k));
            &&& w.platform == p
            &&& k < n ==> w.activated == k && w.phase == Phase::Activating
            &&& k == n ==> w.activated == n && w.phase == Phase::Registering
            &&& k == n + 1 ==> w.phase == Phase::Launching
            &&& k == n + 2 ==> w.phase == Phase::Exited
        }),
    decreases k,
{
    let v = StartupView::initial(p);
    if k == 0 {
        assert(successes(0) =~= Seq::<bool>::empty());
    } else {
        lemma_successful_state(p, (k - 1) as nat);
        assert(successes(k) =~= successes((k - 1) as nat).push(true));
        lemma_replay_push(v, successes((k - 1) as nat), true);
    }
}

} // verus!
