//! The hook facade: one observer, and the life cycle of a run.
//!
//! A run goes from idle through the acquisition of its native resources to
//! the active loop and back to idle. The host performs every native step and
//! reports it here; the hook decides what follows.

use crate::dedup::{
    collapsed,
    delivered,
    lemma_delivered_is_collapsed,
    remembered,
    should_deliver,
    TitleDeduplicator,
};
use crate::error::WinshiftError;
use crate::platform::{
    acquisition_plan,
    planned_resource,
    setup_error,
    setup_error_spec,
    Platform,
    Resource,
};
use vstd::prelude::*;
use vstd::string::StringExecFns;

verus! {

/// The observer of focus changes. The hook never looks at what it does.
pub trait FocusChangeHandler: Send + Sync {
    /// Called with the title of the window that has the focus now.
    fn on_focus_change(&self, window_title: String);
}

/// Where a hook stands in its life cycle.
#[derive(Clone, Copy, Debug, PartialEq, Eq, Structural)]
pub enum Phase {
    /// No run is under way.
    Idle,
    /// A run acquires its resources.
    Starting,
    /// A run holds all its resources and serves the event loop.
    Active,
}

/// Why the wait of the event loop ended.
#[derive(Clone, Copy, Debug, PartialEq, Eq, Structural)]
pub enum Wake {
    /// The stop signal arrived.
    Cancelled,
    /// Native notifications are ready to be read.
    Notification,
    /// Neither: the wait timed out or was interrupted.
    Nothing,
}

/// What the event loop does after a wait.
#[derive(Clone, Copy, Debug, PartialEq, Eq, Structural)]
pub enum Reaction {
    /// Leave the loop and end the run.
    Leave,
    /// Read the notifications and resolve the focused window's title.
    Resolve,
    /// Wait again.
    Wait,
}

/// How a run ends: what the host gives back, in this order, and what the run
/// returns.
#[derive(Debug, PartialEq, Eq)]
pub struct Teardown {
    pub release: Vec<Resource>,
    pub outcome: Result<(), WinshiftError>,
}

/// The titles among the outcomes of several title resolutions: those that
/// yielded one, in order.
pub open spec fn resolved(outcomes: Seq<Option<Seq<char>>>) -> Seq<Seq<char>>
    decreases outcomes.len(),
{
    if outcomes.len() == 0 {
        Seq::empty()
    } else {
        match outcomes.last() {
            Some(title) => resolved(outcomes.drop_last()).push(title),
            None => resolved(outcomes.drop_last()),
        }
    }
}

/// The state of a hook as contracts see it.
pub ghost struct HookState {
    pub platform: Option<Platform>,
    pub held: Seq<Resource>,
    pub stop_requested: bool,
    pub last_title: Option<Seq<char>>,
}

impl HookState {
    /// The state of a hook on which no run is under way.
    pub open spec fn idle() -> HookState {
        HookState {
            platform: None,
            held: Seq::empty(),
            stop_requested: false,
            last_title: None,
        }
    }

    /// The state in which a run on `platform` begins: nothing is held, no stop
    /// is requested and no title is remembered.
    pub open spec fn started(platform: Platform) -> HookState {
        HookState {
            platform: Some(platform),
            held: Seq::empty(),
            stop_requested: false,
            last_title: None,
        }
    }

    /// The phase of the life cycle.
    pub open spec fn phase(self) -> Phase {
        match self.platform {
            None => Phase::Idle,
            Some(platform) => if self.held.len() < acquisition_plan(platform).len() {
                Phase::Starting
            } else {
                Phase::Active
            },
        }
    }

    /// The resource that is to be acquired next, while a run is starting.
    pub open spec fn pending(self) -> Option<Resource> {
        match self.platform {
            None => None,
            Some(platform) => if self.held.len() < acquisition_plan(platform).len() {
                Some(acquisition_plan(platform)[self.held.len() as int])
            } else {
                None
            },
        }
    }

    /// What holds of every hook: an idle one holds and remembers nothing, a
    /// running one holds the first resources of its platform's plan.
    pub open spec fn well_formed(self) -> bool {
        match self.platform {
            None => self == HookState::idle(),
            Some(platform) => self.held.len() <= acquisition_plan(platform).len() && self.held
                == acquisition_plan(platform).take(self.held.len() as int),
        }
    }

    /// The state after the pending resource has been acquired.
    pub open spec fn after_acquisition(self) -> HookState {
        match self.pending() {
            None => self,
            Some(resource) => HookState { held: self.held.push(resource), ..self },
        }
    }

    /// The state after the next `count` pending resources have been acquired.
    pub open spec fn after_acquisitions(self, count: nat) -> HookState
        decreases count,
    {
        if count == 0 {
            self
        } else {
            self.after_acquisitions((count - 1) as nat).after_acquisition()
        }
    }

    /// The state of a run on `platform` that has acquired all its resources
    /// and has delivered nothing yet.
    pub open spec fn ready(platform: Platform) -> HookState {
        HookState {
            platform: Some(platform),
            held: acquisition_plan(platform),
            stop_requested: false,
            last_title: None,
        }
    }

    /// The state after a stop request.
    pub open spec fn after_stop(self) -> HookState {
        if self.phase() == Phase::Idle {
            self
        } else {
            HookState { stop_requested: true, ..self }
        }
    }

    /// What the loop does after a wait that ended with `wake`.
    pub open spec fn reaction(self, wake: Wake) -> Reaction {
        if self.phase() != Phase::Active || self.stop_requested || wake == Wake::Cancelled {
            Reaction::Leave
        } else if wake == Wake::Notification {
            Reaction::Resolve
        } else {
            Reaction::Wait
        }
    }

    /// The observer is called for the outcome `title` of a title resolution.
    pub open spec fn notifies(self, title: Option<Seq<char>>) -> bool {
        self.phase() == Phase::Active && match title {
            None => false,
            Some(candidate) => should_deliver(self.last_title, candidate),
        }
    }

    /// The state after the outcome `title` of a title resolution.
    pub open spec fn after_title(self, title: Option<Seq<char>>) -> HookState {
        if self.notifies(title) {
            HookState { last_title: title, ..self }
        } else {
            self
        }
    }

    /// The state after the outcomes of several title resolutions, in order.
    pub open spec fn after_titles(self, outcomes: Seq<Option<Seq<char>>>) -> HookState
        decreases outcomes.len(),
    {
        if outcomes.len() == 0 {
            self
        } else {
            self.after_titles(outcomes.drop_last()).after_title(outcomes.last())
        }
    }

    /// The titles the observer is called with for the outcomes of several
    /// title resolutions, in order.
    pub open spec fn observed(self, outcomes: Seq<Option<Seq<char>>>) -> Seq<Seq<char>>
        decreases outcomes.len(),
    {
        if outcomes.len() == 0 {
            Seq::empty()
        } else {
            let earlier = outcomes.drop_last();
            match outcomes.last() {
                Some(title) if self.after_titles(earlier).notifies(Some(title)) => self.observed(
                    earlier,
                ).push(title),
                _ => self.observed(earlier),
            }
        }
    }

    /// What a run that ends in this state returns.
    pub open spec fn outcome(self) -> Result<(), WinshiftError> {
        match self.pending() {
            None => Ok(()),
            Some(resource) => Err(setup_error_spec(resource)),
        }
    }
}

/// Watches the focused window on behalf of one observer.
pub struct WindowFocusHook<H: FocusChangeHandler> {
    handler: H,
    platform: Option<Platform>,
    held: Vec<Resource>,
    stop_requested: bool,
    titles: TitleDeduplicator,
}

impl<H: FocusChangeHandler> View for WindowFocusHook<H> {
    type V = HookState;

    closed spec fn view(&self) -> HookState {
        HookState {
            platform: self.platform,
            held: self.held@,
            stop_requested: self.stop_requested,
            last_title: self.titles@,
        }
    }
}

impl<H: FocusChangeHandler> WindowFocusHook<H> {
    /// An idle hook bound to `handler`.
    pub fn new(handler: H) -> (hook: Self)
        ensures
            hook@ == HookState::idle(),
            hook@.well_formed(),
    {
        WindowFocusHook {
            handler,
            platform: None,
            held: Vec::new(),
            stop_requested: false,
            titles: TitleDeduplicator::new(),
        }
    }

    /// The phase of the life cycle.
    pub fn phase(&self) -> (phase: Phase)
        ensures
            phase == self@.phase(),
    {
        match self.platform {
            None => Phase::Idle,
            Some(platform) => {
                if planned_resource(platform, self.held.len()).is_some() {
                    Phase::Starting
                } else {
                    Phase::Active
                }
            },
        }
    }

    /// The resource that the host is to acquire next, while the run starts.
    pub fn pending(&self) -> (resource: Option<Resource>)
        ensures
            resource == self@.pending(),
    {
        match self.platform {
            None => None,
            Some(platform) => planned_resource(platform, self.held.len()),
        }
    }

    /// Begins a run on the host's platform. With no platform the run fails at
    /// once and the hook stays idle; otherwise the run starts with nothing
    /// held, no stop requested and no title remembered.
    pub fn run(&mut self, platform: Option<Platform>) -> (started: Result<(), WinshiftError>)
        requires
            old(self)@.well_formed(),
            old(self)@.phase() == Phase::Idle,
        ensures
            final(self)@.well_formed(),
            platform matches Some(p) ==> started is Ok && final(self)@ == HookState::started(p),
            platform is None ==> final(self)@ == old(self)@ && (started matches Err(
                WinshiftError::PlatformError(detail),
            ) && detail@ == "Unsupported platform"@),
    {
        match platform {
            None => Err(WinshiftError::PlatformError(String::from_str("Unsupported platform"))),
            Some(p) => {
                self.platform = Some(p);
                assert(acquisition_plan(p).take(0) =~= Seq::<Resource>::empty());
                Ok(())
            },
        }
    }

    /// Records that the pending resource has been acquired. Without a pending
    /// resource nothing changes.
    pub fn acquired(&mut self)
        requires
            old(self)@.well_formed(),
        ensures
            final(self)@.well_formed(),
            final(self)@ == old(self)@.after_acquisition(),
    {
        match self.pending() {
            None => {},
            Some(resource) => {
                let ghost plan = acquisition_plan(self.platform.unwrap());
                let ghost count = self.held@.len() as int;
                self.held.push(resource);
                assert(self.held@ =~= plan.take(count + 1));
            },
        }
    }

    /// Asks the run to end. An idle hook refuses with `StopError`; on a
    /// running one the request is recorded, however often it is made.
    pub fn stop(&mut self) -> (signalled: Result<(), WinshiftError>)
        requires
            old(self)@.well_formed(),
        ensures
            final(self)@.well_formed(),
            final(self)@ == old(self)@.after_stop(),
            old(self)@.phase() == Phase::Idle ==> signalled == Err::<(), WinshiftError>(
                WinshiftError::StopError,
            ),
            old(self)@.phase() != Phase::Idle ==> signalled is Ok,
    {
        match self.platform {
            None => Err(WinshiftError::StopError),
            Some(_) => {
                self.stop_requested = true;
                Ok(())
            },
        }
    }

    /// Decides what the loop does after a wait that ended with `wake`.
    pub fn on_wake(&self, wake: Wake) -> (reaction: Reaction)
        ensures
            reaction == self@.reaction(wake),
    {
        if self.phase() != Phase::Active || self.stop_requested || wake == Wake::Cancelled {
            Reaction::Leave
        } else if wake == Wake::Notification {
            Reaction::Resolve
        } else {
            Reaction::Wait
        }
    }

    /// Takes the outcome of a title resolution. The observer is called, once
    /// and with that title, exactly when the run is active, a title was
    /// resolved, and it differs from the one delivered last in this run.
    pub fn notify(&mut self, title: Option<String>) -> (invoked: bool)
        requires
            old(self)@.well_formed(),
        ensures
            final(self)@.well_formed(),
            invoked == old(self)@.notifies(
                match title {
                    None => None,
                    Some(candidate) => Some(candidate@),
                },
            ),
            final(self)@ == old(self)@.after_title(
                match title {
                    None => None,
                    Some(candidate) => Some(candidate@),
                },
            ),
    {
        if self.phase() != Phase::Active {
            return false;
        }
        match title {
            None => false,
            Some(candidate) => match self.titles.offer(candidate) {
                None => false,
                Some(fresh) => {
                    self.handler.on_focus_change(fresh);
                    true
                },
            },
        }
    }

    /// Ends the run and returns the hook to idle. The host gives back every
    /// resource held, the one acquired last first. The run returns `Ok` unless
    /// it ends while a resource is pending: then that one was refused, and
    /// the run fails with the error of its kind.
    pub fn finish(&mut self) -> (teardown: Teardown)
        requires
            old(self)@.well_formed(),
        ensures
            final(self)@.well_formed(),
            final(self)@ == HookState::idle(),
            teardown.release@ == old(self)@.held.reverse(),
            teardown.outcome == old(self)@.outcome(),
    {
        let outcome = match self.pending() {
            None => Ok(()),
            Some(resource) => Err(setup_error(resource)),
        };
        let mut release: Vec<Resource> = Vec::new();
        let ghost held = self.held@;
        while self.held.len() > 0
            invariant
                self.held@.len() <= held.len(),
                self.held@ == held.take(self.held@.len() as int),
                release@ == held.skip(self.held@.len() as int).reverse(),
            decreases self.held.len(),
        {
            match self.held.pop() {
                None => {},
                Some(resource) => {
                    release.push(resource);
                    assert(self.held@ =~= held.take(self.held@.len() as int));
                    assert(release@ =~= held.skip(self.held@.len() as int).reverse());
                },
            }
        }
        assert(release@ =~= held.reverse());
        self.platform = None;
        self.stop_requested = false;
        self.titles = TitleDeduplicator::new();
        assert(self.held@ =~= Seq::<Resource>::empty());
        Teardown { release, outcome }
    }
}

/// Whatever a run holds when it ends, the host is told to give back each of
/// these resources exactly once, and nothing else.
pub proof fn lemma_teardown_releases_all(state: HookState, resource: Resource)
    requires
        state.well_formed(),
    ensures
        state.held.reverse().contains(resource) == state.held.contains(resource),
        state.held.reverse().no_duplicates(),
        state.held.reverse().len() == state.held.len(),
{
    let held = state.held;
    let back = held.reverse();
    if state.platform is Some {
        let plan = acquisition_plan(state.platform.unwrap());
        assert forall|i: int, j: int|
            0 <= i < back.len() && 0 <= j < back.len() && i != j implies back[i] != back[j] by {
            assert(back[i] == plan[held.len() - 1 - i]);
            assert(back[j] == plan[held.len() - 1 - j]);
        }
    }
    if held.contains(resource) {
        let i = choose|i: int| 0 <= i < held.len() && held[i] == resource;
        assert(back[held.len() - 1 - i] == resource);
    }
    if back.contains(resource) {
        let i = choose|i: int| 0 <= i < back.len() && back[i] == resource;
        assert(held[held.len() - 1 - i] == resource);
    }
}

/// A second stop request changes nothing: stopping is idempotent, and it
/// touches nothing but the request itself.
pub proof fn lemma_stop_is_idempotent(state: HookState)
    ensures
        state.after_stop().after_stop() == state.after_stop(),
        state.after_stop().phase() == state.phase(),
        state.after_stop().held == state.held,
        state.after_stop().last_title == state.last_title,
        state.phase() != Phase::Idle ==> state.after_stop().reaction(Wake::Nothing)
            == Reaction::Leave,
{
}

/// During an active run the observer sees the resolved titles as the
/// deduplicator delivers them: resolutions without a title are skipped, and
/// nothing but the remembered title changes. In a run that has delivered
/// nothing yet these are the resolved titles with every run of equal
/// neighbours reduced to its first member, so its first resolved title is
/// always delivered.
pub proof fn lemma_observed_titles(state: HookState, outcomes: Seq<Option<Seq<char>>>)
    requires
        state.phase() == Phase::Active,
    ensures
        state.observed(outcomes) == delivered(state.last_title, resolved(outcomes)),
        state.after_titles(outcomes) == (HookState {
            last_title: remembered(state.last_title, resolved(outcomes)),
            ..state
        }),
        state.last_title is None ==> state.observed(outcomes) == collapsed(resolved(outcomes)),
    decreases outcomes.len(),
{
    if outcomes.len() > 0 {
        let earlier = outcomes.drop_last();
        lemma_observed_titles(state, earlier);
        match outcomes.last() {
            Some(title) => {
                assert(resolved(outcomes).drop_last() =~= resolved(earlier));
            },
            None => {},
        }
    }
    if state.last_title is None {
        lemma_delivered_is_collapsed(resolved(outcomes));
    }
}

/// A run that has acquired its whole plan is active, holds the plan, and
/// remembers no title, whatever an earlier run delivered: the first title
/// that is resolved in it reaches the observer.
pub proof fn lemma_fresh_run_delivers_first(platform: Platform, outcomes: Seq<Option<Seq<char>>>)
    ensures
        HookState::started(platform).after_acquisitions(acquisition_plan(platform).len())
            == HookState::ready(platform),
        HookState::ready(platform).phase() == Phase::Active,
        HookState::ready(platform).well_formed(),
        resolved(outcomes).len() > 0 ==> HookState::ready(platform).observed(outcomes).len() > 0
            && HookState::ready(platform).observed(outcomes)[0] == resolved(outcomes)[0],
{
    let start = HookState::started(platform);
    let plan = acquisition_plan(platform);
    let one = start.after_acquisitions(1);
    let two = start.after_acquisitions(2);
    let three = start.after_acquisitions(3);
    assert(start.after_acquisitions(0) == start);
    assert(one == start.after_acquisitions(0).after_acquisition());
    assert(two == one.after_acquisition());
    assert(three == two.after_acquisition());
    assert(one.held =~= plan.take(1));
    assert(two.held =~= plan.take(2));
    if plan.len() == 3 {
        assert(three.held =~= plan);
    } else {
        assert(two.held =~= plan);
    }
    assert(plan.take(plan.len() as int) =~= plan);
    lemma_observed_titles(HookState::ready(platform), outcomes);
    lemma_delivered_is_collapsed(resolved(outcomes));
}

} // verus!
