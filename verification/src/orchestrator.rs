use vstd::prelude::*;
use crate::model::{MonitoredUser, WatchConfig};
use crate::session::SessionLock;
use crate::watcher::{Action, Event, StepError, WatchState, Watcher};

verus! {

/// The watchers of one community and the lock on its shared session.
///
/// The surrounding program runs one loop per monitored user. Each loop hands
/// its events to [`Orchestrator::dispatch`] under its own index and carries
/// out the action it gets back; it keeps no state of its own.
pub struct Orchestrator {
    config: WatchConfig,
    users: Vec<MonitoredUser>,
    watchers: Vec<Watcher>,
    session: SessionLock,
    stopped: bool,
}

/// What an orchestrator holds, as plain values.
pub struct OrchestratorView {
    pub config: WatchConfig,
    pub users: Seq<MonitoredUser>,
    pub watchers: Seq<Watcher>,
    /// The index of the watcher that holds the shared session.
    pub holder: Option<usize>,
    /// Whether the orchestrator was shut down.
    pub stopped: bool,
}

impl OrchestratorView {
    /// Whether watcher `i` exists and holds the shared session.
    pub open spec fn occupied_by(self, i: int) -> bool {
        0 <= i < self.watchers.len() && self.watchers[i].stage.occupies_session()
    }

    /// The invariant: one watcher per user, and a watcher is in a stage that
    /// occupies the session exactly if the lock names it.
    pub open spec fn wf(self) -> bool {
        &&& self.watchers.len() == self.users.len()
        &&& self.watchers.len() <= usize::MAX
        &&& forall|i: int|
            0 <= i < self.watchers.len() ==> (#[trigger] self.watchers[i]).user_id
                == self.users[i].user_id
        &&& forall|i: int|
            0 <= i < self.watchers.len() ==> ((#[trigger] self.watchers[i]).stage.occupies_session()
                <==> self.holder == Some(i as usize))
        &&& self.holder matches Some(h) ==> h < self.watchers.len()
    }

    /// Who holds the session once watcher `index` has become `next`.
    pub open spec fn holder_after(self, index: usize, next: Watcher) -> Option<usize> {
        if next.stage.occupies_session() {
            Some(index)
        } else if self.holder == Some(index) {
            None
        } else {
            self.holder
        }
    }

    /// The orchestrator after watcher `index` took `event`. Once shut down,
    /// it takes no event.
    pub open spec fn after(self, index: usize, event: Event) -> OrchestratorView {
        if !self.stopped && index < self.watchers.len() {
            let next = self.watchers[index as int].transition(
                self.config,
                event,
                self.holder is None,
            ).watcher;
            OrchestratorView {
                watchers: self.watchers.update(index as int, next),
                holder: self.holder_after(index, next),
                ..self
            }
        } else {
            self
        }
    }

    /// The answer to watcher `index` for `event`.
    pub open spec fn reply(self, index: usize, event: Event) -> Result<Action, StepError> {
        if self.stopped {
            Err(StepError::ShutDown)
        } else if index < self.watchers.len() {
            self.watchers[index as int].transition(self.config, event, self.holder is None).reply
        } else {
            Err(StepError::NoSuchWatcher)
        }
    }
}

impl View for Orchestrator {
    type V = OrchestratorView;

    closed spec fn view(&self) -> OrchestratorView {
        OrchestratorView {
            config: self.config,
            users: self.users@,
            watchers: self.watchers@,
            holder: self.session.holder,
            stopped: self.stopped,
        }
    }
}

impl Orchestrator {
    /// The invariant of [`OrchestratorView::wf`].
    pub open spec fn wf(&self) -> bool {
        self@.wf()
    }

    /// One watcher for each monitored user, in the order of `users`, each in
    /// its initial stage, and the shared session free.
    pub fn new(config: WatchConfig, users: Vec<MonitoredUser>) -> (o: Orchestrator)
        ensures
            o.wf(),
            o@.config == config,
            o@.users == users@,
            o@.holder is None,
            !o@.stopped,
            o@.watchers.len() == users.len(),
            forall|i: int|
                0 <= i < users.len() ==> #[trigger] o@.watchers[i] == Watcher::initial(
                    users[i].user_id,
                    config,
                ),
    {
        let mut watchers: Vec<Watcher> = Vec::new();
        let mut i: usize = 0;
        while i < users.len()
            invariant
                i <= users.len(),
                watchers.len() == i,
                forall|k: int|
                    0 <= k < i ==> #[trigger] watchers[k] == Watcher::initial(users[k].user_id, config),
            decreases users.len() - i,
        {
            watchers.push(Watcher::new(users[i].user_id, &config));
            i += 1;
        }
        Orchestrator { config, users, watchers, session: SessionLock::new(), stopped: false }
    }

    /// Hands `event` to watcher `index` and answers with its next action.
    ///
    /// Only that watcher and the lock change. The watcher takes the session
    /// with the step that moves it into a joining stage, which it makes only
    /// while the session is free, and gives it back with the step that ends
    /// its cycle.
    pub fn dispatch(&mut self, index: usize, event: Event) -> (r: Result<Action, StepError>)
        requires
            old(self).wf(),
        ensures
            final(self).wf(),
            final(self)@ == old(self)@.after(index, event),
            r == old(self)@.reply(index, event),
    {
        if self.stopped {
            return Err(StepError::ShutDown);
        }
        if index >= self.watchers.len() {
            return Err(StepError::NoSuchWatcher);
        }
        let mut w = self.watchers[index];
        let held = w.stage.holds_session();
        let free = self.session.is_free();
        let r = w.step(event, &self.config, free);
        self.watchers.set(index, w);
        if w.stage.holds_session() {
            if !held {
                self.session.acquire(index);
            }
        } else if held {
            self.session.release(index);
        }
        proof {
            assert(self@.watchers =~= old(self)@.watchers.update(index as int, w));
        }
        r
    }

    /// Stops every watcher: from now on no event is taken. Answers with the
    /// index of the watcher whose cycle holds the shared session, so that
    /// its playback can be aborted and the session dropped.
    pub fn shut_down(&mut self) -> (active: Option<usize>)
        ensures
            final(self)@ == (OrchestratorView { stopped: true, ..old(self)@ }),
            old(self).wf() ==> final(self).wf(),
            active == old(self)@.holder,
    {
        self.stopped = true;
        self.session.holder
    }

    /// Whether [`Orchestrator::shut_down`] was called.
    pub fn is_shut_down(&self) -> (r: bool)
        ensures
            r == self@.stopped,
    {
        self.stopped
    }

    /// The number of watchers.
    pub fn len(&self) -> (n: usize)
        ensures
            n == self@.watchers.len(),
    {
        self.watchers.len()
    }

    /// The shared configuration.
    pub fn config(&self) -> (c: WatchConfig)
        ensures
            c == self@.config,
    {
        self.config
    }

    /// Watcher `index`, if there is one.
    pub fn watcher(&self, index: usize) -> (w: Option<Watcher>)
        ensures
            index < self@.watchers.len() ==> w == Some(self@.watchers[index as int]),
            index >= self@.watchers.len() ==> w is None,
    {
        if index < self.watchers.len() {
            Some(self.watchers[index])
        } else {
            None
        }
    }

    /// The state of watcher `index`, if there is one.
    pub fn state_of(&self, index: usize) -> (s: Option<WatchState>)
        ensures
            index < self@.watchers.len() ==> s == Some(self@.watchers[index as int].stage.state()),
            index >= self@.watchers.len() ==> s is None,
    {
        if index < self.watchers.len() {
            Some(self.watchers[index].state())
        } else {
            None
        }
    }

    /// The user that watcher `index` watches, if there is one.
    pub fn user(&self, index: usize) -> (u: Option<&MonitoredUser>)
        ensures
            index < self@.users.len() ==> u == Some(&self@.users[index as int]),
            index >= self@.users.len() ==> u is None,
    {
        if index < self.users.len() {
            Some(&self.users[index])
        } else {
            None
        }
    }

    /// The index of the watcher whose cycle holds the shared session, if any.
    pub fn active_cycle(&self) -> (h: Option<usize>)
        ensures
            h == self@.holder,
    {
        self.session.holder
    }
}

} // verus!
