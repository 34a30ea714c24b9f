use vstd::prelude::*;
use crate::model::{Lookup, WatchConfig};

verus! {

/// The four states of a watcher's cycle.
#[derive(Clone, Copy, Debug, PartialEq, Eq)]
pub enum WatchState {
    /// Polling for the user's next entry into the target channel.
    AwaitingJoin,
    /// An entry was seen; the clip has not started yet.
    DetectedJoin,
    /// The clip is sounding, or the session is being left after it.
    Playing,
    /// Polling until the user is first seen outside the target channel.
    AwaitingLeaveOfPriorOccupant,
}

/// Where a watcher stands within its state: each stage waits for exactly one
/// kind of event.
#[derive(Clone, Copy, Debug, PartialEq, Eq)]
pub enum Stage {
    /// Start-up only: polling until the user is seen outside the channel.
    Vacating,
    /// Polling for an entry.
    Polling,
    /// Entry seen, the shared session is taken by another watcher.
    Queued,
    /// The shared session is held and a join was requested.
    Joining,
    /// Joined; the clip was requested.
    Starting,
    /// The clip started and is being waited out.
    Sounding,
    /// The clip is over and a leave was requested.
    Leaving,
}

impl Stage {
    /// The watch state that a stage belongs to.
    pub open spec fn state(self) -> WatchState {
        match self {
            Stage::Vacating => WatchState::AwaitingLeaveOfPriorOccupant,
            Stage::Polling => WatchState::AwaitingJoin,
            Stage::Queued | Stage::Joining | Stage::Starting => WatchState::DetectedJoin,
            Stage::Sounding | Stage::Leaving => WatchState::Playing,
        }
    }

    /// Whether the watcher polls the voice-state source in this stage.
    pub open spec fn polls(self) -> bool {
        self is Vacating || self is Polling
    }

    /// Whether a watcher in this stage holds the community's shared session.
    pub open spec fn occupies_session(self) -> bool {
        self is Joining || self is Starting || self is Sounding || self is Leaving
    }

    /// Executable form of [`Stage::state`].
    pub fn watch_state(&self) -> (s: WatchState)
        ensures
            s == self.state(),
    {
        match self {
            Stage::Vacating => WatchState::AwaitingLeaveOfPriorOccupant,
            Stage::Polling => WatchState::AwaitingJoin,
            Stage::Queued => WatchState::DetectedJoin,
            Stage::Joining => WatchState::DetectedJoin,
            Stage::Starting => WatchState::DetectedJoin,
            Stage::Sounding => WatchState::Playing,
            Stage::Leaving => WatchState::Playing,
        }
    }

    /// Executable form of [`Stage::occupies_session`].
    pub fn holds_session(&self) -> (r: bool)
        ensures
            r == self.occupies_session(),
    {
        match self {
            Stage::Joining => true,
            Stage::Starting => true,
            Stage::Sounding => true,
            Stage::Leaving => true,
            _ => false,
        }
    }
}

/// What the surrounding loop reports back to a watcher.
#[derive(Clone, Copy, Debug, PartialEq, Eq)]
pub enum Event {
    /// The answer of the voice-state source to a poll.
    Snapshot(Lookup),
    /// The wait for the shared session is over; time to ask again.
    SessionWaitElapsed,
    /// The session manager joined the target channel.
    Joined,
    /// The session manager could not join.
    JoinFailed,
    /// The audio player started the clip, with its duration in milliseconds
    /// where the source reports one.
    PlayStarted(Option<u64>),
    /// The audio player could not open or decode the clip.
    SourceError,
    /// The time asked for by `Action::Wait` has passed.
    PlaybackElapsed,
    /// The session manager left the channel.
    Left,
    /// The session manager reported an error on leaving.
    LeaveFailed,
}

/// What a watcher asks the surrounding loop to do next.
#[derive(Clone, Copy, Debug, PartialEq, Eq)]
pub enum Action {
    /// Sleep, then poll the voice-state source and report a `Snapshot`.
    Poll { delay_ms: u64 },
    /// Sleep without holding the session, then report `SessionWaitElapsed`.
    AwaitSession { delay_ms: u64 },
    /// Join the channel; report `Joined` or `JoinFailed`.
    Join { community_id: u64, channel_id: u64 },
    /// Start this user's clip; report `PlayStarted` or `SourceError`.
    Play { user_id: u64 },
    /// Sleep for the clip's length, then report `PlaybackElapsed`.
    Wait { ms: u64 },
    /// Leave the channel; report `Left` or `LeaveFailed`.
    Leave,
    /// Drop the joined session at once, with no leave step, then go on as
    /// for `Poll`.
    ReleaseAndPoll { delay_ms: u64 },
}

/// Why an event was refused.
#[derive(Clone, Copy, Debug, PartialEq, Eq)]
pub enum StepError {
    /// The watcher's stage does not wait for this kind of event.
    UnexpectedEvent,
    /// No watcher has the given index.
    NoSuchWatcher,
    /// The orchestrator was shut down: no watcher acts any more.
    ShutDown,
}

/// The state machine of one monitored user.
#[derive(Clone, Copy, Debug, PartialEq, Eq)]
pub struct Watcher {
    pub user_id: u64,
    pub stage: Stage,
    /// Whether the latest known snapshot placed the user in the target
    /// channel. While it holds, presence in the channel is no entry.
    pub prior_in_target: bool,
}

/// A watcher after an event, with the answer given to the loop.
pub struct Outcome {
    pub watcher: Watcher,
    pub reply: Result<Action, StepError>,
}

impl Watcher {
    /// The watcher moved to `stage`, everything else kept.
    pub open spec fn at(self, stage: Stage) -> Watcher {
        Watcher { stage, ..self }
    }

    /// Whether a poll answered by `lookup` is an entry into `target`: the
    /// watcher is armed, the latest known snapshot was outside the channel,
    /// and this one is inside.
    pub open spec fn detects_join(self, target: u64, lookup: Lookup) -> bool {
        self.stage is Polling && !self.prior_in_target && lookup.shows_in(target)
    }

    /// The stage in which a watcher asks for the shared session: joining
    /// where it is free, queued where it is not.
    pub open spec fn claim(self, config: WatchConfig, session_free: bool) -> Outcome {
        if session_free {
            Outcome {
                watcher: Watcher { stage: Stage::Joining, prior_in_target: true, ..self },
                reply: Ok(
                    Action::Join {
                        community_id: config.community_id,
                        channel_id: config.target_channel_id,
                    },
                ),
            }
        } else {
            Outcome {
                watcher: Watcher { stage: Stage::Queued, prior_in_target: true, ..self },
                reply: Ok(Action::AwaitSession { delay_ms: config.poll_interval_ms }),
            }
        }
    }

    /// What a poll does to a polling watcher. An unavailable answer changes
    /// nothing. A known one is remembered, and is an entry exactly where
    /// `detects_join` holds.
    pub open spec fn observe(self, config: WatchConfig, lookup: Lookup, session_free: bool) -> Outcome {
        let again = Ok(Action::Poll { delay_ms: config.poll_interval_ms });
        match lookup {
            Lookup::Unavailable => Outcome { watcher: self, reply: again },
            Lookup::Found(vs) => if !vs.is_in(config.target_channel_id) {
                Outcome {
                    watcher: Watcher { stage: Stage::Polling, prior_in_target: false, ..self },
                    reply: again,
                }
            } else if self.detects_join(config.target_channel_id, lookup) {
                self.claim(config, session_free)
            } else {
                Outcome { watcher: Watcher { prior_in_target: true, ..self }, reply: again }
            },
        }
    }

    /// The watcher back at polling after a cycle, disarmed until its user is
    /// seen outside the channel, with `action` as the answer.
    pub open spec fn resume(self, action: Action) -> Outcome {
        Outcome {
            watcher: Watcher { stage: Stage::Polling, prior_in_target: true, ..self },
            reply: Ok(action),
        }
    }

    /// The event refused and the watcher unchanged.
    pub open spec fn refuse(self) -> Outcome {
        Outcome { watcher: self, reply: Err(StepError::UnexpectedEvent) }
    }

    /// The transition function: the watcher after `event` and the answer to
    /// the loop. `session_free` says whether the shared session can be taken
    /// at this moment; it matters only where the watcher asks for it.
    pub open spec fn transition(self, config: WatchConfig, event: Event, session_free: bool) -> Outcome {
        match event {
            Event::Snapshot(lookup) => if self.stage.polls() {
                self.observe(config, lookup, session_free)
            } else {
                self.refuse()
            },
            Event::SessionWaitElapsed => if self.stage is Queued {
                self.claim(config, session_free)
            } else {
                self.refuse()
            },
            Event::Joined => if self.stage is Joining {
                Outcome {
                    watcher: self.at(Stage::Starting),
                    reply: Ok(Action::Play { user_id: self.user_id }),
                }
            } else {
                self.refuse()
            },
            Event::JoinFailed => if self.stage is Joining {
                self.resume(Action::Poll { delay_ms: config.retry_backoff_ms })
            } else {
                self.refuse()
            },
            Event::PlayStarted(reported_ms) => if self.stage is Starting {
                Outcome {
                    watcher: self.at(Stage::Sounding),
                    reply: Ok(Action::Wait { ms: config.clip_wait(reported_ms) }),
                }
            } else {
                self.refuse()
            },
            Event::SourceError => if self.stage is Starting {
                self.resume(Action::ReleaseAndPoll { delay_ms: config.poll_interval_ms })
            } else {
                self.refuse()
            },
            Event::PlaybackElapsed => if self.stage is Sounding {
                Outcome { watcher: self.at(Stage::Leaving), reply: Ok(Action::Leave) }
            } else {
                self.refuse()
            },
            Event::Left => if self.stage is Leaving {
                self.resume(Action::Poll { delay_ms: config.poll_interval_ms })
            } else {
                self.refuse()
            },
            Event::LeaveFailed => if self.stage is Leaving {
                self.resume(Action::Poll { delay_ms: config.retry_backoff_ms })
            } else {
                self.refuse()
            },
        }
    }

    /// A watcher for `user_id` as it starts: waiting for the channel to be
    /// vacated where the configuration asks for that, armed otherwise.
    pub fn new(user_id: u64, config: &WatchConfig) -> (w: Watcher)
        ensures
            w == Watcher::initial(user_id, *config),
    {
        if config.vacate_first {
            Watcher { user_id, stage: Stage::Vacating, prior_in_target: true }
        } else {
            Watcher { user_id, stage: Stage::Polling, prior_in_target: false }
        }
    }

    /// The watcher that [`Watcher::new`] returns.
    pub open spec fn initial(user_id: u64, config: WatchConfig) -> Watcher {
        Watcher {
            user_id,
            stage: if config.vacate_first {
                Stage::Vacating
            } else {
                Stage::Polling
            },
            prior_in_target: config.vacate_first,
        }
    }

    /// Takes the answer of one poll. Refused unless the watcher is polling.
    pub fn on_snapshot(&mut self, lookup: Lookup, config: &WatchConfig, session_free: bool) -> (r: Result<Action, StepError>)
        ensures
            *final(self) == old(self).transition(*config, Event::Snapshot(lookup), session_free).watcher,
            r == old(self).transition(*config, Event::Snapshot(lookup), session_free).reply,
    {
        match self.stage {
            Stage::Vacating => {},
            Stage::Polling => {},
            _ => {
                return Err(StepError::UnexpectedEvent);
            },
        }
        match lookup {
            Lookup::Unavailable => Ok(Action::Poll { delay_ms: config.poll_interval_ms }),
            Lookup::Found(vs) => {
                if !vs.in_channel(config.target_channel_id) {
                    self.stage = Stage::Polling;
                    self.prior_in_target = false;
                    Ok(Action::Poll { delay_ms: config.poll_interval_ms })
                } else {
                    let armed = match self.stage {
                        Stage::Polling => !self.prior_in_target,
                        _ => false,
                    };
                    if armed {
                        Ok(self.claim_session(config, session_free))
                    } else {
                        self.prior_in_target = true;
                        Ok(Action::Poll { delay_ms: config.poll_interval_ms })
                    }
                }
            },
        }
    }

    /// Asks for the shared session: the watcher joins where it is free and
    /// waits in the queue where it is not.
    fn claim_session(&mut self, config: &WatchConfig, session_free: bool) -> (a: Action)
        ensures
            *final(self) == old(self).claim(*config, session_free).watcher,
            Ok::<Action, StepError>(a) == old(self).claim(*config, session_free).reply,
    {
        self.prior_in_target = true;
        if session_free {
            self.stage = Stage::Joining;
            Action::Join { community_id: config.community_id, channel_id: config.target_channel_id }
        } else {
            self.stage = Stage::Queued;
            Action::AwaitSession { delay_ms: config.poll_interval_ms }
        }
    }

    /// Ends the cycle: back to polling, disarmed.
    fn back_to_polling(&mut self, action: Action) -> (r: Result<Action, StepError>)
        ensures
            *final(self) == old(self).resume(action).watcher,
            r == old(self).resume(action).reply,
    {
        self.stage = Stage::Polling;
        self.prior_in_target = true;
        Ok(action)
    }

    /// Takes one event and answers with the next action, or refuses the
    /// event and stays as it is. The watcher afterwards and the answer are
    /// those of [`Watcher::transition`].
    pub fn step(&mut self, event: Event, config: &WatchConfig, session_free: bool) -> (r: Result<Action, StepError>)
        ensures
            *final(self) == old(self).transition(*config, event, session_free).watcher,
            r == old(self).transition(*config, event, session_free).reply,
    {
        match (event, self.stage) {
            (Event::Snapshot(lookup), _) => self.on_snapshot(lookup, config, session_free),
            (Event::SessionWaitElapsed, Stage::Queued) => Ok(self.claim_session(config, session_free)),
            (Event::Joined, Stage::Joining) => {
                self.stage = Stage::Starting;
                Ok(Action::Play { user_id: self.user_id })
            },
            (Event::JoinFailed, Stage::Joining) => self.back_to_polling(
                Action::Poll { delay_ms: config.retry_backoff_ms },
            ),
            (Event::PlayStarted(reported_ms), Stage::Starting) => {
                self.stage = Stage::Sounding;
                Ok(Action::Wait { ms: config.clip_wait_ms(reported_ms) })
            },
            (Event::SourceError, Stage::Starting) => self.back_to_polling(
                Action::ReleaseAndPoll { delay_ms: config.poll_interval_ms },
            ),
            (Event::PlaybackElapsed, Stage::Sounding) => {
                self.stage = Stage::Leaving;
                Ok(Action::Leave)
            },
            (Event::Left, Stage::Leaving) => self.back_to_polling(
                Action::Poll { delay_ms: config.poll_interval_ms },
            ),
            (Event::LeaveFailed, Stage::Leaving) => self.back_to_polling(
                Action::Poll { delay_ms: config.retry_backoff_ms },
            ),
            _ => Err(StepError::UnexpectedEvent),
        }
    }

    /// The watcher's state.
    pub fn state(&self) -> (s: WatchState)
        ensures
            s == self.stage.state(),
    {
        self.stage.watch_state()
    }
}

} // verus!
