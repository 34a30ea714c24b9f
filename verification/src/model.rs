use vstd::prelude::*;

verus! {

/// A user whose entry into the target channel is announced with a clip.
/// The list of monitored users is fixed when the orchestrator is built.
#[derive(Clone, Debug)]
pub struct MonitoredUser {
    pub user_id: u64,
    pub audio_uri: String,
    pub display_name: String,
}

/// One observation of where a user is: the voice channel they are connected
/// to, or none. It is a snapshot, not an event.
#[derive(Clone, Copy, Debug, PartialEq, Eq)]
pub struct VoiceState {
    pub user_id: u64,
    pub channel_id: Option<u64>,
}

impl VoiceState {
    /// Whether this observation places the user in `channel`.
    pub open spec fn is_in(self, channel: u64) -> bool {
        self.channel_id == Some(channel)
    }

    /// Executable form of [`VoiceState::is_in`].
    pub fn in_channel(&self, channel: u64) -> (r: bool)
        ensures
            r == self.is_in(channel),
    {
        match self.channel_id {
            Some(c) => c == channel,
            None => false,
        }
    }
}

/// What the voice-state source answered to one poll. `Unavailable` (the
/// source has nothing cached yet, or the read failed) is kept apart from a
/// known state with no channel.
#[derive(Clone, Copy, Debug, PartialEq, Eq)]
pub enum Lookup {
    Unavailable,
    Found(VoiceState),
}

impl Lookup {
    /// Whether the answer is a known state that places the user in `channel`.
    pub open spec fn shows_in(self, channel: u64) -> bool {
        self matches Lookup::Found(vs) && vs.is_in(channel)
    }

    /// Whether the answer is a known state that places the user outside
    /// `channel`.
    pub open spec fn shows_outside(self, channel: u64) -> bool {
        self matches Lookup::Found(vs) && !vs.is_in(channel)
    }
}

/// The parameters shared by every watcher of one community.
#[derive(Clone, Copy, Debug, PartialEq, Eq)]
pub struct WatchConfig {
    /// The community whose voice session the watchers share.
    pub community_id: u64,
    /// The voice channel whose entries are announced.
    pub target_channel_id: u64,
    /// Time between two polls of the voice-state source.
    pub poll_interval_ms: u64,
    /// How long to wait out a clip whose source reports no duration.
    pub fallback_clip_ms: u64,
    /// Time before the next poll after a join or leave failed.
    pub retry_backoff_ms: u64,
    /// Whether a watcher starts by waiting for its user to be seen outside
    /// the target channel, so that presence at start-up announces nothing.
    pub vacate_first: bool,
}

impl WatchConfig {
    /// How long a started clip is waited out: its reported duration, or the
    /// fallback when the source reported none.
    pub open spec fn clip_wait(self, reported_ms: Option<u64>) -> u64 {
        match reported_ms {
            Some(ms) => ms,
            None => self.fallback_clip_ms,
        }
    }

    /// Executable form of [`WatchConfig::clip_wait`].
    pub fn clip_wait_ms(&self, reported_ms: Option<u64>) -> (ms: u64)
        ensures
            ms == self.clip_wait(reported_ms),
    {
        match reported_ms {
            Some(ms) => ms,
            None => self.fallback_clip_ms,
        }
    }
}

} // verus!
