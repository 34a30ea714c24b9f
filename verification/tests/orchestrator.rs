use fanfare::model::{Lookup, MonitoredUser, VoiceState, WatchConfig};
use fanfare::orchestrator::Orchestrator;
use fanfare::watcher::{Action, Event, Stage, StepError, WatchState};

const COMMUNITY: u64 = 350;
const CHANNEL_X: u64 = 767;
const BRIE: u64 = 666;
const FIONA: u64 = 331;

fn config() -> WatchConfig {
    WatchConfig {
        community_id: COMMUNITY,
        target_channel_id: CHANNEL_X,
        poll_interval_ms: 1000,
        fallback_clip_ms: 6000,
        retry_backoff_ms: 4000,
        vacate_first: true,
    }
}

fn users() -> Vec<MonitoredUser> {
    vec![
        MonitoredUser {
            user_id: BRIE,
            audio_uri: String::from("clips/brie.wav"),
            display_name: String::from("Brie"),
        },
        MonitoredUser {
            user_id: FIONA,
            audio_uri: String::from("clips/fiona.wav"),
            display_name: String::from("Fiona"),
        },
    ]
}

fn seen(user_id: u64, channel: Option<u64>) -> Event {
    Event::Snapshot(Lookup::Found(VoiceState { user_id, channel_id: channel }))
}

fn occupants(o: &Orchestrator) -> Vec<usize> {
    (0..o.len()).filter(|i| o.watcher(*i).unwrap().stage.holds_session()).collect()
}

#[test]
fn one_watcher_per_user_in_order() {
    let o = Orchestrator::new(config(), users());
    assert_eq!(o.len(), 2);
    assert_eq!(o.config(), config());
    assert_eq!(o.active_cycle(), None);
    assert_eq!(o.watcher(0).unwrap().user_id, BRIE);
    assert_eq!(o.watcher(1).unwrap().user_id, FIONA);
    assert_eq!(o.user(0).unwrap().audio_uri, "clips/brie.wav");
    assert_eq!(o.user(1).unwrap().display_name, "Fiona");
    assert_eq!(o.state_of(0), Some(WatchState::AwaitingLeaveOfPriorOccupant));
    assert_eq!(o.state_of(1), Some(WatchState::AwaitingLeaveOfPriorOccupant));
    assert_eq!(o.watcher(2), None);
    assert_eq!(o.state_of(2), None);
    assert!(o.user(2).is_none());
}

#[test]
fn no_users_no_watchers() {
    let mut o = Orchestrator::new(config(), Vec::new());
    assert_eq!(o.len(), 0);
    assert_eq!(o.dispatch(0, Event::Joined), Err(StepError::NoSuchWatcher));
}

#[test]
fn unknown_index_is_refused() {
    let mut o = Orchestrator::new(config(), users());
    assert_eq!(o.dispatch(2, seen(BRIE, None)), Err(StepError::NoSuchWatcher));
    assert_eq!(o.dispatch(usize::MAX, seen(BRIE, None)), Err(StepError::NoSuchWatcher));
    assert_eq!(o.state_of(0), Some(WatchState::AwaitingLeaveOfPriorOccupant));
    assert_eq!(o.active_cycle(), None);
}

#[test]
fn a_step_changes_only_its_watcher() {
    let mut o = Orchestrator::new(config(), users());
    let other = o.watcher(1).unwrap();
    assert_eq!(o.dispatch(0, seen(BRIE, None)), Ok(Action::Poll { delay_ms: 1000 }));
    assert_eq!(o.state_of(0), Some(WatchState::AwaitingJoin));
    assert_eq!(o.watcher(1), Some(other));
}

#[test]
fn two_entries_in_one_tick_play_one_after_the_other() {
    let mut o = Orchestrator::new(config(), users());
    for (i, user) in [BRIE, FIONA].iter().enumerate() {
        assert_eq!(o.dispatch(i, seen(*user, None)), Ok(Action::Poll { delay_ms: 1000 }));
    }
    // Both enter in the same tick.
    assert_eq!(
        o.dispatch(0, seen(BRIE, Some(CHANNEL_X))),
        Ok(Action::Join { community_id: COMMUNITY, channel_id: CHANNEL_X })
    );
    assert_eq!(o.dispatch(1, seen(FIONA, Some(CHANNEL_X))), Ok(Action::AwaitSession { delay_ms: 1000 }));
    assert_eq!(o.active_cycle(), Some(0));
    assert_eq!(occupants(&o), vec![0]);
    assert_eq!(o.state_of(1), Some(WatchState::DetectedJoin));

    // The first cycle runs; the second keeps waiting and is never dropped.
    let mut played = Vec::new();
    assert_eq!(o.dispatch(0, Event::Joined), Ok(Action::Play { user_id: BRIE }));
    played.push(BRIE);
    assert_eq!(o.dispatch(1, Event::SessionWaitElapsed), Ok(Action::AwaitSession { delay_ms: 1000 }));
    assert_eq!(o.dispatch(0, Event::PlayStarted(Some(900))), Ok(Action::Wait { ms: 900 }));
    assert_eq!(o.dispatch(1, Event::SessionWaitElapsed), Ok(Action::AwaitSession { delay_ms: 1000 }));
    assert_eq!(occupants(&o), vec![0]);
    assert_eq!(o.dispatch(0, Event::PlaybackElapsed), Ok(Action::Leave));
    assert_eq!(o.dispatch(1, Event::SessionWaitElapsed), Ok(Action::AwaitSession { delay_ms: 1000 }));
    assert_eq!(o.dispatch(0, Event::Left), Ok(Action::Poll { delay_ms: 1000 }));
    assert_eq!(o.active_cycle(), None);
    assert_eq!(occupants(&o), Vec::<usize>::new());

    // Now the second gets its turn.
    assert_eq!(
        o.dispatch(1, Event::SessionWaitElapsed),
        Ok(Action::Join { community_id: COMMUNITY, channel_id: CHANNEL_X })
    );
    assert_eq!(o.active_cycle(), Some(1));
    assert_eq!(o.dispatch(1, Event::Joined), Ok(Action::Play { user_id: FIONA }));
    played.push(FIONA);
    assert_eq!(o.dispatch(1, Event::PlayStarted(None)), Ok(Action::Wait { ms: 6000 }));
    assert_eq!(occupants(&o), vec![1]);
    assert_eq!(o.dispatch(1, Event::PlaybackElapsed), Ok(Action::Leave));
    assert_eq!(o.dispatch(1, Event::Left), Ok(Action::Poll { delay_ms: 1000 }));
    assert_eq!(o.active_cycle(), None);
    assert_eq!(played, vec![BRIE, FIONA]);
    assert_eq!(o.state_of(0), Some(WatchState::AwaitingJoin));
    assert_eq!(o.state_of(1), Some(WatchState::AwaitingJoin));
}

#[test]
fn source_error_frees_the_session_without_leave() {
    let mut o = Orchestrator::new(config(), users());
    assert_eq!(o.dispatch(0, seen(BRIE, None)), Ok(Action::Poll { delay_ms: 1000 }));
    assert!(matches!(o.dispatch(0, seen(BRIE, Some(CHANNEL_X))), Ok(Action::Join { .. })));
    assert_eq!(o.dispatch(0, Event::Joined), Ok(Action::Play { user_id: BRIE }));
    assert_eq!(o.active_cycle(), Some(0));
    assert_eq!(o.dispatch(0, Event::SourceError), Ok(Action::ReleaseAndPoll { delay_ms: 1000 }));
    assert_eq!(o.active_cycle(), None);
    assert_eq!(o.state_of(0), Some(WatchState::AwaitingJoin));
    assert_eq!(o.watcher(0).unwrap().stage, Stage::Polling);
    // Nothing is left to leave.
    assert_eq!(o.dispatch(0, Event::Left), Err(StepError::UnexpectedEvent));
    assert_eq!(o.dispatch(0, Event::PlaybackElapsed), Err(StepError::UnexpectedEvent));
    // The other watcher can take the session at once.
    assert_eq!(o.dispatch(1, seen(FIONA, None)), Ok(Action::Poll { delay_ms: 1000 }));
    assert!(matches!(o.dispatch(1, seen(FIONA, Some(CHANNEL_X))), Ok(Action::Join { .. })));
    assert_eq!(o.active_cycle(), Some(1));
}

#[test]
fn join_failure_frees_the_session() {
    let mut o = Orchestrator::new(config(), users());
    assert_eq!(o.dispatch(1, seen(FIONA, None)), Ok(Action::Poll { delay_ms: 1000 }));
    assert!(matches!(o.dispatch(1, seen(FIONA, Some(CHANNEL_X))), Ok(Action::Join { .. })));
    assert_eq!(o.active_cycle(), Some(1));
    assert_eq!(o.dispatch(1, Event::JoinFailed), Ok(Action::Poll { delay_ms: 4000 }));
    assert_eq!(o.active_cycle(), None);
}

#[test]
fn leave_failure_frees_the_session() {
    let mut o = Orchestrator::new(config(), users());
    assert_eq!(o.dispatch(0, seen(BRIE, None)), Ok(Action::Poll { delay_ms: 1000 }));
    assert!(matches!(o.dispatch(0, seen(BRIE, Some(CHANNEL_X))), Ok(Action::Join { .. })));
    assert_eq!(o.dispatch(0, Event::Joined), Ok(Action::Play { user_id: BRIE }));
    assert_eq!(o.dispatch(0, Event::PlayStarted(Some(5))), Ok(Action::Wait { ms: 5 }));
    assert_eq!(o.dispatch(0, Event::PlaybackElapsed), Ok(Action::Leave));
    assert_eq!(o.active_cycle(), Some(0));
    assert_eq!(o.dispatch(0, Event::LeaveFailed), Ok(Action::Poll { delay_ms: 4000 }));
    assert_eq!(o.active_cycle(), None);
}

#[test]
fn refused_event_changes_nothing() {
    let mut o = Orchestrator::new(config(), users());
    let before = (o.watcher(0), o.watcher(1), o.active_cycle());
    assert_eq!(o.dispatch(0, Event::Left), Err(StepError::UnexpectedEvent));
    assert_eq!((o.watcher(0), o.watcher(1), o.active_cycle()), before);
}

#[test]
fn unavailable_lookup_keeps_the_orchestrator_as_it_is() {
    let mut o = Orchestrator::new(config(), users());
    assert_eq!(o.dispatch(0, seen(BRIE, None)), Ok(Action::Poll { delay_ms: 1000 }));
    let before = o.watcher(0);
    assert_eq!(o.dispatch(0, Event::Snapshot(Lookup::Unavailable)), Ok(Action::Poll { delay_ms: 1000 }));
    assert_eq!(o.watcher(0), before);
    assert_eq!(o.active_cycle(), None);
}

#[test]
fn shut_down_stops_every_watcher() {
    let mut o = Orchestrator::new(config(), users());
    assert!(!o.is_shut_down());
    assert_eq!(o.dispatch(0, seen(BRIE, None)), Ok(Action::Poll { delay_ms: 1000 }));
    assert_eq!(o.shut_down(), None);
    assert!(o.is_shut_down());
    let before = (o.watcher(0), o.watcher(1));
    assert_eq!(o.dispatch(0, seen(BRIE, Some(CHANNEL_X))), Err(StepError::ShutDown));
    assert_eq!(o.dispatch(1, seen(FIONA, None)), Err(StepError::ShutDown));
    assert_eq!(o.dispatch(7, Event::Joined), Err(StepError::ShutDown));
    assert_eq!((o.watcher(0), o.watcher(1)), before);
    assert_eq!(o.active_cycle(), None);
}

#[test]
fn shut_down_names_the_cycle_to_abort() {
    let mut o = Orchestrator::new(config(), users());
    assert_eq!(o.dispatch(1, seen(FIONA, None)), Ok(Action::Poll { delay_ms: 1000 }));
    assert!(matches!(o.dispatch(1, seen(FIONA, Some(CHANNEL_X))), Ok(Action::Join { .. })));
    assert_eq!(o.dispatch(1, Event::Joined), Ok(Action::Play { user_id: FIONA }));
    assert_eq!(o.shut_down(), Some(1));
    assert_eq!(o.dispatch(1, Event::PlayStarted(None)), Err(StepError::ShutDown));
    assert_eq!(o.shut_down(), Some(1));
}
