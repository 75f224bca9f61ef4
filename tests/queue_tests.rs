use music_bot::{
    Player, CachedSong, LoopMode, NullQueueSaver, PlayerError, QueueError, QueueManager, QueueSaver, Song,
    TransportAction, YtSong,
};

fn song(id: &str) -> Song {
    Song::Live(YtSong {
        id: id.to_string(),
        title: format!("title {}", id),
        artist: "artist".to_string(),
        duration: Some(100),
        extension: None,
        yt_id: id.to_string(),
    })
}

fn ids(songs: &[Song]) -> Vec<String> {
    songs.iter().map(|s| s.get_id().clone()).collect()
}

fn current_id(qm: &QueueManager<NullQueueSaver>) -> Option<String> {
    qm.get_current_song().map(|c| c.song.get_id().clone())
}

fn played_id(a: &TransportAction) -> Option<String> {
    match a {
        TransportAction::Play(s, _) => Some(s.get_id().clone()),
        _ => None,
    }
}

fn connected_manager() -> QueueManager<NullQueueSaver> {
    let mut qm = QueueManager::new(NullQueueSaver::_new());
    let a = qm.call_joined();
    assert!(matches!(a, TransportAction::Nothing));
    qm
}

#[test]
fn add_to_idle_connected_player_starts_playback() {
    let mut qm = connected_manager();
    let a = qm.add_to_queue(vec![song("a"), song("b")]);
    assert_eq!(played_id(&a), Some("a".to_string()));
    assert_eq!(current_id(&qm), Some("a".to_string()));
    assert_eq!(ids(&qm.get_queue()), vec!["b".to_string()]);
}

#[test]
fn add_to_disconnected_player_only_queues() {
    let mut qm = QueueManager::new(NullQueueSaver::_new());
    let a = qm.add_to_queue(vec![song("a"), song("b")]);
    assert!(matches!(a, TransportAction::Nothing));
    assert_eq!(current_id(&qm), None);
    assert_eq!(ids(&qm.get_queue()), vec!["a".to_string(), "b".to_string()]);
}

#[test]
fn add_to_busy_player_does_not_restart() {
    let mut qm = connected_manager();
    qm.add_to_queue(vec![song("a")]);
    let a = qm.add_to_queue(vec![song("b")]);
    assert!(matches!(a, TransportAction::Nothing));
    assert_eq!(current_id(&qm), Some("a".to_string()));
    assert_eq!(ids(&qm.get_queue()), vec!["b".to_string()]);
}

#[test]
fn call_joined_starts_waiting_songs() {
    let mut qm = QueueManager::new(NullQueueSaver::_new());
    qm.add_to_queue(vec![song("a"), song("b")]);
    let a = qm.call_joined();
    assert_eq!(played_id(&a), Some("a".to_string()));
    assert!(qm.call_left());
    assert!(!qm.call_left());
    assert_eq!(current_id(&qm), Some("a".to_string()));
}

#[test]
fn song_loop_replays_after_natural_end() {
    let mut qm = connected_manager();
    qm.add_to_queue(vec![song("a"), song("b")]);
    qm.set_loop(LoopMode::Song);
    let track = qm.get_current_song().unwrap().track;
    let a = qm.track_ended(track);
    assert_eq!(played_id(&a), Some("a".to_string()));
    assert_eq!(current_id(&qm), Some("a".to_string()));
    assert_eq!(ids(&qm.get_queue()), vec!["b".to_string()]);
}

#[test]
fn song_loop_skip_drops_song() {
    let mut qm = connected_manager();
    qm.add_to_queue(vec![song("a"), song("b")]);
    qm.set_loop(LoopMode::Song);
    let (skipped, a) = qm.skip().unwrap();
    assert_eq!(skipped.get_id(), "a");
    assert_eq!(played_id(&a), Some("b".to_string()));
    assert_eq!(current_id(&qm), Some("b".to_string()));
    assert!(qm.get_queue().is_empty());
}

#[test]
fn queue_loop_cycles_in_order() {
    let mut qm = connected_manager();
    qm.add_to_queue(vec![song("a"), song("b"), song("c")]);
    qm.set_loop(LoopMode::Queue);
    let mut seen = vec![current_id(&qm).unwrap()];
    for _ in 0..6 {
        let track = qm.get_current_song().unwrap().track;
        qm.track_ended(track);
        seen.push(current_id(&qm).unwrap());
    }
    assert_eq!(seen, vec!["a", "b", "c", "a", "b", "c", "a"]);
    assert_eq!(ids(&qm.get_queue()), vec!["b".to_string(), "c".to_string()]);
}

#[test]
fn repeat_two_plays_song_twice_more_then_drops_it() {
    let mut qm = connected_manager();
    qm.add_to_queue(vec![song("a"), song("b")]);
    qm.set_loop(LoopMode::Repeat(2));
    let t = qm.get_current_song().unwrap().track;
    qm.track_ended(t);
    assert_eq!(current_id(&qm), Some("a".to_string()));
    assert_eq!(qm.get_loop_mode(), LoopMode::Repeat(1));
    let t = qm.get_current_song().unwrap().track;
    qm.track_ended(t);
    assert_eq!(current_id(&qm), Some("a".to_string()));
    assert_eq!(qm.get_loop_mode(), LoopMode::Off);
    let t = qm.get_current_song().unwrap().track;
    qm.track_ended(t);
    assert_eq!(current_id(&qm), Some("b".to_string()));
    assert!(qm.get_queue().is_empty());
}

#[test]
fn stale_track_end_is_ignored() {
    let mut qm = connected_manager();
    qm.add_to_queue(vec![song("a"), song("b"), song("c")]);
    let old_track = qm.get_current_song().unwrap().track;
    qm.skip().unwrap();
    assert_eq!(current_id(&qm), Some("b".to_string()));
    let a = qm.track_ended(old_track);
    assert!(matches!(a, TransportAction::Nothing));
    assert_eq!(current_id(&qm), Some("b".to_string()));
}

#[test]
fn natural_end_of_last_song_leaves_player_idle() {
    let mut qm = connected_manager();
    qm.add_to_queue(vec![song("a")]);
    let t = qm.get_current_song().unwrap().track;
    let a = qm.track_ended(t);
    assert!(matches!(a, TransportAction::Nothing));
    assert_eq!(current_id(&qm), None);
    let a = qm.add_to_queue(vec![song("b")]);
    assert_eq!(played_id(&a), Some("b".to_string()));
}

#[test]
fn skip_with_nothing_playing_fails() {
    let mut qm = connected_manager();
    assert!(matches!(qm.skip(), Err(PlayerError::NothingPlaying)));
}

#[test]
fn skip_of_last_song_stops_track() {
    let mut qm = connected_manager();
    qm.add_to_queue(vec![song("a")]);
    let (_, a) = qm.skip().unwrap();
    assert!(matches!(a, TransportAction::Stop));
}

#[test]
fn swap_out_of_range_names_index_and_changes_nothing() {
    let mut qm = QueueManager::new(NullQueueSaver::_new());
    qm.add_to_queue(vec![song("a"), song("b")]);
    assert_eq!(qm.swap(5, 0), Err(5));
    assert_eq!(qm.swap(0, 2), Err(2));
    assert_eq!(qm.swap(3, 4), Err(3));
    assert_eq!(ids(&qm.get_queue()), vec!["a".to_string(), "b".to_string()]);
    assert_eq!(qm.swap(0, 1), Ok(()));
    assert_eq!(ids(&qm.get_queue()), vec!["b".to_string(), "a".to_string()]);
}

#[test]
fn remove_by_index() {
    let mut qm = QueueManager::new(NullQueueSaver::_new());
    qm.add_to_queue(vec![song("a"), song("b"), song("c")]);
    assert!(qm.remove_from_queue_by_index(3).is_none());
    assert_eq!(qm.remove_from_queue_by_index(1).unwrap().get_id(), "b");
    assert_eq!(ids(&qm.get_queue()), vec!["a".to_string(), "c".to_string()]);
}

#[test]
fn clear_queue_skips_current_song() {
    let mut qm = connected_manager();
    qm.add_to_queue(vec![song("a"), song("b")]);
    let a = qm.clear_queue();
    assert!(matches!(a, TransportAction::Stop));
    assert_eq!(current_id(&qm), None);
    assert!(qm.get_queue().is_empty());
}

#[test]
fn clear_queue_in_queue_loop_keeps_current_song() {
    let mut qm = connected_manager();
    qm.add_to_queue(vec![song("a"), song("b")]);
    qm.set_loop(LoopMode::Queue);
    let a = qm.clear_queue();
    assert_eq!(played_id(&a), Some("a".to_string()));
    assert!(qm.get_queue().is_empty());
}

#[test]
fn pause_and_resume() {
    let mut qm = QueueManager::new(NullQueueSaver::_new());
    assert_eq!(qm.pause(), Err(PlayerError::NotConnected));
    qm.call_joined();
    assert_eq!(qm.pause(), Err(PlayerError::NothingPlaying));
    assert_eq!(qm.resume(), Err(PlayerError::NothingPlaying));
    qm.add_to_queue(vec![song("a")]);
    assert_eq!(qm.pause(), Ok(()));
    assert_eq!(qm.resume(), Ok(()));
}

#[test]
fn shuffle_keeps_the_same_songs() {
    let mut qm = QueueManager::new(NullQueueSaver::_new());
    let names: Vec<String> = (0..20).map(|i| i.to_string()).collect();
    qm.add_to_queue(names.iter().map(|n| song(n)).collect());
    qm.shuffle();
    let mut after = ids(&qm.get_queue());
    after.sort();
    let mut expected = names.clone();
    expected.sort();
    assert_eq!(after, expected);
}

#[test]
fn shuffle_changes_the_order() {
    let mut qm = QueueManager::new(NullQueueSaver::_new());
    let names: Vec<String> = (0..20).map(|i| i.to_string()).collect();
    qm.add_to_queue(names.iter().map(|n| song(n)).collect());
    let mut changed = false;
    for _ in 0..5 {
        qm.shuffle();
        if ids(&qm.get_queue()) != names {
            changed = true;
            break;
        }
    }
    assert!(changed);
}

#[test]
fn saving_an_empty_queue_fails() {
    let mut qm = QueueManager::new(NullQueueSaver::_new());
    assert_eq!(qm.add_saved_queue("x".to_string()), Err(QueueError::EmptyQueue));
    assert!(qm.get_saved_queue("x").is_none());
}

#[test]
fn saved_queue_round_trip_puts_current_song_first() {
    let mut qm = connected_manager();
    qm.add_to_queue(vec![song("a"), song("b"), song("c")]);
    assert_eq!(qm.add_saved_queue("x".to_string()), Ok(()));
    let saved = qm.get_saved_queue("x").unwrap();
    assert_eq!(saved, vec!["a".to_string(), "b".to_string(), "c".to_string()]);

    let mut other = connected_manager();
    other.add_to_queue(saved.iter().map(|id| song(id)).collect());
    let mut lineup = vec![current_id(&other).unwrap()];
    lineup.extend(ids(&other.get_queue()));
    assert_eq!(lineup, saved);

    assert_eq!(qm.list_saved_queues(), vec!["x".to_string()]);
    qm.remove_saved_queue("x");
    assert!(qm.get_saved_queue("x").is_none());
    assert!(qm.list_saved_queues().is_empty());
}

struct FixedSaver {
    queues: Vec<(String, Vec<String>)>,
}

impl QueueSaver for FixedSaver {
    fn save_queues(&self, _queues: &Vec<(String, Vec<String>)>) -> Result<(), String> {
        Err("read only".to_string())
    }

    fn load_queues(&self) -> Result<Vec<(String, Vec<String>)>, String> {
        Ok(self.queues.clone())
    }
}

#[test]
fn saved_queues_are_loaded_later_entries_winning() {
    let saver = FixedSaver {
        queues: vec![
            ("x".to_string(), vec!["1".to_string()]),
            ("y".to_string(), vec!["2".to_string()]),
            ("x".to_string(), vec!["3".to_string()]),
        ],
    };
    let qm = QueueManager::new(saver);
    assert_eq!(qm.get_saved_queue("x"), Some(vec!["3".to_string()]));
    assert_eq!(qm.get_saved_queue("y"), Some(vec!["2".to_string()]));
    assert_eq!(qm.list_saved_queues().len(), 2);
    assert_eq!(qm.save_queues(), Err("read only".to_string()));
}

#[test]
fn cached_songs_play_too() {
    let mut qm = connected_manager();
    let s = Song::Cached(CachedSong::new(
        "c".to_string(),
        "/cache/c.mp3".to_string(),
        "T".to_string(),
        "A".to_string(),
        Some(5),
    ));
    let a = qm.add_to_queue(vec![s]);
    assert_eq!(played_id(&a), Some("c".to_string()));
}

#[test]
fn loop_mode_parse() {
    assert_eq!(LoopMode::parse("Song"), Some(LoopMode::Song));
    assert_eq!(LoopMode::parse("QUEUE"), Some(LoopMode::Queue));
    assert_eq!(LoopMode::parse("none"), Some(LoopMode::Off));
    assert_eq!(LoopMode::parse("songs"), None);
    assert_eq!(LoopMode::parse(""), None);
}

#[test]
fn remove_from_queue_by_ids() {
    let mut qm = QueueManager::new(NullQueueSaver::_new());
    qm.add_to_queue(vec![song("a"), song("b"), song("a"), song("c")]);
    qm._remove_from_queue(vec!["a".to_string(), "x".to_string()]);
    assert_eq!(ids(&qm.get_queue()), vec!["b".to_string(), "c".to_string()]);
}

#[test]
fn saved_queue_record_keeps_ids() {
    let q = music_bot::SavedQueue::new("mix".to_string(), &vec![song("a"), song("b")]);
    assert_eq!(q.name, "mix");
    assert_eq!(q.get_ids(), vec!["a".to_string(), "b".to_string()]);
}

#[test]
fn play_without_call_takes_old_song_off() {
    let mut p = Player::new();
    p.call_joined();
    assert_eq!(p.play(song("a")), Ok(0));
    assert!(p.call_left());
    assert_eq!(p.play(song("b")), Err(PlayerError::NotConnected));
    assert!(p.get_current_song().is_none());
    p.call_joined();
    assert_eq!(p.play(song("c")), Ok(1));
    assert_eq!(p.get_current_song().unwrap().song.get_id(), "c");
}

#[test]
fn saved_entries_list_every_queue() {
    let mut qm = connected_manager();
    qm.add_to_queue(vec![song("a"), song("b")]);
    qm.add_saved_queue("x".to_string()).unwrap();
    qm.add_saved_queue("y".to_string()).unwrap();
    let entries = qm.saved_entries();
    assert_eq!(entries.len(), 2);
    assert_eq!(entries[0].1, vec!["a".to_string(), "b".to_string()]);
}
