use vstd::prelude::*;

use crate::player::{CurrentSong, LoopMode, Player, PlayerError};
use crate::song::{clone_songs, clone_strings, ids_of, song_ids, Song};
use crate::store::StringMap;
use vstd::arithmetic::div_mod::{lemma_mod_sub_multiples_vanish, lemma_small_mod};

verus! {

/// One guild's queue and player, as the contracts see them.
pub struct QueueModel {
    /// Songs waiting, front first.
    pub queue: Seq<Song>,
    /// The song on the current track.
    pub current: Option<Song>,
    /// A voice call is attached.
    pub connected: bool,
    pub loop_mode: LoopMode,
}

/// The queue after `s` finished (or was skipped) under `mode`.
pub open spec fn requeued(q: Seq<Song>, s: Song, mode: LoopMode, skipped: bool) -> Seq<Song> {
    match mode {
        LoopMode::Off => q,
        LoopMode::Song => if skipped {
            q
        } else {
            seq![s] + q
        },
        LoopMode::Queue => q.push(s),
        LoopMode::Repeat(_) => seq![s] + q,
    }
}

/// The loop mode after a song finished: a repeat count goes down by one, and from one to off.
pub open spec fn mode_after(mode: LoopMode) -> LoopMode {
    match mode {
        LoopMode::Repeat(n) => if n <= 1 {
            LoopMode::Off
        } else {
            LoopMode::Repeat((n - 1) as u32)
        },
        m => m,
    }
}

/// The state once the current song is taken off and the loop policy applied.
pub open spec fn after_removal(m: QueueModel, skipped: bool) -> QueueModel {
    QueueModel {
        queue: requeued(m.queue, m.current.unwrap(), m.loop_mode, skipped),
        current: None,
        connected: m.connected,
        loop_mode: mode_after(m.loop_mode),
    }
}

/// The player can start the next song: a call is attached and the queue is not empty.
pub open spec fn can_start(m: QueueModel) -> bool {
    m.connected && m.queue.len() > 0
}

/// The state once the front of the queue, if the player can start it, became the current song.
pub open spec fn started(m: QueueModel) -> QueueModel {
    if can_start(m) {
        QueueModel {
            queue: m.queue.drop_first(),
            current: Some(m.queue[0]),
            connected: m.connected,
            loop_mode: m.loop_mode,
        }
    } else {
        m
    }
}

/// The state after the current song finished (`skipped` false) or was skipped.
pub open spec fn finished(m: QueueModel, skipped: bool) -> QueueModel {
    started(after_removal(m, skipped))
}

/// The songs of `q` whose id is not among `ids`, in order.
pub open spec fn without_ids(q: Seq<Song>, ids: Seq<Seq<char>>) -> Seq<Song>
    decreases q.len(),
{
    if q.len() == 0 {
        Seq::empty()
    } else if ids.contains(q.last().id_of()) {
        without_ids(q.drop_last(), ids)
    } else {
        without_ids(q.drop_last(), ids).push(q.last())
    }
}

fn contains_id(ids: &Vec<String>, id: &String) -> (r: bool)
    ensures
        r == id_views(ids@).contains(id@),
{
    let mut i: usize = 0;
    while i < ids.len()
        invariant
            i <= ids@.len(),
            forall|j: int| 0 <= j < i ==> ids@[j]@ != id@,
        decreases ids@.len() - i,
    {
        if ids[i] == *id {
            assert(id_views(ids@)[i as int] == id@);
            return true;
        }
        i += 1;
    }
    assert(!id_views(ids@).contains(id@)) by {
        if id_views(ids@).contains(id@) {
            let j = choose|j: int| 0 <= j < id_views(ids@).len() && id_views(ids@)[j] == id@;
            assert(ids@[j]@ == id@);
        }
    }
    false
}

/// Current song first, then the queue.
pub open spec fn lineup(m: QueueModel) -> Seq<Song> {
    match m.current {
        Some(c) => seq![c] + m.queue,
        None => m.queue,
    }
}

/// The ids a saved queue records: the current song's, then those of the queue.
pub open spec fn snapshot_ids(m: QueueModel) -> Seq<Seq<char>> {
    ids_of(lineup(m))
}

/// What the voice transport has to do after a change of state.
pub enum TransportAction {
    /// Nothing.
    Nothing,
    /// Stop the current track.
    Stop,
    /// Stop any current track, then play this song on a track with this number.
    Play(Song, u64),
}

#[derive(Debug, Clone, Copy, PartialEq, Eq, Structural)]
pub enum QueueError {
    /// There is nothing to save.
    EmptyQueue,
}

/// Durable storage of a guild's named saved queues.
pub trait QueueSaver {
    fn save_queues(&self, queues: &Vec<(String, Vec<String>)>) -> Result<(), String>;

    fn load_queues(&self) -> Result<Vec<(String, Vec<String>)>, String>;
}

/// A store that keeps nothing.
pub struct NullQueueSaver {}

impl NullQueueSaver {
    pub fn _new() -> NullQueueSaver {
        NullQueueSaver {}
    }
}

impl QueueSaver for NullQueueSaver {
    fn save_queues(&self, queues: &Vec<(String, Vec<String>)>) -> Result<(), String> {
        Ok(())
    }

    fn load_queues(&self) -> Result<Vec<(String, Vec<String>)>, String> {
        Ok(Vec::new())
    }
}

pub open spec fn id_views(v: Seq<String>) -> Seq<Seq<char>> {
    v.map_values(|s: String| s@)
}

/// Saved queues as a list of (name, ids) pairs, later pairs overriding earlier ones.
pub open spec fn saved_to_map(s: Seq<(String, Vec<String>)>) -> Map<Seq<char>, Seq<Seq<char>>>
    decreases s.len(),
{
    if s.len() == 0 {
        Map::empty()
    } else {
        saved_to_map(s.drop_last()).insert(s.last().0@, id_views(s.last().1@))
    }
}

/// A named list of song ids, as a saved queue is written out.
pub struct SavedQueue {
    pub name: String,
    pub ids: Vec<String>,
}

impl SavedQueue {
    pub fn new(name: String, queue: &Vec<Song>) -> (r: SavedQueue)
        ensures
            r.name == name,
            id_views(r.ids@) == ids_of(queue@),
    {
        let ids = song_ids(queue);
        SavedQueue { name, ids }
    }

    pub fn get_ids(&self) -> (r: Vec<String>)
        ensures
            r@ == self.ids@,
    {
        clone_strings(&self.ids)
    }
}

/// Relies on rand's SliceRandom::shuffle with the thread-local generator, which permutes the
/// slice in place by swaps.
#[verifier::external_body]
fn shuffle_in_place(v: &mut Vec<Song>)
    ensures
        final(v)@.len() == old(v)@.len(),
        final(v)@.to_multiset() == old(v)@.to_multiset(),
{
    rand::seq::SliceRandom::shuffle(v.as_mut_slice(), &mut rand::thread_rng())
}

/// One guild's queue of pending songs, its player and its saved queues.
pub struct QueueManager<QS: QueueSaver> {
    queue: Vec<Song>,
    saved_queues: StringMap<Vec<String>>,
    queue_saver: QS,
    player: Player,
}

impl<QS: QueueSaver> QueueManager<QS> {
    pub closed spec fn wf(&self) -> bool {
        self.saved_queues.wf() && self.player.wf()
    }

    pub closed spec fn model(&self) -> QueueModel {
        QueueModel {
            queue: self.queue@,
            current: match self.player.current() {
                Some(c) => Some(c.song),
                None => None,
            },
            connected: self.player.connected(),
            loop_mode: self.player.loop_mode(),
        }
    }

    /// The number of the current track, where a song plays.
    pub closed spec fn track(&self) -> u64 {
        self.player.current().unwrap().track
    }

    /// The number the next track gets.
    pub closed spec fn next_track(&self) -> u64 {
        self.player.next_track()
    }

    pub closed spec fn paused(&self) -> bool {
        self.player.paused()
    }

    pub closed spec fn saved(&self) -> Map<Seq<char>, Seq<Seq<char>>> {
        self.saved_queues@.map_values(|v: Vec<String>| id_views(v@))
    }

    pub closed spec fn saver(&self) -> QS {
        self.queue_saver
    }

    /// Replaces the saved queues by what the store returned; a failed load keeps none.
    pub fn restore_saved_queues(&mut self, loaded: Result<Vec<(String, Vec<String>)>, String>)
        requires
            old(self).wf(),
        ensures
            final(self).wf(),
            final(self).model() == old(self).model(),
            final(self).next_track() == old(self).next_track(),
            final(self).paused() == old(self).paused(),
            final(self).saver() == old(self).saver(),
            match loaded {
                Ok(v) => final(self).saved() == saved_to_map(v@),
                Err(_) => final(self).saved() == Map::<Seq<char>, Seq<Seq<char>>>::empty(),
            },
    {
        self.saved_queues.clear();
        assert(self.saved() =~= Map::<Seq<char>, Seq<Seq<char>>>::empty());
        match loaded {
            Ok(v) => {
                let mut i: usize = 0;
                assert(v@.subrange(0, 0) =~= Seq::<(String, Vec<String>)>::empty());
                while i < v.len()
                    invariant
                        self.wf(),
                        self.model() == old(self).model(),
                        self.next_track() == old(self).next_track(),
                        self.paused() == old(self).paused(),
                        self.saver() == old(self).saver(),
                        self.saved() == saved_to_map(v@.subrange(0, i as int)),
                        i <= v@.len(),
                    decreases v@.len() - i,
                {
                    let ids = clone_strings(&v[i].1);
                    self.saved_queues.insert(v[i].0.clone(), ids);
                    i += 1;
                    assert(v@.subrange(0, i as int).drop_last() =~= v@.subrange(0, i - 1));
                    assert(self.saved() =~= saved_to_map(v@.subrange(0, i as int)));
                }
                assert(v@.subrange(0, v@.len() as int) =~= v@);
            },
            Err(_) => {},
        }
    }

    /// An empty queue with a disconnected, idle player, and the saved queues the store holds.
    pub fn new(queue_saver: QS) -> (r: QueueManager<QS>)
        ensures
            r.wf(),
            r.model() == (QueueModel {
                queue: Seq::empty(),
                current: None,
                connected: false,
                loop_mode: LoopMode::Off,
            }),
            r.saver() == queue_saver,
            r.saved() == Map::<Seq<char>, Seq<Seq<char>>>::empty() || exists|v: Seq<(String, Vec<String>)>|
                r.saved() == saved_to_map(v),
    {
        let mut qm = QueueManager {
            queue: Vec::new(),
            saved_queues: StringMap::new(),
            queue_saver,
            player: Player::new(),
        };
        let loaded = qm.queue_saver.load_queues();
        qm.restore_saved_queues(loaded);
        assert(qm.model().queue =~= Seq::<Song>::empty());
        qm
    }

    /// Starts the front of the queue when a call is attached; otherwise leaves everything as is.
    fn play_next(&mut self) -> (r: TransportAction)
        requires
            old(self).wf(),
        ensures
            final(self).wf(),
            final(self).model() == started(old(self).model()),
            final(self).saved() == old(self).saved(),
            final(self).saver() == old(self).saver(),
            can_start(old(self).model()) ==> {
                &&& r == TransportAction::Play(old(self).model().queue[0], old(self).next_track())
                &&& final(self).track() == old(self).next_track()
                &&& final(self).next_track() == old(self).next_track().wrapping_add(1)
                &&& !final(self).paused()
            },
            !can_start(old(self).model()) ==> {
                &&& r == TransportAction::Nothing
                &&& final(self).next_track() == old(self).next_track()
                &&& final(self).paused() == old(self).paused()
                &&& old(self).model().current is Some ==> final(self).track() == old(self).track()
            },
    {
        if !self.player.is_connected() || self.queue.len() == 0 {
            return TransportAction::Nothing;
        }
        let song = self.queue.remove(0);
        let keep = song.clone_song();
        match self.player.play(song) {
            Ok(t) => {
                assert(self.model().queue =~= started(old(self).model()).queue);
                TransportAction::Play(keep, t)
            },
            Err(_) => TransportAction::Nothing,
        }
    }

    /// Takes the current song off the player and applies the loop policy to it.
    fn remove_current_song(&mut self, skipped: bool) -> (r: Option<Song>)
        requires
            old(self).wf(),
        ensures
            final(self).wf(),
            final(self).saved() == old(self).saved(),
            final(self).saver() == old(self).saver(),
            final(self).next_track() == old(self).next_track(),
            match old(self).model().current {
                Some(c) => r == Some(c) && final(self).model() == after_removal(old(self).model(), skipped)
                    && !final(self).paused(),
                None => r is None && final(self).model() == old(self).model()
                    && final(self).paused() == old(self).paused(),
            },
    {
        let song = match self.player.take_current_song() {
            Ok(s) => s,
            Err(_) => {
                return None;
            },
        };
        let mode = self.player.get_loop_mode();
        match mode {
            LoopMode::Off => {},
            LoopMode::Song => {
                if !skipped {
                    self.queue.insert(0, song.clone_song());
                }
            },
            LoopMode::Queue => {
                self.queue.push(song.clone_song());
            },
            LoopMode::Repeat(n) => {
                self.queue.insert(0, song.clone_song());
                if n <= 1 {
                    self.player.set_loop_mode(LoopMode::Off);
                } else {
                    self.player.set_loop_mode(LoopMode::Repeat(n - 1));
                }
            },
        }
        proof {
            let m = old(self).model();
            let c = m.current.unwrap();
            assert(self.model().queue =~= requeued(m.queue, c, m.loop_mode, skipped));
            assert(self.model() == after_removal(m, skipped));
        }
        Some(song)
    }

    /// Ends the current song, applies the loop policy and starts the next song.
    fn finish_current(&mut self, skipped: bool) -> (r: (Song, TransportAction))
        requires
            old(self).wf(),
            old(self).model().current is Some,
        ensures
            final(self).wf(),
            final(self).saved() == old(self).saved(),
            final(self).saver() == old(self).saver(),
            r.0 == old(self).model().current.unwrap(),
            final(self).model() == finished(old(self).model(), skipped),
            can_start(after_removal(old(self).model(), skipped)) ==> {
                &&& r.1 == TransportAction::Play(
                    after_removal(old(self).model(), skipped).queue[0],
                    old(self).next_track(),
                )
                &&& final(self).track() == old(self).next_track()
                &&& final(self).next_track() == old(self).next_track().wrapping_add(1)
            },
            !can_start(after_removal(old(self).model(), skipped)) ==> {
                &&& r.1 == if skipped {
                    TransportAction::Stop
                } else {
                    TransportAction::Nothing
                }
                &&& final(self).next_track() == old(self).next_track()
            },
            !final(self).paused(),
    {
        let song = self.remove_current_song(skipped).unwrap();
        let action = self.play_next();
        let action = match action {
            TransportAction::Nothing => if skipped {
                TransportAction::Stop
            } else {
                TransportAction::Nothing
            },
            a => a,
        };
        (song, action)
    }

    /// Appends `songs`; an idle player with a call attached starts the first waiting song.
    pub fn add_to_queue(&mut self, songs: Vec<Song>) -> (r: TransportAction)
        requires
            old(self).wf(),
        ensures
            final(self).wf(),
            final(self).saved() == old(self).saved(),
            final(self).saver() == old(self).saver(),
            ({
                let m = old(self).model();
                let added = QueueModel {
                    queue: m.queue + songs@,
                    current: m.current,
                    connected: m.connected,
                    loop_mode: m.loop_mode,
                };
                if m.connected && m.current is None {
                    &&& final(self).model() == started(added)
                    &&& can_start(added) ==> r == TransportAction::Play(added.queue[0], old(self).next_track())
                    &&& !can_start(added) ==> r == TransportAction::Nothing
                } else {
                    &&& final(self).model() == added
                    &&& r == TransportAction::Nothing
                    &&& final(self).next_track() == old(self).next_track()
                    &&& final(self).paused() == old(self).paused()
                    &&& m.current is Some ==> final(self).track() == old(self).track()
                }
            }),
    {
        let mut songs = songs;
        self.queue.append(&mut songs);
        let connected = self.player.is_connected();
        let idle = self.player.get_current_song().is_none();
        if connected && idle {
            self.play_next()
        } else {
            TransportAction::Nothing
        }
    }

    /// The transport reports that track `track` ended by itself. For the current track this
    /// applies the loop policy and starts the next song; a report about any other track is stale
    /// and changes nothing.
    pub fn track_ended(&mut self, track: u64) -> (r: TransportAction)
        requires
            old(self).wf(),
        ensures
            final(self).wf(),
            final(self).saved() == old(self).saved(),
            final(self).saver() == old(self).saver(),
            if old(self).model().current is Some && old(self).track() == track {
                &&& final(self).model() == finished(old(self).model(), false)
                &&& can_start(after_removal(old(self).model(), false)) ==> r == TransportAction::Play(
                    after_removal(old(self).model(), false).queue[0],
                    old(self).next_track(),
                )
                &&& !can_start(after_removal(old(self).model(), false)) ==> r == TransportAction::Nothing
            } else {
                final(self).model() == old(self).model() && r == TransportAction::Nothing
            },
    {
        let is_current = match self.player.get_current_song() {
            Some(c) => c.track == track,
            None => false,
        };
        if is_current {
            let (_, action) = self.finish_current(false);
            action
        } else {
            TransportAction::Nothing
        }
    }

    /// Ends the current song early: the loop policy applies, except that mode `Song` does not
    /// play a skipped song again; the next song starts. Gives the skipped song.
    pub fn skip(&mut self) -> (r: Result<(Song, TransportAction), PlayerError>)
        requires
            old(self).wf(),
        ensures
            final(self).wf(),
            final(self).saved() == old(self).saved(),
            final(self).saver() == old(self).saver(),
            match r {
                Ok((s, a)) => {
                    &&& old(self).model().current == Some(s)
                    &&& final(self).model() == finished(old(self).model(), true)
                    &&& can_start(after_removal(old(self).model(), true)) ==> a == TransportAction::Play(
                        after_removal(old(self).model(), true).queue[0],
                        old(self).next_track(),
                    )
                    &&& !can_start(after_removal(old(self).model(), true)) ==> a == TransportAction::Stop
                },
                Err(e) => {
                    &&& old(self).model().current is None
                    &&& e == PlayerError::NothingPlaying
                    &&& final(self).model() == old(self).model()
                },
            },
    {
        if self.player.get_current_song().is_none() {
            return Err(PlayerError::NothingPlaying);
        }
        Ok(self.finish_current(true))
    }

    /// Empties the queue, then skips the current song, if any.
    pub fn clear_queue(&mut self) -> (r: TransportAction)
        requires
            old(self).wf(),
        ensures
            final(self).wf(),
            final(self).saved() == old(self).saved(),
            final(self).saver() == old(self).saver(),
            ({
                let m = old(self).model();
                let cleared = QueueModel {
                    queue: Seq::empty(),
                    current: m.current,
                    connected: m.connected,
                    loop_mode: m.loop_mode,
                };
                if m.current is Some {
                    &&& final(self).model() == finished(cleared, true)
                    &&& can_start(after_removal(cleared, true)) ==> r == TransportAction::Play(
                        after_removal(cleared, true).queue[0],
                        old(self).next_track(),
                    )
                    &&& !can_start(after_removal(cleared, true)) ==> r == TransportAction::Stop
                } else {
                    final(self).model() == cleared && r == TransportAction::Nothing
                }
            }),
    {
        self.queue.clear();
        assert(self.model().queue =~= Seq::<Song>::empty());
        match self.skip() {
            Ok((_, a)) => a,
            Err(_) => TransportAction::Nothing,
        }
    }

    /// Drops every waiting song whose id is among `songs`; the others keep their order.
    pub fn _remove_from_queue(&mut self, songs: Vec<String>)
        requires
            old(self).wf(),
        ensures
            final(self).wf(),
            final(self).saved() == old(self).saved(),
            final(self).saver() == old(self).saver(),
            final(self).next_track() == old(self).next_track(),
            final(self).paused() == old(self).paused(),
            final(self).model() == (QueueModel {
                queue: without_ids(old(self).model().queue, id_views(songs@)),
                current: old(self).model().current,
                connected: old(self).model().connected,
                loop_mode: old(self).model().loop_mode,
            }),
    {
        let mut kept: Vec<Song> = Vec::new();
        let mut i: usize = 0;
        let ghost ids = id_views(songs@);
        assert(self.queue@.subrange(0, 0) =~= Seq::<Song>::empty());
        while i < self.queue.len()
            invariant
                i <= self.queue@.len(),
                self.queue == old(self).queue,
                kept@ == without_ids(self.queue@.subrange(0, i as int), ids),
                ids == id_views(songs@),
            decreases self.queue@.len() - i,
        {
            assert(self.queue@.subrange(0, i + 1).drop_last() =~= self.queue@.subrange(0, i as int));
            if !contains_id(&songs, self.queue[i].get_id()) {
                kept.push(self.queue[i].clone_song());
            }
            i += 1;
        }
        assert(self.queue@.subrange(0, self.queue@.len() as int) =~= self.queue@);
        self.queue = kept;
    }

    /// Takes the song at `index` out of the queue; an index past the end gives none.
    pub fn remove_from_queue_by_index(&mut self, index: usize) -> (r: Option<Song>)
        requires
            old(self).wf(),
        ensures
            final(self).wf(),
            final(self).saved() == old(self).saved(),
            final(self).saver() == old(self).saver(),
            final(self).next_track() == old(self).next_track(),
            final(self).paused() == old(self).paused(),
            final(self).model().current == old(self).model().current,
            final(self).model().connected == old(self).model().connected,
            final(self).model().loop_mode == old(self).model().loop_mode,
            index < old(self).model().queue.len() ==> r == Some(old(self).model().queue[index as int])
                && final(self).model().queue == old(self).model().queue.remove(index as int),
            index >= old(self).model().queue.len() ==> r is None && final(self).model() == old(self).model(),
    {
        if index < self.queue.len() {
            Some(self.queue.remove(index))
        } else {
            None
        }
    }

    /// A copy of the waiting songs, front first.
    pub fn get_queue(&self) -> (r: Vec<Song>)
        ensures
            r@ == self.model().queue,
    {
        clone_songs(&self.queue)
    }

    /// Exchanges two waiting songs. An index past the end is named in the error, the first
    /// such one checked first, and nothing changes.
    pub fn swap(&mut self, index1: usize, index2: usize) -> (r: Result<(), usize>)
        requires
            old(self).wf(),
        ensures
            final(self).wf(),
            final(self).saved() == old(self).saved(),
            final(self).saver() == old(self).saver(),
            final(self).next_track() == old(self).next_track(),
            final(self).paused() == old(self).paused(),
            final(self).model().current == old(self).model().current,
            final(self).model().connected == old(self).model().connected,
            final(self).model().loop_mode == old(self).model().loop_mode,
            ({
                let q = old(self).model().queue;
                if index1 >= q.len() {
                    r == Err::<(), usize>(index1) && final(self).model() == old(self).model()
                } else if index2 >= q.len() {
                    r == Err::<(), usize>(index2) && final(self).model() == old(self).model()
                } else {
                    r is Ok && final(self).model().queue == q.update(index1 as int, q[index2 as int]).update(
                        index2 as int,
                        q[index1 as int],
                    )
                }
            }),
    {
        let len = self.queue.len();
        if index1 >= len {
            return Err(index1);
        }
        if index2 >= len {
            return Err(index2);
        }
        let a = self.queue[index1].clone_song();
        let b = self.queue[index2].clone_song();
        self.queue.set(index1, b);
        self.queue.set(index2, a);
        Ok(())
    }

    /// A voice call was attached: the player is connected and the next song starts.
    pub fn call_joined(&mut self) -> (r: TransportAction)
        requires
            old(self).wf(),
        ensures
            final(self).wf(),
            final(self).saved() == old(self).saved(),
            final(self).saver() == old(self).saver(),
            ({
                let m = old(self).model();
                let joined = QueueModel {
                    queue: m.queue,
                    current: m.current,
                    connected: true,
                    loop_mode: m.loop_mode,
                };
                &&& final(self).model() == started(joined)
                &&& can_start(joined) ==> r == TransportAction::Play(m.queue[0], old(self).next_track())
                &&& !can_start(joined) ==> r == TransportAction::Nothing
            }),
    {
        self.player.call_joined();
        self.play_next()
    }

    /// The voice call was detached; gives whether one was attached. The current song stays.
    pub fn call_left(&mut self) -> (r: bool)
        requires
            old(self).wf(),
        ensures
            final(self).wf(),
            final(self).saved() == old(self).saved(),
            final(self).saver() == old(self).saver(),
            final(self).next_track() == old(self).next_track(),
            final(self).paused() == old(self).paused(),
            r == old(self).model().connected,
            final(self).model() == (QueueModel {
                queue: old(self).model().queue,
                current: old(self).model().current,
                connected: false,
                loop_mode: old(self).model().loop_mode,
            }),
    {
        self.player.call_left()
    }

    pub fn pause(&mut self) -> (r: Result<(), PlayerError>)
        requires
            old(self).wf(),
        ensures
            final(self).wf(),
            final(self).saved() == old(self).saved(),
            final(self).saver() == old(self).saver(),
            final(self).model() == old(self).model(),
            final(self).next_track() == old(self).next_track(),
            match r {
                Ok(()) => old(self).model().connected && old(self).model().current is Some && final(self).paused(),
                Err(e) => final(self).paused() == old(self).paused() && if !old(self).model().connected {
                    e == PlayerError::NotConnected
                } else {
                    old(self).model().current is None && e == PlayerError::NothingPlaying
                },
            },
    {
        self.player.pause()
    }

    pub fn resume(&mut self) -> (r: Result<(), PlayerError>)
        requires
            old(self).wf(),
        ensures
            final(self).wf(),
            final(self).saved() == old(self).saved(),
            final(self).saver() == old(self).saver(),
            final(self).model() == old(self).model(),
            final(self).next_track() == old(self).next_track(),
            match r {
                Ok(()) => old(self).model().connected && old(self).model().current is Some && !final(self).paused(),
                Err(e) => final(self).paused() == old(self).paused() && if !old(self).model().connected {
                    e == PlayerError::NotConnected
                } else {
                    old(self).model().current is None && e == PlayerError::NothingPlaying
                },
            },
    {
        self.player.resume()
    }

    /// Sets the loop policy; it applies from the next song completion on.
    pub fn set_loop(&mut self, loop_mode: LoopMode)
        requires
            old(self).wf(),
        ensures
            final(self).wf(),
            final(self).saved() == old(self).saved(),
            final(self).saver() == old(self).saver(),
            final(self).next_track() == old(self).next_track(),
            final(self).paused() == old(self).paused(),
            final(self).model() == (QueueModel {
                queue: old(self).model().queue,
                current: old(self).model().current,
                connected: old(self).model().connected,
                loop_mode,
            }),
    {
        self.player.set_loop_mode(loop_mode);
    }

    /// Puts the waiting songs in a random order; the current song is not touched.
    pub fn shuffle(&mut self)
        requires
            old(self).wf(),
        ensures
            final(self).wf(),
            final(self).saved() == old(self).saved(),
            final(self).saver() == old(self).saver(),
            final(self).next_track() == old(self).next_track(),
            final(self).paused() == old(self).paused(),
            final(self).model().queue.to_multiset() == old(self).model().queue.to_multiset(),
            final(self).model().queue.len() == old(self).model().queue.len(),
            final(self).model().current == old(self).model().current,
            final(self).model().connected == old(self).model().connected,
            final(self).model().loop_mode == old(self).model().loop_mode,
    {
        shuffle_in_place(&mut self.queue);
    }

    pub fn get_current_song(&self) -> (r: Option<CurrentSong>)
        ensures
            match r {
                Some(c) => self.model().current == Some(c.song) && c.track == self.track(),
                None => self.model().current is None,
            },
    {
        self.player.get_current_song()
    }

    pub fn get_loop_mode(&self) -> (r: LoopMode)
        ensures
            r == self.model().loop_mode,
    {
        self.player.get_loop_mode()
    }

    /// Saves the ids of the current song and the waiting songs under `name`, replacing any
    /// queue saved under it. An empty queue is not saved.
    pub fn add_saved_queue(&mut self, name: String) -> (r: Result<(), QueueError>)
        requires
            old(self).wf(),
        ensures
            final(self).wf(),
            final(self).model() == old(self).model(),
            final(self).next_track() == old(self).next_track(),
            final(self).paused() == old(self).paused(),
            final(self).saver() == old(self).saver(),
            old(self).model().queue.len() == 0 ==> r == Err::<(), QueueError>(QueueError::EmptyQueue)
                && final(self).saved() == old(self).saved(),
            old(self).model().queue.len() > 0 ==> r is Ok && final(self).saved() == old(self).saved().insert(
                name@,
                snapshot_ids(old(self).model()),
            ),
    {
        if self.queue.len() == 0 {
            return Err(QueueError::EmptyQueue);
        }
        let queued = song_ids(&self.queue);
        let mut ids: Vec<String> = Vec::new();
        match self.player.get_current_song() {
            Some(c) => ids.push(c.song.get_id().clone()),
            None => {},
        }
        let mut rest = queued;
        ids.append(&mut rest);
        let ghost idv = id_views(ids@);
        proof {
            let m = old(self).model();
            assert(id_views(queued@) =~= ids_of(m.queue));
            match m.current {
                Some(c) => {
                    assert(ids_of(seq![c] + m.queue) =~= seq![c.id_of()] + ids_of(m.queue));
                    assert(idv =~= seq![c.id_of()] + id_views(queued@));
                },
                None => {
                    assert(idv =~= id_views(queued@));
                },
            }
            assert(idv =~= snapshot_ids(m));
        }
        self.saved_queues.insert(name, ids);
        assert(self.saved() =~= old(self).saved().insert(name@, snapshot_ids(old(self).model())));
        Ok(())
    }

    /// The ids saved under `name`.
    pub fn get_saved_queue(&self, name: &str) -> (r: Option<Vec<String>>)
        requires
            self.wf(),
        ensures
            match r {
                Some(v) => self.saved().contains_key(name@) && id_views(v@) == self.saved()[name@],
                None => !self.saved().contains_key(name@),
            },
    {
        match self.saved_queues.get(&name.to_owned()) {
            Some(v) => Some(clone_strings(v)),
            None => None,
        }
    }

    pub fn remove_saved_queue(&mut self, name: &str)
        requires
            old(self).wf(),
        ensures
            final(self).wf(),
            final(self).model() == old(self).model(),
            final(self).next_track() == old(self).next_track(),
            final(self).paused() == old(self).paused(),
            final(self).saver() == old(self).saver(),
            final(self).saved() == old(self).saved().remove(name@),
    {
        self.saved_queues.remove(&name.to_owned());
        assert(self.saved() =~= old(self).saved().remove(name@));
    }

    /// The names of the saved queues, each once.
    pub fn list_saved_queues(&self) -> (r: Vec<String>)
        requires
            self.wf(),
        ensures
            r@.len() == self.saved().dom().len(),
            forall|i: int| 0 <= i < r@.len() ==> self.saved().contains_key(#[trigger] r@[i]@),
            forall|k: Seq<char>| #[trigger] self.saved().contains_key(k) ==> exists|i: int|
                0 <= i < r@.len() && r@[i]@ == k,
            forall|i: int, j: int| 0 <= i < r@.len() && 0 <= j < r@.len() && i != j
                ==> #[trigger] r@[i]@ != #[trigger] r@[j]@,
    {
        let entries = self.saved_queues.entries();
        let mut r: Vec<String> = Vec::new();
        let mut i: usize = 0;
        while i < entries.len()
            invariant
                i <= entries@.len(),
                r@.len() == i,
                forall|j: int| 0 <= j < i ==> #[trigger] r@[j]@ == entries@[j].0@,
            decreases entries@.len() - i,
        {
            r.push(entries[i].0.clone());
            i += 1;
        }
        proof {
            assert(self.saved().dom() =~= self.saved_queues@.dom());
            assert forall|k: Seq<char>| #[trigger] self.saved().contains_key(k) implies exists|i: int|
                0 <= i < r@.len() && r@[i]@ == k by {
                assert(self.saved_queues@.contains_key(k));
                let i = choose|i: int| 0 <= i < entries@.len() && entries@[i].0@ == k;
                assert(r@[i]@ == k);
            }
            assert forall|i: int, j: int| 0 <= i < r@.len() && 0 <= j < r@.len() && i != j
                implies #[trigger] r@[i]@ != #[trigger] r@[j]@ by {
                assert(entries@[i].0@ != entries@[j].0@);
            }
            assert forall|i: int| 0 <= i < r@.len() implies self.saved().contains_key(#[trigger] r@[i]@) by {
                assert(self.saved_queues@.contains_key(entries@[i].0@));
            }
        }
        r
    }

    /// The saved queues as (name, ids) pairs: each name once; together they make up `saved()`.
    pub fn saved_entries(&self) -> (r: &Vec<(String, Vec<String>)>)
        requires
            self.wf(),
        ensures
            r@.len() == self.saved().dom().len(),
            forall|i: int| 0 <= i < r@.len() ==> self.saved().contains_key(#[trigger] r@[i].0@)
                && self.saved()[r@[i].0@] == id_views(r@[i].1@),
            forall|k: Seq<char>| #[trigger] self.saved().contains_key(k) ==> exists|i: int|
                0 <= i < r@.len() && r@[i].0@ == k,
            forall|i: int, j: int| 0 <= i < r@.len() && 0 <= j < r@.len() && i != j
                ==> #[trigger] r@[i].0@ != #[trigger] r@[j].0@,
    {
        let r = self.saved_queues.entries();
        proof {
            assert(self.saved().dom() =~= self.saved_queues@.dom());
            assert forall|k: Seq<char>| #[trigger] self.saved().contains_key(k) implies exists|i: int|
                0 <= i < r@.len() && r@[i].0@ == k by {
                assert(self.saved_queues@.contains_key(k));
            }
        }
        r
    }

    /// Writes the saved queues to the store: it receives the pairs that `saved_entries` gives.
    /// Nothing in memory changes, whatever the outcome.
    pub fn save_queues(&self) -> (r: Result<(), String>)
        requires
            self.wf(),
    {
        let entries = self.saved_entries();
        self.queue_saver.save_queues(entries)
    }
}

/// The state after `k` natural completions in a row, with nothing added in between.
pub open spec fn completions(m: QueueModel, k: nat) -> QueueModel
    decreases k,
{
    if k == 0 {
        m
    } else {
        finished(completions(m, (k - 1) as nat), false)
    }
}

/// `s` turned left by `k` places, for `k` up to its length.
pub open spec fn rotated(s: Seq<Song>, k: int) -> Seq<Song> {
    s.subrange(k, s.len() as int) + s.subrange(0, k)
}

/// In loop mode `Song`, a song that finishes by itself goes back to the front of the queue, and
/// with a call attached it is started again at once: the next state is the same one.
pub proof fn lemma_song_loop_replays(m: QueueModel)
    requires
        m.loop_mode == LoopMode::Song,
        m.current is Some,
    ensures
        after_removal(m, false).queue[0] == m.current.unwrap(),
        after_removal(m, false).queue == seq![m.current.unwrap()] + m.queue,
        m.connected ==> finished(m, false) == m,
{
    let c = m.current.unwrap();
    let a = after_removal(m, false);
    assert(a.queue =~= seq![c] + m.queue);
    if m.connected {
        assert(a.queue.drop_first() =~= m.queue);
    }
}

/// A skip in loop mode `Song` drops the song, where a natural completion would play it again.
pub proof fn lemma_song_loop_skip_drops(m: QueueModel)
    requires
        m.loop_mode == LoopMode::Song,
        m.current is Some,
    ensures
        after_removal(m, true).queue == m.queue,
        lineup(finished(m, true)) == m.queue,
        after_removal(m, false).queue == seq![m.current.unwrap()] + m.queue,
{
    let a = after_removal(m, true);
    assert(a.queue == m.queue);
    if can_start(a) {
        assert(seq![a.queue[0]] + a.queue.drop_first() =~= a.queue);
    }
    assert(after_removal(m, false).queue =~= seq![m.current.unwrap()] + m.queue);
}

/// In loop mode `Queue` with a call attached, each natural completion moves the finished song to
/// the back and starts the next: the lineup turns by one place.
pub proof fn lemma_queue_loop_step(m: QueueModel)
    requires
        m.loop_mode == LoopMode::Queue,
        m.connected,
        m.current is Some,
    ensures
        lineup(finished(m, false)) == lineup(m).drop_first().push(lineup(m)[0]),
        finished(m, false).loop_mode == LoopMode::Queue,
        finished(m, false).connected,
        finished(m, false).current is Some,
{
    let c = m.current.unwrap();
    let a = after_removal(m, false);
    assert(a.queue =~= m.queue.push(c));
    assert(lineup(m) =~= seq![c] + m.queue);
    assert(lineup(m).drop_first() =~= m.queue);
    assert(seq![a.queue[0]] + a.queue.drop_first() =~= a.queue);
    assert(lineup(finished(m, false)) =~= a.queue);
}

/// In loop mode `Queue` with a call attached and nothing added, after `k` completions the
/// lineup (current song, then the queue) is the original one turned left by `k` places.
pub proof fn lemma_queue_loop_rotates(m: QueueModel, k: nat)
    requires
        m.loop_mode == LoopMode::Queue,
        m.connected,
        m.current is Some,
        k <= lineup(m).len(),
    ensures
        lineup(completions(m, k)) == rotated(lineup(m), k as int),
        completions(m, k).loop_mode == LoopMode::Queue,
        completions(m, k).connected,
        completions(m, k).current is Some,
    decreases k,
{
    let l = lineup(m);
    if k == 0 {
        assert(rotated(l, 0) =~= l);
    } else {
        let p = completions(m, (k - 1) as nat);
        lemma_queue_loop_rotates(m, (k - 1) as nat);
        lemma_queue_loop_step(p);
        let prev = rotated(l, k - 1);
        assert(lineup(p) == prev);
        assert(prev[0] == l[k - 1]);
        assert(prev.drop_first().push(prev[0]) =~= rotated(l, k as int));
    }
}

/// In loop mode `Queue` with a call attached and nothing added, after as many completions as
/// there are songs (the current one included) the state is the original one again, so the
/// songs go on cycling in their order.
pub proof fn lemma_queue_loop_cycles(m: QueueModel)
    requires
        m.loop_mode == LoopMode::Queue,
        m.connected,
        m.current is Some,
    ensures
        completions(m, lineup(m).len()) == m,
        forall|k: nat| k < lineup(m).len() ==> (#[trigger] completions(m, k)).current == Some(lineup(m)[k as int]),
{
    let l = lineup(m);
    let n = l.len();
    lemma_queue_loop_rotates(m, n);
    let e = completions(m, n);
    assert(rotated(l, n as int) =~= l);
    let c = e.current.unwrap();
    assert(lineup(e) == seq![c] + e.queue);
    assert(lineup(m) == seq![m.current.unwrap()] + m.queue);
    assert(c == l[0]);
    assert(e.queue =~= l.drop_first());
    assert(m.queue =~= l.drop_first());
    assert forall|k: nat| k < lineup(m).len() implies (#[trigger] completions(m, k)).current == Some(lineup(m)[k as int]) by {
        lemma_queue_loop_rotates(m, k);
        let ek = completions(m, k);
        assert(lineup(ek) == seq![ek.current.unwrap()] + ek.queue);
        assert(lineup(ek)[0] == rotated(l, k as int)[0]);
    }
}

/// In loop mode `Repeat(2)` the finished song is played again after each of two completions,
/// after which the mode is off; at the third completion the song is dropped.
pub proof fn lemma_repeat_two(m: QueueModel)
    requires
        m.loop_mode == LoopMode::Repeat(2),
        m.connected,
        m.current is Some,
    ensures
        finished(m, false).current == m.current,
        finished(m, false).queue == m.queue,
        finished(m, false).loop_mode == LoopMode::Repeat(1),
        completions(m, 2).current == m.current,
        completions(m, 2).queue == m.queue,
        completions(m, 2).loop_mode == LoopMode::Off,
        lineup(completions(m, 3)) == m.queue,
        completions(m, 3).loop_mode == LoopMode::Off,
{
    let c = m.current.unwrap();
    let f1 = completions(m, 1);
    assert(completions(m, 0) == m);
    assert(after_removal(m, false).queue =~= seq![c] + m.queue);
    assert((seq![c] + m.queue).drop_first() =~= m.queue);
    assert(f1.queue == m.queue);
    let f2 = completions(m, 2);
    assert(after_removal(f1, false).queue =~= seq![c] + m.queue);
    assert(f2.queue == m.queue);
    let f3 = completions(m, 3);
    let a3 = after_removal(f2, false);
    assert(a3.queue == m.queue);
    if can_start(a3) {
        assert(seq![a3.queue[0]] + a3.queue.drop_first() =~= a3.queue);
    }
}

/// Saving a queue and loading it back, where loading re-resolves each saved id to a song of
/// that id and adds the songs to an empty queue of an idle player, gives back the same ids in
/// order: the previously playing song first, then the queue.
pub proof fn lemma_saved_queue_round_trip(m: QueueModel, resolved: Seq<Song>, connected: bool, mode: LoopMode)
    requires
        ids_of(resolved) == snapshot_ids(m),
    ensures
        ({
            let added = QueueModel { queue: Seq::empty() + resolved, current: None, connected, loop_mode: mode };
            let after = if connected { started(added) } else { added };
            ids_of(lineup(after)) == snapshot_ids(m)
        }),
{
    let added = QueueModel { queue: Seq::empty() + resolved, current: None, connected, loop_mode: mode };
    assert(added.queue =~= resolved);
    if connected && can_start(added) {
        assert(lineup(started(added)) =~= resolved);
    }
}

/// In loop mode `Queue` a song that finishes, by itself or skipped, goes to the back of the
/// queue; the mode stays.
pub proof fn lemma_queue_loop_requeues_back(m: QueueModel, skipped: bool)
    requires
        m.loop_mode == LoopMode::Queue,
        m.current is Some,
    ensures
        after_removal(m, skipped).queue == m.queue.push(m.current.unwrap()),
        after_removal(m, skipped).current is None,
        after_removal(m, skipped).loop_mode == LoopMode::Queue,
{
}

/// In loop mode `Repeat(n)` a song that finishes goes back to the front of the queue, and the
/// count goes down by one; from one (or zero) the mode turns off.
pub proof fn lemma_repeat_requeues_front(m: QueueModel, skipped: bool, n: u32)
    requires
        m.loop_mode == LoopMode::Repeat(n),
        m.current is Some,
    ensures
        after_removal(m, skipped).queue == seq![m.current.unwrap()] + m.queue,
        after_removal(m, skipped).current is None,
        after_removal(m, skipped).loop_mode == if n <= 1 {
            LoopMode::Off
        } else {
            LoopMode::Repeat((n - 1) as u32)
        },
{
}

/// Completions in a row compose.
pub proof fn lemma_completions_add(m: QueueModel, a: nat, b: nat)
    ensures
        completions(m, a + b) == completions(completions(m, a), b),
    decreases b,
{
    if b > 0 {
        lemma_completions_add(m, a, (b - 1) as nat);
        assert(completions(m, a + b) == finished(completions(m, (a + b - 1) as nat), false));
    }
}

/// In loop mode `Queue` with a call attached and nothing added, the states repeat with a period
/// of the lineup's length: after `k` completions the current song is the `k mod N`-th of the
/// original lineup, and the state is the one after `k mod N` completions.
pub proof fn lemma_queue_loop_periodic(m: QueueModel, k: nat)
    requires
        m.loop_mode == LoopMode::Queue,
        m.connected,
        m.current is Some,
    ensures
        completions(m, k) == completions(m, k % lineup(m).len()),
        completions(m, k).current == Some(lineup(m)[(k % lineup(m).len()) as int]),
    decreases k,
{
    let n = lineup(m).len();
    assert(n > 0);
    lemma_queue_loop_cycles(m);
    if k < n {
        lemma_small_mod(k, n);
    } else {
        let k2 = (k - n) as nat;
        lemma_queue_loop_periodic(m, k2);
        lemma_completions_add(m, n, k2);
        assert(k == n + k2);
        lemma_mod_sub_multiples_vanish(k as int, n as int);
        assert((-(n as int) + k as int) == k2 as int);
    }
}

} // verus!
