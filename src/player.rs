use vstd::prelude::*;

use crate::song::Song;

verus! {

/// What happens to a song when it finishes or is skipped.
#[derive(Clone, Copy, Debug, PartialEq, Eq, Structural)]
pub enum LoopMode {
    /// Drop the song.
    Off,
    /// Play the song again next, unless it was skipped.
    Song,
    /// Put the song at the back of the queue.
    Queue,
    /// Play the song again next, this many more times in all.
    Repeat(u32),
}

/// The song being played and the number of the track it plays on.
pub struct CurrentSong {
    pub song: Song,
    pub track: u64,
}

impl CurrentSong {
    pub fn clone_current(&self) -> (r: CurrentSong)
        ensures
            r == *self,
    {
        CurrentSong { song: self.song.clone_song(), track: self.track }
    }
}

#[derive(Debug, Clone, Copy, PartialEq, Eq, Structural)]
pub enum PlayerError {
    /// No voice call is attached.
    NotConnected,
    /// No song is playing.
    NothingPlaying,
}

/// The playback state of one guild: whether a call is attached, the current song and the loop mode.
/// The track handle itself lives with the voice transport; tracks are told apart by number.
pub struct Player {
    connected: bool,
    current_song: Option<CurrentSong>,
    paused: bool,
    loop_mode: LoopMode,
    next_track: u64,
}

impl Player {
    pub closed spec fn connected(&self) -> bool {
        self.connected
    }

    pub closed spec fn current(&self) -> Option<CurrentSong> {
        self.current_song
    }

    pub closed spec fn loop_mode(&self) -> LoopMode {
        self.loop_mode
    }

    pub closed spec fn paused(&self) -> bool {
        self.paused
    }

    pub closed spec fn next_track(&self) -> u64 {
        self.next_track
    }

    pub closed spec fn wf(&self) -> bool {
        self.paused ==> self.current_song is Some
    }

    pub fn new() -> (r: Player)
        ensures
            r.wf(),
            !r.connected(),
            r.current() is None,
            r.loop_mode() == LoopMode::Off,
    {
        Player { connected: false, current_song: None, paused: false, loop_mode: LoopMode::Off, next_track: 0 }
    }

    pub fn call_joined(&mut self)
        requires
            old(self).wf(),
        ensures
            final(self).wf(),
            final(self).connected(),
            final(self).current() == old(self).current(),
            final(self).paused() == old(self).paused(),
            final(self).loop_mode() == old(self).loop_mode(),
            final(self).next_track() == old(self).next_track(),
    {
        self.connected = true;
    }

    /// Detaches the call; a playing track is not stopped by this alone.
    pub fn call_left(&mut self) -> (r: bool)
        requires
            old(self).wf(),
        ensures
            final(self).wf(),
            r == old(self).connected(),
            !final(self).connected(),
            final(self).current() == old(self).current(),
            final(self).paused() == old(self).paused(),
            final(self).loop_mode() == old(self).loop_mode(),
            final(self).next_track() == old(self).next_track(),
    {
        let r = self.connected;
        self.connected = false;
        r
    }

    pub fn get_loop_mode(&self) -> (r: LoopMode)
        ensures
            r == self.loop_mode(),
    {
        self.loop_mode
    }

    pub fn set_loop_mode(&mut self, mode: LoopMode)
        requires
            old(self).wf(),
        ensures
            final(self).wf(),
            final(self).loop_mode() == mode,
            final(self).connected() == old(self).connected(),
            final(self).current() == old(self).current(),
            final(self).paused() == old(self).paused(),
            final(self).next_track() == old(self).next_track(),
    {
        self.loop_mode = mode;
    }

    pub fn is_connected(&self) -> (r: bool)
        ensures
            r == self.connected(),
    {
        self.connected
    }

    pub fn get_current_song(&self) -> (r: Option<CurrentSong>)
        ensures
            r == self.current(),
    {
        match &self.current_song {
            Some(c) => Some(c.clone_current()),
            None => None,
        }
    }

    /// Ends the current song, handing it back; the transport stops its track.
    pub fn take_current_song(&mut self) -> (r: Result<Song, PlayerError>)
        requires
            old(self).wf(),
        ensures
            final(self).wf(),
            final(self).current() is None,
            !final(self).paused(),
            final(self).connected() == old(self).connected(),
            final(self).loop_mode() == old(self).loop_mode(),
            final(self).next_track() == old(self).next_track(),
            match r {
                Ok(s) => old(self).current() == Some(CurrentSong { song: s, track: old(self).current().unwrap().track }),
                Err(e) => old(self).current() is None && e == PlayerError::NothingPlaying
                    && *final(self) == *old(self),
            },
    {
        match self.current_song.take() {
            Some(c) => {
                self.paused = false;
                Ok(c.song)
            },
            None => Err(PlayerError::NothingPlaying),
        }
    }

    /// Checks that something can be paused or resumed.
    fn check_playing(&self) -> (r: Result<(), PlayerError>)
        ensures
            match r {
                Ok(()) => self.connected() && self.current() is Some,
                Err(e) => if !self.connected() {
                    e == PlayerError::NotConnected
                } else {
                    self.current() is None && e == PlayerError::NothingPlaying
                },
            },
    {
        if !self.connected {
            return Err(PlayerError::NotConnected);
        }
        match &self.current_song {
            Some(_) => Ok(()),
            None => Err(PlayerError::NothingPlaying),
        }
    }

    pub fn pause(&mut self) -> (r: Result<(), PlayerError>)
        requires
            old(self).wf(),
        ensures
            final(self).wf(),
            final(self).connected() == old(self).connected(),
            final(self).current() == old(self).current(),
            final(self).loop_mode() == old(self).loop_mode(),
            final(self).next_track() == old(self).next_track(),
            match r {
                Ok(()) => old(self).connected() && old(self).current() is Some && final(self).paused(),
                Err(e) => final(self).paused() == old(self).paused() && if !old(self).connected() {
                    e == PlayerError::NotConnected
                } else {
                    old(self).current() is None && e == PlayerError::NothingPlaying
                },
            },
    {
        let r = self.check_playing();
        if r.is_ok() {
            self.paused = true;
        }
        r
    }

    pub fn resume(&mut self) -> (r: Result<(), PlayerError>)
        requires
            old(self).wf(),
        ensures
            final(self).wf(),
            final(self).connected() == old(self).connected(),
            final(self).current() == old(self).current(),
            final(self).loop_mode() == old(self).loop_mode(),
            final(self).next_track() == old(self).next_track(),
            match r {
                Ok(()) => old(self).connected() && old(self).current() is Some && !final(self).paused(),
                Err(e) => final(self).paused() == old(self).paused() && if !old(self).connected() {
                    e == PlayerError::NotConnected
                } else {
                    old(self).current() is None && e == PlayerError::NothingPlaying
                },
            },
    {
        let r = self.check_playing();
        if r.is_ok() {
            self.paused = false;
        }
        r
    }

    /// Stops whatever played, then starts `song` on a new track and gives the track's number.
    /// Without a call the old song is still taken off and nothing starts.
    pub fn play(&mut self, song: Song) -> (r: Result<u64, PlayerError>)
        requires
            old(self).wf(),
        ensures
            final(self).wf(),
            final(self).connected() == old(self).connected(),
            final(self).loop_mode() == old(self).loop_mode(),
            match r {
                Ok(t) => {
                    &&& old(self).connected()
                    &&& t == old(self).next_track()
                    &&& final(self).current() == Some(CurrentSong { song, track: t })
                    &&& !final(self).paused()
                    &&& final(self).next_track() == old(self).next_track().wrapping_add(1)
                },
                Err(e) => {
                    &&& !old(self).connected()
                    &&& e == PlayerError::NotConnected
                    &&& final(self).current() is None
                    &&& !final(self).paused()
                    &&& final(self).next_track() == old(self).next_track()
                },
            },
    {
        self.current_song = None;
        self.paused = false;
        if !self.connected {
            return Err(PlayerError::NotConnected);
        }
        let t = self.next_track;
        self.current_song = Some(CurrentSong { song, track: t });
        self.paused = false;
        self.next_track = t.wrapping_add(1);
        Ok(t)
    }
}

} // verus!
