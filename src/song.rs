use vstd::prelude::*;

verus! {

/// Copies an optional string.
pub fn clone_opt_string(o: &Option<String>) -> (r: Option<String>)
    ensures
        r == *o,
{
    match o {
        Some(s) => Some(s.clone()),
        None => None,
    }
}

/// Copies a list of strings element by element.
pub fn clone_strings(v: &Vec<String>) -> (r: Vec<String>)
    ensures
        r@ == v@,
{
    let mut r: Vec<String> = Vec::new();
    let mut i: usize = 0;
    while i < v.len()
        invariant
            i <= v@.len(),
            r@ == v@.subrange(0, i as int),
        decreases v@.len() - i,
    {
        r.push(v[i].clone());
        i += 1;
        assert(r@ =~= v@.subrange(0, i as int));
    }
    assert(r@ =~= v@);
    r
}

/// A song whose audio has been downloaded to a local file.
pub struct CachedSong {
    pub id: String,
    pub path: String,
    pub title: String,
    pub artist: String,
    pub duration: Option<u64>,
}

impl CachedSong {
    pub fn new(id: String, path: String, title: String, artist: String, duration: Option<u64>) -> (r:
        CachedSong)
        ensures
            r == (CachedSong { id, path, title, artist, duration }),
    {
        CachedSong { id, path, title, artist, duration }
    }

    pub fn clone_song(&self) -> (r: CachedSong)
        ensures
            r == *self,
    {
        CachedSong {
            id: self.id.clone(),
            path: self.path.clone(),
            title: self.title.clone(),
            artist: self.artist.clone(),
            duration: self.duration,
        }
    }

    pub fn get_path(&self) -> (r: String)
        ensures
            r == self.path,
    {
        self.path.clone()
    }
}

/// A song known from its metadata only, streamed or downloaded on demand.
pub struct YtSong {
    /// The link the song is played from; the cache key of the song.
    pub id: String,
    pub title: String,
    pub artist: String,
    pub duration: Option<u64>,
    /// The file extension the provider reported, if any.
    pub extension: Option<String>,
    /// The provider's own identifier; names the downloaded file.
    pub yt_id: String,
}

impl YtSong {
    pub fn clone_song(&self) -> (r: YtSong)
        ensures
            r == *self,
    {
        YtSong {
            id: self.id.clone(),
            title: self.title.clone(),
            artist: self.artist.clone(),
            duration: self.duration,
            extension: clone_opt_string(&self.extension),
            yt_id: self.yt_id.clone(),
        }
    }
}

/// A playable song: either live-resolved or cached on disk.
pub enum Song {
    Live(YtSong),
    Cached(CachedSong),
}

impl Song {
    pub open spec fn id_of(&self) -> Seq<char> {
        match self {
            Song::Live(s) => s.id@,
            Song::Cached(s) => s.id@,
        }
    }

    pub open spec fn title_of(&self) -> Seq<char> {
        match self {
            Song::Live(s) => s.title@,
            Song::Cached(s) => s.title@,
        }
    }

    pub open spec fn artist_of(&self) -> Seq<char> {
        match self {
            Song::Live(s) => s.artist@,
            Song::Cached(s) => s.artist@,
        }
    }

    pub open spec fn duration_of(&self) -> Option<u64> {
        match self {
            Song::Live(s) => s.duration,
            Song::Cached(s) => s.duration,
        }
    }

    pub fn title(&self) -> (r: &String)
        ensures
            *r == match self {
                Song::Live(s) => s.title,
                Song::Cached(s) => s.title,
            },
    {
        match self {
            Song::Live(s) => &s.title,
            Song::Cached(s) => &s.title,
        }
    }

    pub fn artist(&self) -> (r: &String)
        ensures
            *r == match self {
                Song::Live(s) => s.artist,
                Song::Cached(s) => s.artist,
            },
    {
        match self {
            Song::Live(s) => &s.artist,
            Song::Cached(s) => &s.artist,
        }
    }

    pub fn duration(&self) -> (r: Option<u64>)
        ensures
            r == match self {
                Song::Live(s) => s.duration,
                Song::Cached(s) => s.duration,
            },
    {
        match self {
            Song::Live(s) => s.duration,
            Song::Cached(s) => s.duration,
        }
    }

    pub fn get_id(&self) -> (r: &String)
        ensures
            r@ == self.id_of(),
    {
        match self {
            Song::Live(s) => &s.id,
            Song::Cached(s) => &s.id,
        }
    }

    /// An independent copy of the song.
    pub fn clone_song(&self) -> (r: Song)
        ensures
            r == *self,
    {
        match self {
            Song::Live(s) => Song::Live(s.clone_song()),
            Song::Cached(s) => Song::Cached(s.clone_song()),
        }
    }
}

/// The ids of a sequence of songs, in order.
pub open spec fn ids_of(s: Seq<Song>) -> Seq<Seq<char>> {
    s.map_values(|x: Song| x.id_of())
}

/// Copies a list of songs element by element.
pub fn clone_songs(v: &Vec<Song>) -> (r: Vec<Song>)
    ensures
        r@ == v@,
{
    let mut r: Vec<Song> = Vec::new();
    let mut i: usize = 0;
    while i < v.len()
        invariant
            i <= v@.len(),
            r@ == v@.subrange(0, i as int),
        decreases v@.len() - i,
    {
        r.push(v[i].clone_song());
        i += 1;
        assert(r@ =~= v@.subrange(0, i as int));
    }
    assert(r@ =~= v@);
    r
}

/// The ids of a list of songs, in order.
pub fn song_ids(v: &Vec<Song>) -> (r: Vec<String>)
    ensures
        r@.len() == v@.len(),
        forall|j: int| 0 <= j < v@.len() ==> #[trigger] r@[j]@ == v@[j].id_of(),
        r@.map_values(|s: String| s@) == ids_of(v@),
{
    let mut r: Vec<String> = Vec::new();
    let mut i: usize = 0;
    while i < v.len()
        invariant
            i <= v@.len(),
            r@.len() == i,
            forall|j: int| 0 <= j < i ==> #[trigger] r@[j]@ == v@[j].id_of(),
        decreases v@.len() - i,
    {
        r.push(v[i].get_id().clone());
        i += 1;
    }
    assert(r@.map_values(|s: String| s@) =~= ids_of(v@));
    r
}

} // verus!
