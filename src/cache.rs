use vstd::prelude::*;

use crate::song::{clone_strings, CachedSong, Song};
use crate::store::StringMap;

verus! {

/// A cache record: one downloaded song, or the ordered member ids of a playlist.
pub enum CachedEntity {
    Song(CachedSong),
    Playlist(Vec<String>),
}

/// What a cache record holds: a song, or the ids of a playlist's members.
pub enum EntityModel {
    Song(CachedSong),
    Playlist(Seq<Seq<char>>),
}

impl View for CachedEntity {
    type V = EntityModel;

    open spec fn view(&self) -> EntityModel {
        match self {
            CachedEntity::Song(s) => EntityModel::Song(*s),
            CachedEntity::Playlist(ids) => EntityModel::Playlist(ids@.map_values(|x: String| x@)),
        }
    }
}

impl CachedEntity {
    pub fn clone_entity(&self) -> (r: CachedEntity)
        ensures
            r@ == self@,
    {
        match self {
            CachedEntity::Song(s) => CachedEntity::Song(s.clone_song()),
            CachedEntity::Playlist(ids) => CachedEntity::Playlist(clone_strings(ids)),
        }
    }
}

/// Why the backing store could not be read or written.
#[derive(Debug, Clone, Copy, PartialEq, Eq, Structural)]
pub enum CacheSaverError {
    FailedToCreateFile,
    FailedToParseData,
    FailedToWriteToFile,
    FailedToReadFromFile,
}

/// The cache map as a list of (key, entity) pairs, later pairs overriding earlier ones.
pub open spec fn entries_to_map(s: Seq<(String, CachedEntity)>) -> Map<Seq<char>, EntityModel>
    decreases s.len(),
{
    if s.len() == 0 {
        Map::empty()
    } else {
        entries_to_map(s.drop_last()).insert(s.last().0@, s.last().1@)
    }
}

/// The cached songs of the playlist members `ids` that have a song entry, in order, each with
/// its own id.
pub open spec fn member_songs(cache: Map<Seq<char>, EntityModel>, ids: Seq<Seq<char>>) -> Seq<(Seq<char>, Song)>
    decreases ids.len(),
{
    if ids.len() == 0 {
        Seq::empty()
    } else {
        let rest = member_songs(cache, ids.drop_last());
        let id = ids.last();
        if cache.contains_key(id) && cache[id] is Song {
            rest.push((cache[id]->Song_0.id@, Song::Cached(cache[id]->Song_0)))
        } else {
            rest
        }
    }
}

/// The songs one stored entity stands for.
pub open spec fn entity_songs(cache: Map<Seq<char>, EntityModel>, key: Seq<char>, e: EntityModel) -> Seq<(Seq<char>, Song)> {
    match e {
        EntityModel::Song(cs) => seq![(key, Song::Cached(cs))],
        EntityModel::Playlist(ids) => member_songs(cache, ids),
    }
}

/// The songs a list of stored entities stands for, in order.
pub open spec fn all_songs(cache: Map<Seq<char>, EntityModel>, stored: Seq<(Seq<char>, EntityModel)>) -> Seq<(Seq<char>, Song)>
    decreases stored.len(),
{
    if stored.len() == 0 {
        Seq::empty()
    } else {
        all_songs(cache, stored.drop_last()) + entity_songs(cache, stored.last().0, stored.last().1)
    }
}

pub open spec fn pair_views(s: Seq<(String, Song)>) -> Seq<(Seq<char>, Song)> {
    s.map_values(|p: (String, Song)| (p.0@, p.1))
}

/// Durable storage of the whole cache map.
pub trait CacheSaver {
    fn save_cache(&mut self, cache: &Vec<(String, CachedEntity)>) -> Result<(), CacheSaverError>;

    fn load_cache(&self) -> Result<Vec<(String, CachedEntity)>, CacheSaverError>;
}

/// A store that keeps the last saved snapshot in memory and always loads an empty cache.
pub struct MemoryCacheSaver {
    pub cache: Vec<(String, CachedEntity)>,
}

impl MemoryCacheSaver {
    pub fn new() -> (r: MemoryCacheSaver)
        ensures
            r.cache@.len() == 0,
    {
        MemoryCacheSaver { cache: Vec::new() }
    }
}

/// Pairs of a key and an entity as plain values.
pub open spec fn entry_views(s: Seq<(String, CachedEntity)>) -> Seq<(Seq<char>, EntityModel)> {
    s.map_values(|e: (String, CachedEntity)| (e.0@, e.1@))
}

impl MemoryCacheSaver {
    /// Keeps a copy of `cache` as the saved snapshot.
    pub fn keep(&mut self, cache: &Vec<(String, CachedEntity)>)
        ensures
            entry_views(final(self).cache@) == entry_views(cache@),
    {
        let mut copy: Vec<(String, CachedEntity)> = Vec::new();
        let mut i: usize = 0;
        while i < cache.len()
            invariant
                i <= cache@.len(),
                copy@.len() == i,
                forall|j: int| 0 <= j < i ==> #[trigger] copy@[j].0@ == cache@[j].0@ && copy@[j].1@ == cache@[j].1@,
            decreases cache@.len() - i,
        {
            copy.push((cache[i].0.clone(), cache[i].1.clone_entity()));
            i += 1;
        }
        self.cache = copy;
        assert(entry_views(self.cache@) =~= entry_views(cache@));
    }
}

impl CacheSaver for MemoryCacheSaver {
    fn save_cache(&mut self, cache: &Vec<(String, CachedEntity)>) -> Result<(), CacheSaverError> {
        self.keep(cache);
        Ok(())
    }

    fn load_cache(&self) -> Result<Vec<(String, CachedEntity)>, CacheSaverError> {
        Ok(Vec::new())
    }
}

/// The process-wide media cache: key (a link or a song id) to entity, one entity per key.
pub struct CacheManager<CS: CacheSaver> {
    cache_saver: CS,
    cache: StringMap<CachedEntity>,
}

impl<CS: CacheSaver> CacheManager<CS> {
    pub closed spec fn wf(&self) -> bool {
        self.cache.wf()
    }

    pub closed spec fn view(&self) -> Map<Seq<char>, EntityModel> {
        self.cache@.map_values(|e: CachedEntity| e@)
    }

    /// The stored entries in storage order.
    pub closed spec fn stored(&self) -> Seq<(Seq<char>, EntityModel)> {
        self.cache.entry_seq().map_values(|e: (String, CachedEntity)| (e.0@, e.1@))
    }

    pub closed spec fn saver(&self) -> CS {
        self.cache_saver
    }

    /// An empty cache over the given store; nothing is read until `load_cache`.
    pub fn new(cache_saver: CS) -> (r: CacheManager<CS>)
        ensures
            r.wf(),
            r@ == Map::<Seq<char>, EntityModel>::empty(),
            r.saver() == cache_saver,
    {
        CacheManager { cache_saver, cache: StringMap::new() }
    }

    /// Replaces the whole map by what the store returned; a failed load gives an empty cache.
    pub fn restore_cache(&mut self, loaded: Result<Vec<(String, CachedEntity)>, CacheSaverError>)
        requires
            old(self).wf(),
        ensures
            final(self).wf(),
            final(self).saver() == old(self).saver(),
            match loaded {
                Ok(v) => final(self)@ == entries_to_map(v@),
                Err(_) => final(self)@ == Map::<Seq<char>, EntityModel>::empty(),
            },
    {
        self.cache.clear();
        assert(self@ =~= Map::<Seq<char>, EntityModel>::empty());
        match loaded {
            Ok(v) => {
                let mut i: usize = 0;
                assert(v@.subrange(0, 0) =~= Seq::<(String, CachedEntity)>::empty());
                while i < v.len()
                    invariant
                        self.cache.wf(),
                        self.cache_saver == old(self).cache_saver,
                        self@ == entries_to_map(v@.subrange(0, i as int)),
                        i <= v@.len(),
                    decreases v@.len() - i,
                {
                    self.cache.insert(v[i].0.clone(), v[i].1.clone_entity());
                    i += 1;
                    assert(v@.subrange(0, i as int).drop_last() =~= v@.subrange(0, i - 1));
                    assert(self@ =~= entries_to_map(v@.subrange(0, i as int)));
                }
                assert(v@.subrange(0, v@.len() as int) =~= v@);
            },
            Err(_) => {},
        }
    }

    /// Reads the whole map from the store; a failed read leaves the cache empty.
    pub fn load_cache(&mut self)
        requires
            old(self).wf(),
        ensures
            final(self).wf(),
            final(self).saver() == old(self).saver(),
            final(self)@ == Map::<Seq<char>, EntityModel>::empty() || exists|v: Seq<(String, CachedEntity)>|
                final(self)@ == entries_to_map(v),
    {
        let loaded = self.cache_saver.load_cache();
        self.restore_cache(loaded);
    }

    /// The stored pairs: each key once, with its entity; together they make up the map.
    pub fn entries(&self) -> (r: &Vec<(String, CachedEntity)>)
        requires
            self.wf(),
        ensures
            entry_views(r@) == self.stored(),
            r@.len() == self@.dom().len(),
            forall|i: int| 0 <= i < r@.len() ==> self@.contains_key(#[trigger] r@[i].0@)
                && self@[r@[i].0@] == r@[i].1@,
            forall|k: Seq<char>| #[trigger] self@.contains_key(k) ==> exists|i: int|
                0 <= i < r@.len() && r@[i].0@ == k,
            forall|i: int, j: int| 0 <= i < r@.len() && 0 <= j < r@.len() && i != j
                ==> #[trigger] r@[i].0@ != #[trigger] r@[j].0@,
    {
        let r = self.cache.entries();
        assert(entry_views(r@) =~= self.stored());
        proof {
            assert(self@.dom() =~= self.cache@.dom());
            assert forall|k: Seq<char>| #[trigger] self@.contains_key(k) implies exists|i: int|
                0 <= i < r@.len() && r@[i].0@ == k by {
                assert(self.cache@.contains_key(k));
            }
        }
        r
    }

    /// Writes the whole map to the store: it receives the pairs that `entries` gives. The
    /// in-memory map is unchanged whatever the outcome.
    pub fn save_cache(&mut self) -> (r: Result<(), CacheSaverError>)
        requires
            old(self).wf(),
        ensures
            final(self).wf(),
            final(self)@ == old(self)@,
    {
        let r = self.cache_saver.save_cache(self.cache.entries());
        r
    }

    /// The entity stored under `id`.
    pub fn get_entry(&self, id: &str) -> (r: Option<&CachedEntity>)
        requires
            self.wf(),
        ensures
            match r {
                Some(e) => self@.contains_key(id@) && e@ == self@[id@],
                None => !self@.contains_key(id@),
            },
    {
        self.cache.get(&id.to_owned())
    }

    /// Stores `entity` under `id`, overwriting any earlier entry.
    pub fn add_entry(&mut self, id: String, entity: CachedEntity)
        requires
            old(self).wf(),
        ensures
            final(self).wf(),
            final(self).saver() == old(self).saver(),
            final(self)@ == old(self)@.insert(id@, entity@),
    {
        self.cache.insert(id, entity);
        assert(self@ =~= old(self)@.insert(id@, entity@));
    }

    pub fn _remove_song(&mut self, id: &str)
        requires
            old(self).wf(),
        ensures
            final(self).wf(),
            final(self).saver() == old(self).saver(),
            final(self)@ == old(self)@.remove(id@),
    {
        self.cache.remove(&id.to_owned());
        assert(self@ =~= old(self)@.remove(id@));
    }

    pub fn _clear_cache(&mut self)
        requires
            old(self).wf(),
        ensures
            final(self).wf(),
            final(self).saver() == old(self).saver(),
            final(self)@ == Map::<Seq<char>, EntityModel>::empty(),
    {
        self.cache.clear();
        assert(self@ =~= Map::<Seq<char>, EntityModel>::empty());
    }

    pub fn _is_cached(&self, id: &str) -> (r: bool)
        requires
            self.wf(),
        ensures
            r == self@.contains_key(id@),
    {
        self.cache.contains_key(&id.to_owned())
    }

    /// Every song the cache holds, with its key: a song entry under its key, and each member of
    /// a playlist entry that has a song entry of its own under that song's id.
    pub fn _get_cache(&self) -> (r: Vec<(String, Song)>)
        requires
            self.wf(),
        ensures
            pair_views(r@) == all_songs(self@, self.stored()),
    {
        let entries = self.cache.entries();
        let ghost stored = self.stored();
        let mut res: Vec<(String, Song)> = Vec::new();
        let mut i: usize = 0;
        assert(stored.subrange(0, 0) =~= Seq::<(Seq<char>, EntityModel)>::empty());
        assert(pair_views(res@) =~= Seq::<(Seq<char>, Song)>::empty());
        while i < entries.len()
            invariant
                self.wf(),
                entries@ == self.cache.entry_seq(),
                stored == self.stored(),
                stored.len() == entries@.len(),
                i <= entries@.len(),
                pair_views(res@) == all_songs(self@, stored.subrange(0, i as int)),
            decreases entries@.len() - i,
        {
            let ghost before = pair_views(res@);
            assert(stored[i as int] == (entries@[i as int].0@, entries@[i as int].1@));
            assert(stored.subrange(0, i + 1).drop_last() =~= stored.subrange(0, i as int));
            match &entries[i].1 {
                CachedEntity::Song(s) => {
                    res.push((entries[i].0.clone(), Song::Cached(s.clone_song())));
                    assert(pair_views(res@) =~= before + entity_songs(self@, stored[i as int].0, stored[i as int].1));
                },
                CachedEntity::Playlist(ids) => {
                    let ghost idv = ids@.map_values(|x: String| x@);
                    let mut j: usize = 0;
                    assert(idv.subrange(0, 0) =~= Seq::<Seq<char>>::empty());
                    assert(before + member_songs(self@, idv.subrange(0, 0)) =~= before);
                    while j < ids.len()
                        invariant
                            self.wf(),
                            j <= ids@.len(),
                            idv == ids@.map_values(|x: String| x@),
                            pair_views(res@) == before + member_songs(self@, idv.subrange(0, j as int)),
                        decreases ids@.len() - j,
                    {
                        assert(idv.subrange(0, j + 1).drop_last() =~= idv.subrange(0, j as int));
                        assert(idv.subrange(0, j + 1).last() == ids@[j as int]@);
                        let ghost mid = pair_views(res@);
                        match self.get_entry(ids[j].as_str()) {
                            Some(CachedEntity::Song(s)) => {
                                res.push((s.id.clone(), Song::Cached(s.clone_song())));
                                assert(pair_views(res@) =~= mid.push((s.id@, Song::Cached(*s))));
                            },
                            _ => {},
                        }
                        j += 1;
                    }
                    assert(idv.subrange(0, ids@.len() as int) =~= idv);
                },
            }
            i += 1;
        }
        assert(stored.subrange(0, stored.len() as int) =~= stored);
        res
    }
}

} // verus!
