use vstd::prelude::*;

use crate::cache::{CacheManager, CacheSaver, CachedEntity, EntityModel};
use crate::link::{is_provider_link, is_yt_link, LinkHandlerResult, LinkHandling};
use crate::song::{CachedSong, Song, YtSong};

verus! {

#[derive(Debug, PartialEq, Eq)]
pub enum LinkError {
    /// The link does not belong to the supported provider.
    UnsupportedLink,
    /// The resolver failed, with its message.
    ResolutionFailed(String),
}

/// How one member of a cached playlist is to be had.
pub enum MemberPlan {
    /// From the cache.
    Ready(Song),
    /// By resolving this id.
    Resolve(String),
    /// Not at all: the id is neither cached nor a supported link.
    Unsupported,
}

/// What answering a link takes.
pub enum LinkPlan {
    /// The link is cached: one plan per song, in order.
    FromCache(Vec<MemberPlan>),
    /// The link is not cached: the resolver has to be asked.
    Resolve,
}

/// The songs a resolved link gives at once, and those whose download is to be started.
pub struct Resolved {
    pub songs: Vec<Song>,
    pub to_cache: Vec<YtSong>,
}

/// How the member `id` of a cached playlist is answered from `cache`.
pub open spec fn plans_member(cache: Map<Seq<char>, EntityModel>, id: Seq<char>, p: MemberPlan) -> bool {
    if cache.contains_key(id) && cache[id] is Song {
        p == MemberPlan::Ready(Song::Cached(cache[id]->Song_0))
    } else if is_provider_link(id) {
        p is Resolve && p->Resolve_0@ == id
    } else {
        p is Unsupported
    }
}

/// How a cached entity is answered from `cache`.
pub open spec fn plans_entity(cache: Map<Seq<char>, EntityModel>, e: EntityModel, plan: Seq<MemberPlan>) -> bool {
    match e {
        EntityModel::Song(cs) => plan == seq![MemberPlan::Ready(Song::Cached(cs))],
        EntityModel::Playlist(ids) => plan.len() == ids.len() && forall|i: int|
            0 <= i < ids.len() ==> plans_member(cache, ids[i], #[trigger] plan[i]),
    }
}

/// The songs that plans made wholly of cache hits give.
pub open spec fn ready_songs(plan: Seq<MemberPlan>) -> Seq<Song>
    decreases plan.len(),
{
    if plan.len() == 0 {
        Seq::empty()
    } else {
        ready_songs(plan.drop_last()).push(plan.last()->Ready_0)
    }
}

proof fn lemma_ready_songs(plan: Seq<MemberPlan>)
    ensures
        ready_songs(plan).len() == plan.len(),
        forall|j: int| 0 <= j < plan.len() ==> #[trigger] ready_songs(plan)[j] == plan[j]->Ready_0,
    decreases plan.len(),
{
    if plan.len() > 0 {
        lemma_ready_songs(plan.drop_last());
    }
}

/// The songs a cached playlist gives: each member from the cache where it is ready there, from
/// the resolver's answer where it was resolved and that answer is a song, else none.
/// `resolved[i]` is what the resolver gave for member `i`.
pub open spec fn assembled(plan: Seq<MemberPlan>, resolved: Seq<Option<Song>>) -> Seq<Song>
    decreases plan.len(),
{
    if plan.len() == 0 {
        Seq::empty()
    } else {
        let rest = assembled(plan.drop_last(), resolved.subrange(0, plan.len() - 1));
        match plan.last() {
            MemberPlan::Ready(s) => rest.push(s),
            MemberPlan::Resolve(_) => match resolved[plan.len() - 1] {
                Some(s) => rest.push(s),
                None => rest,
            },
            MemberPlan::Unsupported => rest,
        }
    }
}

proof fn lemma_assembled_ready(plan: Seq<MemberPlan>, resolved: Seq<Option<Song>>)
    requires
        forall|j: int| 0 <= j < plan.len() ==> #[trigger] plan[j] is Ready,
    ensures
        assembled(plan, resolved) == ready_songs(plan),
    decreases plan.len(),
{
    if plan.len() > 0 {
        let p = plan.drop_last();
        assert forall|j: int| 0 <= j < p.len() implies #[trigger] p[j] is Ready by {
            assert(plan[j] is Ready);
        }
        assert(plan[plan.len() - 1] is Ready);
        lemma_assembled_ready(p, resolved.subrange(0, plan.len() - 1));
    }
}

/// Puts together the songs of a cached playlist from its plan and the resolver's answers, one
/// answer per member (ignored but for members to resolve).
pub fn expand_members(plan: &Vec<MemberPlan>, resolved: &Vec<Option<Song>>) -> (r: Vec<Song>)
    requires
        resolved@.len() == plan@.len(),
    ensures
        r@ == assembled(plan@, resolved@),
{
    let mut songs: Vec<Song> = Vec::new();
    let mut i: usize = 0;
    assert(plan@.subrange(0, 0) =~= Seq::<MemberPlan>::empty());
    while i < plan.len()
        invariant
            i <= plan@.len(),
            resolved@.len() == plan@.len(),
            songs@ == assembled(plan@.subrange(0, i as int), resolved@.subrange(0, i as int)),
        decreases plan@.len() - i,
    {
        let ghost p = plan@.subrange(0, i + 1);
        let ghost q = resolved@.subrange(0, i + 1);
        assert(p.drop_last() =~= plan@.subrange(0, i as int));
        assert(q.subrange(0, i as int) =~= resolved@.subrange(0, i as int));
        assert(p.last() == plan@[i as int]);
        assert(q[i as int] == resolved@[i as int]);
        match &plan[i] {
            MemberPlan::Ready(s) => songs.push(s.clone_song()),
            MemberPlan::Resolve(_) => match &resolved[i] {
                Some(s) => songs.push(s.clone_song()),
                None => {},
            },
            MemberPlan::Unsupported => {},
        }
        i += 1;
    }
    assert(plan@.subrange(0, plan@.len() as int) =~= plan@);
    assert(resolved@.subrange(0, resolved@.len() as int) =~= resolved@);
    songs
}

/// Every id has a song entry in `cache`.
pub open spec fn all_cached(cache: Map<Seq<char>, EntityModel>, ids: Seq<Seq<char>>) -> bool {
    forall|i: int| 0 <= i < ids.len() ==> cache.contains_key(#[trigger] ids[i]) && cache[ids[i]] is Song
}

/// The cached songs of `ids`, in order.
pub open spec fn cached_songs(cache: Map<Seq<char>, EntityModel>, ids: Seq<Seq<char>>) -> Seq<Song> {
    ids.map_values(|id: Seq<char>| Song::Cached(cache[id]->Song_0))
}

/// The ids of a list of described songs.
pub open spec fn yt_ids(s: Seq<YtSong>) -> Seq<Seq<char>> {
    s.map_values(|x: YtSong| x.id@)
}

/// Resolves links to songs through the shared media cache.
pub struct AudioManager<CS: CacheSaver, LH: LinkHandling> {
    pub cache_manager_instance: CacheManager<CS>,
    pub link_handler: LH,
}

impl<CS: CacheSaver, LH: LinkHandling> AudioManager<CS, LH> {
    pub closed spec fn wf(&self) -> bool {
        self.cache_manager_instance.wf()
    }

    pub closed spec fn cache(&self) -> Map<Seq<char>, EntityModel> {
        self.cache_manager_instance@
    }

    pub fn new(cache_manager: CacheManager<CS>, link_handler: LH) -> (r: AudioManager<CS, LH>)
        requires
            cache_manager.wf(),
        ensures
            r.wf(),
            r.cache() == cache_manager@,
    {
        AudioManager { cache_manager_instance: cache_manager, link_handler }
    }

    fn plan_member(&self, id: &String) -> (r: MemberPlan)
        requires
            self.wf(),
        ensures
            plans_member(self.cache(), id@, r),
    {
        match self.cache_manager_instance.get_entry(id.as_str()) {
            Some(CachedEntity::Song(cs)) => {
                return MemberPlan::Ready(Song::Cached(cs.clone_song()));
            },
            _ => {},
        }
        if is_yt_link(id.as_str()) {
            MemberPlan::Resolve(id.clone())
        } else {
            MemberPlan::Unsupported
        }
    }

    /// Decides how to answer `link`. A cached link is answered from the cache, a playlist
    /// member by member; an uncached link of the supported provider goes to the resolver; any
    /// other uncached link is refused. The cache is only read.
    pub fn plan_link(&self, link: &str) -> (r: Result<LinkPlan, LinkError>)
        requires
            self.wf(),
        ensures
            self.cache().contains_key(link@) ==> r is Ok && r->Ok_0 is FromCache && plans_entity(
                self.cache(),
                self.cache()[link@],
                r->Ok_0->FromCache_0@,
            ),
            !self.cache().contains_key(link@) && is_provider_link(link@) ==> r == Ok::<LinkPlan, LinkError>(LinkPlan::Resolve),
            !self.cache().contains_key(link@) && !is_provider_link(link@) ==> r == Err::<LinkPlan, LinkError>(LinkError::UnsupportedLink),
    {
        match self.cache_manager_instance.get_entry(link) {
            Some(CachedEntity::Song(cs)) => {
                let mut v: Vec<MemberPlan> = Vec::new();
                v.push(MemberPlan::Ready(Song::Cached(cs.clone_song())));
                assert(v@ =~= seq![MemberPlan::Ready(Song::Cached(*cs))]);
                Ok(LinkPlan::FromCache(v))
            },
            Some(CachedEntity::Playlist(ids)) => {
                let mut v: Vec<MemberPlan> = Vec::new();
                let mut i: usize = 0;
                while i < ids.len()
                    invariant
                        self.wf(),
                        i <= ids@.len(),
                        v@.len() == i,
                        forall|j: int| 0 <= j < i ==> plans_member(self.cache(), ids@[j]@, #[trigger] v@[j]),
                    decreases ids@.len() - i,
                {
                    v.push(self.plan_member(&ids[i]));
                    i += 1;
                }
                Ok(LinkPlan::FromCache(v))
            },
            None => {
                if is_yt_link(link) {
                    Ok(LinkPlan::Resolve)
                } else {
                    Err(LinkError::UnsupportedLink)
                }
            },
        }
    }

    /// Takes what the resolver answered for an uncached `link`. A single song is handed back
    /// and its download is to be started; a playlist is first recorded in the cache under
    /// `link` as the ordered ids of its songs, then handed back, each song's download to be
    /// started. A failed resolution changes nothing.
    pub fn accept_resolution(&mut self, link: &str, resolved: Result<LinkHandlerResult, String>) -> (r: Result<Resolved, LinkError>)
        requires
            old(self).wf(),
        ensures
            final(self).wf(),
            match resolved {
                Err(msg) => r == Err::<Resolved, LinkError>(LinkError::ResolutionFailed(msg))
                    && final(self).cache() == old(self).cache(),
                Ok(LinkHandlerResult::Song(s)) => final(self).cache() == old(self).cache() && r is Ok
                    && r->Ok_0.to_cache@ == seq![s] && r->Ok_0.songs@ == seq![Song::Live(s)],
                Ok(LinkHandlerResult::Playlist(v)) => r is Ok && r->Ok_0.to_cache@ == v@
                    && r->Ok_0.songs@ == v@.map_values(|s: YtSong| Song::Live(s))
                    && final(self).cache() == old(self).cache().insert(link@, EntityModel::Playlist(yt_ids(v@))),
            },
    {
        match resolved {
            Err(msg) => Err(LinkError::ResolutionFailed(msg)),
            Ok(LinkHandlerResult::Song(s)) => {
                let mut songs: Vec<Song> = Vec::new();
                songs.push(Song::Live(s.clone_song()));
                let mut to_cache: Vec<YtSong> = Vec::new();
                to_cache.push(s);
                assert(songs@ =~= seq![Song::Live(s)]);
                assert(to_cache@ =~= seq![s]);
                Ok(Resolved { songs, to_cache })
            },
            Ok(LinkHandlerResult::Playlist(list)) => {
                let mut ids: Vec<String> = Vec::new();
                let mut songs: Vec<Song> = Vec::new();
                let mut i: usize = 0;
                while i < list.len()
                    invariant
                        i <= list@.len(),
                        ids@.len() == i,
                        songs@.len() == i,
                        forall|j: int| 0 <= j < i ==> #[trigger] ids@[j]@ == list@[j].id@,
                        forall|j: int| 0 <= j < i ==> #[trigger] songs@[j] == Song::Live(list@[j]),
                    decreases list@.len() - i,
                {
                    ids.push(list[i].id.clone());
                    songs.push(Song::Live(list[i].clone_song()));
                    i += 1;
                }
                let ghost idv = ids@.map_values(|x: String| x@);
                assert(idv =~= yt_ids(list@));
                assert(songs@ =~= list@.map_values(|s: YtSong| Song::Live(s)));
                self.cache_manager_instance.add_entry(link.to_owned(), CachedEntity::Playlist(ids));
                Ok(Resolved { songs, to_cache: list })
            },
        }
    }

    /// Takes what the resolver answered for one member of a cached playlist: a single song is
    /// played; anything else drops the member.
    pub fn member_song(resolved: Result<LinkHandlerResult, String>) -> (r: Option<Song>)
        ensures
            match resolved {
                Ok(LinkHandlerResult::Song(s)) => r == Some(Song::Live(s)),
                _ => r is None,
            },
    {
        match resolved {
            Ok(LinkHandlerResult::Song(s)) => Some(Song::Live(s)),
            _ => None,
        }
    }

    /// The songs `link` stands for, with the songs whose download is to be started.
    ///
    /// A cached link is answered from the cache, and nothing is to be downloaded: a cached song
    /// gives itself; a cached playlist gives its members in order, each from the cache where it
    /// is cached there, else from the resolver where it is a supported link, else not at all.
    /// An uncached link of another provider is refused untouched. An uncached supported link
    /// goes to the resolver and its answer is taken as `accept_resolution` says.
    pub fn handle_link(&mut self, link: &str) -> (r: Result<Resolved, LinkError>)
        requires
            old(self).wf(),
        ensures
            final(self).wf(),
            old(self).cache().contains_key(link@) ==> {
                &&& r is Ok
                &&& r->Ok_0.to_cache@.len() == 0
                &&& final(self).cache() == old(self).cache()
                &&& match old(self).cache()[link@] {
                    EntityModel::Song(cs) => r->Ok_0.songs@ == seq![Song::Cached(cs)],
                    EntityModel::Playlist(ids) => all_cached(old(self).cache(), ids) ==> r->Ok_0.songs@
                        == cached_songs(old(self).cache(), ids),
                }
                &&& exists|plan: Seq<MemberPlan>, resolved: Seq<Option<Song>>| {
                    &&& plans_entity(old(self).cache(), old(self).cache()[link@], plan)
                    &&& resolved.len() == plan.len()
                    &&& forall|j: int| 0 <= j < resolved.len() ==> (#[trigger] resolved[j] matches Some(s) ==> s is Live)
                    &&& r->Ok_0.songs@ == assembled(plan, resolved)
                }
            },
            !old(self).cache().contains_key(link@) && !is_provider_link(link@)
                ==> r == Err::<Resolved, LinkError>(LinkError::UnsupportedLink)
                && final(self).cache() == old(self).cache(),
            !old(self).cache().contains_key(link@) && is_provider_link(link@) ==> match r {
                Ok(res) => res.songs@ == res.to_cache@.map_values(|s: YtSong| Song::Live(s))
                    && (final(self).cache() == old(self).cache() || final(self).cache()
                    == old(self).cache().insert(link@, EntityModel::Playlist(yt_ids(res.to_cache@)))),
                Err(e) => e is ResolutionFailed && final(self).cache() == old(self).cache(),
            },
    {
        let plan = match self.plan_link(link) {
            Ok(p) => p,
            Err(e) => return Err(e),
        };
        match plan {
            LinkPlan::Resolve => {
                let answer = self.link_handler.handle_link(link);
                let r = self.accept_resolution(link, answer);
                proof {
                    if r is Ok {
                        let res = r->Ok_0;
                        assert(res.songs@ =~= res.to_cache@.map_values(|s: YtSong| Song::Live(s)));
                    }
                }
                r
            },
            LinkPlan::FromCache(members) => {
                let ghost cache = self.cache();
                let mut resolved: Vec<Option<Song>> = Vec::new();
                let mut i: usize = 0;
                while i < members.len()
                    invariant
                        self.wf(),
                        self.cache() == cache,
                        i <= members@.len(),
                        resolved@.len() == i,
                        forall|j: int| 0 <= j < i ==> (#[trigger] resolved@[j] matches Some(s) ==> s is Live),
                    decreases members@.len() - i,
                {
                    let answer = match &members[i] {
                        MemberPlan::Resolve(id) => Self::member_song(self.link_handler.handle_link(id.as_str())),
                        _ => None,
                    };
                    resolved.push(answer);
                    i += 1;
                }
                let songs = expand_members(&members, &resolved);
                proof {
                    match cache[link@] {
                        EntityModel::Song(cs) => {
                            assert(members@[0] is Ready);
                            lemma_assembled_ready(members@, resolved@);
                            lemma_ready_songs(members@);
                            assert(songs@ =~= seq![Song::Cached(cs)]);
                        },
                        EntityModel::Playlist(ids) => {
                            if all_cached(cache, ids) {
                                assert forall|j: int| 0 <= j < members@.len() implies #[trigger] members@[j] is Ready by {
                                    assert(plans_member(cache, ids[j], members@[j]));
                                    assert(cache.contains_key(ids[j]) && cache[ids[j]] is Song);
                                }
                                lemma_assembled_ready(members@, resolved@);
                                lemma_ready_songs(members@);
                                assert forall|j: int| 0 <= j < ids.len() implies songs@[j] == cached_songs(cache, ids)[j] by {
                                    assert(plans_member(cache, ids[j], members@[j]));
                                    assert(cache.contains_key(ids[j]) && cache[ids[j]] is Song);
                                }
                                assert(songs@ =~= cached_songs(cache, ids));
                            }
                        },
                    }
                }
                Ok(Resolved { songs, to_cache: Vec::new() })
            },
        }
    }

    /// The songs of several links in order, as `handle_link` gives them; a link that fails is
    /// left out. Where every link is a cached song, the songs are exactly those, nothing is to
    /// be downloaded and the cache is unchanged.
    pub fn handle_links(&mut self, links: &Vec<String>) -> (r: Resolved)
        requires
            old(self).wf(),
        ensures
            final(self).wf(),
            all_cached(old(self).cache(), links@.map_values(|l: String| l@)) ==> {
                &&& r.songs@ == cached_songs(old(self).cache(), links@.map_values(|l: String| l@))
                &&& r.to_cache@.len() == 0
                &&& final(self).cache() == old(self).cache()
            },
    {
        let ghost cache = self.cache();
        let ghost lv = links@.map_values(|l: String| l@);
        let mut songs: Vec<Song> = Vec::new();
        let mut to_cache: Vec<YtSong> = Vec::new();
        let mut i: usize = 0;
        while i < links.len()
            invariant
                self.wf(),
                i <= links@.len(),
                cache == old(self).cache(),
                lv == links@.map_values(|l: String| l@),
                all_cached(cache, lv.subrange(0, i as int)) ==> {
                    &&& songs@ == cached_songs(cache, lv.subrange(0, i as int))
                    &&& to_cache@.len() == 0
                    &&& self.cache() == cache
                },
            decreases links@.len() - i,
        {
            let ghost before = songs@;
            let ghost was_all = all_cached(cache, lv.subrange(0, i as int));
            let ghost cache_now = self.cache();
            match self.handle_link(links[i].as_str()) {
                Ok(res) => {
                    let mut got = res.songs;
                    let mut more = res.to_cache;
                    proof {
                        if all_cached(cache, lv.subrange(0, i + 1)) {
                            assert(lv.subrange(0, i + 1)[i as int] == lv[i as int]);
                            assert(was_all) by {
                                assert forall|j: int| 0 <= j < i implies cache.contains_key(
                                    #[trigger] lv.subrange(0, i as int)[j],
                                ) && cache[lv.subrange(0, i as int)[j]] is Song by {
                                    assert(lv.subrange(0, i as int)[j] == lv.subrange(0, i + 1)[j]);
                                }
                            }
                            assert(lv[i as int] == links@[i as int]@);
                            assert(got@ == seq![Song::Cached(cache[lv[i as int]]->Song_0)]);
                        }
                    }
                    songs.append(&mut got);
                    to_cache.append(&mut more);
                    proof {
                        if all_cached(cache, lv.subrange(0, i + 1)) {
                            assert(songs@ =~= cached_songs(cache, lv.subrange(0, i + 1)));
                        }
                    }
                },
                Err(_) => {
                    proof {
                        if all_cached(cache, lv.subrange(0, i + 1)) {
                            assert(lv.subrange(0, i + 1)[i as int] == lv[i as int]);
                            assert(lv[i as int] == links@[i as int]@);
                            assert(cache_now == cache) by {
                                assert forall|j: int| 0 <= j < i implies cache.contains_key(
                                    #[trigger] lv.subrange(0, i as int)[j],
                                ) && cache[lv.subrange(0, i as int)[j]] is Song by {
                                    assert(lv.subrange(0, i as int)[j] == lv.subrange(0, i + 1)[j]);
                                }
                            }
                            assert(false);
                        }
                    }
                },
            }
            i += 1;
        }
        assert(lv.subrange(0, links@.len() as int) =~= lv);
        Resolved { songs, to_cache }
    }

    /// Records a finished download under the song's id.
    pub fn store_cached_song(&mut self, song: CachedSong)
        requires
            old(self).wf(),
        ensures
            final(self).wf(),
            final(self).cache() == old(self).cache().insert(song.id@, EntityModel::Song(song)),
    {
        let key = song.id.clone();
        self.cache_manager_instance.add_entry(key, CachedEntity::Song(song));
    }
}

/// A link whose entity is cached, together with every member of it where it is a playlist, is
/// answered from the cache alone: no plan asks the resolver.
pub proof fn lemma_cached_link_needs_no_resolver(cache: Map<Seq<char>, EntityModel>, link: Seq<char>, plan: Seq<MemberPlan>)
    requires
        cache.contains_key(link),
        plans_entity(cache, cache[link], plan),
        match cache[link] {
            EntityModel::Song(_) => true,
            EntityModel::Playlist(ids) => forall|i: int| 0 <= i < ids.len()
                ==> cache.contains_key(#[trigger] ids[i]) && cache[ids[i]] is Song,
        },
    ensures
        forall|i: int| 0 <= i < plan.len() ==> #[trigger] plan[i] is Ready,
{
    match cache[link] {
        EntityModel::Song(cs) => {
            assert(plan[0] == MemberPlan::Ready(Song::Cached(cs)));
        },
        EntityModel::Playlist(ids) => {
            assert forall|i: int| 0 <= i < plan.len() implies #[trigger] plan[i] is Ready by {
                assert(plans_member(cache, ids[i], plan[i]));
                assert(cache.contains_key(ids[i]) && cache[ids[i]] is Song);
            }
        },
    }
}

} // verus!
