use music_bot::{
    expand_members, AudioManager, CacheManager, CacheSaver, CacheSaverError, CachedEntity, CachedSong, LinkError,
    LinkHandlerResult, LinkHandling, LinkPlan, MemberPlan, MemoryCacheSaver, NullLinkHandler, Song,
    YtSong,
};

fn cached(id: &str, title: &str) -> CachedSong {
    CachedSong::new(
        id.to_string(),
        format!("/cache/{}.mp3", id),
        title.to_string(),
        "A".to_string(),
        Some(120),
    )
}

fn live(id: &str) -> YtSong {
    YtSong {
        id: id.to_string(),
        title: format!("title {}", id),
        artist: "artist".to_string(),
        duration: None,
        extension: Some("webm".to_string()),
        yt_id: format!("yt-{}", id),
    }
}

/// A resolver that must not be asked.
struct FailingHandler {}

impl LinkHandling for FailingHandler {
    fn handle_link(&self, link: &str) -> Result<LinkHandlerResult, String> {
        panic!("resolver called for {}", link)
    }
}

/// A resolver that answers every link with a fixed answer.
struct FixedHandler {
    playlist: bool,
}

impl LinkHandling for FixedHandler {
    fn handle_link(&self, link: &str) -> Result<LinkHandlerResult, String> {
        if link.contains("broken") {
            return Err("tool failed".to_string());
        }
        if self.playlist {
            Ok(LinkHandlerResult::Playlist(vec![live("https://youtube.com/1"), live("https://youtube.com/2")]))
        } else {
            Ok(LinkHandlerResult::Song(live(link)))
        }
    }
}

fn ids(songs: &[Song]) -> Vec<String> {
    songs.iter().map(|s| s.get_id().clone()).collect()
}

#[test]
fn entries_are_added_overwritten_and_removed() {
    let mut cm = CacheManager::new(MemoryCacheSaver::new());
    assert!(cm.get_entry("a").is_none());
    assert!(!cm._is_cached("a"));
    cm.add_entry("a".to_string(), CachedEntity::Song(cached("a", "first")));
    cm.add_entry("a".to_string(), CachedEntity::Song(cached("a", "second")));
    cm.add_entry("p".to_string(), CachedEntity::Playlist(vec!["a".to_string()]));
    match cm.get_entry("a") {
        Some(CachedEntity::Song(s)) => assert_eq!(s.title, "second"),
        _ => panic!("song expected"),
    }
    assert!(cm._is_cached("p"));
    cm._remove_song("a");
    assert!(!cm._is_cached("a"));
    assert!(cm._is_cached("p"));
    cm._clear_cache();
    assert!(!cm._is_cached("p"));
}

#[test]
fn restore_takes_later_entries_and_failures_give_empty_cache() {
    let mut cm = CacheManager::new(MemoryCacheSaver::new());
    cm.restore_cache(Ok(vec![
        ("k".to_string(), CachedEntity::Song(cached("k", "old"))),
        ("k".to_string(), CachedEntity::Song(cached("k", "new"))),
    ]));
    match cm.get_entry("k") {
        Some(CachedEntity::Song(s)) => assert_eq!(s.title, "new"),
        _ => panic!("song expected"),
    }
    cm.restore_cache(Err(CacheSaverError::FailedToParseData));
    assert!(!cm._is_cached("k"));
}

#[test]
fn memory_saver_keeps_snapshot_and_loads_empty() {
    let mut cm = CacheManager::new(MemoryCacheSaver::new());
    cm.add_entry("a".to_string(), CachedEntity::Song(cached("a", "T")));
    assert_eq!(cm.save_cache(), Ok(()));
    assert!(cm._is_cached("a"));
    cm.load_cache();
    assert!(!cm._is_cached("a"));

    let mut saver = MemoryCacheSaver::new();
    let snapshot = vec![("x".to_string(), CachedEntity::Playlist(vec![]))];
    assert_eq!(saver.save_cache(&snapshot), Ok(()));
    assert_eq!(saver.cache.len(), 1);
    assert_eq!(saver.cache[0].0, "x");
}

#[test]
fn unsupported_uncached_link_is_refused_untouched() {
    let cm = CacheManager::new(MemoryCacheSaver::new());
    let mut am = AudioManager::new(cm, FailingHandler {});
    assert!(matches!(am.handle_link("https://vimeo.com/123"), Err(LinkError::UnsupportedLink)));
    assert!(matches!(am.handle_link("abc"), Err(LinkError::UnsupportedLink)));
    assert!(!am.cache_manager_instance._is_cached("abc"));
}

#[test]
fn loaded_cache_answers_link_without_resolver() {
    let mut cm = CacheManager::new(MemoryCacheSaver::new());
    cm.restore_cache(Ok(vec![(
        "abc".to_string(),
        CachedEntity::Song(CachedSong::new(
            "abc".to_string(),
            "/cache/abc.mp3".to_string(),
            "T".to_string(),
            "A".to_string(),
            Some(120),
        )),
    )]));
    let mut am = AudioManager::new(cm, FailingHandler {});
    let res = am.handle_link("abc").unwrap();
    assert_eq!(res.songs.len(), 1);
    assert_eq!(res.songs[0].title(), "T");
    assert_eq!(res.songs[0].duration(), Some(120));
    assert!(res.to_cache.is_empty());
}

#[test]
fn cached_playlist_is_answered_from_cache() {
    let mut cm = CacheManager::new(MemoryCacheSaver::new());
    cm.add_entry("s1".to_string(), CachedEntity::Song(cached("s1", "one")));
    cm.add_entry("s2".to_string(), CachedEntity::Song(cached("s2", "two")));
    cm.add_entry(
        "https://youtube.com/list".to_string(),
        CachedEntity::Playlist(vec!["s1".to_string(), "s2".to_string()]),
    );
    let mut am = AudioManager::new(cm, FailingHandler {});
    let res = am.handle_link("https://youtube.com/list").unwrap();
    assert_eq!(ids(&res.songs), vec!["s1".to_string(), "s2".to_string()]);
    assert!(res.to_cache.is_empty());
}

#[test]
fn playlist_members_missing_from_cache_are_resolved_or_dropped() {
    let mut cm = CacheManager::new(MemoryCacheSaver::new());
    cm.add_entry("s1".to_string(), CachedEntity::Song(cached("s1", "one")));
    cm.add_entry(
        "list".to_string(),
        CachedEntity::Playlist(vec![
            "https://youtube.com/watch?v=x".to_string(),
            "s1".to_string(),
            "elsewhere".to_string(),
        ]),
    );
    let mut am = AudioManager::new(cm, FixedHandler { playlist: false });
    match am.plan_link("list").unwrap() {
        LinkPlan::FromCache(plan) => {
            assert_eq!(plan.len(), 3);
            assert!(matches!(&plan[0], MemberPlan::Resolve(id) if id == "https://youtube.com/watch?v=x"));
            assert!(matches!(&plan[1], MemberPlan::Ready(_)));
            assert!(matches!(&plan[2], MemberPlan::Unsupported));
        }
        LinkPlan::Resolve => panic!("cached link"),
    }
    let res = am.handle_link("list").unwrap();
    assert_eq!(ids(&res.songs), vec!["https://youtube.com/watch?v=x".to_string(), "s1".to_string()]);
}

#[test]
fn resolved_song_is_returned_for_download() {
    let cm = CacheManager::new(MemoryCacheSaver::new());
    let mut am = AudioManager::new(cm, FixedHandler { playlist: false });
    let res = am.handle_link("https://youtu.be/x").unwrap();
    assert_eq!(ids(&res.songs), vec!["https://youtu.be/x".to_string()]);
    assert_eq!(res.to_cache.len(), 1);
    assert!(!am.cache_manager_instance._is_cached("https://youtu.be/x"));
    let c = res.to_cache[0].cache_song("/cache", &vec![]).unwrap();
    am.store_cached_song(c);
    assert!(am.cache_manager_instance._is_cached("https://youtu.be/x"));
    let again = am.handle_link("https://youtu.be/x").unwrap();
    assert!(matches!(&again.songs[0], Song::Cached(c) if c.path == "/cache/yt-https://youtu.be/x.webm"));
}

#[test]
fn resolved_playlist_is_registered_before_downloads() {
    let cm = CacheManager::new(MemoryCacheSaver::new());
    let mut am = AudioManager::new(cm, FixedHandler { playlist: true });
    let res = am.handle_link("https://youtube.com/playlist?list=1").unwrap();
    assert_eq!(res.songs.len(), 2);
    assert_eq!(res.to_cache.len(), 2);
    match am.cache_manager_instance.get_entry("https://youtube.com/playlist?list=1") {
        Some(CachedEntity::Playlist(ids)) => assert_eq!(
            ids,
            &vec!["https://youtube.com/1".to_string(), "https://youtube.com/2".to_string()]
        ),
        _ => panic!("playlist expected"),
    }
}

#[test]
fn resolver_failure_is_reported() {
    let cm = CacheManager::new(MemoryCacheSaver::new());
    let mut am = AudioManager::new(cm, FixedHandler { playlist: false });
    assert_eq!(
        am.handle_link("https://youtube.com/broken").err(),
        Some(LinkError::ResolutionFailed("tool failed".to_string()))
    );
}

#[test]
fn null_handler_gives_empty_playlist() {
    let cm = CacheManager::new(MemoryCacheSaver::new());
    let mut am = AudioManager::new(cm, NullLinkHandler {});
    let res = am.handle_link("https://youtube.com/x").unwrap();
    assert!(res.songs.is_empty());
    assert!(am.cache_manager_instance._is_cached("https://youtube.com/x"));
}

#[test]
fn member_song_takes_single_songs_only() {
    type Am = AudioManager<MemoryCacheSaver, NullLinkHandler>;
    assert!(Am::member_song(Ok(LinkHandlerResult::Song(live("a")))).is_some());
    assert!(Am::member_song(Ok(LinkHandlerResult::Playlist(vec![live("a")]))).is_none());
    assert!(Am::member_song(Err("x".to_string())).is_none());
}

#[test]
fn get_cache_expands_playlists_through_song_entries() {
    let mut cm = CacheManager::new(MemoryCacheSaver::new());
    cm.add_entry("link".to_string(), CachedEntity::Song(cached("s0", "zero")));
    cm.add_entry("s1".to_string(), CachedEntity::Song(cached("s1", "one")));
    cm.add_entry(
        "list".to_string(),
        CachedEntity::Playlist(vec!["s1".to_string(), "missing".to_string(), "list".to_string()]),
    );
    let all = cm._get_cache();
    let keys: Vec<String> = all.iter().map(|(k, _)| k.clone()).collect();
    assert_eq!(keys, vec!["link".to_string(), "s1".to_string(), "s1".to_string()]);
    assert_eq!(all[0].1.get_id(), "s0");
}

#[test]
fn handle_links_gathers_songs_in_order_and_skips_failures() {
    let mut cm = CacheManager::new(MemoryCacheSaver::new());
    cm.add_entry("s1".to_string(), CachedEntity::Song(cached("s1", "one")));
    cm.add_entry("s2".to_string(), CachedEntity::Song(cached("s2", "two")));
    let mut am = AudioManager::new(cm, FailingHandler {});
    let res = am.handle_links(&vec!["s2".to_string(), "nowhere".to_string(), "s1".to_string()]);
    assert_eq!(ids(&res.songs), vec!["s2".to_string(), "s1".to_string()]);
    assert!(res.to_cache.is_empty());
}

#[test]
fn expand_members_uses_answers_for_resolved_members_only() {
    let plan = vec![
        MemberPlan::Resolve("r".to_string()),
        MemberPlan::Ready(Song::Cached(cached("c", "C"))),
        MemberPlan::Unsupported,
        MemberPlan::Resolve("q".to_string()),
    ];
    let resolved = vec![Some(Song::Live(live("r"))), Some(Song::Live(live("ignored"))), None, None];
    let songs = expand_members(&plan, &resolved);
    assert_eq!(ids(&songs), vec!["r".to_string(), "c".to_string()]);
}

#[test]
fn entries_and_memory_snapshot() {
    let mut cm = CacheManager::new(MemoryCacheSaver::new());
    cm.add_entry("a".to_string(), CachedEntity::Song(cached("a", "T")));
    cm.add_entry("b".to_string(), CachedEntity::Playlist(vec!["a".to_string()]));
    let keys: Vec<String> = cm.entries().iter().map(|(k, _)| k.clone()).collect();
    assert_eq!(keys, vec!["a".to_string(), "b".to_string()]);
    let mut saver = MemoryCacheSaver::new();
    saver.keep(cm.entries());
    assert_eq!(saver.cache.len(), 2);
    assert_eq!(saver.cache[1].0, "b");
}
