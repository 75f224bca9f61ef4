use music_bot::{
    find_cached_song_extension, format_duration, from_pl, from_sv, get_artist, get_link,
    get_progress_bar, get_title, get_url, get_urls, is_yt_link, join_path, list_fields, map_song,
    now_playing_text, output_template, page_count, page_title, remaining_seconds, resolve_output,
    retry_step, FileName, LinkHandlerResult, ResolvedInfo, RetryStep, Song, VideoInfo, YtSong,
    YtSongError,
};

fn video(id: &str) -> VideoInfo {
    VideoInfo {
        id: id.to_string(),
        title: None,
        alt_title: None,
        artist: None,
        uploader: None,
        duration: None,
        url: None,
        webpage_url: None,
        ext: None,
    }
}

#[test]
fn provider_links_are_recognised() {
    assert!(is_yt_link("https://www.youtube.com/watch?v=abc"));
    assert!(is_yt_link("https://youtu.be/abc"));
    assert!(is_yt_link("music.youtube.com/playlist?list=1"));
    assert!(!is_yt_link("https://vimeo.com/1"));
    assert!(!is_yt_link("abc"));
    assert!(!is_yt_link("youtu-be"));
}

#[test]
fn metadata_fallbacks() {
    let mut v = video("id1");
    assert_eq!(get_title(&v), "Unknown");
    assert_eq!(get_artist(&v), "Unknown");
    assert_eq!(get_link(&v), Err(YtSongError::LinkNotFound));
    assert_eq!(get_url(&v), None);
    v.alt_title = Some("alt".to_string());
    v.uploader = Some("up".to_string());
    v.webpage_url = Some("page".to_string());
    assert_eq!(get_title(&v), "alt");
    assert_eq!(get_artist(&v), "up");
    assert_eq!(get_link(&v), Ok("page".to_string()));
    assert_eq!(get_url(&v), Some("page".to_string()));
    v.title = Some("t".to_string());
    v.artist = Some("a".to_string());
    v.url = Some("direct".to_string());
    assert_eq!(get_title(&v), "t");
    assert_eq!(get_artist(&v), "a");
    assert_eq!(get_link(&v), Ok("direct".to_string()));
    assert_eq!(get_url(&v), Some("page".to_string()));
}

#[test]
fn songs_from_metadata() {
    let mut v = video("yt1");
    assert!(from_sv(&v).is_err());
    v.url = Some("u".to_string());
    v.duration = Some(42);
    v.ext = Some("m4a".to_string());
    let s = from_sv(&v).unwrap();
    assert_eq!(s.id, "u");
    assert_eq!(s.yt_id, "yt1");
    assert_eq!(s.duration, Some(42));
    assert_eq!(s.extension, Some("m4a".to_string()));

    assert_eq!(from_pl(&None).err(), Some(YtSongError::UnknownError));
    let songs = from_pl(&Some(vec![v, video("nolink"), {
        let mut w = video("yt2");
        w.webpage_url = Some("w".to_string());
        w
    }]))
    .unwrap();
    assert_eq!(songs.iter().map(|s| s.id.clone()).collect::<Vec<_>>(), vec!["u", "w"]);

    match resolve_output(&ResolvedInfo::Playlist(Some(vec![]))) {
        Ok(LinkHandlerResult::Playlist(v)) => assert!(v.is_empty()),
        _ => panic!("empty playlist expected"),
    }
}

#[test]
fn urls_to_download() {
    let mut v = video("a");
    v.url = Some("direct".to_string());
    assert_eq!(get_urls(&ResolvedInfo::Single(v)), vec!["direct".to_string()]);
    assert!(get_urls(&ResolvedInfo::Single(video("b"))).is_empty());
    assert!(get_urls(&ResolvedInfo::Playlist(None)).is_empty());
    let mut w = video("c");
    w.webpage_url = Some("page".to_string());
    assert_eq!(
        get_urls(&ResolvedInfo::Playlist(Some(vec![video("d"), w]))),
        vec!["page".to_string()]
    );
}

#[test]
fn retry_policy() {
    assert_eq!(retry_step(1, 5, true), RetryStep::Done);
    assert_eq!(retry_step(1, 5, false), RetryStep::Again);
    assert_eq!(retry_step(5, 5, false), RetryStep::Done);
}

#[test]
fn paths_and_templates() {
    assert_eq!(output_template("/cache"), "/cache/%(id)s.%(ext)s");
    assert_eq!(output_template("/cache/"), "/cache/%(id)s.%(ext)s");
    assert_eq!(join_path("/cache", "a.mp3"), "/cache/a.mp3");
    assert_eq!(join_path("/cache/", "a.mp3"), "/cache/a.mp3");
    assert_eq!(join_path("", "a.mp3"), "a.mp3");
    let mut s = YtSong {
        id: "link".to_string(),
        title: "t".to_string(),
        artist: "a".to_string(),
        duration: Some(3),
        extension: None,
        yt_id: "xyz".to_string(),
    };
    assert_eq!(s.get_path("/cache"), "/cache/xyz.mp3");
    s.extension = Some("webm".to_string());
    assert_eq!(s.get_path("/cache"), "/cache/xyz.webm");
}

#[test]
fn download_extension_is_found_by_stem() {
    let files = vec![
        FileName { stem: None, extension: Some("x".to_string()) },
        FileName { stem: Some("other".to_string()), extension: Some("mp3".to_string()) },
        FileName { stem: Some("xyz".to_string()), extension: Some("opus".to_string()) },
        FileName { stem: Some("xyz".to_string()), extension: Some("webm".to_string()) },
    ];
    assert_eq!(find_cached_song_extension(&"xyz".to_string(), &files), Some("opus".to_string()));
    assert_eq!(find_cached_song_extension(&"nope".to_string(), &files), None);
    let s = YtSong {
        id: "link".to_string(),
        title: "t".to_string(),
        artist: "a".to_string(),
        duration: Some(3),
        extension: None,
        yt_id: "xyz".to_string(),
    };
    let c = s.cache_song("/cache", &files).unwrap();
    assert_eq!(c.path, "/cache/xyz.opus");
    assert_eq!(c.id, "link");
    assert_eq!(s.cache_song("/cache", &vec![]).err(), Some("No extension".to_string()));
}

#[test]
fn durations_are_formatted() {
    assert_eq!(format_duration(0), "00:00");
    assert_eq!(format_duration(65), "01:05");
    assert_eq!(format_duration(3725), "01:02:05");
    assert_eq!(format_duration(360000), "100:00:00");
    assert_eq!(format_duration(u64::MAX), "5124095576030431:00:15");
}

#[test]
fn progress_bars() {
    assert_eq!(get_progress_bar(100, 50, 4, "#", "-"), "[##--]");
    assert_eq!(get_progress_bar(100, 0, 4, "#", "-"), "[----]");
    assert_eq!(get_progress_bar(100, 500, 4, "#", "-"), "[####]");
    assert_eq!(get_progress_bar(0, 10, 3, "#", "-"), "[---]");
    assert_eq!(get_progress_bar(8, 1, 4, "#", "-"), "[#---]");
    assert_eq!(get_progress_bar(8, 3, 4, "#", "-"), "[##--]");
    assert_eq!(get_progress_bar(i64::MAX, i64::MAX - 1, 4, "#", "-"), "[####]");
    assert_eq!(get_progress_bar(i64::MAX, 1, 4, "#", "-"), "[----]");
    assert_eq!(get_progress_bar(10, 5, 0, "#", "-"), "[]");
}

fn sample_song() -> Song {
    Song::Live(YtSong {
        id: "l".to_string(),
        title: "Title".to_string(),
        artist: "Artist".to_string(),
        duration: Some(125),
        extension: None,
        yt_id: "y".to_string(),
    })
}

#[test]
fn listing_text() {
    let (name, value) = map_song(0, &sample_song());
    assert_eq!(name, "1. Title");
    assert_eq!(value, "Artist 02:05");
    let fields = list_fields(&vec![sample_song(), sample_song()]);
    assert_eq!(fields[1].0, "2. Title");
    assert_eq!(page_count(0), 0);
    assert_eq!(page_count(25), 1);
    assert_eq!(page_count(26), 2);
    assert_eq!(page_title("Queue", 0, 1), "Queue");
    assert_eq!(page_title("Queue", 1, 3), "Queue (2/3)");
    assert_eq!(remaining_seconds(Some(100), 30), 70);
    assert_eq!(remaining_seconds(Some(100), 300), 0);
    assert_eq!(remaining_seconds(None, 3), 0);
}

#[test]
fn now_playing() {
    let t = now_playing_text(&sample_song(), 25);
    assert_eq!(t, "[\u{25ae}\u{25ae}\u{25ae}\u{25ae}\u{25af}\u{25af}\u{25af}\u{25af}\u{25af}\u{25af}\u{25af}\u{25af}\u{25af}\u{25af}\u{25af}\u{25af}\u{25af}\u{25af}\u{25af}\u{25af}]\nArtist 02:05/00:25");
}
