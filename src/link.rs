use vstd::prelude::*;
use vstd::string::*;

use crate::song::{clone_opt_string, CachedSong, YtSong};

verus! {

/// Links of the supported provider: an optional scheme and subdomains, then the provider's name.
pub const YOUTUBE_REGEX: &'static str = "(https?:\\/\\/)?(www\\.)?(m\\.)?(music\\.)?((youtube)|(youtu\\.be)).*";

/// `s` holds `w` starting at position `i`.
pub open spec fn occurs_at(s: Seq<char>, w: Seq<char>, i: int) -> bool {
    0 <= i && i + w.len() <= s.len() && s.subrange(i, i + w.len()) == w
}

/// The text holds "youtube" or "youtu.be" somewhere: exactly the texts in which an
/// unanchored search for `YOUTUBE_REGEX` succeeds, since every part before the name is optional.
pub open spec fn is_provider_link(s: Seq<char>) -> bool {
    exists|i: int|
        occurs_at(s, seq!['y', 'o', 'u', 't', 'u', 'b', 'e'], i) || occurs_at(
            s,
            seq!['y', 'o', 'u', 't', 'u', '.', 'b', 'e'],
            i,
        )
}

/// Relies on regex::Regex::new and Regex::is_match (an unanchored search). Of the
/// provider pattern it states which texts match; of other patterns nothing.
#[verifier::external_body]
fn regex_is_match(pattern: &str, text: &str) -> (r: bool)
    ensures
        pattern@ == YOUTUBE_REGEX@ ==> r == is_provider_link(text@),
{
    match regex::Regex::new(pattern) {
        Ok(re) => re.is_match(text),
        Err(_) => false,
    }
}

/// Whether the link belongs to the supported provider.
pub fn is_yt_link(link: &str) -> (r: bool)
    ensures
        r == is_provider_link(link@),
{
    regex_is_match(YOUTUBE_REGEX, link)
}

/// The metadata the external resolver reports for one video; every field but `id` may be missing.
pub struct VideoInfo {
    pub id: String,
    pub title: Option<String>,
    pub alt_title: Option<String>,
    pub artist: Option<String>,
    pub uploader: Option<String>,
    pub duration: Option<u64>,
    pub url: Option<String>,
    pub webpage_url: Option<String>,
    pub ext: Option<String>,
}

/// What the resolver reports for a link: one video, or a playlist whose entries may be missing.
pub enum ResolvedInfo {
    Single(VideoInfo),
    Playlist(Option<Vec<VideoInfo>>),
}

#[derive(Debug, PartialEq, Eq)]
pub enum YtSongError {
    /// A playlist came without entries.
    UnknownError,
    /// A video came without any link.
    LinkNotFound,
}

/// What resolving one link gives.
pub enum LinkHandlerResult {
    Song(YtSong),
    Playlist(Vec<YtSong>),
}

pub open spec fn unknown_text() -> Seq<char> {
    seq!['U', 'n', 'k', 'n', 'o', 'w', 'n']
}

pub open spec fn opt_view(o: Option<String>) -> Option<Seq<char>> {
    match o {
        Some(s) => Some(s@),
        None => None,
    }
}

/// The first present value of `a` and `b`, else "Unknown".
pub open spec fn first_or_unknown(a: Option<String>, b: Option<String>) -> Seq<char> {
    match a {
        Some(s) => s@,
        None => match b {
            Some(s) => s@,
            None => unknown_text(),
        },
    }
}

fn unknown() -> (r: String)
    ensures
        r@ == unknown_text(),
{
    let r = "Unknown".to_owned();
    proof {
        reveal_strlit("Unknown");
    }
    r
}

/// Title, falling back to the alternate title, then to "Unknown".
pub fn get_title(sv: &VideoInfo) -> (r: String)
    ensures
        r@ == first_or_unknown(sv.title, sv.alt_title),
{
    match &sv.title {
        Some(t) => t.clone(),
        None => match &sv.alt_title {
            Some(t) => t.clone(),
            None => unknown(),
        },
    }
}

/// Artist, falling back to the uploader, then to "Unknown".
pub fn get_artist(sv: &VideoInfo) -> (r: String)
    ensures
        r@ == first_or_unknown(sv.artist, sv.uploader),
{
    match &sv.artist {
        Some(a) => a.clone(),
        None => match &sv.uploader {
            Some(a) => a.clone(),
            None => unknown(),
        },
    }
}

/// The direct url, falling back to the page url.
pub fn get_link(sv: &VideoInfo) -> (r: Result<String, YtSongError>)
    ensures
        match r {
            Ok(l) => match sv.url {
                Some(u) => l == u,
                None => sv.webpage_url == Some(l),
            },
            Err(e) => sv.url is None && sv.webpage_url is None && e == YtSongError::LinkNotFound,
        },
{
    match &sv.url {
        Some(u) => Ok(u.clone()),
        None => match &sv.webpage_url {
            Some(u) => Ok(u.clone()),
            None => Err(YtSongError::LinkNotFound),
        },
    }
}

/// The page url, falling back to the direct url.
pub fn get_url(sv: &VideoInfo) -> (r: Option<String>)
    ensures
        r == (match sv.webpage_url {
            Some(u) => Some(u),
            None => sv.url,
        }),
{
    match &sv.webpage_url {
        Some(u) => Some(u.clone()),
        None => clone_opt_string(&sv.url),
    }
}

/// The video carries a link to play it from.
pub open spec fn has_link(sv: VideoInfo) -> bool {
    sv.url is Some || sv.webpage_url is Some
}

/// The link a song is played from: the direct url, else the page url.
pub open spec fn link_of(sv: VideoInfo) -> String {
    match sv.url {
        Some(u) => u,
        None => sv.webpage_url.unwrap(),
    }
}

/// `s` is the song that the video's metadata describes, with its fallbacks applied.
pub open spec fn describes(sv: VideoInfo, s: YtSong) -> bool {
    &&& s.id == link_of(sv)
    &&& s.title@ == first_or_unknown(sv.title, sv.alt_title)
    &&& s.artist@ == first_or_unknown(sv.artist, sv.uploader)
    &&& s.duration == sv.duration
    &&& s.extension == sv.ext
    &&& s.yt_id == sv.id
}

/// The song that one video's metadata describes; a video without any link gives `LinkNotFound`.
pub fn from_sv(sv: &VideoInfo) -> (r: Result<YtSong, YtSongError>)
    ensures
        match r {
            Ok(s) => has_link(*sv) && describes(*sv, s),
            Err(e) => !has_link(*sv) && e == YtSongError::LinkNotFound,
        },
{
    let id = match get_link(sv) {
        Ok(l) => l,
        Err(e) => return Err(e),
    };
    Ok(YtSong {
        id,
        title: get_title(sv),
        artist: get_artist(sv),
        duration: sv.duration,
        extension: clone_opt_string(&sv.ext),
        yt_id: sv.id.clone(),
    })
}

/// The entries that carry a link, in order.
pub open spec fn linked(entries: Seq<VideoInfo>) -> Seq<VideoInfo>
    decreases entries.len(),
{
    if entries.len() == 0 {
        Seq::empty()
    } else if has_link(entries.last()) {
        linked(entries.drop_last()).push(entries.last())
    } else {
        linked(entries.drop_last())
    }
}

/// The songs of a playlist: entries without a link are dropped, the others keep their order.
/// A playlist without entries gives `UnknownError`.
pub fn from_pl(entries: &Option<Vec<VideoInfo>>) -> (r: Result<Vec<YtSong>, YtSongError>)
    ensures
        match r {
            Ok(songs) => entries is Some && songs@.len() == linked(entries.unwrap()@).len()
                && forall|i: int| 0 <= i < songs@.len()
                    ==> describes(#[trigger] linked(entries.unwrap()@)[i], songs@[i]),
            Err(e) => entries is None && e == YtSongError::UnknownError,
        },
{
    let entries = match entries {
        Some(e) => e,
        None => return Err(YtSongError::UnknownError),
    };
    let mut songs: Vec<YtSong> = Vec::new();
    let mut i: usize = 0;
    while i < entries.len()
        invariant
            i <= entries@.len(),
            songs@.len() == linked(entries@.subrange(0, i as int)).len(),
            forall|j: int| 0 <= j < songs@.len()
                ==> describes(#[trigger] linked(entries@.subrange(0, i as int))[j], songs@[j]),
        decreases entries@.len() - i,
    {
        let ghost before = entries@.subrange(0, i as int);
        let ghost after = entries@.subrange(0, i + 1);
        assert(after.drop_last() =~= before);
        assert(after.last() == entries@[i as int]);
        match from_sv(&entries[i]) {
            Ok(s) => {
                songs.push(s);
            },
            Err(_) => {},
        }
        i += 1;
    }
    assert(entries@.subrange(0, entries@.len() as int) =~= entries@);
    Ok(songs)
}

/// Turns links into song descriptions; implemented over the external resolver tool.
pub trait LinkHandling {
    fn handle_link(&self, link: &str) -> Result<LinkHandlerResult, String>;
}

/// A resolver that knows no songs: every link gives an empty playlist.
pub struct NullLinkHandler {}

impl LinkHandling for NullLinkHandler {
    fn handle_link(&self, _link: &str) -> Result<LinkHandlerResult, String> {
        Ok(LinkHandlerResult::Playlist(Vec::new()))
    }
}

/// The songs a resolver report describes.
pub fn resolve_output(info: &ResolvedInfo) -> (r: Result<LinkHandlerResult, YtSongError>)
    ensures
        match info {
            ResolvedInfo::Single(sv) => match r {
                Ok(LinkHandlerResult::Song(s)) => has_link(*sv) && describes(*sv, s),
                Ok(LinkHandlerResult::Playlist(_)) => false,
                Err(e) => !has_link(*sv) && e == YtSongError::LinkNotFound,
            },
            ResolvedInfo::Playlist(entries) => match r {
                Ok(LinkHandlerResult::Playlist(songs)) => entries is Some && songs@.len() == linked(
                    entries.unwrap()@,
                ).len() && forall|i: int| 0 <= i < songs@.len()
                    ==> describes(#[trigger] linked(entries.unwrap()@)[i], songs@[i]),
                Ok(LinkHandlerResult::Song(_)) => false,
                Err(e) => entries is None && e == YtSongError::UnknownError,
            },
        },
{
    match info {
        ResolvedInfo::Single(sv) => match from_sv(sv) {
            Ok(s) => Ok(LinkHandlerResult::Song(s)),
            Err(e) => Err(e),
        },
        ResolvedInfo::Playlist(entries) => match from_pl(entries) {
            Ok(songs) => Ok(LinkHandlerResult::Playlist(songs)),
            Err(e) => Err(e),
        },
    }
}

/// `base` and `name` joined by one separator; an empty base gives `name` alone.
pub open spec fn joined(base: Seq<char>, name: Seq<char>) -> Seq<char> {
    if base.len() == 0 {
        name
    } else if base.last() == '/' {
        base + name
    } else {
        base + seq!['/'] + name
    }
}

/// Joins a file name onto a directory path.
pub fn join_path(base: &str, name: &str) -> (r: String)
    ensures
        r@ == joined(base@, name@),
{
    let mut r = base.to_owned();
    let n = base.unicode_len();
    if n == 0 {
        return name.to_owned();
    }
    if base.get_char(n - 1) != '/' {
        r.append("/");
        proof {
            reveal_strlit("/");
        }
    }
    r.append(name);
    r
}

/// The file name part of the resolver's output template: the provider id, a dot, then the
/// extension the tool picks.
pub open spec fn template_name() -> Seq<char> {
    seq!['%', '(', 'i', 'd', ')', 's', '.', '%', '(', 'e', 'x', 't', ')', 's']
}

/// The resolver's output template for a download directory. Once the tool fills in the id and
/// the extension it names the same file as `YtSong::get_path` and `YtSong::cache_song`: the
/// template's file name joined onto the directory as they join theirs.
pub fn output_template(dir: &str) -> (r: String)
    ensures
        r@ == joined(dir@, template_name()),
{
    proof {
        reveal_strlit("%(id)s.%(ext)s");
    }
    join_path(dir, "%(id)s.%(ext)s")
}

/// `<stem>.<ext>`.
pub open spec fn file_name(stem: Seq<char>, ext: Seq<char>) -> Seq<char> {
    stem + seq!['.'] + ext
}

pub fn make_file_name(stem: &str, ext: &str) -> (r: String)
    ensures
        r@ == file_name(stem@, ext@),
{
    let mut r = stem.to_owned();
    r.append(".");
    proof {
        reveal_strlit(".");
    }
    r.append(ext);
    r
}

/// A file found in the download directory: its stem and its extension, where present.
pub struct FileName {
    pub stem: Option<String>,
    pub extension: Option<String>,
}

/// The extension of the first file whose stem is `id`; none where that file has no extension
/// or no file matches.
pub open spec fn extension_for(files: Seq<FileName>, id: Seq<char>) -> Option<String>
    decreases files.len(),
{
    if files.len() == 0 {
        None
    } else if opt_view(files[0].stem) == Some(id) {
        files[0].extension
    } else {
        extension_for(files.drop_first(), id)
    }
}

/// Scans a directory listing for the file that a download of `id` produced.
pub fn find_cached_song_extension(id: &String, files: &Vec<FileName>) -> (r: Option<String>)
    ensures
        r == extension_for(files@, id@),
{
    let mut i: usize = 0;
    assert(files@.subrange(0, files@.len() as int) =~= files@);
    while i < files.len()
        invariant
            i <= files@.len(),
            extension_for(files@, id@) == extension_for(files@.subrange(i as int, files@.len() as int), id@),
        decreases files@.len() - i,
    {
        let ghost rest = files@.subrange(i as int, files@.len() as int);
        assert(rest[0] == files@[i as int]);
        assert(rest.drop_first() =~= files@.subrange(i + 1, files@.len() as int));
        match &files[i].stem {
            Some(s) => {
                if *s == *id {
                    return clone_opt_string(&files[i].extension);
                }
            },
            None => {},
        }
        i += 1;
    }
    None
}

pub open spec fn no_extension_text() -> Seq<char> {
    seq!['N', 'o', ' ', 'e', 'x', 't', 'e', 'n', 's', 'i', 'o', 'n']
}

pub open spec fn mp3_text() -> Seq<char> {
    seq!['m', 'p', '3']
}

impl YtSong {
    /// Where the song's download is expected: `<base>/<provider id>.<extension>`, with "mp3"
    /// where the provider reported no extension.
    pub fn get_path(&self, base_path: &str) -> (r: String)
        ensures
            r@ == joined(
                base_path@,
                file_name(
                    self.yt_id@,
                    match self.extension {
                        Some(e) => e@,
                        None => mp3_text(),
                    },
                ),
            ),
    {
        let name = match &self.extension {
            Some(e) => make_file_name(self.yt_id.as_str(), e.as_str()),
            None => {
                proof {
                    reveal_strlit("mp3");
                }
                make_file_name(self.yt_id.as_str(), "mp3")
            },
        };
        join_path(base_path, name.as_str())
    }

    /// The cached record of the song once its download into `base_path` finished; `files` is
    /// that directory's listing, read when the provider reported no extension. Without any
    /// extension the song cannot be cached.
    pub fn cache_song(&self, base_path: &str, files: &Vec<FileName>) -> (r: Result<CachedSong, String>)
        ensures
            match r {
                Ok(c) => {
                    let ext = match self.extension {
                        Some(e) => e,
                        None => extension_for(files@, self.yt_id@).unwrap(),
                    };
                    &&& (self.extension is Some || extension_for(files@, self.yt_id@) is Some)
                    &&& c.id == self.id
                    &&& c.title == self.title
                    &&& c.artist == self.artist
                    &&& c.duration == self.duration
                    &&& c.path@ == joined(base_path@, file_name(self.yt_id@, ext@))
                },
                Err(e) => self.extension is None && extension_for(files@, self.yt_id@) is None
                    && e@ == no_extension_text(),
            },
    {
        let ext = match &self.extension {
            Some(e) => e.clone(),
            None => match find_cached_song_extension(&self.yt_id, files) {
                Some(e) => e,
                None => {
                    proof {
                        reveal_strlit("No extension");
                    }
                    return Err("No extension".to_owned());
                },
            },
        };
        let name = make_file_name(self.yt_id.as_str(), ext.as_str());
        Ok(CachedSong {
            id: self.id.clone(),
            path: join_path(base_path, name.as_str()),
            title: self.title.clone(),
            artist: self.artist.clone(),
            duration: self.duration,
        })
    }
}

/// The page url of a video, falling back to its direct url.
pub open spec fn url_of(sv: VideoInfo) -> Option<String> {
    match sv.webpage_url {
        Some(u) => Some(u),
        None => sv.url,
    }
}

/// The urls of the entries that have one, in order.
pub open spec fn entry_urls(entries: Seq<VideoInfo>) -> Seq<String>
    decreases entries.len(),
{
    if entries.len() == 0 {
        Seq::empty()
    } else {
        match url_of(entries.last()) {
            Some(u) => entry_urls(entries.drop_last()).push(u),
            None => entry_urls(entries.drop_last()),
        }
    }
}

/// The urls to download for a resolver report: the video's own, or those of the playlist's
/// entries; none for a playlist without entries.
pub fn get_urls(info: &ResolvedInfo) -> (r: Vec<String>)
    ensures
        r@ == match info {
            ResolvedInfo::Single(sv) => match url_of(*sv) {
                Some(u) => seq![u],
                None => Seq::empty(),
            },
            ResolvedInfo::Playlist(None) => Seq::empty(),
            ResolvedInfo::Playlist(Some(e)) => entry_urls(e@),
        },
{
    let mut res: Vec<String> = Vec::new();
    match info {
        ResolvedInfo::Single(sv) => {
            match get_url(sv) {
                Some(u) => res.push(u),
                None => {},
            }
            assert(res@ =~= match url_of(*sv) {
                Some(u) => seq![u],
                None => Seq::empty(),
            });
        },
        ResolvedInfo::Playlist(None) => {
            assert(res@ =~= Seq::<String>::empty());
        },
        ResolvedInfo::Playlist(Some(entries)) => {
            let mut i: usize = 0;
            assert(entries@.subrange(0, 0) =~= Seq::<VideoInfo>::empty());
            while i < entries.len()
                invariant
                    i <= entries@.len(),
                    res@ == entry_urls(entries@.subrange(0, i as int)),
                decreases entries@.len() - i,
            {
                assert(entries@.subrange(0, i + 1).drop_last() =~= entries@.subrange(0, i as int));
                match get_url(&entries[i]) {
                    Some(u) => res.push(u),
                    None => {},
                }
                i += 1;
            }
            assert(entries@.subrange(0, entries@.len() as int) =~= entries@);
        },
    }
    res
}

/// What to do after a download attempt.
#[derive(Debug, Clone, Copy, PartialEq, Eq, Structural)]
pub enum RetryStep {
    /// Keep the outcome: it succeeded, or the attempts are used up.
    Done,
    /// Wait the fixed backoff and try again.
    Again,
}

/// The retry policy of bulk downloads: a failed attempt is tried again until `max_attempts`
/// attempts were made.
pub fn retry_step(attempts_made: u32, max_attempts: u32, succeeded: bool) -> (r: RetryStep)
    ensures
        r == if succeeded || attempts_made >= max_attempts {
            RetryStep::Done
        } else {
            RetryStep::Again
        },
{
    if succeeded || attempts_made >= max_attempts {
        RetryStep::Done
    } else {
        RetryStep::Again
    }
}

} // verus!
