use vstd::prelude::*;
use vstd::string::*;

use crate::song::Song;

verus! {

pub open spec fn digit_char(d: nat) -> char {
    if d == 0 { '0' }
    else if d == 1 { '1' }
    else if d == 2 { '2' }
    else if d == 3 { '3' }
    else if d == 4 { '4' }
    else if d == 5 { '5' }
    else if d == 6 { '6' }
    else if d == 7 { '7' }
    else if d == 8 { '8' }
    else { '9' }
}

/// The decimal digits of `n`, without leading zeros.
pub open spec fn decimal(n: nat) -> Seq<char>
    decreases n,
{
    if n < 10 {
        seq![digit_char(n)]
    } else {
        decimal(n / 10).push(digit_char(n % 10))
    }
}

/// `n` in decimal, with a leading zero below ten.
pub open spec fn two_digits(n: nat) -> Seq<char> {
    if n < 10 {
        seq!['0'] + decimal(n)
    } else {
        decimal(n)
    }
}

/// A duration as `[HH:]MM:SS`; the hours appear only when there are any.
pub open spec fn duration_text(secs: nat) -> Seq<char> {
    let h = secs / 3600;
    let hours = if h > 0 {
        two_digits(h) + seq![':']
    } else {
        Seq::empty()
    };
    hours + two_digits((secs / 60) % 60) + seq![':'] + two_digits(secs % 60)
}

fn digit_str(d: u64) -> (r: &'static str)
    requires
        d < 10,
    ensures
        r@ == seq![digit_char(d as nat)],
{
    proof {
        reveal_strlit("0");
        reveal_strlit("1");
        reveal_strlit("2");
        reveal_strlit("3");
        reveal_strlit("4");
        reveal_strlit("5");
        reveal_strlit("6");
        reveal_strlit("7");
        reveal_strlit("8");
        reveal_strlit("9");
    }
    if d == 0 { "0" }
    else if d == 1 { "1" }
    else if d == 2 { "2" }
    else if d == 3 { "3" }
    else if d == 4 { "4" }
    else if d == 5 { "5" }
    else if d == 6 { "6" }
    else if d == 7 { "7" }
    else if d == 8 { "8" }
    else { "9" }
}

/// Appends `n` in decimal.
pub fn push_decimal(s: &mut String, n: u64)
    ensures
        final(s)@ == old(s)@ + decimal(n as nat),
    decreases n,
{
    if n >= 10 {
        push_decimal(s, n / 10);
    }
    s.append(digit_str(n % 10));
    proof {
        if n >= 10 {
            assert(final(s)@ =~= old(s)@ + decimal(n as nat));
        } else {
            assert(final(s)@ =~= old(s)@ + decimal(n as nat));
        }
    }
}

fn push_two_digits(s: &mut String, n: u64)
    ensures
        final(s)@ == old(s)@ + two_digits(n as nat),
{
    if n < 10 {
        s.append("0");
        proof {
            reveal_strlit("0");
        }
    }
    push_decimal(s, n);
    assert(final(s)@ =~= old(s)@ + two_digits(n as nat));
}

/// Renders a number of seconds as `[HH:]MM:SS`.
pub fn format_duration(secs: u64) -> (r: String)
    ensures
        r@ == duration_text(secs as nat),
{
    let mut r = String::new();
    let h = secs / 3600;
    proof {
        reveal_strlit(":");
    }
    if h > 0 {
        push_two_digits(&mut r, h);
        r.append(":");
    }
    push_two_digits(&mut r, (secs / 60) % 60);
    r.append(":");
    push_two_digits(&mut r, secs % 60);
    assert(r@ =~= duration_text(secs as nat));
    r
}

/// `s` written `n` times.
pub open spec fn repeated(s: Seq<char>, n: nat) -> Seq<char>
    decreases n,
{
    if n == 0 {
        Seq::empty()
    } else {
        repeated(s, (n - 1) as nat) + s
    }
}

fn push_repeated(r: &mut String, s: &str, n: usize)
    ensures
        final(r)@ == old(r)@ + repeated(s@, n as nat),
{
    let mut i: usize = 0;
    assert(old(r)@ + repeated(s@, 0) =~= old(r)@);
    while i < n
        invariant
            i <= n,
            r@ == old(r)@ + repeated(s@, i as nat),
        decreases n - i,
    {
        r.append(s);
        i += 1;
        assert(r@ =~= old(r)@ + repeated(s@, i as nat));
    }
}

/// How many of `length` cells a bar shows as played: the played share of the song rounded to
/// the nearest cell (halves up), at most all of them. Without a positive duration, or before
/// anything was played, no cell is filled.
pub open spec fn filled_cells(song_duration: int, played: int, length: int) -> int {
    if song_duration <= 0 || played <= 0 {
        0
    } else if played >= song_duration {
        length
    } else {
        (2 * played * length + song_duration) / (2 * song_duration)
    }
}

/// A bar of `progress_bar_length` cells: the filled ones, then the empty ones, in brackets.
pub fn get_progress_bar(
    song_duration: i64,
    duration_played: i64,
    progress_bar_length: usize,
    progress_bar_fill: &str,
    progress_bar_empty: &str,
) -> (r: String)
    ensures
        ({
            let k = filled_cells(song_duration as int, duration_played as int, progress_bar_length as int);
            &&& 0 <= k <= progress_bar_length
            &&& r@ == seq!['['] + repeated(progress_bar_fill@, k as nat) + repeated(
                progress_bar_empty@,
                (progress_bar_length - k) as nat,
            ) + seq![']']
        }),
{
    let fill_amount: usize = if song_duration <= 0 || duration_played <= 0 {
        0
    } else if duration_played >= song_duration {
        progress_bar_length
    } else {
        let p = duration_played as u128;
        let d = song_duration as u128;
        let n = progress_bar_length as u128;
        assert(2 * p * n + d < 0x1_0000_0000_0000_0000_0000_0000_0000_0000) by (nonlinear_arith)
            requires
                p < d,
                d < 0x8000_0000_0000_0000,
                n < 0x1_0000_0000_0000_0000,
        ;
        assert((2 * p * n + d) / (2 * d) <= n) by (nonlinear_arith)
            requires
                0 < p < d,
        ;
        ((2 * p * n + d) / (2 * d)) as usize
    };
    let mut r = "[".to_owned();
    push_repeated(&mut r, progress_bar_fill, fill_amount);
    push_repeated(&mut r, progress_bar_empty, progress_bar_length - fill_amount);
    r.append("]");
    proof {
        reveal_strlit("[");
        reveal_strlit("]");
    }
    r
}

/// Most fields one listing page holds.
pub const MAX_EMBED_FIELD_COUNT: usize = 25;

pub const PROGRESS_BAR_LENGTH: usize = 20;

pub const PROGRESS_BAR_FILL: &'static str = "\u{25ae}";

pub const PROGRESS_BAR_EMPTY: &'static str = "\u{25af}";

/// The text of a song's duration in a listing: `[HH:]MM:SS`, or nothing where unknown.
pub open spec fn listed_duration(d: Option<u64>) -> Seq<char> {
    match d {
        Some(secs) => duration_text(secs as nat),
        None => Seq::empty(),
    }
}

/// The listing field of the song at `index`: `"<index + 1>. <title>"` over `"<artist> <duration>"`.
pub fn map_song(index: usize, song: &Song) -> (r: (String, String))
    requires
        index < u64::MAX,
    ensures
        r.0@ == decimal(index as nat + 1) + seq!['.', ' '] + song.title_of(),
        r.1@ == song.artist_of() + seq![' '] + listed_duration(song.duration_of()),
{
    let mut name = String::new();
    push_decimal(&mut name, index as u64 + 1);
    name.append(". ");
    name.append(song.title().as_str());
    let mut value = song.artist().clone();
    value.append(" ");
    match song.duration() {
        Some(d) => {
            let t = format_duration(d);
            value.append(t.as_str());
        },
        None => {},
    }
    proof {
        reveal_strlit(". ");
        reveal_strlit(" ");
    }
    assert(name@ =~= decimal(index as nat + 1) + seq!['.', ' '] + song.title_of());
    assert(value@ =~= song.artist_of() + seq![' '] + listed_duration(song.duration_of()));
    (name, value)
}

/// The listing fields of a queue, in order.
pub fn list_fields(songs: &Vec<Song>) -> (r: Vec<(String, String)>)
    requires
        songs@.len() < u64::MAX,
    ensures
        r@.len() == songs@.len(),
        forall|i: int| 0 <= i < songs@.len() ==> {
            &&& (#[trigger] r@[i]).0@ == decimal(i as nat + 1) + seq!['.', ' '] + songs@[i].title_of()
            &&& r@[i].1@ == songs@[i].artist_of() + seq![' '] + listed_duration(songs@[i].duration_of())
        },
{
    let mut r: Vec<(String, String)> = Vec::new();
    let mut i: usize = 0;
    while i < songs.len()
        invariant
            i <= songs@.len(),
            songs@.len() < u64::MAX,
            r@.len() == i,
            forall|j: int| 0 <= j < i ==> {
                &&& (#[trigger] r@[j]).0@ == decimal(j as nat + 1) + seq!['.', ' '] + songs@[j].title_of()
                &&& r@[j].1@ == songs@[j].artist_of() + seq![' '] + listed_duration(songs@[j].duration_of())
            },
        decreases songs@.len() - i,
    {
        r.push(map_song(i, &songs[i]));
        i += 1;
    }
    r
}

/// How many pages `count` fields take, at most `MAX_EMBED_FIELD_COUNT` to a page.
pub fn page_count(count: usize) -> (r: usize)
    ensures
        r as int == (count as int + MAX_EMBED_FIELD_COUNT - 1) / MAX_EMBED_FIELD_COUNT as int,
{
    count / MAX_EMBED_FIELD_COUNT + if count % MAX_EMBED_FIELD_COUNT == 0 { 0 } else { 1 }
}

/// The title of page `index` of `pages`: the base alone for a single page, else
/// `"<base> (<index + 1>/<pages>)"`.
pub fn page_title(base: &str, index: usize, pages: usize) -> (r: String)
    requires
        index < u64::MAX,
    ensures
        pages <= 1 ==> r@ == base@,
        pages > 1 ==> r@ == base@ + seq![' ', '('] + decimal(index as nat + 1) + seq!['/'] + decimal(
            pages as nat,
        ) + seq![')'],
{
    let mut r = base.to_owned();
    if pages > 1 {
        r.append(" (");
        push_decimal(&mut r, index as u64 + 1);
        r.append("/");
        push_decimal(&mut r, pages as u64);
        r.append(")");
        proof {
            reveal_strlit(" (");
            reveal_strlit("/");
            reveal_strlit(")");
        }
        assert(r@ =~= base@ + seq![' ', '('] + decimal(index as nat + 1) + seq!['/'] + decimal(pages as nat) + seq![')']);
    }
    r
}

/// Seconds left of a song of `duration` seconds after `elapsed`; none past its end.
pub fn remaining_seconds(duration: Option<u64>, elapsed: u64) -> (r: u64)
    ensures
        r == match duration {
            Some(d) => if elapsed > d { 0 } else { (d - elapsed) as u64 },
            None => 0,
        },
{
    match duration {
        Some(d) => if elapsed > d { 0 } else { d - elapsed },
        None => 0,
    }
}

/// The duration as shown for the current song: `[HH:]MM:SS`, or `??` where unknown.
pub open spec fn shown_duration(d: Option<u64>) -> Seq<char> {
    match d {
        Some(secs) => duration_text(secs as nat),
        None => seq!['?', '?'],
    }
}

/// The text under the current song's title: a progress bar, then
/// `"<artist> <duration>/<elapsed>"` on a line of its own.
pub fn now_playing_text(song: &Song, elapsed: u64) -> (r: String)
    requires
        elapsed <= i64::MAX,
        song.duration_of() matches Some(d) ==> d <= i64::MAX,
    ensures
        ({
            let d = match song.duration_of() {
                Some(d) => d as int,
                None => 0,
            };
            let k = filled_cells(d, elapsed as int, PROGRESS_BAR_LENGTH as int);
            r@ == seq!['['] + repeated(PROGRESS_BAR_FILL@, k as nat) + repeated(
                PROGRESS_BAR_EMPTY@,
                (PROGRESS_BAR_LENGTH - k) as nat,
            ) + seq![']'] + seq!['\n'] + song.artist_of() + seq![' '] + shown_duration(song.duration_of())
                + seq!['/'] + duration_text(elapsed as nat)
        }),
{
    let d: i64 = match song.duration() {
        Some(d) => d as i64,
        None => 0,
    };
    let mut r = get_progress_bar(d, elapsed as i64, PROGRESS_BAR_LENGTH, PROGRESS_BAR_FILL, PROGRESS_BAR_EMPTY);
    r.append("\n");
    r.append(song.artist().as_str());
    r.append(" ");
    match song.duration() {
        Some(secs) => {
            let t = format_duration(secs);
            r.append(t.as_str());
        },
        None => {
            r.append("??");
        },
    }
    r.append("/");
    let t = format_duration(elapsed);
    r.append(t.as_str());
    proof {
        reveal_strlit("\n");
        reveal_strlit(" ");
        reveal_strlit("??");
        reveal_strlit("/");
    }
    r
}

} // verus!
