//! Asking yt-dlp about videos, playlists and searches: the command lines,
//! and the reading of its line-per-item output.
use vstd::prelude::*;
use vstd::string::*;
use crate::music::error::MusicError;
use crate::text::{decimal, decimal_string, owned, push_char};

verus! {

/// A yt-dlp handle: the program that is run.
pub struct Ytdl {
    program: String,
}

impl View for Ytdl {
    type V = Seq<char>;

    closed spec fn view(&self) -> Seq<char> {
        self.program@
    }
}

impl Ytdl {
    /// The handle for the `yt-dlp` program.
    pub fn new() -> (y: Ytdl)
        ensures
            y@ == "yt-dlp"@,
    {
        Ytdl::new_program("yt-dlp")
    }

    /// The handle for another program that speaks yt-dlp's language.
    pub fn new_program(program: &str) -> (y: Ytdl)
        ensures
            y@ == program@,
    {
        Ytdl { program: owned(program) }
    }

    /// The program that is run.
    pub fn program(&self) -> (r: &str)
        ensures
            r@ == self@,
    {
        self.program.as_str()
    }
}

/// An item of a playlist.
#[derive(Clone, Debug)]
pub struct PlaylistQueryItem {
    pub url: String,
}

/// A thumbnail of a video.
#[derive(Clone, Debug)]
pub struct Thumbnail {
    pub url: String,
    pub width: Option<u32>,
    pub height: Option<u32>,
}

/// The views of a list of texts.
pub open spec fn texts(v: Seq<String>) -> Seq<Seq<char>> {
    v.map_values(|s: String| s@)
}

/// The arguments that list the items of a playlist.
pub open spec fn playlist_args_spec(url: Seq<char>) -> Seq<Seq<char>> {
    seq!["-j"@, "--flat-playlist"@, "-no-abort-on-error"@, url]
}

/// The arguments that describe one video.
pub open spec fn query_args_spec(url: Seq<char>) -> Seq<Seq<char>> {
    seq!["-j"@, url]
}

/// The search term: `ytsearch{n}:'{query}'`, with one result when no count is given.
pub open spec fn search_term(query: Seq<char>, n_results: Option<usize>) -> Seq<char> {
    let n = match n_results {
        Some(n) => n as nat,
        None => 1,
    };
    "ytsearch"@ + decimal(n) + ":'"@ + query + "'"@
}

/// The arguments of a search.
pub open spec fn search_args_spec(query: Seq<char>, n_results: Option<usize>) -> Seq<Seq<char>> {
    seq!["-j"@, "--flat-playlist"@, "--skip-download"@, "--quiet"@, "--ignore-errors"@, search_term(query, n_results)]
}

/// The arguments that list the items of a playlist.
pub fn playlist_args(url: &str) -> (r: Vec<String>)
    ensures
        texts(r@) == playlist_args_spec(url@),
{
    let mut r = Vec::new();
    r.push(owned("-j"));
    r.push(owned("--flat-playlist"));
    r.push(owned("-no-abort-on-error"));
    r.push(owned(url));
    assert(texts(r@) =~= playlist_args_spec(url@));
    r
}

/// The arguments that describe one video.
pub fn query_args(url: &str) -> (r: Vec<String>)
    ensures
        texts(r@) == query_args_spec(url@),
{
    let mut r = Vec::new();
    r.push(owned("-j"));
    r.push(owned(url));
    assert(texts(r@) =~= query_args_spec(url@));
    r
}

/// The arguments of a search for `query`, asking for `n_results` results
/// (one when not given).
pub fn search_args(query: &str, n_results: Option<usize>) -> (r: Vec<String>)
    ensures
        texts(r@) == search_args_spec(query@, n_results),
{
    let n = match n_results {
        Some(n) => n,
        None => 1,
    };
    let mut term = owned("ytsearch");
    let count = decimal_string(n as u64);
    term.append(count.as_str());
    term.append(":'");
    term.append(query);
    term.append("'");
    let mut r = Vec::new();
    r.push(owned("-j"));
    r.push(owned("--flat-playlist"));
    r.push(owned("--skip-download"));
    r.push(owned("--quiet"));
    r.push(owned("--ignore-errors"));
    r.push(term);
    assert(texts(r@) =~= search_args_spec(query@, n_results));
    r
}

/// A line without the carriage return that ends it, if one does.
pub open spec fn strip_cr(line: Seq<char>) -> Seq<char> {
    if line.len() > 0 && line.last() == '\r' { line.drop_last() } else { line }
}

/// The lines of `rest`, when `pending` has been read of the current line:
/// a line ends at `\n` (and then loses a `\r` before it); the last line
/// needs no `\n`, and an empty text after the last `\n` is no line.
pub open spec fn split_lines(pending: Seq<char>, rest: Seq<char>) -> Seq<Seq<char>>
    decreases rest.len(),
{
    if rest.len() == 0 {
        if pending.len() == 0 { Seq::empty() } else { seq![pending] }
    } else if rest[0] == '\n' {
        seq![strip_cr(pending)] + split_lines(Seq::empty(), rest.skip(1))
    } else {
        split_lines(pending.push(rest[0]), rest.skip(1))
    }
}

/// The lines of a text, as `str::lines` gives them.
pub open spec fn lines_of(s: Seq<char>) -> Seq<Seq<char>> {
    split_lines(Seq::empty(), s)
}

fn string_of(cs: &Vec<char>, len: usize) -> (r: String)
    requires
        len <= cs@.len(),
    ensures
        r@ == cs@.take(len as int),
{
    let mut r = String::new();
    let mut i: usize = 0;
    while i < len
        invariant
            len <= cs@.len(),
            i <= len,
            r@ == cs@.take(i as int),
        decreases len - i,
    {
        push_char(&mut r, cs[i]);
        assert(cs@.take(i + 1) =~= cs@.take(i as int).push(cs@[i as int]));
        i = i + 1;
    }
    r
}

/// The lines of a text: yt-dlp writes one item per line.
pub fn output_lines(text: &str) -> (r: Vec<String>)
    ensures
        texts(r@) == lines_of(text@),
{
    let cs = crate::text::chars_of(text);
    let mut out: Vec<String> = Vec::new();
    let mut cur: Vec<char> = Vec::new();
    let mut i: usize = 0;
    assert(text@.skip(0) =~= text@);
    assert(texts(out@) =~= Seq::<Seq<char>>::empty());
    while i < cs.len()
        invariant
            cs@ == text@,
            i <= cs@.len(),
            lines_of(text@) == texts(out@) + split_lines(cur@, text@.skip(i as int)),
        decreases cs@.len() - i,
    {
        let c = cs[i];
        let ghost rest = text@.skip(i as int);
        assert(rest[0] == c);
        assert(rest.skip(1) =~= text@.skip(i + 1));
        if c == '\n' {
            let n = cur.len();
            let keep = if n > 0 && cur[n - 1] == '\r' { n - 1 } else { n };
            let line = string_of(&cur, keep);
            assert(line@ =~= strip_cr(cur@));
            let ghost before = out@;
            out.push(line);
            assert(texts(out@) =~= texts(before).push(line@));
            assert(seq![strip_cr(cur@)] + split_lines(Seq::empty(), rest.skip(1)) =~= split_lines(cur@, rest));
            cur = Vec::new();
            assert(cur@ =~= Seq::<char>::empty());
        } else {
            cur.push(c);
        }
        i = i + 1;
    }
    if cur.len() > 0 {
        let n = cur.len();
        let line = string_of(&cur, n);
        assert(cur@.take(n as int) =~= cur@);
        let ghost before = out@;
        out.push(line);
        assert(texts(out@) =~= texts(before).push(line@));
    }
    assert(text@.skip(i as int) =~= Seq::<char>::empty());
    out
}

/// The first result of a search; a search without results is refused with
/// `SearchNotFound`.
pub fn first_result<T>(items: Vec<T>) -> (r: Result<T, MusicError>)
    ensures
        r is Ok <==> items@.len() > 0,
        r matches Ok(x) ==> x == items@[0],
        r matches Err(e) ==> e == MusicError::SearchNotFound,
{
    let mut items = items;
    if items.len() == 0 {
        Err(MusicError::SearchNotFound)
    } else {
        Ok(items.swap_remove(0))
    }
}

} // verus!
