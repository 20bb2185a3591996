use vstd::prelude::*;

use crate::models::{M3uEntry, Track};
use crate::text::{is_prefix_of, lower_of, lowercase, same_text, starts_with_text};

verus! {

/// The decimal digit `d` as text.
pub open spec fn digit_text(d: nat) -> Seq<char> {
    if d == 0 {
        "0"@
    } else if d == 1 {
        "1"@
    } else if d == 2 {
        "2"@
    } else if d == 3 {
        "3"@
    } else if d == 4 {
        "4"@
    } else if d == 5 {
        "5"@
    } else if d == 6 {
        "6"@
    } else if d == 7 {
        "7"@
    } else if d == 8 {
        "8"@
    } else {
        "9"@
    }
}

/// `n` in decimal, without leading zeros.
pub open spec fn digits_text(n: nat) -> Seq<char>
    decreases n,
{
    if n < 10 {
        digit_text(n)
    } else {
        digits_text(n / 10) + digit_text(n % 10)
    }
}

/// `n` in decimal, with a leading `-` when negative.
pub open spec fn decimal_text(n: int) -> Seq<char> {
    if n < 0 {
        "-"@ + digits_text((-n) as nat)
    } else {
        digits_text(n as nat)
    }
}

fn digit_str(d: u64) -> (r: &'static str)
    requires
        d < 10,
    ensures
        r@ == digit_text(d as nat),
{
    match d {
        0 => "0",
        1 => "1",
        2 => "2",
        3 => "3",
        4 => "4",
        5 => "5",
        6 => "6",
        7 => "7",
        8 => "8",
        _ => "9",
    }
}

fn append_digits(n: u64, out: &mut String)
    ensures
        final(out)@ == old(out)@ + digits_text(n as nat),
    decreases n,
{
    if n >= 10 {
        append_digits(n / 10, out);
    }
    out.append(digit_str(n % 10));
    proof {
        assert(old(out)@ + digits_text(n as nat) =~= if n >= 10 {
            old(out)@ + digits_text((n / 10) as nat) + digit_text((n % 10) as nat)
        } else {
            old(out)@ + digit_text(n as nat)
        });
    }
}

/// Appends `n` in decimal to `out`.
pub fn append_decimal(n: i64, out: &mut String)
    ensures
        final(out)@ == old(out)@ + decimal_text(n as int),
{
    if n < 0 {
        out.append("-");
        let magnitude: u64 = ((-(n + 1)) as u64) + 1;
        append_digits(magnitude, out);
        assert(final(out)@ =~= old(out)@ + decimal_text(n as int));
    } else {
        append_digits(n as u64, out);
    }
}

/// The text of an optional tag, "Unknown" when missing.
pub open spec fn tag_text(tag: Option<String>) -> Seq<char> {
    match tag {
        Some(s) => s@,
        None => "Unknown"@,
    }
}

/// The two lines that a track takes in an M3U file: its `#EXTINF` line (length
/// in seconds, -1 when unknown, then "artist - title") and its path.
pub open spec fn track_lines(t: Track) -> Seq<char> {
    let duration = match t.duration {
        Some(d) => d as int,
        None => -1,
    };
    "#EXTINF:"@ + decimal_text(duration) + ","@ + tag_text(t.artist) + " - "@ + tag_text(t.title)
        + "\n"@ + t.file_path@ + "\n"@
}

/// The lines of all tracks, in order.
pub open spec fn tracks_text(ts: Seq<Track>) -> Seq<char>
    decreases ts.len(),
{
    if ts.len() == 0 {
        Seq::empty()
    } else {
        tracks_text(ts.drop_last()) + track_lines(ts.last())
    }
}

/// A whole M3U file: the header, the playlist's name, then every track.
pub open spec fn m3u_text_spec(playlist_name: Seq<char>, ts: Seq<Track>) -> Seq<char> {
    "#EXTM3U\n"@ + "#PLAYLIST:"@ + playlist_name + "\n"@ + tracks_text(ts)
}

fn tag_str(tag: &Option<String>) -> (r: &str)
    ensures
        r@ == tag_text(*tag),
{
    match tag {
        Some(s) => s.as_str(),
        None => "Unknown",
    }
}

/// The extended M3U text of a playlist named `playlist_name` holding `tracks`.
pub fn m3u_text(playlist_name: &str, tracks: &[Track]) -> (r: String)
    ensures
        r@ == m3u_text_spec(playlist_name@, tracks@),
{
    let mut out = String::from_str("#EXTM3U\n");
    out.append("#PLAYLIST:");
    out.append(playlist_name);
    out.append("\n");
    let ghost head = out@;
    let mut i: usize = 0;
    while i < tracks.len()
        invariant
            i <= tracks@.len(),
            head == "#EXTM3U\n"@ + "#PLAYLIST:"@ + playlist_name@ + "\n"@,
            out@ == head + tracks_text(tracks@.subrange(0, i as int)),
        decreases tracks@.len() - i,
    {
        let t = &tracks[i];
        let ghost before = out@;
        out.append("#EXTINF:");
        let duration: i64 = match t.duration {
            Some(d) => d,
            None => -1,
        };
        append_decimal(duration, &mut out);
        out.append(",");
        out.append(tag_str(&t.artist));
        out.append(" - ");
        out.append(tag_str(&t.title));
        out.append("\n");
        out.append(t.file_path.as_str());
        out.append("\n");
        proof {
            let s = tracks@.subrange(0, i + 1);
            assert(s.drop_last() =~= tracks@.subrange(0, i as int));
            assert(s.last() == tracks@[i as int]);
            assert(out@ =~= before + track_lines(tracks@[i as int]));
        }
        i = i + 1;
    }
    assert(tracks@.subrange(0, tracks@.len() as int) =~= tracks@);
    out
}

/// Unicode White_Space, the characters that `str::trim` removes.
pub open spec fn is_white_space(c: char) -> bool {
    ||| '\t' <= c <= '\r'
    ||| c == ' '
    ||| c == '\u{85}'
    ||| c == '\u{A0}'
    ||| c == '\u{1680}'
    ||| '\u{2000}' <= c <= '\u{200A}'
    ||| c == '\u{2028}'
    ||| c == '\u{2029}'
    ||| c == '\u{202F}'
    ||| c == '\u{205F}'
    ||| c == '\u{3000}'
}

/// `s` without its leading white space.
pub open spec fn trim_start_spec(s: Seq<char>) -> Seq<char>
    decreases s.len(),
{
    if s.len() > 0 && is_white_space(s[0]) {
        trim_start_spec(s.drop_first())
    } else {
        s
    }
}

/// `s` without its trailing white space.
pub open spec fn trim_end_spec(s: Seq<char>) -> Seq<char>
    decreases s.len(),
{
    if s.len() > 0 && is_white_space(s.last()) {
        trim_end_spec(s.drop_last())
    } else {
        s
    }
}

/// `s` without leading and trailing white space.
pub open spec fn trim_spec(s: Seq<char>) -> Seq<char> {
    trim_end_spec(trim_start_spec(s))
}

/// Relies on `str::trim`: the text with leading and trailing Unicode
/// White_Space removed.
#[verifier::external_body]
fn trim(s: &str) -> (r: &str)
    ensures
        r@ == trim_spec(s@),
{
    s.trim()
}

/// Whether `c` is an ASCII decimal digit.
pub open spec fn is_digit(c: char) -> bool {
    '0' <= c <= '9'
}

/// The value of a run of decimal digits.
pub open spec fn digits_value(s: Seq<char>) -> int
    decreases s.len(),
{
    if s.len() == 0 {
        0
    } else {
        digits_value(s.drop_last()) * 10 + ((s.last() as u32) as int - ('0' as u32) as int)
    }
}

/// What `i64`'s `from_str` gives: an optional `+` or `-`, then one or more ASCII
/// digits, whose value fits in an `i64`; nothing else parses.
pub open spec fn parse_i64_spec(s: Seq<char>) -> Option<i64> {
    let neg = s.len() > 0 && s[0] == '-';
    let body = if s.len() > 0 && (s[0] == '-' || s[0] == '+') {
        s.drop_first()
    } else {
        s
    };
    let v = if neg {
        -digits_value(body)
    } else {
        digits_value(body)
    };
    if body.len() > 0 && (forall|i: int| 0 <= i < body.len() ==> is_digit(#[trigger] body[i]))
        && i64::MIN <= v <= i64::MAX {
        Some(v as i64)
    } else {
        None
    }
}

/// Relies on `i64`'s `FromStr`: an optional sign, then ASCII digits, in range.
#[verifier::external_body]
fn parse_i64(s: &str) -> (r: Option<i64>)
    ensures
        r == parse_i64_spec(s@),
{
    s.parse::<i64>().ok()
}

/// The first index at or after `i` where `s` holds `c`.
pub open spec fn find_from(s: Seq<char>, c: char, i: int) -> Option<int>
    decreases s.len() - i,
{
    if i < 0 || i >= s.len() {
        None
    } else if s[i] == c {
        Some(i)
    } else {
        find_from(s, c, i + 1)
    }
}

proof fn lemma_find_skips(s: Seq<char>, c: char, i: int)
    requires
        0 <= i <= s.len(),
        forall|j: int| 0 <= j < i ==> s[j] != c,
    ensures
        find_from(s, c, 0) == find_from(s, c, i),
    decreases i,
{
    if i > 0 {
        lemma_find_skips(s, c, i - 1);
    }
}

fn find_char(s: &str, c: char) -> (r: Option<usize>)
    ensures
        match r {
            Some(k) => k < s@.len() && find_from(s@, c, 0) == Some(k as int),
            None => find_from(s@, c, 0) is None,
        },
{
    let n = s.unicode_len();
    let mut i: usize = 0;
    while i < n
        invariant
            n == s@.len(),
            i <= n,
            forall|j: int| 0 <= j < i ==> s@[j] != c,
        decreases n - i,
    {
        if s.get_char(i) == c {
            proof {
                lemma_find_skips(s@, c, i as int);
            }
            return Some(i);
        }
        i = i + 1;
    }
    proof {
        lemma_find_skips(s@, c, n as int);
    }
    None
}

/// A meaningful line of an M3U file.
#[derive(Debug)]
pub enum M3uLine {
    /// `#EXTINF:<duration>,<title>`; the duration is absent when it does not parse.
    Info { duration: Option<i64>, title: String },
    /// A line naming a file.
    Path(String),
}

/// A meaningful M3U line as plain values.
pub enum M3uLineModel {
    Info { duration: Option<i64>, title: Seq<char> },
    Path(Seq<char>),
}

impl View for M3uLine {
    type V = M3uLineModel;

    open spec fn view(&self) -> M3uLineModel {
        match self {
            M3uLine::Info { duration, title } => M3uLineModel::Info {
                duration: *duration,
                title: title@,
            },
            M3uLine::Path(p) => M3uLineModel::Path(p@),
        }
    }
}

/// What a trimmed line means: nothing for a blank line, the header, the
/// playlist name, an `#EXTINF` without a comma, or any other `#` comment; the
/// duration and title of an `#EXTINF`; otherwise a file path.
pub open spec fn classify_spec(line: Seq<char>) -> Option<M3uLineModel> {
    if line.len() == 0 || line == "#EXTM3U"@ || is_prefix_of("#PLAYLIST:"@, line) {
        None
    } else if is_prefix_of("#EXTINF:"@, line) {
        let rest = line.subrange("#EXTINF:"@.len() as int, line.len() as int);
        match find_from(rest, ',', 0) {
            Some(k) => Some(
                M3uLineModel::Info {
                    duration: parse_i64_spec(trim_spec(rest.subrange(0, k))),
                    title: trim_spec(rest.subrange(k + 1, rest.len() as int)),
                },
            ),
            None => None,
        }
    } else if is_prefix_of("#"@, line) {
        None
    } else {
        Some(M3uLineModel::Path(line))
    }
}

/// The view of an optional line.
pub open spec fn line_opt_view(l: Option<M3uLine>) -> Option<M3uLineModel> {
    match l {
        Some(x) => Some(x@),
        None => None,
    }
}

/// Reads one raw line of an M3U file, trimmed first.
pub fn parse_m3u_line(raw: &str) -> (r: Option<M3uLine>)
    ensures
        line_opt_view(r) == classify_spec(trim_spec(raw@)),
{
    let line = trim(raw);
    if line.unicode_len() == 0 || same_text(line, "#EXTM3U") || starts_with_text(line, "#PLAYLIST:") {
        return None;
    }
    if starts_with_text(line, "#EXTINF:") {
        let n = line.unicode_len();
        let rest = line.substring_char("#EXTINF:".unicode_len(), n);
        match find_char(rest, ',') {
            Some(k) => {
                let duration = parse_i64(trim(rest.substring_char(0, k)));
                let title = String::from_str(trim(rest.substring_char(k + 1, rest.unicode_len())));
                Some(M3uLine::Info { duration, title })
            },
            None => None,
        }
    } else if starts_with_text(line, "#") {
        None
    } else {
        Some(M3uLine::Path(String::from_str(line)))
    }
}

/// The meaningful lines among the raw lines `ls`, in order.
pub open spec fn parsed_lines_spec(ls: Seq<Seq<char>>) -> Seq<M3uLineModel>
    decreases ls.len(),
{
    if ls.len() == 0 {
        Seq::empty()
    } else {
        let prev = parsed_lines_spec(ls.drop_last());
        match classify_spec(trim_spec(ls.last())) {
            Some(l) => prev.push(l),
            None => prev,
        }
    }
}

/// Reads the raw lines of an M3U file into its meaningful lines.
pub fn parse_m3u_lines(lines: &Vec<String>) -> (r: Vec<M3uLine>)
    ensures
        r@.map_values(|l: M3uLine| l@) == parsed_lines_spec(
            lines@.map_values(|s: String| s@),
        ),
{
    let mut r: Vec<M3uLine> = Vec::new();
    let mut i: usize = 0;
    while i < lines.len()
        invariant
            i <= lines@.len(),
            r@.map_values(|l: M3uLine| l@) == parsed_lines_spec(
                lines@.subrange(0, i as int).map_values(|s: String| s@),
            ),
        decreases lines@.len() - i,
    {
        let parsed = parse_m3u_line(lines[i].as_str());
        proof {
            let next = lines@.subrange(0, i + 1).map_values(|s: String| s@);
            assert(next.drop_last() =~= lines@.subrange(0, i as int).map_values(|s: String| s@));
            assert(next.last() == lines@[i as int]@);
        }
        match parsed {
            Some(l) => {
                r.push(l);
            },
            None => {},
        }
        proof {
            assert(r@.map_values(|l: M3uLine| l@) =~= parsed_lines_spec(
                lines@.subrange(0, i + 1).map_values(|s: String| s@),
            ));
        }
        i = i + 1;
    }
    assert(lines@.subrange(0, lines@.len() as int) =~= lines@);
    r
}

/// The extension of a path as `std::path::Path` finds it: the text after the
/// last dot of the file name, if it has one.
pub uninterp spec fn extension_of(path: Seq<char>) -> Option<Seq<char>>;

/// The view of an optional text.
pub open spec fn text_opt(o: Option<String>) -> Option<Seq<char>> {
    match o {
        Some(s) => Some(s@),
        None => None,
    }
}

/// Relies on `Path::extension` (with `OsStr::to_str`, which cannot fail on text
/// that came from a `&str`): the extension depends on the path alone.
#[verifier::external_body]
fn path_extension(path: &str) -> (r: Option<String>)
    ensures
        text_opt(r) == extension_of(path@),
{
    match std::path::Path::new(path).extension() {
        Some(e) => e.to_str().map(String::from),
        None => None,
    }
}

/// The extensions of the audio formats that a playlist may name.
pub open spec fn is_audio_extension_spec(e: Seq<char>) -> bool {
    ||| e == "mp3"@
    ||| e == "flac"@
    ||| e == "ogg"@
    ||| e == "m4a"@
    ||| e == "wav"@
    ||| e == "aac"@
    ||| e == "opus"@
    ||| e == "wma"@
}

/// Whether `lowered`, an extension already in lower case, is an audio format's.
pub fn is_audio_extension(lowered: &str) -> (r: bool)
    ensures
        r == is_audio_extension_spec(lowered@),
{
    same_text(lowered, "mp3") || same_text(lowered, "flac") || same_text(lowered, "ogg")
        || same_text(lowered, "m4a") || same_text(lowered, "wav") || same_text(lowered, "aac")
        || same_text(lowered, "opus") || same_text(lowered, "wma")
}

/// Whether a path names an audio file: its extension, in lower case, is an
/// audio format's.
pub open spec fn is_audio_path_spec(path: Seq<char>) -> bool {
    match extension_of(path) {
        Some(e) => is_audio_extension_spec(lower_of(e)),
        None => false,
    }
}

/// Whether `path` names an audio file by its extension, in any case.
pub fn has_audio_extension(path: &str) -> (r: bool)
    ensures
        r == is_audio_path_spec(path@),
{
    match path_extension(path) {
        Some(e) => {
            let lowered = lowercase(e.as_str());
            is_audio_extension(lowered.as_str())
        },
        None => false,
    }
}

/// An M3U entry as plain values.
pub struct M3uEntryModel {
    pub path: Seq<char>,
    pub title: Option<Seq<char>>,
    pub duration: Option<i64>,
}

/// The view of an entry.
pub open spec fn entry_view(e: M3uEntry) -> M3uEntryModel {
    M3uEntryModel { path: e.path@, title: text_opt(e.title), duration: e.duration }
}

/// Entries gathered so far, with the title and duration of the last `#EXTINF`
/// not yet given to an entry.
pub type AssembleState = (Seq<M3uEntryModel>, Option<Seq<char>>, Option<i64>);

/// One line's effect: an `#EXTINF` replaces the pending title and duration; a
/// path that resolved to an audio file becomes an entry and takes them; a path
/// that did not resolve, or is not audio, is skipped and leaves them pending.
pub open spec fn assemble_step(
    st: AssembleState,
    line: M3uLineModel,
    resolved: Option<Seq<char>>,
) -> AssembleState {
    match line {
        M3uLineModel::Info { duration, title } => (st.0, Some(title), duration),
        M3uLineModel::Path(_) => match resolved {
            Some(p) => if is_audio_path_spec(p) {
                (st.0.push(M3uEntryModel { path: p, title: st.1, duration: st.2 }), None, None)
            } else {
                st
            },
            None => st,
        },
    }
}

/// The effect of all lines, in order; `resolved[k]` is where the `k`th line's
/// path leads on disk, if anywhere.
pub open spec fn assemble_spec(
    lines: Seq<M3uLineModel>,
    resolved: Seq<Option<Seq<char>>>,
) -> AssembleState
    decreases lines.len(),
{
    if lines.len() == 0 {
        (Seq::empty(), None, None)
    } else {
        assemble_step(
            assemble_spec(lines.drop_last(), resolved.subrange(0, lines.len() - 1)),
            lines.last(),
            resolved[lines.len() - 1],
        )
    }
}

fn clone_text(o: &Option<String>) -> (r: Option<String>)
    ensures
        r == *o,
{
    match o {
        Some(s) => Some(s.clone()),
        None => None,
    }
}

/// Turns the meaningful lines of an M3U file into its entries, given for each
/// line where its path resolved to on disk (`None` for a path that does not
/// exist, and for `#EXTINF` lines).
pub fn assemble_m3u_entries(lines: &Vec<M3uLine>, resolved: &Vec<Option<String>>) -> (r: Vec<
    M3uEntry,
>)
    requires
        lines@.len() == resolved@.len(),
    ensures
        r@.map_values(|e: M3uEntry| entry_view(e)) == assemble_spec(
            lines@.map_values(|l: M3uLine| l@),
            resolved@.map_values(|o: Option<String>| text_opt(o)),
        ).0,
{
    let ghost ls = lines@.map_values(|l: M3uLine| l@);
    let ghost rs = resolved@.map_values(|o: Option<String>| text_opt(o));
    let mut r: Vec<M3uEntry> = Vec::new();
    let mut title: Option<String> = None;
    let mut duration: Option<i64> = None;
    let mut i: usize = 0;
    while i < lines.len()
        invariant
            i <= lines@.len(),
            lines@.len() == resolved@.len(),
            ls == lines@.map_values(|l: M3uLine| l@),
            rs == resolved@.map_values(|o: Option<String>| text_opt(o)),
            assemble_spec(ls.subrange(0, i as int), rs.subrange(0, i as int)) == (
                r@.map_values(|e: M3uEntry| entry_view(e)),
                text_opt(title),
                duration,
            ),
        decreases lines@.len() - i,
    {
        proof {
            let l2 = ls.subrange(0, i + 1);
            assert(l2.drop_last() =~= ls.subrange(0, i as int));
            assert(rs.subrange(0, i + 1).subrange(0, i as int) =~= rs.subrange(0, i as int));
            assert(l2.last() == lines@[i as int]@);
            assert(rs.subrange(0, i + 1)[i as int] == text_opt(resolved@[i as int]));
        }
        match &lines[i] {
            M3uLine::Info { duration: d, title: t } => {
                title = Some(t.clone());
                duration = *d;
            },
            M3uLine::Path(_) => {
                match &resolved[i] {
                    Some(p) => {
                        if has_audio_extension(p.as_str()) {
                            let entry = M3uEntry {
                                path: p.clone(),
                                title: clone_text(&title),
                                duration,
                            };
                            r.push(entry);
                            title = None;
                            duration = None;
                        }
                    },
                    None => {},
                }
            },
        }
        proof {
            assert(r@.map_values(|e: M3uEntry| entry_view(e)) =~= assemble_spec(
                ls.subrange(0, i + 1),
                rs.subrange(0, i + 1),
            ).0);
        }
        i = i + 1;
    }
    assert(ls.subrange(0, ls.len() as int) =~= ls);
    assert(rs.subrange(0, rs.len() as int) =~= rs);
    r
}

} // verus!
