use vstd::prelude::*;

use crate::models::Track;
use crate::text::{lower_of, lowercase, same_text};

verus! {

/// Durations, in seconds, at most this far apart count as the same recording.
pub const DURATION_TOLERANCE_SECS: i64 = 2;

/// An optional tag in lower case.
pub open spec fn lowered_tag(tag: Option<String>) -> Option<Seq<char>> {
    match tag {
        Some(s) => Some(lower_of(s@)),
        None => None,
    }
}

/// Whether track `t` duplicates `first`: the same title and the same artist
/// ignoring case (both missing counts as the same), and durations within two
/// seconds when both are known.
pub open spec fn duplicates_spec(first: Track, t: Track) -> bool {
    &&& lowered_tag(first.title) == lowered_tag(t.title)
    &&& lowered_tag(first.artist) == lowered_tag(t.artist)
    &&& match (first.duration, t.duration) {
        (Some(a), Some(b)) => -DURATION_TOLERANCE_SECS <= a - b <= DURATION_TOLERANCE_SECS,
        _ => true,
    }
}

fn same_lowered_tag(a: &Option<String>, b: &Option<String>) -> (r: bool)
    ensures
        r == (lowered_tag(*a) == lowered_tag(*b)),
{
    match (a, b) {
        (Some(x), Some(y)) => {
            let lx = lowercase(x.as_str());
            let ly = lowercase(y.as_str());
            same_text(lx.as_str(), ly.as_str())
        },
        (None, None) => true,
        _ => false,
    }
}

/// Whether track `t` duplicates `first`.
pub fn is_duplicate_of(first: &Track, t: &Track) -> (r: bool)
    ensures
        r == duplicates_spec(*first, *t),
{
    let close = match (first.duration, t.duration) {
        (Some(a), Some(b)) => {
            let d = a as i128 - b as i128;
            -(DURATION_TOLERANCE_SECS as i128) <= d && d <= DURATION_TOLERANCE_SECS as i128
        },
        _ => true,
    };
    same_lowered_tag(&first.title, &t.title) && same_lowered_tag(&first.artist, &t.artist) && close
}

/// Groups closed so far, and the group still open, after reading `ts` in order.
/// A track joins the open group when it duplicates the group's first track;
/// otherwise the open group is closed (kept only if it holds two or more) and
/// the track opens the next one.
pub open spec fn grouping_state(ts: Seq<Track>) -> (Seq<Seq<Track>>, Seq<Track>)
    decreases ts.len(),
{
    if ts.len() == 0 {
        (Seq::empty(), Seq::empty())
    } else {
        let (gs, cur) = grouping_state(ts.drop_last());
        let t = ts.last();
        if cur.len() == 0 {
            (gs, seq![t])
        } else if duplicates_spec(cur[0], t) {
            (gs, cur.push(t))
        } else {
            (
                if cur.len() > 1 {
                    gs.push(cur)
                } else {
                    gs
                },
                seq![t],
            )
        }
    }
}

/// The duplicate groups of a track list ordered so that duplicates sit next to
/// each other: each run of two or more tracks that duplicate the run's first.
pub open spec fn duplicate_groups_spec(ts: Seq<Track>) -> Seq<Seq<Track>> {
    let (gs, cur) = grouping_state(ts);
    if cur.len() > 1 {
        gs.push(cur)
    } else {
        gs
    }
}

/// Splits `tracks`, already ordered by title, artist and id, into groups of
/// duplicates; tracks without a duplicate next to them are left out.
pub fn group_duplicates(tracks: Vec<Track>) -> (r: Vec<Vec<Track>>)
    ensures
        r@.map_values(|g: Vec<Track>| g@) == duplicate_groups_spec(tracks@),
{
    let ghost all = tracks@;
    let mut rest = tracks;
    let mut groups: Vec<Vec<Track>> = Vec::new();
    let mut current: Vec<Track> = Vec::new();
    while rest.len() > 0
        invariant
            rest@.len() <= all.len(),
            rest@ == all.subrange(all.len() - rest@.len(), all.len() as int),
            grouping_state(all.subrange(0, all.len() - rest@.len())) == (
                groups@.map_values(|g: Vec<Track>| g@),
                current@,
            ),
        decreases rest@.len(),
    {
        let ghost k = all.len() - rest@.len();
        let track = rest.remove(0);
        proof {
            let prefix = all.subrange(0, k + 1);
            assert(prefix.drop_last() =~= all.subrange(0, k));
            assert(prefix.last() == track);
            assert(rest@ =~= all.subrange(all.len() - rest@.len(), all.len() as int));
        }
        let ghost old_groups = groups@.map_values(|g: Vec<Track>| g@);
        if current.len() == 0 {
            current.push(track);
        } else if is_duplicate_of(&current[0], &track) {
            current.push(track);
        } else {
            let mut next: Vec<Track> = Vec::new();
            next.push(track);
            let done = current;
            current = next;
            if done.len() > 1 {
                groups.push(done);
                assert(groups@.map_values(|g: Vec<Track>| g@) =~= old_groups.push(done@));
            }
        }
        assert(current@ =~= grouping_state(all.subrange(0, k + 1)).1);
    }
    let ghost before = groups@.map_values(|g: Vec<Track>| g@);
    assert(all.subrange(0, all.len() as int) =~= all);
    if current.len() > 1 {
        groups.push(current);
        assert(groups@.map_values(|g: Vec<Track>| g@) =~= before.push(current@));
    }
    groups
}

} // verus!
