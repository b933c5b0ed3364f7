use crate::bytes::{bytes_of, ends_with, has_suffix};
use vstd::prelude::*;
use vstd::string::StringSliceAdditionalSpecFns;

verus! {

/// How an upload is treated, decided purely from the client's original
/// filename.
pub enum ArtifactKind {
    /// A compressed JSON diagnostic bundle; `tag` is the type tag taken from
    /// the filename, or the generic fallback.
    StructuredDebug { tag: Vec<u8> },
    /// Anything else: a CSV-like measurement payload, eligible for a
    /// metadata sidecar.
    Tabular,
}

/// The filename suffix that marks a structured debug bundle.
pub open spec fn bundle_marker() -> Seq<u8> {
    ".json.zst".spec_bytes()
}

/// The generic type tag used when the filename gives none.
pub open spec fn fallback_tag() -> Seq<u8> {
    "debug".spec_bytes()
}

/// A filename names a structured debug bundle iff it ends with the marker.
pub open spec fn is_structured(filename: Seq<u8>) -> bool {
    ends_with(filename, bundle_marker())
}

/// `s` split on `.` (46), as `str::split` does it: the empty string yields
/// one empty segment, and every dot separates two (possibly empty) segments.
pub open spec fn dot_segments(s: Seq<u8>) -> Seq<Seq<u8>>
    decreases s.len(),
{
    if s.len() == 0 {
        seq![Seq::<u8>::empty()]
    } else if s[0] == 46 {
        seq![Seq::<u8>::empty()] + dot_segments(s.skip(1))
    } else {
        let rest = dot_segments(s.skip(1));
        seq![seq![s[0]] + rest[0]] + rest.skip(1)
    }
}

/// Splitting always yields at least one segment.
pub proof fn lemma_dot_segments_nonempty(s: Seq<u8>)
    ensures
        dot_segments(s).len() >= 1,
    decreases s.len(),
{
    if s.len() != 0 {
        lemma_dot_segments_nonempty(s.skip(1));
    }
}

/// The type tag of a structured bundle: the third-to-last dot-delimited
/// segment of the filename when at least three exist, the generic fallback
/// otherwise. The fallback only keeps the definition total: a filename that
/// ends with the marker always has at least three segments (see
/// `lemma_structured_has_three_segments`).
pub open spec fn bundle_tag(filename: Seq<u8>) -> Seq<u8> {
    let segs = dot_segments(filename);
    if segs.len() >= 3 {
        segs[segs.len() - 3]
    } else {
        fallback_tag()
    }
}

/// The marker's own bytes: nine of them, with dots (46) first and fourth
/// from the right.
proof fn lemma_marker_bytes()
    ensures
        bundle_marker().len() == 9,
        bundle_marker()[0] == 46,
        bundle_marker()[5] == 46,
{
    reveal_strlit(".json.zst");
    vstd::string::is_ascii_spec_bytes(".json.zst");
    assert(bundle_marker() =~= Seq::new(9, |i: int| ".json.zst"@[i] as u8));
}

/// A byte string with a dot in it splits into at least two segments.
proof fn lemma_dot_gives_two_segments(s: Seq<u8>, i: int)
    requires
        0 <= i < s.len(),
        s[i] == 46,
    ensures
        dot_segments(s).len() >= 2,
    decreases s.len(),
{
    if i == 0 {
        lemma_dot_segments_nonempty(s.skip(1));
    } else {
        lemma_dot_gives_two_segments(s.skip(1), i - 1);
    }
}

/// A byte string with two distinct dots splits into at least three segments.
proof fn lemma_two_dots_give_three_segments(s: Seq<u8>, i: int, j: int)
    requires
        0 <= i < j < s.len(),
        s[i] == 46,
        s[j] == 46,
    ensures
        dot_segments(s).len() >= 3,
    decreases s.len(),
{
    if i == 0 {
        lemma_dot_gives_two_segments(s.skip(1), j - 1);
    } else {
        lemma_two_dots_give_three_segments(s.skip(1), i - 1, j - 1);
    }
}

/// A structured-bundle filename always has at least three dot-delimited
/// segments: the marker itself carries two dots.
pub proof fn lemma_structured_has_three_segments(filename: Seq<u8>)
    requires
        is_structured(filename),
    ensures
        dot_segments(filename).len() >= 3,
{
    lemma_marker_bytes();
    let n = filename.len() as int;
    assert(filename[n - 9] == filename.skip(n - 9)[0]);
    assert(filename[n - 4] == filename.skip(n - 9)[5]);
    lemma_two_dots_give_three_segments(filename, n - 9, n - 4);
}

/// The views of a list of byte vectors.
pub open spec fn seg_views(segs: Seq<Vec<u8>>) -> Seq<Seq<u8>> {
    segs.map_values(|v: Vec<u8>| v@)
}

/// Splits a byte string on `.` into its dot-delimited segments.
pub fn split_dots(s: &[u8]) -> (segs: Vec<Vec<u8>>)
    ensures
        seg_views(segs@) == dot_segments(s@),
{
    let mut done: Vec<Vec<u8>> = Vec::new();
    let mut cur: Vec<u8> = Vec::new();
    let mut i: usize = 0;
    proof {
        assert(s@.skip(0) =~= s@);
    }
    while i < s.len()
        invariant
            i <= s@.len(),
            dot_segments(s@) == seg_views(done@) + seq![cur@ + dot_segments(s@.skip(i as int))[0]]
                + dot_segments(s@.skip(i as int)).skip(1),
        decreases s@.len() - i,
    {
        proof {
            assert(s@.skip(i as int).len() > 0);
            assert(s@.skip(i as int)[0] == s@[i as int]);
            assert(s@.skip(i as int).skip(1) =~= s@.skip(i + 1));
            lemma_dot_segments_nonempty(s@.skip(i + 1));
        }
        let ghost rem = dot_segments(s@.skip(i as int));
        let ghost rem_next = dot_segments(s@.skip(i + 1));
        if s[i] == 46 {
            proof {
                assert(rem =~= seq![Seq::<u8>::empty()] + rem_next);
                assert(rem[0] == Seq::<u8>::empty());
                assert(rem.skip(1) =~= rem_next);
                assert(cur@ + rem[0] =~= cur@);
                assert(rem_next =~= seq![rem_next[0]] + rem_next.skip(1));
            }
            let ghost old_done = done@;
            let ghost old_cur = cur@;
            done.push(cur);
            cur = Vec::new();
            proof {
                assert(seg_views(done@) =~= seg_views(old_done).push(old_cur));
                assert(seg_views(old_done) + seq![old_cur] + seq![rem_next[0]] + rem_next.skip(1)
                    =~= seg_views(done@) + seq![cur@ + rem_next[0]] + rem_next.skip(1));
                assert(seg_views(old_done) + seq![old_cur + rem[0]] + rem.skip(1) =~= seg_views(
                    old_done,
                ) + seq![old_cur] + seq![rem_next[0]] + rem_next.skip(1));
            }
        } else {
            proof {
                assert(rem =~= seq![seq![s@[i as int]] + rem_next[0]] + rem_next.skip(1));
                assert(rem[0] == seq![s@[i as int]] + rem_next[0]);
                assert(rem.skip(1) =~= rem_next.skip(1));
            }
            let ghost old_cur = cur@;
            cur.push(s[i]);
            proof {
                assert(cur@ + rem_next[0] =~= old_cur + rem[0]);
                assert(seg_views(done@) + seq![cur@ + rem_next[0]] + rem_next.skip(1) =~= seg_views(
                    done@,
                ) + seq![old_cur + rem[0]] + rem.skip(1));
            }
        }
        i = i + 1;
    }
    proof {
        assert(s@.skip(i as int) =~= Seq::<u8>::empty());
        assert(dot_segments(s@.skip(i as int)) =~= seq![Seq::<u8>::empty()]);
        assert(cur@ + Seq::<u8>::empty() =~= cur@);
        assert(dot_segments(s@) =~= seg_views(done@).push(cur@));
    }
    let ghost old_done = done@;
    let ghost old_cur = cur@;
    done.push(cur);
    proof {
        assert(seg_views(done@) =~= seg_views(old_done).push(old_cur));
    }
    done
}

/// Classifies an upload from the client's original filename: a structured
/// debug bundle (with its type tag) when the filename ends with `.json.zst`,
/// a tabular measurement artifact otherwise. An absent filename is passed as
/// the empty string and lands in the tabular branch.
pub fn classify(filename: &[u8]) -> (r: ArtifactKind)
    ensures
        is_structured(filename@) ==> (r matches ArtifactKind::StructuredDebug { tag } && tag@
            == bundle_tag(filename@)),
        !is_structured(filename@) ==> r == ArtifactKind::Tabular,
{
    let marker = ".json.zst".as_bytes();
    if has_suffix(filename, marker) {
        let segs = split_dots(filename);
        proof {
            lemma_structured_has_three_segments(filename@);
        }
        let idx = segs.len() - 3;
        let tag = bytes_of(segs[idx].as_slice());
        ArtifactKind::StructuredDebug { tag }
    } else {
        ArtifactKind::Tabular
    }
}

} // verus!
