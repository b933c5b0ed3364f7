use crate::artifact::{bundle_tag, dot_segments, is_structured, lemma_structured_has_three_segments,
    ArtifactKind};
use crate::bytes::{append_bytes, bytes_of};
use crate::timestamp::{compact_form, UtcTimestamp};
use vstd::prelude::*;
use vstd::string::StringSliceAdditionalSpecFns;

verus! {

/// The root directory all uploads land under.
pub open spec fn uploads_root() -> Seq<u8> {
    "./uploads".spec_bytes()
}

/// The per-target directory `./uploads/<target>` (47 is `/`).
pub open spec fn target_dir(target: Seq<u8>) -> Seq<u8> {
    uploads_root() + seq![47u8] + target
}

/// The base shared by a data file and its sidecar:
/// `./uploads/<target>/<timestamp>`.
pub open spec fn upload_base(target: Seq<u8>, ts: UtcTimestamp) -> Seq<u8> {
    target_dir(target) + seq![47u8] + compact_form(ts)
}

/// The data-file extension an artifact kind gets: `<tag>.json.zstd` for a
/// structured bundle, `csv.zstd` for a tabular artifact (46 is `.`).
pub open spec fn extension_of(kind: ArtifactKind) -> Seq<u8> {
    match kind {
        ArtifactKind::StructuredDebug { tag } => tag@ + seq![46u8] + "json.zstd".spec_bytes(),
        ArtifactKind::Tabular => "csv.zstd".spec_bytes(),
    }
}

/// The data-file extension derived from an original filename.
pub open spec fn data_extension(filename: Seq<u8>) -> Seq<u8> {
    if is_structured(filename) {
        bundle_tag(filename) + seq![46u8] + "json.zstd".spec_bytes()
    } else {
        "csv.zstd".spec_bytes()
    }
}

/// The full data-file path `<base>.<extension>`.
pub open spec fn data_path(target: Seq<u8>, ts: UtcTimestamp, filename: Seq<u8>) -> Seq<u8> {
    upload_base(target, ts) + seq![46u8] + data_extension(filename)
}

/// The sidecar path of a tabular upload: `<base>.json`.
pub open spec fn sidecar_path(target: Seq<u8>, ts: UtcTimestamp) -> Seq<u8> {
    upload_base(target, ts) + seq![46u8] + "json".spec_bytes()
}

/// The law for structured bundles: a filename ending in `.json.zst` always
/// has at least three dot-delimited segments, and its derived data extension
/// is `<tag>.json.zstd` with `tag` the third-to-last segment.
pub proof fn lemma_extension_structured(filename: Seq<u8>)
    requires
        is_structured(filename),
    ensures
        dot_segments(filename).len() >= 3,
        data_extension(filename) == dot_segments(filename)[dot_segments(filename).len() - 3]
            + seq![46u8] + "json.zstd".spec_bytes(),
{
    lemma_structured_has_three_segments(filename);
}

/// The tabular law: a filename that does not end with the bundle marker (the
/// empty one included) gets the data extension `csv.zstd`.
pub proof fn lemma_extension_tabular(filename: Seq<u8>)
    requires
        !is_structured(filename),
    ensures
        data_extension(filename) == "csv.zstd".spec_bytes(),
{
}

/// Builds the per-target directory path.
pub fn build_target_dir(target: &[u8]) -> (v: Vec<u8>)
    ensures
        v@ == target_dir(target@),
{
    let mut v = bytes_of("./uploads".as_bytes());
    v.push(47);  // '/'
    append_bytes(&mut v, target);
    proof {
        assert(v@ =~= target_dir(target@));
    }
    v
}

/// Builds the shared path base `./uploads/<target>/<timestamp>`.
pub fn build_upload_base(target: &[u8], ts: &UtcTimestamp) -> (v: Vec<u8>)
    requires
        ts.wf(),
    ensures
        v@ == upload_base(target@, *ts),
{
    let mut v = build_target_dir(target);
    v.push(47);  // '/'
    let stamp = ts.compact();
    append_bytes(&mut v, stamp.as_slice());
    proof {
        assert(v@ =~= upload_base(target@, *ts));
    }
    v
}

/// Builds the full data-file path for an already classified upload.
pub fn build_data_path(target: &[u8], ts: &UtcTimestamp, kind: &ArtifactKind) -> (v: Vec<u8>)
    requires
        ts.wf(),
    ensures
        v@ == upload_base(target@, *ts) + seq![46u8] + extension_of(*kind),
{
    let mut v = build_upload_base(target, ts);
    v.push(46);  // '.'
    match kind {
        ArtifactKind::StructuredDebug { tag } => {
            append_bytes(&mut v, tag.as_slice());
            v.push(46);  // '.'
            append_bytes(&mut v, "json.zstd".as_bytes());
        },
        ArtifactKind::Tabular => {
            append_bytes(&mut v, "csv.zstd".as_bytes());
        },
    }
    proof {
        assert(v@ =~= upload_base(target@, *ts) + seq![46u8] + extension_of(*kind));
    }
    v
}

/// Builds the sidecar path `<base>.json`.
pub fn build_sidecar_path(target: &[u8], ts: &UtcTimestamp) -> (v: Vec<u8>)
    requires
        ts.wf(),
    ensures
        v@ == sidecar_path(target@, *ts),
{
    let mut v = build_upload_base(target, ts);
    v.push(46);  // '.'
    append_bytes(&mut v, "json".as_bytes());
    proof {
        assert(v@ =~= sidecar_path(target@, *ts));
    }
    v
}

} // verus!
