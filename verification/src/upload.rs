use crate::artifact::{classify, is_structured, ArtifactKind};
use crate::bytes::{append_bytes, bytes_of};
use crate::metadata::render_json_value;
use crate::paths::{
    build_data_path, build_sidecar_path, build_target_dir, data_extension, data_path, extension_of,
    sidecar_path, target_dir, upload_base,
};
use crate::timestamp::UtcTimestamp;
use crate::validate::{valid_target, validate_target};
use vstd::prelude::*;
use vstd::string::StringSliceAdditionalSpecFns;

verus! {

/// A pending sidecar write: the rendered config text and where it goes.
pub struct SidecarFile {
    pub path: Vec<u8>,
    pub content: String,
}

/// Everything the persistence stage owes for one accepted upload.
pub struct UploadPlan {
    /// The per-target directory to create (idempotently) first.
    pub directory: Vec<u8>,
    /// Where the binary payload goes.
    pub data_path: Vec<u8>,
    /// The sidecar write owed when the upload is tabular and metadata came
    /// with the request; `None` otherwise.
    pub sidecar: Option<SidecarFile>,
}

/// The transport-level answer handed to the HTTP collaborator.
pub struct UploadResponse {
    pub status: u16,
    pub body: Vec<u8>,
}

/// One upload in progress: the next filesystem action it owes, or the answer.
/// The surrounding collaborator performs the named action and reports its
/// result through `advance`; the decisions all live here.
pub enum UploadSession {
    /// Create `plan.directory` (idempotently) next.
    NeedDirectory { plan: UploadPlan },
    /// Copy the payload to `plan.data_path` next.
    NeedPayload { plan: UploadPlan },
    /// Write `sidecar.content` to `sidecar.path` next.
    NeedSidecar { sidecar: SidecarFile },
    /// Nothing remains: answer the client.
    Finished { response: UploadResponse },
}

/// The body sent with a rejected target name.
pub open spec fn invalid_target_body() -> Seq<u8> {
    "Invalid target parameter".spec_bytes()
}

/// The body sent on full success (also when only the sidecar write failed).
pub open spec fn success_body() -> Seq<u8> {
    "File uploaded successfully".spec_bytes()
}

/// The body sent when the directory could not be created.
pub open spec fn directory_failure_body(cause: Seq<u8>) -> Seq<u8> {
    "Failed to create directory: ".spec_bytes() + cause
}

/// The body sent when the payload could not be saved.
pub open spec fn payload_failure_body(cause: Seq<u8>) -> Seq<u8> {
    "Failed to save file: ".spec_bytes() + cause
}

/// What a freshly started session must look like: a 400 answer when the
/// target is rejected, otherwise the full derived plan with the sidecar owed
/// exactly when the upload is tabular and metadata came with the request.
pub open spec fn well_started(
    s: UploadSession,
    target: Seq<u8>,
    ts: UtcTimestamp,
    filename: Seq<u8>,
    has_metadata: bool,
) -> bool {
    if !valid_target(target) {
        s matches UploadSession::Finished { response } && response.status == 400
            && response.body@ == invalid_target_body()
    } else {
        s matches UploadSession::NeedDirectory { plan } && plan.directory@ == target_dir(target)
            && plan.data_path@ == data_path(target, ts, filename) && ((plan.sidecar is Some) == (
        !is_structured(filename) && has_metadata)) && (plan.sidecar matches Some(sc) ==> sc.path@
            == sidecar_path(target, ts))
    }
}

/// The rejection law: an upload for an invalid target is answered `400 Bad
/// Request` at once — the freshly started session is already finished, so no
/// filesystem action is ever requested and the uploads tree gains no entry.
pub proof fn lemma_invalid_target_rejected(
    s: UploadSession,
    target: Seq<u8>,
    ts: UtcTimestamp,
    filename: Seq<u8>,
    has_metadata: bool,
)
    requires
        well_started(s, target, ts, filename, has_metadata),
        !valid_target(target),
    ensures
        s matches UploadSession::Finished { response } && response.status == 400
            && response.body@ == invalid_target_body(),
{
}

/// The discard law: a structured debug bundle never owes a sidecar, whether
/// or not metadata came with the request.
pub proof fn lemma_structured_no_sidecar(
    s: UploadSession,
    target: Seq<u8>,
    ts: UtcTimestamp,
    filename: Seq<u8>,
    has_metadata: bool,
)
    requires
        well_started(s, target, ts, filename, has_metadata),
        valid_target(target),
        is_structured(filename),
    ensures
        s matches UploadSession::NeedDirectory { plan } && plan.sidecar is None,
{
}

/// The sidecar law: a tabular upload stores its payload at `<base>.csv.zstd`
/// and owes a sidecar at `<base>.json` exactly when metadata came with the
/// request.
pub proof fn lemma_tabular_sidecar(
    s: UploadSession,
    target: Seq<u8>,
    ts: UtcTimestamp,
    filename: Seq<u8>,
    has_metadata: bool,
)
    requires
        well_started(s, target, ts, filename, has_metadata),
        valid_target(target),
        !is_structured(filename),
    ensures
        s matches UploadSession::NeedDirectory { plan } && ((plan.sidecar is Some) == has_metadata)
            && (plan.sidecar matches Some(sc) ==> sc.path@ == sidecar_path(target, ts))
            && plan.data_path@ == upload_base(target, ts) + seq![46u8] + "csv.zstd".spec_bytes(),
{
}

/// The stable-directory law: the directory is derived from the target alone,
/// so two accepted uploads to one target — at any two timestamps, with any
/// filenames and metadata — ask for the very same directory path. Creating
/// it is therefore asked for idempotently, and an already existing directory
/// never fails a later upload.
pub proof fn lemma_directory_stable(
    s1: UploadSession,
    s2: UploadSession,
    target: Seq<u8>,
    ts1: UtcTimestamp,
    ts2: UtcTimestamp,
    filename1: Seq<u8>,
    filename2: Seq<u8>,
    has_metadata1: bool,
    has_metadata2: bool,
)
    requires
        well_started(s1, target, ts1, filename1, has_metadata1),
        well_started(s2, target, ts2, filename2, has_metadata2),
        valid_target(target),
    ensures
        s1 matches UploadSession::NeedDirectory { plan: p1 } ==> (s2
            matches UploadSession::NeedDirectory { plan: p2 } && p1.directory@ == p2.directory@),
{
}

/// Starts an upload from already rendered metadata: validates the target
/// and, when it passes, derives the whole persistence plan. `metadata_text`
/// is the JSON text of the request's config value, when one was supplied;
/// for a tabular upload it becomes the sidecar content, for a structured
/// bundle it is discarded.
pub fn begin_rendered(
    target: &[u8],
    ts: &UtcTimestamp,
    filename: &[u8],
    metadata_text: Option<String>,
) -> (s: UploadSession)
    requires
        ts.wf(),
    ensures
        well_started(s, target@, *ts, filename@, metadata_text is Some),
        s matches UploadSession::NeedDirectory { plan } ==> (plan.sidecar matches Some(sc) ==> (
        metadata_text matches Some(text) && sc.content@ == text@)),
{
    if !validate_target(target) {
        return UploadSession::Finished {
            response: UploadResponse {
                status: 400,
                body: bytes_of("Invalid target parameter".as_bytes()),
            },
        };
    }
    let kind = classify(filename);
    let directory = build_target_dir(target);
    let the_data_path = build_data_path(target, ts, &kind);
    let sidecar = match kind {
        ArtifactKind::Tabular => match metadata_text {
            Some(text) => Some(
                SidecarFile { path: build_sidecar_path(target, ts), content: text },
            ),
            None => None,
        },
        ArtifactKind::StructuredDebug { .. } => None,
    };
    UploadSession::NeedDirectory {
        plan: UploadPlan { directory, data_path: the_data_path, sidecar },
    }
}

/// Starts an upload from a raw request: renders the optional config value to
/// its JSON text, then proceeds as `begin_rendered`. The content of the
/// sidecar is whatever the renderer gave; everything else is pinned down.
pub fn begin(
    target: &[u8],
    ts: &UtcTimestamp,
    filename: &[u8],
    metadata: Option<&serde_json::Value>,
) -> (s: UploadSession)
    requires
        ts.wf(),
    ensures
        well_started(s, target@, *ts, filename@, metadata is Some),
{
    let metadata_text = match metadata {
        Some(value) => Some(render_json_value(value)),
        None => None,
    };
    begin_rendered(target, ts, filename, metadata_text)
}

/// Feeds the result of the last filesystem action into the session and
/// returns what to do next. `ok` says whether the action succeeded; `cause`
/// carries the OS error text when it failed and is ignored otherwise.
/// A directory or payload failure short-circuits to a 500 answer; a sidecar
/// failure is non-fatal and still ends in the 200 answer; a finished session
/// stays as it is.
pub fn advance(s: UploadSession, ok: bool, cause: &[u8]) -> (next: UploadSession)
    ensures
        (match s {
            UploadSession::NeedDirectory { plan } => {
                if ok {
                    next == (UploadSession::NeedPayload { plan })
                } else {
                    next matches UploadSession::Finished { response } && response.status == 500
                        && response.body@ == directory_failure_body(cause@)
                }
            },
            UploadSession::NeedPayload { plan } => {
                if !ok {
                    next matches UploadSession::Finished { response } && response.status == 500
                        && response.body@ == payload_failure_body(cause@)
                } else if plan.sidecar is Some {
                    next == (UploadSession::NeedSidecar { sidecar: plan.sidecar.unwrap() })
                } else {
                    next matches UploadSession::Finished { response } && response.status == 200
                        && response.body@ == success_body()
                }
            },
            UploadSession::NeedSidecar { sidecar } => {
                next matches UploadSession::Finished { response } && response.status == 200
                    && response.body@ == success_body()
            },
            UploadSession::Finished { response } => next == (UploadSession::Finished { response }),
        }),
{
    match s {
        UploadSession::NeedDirectory { plan } => {
            if ok {
                UploadSession::NeedPayload { plan }
            } else {
                let mut body = bytes_of("Failed to create directory: ".as_bytes());
                append_bytes(&mut body, cause);
                UploadSession::Finished { response: UploadResponse { status: 500, body } }
            }
        },
        UploadSession::NeedPayload { plan } => {
            if !ok {
                let mut body = bytes_of("Failed to save file: ".as_bytes());
                append_bytes(&mut body, cause);
                UploadSession::Finished { response: UploadResponse { status: 500, body } }
            } else {
                match plan.sidecar {
                    Some(sidecar) => UploadSession::NeedSidecar { sidecar },
                    None => UploadSession::Finished {
                        response: UploadResponse {
                            status: 200,
                            body: bytes_of("File uploaded successfully".as_bytes()),
                        },
                    },
                }
            }
        },
        UploadSession::NeedSidecar { sidecar: _ } => UploadSession::Finished {
            response: UploadResponse {
                status: 200,
                body: bytes_of("File uploaded successfully".as_bytes()),
            },
        },
        UploadSession::Finished { response } => UploadSession::Finished { response },
    }
}

} // verus!
