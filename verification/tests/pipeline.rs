use upload_ingest::artifact::{classify, ArtifactKind};
use upload_ingest::timestamp::UtcTimestamp;
use upload_ingest::upload::{advance, begin, begin_rendered, UploadSession};
use upload_ingest::validate::validate_target;

fn ts() -> UtcTimestamp {
    UtcTimestamp::from_parts(2024, 1, 2, 3, 4, 5).unwrap()
}

fn tag_of(kind: ArtifactKind) -> Option<Vec<u8>> {
    match kind {
        ArtifactKind::StructuredDebug { tag } => Some(tag),
        ArtifactKind::Tabular => None,
    }
}

#[test]
fn valid_targets_accepted() {
    assert!(validate_target(b"robot-ABC123"));
    assert!(validate_target(b"a"));
    assert!(validate_target(b"AZaz09_-"));
    assert!(validate_target(b"meticulousAdjectiveNoun-SERIAL"));
}

#[test]
fn invalid_targets_rejected() {
    assert!(!validate_target(b""));
    assert!(!validate_target(b"bad target!"));
    assert!(!validate_target(b"a/b"));
    assert!(!validate_target(b"../escape"));
    assert!(!validate_target(b"name@host"));
    assert!(!validate_target(b"dot.dot"));
}

#[test]
fn validator_agrees_with_anchored_character_class() {
    let re = regex::Regex::new(r"^[A-Za-z0-9_-]+$").unwrap();
    let samples: [&str; 12] = [
        "robot-ABC123",
        "a",
        "_",
        "-",
        "",
        " ",
        "bad target!",
        "a/b",
        "..",
        "x.y",
        "tab\there",
        "robot_7",
    ];
    for s in samples {
        assert_eq!(validate_target(s.as_bytes()), re.is_match(s), "sample {:?}", s);
    }
}

#[test]
fn timestamp_compact_format() {
    let t = ts();
    assert_eq!(t.compact(), b"20240102_030405".to_vec());
    let t2 = UtcTimestamp::from_parts(987, 12, 31, 23, 59, 59).unwrap();
    assert_eq!(t2.compact(), b"09871231_235959".to_vec());
}

#[test]
fn timestamp_rejects_out_of_range_parts() {
    assert!(UtcTimestamp::from_parts(-1, 1, 1, 0, 0, 0).is_none());
    assert!(UtcTimestamp::from_parts(10000, 1, 1, 0, 0, 0).is_none());
    assert!(UtcTimestamp::from_parts(2024, 0, 1, 0, 0, 0).is_none());
    assert!(UtcTimestamp::from_parts(2024, 13, 1, 0, 0, 0).is_none());
    assert!(UtcTimestamp::from_parts(2024, 1, 0, 0, 0, 0).is_none());
    assert!(UtcTimestamp::from_parts(2024, 1, 32, 0, 0, 0).is_none());
    assert!(UtcTimestamp::from_parts(2024, 1, 1, 24, 0, 0).is_none());
    assert!(UtcTimestamp::from_parts(2024, 1, 1, 0, 60, 0).is_none());
    assert!(UtcTimestamp::from_parts(2024, 1, 1, 0, 0, 60).is_none());
}

#[test]
fn clock_gives_a_well_formed_timestamp() {
    let t = UtcTimestamp::now().expect("current year should have four digits");
    assert!(1 <= t.month && t.month <= 12);
    assert!(1 <= t.day && t.day <= 31);
    assert!(t.hour <= 23 && t.minute <= 59 && t.second <= 59);
    assert_eq!(t.compact().len(), 15);
}

#[test]
fn classify_structured_with_tag() {
    let kind = classify(b"motorstats.motor.json.zst");
    assert_eq!(tag_of(kind), Some(b"motor".to_vec()));
}

#[test]
fn classify_structured_three_segments_uses_first() {
    // Three dot-delimited segments: the third-to-last is the first one.
    let kind = classify(b"x.json.zst");
    assert_eq!(tag_of(kind), Some(b"x".to_vec()));
}

#[test]
fn classify_tabular() {
    assert_eq!(tag_of(classify(b"reading.csv")), None);
    assert_eq!(tag_of(classify(b"")), None);
    assert_eq!(tag_of(classify(b"archive.json.zs")), None);
    // The marker is the dotted suffix `.json.zst`; merely containing
    // `json.zst` does not make a bundle.
    assert_eq!(tag_of(classify(b"json.zst")), None);
    assert_eq!(tag_of(classify(b"xjson.zst")), None);
    assert_eq!(tag_of(classify(b"data.myjson.zst")), None);
}

#[test]
fn undotted_suffix_keeps_the_sidecar() {
    // `xjson.zst` is tabular, so supplied metadata still becomes a sidecar.
    let s = begin_rendered(b"robot-1", &ts(), b"xjson.zst", Some("{\"speed\":5}".to_string()));
    let plan = expect_need_directory(s);
    assert_eq!(plan.data_path, b"./uploads/robot-1/20240102_030405.csv.zstd".to_vec());
    let sidecar = plan.sidecar.expect("metadata must not be lost on a tabular upload");
    assert_eq!(sidecar.path, b"./uploads/robot-1/20240102_030405.json".to_vec());
    assert_eq!(sidecar.content, "{\"speed\":5}".to_string());
}

fn expect_need_directory(s: UploadSession) -> upload_ingest::upload::UploadPlan {
    match s {
        UploadSession::NeedDirectory { plan } => plan,
        _ => panic!("expected a directory step"),
    }
}

fn expect_finished(s: UploadSession) -> upload_ingest::upload::UploadResponse {
    match s {
        UploadSession::Finished { response } => response,
        _ => panic!("expected a finished session"),
    }
}

#[test]
fn tabular_upload_with_metadata_succeeds_end_to_end() {
    let config: serde_json::Value = serde_json::from_str("{\"speed\":5}").unwrap();
    let s = begin(b"robot-ABC123", &ts(), b"run.csv", Some(&config));
    let plan = match &s {
        UploadSession::NeedDirectory { plan } => plan,
        _ => panic!("expected a directory step"),
    };
    assert_eq!(plan.directory, b"./uploads/robot-ABC123".to_vec());
    assert_eq!(plan.data_path, b"./uploads/robot-ABC123/20240102_030405.csv.zstd".to_vec());
    let sidecar = plan.sidecar.as_ref().expect("tabular upload with metadata owes a sidecar");
    assert_eq!(sidecar.path, b"./uploads/robot-ABC123/20240102_030405.json".to_vec());
    assert_eq!(sidecar.content, "{\"speed\":5}".to_string());

    let s = advance(s, true, b"");
    assert!(matches!(s, UploadSession::NeedPayload { .. }));
    let s = advance(s, true, b"");
    assert!(matches!(s, UploadSession::NeedSidecar { .. }));
    let response = expect_finished(advance(s, true, b""));
    assert_eq!(response.status, 200);
    assert_eq!(response.body, b"File uploaded successfully".to_vec());
}

#[test]
fn structured_upload_skips_sidecar_end_to_end() {
    let config: serde_json::Value = serde_json::from_str("{\"speed\":5}").unwrap();
    let s = begin(b"robot-ABC123", &ts(), b"dump.motor.json.zst", Some(&config));
    let plan = expect_need_directory(s);
    assert_eq!(plan.data_path, b"./uploads/robot-ABC123/20240102_030405.motor.json.zstd".to_vec());
    assert!(plan.sidecar.is_none(), "metadata is discarded for a structured bundle");

    let s = begin(b"robot-ABC123", &ts(), b"dump.motor.json.zst", None);
    let s = advance(s, true, b"");
    assert!(matches!(s, UploadSession::NeedPayload { .. }));
    let response = expect_finished(advance(s, true, b""));
    assert_eq!(response.status, 200);
    assert_eq!(response.body, b"File uploaded successfully".to_vec());
}

#[test]
fn invalid_target_answered_400_without_actions() {
    let s = begin(b"bad target!", &ts(), b"run.csv", None);
    let response = expect_finished(s);
    assert_eq!(response.status, 400);
    assert_eq!(response.body, b"Invalid target parameter".to_vec());
}

#[test]
fn directory_failure_answered_500() {
    let s = begin_rendered(b"robot-ABC123", &ts(), b"run.csv", None);
    let response = expect_finished(advance(s, false, b"Permission denied (os error 13)"));
    assert_eq!(response.status, 500);
    assert_eq!(
        response.body,
        b"Failed to create directory: Permission denied (os error 13)".to_vec()
    );
}

#[test]
fn payload_failure_answered_500() {
    let s = begin_rendered(b"robot-ABC123", &ts(), b"run.csv", None);
    let s = advance(s, true, b"");
    let response = expect_finished(advance(s, false, b"No space left on device"));
    assert_eq!(response.status, 500);
    assert_eq!(response.body, b"Failed to save file: No space left on device".to_vec());
}

#[test]
fn sidecar_failure_is_not_fatal() {
    let s = begin_rendered(
        b"robot-ABC123",
        &ts(),
        b"run.csv",
        Some("{\"speed\":5}".to_string()),
    );
    let s = advance(s, true, b"");
    let s = advance(s, true, b"");
    assert!(matches!(s, UploadSession::NeedSidecar { .. }));
    let response = expect_finished(advance(s, false, b"disk full"));
    assert_eq!(response.status, 200);
    assert_eq!(response.body, b"File uploaded successfully".to_vec());
}

#[test]
fn rendered_metadata_is_canonical_json_text() {
    let config: serde_json::Value =
        serde_json::from_str("{\"b\":1,\"a\":{\"nested\":[1,2,3]}}").unwrap();
    let s = begin(b"robot-1", &ts(), b"run.csv", Some(&config));
    let plan = expect_need_directory(s);
    let sidecar = plan.sidecar.expect("sidecar owed");
    // serde_json orders object keys; the rendered text is the canonical form.
    assert_eq!(sidecar.content, config.to_string());
    assert_eq!(sidecar.content, "{\"a\":{\"nested\":[1,2,3]},\"b\":1}".to_string());
}
