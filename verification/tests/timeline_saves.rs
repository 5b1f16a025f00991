use narracut_core::media_types::{SaveTimelineOptions, TimelineEditData, TimelineSafeAreaData};
use narracut_core::timeline_save::{timeline_save_identity, timeline_save_request};
use serde_json::Value;
use sha2::{Digest, Sha256};

fn object(entries: Vec<(&str, Value)>) -> Value {
    let mut map = serde_json::Map::new();
    for (key, value) in entries {
        map.insert(key.to_owned(), value);
    }
    Value::Object(map)
}

fn text(value: &str) -> Value {
    Value::String(value.to_owned())
}

fn options() -> SaveTimelineOptions {
    SaveTimelineOptions {
        project_path: "/projects/demo".to_owned(),
        expected_project_id: "project_001".to_owned(),
        run_id: "run_timeline_edit_001".to_owned(),
        base_artifact_id: "artifact_timeline_base".to_owned(),
        edits: vec![
            TimelineEditData::MoveSceneBoundary {
                left_scene_id: "scene_001".to_owned(),
                right_scene_id: "scene_002".to_owned(),
                boundary_ms: 55,
            },
            TimelineEditData::SetSafeArea {
                safe_area: TimelineSafeAreaData { x: 100, y: 50, width: 1720, height: 980 },
            },
            TimelineEditData::SetCaptionVisibility { visible: false },
        ],
        change_summary: "Move the \"first\" boundary.".to_owned(),
        idempotency_key: "save-timeline-001".to_owned(),
    }
}

#[test]
fn timeline_save_request_is_canonical_json_and_names_the_edit() {
    let request = options();
    let base_hash = format!("sha256:{}", "b".repeat(64));
    let edits = Value::Array(vec![
        object(vec![
            ("operation", text("move_scene_boundary")),
            ("left_scene_id", text("scene_001")),
            ("right_scene_id", text("scene_002")),
            ("boundary_ms", Value::from(55)),
        ]),
        object(vec![
            ("operation", text("set_safe_area")),
            (
                "safe_area",
                object(vec![
                    ("x", Value::from(100)),
                    ("y", Value::from(50)),
                    ("width", Value::from(1720)),
                    ("height", Value::from(980)),
                ]),
            ),
        ]),
        object(vec![("operation", text("set_caption_visibility")), ("visible", Value::Bool(false))]),
    ]);
    let expected = object(vec![
        ("version", Value::from(1)),
        ("operation", text("save_timeline")),
        ("projectId", text(&request.expected_project_id)),
        ("runId", text(&request.run_id)),
        ("baseArtifactId", text(&request.base_artifact_id)),
        ("baseContentHash", text(&base_hash)),
        ("edits", edits),
        ("changeSummary", text(&request.change_summary)),
    ]);
    let canonical = serde_json::to_string(&expected).expect("json");
    assert_eq!(timeline_save_request(&request, &base_hash), canonical);
    let hex: String = Sha256::digest(canonical.as_bytes()).iter().map(|byte| format!("{byte:02x}")).collect();
    let (fingerprint, timeline_id) = timeline_save_identity(&request, &base_hash);
    assert_eq!(fingerprint, format!("sha256:{hex}"));
    assert_eq!(timeline_id, format!("timeline_edit_{hex}"));

    let (other, _) = timeline_save_identity(&request, &format!("sha256:{}", "c".repeat(64)));
    assert_ne!(other, fingerprint);
}
