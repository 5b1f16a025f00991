use narracut_core::digest::stable_scene_plan_save_receipt_id;
use narracut_core::media_error::MediaErrorCode;
use narracut_core::media_receipts::MediaReceiptFields;
use narracut_core::media_rules::{ScenePlanError, ScenePlanErrorCode};
use narracut_core::media_types::{SaveScenePlanOptions, ScenePlanEditData};
use narracut_core::scene_plan_save::{
    scene_plan_save_request, scene_plan_save_step, start_scene_plan_save, ScenePlanSaveAction,
    ScenePlanSaveEvent, ScenePlanSaveStage, ScenePlanSaveState,
};
use serde_json::Value;
use sha2::{Digest, Sha256};

fn object(entries: Vec<(&str, Value)>) -> Value {
    let mut map = serde_json::Map::new();
    for (key, value) in entries {
        map.insert(key.to_owned(), value);
    }
    Value::Object(map)
}

fn text(value: &str) -> Value {
    Value::String(value.to_owned())
}

fn options() -> SaveScenePlanOptions {
    SaveScenePlanOptions {
        project_path: "/projects/demo".to_owned(),
        expected_project_id: "project_001".to_owned(),
        run_id: "run_scene_plan_save_001".to_owned(),
        base_artifact_id: "artifact_scene_plan_base".to_owned(),
        edits: vec![
            ScenePlanEditData::Split { scene_id: "scene_001".to_owned(), boundary_cue_id: "cue_002".to_owned() },
            ScenePlanEditData::Merge { first_scene_id: "scene_002".to_owned(), second_scene_id: "scene_003".to_owned() },
            ScenePlanEditData::Update { scene_id: "scene_001".to_owned(), title: Some("Opening".to_owned()), narrative_role: None },
            ScenePlanEditData::MoveBoundary {
                left_scene_id: "scene_001".to_owned(),
                right_scene_id: "scene_002".to_owned(),
                boundary_cue_id: "cue_003".to_owned(),
            },
        ],
        change_summary: "Regroup the opening.".to_owned(),
        idempotency_key: "save-scene-plan-001".to_owned(),
    }
}

fn step(state: ScenePlanSaveState, event: ScenePlanSaveEvent, expected: ScenePlanSaveAction) -> ScenePlanSaveState {
    let (next, action) = scene_plan_save_step(state, event).expect("accepted step");
    assert_eq!(action, expected);
    next
}

#[test]
fn scene_plan_save_request_is_canonical_json() {
    let request = options();
    let base_hash = format!("sha256:{}", "b".repeat(64));
    let edits = Value::Array(vec![
        object(vec![("operation", text("split")), ("scene_id", text("scene_001")), ("boundary_cue_id", text("cue_002"))]),
        object(vec![("operation", text("merge")), ("first_scene_id", text("scene_002")), ("second_scene_id", text("scene_003"))]),
        object(vec![
            ("operation", text("update")),
            ("scene_id", text("scene_001")),
            ("title", text("Opening")),
            ("narrative_role", Value::Null),
        ]),
        object(vec![
            ("operation", text("move_boundary")),
            ("left_scene_id", text("scene_001")),
            ("right_scene_id", text("scene_002")),
            ("boundary_cue_id", text("cue_003")),
        ]),
    ]);
    let expected = object(vec![
        ("version", Value::from(1)),
        ("operation", text("save_scene_plan")),
        ("projectId", text("project_001")),
        ("runId", text("run_scene_plan_save_001")),
        ("baseArtifactId", text("artifact_scene_plan_base")),
        ("baseContentHash", text(&base_hash)),
        ("edits", edits),
        ("changeSummary", text("Regroup the opening.")),
    ]);
    assert_eq!(scene_plan_save_request(&request, &base_hash), serde_json::to_string(&expected).expect("json"));
}

#[test]
fn scene_plan_save_runs_its_steps_in_order() {
    let (state, action) = start_scene_plan_save(options()).expect("valid");
    assert_eq!(action, ScenePlanSaveAction::OpenProject);
    assert_eq!(state.receipt_id, stable_scene_plan_save_receipt_id("project_001", "save-scene-plan-001"));
    let state = step(state, ScenePlanSaveEvent::ProjectOpened { project_id: "project_001".to_owned() }, ScenePlanSaveAction::LoadBase);
    let base_hash = format!("sha256:{}", "b".repeat(64));
    let state = step(state, ScenePlanSaveEvent::BaseLoaded { content_hash: base_hash.clone() }, ScenePlanSaveAction::LoadReceipt);
    let digest: String = Sha256::digest(scene_plan_save_request(&options(), &base_hash).as_bytes())
        .iter()
        .map(|byte| format!("{byte:02x}"))
        .collect();
    assert_eq!(state.fingerprint, format!("sha256:{digest}"));
    assert_eq!(state.scene_plan_id, format!("sceneplan_edit_{digest}"));

    let refused = scene_plan_save_step(
        step(state.clone(), ScenePlanSaveEvent::ReceiptLoaded { receipt: None }, ScenePlanSaveAction::TryEdits),
        ScenePlanSaveEvent::EditsTried {
            refusal: Some(ScenePlanError { code: ScenePlanErrorCode::InvalidEdit, message: "unknown cue".to_owned() }),
        },
    )
    .expect_err("bad edit");
    assert_eq!(refused.code, MediaErrorCode::InvalidRequest);
    assert_eq!(refused.message, "unknown cue");

    let fresh = step(state.clone(), ScenePlanSaveEvent::ReceiptLoaded { receipt: None }, ScenePlanSaveAction::TryEdits);
    let fresh = step(fresh, ScenePlanSaveEvent::EditsTried { refusal: None }, ScenePlanSaveAction::PrepareRun);
    let fresh = step(fresh, ScenePlanSaveEvent::RunPrepared, ScenePlanSaveAction::ApplyEdits);
    let fresh = step(fresh, ScenePlanSaveEvent::EditsApplied { refusal: None }, ScenePlanSaveAction::StoreDocument);
    let fresh = step(
        fresh,
        ScenePlanSaveEvent::DocumentStored { artifact_id: "artifact_plan_edit".to_owned(), content_hash: base_hash.clone(), persisted_matches: true },
        ScenePlanSaveAction::CommitReceipt,
    );
    let fresh = step(fresh, ScenePlanSaveEvent::ReceiptCommitted { created: true }, ScenePlanSaveAction::Finish);
    assert_eq!(fresh.stage, ScenePlanSaveStage::Done);

    let stored = MediaReceiptFields {
        operation: Some("save_scene_plan".to_owned()),
        run_id: Some("run_scene_plan_save_001".to_owned()),
        base_artifact_id: Some("artifact_scene_plan_base".to_owned()),
        base_content_hash: Some(base_hash.clone()),
        request_fingerprint: Some(state.fingerprint.clone()),
    };
    let replay = step(state.clone(), ScenePlanSaveEvent::ReceiptLoaded { receipt: Some(stored.clone()) }, ScenePlanSaveAction::PrepareRun);
    let replay = step(replay, ScenePlanSaveEvent::RunPrepared, ScenePlanSaveAction::ReplayReceipt);
    assert_eq!(replay.stage, ScenePlanSaveStage::Done);
    let mut other_base = stored;
    other_base.base_content_hash = Some(format!("sha256:{}", "c".repeat(64)));
    let error = scene_plan_save_step(state, ScenePlanSaveEvent::ReceiptLoaded { receipt: Some(other_base) }).expect_err("other base");
    assert_eq!(error.code, MediaErrorCode::IdempotencyConflict);
    assert_eq!(error.message, "幂等键已绑定到不同的 Scene Plan 保存语义。");
}
