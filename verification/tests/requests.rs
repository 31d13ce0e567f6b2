use obs_mock::handler::handle_request;
use obs_mock::json::{array, empty_object, field, object, text, uint, JsonValue};
use obs_mock::protocol::RequestResponse;
use obs_mock::state::ObsState;

fn data(entries: Vec<(String, JsonValue)>) -> JsonValue {
    object(entries)
}

fn ask(state: &mut ObsState, rt: &str, d: Option<JsonValue>) -> RequestResponse {
    handle_request(state, rt, "req-1", d.as_ref())
}

fn ok_data(r: &RequestResponse) -> &JsonValue {
    assert!(r.request_status.result, "request failed: {:?}", r.request_status.comment);
    assert_eq!(r.request_status.code, 100);
    assert_eq!(r.request_status.comment, None);
    r.response_data.as_ref().expect("response data")
}

fn str_at<'a>(v: &'a JsonValue, k: &str) -> &'a str {
    v.get(k).and_then(|x| x.as_str()).expect(k)
}

fn u64_at(v: &JsonValue, k: &str) -> u64 {
    v.get(k).and_then(|x| x.as_u64()).expect(k)
}

fn bool_at(v: &JsonValue, k: &str) -> bool {
    v.get(k).and_then(|x| x.as_bool()).expect(k)
}

fn scene(name: &str) -> Option<JsonValue> {
    Some(data(vec![field("sceneName", text(name))]))
}

fn input(name: &str) -> Option<JsonValue> {
    Some(data(vec![field("inputName", text(name))]))
}

fn assert_fails(r: &RequestResponse, comment: &str) {
    assert!(!r.request_status.result);
    assert_eq!(r.request_status.code, 600);
    assert_eq!(r.request_status.comment.as_deref(), Some(comment));
    assert!(r.response_data.is_none());
}

#[test]
fn get_version_reports_versions() {
    let mut st = ObsState::new();
    let r = ask(&mut st, "GetVersion", None);
    assert_eq!(r.request_type, "GetVersion");
    assert_eq!(r.request_id, "req-1");
    let d = ok_data(&r);
    assert_eq!(str_at(d, "obsVersion"), "31.0.0");
    assert_eq!(str_at(d, "obsWebSocketVersion"), "5.5.4");
    assert_eq!(u64_at(d, "rpcVersion"), 1);
    assert_eq!(str_at(d, "platform"), "linux");
}

#[test]
fn unknown_request_type_fails_with_600() {
    let mut st = ObsState::new();
    let r = ask(&mut st, "DoSomethingOdd", None);
    assert_eq!(r.request_type, "DoSomethingOdd");
    assert_fails(&r, "Unknown request type: DoSomethingOdd");
}

#[test]
fn missing_scene_fails_and_changes_nothing() {
    let mut st = ObsState::new();
    let r = ask(&mut st, "SetCurrentProgramScene", scene("Nowhere"));
    assert_fails(&r, "Scene not found");
    let r = ask(&mut st, "GetCurrentProgramScene", None);
    assert_eq!(str_at(ok_data(&r), "sceneName"), "Main");
}

#[test]
fn missing_input_fails() {
    let mut st = ObsState::new();
    let r = ask(&mut st, "GetInputMute", input("Nobody"));
    assert_fails(&r, "Input not found");
}

#[test]
fn missing_scene_item_fails() {
    let mut st = ObsState::new();
    let d = data(vec![field("sceneName", text("Main")), field("sceneItemId", uint(99))]);
    let r = ask(&mut st, "GetSceneItemEnabled", Some(d));
    assert_fails(&r, "Scene item not found");
}

#[test]
fn program_scene_read_after_write() {
    let mut st = ObsState::new();
    let r = ask(&mut st, "SetCurrentProgramScene", scene("BRB"));
    assert!(r.request_status.result);
    assert!(r.response_data.is_none());
    let r = ask(&mut st, "GetCurrentProgramScene", None);
    let d = ok_data(&r);
    assert_eq!(str_at(d, "sceneName"), "BRB");
    assert_eq!(str_at(d, "currentProgramSceneName"), "BRB");
    assert_eq!(st.current_program_scene, 2);
}

#[test]
fn preview_scene_read_after_write() {
    let mut st = ObsState::new();
    let uuid = st.scenes[3].uuid.clone();
    let r = ask(&mut st, "SetCurrentPreviewScene", Some(data(vec![field("sceneUuid", text(&uuid))])));
    assert!(r.request_status.result);
    let r = ask(&mut st, "GetCurrentPreviewScene", None);
    let d = ok_data(&r);
    assert_eq!(str_at(d, "sceneName"), "Starting Soon");
    assert_eq!(str_at(d, "sceneUuid"), uuid);
}

#[test]
fn scene_list_of_initial_state() {
    let mut st = ObsState::new();
    let r = ask(&mut st, "GetSceneList", None);
    let d = ok_data(&r);
    assert_eq!(str_at(d, "currentProgramSceneName"), "Main");
    assert_eq!(str_at(d, "currentPreviewSceneName"), "Main");
    match d.get("scenes") {
        Some(JsonValue::Array(items)) => {
            assert_eq!(items.len(), 5);
            assert_eq!(str_at(&items[4], "sceneName"), "Ending");
            assert_eq!(u64_at(&items[4], "sceneIndex"), 4);
        },
        other => panic!("scenes: {:?}", other),
    }
}

#[test]
fn create_and_remove_scene() {
    let mut st = ObsState::new();
    let r = ask(&mut st, "CreateScene", scene("Extra"));
    let d = ok_data(&r);
    let uuid = str_at(d, "sceneUuid").to_string();
    assert_eq!(uuid.len(), 36);
    assert_eq!(st.scenes.len(), 6);
    assert_eq!(st.scenes[5].name, "Extra");
    assert_eq!(st.scenes[5].uuid, uuid);
    let r = ask(&mut st, "RemoveScene", scene("Extra"));
    assert!(r.request_status.result);
    assert_eq!(st.scenes.len(), 5);
    let r = ask(&mut st, "RemoveScene", scene("Extra"));
    assert_fails(&r, "Scene not found");
}

#[test]
fn removing_the_program_scene_resets_it_when_out_of_range() {
    let mut st = ObsState::new();
    ask(&mut st, "SetCurrentProgramScene", scene("Ending"));
    assert_eq!(st.current_program_scene, 4);
    let r = ask(&mut st, "RemoveScene", scene("Ending"));
    assert!(r.request_status.result);
    assert_eq!(st.current_program_scene, 0);
}

#[test]
fn toggle_stream_twice_restores_state() {
    let mut st = ObsState::new();
    let r = ask(&mut st, "ToggleStream", None);
    assert!(bool_at(ok_data(&r), "outputActive"));
    let r = ask(&mut st, "ToggleStream", None);
    assert!(!bool_at(ok_data(&r), "outputActive"));
    let r = ask(&mut st, "GetStreamStatus", None);
    assert!(!bool_at(ok_data(&r), "outputActive"));
    assert_eq!(str_at(ok_data(&r), "outputTimecode"), "00:00:00.000");
}

#[test]
fn toggle_record_twice_restores_state() {
    let mut st = ObsState::new();
    let r = ask(&mut st, "ToggleRecord", None);
    assert!(bool_at(ok_data(&r), "outputActive"));
    let r = ask(&mut st, "ToggleRecord", None);
    assert!(!bool_at(ok_data(&r), "outputActive"));
    assert!(!st.recording);
    assert!(!st.record_paused);
}

#[test]
fn toggle_virtual_cam_and_replay_buffer() {
    let mut st = ObsState::new();
    let r = ask(&mut st, "ToggleVirtualCam", None);
    assert!(bool_at(ok_data(&r), "outputActive"));
    let r = ask(&mut st, "ToggleReplayBuffer", None);
    assert!(bool_at(ok_data(&r), "outputActive"));
    ask(&mut st, "ToggleVirtualCam", None);
    ask(&mut st, "ToggleReplayBuffer", None);
    assert!(!st.virtual_cam);
    assert!(!st.replay_buffer);
}

#[test]
fn input_mute_read_after_write_and_toggle() {
    let mut st = ObsState::new();
    let d = data(vec![field("inputName", text("Mic/Aux")), field("inputMuted", JsonValue::Bool(true))]);
    let r = ask(&mut st, "SetInputMute", Some(d));
    assert!(r.request_status.result);
    let r = ask(&mut st, "GetInputMute", input("Mic/Aux"));
    assert!(bool_at(ok_data(&r), "inputMuted"));
    let r = ask(&mut st, "ToggleInputMute", input("Mic/Aux"));
    assert!(!bool_at(ok_data(&r), "inputMuted"));
    let r = ask(&mut st, "ToggleInputMute", input("Mic/Aux"));
    assert!(bool_at(ok_data(&r), "inputMuted"));
}

#[test]
fn studio_mode_read_after_write() {
    let mut st = ObsState::new();
    let d = data(vec![field("studioModeEnabled", JsonValue::Bool(true))]);
    assert!(ask(&mut st, "SetStudioModeEnabled", Some(d)).request_status.result);
    let r = ask(&mut st, "GetStudioModeEnabled", None);
    assert!(bool_at(ok_data(&r), "studioModeEnabled"));
}

#[test]
fn persistent_data_read_after_write() {
    let mut st = ObsState::new();
    let d = data(vec![
        field("realm", text("OBS_WEBSOCKET_DATA_REALM_GLOBAL")),
        field("slotName", text("counter")),
        field("slotValue", uint(42)),
    ]);
    assert!(ask(&mut st, "SetPersistentData", Some(d)).request_status.result);
    let q = data(vec![field("realm", text("OBS_WEBSOCKET_DATA_REALM_GLOBAL")), field("slotName", text("counter"))]);
    let r = ask(&mut st, "GetPersistentData", Some(q));
    assert_eq!(u64_at(ok_data(&r), "slotValue"), 42);
    let other = data(vec![field("realm", text("OBS_WEBSOCKET_DATA_REALM_GLOBAL")), field("slotName", text("other"))]);
    let r = ask(&mut st, "GetPersistentData", Some(other));
    assert_eq!(ok_data(&r).get("slotValue"), Some(&JsonValue::Null));
}

#[test]
fn persistent_data_overwrite_keeps_one_slot() {
    let mut st = ObsState::new();
    for v in [1u64, 2u64] {
        let d = data(vec![field("realm", text("r")), field("slotName", text("s")), field("slotValue", uint(v))]);
        ask(&mut st, "SetPersistentData", Some(d));
    }
    let q = data(vec![field("realm", text("r")), field("slotName", text("s"))]);
    let r = ask(&mut st, "GetPersistentData", Some(q));
    assert_eq!(u64_at(ok_data(&r), "slotValue"), 2);
    assert_eq!(st.persistent_data.len(), 1);
    assert_eq!(st.persistent_data[0].1.len(), 1);
}

#[test]
fn create_scene_item_gets_next_id() {
    let mut st = ObsState::new();
    assert_eq!(st.next_scene_item_id(), 14);
    let d = data(vec![field("sceneName", text("BRB")), field("sourceName", text("Logo"))]);
    let r = ask(&mut st, "CreateSceneItem", Some(d));
    assert_eq!(u64_at(ok_data(&r), "sceneItemId"), 14);
    let item = st.scenes[2].items.last().unwrap();
    assert_eq!(item.id, 14);
    assert_eq!(item.source_name, "Logo");
    assert_eq!(item.source_kind, "image_source");
    assert!(item.enabled);
    assert_eq!(st.next_scene_item_id(), 15);
}

#[test]
fn duplicate_scene_item_to_other_scene() {
    let mut st = ObsState::new();
    let d = data(vec![
        field("sceneName", text("Main")),
        field("sceneItemId", uint(1)),
        field("destinationSceneName", text("Ending")),
    ]);
    let r = ask(&mut st, "DuplicateSceneItem", Some(d));
    assert_eq!(u64_at(ok_data(&r), "sceneItemId"), 14);
    let copy = st.scenes[4].items.last().unwrap();
    assert_eq!(copy.id, 14);
    assert_eq!(copy.source_name, "Camera");
    assert_ne!(copy.source_uuid, st.scenes[0].items[0].source_uuid);
    assert_eq!(st.scenes[0].items.len(), 3);
}

#[test]
fn set_scene_item_index_moves_item() {
    let mut st = ObsState::new();
    let d = data(vec![field("sceneName", text("Main")), field("sceneItemId", uint(3)), field("sceneItemIndex", uint(0))]);
    assert!(ask(&mut st, "SetSceneItemIndex", Some(d)).request_status.result);
    let ids: Vec<u32> = st.scenes[0].items.iter().map(|i| i.id).collect();
    assert_eq!(ids, vec![3, 1, 2]);
    let d = data(vec![field("sceneName", text("Main")), field("sceneItemId", uint(3)), field("sceneItemIndex", uint(99))]);
    assert!(ask(&mut st, "SetSceneItemIndex", Some(d)).request_status.result);
    let ids: Vec<u32> = st.scenes[0].items.iter().map(|i| i.id).collect();
    assert_eq!(ids, vec![1, 2, 3]);
    let q = data(vec![field("sceneName", text("Main")), field("sceneItemId", uint(3))]);
    let r = ask(&mut st, "GetSceneItemIndex", Some(q));
    assert_eq!(u64_at(ok_data(&r), "sceneItemIndex"), 2);
}

#[test]
fn scene_item_list_and_id_lookup() {
    let mut st = ObsState::new();
    let r = ask(&mut st, "GetSceneItemList", scene("Screen Share"));
    match ok_data(&r).get("sceneItems") {
        Some(JsonValue::Array(items)) => {
            assert_eq!(items.len(), 3);
            assert_eq!(u64_at(&items[1], "sceneItemId"), 5);
            assert_eq!(str_at(&items[1], "sourceName"), "Webcam Overlay");
            assert_eq!(u64_at(&items[1], "sceneItemIndex"), 1);
        },
        other => panic!("sceneItems: {:?}", other),
    }
    let q = data(vec![field("sceneName", text("Screen Share")), field("sourceName", text("Desktop Audio"))]);
    let r = ask(&mut st, "GetSceneItemId", Some(q));
    assert_eq!(u64_at(ok_data(&r), "sceneItemId"), 6);
}

#[test]
fn input_settings_overlay_and_replace() {
    let mut st = ObsState::new();
    let first = data(vec![
        field("inputName", text("Mic/Aux")),
        field("inputSettings", object(vec![field("a", uint(1)), field("b", uint(2))])),
    ]);
    assert!(ask(&mut st, "SetInputSettings", Some(first)).request_status.result);
    let second = data(vec![
        field("inputName", text("Mic/Aux")),
        field("inputSettings", object(vec![field("b", uint(3)), field("c", uint(4))])),
    ]);
    assert!(ask(&mut st, "SetInputSettings", Some(second)).request_status.result);
    let r = ask(&mut st, "GetInputSettings", input("Mic/Aux"));
    let settings = ok_data(&r).get("inputSettings").expect("settings");
    assert_eq!(u64_at(settings, "a"), 1);
    assert_eq!(u64_at(settings, "b"), 3);
    assert_eq!(u64_at(settings, "c"), 4);
    assert_eq!(str_at(ok_data(&r), "inputKind"), "pulse_input_capture");
    let replace = data(vec![
        field("inputName", text("Mic/Aux")),
        field("inputSettings", object(vec![field("z", uint(9))])),
        field("overlay", JsonValue::Bool(false)),
    ]);
    assert!(ask(&mut st, "SetInputSettings", Some(replace)).request_status.result);
    let r = ask(&mut st, "GetInputSettings", input("Mic/Aux"));
    let settings = ok_data(&r).get("inputSettings").expect("settings");
    assert_eq!(*settings, object(vec![field("z", uint(9))]));
}

#[test]
fn create_input_and_rename() {
    let mut st = ObsState::new();
    let d = data(vec![field("inputName", text("Guest")), field("inputKind", text("ffmpeg_source"))]);
    let r = ask(&mut st, "CreateInput", Some(d));
    let uuid = str_at(ok_data(&r), "inputUuid").to_string();
    assert_eq!(st.inputs.len(), 3);
    let rename = data(vec![field("inputUuid", text(&uuid)), field("newInputName", text("Host"))]);
    assert!(ask(&mut st, "SetInputName", Some(rename)).request_status.result);
    assert_eq!(st.inputs[2].name, "Host");
    assert!(ask(&mut st, "RemoveInput", input("Host")).request_status.result);
    assert_eq!(st.inputs.len(), 2);
}

#[test]
fn acknowledged_request_succeeds_without_data() {
    let mut st = ObsState::new();
    let r = ask(&mut st, "Sleep", Some(empty_object()));
    assert!(r.request_status.result);
    assert!(r.response_data.is_none());
}

#[test]
fn input_list_filters_by_kind() {
    let mut st = ObsState::new();
    let r = ask(&mut st, "GetInputList", Some(data(vec![field("inputKind", text("pulse_input_capture"))])));
    match ok_data(&r).get("inputs") {
        Some(JsonValue::Array(items)) => {
            assert_eq!(items.len(), 1);
            assert_eq!(str_at(&items[0], "inputName"), "Mic/Aux");
        },
        other => panic!("inputs: {:?}", other),
    }
    let r = ask(&mut st, "GetInputList", None);
    match ok_data(&r).get("inputs") {
        Some(JsonValue::Array(items)) => assert_eq!(items.len(), 2),
        other => panic!("inputs: {:?}", other),
    }
    let _ = array(vec![]);
}

#[test]
fn program_listing_needs_only_its_own_scene() {
    let mut st = ObsState::new();
    st.current_preview_scene = 42;
    let r = ask(&mut st, "GetCurrentProgramScene", None);
    assert_eq!(str_at(ok_data(&r), "sceneName"), "Main");
    st.current_preview_scene = 1;
    st.current_program_scene = 42;
    let r = ask(&mut st, "GetCurrentPreviewScene", None);
    assert_eq!(str_at(ok_data(&r), "sceneName"), "Screen Share");
}

#[test]
fn duplicating_a_missing_item_at_the_id_limit_is_not_found() {
    let mut st = ObsState::new();
    st.scenes[0].items[0].id = u32::MAX;
    let d = data(vec![field("sceneName", text("Main")), field("sceneItemId", uint(77))]);
    let r = ask(&mut st, "DuplicateSceneItem", Some(d));
    assert_fails(&r, "Scene item not found");
}
