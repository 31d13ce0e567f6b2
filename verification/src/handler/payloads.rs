//! The data that responses carry, each as its model and as a builder whose
//! result has that model.
use vstd::prelude::*;
use crate::json::{
    array, entries_view, field, float, items_view, jfloat, juint, lemma_entries_view, lemma_items_view,
    object, text, uint, JsonValue, JsonView, Real,
};

verus! {

/// The model of an optional string.
pub open spec fn opt_str_view(s: Option<&str>) -> Option<Seq<char>> {
    match s {
        Some(t) => Some(t@),
        None => None,
    }
}

/// A string, or null where there is none.
pub open spec fn str_or_null(s: Option<Seq<char>>) -> JsonView {
    match s {
        Some(t) => JsonView::Str(t),
        None => JsonView::Null,
    }
}

/// A string, or null where there is none.
pub fn text_or_null(s: Option<&str>) -> (j: JsonValue)
    ensures
        j.deep() == str_or_null(opt_str_view(s)),
{
    match s {
        Some(t) => text(t),
        None => JsonValue::Null,
    }
}

/// The data of `GetVersion`.
pub open spec fn version_view() -> JsonView {
    JsonView::Object(seq![("obsVersion"@, JsonView::Str("31.0.0"@)), ("obsWebSocketVersion"@, JsonView::Str("5.5.4"@)), ("rpcVersion"@, juint(1)), ("availableRequests"@, JsonView::Array(Seq::empty())), ("supportedImageFormats"@, JsonView::Array(seq![JsonView::Str("png"@), JsonView::Str("jpg"@), JsonView::Str("bmp"@)])), ("platform"@, JsonView::Str("linux"@)), ("platformDescription"@, JsonView::Str("OBS Mock Server"@))])
}

/// The data of `GetVersion`.
pub fn version() -> (j: JsonValue)
    ensures
        j.deep() == version_view(),
{
    let items1: Vec<JsonValue> = vec![];
    proof {
        lemma_items_view(&items1);
        assert(items_view(&items1) =~= Seq::empty());
    }
    let arr2 = array(items1);
    let items3: Vec<JsonValue> = vec![text("png"), text("jpg"), text("bmp")];
    proof {
        lemma_items_view(&items3);
        assert(items_view(&items3) =~= seq![JsonView::Str("png"@), JsonView::Str("jpg"@), JsonView::Str("bmp"@)]);
    }
    let arr4 = array(items3);
    let entries5: Vec<(String, JsonValue)> = vec![field("obsVersion", text("31.0.0")), field("obsWebSocketVersion", text("5.5.4")), field("rpcVersion", uint(1)), field("availableRequests", arr2), field("supportedImageFormats", arr4), field("platform", text("linux")), field("platformDescription", text("OBS Mock Server"))];
    proof {
        lemma_entries_view(&entries5);
        assert(entries_view(&entries5) =~= seq![("obsVersion"@, JsonView::Str("31.0.0"@)), ("obsWebSocketVersion"@, JsonView::Str("5.5.4"@)), ("rpcVersion"@, juint(1)), ("availableRequests"@, JsonView::Array(Seq::empty())), ("supportedImageFormats"@, JsonView::Array(seq![JsonView::Str("png"@), JsonView::Str("jpg"@), JsonView::Str("bmp"@)])), ("platform"@, JsonView::Str("linux"@)), ("platformDescription"@, JsonView::Str("OBS Mock Server"@))]);
    }
    let obj6 = object(entries5);
    obj6
}

/// The data of `GetStats`; 2.5 has the bits 0x4004_0000_0000_0000.
pub open spec fn stats_view() -> JsonView {
    JsonView::Object(seq![("cpuUsage"@, jfloat(Real::Bits(0x4004_0000_0000_0000))), ("memoryUsage"@, jfloat(Real::OfU64(512))), ("availableDiskSpace"@, jfloat(Real::OfU64(100000))), ("activeFps"@, jfloat(Real::OfU64(60))), ("averageFrameRenderTime"@, jfloat(Real::OfU64(5))), ("renderSkippedFrames"@, juint(0)), ("renderTotalFrames"@, juint(10000)), ("outputSkippedFrames"@, juint(0)), ("outputTotalFrames"@, juint(10000)), ("webSocketSessionIncomingMessages"@, juint(0)), ("webSocketSessionOutgoingMessages"@, juint(0))])
}

/// The data of `GetStats`; 2.5 has the bits 0x4004_0000_0000_0000.
pub fn stats() -> (j: JsonValue)
    ensures
        j.deep() == stats_view(),
{
    let entries1: Vec<(String, JsonValue)> = vec![field("cpuUsage", float(Real::Bits(0x4004_0000_0000_0000))), field("memoryUsage", float(Real::OfU64(512))), field("availableDiskSpace", float(Real::OfU64(100000))), field("activeFps", float(Real::OfU64(60))), field("averageFrameRenderTime", float(Real::OfU64(5))), field("renderSkippedFrames", uint(0)), field("renderTotalFrames", uint(10000)), field("outputSkippedFrames", uint(0)), field("outputTotalFrames", uint(10000)), field("webSocketSessionIncomingMessages", uint(0)), field("webSocketSessionOutgoingMessages", uint(0))];
    proof {
        lemma_entries_view(&entries1);
        assert(entries_view(&entries1) =~= seq![("cpuUsage"@, jfloat(Real::Bits(0x4004_0000_0000_0000))), ("memoryUsage"@, jfloat(Real::OfU64(512))), ("availableDiskSpace"@, jfloat(Real::OfU64(100000))), ("activeFps"@, jfloat(Real::OfU64(60))), ("averageFrameRenderTime"@, jfloat(Real::OfU64(5))), ("renderSkippedFrames"@, juint(0)), ("renderTotalFrames"@, juint(10000)), ("outputSkippedFrames"@, juint(0)), ("outputTotalFrames"@, juint(10000)), ("webSocketSessionIncomingMessages"@, juint(0)), ("webSocketSessionOutgoingMessages"@, juint(0))]);
    }
    let obj2 = object(entries1);
    obj2
}

/// The data of `GetHotkeyList`.
pub open spec fn hotkey_list_view() -> JsonView {
    JsonView::Object(seq![("hotkeys"@, JsonView::Array(Seq::empty()))])
}

/// The data of `GetHotkeyList`.
pub fn hotkey_list() -> (j: JsonValue)
    ensures
        j.deep() == hotkey_list_view(),
{
    let items1: Vec<JsonValue> = vec![];
    proof {
        lemma_items_view(&items1);
        assert(items_view(&items1) =~= Seq::empty());
    }
    let arr2 = array(items1);
    let entries3: Vec<(String, JsonValue)> = vec![field("hotkeys", arr2)];
    proof {
        lemma_entries_view(&entries3);
        assert(entries_view(&entries3) =~= seq![("hotkeys"@, JsonView::Array(Seq::empty()))]);
    }
    let obj4 = object(entries3);
    obj4
}

/// The data of `CallVendorRequest`.
pub open spec fn vendor_response_view(vendor_name: JsonView, request_type: JsonView) -> JsonView {
    JsonView::Object(seq![("vendorName"@, vendor_name), ("requestType"@, request_type), ("responseData"@, JsonView::Object(Seq::empty()))])
}

/// The data of `CallVendorRequest`.
pub fn vendor_response(vendor_name: JsonValue, request_type: JsonValue) -> (j: JsonValue)
    ensures
        j.deep() == vendor_response_view(vendor_name.deep(), request_type.deep()),
{
    let ghost vendor_name_v = vendor_name.deep();
    let ghost request_type_v = request_type.deep();
    let entries1: Vec<(String, JsonValue)> = vec![];
    proof {
        lemma_entries_view(&entries1);
        assert(entries_view(&entries1) =~= Seq::empty());
    }
    let obj2 = object(entries1);
    let entries3: Vec<(String, JsonValue)> = vec![field("vendorName", vendor_name), field("requestType", request_type), field("responseData", obj2)];
    proof {
        lemma_entries_view(&entries3);
        assert(entries_view(&entries3) =~= seq![("vendorName"@, vendor_name_v), ("requestType"@, request_type_v), ("responseData"@, JsonView::Object(Seq::empty()))]);
    }
    let obj4 = object(entries3);
    obj4
}

/// The data of `GetSceneCollectionList`.
pub open spec fn scene_collection_list_view(current: Seq<char>, collections: JsonView) -> JsonView {
    JsonView::Object(seq![("currentSceneCollectionName"@, JsonView::Str(current)), ("sceneCollections"@, collections)])
}

/// The data of `GetSceneCollectionList`.
pub fn scene_collection_list(current: &str, collections: JsonValue) -> (j: JsonValue)
    ensures
        j.deep() == scene_collection_list_view(current@, collections.deep()),
{
    let ghost collections_v = collections.deep();
    let entries1: Vec<(String, JsonValue)> = vec![field("currentSceneCollectionName", text(current)), field("sceneCollections", collections)];
    proof {
        lemma_entries_view(&entries1);
        assert(entries_view(&entries1) =~= seq![("currentSceneCollectionName"@, JsonView::Str(current@)), ("sceneCollections"@, collections_v)]);
    }
    let obj2 = object(entries1);
    obj2
}

/// The data of `GetProfileList`.
pub open spec fn profile_list_view(current: Seq<char>, profiles: JsonView) -> JsonView {
    JsonView::Object(seq![("currentProfileName"@, JsonView::Str(current)), ("profiles"@, profiles)])
}

/// The data of `GetProfileList`.
pub fn profile_list(current: &str, profiles: JsonValue) -> (j: JsonValue)
    ensures
        j.deep() == profile_list_view(current@, profiles.deep()),
{
    let ghost profiles_v = profiles.deep();
    let entries1: Vec<(String, JsonValue)> = vec![field("currentProfileName", text(current)), field("profiles", profiles)];
    proof {
        lemma_entries_view(&entries1);
        assert(entries_view(&entries1) =~= seq![("currentProfileName"@, JsonView::Str(current@)), ("profiles"@, profiles_v)]);
    }
    let obj2 = object(entries1);
    obj2
}

/// The data of `GetProfileParameter`.
pub open spec fn profile_parameter_view() -> JsonView {
    JsonView::Object(seq![("parameterValue"@, JsonView::Null), ("defaultParameterValue"@, JsonView::Null)])
}

/// The data of `GetProfileParameter`.
pub fn profile_parameter() -> (j: JsonValue)
    ensures
        j.deep() == profile_parameter_view(),
{
    let entries1: Vec<(String, JsonValue)> = vec![field("parameterValue", JsonValue::Null), field("defaultParameterValue", JsonValue::Null)];
    proof {
        lemma_entries_view(&entries1);
        assert(entries_view(&entries1) =~= seq![("parameterValue"@, JsonView::Null), ("defaultParameterValue"@, JsonView::Null)]);
    }
    let obj2 = object(entries1);
    obj2
}

/// The data of `GetVideoSettings`.
pub open spec fn video_settings_view() -> JsonView {
    JsonView::Object(seq![("fpsNumerator"@, juint(60)), ("fpsDenominator"@, juint(1)), ("baseWidth"@, juint(1920)), ("baseHeight"@, juint(1080)), ("outputWidth"@, juint(1920)), ("outputHeight"@, juint(1080))])
}

/// The data of `GetVideoSettings`.
pub fn video_settings() -> (j: JsonValue)
    ensures
        j.deep() == video_settings_view(),
{
    let entries1: Vec<(String, JsonValue)> = vec![field("fpsNumerator", uint(60)), field("fpsDenominator", uint(1)), field("baseWidth", uint(1920)), field("baseHeight", uint(1080)), field("outputWidth", uint(1920)), field("outputHeight", uint(1080))];
    proof {
        lemma_entries_view(&entries1);
        assert(entries_view(&entries1) =~= seq![("fpsNumerator"@, juint(60)), ("fpsDenominator"@, juint(1)), ("baseWidth"@, juint(1920)), ("baseHeight"@, juint(1080)), ("outputWidth"@, juint(1920)), ("outputHeight"@, juint(1080))]);
    }
    let obj2 = object(entries1);
    obj2
}

/// The data of `GetStreamServiceSettings`.
pub open spec fn stream_service_settings_view() -> JsonView {
    JsonView::Object(seq![("streamServiceType"@, JsonView::Str("rtmp_common"@)), ("streamServiceSettings"@, JsonView::Object(seq![("server"@, JsonView::Str("rtmp://localhost/live"@)), ("key"@, JsonView::Str("mock-stream-key"@))]))])
}

/// The data of `GetStreamServiceSettings`.
pub fn stream_service_settings() -> (j: JsonValue)
    ensures
        j.deep() == stream_service_settings_view(),
{
    let entries1: Vec<(String, JsonValue)> = vec![field("server", text("rtmp://localhost/live")), field("key", text("mock-stream-key"))];
    proof {
        lemma_entries_view(&entries1);
        assert(entries_view(&entries1) =~= seq![("server"@, JsonView::Str("rtmp://localhost/live"@)), ("key"@, JsonView::Str("mock-stream-key"@))]);
    }
    let obj2 = object(entries1);
    let entries3: Vec<(String, JsonValue)> = vec![field("streamServiceType", text("rtmp_common")), field("streamServiceSettings", obj2)];
    proof {
        lemma_entries_view(&entries3);
        assert(entries_view(&entries3) =~= seq![("streamServiceType"@, JsonView::Str("rtmp_common"@)), ("streamServiceSettings"@, JsonView::Object(seq![("server"@, JsonView::Str("rtmp://localhost/live"@)), ("key"@, JsonView::Str("mock-stream-key"@))]))]);
    }
    let obj4 = object(entries3);
    obj4
}

/// The data of `GetRecordDirectory`.
pub open spec fn record_directory_view() -> JsonView {
    JsonView::Object(seq![("recordDirectory"@, JsonView::Str("/tmp/obs-recordings"@))])
}

/// The data of `GetRecordDirectory`.
pub fn record_directory() -> (j: JsonValue)
    ensures
        j.deep() == record_directory_view(),
{
    let entries1: Vec<(String, JsonValue)> = vec![field("recordDirectory", text("/tmp/obs-recordings"))];
    proof {
        lemma_entries_view(&entries1);
        assert(entries_view(&entries1) =~= seq![("recordDirectory"@, JsonView::Str("/tmp/obs-recordings"@))]);
    }
    let obj2 = object(entries1);
    obj2
}

/// The data of `GetPersistentData`.
pub open spec fn slot_value_view(value: JsonView) -> JsonView {
    JsonView::Object(seq![("slotValue"@, value)])
}

/// The data of `GetPersistentData`.
pub fn slot_value(value: JsonValue) -> (j: JsonValue)
    ensures
        j.deep() == slot_value_view(value.deep()),
{
    let ghost value_v = value.deep();
    let entries1: Vec<(String, JsonValue)> = vec![field("slotValue", value)];
    proof {
        lemma_entries_view(&entries1);
        assert(entries_view(&entries1) =~= seq![("slotValue"@, value_v)]);
    }
    let obj2 = object(entries1);
    obj2
}

/// The data of `GetSceneList`.
pub open spec fn scene_list_view(program_name: Seq<char>, program_uuid: Seq<char>, preview_name: Seq<char>, preview_uuid: Seq<char>, scenes: JsonView) -> JsonView {
    JsonView::Object(seq![("currentProgramSceneName"@, JsonView::Str(program_name)), ("currentProgramSceneUuid"@, JsonView::Str(program_uuid)), ("currentPreviewSceneName"@, JsonView::Str(preview_name)), ("currentPreviewSceneUuid"@, JsonView::Str(preview_uuid)), ("scenes"@, scenes)])
}

/// The data of `GetSceneList`.
pub fn scene_list(program_name: &str, program_uuid: &str, preview_name: &str, preview_uuid: &str, scenes: JsonValue) -> (j: JsonValue)
    ensures
        j.deep() == scene_list_view(program_name@, program_uuid@, preview_name@, preview_uuid@, scenes.deep()),
{
    let ghost scenes_v = scenes.deep();
    let entries1: Vec<(String, JsonValue)> = vec![field("currentProgramSceneName", text(program_name)), field("currentProgramSceneUuid", text(program_uuid)), field("currentPreviewSceneName", text(preview_name)), field("currentPreviewSceneUuid", text(preview_uuid)), field("scenes", scenes)];
    proof {
        lemma_entries_view(&entries1);
        assert(entries_view(&entries1) =~= seq![("currentProgramSceneName"@, JsonView::Str(program_name@)), ("currentProgramSceneUuid"@, JsonView::Str(program_uuid@)), ("currentPreviewSceneName"@, JsonView::Str(preview_name@)), ("currentPreviewSceneUuid"@, JsonView::Str(preview_uuid@)), ("scenes"@, scenes_v)]);
    }
    let obj2 = object(entries1);
    obj2
}

/// One scene of `GetSceneList`.
pub open spec fn scene_list_entry_view(name: Seq<char>, uuid: Seq<char>, index: u64) -> JsonView {
    JsonView::Object(seq![("sceneName"@, JsonView::Str(name)), ("sceneUuid"@, JsonView::Str(uuid)), ("sceneIndex"@, juint(index))])
}

/// One scene of `GetSceneList`.
pub fn scene_list_entry(name: &str, uuid: &str, index: u64) -> (j: JsonValue)
    ensures
        j.deep() == scene_list_entry_view(name@, uuid@, index),
{
    let entries1: Vec<(String, JsonValue)> = vec![field("sceneName", text(name)), field("sceneUuid", text(uuid)), field("sceneIndex", uint(index))];
    proof {
        lemma_entries_view(&entries1);
        assert(entries_view(&entries1) =~= seq![("sceneName"@, JsonView::Str(name@)), ("sceneUuid"@, JsonView::Str(uuid@)), ("sceneIndex"@, juint(index))]);
    }
    let obj2 = object(entries1);
    obj2
}

/// The data of `GetGroupList`.
pub open spec fn group_list_view() -> JsonView {
    JsonView::Object(seq![("groups"@, JsonView::Array(Seq::empty()))])
}

/// The data of `GetGroupList`.
pub fn group_list() -> (j: JsonValue)
    ensures
        j.deep() == group_list_view(),
{
    let items1: Vec<JsonValue> = vec![];
    proof {
        lemma_items_view(&items1);
        assert(items_view(&items1) =~= Seq::empty());
    }
    let arr2 = array(items1);
    let entries3: Vec<(String, JsonValue)> = vec![field("groups", arr2)];
    proof {
        lemma_entries_view(&entries3);
        assert(entries_view(&entries3) =~= seq![("groups"@, JsonView::Array(Seq::empty()))]);
    }
    let obj4 = object(entries3);
    obj4
}

/// The data of `GetCurrentProgramScene`.
pub open spec fn program_scene_view(name: Seq<char>, uuid: Seq<char>) -> JsonView {
    JsonView::Object(seq![("sceneName"@, JsonView::Str(name)), ("sceneUuid"@, JsonView::Str(uuid)), ("currentProgramSceneName"@, JsonView::Str(name)), ("currentProgramSceneUuid"@, JsonView::Str(uuid))])
}

/// The data of `GetCurrentProgramScene`.
pub fn program_scene(name: &str, uuid: &str) -> (j: JsonValue)
    ensures
        j.deep() == program_scene_view(name@, uuid@),
{
    let entries1: Vec<(String, JsonValue)> = vec![field("sceneName", text(name)), field("sceneUuid", text(uuid)), field("currentProgramSceneName", text(name)), field("currentProgramSceneUuid", text(uuid))];
    proof {
        lemma_entries_view(&entries1);
        assert(entries_view(&entries1) =~= seq![("sceneName"@, JsonView::Str(name@)), ("sceneUuid"@, JsonView::Str(uuid@)), ("currentProgramSceneName"@, JsonView::Str(name@)), ("currentProgramSceneUuid"@, JsonView::Str(uuid@))]);
    }
    let obj2 = object(entries1);
    obj2
}

/// The data of `GetCurrentPreviewScene`.
pub open spec fn preview_scene_view(name: Seq<char>, uuid: Seq<char>) -> JsonView {
    JsonView::Object(seq![("sceneName"@, JsonView::Str(name)), ("sceneUuid"@, JsonView::Str(uuid)), ("currentPreviewSceneName"@, JsonView::Str(name)), ("currentPreviewSceneUuid"@, JsonView::Str(uuid))])
}

/// The data of `GetCurrentPreviewScene`.
pub fn preview_scene(name: &str, uuid: &str) -> (j: JsonValue)
    ensures
        j.deep() == preview_scene_view(name@, uuid@),
{
    let entries1: Vec<(String, JsonValue)> = vec![field("sceneName", text(name)), field("sceneUuid", text(uuid)), field("currentPreviewSceneName", text(name)), field("currentPreviewSceneUuid", text(uuid))];
    proof {
        lemma_entries_view(&entries1);
        assert(entries_view(&entries1) =~= seq![("sceneName"@, JsonView::Str(name@)), ("sceneUuid"@, JsonView::Str(uuid@)), ("currentPreviewSceneName"@, JsonView::Str(name@)), ("currentPreviewSceneUuid"@, JsonView::Str(uuid@))]);
    }
    let obj2 = object(entries1);
    obj2
}

/// The data of `CreateScene`.
pub open spec fn created_scene_view(uuid: Seq<char>) -> JsonView {
    JsonView::Object(seq![("sceneUuid"@, JsonView::Str(uuid))])
}

/// The data of `CreateScene`.
pub fn created_scene(uuid: &str) -> (j: JsonValue)
    ensures
        j.deep() == created_scene_view(uuid@),
{
    let entries1: Vec<(String, JsonValue)> = vec![field("sceneUuid", text(uuid))];
    proof {
        lemma_entries_view(&entries1);
        assert(entries_view(&entries1) =~= seq![("sceneUuid"@, JsonView::Str(uuid@))]);
    }
    let obj2 = object(entries1);
    obj2
}

/// The data of `GetSceneSceneTransitionOverride`.
pub open spec fn transition_override_view() -> JsonView {
    JsonView::Object(seq![("transitionName"@, JsonView::Null), ("transitionDuration"@, JsonView::Null)])
}

/// The data of `GetSceneSceneTransitionOverride`.
pub fn transition_override() -> (j: JsonValue)
    ensures
        j.deep() == transition_override_view(),
{
    let entries1: Vec<(String, JsonValue)> = vec![field("transitionName", JsonValue::Null), field("transitionDuration", JsonValue::Null)];
    proof {
        lemma_entries_view(&entries1);
        assert(entries_view(&entries1) =~= seq![("transitionName"@, JsonView::Null), ("transitionDuration"@, JsonView::Null)]);
    }
    let obj2 = object(entries1);
    obj2
}

/// The data of `GetInputList`.
pub open spec fn input_list_view(inputs: JsonView) -> JsonView {
    JsonView::Object(seq![("inputs"@, inputs)])
}

/// The data of `GetInputList`.
pub fn input_list(inputs: JsonValue) -> (j: JsonValue)
    ensures
        j.deep() == input_list_view(inputs.deep()),
{
    let ghost inputs_v = inputs.deep();
    let entries1: Vec<(String, JsonValue)> = vec![field("inputs", inputs)];
    proof {
        lemma_entries_view(&entries1);
        assert(entries_view(&entries1) =~= seq![("inputs"@, inputs_v)]);
    }
    let obj2 = object(entries1);
    obj2
}

/// One input of `GetInputList`.
pub open spec fn input_list_entry_view(name: Seq<char>, uuid: Seq<char>, kind: Seq<char>) -> JsonView {
    JsonView::Object(seq![("inputName"@, JsonView::Str(name)), ("inputUuid"@, JsonView::Str(uuid)), ("inputKind"@, JsonView::Str(kind)), ("unversionedInputKind"@, JsonView::Str(kind))])
}

/// One input of `GetInputList`.
pub fn input_list_entry(name: &str, uuid: &str, kind: &str) -> (j: JsonValue)
    ensures
        j.deep() == input_list_entry_view(name@, uuid@, kind@),
{
    let entries1: Vec<(String, JsonValue)> = vec![field("inputName", text(name)), field("inputUuid", text(uuid)), field("inputKind", text(kind)), field("unversionedInputKind", text(kind))];
    proof {
        lemma_entries_view(&entries1);
        assert(entries_view(&entries1) =~= seq![("inputName"@, JsonView::Str(name@)), ("inputUuid"@, JsonView::Str(uuid@)), ("inputKind"@, JsonView::Str(kind@)), ("unversionedInputKind"@, JsonView::Str(kind@))]);
    }
    let obj2 = object(entries1);
    obj2
}

/// The data of `GetInputKindList`.
pub open spec fn input_kind_list_view() -> JsonView {
    JsonView::Object(seq![("inputKinds"@, JsonView::Array(seq![JsonView::Str("pulse_output_capture"@), JsonView::Str("pulse_input_capture"@), JsonView::Str("ffmpeg_source"@), JsonView::Str("image_source"@), JsonView::Str("browser_source"@), JsonView::Str("vlc_source"@), JsonView::Str("window_capture"@), JsonView::Str("monitor_capture"@)]))])
}

/// The data of `GetInputKindList`.
pub fn input_kind_list() -> (j: JsonValue)
    ensures
        j.deep() == input_kind_list_view(),
{
    let items1: Vec<JsonValue> = vec![text("pulse_output_capture"), text("pulse_input_capture"), text("ffmpeg_source"), text("image_source"), text("browser_source"), text("vlc_source"), text("window_capture"), text("monitor_capture")];
    proof {
        lemma_items_view(&items1);
        assert(items_view(&items1) =~= seq![JsonView::Str("pulse_output_capture"@), JsonView::Str("pulse_input_capture"@), JsonView::Str("ffmpeg_source"@), JsonView::Str("image_source"@), JsonView::Str("browser_source"@), JsonView::Str("vlc_source"@), JsonView::Str("window_capture"@), JsonView::Str("monitor_capture"@)]);
    }
    let arr2 = array(items1);
    let entries3: Vec<(String, JsonValue)> = vec![field("inputKinds", arr2)];
    proof {
        lemma_entries_view(&entries3);
        assert(entries_view(&entries3) =~= seq![("inputKinds"@, JsonView::Array(seq![JsonView::Str("pulse_output_capture"@), JsonView::Str("pulse_input_capture"@), JsonView::Str("ffmpeg_source"@), JsonView::Str("image_source"@), JsonView::Str("browser_source"@), JsonView::Str("vlc_source"@), JsonView::Str("window_capture"@), JsonView::Str("monitor_capture"@)]))]);
    }
    let obj4 = object(entries3);
    obj4
}

/// The data of `GetSpecialInputs`.
pub open spec fn special_inputs_view(desktop1: Seq<char>, mic1: Option<Seq<char>>) -> JsonView {
    JsonView::Object(seq![("desktop1"@, JsonView::Str(desktop1)), ("desktop2"@, JsonView::Null), ("mic1"@, str_or_null(mic1)), ("mic2"@, JsonView::Null), ("mic3"@, JsonView::Null), ("mic4"@, JsonView::Null)])
}

/// The data of `GetSpecialInputs`.
pub fn special_inputs(desktop1: &str, mic1: Option<&str>) -> (j: JsonValue)
    ensures
        j.deep() == special_inputs_view(desktop1@, opt_str_view(mic1)),
{
    let entries1: Vec<(String, JsonValue)> = vec![field("desktop1", text(desktop1)), field("desktop2", JsonValue::Null), field("mic1", text_or_null(mic1)), field("mic2", JsonValue::Null), field("mic3", JsonValue::Null), field("mic4", JsonValue::Null)];
    proof {
        lemma_entries_view(&entries1);
        assert(entries_view(&entries1) =~= seq![("desktop1"@, JsonView::Str(desktop1@)), ("desktop2"@, JsonView::Null), ("mic1"@, str_or_null(opt_str_view(mic1))), ("mic2"@, JsonView::Null), ("mic3"@, JsonView::Null), ("mic4"@, JsonView::Null)]);
    }
    let obj2 = object(entries1);
    obj2
}

/// The data of `CreateInput`.
pub open spec fn created_input_view(uuid: Seq<char>) -> JsonView {
    JsonView::Object(seq![("inputUuid"@, JsonView::Str(uuid)), ("sceneItemId"@, juint(1))])
}

/// The data of `CreateInput`.
pub fn created_input(uuid: &str) -> (j: JsonValue)
    ensures
        j.deep() == created_input_view(uuid@),
{
    let entries1: Vec<(String, JsonValue)> = vec![field("inputUuid", text(uuid)), field("sceneItemId", uint(1))];
    proof {
        lemma_entries_view(&entries1);
        assert(entries_view(&entries1) =~= seq![("inputUuid"@, JsonView::Str(uuid@)), ("sceneItemId"@, juint(1))]);
    }
    let obj2 = object(entries1);
    obj2
}

/// The data of `GetInputDefaultSettings`.
pub open spec fn default_input_settings_view() -> JsonView {
    JsonView::Object(seq![("defaultInputSettings"@, JsonView::Object(Seq::empty()))])
}

/// The data of `GetInputDefaultSettings`.
pub fn default_input_settings() -> (j: JsonValue)
    ensures
        j.deep() == default_input_settings_view(),
{
    let entries1: Vec<(String, JsonValue)> = vec![];
    proof {
        lemma_entries_view(&entries1);
        assert(entries_view(&entries1) =~= Seq::empty());
    }
    let obj2 = object(entries1);
    let entries3: Vec<(String, JsonValue)> = vec![field("defaultInputSettings", obj2)];
    proof {
        lemma_entries_view(&entries3);
        assert(entries_view(&entries3) =~= seq![("defaultInputSettings"@, JsonView::Object(Seq::empty()))]);
    }
    let obj4 = object(entries3);
    obj4
}

/// The data of `GetInputSettings`.
pub open spec fn input_settings_view(settings: JsonView, kind: Seq<char>) -> JsonView {
    JsonView::Object(seq![("inputSettings"@, settings), ("inputKind"@, JsonView::Str(kind))])
}

/// The data of `GetInputSettings`.
pub fn input_settings(settings: JsonValue, kind: &str) -> (j: JsonValue)
    ensures
        j.deep() == input_settings_view(settings.deep(), kind@),
{
    let ghost settings_v = settings.deep();
    let entries1: Vec<(String, JsonValue)> = vec![field("inputSettings", settings), field("inputKind", text(kind))];
    proof {
        lemma_entries_view(&entries1);
        assert(entries_view(&entries1) =~= seq![("inputSettings"@, settings_v), ("inputKind"@, JsonView::Str(kind@))]);
    }
    let obj2 = object(entries1);
    obj2
}

/// The data of `GetInputMute` and `ToggleInputMute`.
pub open spec fn input_mute_view(muted: bool) -> JsonView {
    JsonView::Object(seq![("inputMuted"@, JsonView::Bool(muted))])
}

/// The data of `GetInputMute` and `ToggleInputMute`.
pub fn input_mute(muted: bool) -> (j: JsonValue)
    ensures
        j.deep() == input_mute_view(muted),
{
    let entries1: Vec<(String, JsonValue)> = vec![field("inputMuted", JsonValue::Bool(muted))];
    proof {
        lemma_entries_view(&entries1);
        assert(entries_view(&entries1) =~= seq![("inputMuted"@, JsonView::Bool(muted))]);
    }
    let obj2 = object(entries1);
    obj2
}

/// The data of `GetInputVolume`.
pub open spec fn input_volume_view(mul: Real, db: Real) -> JsonView {
    JsonView::Object(seq![("inputVolumeMul"@, jfloat(mul)), ("inputVolumeDb"@, jfloat(db))])
}

/// The data of `GetInputVolume`.
pub fn input_volume(mul: Real, db: Real) -> (j: JsonValue)
    ensures
        j.deep() == input_volume_view(mul, db),
{
    let ghost mul_v = mul;
    let ghost db_v = db;
    let entries1: Vec<(String, JsonValue)> = vec![field("inputVolumeMul", float(mul)), field("inputVolumeDb", float(db))];
    proof {
        lemma_entries_view(&entries1);
        assert(entries_view(&entries1) =~= seq![("inputVolumeMul"@, jfloat(mul_v)), ("inputVolumeDb"@, jfloat(db_v))]);
    }
    let obj2 = object(entries1);
    obj2
}

/// The data of `GetInputAudioBalance`; 0.5 has the bits 0x3FE0_0000_0000_0000.
pub open spec fn audio_balance_view() -> JsonView {
    JsonView::Object(seq![("inputAudioBalance"@, jfloat(Real::Bits(0x3FE0_0000_0000_0000)))])
}

/// The data of `GetInputAudioBalance`; 0.5 has the bits 0x3FE0_0000_0000_0000.
pub fn audio_balance() -> (j: JsonValue)
    ensures
        j.deep() == audio_balance_view(),
{
    let entries1: Vec<(String, JsonValue)> = vec![field("inputAudioBalance", float(Real::Bits(0x3FE0_0000_0000_0000)))];
    proof {
        lemma_entries_view(&entries1);
        assert(entries_view(&entries1) =~= seq![("inputAudioBalance"@, jfloat(Real::Bits(0x3FE0_0000_0000_0000)))]);
    }
    let obj2 = object(entries1);
    obj2
}

/// The data of `GetInputAudioSyncOffset`.
pub open spec fn audio_sync_offset_view() -> JsonView {
    JsonView::Object(seq![("inputAudioSyncOffset"@, juint(0))])
}

/// The data of `GetInputAudioSyncOffset`.
pub fn audio_sync_offset() -> (j: JsonValue)
    ensures
        j.deep() == audio_sync_offset_view(),
{
    let entries1: Vec<(String, JsonValue)> = vec![field("inputAudioSyncOffset", uint(0))];
    proof {
        lemma_entries_view(&entries1);
        assert(entries_view(&entries1) =~= seq![("inputAudioSyncOffset"@, juint(0))]);
    }
    let obj2 = object(entries1);
    obj2
}

/// The data of `GetInputAudioMonitorType`.
pub open spec fn monitor_type_view() -> JsonView {
    JsonView::Object(seq![("monitorType"@, JsonView::Str("OBS_MONITORING_TYPE_NONE"@))])
}

/// The data of `GetInputAudioMonitorType`.
pub fn monitor_type() -> (j: JsonValue)
    ensures
        j.deep() == monitor_type_view(),
{
    let entries1: Vec<(String, JsonValue)> = vec![field("monitorType", text("OBS_MONITORING_TYPE_NONE"))];
    proof {
        lemma_entries_view(&entries1);
        assert(entries_view(&entries1) =~= seq![("monitorType"@, JsonView::Str("OBS_MONITORING_TYPE_NONE"@))]);
    }
    let obj2 = object(entries1);
    obj2
}

/// The data of `GetInputAudioTracks`.
pub open spec fn audio_tracks_view() -> JsonView {
    JsonView::Object(seq![("inputAudioTracks"@, JsonView::Object(seq![("1"@, JsonView::Bool(true)), ("2"@, JsonView::Bool(false)), ("3"@, JsonView::Bool(false)), ("4"@, JsonView::Bool(false)), ("5"@, JsonView::Bool(false)), ("6"@, JsonView::Bool(false))]))])
}

/// The data of `GetInputAudioTracks`.
pub fn audio_tracks() -> (j: JsonValue)
    ensures
        j.deep() == audio_tracks_view(),
{
    let entries1: Vec<(String, JsonValue)> = vec![field("1", JsonValue::Bool(true)), field("2", JsonValue::Bool(false)), field("3", JsonValue::Bool(false)), field("4", JsonValue::Bool(false)), field("5", JsonValue::Bool(false)), field("6", JsonValue::Bool(false))];
    proof {
        lemma_entries_view(&entries1);
        assert(entries_view(&entries1) =~= seq![("1"@, JsonView::Bool(true)), ("2"@, JsonView::Bool(false)), ("3"@, JsonView::Bool(false)), ("4"@, JsonView::Bool(false)), ("5"@, JsonView::Bool(false)), ("6"@, JsonView::Bool(false))]);
    }
    let obj2 = object(entries1);
    let entries3: Vec<(String, JsonValue)> = vec![field("inputAudioTracks", obj2)];
    proof {
        lemma_entries_view(&entries3);
        assert(entries_view(&entries3) =~= seq![("inputAudioTracks"@, JsonView::Object(seq![("1"@, JsonView::Bool(true)), ("2"@, JsonView::Bool(false)), ("3"@, JsonView::Bool(false)), ("4"@, JsonView::Bool(false)), ("5"@, JsonView::Bool(false)), ("6"@, JsonView::Bool(false))]))]);
    }
    let obj4 = object(entries3);
    obj4
}

/// The data of `GetInputDeinterlaceMode`.
pub open spec fn deinterlace_mode_view() -> JsonView {
    JsonView::Object(seq![("inputDeinterlaceMode"@, JsonView::Str("OBS_DEINTERLACE_MODE_DISABLE"@))])
}

/// The data of `GetInputDeinterlaceMode`.
pub fn deinterlace_mode() -> (j: JsonValue)
    ensures
        j.deep() == deinterlace_mode_view(),
{
    let entries1: Vec<(String, JsonValue)> = vec![field("inputDeinterlaceMode", text("OBS_DEINTERLACE_MODE_DISABLE"))];
    proof {
        lemma_entries_view(&entries1);
        assert(entries_view(&entries1) =~= seq![("inputDeinterlaceMode"@, JsonView::Str("OBS_DEINTERLACE_MODE_DISABLE"@))]);
    }
    let obj2 = object(entries1);
    obj2
}

/// The data of `GetInputDeinterlaceFieldOrder`.
pub open spec fn deinterlace_field_order_view() -> JsonView {
    JsonView::Object(seq![("inputDeinterlaceFieldOrder"@, JsonView::Str("OBS_DEINTERLACE_FIELD_ORDER_TOP"@))])
}

/// The data of `GetInputDeinterlaceFieldOrder`.
pub fn deinterlace_field_order() -> (j: JsonValue)
    ensures
        j.deep() == deinterlace_field_order_view(),
{
    let entries1: Vec<(String, JsonValue)> = vec![field("inputDeinterlaceFieldOrder", text("OBS_DEINTERLACE_FIELD_ORDER_TOP"))];
    proof {
        lemma_entries_view(&entries1);
        assert(entries_view(&entries1) =~= seq![("inputDeinterlaceFieldOrder"@, JsonView::Str("OBS_DEINTERLACE_FIELD_ORDER_TOP"@))]);
    }
    let obj2 = object(entries1);
    obj2
}

/// The data of `GetInputPropertiesListPropertyItems`.
pub open spec fn property_items_view() -> JsonView {
    JsonView::Object(seq![("propertyItems"@, JsonView::Array(Seq::empty()))])
}

/// The data of `GetInputPropertiesListPropertyItems`.
pub fn property_items() -> (j: JsonValue)
    ensures
        j.deep() == property_items_view(),
{
    let items1: Vec<JsonValue> = vec![];
    proof {
        lemma_items_view(&items1);
        assert(items_view(&items1) =~= Seq::empty());
    }
    let arr2 = array(items1);
    let entries3: Vec<(String, JsonValue)> = vec![field("propertyItems", arr2)];
    proof {
        lemma_entries_view(&entries3);
        assert(entries_view(&entries3) =~= seq![("propertyItems"@, JsonView::Array(Seq::empty()))]);
    }
    let obj4 = object(entries3);
    obj4
}

/// The data of `GetSourceActive`.
pub open spec fn source_active_view() -> JsonView {
    JsonView::Object(seq![("videoActive"@, JsonView::Bool(true)), ("videoShowing"@, JsonView::Bool(true))])
}

/// The data of `GetSourceActive`.
pub fn source_active() -> (j: JsonValue)
    ensures
        j.deep() == source_active_view(),
{
    let entries1: Vec<(String, JsonValue)> = vec![field("videoActive", JsonValue::Bool(true)), field("videoShowing", JsonValue::Bool(true))];
    proof {
        lemma_entries_view(&entries1);
        assert(entries_view(&entries1) =~= seq![("videoActive"@, JsonView::Bool(true)), ("videoShowing"@, JsonView::Bool(true))]);
    }
    let obj2 = object(entries1);
    obj2
}

/// The data of `GetSourceScreenshot`.
pub open spec fn source_screenshot_view() -> JsonView {
    JsonView::Object(seq![("imageData"@, JsonView::Str("data:image/png;base64,iVBORw0KGgoAAAANSUhEUgAAAAEAAAABCAYAAAAfFcSJAAAADUlEQVR42mNk+M9QDwADhgGAWjR9awAAAABJRU5ErkJggg=="@))])
}

/// The data of `GetSourceScreenshot`.
pub fn source_screenshot() -> (j: JsonValue)
    ensures
        j.deep() == source_screenshot_view(),
{
    let entries1: Vec<(String, JsonValue)> = vec![field("imageData", text("data:image/png;base64,iVBORw0KGgoAAAANSUhEUgAAAAEAAAABCAYAAAAfFcSJAAAADUlEQVR42mNk+M9QDwADhgGAWjR9awAAAABJRU5ErkJggg=="))];
    proof {
        lemma_entries_view(&entries1);
        assert(entries_view(&entries1) =~= seq![("imageData"@, JsonView::Str("data:image/png;base64,iVBORw0KGgoAAAANSUhEUgAAAAEAAAABCAYAAAAfFcSJAAAADUlEQVR42mNk+M9QDwADhgGAWjR9awAAAABJRU5ErkJggg=="@))]);
    }
    let obj2 = object(entries1);
    obj2
}

/// The data of `GetStreamStatus`.
pub open spec fn stream_status_view(active: bool, timecode: Seq<char>) -> JsonView {
    JsonView::Object(seq![("outputActive"@, JsonView::Bool(active)), ("outputReconnecting"@, JsonView::Bool(false)), ("outputTimecode"@, JsonView::Str(timecode)), ("outputDuration"@, juint(0)), ("outputCongestion"@, jfloat(Real::OfU64(0))), ("outputBytes"@, juint(0)), ("outputSkippedFrames"@, juint(0)), ("outputTotalFrames"@, juint(0))])
}

/// The data of `GetStreamStatus`.
pub fn stream_status(active: bool, timecode: &str) -> (j: JsonValue)
    ensures
        j.deep() == stream_status_view(active, timecode@),
{
    let entries1: Vec<(String, JsonValue)> = vec![field("outputActive", JsonValue::Bool(active)), field("outputReconnecting", JsonValue::Bool(false)), field("outputTimecode", text(timecode)), field("outputDuration", uint(0)), field("outputCongestion", float(Real::OfU64(0))), field("outputBytes", uint(0)), field("outputSkippedFrames", uint(0)), field("outputTotalFrames", uint(0))];
    proof {
        lemma_entries_view(&entries1);
        assert(entries_view(&entries1) =~= seq![("outputActive"@, JsonView::Bool(active)), ("outputReconnecting"@, JsonView::Bool(false)), ("outputTimecode"@, JsonView::Str(timecode@)), ("outputDuration"@, juint(0)), ("outputCongestion"@, jfloat(Real::OfU64(0))), ("outputBytes"@, juint(0)), ("outputSkippedFrames"@, juint(0)), ("outputTotalFrames"@, juint(0))]);
    }
    let obj2 = object(entries1);
    obj2
}

/// The data of the output toggles.
pub open spec fn output_active_view(active: bool) -> JsonView {
    JsonView::Object(seq![("outputActive"@, JsonView::Bool(active))])
}

/// The data of the output toggles.
pub fn output_active(active: bool) -> (j: JsonValue)
    ensures
        j.deep() == output_active_view(active),
{
    let entries1: Vec<(String, JsonValue)> = vec![field("outputActive", JsonValue::Bool(active))];
    proof {
        lemma_entries_view(&entries1);
        assert(entries_view(&entries1) =~= seq![("outputActive"@, JsonView::Bool(active))]);
    }
    let obj2 = object(entries1);
    obj2
}

/// The data of `GetRecordStatus`.
pub open spec fn record_status_view(active: bool, paused: bool, timecode: Seq<char>) -> JsonView {
    JsonView::Object(seq![("outputActive"@, JsonView::Bool(active)), ("outputPaused"@, JsonView::Bool(paused)), ("outputTimecode"@, JsonView::Str(timecode)), ("outputDuration"@, juint(0)), ("outputBytes"@, juint(0))])
}

/// The data of `GetRecordStatus`.
pub fn record_status(active: bool, paused: bool, timecode: &str) -> (j: JsonValue)
    ensures
        j.deep() == record_status_view(active, paused, timecode@),
{
    let entries1: Vec<(String, JsonValue)> = vec![field("outputActive", JsonValue::Bool(active)), field("outputPaused", JsonValue::Bool(paused)), field("outputTimecode", text(timecode)), field("outputDuration", uint(0)), field("outputBytes", uint(0))];
    proof {
        lemma_entries_view(&entries1);
        assert(entries_view(&entries1) =~= seq![("outputActive"@, JsonView::Bool(active)), ("outputPaused"@, JsonView::Bool(paused)), ("outputTimecode"@, JsonView::Str(timecode@)), ("outputDuration"@, juint(0)), ("outputBytes"@, juint(0))]);
    }
    let obj2 = object(entries1);
    obj2
}

/// The data of `StopRecord`.
pub open spec fn record_stopped_view() -> JsonView {
    JsonView::Object(seq![("outputPath"@, JsonView::Str("/tmp/obs-recordings/mock-recording.mkv"@))])
}

/// The data of `StopRecord`.
pub fn record_stopped() -> (j: JsonValue)
    ensures
        j.deep() == record_stopped_view(),
{
    let entries1: Vec<(String, JsonValue)> = vec![field("outputPath", text("/tmp/obs-recordings/mock-recording.mkv"))];
    proof {
        lemma_entries_view(&entries1);
        assert(entries_view(&entries1) =~= seq![("outputPath"@, JsonView::Str("/tmp/obs-recordings/mock-recording.mkv"@))]);
    }
    let obj2 = object(entries1);
    obj2
}

/// The data of `GetLastReplayBufferReplay`.
pub open spec fn last_replay_view() -> JsonView {
    JsonView::Object(seq![("savedReplayPath"@, JsonView::Str("/tmp/obs-replays/mock-replay.mkv"@))])
}

/// The data of `GetLastReplayBufferReplay`.
pub fn last_replay() -> (j: JsonValue)
    ensures
        j.deep() == last_replay_view(),
{
    let entries1: Vec<(String, JsonValue)> = vec![field("savedReplayPath", text("/tmp/obs-replays/mock-replay.mkv"))];
    proof {
        lemma_entries_view(&entries1);
        assert(entries_view(&entries1) =~= seq![("savedReplayPath"@, JsonView::Str("/tmp/obs-replays/mock-replay.mkv"@))]);
    }
    let obj2 = object(entries1);
    obj2
}

/// The data of `GetOutputList`.
pub open spec fn output_list_view() -> JsonView {
    JsonView::Object(seq![("outputs"@, JsonView::Array(Seq::empty()))])
}

/// The data of `GetOutputList`.
pub fn output_list() -> (j: JsonValue)
    ensures
        j.deep() == output_list_view(),
{
    let items1: Vec<JsonValue> = vec![];
    proof {
        lemma_items_view(&items1);
        assert(items_view(&items1) =~= Seq::empty());
    }
    let arr2 = array(items1);
    let entries3: Vec<(String, JsonValue)> = vec![field("outputs", arr2)];
    proof {
        lemma_entries_view(&entries3);
        assert(entries_view(&entries3) =~= seq![("outputs"@, JsonView::Array(Seq::empty()))]);
    }
    let obj4 = object(entries3);
    obj4
}

/// The data of `GetOutputStatus`.
pub open spec fn output_status_view() -> JsonView {
    JsonView::Object(seq![("outputActive"@, JsonView::Bool(false)), ("outputReconnecting"@, JsonView::Bool(false)), ("outputTimecode"@, JsonView::Str("00:00:00.000"@)), ("outputDuration"@, juint(0)), ("outputCongestion"@, jfloat(Real::OfU64(0))), ("outputBytes"@, juint(0)), ("outputSkippedFrames"@, juint(0)), ("outputTotalFrames"@, juint(0))])
}

/// The data of `GetOutputStatus`.
pub fn output_status() -> (j: JsonValue)
    ensures
        j.deep() == output_status_view(),
{
    let entries1: Vec<(String, JsonValue)> = vec![field("outputActive", JsonValue::Bool(false)), field("outputReconnecting", JsonValue::Bool(false)), field("outputTimecode", text("00:00:00.000")), field("outputDuration", uint(0)), field("outputCongestion", float(Real::OfU64(0))), field("outputBytes", uint(0)), field("outputSkippedFrames", uint(0)), field("outputTotalFrames", uint(0))];
    proof {
        lemma_entries_view(&entries1);
        assert(entries_view(&entries1) =~= seq![("outputActive"@, JsonView::Bool(false)), ("outputReconnecting"@, JsonView::Bool(false)), ("outputTimecode"@, JsonView::Str("00:00:00.000"@)), ("outputDuration"@, juint(0)), ("outputCongestion"@, jfloat(Real::OfU64(0))), ("outputBytes"@, juint(0)), ("outputSkippedFrames"@, juint(0)), ("outputTotalFrames"@, juint(0))]);
    }
    let obj2 = object(entries1);
    obj2
}

/// The data of `GetOutputSettings`.
pub open spec fn output_settings_view() -> JsonView {
    JsonView::Object(seq![("outputSettings"@, JsonView::Object(Seq::empty()))])
}

/// The data of `GetOutputSettings`.
pub fn output_settings() -> (j: JsonValue)
    ensures
        j.deep() == output_settings_view(),
{
    let entries1: Vec<(String, JsonValue)> = vec![];
    proof {
        lemma_entries_view(&entries1);
        assert(entries_view(&entries1) =~= Seq::empty());
    }
    let obj2 = object(entries1);
    let entries3: Vec<(String, JsonValue)> = vec![field("outputSettings", obj2)];
    proof {
        lemma_entries_view(&entries3);
        assert(entries_view(&entries3) =~= seq![("outputSettings"@, JsonView::Object(Seq::empty()))]);
    }
    let obj4 = object(entries3);
    obj4
}

/// The data of `GetSceneItemList`.
pub open spec fn scene_items_view(items: JsonView) -> JsonView {
    JsonView::Object(seq![("sceneItems"@, items)])
}

/// The data of `GetSceneItemList`.
pub fn scene_items(items: JsonValue) -> (j: JsonValue)
    ensures
        j.deep() == scene_items_view(items.deep()),
{
    let ghost items_v = items.deep();
    let entries1: Vec<(String, JsonValue)> = vec![field("sceneItems", items)];
    proof {
        lemma_entries_view(&entries1);
        assert(entries_view(&entries1) =~= seq![("sceneItems"@, items_v)]);
    }
    let obj2 = object(entries1);
    obj2
}

/// One item of `GetSceneItemList`.
pub open spec fn scene_item_entry_view(id: u64, index: u64, source_name: Seq<char>, source_uuid: Seq<char>, kind: Seq<char>, enabled: bool, locked: bool, blend_mode: Seq<char>, transform: JsonView) -> JsonView {
    JsonView::Object(seq![("sceneItemId"@, juint(id)), ("sceneItemIndex"@, juint(index)), ("sourceName"@, JsonView::Str(source_name)), ("sourceUuid"@, JsonView::Str(source_uuid)), ("sourceType"@, JsonView::Str("OBS_SOURCE_TYPE_INPUT"@)), ("inputKind"@, JsonView::Str(kind)), ("isGroup"@, JsonView::Bool(false)), ("sceneItemEnabled"@, JsonView::Bool(enabled)), ("sceneItemLocked"@, JsonView::Bool(locked)), ("sceneItemBlendMode"@, JsonView::Str(blend_mode)), ("sceneItemTransform"@, transform)])
}

/// One item of `GetSceneItemList`.
pub fn scene_item_entry(id: u64, index: u64, source_name: &str, source_uuid: &str, kind: &str, enabled: bool, locked: bool, blend_mode: &str, transform: JsonValue) -> (j: JsonValue)
    ensures
        j.deep() == scene_item_entry_view(id, index, source_name@, source_uuid@, kind@, enabled, locked, blend_mode@, transform.deep()),
{
    let ghost transform_v = transform.deep();
    let entries1: Vec<(String, JsonValue)> = vec![field("sceneItemId", uint(id)), field("sceneItemIndex", uint(index)), field("sourceName", text(source_name)), field("sourceUuid", text(source_uuid)), field("sourceType", text("OBS_SOURCE_TYPE_INPUT")), field("inputKind", text(kind)), field("isGroup", JsonValue::Bool(false)), field("sceneItemEnabled", JsonValue::Bool(enabled)), field("sceneItemLocked", JsonValue::Bool(locked)), field("sceneItemBlendMode", text(blend_mode)), field("sceneItemTransform", transform)];
    proof {
        lemma_entries_view(&entries1);
        assert(entries_view(&entries1) =~= seq![("sceneItemId"@, juint(id)), ("sceneItemIndex"@, juint(index)), ("sourceName"@, JsonView::Str(source_name@)), ("sourceUuid"@, JsonView::Str(source_uuid@)), ("sourceType"@, JsonView::Str("OBS_SOURCE_TYPE_INPUT"@)), ("inputKind"@, JsonView::Str(kind@)), ("isGroup"@, JsonView::Bool(false)), ("sceneItemEnabled"@, JsonView::Bool(enabled)), ("sceneItemLocked"@, JsonView::Bool(locked)), ("sceneItemBlendMode"@, JsonView::Str(blend_mode@)), ("sceneItemTransform"@, transform_v)]);
    }
    let obj2 = object(entries1);
    obj2
}

/// A scene item transform.
pub open spec fn transform_view(position_x: Real, position_y: Real, rotation: Real, scale_x: Real, scale_y: Real, width: Real, height: Real, source_width: Real, source_height: Real) -> JsonView {
    JsonView::Object(seq![("positionX"@, jfloat(position_x)), ("positionY"@, jfloat(position_y)), ("rotation"@, jfloat(rotation)), ("scaleX"@, jfloat(scale_x)), ("scaleY"@, jfloat(scale_y)), ("width"@, jfloat(width)), ("height"@, jfloat(height)), ("alignment"@, juint(5)), ("boundsType"@, JsonView::Str("OBS_BOUNDS_NONE"@)), ("boundsAlignment"@, juint(0)), ("boundsWidth"@, jfloat(Real::OfU64(0))), ("boundsHeight"@, jfloat(Real::OfU64(0))), ("cropLeft"@, juint(0)), ("cropRight"@, juint(0)), ("cropTop"@, juint(0)), ("cropBottom"@, juint(0)), ("sourceWidth"@, jfloat(source_width)), ("sourceHeight"@, jfloat(source_height))])
}

/// A scene item transform.
pub fn transform(position_x: Real, position_y: Real, rotation: Real, scale_x: Real, scale_y: Real, width: Real, height: Real, source_width: Real, source_height: Real) -> (j: JsonValue)
    ensures
        j.deep() == transform_view(position_x, position_y, rotation, scale_x, scale_y, width, height, source_width, source_height),
{
    let ghost position_x_v = position_x;
    let ghost position_y_v = position_y;
    let ghost rotation_v = rotation;
    let ghost scale_x_v = scale_x;
    let ghost scale_y_v = scale_y;
    let ghost width_v = width;
    let ghost height_v = height;
    let ghost source_width_v = source_width;
    let ghost source_height_v = source_height;
    let entries1: Vec<(String, JsonValue)> = vec![field("positionX", float(position_x)), field("positionY", float(position_y)), field("rotation", float(rotation)), field("scaleX", float(scale_x)), field("scaleY", float(scale_y)), field("width", float(width)), field("height", float(height)), field("alignment", uint(5)), field("boundsType", text("OBS_BOUNDS_NONE")), field("boundsAlignment", uint(0)), field("boundsWidth", float(Real::OfU64(0))), field("boundsHeight", float(Real::OfU64(0))), field("cropLeft", uint(0)), field("cropRight", uint(0)), field("cropTop", uint(0)), field("cropBottom", uint(0)), field("sourceWidth", float(source_width)), field("sourceHeight", float(source_height))];
    proof {
        lemma_entries_view(&entries1);
        assert(entries_view(&entries1) =~= seq![("positionX"@, jfloat(position_x_v)), ("positionY"@, jfloat(position_y_v)), ("rotation"@, jfloat(rotation_v)), ("scaleX"@, jfloat(scale_x_v)), ("scaleY"@, jfloat(scale_y_v)), ("width"@, jfloat(width_v)), ("height"@, jfloat(height_v)), ("alignment"@, juint(5)), ("boundsType"@, JsonView::Str("OBS_BOUNDS_NONE"@)), ("boundsAlignment"@, juint(0)), ("boundsWidth"@, jfloat(Real::OfU64(0))), ("boundsHeight"@, jfloat(Real::OfU64(0))), ("cropLeft"@, juint(0)), ("cropRight"@, juint(0)), ("cropTop"@, juint(0)), ("cropBottom"@, juint(0)), ("sourceWidth"@, jfloat(source_width_v)), ("sourceHeight"@, jfloat(source_height_v))]);
    }
    let obj2 = object(entries1);
    obj2
}

/// The data of `GetSceneItemId`, `CreateSceneItem` and `DuplicateSceneItem`.
pub open spec fn scene_item_id_view(id: u64) -> JsonView {
    JsonView::Object(seq![("sceneItemId"@, juint(id))])
}

/// The data of `GetSceneItemId`, `CreateSceneItem` and `DuplicateSceneItem`.
pub fn scene_item_id(id: u64) -> (j: JsonValue)
    ensures
        j.deep() == scene_item_id_view(id),
{
    let entries1: Vec<(String, JsonValue)> = vec![field("sceneItemId", uint(id))];
    proof {
        lemma_entries_view(&entries1);
        assert(entries_view(&entries1) =~= seq![("sceneItemId"@, juint(id))]);
    }
    let obj2 = object(entries1);
    obj2
}

/// The data of `GetSceneItemSource`.
pub open spec fn scene_item_source_view(name: Seq<char>, uuid: Seq<char>) -> JsonView {
    JsonView::Object(seq![("sourceName"@, JsonView::Str(name)), ("sourceUuid"@, JsonView::Str(uuid))])
}

/// The data of `GetSceneItemSource`.
pub fn scene_item_source(name: &str, uuid: &str) -> (j: JsonValue)
    ensures
        j.deep() == scene_item_source_view(name@, uuid@),
{
    let entries1: Vec<(String, JsonValue)> = vec![field("sourceName", text(name)), field("sourceUuid", text(uuid))];
    proof {
        lemma_entries_view(&entries1);
        assert(entries_view(&entries1) =~= seq![("sourceName"@, JsonView::Str(name@)), ("sourceUuid"@, JsonView::Str(uuid@))]);
    }
    let obj2 = object(entries1);
    obj2
}

/// The data of `GetSceneItemTransform`.
pub open spec fn scene_item_transform_view(transform: JsonView) -> JsonView {
    JsonView::Object(seq![("sceneItemTransform"@, transform)])
}

/// The data of `GetSceneItemTransform`.
pub fn scene_item_transform(transform: JsonValue) -> (j: JsonValue)
    ensures
        j.deep() == scene_item_transform_view(transform.deep()),
{
    let ghost transform_v = transform.deep();
    let entries1: Vec<(String, JsonValue)> = vec![field("sceneItemTransform", transform)];
    proof {
        lemma_entries_view(&entries1);
        assert(entries_view(&entries1) =~= seq![("sceneItemTransform"@, transform_v)]);
    }
    let obj2 = object(entries1);
    obj2
}

/// The data of `GetSceneItemEnabled`.
pub open spec fn scene_item_enabled_view(enabled: bool) -> JsonView {
    JsonView::Object(seq![("sceneItemEnabled"@, JsonView::Bool(enabled))])
}

/// The data of `GetSceneItemEnabled`.
pub fn scene_item_enabled(enabled: bool) -> (j: JsonValue)
    ensures
        j.deep() == scene_item_enabled_view(enabled),
{
    let entries1: Vec<(String, JsonValue)> = vec![field("sceneItemEnabled", JsonValue::Bool(enabled))];
    proof {
        lemma_entries_view(&entries1);
        assert(entries_view(&entries1) =~= seq![("sceneItemEnabled"@, JsonView::Bool(enabled))]);
    }
    let obj2 = object(entries1);
    obj2
}

/// The data of `GetSceneItemLocked`.
pub open spec fn scene_item_locked_view(locked: bool) -> JsonView {
    JsonView::Object(seq![("sceneItemLocked"@, JsonView::Bool(locked))])
}

/// The data of `GetSceneItemLocked`.
pub fn scene_item_locked(locked: bool) -> (j: JsonValue)
    ensures
        j.deep() == scene_item_locked_view(locked),
{
    let entries1: Vec<(String, JsonValue)> = vec![field("sceneItemLocked", JsonValue::Bool(locked))];
    proof {
        lemma_entries_view(&entries1);
        assert(entries_view(&entries1) =~= seq![("sceneItemLocked"@, JsonView::Bool(locked))]);
    }
    let obj2 = object(entries1);
    obj2
}

/// The data of `GetSceneItemIndex`.
pub open spec fn scene_item_index_view(index: u64) -> JsonView {
    JsonView::Object(seq![("sceneItemIndex"@, juint(index))])
}

/// The data of `GetSceneItemIndex`.
pub fn scene_item_index(index: u64) -> (j: JsonValue)
    ensures
        j.deep() == scene_item_index_view(index),
{
    let entries1: Vec<(String, JsonValue)> = vec![field("sceneItemIndex", uint(index))];
    proof {
        lemma_entries_view(&entries1);
        assert(entries_view(&entries1) =~= seq![("sceneItemIndex"@, juint(index))]);
    }
    let obj2 = object(entries1);
    obj2
}

/// The data of `GetSceneItemBlendMode`.
pub open spec fn scene_item_blend_mode_view(mode: Seq<char>) -> JsonView {
    JsonView::Object(seq![("sceneItemBlendMode"@, JsonView::Str(mode))])
}

/// The data of `GetSceneItemBlendMode`.
pub fn scene_item_blend_mode(mode: &str) -> (j: JsonValue)
    ensures
        j.deep() == scene_item_blend_mode_view(mode@),
{
    let entries1: Vec<(String, JsonValue)> = vec![field("sceneItemBlendMode", text(mode))];
    proof {
        lemma_entries_view(&entries1);
        assert(entries_view(&entries1) =~= seq![("sceneItemBlendMode"@, JsonView::Str(mode@))]);
    }
    let obj2 = object(entries1);
    obj2
}

/// The data of `GetTransitionKindList`.
pub open spec fn transition_kind_list_view() -> JsonView {
    JsonView::Object(seq![("transitionKinds"@, JsonView::Array(seq![JsonView::Str("cut_transition"@), JsonView::Str("fade_transition"@), JsonView::Str("swipe_transition"@), JsonView::Str("slide_transition"@)]))])
}

/// The data of `GetTransitionKindList`.
pub fn transition_kind_list() -> (j: JsonValue)
    ensures
        j.deep() == transition_kind_list_view(),
{
    let items1: Vec<JsonValue> = vec![text("cut_transition"), text("fade_transition"), text("swipe_transition"), text("slide_transition")];
    proof {
        lemma_items_view(&items1);
        assert(items_view(&items1) =~= seq![JsonView::Str("cut_transition"@), JsonView::Str("fade_transition"@), JsonView::Str("swipe_transition"@), JsonView::Str("slide_transition"@)]);
    }
    let arr2 = array(items1);
    let entries3: Vec<(String, JsonValue)> = vec![field("transitionKinds", arr2)];
    proof {
        lemma_entries_view(&entries3);
        assert(entries_view(&entries3) =~= seq![("transitionKinds"@, JsonView::Array(seq![JsonView::Str("cut_transition"@), JsonView::Str("fade_transition"@), JsonView::Str("swipe_transition"@), JsonView::Str("slide_transition"@)]))]);
    }
    let obj4 = object(entries3);
    obj4
}

/// The data of `GetSceneTransitionList`.
pub open spec fn scene_transition_list_view(current: Seq<char>, current_uuid: Seq<char>, cut_uuid: Seq<char>, fade_uuid: Seq<char>) -> JsonView {
    JsonView::Object(seq![("currentSceneTransitionName"@, JsonView::Str(current)), ("currentSceneTransitionUuid"@, JsonView::Str(current_uuid)), ("currentSceneTransitionKind"@, JsonView::Str("fade_transition"@)), ("transitions"@, JsonView::Array(seq![JsonView::Object(seq![("transitionName"@, JsonView::Str("Cut"@)), ("transitionUuid"@, JsonView::Str(cut_uuid)), ("transitionKind"@, JsonView::Str("cut_transition"@)), ("transitionFixed"@, JsonView::Bool(false)), ("transitionConfigurable"@, JsonView::Bool(false))]), JsonView::Object(seq![("transitionName"@, JsonView::Str("Fade"@)), ("transitionUuid"@, JsonView::Str(fade_uuid)), ("transitionKind"@, JsonView::Str("fade_transition"@)), ("transitionFixed"@, JsonView::Bool(false)), ("transitionConfigurable"@, JsonView::Bool(true))])]))])
}

/// The data of `GetSceneTransitionList`.
pub fn scene_transition_list(current: &str, current_uuid: &str, cut_uuid: &str, fade_uuid: &str) -> (j: JsonValue)
    ensures
        j.deep() == scene_transition_list_view(current@, current_uuid@, cut_uuid@, fade_uuid@),
{
    let entries1: Vec<(String, JsonValue)> = vec![field("transitionName", text("Cut")), field("transitionUuid", text(cut_uuid)), field("transitionKind", text("cut_transition")), field("transitionFixed", JsonValue::Bool(false)), field("transitionConfigurable", JsonValue::Bool(false))];
    proof {
        lemma_entries_view(&entries1);
        assert(entries_view(&entries1) =~= seq![("transitionName"@, JsonView::Str("Cut"@)), ("transitionUuid"@, JsonView::Str(cut_uuid@)), ("transitionKind"@, JsonView::Str("cut_transition"@)), ("transitionFixed"@, JsonView::Bool(false)), ("transitionConfigurable"@, JsonView::Bool(false))]);
    }
    let obj2 = object(entries1);
    let entries3: Vec<(String, JsonValue)> = vec![field("transitionName", text("Fade")), field("transitionUuid", text(fade_uuid)), field("transitionKind", text("fade_transition")), field("transitionFixed", JsonValue::Bool(false)), field("transitionConfigurable", JsonValue::Bool(true))];
    proof {
        lemma_entries_view(&entries3);
        assert(entries_view(&entries3) =~= seq![("transitionName"@, JsonView::Str("Fade"@)), ("transitionUuid"@, JsonView::Str(fade_uuid@)), ("transitionKind"@, JsonView::Str("fade_transition"@)), ("transitionFixed"@, JsonView::Bool(false)), ("transitionConfigurable"@, JsonView::Bool(true))]);
    }
    let obj4 = object(entries3);
    let items5: Vec<JsonValue> = vec![obj2, obj4];
    proof {
        lemma_items_view(&items5);
        assert(items_view(&items5) =~= seq![JsonView::Object(seq![("transitionName"@, JsonView::Str("Cut"@)), ("transitionUuid"@, JsonView::Str(cut_uuid@)), ("transitionKind"@, JsonView::Str("cut_transition"@)), ("transitionFixed"@, JsonView::Bool(false)), ("transitionConfigurable"@, JsonView::Bool(false))]), JsonView::Object(seq![("transitionName"@, JsonView::Str("Fade"@)), ("transitionUuid"@, JsonView::Str(fade_uuid@)), ("transitionKind"@, JsonView::Str("fade_transition"@)), ("transitionFixed"@, JsonView::Bool(false)), ("transitionConfigurable"@, JsonView::Bool(true))])]);
    }
    let arr6 = array(items5);
    let entries7: Vec<(String, JsonValue)> = vec![field("currentSceneTransitionName", text(current)), field("currentSceneTransitionUuid", text(current_uuid)), field("currentSceneTransitionKind", text("fade_transition")), field("transitions", arr6)];
    proof {
        lemma_entries_view(&entries7);
        assert(entries_view(&entries7) =~= seq![("currentSceneTransitionName"@, JsonView::Str(current@)), ("currentSceneTransitionUuid"@, JsonView::Str(current_uuid@)), ("currentSceneTransitionKind"@, JsonView::Str("fade_transition"@)), ("transitions"@, JsonView::Array(seq![JsonView::Object(seq![("transitionName"@, JsonView::Str("Cut"@)), ("transitionUuid"@, JsonView::Str(cut_uuid@)), ("transitionKind"@, JsonView::Str("cut_transition"@)), ("transitionFixed"@, JsonView::Bool(false)), ("transitionConfigurable"@, JsonView::Bool(false))]), JsonView::Object(seq![("transitionName"@, JsonView::Str("Fade"@)), ("transitionUuid"@, JsonView::Str(fade_uuid@)), ("transitionKind"@, JsonView::Str("fade_transition"@)), ("transitionFixed"@, JsonView::Bool(false)), ("transitionConfigurable"@, JsonView::Bool(true))])]))]);
    }
    let obj8 = object(entries7);
    obj8
}

/// The data of `GetCurrentSceneTransition`.
pub open spec fn current_scene_transition_view(name: Seq<char>, uuid: Seq<char>, duration: u64) -> JsonView {
    JsonView::Object(seq![("transitionName"@, JsonView::Str(name)), ("transitionUuid"@, JsonView::Str(uuid)), ("transitionKind"@, JsonView::Str("fade_transition"@)), ("transitionFixed"@, JsonView::Bool(false)), ("transitionDuration"@, juint(duration)), ("transitionConfigurable"@, JsonView::Bool(true)), ("transitionSettings"@, JsonView::Object(Seq::empty()))])
}

/// The data of `GetCurrentSceneTransition`.
pub fn current_scene_transition(name: &str, uuid: &str, duration: u64) -> (j: JsonValue)
    ensures
        j.deep() == current_scene_transition_view(name@, uuid@, duration),
{
    let entries1: Vec<(String, JsonValue)> = vec![];
    proof {
        lemma_entries_view(&entries1);
        assert(entries_view(&entries1) =~= Seq::empty());
    }
    let obj2 = object(entries1);
    let entries3: Vec<(String, JsonValue)> = vec![field("transitionName", text(name)), field("transitionUuid", text(uuid)), field("transitionKind", text("fade_transition")), field("transitionFixed", JsonValue::Bool(false)), field("transitionDuration", uint(duration)), field("transitionConfigurable", JsonValue::Bool(true)), field("transitionSettings", obj2)];
    proof {
        lemma_entries_view(&entries3);
        assert(entries_view(&entries3) =~= seq![("transitionName"@, JsonView::Str(name@)), ("transitionUuid"@, JsonView::Str(uuid@)), ("transitionKind"@, JsonView::Str("fade_transition"@)), ("transitionFixed"@, JsonView::Bool(false)), ("transitionDuration"@, juint(duration)), ("transitionConfigurable"@, JsonView::Bool(true)), ("transitionSettings"@, JsonView::Object(Seq::empty()))]);
    }
    let obj4 = object(entries3);
    obj4
}

/// The data of `GetCurrentSceneTransitionCursor`.
pub open spec fn transition_cursor_view() -> JsonView {
    JsonView::Object(seq![("transitionCursor"@, jfloat(Real::OfU64(0)))])
}

/// The data of `GetCurrentSceneTransitionCursor`.
pub fn transition_cursor() -> (j: JsonValue)
    ensures
        j.deep() == transition_cursor_view(),
{
    let entries1: Vec<(String, JsonValue)> = vec![field("transitionCursor", float(Real::OfU64(0)))];
    proof {
        lemma_entries_view(&entries1);
        assert(entries_view(&entries1) =~= seq![("transitionCursor"@, jfloat(Real::OfU64(0)))]);
    }
    let obj2 = object(entries1);
    obj2
}

/// The data of `GetSourceFilterKindList`.
pub open spec fn filter_kind_list_view() -> JsonView {
    JsonView::Object(seq![("sourceFilterKinds"@, JsonView::Array(seq![JsonView::Str("color_filter"@), JsonView::Str("crop_filter"@), JsonView::Str("gain_filter"@), JsonView::Str("noise_gate_filter"@)]))])
}

/// The data of `GetSourceFilterKindList`.
pub fn filter_kind_list() -> (j: JsonValue)
    ensures
        j.deep() == filter_kind_list_view(),
{
    let items1: Vec<JsonValue> = vec![text("color_filter"), text("crop_filter"), text("gain_filter"), text("noise_gate_filter")];
    proof {
        lemma_items_view(&items1);
        assert(items_view(&items1) =~= seq![JsonView::Str("color_filter"@), JsonView::Str("crop_filter"@), JsonView::Str("gain_filter"@), JsonView::Str("noise_gate_filter"@)]);
    }
    let arr2 = array(items1);
    let entries3: Vec<(String, JsonValue)> = vec![field("sourceFilterKinds", arr2)];
    proof {
        lemma_entries_view(&entries3);
        assert(entries_view(&entries3) =~= seq![("sourceFilterKinds"@, JsonView::Array(seq![JsonView::Str("color_filter"@), JsonView::Str("crop_filter"@), JsonView::Str("gain_filter"@), JsonView::Str("noise_gate_filter"@)]))]);
    }
    let obj4 = object(entries3);
    obj4
}

/// The data of `GetSourceFilterList`.
pub open spec fn filter_list_view() -> JsonView {
    JsonView::Object(seq![("filters"@, JsonView::Array(Seq::empty()))])
}

/// The data of `GetSourceFilterList`.
pub fn filter_list() -> (j: JsonValue)
    ensures
        j.deep() == filter_list_view(),
{
    let items1: Vec<JsonValue> = vec![];
    proof {
        lemma_items_view(&items1);
        assert(items_view(&items1) =~= Seq::empty());
    }
    let arr2 = array(items1);
    let entries3: Vec<(String, JsonValue)> = vec![field("filters", arr2)];
    proof {
        lemma_entries_view(&entries3);
        assert(entries_view(&entries3) =~= seq![("filters"@, JsonView::Array(Seq::empty()))]);
    }
    let obj4 = object(entries3);
    obj4
}

/// The data of `GetSourceFilterDefaultSettings`.
pub open spec fn filter_default_settings_view() -> JsonView {
    JsonView::Object(seq![("defaultFilterSettings"@, JsonView::Object(Seq::empty()))])
}

/// The data of `GetSourceFilterDefaultSettings`.
pub fn filter_default_settings() -> (j: JsonValue)
    ensures
        j.deep() == filter_default_settings_view(),
{
    let entries1: Vec<(String, JsonValue)> = vec![];
    proof {
        lemma_entries_view(&entries1);
        assert(entries_view(&entries1) =~= Seq::empty());
    }
    let obj2 = object(entries1);
    let entries3: Vec<(String, JsonValue)> = vec![field("defaultFilterSettings", obj2)];
    proof {
        lemma_entries_view(&entries3);
        assert(entries_view(&entries3) =~= seq![("defaultFilterSettings"@, JsonView::Object(Seq::empty()))]);
    }
    let obj4 = object(entries3);
    obj4
}

/// The data of `GetSourceFilter`.
pub open spec fn source_filter_view() -> JsonView {
    JsonView::Object(seq![("filterEnabled"@, JsonView::Bool(true)), ("filterIndex"@, juint(0)), ("filterKind"@, JsonView::Str("color_filter"@)), ("filterSettings"@, JsonView::Object(Seq::empty()))])
}

/// The data of `GetSourceFilter`.
pub fn source_filter() -> (j: JsonValue)
    ensures
        j.deep() == source_filter_view(),
{
    let entries1: Vec<(String, JsonValue)> = vec![];
    proof {
        lemma_entries_view(&entries1);
        assert(entries_view(&entries1) =~= Seq::empty());
    }
    let obj2 = object(entries1);
    let entries3: Vec<(String, JsonValue)> = vec![field("filterEnabled", JsonValue::Bool(true)), field("filterIndex", uint(0)), field("filterKind", text("color_filter")), field("filterSettings", obj2)];
    proof {
        lemma_entries_view(&entries3);
        assert(entries_view(&entries3) =~= seq![("filterEnabled"@, JsonView::Bool(true)), ("filterIndex"@, juint(0)), ("filterKind"@, JsonView::Str("color_filter"@)), ("filterSettings"@, JsonView::Object(Seq::empty()))]);
    }
    let obj4 = object(entries3);
    obj4
}

/// The data of `GetMediaInputStatus`.
pub open spec fn media_input_status_view() -> JsonView {
    JsonView::Object(seq![("mediaState"@, JsonView::Str("OBS_MEDIA_STATE_NONE"@)), ("mediaDuration"@, juint(0)), ("mediaCursor"@, juint(0))])
}

/// The data of `GetMediaInputStatus`.
pub fn media_input_status() -> (j: JsonValue)
    ensures
        j.deep() == media_input_status_view(),
{
    let entries1: Vec<(String, JsonValue)> = vec![field("mediaState", text("OBS_MEDIA_STATE_NONE")), field("mediaDuration", uint(0)), field("mediaCursor", uint(0))];
    proof {
        lemma_entries_view(&entries1);
        assert(entries_view(&entries1) =~= seq![("mediaState"@, JsonView::Str("OBS_MEDIA_STATE_NONE"@)), ("mediaDuration"@, juint(0)), ("mediaCursor"@, juint(0))]);
    }
    let obj2 = object(entries1);
    obj2
}

/// The data of `GetStudioModeEnabled`.
pub open spec fn studio_mode_view(enabled: bool) -> JsonView {
    JsonView::Object(seq![("studioModeEnabled"@, JsonView::Bool(enabled))])
}

/// The data of `GetStudioModeEnabled`.
pub fn studio_mode(enabled: bool) -> (j: JsonValue)
    ensures
        j.deep() == studio_mode_view(enabled),
{
    let entries1: Vec<(String, JsonValue)> = vec![field("studioModeEnabled", JsonValue::Bool(enabled))];
    proof {
        lemma_entries_view(&entries1);
        assert(entries_view(&entries1) =~= seq![("studioModeEnabled"@, JsonView::Bool(enabled))]);
    }
    let obj2 = object(entries1);
    obj2
}

/// The data of `GetMonitorList`.
pub open spec fn monitor_list_view() -> JsonView {
    JsonView::Object(seq![("monitors"@, JsonView::Array(Seq::empty()))])
}

/// The data of `GetMonitorList`.
pub fn monitor_list() -> (j: JsonValue)
    ensures
        j.deep() == monitor_list_view(),
{
    let items1: Vec<JsonValue> = vec![];
    proof {
        lemma_items_view(&items1);
        assert(items_view(&items1) =~= Seq::empty());
    }
    let arr2 = array(items1);
    let entries3: Vec<(String, JsonValue)> = vec![field("monitors", arr2)];
    proof {
        lemma_entries_view(&entries3);
        assert(entries_view(&entries3) =~= seq![("monitors"@, JsonView::Array(Seq::empty()))]);
    }
    let obj4 = object(entries3);
    obj4
}

/// The data of `GetCanvasList`.
pub open spec fn canvas_list_view() -> JsonView {
    JsonView::Object(seq![("canvases"@, JsonView::Array(Seq::empty()))])
}

/// The data of `GetCanvasList`.
pub fn canvas_list() -> (j: JsonValue)
    ensures
        j.deep() == canvas_list_view(),
{
    let items1: Vec<JsonValue> = vec![];
    proof {
        lemma_items_view(&items1);
        assert(items_view(&items1) =~= Seq::empty());
    }
    let arr2 = array(items1);
    let entries3: Vec<(String, JsonValue)> = vec![field("canvases", arr2)];
    proof {
        lemma_entries_view(&entries3);
        assert(entries_view(&entries3) =~= seq![("canvases"@, JsonView::Array(Seq::empty()))]);
    }
    let obj4 = object(entries3);
    obj4
}

} // verus!
