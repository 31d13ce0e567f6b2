//! Properties of the library as a whole: what one request undoes of another,
//! what a read gives back of a write, and what every request keeps.
use vstd::prelude::*;
use crate::handler::{handle_spec, next_state, response_to, OutcomeView};
use crate::handler::config::{store_persistent, stored_value, str_or};
use crate::handler::payloads::{input_mute_view, input_settings_view, preview_scene_view, program_scene_view, slot_value_view, studio_mode_view};
use crate::json::{
    assign, assign_all, field_bool, field_u64, field_str, get_field, key_is, keys_unique, lemma_assign_all_lookup, lemma_assign_lookup,
    lookup, Entries, JsonView,
};
use crate::auth::{accepts, auth_response, AuthConfig};
use crate::handler::can_handle;
use crate::protocol::{
    ResponseView, identified_json, identify_from, request_from, response_json, success_view, RequestView, OP_IDENTIFIED, OP_IDENTIFY,
    OP_REIDENTIFY, OP_REQUEST, OP_REQUEST_BATCH_RESPONSE, OP_REQUEST_RESPONSE, RPC_VERSION,
};
use crate::session::{batch_run, min_version, request_data, session_step, ActionView, Phase};
use crate::handler::general::general_spec;
use crate::handler::config::config_spec;
use crate::handler::inputs::inputs_spec;
use crate::handler::outputs::outputs_spec;
use crate::handler::scenes::{current_scenes_exist, scenes_spec};
use crate::handler::items::{
    duplicate_destination, is_scene_item_request, item_id_of, item_needs_next_id, items_spec, scene_request_spec,
};
use crate::state::{
    input_named, input_with_uuid, item_with_id, lemma_max_scene_item_id, max_item_id, max_scene_item_id, resolve_input_spec,
    resolve_scene_spec, scene_named, scene_with_uuid, initial_state, SceneItemView, SceneView, StateView,
};
use crate::text::{first_index, lemma_first_index_none, lemma_first_index_none_all, lemma_first_index_same, lemma_first_index_some};

verus! {

broadcast use vstd::string::group_string_axioms;

/// The names of the request types, told apart by their lengths and by the
/// characters where names of one length differ.
pub proof fn lemma_request_type_names()
    ensures
        "BroadcastCustomEvent"@.len() == 20,
        "BroadcastCustomEvent"@[0] == 'B',
        "CallVendorRequest"@.len() == 17,
        "CallVendorRequest"@[0] == 'C',
        "CreateInput"@.len() == 11,
        "CreateInput"@[0] == 'C',
        "CreateInput"@[6] == 'I',
        "CreateProfile"@.len() == 13,
        "CreateProfile"@[0] == 'C',
        "CreateRecordChapter"@.len() == 19,
        "CreateRecordChapter"@[0] == 'C',
        "CreateScene"@.len() == 11,
        "CreateScene"@[0] == 'C',
        "CreateScene"@[6] == 'S',
        "CreateSceneCollection"@.len() == 21,
        "CreateSceneCollection"@[0] == 'C',
        "CreateSceneItem"@.len() == 15,
        "CreateSceneItem"@[0] == 'C',
        "CreateSourceFilter"@.len() == 18,
        "CreateSourceFilter"@[0] == 'C',
        "DuplicateSceneItem"@.len() == 18,
        "DuplicateSceneItem"@[0] == 'D',
        "GetCanvasList"@.len() == 13,
        "GetCanvasList"@[0] == 'G',
        "GetCanvasList"@[3] == 'C',
        "GetCurrentPreviewScene"@.len() == 22,
        "GetCurrentPreviewScene"@[0] == 'G',
        "GetCurrentPreviewScene"@[3] == 'C',
        "GetCurrentPreviewScene"@[12] == 'e',
        "GetCurrentProgramScene"@.len() == 22,
        "GetCurrentProgramScene"@[0] == 'G',
        "GetCurrentProgramScene"@[3] == 'C',
        "GetCurrentProgramScene"@[12] == 'o',
        "GetCurrentSceneTransition"@.len() == 25,
        "GetCurrentSceneTransition"@[0] == 'G',
        "GetCurrentSceneTransition"@[3] == 'C',
        "GetCurrentSceneTransitionCursor"@.len() == 31,
        "GetCurrentSceneTransitionCursor"@[0] == 'G',
        "GetCurrentSceneTransitionCursor"@[3] == 'C',
        "GetGroupList"@.len() == 12,
        "GetGroupList"@[0] == 'G',
        "GetGroupList"@[3] == 'G',
        "GetGroupSceneItemList"@.len() == 21,
        "GetGroupSceneItemList"@[0] == 'G',
        "GetGroupSceneItemList"@[3] == 'G',
        "GetHotkeyList"@.len() == 13,
        "GetHotkeyList"@[0] == 'G',
        "GetHotkeyList"@[3] == 'H',
        "GetInputAudioBalance"@.len() == 20,
        "GetInputAudioBalance"@[0] == 'G',
        "GetInputAudioBalance"@[3] == 'I',
        "GetInputAudioMonitorType"@.len() == 24,
        "GetInputAudioMonitorType"@[0] == 'G',
        "GetInputAudioMonitorType"@[3] == 'I',
        "GetInputAudioSyncOffset"@.len() == 23,
        "GetInputAudioSyncOffset"@[0] == 'G',
        "GetInputAudioSyncOffset"@[3] == 'I',
        "GetInputAudioSyncOffset"@[8] == 'A',
        "GetInputAudioTracks"@.len() == 19,
        "GetInputAudioTracks"@[0] == 'G',
        "GetInputAudioTracks"@[3] == 'I',
        "GetInputDefaultSettings"@.len() == 23,
        "GetInputDefaultSettings"@[0] == 'G',
        "GetInputDefaultSettings"@[3] == 'I',
        "GetInputDefaultSettings"@[8] == 'D',
        "GetInputDefaultSettings"@[10] == 'f',
        "GetInputDeinterlaceFieldOrder"@.len() == 29,
        "GetInputDeinterlaceFieldOrder"@[0] == 'G',
        "GetInputDeinterlaceMode"@.len() == 23,
        "GetInputDeinterlaceMode"@[0] == 'G',
        "GetInputDeinterlaceMode"@[3] == 'I',
        "GetInputDeinterlaceMode"@[8] == 'D',
        "GetInputDeinterlaceMode"@[10] == 'i',
        "GetInputKindList"@.len() == 16,
        "GetInputKindList"@[0] == 'G',
        "GetInputKindList"@[3] == 'I',
        "GetInputKindList"@[8] == 'K',
        "GetInputList"@.len() == 12,
        "GetInputList"@[0] == 'G',
        "GetInputList"@[3] == 'I',
        "GetInputList"@[8] == 'L',
        "GetInputMute"@.len() == 12,
        "GetInputMute"@[0] == 'G',
        "GetInputMute"@[3] == 'I',
        "GetInputMute"@[8] == 'M',
        "GetInputPropertiesListPropertyItems"@.len() == 35,
        "GetInputSettings"@.len() == 16,
        "GetInputSettings"@[0] == 'G',
        "GetInputSettings"@[3] == 'I',
        "GetInputSettings"@[8] == 'S',
        "GetInputVolume"@.len() == 14,
        "GetInputVolume"@[0] == 'G',
        "GetInputVolume"@[3] == 'I',
        "GetLastReplayBufferReplay"@.len() == 25,
        "GetLastReplayBufferReplay"@[0] == 'G',
        "GetLastReplayBufferReplay"@[3] == 'L',
        "GetMediaInputStatus"@.len() == 19,
        "GetMediaInputStatus"@[0] == 'G',
        "GetMediaInputStatus"@[3] == 'M',
        "GetMonitorList"@.len() == 14,
        "GetMonitorList"@[0] == 'G',
        "GetMonitorList"@[3] == 'M',
        "GetOutputList"@.len() == 13,
        "GetOutputList"@[0] == 'G',
        "GetOutputList"@[3] == 'O',
        "GetOutputSettings"@.len() == 17,
        "GetOutputSettings"@[0] == 'G',
        "GetOutputSettings"@[3] == 'O',
        "GetOutputStatus"@.len() == 15,
        "GetOutputStatus"@[0] == 'G',
        "GetOutputStatus"@[3] == 'O',
        "GetPersistentData"@.len() == 17,
        "GetPersistentData"@[0] == 'G',
        "GetPersistentData"@[3] == 'P',
        "GetProfileList"@.len() == 14,
        "GetProfileList"@[0] == 'G',
        "GetProfileList"@[3] == 'P',
        "GetProfileParameter"@.len() == 19,
        "GetProfileParameter"@[0] == 'G',
        "GetProfileParameter"@[3] == 'P',
        "GetRecordDirectory"@.len() == 18,
        "GetRecordDirectory"@[0] == 'G',
        "GetRecordDirectory"@[3] == 'R',
        "GetRecordStatus"@.len() == 15,
        "GetRecordStatus"@[0] == 'G',
        "GetRecordStatus"@[3] == 'R',
        "GetReplayBufferStatus"@.len() == 21,
        "GetReplayBufferStatus"@[0] == 'G',
        "GetReplayBufferStatus"@[3] == 'R',
        "GetSceneCollectionList"@.len() == 22,
        "GetSceneCollectionList"@[0] == 'G',
        "GetSceneCollectionList"@[3] == 'S',
        "GetSceneCollectionList"@[8] == 'C',
        "GetSceneItemBlendMode"@.len() == 21,
        "GetSceneItemBlendMode"@[0] == 'G',
        "GetSceneItemBlendMode"@[3] == 'S',
        "GetSceneItemBlendMode"@[12] == 'B',
        "GetSceneItemEnabled"@.len() == 19,
        "GetSceneItemEnabled"@[0] == 'G',
        "GetSceneItemEnabled"@[3] == 'S',
        "GetSceneItemEnabled"@[4] == 'c',
        "GetSceneItemId"@.len() == 14,
        "GetSceneItemId"@[0] == 'G',
        "GetSceneItemId"@[3] == 'S',
        "GetSceneItemIndex"@.len() == 17,
        "GetSceneItemIndex"@[0] == 'G',
        "GetSceneItemIndex"@[3] == 'S',
        "GetSceneItemList"@.len() == 16,
        "GetSceneItemList"@[0] == 'G',
        "GetSceneItemList"@[3] == 'S',
        "GetSceneItemList"@[4] == 'c',
        "GetSceneItemLocked"@.len() == 18,
        "GetSceneItemLocked"@[0] == 'G',
        "GetSceneItemLocked"@[3] == 'S',
        "GetSceneItemLocked"@[12] == 'L',
        "GetSceneItemSource"@.len() == 18,
        "GetSceneItemSource"@[0] == 'G',
        "GetSceneItemSource"@[3] == 'S',
        "GetSceneItemSource"@[12] == 'S',
        "GetSceneItemTransform"@.len() == 21,
        "GetSceneItemTransform"@[0] == 'G',
        "GetSceneItemTransform"@[3] == 'S',
        "GetSceneItemTransform"@[12] == 'T',
        "GetSceneList"@.len() == 12,
        "GetSceneList"@[0] == 'G',
        "GetSceneList"@[3] == 'S',
        "GetSceneSceneTransitionOverride"@.len() == 31,
        "GetSceneSceneTransitionOverride"@[0] == 'G',
        "GetSceneSceneTransitionOverride"@[3] == 'S',
        "GetSceneTransitionList"@.len() == 22,
        "GetSceneTransitionList"@[0] == 'G',
        "GetSceneTransitionList"@[3] == 'S',
        "GetSceneTransitionList"@[8] == 'T',
        "GetSourceActive"@.len() == 15,
        "GetSourceActive"@[0] == 'G',
        "GetSourceActive"@[3] == 'S',
        "GetSourceActive"@[4] == 'o',
        "GetSourceActive"@[9] == 'A',
        "GetSourceFilter"@.len() == 15,
        "GetSourceFilter"@[0] == 'G',
        "GetSourceFilter"@[3] == 'S',
        "GetSourceFilter"@[4] == 'o',
        "GetSourceFilter"@[9] == 'F',
        "GetSourceFilterDefaultSettings"@.len() == 30,
        "GetSourceFilterKindList"@.len() == 23,
        "GetSourceFilterKindList"@[0] == 'G',
        "GetSourceFilterKindList"@[3] == 'S',
        "GetSourceFilterList"@.len() == 19,
        "GetSourceFilterList"@[0] == 'G',
        "GetSourceFilterList"@[3] == 'S',
        "GetSourceFilterList"@[4] == 'o',
        "GetSourceFilterList"@[9] == 'F',
        "GetSourceScreenshot"@.len() == 19,
        "GetSourceScreenshot"@[0] == 'G',
        "GetSourceScreenshot"@[3] == 'S',
        "GetSourceScreenshot"@[4] == 'o',
        "GetSourceScreenshot"@[9] == 'S',
        "GetSpecialInputs"@.len() == 16,
        "GetSpecialInputs"@[0] == 'G',
        "GetSpecialInputs"@[3] == 'S',
        "GetSpecialInputs"@[4] == 'p',
        "GetStats"@.len() == 8,
        "GetStreamServiceSettings"@.len() == 24,
        "GetStreamServiceSettings"@[0] == 'G',
        "GetStreamServiceSettings"@[3] == 'S',
        "GetStreamStatus"@.len() == 15,
        "GetStreamStatus"@[0] == 'G',
        "GetStreamStatus"@[3] == 'S',
        "GetStreamStatus"@[4] == 't',
        "GetStudioModeEnabled"@.len() == 20,
        "GetStudioModeEnabled"@[0] == 'G',
        "GetStudioModeEnabled"@[3] == 'S',
        "GetTransitionKindList"@.len() == 21,
        "GetTransitionKindList"@[0] == 'G',
        "GetTransitionKindList"@[3] == 'T',
        "GetVersion"@.len() == 10,
        "GetVersion"@[0] == 'G',
        "GetVideoSettings"@.len() == 16,
        "GetVideoSettings"@[0] == 'G',
        "GetVideoSettings"@[3] == 'V',
        "GetVirtualCamStatus"@.len() == 19,
        "GetVirtualCamStatus"@[0] == 'G',
        "GetVirtualCamStatus"@[3] == 'V',
        "OffsetMediaInputCursor"@.len() == 22,
        "OffsetMediaInputCursor"@[0] == 'O',
        "OffsetMediaInputCursor"@[1] == 'f',
        "OpenInputFiltersDialog"@.len() == 22,
        "OpenInputFiltersDialog"@[0] == 'O',
        "OpenInputFiltersDialog"@[1] == 'p',
        "OpenInputInteractDialog"@.len() == 23,
        "OpenInputInteractDialog"@[0] == 'O',
        "OpenInputPropertiesDialog"@.len() == 25,
        "OpenInputPropertiesDialog"@[0] == 'O',
        "OpenSourceProjector"@.len() == 19,
        "OpenSourceProjector"@[0] == 'O',
        "OpenVideoMixProjector"@.len() == 21,
        "OpenVideoMixProjector"@[0] == 'O',
        "PauseRecord"@.len() == 11,
        "PauseRecord"@[0] == 'P',
        "PressInputPropertiesButton"@.len() == 26,
        "PressInputPropertiesButton"@[0] == 'P',
        "RemoveInput"@.len() == 11,
        "RemoveInput"@[0] == 'R',
        "RemoveInput"@[6] == 'I',
        "RemoveProfile"@.len() == 13,
        "RemoveProfile"@[0] == 'R',
        "RemoveScene"@.len() == 11,
        "RemoveScene"@[0] == 'R',
        "RemoveScene"@[6] == 'S',
        "RemoveSceneItem"@.len() == 15,
        "RemoveSceneItem"@[0] == 'R',
        "RemoveSourceFilter"@.len() == 18,
        "RemoveSourceFilter"@[0] == 'R',
        "ResumeRecord"@.len() == 12,
        "ResumeRecord"@[0] == 'R',
        "SaveReplayBuffer"@.len() == 16,
        "SaveReplayBuffer"@[0] == 'S',
        "SaveReplayBuffer"@[1] == 'a',
        "SaveSourceScreenshot"@.len() == 20,
        "SaveSourceScreenshot"@[0] == 'S',
        "SaveSourceScreenshot"@[1] == 'a',
        "SendStreamCaption"@.len() == 17,
        "SendStreamCaption"@[0] == 'S',
        "SendStreamCaption"@[1] == 'e',
        "SendStreamCaption"@[2] == 'n',
        "SetCurrentPreviewScene"@.len() == 22,
        "SetCurrentPreviewScene"@[0] == 'S',
        "SetCurrentPreviewScene"@[3] == 'C',
        "SetCurrentPreviewScene"@[12] == 'e',
        "SetCurrentProfile"@.len() == 17,
        "SetCurrentProfile"@[0] == 'S',
        "SetCurrentProfile"@[1] == 'e',
        "SetCurrentProfile"@[2] == 't',
        "SetCurrentProfile"@[3] == 'C',
        "SetCurrentProgramScene"@.len() == 22,
        "SetCurrentProgramScene"@[0] == 'S',
        "SetCurrentProgramScene"@[3] == 'C',
        "SetCurrentProgramScene"@[12] == 'o',
        "SetCurrentSceneCollection"@.len() == 25,
        "SetCurrentSceneCollection"@[0] == 'S',
        "SetCurrentSceneCollection"@[15] == 'C',
        "SetCurrentSceneTransition"@.len() == 25,
        "SetCurrentSceneTransition"@[0] == 'S',
        "SetCurrentSceneTransition"@[15] == 'T',
        "SetCurrentSceneTransitionDuration"@.len() == 33,
        "SetCurrentSceneTransitionDuration"@[25] == 'D',
        "SetCurrentSceneTransitionSettings"@.len() == 33,
        "SetCurrentSceneTransitionSettings"@[25] == 'S',
        "SetInputAudioBalance"@.len() == 20,
        "SetInputAudioBalance"@[0] == 'S',
        "SetInputAudioBalance"@[1] == 'e',
        "SetInputAudioBalance"@[3] == 'I',
        "SetInputAudioMonitorType"@.len() == 24,
        "SetInputAudioMonitorType"@[0] == 'S',
        "SetInputAudioMonitorType"@[3] == 'I',
        "SetInputAudioSyncOffset"@.len() == 23,
        "SetInputAudioSyncOffset"@[0] == 'S',
        "SetInputAudioSyncOffset"@[3] == 'I',
        "SetInputAudioSyncOffset"@[8] == 'A',
        "SetInputAudioTracks"@.len() == 19,
        "SetInputAudioTracks"@[0] == 'S',
        "SetInputAudioTracks"@[3] == 'I',
        "SetInputDeinterlaceFieldOrder"@.len() == 29,
        "SetInputDeinterlaceFieldOrder"@[0] == 'S',
        "SetInputDeinterlaceMode"@.len() == 23,
        "SetInputDeinterlaceMode"@[0] == 'S',
        "SetInputDeinterlaceMode"@[3] == 'I',
        "SetInputDeinterlaceMode"@[8] == 'D',
        "SetInputMute"@.len() == 12,
        "SetInputMute"@[0] == 'S',
        "SetInputMute"@[3] == 'I',
        "SetInputMute"@[8] == 'M',
        "SetInputName"@.len() == 12,
        "SetInputName"@[0] == 'S',
        "SetInputName"@[3] == 'I',
        "SetInputName"@[8] == 'N',
        "SetInputSettings"@.len() == 16,
        "SetInputSettings"@[0] == 'S',
        "SetInputSettings"@[1] == 'e',
        "SetInputSettings"@[3] == 'I',
        "SetInputVolume"@.len() == 14,
        "SetInputVolume"@[0] == 'S',
        "SetInputVolume"@[1] == 'e',
        "SetMediaInputCursor"@.len() == 19,
        "SetMediaInputCursor"@[0] == 'S',
        "SetMediaInputCursor"@[3] == 'M',
        "SetOutputSettings"@.len() == 17,
        "SetOutputSettings"@[0] == 'S',
        "SetOutputSettings"@[1] == 'e',
        "SetOutputSettings"@[2] == 't',
        "SetOutputSettings"@[3] == 'O',
        "SetPersistentData"@.len() == 17,
        "SetPersistentData"@[0] == 'S',
        "SetPersistentData"@[1] == 'e',
        "SetPersistentData"@[2] == 't',
        "SetPersistentData"@[3] == 'P',
        "SetProfileParameter"@.len() == 19,
        "SetProfileParameter"@[0] == 'S',
        "SetProfileParameter"@[3] == 'P',
        "SetRecordDirectory"@.len() == 18,
        "SetRecordDirectory"@[0] == 'S',
        "SetRecordDirectory"@[3] == 'R',
        "SetSceneItemBlendMode"@.len() == 21,
        "SetSceneItemBlendMode"@[0] == 'S',
        "SetSceneItemBlendMode"@[12] == 'B',
        "SetSceneItemEnabled"@.len() == 19,
        "SetSceneItemEnabled"@[0] == 'S',
        "SetSceneItemEnabled"@[3] == 'S',
        "SetSceneItemEnabled"@[4] == 'c',
        "SetSceneItemIndex"@.len() == 17,
        "SetSceneItemIndex"@[0] == 'S',
        "SetSceneItemIndex"@[1] == 'e',
        "SetSceneItemIndex"@[2] == 't',
        "SetSceneItemIndex"@[3] == 'S',
        "SetSceneItemLocked"@.len() == 18,
        "SetSceneItemLocked"@[0] == 'S',
        "SetSceneItemLocked"@[3] == 'S',
        "SetSceneItemTransform"@.len() == 21,
        "SetSceneItemTransform"@[0] == 'S',
        "SetSceneItemTransform"@[12] == 'T',
        "SetSceneName"@.len() == 12,
        "SetSceneName"@[0] == 'S',
        "SetSceneName"@[3] == 'S',
        "SetSceneSceneTransitionOverride"@.len() == 31,
        "SetSceneSceneTransitionOverride"@[0] == 'S',
        "SetSourceFilterEnabled"@.len() == 22,
        "SetSourceFilterEnabled"@[0] == 'S',
        "SetSourceFilterEnabled"@[3] == 'S',
        "SetSourceFilterIndex"@.len() == 20,
        "SetSourceFilterIndex"@[0] == 'S',
        "SetSourceFilterIndex"@[1] == 'e',
        "SetSourceFilterIndex"@[3] == 'S',
        "SetSourceFilterIndex"@[4] == 'o',
        "SetSourceFilterName"@.len() == 19,
        "SetSourceFilterName"@[0] == 'S',
        "SetSourceFilterName"@[3] == 'S',
        "SetSourceFilterName"@[4] == 'o',
        "SetSourceFilterSettings"@.len() == 23,
        "SetSourceFilterSettings"@[0] == 'S',
        "SetSourceFilterSettings"@[3] == 'S',
        "SetStreamServiceSettings"@.len() == 24,
        "SetStreamServiceSettings"@[0] == 'S',
        "SetStreamServiceSettings"@[3] == 'S',
        "SetStudioModeEnabled"@.len() == 20,
        "SetStudioModeEnabled"@[0] == 'S',
        "SetStudioModeEnabled"@[1] == 'e',
        "SetStudioModeEnabled"@[3] == 'S',
        "SetStudioModeEnabled"@[4] == 't',
        "SetTBarPosition"@.len() == 15,
        "SetTBarPosition"@[0] == 'S',
        "SetTBarPosition"@[1] == 'e',
        "SetVideoSettings"@.len() == 16,
        "SetVideoSettings"@[0] == 'S',
        "SetVideoSettings"@[1] == 'e',
        "SetVideoSettings"@[3] == 'V',
        "Sleep"@.len() == 5,
        "SplitRecordFile"@.len() == 15,
        "SplitRecordFile"@[0] == 'S',
        "SplitRecordFile"@[1] == 'p',
        "StartOutput"@.len() == 11,
        "StartOutput"@[0] == 'S',
        "StartOutput"@[5] == 'O',
        "StartRecord"@.len() == 11,
        "StartRecord"@[0] == 'S',
        "StartRecord"@[5] == 'R',
        "StartReplayBuffer"@.len() == 17,
        "StartReplayBuffer"@[0] == 'S',
        "StartReplayBuffer"@[1] == 't',
        "StartStream"@.len() == 11,
        "StartStream"@[0] == 'S',
        "StartStream"@[5] == 'S',
        "StartVirtualCam"@.len() == 15,
        "StartVirtualCam"@[0] == 'S',
        "StartVirtualCam"@[1] == 't',
        "StopOutput"@.len() == 10,
        "StopOutput"@[0] == 'S',
        "StopOutput"@[4] == 'O',
        "StopRecord"@.len() == 10,
        "StopRecord"@[0] == 'S',
        "StopRecord"@[4] == 'R',
        "StopReplayBuffer"@.len() == 16,
        "StopReplayBuffer"@[0] == 'S',
        "StopReplayBuffer"@[1] == 't',
        "StopStream"@.len() == 10,
        "StopStream"@[0] == 'S',
        "StopStream"@[4] == 'S',
        "StopVirtualCam"@.len() == 14,
        "StopVirtualCam"@[0] == 'S',
        "StopVirtualCam"@[1] == 't',
        "ToggleInputMute"@.len() == 15,
        "ToggleInputMute"@[0] == 'T',
        "ToggleOutput"@.len() == 12,
        "ToggleOutput"@[0] == 'T',
        "ToggleOutput"@[6] == 'O',
        "ToggleRecord"@.len() == 12,
        "ToggleRecord"@[0] == 'T',
        "ToggleRecord"@[6] == 'R',
        "ToggleRecordPause"@.len() == 17,
        "ToggleRecordPause"@[0] == 'T',
        "ToggleReplayBuffer"@.len() == 18,
        "ToggleReplayBuffer"@[0] == 'T',
        "ToggleStream"@.len() == 12,
        "ToggleStream"@[0] == 'T',
        "ToggleStream"@[6] == 'S',
        "ToggleVirtualCam"@.len() == 16,
        "ToggleVirtualCam"@[0] == 'T',
        "TriggerHotkeyByKeySequence"@.len() == 26,
        "TriggerHotkeyByKeySequence"@[0] == 'T',
        "TriggerHotkeyByName"@.len() == 19,
        "TriggerHotkeyByName"@[0] == 'T',
        "TriggerMediaInputAction"@.len() == 23,
        "TriggerMediaInputAction"@[0] == 'T',
        "TriggerStudioModeTransition"@.len() == 27,
{
    reveal_strlit("BroadcastCustomEvent");
    reveal_strlit("CallVendorRequest");
    reveal_strlit("CreateInput");
    reveal_strlit("CreateProfile");
    reveal_strlit("CreateRecordChapter");
    reveal_strlit("CreateScene");
    reveal_strlit("CreateSceneCollection");
    reveal_strlit("CreateSceneItem");
    reveal_strlit("CreateSourceFilter");
    reveal_strlit("DuplicateSceneItem");
    reveal_strlit("GetCanvasList");
    reveal_strlit("GetCurrentPreviewScene");
    reveal_strlit("GetCurrentProgramScene");
    reveal_strlit("GetCurrentSceneTransition");
    reveal_strlit("GetCurrentSceneTransitionCursor");
    reveal_strlit("GetGroupList");
    reveal_strlit("GetGroupSceneItemList");
    reveal_strlit("GetHotkeyList");
    reveal_strlit("GetInputAudioBalance");
    reveal_strlit("GetInputAudioMonitorType");
    reveal_strlit("GetInputAudioSyncOffset");
    reveal_strlit("GetInputAudioTracks");
    reveal_strlit("GetInputDefaultSettings");
    reveal_strlit("GetInputDeinterlaceFieldOrder");
    reveal_strlit("GetInputDeinterlaceMode");
    reveal_strlit("GetInputKindList");
    reveal_strlit("GetInputList");
    reveal_strlit("GetInputMute");
    reveal_strlit("GetInputPropertiesListPropertyItems");
    reveal_strlit("GetInputSettings");
    reveal_strlit("GetInputVolume");
    reveal_strlit("GetLastReplayBufferReplay");
    reveal_strlit("GetMediaInputStatus");
    reveal_strlit("GetMonitorList");
    reveal_strlit("GetOutputList");
    reveal_strlit("GetOutputSettings");
    reveal_strlit("GetOutputStatus");
    reveal_strlit("GetPersistentData");
    reveal_strlit("GetProfileList");
    reveal_strlit("GetProfileParameter");
    reveal_strlit("GetRecordDirectory");
    reveal_strlit("GetRecordStatus");
    reveal_strlit("GetReplayBufferStatus");
    reveal_strlit("GetSceneCollectionList");
    reveal_strlit("GetSceneItemBlendMode");
    reveal_strlit("GetSceneItemEnabled");
    reveal_strlit("GetSceneItemId");
    reveal_strlit("GetSceneItemIndex");
    reveal_strlit("GetSceneItemList");
    reveal_strlit("GetSceneItemLocked");
    reveal_strlit("GetSceneItemSource");
    reveal_strlit("GetSceneItemTransform");
    reveal_strlit("GetSceneList");
    reveal_strlit("GetSceneSceneTransitionOverride");
    reveal_strlit("GetSceneTransitionList");
    reveal_strlit("GetSourceActive");
    reveal_strlit("GetSourceFilter");
    reveal_strlit("GetSourceFilterDefaultSettings");
    reveal_strlit("GetSourceFilterKindList");
    reveal_strlit("GetSourceFilterList");
    reveal_strlit("GetSourceScreenshot");
    reveal_strlit("GetSpecialInputs");
    reveal_strlit("GetStats");
    reveal_strlit("GetStreamServiceSettings");
    reveal_strlit("GetStreamStatus");
    reveal_strlit("GetStudioModeEnabled");
    reveal_strlit("GetTransitionKindList");
    reveal_strlit("GetVersion");
    reveal_strlit("GetVideoSettings");
    reveal_strlit("GetVirtualCamStatus");
    reveal_strlit("OffsetMediaInputCursor");
    reveal_strlit("OpenInputFiltersDialog");
    reveal_strlit("OpenInputInteractDialog");
    reveal_strlit("OpenInputPropertiesDialog");
    reveal_strlit("OpenSourceProjector");
    reveal_strlit("OpenVideoMixProjector");
    reveal_strlit("PauseRecord");
    reveal_strlit("PressInputPropertiesButton");
    reveal_strlit("RemoveInput");
    reveal_strlit("RemoveProfile");
    reveal_strlit("RemoveScene");
    reveal_strlit("RemoveSceneItem");
    reveal_strlit("RemoveSourceFilter");
    reveal_strlit("ResumeRecord");
    reveal_strlit("SaveReplayBuffer");
    reveal_strlit("SaveSourceScreenshot");
    reveal_strlit("SendStreamCaption");
    reveal_strlit("SetCurrentPreviewScene");
    reveal_strlit("SetCurrentProfile");
    reveal_strlit("SetCurrentProgramScene");
    reveal_strlit("SetCurrentSceneCollection");
    reveal_strlit("SetCurrentSceneTransition");
    reveal_strlit("SetCurrentSceneTransitionDuration");
    reveal_strlit("SetCurrentSceneTransitionSettings");
    reveal_strlit("SetInputAudioBalance");
    reveal_strlit("SetInputAudioMonitorType");
    reveal_strlit("SetInputAudioSyncOffset");
    reveal_strlit("SetInputAudioTracks");
    reveal_strlit("SetInputDeinterlaceFieldOrder");
    reveal_strlit("SetInputDeinterlaceMode");
    reveal_strlit("SetInputMute");
    reveal_strlit("SetInputName");
    reveal_strlit("SetInputSettings");
    reveal_strlit("SetInputVolume");
    reveal_strlit("SetMediaInputCursor");
    reveal_strlit("SetOutputSettings");
    reveal_strlit("SetPersistentData");
    reveal_strlit("SetProfileParameter");
    reveal_strlit("SetRecordDirectory");
    reveal_strlit("SetSceneItemBlendMode");
    reveal_strlit("SetSceneItemEnabled");
    reveal_strlit("SetSceneItemIndex");
    reveal_strlit("SetSceneItemLocked");
    reveal_strlit("SetSceneItemTransform");
    reveal_strlit("SetSceneName");
    reveal_strlit("SetSceneSceneTransitionOverride");
    reveal_strlit("SetSourceFilterEnabled");
    reveal_strlit("SetSourceFilterIndex");
    reveal_strlit("SetSourceFilterName");
    reveal_strlit("SetSourceFilterSettings");
    reveal_strlit("SetStreamServiceSettings");
    reveal_strlit("SetStudioModeEnabled");
    reveal_strlit("SetTBarPosition");
    reveal_strlit("SetVideoSettings");
    reveal_strlit("Sleep");
    reveal_strlit("SplitRecordFile");
    reveal_strlit("StartOutput");
    reveal_strlit("StartRecord");
    reveal_strlit("StartReplayBuffer");
    reveal_strlit("StartStream");
    reveal_strlit("StartVirtualCam");
    reveal_strlit("StopOutput");
    reveal_strlit("StopRecord");
    reveal_strlit("StopReplayBuffer");
    reveal_strlit("StopStream");
    reveal_strlit("StopVirtualCam");
    reveal_strlit("ToggleInputMute");
    reveal_strlit("ToggleOutput");
    reveal_strlit("ToggleRecord");
    reveal_strlit("ToggleRecordPause");
    reveal_strlit("ToggleReplayBuffer");
    reveal_strlit("ToggleStream");
    reveal_strlit("ToggleVirtualCam");
    reveal_strlit("TriggerHotkeyByKeySequence");
    reveal_strlit("TriggerHotkeyByName");
    reveal_strlit("TriggerMediaInputAction");
    reveal_strlit("TriggerStudioModeTransition");
}

/// Toggling the stream twice gives back the state before.
pub proof fn law_toggle_stream_twice(st: StateView, d1: JsonView, d2: JsonView, f1: Seq<Seq<char>>, f2: Seq<Seq<char>>)
    ensures
        next_state(next_state(st, "ToggleStream"@, d1, f1), "ToggleStream"@, d2, f2) == st,
{
    lemma_request_type_names();
    reveal(handle_spec);
}

/// Toggling the virtual camera twice gives back the state before.
pub proof fn law_toggle_virtual_cam_twice(st: StateView, d1: JsonView, d2: JsonView, f1: Seq<Seq<char>>, f2: Seq<Seq<char>>)
    ensures
        next_state(next_state(st, "ToggleVirtualCam"@, d1, f1), "ToggleVirtualCam"@, d2, f2) == st,
{
    lemma_request_type_names();
    reveal(handle_spec);
}

/// Toggling the replay buffer twice gives back the state before.
pub proof fn law_toggle_replay_buffer_twice(st: StateView, d1: JsonView, d2: JsonView, f1: Seq<Seq<char>>, f2: Seq<Seq<char>>)
    ensures
        next_state(next_state(st, "ToggleReplayBuffer"@, d1, f1), "ToggleReplayBuffer"@, d2, f2) == st,
{
    lemma_request_type_names();
    reveal(handle_spec);
}

/// Toggling recording twice gives back the state before, where recording is
/// not paused.
pub proof fn law_toggle_record_twice(st: StateView, d1: JsonView, d2: JsonView, f1: Seq<Seq<char>>, f2: Seq<Seq<char>>)
    requires
        !st.record_paused,
    ensures
        next_state(next_state(st, "ToggleRecord"@, d1, f1), "ToggleRecord"@, d2, f2) == st,
{
    lemma_request_type_names();
    reveal(handle_spec);
}

/// Toggling the mute of an input twice, naming it the same way, gives back
/// the state before.
pub proof fn law_toggle_input_mute_twice(st: StateView, d: JsonView, f1: Seq<Seq<char>>, f2: Seq<Seq<char>>)
    ensures
        next_state(next_state(st, "ToggleInputMute"@, d, f1), "ToggleInputMute"@, d, f2) == st,
{
    lemma_request_type_names();
    reveal(handle_spec);
    let s1 = next_state(st, "ToggleInputMute"@, d, f1);
    match resolve_input_spec(st, d) {
        Some(i) => {
            assert(s1.inputs.len() == st.inputs.len());
            assert forall|k: int| 0 <= k < st.inputs.len() implies s1.inputs[k].name == st.inputs[k].name
                && s1.inputs[k].uuid == st.inputs[k].uuid by {}
            lemma_resolve_input_same_names(st, s1, d);
            assert(s1.inputs.update(i, st.inputs[i]) =~= st.inputs);
        },
        None => {},
    }
}

/// Whether the inputs of two states have the same names and UUIDs, in order.
pub open spec fn same_input_names(a: StateView, b: StateView) -> bool {
    &&& a.inputs.len() == b.inputs.len()
    &&& forall|k: int| #![trigger a.inputs[k]] 0 <= k < a.inputs.len() ==> a.inputs[k].name == b.inputs[k].name && a.inputs[k].uuid == b.inputs[k].uuid
}

/// Which input request data names depends only on the names and UUIDs of
/// the inputs.
pub proof fn lemma_resolve_input_same_names(a: StateView, b: StateView, d: JsonView)
    requires
        same_input_names(a, b),
    ensures
        resolve_input_spec(a, d) == resolve_input_spec(b, d),
{
    match field_str(d, "inputName"@) {
        Some(n) => lemma_first_index_same(a.inputs, b.inputs, input_named(n), input_named(n)),
        None => match field_str(d, "inputUuid"@) {
            Some(u) => lemma_first_index_same(a.inputs, b.inputs, input_with_uuid(u), input_with_uuid(u)),
            None => {},
        },
    }
}

/// What `SetPersistentData` stores in a slot, `GetPersistentData` of that
/// slot gives back.
pub proof fn law_persistent_read_after_write(
    st: StateView,
    d1: JsonView,
    d2: JsonView,
    f1: Seq<Seq<char>>,
    f2: Seq<Seq<char>>,
    rid: Seq<char>,
)
    requires
        str_or(d2, "realm"@, ""@) == str_or(d1, "realm"@, ""@),
        str_or(d2, "slotName"@, ""@) == str_or(d1, "slotName"@, ""@),
    ensures
        response_to(next_state(st, "SetPersistentData"@, d1, f1), "GetPersistentData"@, rid, d2, f2)
            == success_view("GetPersistentData"@, rid, Some(slot_value_view(stored_value(d1)))),
{
    lemma_request_type_names();
    reveal(handle_spec);
    let pd = st.persistent_data;
    let realm = str_or(d1, "realm"@, ""@);
    let slot = str_or(d1, "slotName"@, ""@);
    let slots = match lookup(pd, realm) {
        Some(x) => x,
        None => Seq::empty(),
    };
    lemma_assign_lookup(pd, realm, assign(slots, slot, stored_value(d1)), realm);
    lemma_assign_lookup(slots, slot, stored_value(d1), slot);
}

/// Storing persistent data in one slot leaves what `GetPersistentData` gives
/// for every other slot unchanged.
pub proof fn law_persistent_other_slots(
    st: StateView,
    d1: JsonView,
    d2: JsonView,
    f1: Seq<Seq<char>>,
    f2: Seq<Seq<char>>,
    rid: Seq<char>,
)
    requires
        str_or(d2, "realm"@, ""@) != str_or(d1, "realm"@, ""@) || str_or(d2, "slotName"@, ""@) != str_or(
            d1,
            "slotName"@,
            ""@,
        ),
    ensures
        response_to(next_state(st, "SetPersistentData"@, d1, f1), "GetPersistentData"@, rid, d2, f2)
            == response_to(st, "GetPersistentData"@, rid, d2, f2),
{
    lemma_request_type_names();
    reveal(handle_spec);
    let pd = st.persistent_data;
    let realm = str_or(d1, "realm"@, ""@);
    let slot = str_or(d1, "slotName"@, ""@);
    let realm2 = str_or(d2, "realm"@, ""@);
    let slot2 = str_or(d2, "slotName"@, ""@);
    let slots = match lookup(pd, realm) {
        Some(x) => x,
        None => Seq::empty(),
    };
    lemma_assign_lookup(pd, realm, assign(slots, slot, stored_value(d1)), realm2);
    if realm2 == realm {
        lemma_assign_lookup(slots, slot, stored_value(d1), slot2);
        if lookup(pd, realm) is None {
            lemma_first_index_none(slots, key_is::<JsonView>(slot2));
        }
    }
}

/// After `SetCurrentProgramScene` names an existing scene,
/// `GetCurrentProgramScene` gives that scene and changes nothing.
pub proof fn law_program_scene_read_after_write(
    st: StateView,
    d1: JsonView,
    d2: JsonView,
    f1: Seq<Seq<char>>,
    f2: Seq<Seq<char>>,
    rid: Seq<char>,
)
    requires
        st.scenes.len() <= usize::MAX,
        resolve_scene_spec(st, d1) is Some,
    ensures
        ({
            let scene = st.scenes[resolve_scene_spec(st, d1)->0];
            let s1 = next_state(st, "SetCurrentProgramScene"@, d1, f1);
            &&& response_to(s1, "GetCurrentProgramScene"@, rid, d2, f2)
                == success_view("GetCurrentProgramScene"@, rid, Some(program_scene_view(scene.name, scene.uuid)))
            &&& next_state(s1, "GetCurrentProgramScene"@, d2, f2) == s1
        }),
{
    lemma_request_type_names();
    reveal(handle_spec);
    lemma_resolve_scene_in_range(st, d1);
}

/// After `SetCurrentPreviewScene` names an existing scene,
/// `GetCurrentPreviewScene` gives that scene and changes nothing.
pub proof fn law_preview_scene_read_after_write(
    st: StateView,
    d1: JsonView,
    d2: JsonView,
    f1: Seq<Seq<char>>,
    f2: Seq<Seq<char>>,
    rid: Seq<char>,
)
    requires
        st.scenes.len() <= usize::MAX,
        resolve_scene_spec(st, d1) is Some,
    ensures
        ({
            let scene = st.scenes[resolve_scene_spec(st, d1)->0];
            let s1 = next_state(st, "SetCurrentPreviewScene"@, d1, f1);
            &&& response_to(s1, "GetCurrentPreviewScene"@, rid, d2, f2)
                == success_view("GetCurrentPreviewScene"@, rid, Some(preview_scene_view(scene.name, scene.uuid)))
            &&& next_state(s1, "GetCurrentPreviewScene"@, d2, f2) == s1
        }),
{
    lemma_request_type_names();
    reveal(handle_spec);
    lemma_resolve_scene_in_range(st, d1);
}

/// A scene that request data names is one of the scenes.
pub proof fn lemma_resolve_scene_in_range(st: StateView, d: JsonView)
    ensures
        resolve_scene_spec(st, d) matches Some(i) ==> 0 <= i < st.scenes.len(),
{
    match field_str(d, "sceneName"@) {
        Some(n) => if first_index(st.scenes, scene_named(n)) is Some {
            lemma_first_index_some(st.scenes, scene_named(n));
        },
        None => match field_str(d, "sceneUuid"@) {
            Some(u) => if first_index(st.scenes, scene_with_uuid(u)) is Some {
                lemma_first_index_some(st.scenes, scene_with_uuid(u));
            },
            None => {},
        },
    }
}

/// After `SetInputMute` sets the mute of an input, `GetInputMute` of that
/// input gives it back.
pub proof fn law_input_mute_read_after_write(
    st: StateView,
    d1: JsonView,
    d2: JsonView,
    f1: Seq<Seq<char>>,
    f2: Seq<Seq<char>>,
    rid: Seq<char>,
)
    requires
        resolve_input_spec(st, d1) is Some,
        resolve_input_spec(st, d2) == resolve_input_spec(st, d1),
        field_bool(d1, "inputMuted"@) is Some,
    ensures
        response_to(next_state(st, "SetInputMute"@, d1, f1), "GetInputMute"@, rid, d2, f2)
            == success_view("GetInputMute"@, rid, Some(input_mute_view(field_bool(d1, "inputMuted"@)->0))),
{
    lemma_request_type_names();
    reveal(handle_spec);
    let s1 = next_state(st, "SetInputMute"@, d1, f1);
    let i = resolve_input_spec(st, d1)->0;
    lemma_resolve_input_in_range(st, d1);
    assert(s1.inputs.len() == st.inputs.len());
    assert forall|k: int| 0 <= k < st.inputs.len() implies s1.inputs[k].name == st.inputs[k].name
        && s1.inputs[k].uuid == st.inputs[k].uuid by {}
    lemma_resolve_input_same_names(st, s1, d2);
}

/// An input that request data names is one of the inputs.
pub proof fn lemma_resolve_input_in_range(st: StateView, d: JsonView)
    ensures
        resolve_input_spec(st, d) matches Some(i) ==> 0 <= i < st.inputs.len(),
{
    match field_str(d, "inputName"@) {
        Some(n) => if first_index(st.inputs, input_named(n)) is Some {
            lemma_first_index_some(st.inputs, input_named(n));
        },
        None => match field_str(d, "inputUuid"@) {
            Some(u) => if first_index(st.inputs, input_with_uuid(u)) is Some {
                lemma_first_index_some(st.inputs, input_with_uuid(u));
            },
            None => {},
        },
    }
}

/// After `SetStudioModeEnabled` sets studio mode, `GetStudioModeEnabled`
/// gives it back.
pub proof fn law_studio_mode_read_after_write(
    st: StateView,
    d1: JsonView,
    d2: JsonView,
    f1: Seq<Seq<char>>,
    f2: Seq<Seq<char>>,
    rid: Seq<char>,
)
    requires
        field_bool(d1, "studioModeEnabled"@) is Some,
    ensures
        response_to(next_state(st, "SetStudioModeEnabled"@, d1, f1), "GetStudioModeEnabled"@, rid, d2, f2)
            == success_view("GetStudioModeEnabled"@, rid, Some(studio_mode_view(field_bool(d1, "studioModeEnabled"@)->0))),
{
    lemma_request_type_names();
    reveal(handle_spec);
}

/// A request that fails answers with status 600 and leaves the state as it
/// was.
pub proof fn law_failure_changes_nothing(st: StateView, rt: Seq<char>, data: JsonView, fresh: Seq<Seq<char>>)
    ensures
        handle_spec(st, rt, data, fresh).1 matches OutcomeView::Failure(code, _) ==> code == 600
            && next_state(st, rt, data, fresh) == st,
{
    reveal(handle_spec);
}

/// Every response names the request's type and id; it succeeds exactly when
/// its status code is 100, and exactly when it carries no comment; a failed
/// response carries no data.
pub proof fn law_response_shape(st: StateView, rt: Seq<char>, rid: Seq<char>, data: JsonView, fresh: Seq<Seq<char>>)
    ensures
        ({
            let r = response_to(st, rt, rid, data, fresh);
            &&& r.request_type == rt
            &&& r.request_id == rid
            &&& r.result <==> r.code == 100
            &&& r.result <==> r.comment is None
            &&& !r.result ==> r.data is None
        }),
{
    law_failure_changes_nothing(st, rt, data, fresh);
}

/// `SetInputSettings` with overlay (the default) merges the new settings
/// into the old ones: afterwards `GetInputSettings` of that input gives, under
/// each key, the new value where the new settings hold the key and the old
/// value otherwise.
pub proof fn law_input_settings_overlay(
    st: StateView,
    d1: JsonView,
    d2: JsonView,
    f1: Seq<Seq<char>>,
    f2: Seq<Seq<char>>,
    rid: Seq<char>,
    old_settings: Entries,
    new_settings: Entries,
)
    requires
        resolve_input_spec(st, d1) is Some,
        resolve_input_spec(st, d2) == resolve_input_spec(st, d1),
        st.inputs[resolve_input_spec(st, d1)->0].settings == JsonView::Object(old_settings),
        get_field(d1, "inputSettings"@) == Some(JsonView::Object(new_settings)),
        keys_unique(new_settings),
        field_bool(d1, "overlay"@) != Some(false),
    ensures
        ({
            let merged = assign_all(old_settings, new_settings);
            &&& response_to(next_state(st, "SetInputSettings"@, d1, f1), "GetInputSettings"@, rid, d2, f2)
                == success_view(
                "GetInputSettings"@,
                rid,
                Some(input_settings_view(JsonView::Object(merged), st.inputs[resolve_input_spec(st, d1)->0].kind)),
            )
            &&& forall|k: Seq<char>| #[trigger] lookup(merged, k) == match lookup(new_settings, k) {
                Some(v) => Some(v),
                None => lookup(old_settings, k),
            }
        }),
{
    lemma_request_type_names();
    reveal(handle_spec);
    let s1 = next_state(st, "SetInputSettings"@, d1, f1);
    lemma_resolve_input_in_range(st, d1);
    assert(s1.inputs.len() == st.inputs.len());
    assert forall|k: int| 0 <= k < st.inputs.len() implies s1.inputs[k].name == st.inputs[k].name
        && s1.inputs[k].uuid == st.inputs[k].uuid by {}
    lemma_resolve_input_same_names(st, s1, d2);
    assert forall|k: Seq<char>| #[trigger] lookup(assign_all(old_settings, new_settings), k) == match lookup(
        new_settings,
        k,
    ) {
        Some(v) => Some(v),
        None => lookup(old_settings, k),
    } by {
        lemma_assign_all_lookup(old_settings, new_settings, k);
    }
}

/// `SetInputSettings` without overlay replaces the settings: afterwards
/// `GetInputSettings` of that input gives the new settings.
pub proof fn law_input_settings_replace(
    st: StateView,
    d1: JsonView,
    d2: JsonView,
    f1: Seq<Seq<char>>,
    f2: Seq<Seq<char>>,
    rid: Seq<char>,
)
    requires
        resolve_input_spec(st, d1) is Some,
        resolve_input_spec(st, d2) == resolve_input_spec(st, d1),
        get_field(d1, "inputSettings"@) is Some,
        field_bool(d1, "overlay"@) == Some(false),
    ensures
        response_to(next_state(st, "SetInputSettings"@, d1, f1), "GetInputSettings"@, rid, d2, f2)
            == success_view(
            "GetInputSettings"@,
            rid,
            Some(
                input_settings_view(
                    get_field(d1, "inputSettings"@)->0,
                    st.inputs[resolve_input_spec(st, d1)->0].kind,
                ),
            ),
        ),
{
    lemma_request_type_names();
    reveal(handle_spec);
    let s1 = next_state(st, "SetInputSettings"@, d1, f1);
    lemma_resolve_input_in_range(st, d1);
    assert(s1.inputs.len() == st.inputs.len());
    assert forall|k: int| 0 <= k < st.inputs.len() implies s1.inputs[k].name == st.inputs[k].name
        && s1.inputs[k].uuid == st.inputs[k].uuid by {}
    lemma_resolve_input_same_names(st, s1, d2);
}

/// In a batch, response `i` answers request `i`: it names that request's
/// type and id. There are never more responses than requests, and without
/// `haltOnFailure` a batch that completes answers every request, whether it
/// failed or not.
pub proof fn law_batch_answers_in_order(
    st: StateView,
    reqs: Seq<RequestView>,
    halt: bool,
    fresh: Seq<Seq<Seq<char>>>,
)
    ensures
        ({
            let run = batch_run(st, reqs, halt, fresh);
            &&& run.1.len() <= reqs.len()
            &&& forall|i: int|
                0 <= i < run.1.len() ==> (#[trigger] run.1[i]).request_type == reqs[i].request_type
                    && run.1[i].request_id == reqs[i].request_id
            &&& !halt && run.2 ==> run.1.len() == reqs.len()
        }),
    decreases reqs.len(),
{
    if reqs.len() > 0 {
        let r = reqs[0];
        let d = request_data(r);
        if can_handle(st, r.request_type, d) {
            let next = next_state(st, r.request_type, d, fresh[0]);
            let resp = response_to(st, r.request_type, r.request_id, d, fresh[0]);
            law_response_shape(st, r.request_type, r.request_id, d, fresh[0]);
            if !(halt && !resp.result) {
                law_batch_answers_in_order(next, reqs.drop_first(), halt, fresh.drop_first());
                let rest = batch_run(next, reqs.drop_first(), halt, fresh.drop_first());
                let all = seq![resp] + rest.1;
                assert forall|i: int| 0 <= i < all.len() implies (#[trigger] all[i]).request_type
                    == reqs[i].request_type && all[i].request_id == reqs[i].request_id by {
                    if i > 0 {
                        assert(all[i] == rest.1[i - 1]);
                        assert(reqs.drop_first()[i - 1] == reqs[i]);
                    }
                }
            }
        }
    }
}

/// With `haltOnFailure`, every response but the last is a success, and a
/// batch that completes with fewer responses than requests stopped at a
/// failure.
pub proof fn law_batch_halts_on_failure(st: StateView, reqs: Seq<RequestView>, fresh: Seq<Seq<Seq<char>>>)
    ensures
        ({
            let run = batch_run(st, reqs, true, fresh);
            &&& forall|i: int| 0 <= i < run.1.len() - 1 ==> (#[trigger] run.1[i]).result
            &&& run.2 && run.1.len() < reqs.len() ==> run.1.len() > 0 && !run.1.last().result
        }),
    decreases reqs.len(),
{
    if reqs.len() > 0 {
        let r = reqs[0];
        let d = request_data(r);
        if can_handle(st, r.request_type, d) {
            let next = next_state(st, r.request_type, d, fresh[0]);
            let resp = response_to(st, r.request_type, r.request_id, d, fresh[0]);
            if resp.result {
                law_batch_halts_on_failure(next, reqs.drop_first(), fresh.drop_first());
                let rest = batch_run(next, reqs.drop_first(), true, fresh.drop_first());
                let all = seq![resp] + rest.1;
                assert forall|i: int| 0 <= i < all.len() - 1 implies (#[trigger] all[i]).result by {
                    if i > 0 {
                        assert(all[i] == rest.1[i - 1]);
                    }
                }
                if rest.1.len() > 0 {
                    assert(all.last() == rest.1.last());
                }
            }
        }
    }
}

/// The expected response to the challenge authenticates; without a password
/// every string does.
pub proof fn law_auth_round_trip(c: AuthConfig, s: Seq<char>)
    ensures
        c.password matches Some(p) ==> accepts(c, auth_response(p@, c.salt@, c.challenge@)),
        c.password is None ==> accepts(c, s),
{
}

/// Before identification, an `Identify` with the right authentication (any,
/// where there is no password) identifies the client, answered with the
/// smaller of its RPC version and ours; with a wrong one it closes the
/// connection. Every other message is ignored, and the state is untouched.
pub proof fn law_handshake(auth: AuthConfig, st: StateView, op: u8, d: JsonView, fresh: Seq<Seq<Seq<char>>>)
    ensures
        ({
            let (phase, after, action) = session_step(Phase::AwaitingIdentify, auth, st, op, d, fresh);
            &&& after == st
            &&& op != OP_IDENTIFY || identify_from(d) is None ==> phase == Phase::AwaitingIdentify
                && action == ActionView::Ignore
            &&& op == OP_IDENTIFY ==> (identify_from(d) matches Some(id) ==> {
                let given = match id.authentication {
                    Some(a) => a,
                    None => ""@,
                };
                if accepts(auth, given) {
                    phase == Phase::Identified && action == ActionView::Send(
                        OP_IDENTIFIED,
                        identified_json(min_version(id.rpc_version, RPC_VERSION)),
                    )
                } else {
                    phase == Phase::Closed && action == ActionView::Close
                }
            })
        }),
{
}

/// Once identified, a request is answered as `handle_spec` says, `Reidentify`
/// is answered with our RPC version, and a closed connection ignores
/// everything.
pub proof fn law_identified_session(
    auth: AuthConfig,
    st: StateView,
    op: u8,
    d: JsonView,
    fresh: Seq<Seq<Seq<char>>>,
)
    ensures
        ({
            let (phase, after, action) = session_step(Phase::Identified, auth, st, op, d, fresh);
            &&& op == OP_REQUEST ==> (request_from(d) matches Some(r) ==> (can_handle(
                st,
                r.request_type,
                request_data(r),
            ) ==> phase == Phase::Identified && after == next_state(st, r.request_type, request_data(r), fresh[0])
                && action == ActionView::Send(
                OP_REQUEST_RESPONSE,
                response_json(response_to(st, r.request_type, r.request_id, request_data(r), fresh[0])),
            )))
            &&& op == OP_REIDENTIFY ==> phase == Phase::Identified && after == st && action == ActionView::Send(
                OP_IDENTIFIED,
                identified_json(RPC_VERSION),
            )
        }),
        session_step(Phase::Closed, auth, st, op, d, fresh) == (Phase::Closed, st, ActionView::Ignore),
{
}

/// No two scene items, in the same scene or in different scenes, share an id.
pub open spec fn item_ids_unique(scenes: Seq<SceneView>) -> bool {
    forall|a: int, i: int, b: int, j: int|
        0 <= a < scenes.len() && 0 <= i < scenes[a].items.len() && 0 <= b < scenes.len() && 0 <= j
            < scenes[b].items.len() && (a != b || i != j) ==> #[trigger] scenes[a].items[i].id
            != #[trigger] scenes[b].items[j].id
}

/// Replacing the items of scene `s` with items whose ids are those of the old
/// items at distinct positions keeps the ids unique.
proof fn lemma_ids_reindex(scenes: Seq<SceneView>, s: int, items: Seq<SceneItemView>, from: spec_fn(int) -> int)
    requires
        item_ids_unique(scenes),
        0 <= s < scenes.len(),
        forall|p: int| 0 <= p < items.len() ==> 0 <= #[trigger] from(p) < scenes[s].items.len(),
        forall|p: int| 0 <= p < items.len() ==> (#[trigger] items[p]).id == scenes[s].items[from(p)].id,
        forall|p: int, q: int| 0 <= p < items.len() && 0 <= q < items.len() && p != q ==> #[trigger] from(p) != #[trigger] from(q),
    ensures
        item_ids_unique(scenes.update(s, SceneView { items, ..scenes[s] })),
{
    let after = scenes.update(s, SceneView { items, ..scenes[s] });
    assert forall|a: int, i: int, b: int, j: int|
        0 <= a < after.len() && 0 <= i < after[a].items.len() && 0 <= b < after.len() && 0 <= j < after[b].items.len()
            && (a != b || i != j) implies #[trigger] after[a].items[i].id != #[trigger] after[b].items[j].id by {
        let ia = if a == s { from(i) } else { i };
        let jb = if b == s { from(j) } else { j };
        assert(after[a].items[i].id == scenes[a].items[ia].id);
        assert(after[b].items[j].id == scenes[b].items[jb].id);
    }
}

/// Adding an item whose id is above every id keeps the ids unique.
proof fn lemma_ids_push_item(scenes: Seq<SceneView>, s: int, item: SceneItemView)
    requires
        item_ids_unique(scenes),
        0 <= s < scenes.len(),
        item.id > max_scene_item_id(scenes),
    ensures
        item_ids_unique(scenes.update(s, SceneView { items: scenes[s].items.push(item), ..scenes[s] })),
{
    lemma_max_scene_item_id(scenes);
    let after = scenes.update(s, SceneView { items: scenes[s].items.push(item), ..scenes[s] });
    assert forall|a: int, i: int, b: int, j: int|
        0 <= a < after.len() && 0 <= i < after[a].items.len() && 0 <= b < after.len() && 0 <= j < after[b].items.len()
            && (a != b || i != j) implies #[trigger] after[a].items[i].id != #[trigger] after[b].items[j].id by {
        let n = scenes[s].items.len() as int;
        if a == s && i == n {
            assert(after[b].items[j] == scenes[b].items[j]);
        } else if b == s && j == n {
            assert(after[a].items[i] == scenes[a].items[i]);
        } else {
            assert(after[a].items[i] == scenes[a].items[i]);
            assert(after[b].items[j] == scenes[b].items[j]);
        }
    }
}

/// Removing a scene keeps the ids unique.
proof fn lemma_ids_remove_scene(scenes: Seq<SceneView>, s: int)
    requires
        item_ids_unique(scenes),
        0 <= s < scenes.len(),
    ensures
        item_ids_unique(scenes.remove(s)),
{
    let after = scenes.remove(s);
    assert forall|a: int, i: int, b: int, j: int|
        0 <= a < after.len() && 0 <= i < after[a].items.len() && 0 <= b < after.len() && 0 <= j < after[b].items.len()
            && (a != b || i != j) implies #[trigger] after[a].items[i].id != #[trigger] after[b].items[j].id by {
        let a0 = if a < s { a } else { a + 1 };
        let b0 = if b < s { b } else { b + 1 };
        assert(after[a] == scenes[a0]);
        assert(after[b] == scenes[b0]);
    }
}

/// Adding a scene without items, or renaming one, keeps the ids unique.
proof fn lemma_ids_same_items(scenes: Seq<SceneView>, after: Seq<SceneView>)
    requires
        item_ids_unique(scenes),
        scenes.len() <= after.len(),
        forall|a: int| 0 <= a < scenes.len() ==> (#[trigger] after[a]).items == scenes[a].items,
        forall|a: int| scenes.len() <= a < after.len() ==> (#[trigger] after[a]).items.len() == 0,
    ensures
        item_ids_unique(after),
{
    assert forall|a: int, i: int, b: int, j: int|
        0 <= a < after.len() && 0 <= i < after[a].items.len() && 0 <= b < after.len() && 0 <= j < after[b].items.len()
            && (a != b || i != j) implies #[trigger] after[a].items[i].id != #[trigger] after[b].items[j].id by {
        if a >= scenes.len() {
            assert(after[a].items.len() == 0);
        }
        if b >= scenes.len() {
            assert(after[b].items.len() == 0);
        }
        assert(scenes[a].items[i].id != scenes[b].items[j].id);
    }
}

/// Every request keeps scene item ids unique: a created or duplicated item
/// gets an id above all others, and no other request gives an item a new id.
pub proof fn law_item_ids_stay_unique(st: StateView, rt: Seq<char>, data: JsonView, fresh: Seq<Seq<char>>)
    requires
        item_ids_unique(st.scenes),
        can_handle(st, rt, data),
    ensures
        item_ids_unique(next_state(st, rt, data, fresh).scenes),
{
    reveal(handle_spec);
    lemma_other_groups_keep_scenes(st, rt, data, fresh);
    lemma_scene_group_ids(st, rt, data, fresh);
    if let Some(x) = items_spec(st, rt, data, fresh) {
        if let Some(s) = resolve_scene_spec(st, data) {
            lemma_resolve_scene_in_range(st, data);
            lemma_scene_item_request_ids(st, s, rt, data, fresh);
        }
    }
}

/// The groups of requests other than those on scenes and scene items leave
/// the scenes as they are.
proof fn lemma_other_groups_keep_scenes(st: StateView, rt: Seq<char>, data: JsonView, fresh: Seq<Seq<char>>)
    ensures
        general_spec(st, rt, data, fresh) matches Some(x) ==> x.0.scenes == st.scenes,
        config_spec(st, rt, data) matches Some(x) ==> x.0.scenes == st.scenes,
        inputs_spec(st, rt, data, fresh) matches Some(x) ==> x.0.scenes == st.scenes,
        outputs_spec(st, rt) matches Some(x) ==> x.0.scenes == st.scenes,
{
}

/// The requests on scenes keep scene item ids unique.
proof fn lemma_scene_group_ids(st: StateView, rt: Seq<char>, data: JsonView, fresh: Seq<Seq<char>>)
    requires
        item_ids_unique(st.scenes),
    ensures
        scenes_spec(st, rt, data, fresh) matches Some(x) ==> item_ids_unique(x.0.scenes),
{
    let scene = SceneView { name: str_or(data, "sceneName"@, "New Scene"@), uuid: fresh[0], items: Seq::empty() };
    lemma_ids_same_items(st.scenes, st.scenes.push(scene));
    if let Some(i) = resolve_scene_spec(st, data) {
        lemma_resolve_scene_in_range(st, data);
        lemma_ids_remove_scene(st.scenes, i);
        if let Some(n) = field_str(data, "newSceneName"@) {
            lemma_ids_same_items(st.scenes, st.scenes.update(i, SceneView { name: n, ..st.scenes[i] }));
        }
    }
}

/// The item requests on the scene at `s` keep scene item ids unique.
proof fn lemma_scene_item_request_ids(st: StateView, s: int, rt: Seq<char>, data: JsonView, fresh: Seq<Seq<char>>)
    requires
        item_ids_unique(st.scenes),
        0 <= s < st.scenes.len(),
        is_scene_item_request(rt),
        item_needs_next_id(st, s, rt, data) ==> max_scene_item_id(st.scenes) < u32::MAX,
    ensures
        item_ids_unique(scene_request_spec(st, s, rt, data, fresh).0.scenes),
{
    lemma_request_type_names();
    let items = st.scenes[s].items;
    let after = scene_request_spec(st, s, rt, data, fresh).0.scenes;
    if rt == "CreateSceneItem"@ {
        let id = (max_scene_item_id(st.scenes) + 1) as u32;
        lemma_ids_push_item(st.scenes, s, after[s].items.last());
        assert(after =~= st.scenes.update(s, SceneView { items: items.push(after[s].items.last()), ..st.scenes[s] }));
    } else if rt == "GetSceneItemList"@ || rt == "GetGroupSceneItemList"@ || rt == "GetSceneItemId"@ {
    } else if let Some(j) = first_index(items, item_with_id(item_id_of(data))) {
        lemma_first_index_some(items, item_with_id(item_id_of(data)));
        if rt == "RemoveSceneItem"@ {
            let from = |p: int| if p < j { p } else { p + 1 };
            assert forall|p: int| 0 <= p < items.remove(j).len() implies (#[trigger] items.remove(j)[p]).id
                == items[from(p)].id by {}
            lemma_ids_reindex(st.scenes, s, items.remove(j), from);
        } else if rt == "SetSceneItemIndex"@ {
            let rest = items.remove(j);
            let new_index = (match field_u64(data, "sceneItemIndex"@) {
                Some(n) => n,
                None => 0,
            }) as usize;
            let at = if new_index < rest.len() { new_index as int } else { rest.len() as int };
            let moved = rest.insert(at, items[j]);
            let from = |p: int|
                if p < at {
                    if p < j { p } else { p + 1 }
                } else if p == at {
                    j
                } else {
                    if p - 1 < j { p - 1 } else { p }
                };
            assert forall|p: int| 0 <= p < moved.len() implies (#[trigger] moved[p]).id == items[from(p)].id by {
                if p > at {
                    assert(moved[p] == rest[p - 1]);
                } else if p < at {
                    assert(moved[p] == rest[p]);
                }
            }
            lemma_ids_reindex(st.scenes, s, moved, from);
        } else if rt == "DuplicateSceneItem"@ {
            let d = duplicate_destination(st, s, data);
            if let Some(n) = field_str(data, "destinationSceneName"@) {
                if first_index(st.scenes, scene_named(n)) is Some {
                    lemma_first_index_some(st.scenes, scene_named(n));
                }
            }
            lemma_ids_push_item(st.scenes, d, after[d].items.last());
            assert(after =~= st.scenes.update(d, SceneView { items: st.scenes[d].items.push(after[d].items.last()), ..st.scenes[d] }));
        } else if rt == "SetSceneItemTransform"@ || rt == "SetSceneItemEnabled"@ || rt == "SetSceneItemLocked"@
            || rt == "SetSceneItemBlendMode"@ {
            let from = |p: int| p;
            let changed = after[s].items;
            assert forall|p: int| 0 <= p < changed.len() implies (#[trigger] changed[p]).id == items[from(p)].id by {}
            lemma_ids_reindex(st.scenes, s, changed, from);
            assert(after =~= st.scenes.update(s, SceneView { items: changed, ..st.scenes[s] }));
        }
    }
}

/// The initial state gives its scene items distinct ids.
pub proof fn law_initial_item_ids_unique(ids: Seq<Seq<char>>)
    ensures
        item_ids_unique(initial_state(ids).scenes),
{
    let scenes = initial_state(ids).scenes;
    let base = seq![0int, 3, 6, 8, 11, 13];
    assert forall|a: int, i: int| 0 <= a < scenes.len() && 0 <= i < scenes[a].items.len() implies base[a] < #[trigger] scenes[a].items[i].id <= base[a + 1] && scenes[a].items[i].id == base[a] + i + 1 by {}
}

/// The program and preview scenes each name a scene, or are the first
/// position; so wherever there is a scene at all, they name scenes.
pub open spec fn current_scenes_valid(st: StateView) -> bool {
    &&& st.current_program_scene < st.scenes.len() || st.current_program_scene == 0
    &&& st.current_preview_scene < st.scenes.len() || st.current_preview_scene == 0
}

/// The initial state's program and preview scenes name scenes, and its
/// persistent data is empty.
pub proof fn law_initial_state_valid(ids: Seq<Seq<char>>)
    ensures
        current_scenes_valid(initial_state(ids)),
        persistent_keys_unique(initial_state(ids).persistent_data),
{
}

/// Every request keeps the program and preview scenes naming scenes wherever
/// there are scenes: a removed scene that they named sends them to the first
/// scene, and only an existing scene can be made current. So a listing of the
/// current scenes can fail to be answered only once every scene is gone.
pub proof fn law_current_scenes_stay_valid(st: StateView, rt: Seq<char>, data: JsonView, fresh: Seq<Seq<char>>)
    requires
        current_scenes_valid(st),
        st.scenes.len() <= usize::MAX,
    ensures
        current_scenes_valid(next_state(st, rt, data, fresh)),
        next_state(st, rt, data, fresh).scenes.len() > 0 ==> current_scenes_exist(next_state(st, rt, data, fresh)),
{
    reveal(handle_spec);
    lemma_other_groups_keep_scenes(st, rt, data, fresh);
    lemma_other_groups_keep_current_scenes(st, rt, data, fresh);
    lemma_resolve_scene_in_range(st, data);
    if let Some(x) = items_spec(st, rt, data, fresh) {
        if let Some(s) = resolve_scene_spec(st, data) {
            lemma_scene_item_request_keeps_positions(st, s, rt, data, fresh);
        }
    }
}

/// The groups of requests other than those on scenes and scene items leave
/// the program and preview scenes as they are.
proof fn lemma_other_groups_keep_current_scenes(st: StateView, rt: Seq<char>, data: JsonView, fresh: Seq<Seq<char>>)
    ensures
        general_spec(st, rt, data, fresh) matches Some(x) ==> x.0.current_program_scene == st.current_program_scene
            && x.0.current_preview_scene == st.current_preview_scene,
        config_spec(st, rt, data) matches Some(x) ==> x.0.current_program_scene == st.current_program_scene
            && x.0.current_preview_scene == st.current_preview_scene,
        inputs_spec(st, rt, data, fresh) matches Some(x) ==> x.0.current_program_scene == st.current_program_scene
            && x.0.current_preview_scene == st.current_preview_scene,
        outputs_spec(st, rt) matches Some(x) ==> x.0.current_program_scene == st.current_program_scene
            && x.0.current_preview_scene == st.current_preview_scene,
{
}

/// The requests on the items of the scene at `s` keep the number of scenes
/// and the program and preview scenes.
proof fn lemma_scene_item_request_keeps_positions(
    st: StateView,
    s: int,
    rt: Seq<char>,
    data: JsonView,
    fresh: Seq<Seq<char>>,
)
    requires
        0 <= s < st.scenes.len(),
    ensures
        ({
            let after = scene_request_spec(st, s, rt, data, fresh).0;
            &&& after.scenes.len() == st.scenes.len()
            &&& after.current_program_scene == st.current_program_scene
            &&& after.current_preview_scene == st.current_preview_scene
        }),
{
    if let Some(n) = field_str(data, "destinationSceneName"@) {
        if first_index(st.scenes, scene_named(n)) is Some {
            lemma_first_index_some(st.scenes, scene_named(n));
        }
    }
    if let Some(j) = first_index(st.scenes[s].items, item_with_id(item_id_of(data))) {
        lemma_first_index_some(st.scenes[s].items, item_with_id(item_id_of(data)));
    }
}

/// No two entries share a key.
pub open spec fn distinct_keys<V>(es: Seq<(Seq<char>, V)>) -> bool {
    forall|i: int, j: int| 0 <= i < es.len() && 0 <= j < es.len() && i != j ==> #[trigger] es[i].0 != #[trigger] es[j].0
}

/// Persistent data holds each realm once, and each slot once in its realm.
pub open spec fn persistent_keys_unique(pd: Seq<(Seq<char>, Entries)>) -> bool {
    &&& distinct_keys(pd)
    &&& forall|i: int| 0 <= i < pd.len() ==> distinct_keys(#[trigger] pd[i].1)
}

/// An assignment keeps keys distinct.
proof fn lemma_assign_keeps_keys_distinct<V>(es: Seq<(Seq<char>, V)>, k: Seq<char>, v: V)
    requires
        distinct_keys(es),
    ensures
        distinct_keys(assign(es, k, v)),
        forall|i: int| 0 <= i < es.len() ==> #[trigger] assign(es, k, v)[i] == es[i] || assign(es, k, v)[i] == (k, v),
        assign(es, k, v).len() == es.len() || assign(es, k, v) == es.push((k, v)),
{
    let p = key_is::<V>(k);
    match first_index(es, p) {
        Some(i) => {
            lemma_first_index_some(es, p);
        },
        None => {
            lemma_first_index_none_all(es, p);
            let after = es.push((k, v));
            assert forall|a: int, b: int| 0 <= a < after.len() && 0 <= b < after.len() && a != b implies #[trigger] after[a].0
                != #[trigger] after[b].0 by {
                if a == es.len() {
                    assert(!p(es[b]));
                } else if b == es.len() {
                    assert(!p(es[a]));
                }
            }
        },
    }
}

/// Every request keeps each realm and each slot of persistent data unique.
pub proof fn law_persistent_keys_stay_unique(st: StateView, rt: Seq<char>, data: JsonView, fresh: Seq<Seq<char>>)
    requires
        persistent_keys_unique(st.persistent_data),
    ensures
        persistent_keys_unique(next_state(st, rt, data, fresh).persistent_data),
{
    reveal(handle_spec);
    lemma_other_groups_keep_persistent_data(st, rt, data, fresh);
    let pd = st.persistent_data;
    let realm = str_or(data, "realm"@, ""@);
    let slot = str_or(data, "slotName"@, ""@);
    let slots = match lookup(pd, realm) {
        Some(x) => x,
        None => Seq::empty(),
    };
    if let Some(i) = first_index(pd, key_is::<Entries>(realm)) {
        lemma_first_index_some(pd, key_is::<Entries>(realm));
        assert(slots == pd[i].1);
    }
    lemma_assign_keeps_keys_distinct(slots, slot, stored_value(data));
    let new_slots = assign(slots, slot, stored_value(data));
    lemma_assign_keeps_keys_distinct(pd, realm, new_slots);
    let after = assign(pd, realm, new_slots);
    assert forall|i: int| 0 <= i < after.len() implies distinct_keys(#[trigger] after[i].1) by {
        if i < pd.len() {
            assert(after[i] == pd[i] || after[i] == (realm, new_slots));
        } else {
            assert(after == pd.push((realm, new_slots)));
        }
    }
    assert(store_persistent(pd, realm, slot, stored_value(data)) == after);
}

/// The groups of requests other than those on configuration leave persistent
/// data as it is.
proof fn lemma_other_groups_keep_persistent_data(st: StateView, rt: Seq<char>, data: JsonView, fresh: Seq<Seq<char>>)
    ensures
        general_spec(st, rt, data, fresh) matches Some(x) ==> x.0.persistent_data == st.persistent_data,
        scenes_spec(st, rt, data, fresh) matches Some(x) ==> x.0.persistent_data == st.persistent_data,
        inputs_spec(st, rt, data, fresh) matches Some(x) ==> x.0.persistent_data == st.persistent_data,
        items_spec(st, rt, data, fresh) matches Some(x) ==> x.0.persistent_data == st.persistent_data,
        outputs_spec(st, rt) matches Some(x) ==> x.0.persistent_data == st.persistent_data,
        config_spec(st, rt, data) matches Some(x) ==> x.0.persistent_data == st.persistent_data || rt
            == "SetPersistentData"@,
{
}

/// Sound scenes: scene item ids are unique, and the program and preview
/// scenes name scenes.
pub open spec fn scenes_sound(st: StateView) -> bool {
    &&& item_ids_unique(st.scenes)
    &&& current_scenes_exist(st)
}

/// A sound state: its scenes are sound, and persistent realms and slots each
/// occur once.
pub open spec fn state_sound(st: StateView) -> bool {
    &&& scenes_sound(st)
    &&& persistent_keys_unique(st.persistent_data)
}

/// The initial state is sound, with item ids far below the largest.
pub proof fn law_initial_state_sound(ids: Seq<Seq<char>>)
    ensures
        state_sound(initial_state(ids)),
        max_scene_item_id(initial_state(ids).scenes) < u32::MAX,
{
    law_initial_item_ids_unique(ids);
    lemma_max_bound(initial_state(ids).scenes);
}

/// The largest item id of the initial scenes is 13.
proof fn lemma_max_bound(scenes: Seq<SceneView>)
    requires
        forall|a: int, i: int| 0 <= a < scenes.len() && 0 <= i < scenes[a].items.len() ==> #[trigger] scenes[a].items[i].id <= 13,
    ensures
        max_scene_item_id(scenes) <= 13,
    decreases scenes.len(),
{
    if scenes.len() > 0 {
        let rest = scenes.drop_last();
        assert forall|a: int, i: int| 0 <= a < rest.len() && 0 <= i < rest[a].items.len() implies #[trigger] rest[a].items[i].id <= 13 by {
            assert(rest[a] == scenes[a]);
        }
        lemma_max_bound(rest);
        lemma_max_item_bound(scenes.last().items);
    }
}

/// The largest id of items whose ids are at most 13 is at most 13.
proof fn lemma_max_item_bound(items: Seq<SceneItemView>)
    requires
        forall|i: int| 0 <= i < items.len() ==> (#[trigger] items[i]).id <= 13,
    ensures
        max_item_id(items) <= 13,
    decreases items.len(),
{
    if items.len() > 0 {
        let rest = items.drop_last();
        assert forall|i: int| 0 <= i < rest.len() implies (#[trigger] rest[i]).id <= 13 by {
            assert(rest[i] == items[i]);
        }
        lemma_max_item_bound(rest);
    }
}

/// Sound scenes whose item ids are below the largest `u32` can answer every
/// request, and stay sound, except for removing the last scene: then the
/// program and preview scenes name nothing.
pub proof fn law_sound_scenes_stay_sound(st: StateView, rt: Seq<char>, data: JsonView, fresh: Seq<Seq<char>>)
    requires
        scenes_sound(st),
        st.scenes.len() <= usize::MAX,
        max_scene_item_id(st.scenes) < u32::MAX,
        !(rt == "RemoveScene"@ && st.scenes.len() == 1 && resolve_scene_spec(st, data) is Some),
    ensures
        can_handle(st, rt, data),
        scenes_sound(next_state(st, rt, data, fresh)),
{
    law_item_ids_stay_unique(st, rt, data, fresh);
    law_current_scenes_stay_valid(st, rt, data, fresh);
    lemma_scene_count(st, rt, data, fresh);
}

/// A sound state stays sound under the same conditions: its scenes as above,
/// and its persistent data under every request.
pub proof fn law_sound_state_stays_sound(st: StateView, rt: Seq<char>, data: JsonView, fresh: Seq<Seq<char>>)
    requires
        state_sound(st),
        st.scenes.len() <= usize::MAX,
        max_scene_item_id(st.scenes) < u32::MAX,
        !(rt == "RemoveScene"@ && st.scenes.len() == 1 && resolve_scene_spec(st, data) is Some),
    ensures
        can_handle(st, rt, data),
        state_sound(next_state(st, rt, data, fresh)),
{
    law_sound_scenes_stay_sound(st, rt, data, fresh);
    law_persistent_keys_stay_unique(st, rt, data, fresh);
}

/// Only removing a scene takes one away, and then just one.
pub proof fn lemma_scene_count(st: StateView, rt: Seq<char>, data: JsonView, fresh: Seq<Seq<char>>)
    ensures
        next_state(st, rt, data, fresh).scenes.len() >= st.scenes.len() || (rt == "RemoveScene"@
            && resolve_scene_spec(st, data) is Some && next_state(st, rt, data, fresh).scenes.len() == st.scenes.len()
            - 1),
{
    reveal(handle_spec);
    lemma_other_groups_keep_scenes(st, rt, data, fresh);
    lemma_resolve_scene_in_range(st, data);
    if let Some(x) = items_spec(st, rt, data, fresh) {
        if let Some(s) = resolve_scene_spec(st, data) {
            lemma_scene_item_request_keeps_positions(st, s, rt, data, fresh);
        }
    }
}

/// A connection run over a sequence of decoded messages, each an op code and
/// a payload, with `fresh[i]` the fresh UUIDs of message `i`: the phase and
/// state after, and the action for each message in order.
pub open spec fn session_run(
    phase: Phase,
    auth: AuthConfig,
    st: StateView,
    msgs: Seq<(u8, JsonView)>,
    fresh: Seq<Seq<Seq<Seq<char>>>>,
) -> (Phase, StateView, Seq<ActionView>)
    decreases msgs.len(),
{
    if msgs.len() == 0 {
        (phase, st, Seq::empty())
    } else {
        let (p1, s1, a) = session_step(phase, auth, st, msgs[0].0, msgs[0].1, fresh[0]);
        let (p2, s2, rest) = session_run(p1, auth, s1, msgs.drop_first(), fresh.drop_first());
        (p2, s2, seq![a] + rest)
    }
}

/// Whether an action sends a message with op code `op`.
pub open spec fn sends(a: ActionView, op: u8) -> bool {
    a matches ActionView::Send(o, _) && o == op
}

/// On a connection, no response to a request or a batch is sent before
/// `Identified`, and while identification is awaited the state is untouched:
/// a request that comes before identification runs nothing. There is one
/// action per message.
pub proof fn law_responses_follow_identification(
    auth: AuthConfig,
    st: StateView,
    msgs: Seq<(u8, JsonView)>,
    fresh: Seq<Seq<Seq<Seq<char>>>>,
)
    ensures
        ({
            let (phase, after, acts) = session_run(Phase::AwaitingIdentify, auth, st, msgs, fresh);
            &&& acts.len() == msgs.len()
            &&& forall|i: int|
                0 <= i < acts.len() && (sends(#[trigger] acts[i], OP_REQUEST_RESPONSE) || sends(
                    acts[i],
                    OP_REQUEST_BATCH_RESPONSE,
                )) ==> exists|j: int| 0 <= j < i && sends(#[trigger] acts[j], OP_IDENTIFIED)
            &&& phase == Phase::AwaitingIdentify ==> after == st
        }),
{
    lemma_session_run_order(Phase::AwaitingIdentify, auth, st, msgs, fresh);
}

proof fn lemma_session_run_order(
    phase: Phase,
    auth: AuthConfig,
    st: StateView,
    msgs: Seq<(u8, JsonView)>,
    fresh: Seq<Seq<Seq<Seq<char>>>>,
)
    ensures
        ({
            let (p, after, acts) = session_run(phase, auth, st, msgs, fresh);
            &&& acts.len() == msgs.len()
            &&& forall|i: int|
                0 <= i < acts.len() && (sends(#[trigger] acts[i], OP_REQUEST_RESPONSE) || sends(
                    acts[i],
                    OP_REQUEST_BATCH_RESPONSE,
                )) ==> phase == Phase::Identified || exists|j: int| 0 <= j < i && sends(#[trigger] acts[j], OP_IDENTIFIED)
            &&& phase != Phase::Identified && p == Phase::AwaitingIdentify ==> after == st
            &&& p == Phase::AwaitingIdentify ==> phase != Phase::Identified
            &&& phase == Phase::Closed ==> p == Phase::Closed
        }),
    decreases msgs.len(),
{
    if msgs.len() > 0 {
        let (p1, s1, a) = session_step(phase, auth, st, msgs[0].0, msgs[0].1, fresh[0]);
        lemma_session_run_order(p1, auth, s1, msgs.drop_first(), fresh.drop_first());
        let (p2, s2, rest) = session_run(p1, auth, s1, msgs.drop_first(), fresh.drop_first());
        let acts = seq![a] + rest;
        assert(phase != Phase::Identified ==> !sends(a, OP_REQUEST_RESPONSE) && !sends(a, OP_REQUEST_BATCH_RESPONSE)
            && s1 == st);
        assert(phase != Phase::Identified && p1 == Phase::Identified ==> sends(a, OP_IDENTIFIED));
        assert(phase == Phase::Closed ==> p1 == Phase::Closed);
        assert(phase == Phase::Identified ==> p1 != Phase::AwaitingIdentify);
        assert forall|i: int|
            0 <= i < acts.len() && (sends(#[trigger] acts[i], OP_REQUEST_RESPONSE) || sends(
                acts[i],
                OP_REQUEST_BATCH_RESPONSE,
            )) implies phase == Phase::Identified || exists|j: int| 0 <= j < i && sends(#[trigger] acts[j], OP_IDENTIFIED) by {
            if i > 0 && phase != Phase::Identified {
                assert(acts[i] == rest[i - 1]);
                if p1 == Phase::Identified {
                    assert(sends(acts[0], OP_IDENTIFIED));
                } else {
                    let j = choose|j: int| 0 <= j < i - 1 && sends(#[trigger] rest[j], OP_IDENTIFIED);
                    assert(acts[j + 1] == rest[j]);
                }
            }
        }
    }
}

/// The messages that answer responses, in order.
pub open spec fn response_actions(rs: Seq<ResponseView>) -> Seq<ActionView> {
    rs.map_values(|r: ResponseView| ActionView::Send(OP_REQUEST_RESPONSE, response_json(r)))
}

/// The first fresh UUIDs of each message: those of the request it carries.
pub open spec fn request_fresh(fresh: Seq<Seq<Seq<Seq<char>>>>) -> Seq<Seq<Seq<char>>> {
    fresh.map_values(|f: Seq<Seq<Seq<char>>>| f[0])
}

/// On an identified connection, request messages run in the order they come,
/// each on the state that the ones before it left, exactly as a batch without
/// `haltOnFailure` would run them: each gets one response, in order, and the
/// state after is the batch's. This holds where every request can be
/// answered in its turn.
pub proof fn law_requests_run_in_order(
    auth: AuthConfig,
    st: StateView,
    msgs: Seq<(u8, JsonView)>,
    reqs: Seq<RequestView>,
    fresh: Seq<Seq<Seq<Seq<char>>>>,
)
    requires
        msgs.len() == reqs.len(),
        fresh.len() == msgs.len(),
        forall|i: int| 0 <= i < msgs.len() ==> (#[trigger] msgs[i]).0 == OP_REQUEST && request_from(msgs[i].1) == Some(reqs[i]),
        batch_run(st, reqs, false, request_fresh(fresh)).2,
    ensures
        ({
            let run = batch_run(st, reqs, false, request_fresh(fresh));
            session_run(Phase::Identified, auth, st, msgs, fresh) == (Phase::Identified, run.0, response_actions(run.1))
        }),
    decreases msgs.len(),
{
    if msgs.len() == 0 {
        assert(response_actions(Seq::<ResponseView>::empty()) =~= Seq::<ActionView>::empty());
    } else {
        let f = request_fresh(fresh);
        let r = reqs[0];
        let d = request_data(r);
        assert(msgs[0].0 == OP_REQUEST && request_from(msgs[0].1) == Some(reqs[0]));
        let next = next_state(st, r.request_type, d, f[0]);
        let resp = response_to(st, r.request_type, r.request_id, d, f[0]);
        assert(request_fresh(fresh.drop_first()) =~= f.drop_first());
        assert forall|i: int| 0 <= i < msgs.drop_first().len() implies (#[trigger] msgs.drop_first()[i]).0 == OP_REQUEST
            && request_from(msgs.drop_first()[i].1) == Some(reqs.drop_first()[i]) by {
            assert(msgs.drop_first()[i] == msgs[i + 1]);
        }
        law_requests_run_in_order(auth, next, msgs.drop_first(), reqs.drop_first(), fresh.drop_first());
        let rest = batch_run(next, reqs.drop_first(), false, f.drop_first());
        assert(response_actions(seq![resp] + rest.1) =~= seq![ActionView::Send(OP_REQUEST_RESPONSE, response_json(resp))]
            + response_actions(rest.1));
    }
}

/// In the initial state no slot of persistent data has been set:
/// `GetPersistentData` of any slot gives null. With
/// `law_persistent_read_after_write` and `law_persistent_other_slots`, a
/// slot gives the value last stored in it, or null where none was.
pub proof fn law_initial_persistent_data_null(ids: Seq<Seq<char>>, d: JsonView, f: Seq<Seq<char>>, rid: Seq<char>)
    ensures
        response_to(initial_state(ids), "GetPersistentData"@, rid, d, f)
            == success_view("GetPersistentData"@, rid, Some(slot_value_view(JsonView::Null))),
{
    lemma_request_type_names();
    reveal(handle_spec);
    let pd = initial_state(ids).persistent_data;
    lemma_first_index_none(pd, key_is::<Entries>(str_or(d, "realm"@, ""@)));
}

} // verus!
