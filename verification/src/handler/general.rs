//! Requests on the instance at large: version and statistics, vendor
//! requests, sources, transitions, filters, media inputs and the UI.
use vstd::prelude::*;
use crate::handler::{answers, done, done_empty, reply, reply_empty, Outcome, Step};
use crate::handler::payloads::{
    canvas_list, canvas_list_view, current_scene_transition, current_scene_transition_view, filter_default_settings, filter_default_settings_view, filter_kind_list, filter_kind_list_view, filter_list, filter_list_view, hotkey_list, hotkey_list_view, media_input_status, media_input_status_view, monitor_list, monitor_list_view, scene_transition_list, scene_transition_list_view, source_active, source_active_view, source_filter, source_filter_view, source_screenshot, source_screenshot_view, stats, stats_view, studio_mode, studio_mode_view, transition_cursor, transition_cursor_view, transition_kind_list, transition_kind_list_view, vendor_response, vendor_response_view, version, version_view,
};
use crate::json::{field_bool, field_str, field_u64, get_bool, get_field, get_str, get_u64, text, JsonValue, JsonView};
use crate::state::{ObsState, StateView};
use crate::text::str_eq;

verus! {

/// The value under `k`, or `default` where there is none.
pub open spec fn field_or(d: JsonView, k: Seq<char>, default: JsonView) -> JsonView {
    match get_field(d, k) {
        Some(v) => v,
        None => default,
    }
}

/// A copy of the value under `k`, or the empty string where there is none.
fn copy_or_empty_text(d: &JsonValue, k: &str) -> (r: JsonValue)
    ensures
        r.deep() == field_or(d.deep(), k@, JsonView::Str(""@)),
{
    match d.get(k) {
        Some(v) => v.duplicate(),
        None => text(""),
    }
}

/// Requests whose only answer is success without data.
pub open spec fn is_acknowledged(rt: Seq<char>) -> bool {
    ||| rt == "BroadcastCustomEvent"@
    ||| rt == "TriggerHotkeyByName"@
    ||| rt == "TriggerHotkeyByKeySequence"@
    ||| rt == "Sleep"@
    ||| rt == "SaveSourceScreenshot"@
    ||| rt == "SetCurrentSceneTransitionSettings"@
    ||| rt == "TriggerStudioModeTransition"@
    ||| rt == "SetTBarPosition"@
    ||| rt == "CreateSourceFilter"@
    ||| rt == "RemoveSourceFilter"@
    ||| rt == "SetSourceFilterName"@
    ||| rt == "SetSourceFilterIndex"@
    ||| rt == "SetSourceFilterSettings"@
    ||| rt == "SetSourceFilterEnabled"@
    ||| rt == "SetMediaInputCursor"@
    ||| rt == "OffsetMediaInputCursor"@
    ||| rt == "TriggerMediaInputAction"@
    ||| rt == "OpenInputPropertiesDialog"@
    ||| rt == "OpenInputFiltersDialog"@
    ||| rt == "OpenInputInteractDialog"@
    ||| rt == "OpenVideoMixProjector"@
    ||| rt == "OpenSourceProjector"@
}

fn acknowledged(rt: &str) -> (r: bool)
    ensures
        r == is_acknowledged(rt@),
{
    str_eq(rt, "BroadcastCustomEvent") || str_eq(rt, "TriggerHotkeyByName") || str_eq(
        rt,
        "TriggerHotkeyByKeySequence",
    ) || str_eq(rt, "Sleep") || str_eq(rt, "SaveSourceScreenshot") || str_eq(
        rt,
        "SetCurrentSceneTransitionSettings",
    ) || str_eq(rt, "TriggerStudioModeTransition") || str_eq(rt, "SetTBarPosition") || str_eq(
        rt,
        "CreateSourceFilter",
    ) || str_eq(rt, "RemoveSourceFilter") || str_eq(rt, "SetSourceFilterName") || str_eq(
        rt,
        "SetSourceFilterIndex",
    ) || str_eq(rt, "SetSourceFilterSettings") || str_eq(rt, "SetSourceFilterEnabled") || str_eq(
        rt,
        "SetMediaInputCursor",
    ) || str_eq(rt, "OffsetMediaInputCursor") || str_eq(rt, "TriggerMediaInputAction") || str_eq(
        rt,
        "OpenInputPropertiesDialog",
    ) || str_eq(rt, "OpenInputFiltersDialog") || str_eq(rt, "OpenInputInteractDialog") || str_eq(
        rt,
        "OpenVideoMixProjector",
    ) || str_eq(rt, "OpenSourceProjector")
}

/// The general requests; nothing for any other request. `fresh` holds the
/// UUIDs that the transition requests report.
pub open spec fn general_spec(st: StateView, rt: Seq<char>, data: JsonView, fresh: Seq<Seq<char>>) -> Option<Step> {
    if is_acknowledged(rt) {
        reply_empty(st)
    } else if rt == "GetVersion"@ {
        reply(st, version_view())
    } else if rt == "GetStats"@ {
        reply(st, stats_view())
    } else if rt == "GetHotkeyList"@ {
        reply(st, hotkey_list_view())
    } else if rt == "CallVendorRequest"@ {
        reply(
            st,
            vendor_response_view(
                field_or(data, "vendorName"@, JsonView::Str(""@)),
                field_or(data, "requestType"@, JsonView::Str(""@)),
            ),
        )
    } else if rt == "GetSourceActive"@ {
        reply(st, source_active_view())
    } else if rt == "GetSourceScreenshot"@ {
        reply(st, source_screenshot_view())
    } else if rt == "GetTransitionKindList"@ {
        reply(st, transition_kind_list_view())
    } else if rt == "GetSceneTransitionList"@ {
        reply(st, scene_transition_list_view(st.current_transition, fresh[0], fresh[1], fresh[2]))
    } else if rt == "GetCurrentSceneTransition"@ {
        reply(st, current_scene_transition_view(st.current_transition, fresh[0], st.transition_duration as u64))
    } else if rt == "SetCurrentSceneTransition"@ {
        reply_empty(
            match field_str(data, "transitionName"@) {
                Some(n) => StateView { current_transition: n, ..st },
                None => st,
            },
        )
    } else if rt == "SetCurrentSceneTransitionDuration"@ {
        reply_empty(
            match field_u64(data, "transitionDuration"@) {
                Some(d) => StateView { transition_duration: d as u32, ..st },
                None => st,
            },
        )
    } else if rt == "GetCurrentSceneTransitionCursor"@ {
        reply(st, transition_cursor_view())
    } else if rt == "GetSourceFilterKindList"@ {
        reply(st, filter_kind_list_view())
    } else if rt == "GetSourceFilterList"@ {
        reply(st, filter_list_view())
    } else if rt == "GetSourceFilterDefaultSettings"@ {
        reply(st, filter_default_settings_view())
    } else if rt == "GetSourceFilter"@ {
        reply(st, source_filter_view())
    } else if rt == "GetMediaInputStatus"@ {
        reply(st, media_input_status_view())
    } else if rt == "GetStudioModeEnabled"@ {
        reply(st, studio_mode_view(st.studio_mode))
    } else if rt == "SetStudioModeEnabled"@ {
        reply_empty(
            match field_bool(data, "studioModeEnabled"@) {
                Some(b) => StateView { studio_mode: b, ..st },
                None => st,
            },
        )
    } else if rt == "GetMonitorList"@ {
        reply(st, monitor_list_view())
    } else if rt == "GetCanvasList"@ {
        reply(st, canvas_list_view())
    } else {
        None
    }
}

/// Answers the requests that `general_spec` describes.
pub fn handle_general(state: &mut ObsState, rt: &str, data: &JsonValue, fresh: &Vec<String>) -> (r: Option<Outcome>)
    requires
        rt@ == "GetSceneTransitionList"@ ==> fresh.len() >= 3,
        rt@ == "GetCurrentSceneTransition"@ ==> fresh.len() >= 1,
    ensures
        answers(
            r,
            general_spec(old(state)@, rt@, data.deep(), fresh@.map_values(|s: String| s@)),
            old(state)@,
            final(state)@,
        ),
{
    if acknowledged(rt) {
        return Some(done_empty());
    }
    if str_eq(rt, "GetVersion") {
        return Some(done(version()));
    }
    if str_eq(rt, "GetStats") {
        return Some(done(stats()));
    }
    if str_eq(rt, "GetHotkeyList") {
        return Some(done(hotkey_list()));
    }
    if str_eq(rt, "CallVendorRequest") {
        let vendor = copy_or_empty_text(data, "vendorName");
        let request = copy_or_empty_text(data, "requestType");
        return Some(done(vendor_response(vendor, request)));
    }
    if str_eq(rt, "GetSourceActive") {
        return Some(done(source_active()));
    }
    if str_eq(rt, "GetSourceScreenshot") {
        return Some(done(source_screenshot()));
    }
    if str_eq(rt, "GetTransitionKindList") {
        return Some(done(transition_kind_list()));
    }
    if str_eq(rt, "GetSceneTransitionList") {
        return Some(
            done(
                scene_transition_list(
                    state.current_transition.as_str(),
                    fresh[0].as_str(),
                    fresh[1].as_str(),
                    fresh[2].as_str(),
                ),
            ),
        );
    }
    if str_eq(rt, "GetCurrentSceneTransition") {
        return Some(
            done(
                current_scene_transition(
                    state.current_transition.as_str(),
                    fresh[0].as_str(),
                    state.transition_duration as u64,
                ),
            ),
        );
    }
    if str_eq(rt, "SetCurrentSceneTransition") {
        if let Some(name) = get_str(data, "transitionName") {
            state.current_transition = name.to_string();
        }
        return Some(done_empty());
    }
    if str_eq(rt, "SetCurrentSceneTransitionDuration") {
        if let Some(d) = get_u64(data, "transitionDuration") {
            state.transition_duration = d as u32;
        }
        return Some(done_empty());
    }
    if str_eq(rt, "GetCurrentSceneTransitionCursor") {
        return Some(done(transition_cursor()));
    }
    if str_eq(rt, "GetSourceFilterKindList") {
        return Some(done(filter_kind_list()));
    }
    if str_eq(rt, "GetSourceFilterList") {
        return Some(done(filter_list()));
    }
    if str_eq(rt, "GetSourceFilterDefaultSettings") {
        return Some(done(filter_default_settings()));
    }
    if str_eq(rt, "GetSourceFilter") {
        return Some(done(source_filter()));
    }
    if str_eq(rt, "GetMediaInputStatus") {
        return Some(done(media_input_status()));
    }
    if str_eq(rt, "GetStudioModeEnabled") {
        return Some(done(studio_mode(state.studio_mode)));
    }
    if str_eq(rt, "SetStudioModeEnabled") {
        if let Some(enabled) = get_bool(data, "studioModeEnabled") {
            state.studio_mode = enabled;
        }
        return Some(done_empty());
    }
    if str_eq(rt, "GetMonitorList") {
        return Some(done(monitor_list()));
    }
    if str_eq(rt, "GetCanvasList") {
        return Some(done(canvas_list()));
    }
    None
}

} // verus!
