//! Inputs: listing, creation, removal, renaming, settings, mute, volume and
//! the audio and deinterlacing properties.
use vstd::prelude::*;
use crate::handler::{step, step_empty, answers, done, done_empty, reply, reply_empty, reply_not_found, not_found, Outcome, Step};
use crate::handler::config::str_or;
use crate::handler::payloads::{
    audio_balance, audio_balance_view, audio_sync_offset, audio_sync_offset_view, audio_tracks,
    audio_tracks_view, created_input, created_input_view, default_input_settings,
    default_input_settings_view, deinterlace_field_order, deinterlace_field_order_view, deinterlace_mode,
    deinterlace_mode_view, input_kind_list, input_kind_list_view, input_list, input_list_entry,
    input_list_entry_view, input_list_view, input_mute, input_mute_view, input_settings,
    input_settings_view, input_volume, input_volume_view, monitor_type, monitor_type_view,
    property_items, property_items_view, special_inputs, special_inputs_view,
};
use crate::json::{
    array, assign_all, empty_object, assign_entries, field_bool, field_f64, field_str, get_bool, get_copy, get_f64,
    get_field, get_str, items_view, jempty, lemma_items_view, JsonValue, JsonView, Real,
};
use crate::state::{inputs_view, resolve_input_spec, Input, InputView, ObsState, StateView};
use crate::text::str_eq;

verus! {

broadcast use vstd::std_specs::vec::group_vec_axioms;

/// The entries of `GetInputList`: the inputs of the given kind, or all inputs
/// where no kind is given, in order.
pub open spec fn input_entries(inputs: Seq<InputView>, kind: Option<Seq<char>>) -> Seq<JsonView>
    decreases inputs.len(),
{
    if inputs.len() == 0 {
        Seq::empty()
    } else {
        let r = input_entries(inputs.drop_last(), kind);
        let x = inputs.last();
        if kind is None || x.kind == kind->0 {
            r.push(input_list_entry_view(x.name, x.uuid, x.kind))
        } else {
            r
        }
    }
}

/// The state with the input at `i` replaced.
pub open spec fn with_input(st: StateView, i: int, input: InputView) -> StateView {
    StateView { inputs: st.inputs.update(i, input), ..st }
}

/// Requests that only check that the named input exists.
pub open spec fn is_input_setter(rt: Seq<char>) -> bool {
    ||| rt == "SetInputAudioBalance"@
    ||| rt == "SetInputAudioSyncOffset"@
    ||| rt == "SetInputAudioMonitorType"@
    ||| rt == "SetInputAudioTracks"@
    ||| rt == "SetInputDeinterlaceMode"@
    ||| rt == "SetInputDeinterlaceFieldOrder"@
    ||| rt == "PressInputPropertiesButton"@
}

fn input_setter(rt: &str) -> (r: bool)
    ensures
        r == is_input_setter(rt@),
{
    str_eq(rt, "SetInputAudioBalance") || str_eq(rt, "SetInputAudioSyncOffset") || str_eq(
        rt,
        "SetInputAudioMonitorType",
    ) || str_eq(rt, "SetInputAudioTracks") || str_eq(rt, "SetInputDeinterlaceMode") || str_eq(
        rt,
        "SetInputDeinterlaceFieldOrder",
    ) || str_eq(rt, "PressInputPropertiesButton")
}

/// The data of the requests that read a fixed property of an existing input.
pub open spec fn input_property(rt: Seq<char>) -> Option<JsonView> {
    if rt == "GetInputAudioBalance"@ {
        Some(audio_balance_view())
    } else if rt == "GetInputAudioSyncOffset"@ {
        Some(audio_sync_offset_view())
    } else if rt == "GetInputAudioMonitorType"@ {
        Some(monitor_type_view())
    } else if rt == "GetInputAudioTracks"@ {
        Some(audio_tracks_view())
    } else if rt == "GetInputDeinterlaceMode"@ {
        Some(deinterlace_mode_view())
    } else if rt == "GetInputDeinterlaceFieldOrder"@ {
        Some(deinterlace_field_order_view())
    } else if rt == "GetInputPropertiesListPropertyItems"@ {
        Some(property_items_view())
    } else {
        None
    }
}

fn input_property_exec(rt: &str) -> (r: Option<JsonValue>)
    ensures
        r is Some <==> input_property(rt@) is Some,
        r matches Some(j) ==> input_property(rt@) == Some(j.deep()),
{
    if str_eq(rt, "GetInputAudioBalance") {
        Some(audio_balance())
    } else if str_eq(rt, "GetInputAudioSyncOffset") {
        Some(audio_sync_offset())
    } else if str_eq(rt, "GetInputAudioMonitorType") {
        Some(monitor_type())
    } else if str_eq(rt, "GetInputAudioTracks") {
        Some(audio_tracks())
    } else if str_eq(rt, "GetInputDeinterlaceMode") {
        Some(deinterlace_mode())
    } else if str_eq(rt, "GetInputDeinterlaceFieldOrder") {
        Some(deinterlace_field_order())
    } else if str_eq(rt, "GetInputPropertiesListPropertyItems") {
        Some(property_items())
    } else {
        None
    }
}

/// The settings after `SetInputSettings`: with `overlay` (the default) the new
/// entries are assigned into the old ones where both are objects, and the old
/// settings stay otherwise; without it the new settings replace the old.
pub open spec fn updated_settings(old: JsonView, new: JsonView, overlay: bool) -> JsonView {
    if overlay {
        match (old, new) {
            (JsonView::Object(es), JsonView::Object(nes)) => JsonView::Object(assign_all(es, nes)),
            _ => old,
        }
    } else {
        new
    }
}

/// The input after `SetInputVolume`: a multiplier sets the multiplier and the
/// decibels derived from it; then decibels set the decibels and the
/// multiplier derived from them.
pub open spec fn updated_volume(input: InputView, mul: Option<Real>, db: Option<Real>) -> InputView {
    let a = match mul {
        Some(v) => InputView { volume_mul: v, volume_db: Real::DecibelsOf(Box::new(v)), ..input },
        None => input,
    };
    match db {
        Some(v) => InputView { volume_db: v, volume_mul: Real::AmplitudeOf(Box::new(v)), ..a },
        None => a,
    }
}

/// The state after `SetInputSettings` on the input at `i`.
pub open spec fn settings_set(st: StateView, i: int, data: JsonView) -> StateView {
    match get_field(data, "inputSettings"@) {
        Some(ns) => {
            let overlay = match field_bool(data, "overlay"@) {
                Some(b) => b,
                None => true,
            };
            with_input(st, i, InputView { settings: updated_settings(st.inputs[i].settings, ns, overlay), ..st.inputs[i] })
        },
        None => st,
    }
}

/// The state after `SetInputVolume` on the input at `i`.
pub open spec fn volume_set(st: StateView, i: int, data: JsonView) -> StateView {
    with_input(
        st,
        i,
        updated_volume(st.inputs[i], field_f64(data, "inputVolumeMul"@), field_f64(data, "inputVolumeDb"@)),
    )
}

/// A request on the existing input at `i`.
pub open spec fn found_input_spec(st: StateView, i: int, rt: Seq<char>, data: JsonView) -> Step {
        let input = st.inputs[i];
        if rt == "RemoveInput"@ {
            step_empty(StateView { inputs: st.inputs.remove(i), ..st })
        } else if rt == "SetInputName"@ {
            step_empty(
                match field_str(data, "newInputName"@) {
                    Some(n) => with_input(st, i, InputView { name: n, ..input }),
                    None => st,
                },
            )
        } else if rt == "GetInputSettings"@ {
            step(st, input_settings_view(input.settings, input.kind))
        } else if rt == "SetInputSettings"@ {
            step_empty(settings_set(st, i, data))
        } else if rt == "GetInputMute"@ {
            step(st, input_mute_view(input.muted))
        } else if rt == "SetInputMute"@ {
            step_empty(
                match field_bool(data, "inputMuted"@) {
                    Some(b) => with_input(st, i, InputView { muted: b, ..input }),
                    None => st,
                },
            )
        } else if rt == "ToggleInputMute"@ {
            step(
                with_input(st, i, InputView { muted: !input.muted, ..input }),
                input_mute_view(!input.muted),
            )
        } else if rt == "GetInputVolume"@ {
            step(st, input_volume_view(input.volume_mul, input.volume_db))
        } else if rt == "SetInputVolume"@ {
            step_empty(volume_set(st, i, data))
        } else if is_input_setter(rt) {
            step_empty(st)
        } else {
            step(st, input_property(rt)->0)
        }
}

/// The requests on inputs; nothing for any other request. `fresh` holds the
/// UUID of a created input.
pub open spec fn inputs_spec(st: StateView, rt: Seq<char>, data: JsonView, fresh: Seq<Seq<char>>) -> Option<Step> {
    let found = resolve_input_spec(st, data);
    if rt == "GetInputList"@ {
        reply(st, input_list_view(JsonView::Array(input_entries(st.inputs, field_str(data, "inputKind"@)))))
    } else if rt == "GetInputKindList"@ {
        reply(st, input_kind_list_view())
    } else if rt == "GetSpecialInputs"@ {
        reply(
            st,
            special_inputs_view(
                if st.inputs.len() > 0 { st.inputs[0].name } else { ""@ },
                if st.inputs.len() > 1 { Some(st.inputs[1].name) } else { None },
            ),
        )
    } else if rt == "CreateInput"@ {
        let input = InputView {
            name: str_or(data, "inputName"@, "New Input"@),
            uuid: fresh[0],
            kind: str_or(data, "inputKind"@, ""@),
            muted: false,
            volume_mul: Real::OfU64(1),
            volume_db: Real::OfU64(0),
            settings: match get_field(data, "inputSettings"@) {
                Some(v) => v,
                None => jempty(),
            },
        };
        reply(StateView { inputs: st.inputs.push(input), ..st }, created_input_view(fresh[0]))
    } else if rt == "GetInputDefaultSettings"@ {
        reply(st, default_input_settings_view())
    } else if rt == "RemoveInput"@ || rt == "SetInputName"@ || rt == "GetInputSettings"@ || rt
        == "SetInputSettings"@ || rt == "GetInputMute"@ || rt == "SetInputMute"@ || rt == "ToggleInputMute"@
        || rt == "GetInputVolume"@ || rt == "SetInputVolume"@ || is_input_setter(rt) || input_property(
        rt,
    ) is Some {
        match found {
            None => reply_not_found(st, "Input not found"@),
            Some(i) => Some(found_input_spec(st, i, rt, data)),
        }
    } else {
        None
    }
}

/// The entries of `GetInputList` for inputs of kind `kind`, or of any kind.
fn input_list_entries(inputs: &Vec<Input>, kind: Option<&str>) -> (j: JsonValue)
    ensures
        j.deep() == JsonView::Array(
            input_entries(
                inputs_view(inputs@),
                match kind {
                    Some(k) => Some(k@),
                    None => None,
                },
            ),
        ),
{
    let ghost kv = match kind {
        Some(k) => Some(k@),
        None => None,
    };
    let ghost iv = inputs_view(inputs@);
    let mut out: Vec<JsonValue> = Vec::new();
    let mut i: usize = 0;
    while i < inputs.len()
        invariant
            i <= inputs.len(),
            iv == inputs_view(inputs@),
            kv == match kind {
                Some(k) => Some(k@),
                None => None::<Seq<char>>,
            },
            out.len() == input_entries(iv.take(i as int), kv).len(),
            forall|j: int|
                0 <= j < out.len() ==> (#[trigger] out[j]).deep() == input_entries(iv.take(i as int), kv)[j],
        decreases inputs.len() - i,
    {
        assert(iv.take(i + 1).drop_last() =~= iv.take(i as int));
        let keep = match kind {
            Some(k) => str_eq(inputs[i].kind.as_str(), k),
            None => true,
        };
        if keep {
            let input = &inputs[i];
            out.push(input_list_entry(input.name.as_str(), input.uuid.as_str(), input.kind.as_str()));
        }
        i = i + 1;
    }
    proof {
        assert(iv.take(i as int) =~= iv);
        lemma_items_view(&out);
        assert(items_view(&out) =~= input_entries(iv, kv));
    }
    array(out)
}

/// Answers the requests that `inputs_spec` describes.
pub fn handle_inputs(state: &mut ObsState, rt: &str, data: &JsonValue, fresh: &Vec<String>) -> (r: Option<Outcome>)
    requires
        rt@ == "CreateInput"@ ==> fresh.len() >= 1,
    ensures
        answers(
            r,
            inputs_spec(old(state)@, rt@, data.deep(), fresh@.map_values(|s: String| s@)),
            old(state)@,
            final(state)@,
        ),
{
    if str_eq(rt, "GetInputList") {
        let entries = input_list_entries(&state.inputs, get_str(data, "inputKind"));
        return Some(done(input_list(entries)));
    }
    if str_eq(rt, "GetInputKindList") {
        return Some(done(input_kind_list()));
    }
    if str_eq(rt, "GetSpecialInputs") {
        let desktop1 = if state.inputs.len() > 0 { state.inputs[0].name.as_str() } else { "" };
        let mic1 = if state.inputs.len() > 1 { Some(state.inputs[1].name.as_str()) } else { None };
        return Some(done(special_inputs(desktop1, mic1)));
    }
    if str_eq(rt, "CreateInput") {
        let name = match get_str(data, "inputName") {
            Some(n) => n,
            None => "New Input",
        };
        let kind = match get_str(data, "inputKind") {
            Some(k) => k,
            None => "",
        };
        let settings = match get_copy(data, "inputSettings") {
            Some(v) => v,
            None => empty_object(),
        };
        let uuid = fresh[0].clone();
        let ghost before = state.inputs@;
        let input = Input {
            name: name.to_string(),
            uuid: uuid.clone(),
            kind: kind.to_string(),
            muted: false,
            volume_mul: Real::OfU64(1),
            volume_db: Real::OfU64(0),
            settings,
        };
        state.inputs.push(input);
        proof {
            assert(inputs_view(state.inputs@) =~= inputs_view(before).push(input@));
        }
        return Some(done(created_input(uuid.as_str())));
    }
    if str_eq(rt, "GetInputDefaultSettings") {
        return Some(done(default_input_settings()));
    }
    let property = input_property_exec(rt);
    if !(str_eq(rt, "RemoveInput") || str_eq(rt, "SetInputName") || str_eq(rt, "GetInputSettings")
        || str_eq(rt, "SetInputSettings") || str_eq(rt, "GetInputMute") || str_eq(rt, "SetInputMute")
        || str_eq(rt, "ToggleInputMute") || str_eq(rt, "GetInputVolume") || str_eq(rt, "SetInputVolume")
        || input_setter(rt) || property.is_some()) {
        return None;
    }
    match state.resolve_input(data) {
        Some(idx) => Some(handle_found_input(state, idx, rt, data, property)),
        None => Some(not_found("Input not found")),
    }
}

/// The input requests that need an input to exist.
pub open spec fn is_found_input_request(rt: Seq<char>) -> bool {
    ||| rt == "RemoveInput"@
    ||| rt == "SetInputName"@
    ||| rt == "GetInputSettings"@
    ||| rt == "SetInputSettings"@
    ||| rt == "GetInputMute"@
    ||| rt == "SetInputMute"@
    ||| rt == "ToggleInputMute"@
    ||| rt == "GetInputVolume"@
    ||| rt == "SetInputVolume"@
    ||| is_input_setter(rt)
    ||| input_property(rt) is Some
}

/// Applies `SetInputSettings` to the input at `idx`.
fn set_input_settings(state: &mut ObsState, idx: usize, data: &JsonValue)
    requires
        idx < old(state).inputs.len(),
    ensures
        final(state)@ == settings_set(old(state)@, idx as int, data.deep()),
{
    let ghost iv = inputs_view(state.inputs@);
    if let Some(new_settings) = data.get("inputSettings") {
        let overlay = match get_bool(data, "overlay") {
            Some(b) => b,
            None => true,
        };
        let mut current = JsonValue::Null;
        std::mem::swap(&mut current, &mut state.inputs[idx].settings);
        assert(current.deep() == iv[idx as int].settings);
        let next = if overlay {
            match (current, new_settings) {
                (JsonValue::Object(mut es), JsonValue::Object(nes)) => {
                    assign_entries(&mut es, nes);
                    JsonValue::Object(es)
                },
                (other, _) => other,
            }
        } else {
            new_settings.duplicate()
        };
        let ghost nv = next.deep();
        state.inputs[idx].settings = next;
        proof {
            assert(inputs_view(state.inputs@) =~= iv.update(idx as int, InputView { settings: nv, ..iv[idx as int] }));
        }
    }
}

/// Applies `SetInputVolume` to the input at `idx`.
fn set_input_volume(state: &mut ObsState, idx: usize, data: &JsonValue)
    requires
        idx < old(state).inputs.len(),
    ensures
        final(state)@ == volume_set(old(state)@, idx as int, data.deep()),
{
    let ghost iv = inputs_view(state.inputs@);
    if let Some(v) = get_f64(data, "inputVolumeMul") {
        state.inputs[idx].volume_mul = v.duplicate();
        state.inputs[idx].volume_db = Real::DecibelsOf(Box::new(v));
    }
    if let Some(v) = get_f64(data, "inputVolumeDb") {
        state.inputs[idx].volume_db = v.duplicate();
        state.inputs[idx].volume_mul = Real::AmplitudeOf(Box::new(v));
    }
    proof {
        assert(inputs_view(state.inputs@) =~= iv.update(
            idx as int,
            updated_volume(iv[idx as int], field_f64(data.deep(), "inputVolumeMul"@), field_f64(data.deep(), "inputVolumeDb"@)),
        ));
    }
}

/// Answers a request on the existing input at `idx`, as `found_input_spec`
/// says; `property` is the data of a fixed-property request.
fn handle_found_input(state: &mut ObsState, idx: usize, rt: &str, data: &JsonValue, property: Option<JsonValue>) -> (o: Outcome)
    requires
        idx < old(state).inputs.len(),
        is_found_input_request(rt@),
        property is Some <==> input_property(rt@) is Some,
        property matches Some(j) ==> input_property(rt@) == Some(j.deep()),
    ensures
        (final(state)@, o@) == found_input_spec(old(state)@, idx as int, rt@, data.deep()),
{
    let ghost iv = inputs_view(state.inputs@);
    if str_eq(rt, "RemoveInput") {
        state.inputs.remove(idx);
        proof {
            assert(inputs_view(state.inputs@) =~= iv.remove(idx as int));
        }
        return done_empty();
    }
    if str_eq(rt, "SetInputName") {
        if let Some(new_name) = get_str(data, "newInputName") {
            state.inputs[idx].name = new_name.to_string();
            proof {
                assert(inputs_view(state.inputs@) =~= iv.update(idx as int, InputView { name: new_name@, ..iv[idx as int] }));
            }
        }
        return done_empty();
    }
    if str_eq(rt, "GetInputSettings") {
        let input = &state.inputs[idx];
        return done(input_settings(input.settings.duplicate(), input.kind.as_str()));
    }
    if str_eq(rt, "SetInputSettings") {
        set_input_settings(state, idx, data);
        return done_empty();
    }
    if str_eq(rt, "GetInputMute") {
        return done(input_mute(state.inputs[idx].muted));
    }
    if str_eq(rt, "SetInputMute") {
        if let Some(muted) = get_bool(data, "inputMuted") {
            state.inputs[idx].muted = muted;
            proof {
                assert(inputs_view(state.inputs@) =~= iv.update(idx as int, InputView { muted, ..iv[idx as int] }));
            }
        }
        return done_empty();
    }
    if str_eq(rt, "ToggleInputMute") {
        let muted = !state.inputs[idx].muted;
        state.inputs[idx].muted = muted;
        proof {
            assert(inputs_view(state.inputs@) =~= iv.update(idx as int, InputView { muted, ..iv[idx as int] }));
        }
        return done(input_mute(muted));
    }
    if str_eq(rt, "GetInputVolume") {
        let input = &state.inputs[idx];
        return done(input_volume(input.volume_mul.duplicate(), input.volume_db.duplicate()));
    }
    if str_eq(rt, "SetInputVolume") {
        set_input_volume(state, idx, data);
        return done_empty();
    }
    if input_setter(rt) {
        return done_empty();
    }
    match property {
        Some(j) => done(j),
        None => done_empty(),
    }
}

} // verus!
