//! What single requests do to the scenes, scene items, inputs, profiles and
//! transition, stated by what a later read gives back or by the state after.
use vstd::prelude::*;
use crate::handler::{handle_spec, next_state, response_to};
use crate::handler::items::item_id_of;
use crate::json::{field_bool, field_f64, field_str, field_u64, get_field, JsonNumber, JsonView, Real};
use crate::laws::{
    lemma_request_type_names, lemma_resolve_input_in_range, lemma_resolve_input_same_names,
    lemma_resolve_scene_in_range,
};
use crate::protocol::{error_view, success_view};
use crate::state::{
    item_with_id, resolve_input_spec, resolve_scene_spec, scene_named, scene_with_uuid, InputView, SceneItemTransform, SceneItemView,
    SceneView, StateView,
};
use crate::text::{first_index, lemma_first_index, lemma_first_index_same, lemma_first_index_some};
use crate::laws::item_ids_unique;
use crate::state::max_scene_item_id;

verus! {

/// The scenes of two states have the same names and UUIDs, in order.
pub open spec fn same_scene_names(a: StateView, b: StateView) -> bool {
    &&& a.scenes.len() == b.scenes.len()
    &&& forall|k: int|
        #![trigger a.scenes[k]]
        0 <= k < a.scenes.len() ==> a.scenes[k].name == b.scenes[k].name && a.scenes[k].uuid == b.scenes[k].uuid
}

/// Which scene request data names depends only on the names and UUIDs of the
/// scenes.
pub proof fn lemma_resolve_scene_same_names(a: StateView, b: StateView, d: JsonView)
    requires
        same_scene_names(a, b),
    ensures
        resolve_scene_spec(a, d) == resolve_scene_spec(b, d),
{
    match field_str(d, "sceneName"@) {
        Some(n) => lemma_first_index_same(a.scenes, b.scenes, scene_named(n), scene_named(n)),
        None => match field_str(d, "sceneUuid"@) {
            Some(u) => lemma_first_index_same(a.scenes, b.scenes, scene_with_uuid(u), scene_with_uuid(u)),
            None => {},
        },
    }
}

/// After `SetSceneItemEnabled` with a boolean `b` on an existing item,
/// `GetSceneItemEnabled` of that item answers `b`.
pub proof fn law_scene_item_enabled_read_after_write(
    st: StateView,
    d1: JsonView,
    d2: JsonView,
    f1: Seq<Seq<char>>,
    f2: Seq<Seq<char>>,
    rid: Seq<char>,
    b: bool,
)
    requires
        resolve_scene_spec(st, d1) is Some,
        first_index(st.scenes[resolve_scene_spec(st, d1)->0].items, item_with_id(item_id_of(d1))) is Some,
        resolve_scene_spec(st, d2) == resolve_scene_spec(st, d1),
        item_id_of(d2) == item_id_of(d1),
        field_bool(d1, "sceneItemEnabled"@) == Some(b),
    ensures
        response_to(next_state(st, "SetSceneItemEnabled"@, d1, f1), "GetSceneItemEnabled"@, rid, d2, f2)
            == success_view(
            "GetSceneItemEnabled"@,
            rid,
            Some(JsonView::Object(seq![("sceneItemEnabled"@, JsonView::Bool(b))])),
        ),
{
    lemma_request_type_names();
    reveal(handle_spec);
    let s = resolve_scene_spec(st, d1)->0;
    lemma_resolve_scene_in_range(st, d1);
    let items = st.scenes[s].items;
    let p = item_with_id(item_id_of(d1));
    lemma_first_index_some(items, p);
    let s1 = next_state(st, "SetSceneItemEnabled"@, d1, f1);
    assert(same_scene_names(st, s1));
    lemma_resolve_scene_same_names(st, s1, d2);
    let items1 = s1.scenes[s].items;
    assert(items1.len() == items.len());
    assert forall|k: int| 0 <= k < items.len() implies p(#[trigger] items[k]) == p(items1[k]) by {}
    lemma_first_index_same(items, items1, p, p);
}

/// `GetInputVolume` of an existing input answers its stored multiplier under
/// `inputVolumeMul` and its stored decibels under `inputVolumeDb`, and
/// changes nothing.
pub proof fn law_input_volume_reports_stored(st: StateView, d: JsonView, f: Seq<Seq<char>>, rid: Seq<char>)
    requires
        resolve_input_spec(st, d) is Some,
    ensures
        ({
            let input = st.inputs[resolve_input_spec(st, d)->0];
            &&& response_to(st, "GetInputVolume"@, rid, d, f) == success_view(
                "GetInputVolume"@,
                rid,
                Some(
                    JsonView::Object(
                        seq![
                            ("inputVolumeMul"@, JsonView::Number(JsonNumber::Float(input.volume_mul))),
                            ("inputVolumeDb"@, JsonView::Number(JsonNumber::Float(input.volume_db))),
                        ],
                    ),
                ),
            )
            &&& next_state(st, "GetInputVolume"@, d, f) == st
        }),
{
    lemma_request_type_names();
    reveal(handle_spec);
}

/// After `SetInputVolume` on an existing input, `GetInputVolume` of it
/// answers the volume set: a multiplier `v` alone gives `v` and its decibels;
/// decibels `w` (with or without a multiplier) give `w` and its multiplier.
pub proof fn law_input_volume_read_after_write(
    st: StateView,
    d1: JsonView,
    d2: JsonView,
    f1: Seq<Seq<char>>,
    f2: Seq<Seq<char>>,
    rid: Seq<char>,
)
    requires
        resolve_input_spec(st, d1) is Some,
        resolve_input_spec(st, d2) == resolve_input_spec(st, d1),
    ensures
        ({
            let input = st.inputs[resolve_input_spec(st, d1)->0];
            let (mul, db) = match (field_f64(d1, "inputVolumeMul"@), field_f64(d1, "inputVolumeDb"@)) {
                (_, Some(w)) => (Real::AmplitudeOf(Box::new(w)), w),
                (Some(v), None) => (v, Real::DecibelsOf(Box::new(v))),
                (None, None) => (input.volume_mul, input.volume_db),
            };
            response_to(next_state(st, "SetInputVolume"@, d1, f1), "GetInputVolume"@, rid, d2, f2) == success_view(
                "GetInputVolume"@,
                rid,
                Some(
                    JsonView::Object(
                        seq![
                            ("inputVolumeMul"@, JsonView::Number(JsonNumber::Float(mul))),
                            ("inputVolumeDb"@, JsonView::Number(JsonNumber::Float(db))),
                        ],
                    ),
                ),
            )
        }),
{
    lemma_request_type_names();
    reveal(handle_spec);
    let s1 = next_state(st, "SetInputVolume"@, d1, f1);
    lemma_resolve_input_in_range(st, d1);
    assert(s1.inputs.len() == st.inputs.len());
    assert forall|k: int| 0 <= k < st.inputs.len() implies s1.inputs[k].name == st.inputs[k].name
        && s1.inputs[k].uuid == st.inputs[k].uuid by {}
    lemma_resolve_input_same_names(st, s1, d2);
}

/// `SetSceneName` with a string `n` on an existing scene gives that scene the
/// name `n`, keeps its UUID and items, and leaves every other scene as it was.
pub proof fn law_set_scene_name(st: StateView, d: JsonView, f: Seq<Seq<char>>, rid: Seq<char>, n: Seq<char>)
    requires
        resolve_scene_spec(st, d) is Some,
        field_str(d, "newSceneName"@) == Some(n),
    ensures
        ({
            let i = resolve_scene_spec(st, d)->0;
            let after = next_state(st, "SetSceneName"@, d, f);
            &&& response_to(st, "SetSceneName"@, rid, d, f) == success_view("SetSceneName"@, rid, None)
            &&& after.scenes.len() == st.scenes.len()
            &&& after.scenes[i] == SceneView { name: n, uuid: st.scenes[i].uuid, items: st.scenes[i].items }
            &&& forall|k: int| 0 <= k < st.scenes.len() && k != i ==> #[trigger] after.scenes[k] == st.scenes[k]
        }),
{
    lemma_request_type_names();
    reveal(handle_spec);
    lemma_resolve_scene_in_range(st, d);
}

/// `RemoveProfile` with a string `n` removes every profile named `n` and keeps
/// every other profile, in order.
pub proof fn law_remove_profile(st: StateView, d: JsonView, f: Seq<Seq<char>>, rid: Seq<char>, n: Seq<char>)
    requires
        field_str(d, "profileName"@) == Some(n),
    ensures
        ({
            let after = next_state(st, "RemoveProfile"@, d, f).profiles;
            &&& response_to(st, "RemoveProfile"@, rid, d, f) == success_view("RemoveProfile"@, rid, None)
            &&& after == st.profiles.filter(|p: Seq<char>| p != n)
            &&& !after.contains(n)
        }),
{
    lemma_request_type_names();
    reveal(handle_spec);
    lemma_without_filter(st.profiles, n);
}

/// `without` keeps exactly the elements other than `x`, in order.
pub proof fn lemma_without_filter(s: Seq<Seq<char>>, x: Seq<char>)
    ensures
        crate::handler::config::without(s, x) == s.filter(|p: Seq<char>| p != x),
        !crate::handler::config::without(s, x).contains(x),
    decreases s.len(),
{
    reveal(Seq::filter);
    if s.len() > 0 {
        lemma_without_filter(s.drop_last(), x);
        let r = crate::handler::config::without(s.drop_last(), x);
        if s.last() != x {
            assert forall|i: int| 0 <= i < r.push(s.last()).len() implies r.push(s.last())[i] != x by {
                if i < r.len() {
                    assert(r.push(s.last())[i] == r[i]);
                    assert(!r.contains(x));
                }
            }
        }
    }
}

/// After `SetCurrentSceneTransitionDuration` with a duration `x` that fits in
/// 32 bits, `GetCurrentSceneTransition` reports the duration `x`.
pub proof fn law_transition_duration_read_after_write(
    st: StateView,
    d1: JsonView,
    d2: JsonView,
    f1: Seq<Seq<char>>,
    f2: Seq<Seq<char>>,
    rid: Seq<char>,
    x: u64,
)
    requires
        field_u64(d1, "transitionDuration"@) == Some(x),
        x <= u32::MAX,
    ensures
        response_to(
            next_state(st, "SetCurrentSceneTransitionDuration"@, d1, f1),
            "GetCurrentSceneTransition"@,
            rid,
            d2,
            f2,
        ) == success_view(
            "GetCurrentSceneTransition"@,
            rid,
            Some(
                JsonView::Object(
                    seq![
                        ("transitionName"@, JsonView::Str(st.current_transition)),
                        ("transitionUuid"@, JsonView::Str(f2[0])),
                        ("transitionKind"@, JsonView::Str("fade_transition"@)),
                        ("transitionFixed"@, JsonView::Bool(false)),
                        ("transitionDuration"@, JsonView::Number(JsonNumber::PosInt(x))),
                        ("transitionConfigurable"@, JsonView::Bool(true)),
                        ("transitionSettings"@, JsonView::Object(Seq::empty())),
                    ],
                ),
            ),
        ),
{
    lemma_request_type_names();
    reveal(handle_spec);
}

/// Two states have the same scenes by name and UUID, and in each scene items
/// with the same ids at the same positions.
pub open spec fn same_layout(a: StateView, b: StateView) -> bool {
    &&& same_scene_names(a, b)
    &&& forall|k: int|
        #![trigger a.scenes[k]]
        0 <= k < a.scenes.len() ==> a.scenes[k].items.len() == b.scenes[k].items.len() && forall|m: int|
            0 <= m < a.scenes[k].items.len() ==> #[trigger] a.scenes[k].items[m].id == b.scenes[k].items[m].id
}

/// In states with the same layout, request data names the same scene and,
/// in it, the same item.
pub proof fn lemma_same_layout_lookup(a: StateView, b: StateView, d: JsonView)
    requires
        same_layout(a, b),
    ensures
        resolve_scene_spec(a, d) == resolve_scene_spec(b, d),
        resolve_scene_spec(a, d) matches Some(s) ==> first_index(a.scenes[s].items, item_with_id(item_id_of(d)))
            == first_index(b.scenes[s].items, item_with_id(item_id_of(d))),
{
    lemma_resolve_scene_same_names(a, b, d);
    lemma_resolve_scene_in_range(a, d);
    if let Some(s) = resolve_scene_spec(a, d) {
        let p = item_with_id(item_id_of(d));
        let x = a.scenes[s].items;
        let y = b.scenes[s].items;
        assert forall|m: int| 0 <= m < x.len() implies p(#[trigger] x[m]) == p(y[m]) by {}
        lemma_first_index_same(x, y, p, p);
    }
}

/// The item that request data names exists: the scene at `s`, the item at `j`.
pub open spec fn names_item(st: StateView, d: JsonView, s: int, j: int) -> bool {
    &&& resolve_scene_spec(st, d) == Some(s)
    &&& first_index(st.scenes[s].items, item_with_id(item_id_of(d))) == Some(j)
}

/// Where request data names an item, the positions are in range and the item
/// has the id named.
pub proof fn lemma_names_item(st: StateView, d: JsonView, s: int, j: int)
    requires
        names_item(st, d, s, j),
    ensures
        0 <= s < st.scenes.len(),
        0 <= j < st.scenes[s].items.len(),
        st.scenes[s].items[j].id == item_id_of(d),
{
    lemma_resolve_scene_in_range(st, d);
    lemma_first_index_some(st.scenes[s].items, item_with_id(item_id_of(d)));
}

/// The state with item `j` of scene `s` replaced by `item`, spelled out.
pub open spec fn replaced_item(st: StateView, s: int, j: int, item: SceneItemView) -> StateView {
    StateView {
        scenes: st.scenes.update(
            s,
            SceneView { name: st.scenes[s].name, uuid: st.scenes[s].uuid, items: st.scenes[s].items.update(j, item) },
        ),
        ..st
    }
}

/// The reads of a named item answer its stored fields: source, enabled,
/// locked and blend mode; none changes the state.
pub proof fn law_scene_item_reads(st: StateView, d: JsonView, f: Seq<Seq<char>>, rid: Seq<char>, s: int, j: int)
    requires
        names_item(st, d, s, j),
    ensures
        ({
            let item = st.scenes[s].items[j];
            &&& response_to(st, "GetSceneItemSource"@, rid, d, f) == success_view(
                "GetSceneItemSource"@,
                rid,
                Some(
                    JsonView::Object(
                        seq![("sourceName"@, JsonView::Str(item.source_name)), ("sourceUuid"@, JsonView::Str(item.source_uuid))],
                    ),
                ),
            )
            &&& response_to(st, "GetSceneItemEnabled"@, rid, d, f) == success_view(
                "GetSceneItemEnabled"@,
                rid,
                Some(JsonView::Object(seq![("sceneItemEnabled"@, JsonView::Bool(item.enabled))])),
            )
            &&& response_to(st, "GetSceneItemLocked"@, rid, d, f) == success_view(
                "GetSceneItemLocked"@,
                rid,
                Some(JsonView::Object(seq![("sceneItemLocked"@, JsonView::Bool(item.locked))])),
            )
            &&& response_to(st, "GetSceneItemBlendMode"@, rid, d, f) == success_view(
                "GetSceneItemBlendMode"@,
                rid,
                Some(JsonView::Object(seq![("sceneItemBlendMode"@, JsonView::Str(item.blend_mode))])),
            )
            &&& response_to(st, "GetSceneItemIndex"@, rid, d, f) == success_view(
                "GetSceneItemIndex"@,
                rid,
                Some(JsonView::Object(seq![("sceneItemIndex"@, JsonView::Number(JsonNumber::PosInt(j as u64)))])),
            )
            &&& next_state(st, "GetSceneItemSource"@, d, f) == st
            &&& next_state(st, "GetSceneItemEnabled"@, d, f) == st
            &&& next_state(st, "GetSceneItemLocked"@, d, f) == st
            &&& next_state(st, "GetSceneItemBlendMode"@, d, f) == st
            &&& next_state(st, "GetSceneItemIndex"@, d, f) == st
        }),
{
    lemma_request_type_names();
    reveal(handle_spec);
    lemma_names_item(st, d, s, j);
}

/// The setters of a named item change exactly the field they name, to the
/// value given, and nothing else: enabled, locked and blend mode.
pub proof fn law_scene_item_setters(st: StateView, d: JsonView, f: Seq<Seq<char>>, rid: Seq<char>, s: int, j: int)
    requires
        names_item(st, d, s, j),
    ensures
        ({
            let item = st.scenes[s].items[j];
            &&& response_to(st, "SetSceneItemEnabled"@, rid, d, f) == success_view("SetSceneItemEnabled"@, rid, None)
            &&& next_state(st, "SetSceneItemEnabled"@, d, f) == match field_bool(d, "sceneItemEnabled"@) {
                Some(b) => replaced_item(st, s, j, SceneItemView { enabled: b, ..item }),
                None => st,
            }
            &&& next_state(st, "SetSceneItemLocked"@, d, f) == match field_bool(d, "sceneItemLocked"@) {
                Some(b) => replaced_item(st, s, j, SceneItemView { locked: b, ..item }),
                None => st,
            }
            &&& next_state(st, "SetSceneItemBlendMode"@, d, f) == match field_str(d, "sceneItemBlendMode"@) {
                Some(m) => replaced_item(st, s, j, SceneItemView { blend_mode: m, ..item }),
                None => st,
            }
        }),
{
    lemma_request_type_names();
    reveal(handle_spec);
    lemma_names_item(st, d, s, j);
}

/// After a setter of a named item, a read of the same item answers the value
/// set: locked and blend mode (enabled has its own law).
pub proof fn law_scene_item_locked_and_blend_read_after_write(
    st: StateView,
    d1: JsonView,
    d2: JsonView,
    f1: Seq<Seq<char>>,
    f2: Seq<Seq<char>>,
    rid: Seq<char>,
    s: int,
    j: int,
)
    requires
        names_item(st, d1, s, j),
        resolve_scene_spec(st, d2) == Some(s),
        item_id_of(d2) == item_id_of(d1),
    ensures
        field_bool(d1, "sceneItemLocked"@) matches Some(b) ==> response_to(
            next_state(st, "SetSceneItemLocked"@, d1, f1),
            "GetSceneItemLocked"@,
            rid,
            d2,
            f2,
        ) == success_view("GetSceneItemLocked"@, rid, Some(JsonView::Object(seq![("sceneItemLocked"@, JsonView::Bool(b))]))),
        field_str(d1, "sceneItemBlendMode"@) matches Some(m) ==> response_to(
            next_state(st, "SetSceneItemBlendMode"@, d1, f1),
            "GetSceneItemBlendMode"@,
            rid,
            d2,
            f2,
        ) == success_view("GetSceneItemBlendMode"@, rid, Some(JsonView::Object(seq![("sceneItemBlendMode"@, JsonView::Str(m))]))),
{
    law_scene_item_setters(st, d1, f1, rid, s, j);
    lemma_names_item(st, d1, s, j);
    let item = st.scenes[s].items[j];
    if let Some(b) = field_bool(d1, "sceneItemLocked"@) {
        let s1 = replaced_item(st, s, j, SceneItemView { locked: b, ..item });
        assert(same_layout(st, s1));
        lemma_same_layout_lookup(st, s1, d2);
        law_scene_item_reads(s1, d2, f2, rid, s, j);
    }
    if let Some(m) = field_str(d1, "sceneItemBlendMode"@) {
        let s1 = replaced_item(st, s, j, SceneItemView { blend_mode: m, ..item });
        assert(same_layout(st, s1));
        lemma_same_layout_lookup(st, s1, d2);
        law_scene_item_reads(s1, d2, f2, rid, s, j);
    }
}

/// `SetSceneItemTransform` on a named item sets the position, rotation and
/// scale that the transform it carries gives, keeps the rest of the
/// transform and of the state.
pub proof fn law_scene_item_transform_set(st: StateView, d: JsonView, f: Seq<Seq<char>>, s: int, j: int)
    requires
        names_item(st, d, s, j),
    ensures
        ({
            let item = st.scenes[s].items[j];
            let tr = item.transform;
            next_state(st, "SetSceneItemTransform"@, d, f) == match get_field(d, "sceneItemTransform"@) {
                Some(t) => replaced_item(
                    st,
                    s,
                    j,
                    SceneItemView {
                        transform: SceneItemTransform {
                            position_x: match field_f64(t, "positionX"@) {
                                Some(v) => v,
                                None => tr.position_x,
                            },
                            position_y: match field_f64(t, "positionY"@) {
                                Some(v) => v,
                                None => tr.position_y,
                            },
                            rotation: match field_f64(t, "rotation"@) {
                                Some(v) => v,
                                None => tr.rotation,
                            },
                            scale_x: match field_f64(t, "scaleX"@) {
                                Some(v) => v,
                                None => tr.scale_x,
                            },
                            scale_y: match field_f64(t, "scaleY"@) {
                                Some(v) => v,
                                None => tr.scale_y,
                            },
                            ..tr
                        },
                        ..item
                    },
                ),
                None => st,
            }
        }),
{
    lemma_request_type_names();
    reveal(handle_spec);
    lemma_names_item(st, d, s, j);
}

/// `RemoveSceneItem` on a named item takes it out of its scene, keeping the
/// other items in order and the other scenes as they were.
pub proof fn law_remove_scene_item(st: StateView, d: JsonView, f: Seq<Seq<char>>, rid: Seq<char>, s: int, j: int)
    requires
        names_item(st, d, s, j),
    ensures
        ({
            let after = next_state(st, "RemoveSceneItem"@, d, f);
            &&& response_to(st, "RemoveSceneItem"@, rid, d, f) == success_view("RemoveSceneItem"@, rid, None)
            &&& after == StateView {
                scenes: st.scenes.update(
                    s,
                    SceneView { name: st.scenes[s].name, uuid: st.scenes[s].uuid, items: st.scenes[s].items.remove(j) },
                ),
                ..st
            }
        }),
{
    lemma_request_type_names();
    reveal(handle_spec);
    lemma_names_item(st, d, s, j);
}

/// Where no scene item in the named scene has the named id, a request on it
/// fails with "Scene item not found" and changes nothing.
pub proof fn law_missing_scene_item(st: StateView, rt: Seq<char>, d: JsonView, f: Seq<Seq<char>>, rid: Seq<char>)
    requires
        rt == "GetSceneItemEnabled"@ || rt == "SetSceneItemEnabled"@ || rt == "GetSceneItemLocked"@ || rt
            == "SetSceneItemLocked"@ || rt == "RemoveSceneItem"@ || rt == "SetSceneItemIndex"@ || rt
            == "DuplicateSceneItem"@ || rt == "SetSceneItemTransform"@ || rt == "GetSceneItemTransform"@,
        resolve_scene_spec(st, d) is Some,
        first_index(st.scenes[resolve_scene_spec(st, d)->0].items, item_with_id(item_id_of(d))) is None,
    ensures
        response_to(st, rt, rid, d, f) == error_view(rt, rid, 600, "Scene item not found"@),
        next_state(st, rt, d, f) == st,
{
    lemma_request_type_names();
    reveal(handle_spec);
}

/// `SetSceneItemIndex` on a named item moves it to the requested position,
/// or last where that is past the end; the other items keep their order.
/// Where item ids are unique, `GetSceneItemIndex` of it then answers that
/// position.
pub proof fn law_scene_item_index_set(
    st: StateView,
    d1: JsonView,
    d2: JsonView,
    f1: Seq<Seq<char>>,
    f2: Seq<Seq<char>>,
    rid: Seq<char>,
    s: int,
    j: int,
    k: u64,
)
    requires
        names_item(st, d1, s, j),
        field_u64(d1, "sceneItemIndex"@) == Some(k),
        k <= usize::MAX,
    ensures
        ({
            let items = st.scenes[s].items;
            let rest = items.remove(j);
            let at = if k < rest.len() { k as int } else { rest.len() as int };
            let after = next_state(st, "SetSceneItemIndex"@, d1, f1);
            &&& response_to(st, "SetSceneItemIndex"@, rid, d1, f1) == success_view("SetSceneItemIndex"@, rid, None)
            &&& after.scenes.len() == st.scenes.len()
            &&& after.scenes[s].items.len() == items.len()
            &&& after.scenes[s].items[at] == items[j]
            &&& forall|m: int| 0 <= m < at ==> #[trigger] after.scenes[s].items[m] == rest[m]
            &&& forall|m: int| at < m < items.len() ==> #[trigger] after.scenes[s].items[m] == rest[m - 1]
            &&& forall|q: int| 0 <= q < st.scenes.len() && q != s ==> #[trigger] after.scenes[q] == st.scenes[q]
            &&& item_ids_unique(st.scenes) && resolve_scene_spec(st, d2) == Some(s) && item_id_of(d2) == item_id_of(d1)
                ==> response_to(after, "GetSceneItemIndex"@, rid, d2, f2) == success_view(
                "GetSceneItemIndex"@,
                rid,
                Some(JsonView::Object(seq![("sceneItemIndex"@, JsonView::Number(JsonNumber::PosInt(at as u64)))])),
            )
        }),
{
    lemma_request_type_names();
    reveal(handle_spec);
    lemma_names_item(st, d1, s, j);
    let items = st.scenes[s].items;
    let rest = items.remove(j);
    let at = if k < rest.len() { k as int } else { rest.len() as int };
    let after = next_state(st, "SetSceneItemIndex"@, d1, f1);
    let moved = rest.insert(at, items[j]);
    assert(after.scenes[s].items == moved);
    if item_ids_unique(st.scenes) && resolve_scene_spec(st, d2) == Some(s) && item_id_of(d2) == item_id_of(d1) {
        assert(same_scene_names(st, after));
        lemma_resolve_scene_same_names(st, after, d2);
        let p = item_with_id(item_id_of(d1));
        assert forall|m: int| 0 <= m < at implies !p(#[trigger] moved[m]) by {
            assert(moved[m] == rest[m]);
            let o = if m < j { m } else { m + 1 };
            assert(rest[m] == items[o]);
            assert(st.scenes[s].items[o].id != st.scenes[s].items[j].id);
        }
        lemma_first_index(moved, p, at);
        law_scene_item_reads(after, d2, f2, rid, s, at);
    }
}

/// `CreateSceneItem` in a named scene appends a new item whose id is one above
/// every id, with the source name given (or "New Source"), enabled as given
/// (or enabled), unlocked, of kind `image_source`, normal blending, at the
/// origin unrotated and unscaled at 1920 by 1080, and with the fresh UUID; it
/// answers the new id.
pub proof fn law_create_scene_item(st: StateView, d: JsonView, f: Seq<Seq<char>>, rid: Seq<char>, s: int)
    requires
        resolve_scene_spec(st, d) == Some(s),
        max_scene_item_id(st.scenes) < u32::MAX,
    ensures
        ({
            let id = (max_scene_item_id(st.scenes) + 1) as u32;
            let item = SceneItemView {
                id,
                source_name: match field_str(d, "sourceName"@) {
                    Some(n) => n,
                    None => "New Source"@,
                },
                source_uuid: f[0],
                source_kind: "image_source"@,
                enabled: match field_bool(d, "sceneItemEnabled"@) {
                    Some(b) => b,
                    None => true,
                },
                locked: false,
                blend_mode: "OBS_BLEND_NORMAL"@,
                transform: SceneItemTransform {
                    position_x: Real::OfU64(0),
                    position_y: Real::OfU64(0),
                    rotation: Real::OfU64(0),
                    scale_x: Real::OfU64(1),
                    scale_y: Real::OfU64(1),
                    width: Real::OfU64(1920),
                    height: Real::OfU64(1080),
                    source_width: Real::OfU64(1920),
                    source_height: Real::OfU64(1080),
                },
            };
            &&& id > max_scene_item_id(st.scenes)
            &&& next_state(st, "CreateSceneItem"@, d, f) == StateView {
                scenes: st.scenes.update(
                    s,
                    SceneView { name: st.scenes[s].name, uuid: st.scenes[s].uuid, items: st.scenes[s].items.push(item) },
                ),
                ..st
            }
            &&& response_to(st, "CreateSceneItem"@, rid, d, f) == success_view(
                "CreateSceneItem"@,
                rid,
                Some(JsonView::Object(seq![("sceneItemId"@, JsonView::Number(JsonNumber::PosInt(id as u64)))])),
            )
        }),
{
    lemma_request_type_names();
    reveal(handle_spec);
    lemma_resolve_scene_in_range(st, d);
}

/// `DuplicateSceneItem` on a named item appends to the destination scene
/// (the first named `destinationSceneName`, else the item's own) a copy with
/// an id one above every id, the fresh UUID and unlocked, the rest as the
/// item; it answers the new id.
pub proof fn law_duplicate_scene_item(st: StateView, d: JsonView, f: Seq<Seq<char>>, rid: Seq<char>, s: int, j: int)
    requires
        names_item(st, d, s, j),
        max_scene_item_id(st.scenes) < u32::MAX,
    ensures
        ({
            let id = (max_scene_item_id(st.scenes) + 1) as u32;
            let item = st.scenes[s].items[j];
            let dest = match field_str(d, "destinationSceneName"@) {
                Some(n) => match first_index(st.scenes, scene_named(n)) {
                    Some(x) => x,
                    None => s,
                },
                None => s,
            };
            let copy = SceneItemView { id, source_uuid: f[0], locked: false, ..item };
            &&& id > max_scene_item_id(st.scenes)
            &&& next_state(st, "DuplicateSceneItem"@, d, f) == StateView {
                scenes: st.scenes.update(
                    dest,
                    SceneView {
                        name: st.scenes[dest].name,
                        uuid: st.scenes[dest].uuid,
                        items: st.scenes[dest].items.push(copy),
                    },
                ),
                ..st
            }
            &&& response_to(st, "DuplicateSceneItem"@, rid, d, f) == success_view(
                "DuplicateSceneItem"@,
                rid,
                Some(JsonView::Object(seq![("sceneItemId"@, JsonView::Number(JsonNumber::PosInt(id as u64)))])),
            )
        }),
{
    lemma_request_type_names();
    reveal(handle_spec);
    lemma_names_item(st, d, s, j);
}

/// `CreateScene` appends a scene with the name given (or "New Scene"), the
/// fresh UUID and no items, and answers that UUID.
pub proof fn law_create_scene(st: StateView, d: JsonView, f: Seq<Seq<char>>, rid: Seq<char>)
    ensures
        ({
            let scene = SceneView {
                name: match field_str(d, "sceneName"@) {
                    Some(n) => n,
                    None => "New Scene"@,
                },
                uuid: f[0],
                items: Seq::empty(),
            };
            &&& next_state(st, "CreateScene"@, d, f) == StateView { scenes: st.scenes.push(scene), ..st }
            &&& response_to(st, "CreateScene"@, rid, d, f) == success_view(
                "CreateScene"@,
                rid,
                Some(JsonView::Object(seq![("sceneUuid"@, JsonView::Str(f[0]))])),
            )
        }),
{
    lemma_request_type_names();
    reveal(handle_spec);
}

/// `RemoveScene` on a named scene takes it out, keeping the others in order; a
/// program or preview position that is no longer a scene becomes the first.
pub proof fn law_remove_scene(st: StateView, d: JsonView, f: Seq<Seq<char>>, rid: Seq<char>, i: int)
    requires
        resolve_scene_spec(st, d) == Some(i),
    ensures
        ({
            let scenes = st.scenes.remove(i);
            &&& next_state(st, "RemoveScene"@, d, f) == StateView {
                scenes,
                current_program_scene: if st.current_program_scene < scenes.len() { st.current_program_scene } else { 0 },
                current_preview_scene: if st.current_preview_scene < scenes.len() { st.current_preview_scene } else { 0 },
                ..st
            }
            &&& response_to(st, "RemoveScene"@, rid, d, f) == success_view("RemoveScene"@, rid, None)
        }),
{
    lemma_request_type_names();
    reveal(handle_spec);
}

/// A request on a scene that no data names fails with "Scene not found" and
/// changes nothing.
pub proof fn law_missing_scene(st: StateView, rt: Seq<char>, d: JsonView, f: Seq<Seq<char>>, rid: Seq<char>)
    requires
        rt == "SetCurrentProgramScene"@ || rt == "SetCurrentPreviewScene"@ || rt == "RemoveScene"@ || rt
            == "SetSceneName"@ || rt == "GetSceneItemList"@ || rt == "CreateSceneItem"@ || rt == "GetSceneItemId"@
            || rt == "SetSceneItemEnabled"@ || rt == "RemoveSceneItem"@,
        resolve_scene_spec(st, d) is None,
    ensures
        response_to(st, rt, rid, d, f) == error_view(rt, rid, 600, "Scene not found"@),
        next_state(st, rt, d, f) == st,
{
    lemma_request_type_names();
    reveal(handle_spec);
}

/// `GetSceneList` names the program and preview scenes and lists every scene
/// with its name, UUID and position, in order; `GetCurrentProgramScene` and
/// `GetCurrentPreviewScene` name theirs. None changes the state.
pub proof fn law_scene_listings(st: StateView, d: JsonView, f: Seq<Seq<char>>, rid: Seq<char>)
    requires
        st.current_program_scene < st.scenes.len(),
        st.current_preview_scene < st.scenes.len(),
    ensures
        ({
            let program = st.scenes[st.current_program_scene as int];
            let preview = st.scenes[st.current_preview_scene as int];
            &&& response_to(st, "GetSceneList"@, rid, d, f) == success_view(
                "GetSceneList"@,
                rid,
                Some(
                    JsonView::Object(
                        seq![
                            ("currentProgramSceneName"@, JsonView::Str(program.name)),
                            ("currentProgramSceneUuid"@, JsonView::Str(program.uuid)),
                            ("currentPreviewSceneName"@, JsonView::Str(preview.name)),
                            ("currentPreviewSceneUuid"@, JsonView::Str(preview.uuid)),
                            (
                                "scenes"@,
                                JsonView::Array(
                                    Seq::new(
                                        st.scenes.len(),
                                        |i: int|
                                            JsonView::Object(
                                                seq![
                                                    ("sceneName"@, JsonView::Str(st.scenes[i].name)),
                                                    ("sceneUuid"@, JsonView::Str(st.scenes[i].uuid)),
                                                    ("sceneIndex"@, JsonView::Number(JsonNumber::PosInt(i as u64))),
                                                ],
                                            ),
                                    ),
                                ),
                            ),
                        ],
                    ),
                ),
            )
            &&& response_to(st, "GetCurrentProgramScene"@, rid, d, f) == success_view(
                "GetCurrentProgramScene"@,
                rid,
                Some(
                    JsonView::Object(
                        seq![
                            ("sceneName"@, JsonView::Str(program.name)),
                            ("sceneUuid"@, JsonView::Str(program.uuid)),
                            ("currentProgramSceneName"@, JsonView::Str(program.name)),
                            ("currentProgramSceneUuid"@, JsonView::Str(program.uuid)),
                        ],
                    ),
                ),
            )
            &&& response_to(st, "GetCurrentPreviewScene"@, rid, d, f) == success_view(
                "GetCurrentPreviewScene"@,
                rid,
                Some(
                    JsonView::Object(
                        seq![
                            ("sceneName"@, JsonView::Str(preview.name)),
                            ("sceneUuid"@, JsonView::Str(preview.uuid)),
                            ("currentPreviewSceneName"@, JsonView::Str(preview.name)),
                            ("currentPreviewSceneUuid"@, JsonView::Str(preview.uuid)),
                        ],
                    ),
                ),
            )
            &&& next_state(st, "GetSceneList"@, d, f) == st
            &&& next_state(st, "GetCurrentProgramScene"@, d, f) == st
            &&& next_state(st, "GetCurrentPreviewScene"@, d, f) == st
        }),
{
    lemma_request_type_names();
    reveal(handle_spec);
    let a = crate::handler::scenes::scene_entries(st.scenes);
    let b = Seq::new(
        st.scenes.len(),
        |i: int|
            JsonView::Object(
                seq![
                    ("sceneName"@, JsonView::Str(st.scenes[i].name)),
                    ("sceneUuid"@, JsonView::Str(st.scenes[i].uuid)),
                    ("sceneIndex"@, JsonView::Number(JsonNumber::PosInt(i as u64))),
                ],
            ),
    );
    assert(a =~= b);
}

/// The program and preview scenes are set to the scene named, and only they.
pub proof fn law_set_current_scenes(st: StateView, d: JsonView, f: Seq<Seq<char>>, i: int)
    requires
        resolve_scene_spec(st, d) == Some(i),
        st.scenes.len() <= usize::MAX,
    ensures
        ({
            &&& next_state(st, "SetCurrentProgramScene"@, d, f) == StateView { current_program_scene: i as usize, ..st }
            &&& next_state(st, "SetCurrentPreviewScene"@, d, f) == StateView { current_preview_scene: i as usize, ..st }
            &&& i as usize == i
        }),
{
    lemma_request_type_names();
    reveal(handle_spec);
    lemma_resolve_scene_in_range(st, d);
}

/// `CreateInput` appends an input with the name given (or "New Input"), the
/// kind given (or empty), the settings given (or an empty object), the fresh
/// UUID, unmuted at full volume; it answers that UUID.
pub proof fn law_create_input(st: StateView, d: JsonView, f: Seq<Seq<char>>, rid: Seq<char>)
    ensures
        ({
            let input = InputView {
                name: match field_str(d, "inputName"@) {
                    Some(n) => n,
                    None => "New Input"@,
                },
                uuid: f[0],
                kind: match field_str(d, "inputKind"@) {
                    Some(k) => k,
                    None => ""@,
                },
                muted: false,
                volume_mul: Real::OfU64(1),
                volume_db: Real::OfU64(0),
                settings: match get_field(d, "inputSettings"@) {
                    Some(v) => v,
                    None => JsonView::Object(Seq::empty()),
                },
            };
            &&& next_state(st, "CreateInput"@, d, f) == StateView { inputs: st.inputs.push(input), ..st }
            &&& response_to(st, "CreateInput"@, rid, d, f) == success_view(
                "CreateInput"@,
                rid,
                Some(
                    JsonView::Object(
                        seq![("inputUuid"@, JsonView::Str(f[0])), ("sceneItemId"@, JsonView::Number(JsonNumber::PosInt(1)))],
                    ),
                ),
            )
        }),
{
    lemma_request_type_names();
    reveal(handle_spec);
}

/// The reads of a named input answer its stored mute, and its stored
/// settings with its kind; neither changes the state.
pub proof fn law_input_reads(st: StateView, d: JsonView, f: Seq<Seq<char>>, rid: Seq<char>, i: int)
    requires
        resolve_input_spec(st, d) == Some(i),
    ensures
        ({
            let input = st.inputs[i];
            &&& response_to(st, "GetInputMute"@, rid, d, f) == success_view(
                "GetInputMute"@,
                rid,
                Some(JsonView::Object(seq![("inputMuted"@, JsonView::Bool(input.muted))])),
            )
            &&& response_to(st, "GetInputSettings"@, rid, d, f) == success_view(
                "GetInputSettings"@,
                rid,
                Some(JsonView::Object(seq![("inputSettings"@, input.settings), ("inputKind"@, JsonView::Str(input.kind))])),
            )
            &&& next_state(st, "GetInputMute"@, d, f) == st
            &&& next_state(st, "GetInputSettings"@, d, f) == st
        }),
{
    lemma_request_type_names();
    reveal(handle_spec);
}

/// `RemoveInput` takes the named input out, keeping the others in order;
/// `SetInputName` with a string `n` renames it, and only it.
pub proof fn law_input_changes(st: StateView, d: JsonView, f: Seq<Seq<char>>, rid: Seq<char>, i: int)
    requires
        resolve_input_spec(st, d) == Some(i),
    ensures
        ({
            &&& next_state(st, "RemoveInput"@, d, f) == StateView { inputs: st.inputs.remove(i), ..st }
            &&& response_to(st, "RemoveInput"@, rid, d, f) == success_view("RemoveInput"@, rid, None)
            &&& next_state(st, "SetInputName"@, d, f) == match field_str(d, "newInputName"@) {
                Some(n) => StateView { inputs: st.inputs.update(i, InputView { name: n, ..st.inputs[i] }), ..st },
                None => st,
            }
        }),
{
    lemma_request_type_names();
    reveal(handle_spec);
}

/// A request on an input that no data names fails with "Input not found" and
/// changes nothing.
pub proof fn law_missing_input(st: StateView, rt: Seq<char>, d: JsonView, f: Seq<Seq<char>>, rid: Seq<char>)
    requires
        rt == "RemoveInput"@ || rt == "SetInputName"@ || rt == "GetInputSettings"@ || rt == "SetInputSettings"@ || rt
            == "GetInputMute"@ || rt == "SetInputMute"@ || rt == "ToggleInputMute"@ || rt == "GetInputVolume"@ || rt
            == "SetInputVolume"@,
        resolve_input_spec(st, d) is None,
    ensures
        response_to(st, rt, rid, d, f) == error_view(rt, rid, 600, "Input not found"@),
        next_state(st, rt, d, f) == st,
{
    lemma_request_type_names();
    reveal(handle_spec);
}

/// The strings as JSON strings.
pub open spec fn json_strings(s: Seq<Seq<char>>) -> Seq<JsonView> {
    Seq::new(s.len(), |i: int| JsonView::Str(s[i]))
}

/// Profiles: `CreateProfile` appends the name given, `SetCurrentProfile` makes
/// it current, and `GetProfileList` answers the current profile and all
/// profiles in order.
pub proof fn law_profiles(st: StateView, d: JsonView, f: Seq<Seq<char>>, rid: Seq<char>)
    ensures
        ({
            &&& next_state(st, "CreateProfile"@, d, f) == match field_str(d, "profileName"@) {
                Some(n) => StateView { profiles: st.profiles.push(n), ..st },
                None => st,
            }
            &&& next_state(st, "SetCurrentProfile"@, d, f) == match field_str(d, "profileName"@) {
                Some(n) => StateView { current_profile: n, ..st },
                None => st,
            }
            &&& response_to(st, "GetProfileList"@, rid, d, f) == success_view(
                "GetProfileList"@,
                rid,
                Some(
                    JsonView::Object(
                        seq![
                            ("currentProfileName"@, JsonView::Str(st.current_profile)),
                            ("profiles"@, JsonView::Array(json_strings(st.profiles))),
                        ],
                    ),
                ),
            )
            &&& next_state(st, "GetProfileList"@, d, f) == st
        }),
{
    lemma_request_type_names();
    reveal(handle_spec);
    assert(crate::handler::config::str_items(st.profiles) =~= json_strings(st.profiles));
}

/// Scene collections: `CreateSceneCollection` appends the name given and makes
/// it current, `SetCurrentSceneCollection` makes it current, and
/// `GetSceneCollectionList` answers the current one and all in order.
pub proof fn law_scene_collections(st: StateView, d: JsonView, f: Seq<Seq<char>>, rid: Seq<char>)
    ensures
        ({
            &&& next_state(st, "CreateSceneCollection"@, d, f) == match field_str(d, "sceneCollectionName"@) {
                Some(n) => StateView { scene_collections: st.scene_collections.push(n), current_scene_collection: n, ..st },
                None => st,
            }
            &&& next_state(st, "SetCurrentSceneCollection"@, d, f) == match field_str(d, "sceneCollectionName"@) {
                Some(n) => StateView { current_scene_collection: n, ..st },
                None => st,
            }
            &&& response_to(st, "GetSceneCollectionList"@, rid, d, f) == success_view(
                "GetSceneCollectionList"@,
                rid,
                Some(
                    JsonView::Object(
                        seq![
                            ("currentSceneCollectionName"@, JsonView::Str(st.current_scene_collection)),
                            ("sceneCollections"@, JsonView::Array(json_strings(st.scene_collections))),
                        ],
                    ),
                ),
            )
        }),
{
    lemma_request_type_names();
    reveal(handle_spec);
    assert(crate::handler::config::str_items(st.scene_collections) =~= json_strings(st.scene_collections));
}

/// `SetCurrentSceneTransition` with a name makes it current, and only that;
/// `GetCurrentSceneTransition` answers the current transition's name and
/// duration, with the fresh UUID.
pub proof fn law_current_transition(st: StateView, d: JsonView, f: Seq<Seq<char>>, rid: Seq<char>)
    ensures
        ({
            &&& next_state(st, "SetCurrentSceneTransition"@, d, f) == match field_str(d, "transitionName"@) {
                Some(n) => StateView { current_transition: n, ..st },
                None => st,
            }
            &&& response_to(st, "GetCurrentSceneTransition"@, rid, d, f) == success_view(
                "GetCurrentSceneTransition"@,
                rid,
                Some(
                    JsonView::Object(
                        seq![
                            ("transitionName"@, JsonView::Str(st.current_transition)),
                            ("transitionUuid"@, JsonView::Str(f[0])),
                            ("transitionKind"@, JsonView::Str("fade_transition"@)),
                            ("transitionFixed"@, JsonView::Bool(false)),
                            ("transitionDuration"@, JsonView::Number(JsonNumber::PosInt(st.transition_duration as u64))),
                            ("transitionConfigurable"@, JsonView::Bool(true)),
                            ("transitionSettings"@, JsonView::Object(Seq::empty())),
                        ],
                    ),
                ),
            )
            &&& next_state(st, "GetCurrentSceneTransition"@, d, f) == st
        }),
{
    lemma_request_type_names();
    reveal(handle_spec);
}

/// Starting and stopping outputs sets exactly their flags: stream, recording
/// (which also clears the pause), the virtual camera and the replay buffer;
/// pausing and resuming set the pause, and toggling it flips it while
/// recording.
pub proof fn law_output_controls(st: StateView, d: JsonView, f: Seq<Seq<char>>)
    ensures
        ({
            &&& next_state(st, "StartStream"@, d, f) == StateView { streaming: true, ..st }
            &&& next_state(st, "StopStream"@, d, f) == StateView { streaming: false, ..st }
            &&& next_state(st, "StartRecord"@, d, f) == StateView { recording: true, record_paused: false, ..st }
            &&& next_state(st, "StopRecord"@, d, f) == StateView { recording: false, record_paused: false, ..st }
            &&& next_state(st, "PauseRecord"@, d, f) == StateView { record_paused: true, ..st }
            &&& next_state(st, "ResumeRecord"@, d, f) == StateView { record_paused: false, ..st }
            &&& next_state(st, "ToggleRecordPause"@, d, f) == if st.recording {
                StateView { record_paused: !st.record_paused, ..st }
            } else {
                st
            }
            &&& next_state(st, "StartVirtualCam"@, d, f) == StateView { virtual_cam: true, ..st }
            &&& next_state(st, "StopVirtualCam"@, d, f) == StateView { virtual_cam: false, ..st }
            &&& next_state(st, "StartReplayBuffer"@, d, f) == StateView { replay_buffer: true, ..st }
            &&& next_state(st, "StopReplayBuffer"@, d, f) == StateView { replay_buffer: false, ..st }
        }),
{
    lemma_request_type_names();
    reveal(handle_spec);
}

/// The status reads answer the stored flags and timecodes and change nothing.
pub proof fn law_output_reads(st: StateView, d: JsonView, f: Seq<Seq<char>>, rid: Seq<char>)
    ensures
        ({
            &&& response_to(st, "GetStreamStatus"@, rid, d, f) == success_view(
                "GetStreamStatus"@,
                rid,
                Some(
                    JsonView::Object(
                        seq![
                            ("outputActive"@, JsonView::Bool(st.streaming)),
                            ("outputReconnecting"@, JsonView::Bool(false)),
                            ("outputTimecode"@, JsonView::Str(st.stream_timecode)),
                            ("outputDuration"@, JsonView::Number(JsonNumber::PosInt(0))),
                            ("outputCongestion"@, JsonView::Number(JsonNumber::Float(Real::OfU64(0)))),
                            ("outputBytes"@, JsonView::Number(JsonNumber::PosInt(0))),
                            ("outputSkippedFrames"@, JsonView::Number(JsonNumber::PosInt(0))),
                            ("outputTotalFrames"@, JsonView::Number(JsonNumber::PosInt(0))),
                        ],
                    ),
                ),
            )
            &&& response_to(st, "GetRecordStatus"@, rid, d, f) == success_view(
                "GetRecordStatus"@,
                rid,
                Some(
                    JsonView::Object(
                        seq![
                            ("outputActive"@, JsonView::Bool(st.recording)),
                            ("outputPaused"@, JsonView::Bool(st.record_paused)),
                            ("outputTimecode"@, JsonView::Str(st.record_timecode)),
                            ("outputDuration"@, JsonView::Number(JsonNumber::PosInt(0))),
                            ("outputBytes"@, JsonView::Number(JsonNumber::PosInt(0))),
                        ],
                    ),
                ),
            )
            &&& response_to(st, "GetVirtualCamStatus"@, rid, d, f) == success_view(
                "GetVirtualCamStatus"@,
                rid,
                Some(JsonView::Object(seq![("outputActive"@, JsonView::Bool(st.virtual_cam))])),
            )
            &&& response_to(st, "GetReplayBufferStatus"@, rid, d, f) == success_view(
                "GetReplayBufferStatus"@,
                rid,
                Some(JsonView::Object(seq![("outputActive"@, JsonView::Bool(st.replay_buffer))])),
            )
            &&& next_state(st, "GetStreamStatus"@, d, f) == st
            &&& next_state(st, "GetRecordStatus"@, d, f) == st
            &&& next_state(st, "GetVirtualCamStatus"@, d, f) == st
            &&& next_state(st, "GetReplayBufferStatus"@, d, f) == st
        }),
{
    lemma_request_type_names();
    reveal(handle_spec);
}

/// A transform as obs-websocket reports it: position, rotation, scale and
/// size as stored, alignment centre, no bounds and no crop.
pub open spec fn transform_object(t: SceneItemTransform) -> JsonView {
    let float = |x: Real| JsonView::Number(JsonNumber::Float(x));
    let whole = |n: u64| JsonView::Number(JsonNumber::PosInt(n));
    JsonView::Object(
        seq![
            ("positionX"@, float(t.position_x)),
            ("positionY"@, float(t.position_y)),
            ("rotation"@, float(t.rotation)),
            ("scaleX"@, float(t.scale_x)),
            ("scaleY"@, float(t.scale_y)),
            ("width"@, float(t.width)),
            ("height"@, float(t.height)),
            ("alignment"@, whole(5)),
            ("boundsType"@, JsonView::Str("OBS_BOUNDS_NONE"@)),
            ("boundsAlignment"@, whole(0)),
            ("boundsWidth"@, float(Real::OfU64(0))),
            ("boundsHeight"@, float(Real::OfU64(0))),
            ("cropLeft"@, whole(0)),
            ("cropRight"@, whole(0)),
            ("cropTop"@, whole(0)),
            ("cropBottom"@, whole(0)),
            ("sourceWidth"@, float(t.source_width)),
            ("sourceHeight"@, float(t.source_height)),
        ],
    )
}

/// A scene item as `GetSceneItemList` lists it at position `m`.
pub open spec fn item_object(item: SceneItemView, m: int) -> JsonView {
    JsonView::Object(
        seq![
            ("sceneItemId"@, JsonView::Number(JsonNumber::PosInt(item.id as u64))),
            ("sceneItemIndex"@, JsonView::Number(JsonNumber::PosInt(m as u64))),
            ("sourceName"@, JsonView::Str(item.source_name)),
            ("sourceUuid"@, JsonView::Str(item.source_uuid)),
            ("sourceType"@, JsonView::Str("OBS_SOURCE_TYPE_INPUT"@)),
            ("inputKind"@, JsonView::Str(item.source_kind)),
            ("isGroup"@, JsonView::Bool(false)),
            ("sceneItemEnabled"@, JsonView::Bool(item.enabled)),
            ("sceneItemLocked"@, JsonView::Bool(item.locked)),
            ("sceneItemBlendMode"@, JsonView::Str(item.blend_mode)),
            ("sceneItemTransform"@, transform_object(item.transform)),
        ],
    )
}

/// `GetSceneItemTransform` of a named item answers its stored transform, and
/// `GetSceneItemList` of a named scene lists every item with its position,
/// in order; neither changes the state.
pub proof fn law_scene_item_listing(st: StateView, d: JsonView, f: Seq<Seq<char>>, rid: Seq<char>, s: int)
    requires
        resolve_scene_spec(st, d) == Some(s),
    ensures
        ({
            let items = st.scenes[s].items;
            &&& response_to(st, "GetSceneItemList"@, rid, d, f) == success_view(
                "GetSceneItemList"@,
                rid,
                Some(
                    JsonView::Object(
                        seq![("sceneItems"@, JsonView::Array(Seq::new(items.len(), |m: int| item_object(items[m], m))))],
                    ),
                ),
            )
            &&& next_state(st, "GetSceneItemList"@, d, f) == st
            &&& first_index(items, item_with_id(item_id_of(d))) matches Some(j) ==> response_to(
                st,
                "GetSceneItemTransform"@,
                rid,
                d,
                f,
            ) == success_view(
                "GetSceneItemTransform"@,
                rid,
                Some(JsonView::Object(seq![("sceneItemTransform"@, transform_object(items[j].transform))])),
            )
        }),
{
    lemma_request_type_names();
    reveal(handle_spec);
    let items = st.scenes[s].items;
    assert(crate::handler::items::item_entries(items) =~= Seq::new(items.len(), |m: int| item_object(items[m], m)));
}

/// An input as `GetInputList` lists it.
pub open spec fn input_object(x: InputView) -> JsonView {
    JsonView::Object(
        seq![
            ("inputName"@, JsonView::Str(x.name)),
            ("inputUuid"@, JsonView::Str(x.uuid)),
            ("inputKind"@, JsonView::Str(x.kind)),
            ("unversionedInputKind"@, JsonView::Str(x.kind)),
        ],
    )
}

/// Whether an input is of the kind asked for; every input is, where none is.
pub open spec fn of_kind(kind: Option<Seq<char>>) -> spec_fn(InputView) -> bool {
    |x: InputView| kind is None || x.kind == kind->0
}

/// The entries of `GetInputList` are the inputs of the kind asked for, in
/// order.
pub proof fn lemma_input_entries(inputs: Seq<InputView>, kind: Option<Seq<char>>)
    ensures
        crate::handler::inputs::input_entries(inputs, kind) == inputs.filter(of_kind(kind)).map_values(
            |x: InputView| input_object(x),
        ),
    decreases inputs.len(),
{
    reveal(Seq::filter);
    if inputs.len() > 0 {
        lemma_input_entries(inputs.drop_last(), kind);
        let r = inputs.drop_last().filter(of_kind(kind));
        let x = inputs.last();
        assert(r.push(x).map_values(|x: InputView| input_object(x)) =~= r.map_values(|x: InputView| input_object(x)).push(
            input_object(x),
        ));
    }
}

/// `GetInputList` lists the inputs of the kind asked for (all, where none is),
/// in order, and changes nothing.
pub proof fn law_input_list(st: StateView, d: JsonView, f: Seq<Seq<char>>, rid: Seq<char>)
    ensures
        response_to(st, "GetInputList"@, rid, d, f) == success_view(
            "GetInputList"@,
            rid,
            Some(
                JsonView::Object(
                    seq![
                        (
                            "inputs"@,
                            JsonView::Array(
                                st.inputs.filter(of_kind(field_str(d, "inputKind"@))).map_values(
                                    |x: InputView| input_object(x),
                                ),
                            ),
                        ),
                    ],
                ),
            ),
        ),
        next_state(st, "GetInputList"@, d, f) == st,
{
    lemma_request_type_names();
    reveal(handle_spec);
    lemma_input_entries(st.inputs, field_str(d, "inputKind"@));
}

/// `{"outputActive": b}`.
pub open spec fn active_object(b: bool) -> JsonView {
    JsonView::Object(seq![("outputActive"@, JsonView::Bool(b))])
}

/// The toggles flip exactly their flag and answer the new value: stream,
/// virtual camera, replay buffer, and recording (which clears the pause when
/// it stops).
pub proof fn law_toggle_outputs(st: StateView, d: JsonView, f: Seq<Seq<char>>, rid: Seq<char>)
    ensures
        ({
            &&& next_state(st, "ToggleStream"@, d, f) == StateView { streaming: !st.streaming, ..st }
            &&& response_to(st, "ToggleStream"@, rid, d, f) == success_view(
                "ToggleStream"@,
                rid,
                Some(active_object(!st.streaming)),
            )
            &&& next_state(st, "ToggleVirtualCam"@, d, f) == StateView { virtual_cam: !st.virtual_cam, ..st }
            &&& response_to(st, "ToggleVirtualCam"@, rid, d, f) == success_view(
                "ToggleVirtualCam"@,
                rid,
                Some(active_object(!st.virtual_cam)),
            )
            &&& next_state(st, "ToggleReplayBuffer"@, d, f) == StateView { replay_buffer: !st.replay_buffer, ..st }
            &&& response_to(st, "ToggleReplayBuffer"@, rid, d, f) == success_view(
                "ToggleReplayBuffer"@,
                rid,
                Some(active_object(!st.replay_buffer)),
            )
            &&& next_state(st, "ToggleRecord"@, d, f) == StateView {
                recording: !st.recording,
                record_paused: st.record_paused && !st.recording,
                ..st
            }
            &&& response_to(st, "ToggleRecord"@, rid, d, f) == success_view(
                "ToggleRecord"@,
                rid,
                Some(active_object(!st.recording)),
            )
        }),
{
    lemma_request_type_names();
    reveal(handle_spec);
}

/// Mute and studio mode: `SetInputMute` with a boolean sets the named input's
/// mute, and only it; `ToggleInputMute` flips it and answers the new value;
/// `SetStudioModeEnabled` with a boolean sets studio mode and
/// `GetStudioModeEnabled` answers it.
pub proof fn law_mute_and_studio_mode(st: StateView, d: JsonView, f: Seq<Seq<char>>, rid: Seq<char>)
    ensures
        ({
            &&& resolve_input_spec(st, d) matches Some(i) ==> {
                &&& next_state(st, "SetInputMute"@, d, f) == match field_bool(d, "inputMuted"@) {
                    Some(b) => StateView { inputs: st.inputs.update(i, InputView { muted: b, ..st.inputs[i] }), ..st },
                    None => st,
                }
                &&& next_state(st, "ToggleInputMute"@, d, f) == StateView {
                    inputs: st.inputs.update(i, InputView { muted: !st.inputs[i].muted, ..st.inputs[i] }),
                    ..st
                }
                &&& response_to(st, "ToggleInputMute"@, rid, d, f) == success_view(
                    "ToggleInputMute"@,
                    rid,
                    Some(JsonView::Object(seq![("inputMuted"@, JsonView::Bool(!st.inputs[i].muted))])),
                )
            }
            &&& next_state(st, "SetStudioModeEnabled"@, d, f) == match field_bool(d, "studioModeEnabled"@) {
                Some(b) => StateView { studio_mode: b, ..st },
                None => st,
            }
            &&& response_to(st, "GetStudioModeEnabled"@, rid, d, f) == success_view(
                "GetStudioModeEnabled"@,
                rid,
                Some(JsonView::Object(seq![("studioModeEnabled"@, JsonView::Bool(st.studio_mode))])),
            )
        }),
{
    lemma_request_type_names();
    reveal(handle_spec);
}

/// `GetVersion` answers the server's versions and platform, and changes
/// nothing.
pub proof fn law_version(st: StateView, d: JsonView, f: Seq<Seq<char>>, rid: Seq<char>)
    ensures
        response_to(st, "GetVersion"@, rid, d, f) == success_view(
            "GetVersion"@,
            rid,
            Some(
                JsonView::Object(
                    seq![
                        ("obsVersion"@, JsonView::Str("31.0.0"@)),
                        ("obsWebSocketVersion"@, JsonView::Str("5.5.4"@)),
                        ("rpcVersion"@, JsonView::Number(JsonNumber::PosInt(1))),
                        ("availableRequests"@, JsonView::Array(Seq::empty())),
                        (
                            "supportedImageFormats"@,
                            JsonView::Array(seq![JsonView::Str("png"@), JsonView::Str("jpg"@), JsonView::Str("bmp"@)]),
                        ),
                        ("platform"@, JsonView::Str("linux"@)),
                        ("platformDescription"@, JsonView::Str("OBS Mock Server"@)),
                    ],
                ),
            ),
        ),
        next_state(st, "GetVersion"@, d, f) == st,
{
    lemma_request_type_names();
    reveal(handle_spec);
}

/// `CallVendorRequest` echoes the vendor name and request type it was given
/// (empty strings where absent), and changes nothing.
pub proof fn law_vendor_request(st: StateView, d: JsonView, f: Seq<Seq<char>>, rid: Seq<char>)
    ensures
        ({
            let vendor = match get_field(d, "vendorName"@) {
                Some(v) => v,
                None => JsonView::Str(""@),
            };
            let request = match get_field(d, "requestType"@) {
                Some(v) => v,
                None => JsonView::Str(""@),
            };
            &&& response_to(st, "CallVendorRequest"@, rid, d, f) == success_view(
                "CallVendorRequest"@,
                rid,
                Some(
                    JsonView::Object(
                        seq![
                            ("vendorName"@, vendor),
                            ("requestType"@, request),
                            ("responseData"@, JsonView::Object(Seq::empty())),
                        ],
                    ),
                ),
            )
            &&& next_state(st, "CallVendorRequest"@, d, f) == st
        }),
{
    lemma_request_type_names();
    reveal(handle_spec);
    let vendor = match get_field(d, "vendorName"@) {
        Some(v) => v,
        None => JsonView::Str(""@),
    };
    let request = match get_field(d, "requestType"@) {
        Some(v) => v,
        None => JsonView::Str(""@),
    };
    assert(crate::handler::general::field_or(d, "vendorName"@, JsonView::Str(""@)) == vendor);
    assert(crate::handler::general::field_or(d, "requestType"@, JsonView::Str(""@)) == request);
}

/// After `SetPersistentData` stores a value in a slot, `GetPersistentData` of
/// that slot answers `{"slotValue": v}` with the `slotValue` given (null where
/// none was).
pub proof fn law_persistent_data_round_trip(
    st: StateView,
    d1: JsonView,
    d2: JsonView,
    f1: Seq<Seq<char>>,
    f2: Seq<Seq<char>>,
    rid: Seq<char>,
)
    requires
        field_str(d2, "realm"@) == field_str(d1, "realm"@),
        field_str(d2, "slotName"@) == field_str(d1, "slotName"@),
    ensures
        ({
            let v = match get_field(d1, "slotValue"@) {
                Some(x) => x,
                None => JsonView::Null,
            };
            &&& response_to(next_state(st, "SetPersistentData"@, d1, f1), "GetPersistentData"@, rid, d2, f2)
                == success_view("GetPersistentData"@, rid, Some(JsonView::Object(seq![("slotValue"@, v)])))
            &&& response_to(st, "SetPersistentData"@, rid, d1, f1) == success_view("SetPersistentData"@, rid, None)
        }),
{
    crate::laws::law_persistent_read_after_write(st, d1, d2, f1, f2, rid);
    lemma_request_type_names();
    reveal(handle_spec);
}

/// `SetInputSettings` on a named input with `inputSettings` given: with
/// overlay (the default), where both the old and the new settings are
/// objects, the new entries are assigned over the old; with overlay off, the
/// new settings replace the old. Nothing else changes.
pub proof fn law_set_input_settings(st: StateView, d: JsonView, f: Seq<Seq<char>>, rid: Seq<char>, i: int, ns: JsonView)
    requires
        resolve_input_spec(st, d) == Some(i),
        get_field(d, "inputSettings"@) == Some(ns),
    ensures
        ({
            let old_settings = st.inputs[i].settings;
            let settings = if field_bool(d, "overlay"@) == Some(false) {
                ns
            } else {
                match (old_settings, ns) {
                    (JsonView::Object(es), JsonView::Object(nes)) => JsonView::Object(crate::json::assign_all(es, nes)),
                    _ => old_settings,
                }
            };
            &&& next_state(st, "SetInputSettings"@, d, f) == StateView {
                inputs: st.inputs.update(i, InputView { settings, ..st.inputs[i] }),
                ..st
            }
            &&& response_to(st, "SetInputSettings"@, rid, d, f) == success_view("SetInputSettings"@, rid, None)
        }),
{
    lemma_request_type_names();
    reveal(handle_spec);
}

/// `GetSceneItemId` answers the id of the first item of the named scene whose
/// source is the `sourceName` given, or fails with "Scene item not found".
pub proof fn law_scene_item_id(st: StateView, d: JsonView, f: Seq<Seq<char>>, rid: Seq<char>, s: int)
    requires
        resolve_scene_spec(st, d) == Some(s),
    ensures
        ({
            let items = st.scenes[s].items;
            let name = match field_str(d, "sourceName"@) {
                Some(n) => n,
                None => ""@,
            };
            &&& response_to(st, "GetSceneItemId"@, rid, d, f) == match first_index(
                items,
                |x: SceneItemView| x.source_name == name,
            ) {
                Some(j) => success_view(
                    "GetSceneItemId"@,
                    rid,
                    Some(JsonView::Object(seq![("sceneItemId"@, JsonView::Number(JsonNumber::PosInt(items[j].id as u64)))])),
                ),
                None => error_view("GetSceneItemId"@, rid, 600, "Scene item not found"@),
            }
            &&& next_state(st, "GetSceneItemId"@, d, f) == st
        }),
{
    lemma_request_type_names();
    reveal(handle_spec);
    let items = st.scenes[s].items;
    let name = match field_str(d, "sourceName"@) {
        Some(n) => n,
        None => ""@,
    };
    assert(crate::state::item_with_source(name) == (|x: SceneItemView| x.source_name == name));
}

} // verus!
