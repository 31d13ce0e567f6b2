//! Scene items: listing, lookup, creation, removal, duplication, order and
//! their properties.
use vstd::prelude::*;
use crate::handler::{
    answers, done, done_empty, not_found, reply_not_found, step, step_empty, step_not_found, Outcome, Step,
};
use crate::handler::config::str_or;
use crate::handler::payloads::{
    scene_item_blend_mode, scene_item_blend_mode_view, scene_item_enabled, scene_item_enabled_view,
    scene_item_entry, scene_item_entry_view, scene_item_id, scene_item_id_view, scene_item_index,
    scene_item_index_view, scene_item_locked, scene_item_locked_view, scene_item_source,
    scene_item_source_view, scene_item_transform, scene_item_transform_view, scene_items,
    scene_items_view, transform, transform_view,
};
use crate::json::{
    array, field_bool, field_f64, field_str, field_u64, get_bool, get_f64, get_field, get_str, get_u64,
    items_view as json_items, lemma_items_view, JsonValue, JsonView, Real,
};
use crate::state::{
    item_with_id, item_with_source, items_view, max_scene_item_id, resolve_scene_spec, scene_named,
    scenes_view, ObsState, Scene, SceneItem, SceneItemTransform, SceneItemView, SceneView, StateView,
};
use crate::text::{first_index, lemma_first_index, lemma_first_index_none, str_eq};

verus! {

broadcast use vstd::std_specs::vec::group_vec_axioms;

/// The item id that request data names: `sceneItemId` where that is a
/// non-negative integer, else 0, cut to 32 bits.
pub open spec fn item_id_of(data: JsonView) -> u32 {
    (match field_u64(data, "sceneItemId"@) {
        Some(n) => n,
        None => 0,
    }) as u32
}

/// The transform of a created item: at the origin, unrotated, unscaled,
/// 1920 by 1080.
pub open spec fn default_transform() -> SceneItemTransform {
    SceneItemTransform {
        position_x: Real::OfU64(0),
        position_y: Real::OfU64(0),
        rotation: Real::OfU64(0),
        scale_x: Real::OfU64(1),
        scale_y: Real::OfU64(1),
        width: Real::OfU64(1920),
        height: Real::OfU64(1080),
        source_width: Real::OfU64(1920),
        source_height: Real::OfU64(1080),
    }
}

/// A transform as JSON.
pub open spec fn transform_json(t: SceneItemTransform) -> JsonView {
    transform_view(
        t.position_x,
        t.position_y,
        t.rotation,
        t.scale_x,
        t.scale_y,
        t.width,
        t.height,
        t.source_width,
        t.source_height,
    )
}

/// The entries of `GetSceneItemList`, one per item, with its position.
pub open spec fn item_entries(items: Seq<SceneItemView>) -> Seq<JsonView> {
    Seq::new(
        items.len(),
        |i: int|
            scene_item_entry_view(
                items[i].id as u64,
                i as u64,
                items[i].source_name,
                items[i].source_uuid,
                items[i].source_kind,
                items[i].enabled,
                items[i].locked,
                items[i].blend_mode,
                transform_json(items[i].transform),
            ),
    )
}

/// The state with the items of the scene at `s` replaced.
pub open spec fn with_items(st: StateView, s: int, items: Seq<SceneItemView>) -> StateView {
    StateView { scenes: st.scenes.update(s, SceneView { items, ..st.scenes[s] }), ..st }
}

/// The state with item `j` of the scene at `s` replaced.
pub open spec fn with_item(st: StateView, s: int, j: int, item: SceneItemView) -> StateView {
    with_items(st, s, st.scenes[s].items.update(j, item))
}

pub open spec fn real_or(v: Option<Real>, default: Real) -> Real {
    match v {
        Some(x) => x,
        None => default,
    }
}

/// A transform with the position, rotation and scale that `t` gives.
pub open spec fn updated_transform(tr: SceneItemTransform, t: JsonView) -> SceneItemTransform {
    SceneItemTransform {
        position_x: real_or(field_f64(t, "positionX"@), tr.position_x),
        position_y: real_or(field_f64(t, "positionY"@), tr.position_y),
        rotation: real_or(field_f64(t, "rotation"@), tr.rotation),
        scale_x: real_or(field_f64(t, "scaleX"@), tr.scale_x),
        scale_y: real_or(field_f64(t, "scaleY"@), tr.scale_y),
        ..tr
    }
}

/// The state after `SetSceneItemTransform` on item `j` of the scene at `s`.
pub open spec fn transform_set(st: StateView, s: int, j: int, data: JsonView) -> StateView {
    let item = st.scenes[s].items[j];
    match get_field(data, "sceneItemTransform"@) {
        Some(t) => with_item(st, s, j, SceneItemView { transform: updated_transform(item.transform, t), ..item }),
        None => st,
    }
}

/// The state after `SetSceneItemIndex` on item `j` of the scene at `s`: the
/// item is taken out and put back at the requested position, or last.
pub open spec fn index_set(st: StateView, s: int, j: int, data: JsonView) -> StateView {
    let new_index = (match field_u64(data, "sceneItemIndex"@) {
        Some(n) => n,
        None => 0,
    }) as usize;
    let items = st.scenes[s].items;
    let rest = items.remove(j);
    let at = if new_index < rest.len() { new_index as int } else { rest.len() as int };
    with_items(st, s, rest.insert(at, items[j]))
}

/// The scene that `DuplicateSceneItem` adds to: the first named by
/// `destinationSceneName`, or the item's own scene.
pub open spec fn duplicate_destination(st: StateView, s: int, data: JsonView) -> int {
    match field_str(data, "destinationSceneName"@) {
        Some(n) => match first_index(st.scenes, scene_named(n)) {
            Some(d) => d,
            None => s,
        },
        None => s,
    }
}

/// The copy that `DuplicateSceneItem` makes of `item`.
pub open spec fn duplicate_of(item: SceneItemView, id: u32, uuid: Seq<char>) -> SceneItemView {
    SceneItemView { id, source_uuid: uuid, locked: false, ..item }
}

/// A request on item `j` of the scene at `s`.
pub open spec fn item_request_spec(st: StateView, s: int, j: int, rt: Seq<char>, data: JsonView, fresh: Seq<Seq<char>>) -> Step {
    let item = st.scenes[s].items[j];
    if rt == "GetSceneItemSource"@ {
        step(st, scene_item_source_view(item.source_name, item.source_uuid))
    } else if rt == "RemoveSceneItem"@ {
        step_empty(with_items(st, s, st.scenes[s].items.remove(j)))
    } else if rt == "SetSceneItemTransform"@ {
        step_empty(transform_set(st, s, j, data))
    } else if rt == "SetSceneItemEnabled"@ {
        step_empty(
            match field_bool(data, "sceneItemEnabled"@) {
                Some(b) => with_item(st, s, j, SceneItemView { enabled: b, ..item }),
                None => st,
            },
        )
    } else if rt == "SetSceneItemLocked"@ {
        step_empty(
            match field_bool(data, "sceneItemLocked"@) {
                Some(b) => with_item(st, s, j, SceneItemView { locked: b, ..item }),
                None => st,
            },
        )
    } else if rt == "SetSceneItemIndex"@ {
        step_empty(index_set(st, s, j, data))
    } else if rt == "SetSceneItemBlendMode"@ {
        step_empty(
            match field_str(data, "sceneItemBlendMode"@) {
                Some(m) => with_item(st, s, j, SceneItemView { blend_mode: m, ..item }),
                None => st,
            },
        )
    } else if rt == "DuplicateSceneItem"@ {
        let id = (max_scene_item_id(st.scenes) + 1) as u32;
        let d = duplicate_destination(st, s, data);
        step(with_items(st, d, st.scenes[d].items.push(duplicate_of(item, id, fresh[0]))), scene_item_id_view(id as u64))
    } else if rt == "GetSceneItemTransform"@ {
        step(st, scene_item_transform_view(transform_json(item.transform)))
    } else if rt == "GetSceneItemEnabled"@ {
        step(st, scene_item_enabled_view(item.enabled))
    } else if rt == "GetSceneItemLocked"@ {
        step(st, scene_item_locked_view(item.locked))
    } else if rt == "GetSceneItemIndex"@ {
        step(st, scene_item_index_view(j as u64))
    } else {
        step(st, scene_item_blend_mode_view(item.blend_mode))
    }
}

/// The item requests that name an item by id.
pub open spec fn is_item_request(rt: Seq<char>) -> bool {
    ||| rt == "GetSceneItemSource"@
    ||| rt == "RemoveSceneItem"@
    ||| rt == "SetSceneItemTransform"@
    ||| rt == "SetSceneItemEnabled"@
    ||| rt == "SetSceneItemLocked"@
    ||| rt == "SetSceneItemIndex"@
    ||| rt == "SetSceneItemBlendMode"@
    ||| rt == "DuplicateSceneItem"@
    ||| rt == "GetSceneItemTransform"@
    ||| rt == "GetSceneItemEnabled"@
    ||| rt == "GetSceneItemLocked"@
    ||| rt == "GetSceneItemIndex"@
    ||| rt == "GetSceneItemBlendMode"@
}

fn item_request(rt: &str) -> (r: bool)
    ensures
        r == is_item_request(rt@),
{
    str_eq(rt, "GetSceneItemSource") || str_eq(rt, "RemoveSceneItem") || str_eq(rt, "SetSceneItemTransform")
        || str_eq(rt, "SetSceneItemEnabled") || str_eq(rt, "SetSceneItemLocked") || str_eq(
        rt,
        "SetSceneItemIndex",
    ) || str_eq(rt, "SetSceneItemBlendMode") || str_eq(rt, "DuplicateSceneItem") || str_eq(
        rt,
        "GetSceneItemTransform",
    ) || str_eq(rt, "GetSceneItemEnabled") || str_eq(rt, "GetSceneItemLocked") || str_eq(
        rt,
        "GetSceneItemIndex",
    ) || str_eq(rt, "GetSceneItemBlendMode")
}

/// The requests on the items of a scene.
pub open spec fn is_scene_item_request(rt: Seq<char>) -> bool {
    ||| rt == "GetSceneItemList"@
    ||| rt == "GetGroupSceneItemList"@
    ||| rt == "GetSceneItemId"@
    ||| rt == "CreateSceneItem"@
    ||| is_item_request(rt)
}

/// A request on the items of the scene at `s`.
pub open spec fn scene_request_spec(st: StateView, s: int, rt: Seq<char>, data: JsonView, fresh: Seq<Seq<char>>) -> Step {
    let items = st.scenes[s].items;
    if rt == "GetSceneItemList"@ || rt == "GetGroupSceneItemList"@ {
        step(st, scene_items_view(JsonView::Array(item_entries(items))))
    } else if rt == "GetSceneItemId"@ {
        match first_index(items, item_with_source(str_or(data, "sourceName"@, ""@))) {
            Some(j) => step(st, scene_item_id_view(items[j].id as u64)),
            None => step_not_found(st, "Scene item not found"@),
        }
    } else if rt == "CreateSceneItem"@ {
        let id = (max_scene_item_id(st.scenes) + 1) as u32;
        let item = SceneItemView {
            id,
            source_name: str_or(data, "sourceName"@, "New Source"@),
            source_uuid: fresh[0],
            source_kind: "image_source"@,
            enabled: match field_bool(data, "sceneItemEnabled"@) {
                Some(b) => b,
                None => true,
            },
            locked: false,
            blend_mode: "OBS_BLEND_NORMAL"@,
            transform: default_transform(),
        };
        step(with_items(st, s, items.push(item)), scene_item_id_view(id as u64))
    } else {
        match first_index(items, item_with_id(item_id_of(data))) {
            Some(j) => item_request_spec(st, s, j, rt, data, fresh),
            None => step_not_found(st, "Scene item not found"@),
        }
    }
}

/// The requests on scene items; nothing for any other request. `fresh` holds
/// the UUID of a created or duplicated item.
pub open spec fn items_spec(st: StateView, rt: Seq<char>, data: JsonView, fresh: Seq<Seq<char>>) -> Option<Step> {
    if is_scene_item_request(rt) {
        match resolve_scene_spec(st, data) {
            Some(s) => Some(scene_request_spec(st, s, rt, data, fresh)),
            None => reply_not_found(st, "Scene not found"@),
        }
    } else {
        None
    }
}

/// The model of the scenes after the items of the scene at `s` changed.
proof fn lemma_scene_items_changed(before: Seq<Scene>, after: Seq<Scene>, s: int)
    requires
        0 <= s < before.len(),
        after.len() == before.len(),
        forall|k: int| 0 <= k < before.len() && k != s ==> after[k] == before[k],
        after[s].name == before[s].name,
        after[s].uuid == before[s].uuid,
    ensures
        scenes_view(after) == scenes_view(before).update(
            s,
            SceneView { items: items_view(after[s].items@), ..scenes_view(before)[s] },
        ),
{
    assert(scenes_view(after) =~= scenes_view(before).update(
        s,
        SceneView { items: items_view(after[s].items@), ..scenes_view(before)[s] },
    ));
}

/// A transform as JSON.
fn transform_to_json(t: &SceneItemTransform) -> (j: JsonValue)
    ensures
        j.deep() == transform_json(*t),
{
    transform(
        t.position_x.duplicate(),
        t.position_y.duplicate(),
        t.rotation.duplicate(),
        t.scale_x.duplicate(),
        t.scale_y.duplicate(),
        t.width.duplicate(),
        t.height.duplicate(),
        t.source_width.duplicate(),
        t.source_height.duplicate(),
    )
}

/// The entries of `GetSceneItemList`.
fn item_list(items: &Vec<SceneItem>) -> (j: JsonValue)
    ensures
        j.deep() == JsonView::Array(item_entries(items_view(items@))),
{
    let ghost iv = items_view(items@);
    let mut out: Vec<JsonValue> = Vec::new();
    let mut i: usize = 0;
    while i < items.len()
        invariant
            i <= items.len(),
            iv == items_view(items@),
            out.len() == i,
            forall|k: int| 0 <= k < i ==> (#[trigger] out[k]).deep() == item_entries(iv)[k],
        decreases items.len() - i,
    {
        let item = &items[i];
        let e = scene_item_entry(
            item.id as u64,
            i as u64,
            item.source_name.as_str(),
            item.source_uuid.as_str(),
            item.source_kind.as_str(),
            item.enabled,
            item.locked,
            item.blend_mode.as_str(),
            transform_to_json(&item.transform),
        );
        out.push(e);
        i = i + 1;
    }
    proof {
        lemma_items_view(&out);
        assert(json_items(&out) =~= item_entries(iv));
    }
    array(out)
}

/// The position of the first item with source name `name` in the scene at `s`.
fn find_item_by_source(state: &ObsState, s: usize, name: &str) -> (r: Option<usize>)
    requires
        s < state.scenes.len(),
    ensures
        match r {
            Some(j) => first_index(state@.scenes[s as int].items, item_with_source(name@)) == Some(j as int),
            None => first_index(state@.scenes[s as int].items, item_with_source(name@)) is None,
        },
{
    let items = &state.scenes[s].items;
    let ghost iv = state@.scenes[s as int].items;
    assert(iv == items_view(items@));
    let mut i: usize = 0;
    while i < items.len()
        invariant
            i <= items.len(),
            iv == items_view(items@),
            s < state@.scenes.len(),
            iv == state@.scenes[s as int].items,
            forall|k: int| 0 <= k < i ==> !item_with_source(name@)(#[trigger] iv[k]),
        decreases items.len() - i,
    {
        if str_eq(items[i].source_name.as_str(), name) {
            proof {
                lemma_first_index(iv, item_with_source(name@), i as int);
            }
            return Some(i);
        }
        i = i + 1;
    }
    proof {
        lemma_first_index_none(iv, item_with_source(name@));
    }
    None
}

/// Applies `SetSceneItemTransform` to item `j` of the scene at `s`.
fn set_transform(state: &mut ObsState, s: usize, j: usize, data: &JsonValue)
    requires
        s < old(state).scenes.len(),
        j < old(state).scenes[s as int].items.len(),
    ensures
        final(state)@ == transform_set(old(state)@, s as int, j as int, data.deep()),
{
    let ghost before = state.scenes@;
    let ghost old_items = state.scenes[s as int].items@;
    if let Some(t) = data.get("sceneItemTransform") {
        if let Some(v) = get_f64(t, "positionX") {
            state.scenes[s].items[j].transform.position_x = v;
        }
        if let Some(v) = get_f64(t, "positionY") {
            state.scenes[s].items[j].transform.position_y = v;
        }
        if let Some(v) = get_f64(t, "rotation") {
            state.scenes[s].items[j].transform.rotation = v;
        }
        if let Some(v) = get_f64(t, "scaleX") {
            state.scenes[s].items[j].transform.scale_x = v;
        }
        if let Some(v) = get_f64(t, "scaleY") {
            state.scenes[s].items[j].transform.scale_y = v;
        }
        proof {
            let item = items_view(old_items)[j as int];
            assert(items_view(state.scenes@[s as int].items@) =~= items_view(old_items).update(
                j as int,
                SceneItemView { transform: updated_transform(item.transform, t.deep()), ..item },
            ));
            lemma_scene_items_changed(before, state.scenes@, s as int);
        }
    }
}

/// Applies `SetSceneItemIndex` to item `j` of the scene at `s`.
fn set_index(state: &mut ObsState, s: usize, j: usize, data: &JsonValue)
    requires
        s < old(state).scenes.len(),
        j < old(state).scenes[s as int].items.len(),
    ensures
        final(state)@ == index_set(old(state)@, s as int, j as int, data.deep()),
{
    let ghost before = state.scenes@;
    let ghost old_items = state.scenes[s as int].items@;
    let new_index = (match get_u64(data, "sceneItemIndex") {
        Some(n) => n,
        None => 0,
    }) as usize;
    let item = state.scenes[s].items.remove(j);
    let len = state.scenes[s].items.len();
    let insert_at = if new_index < len { new_index } else { len };
    state.scenes[s].items.insert(insert_at, item);
    proof {
        let iv = items_view(old_items);
        assert(items_view(state.scenes@[s as int].items@) =~= iv.remove(j as int).insert(insert_at as int, iv[j as int]));
        lemma_scene_items_changed(before, state.scenes@, s as int);
    }
}

/// Applies `DuplicateSceneItem` to item `j` of the scene at `s`, giving the
/// copy the UUID `uuid`; returns the id of the copy.
fn duplicate_item(state: &mut ObsState, s: usize, j: usize, data: &JsonValue, uuid: String) -> (id: u32)
    requires
        s < old(state).scenes.len(),
        j < old(state).scenes[s as int].items.len(),
        max_scene_item_id(old(state)@.scenes) < u32::MAX,
    ensures
        id == max_scene_item_id(old(state)@.scenes) + 1,
        final(state)@ == ({
            let st = old(state)@;
            let d = duplicate_destination(st, s as int, data.deep());
            with_items(st, d, st.scenes[d].items.push(duplicate_of(st.scenes[s as int].items[j as int], id, uuid@)))
        }),
{
    let ghost st = state@;
    let ghost before = state.scenes@;
    let new_id = state.next_scene_item_id();
    let src = &state.scenes[s].items[j];
    let copy = SceneItem {
        id: new_id,
        source_name: src.source_name.clone(),
        source_uuid: uuid,
        source_kind: src.source_kind.clone(),
        enabled: src.enabled,
        locked: false,
        blend_mode: src.blend_mode.clone(),
        transform: src.transform.duplicate(),
    };
    let dest = match get_str(data, "destinationSceneName") {
        Some(n) => match state.find_scene_by_name(n) {
            Some(d) => d,
            None => s,
        },
        None => s,
    };
    let ghost dest_items = state.scenes[dest as int].items@;
    state.scenes[dest].items.push(copy);
    proof {
        assert(items_view(state.scenes@[dest as int].items@) =~= items_view(dest_items).push(copy@));
        lemma_scene_items_changed(before, state.scenes@, dest as int);
    }
    new_id
}

/// Answers a request on item `j` of the scene at `s`, as `item_request_spec`
/// says.
fn handle_item_request(
    state: &mut ObsState,
    s: usize,
    j: usize,
    rt: &str,
    data: &JsonValue,
    fresh: &Vec<String>,
) -> (o: Outcome)
    requires
        s < old(state).scenes.len(),
        j < old(state).scenes[s as int].items.len(),
        is_item_request(rt@),
        rt@ == "DuplicateSceneItem"@ ==> fresh.len() >= 1 && max_scene_item_id(old(state)@.scenes) < u32::MAX,
    ensures
        (final(state)@, o@) == item_request_spec(
            old(state)@,
            s as int,
            j as int,
            rt@,
            data.deep(),
            fresh@.map_values(|u: String| u@),
        ),
{
    let ghost before = state.scenes@;
    let ghost iv = items_view(state.scenes[s as int].items@);
    if str_eq(rt, "GetSceneItemSource") {
        let item = &state.scenes[s].items[j];
        return done(scene_item_source(item.source_name.as_str(), item.source_uuid.as_str()));
    }
    if str_eq(rt, "RemoveSceneItem") {
        state.scenes[s].items.remove(j);
        proof {
            assert(items_view(state.scenes@[s as int].items@) =~= iv.remove(j as int));
            lemma_scene_items_changed(before, state.scenes@, s as int);
        }
        return done_empty();
    }
    if str_eq(rt, "SetSceneItemTransform") {
        set_transform(state, s, j, data);
        return done_empty();
    }
    if str_eq(rt, "SetSceneItemEnabled") {
        if let Some(v) = get_bool(data, "sceneItemEnabled") {
            state.scenes[s].items[j].enabled = v;
            proof {
                assert(items_view(state.scenes@[s as int].items@) =~= iv.update(j as int, SceneItemView { enabled: v, ..iv[j as int] }));
                lemma_scene_items_changed(before, state.scenes@, s as int);
            }
        }
        return done_empty();
    }
    if str_eq(rt, "SetSceneItemLocked") {
        if let Some(v) = get_bool(data, "sceneItemLocked") {
            state.scenes[s].items[j].locked = v;
            proof {
                assert(items_view(state.scenes@[s as int].items@) =~= iv.update(j as int, SceneItemView { locked: v, ..iv[j as int] }));
                lemma_scene_items_changed(before, state.scenes@, s as int);
            }
        }
        return done_empty();
    }
    if str_eq(rt, "SetSceneItemIndex") {
        set_index(state, s, j, data);
        return done_empty();
    }
    if str_eq(rt, "SetSceneItemBlendMode") {
        if let Some(v) = get_str(data, "sceneItemBlendMode") {
            state.scenes[s].items[j].blend_mode = v.to_string();
            proof {
                assert(items_view(state.scenes@[s as int].items@) =~= iv.update(j as int, SceneItemView { blend_mode: v@, ..iv[j as int] }));
                lemma_scene_items_changed(before, state.scenes@, s as int);
            }
        }
        return done_empty();
    }
    if str_eq(rt, "DuplicateSceneItem") {
        let id = duplicate_item(state, s, j, data, fresh[0].clone());
        return done(scene_item_id(id as u64));
    }
    let item = &state.scenes[s].items[j];
    if str_eq(rt, "GetSceneItemTransform") {
        return done(scene_item_transform(transform_to_json(&item.transform)));
    }
    if str_eq(rt, "GetSceneItemEnabled") {
        return done(scene_item_enabled(item.enabled));
    }
    if str_eq(rt, "GetSceneItemLocked") {
        return done(scene_item_locked(item.locked));
    }
    if str_eq(rt, "GetSceneItemIndex") {
        return done(scene_item_index(j as u64));
    }
    done(scene_item_blend_mode(item.blend_mode.as_str()))
}

/// Answers a request on the items of the scene at `s`, as
/// `scene_request_spec` says.
fn handle_scene_request(state: &mut ObsState, s: usize, rt: &str, data: &JsonValue, fresh: &Vec<String>) -> (o: Outcome)
    requires
        s < old(state).scenes.len(),
        is_scene_item_request(rt@),
        rt@ == "CreateSceneItem"@ || rt@ == "DuplicateSceneItem"@ ==> fresh.len() >= 1,
        item_needs_next_id(old(state)@, s as int, rt@, data.deep()) ==> max_scene_item_id(old(state)@.scenes) < u32::MAX,
    ensures
        (final(state)@, o@) == scene_request_spec(
            old(state)@,
            s as int,
            rt@,
            data.deep(),
            fresh@.map_values(|u: String| u@),
        ),
{
    if str_eq(rt, "GetSceneItemList") || str_eq(rt, "GetGroupSceneItemList") {
        return done(scene_items(item_list(&state.scenes[s].items)));
    }
    if str_eq(rt, "GetSceneItemId") {
        let source_name = match get_str(data, "sourceName") {
            Some(n) => n,
            None => "",
        };
        return match find_item_by_source(state, s, source_name) {
            Some(j) => done(scene_item_id(state.scenes[s].items[j].id as u64)),
            None => not_found("Scene item not found"),
        };
    }
    if str_eq(rt, "CreateSceneItem") {
        let ghost before = state.scenes@;
        let ghost iv = items_view(state.scenes[s as int].items@);
        let source_name = match get_str(data, "sourceName") {
            Some(n) => n,
            None => "New Source",
        };
        let enabled = match get_bool(data, "sceneItemEnabled") {
            Some(b) => b,
            None => true,
        };
        let id = state.next_scene_item_id();
        let item = SceneItem {
            id,
            source_name: source_name.to_string(),
            source_uuid: fresh[0].clone(),
            source_kind: "image_source".to_string(),
            enabled,
            locked: false,
            blend_mode: "OBS_BLEND_NORMAL".to_string(),
            transform: SceneItemTransform {
                position_x: Real::OfU64(0),
                position_y: Real::OfU64(0),
                rotation: Real::OfU64(0),
                scale_x: Real::OfU64(1),
                scale_y: Real::OfU64(1),
                width: Real::OfU64(1920),
                height: Real::OfU64(1080),
                source_width: Real::OfU64(1920),
                source_height: Real::OfU64(1080),
            },
        };
        state.scenes[s].items.push(item);
        proof {
            assert(items_view(state.scenes@[s as int].items@) =~= iv.push(item@));
            lemma_scene_items_changed(before, state.scenes@, s as int);
        }
        return done(scene_item_id(id as u64));
    }
    let item_id = (match get_u64(data, "sceneItemId") {
        Some(n) => n,
        None => 0,
    }) as u32;
    match state.find_scene_item(s, item_id) {
        Some(j) => handle_item_request(state, s, j, rt, data, fresh),
        None => not_found("Scene item not found"),
    }
}

/// Whether a request on the items of the scene at `s` takes the next item
/// id: creating an item, or duplicating one that exists.
pub open spec fn item_needs_next_id(st: StateView, s: int, rt: Seq<char>, data: JsonView) -> bool {
    ||| rt == "CreateSceneItem"@
    ||| rt == "DuplicateSceneItem"@ && first_index(st.scenes[s].items, item_with_id(item_id_of(data))) is Some
}

/// Whether a request takes the next item id: creating an item in an existing
/// scene, or duplicating an existing item.
pub open spec fn needs_next_id(st: StateView, rt: Seq<char>, data: JsonView) -> bool {
    match resolve_scene_spec(st, data) {
        Some(s) => item_needs_next_id(st, s, rt, data),
        None => false,
    }
}

/// Answers the requests that `items_spec` describes. A request that takes the
/// next item id needs the largest item id to be below `u32::MAX`.
pub fn handle_items(state: &mut ObsState, rt: &str, data: &JsonValue, fresh: &Vec<String>) -> (r: Option<Outcome>)
    requires
        rt@ == "CreateSceneItem"@ || rt@ == "DuplicateSceneItem"@ ==> fresh.len() >= 1,
        needs_next_id(old(state)@, rt@, data.deep()) ==> max_scene_item_id(old(state)@.scenes) < u32::MAX,
    ensures
        answers(
            r,
            items_spec(old(state)@, rt@, data.deep(), fresh@.map_values(|u: String| u@)),
            old(state)@,
            final(state)@,
        ),
{
    if !(str_eq(rt, "GetSceneItemList") || str_eq(rt, "GetGroupSceneItemList") || str_eq(rt, "GetSceneItemId")
        || str_eq(rt, "CreateSceneItem") || item_request(rt)) {
        return None;
    }
    match state.resolve_scene(data) {
        Some(s) => Some(handle_scene_request(state, s, rt, data, fresh)),
        None => Some(not_found("Scene not found")),
    }
}

} // verus!
