//! Scene collections, profiles, settings and persistent data.
use vstd::prelude::*;
use crate::handler::{answers, done, done_empty, reply, reply_empty, Outcome, Step};
use crate::handler::payloads::{
    profile_list, profile_list_view, profile_parameter, profile_parameter_view, record_directory,
    record_directory_view, scene_collection_list, scene_collection_list_view, slot_value,
    slot_value_view, stream_service_settings, stream_service_settings_view, video_settings,
    video_settings_view,
};
use crate::json::{
    array, assign, assign_entry, entries_view, field_str, get_copy, get_field, get_str,
    items_view, key_is, lemma_entries_view, lemma_items_view, lookup, Entries, JsonValue, JsonView,
};
use crate::state::{realms_view, strings_view, ObsState, StateView};
use crate::text::{first_index, lemma_first_index, lemma_first_index_none, str_eq};

verus! {

broadcast use vstd::std_specs::vec::group_vec_axioms;

/// Strings as JSON strings.
pub open spec fn str_items(s: Seq<Seq<char>>) -> Seq<JsonView> {
    s.map_values(|x: Seq<char>| JsonView::Str(x))
}

/// A JSON array of the given strings.
pub fn string_array(v: &Vec<String>) -> (j: JsonValue)
    ensures
        j.deep() == JsonView::Array(str_items(strings_view(v@))),
{
    let mut out: Vec<JsonValue> = Vec::new();
    let mut i: usize = 0;
    while i < v.len()
        invariant
            i <= v.len(),
            out.len() == i,
            forall|j: int| 0 <= j < i ==> (#[trigger] out[j]).deep() == JsonView::Str(v[j]@),
        decreases v.len() - i,
    {
        out.push(JsonValue::String(v[i].clone()));
        i = i + 1;
    }
    proof {
        lemma_items_view(&out);
        assert(items_view(&out) =~= str_items(strings_view(v@)));
    }
    array(out)
}

/// `s` without the elements equal to `x`.
pub open spec fn without(s: Seq<Seq<char>>, x: Seq<char>) -> Seq<Seq<char>>
    decreases s.len(),
{
    if s.len() == 0 {
        s
    } else {
        let r = without(s.drop_last(), x);
        if s.last() == x { r } else { r.push(s.last()) }
    }
}

/// `v` without the strings equal to `x`.
fn remove_all(v: &Vec<String>, x: &str) -> (r: Vec<String>)
    ensures
        strings_view(r@) == without(strings_view(v@), x@),
{
    let ghost s = strings_view(v@);
    let mut out: Vec<String> = Vec::new();
    let mut i: usize = 0;
    while i < v.len()
        invariant
            i <= v.len(),
            s == strings_view(v@),
            strings_view(out@) == without(s.take(i as int), x@),
        decreases v.len() - i,
    {
        assert(s.take(i + 1).drop_last() =~= s.take(i as int));
        if !str_eq(v[i].as_str(), x) {
            let ghost before = out@;
            out.push(v[i].clone());
            assert(strings_view(out@) =~= strings_view(before).push(v[i as int]@));
        }
        i = i + 1;
    }
    assert(s.take(v.len() as int) =~= s);
    out
}

/// A string under `k`, or `default` where there is none.
pub open spec fn str_or(d: JsonView, k: Seq<char>, default: Seq<char>) -> Seq<char> {
    match field_str(d, k) {
        Some(s) => s,
        None => default,
    }
}

/// The value that persistent data holds in `slot` of `realm`, or null.
pub open spec fn persistent_value(pd: Seq<(Seq<char>, Entries)>, realm: Seq<char>, slot: Seq<char>) -> JsonView {
    match lookup(pd, realm) {
        Some(slots) => match lookup(slots, slot) {
            Some(v) => v,
            None => JsonView::Null,
        },
        None => JsonView::Null,
    }
}

/// What `SetPersistentData` stores: its `slotValue`, or null where it has none.
pub open spec fn stored_value(data: JsonView) -> JsonView {
    match get_field(data, "slotValue"@) {
        Some(v) => v,
        None => JsonView::Null,
    }
}

/// Persistent data with `value` stored in `slot` of `realm`.
pub open spec fn store_persistent(
    pd: Seq<(Seq<char>, Entries)>,
    realm: Seq<char>,
    slot: Seq<char>,
    value: JsonView,
) -> Seq<(Seq<char>, Entries)> {
    let slots = match lookup(pd, realm) {
        Some(s) => s,
        None => Seq::empty(),
    };
    assign(pd, realm, assign(slots, slot, value))
}

/// The requests on scene collections, profiles, settings and persistent data;
/// nothing for any other request.
pub open spec fn config_spec(st: StateView, rt: Seq<char>, data: JsonView) -> Option<Step> {
    if rt == "GetSceneCollectionList"@ {
        reply(
            st,
            scene_collection_list_view(st.current_scene_collection, JsonView::Array(str_items(st.scene_collections))),
        )
    } else if rt == "SetCurrentSceneCollection"@ {
        reply_empty(
            match field_str(data, "sceneCollectionName"@) {
                Some(n) => StateView { current_scene_collection: n, ..st },
                None => st,
            },
        )
    } else if rt == "CreateSceneCollection"@ {
        reply_empty(
            match field_str(data, "sceneCollectionName"@) {
                Some(n) => StateView {
                    scene_collections: st.scene_collections.push(n),
                    current_scene_collection: n,
                    ..st
                },
                None => st,
            },
        )
    } else if rt == "GetProfileList"@ {
        reply(st, profile_list_view(st.current_profile, JsonView::Array(str_items(st.profiles))))
    } else if rt == "SetCurrentProfile"@ {
        reply_empty(
            match field_str(data, "profileName"@) {
                Some(n) => StateView { current_profile: n, ..st },
                None => st,
            },
        )
    } else if rt == "CreateProfile"@ {
        reply_empty(
            match field_str(data, "profileName"@) {
                Some(n) => StateView { profiles: st.profiles.push(n), ..st },
                None => st,
            },
        )
    } else if rt == "RemoveProfile"@ {
        reply_empty(
            match field_str(data, "profileName"@) {
                Some(n) => StateView { profiles: without(st.profiles, n), ..st },
                None => st,
            },
        )
    } else if rt == "GetProfileParameter"@ {
        reply(st, profile_parameter_view())
    } else if rt == "SetProfileParameter"@ || rt == "SetVideoSettings"@ || rt == "SetStreamServiceSettings"@
        || rt == "SetRecordDirectory"@ {
        reply_empty(st)
    } else if rt == "GetVideoSettings"@ {
        reply(st, video_settings_view())
    } else if rt == "GetStreamServiceSettings"@ {
        reply(st, stream_service_settings_view())
    } else if rt == "GetRecordDirectory"@ {
        reply(st, record_directory_view())
    } else if rt == "GetPersistentData"@ {
        reply(
            st,
            slot_value_view(
                persistent_value(st.persistent_data, str_or(data, "realm"@, ""@), str_or(data, "slotName"@, ""@)),
            ),
        )
    } else if rt == "SetPersistentData"@ {
        let value = stored_value(data);
        reply_empty(
            StateView {
                persistent_data: store_persistent(
                    st.persistent_data,
                    str_or(data, "realm"@, ""@),
                    str_or(data, "slotName"@, ""@),
                    value,
                ),
                ..st
            },
        )
    } else {
        None
    }
}

/// The string under `k`, or `default`.
fn get_str_or<'a>(d: &'a JsonValue, k: &str, default: &'a str) -> (r: &'a str)
    ensures
        r@ == str_or(d.deep(), k@, default@),
{
    match get_str(d, k) {
        Some(s) => s,
        None => default,
    }
}

/// The position of the first realm named `realm`.
fn find_realm(pd: &Vec<(String, Vec<(String, JsonValue)>)>, realm: &str) -> (r: Option<usize>)
    ensures
        match r {
            Some(i) => first_index(realms_view(pd@), key_is::<Entries>(realm@)) == Some(i as int),
            None => first_index(realms_view(pd@), key_is::<Entries>(realm@)) is None,
        },
{
    let ghost s = realms_view(pd@);
    let ghost p = key_is::<Entries>(realm@);
    let mut i: usize = 0;
    while i < pd.len()
        invariant
            i <= pd.len(),
            s == realms_view(pd@),
            p == key_is::<Entries>(realm@),
            forall|j: int| 0 <= j < i ==> !p(#[trigger] s[j]),
        decreases pd.len() - i,
    {
        if str_eq(pd[i].0.as_str(), realm) {
            proof {
                lemma_first_index(s, p, i as int);
            }
            return Some(i);
        }
        i = i + 1;
    }
    proof {
        lemma_first_index_none(s, p);
    }
    None
}

/// The value in `slot` of `realm`, or null.
fn read_persistent(pd: &Vec<(String, Vec<(String, JsonValue)>)>, realm: &str, slot: &str) -> (r: JsonValue)
    ensures
        r.deep() == persistent_value(realms_view(pd@), realm@, slot@),
{
    match find_realm(pd, realm) {
        Some(i) => {
            let slots = &pd[i].1;
            let ghost es = entries_view(slots);
            proof {
                lemma_entries_view(slots);
                assert(realms_view(pd@)[i as int].1 == es);
            }
            let mut k: usize = 0;
            while k < slots.len()
                invariant
                    k <= slots.len(),
                    es == entries_view(slots),
                    lookup(realms_view(pd@), realm@) == Some(es),
                    es.len() == slots.len(),
                    forall|j: int| 0 <= j < slots.len() ==> #[trigger] es[j] == (slots[j].0@, slots[j].1.deep()),
                    forall|j: int| 0 <= j < k ==> !key_is::<JsonView>(slot@)(#[trigger] es[j]),
                decreases slots.len() - k,
            {
                if str_eq(slots[k].0.as_str(), slot) {
                    proof {
                        lemma_first_index(es, key_is::<JsonView>(slot@), k as int);
                    }
                    return slots[k].1.duplicate();
                }
                k = k + 1;
            }
            proof {
                lemma_first_index_none(es, key_is::<JsonView>(slot@));
            }
            JsonValue::Null
        },
        None => JsonValue::Null,
    }
}

/// Stores `value` in `slot` of `realm`.
fn write_persistent(
    pd: &mut Vec<(String, Vec<(String, JsonValue)>)>,
    realm: String,
    slot: String,
    value: JsonValue,
)
    ensures
        realms_view(final(pd)@) == store_persistent(realms_view(old(pd)@), realm@, slot@, value.deep()),
{
    let ghost s = realms_view(pd@);
    match find_realm(pd, realm.as_str()) {
        Some(i) => {
            let mut slots: Vec<(String, JsonValue)> = Vec::new();
            std::mem::swap(&mut slots, &mut pd[i].1);
            let ghost old_slots = entries_view(&slots);
            assert(old_slots == s[i as int].1);
            assign_entry(&mut slots, slot, value);
            std::mem::swap(&mut slots, &mut pd[i].1);
            assert(realms_view(pd@) =~= s.update(i as int, (realm@, entries_view(&pd[i as int].1))));
        },
        None => {
            let mut slots: Vec<(String, JsonValue)> = Vec::new();
            proof {
                lemma_entries_view(&slots);
                assert(entries_view(&slots) =~= Seq::<(Seq<char>, JsonView)>::empty());
            }
            assign_entry(&mut slots, slot, value);
            let ghost rv = realm@;
            pd.push((realm, slots));
            assert(realms_view(pd@) =~= s.push((rv, entries_view(&pd[pd.len() - 1].1))));
        },
    }
}

/// Answers the requests that `config_spec` describes.
pub fn handle_config(state: &mut ObsState, rt: &str, data: &JsonValue) -> (r: Option<Outcome>)
    ensures
        answers(r, config_spec(old(state)@, rt@, data.deep()), old(state)@, final(state)@),
{
    if str_eq(rt, "GetSceneCollectionList") {
        let list = string_array(&state.scene_collections);
        return Some(done(scene_collection_list(state.current_scene_collection.as_str(), list)));
    }
    if str_eq(rt, "SetCurrentSceneCollection") {
        if let Some(name) = get_str(data, "sceneCollectionName") {
            state.current_scene_collection = name.to_string();
        }
        return Some(done_empty());
    }
    if str_eq(rt, "CreateSceneCollection") {
        if let Some(name) = get_str(data, "sceneCollectionName") {
            let ghost before = state.scene_collections@;
            state.scene_collections.push(name.to_string());
            assert(strings_view(state.scene_collections@) =~= strings_view(before).push(name@));
            state.current_scene_collection = name.to_string();
        }
        return Some(done_empty());
    }
    if str_eq(rt, "GetProfileList") {
        let list = string_array(&state.profiles);
        return Some(done(profile_list(state.current_profile.as_str(), list)));
    }
    if str_eq(rt, "SetCurrentProfile") {
        if let Some(name) = get_str(data, "profileName") {
            state.current_profile = name.to_string();
        }
        return Some(done_empty());
    }
    if str_eq(rt, "CreateProfile") {
        if let Some(name) = get_str(data, "profileName") {
            let ghost before = state.profiles@;
            state.profiles.push(name.to_string());
            assert(strings_view(state.profiles@) =~= strings_view(before).push(name@));
        }
        return Some(done_empty());
    }
    if str_eq(rt, "RemoveProfile") {
        if let Some(name) = get_str(data, "profileName") {
            state.profiles = remove_all(&state.profiles, name);
        }
        return Some(done_empty());
    }
    if str_eq(rt, "GetProfileParameter") {
        return Some(done(profile_parameter()));
    }
    if str_eq(rt, "SetProfileParameter") || str_eq(rt, "SetVideoSettings") || str_eq(
        rt,
        "SetStreamServiceSettings",
    ) || str_eq(rt, "SetRecordDirectory") {
        return Some(done_empty());
    }
    if str_eq(rt, "GetVideoSettings") {
        return Some(done(video_settings()));
    }
    if str_eq(rt, "GetStreamServiceSettings") {
        return Some(done(stream_service_settings()));
    }
    if str_eq(rt, "GetRecordDirectory") {
        return Some(done(record_directory()));
    }
    if str_eq(rt, "GetPersistentData") {
        let realm = get_str_or(data, "realm", "");
        let slot = get_str_or(data, "slotName", "");
        let value = read_persistent(&state.persistent_data, realm, slot);
        return Some(done(slot_value(value)));
    }
    if str_eq(rt, "SetPersistentData") {
        let realm = get_str_or(data, "realm", "").to_string();
        let slot = get_str_or(data, "slotName", "").to_string();
        let value = match get_copy(data, "slotValue") {
            Some(v) => v,
            None => JsonValue::Null,
        };
        write_persistent(&mut state.persistent_data, realm, slot, value);
        return Some(done_empty());
    }
    None
}

} // verus!
