//! Scenes: listing, the program and preview scenes, creation, removal and
//! renaming.
use vstd::prelude::*;
use crate::handler::{answers, done, done_empty, reply, reply_empty, reply_not_found, not_found, Outcome, Step};
use crate::handler::config::str_or;
use crate::handler::payloads::{
    created_scene, created_scene_view, group_list, group_list_view, preview_scene, preview_scene_view,
    program_scene, program_scene_view, scene_list, scene_list_entry, scene_list_entry_view,
    scene_list_view, transition_override, transition_override_view,
};
use crate::json::{array, field_str, get_str, items_view, lemma_items_view, JsonValue, JsonView};
use crate::state::{resolve_scene_spec, scenes_view, items_view as scene_items_view, ObsState, Scene, SceneView, StateView};
use crate::text::str_eq;

verus! {

broadcast use vstd::std_specs::vec::group_vec_axioms;

/// The entries of `GetSceneList`, one per scene, with its position.
pub open spec fn scene_entries(scenes: Seq<SceneView>) -> Seq<JsonView> {
    Seq::new(scenes.len(), |i: int| scene_list_entry_view(scenes[i].name, scenes[i].uuid, i as u64))
}

/// The program and preview scenes both exist.
pub open spec fn current_scenes_exist(st: StateView) -> bool {
    &&& st.current_program_scene < st.scenes.len()
    &&& st.current_preview_scene < st.scenes.len()
}

/// A scene position kept where it still names a scene, and 0 otherwise.
pub open spec fn clamp_scene(idx: usize, len: nat) -> usize {
    if idx >= len { 0 } else { idx }
}

/// The requests on scenes; nothing for any other request. `fresh` holds the
/// UUID of a created scene.
pub open spec fn scenes_spec(st: StateView, rt: Seq<char>, data: JsonView, fresh: Seq<Seq<char>>) -> Option<Step> {
    if rt == "GetSceneList"@ {
        let program = st.scenes[st.current_program_scene as int];
        let preview = st.scenes[st.current_preview_scene as int];
        reply(
            st,
            scene_list_view(
                program.name,
                program.uuid,
                preview.name,
                preview.uuid,
                JsonView::Array(scene_entries(st.scenes)),
            ),
        )
    } else if rt == "GetGroupList"@ {
        reply(st, group_list_view())
    } else if rt == "GetCurrentProgramScene"@ {
        let scene = st.scenes[st.current_program_scene as int];
        reply(st, program_scene_view(scene.name, scene.uuid))
    } else if rt == "SetCurrentProgramScene"@ {
        match resolve_scene_spec(st, data) {
            Some(i) => reply_empty(StateView { current_program_scene: i as usize, ..st }),
            None => reply_not_found(st, "Scene not found"@),
        }
    } else if rt == "GetCurrentPreviewScene"@ {
        let scene = st.scenes[st.current_preview_scene as int];
        reply(st, preview_scene_view(scene.name, scene.uuid))
    } else if rt == "SetCurrentPreviewScene"@ {
        match resolve_scene_spec(st, data) {
            Some(i) => reply_empty(StateView { current_preview_scene: i as usize, ..st }),
            None => reply_not_found(st, "Scene not found"@),
        }
    } else if rt == "CreateScene"@ {
        let scene = SceneView { name: str_or(data, "sceneName"@, "New Scene"@), uuid: fresh[0], items: Seq::empty() };
        reply(StateView { scenes: st.scenes.push(scene), ..st }, created_scene_view(fresh[0]))
    } else if rt == "RemoveScene"@ {
        match resolve_scene_spec(st, data) {
            Some(i) => {
                let scenes = st.scenes.remove(i);
                reply_empty(
                    StateView {
                        scenes,
                        current_program_scene: clamp_scene(st.current_program_scene, scenes.len()),
                        current_preview_scene: clamp_scene(st.current_preview_scene, scenes.len()),
                        ..st
                    },
                )
            },
            None => reply_not_found(st, "Scene not found"@),
        }
    } else if rt == "SetSceneName"@ {
        match resolve_scene_spec(st, data) {
            Some(i) => reply_empty(
                match field_str(data, "newSceneName"@) {
                    Some(n) => StateView { scenes: st.scenes.update(i, SceneView { name: n, ..st.scenes[i] }), ..st },
                    None => st,
                },
            ),
            None => reply_not_found(st, "Scene not found"@),
        }
    } else if rt == "GetSceneSceneTransitionOverride"@ {
        reply(st, transition_override_view())
    } else if rt == "SetSceneSceneTransitionOverride"@ {
        reply_empty(st)
    } else {
        None
    }
}

/// The entries of `GetSceneList`.
fn scene_list_entries(scenes: &Vec<Scene>) -> (j: JsonValue)
    ensures
        j.deep() == JsonView::Array(scene_entries(scenes_view(scenes@))),
{
    let mut out: Vec<JsonValue> = Vec::new();
    let mut i: usize = 0;
    while i < scenes.len()
        invariant
            i <= scenes.len(),
            out.len() == i,
            forall|j: int|
                0 <= j < i ==> (#[trigger] out[j]).deep() == scene_list_entry_view(
                    scenes[j].name@,
                    scenes[j].uuid@,
                    j as u64,
                ),
        decreases scenes.len() - i,
    {
        out.push(scene_list_entry(scenes[i].name.as_str(), scenes[i].uuid.as_str(), i as u64));
        i = i + 1;
    }
    proof {
        lemma_items_view(&out);
        assert(items_view(&out) =~= scene_entries(scenes_view(scenes@)));
    }
    array(out)
}

/// Answers the requests that `scenes_spec` describes. The listing requests
/// need the program and preview scenes to exist.
pub fn handle_scenes(state: &mut ObsState, rt: &str, data: &JsonValue, fresh: &Vec<String>) -> (r: Option<Outcome>)
    requires
        rt@ == "GetSceneList"@ ==> current_scenes_exist(old(state)@),
        rt@ == "GetCurrentProgramScene"@ ==> old(state).current_program_scene < old(state).scenes.len(),
        rt@ == "GetCurrentPreviewScene"@ ==> old(state).current_preview_scene < old(state).scenes.len(),
        rt@ == "CreateScene"@ ==> fresh.len() >= 1,
    ensures
        answers(
            r,
            scenes_spec(old(state)@, rt@, data.deep(), fresh@.map_values(|s: String| s@)),
            old(state)@,
            final(state)@,
        ),
{
    if str_eq(rt, "GetSceneList") {
        let scenes = scene_list_entries(&state.scenes);
        let program = &state.scenes[state.current_program_scene];
        let preview = &state.scenes[state.current_preview_scene];
        return Some(
            done(
                scene_list(
                    program.name.as_str(),
                    program.uuid.as_str(),
                    preview.name.as_str(),
                    preview.uuid.as_str(),
                    scenes,
                ),
            ),
        );
    }
    if str_eq(rt, "GetGroupList") {
        return Some(done(group_list()));
    }
    if str_eq(rt, "GetCurrentProgramScene") {
        let scene = &state.scenes[state.current_program_scene];
        return Some(done(program_scene(scene.name.as_str(), scene.uuid.as_str())));
    }
    if str_eq(rt, "SetCurrentProgramScene") {
        return match state.resolve_scene(data) {
            Some(idx) => {
                state.current_program_scene = idx;
                Some(done_empty())
            },
            None => Some(not_found("Scene not found")),
        };
    }
    if str_eq(rt, "GetCurrentPreviewScene") {
        let scene = &state.scenes[state.current_preview_scene];
        return Some(done(preview_scene(scene.name.as_str(), scene.uuid.as_str())));
    }
    if str_eq(rt, "SetCurrentPreviewScene") {
        return match state.resolve_scene(data) {
            Some(idx) => {
                state.current_preview_scene = idx;
                Some(done_empty())
            },
            None => Some(not_found("Scene not found")),
        };
    }
    if str_eq(rt, "CreateScene") {
        let name = match get_str(data, "sceneName") {
            Some(n) => n,
            None => "New Scene",
        };
        let uuid = fresh[0].clone();
        let ghost before = state.scenes@;
        let scene = Scene { name: name.to_string(), uuid: uuid.clone(), items: Vec::new() };
        proof {
            assert(scene_items_view(scene.items@) =~= Seq::empty());
        }
        state.scenes.push(scene);
        proof {
            assert(scenes_view(state.scenes@) =~= scenes_view(before).push(scene@));
        }
        return Some(done(created_scene(uuid.as_str())));
    }
    if str_eq(rt, "RemoveScene") {
        return match state.resolve_scene(data) {
            Some(idx) => {
                let ghost before = state.scenes@;
                state.scenes.remove(idx);
                proof {
                    assert(scenes_view(state.scenes@) =~= scenes_view(before).remove(idx as int));
                }
                if state.current_program_scene >= state.scenes.len() {
                    state.current_program_scene = 0;
                }
                if state.current_preview_scene >= state.scenes.len() {
                    state.current_preview_scene = 0;
                }
                Some(done_empty())
            },
            None => Some(not_found("Scene not found")),
        };
    }
    if str_eq(rt, "SetSceneName") {
        return match state.resolve_scene(data) {
            Some(idx) => {
                if let Some(new_name) = get_str(data, "newSceneName") {
                    let ghost before = state.scenes@;
                    state.scenes[idx].name = new_name.to_string();
                    proof {
                        assert(scenes_view(state.scenes@) =~= scenes_view(before).update(
                            idx as int,
                            SceneView { name: new_name@, ..scenes_view(before)[idx as int] },
                        ));
                    }
                }
                Some(done_empty())
            },
            None => Some(not_found("Scene not found")),
        };
    }
    if str_eq(rt, "GetSceneSceneTransitionOverride") {
        return Some(done(transition_override()));
    }
    if str_eq(rt, "SetSceneSceneTransitionOverride") {
        return Some(done_empty());
    }
    None
}

} // verus!
