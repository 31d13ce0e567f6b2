use obs_mock::json::{field, object, text};
use obs_mock::state::ObsState;

fn is_v4_uuid(s: &str) -> bool {
    let b = s.as_bytes();
    b.len() == 36
        && b.iter().enumerate().all(|(i, c)| {
            if i == 8 || i == 13 || i == 18 || i == 23 {
                *c == b'-'
            } else {
                c.is_ascii_digit() || (b'a'..=b'f').contains(c)
            }
        })
        && b[14] == b'4'
        && matches!(b[19], b'8' | b'9' | b'a' | b'b')
}

#[test]
fn initial_state_layout() {
    let st = ObsState::new();
    let names: Vec<&str> = st.scenes.iter().map(|s| s.name.as_str()).collect();
    assert_eq!(names, vec!["Main", "Screen Share", "BRB", "Starting Soon", "Ending"]);
    let ids: Vec<u32> = st.scenes.iter().flat_map(|s| s.items.iter().map(|i| i.id)).collect();
    assert_eq!(ids, (1..=13).collect::<Vec<u32>>());
    assert_eq!(st.inputs.len(), 2);
    assert_eq!(st.inputs[1].name, "Mic/Aux");
    assert_eq!(st.current_program_scene, 0);
    assert_eq!(st.current_transition, "Fade");
    assert_eq!(st.transition_duration, 300);
    assert!(st.persistent_data.is_empty());
}

#[test]
fn initial_uuids_are_distinct_version_4() {
    let st = ObsState::new();
    let mut all: Vec<&str> = Vec::new();
    for s in &st.scenes {
        all.push(&s.uuid);
        for i in &s.items {
            all.push(&i.source_uuid);
        }
    }
    for i in &st.inputs {
        all.push(&i.uuid);
    }
    assert_eq!(all.len(), 20);
    assert!(all.iter().all(|u| is_v4_uuid(u)));
    let mut sorted = all.clone();
    sorted.sort();
    sorted.dedup();
    assert_eq!(sorted.len(), 20);
}

#[test]
fn lookups_by_name_and_uuid() {
    let st = ObsState::new();
    assert_eq!(st.find_scene_by_name("BRB"), Some(2));
    assert_eq!(st.find_scene_by_name("brb"), None);
    assert_eq!(st.find_scene_by_uuid(&st.scenes[4].uuid), Some(4));
    assert_eq!(st.find_input_by_name("Desktop Audio"), Some(0));
    assert_eq!(st.find_input_by_uuid(&st.inputs[1].uuid), Some(1));
    assert_eq!(st.find_input_by_uuid("nope"), None);
    assert_eq!(st.find_scene_item(1, 5), Some(1));
    assert_eq!(st.find_scene_item(1, 1), None);
    assert_eq!(st.next_scene_item_id(), 14);
}

#[test]
fn resolve_prefers_name_over_uuid() {
    let st = ObsState::new();
    let by_both = object(vec![field("sceneName", text("Ending")), field("sceneUuid", text(&st.scenes[0].uuid))]);
    assert_eq!(st.resolve_scene(&by_both), Some(4));
    let by_uuid = object(vec![field("sceneUuid", text(&st.scenes[3].uuid))]);
    assert_eq!(st.resolve_scene(&by_uuid), Some(3));
    assert_eq!(st.resolve_scene(&object(vec![])), None);
    let missing_name = object(vec![field("sceneName", text("Nope")), field("sceneUuid", text(&st.scenes[0].uuid))]);
    assert_eq!(st.resolve_scene(&missing_name), None);
    let input = object(vec![field("inputUuid", text(&st.inputs[0].uuid))]);
    assert_eq!(st.resolve_input(&input), Some(0));
}
