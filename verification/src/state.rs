//! The state of the mock OBS instance: scenes and their items, inputs,
//! outputs, transitions, profiles, collections and persistent data.
use vstd::prelude::*;
use crate::json::{
    empty_object, entries_view, field_str, Entries, JsonValue, JsonView, Real, get_str, lemma_entries_view,
};
use crate::text::{first_index, is_first, lemma_first_index, lemma_first_index_none, str_eq};

verus! {

broadcast use vstd::std_specs::vec::group_vec_axioms;

/// `s` is a version-4 UUID in hyphenated lower-case text: 36 characters,
/// hyphens at 8, 13, 18 and 23, lower-case hex digits elsewhere, `4` at 14 and
/// one of `8`, `9`, `a`, `b` at 19.
pub open spec fn is_uuid_text(s: Seq<char>) -> bool {
    &&& s.len() == 36
    &&& forall|i: int|
        0 <= i < 36 ==> if i == 8 || i == 13 || i == 18 || i == 23 {
            #[trigger] s[i] == '-'
        } else {
            ('0' <= s[i] <= '9') || ('a' <= s[i] <= 'f')
        }
    &&& s[14] == '4'
    &&& (s[19] == '8' || s[19] == '9' || s[19] == 'a' || s[19] == 'b')
}

/// `uuid::Uuid::new_v4` followed by `to_string`: a random UUID of version 4 in
/// hyphenated lower-case text. Which UUID comes out is not stated.
#[verifier::external_body]
pub(crate) fn new_uuid() -> (r: String)
    ensures
        is_uuid_text(r@),
{
    uuid::Uuid::new_v4().to_string()
}

/// Position, rotation, scale and size of a scene item.
#[derive(Debug, PartialEq)]
pub struct SceneItemTransform {
    pub position_x: Real,
    pub position_y: Real,
    pub rotation: Real,
    pub scale_x: Real,
    pub scale_y: Real,
    pub width: Real,
    pub height: Real,
    pub source_width: Real,
    pub source_height: Real,
}

impl SceneItemTransform {
    /// A copy of this transform.
    pub fn duplicate(&self) -> (r: Self)
        ensures
            r == *self,
    {
        SceneItemTransform {
            position_x: self.position_x.duplicate(),
            position_y: self.position_y.duplicate(),
            rotation: self.rotation.duplicate(),
            scale_x: self.scale_x.duplicate(),
            scale_y: self.scale_y.duplicate(),
            width: self.width.duplicate(),
            height: self.height.duplicate(),
            source_width: self.source_width.duplicate(),
            source_height: self.source_height.duplicate(),
        }
    }
}

#[derive(Debug, PartialEq)]
pub struct SceneItem {
    pub id: u32,
    pub source_name: String,
    pub source_uuid: String,
    pub source_kind: String,
    pub enabled: bool,
    pub locked: bool,
    pub blend_mode: String,
    pub transform: SceneItemTransform,
}

#[derive(Debug, PartialEq)]
pub struct Scene {
    pub name: String,
    pub uuid: String,
    pub items: Vec<SceneItem>,
}

#[derive(Debug, PartialEq)]
pub struct Input {
    pub name: String,
    pub uuid: String,
    pub kind: String,
    pub muted: bool,
    pub volume_mul: Real,
    pub volume_db: Real,
    pub settings: JsonValue,
}

#[derive(Debug, PartialEq)]
pub struct ObsState {
    pub scenes: Vec<Scene>,
    pub current_program_scene: usize,
    pub current_preview_scene: usize,
    pub inputs: Vec<Input>,
    pub streaming: bool,
    pub stream_timecode: String,
    pub recording: bool,
    pub record_paused: bool,
    pub record_timecode: String,
    pub virtual_cam: bool,
    pub replay_buffer: bool,
    pub studio_mode: bool,
    pub current_transition: String,
    pub transition_duration: u32,
    pub scene_collections: Vec<String>,
    pub current_scene_collection: String,
    pub profiles: Vec<String>,
    pub current_profile: String,
    /// Realm name to the slots of that realm, each slot name to its value.
    pub persistent_data: Vec<(String, Vec<(String, JsonValue)>)>,
}

pub struct SceneItemView {
    pub id: u32,
    pub source_name: Seq<char>,
    pub source_uuid: Seq<char>,
    pub source_kind: Seq<char>,
    pub enabled: bool,
    pub locked: bool,
    pub blend_mode: Seq<char>,
    pub transform: SceneItemTransform,
}

pub struct SceneView {
    pub name: Seq<char>,
    pub uuid: Seq<char>,
    pub items: Seq<SceneItemView>,
}

pub struct InputView {
    pub name: Seq<char>,
    pub uuid: Seq<char>,
    pub kind: Seq<char>,
    pub muted: bool,
    pub volume_mul: Real,
    pub volume_db: Real,
    pub settings: JsonView,
}

pub struct StateView {
    pub scenes: Seq<SceneView>,
    pub current_program_scene: usize,
    pub current_preview_scene: usize,
    pub inputs: Seq<InputView>,
    pub streaming: bool,
    pub stream_timecode: Seq<char>,
    pub recording: bool,
    pub record_paused: bool,
    pub record_timecode: Seq<char>,
    pub virtual_cam: bool,
    pub replay_buffer: bool,
    pub studio_mode: bool,
    pub current_transition: Seq<char>,
    pub transition_duration: u32,
    pub scene_collections: Seq<Seq<char>>,
    pub current_scene_collection: Seq<char>,
    pub profiles: Seq<Seq<char>>,
    pub current_profile: Seq<char>,
    pub persistent_data: Seq<(Seq<char>, Entries)>,
}

impl View for SceneItem {
    type V = SceneItemView;

    open spec fn view(&self) -> SceneItemView {
        SceneItemView {
            id: self.id,
            source_name: self.source_name@,
            source_uuid: self.source_uuid@,
            source_kind: self.source_kind@,
            enabled: self.enabled,
            locked: self.locked,
            blend_mode: self.blend_mode@,
            transform: self.transform,
        }
    }
}

pub open spec fn items_view(v: Seq<SceneItem>) -> Seq<SceneItemView> {
    v.map_values(|i: SceneItem| i@)
}

impl View for Scene {
    type V = SceneView;

    open spec fn view(&self) -> SceneView {
        SceneView { name: self.name@, uuid: self.uuid@, items: items_view(self.items@) }
    }
}

impl View for Input {
    type V = InputView;

    open spec fn view(&self) -> InputView {
        InputView {
            name: self.name@,
            uuid: self.uuid@,
            kind: self.kind@,
            muted: self.muted,
            volume_mul: self.volume_mul,
            volume_db: self.volume_db,
            settings: self.settings.deep(),
        }
    }
}

pub open spec fn strings_view(v: Seq<String>) -> Seq<Seq<char>> {
    v.map_values(|s: String| s@)
}

pub open spec fn realms_view(v: Seq<(String, Vec<(String, JsonValue)>)>) -> Seq<(Seq<char>, Entries)> {
    v.map_values(|r: (String, Vec<(String, JsonValue)>)| (r.0@, entries_view(&r.1)))
}

pub open spec fn scenes_view(v: Seq<Scene>) -> Seq<SceneView> {
    v.map_values(|s: Scene| s@)
}

pub open spec fn inputs_view(v: Seq<Input>) -> Seq<InputView> {
    v.map_values(|i: Input| i@)
}

impl View for ObsState {
    type V = StateView;

    open spec fn view(&self) -> StateView {
        StateView {
            scenes: scenes_view(self.scenes@),
            current_program_scene: self.current_program_scene,
            current_preview_scene: self.current_preview_scene,
            inputs: inputs_view(self.inputs@),
            streaming: self.streaming,
            stream_timecode: self.stream_timecode@,
            recording: self.recording,
            record_paused: self.record_paused,
            record_timecode: self.record_timecode@,
            virtual_cam: self.virtual_cam,
            replay_buffer: self.replay_buffer,
            studio_mode: self.studio_mode,
            current_transition: self.current_transition@,
            transition_duration: self.transition_duration,
            scene_collections: strings_view(self.scene_collections@),
            current_scene_collection: self.current_scene_collection@,
            profiles: strings_view(self.profiles@),
            current_profile: self.current_profile@,
            persistent_data: realms_view(self.persistent_data@),
        }
    }
}

// ---------------------------------------------------------------------------
// Lookups
// ---------------------------------------------------------------------------

pub open spec fn scene_named(n: Seq<char>) -> spec_fn(SceneView) -> bool {
    |s: SceneView| s.name == n
}

pub open spec fn scene_with_uuid(u: Seq<char>) -> spec_fn(SceneView) -> bool {
    |s: SceneView| s.uuid == u
}

pub open spec fn input_named(n: Seq<char>) -> spec_fn(InputView) -> bool {
    |i: InputView| i.name == n
}

pub open spec fn input_with_uuid(u: Seq<char>) -> spec_fn(InputView) -> bool {
    |i: InputView| i.uuid == u
}

pub open spec fn item_with_id(id: u32) -> spec_fn(SceneItemView) -> bool {
    |i: SceneItemView| i.id == id
}

pub open spec fn item_with_source(n: Seq<char>) -> spec_fn(SceneItemView) -> bool {
    |i: SceneItemView| i.source_name == n
}

/// An index found by a search, as a mathematical integer.
pub open spec fn found(r: Option<usize>) -> Option<int> {
    match r {
        Some(i) => Some(i as int),
        None => None,
    }
}

/// The scene that request data names: by `sceneName` where that is a string,
/// else by `sceneUuid` where that is a string, else none.
pub open spec fn resolve_scene_spec(st: StateView, data: JsonView) -> Option<int> {
    match field_str(data, "sceneName"@) {
        Some(n) => first_index(st.scenes, scene_named(n)),
        None => match field_str(data, "sceneUuid"@) {
            Some(u) => first_index(st.scenes, scene_with_uuid(u)),
            None => None,
        },
    }
}

/// The input that request data names: by `inputName` where that is a string,
/// else by `inputUuid` where that is a string, else none.
pub open spec fn resolve_input_spec(st: StateView, data: JsonView) -> Option<int> {
    match field_str(data, "inputName"@) {
        Some(n) => first_index(st.inputs, input_named(n)),
        None => match field_str(data, "inputUuid"@) {
            Some(u) => first_index(st.inputs, input_with_uuid(u)),
            None => None,
        },
    }
}

/// The largest id among `items`, or 0.
pub open spec fn max_item_id(items: Seq<SceneItemView>) -> u32
    decreases items.len(),
{
    if items.len() == 0 {
        0
    } else {
        let m = max_item_id(items.drop_last());
        if items.last().id > m { items.last().id } else { m }
    }
}

/// The largest scene item id over all scenes, or 0.
pub open spec fn max_scene_item_id(scenes: Seq<SceneView>) -> u32
    decreases scenes.len(),
{
    if scenes.len() == 0 {
        0
    } else {
        let m = max_scene_item_id(scenes.drop_last());
        let n = max_item_id(scenes.last().items);
        if n > m { n } else { m }
    }
}

/// No item of any scene has an id above the largest.
pub proof fn lemma_max_item_id(items: Seq<SceneItemView>)
    ensures
        forall|i: int| 0 <= i < items.len() ==> (#[trigger] items[i]).id <= max_item_id(items),
    decreases items.len(),
{
    if items.len() > 0 {
        lemma_max_item_id(items.drop_last());
        assert forall|i: int| 0 <= i < items.len() implies (#[trigger] items[i]).id <= max_item_id(items) by {
            if i < items.len() - 1 {
                assert(items[i] == items.drop_last()[i]);
            }
        }
    }
}

/// No item of any scene has an id above the largest over all scenes.
pub proof fn lemma_max_scene_item_id(scenes: Seq<SceneView>)
    ensures
        forall|s: int, i: int|
            0 <= s < scenes.len() && 0 <= i < scenes[s].items.len() ==> (#[trigger] scenes[s].items[i]).id
                <= max_scene_item_id(scenes),
    decreases scenes.len(),
{
    if scenes.len() > 0 {
        lemma_max_scene_item_id(scenes.drop_last());
        assert forall|s: int, i: int|
            0 <= s < scenes.len() && 0 <= i < scenes[s].items.len() implies (#[trigger] scenes[s].items[i]).id
                <= max_scene_item_id(scenes) by {
            if s < scenes.len() - 1 {
                assert(scenes[s] == scenes.drop_last()[s]);
            } else {
                lemma_max_item_id(scenes[s].items);
            }
        }
    }
}

impl ObsState {
    /// The first scene with the given name.
    pub fn find_scene_by_name(&self, name: &str) -> (r: Option<usize>)
        ensures
            found(r) == first_index(self@.scenes, scene_named(name@)),
    {
        let ghost s = self@.scenes;
        let mut i: usize = 0;
        while i < self.scenes.len()
            invariant
                i <= self.scenes.len(),
                s == self@.scenes,
                forall|j: int| 0 <= j < i ==> !scene_named(name@)(#[trigger] s[j]),
            decreases self.scenes.len() - i,
        {
            if str_eq(self.scenes[i].name.as_str(), name) {
                proof {
                    lemma_first_index(s, scene_named(name@), i as int);
                }
                return Some(i);
            }
            i = i + 1;
        }
        proof {
            lemma_first_index_none(s, scene_named(name@));
        }
        None
    }

    /// The first scene with the given UUID.
    pub fn find_scene_by_uuid(&self, uuid: &str) -> (r: Option<usize>)
        ensures
            found(r) == first_index(self@.scenes, scene_with_uuid(uuid@)),
    {
        let ghost s = self@.scenes;
        let mut i: usize = 0;
        while i < self.scenes.len()
            invariant
                i <= self.scenes.len(),
                s == self@.scenes,
                forall|j: int| 0 <= j < i ==> !scene_with_uuid(uuid@)(#[trigger] s[j]),
            decreases self.scenes.len() - i,
        {
            if str_eq(self.scenes[i].uuid.as_str(), uuid) {
                proof {
                    lemma_first_index(s, scene_with_uuid(uuid@), i as int);
                }
                return Some(i);
            }
            i = i + 1;
        }
        proof {
            lemma_first_index_none(s, scene_with_uuid(uuid@));
        }
        None
    }

    /// The first input with the given name.
    pub fn find_input_by_name(&self, name: &str) -> (r: Option<usize>)
        ensures
            found(r) == first_index(self@.inputs, input_named(name@)),
    {
        let ghost s = self@.inputs;
        let mut i: usize = 0;
        while i < self.inputs.len()
            invariant
                i <= self.inputs.len(),
                s == self@.inputs,
                forall|j: int| 0 <= j < i ==> !input_named(name@)(#[trigger] s[j]),
            decreases self.inputs.len() - i,
        {
            if str_eq(self.inputs[i].name.as_str(), name) {
                proof {
                    lemma_first_index(s, input_named(name@), i as int);
                }
                return Some(i);
            }
            i = i + 1;
        }
        proof {
            lemma_first_index_none(s, input_named(name@));
        }
        None
    }

    /// The first input with the given UUID.
    pub fn find_input_by_uuid(&self, uuid: &str) -> (r: Option<usize>)
        ensures
            found(r) == first_index(self@.inputs, input_with_uuid(uuid@)),
    {
        let ghost s = self@.inputs;
        let mut i: usize = 0;
        while i < self.inputs.len()
            invariant
                i <= self.inputs.len(),
                s == self@.inputs,
                forall|j: int| 0 <= j < i ==> !input_with_uuid(uuid@)(#[trigger] s[j]),
            decreases self.inputs.len() - i,
        {
            if str_eq(self.inputs[i].uuid.as_str(), uuid) {
                proof {
                    lemma_first_index(s, input_with_uuid(uuid@), i as int);
                }
                return Some(i);
            }
            i = i + 1;
        }
        proof {
            lemma_first_index_none(s, input_with_uuid(uuid@));
        }
        None
    }

    /// The scene that request data names, as `resolve_scene_spec` says.
    pub fn resolve_scene(&self, data: &JsonValue) -> (r: Option<usize>)
        ensures
            found(r) == resolve_scene_spec(self@, data.deep()),
    {
        if let Some(name) = get_str(data, "sceneName") {
            return self.find_scene_by_name(name);
        }
        if let Some(uuid) = get_str(data, "sceneUuid") {
            return self.find_scene_by_uuid(uuid);
        }
        None
    }

    /// The first item with the given id in the scene at `scene_idx`.
    pub fn find_scene_item(&self, scene_idx: usize, item_id: u32) -> (r: Option<usize>)
        requires
            scene_idx < self.scenes.len(),
        ensures
            found(r) == first_index(self@.scenes[scene_idx as int].items, item_with_id(item_id)),
    {
        let items = &self.scenes[scene_idx].items;
        let ghost s = items_view(items@);
        assert(s == self@.scenes[scene_idx as int].items);
        let mut i: usize = 0;
        while i < items.len()
            invariant
                i <= items.len(),
                s == items_view(items@),
                scene_idx < self@.scenes.len(),
                s == self@.scenes[scene_idx as int].items,
                forall|j: int| 0 <= j < i ==> !item_with_id(item_id)(#[trigger] s[j]),
            decreases items.len() - i,
        {
            if items[i].id == item_id {
                proof {
                    lemma_first_index(s, item_with_id(item_id), i as int);
                }
                return Some(i);
            }
            i = i + 1;
        }
        proof {
            lemma_first_index_none(s, item_with_id(item_id));
        }
        None
    }

    /// The largest scene item id over all scenes, or 0 where there is no item.
    pub fn largest_item_id(&self) -> (m: u32)
        ensures
            m == max_scene_item_id(self@.scenes),
    {
        let ghost sv = self@.scenes;
        let mut m: u32 = 0;
        let mut s: usize = 0;
        while s < self.scenes.len()
            invariant
                s <= self.scenes.len(),
                sv == self@.scenes,
                m == max_scene_item_id(sv.take(s as int)),
            decreases self.scenes.len() - s,
        {
            let items = &self.scenes[s].items;
            let ghost iv = sv[s as int].items;
            assert(iv == items_view(items@));
            let mut k: u32 = 0;
            let mut i: usize = 0;
            while i < items.len()
                invariant
                    i <= items.len(),
                    iv == items_view(items@),
                    k == max_item_id(iv.take(i as int)),
                decreases items.len() - i,
            {
                assert(iv.take(i + 1).drop_last() =~= iv.take(i as int));
                if items[i].id > k {
                    k = items[i].id;
                }
                i = i + 1;
            }
            assert(iv.take(i as int) =~= iv);
            assert(sv.take(s + 1).drop_last() =~= sv.take(s as int));
            if k > m {
                m = k;
            }
            s = s + 1;
        }
        assert(sv.take(s as int) =~= sv);
        m
    }

    /// One more than the largest scene item id over all scenes (1 where there
    /// is no item). The largest id must be below `u32::MAX`.
    pub fn next_scene_item_id(&self) -> (r: u32)
        requires
            max_scene_item_id(self@.scenes) < u32::MAX,
        ensures
            r == max_scene_item_id(self@.scenes) + 1,
    {
        self.largest_item_id() + 1
    }

    /// The input that request data names, as `resolve_input_spec` says.
    pub fn resolve_input(&self, data: &JsonValue) -> (r: Option<usize>)
        ensures
            found(r) == resolve_input_spec(self@, data.deep()),
    {
        if let Some(name) = get_str(data, "inputName") {
            return self.find_input_by_name(name);
        }
        if let Some(uuid) = get_str(data, "inputUuid") {
            return self.find_input_by_uuid(uuid);
        }
        None
    }
}

/// The model of a scene item made by `make_item`: enabled, unlocked, normal
/// blending, placed at (`x`, `y`), unrotated and unscaled, `w` by `h`.
pub open spec fn item_view(id: u32, name: Seq<char>, kind: Seq<char>, x: u64, y: u64, w: u64, h: u64, uuid: Seq<char>) -> SceneItemView {
    SceneItemView {
        id,
        source_name: name,
        source_uuid: uuid,
        source_kind: kind,
        enabled: true,
        locked: false,
        blend_mode: "OBS_BLEND_NORMAL"@,
        transform: SceneItemTransform {
            position_x: Real::OfU64(x),
            position_y: Real::OfU64(y),
            rotation: Real::OfU64(0),
            scale_x: Real::OfU64(1),
            scale_y: Real::OfU64(1),
            width: Real::OfU64(w),
            height: Real::OfU64(h),
            source_width: Real::OfU64(w),
            source_height: Real::OfU64(h),
        },
    }
}

/// The model of an input as the initial state has it: unmuted, at full
/// volume, with empty settings.
pub open spec fn initial_input(name: Seq<char>, kind: Seq<char>, uuid: Seq<char>) -> InputView {
    InputView {
        name,
        uuid,
        kind,
        muted: false,
        volume_mul: Real::OfU64(1),
        volume_db: Real::OfU64(0),
        settings: JsonView::Object(Seq::empty()),
    }
}

/// The initial state, with the 20 UUIDs `ids` given to its scenes, scene
/// items and inputs in order.
pub open spec fn initial_state(ids: Seq<Seq<char>>) -> StateView {
    StateView {
        scenes: seq![
            SceneView { name: "Main"@, uuid: ids[0], items: seq![item_view(1, "Camera"@, "v4l2_input"@, 0, 0, 1920, 1080, ids[1]), item_view(2, "Microphone"@, "pulse_input_capture"@, 0, 0, 0, 0, ids[2]), item_view(3, "Desktop Audio"@, "pulse_output_capture"@, 0, 0, 0, 0, ids[3])] },
            SceneView { name: "Screen Share"@, uuid: ids[4], items: seq![item_view(4, "Screen Capture"@, "monitor_capture"@, 0, 0, 1920, 1080, ids[5]), item_view(5, "Webcam Overlay"@, "v4l2_input"@, 1580, 820, 320, 240, ids[6]), item_view(6, "Desktop Audio"@, "pulse_output_capture"@, 0, 0, 0, 0, ids[7])] },
            SceneView { name: "BRB"@, uuid: ids[8], items: seq![item_view(7, "BRB Image"@, "image_source"@, 0, 0, 1920, 1080, ids[9]), item_view(8, "Background Music"@, "ffmpeg_source"@, 0, 0, 0, 0, ids[10])] },
            SceneView { name: "Starting Soon"@, uuid: ids[11], items: seq![item_view(9, "Starting Soon Image"@, "image_source"@, 0, 0, 1920, 1080, ids[12]), item_view(10, "Countdown Timer"@, "browser_source"@, 660, 600, 600, 200, ids[13]), item_view(11, "Background Music"@, "ffmpeg_source"@, 0, 0, 0, 0, ids[14])] },
            SceneView { name: "Ending"@, uuid: ids[15], items: seq![item_view(12, "Ending Image"@, "image_source"@, 0, 0, 1920, 1080, ids[16]), item_view(13, "Background Music"@, "ffmpeg_source"@, 0, 0, 0, 0, ids[17])] }
        ],
        current_program_scene: 0,
        current_preview_scene: 0,
        inputs: seq![
            initial_input("Desktop Audio"@, "pulse_output_capture"@, ids[18]),
            initial_input("Mic/Aux"@, "pulse_input_capture"@, ids[19])
        ],
        streaming: false,
        stream_timecode: "00:00:00.000"@,
        recording: false,
        record_paused: false,
        record_timecode: "00:00:00.000"@,
        virtual_cam: false,
        replay_buffer: false,
        studio_mode: false,
        current_transition: "Fade"@,
        transition_duration: 300,
        scene_collections: seq!["Default"@],
        current_scene_collection: "Default"@,
        profiles: seq!["Default"@],
        current_profile: "Default"@,
        persistent_data: Seq::empty(),
    }
}

impl ObsState {
    /// A scene item with the given id, source, kind, place and size, enabled,
    /// unlocked, with normal blending, unrotated and unscaled.
    fn make_item(id: u32, name: &str, kind: &str, x: u64, y: u64, w: u64, h: u64, uuid: String) -> (item: SceneItem)
        ensures
            item@ == item_view(id, name@, kind@, x, y, w, h, uuid@),
    {
        SceneItem {
            id,
            source_name: name.to_string(),
            source_uuid: uuid,
            source_kind: kind.to_string(),
            enabled: true,
            locked: false,
            blend_mode: "OBS_BLEND_NORMAL".to_string(),
            transform: SceneItemTransform {
                position_x: Real::OfU64(x),
                position_y: Real::OfU64(y),
                rotation: Real::OfU64(0),
                scale_x: Real::OfU64(1),
                scale_y: Real::OfU64(1),
                width: Real::OfU64(w),
                height: Real::OfU64(h),
                source_width: Real::OfU64(w),
                source_height: Real::OfU64(h),
            },
        }
    }

    /// The initial state, with the UUIDs `ids` given to its scenes, scene
    /// items and inputs in order.
    pub fn with_ids(ids: &Vec<String>) -> (s: Self)
        requires
            ids.len() == 20,
        ensures
            s@ == initial_state(ids@.map_values(|u: String| u@)),
    {
        let mut scenes: Vec<Scene> = Vec::new();
        let items: Vec<SceneItem> = vec![ObsState::make_item(1, "Camera", "v4l2_input", 0, 0, 1920, 1080, ids[1].clone()), ObsState::make_item(2, "Microphone", "pulse_input_capture", 0, 0, 0, 0, ids[2].clone()), ObsState::make_item(3, "Desktop Audio", "pulse_output_capture", 0, 0, 0, 0, ids[3].clone())];
        proof {
            assert(items_view(items@) =~= initial_state(ids@.map_values(|s: String| s@)).scenes[0].items);
        }
        scenes.push(Scene { name: "Main".to_string(), uuid: ids[0].clone(), items });
        let items: Vec<SceneItem> = vec![ObsState::make_item(4, "Screen Capture", "monitor_capture", 0, 0, 1920, 1080, ids[5].clone()), ObsState::make_item(5, "Webcam Overlay", "v4l2_input", 1580, 820, 320, 240, ids[6].clone()), ObsState::make_item(6, "Desktop Audio", "pulse_output_capture", 0, 0, 0, 0, ids[7].clone())];
        proof {
            assert(items_view(items@) =~= initial_state(ids@.map_values(|s: String| s@)).scenes[1].items);
        }
        scenes.push(Scene { name: "Screen Share".to_string(), uuid: ids[4].clone(), items });
        let items: Vec<SceneItem> = vec![ObsState::make_item(7, "BRB Image", "image_source", 0, 0, 1920, 1080, ids[9].clone()), ObsState::make_item(8, "Background Music", "ffmpeg_source", 0, 0, 0, 0, ids[10].clone())];
        proof {
            assert(items_view(items@) =~= initial_state(ids@.map_values(|s: String| s@)).scenes[2].items);
        }
        scenes.push(Scene { name: "BRB".to_string(), uuid: ids[8].clone(), items });
        let items: Vec<SceneItem> = vec![ObsState::make_item(9, "Starting Soon Image", "image_source", 0, 0, 1920, 1080, ids[12].clone()), ObsState::make_item(10, "Countdown Timer", "browser_source", 660, 600, 600, 200, ids[13].clone()), ObsState::make_item(11, "Background Music", "ffmpeg_source", 0, 0, 0, 0, ids[14].clone())];
        proof {
            assert(items_view(items@) =~= initial_state(ids@.map_values(|s: String| s@)).scenes[3].items);
        }
        scenes.push(Scene { name: "Starting Soon".to_string(), uuid: ids[11].clone(), items });
        let items: Vec<SceneItem> = vec![ObsState::make_item(12, "Ending Image", "image_source", 0, 0, 1920, 1080, ids[16].clone()), ObsState::make_item(13, "Background Music", "ffmpeg_source", 0, 0, 0, 0, ids[17].clone())];
        proof {
            assert(items_view(items@) =~= initial_state(ids@.map_values(|s: String| s@)).scenes[4].items);
        }
        scenes.push(Scene { name: "Ending".to_string(), uuid: ids[15].clone(), items });
        let ghost sv = initial_state(ids@.map_values(|u: String| u@)).scenes;
        assert(scenes_view(scenes@) =~= sv);
        let inputs: Vec<Input> = vec![
            Input {
                name: "Desktop Audio".to_string(),
                uuid: ids[18].clone(),
                kind: "pulse_output_capture".to_string(),
                muted: false,
                volume_mul: Real::OfU64(1),
                volume_db: Real::OfU64(0),
                settings: empty_object(),
            },
            Input {
                name: "Mic/Aux".to_string(),
                uuid: ids[19].clone(),
                kind: "pulse_input_capture".to_string(),
                muted: false,
                volume_mul: Real::OfU64(1),
                volume_db: Real::OfU64(0),
                settings: empty_object(),
            },
        ];
        assert(inputs_view(inputs@) =~= initial_state(ids@.map_values(|u: String| u@)).inputs);
        let collections: Vec<String> = vec!["Default".to_string()];
        let profiles: Vec<String> = vec!["Default".to_string()];
        let persistent: Vec<(String, Vec<(String, JsonValue)>)> = Vec::new();
        assert(strings_view(collections@) =~= seq!["Default"@]);
        assert(strings_view(profiles@) =~= seq!["Default"@]);
        assert(realms_view(persistent@) =~= Seq::empty());
        ObsState {
            scenes,
            current_program_scene: 0,
            current_preview_scene: 0,
            inputs,
            streaming: false,
            stream_timecode: "00:00:00.000".to_string(),
            recording: false,
            record_paused: false,
            record_timecode: "00:00:00.000".to_string(),
            virtual_cam: false,
            replay_buffer: false,
            studio_mode: false,
            current_transition: "Fade".to_string(),
            transition_duration: 300,
            scene_collections: collections,
            current_scene_collection: "Default".to_string(),
            profiles,
            current_profile: "Default".to_string(),
            persistent_data: persistent,
        }
    }

    /// The initial state of a session: five scenes with their items, two
    /// audio inputs, nothing streaming or recording, the `Fade` transition of
    /// 300 ms, and the `Default` collection and profile; every scene, item and
    /// input gets a fresh UUID.
    pub fn new() -> (s: Self)
        ensures
            exists|ids: Seq<Seq<char>>|
                {
                    &&& ids.len() == 20
                    &&& forall|i: int| 0 <= i < 20 ==> is_uuid_text(#[trigger] ids[i])
                    &&& s@ == initial_state(ids)
                },
    {
        let mut ids: Vec<String> = Vec::new();
        while ids.len() < 20
            invariant
                ids.len() <= 20,
                forall|i: int| 0 <= i < ids.len() ==> is_uuid_text(#[trigger] ids[i]@),
            decreases 20 - ids.len(),
        {
            ids.push(new_uuid());
        }
        let s = ObsState::with_ids(&ids);
        let ghost v = ids@.map_values(|u: String| u@);
        assert(forall|i: int| 0 <= i < 20 ==> is_uuid_text(#[trigger] v[i]));
        s
    }
}

} // verus!
