//! Streaming, recording, the virtual camera, the replay buffer and outputs.
use vstd::prelude::*;
use crate::handler::{answers, done, done_empty, reply, reply_empty, Outcome, Step};
use crate::handler::payloads::{
    last_replay, last_replay_view, output_active, output_active_view, output_list, output_list_view,
    output_settings, output_settings_view, output_status, output_status_view, record_status,
    record_status_view, record_stopped, record_stopped_view, stream_status, stream_status_view,
};
use crate::state::{ObsState, StateView};
use crate::text::str_eq;

verus! {

/// The requests on streaming, recording, the virtual camera, the replay buffer
/// and outputs; nothing for any other request.
pub open spec fn outputs_spec(st: StateView, rt: Seq<char>) -> Option<Step> {
    if rt == "GetStreamStatus"@ {
        reply(st, stream_status_view(st.streaming, st.stream_timecode))
    } else if rt == "ToggleStream"@ {
        reply(StateView { streaming: !st.streaming, ..st }, output_active_view(!st.streaming))
    } else if rt == "StartStream"@ {
        reply_empty(StateView { streaming: true, ..st })
    } else if rt == "StopStream"@ {
        reply_empty(StateView { streaming: false, ..st })
    } else if rt == "SendStreamCaption"@ {
        reply_empty(st)
    } else if rt == "GetRecordStatus"@ {
        reply(st, record_status_view(st.recording, st.record_paused, st.record_timecode))
    } else if rt == "ToggleRecord"@ {
        let recording = !st.recording;
        reply(
            StateView { recording, record_paused: if recording { st.record_paused } else { false }, ..st },
            output_active_view(recording),
        )
    } else if rt == "StartRecord"@ {
        reply_empty(StateView { recording: true, record_paused: false, ..st })
    } else if rt == "StopRecord"@ {
        reply(StateView { recording: false, record_paused: false, ..st }, record_stopped_view())
    } else if rt == "ToggleRecordPause"@ {
        reply_empty(if st.recording { StateView { record_paused: !st.record_paused, ..st } } else { st })
    } else if rt == "PauseRecord"@ {
        reply_empty(StateView { record_paused: true, ..st })
    } else if rt == "ResumeRecord"@ {
        reply_empty(StateView { record_paused: false, ..st })
    } else if rt == "SplitRecordFile"@ || rt == "CreateRecordChapter"@ {
        reply_empty(st)
    } else if rt == "GetVirtualCamStatus"@ {
        reply(st, output_active_view(st.virtual_cam))
    } else if rt == "ToggleVirtualCam"@ {
        reply(StateView { virtual_cam: !st.virtual_cam, ..st }, output_active_view(!st.virtual_cam))
    } else if rt == "StartVirtualCam"@ {
        reply_empty(StateView { virtual_cam: true, ..st })
    } else if rt == "StopVirtualCam"@ {
        reply_empty(StateView { virtual_cam: false, ..st })
    } else if rt == "GetReplayBufferStatus"@ {
        reply(st, output_active_view(st.replay_buffer))
    } else if rt == "ToggleReplayBuffer"@ {
        reply(StateView { replay_buffer: !st.replay_buffer, ..st }, output_active_view(!st.replay_buffer))
    } else if rt == "StartReplayBuffer"@ {
        reply_empty(StateView { replay_buffer: true, ..st })
    } else if rt == "StopReplayBuffer"@ {
        reply_empty(StateView { replay_buffer: false, ..st })
    } else if rt == "SaveReplayBuffer"@ {
        reply_empty(st)
    } else if rt == "GetLastReplayBufferReplay"@ {
        reply(st, last_replay_view())
    } else if rt == "GetOutputList"@ {
        reply(st, output_list_view())
    } else if rt == "GetOutputStatus"@ {
        reply(st, output_status_view())
    } else if rt == "ToggleOutput"@ {
        reply(st, output_active_view(true))
    } else if rt == "StartOutput"@ || rt == "StopOutput"@ || rt == "SetOutputSettings"@ {
        reply_empty(st)
    } else if rt == "GetOutputSettings"@ {
        reply(st, output_settings_view())
    } else {
        None
    }
}

/// Answers the requests that `outputs_spec` describes.
pub fn handle_outputs(state: &mut ObsState, rt: &str) -> (r: Option<Outcome>)
    ensures
        answers(r, outputs_spec(old(state)@, rt@), old(state)@, final(state)@),
{
    if str_eq(rt, "GetStreamStatus") {
        return Some(done(stream_status(state.streaming, state.stream_timecode.as_str())));
    }
    if str_eq(rt, "ToggleStream") {
        state.streaming = !state.streaming;
        return Some(done(output_active(state.streaming)));
    }
    if str_eq(rt, "StartStream") {
        state.streaming = true;
        return Some(done_empty());
    }
    if str_eq(rt, "StopStream") {
        state.streaming = false;
        return Some(done_empty());
    }
    if str_eq(rt, "SendStreamCaption") {
        return Some(done_empty());
    }
    if str_eq(rt, "GetRecordStatus") {
        return Some(
            done(record_status(state.recording, state.record_paused, state.record_timecode.as_str())),
        );
    }
    if str_eq(rt, "ToggleRecord") {
        state.recording = !state.recording;
        if !state.recording {
            state.record_paused = false;
        }
        return Some(done(output_active(state.recording)));
    }
    if str_eq(rt, "StartRecord") {
        state.recording = true;
        state.record_paused = false;
        return Some(done_empty());
    }
    if str_eq(rt, "StopRecord") {
        state.recording = false;
        state.record_paused = false;
        return Some(done(record_stopped()));
    }
    if str_eq(rt, "ToggleRecordPause") {
        if state.recording {
            state.record_paused = !state.record_paused;
        }
        return Some(done_empty());
    }
    if str_eq(rt, "PauseRecord") {
        state.record_paused = true;
        return Some(done_empty());
    }
    if str_eq(rt, "ResumeRecord") {
        state.record_paused = false;
        return Some(done_empty());
    }
    if str_eq(rt, "SplitRecordFile") || str_eq(rt, "CreateRecordChapter") {
        return Some(done_empty());
    }
    if str_eq(rt, "GetVirtualCamStatus") {
        return Some(done(output_active(state.virtual_cam)));
    }
    if str_eq(rt, "ToggleVirtualCam") {
        state.virtual_cam = !state.virtual_cam;
        return Some(done(output_active(state.virtual_cam)));
    }
    if str_eq(rt, "StartVirtualCam") {
        state.virtual_cam = true;
        return Some(done_empty());
    }
    if str_eq(rt, "StopVirtualCam") {
        state.virtual_cam = false;
        return Some(done_empty());
    }
    if str_eq(rt, "GetReplayBufferStatus") {
        return Some(done(output_active(state.replay_buffer)));
    }
    if str_eq(rt, "ToggleReplayBuffer") {
        state.replay_buffer = !state.replay_buffer;
        return Some(done(output_active(state.replay_buffer)));
    }
    if str_eq(rt, "StartReplayBuffer") {
        state.replay_buffer = true;
        return Some(done_empty());
    }
    if str_eq(rt, "StopReplayBuffer") {
        state.replay_buffer = false;
        return Some(done_empty());
    }
    if str_eq(rt, "SaveReplayBuffer") {
        return Some(done_empty());
    }
    if str_eq(rt, "GetLastReplayBufferReplay") {
        return Some(done(last_replay()));
    }
    if str_eq(rt, "GetOutputList") {
        return Some(done(output_list()));
    }
    if str_eq(rt, "GetOutputStatus") {
        return Some(done(output_status()));
    }
    if str_eq(rt, "ToggleOutput") {
        return Some(done(output_active(true)));
    }
    if str_eq(rt, "StartOutput") || str_eq(rt, "StopOutput") || str_eq(rt, "SetOutputSettings") {
        return Some(done_empty());
    }
    if str_eq(rt, "GetOutputSettings") {
        return Some(done(output_settings()));
    }
    None
}

} // verus!
