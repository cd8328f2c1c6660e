//! How a motion stream is sourced: which receiver or image input opens for
//! its engine and input, which MediaPipe tasks it runs, and how the native
//! engine's counters and outputs are read.
use vstd::prelude::*;

use crate::file_image::{FileImageEmissionMode, ImageResizeOptions, ResizeAxis, RgbaColor};
use crate::image_source::FileImageInputConfig;
use crate::post_process_settings::CoreMediaPipePostProcessSettings;
use crate::runtime_choices::{name_key, name_key_of};
use crate::runtime_config::{CoreMotionFrameStreamConfig, CoreUnmotionResizeConfig};
use crate::text::{ascii_lower, chars_eq_str, chars_of, concat, lower_chars, trim, trim_chars};

verus! {

/// The source a stream opens.
#[derive(Clone, Copy, Debug, PartialEq, Eq, Structural)]
pub enum SourceKind {
    /// A VMC/OSC receiver.
    VmcReceive,
    /// An iFacialMocap receiver.
    IfacialmocapReceive,
    /// A still image through MediaPipe.
    FileImage,
    /// A video file through MediaPipe.
    FileVideo,
    /// A DirectShow webcam through MediaPipe.
    WebcamDirectShow,
}

/// Why a stream's source cannot open.
#[derive(Clone, Copy, Debug, PartialEq, Eq, Structural)]
pub enum SourceRouteError {
    /// The MediaFoundation webcam input is not wired to MediaPipe yet.
    MediaFoundationUnsupported,
}

/// The source an engine and input open: the receivers by engine, MediaPipe
/// native by input; nothing for another engine or an unknown input.
pub open spec fn source_route_of(engine: Seq<char>, input: Seq<char>) -> Result<Option<SourceKind>, SourceRouteError> {
    if engine == "vmc"@ {
        Ok(Some(SourceKind::VmcReceive))
    } else if engine == "ifacialmocap"@ {
        Ok(Some(SourceKind::IfacialmocapReceive))
    } else if engine != "mediapipe-native"@ {
        Ok(None)
    } else if input == "file-image"@ {
        Ok(Some(SourceKind::FileImage))
    } else if input == "file-video"@ {
        Ok(Some(SourceKind::FileVideo))
    } else if input == "webcam-directshow"@ {
        Ok(Some(SourceKind::WebcamDirectShow))
    } else if input == "webcam-nokhwa"@ || input == "webcam-mediafoundation"@ {
        Err(SourceRouteError::MediaFoundationUnsupported)
    } else {
        Ok(None)
    }
}

/// The source a stream with this engine and input opens.
pub fn source_route(runtime_engine: &str, input_component: &str) -> (r: Result<Option<SourceKind>, SourceRouteError>)
    ensures
        r == source_route_of(runtime_engine@, input_component@),
{
    let e = chars_of(runtime_engine);
    let i = chars_of(input_component);
    if chars_eq_str(&e, "vmc") {
        Ok(Some(SourceKind::VmcReceive))
    } else if chars_eq_str(&e, "ifacialmocap") {
        Ok(Some(SourceKind::IfacialmocapReceive))
    } else if !chars_eq_str(&e, "mediapipe-native") {
        Ok(None)
    } else if chars_eq_str(&i, "file-image") {
        Ok(Some(SourceKind::FileImage))
    } else if chars_eq_str(&i, "file-video") {
        Ok(Some(SourceKind::FileVideo))
    } else if chars_eq_str(&i, "webcam-directshow") {
        Ok(Some(SourceKind::WebcamDirectShow))
    } else if chars_eq_str(&i, "webcam-nokhwa") || chars_eq_str(&i, "webcam-mediafoundation") {
        Err(SourceRouteError::MediaFoundationUnsupported)
    } else {
        Ok(None)
    }
}

/// How often a still-image stream sends: at its input rate when it repeats,
/// else once.
pub fn file_image_emission_mode(input_repeat: bool, input_fps: u32) -> (r: FileImageEmissionMode)
    ensures
        r == (if input_repeat {
            FileImageEmissionMode::RepeatFps(input_fps)
        } else {
            FileImageEmissionMode::Once
        }),
{
    if input_repeat {
        FileImageEmissionMode::RepeatFps(input_fps)
    } else {
        FileImageEmissionMode::Once
    }
}

/// The capture size of a stream: its input size, `640x480` where unset.
pub fn capture_dimensions(input_width: Option<u32>, input_height: Option<u32>) -> (r: (u32, u32))
    ensures
        r.0 == (match input_width {
            Some(w) => w,
            None => 640u32,
        }),
        r.1 == (match input_height {
            Some(h) => h,
            None => 480u32,
        }),
{
    (
        match input_width {
            Some(w) => w,
            None => 640,
        },
        match input_height {
            Some(h) => h,
            None => 480,
        },
    )
}

/// The MediaPipe tasks a stream runs.
#[derive(Clone, Copy, Debug, PartialEq, Eq, Structural)]
pub struct NativeTasks {
    pub pose: bool,
    pub hands: bool,
    pub face: bool,
    /// `Some(false)` turns gestures off; `None` keeps the running mode's preset.
    pub gestures: Option<bool>,
    pub holistic: bool,
}

/// The tasks the enabled body parts need: pose for the head, arms, torso,
/// legs and feet; face for the head and face; hands for the hands and arms.
/// The holistic graph also turns gestures off.
pub open spec fn native_tasks_of(holistic: bool, p: CoreMediaPipePostProcessSettings) -> NativeTasks {
    NativeTasks {
        pose: p.head_enabled || p.arms_ik_enabled || p.torso_enabled || p.legs_enabled || p.feet_enabled,
        hands: p.hands_enabled || p.arms_ik_enabled,
        face: p.head_enabled || p.face_enabled,
        gestures: if holistic {
            Some(false)
        } else {
            None
        },
        holistic,
    }
}

/// The MediaPipe tasks a stream runs.
pub fn native_tasks(holistic_enabled: bool, post_process: &CoreMediaPipePostProcessSettings) -> (r: NativeTasks)
    ensures
        r == native_tasks_of(holistic_enabled, *post_process),
{
    NativeTasks {
        pose: post_process.head_enabled || post_process.arms_ik_enabled || post_process.torso_enabled
            || post_process.legs_enabled || post_process.feet_enabled,
        hands: post_process.hands_enabled || post_process.arms_ik_enabled,
        face: post_process.head_enabled || post_process.face_enabled,
        gestures: if holistic_enabled {
            Some(false)
        } else {
            None
        },
        holistic: holistic_enabled,
    }
}

/// The MediaPipe delegate a name selects.
#[derive(Clone, Copy, Debug, PartialEq, Eq, Structural)]
pub enum DelegateChoice {
    Xnnpack,
    Cpu,
    Gpu,
    /// Keep the current delegate.
    Keep,
}

/// The delegate a name selects, trimmed and lowered: `xnnpack`; `cpu` or
/// `tflite`; `gpu` except on Windows, where no GPU delegate is built; any
/// other name keeps the current one.
pub open spec fn delegate_of(name: Seq<char>, windows: bool) -> DelegateChoice {
    let k = ascii_lower(trim(name));
    if k == "xnnpack"@ {
        DelegateChoice::Xnnpack
    } else if k == "cpu"@ || k == "tflite"@ {
        DelegateChoice::Cpu
    } else if k == "gpu"@ && !windows {
        DelegateChoice::Gpu
    } else {
        DelegateChoice::Keep
    }
}

/// The delegate a name selects on a platform.
pub fn native_mediapipe_delegate_from_str(delegate: &str, windows: bool) -> (r: DelegateChoice)
    ensures
        r == delegate_of(delegate@, windows),
{
    let v = chars_of(delegate);
    let t = trim_chars(&v);
    let k = lower_chars(&t);
    if chars_eq_str(&k, "xnnpack") {
        DelegateChoice::Xnnpack
    } else if chars_eq_str(&k, "cpu") || chars_eq_str(&k, "tflite") {
        DelegateChoice::Cpu
    } else if chars_eq_str(&k, "gpu") && !windows {
        DelegateChoice::Gpu
    } else {
        DelegateChoice::Keep
    }
}

/// The counters of one MediaPipe task in live-stream mode.
#[derive(Clone, Copy, Debug, PartialEq, Eq, Structural)]
pub struct TaskCounters {
    pub submissions: u64,
    pub submission_errors: u64,
    pub callbacks: u64,
}

/// The live-stream counters of the native engine, per task.
#[derive(Clone, Copy, Debug, PartialEq, Eq, Structural)]
pub struct LiveStreamStats {
    pub holistic: TaskCounters,
    pub pose: TaskCounters,
    pub hands: TaskCounters,
    pub face: TaskCounters,
    pub gestures: TaskCounters,
}

/// The tasks a stream runs, as the native engine's options flag them.
#[derive(Clone, Copy, Debug, PartialEq, Eq, Structural)]
pub struct EnabledTasks {
    pub holistic: bool,
    pub pose: bool,
    pub hands: bool,
    pub face: bool,
    pub gestures: bool,
}

/// The counters of the enabled tasks, in task order.
pub open spec fn enabled_counters(t: EnabledTasks, s: LiveStreamStats) -> Seq<TaskCounters> {
    let a: Seq<TaskCounters> = if t.pose { seq![s.pose] } else { Seq::empty() };
    let b: Seq<TaskCounters> = if t.hands { a.push(s.hands) } else { a };
    let c: Seq<TaskCounters> = if t.face { b.push(s.face) } else { b };
    if t.gestures { c.push(s.gestures) } else { c }
}

/// Whether `r` is how many frames the stream's tasks have completed: the
/// holistic counters where it runs the holistic graph, else the fewest
/// submissions and callbacks and the most errors of the enabled tasks
/// (zeros where none is enabled).
pub open spec fn frame_counters_of(r: TaskCounters, t: EnabledTasks, s: LiveStreamStats) -> bool {
    if t.holistic {
        r == s.holistic
    } else {
        let e = enabled_counters(t, s);
        if e.len() == 0 {
            r == TaskCounters { submissions: 0, submission_errors: 0, callbacks: 0 }
        } else {
            &&& (exists|i: int| 0 <= i < e.len() && r.submissions == #[trigger] e[i].submissions)
            &&& (forall|i: int| 0 <= i < e.len() ==> r.submissions <= #[trigger] e[i].submissions)
            &&& (exists|i: int| 0 <= i < e.len() && r.callbacks == #[trigger] e[i].callbacks)
            &&& (forall|i: int| 0 <= i < e.len() ==> r.callbacks <= #[trigger] e[i].callbacks)
            &&& (exists|i: int| 0 <= i < e.len() && r.submission_errors == #[trigger] e[i].submission_errors)
            &&& (forall|i: int| 0 <= i < e.len() ==> r.submission_errors >= #[trigger] e[i].submission_errors)
        }
    }
}

/// How many frames the stream's tasks have completed.
pub fn native_live_stream_frame_counters(tasks: EnabledTasks, stats: LiveStreamStats) -> (r: TaskCounters)
    ensures
        frame_counters_of(r, tasks, stats),
{
    if tasks.holistic {
        return stats.holistic;
    }
    let mut e: Vec<TaskCounters> = Vec::new();
    if tasks.pose {
        e.push(stats.pose);
    }
    if tasks.hands {
        e.push(stats.hands);
    }
    if tasks.face {
        e.push(stats.face);
    }
    if tasks.gestures {
        e.push(stats.gestures);
    }
    assert(e@ =~= enabled_counters(tasks, stats));
    if e.len() == 0 {
        return TaskCounters { submissions: 0, submission_errors: 0, callbacks: 0 };
    }
    let mut sub = e[0].submissions;
    let mut cb = e[0].callbacks;
    let mut err = e[0].submission_errors;
    let mut i: usize = 1;
    while i < e.len()
        invariant
            1 <= i <= e.len(),
            exists|j: int| 0 <= j < i && sub == #[trigger] e@[j].submissions,
            forall|j: int| 0 <= j < i ==> sub <= #[trigger] e@[j].submissions,
            exists|j: int| 0 <= j < i && cb == #[trigger] e@[j].callbacks,
            forall|j: int| 0 <= j < i ==> cb <= #[trigger] e@[j].callbacks,
            exists|j: int| 0 <= j < i && err == #[trigger] e@[j].submission_errors,
            forall|j: int| 0 <= j < i ==> err >= #[trigger] e@[j].submission_errors,
        decreases e.len() - i,
    {
        if e[i].submissions < sub {
            sub = e[i].submissions;
        }
        if e[i].callbacks < cb {
            cb = e[i].callbacks;
        }
        if e[i].submission_errors > err {
            err = e[i].submission_errors;
        }
        i = i + 1;
    }
    TaskCounters { submissions: sub, submission_errors: err, callbacks: cb }
}

/// The landmark counts of one native result.
#[derive(Clone, Copy, Debug, PartialEq, Eq, Structural)]
pub struct NativeLandmarkCounts {
    pub pose: u32,
    pub pose_world: u32,
    pub hands: u32,
    pub face: u32,
    pub holistic_pose: u32,
    pub holistic_pose_world: u32,
    pub holistic_left_hand: u32,
    pub holistic_left_hand_world: u32,
    pub holistic_right_hand: u32,
    pub holistic_right_hand_world: u32,
    pub holistic_face: u32,
}

/// Whether a native result carries any landmark.
pub open spec fn has_landmarks(c: NativeLandmarkCounts) -> bool {
    c.pose > 0 || c.pose_world > 0 || c.hands > 0 || c.face > 0 || c.holistic_pose > 0 || c.holistic_pose_world > 0
        || c.holistic_left_hand > 0 || c.holistic_left_hand_world > 0 || c.holistic_right_hand > 0
        || c.holistic_right_hand_world > 0 || c.holistic_face > 0
}

/// Whether a native result carries any landmark.
pub fn native_output_has_landmarks(c: &NativeLandmarkCounts) -> (r: bool)
    ensures
        r == has_landmarks(*c),
{
    c.pose > 0 || c.pose_world > 0 || c.hands > 0 || c.face > 0 || c.holistic_pose > 0 || c.holistic_pose_world > 0
        || c.holistic_left_hand > 0 || c.holistic_left_hand_world > 0 || c.holistic_right_hand > 0
        || c.holistic_right_hand_world > 0 || c.holistic_face > 0
}

/// The native return code of a live-stream result that is still pending.
pub const NATIVE_RESULT_PENDING_CODE: i32 = 30;

/// Whether a live-stream result is still pending: it has no timestamp yet,
/// or it carries the pending code and no landmark.
pub fn native_live_stream_result_pending(
    result_timestamp_ms: Option<u64>,
    return_code: i32,
    counts: &NativeLandmarkCounts,
) -> (r: bool)
    ensures
        r == (result_timestamp_ms is None || (return_code == NATIVE_RESULT_PENDING_CODE && !has_landmarks(*counts))),
{
    result_timestamp_ms.is_none() || (return_code == NATIVE_RESULT_PENDING_CODE && !native_output_has_landmarks(counts))
}

/// Whether an environment flag turns the holistic flow limiter on: any
/// value but `0`, `false`, `off` or `no`, trimmed and lowered.
pub open spec fn flow_limiter_flag_of(value: Seq<char>) -> bool {
    let k = ascii_lower(trim(value));
    !(k == "0"@ || k == "false"@ || k == "off"@ || k == "no"@)
}

/// Whether an environment flag turns the holistic flow limiter on.
pub fn flow_limiter_flag(value: &str) -> (r: bool)
    ensures
        r == flow_limiter_flag_of(value@),
{
    let v = chars_of(value);
    let t = trim_chars(&v);
    let k = lower_chars(&t);
    !(chars_eq_str(&k, "0") || chars_eq_str(&k, "false") || chars_eq_str(&k, "off") || chars_eq_str(&k, "no"))
}

/// The side a resize names: `height`, else the width.
pub open spec fn resize_axis_of(axis: Seq<char>) -> ResizeAxis {
    if axis == "height"@ {
        ResizeAxis::Height
    } else {
        ResizeAxis::Width
    }
}

/// How a stream's resize settings fit its images, with `pad_color` the
/// colour its `pad_color` text names.
pub fn image_resize_options(config: &CoreUnmotionResizeConfig, pad_color: RgbaColor) -> (r: ImageResizeOptions)
    ensures
        r == (ImageResizeOptions {
            preserve_aspect_ratio: config.preserve_aspect_ratio,
            reference_axis: resize_axis_of(config.axis@),
            reference_length: config.reference,
            output_width: config.width,
            output_height: config.height,
            pad_color,
        }),
{
    let a = chars_of(config.axis.as_str());
    let reference_axis = if chars_eq_str(&a, "height") {
        ResizeAxis::Height
    } else {
        ResizeAxis::Width
    };
    ImageResizeOptions {
        preserve_aspect_ratio: config.preserve_aspect_ratio,
        reference_axis,
        reference_length: config.reference,
        output_width: config.width,
        output_height: config.height,
        pad_color,
    }
}

/// The still-image input of a stream: the image at `path`, named
/// `file-image:` and the stream's id, labelled by `file_name`, sent as the
/// stream repeats, and resized as its resize settings say with `pad_color`.
pub fn file_image_input_config(
    config: &CoreMotionFrameStreamConfig,
    path: String,
    file_name: Option<String>,
    pad_color: RgbaColor,
) -> (r: FileImageInputConfig)
    ensures
        r.path == path,
        r.source_id@ == "file-image:"@ + config.profile_stream_id@,
        r.source_label == file_name,
        r.emission_mode == (if config.input_repeat {
            FileImageEmissionMode::RepeatFps(config.input_fps)
        } else {
            FileImageEmissionMode::Once
        }),
        r.resize == (match config.input_resize {
            Some(c) => Some(ImageResizeOptions {
                preserve_aspect_ratio: c.preserve_aspect_ratio,
                reference_axis: resize_axis_of(c.axis@),
                reference_length: c.reference,
                output_width: c.width,
                output_height: c.height,
                pad_color,
            }),
            None => None,
        }),
{
    let resize = match &config.input_resize {
        Some(c) => Some(image_resize_options(c, pad_color)),
        None => None,
    };
    FileImageInputConfig {
        path,
        source_id: concat("file-image:", config.profile_stream_id.as_str()),
        source_label: file_name,
        emission_mode: file_image_emission_mode(config.input_repeat, config.input_fps),
        resize,
    }
}

/// The MediaPipe settings a stream's profile chooses over the running mode's
/// preset.
#[derive(Clone, Copy, Debug, PartialEq, Eq, Structural)]
pub struct NativeProfileOptions {
    /// The delegate the profile names; `Keep` where it names none or one
    /// that selects nothing.
    pub delegate: DelegateChoice,
    /// The delegate's thread count, at least 1; `None` keeps the preset's.
    pub delegate_num_threads: Option<u32>,
    pub holistic_flow_limiter_enabled: bool,
    /// At least 1.
    pub holistic_flow_limiter_max_in_flight: u32,
    pub holistic_flow_limiter_max_in_queue: u32,
}

/// The larger of `n` and 1.
pub open spec fn at_least_one_u32(n: u32) -> u32 {
    if n < 1 {
        1
    } else {
        n
    }
}

/// The MediaPipe settings a stream's profile chooses, on a platform.
pub fn native_mediapipe_profile_options(config: &CoreMotionFrameStreamConfig, windows: bool) -> (r: NativeProfileOptions)
    ensures
        r.delegate == (match config.media_pipe_delegate {
            Some(d) => delegate_of(d@, windows),
            None => DelegateChoice::Keep,
        }),
        r.delegate_num_threads == (match config.media_pipe_num_threads {
            Some(n) => Some(at_least_one_u32(n)),
            None => None,
        }),
        r.holistic_flow_limiter_enabled == config.media_pipe_holistic_flow_limiter_enabled,
        r.holistic_flow_limiter_max_in_flight == at_least_one_u32(config.media_pipe_holistic_flow_limiter_max_in_flight),
        r.holistic_flow_limiter_max_in_queue == config.media_pipe_holistic_flow_limiter_max_in_queue,
{
    let delegate = match &config.media_pipe_delegate {
        Some(d) => native_mediapipe_delegate_from_str(d.as_str(), windows),
        None => DelegateChoice::Keep,
    };
    let delegate_num_threads = match config.media_pipe_num_threads {
        Some(n) => Some(if n < 1 { 1 } else { n }),
        None => None,
    };
    let in_flight = config.media_pipe_holistic_flow_limiter_max_in_flight;
    NativeProfileOptions {
        delegate,
        delegate_num_threads,
        holistic_flow_limiter_enabled: config.media_pipe_holistic_flow_limiter_enabled,
        holistic_flow_limiter_max_in_flight: if in_flight < 1 { 1 } else { in_flight },
        holistic_flow_limiter_max_in_queue: config.media_pipe_holistic_flow_limiter_max_in_queue,
    }
}

/// The MediaPipe model files, relative to a workspace root.
pub const POSE_MODEL_FILE: &'static str = "models/pose_landmarker_lite.task";
pub const HAND_MODEL_FILE: &'static str = "models/hand_landmarker.task";
pub const FACE_MODEL_FILE: &'static str = "models/face_landmarker.task";
pub const HOLISTIC_MODEL_FILE: &'static str = "models/holistic_landmarker.task";

/// Which model files exist under one candidate workspace root.
#[derive(Clone, Copy, Debug, PartialEq, Eq, Structural)]
pub struct ModelFiles {
    pub pose: bool,
    pub hand: bool,
    pub face: bool,
    pub holistic: bool,
}

/// For each model, the first candidate root that holds it, by index.
#[derive(Clone, Copy, Debug, PartialEq, Eq, Structural)]
pub struct ModelRoots {
    pub pose: Option<usize>,
    pub hand: Option<usize>,
    pub face: Option<usize>,
    pub holistic: Option<usize>,
}

/// Whether `r` is the first index at which `s` holds, none where it holds
/// nowhere.
pub open spec fn is_first_true(s: Seq<bool>, r: Option<usize>) -> bool {
    match r {
        Some(i) => i < s.len() && s[i as int] && forall|j: int| 0 <= j < i ==> !#[trigger] s[j],
        None => forall|j: int| 0 <= j < s.len() ==> !#[trigger] s[j],
    }
}

/// Chooses, for each model, the first root in search order that holds it
/// (the roots are the working directory, the executable's ancestors, then
/// the build's ancestors).
pub fn resolve_model_roots(roots: &Vec<ModelFiles>) -> (r: ModelRoots)
    ensures
        is_first_true(roots@.map_values(|m: ModelFiles| m.pose), r.pose),
        is_first_true(roots@.map_values(|m: ModelFiles| m.hand), r.hand),
        is_first_true(roots@.map_values(|m: ModelFiles| m.face), r.face),
        is_first_true(roots@.map_values(|m: ModelFiles| m.holistic), r.holistic),
{
    let ghost pose = roots@.map_values(|m: ModelFiles| m.pose);
    let ghost hand = roots@.map_values(|m: ModelFiles| m.hand);
    let ghost face = roots@.map_values(|m: ModelFiles| m.face);
    let ghost holistic = roots@.map_values(|m: ModelFiles| m.holistic);
    let mut r = ModelRoots { pose: None, hand: None, face: None, holistic: None };
    let mut i: usize = 0;
    while i < roots.len()
        invariant
            i <= roots.len(),
            pose == roots@.map_values(|m: ModelFiles| m.pose),
            hand == roots@.map_values(|m: ModelFiles| m.hand),
            face == roots@.map_values(|m: ModelFiles| m.face),
            holistic == roots@.map_values(|m: ModelFiles| m.holistic),
            is_first_true(pose.take(i as int), r.pose),
            is_first_true(hand.take(i as int), r.hand),
            is_first_true(face.take(i as int), r.face),
            is_first_true(holistic.take(i as int), r.holistic),
        decreases roots.len() - i,
    {
        let m = roots[i];
        if m.pose && r.pose.is_none() {
            r.pose = Some(i);
        }
        if m.hand && r.hand.is_none() {
            r.hand = Some(i);
        }
        if m.face && r.face.is_none() {
            r.face = Some(i);
        }
        if m.holistic && r.holistic.is_none() {
            r.holistic = Some(i);
        }
        assert(pose.take(i as int + 1) =~= pose.take(i as int).push(m.pose));
        assert(hand.take(i as int + 1) =~= hand.take(i as int).push(m.hand));
        assert(face.take(i as int + 1) =~= face.take(i as int).push(m.face));
        assert(holistic.take(i as int + 1) =~= holistic.take(i as int).push(m.holistic));
        i = i + 1;
    }
    assert(pose.take(roots.len() as int) =~= pose);
    assert(hand.take(roots.len() as int) =~= hand);
    assert(face.take(roots.len() as int) =~= face);
    assert(holistic.take(roots.len() as int) =~= holistic);
    r
}

} // verus!

