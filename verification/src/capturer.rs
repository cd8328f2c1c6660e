//! Rules of the capturer process that do not touch the machine: its tray
//! menu, and what the experimental flicker test captures for a profile.
use vstd::prelude::*;

use crate::decimal::{parse_u32_chars, parse_u32_spec};
use crate::profile_schema::{DocumentProfile, ProfilePipelineComponents, ProfileRuntimeSettings};
use crate::runtime_config::{clamp_u32, pipeline_or_empty, runtime_or_empty, str_or, u32_or, MAX_FPS};
use crate::server_rules::{decimal_chars, decimal_digits, lemma_stop_index, stop_index};
use crate::text::{chars_eq_str, chars_of, owned, seq_eq, slice_chars, string_of};

verus! {

/// What the tray icon of a process shows and offers.
#[derive(Clone, Debug, PartialEq, Eq)]
pub struct TrayOptions {
    /// The hover text.
    pub tooltip: Option<String>,
    /// The program the "Open" entry starts; the entry is disabled without one.
    pub open_exe: Option<String>,
    /// The label of the "Open" entry; a default one where absent.
    pub open_menu_label: Option<String>,
    /// The label of the "Exit" entry; a default one where absent.
    pub exit_menu_label: Option<String>,
    /// Whether the "Open" program starts with the process.
    pub open_on_startup: Option<bool>,
}

impl TrayOptions {
    pub open spec fn is_default(self) -> bool {
        &&& self.tooltip is None
        &&& self.open_exe is None
        &&& self.open_menu_label is None
        &&& self.exit_menu_label is None
        &&& self.open_on_startup is None
    }
}

impl Default for TrayOptions {
    fn default() -> (r: Self)
        ensures
            r.is_default(),
    {
        TrayOptions {
            tooltip: None,
            open_exe: None,
            open_menu_label: None,
            exit_menu_label: None,
            open_on_startup: None,
        }
    }
}

/// `prefix`, the decimal digits of `n`, `suffix`.
fn around_number(prefix: &str, n: u64, suffix: &str) -> (r: String)
    ensures
        r@ == prefix@ + decimal_digits(n) + suffix@,
{
    let mut v = chars_of(prefix);
    let digits = decimal_chars(n);
    let tail = chars_of(suffix);
    let ghost p = v@;
    let mut i: usize = 0;
    while i < digits.len()
        invariant
            i <= digits.len(),
            v@ == p + digits@.take(i as int),
        decreases digits.len() - i,
    {
        v.push(digits[i]);
        assert(digits@.take(i as int + 1) =~= digits@.take(i as int).push(digits@[i as int]));
        i = i + 1;
    }
    assert(digits@.take(digits.len() as int) =~= digits@);
    let ghost q = v@;
    let mut j: usize = 0;
    while j < tail.len()
        invariant
            j <= tail.len(),
            v@ == q + tail@.take(j as int),
        decreases tail.len() - j,
    {
        v.push(tail[j]);
        assert(tail@.take(j as int + 1) =~= tail@.take(j as int).push(tail@[j as int]));
        j = j + 1;
    }
    assert(tail@.take(tail.len() as int) =~= tail@);
    string_of(&v)
}

/// The tray of a capturer with process id `pid`: its pid in the hover text
/// and the exit entry, the supervisor as the program to open, which does not
/// start with the capturer.
pub open spec fn capturer_tray_of(t: TrayOptions, pid: u32, supervisor_exe: Option<String>) -> bool {
    &&& t.tooltip matches Some(s) && s@ == "UN Motion Capturer (PID "@ + decimal_digits(pid as u64) + ")"@
    &&& t.open_exe == supervisor_exe
    &&& t.open_menu_label matches Some(s) && s@ == "Open Supervisor Console"@
    &&& t.exit_menu_label matches Some(s) && s@ == "Exit Capturer (PID "@ + decimal_digits(pid as u64) + ")"@
    &&& t.open_on_startup == Some(false)
}

/// The tray of a capturer; `supervisor_exe` is the supervisor to open, the
/// one given on the command line or the one found beside the capturer.
pub fn build_capturer_tray_options(pid: u32, supervisor_exe: Option<String>) -> (r: TrayOptions)
    ensures
        capturer_tray_of(r, pid, supervisor_exe),
{
    TrayOptions {
        tooltip: Some(around_number("UN Motion Capturer (PID ", pid as u64, ")")),
        open_exe: supervisor_exe,
        open_menu_label: Some(owned("Open Supervisor Console")),
        exit_menu_label: Some(around_number("Exit Capturer (PID ", pid as u64, ")")),
        open_on_startup: Some(false),
    }
}

pub open spec fn is_lower_x(c: char) -> bool {
    c == 'x'
}

pub open spec fn is_upper_x(c: char) -> bool {
    c == 'X'
}

/// `s` split at `i`, each side read as a `u32`.
pub open spec fn size_at(s: Seq<char>, i: int) -> Option<(u32, u32)> {
    match (parse_u32_spec(s.take(i)), parse_u32_spec(s.skip(i + 1))) {
        (Some(w), Some(h)) => Some((w, h)),
        _ => None,
    }
}

/// A capture size `WIDTHxHEIGHT`, split at the first `x`, else at the first
/// `X`.
pub open spec fn capture_size_of(s: Seq<char>) -> Option<(u32, u32)> {
    let i = stop_index(s, |c: char| is_lower_x(c));
    let j = stop_index(s, |c: char| is_upper_x(c));
    if i < s.len() {
        size_at(s, i as int)
    } else if j < s.len() {
        size_at(s, j as int)
    } else {
        None
    }
}

/// The index of the first `c` in `v`, or its length.
fn first_index(v: &Vec<char>, c: char) -> (r: usize)
    ensures
        r <= v.len(),
        c == 'x' ==> r == stop_index(v@, |ch: char| is_lower_x(ch)),
        c == 'X' ==> r == stop_index(v@, |ch: char| is_upper_x(ch)),
{
    let mut i: usize = 0;
    while i < v.len() && v[i] != c
        invariant
            i <= v.len(),
            forall|j: int| 0 <= j < i ==> v@[j] != c,
        decreases v.len() - i,
    {
        i = i + 1;
    }
    proof {
        if c == 'x' {
            let stop = |ch: char| is_lower_x(ch);
            assert forall|j: int| 0 <= j < i implies !stop(v@[j]) by {}
            lemma_stop_index(v@, stop, i as int);
        }
        if c == 'X' {
            let stop = |ch: char| is_upper_x(ch);
            assert forall|j: int| 0 <= j < i implies !stop(v@[j]) by {}
            lemma_stop_index(v@, stop, i as int);
        }
    }
    i
}

fn size_split(v: &Vec<char>, i: usize) -> (r: Option<(u32, u32)>)
    requires
        i < v.len(),
    ensures
        r == size_at(v@, i as int),
{
    let w = slice_chars(v, 0, i);
    let h = slice_chars(v, i + 1, v.len());
    assert(w@ =~= v@.take(i as int));
    assert(h@ =~= v@.skip(i + 1));
    match (parse_u32_chars(&w), parse_u32_chars(&h)) {
        (Some(a), Some(b)) => Some((a, b)),
        _ => None,
    }
}

/// The capture size `value` names, if it names one.
pub fn parse_resolution(value: &str) -> (r: Option<(u32, u32)>)
    ensures
        r == capture_size_of(value@),
{
    let v = chars_of(value);
    let i = first_index(&v, 'x');
    if i < v.len() {
        return size_split(&v, i);
    }
    let j = first_index(&v, 'X');
    if j < v.len() {
        return size_split(&v, j);
    }
    None
}

/// What the flicker test captures: a size, a rate, a device and a pixel
/// format.
#[derive(Clone, Debug, PartialEq, Eq)]
pub struct FlickerCaptureRequest {
    pub width: u32,
    pub height: u32,
    pub fps: u32,
    pub device: String,
    pub pixel_format: Option<String>,
}

/// Why the flicker test refuses a profile.
#[derive(Clone, Debug, PartialEq, Eq)]
pub enum FlickerTestError {
    /// The profile runs another engine than MediaPipe native.
    UnsupportedEngine { engine: String },
    /// The profile reads another input than DirectShow.
    UnsupportedInput { input: String },
}

/// Whether `r` is what the flicker test captures for a profile: the
/// runtime's size unless the pipeline names one, the pipeline's rate else
/// the runtime's else 30, clamped to `1..=240`.
pub open spec fn flicker_request_of(r: FlickerCaptureRequest, rt: ProfileRuntimeSettings, p: ProfilePipelineComponents) -> bool {
    let size = match rt.resolution {
        Some(s) => match capture_size_of(s@) {
            Some(sz) => sz,
            None => (640, 480),
        },
        None => (640, 480),
    };
    &&& r.width == u32_or(p.input_width, size.0)
    &&& r.height == u32_or(p.input_height, size.1)
    &&& r.fps == clamp_u32(
        match p.input_fps {
            Some(f) => f,
            None => u32_or(rt.fps, 30),
        },
        1,
        MAX_FPS,
    )
    &&& r.device@ == str_or(rt.device, ""@)
    &&& r.pixel_format == p.input_pixel_format
}

/// What the flicker test captures for a profile's selection and pipeline; it
/// measures MediaPipe native profiles that read DirectShow only.
pub fn flicker_capture_request(
    runtime: Option<&ProfileRuntimeSettings>,
    pipeline: Option<&ProfilePipelineComponents>,
) -> (r: Result<FlickerCaptureRequest, FlickerTestError>)
    ensures
        ({
            let rt = runtime_or_empty(runtime);
            let p = pipeline_or_empty(pipeline);
            let engine = str_or(rt.engine, "mediapipe-native"@);
            let input = str_or(p.input, "webcam-directshow"@);
            match r {
                Ok(req) => engine == "mediapipe-native"@ && input == "webcam-directshow"@ && flicker_request_of(req, rt, p),
                Err(FlickerTestError::UnsupportedEngine { engine: e }) => engine != "mediapipe-native"@ && e@ == engine,
                Err(FlickerTestError::UnsupportedInput { input: i }) => engine == "mediapipe-native"@
                    && input != "webcam-directshow"@ && i@ == input,
            }
        }),
{
    let empty_rt = ProfileRuntimeSettings::empty();
    let empty_p = ProfilePipelineComponents::empty();
    let rt: &ProfileRuntimeSettings = match runtime {
        Some(r) => r,
        None => &empty_rt,
    };
    let p: &ProfilePipelineComponents = match pipeline {
        Some(x) => x,
        None => &empty_p,
    };
    let engine = match &rt.engine {
        Some(e) => owned(e.as_str()),
        None => owned("mediapipe-native"),
    };
    let engine_chars = chars_of(engine.as_str());
    if !chars_eq_str(&engine_chars, "mediapipe-native") {
        return Err(FlickerTestError::UnsupportedEngine { engine });
    }
    let input = match &p.input {
        Some(i) => owned(i.as_str()),
        None => owned("webcam-directshow"),
    };
    let input_chars = chars_of(input.as_str());
    if !chars_eq_str(&input_chars, "webcam-directshow") {
        return Err(FlickerTestError::UnsupportedInput { input });
    }
    let (runtime_width, runtime_height) = match &rt.resolution {
        Some(s) => match parse_resolution(s.as_str()) {
            Some(size) => size,
            None => (640, 480),
        },
        None => (640, 480),
    };
    let fps_choice: u32 = match p.input_fps {
        Some(f) => f,
        None => match rt.fps {
            Some(f) => f,
            None => 30,
        },
    };
    Ok(
        FlickerCaptureRequest {
            width: match p.input_width {
                Some(w) => w,
                None => runtime_width,
            },
            height: match p.input_height {
                Some(h) => h,
                None => runtime_height,
            },
            fps: if fps_choice < 1 {
                1
            } else if fps_choice > MAX_FPS {
                MAX_FPS
            } else {
                fps_choice
            },
            device: match &rt.device {
                Some(d) => owned(d.as_str()),
                None => owned(""),
            },
            pixel_format: match &p.input_pixel_format {
                Some(f) => Some(f.clone()),
                None => None,
            },
        },
    )
}

/// A camera a capture backend lists: its id and its name.
#[derive(Clone, Debug, PartialEq, Eq)]
pub struct CameraCandidate {
    pub id: String,
    pub name: String,
}

/// Whether a listed camera is the one a profile names: by id or by name, or
/// any camera where the profile names none.
pub open spec fn camera_matches(c: CameraCandidate, device: Seq<char>) -> bool {
    c.id@ == device || c.name@ == device || device.len() == 0
}

/// The first listed camera that is the one a profile names.
pub fn select_camera(candidates: &Vec<CameraCandidate>, device: &str) -> (r: Option<usize>)
    ensures
        match r {
            Some(i) => i < candidates.len() && camera_matches(candidates@[i as int], device@)
                && forall|j: int| 0 <= j < i ==> !camera_matches(#[trigger] candidates@[j], device@),
            None => forall|j: int| 0 <= j < candidates.len() ==> !camera_matches(#[trigger] candidates@[j], device@),
        },
{
    let d = chars_of(device);
    let mut i: usize = 0;
    while i < candidates.len()
        invariant
            i <= candidates.len(),
            d@ == device@,
            forall|j: int| 0 <= j < i ==> !camera_matches(#[trigger] candidates@[j], device@),
        decreases candidates.len() - i,
    {
        let id = chars_of(candidates[i].id.as_str());
        let name = chars_of(candidates[i].name.as_str());
        if seq_eq(&id, &d) || seq_eq(&name, &d) || d.len() == 0 {
            return Some(i);
        }
        i = i + 1;
    }
    None
}

/// The tray as a process shows it: every label resolved.
#[derive(Clone, Debug, PartialEq, Eq)]
pub struct ResolvedTray {
    pub tooltip: String,
    pub open_label: String,
    pub exit_label: String,
    /// Whether the "Open" entry is enabled: only with a program to open.
    pub open_enabled: bool,
    pub open_on_startup: bool,
}

/// An optional text, else its default.
pub open spec fn text_or_default(value: Option<String>, default: Seq<char>) -> Seq<char> {
    match value {
        Some(v) => v@,
        None => default,
    }
}

/// Whether `t` is the tray `o` asks for: `UNMotion Core` as hover text,
/// `Open Supervisor Console` and `Exit UNMotion Core` as labels unless set,
/// and no program started with the process unless asked.
pub open spec fn resolved_tray_of(t: ResolvedTray, o: TrayOptions) -> bool {
    &&& t.tooltip@ == text_or_default(o.tooltip, "UNMotion Core"@)
    &&& t.open_label@ == text_or_default(o.open_menu_label, "Open Supervisor Console"@)
    &&& t.exit_label@ == text_or_default(o.exit_menu_label, "Exit UNMotion Core"@)
    &&& t.open_enabled == (o.open_exe is Some)
    &&& t.open_on_startup == match o.open_on_startup {
        Some(b) => b,
        None => false,
    }
}

fn text_or(value: &Option<String>, default: &str) -> (r: String)
    ensures
        r@ == text_or_default(*value, default@),
{
    match value {
        Some(v) => owned(v.as_str()),
        None => owned(default),
    }
}

/// The tray a set of options asks for.
pub fn resolve_tray(options: &TrayOptions) -> (r: ResolvedTray)
    ensures
        resolved_tray_of(r, *options),
{
    ResolvedTray {
        tooltip: text_or(&options.tooltip, "UNMotion Core"),
        open_label: text_or(&options.open_menu_label, "Open Supervisor Console"),
        exit_label: text_or(&options.exit_menu_label, "Exit UNMotion Core"),
        open_enabled: options.open_exe.is_some(),
        open_on_startup: match options.open_on_startup {
            Some(b) => b,
            None => false,
        },
    }
}

/// What the tray's event loop receives.
#[derive(Clone, Copy, Debug, PartialEq, Eq, Structural)]
pub enum TrayEventKind {
    /// The "Open" entry was chosen.
    OpenMenu,
    /// The "Exit" entry was chosen.
    ExitMenu,
    /// The icon was double-clicked.
    DoubleClick,
    /// Anything else.
    Other,
}

/// What the tray's event loop does about an event.
#[derive(Clone, Copy, Debug, PartialEq, Eq, Structural)]
pub enum TrayAction {
    /// Start the configured program, if there is one.
    LaunchOpenExe,
    /// Leave the event loop, ending the process.
    Exit,
    /// Keep waiting.
    Wait,
}

/// The action an event calls for: open on the entry or a double click, exit
/// on the exit entry, nothing else.
pub open spec fn tray_action_of(event: TrayEventKind) -> TrayAction {
    match event {
        TrayEventKind::OpenMenu => TrayAction::LaunchOpenExe,
        TrayEventKind::ExitMenu => TrayAction::Exit,
        TrayEventKind::DoubleClick => TrayAction::LaunchOpenExe,
        TrayEventKind::Other => TrayAction::Wait,
    }
}

/// The action an event of the tray calls for.
pub fn tray_action(event: TrayEventKind) -> (r: TrayAction)
    ensures
        r == tray_action_of(event),
{
    match event {
        TrayEventKind::OpenMenu => TrayAction::LaunchOpenExe,
        TrayEventKind::ExitMenu => TrayAction::Exit,
        TrayEventKind::DoubleClick => TrayAction::LaunchOpenExe,
        TrayEventKind::Other => TrayAction::Wait,
    }
}

} // verus!
