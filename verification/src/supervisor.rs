//! Rules of the supervisor console that do not touch the desktop: settings
//! defaults, snapshot lengths, executable names, log file names, and the
//! records it shows for capturers and webcams.
use vstd::prelude::*;

use crate::catalog::target_is_windows;
use crate::runtime_choices::{denoise_mode_of, normalize_input_denoise_mode, opt_view};
use crate::runtime_config::{HZ_10, HZ_2, HZ_4, HZ_6, HZ_8};
use crate::server_rules::{decimal_chars, decimal_digits};
use crate::float_bits::F32Bits;
use crate::capturer_fleet::texts_view;
use crate::api_config::{clamp_workers, default_api_worker_threads, normalize_api_worker_threads, DEFAULT_API_WORKER_THREADS};
use crate::float_bits::{clamp_bounds_ok, f32_clamp};
use crate::text::{
    ascii_lower, chars_eq_str, chars_of, concat, ends_with, has_suffix, has_prefix, is_ascii_alphanumeric, lower_chars, owned, starts_with, str_eq, string_of,
    trim, trim_chars,
};

verus! {

/// The default of the settings flags that are on unless set.
pub fn default_true() -> (r: bool)
    ensures
        r,
{
    true
}

/// The theme the console uses unless set: follow the system.
pub fn default_theme_mode() -> (r: String)
    ensures
        r@ == "system"@,
{
    owned("system")
}

/// Seconds between the calibration button and the first sample.
pub fn default_calibration_start_delay_seconds() -> (r: u32)
    ensures
        r == 3,
{
    3
}

/// Valid samples a calibration collects.
pub fn default_calibration_sample_count() -> (r: usize)
    ensures
        r == 45,
{
    45
}

/// The calibration sound volume unless set: 0.75.
pub fn default_calibration_sound_volume() -> (r: F32Bits)
    ensures
        r.0 == 0x3f40_0000,
{
    F32Bits(0x3f40_0000)
}

/// The settings of the supervisor console.
#[derive(Clone, Debug, PartialEq, Eq)]
pub struct AppRuntimeSettings {
    /// Whether closing the console stops every running capturer.
    pub stop_capturers_on_exit: bool,
    /// Whether the console shows a tray icon; the three tray flags below need it.
    pub system_tray_enabled: bool,
    /// Whether minimizing the window hides it in the tray.
    pub minimize_to_tray: bool,
    /// Whether closing the window hides it in the tray while a capturer runs.
    pub close_to_tray_while_running: bool,
    /// Whether the console starts hidden in the tray.
    pub start_minimized_to_tray: bool,
    /// `light`, `dark` or `system`.
    pub theme_mode: String,
    pub console_window_x: Option<i32>,
    pub console_window_y: Option<i32>,
    pub console_window_width: Option<u32>,
    pub console_window_height: Option<u32>,
    /// Whether a quick launch switches to the capturers tab.
    pub jump_to_capturers_on_quick_launch: bool,
    /// Whether the selected launch target starts with the console.
    pub auto_launch_selected_on_startup: bool,
    /// API worker threads of each capturer process.
    pub api_worker_threads: usize,
    /// The display language; empty to follow the system.
    pub locale: String,
    /// The FFmpeg executable the video input runs.
    pub external_tools_ffmpeg_path: Option<String>,
    pub calibration_start_delay_seconds: u32,
    pub calibration_sample_count: usize,
    /// Between 0.0 and 1.0.
    pub calibration_sound_volume: F32Bits,
    pub calibration_countdown_sound_path: Option<String>,
    pub calibration_start_sound_path: Option<String>,
    /// The folder the last snapshot was saved to.
    pub snapshot_save_dir: Option<String>,
    /// Whether a snapshot also saves its analysis sidecar.
    pub snapshot_save_analysis_extras: bool,
}

impl AppRuntimeSettings {
    /// The settings of a fresh installation on a machine with
    /// `logical_cores` cores: capturers stopped on exit, no tray, the
    /// system theme and language, two API workers as far as the cores
    /// allow, a three second calibration delay, 45 samples, volume 0.75.
    pub fn default_for(logical_cores: usize) -> (r: Self)
        requires
            logical_cores >= 1,
        ensures
            r.stop_capturers_on_exit,
            !r.system_tray_enabled,
            r.minimize_to_tray,
            r.close_to_tray_while_running,
            !r.start_minimized_to_tray,
            r.theme_mode@ == "system"@,
            r.console_window_x is None,
            r.console_window_y is None,
            r.console_window_width is None,
            r.console_window_height is None,
            !r.jump_to_capturers_on_quick_launch,
            !r.auto_launch_selected_on_startup,
            r.api_worker_threads == clamp_workers(DEFAULT_API_WORKER_THREADS, logical_cores),
            r.locale@.len() == 0,
            r.external_tools_ffmpeg_path is None,
            r.calibration_start_delay_seconds == 3,
            r.calibration_sample_count == 45,
            r.calibration_sound_volume.0 == 0x3f40_0000,
            r.calibration_countdown_sound_path is None,
            r.calibration_start_sound_path is None,
            r.snapshot_save_dir is None,
            !r.snapshot_save_analysis_extras,
    {
        AppRuntimeSettings {
            stop_capturers_on_exit: default_true(),
            system_tray_enabled: false,
            minimize_to_tray: default_true(),
            close_to_tray_while_running: default_true(),
            start_minimized_to_tray: false,
            theme_mode: default_theme_mode(),
            console_window_x: None,
            console_window_y: None,
            console_window_width: None,
            console_window_height: None,
            jump_to_capturers_on_quick_launch: false,
            auto_launch_selected_on_startup: false,
            api_worker_threads: default_api_worker_threads(logical_cores),
            locale: String::new(),
            external_tools_ffmpeg_path: None,
            calibration_start_delay_seconds: default_calibration_start_delay_seconds(),
            calibration_sample_count: default_calibration_sample_count(),
            calibration_sound_volume: default_calibration_sound_volume(),
            calibration_countdown_sound_path: None,
            calibration_start_sound_path: None,
            snapshot_save_dir: None,
            snapshot_save_analysis_extras: false,
        }
    }
}

/// An optional path trimmed, none where blank.
pub open spec fn trimmed_path_of(value: Option<String>) -> Option<Seq<char>> {
    match value {
        Some(v) => if trim(v@).len() == 0 {
            None
        } else {
            Some(trim(v@))
        },
        None => None,
    }
}

/// The view of an optional text.
pub open spec fn opt_text(value: Option<String>) -> Option<Seq<char>> {
    match value {
        Some(v) => Some(v@),
        None => None,
    }
}

fn trimmed_path(value: &Option<String>) -> (r: Option<String>)
    ensures
        opt_text(r) == trimmed_path_of(*value),
{
    match value {
        Some(v) => {
            let raw = chars_of(v.as_str());
            let t = trim_chars(&raw);
            if t.len() == 0 {
                None
            } else {
                Some(string_of(&t))
            }
        },
        None => None,
    }
}

/// Whether a theme name is one the console offers.
pub open spec fn is_theme_name(value: Seq<char>) -> bool {
    value == "light"@ || value == "dark"@ || value == "system"@
}

/// Whether `s` is `old` with every value brought into its range: an
/// unknown theme back to `system`, an unsupported language back to the
/// system one, blank paths to none and the others trimmed, the delay at
/// most 30 s, 1 to 240 samples, the volume within 0.0..=1.0 and the worker
/// count within `1..=logical_cores`. `locale_supported` says whether the
/// language `old` names has translations.
pub open spec fn normalized_settings(
    s: AppRuntimeSettings,
    old: AppRuntimeSettings,
    locale_supported: bool,
    logical_cores: usize,
) -> bool {
    &&& s.theme_mode@ == (if is_theme_name(old.theme_mode@) {
        old.theme_mode@
    } else {
        "system"@
    })
    &&& s.locale@ == (if old.locale@.len() > 0 && !locale_supported {
        Seq::<char>::empty()
    } else {
        old.locale@
    })
    &&& opt_text(s.external_tools_ffmpeg_path) == trimmed_path_of(old.external_tools_ffmpeg_path)
    &&& opt_text(s.calibration_countdown_sound_path) == trimmed_path_of(old.calibration_countdown_sound_path)
    &&& opt_text(s.calibration_start_sound_path) == trimmed_path_of(old.calibration_start_sound_path)
    &&& opt_text(s.snapshot_save_dir) == trimmed_path_of(old.snapshot_save_dir)
    &&& s.calibration_start_delay_seconds == (if old.calibration_start_delay_seconds > 30 {
        30
    } else {
        old.calibration_start_delay_seconds
    })
    &&& s.calibration_sample_count == (if old.calibration_sample_count < 1 {
        1
    } else if old.calibration_sample_count > 240 {
        240
    } else {
        old.calibration_sample_count
    })
    &&& s.calibration_sound_volume.0 == f32_clamp(old.calibration_sound_volume.0, 0, 0x3f80_0000)
    &&& s.api_worker_threads == clamp_workers(old.api_worker_threads, logical_cores)
    &&& s.stop_capturers_on_exit == old.stop_capturers_on_exit
    &&& s.system_tray_enabled == old.system_tray_enabled
    &&& s.minimize_to_tray == old.minimize_to_tray
    &&& s.close_to_tray_while_running == old.close_to_tray_while_running
    &&& s.start_minimized_to_tray == old.start_minimized_to_tray
    &&& s.console_window_x == old.console_window_x
    &&& s.console_window_y == old.console_window_y
    &&& s.console_window_width == old.console_window_width
    &&& s.console_window_height == old.console_window_height
    &&& s.jump_to_capturers_on_quick_launch == old.jump_to_capturers_on_quick_launch
    &&& s.auto_launch_selected_on_startup == old.auto_launch_selected_on_startup
    &&& s.snapshot_save_analysis_extras == old.snapshot_save_analysis_extras
}

/// Brings settings read from disk or sent by the console into their
/// ranges. `locale_supported` is whether the language they name has
/// translations.
pub fn normalize_app_settings(settings: &mut AppRuntimeSettings, locale_supported: bool, logical_cores: usize)
    requires
        logical_cores >= 1,
    ensures
        normalized_settings(*final(settings), *old(settings), locale_supported, logical_cores),
{
    let theme = chars_of(settings.theme_mode.as_str());
    if !(chars_eq_str(&theme, "light") || chars_eq_str(&theme, "dark") || chars_eq_str(&theme, "system")) {
        settings.theme_mode = default_theme_mode();
    }
    if chars_of(settings.locale.as_str()).len() > 0 && !locale_supported {
        settings.locale = String::new();
    }
    settings.external_tools_ffmpeg_path = trimmed_path(&settings.external_tools_ffmpeg_path);
    if settings.calibration_start_delay_seconds > 30 {
        settings.calibration_start_delay_seconds = 30;
    }
    settings.calibration_sample_count = if settings.calibration_sample_count < 1 {
        1
    } else if settings.calibration_sample_count > 240 {
        240
    } else {
        settings.calibration_sample_count
    };
    assert(clamp_bounds_ok(0, 0x3f80_0000));
    settings.calibration_sound_volume = settings.calibration_sound_volume.clamp(F32Bits(0), F32Bits(0x3f80_0000));
    settings.api_worker_threads = normalize_api_worker_threads(settings.api_worker_threads, logical_cores);
    settings.calibration_countdown_sound_path = trimmed_path(&settings.calibration_countdown_sound_path);
    settings.calibration_start_sound_path = trimmed_path(&settings.calibration_start_sound_path);
    settings.snapshot_save_dir = trimmed_path(&settings.snapshot_save_dir);
}

/// Records `dir` as the folder snapshots are saved to. Where it already is,
/// nothing changes and `false` comes back; else the settings take it, are
/// brought into their ranges, and `true` says they are to be written.
pub fn update_snapshot_save_dir(
    settings: &mut AppRuntimeSettings,
    dir: String,
    locale_supported: bool,
    logical_cores: usize,
) -> (changed: bool)
    requires
        logical_cores >= 1,
    ensures
        changed == (opt_text(old(settings).snapshot_save_dir) != Some(dir@)),
        !changed ==> *final(settings) == *old(settings),
        changed ==> normalized_settings(
            *final(settings),
            AppRuntimeSettings { snapshot_save_dir: Some(dir), ..*old(settings) },
            locale_supported,
            logical_cores,
        ),
{
    let same = match &settings.snapshot_save_dir {
        Some(d) => str_eq(d.as_str(), dir.as_str()),
        None => false,
    };
    if same {
        return false;
    }
    settings.snapshot_save_dir = Some(dir);
    normalize_app_settings(settings, locale_supported, logical_cores);
    true
}

/// The message of a capturer request that failed with an HTTP status:
/// the method, the URL, `HTTP` and the status, then `: ` and the trimmed
/// body where it is not blank.
pub open spec fn response_error_of(method: Seq<char>, url: Seq<char>, status: Seq<char>, body: Seq<char>) -> Seq<char> {
    let head = method + " "@ + url + " HTTP "@ + status;
    if trim(body).len() == 0 {
        head
    } else {
        head + ": "@ + trim(body)
    }
}

/// The message of a request by `method` to `url` answered with `status`
/// (as it is shown, such as `404 Not Found`) and `body`.
pub fn response_error(method: &str, url: &str, status: &str, body: &str) -> (r: String)
    ensures
        r@ == response_error_of(method@, url@, status@, body@),
{
    let a = concat(method, " ");
    let b = concat(a.as_str(), url);
    let c = concat(b.as_str(), " HTTP ");
    let head = concat(c.as_str(), status);
    let t = trim_chars(&chars_of(body));
    if t.len() == 0 {
        head
    } else {
        let d = concat(head.as_str(), ": ");
        let tb = string_of(&t);
        concat(d.as_str(), tb.as_str())
    }
}

/// The lines of `s`, split at each newline; the last one is what follows
/// the last newline, empty where `s` ends with one.
pub open spec fn lines_of(s: Seq<char>) -> Seq<Seq<char>>
    decreases s.len(),
{
    if s.len() == 0 {
        seq![Seq::<char>::empty()]
    } else {
        let r = lines_of(s.drop_last());
        if s.last() == '\n' {
            r.push(Seq::<char>::empty())
        } else {
            r.update(r.len() - 1, r.last().push(s.last()))
        }
    }
}

/// The lines trimmed, without the blank ones.
pub open spec fn nonblank_trimmed(lines: Seq<Seq<char>>) -> Seq<Seq<char>>
    decreases lines.len(),
{
    if lines.len() == 0 {
        Seq::empty()
    } else {
        let r = nonblank_trimmed(lines.drop_last());
        if trim(lines.last()).len() == 0 {
            r
        } else {
            r.push(trim(lines.last()))
        }
    }
}

/// The paths a `which` or `where.exe` lookup printed: its lines trimmed,
/// without the blank ones, in order.
pub open spec fn lookup_paths_of(output: Seq<char>) -> Seq<Seq<char>> {
    nonblank_trimmed(lines_of(output))
}

/// The paths a `which` or `where.exe` lookup printed, in the order printed.
pub fn lookup_paths(output: &str) -> (r: Vec<String>)
    ensures
        texts_view(r@) == lookup_paths_of(output@),
{
    let v = chars_of(output);
    let mut out: Vec<String> = Vec::new();
    let mut cur: Vec<char> = Vec::new();
    let mut i: usize = 0;
    assert(v@.take(0) =~= Seq::<char>::empty());
    while i < v.len()
        invariant
            i <= v.len(),
            lines_of(v@.take(i as int)).len() >= 1,
            cur@ == lines_of(v@.take(i as int)).last(),
            texts_view(out@) == nonblank_trimmed(lines_of(v@.take(i as int)).drop_last()),
        decreases v.len() - i,
    {
        let c = v[i];
        let ghost lines = lines_of(v@.take(i as int));
        assert(v@.take(i as int + 1).drop_last() =~= v@.take(i as int));
        assert(v@.take(i as int + 1).last() == c);
        if c == '\n' {
            let t = trim_chars(&cur);
            proof {
                assert(lines_of(v@.take(i as int + 1)).drop_last() =~= lines);
            }
            if t.len() > 0 {
                let ghost before = out@;
                out.push(string_of(&t));
                assert(texts_view(out@) =~= texts_view(before).push(t@));
            }
            cur = Vec::new();
        } else {
            cur.push(c);
            proof {
                assert(lines_of(v@.take(i as int + 1)).drop_last() =~= lines.drop_last());
            }
        }
        i = i + 1;
    }
    assert(v@.take(v.len() as int) =~= v@);
    let t = trim_chars(&cur);
    if t.len() > 0 {
        let ghost before = out@;
        out.push(string_of(&t));
        assert(texts_view(out@) =~= texts_view(before).push(t@));
    }
    out
}

/// The name `where.exe` looks up for the executable `name`: `name` where
/// it ends with `.exe`, else `name` and `.exe`.
pub open spec fn where_exe_name_of(name: Seq<char>) -> Seq<char> {
    if has_suffix(name, ".exe"@) {
        name
    } else {
        name + ".exe"@
    }
}

/// The name `where.exe` looks up for the executable `name`.
pub fn where_exe_name(name: &str) -> (r: String)
    ensures
        r@ == where_exe_name_of(name@),
{
    let v = chars_of(name);
    if ends_with(&v, ".exe") {
        owned(name)
    } else {
        concat(name, ".exe")
    }
}

/// Whether closing the console window hides it in the tray: only with a
/// tray, and then when minimizing hides, or a capturer runs and closing
/// hides while one does.
pub fn should_hide_on_close(settings: &AppRuntimeSettings, capturer_running: bool) -> (r: bool)
    ensures
        r == (settings.system_tray_enabled && (settings.minimize_to_tray || (settings.close_to_tray_while_running
            && capturer_running))),
{
    if !settings.system_tray_enabled {
        return false;
    }
    settings.minimize_to_tray || (settings.close_to_tray_while_running && capturer_running)
}

/// Whether the console opens a link in the browser: `https://` and
/// `http://` links only.
pub fn external_url_allowed(url: &str) -> (r: bool)
    ensures
        r == (has_prefix(url@, "https://"@) || has_prefix(url@, "http://"@)),
{
    let v = chars_of(url);
    starts_with(&v, "https://") || starts_with(&v, "http://")
}

/// Where and how large the console window opens.
#[derive(Clone, Copy, Debug, PartialEq, Eq)]
pub struct MainWindowGeometry {
    /// Logical pixels.
    pub width: u32,
    pub height: u32,
    /// The saved corner, where it lies on a plausible desktop.
    pub position: Option<(i32, i32)>,
    /// Whether the window shows at start.
    pub visible: bool,
}

/// The geometry the settings ask for: the saved size where it lies within
/// 820x620 and 3840x2160 (else 1190 wide and 620 high), the saved corner
/// where both coordinates lie within -16384..=16384, and hidden only when
/// it starts in a tray that is shown.
pub open spec fn main_window_geometry_of(s: AppRuntimeSettings) -> MainWindowGeometry {
    MainWindowGeometry {
        width: match s.console_window_width {
            Some(w) => if 820 <= w <= 3840 {
                w
            } else {
                1190
            },
            None => 1190,
        },
        height: match s.console_window_height {
            Some(h) => if 620 <= h <= 2160 {
                h
            } else {
                620
            },
            None => 620,
        },
        position: match (s.console_window_x, s.console_window_y) {
            (Some(x), Some(y)) => if -16384 <= x <= 16384 && -16384 <= y <= 16384 {
                Some((x, y))
            } else {
                None
            },
            _ => None,
        },
        visible: !s.start_minimized_to_tray || !s.system_tray_enabled,
    }
}

/// Where and how large the console window opens.
pub fn main_window_geometry(settings: &AppRuntimeSettings) -> (r: MainWindowGeometry)
    ensures
        r == main_window_geometry_of(*settings),
{
    let width = match settings.console_window_width {
        Some(w) => if 820 <= w && w <= 3840 {
            w
        } else {
            1190
        },
        None => 1190,
    };
    let height = match settings.console_window_height {
        Some(h) => if 620 <= h && h <= 2160 {
            h
        } else {
            620
        },
        None => 620,
    };
    let position = match (settings.console_window_x, settings.console_window_y) {
        (Some(x), Some(y)) => if -16384 <= x && x <= 16384 && -16384 <= y && y <= 16384 {
            Some((x, y))
        } else {
            None
        },
        _ => None,
    };
    MainWindowGeometry {
        width,
        height,
        position,
        visible: !settings.start_minimized_to_tray || !settings.system_tray_enabled,
    }
}

/// How long a motion snapshot records.
#[derive(Clone, Copy, Debug, PartialEq, Eq, Structural)]
pub enum SnapshotDuration {
    OneFrame,
    OneSecond,
    ThreeSeconds,
}

/// The snapshot length of a duration in milliseconds: three seconds from
/// 3000 ms, one second from 1000 ms, else one frame.
pub open spec fn snapshot_duration_of_ms(duration_ms: u64) -> SnapshotDuration {
    if duration_ms >= 3000 {
        SnapshotDuration::ThreeSeconds
    } else if duration_ms >= 1000 {
        SnapshotDuration::OneSecond
    } else {
        SnapshotDuration::OneFrame
    }
}

/// The snapshot length a kind names, trimmed and lowered, if it names one.
/// The one-minute kinds of older consoles record three seconds.
pub open spec fn snapshot_kind_of(kind: Seq<char>) -> Option<SnapshotDuration> {
    let k = ascii_lower(trim(kind));
    if k == "3s"@ || k == "three-seconds"@ || k == "three_seconds"@ {
        Some(SnapshotDuration::ThreeSeconds)
    } else if k == "1m"@ || k == "one-minute"@ || k == "one_minute"@ {
        Some(SnapshotDuration::ThreeSeconds)
    } else if k == "1s"@ || k == "one-second"@ || k == "one_second"@ {
        Some(SnapshotDuration::OneSecond)
    } else if k == "1f"@ || k == "one-frame"@ || k == "one_frame"@ {
        Some(SnapshotDuration::OneFrame)
    } else {
        None
    }
}

/// The snapshot length a request asks for: by its kind where that names one,
/// else by its duration (none counting as zero).
pub open spec fn snapshot_request_of(duration_ms: Option<u64>, kind: Option<Seq<char>>) -> SnapshotDuration {
    let by_ms = snapshot_duration_of_ms(
        match duration_ms {
            Some(ms) => ms,
            None => 0,
        },
    );
    match kind {
        Some(k) => match snapshot_kind_of(k) {
            Some(d) => d,
            None => by_ms,
        },
        None => by_ms,
    }
}

impl SnapshotDuration {
    pub open spec fn spec_file_label(self) -> Seq<char> {
        match self {
            SnapshotDuration::OneFrame => "1f-snapshot"@,
            SnapshotDuration::OneSecond => "1s-snapshot"@,
            SnapshotDuration::ThreeSeconds => "3s-snapshot"@,
        }
    }

    pub open spec fn spec_capture_duration_ms(self) -> u64 {
        match self {
            SnapshotDuration::OneFrame => 100,
            SnapshotDuration::OneSecond => 1000,
            SnapshotDuration::ThreeSeconds => 3000,
        }
    }

    /// The snapshot length a request asks for.
    pub fn from_request(duration_ms: Option<u64>, snapshot_kind: Option<&str>) -> (r: Self)
        ensures
            r == snapshot_request_of(duration_ms, opt_view(snapshot_kind)),
    {
        let by_ms = Self::from_ms(
            match duration_ms {
                Some(ms) => ms,
                None => 0,
            },
        );
        let kind = match snapshot_kind {
            Some(k) => k,
            None => {
                return by_ms;
            },
        };
        let raw = chars_of(kind);
        let t = trim_chars(&raw);
        let k = lower_chars(&t);
        if chars_eq_str(&k, "3s") || chars_eq_str(&k, "three-seconds") || chars_eq_str(&k, "three_seconds") {
            SnapshotDuration::ThreeSeconds
        } else if chars_eq_str(&k, "1m") || chars_eq_str(&k, "one-minute") || chars_eq_str(&k, "one_minute") {
            SnapshotDuration::ThreeSeconds
        } else if chars_eq_str(&k, "1s") || chars_eq_str(&k, "one-second") || chars_eq_str(&k, "one_second") {
            SnapshotDuration::OneSecond
        } else if chars_eq_str(&k, "1f") || chars_eq_str(&k, "one-frame") || chars_eq_str(&k, "one_frame") {
            SnapshotDuration::OneFrame
        } else {
            by_ms
        }
    }

    /// The snapshot length of a duration in milliseconds.
    pub fn from_ms(duration_ms: u64) -> (r: Self)
        ensures
            r == snapshot_duration_of_ms(duration_ms),
    {
        if duration_ms >= 3000 {
            SnapshotDuration::ThreeSeconds
        } else if duration_ms >= 1000 {
            SnapshotDuration::OneSecond
        } else {
            SnapshotDuration::OneFrame
        }
    }

    /// The label snapshot file names carry.
    pub fn file_label(self) -> (r: &'static str)
        ensures
            r@ == self.spec_file_label(),
    {
        match self {
            SnapshotDuration::OneFrame => "1f-snapshot",
            SnapshotDuration::OneSecond => "1s-snapshot",
            SnapshotDuration::ThreeSeconds => "3s-snapshot",
        }
    }

    /// How long frames are collected, in milliseconds.
    pub fn capture_duration_ms(self) -> (r: u64)
        ensures
            r == self.spec_capture_duration_ms(),
    {
        match self {
            SnapshotDuration::OneFrame => 100,
            SnapshotDuration::OneSecond => 1000,
            SnapshotDuration::ThreeSeconds => 3000,
        }
    }
}

/// The denoise mode a profile view shows: always one, `temporal-iir` or `off`.
pub fn profile_view_input_denoise_mode(value: Option<&str>) -> (r: Option<String>)
    ensures
        r matches Some(s) && s@ == denoise_mode_of(opt_view(value)),
{
    Some(owned(normalize_input_denoise_mode(value)))
}

/// The cut-off frequency an old denoise mode name carries, if any.
pub open spec fn legacy_hz_of(value: Option<Seq<char>>) -> Option<u32> {
    let k = ascii_lower(trim(
        match value {
            Some(v) => v,
            None => ""@,
        },
    ));
    if k == "temporal-iir-8hz"@ || k == "temporal_iir_8hz"@ {
        Some(HZ_8)
    } else if k == "temporal-iir-6hz"@ || k == "temporal_iir_6hz"@ {
        Some(HZ_6)
    } else if k == "temporal-iir-4hz"@ || k == "temporal_iir_4hz"@ {
        Some(HZ_4)
    } else if k == "temporal-iir-2hz"@ || k == "temporal_iir_2hz"@ {
        Some(HZ_2)
    } else if k == "temporal-iir-10hz"@ || k == "temporal_iir_10hz"@ {
        Some(HZ_10)
    } else {
        None
    }
}

/// The cut-off frequency an old denoise mode name carries, as an `f32` pattern.
pub fn profile_view_input_denoise_legacy_hz(value: Option<&str>) -> (r: Option<F32Bits>)
    ensures
        match r {
            Some(hz) => legacy_hz_of(opt_view(value)) == Some(hz.0),
            None => legacy_hz_of(opt_view(value)) is None,
        },
{
    let raw = match value {
        Some(v) => chars_of(v),
        None => chars_of(""),
    };
    let t = trim_chars(&raw);
    let k = lower_chars(&t);
    if chars_eq_str(&k, "temporal-iir-8hz") || chars_eq_str(&k, "temporal_iir_8hz") {
        Some(F32Bits(HZ_8))
    } else if chars_eq_str(&k, "temporal-iir-6hz") || chars_eq_str(&k, "temporal_iir_6hz") {
        Some(F32Bits(HZ_6))
    } else if chars_eq_str(&k, "temporal-iir-4hz") || chars_eq_str(&k, "temporal_iir_4hz") {
        Some(F32Bits(HZ_4))
    } else if chars_eq_str(&k, "temporal-iir-2hz") || chars_eq_str(&k, "temporal_iir_2hz") {
        Some(F32Bits(HZ_2))
    } else if chars_eq_str(&k, "temporal-iir-10hz") || chars_eq_str(&k, "temporal_iir_10hz") {
        Some(F32Bits(HZ_10))
    } else {
        None
    }
}

/// The suffix executables carry on a platform.
pub open spec fn exe_suffix_of(windows: bool) -> Seq<char> {
    if windows {
        ".exe"@
    } else {
        ""@
    }
}

/// The suffix executables carry on the platform this crate was built for.
pub fn exe_suffix() -> (r: &'static str)
    ensures
        r@ == exe_suffix_of(true) || r@ == exe_suffix_of(false),
{
    exe_suffix_for(target_is_windows())
}

/// The suffix executables carry on a platform.
pub fn exe_suffix_for(windows: bool) -> (r: &'static str)
    ensures
        r@ == exe_suffix_of(windows),
{
    if windows {
        ".exe"
    } else {
        ""
    }
}

/// The file name of the executable `name` on a platform.
pub fn exe_name_for(name: &str, windows: bool) -> (r: String)
    ensures
        r@ == name@ + exe_suffix_of(windows),
{
    let mut v = chars_of(name);
    if windows {
        let ghost before = v@;
        v.push('.');
        v.push('e');
        v.push('x');
        v.push('e');
        proof {
            reveal_strlit(".exe");
        }
        assert(v@ =~= before + ".exe"@);
    } else {
        proof {
            reveal_strlit("");
        }
        assert(v@ =~= name@ + ""@);
    }
    string_of(&v)
}

/// The file name of the executable `name` on the platform this crate was
/// built for.
pub fn exe_name(name: &str) -> (r: String)
    ensures
        r@ == name@ + exe_suffix_of(true) || r@ == name@ + exe_suffix_of(false),
{
    exe_name_for(name, target_is_windows())
}

/// The characters of a log file prefix the file name keeps: ASCII letters,
/// digits and `-`.
pub open spec fn keeps_in_prefix(c: char) -> bool {
    is_ascii_alphanumeric(c) || c == '-'
}

/// `s` with only the characters a prefix keeps.
pub open spec fn prefix_filter(s: Seq<char>) -> Seq<char> {
    s.filter(|c: char| keeps_in_prefix(c))
}

/// The prefix of a saved log file: the requested one filtered, or
/// `supervisor` where nothing is left.
pub open spec fn log_prefix_of(requested: Seq<char>) -> Seq<char> {
    let kept = prefix_filter(requested);
    if kept.len() == 0 {
        "supervisor"@
    } else {
        kept
    }
}

/// The name of a saved log file: its prefix, `-`, the seconds since the
/// epoch, `.txt`.
pub open spec fn log_file_name_of(requested: Seq<char>, unix_secs: u64) -> Seq<char> {
    log_prefix_of(requested) + "-"@ + decimal_digits(unix_secs) + ".txt"@
}

/// The name a log saved at `unix_secs` with the prefix `file_prefix` gets.
pub fn log_file_name(file_prefix: &str, unix_secs: u64) -> (r: String)
    ensures
        r@ == log_file_name_of(file_prefix@, unix_secs),
{
    let raw = chars_of(file_prefix);
    let mut kept: Vec<char> = Vec::new();
    let mut i: usize = 0;
    while i < raw.len()
        invariant
            i <= raw.len(),
            kept@ == prefix_filter(raw@.take(i as int)),
        decreases raw.len() - i,
    {
        let c = raw[i];
        proof {
            reveal(Seq::filter);
        }
        assert(raw@.take(i as int + 1).drop_last() =~= raw@.take(i as int));
        assert(raw@.take(i as int + 1).last() == c);
        let keep = (('a' <= c && c <= 'z') || ('A' <= c && c <= 'Z') || ('0' <= c && c <= '9')) || c == '-';
        if keep {
            kept.push(c);
        }
        i = i + 1;
    }
    assert(raw@.take(raw.len() as int) =~= raw@);
    let mut name: Vec<char> = if kept.len() == 0 {
        chars_of("supervisor")
    } else {
        kept
    };
    let ghost prefix = name@;
    assert(prefix == log_prefix_of(file_prefix@));
    name.push('-');
    let digits = decimal_chars(unix_secs);
    let mut j: usize = 0;
    while j < digits.len()
        invariant
            j <= digits.len(),
            name@ == prefix + seq!['-'] + digits@.take(j as int),
        decreases digits.len() - j,
    {
        name.push(digits[j]);
        assert(digits@.take(j as int + 1) =~= digits@.take(j as int).push(digits@[j as int]));
        j = j + 1;
    }
    assert(digits@.take(digits.len() as int) =~= digits@);
    name.push('.');
    name.push('t');
    name.push('x');
    name.push('t');
    proof {
        reveal_strlit("-");
        reveal_strlit(".txt");
    }
    assert(name@ =~= log_file_name_of(file_prefix@, unix_secs));
    string_of(&name)
}

/// The path a profile records for a chosen file: `\` written as `/`.
pub fn profile_path_text(relative: &str) -> (r: String)
    ensures
        r@ == crate::text::replace_char(relative@, '\\', '/'),
{
    let v = chars_of(relative);
    string_of(&crate::text::replace_chars(&v, '\\', '/'))
}

/// The lifecycle state of a capturer process.
#[derive(Clone, Copy, Debug, PartialEq, Eq, Structural)]
pub enum CapturerState {
    Starting,
    Running,
    Stopping,
    Exited,
    Crashed,
}

/// A capturer process as the console lists it.
#[derive(Clone, Debug, PartialEq, Eq)]
pub struct CapturerInstance {
    pub id: u32,
    pub name: String,
    pub state: CapturerState,
    pub pid: Option<u32>,
    pub bind_addr: Option<String>,
    pub profile_id: Option<String>,
    pub uptime_secs: u64,
    pub last_stderr: Option<String>,
    pub stderr_tail: Vec<String>,
    pub exit_code: Option<i32>,
}

/// A webcam a backend lists.
#[derive(Clone, Debug, PartialEq, Eq)]
pub struct WebcamDeviceDto {
    pub id: String,
    pub label: String,
}

/// A capture format a webcam offers.
#[derive(Clone, Debug, PartialEq, Eq)]
pub struct WebcamFormatDto {
    pub width: u32,
    pub height: u32,
    /// `None` where the backend reports no rate.
    pub fps: Option<u32>,
    pub pixel_format: String,
    pub label: String,
}

} // verus!
