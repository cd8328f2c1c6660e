//! Properties of the library that span calls: names that read back as what
//! they name, normalisations that are idempotent, bounds every derived
//! configuration keeps, what pruning the capturer history and deleting a
//! profile preserve, and how the runtime's counters and sent frames evolve.
use vstd::prelude::*;

use crate::capturer_fleet::{is_stopped, prune_from, pruned, stopped_before, tail_after_push, MAX_CAPTURER_LOG_LINES};
use crate::output_telemetry::{vmc_drained, VmcOutputEvent, VmcOutputTelemetry};
use crate::runtime_loop::{is_unsent, sent_seq, LatestFrameKey};
use crate::decimal::{decimal_value, digits_value, is_digit, parse_u32_spec, unsigned_body};
use crate::file_image::{letterbox_of, ImageResizeOptions, LetterboxPlan};
use crate::runtime_choices::{
    denoise_mode_of, engine_id_of, name_key, pose_key, pose_of_key, resolution_of, running_mode_of, topic_mode_of,
    CoreZenohTopicMode, NeutralCalibrationPose,
};
use crate::api_config::BindAddress;
use crate::profile_fields::{profile_field_applied, runtime_field_applied, FieldValue};
use crate::profile_ops::{selection_after_delete, without_profile};
use crate::profile_schema::{DocumentProfile, ProfileDocument, ProfilePipelineComponents, ProfileRuntimeSettings};
use crate::runtime_config::{
    active_index, lemma_frame_streams_fps_bounded, runtime_config_of, trim_end_char, CoreRuntimeConfig, ModifierConfig, MAX_FPS,
};
use crate::text::has_prefix;
use crate::server_rules::decimal_digits;
use crate::signal_rules::{lost_signal_behavior_of, LostSignalBehavior};
use crate::supervisor::{snapshot_duration_of_ms, SnapshotDuration};
use crate::supervisor::{normalized_settings, opt_text, AppRuntimeSettings, CapturerInstance};
use crate::file_image::FileImageEmissionMode;
use crate::image_source::emits_at;
use crate::text::{ascii_lower, ascii_upper, lemma_trim_idempotent, replace_char, trim, trim_end, trim_start};
use crate::float_bits::{is_finite, F32Bits};
use crate::runtime_config::{denoise_hz_of, HZ_10, HZ_2, HZ_4, HZ_6, HZ_8};
use crate::source_routing::{source_route_of, SourceKind};
use crate::runtime_loop::{drain_step_of, ControlAction, ControlDrainResult, ControlPoll, RuntimeControlKind};
use crate::signal_rules::{part_behavior_of, LostSignalBehaviorNames, LostSignalPart};
use crate::supervisor::snapshot_request_of;

verus! {

/// A name without white space, upper-case letters or `_` is its own key.
proof fn lemma_plain_name_key(s: Seq<char>)
    requires
        forall|i: int| 0 <= i < s.len() ==> ('a' <= #[trigger] s[i] <= 'z') || s[i] == '-' || ('0' <= s[i] <= '9'),
    ensures
        name_key(s) == s,
        ascii_lower(s) == s,
{
    assert(ascii_lower(s) =~= s);
    assert(replace_char(s, '_', '-') =~= s);
}

/// A name without white space is its own trimmed form.
proof fn lemma_trim_plain(s: Seq<char>)
    requires
        forall|i: int| 0 <= i < s.len() ==> ('a' <= #[trigger] s[i] <= 'z') || ('A' <= s[i] <= 'Z') || s[i] == '-',
    ensures
        trim(s) == s,
{
    assert(s.len() > 0 ==> !crate::text::is_white_space(s[0]));
    assert(trim_start(s) == s);
    assert(s.len() > 0 ==> !crate::text::is_white_space(s.last()));
    assert(trim_end(s) == s);
}

/// The name of a Zenoh topic mode reads back as that mode.
pub proof fn law_topic_mode_name_round_trip(m: CoreZenohTopicMode)
    ensures
        topic_mode_of(m.spec_name()) == m,
{
    reveal_strlit("frame");
    reveal_strlit("by-primary-source");
    reveal_strlit("by-stream-id");
    reveal_strlit("primary-source");
    reveal_strlit("primarysource");
    reveal_strlit("stream-id");
    reveal_strlit("streamid");
    lemma_plain_name_key(m.spec_name());
}

/// The value a profile stores for a calibration pose parses back as that pose.
pub proof fn law_calibration_pose_round_trip(p: NeutralCalibrationPose)
    ensures
        pose_of_key(pose_key(Some(p.spec_profile_value()))) == Some(p),
{
    reveal_strlit("U");
    reveal_strlit("T");
    reveal_strlit("I");
    reveal_strlit("");
    reveal_strlit("U-POSE");
    reveal_strlit("U_POSE");
    reveal_strlit("T-POSE");
    reveal_strlit("T_POSE");
    reveal_strlit("I-POSE");
    reveal_strlit("I_POSE");
    let v = p.spec_profile_value();
    lemma_trim_plain(v);
    assert(ascii_upper(v) =~= v);
}

/// The duration a snapshot length records maps back to that length.
pub proof fn law_snapshot_duration_round_trip(d: SnapshotDuration)
    ensures
        snapshot_duration_of_ms(d.spec_capture_duration_ms()) == d,
{
}

/// The canonical name of a lost-signal behavior selects that behavior.
pub proof fn law_lost_signal_behavior_name_is_canonical(value: Seq<char>)
    ensures
        lost_signal_behavior_of(lost_signal_behavior_of(value).spec_name()) == lost_signal_behavior_of(value),
{
    reveal_strlit("rest-pose");
    reveal_strlit("hold");
    reveal_strlit("drop");
    reveal_strlit("send-none");
    reveal_strlit("none");
    let n = lost_signal_behavior_of(value).spec_name();
    lemma_trim_plain(n);
    lemma_plain_name_key(n);
}

/// Normalising a running mode twice gives what normalising once gives.
pub proof fn law_running_mode_is_idempotent(value: Seq<char>)
    ensures
        running_mode_of(running_mode_of(value)) == running_mode_of(value),
{
    reveal_strlit("image");
    reveal_strlit("video");
    reveal_strlit("live-stream");
    lemma_plain_name_key(running_mode_of(value));
}

/// Normalising an engine id twice gives what normalising once gives.
pub proof fn law_engine_id_is_idempotent(value: Seq<char>)
    ensures
        engine_id_of(engine_id_of(value)) == engine_id_of(value),
{
    reveal_strlit("mediapipe-native");
    reveal_strlit("media-pipe-native");
    if engine_id_of(value) == "mediapipe-native"@ {
        lemma_plain_name_key("mediapipe-native"@);
    }
}

/// Normalising a denoise mode twice gives what normalising once gives.
pub proof fn law_denoise_mode_is_idempotent(value: Option<Seq<char>>)
    ensures
        denoise_mode_of(Some(denoise_mode_of(value))) == denoise_mode_of(value),
{
    reveal_strlit("temporal-iir");
    reveal_strlit("off");
    reveal_strlit("on");
    reveal_strlit("true");
    reveal_strlit("temporal_iir");
    reveal_strlit("temporal-iir-10hz");
    reveal_strlit("temporal_iir_10hz");
    reveal_strlit("temporal-iir-8hz");
    reveal_strlit("temporal_iir_8hz");
    reveal_strlit("temporal-iir-6hz");
    reveal_strlit("temporal_iir_6hz");
    reveal_strlit("temporal-iir-4hz");
    reveal_strlit("temporal_iir_4hz");
    reveal_strlit("temporal-iir-2hz");
    reveal_strlit("temporal_iir_2hz");
    let m = denoise_mode_of(value);
    lemma_trim_plain(m);
    assert(ascii_lower(m) =~= m);
}

/// A resized image lies within its canvas, at least one pixel each way.
pub proof fn law_letterbox_fits_canvas(src_width: u32, src_height: u32, o: ImageResizeOptions)
    ensures
        match letterbox_of(src_width, src_height, o) {
            Some(p) => {
                &&& 1 <= p.target_width <= o.output_width
                &&& 1 <= p.target_height <= o.output_height
                &&& p.x + p.target_width <= o.output_width
                &&& p.y + p.target_height <= o.output_height
            },
            None => o.output_width == 0 || o.output_height == 0 || o.reference_length == 0,
        },
{
}

/// A base URL with its trailing `/` removed ends with none.
pub proof fn law_trimmed_base_url_has_no_trailing_slash(s: Seq<char>)
    ensures
        trim_end_char(s, '/').len() > 0 ==> trim_end_char(s, '/').last() != '/',
        trim_end_char(s, '/').len() <= s.len(),
    decreases s.len(),
{
    if s.len() > 0 && s.last() == '/' {
        law_trimmed_base_url_has_no_trailing_slash(s.drop_last());
    }
}

proof fn lemma_decimal_digits_value(n: u64)
    ensures
        forall|i: int| 0 <= i < decimal_digits(n).len() ==> is_digit(#[trigger] decimal_digits(n)[i]),
        decimal_digits(n).len() >= 1,
        digits_value(decimal_digits(n)) == n,
    decreases n,
{
    let d = decimal_digits(n);
    if n < 10 {
        assert(d[0] as u32 == 48 + n);
        assert(d.drop_last() =~= Seq::<char>::empty());
        assert(digits_value(d) == digits_value(d.drop_last()) * 10 + crate::decimal::digit_value(d.last()));
    } else {
        lemma_decimal_digits_value(n / 10);
        assert(d.drop_last() == decimal_digits(n / 10));
        assert(d.last() as u32 == 48 + n % 10);
        assert(digits_value(d) == digits_value(d.drop_last()) * 10 + crate::decimal::digit_value(d.last()));
        assert forall|i: int| 0 <= i < d.len() implies is_digit(#[trigger] d[i]) by {
            if i < d.len() - 1 {
                assert(d[i] == decimal_digits(n / 10)[i]);
            }
        }
    }
}

/// A resolution written as `WIDTHxHEIGHT` in decimal reads back as that size.
pub proof fn law_resolution_text_round_trip(width: u32, height: u32)
    ensures
        resolution_of(decimal_digits(width as u64) + "x"@ + decimal_digits(height as u64)) == Some((width, height)),
{
    reveal_strlit("x");
    let dw = decimal_digits(width as u64);
    let dh = decimal_digits(height as u64);
    lemma_decimal_digits_value(width as u64);
    lemma_decimal_digits_value(height as u64);
    let s = dw + "x"@ + dh;
    let stop = |c: char| crate::runtime_choices::is_x(c);
    assert forall|j: int| 0 <= j < dw.len() implies !stop(s[j]) by {
        assert(s[j] == dw[j]);
        assert(is_digit(dw[j]));
    }
    assert(s[dw.len() as int] == 'x');
    crate::server_rules::lemma_stop_index(s, stop, dw.len() as int);
    assert(s.take(dw.len() as int) =~= dw);
    assert(s.skip(dw.len() + 1int) =~= dh);
    assert(unsigned_body(dw) == dw);
    assert(unsigned_body(dh) == dh);
    assert(decimal_value(dw) == Some(width as nat));
    assert(decimal_value(dh) == Some(height as nat));
}

/// The stopped records of a sequence, counted.
pub open spec fn count_stopped(r: Seq<CapturerInstance>) -> nat
    decreases r.len(),
{
    if r.len() == 0 {
        0
    } else {
        (if is_stopped(r[0]) {
            1nat
        } else {
            0nat
        }) + count_stopped(r.drop_first())
    }
}

/// The records of live capturers, in order.
pub open spec fn live_of(r: Seq<CapturerInstance>) -> Seq<CapturerInstance>
    decreases r.len(),
{
    if r.len() == 0 {
        Seq::empty()
    } else {
        (if is_stopped(r[0]) {
            Seq::empty()
        } else {
            seq![r[0]]
        }) + live_of(r.drop_first())
    }
}

proof fn lemma_count_push(t: Seq<CapturerInstance>, x: CapturerInstance)
    ensures
        count_stopped(t.push(x)) == count_stopped(t) + if is_stopped(x) {
            1nat
        } else {
            0nat
        },
    decreases t.len(),
{
    if t.len() > 0 {
        assert(t.push(x).drop_first() =~= t.drop_first().push(x));
        assert(t.push(x)[0] == t[0]);
        lemma_count_push(t.drop_first(), x);
    } else {
        assert(t.push(x).drop_first() =~= Seq::<CapturerInstance>::empty());
        assert(t.push(x)[0] == x);
        assert(count_stopped(Seq::<CapturerInstance>::empty()) == 0);
    }
}

proof fn lemma_stopped_before_counts(s: Seq<CapturerInstance>, i: int)
    requires
        0 <= i <= s.len(),
    ensures
        stopped_before(s, i) == count_stopped(s.take(i)),
    decreases i,
{
    if i > 0 {
        lemma_stopped_before_counts(s, i - 1);
        assert(s.take(i) =~= s.take(i - 1).push(s[i - 1]));
        lemma_count_push(s.take(i - 1), s[i - 1]);
    } else {
        assert(s.take(0) =~= Seq::<CapturerInstance>::empty());
    }
}

proof fn lemma_prune_from_counts(s: Seq<CapturerInstance>, d: int, i: int)
    requires
        0 <= i <= s.len(),
        d >= 0,
    ensures
        count_stopped(prune_from(s, d, i)) == count_stopped(s.skip(i)) - (if d < count_stopped(s.skip(i)) {
            d
        } else {
            count_stopped(s.skip(i)) as int
        }),
        live_of(prune_from(s, d, i)) == live_of(s.skip(i)),
    decreases s.len() - i,
{
    if i < s.len() {
        lemma_prune_from_counts(s, if is_stopped(s[i]) && d > 0 { d - 1 } else { d }, i + 1);
        assert(s.skip(i).drop_first() =~= s.skip(i + 1));
        assert(s.skip(i)[0] == s[i]);
        if !(is_stopped(s[i]) && d > 0) {
            let r = prune_from(s, d, i + 1);
            assert((seq![s[i]] + r).drop_first() =~= r);
            assert((seq![s[i]] + r)[0] == s[i]);
        }
    } else {
        assert(s.skip(i) =~= Seq::<CapturerInstance>::empty());
    }
}

/// Pruning the capturer history keeps every live capturer, in order, and
/// leaves at most `max` stopped ones: all of them where there are no more.
pub proof fn law_prune_keeps_live_and_caps_history(s: Seq<CapturerInstance>, max: nat)
    ensures
        live_of(pruned(s, max)) == live_of(s),
        count_stopped(pruned(s, max)) == if count_stopped(s) < max {
            count_stopped(s)
        } else {
            max
        },
{
    lemma_stopped_before_counts(s, s.len() as int);
    assert(s.take(s.len() as int) =~= s);
    assert(s.skip(0) =~= s);
    let d = stopped_before(s, s.len() as int) - max;
    if d > 0 {
        lemma_prune_from_counts(s, d, 0);
    } else {
        crate::capturer_fleet::lemma_prune_no_drop(s, d, 0);
        lemma_prune_from_counts(s, 0, 0);
    }
}

/// Every derived configuration sends at `1..=240` frames per second and reads
/// each stream at `1..=240` frames per second.
pub proof fn law_runtime_cadence_is_bounded(
    c: CoreRuntimeConfig,
    doc: ProfileDocument,
    vmc_addr: Option<BindAddress>,
    vrc_addr: Option<BindAddress>,
    base: ModifierConfig,
    windows: bool,
    settings_ffmpeg_path: Option<String>,
)
    requires
        runtime_config_of(c, doc, vmc_addr, vrc_addr, base, windows, settings_ffmpeg_path),
    ensures
        1 <= c.fps <= MAX_FPS,
        forall|i: int| 0 <= i < c.frame_streams@.len() ==> 1 <= #[trigger] c.frame_streams@[i].input_fps <= MAX_FPS,
{
    let profile = doc.profiles@[active_index(doc)];
    lemma_frame_streams_fps_bounded(c.frame_streams@, profile, doc.profile_sources@, windows, settings_ffmpeg_path);
}

/// Setting a setting of a profile's runtime selection and then setting it to
/// null gives back the profile, where the profile had no runtime selection:
/// null unsets a setting, and a selection with nothing set is removed.
#[verifier::rlimit(80)]
pub proof fn law_runtime_field_unset_round_trip(
    p: DocumentProfile,
    p1: DocumentProfile,
    p2: DocumentProfile,
    field: Seq<char>,
    v: FieldValue,
)
    requires
        p.runtime_selection is None,
        has_prefix(field, "runtime_selection."@),
        !has_prefix(field.skip(18), "modifier."@),
        profile_field_applied(p, p1, field, v),
        profile_field_applied(p1, p2, field, FieldValue::Null),
    ensures
        p2 == p,
{
    reveal_strlit("name");
    reveal_strlit("note");
    reveal_strlit("icon_path");
    reveal_strlit("group");
    reveal_strlit("runtime_selection.");
    reveal_strlit("pipeline_components.");
    let empty = ProfileRuntimeSettings::spec_empty();
    assert(field != "name"@ && field != "note"@ && field != "icon_path"@ && field != "group"@) by {
        assert(field.subrange(0, 18)[0] == field[0]);
        assert(field[0] == 'r');
    }
    let sub = field.skip(18);
    let mid = match p1.runtime_selection {
        Some(r) => r,
        None => empty,
    };
    assert(runtime_field_applied(mid, empty, sub, FieldValue::Null));
    assert(p2.runtime_selection is None);
}

/// A still image sent once is never sent again, whatever the clock says.
pub proof fn law_once_source_emits_once(last_emit_ns: Option<u64>, now_ns: u64, repeat_interval_ns: u64)
    ensures
        !emits_at(FileImageEmissionMode::Once, true, last_emit_ns, now_ns, repeat_interval_ns),
{
}

/// Normalising console settings twice gives what normalising once gives,
/// where the language check answers the same both times.
pub proof fn law_settings_normalization_is_idempotent(
    s0: AppRuntimeSettings,
    s1: AppRuntimeSettings,
    s2: AppRuntimeSettings,
    locale_supported: bool,
    logical_cores: usize,
)
    requires
        logical_cores >= 1,
        normalized_settings(s1, s0, locale_supported, logical_cores),
        normalized_settings(s2, s1, locale_supported, logical_cores),
    ensures
        s2.theme_mode@ == s1.theme_mode@,
        s2.locale@ == s1.locale@,
        opt_text(s2.external_tools_ffmpeg_path) == opt_text(s1.external_tools_ffmpeg_path),
        opt_text(s2.calibration_countdown_sound_path) == opt_text(s1.calibration_countdown_sound_path),
        opt_text(s2.calibration_start_sound_path) == opt_text(s1.calibration_start_sound_path),
        opt_text(s2.snapshot_save_dir) == opt_text(s1.snapshot_save_dir),
        s2.calibration_start_delay_seconds == s1.calibration_start_delay_seconds,
        s2.calibration_sample_count == s1.calibration_sample_count,
        s2.calibration_sound_volume == s1.calibration_sound_volume,
        s2.api_worker_threads == s1.api_worker_threads,
{
    reveal_strlit("system");
    reveal_strlit("light");
    reveal_strlit("dark");
    if let Some(v) = s0.external_tools_ffmpeg_path {
        lemma_trim_idempotent(v@);
    }
    if let Some(v) = s0.calibration_countdown_sound_path {
        lemma_trim_idempotent(v@);
    }
    if let Some(v) = s0.calibration_start_sound_path {
        lemma_trim_idempotent(v@);
    }
    if let Some(v) = s0.snapshot_save_dir {
        lemma_trim_idempotent(v@);
    }
}

/// The stderr tail of a capturer never holds more than
/// `MAX_CAPTURER_LOG_LINES` lines, and its last line is the newest.
pub proof fn law_stderr_tail_is_bounded(tail: Seq<String>, line: String)
    ensures
        tail.len() <= MAX_CAPTURER_LOG_LINES ==> tail_after_push(tail, line).len() <= MAX_CAPTURER_LOG_LINES,
        tail_after_push(tail, line).len() > 0,
        tail_after_push(tail, line).last() == line,
{
}

/// A frame whose sequence is recorded as sent for its stream is not sent
/// again: only a newer frame of that stream is.
pub proof fn law_sent_frame_is_not_resent(f: LatestFrameKey, entries: Seq<(String, u64)>)
    requires
        sent_seq(entries, f.stream_id@) == Some(f.sequence),
    ensures
        !is_unsent(f, entries),
{
}

/// The VMC counters only grow as events arrive, and the error count grows
/// by at most one per event.
pub proof fn law_vmc_counters_never_decrease(health: Seq<char>, t: VmcOutputTelemetry, events: Seq<VmcOutputEvent>)
    ensures
        vmc_drained(health, Some(t), events).1 matches Some(u) && u.sent_datagrams >= t.sent_datagrams
            && u.sent_packets >= t.sent_packets && u.error_count >= t.error_count
            && u.error_count <= t.error_count + events.len(),
    decreases events.len(),
{
    if events.len() > 0 {
        law_vmc_counters_never_decrease(health, t, events.drop_last());
    }
}

/// What a delete keeps: no profile with the id, every other profile.
proof fn lemma_without_profile(s: Seq<DocumentProfile>, id: Seq<char>)
    ensures
        forall|i: int| 0 <= i < without_profile(s, id).len() ==> (#[trigger] without_profile(s, id)[i]).id@ != id,
        forall|i: int|
            0 <= i < s.len() && (#[trigger] s[i]).id@ != id ==> exists|j: int|
                0 <= j < without_profile(s, id).len() && without_profile(s, id)[j] == s[i],
    decreases s.len(),
{
    if s.len() > 0 {
        let d = s.drop_last();
        lemma_without_profile(d, id);
        let w = without_profile(d, id);
        assert forall|i: int| 0 <= i < s.len() && (#[trigger] s[i]).id@ != id implies exists|j: int|
            0 <= j < without_profile(s, id).len() && without_profile(s, id)[j] == s[i] by {
            if i < s.len() - 1 {
                assert(s[i] == d[i]);
                let j = choose|j: int| 0 <= j < w.len() && w[j] == d[i];
                if s.last().id@ != id {
                    assert(without_profile(s, id)[j] == w[j]);
                }
            } else {
                assert(without_profile(s, id)[w.len() as int] == s[i]);
            }
        }
    }
}

/// A delete leaves no profile with the deleted id, and a selection that was
/// empty or named a profile still is empty or names a remaining profile.
pub proof fn law_delete_keeps_selection_valid(profiles: Seq<DocumentProfile>, id: Seq<char>, selected: Seq<char>)
    requires
        selected.len() == 0 || exists|i: int| 0 <= i < profiles.len() && (#[trigger] profiles[i]).id@ == selected,
    ensures
        forall|i: int|
            0 <= i < without_profile(profiles, id).len() ==> (#[trigger] without_profile(profiles, id)[i]).id@ != id,
        ({
            let remaining = without_profile(profiles, id);
            let sel = selection_after_delete(selected, id, remaining);
            sel.len() == 0 || exists|i: int| 0 <= i < remaining.len() && (#[trigger] remaining[i]).id@ == sel
        }),
{
    lemma_without_profile(profiles, id);
    let remaining = without_profile(profiles, id);
    let sel = selection_after_delete(selected, id, remaining);
    if selected == id {
        if remaining.len() > 0 {
            assert(remaining[0].id@ == sel);
        }
    } else if selected.len() > 0 {
        let i = choose|i: int| 0 <= i < profiles.len() && (#[trigger] profiles[i]).id@ == selected;
        let j = choose|j: int| 0 <= j < remaining.len() && remaining[j] == profiles[i];
        assert(remaining[j].id@ == sel);
    }
}

/// Without an explicit finite frequency, a denoise mode named
/// `temporal-iir-<N>hz` or `temporal_iir_<N>hz` (N one of 2, 4, 6, 8; any
/// case, surrounding white space ignored) filters at exactly N Hz.
pub proof fn law_denoise_mode_name_sets_cutoff(explicit: Option<F32Bits>, mode: Seq<char>, n: u32, d: char)
    requires
        explicit matches Some(v) ==> !is_finite(v.0),
        (n == 2 && d == '2') || (n == 4 && d == '4') || (n == 6 && d == '6') || (n == 8 && d == '8'),
        ascii_lower(trim(mode)) == "temporal-iir-"@ + seq![d] + "hz"@ || ascii_lower(trim(mode)) == "temporal_iir_"@
            + seq![d] + "hz"@,
    ensures
        n == 2 ==> denoise_hz_of(explicit, Some(mode)) == HZ_2,
        n == 4 ==> denoise_hz_of(explicit, Some(mode)) == HZ_4,
        n == 6 ==> denoise_hz_of(explicit, Some(mode)) == HZ_6,
        n == 8 ==> denoise_hz_of(explicit, Some(mode)) == HZ_8,
        denoise_hz_of(explicit, Some(mode)) != HZ_10,
{
    reveal_strlit("temporal-iir-");
    reveal_strlit("temporal_iir_");
    reveal_strlit("hz");
    reveal_strlit("temporal-iir-8hz");
    reveal_strlit("temporal_iir_8hz");
    reveal_strlit("temporal-iir-6hz");
    reveal_strlit("temporal_iir_6hz");
    reveal_strlit("temporal-iir-4hz");
    reveal_strlit("temporal_iir_4hz");
    reveal_strlit("temporal-iir-2hz");
    reveal_strlit("temporal_iir_2hz");
    assert("temporal-iir-2hz"@[13] == '2' && "temporal_iir_2hz"@[13] == '2');
    assert("temporal-iir-4hz"@[13] == '4' && "temporal_iir_4hz"@[13] == '4');
    assert("temporal-iir-6hz"@[13] == '6' && "temporal_iir_6hz"@[13] == '6');
    assert("temporal-iir-8hz"@[13] == '8' && "temporal_iir_8hz"@[13] == '8');
    let k = ascii_lower(trim(mode));
    let dash = "temporal-iir-"@ + seq![d] + "hz"@;
    let under = "temporal_iir_"@ + seq![d] + "hz"@;
    if n == 2 {
        assert(dash =~= "temporal-iir-2hz"@);
        assert(under =~= "temporal_iir_2hz"@);
        assert(k != "temporal-iir-8hz"@ && k != "temporal_iir_8hz"@);
        assert(k != "temporal-iir-6hz"@ && k != "temporal_iir_6hz"@);
        assert(k != "temporal-iir-4hz"@ && k != "temporal_iir_4hz"@);
    } else if n == 4 {
        assert(dash =~= "temporal-iir-4hz"@);
        assert(under =~= "temporal_iir_4hz"@);
        assert(k != "temporal-iir-8hz"@ && k != "temporal_iir_8hz"@);
        assert(k != "temporal-iir-6hz"@ && k != "temporal_iir_6hz"@);
    } else if n == 6 {
        assert(dash =~= "temporal-iir-6hz"@);
        assert(under =~= "temporal_iir_6hz"@);
        assert(k != "temporal-iir-8hz"@ && k != "temporal_iir_8hz"@);
    } else {
        assert(dash =~= "temporal-iir-8hz"@);
        assert(under =~= "temporal_iir_8hz"@);
    }
}

/// Without an explicit finite frequency, a denoise mode whose name carries
/// none of the preset frequencies filters at 10 Hz, as does no mode at all.
pub proof fn law_denoise_mode_without_frequency_is_10hz(explicit: Option<F32Bits>, mode: Option<Seq<char>>)
    requires
        explicit matches Some(v) ==> !is_finite(v.0),
        mode matches Some(m) ==> ({
            let k = ascii_lower(trim(m));
            &&& k != "temporal-iir-2hz"@ && k != "temporal_iir_2hz"@
            &&& k != "temporal-iir-4hz"@ && k != "temporal_iir_4hz"@
            &&& k != "temporal-iir-6hz"@ && k != "temporal_iir_6hz"@
            &&& k != "temporal-iir-8hz"@ && k != "temporal_iir_8hz"@
        }),
    ensures
        denoise_hz_of(explicit, mode) == HZ_10,
{
    reveal_strlit("temporal-iir-");
    reveal_strlit("temporal_iir_");
    reveal_strlit("hz");
    reveal_strlit("temporal-iir-8hz");
    reveal_strlit("temporal_iir_8hz");
    reveal_strlit("temporal-iir-6hz");
    reveal_strlit("temporal_iir_6hz");
    reveal_strlit("temporal-iir-4hz");
    reveal_strlit("temporal_iir_4hz");
    reveal_strlit("temporal-iir-2hz");
    reveal_strlit("temporal_iir_2hz");
    reveal_strlit("");
    match mode {
        Some(m) => {},
        None => {
            assert(trim(""@) =~= ""@);
            assert(ascii_lower(""@) =~= ""@);
        },
    }
}

/// For the MediaPipe native engine, each input it reads opens its own
/// source: a still image, a video file or a DirectShow webcam, and no other
/// input opens any of these.
pub proof fn law_native_inputs_open_their_own_source(input: Seq<char>)
    ensures
        source_route_of("mediapipe-native"@, input) == Ok::<Option<SourceKind>, crate::source_routing::SourceRouteError>(Some(SourceKind::FileImage)) <==> input == "file-image"@,
        source_route_of("mediapipe-native"@, input) == Ok::<Option<SourceKind>, crate::source_routing::SourceRouteError>(Some(SourceKind::FileVideo)) <==> input == "file-video"@,
        source_route_of("mediapipe-native"@, input) == Ok::<Option<SourceKind>, crate::source_routing::SourceRouteError>(Some(SourceKind::WebcamDirectShow)) <==> input
            == "webcam-directshow"@,
{
    reveal_strlit("mediapipe-native");
    reveal_strlit("vmc");
    reveal_strlit("ifacialmocap");
    reveal_strlit("file-image");
    reveal_strlit("file-video");
    reveal_strlit("webcam-directshow");
    reveal_strlit("webcam-nokhwa");
    reveal_strlit("webcam-mediafoundation");
    assert("file-image"@[5] != "file-video"@[5]);
    assert("mediapipe-native"@.len() != "vmc"@.len());
    assert("mediapipe-native"@.len() != "ifacialmocap"@.len());
}

/// Each control message asks for its own action: a calibration request
/// starts a neutral calibration and a face-model request a face pose model,
/// each with the requested sample count brought into `1..=240`; a frame
/// request replies with a frame; a stop stops. Every message but a stop
/// counts as received and leaves the stop flag as it was.
pub proof fn law_control_messages_map_to_their_own_actions(result: ControlDrainResult, n: usize)
    ensures
        ({
            let (r, a) = drain_step_of(result, ControlPoll::Message(RuntimeControlKind::BuildFacePoseModel { valid_sample_count: n }));
            &&& a matches ControlAction::StartFacePoseModel { target_samples: t } && 1 <= t <= 240 && (1 <= n <= 240 ==> t == n)
                && (n == 0 ==> t == 1) && (n > 240 ==> t == 240)
            &&& r.received && r.stop == result.stop
        }),
        ({
            let (r, a) = drain_step_of(result, ControlPoll::Message(RuntimeControlKind::CalibrateNeutral { valid_sample_count: n }));
            &&& a matches ControlAction::StartNeutralCalibration { target_samples: t } && 1 <= t <= 240 && (1 <= n <= 240 ==> t == n)
                && (n == 0 ==> t == 1) && (n > 240 ==> t == 240)
            &&& r.received && r.stop == result.stop
        }),
        ({
            let (r, a) = drain_step_of(result, ControlPoll::Message(RuntimeControlKind::CaptureUnmotionFrame));
            a == ControlAction::ReplyCapturedFrame && r.received && r.stop == result.stop
        }),
        ({
            let (r, a) = drain_step_of(result, ControlPoll::Message(RuntimeControlKind::BeginAnalysisCapture));
            a == ControlAction::BeginAnalysisCapture && r.received && r.stop == result.stop
        }),
        ({
            let (r, a) = drain_step_of(result, ControlPoll::Message(RuntimeControlKind::FinishAnalysisCapture));
            a == ControlAction::FinishAnalysisCapture && r.received && r.stop == result.stop
        }),
        ({
            let (r, a) = drain_step_of(result, ControlPoll::Message(RuntimeControlKind::Stop));
            a == ControlAction::Stop && r.stop && r.received == result.received
        }),
{
}

/// A part falls back on the behavior for all parts only where its own name
/// is blank: the head, hands and arms each keep their own non-blank name.
pub proof fn law_lost_signal_part_keeps_its_own_name(names: LostSignalBehaviorNames)
    ensures
        trim(names.head@).len() > 0 ==> part_behavior_of(names, LostSignalPart::Head) == names.head@,
        trim(names.hands@).len() > 0 ==> part_behavior_of(names, LostSignalPart::Hands) == names.hands@,
        trim(names.arms@).len() > 0 ==> part_behavior_of(names, LostSignalPart::Arms) == names.arms@,
        trim(names.head@).len() == 0 ==> part_behavior_of(names, LostSignalPart::Head) == names.all@,
        trim(names.hands@).len() == 0 ==> part_behavior_of(names, LostSignalPart::Hands) == names.all@,
        trim(names.arms@).len() == 0 ==> part_behavior_of(names, LostSignalPart::Arms) == names.all@,
{
}

/// What a snapshot request asks for: a kind naming one second (`1s`,
/// `one-second`, `one_second`) gives one second, one naming three seconds
/// or, from older consoles, one minute gives three seconds, and one naming
/// one frame gives one frame, whatever the duration says (any case,
/// surrounding white space ignored). Without a kind, or with one that names
/// none of these, the duration decides: three seconds from 3000 ms, one
/// second from 1000 ms, else (or with no duration) one frame.
pub proof fn law_snapshot_request_follows_its_kind(duration_ms: Option<u64>, kind: Option<Seq<char>>)
    ensures
        kind matches Some(k) && (ascii_lower(trim(k)) == "1s"@ || ascii_lower(trim(k)) == "one-second"@
            || ascii_lower(trim(k)) == "one_second"@) ==> snapshot_request_of(duration_ms, kind)
            == SnapshotDuration::OneSecond,
        kind matches Some(k) && (ascii_lower(trim(k)) == "3s"@ || ascii_lower(trim(k)) == "three-seconds"@
            || ascii_lower(trim(k)) == "three_seconds"@ || ascii_lower(trim(k)) == "1m"@ || ascii_lower(trim(k))
            == "one-minute"@ || ascii_lower(trim(k)) == "one_minute"@) ==> snapshot_request_of(duration_ms, kind)
            == SnapshotDuration::ThreeSeconds,
        kind matches Some(k) && (ascii_lower(trim(k)) == "1f"@ || ascii_lower(trim(k)) == "one-frame"@
            || ascii_lower(trim(k)) == "one_frame"@) ==> snapshot_request_of(duration_ms, kind)
            == SnapshotDuration::OneFrame,
        kind is None ==> snapshot_request_of(duration_ms, kind) == (match duration_ms {
            Some(ms) => if ms >= 3000 {
                SnapshotDuration::ThreeSeconds
            } else if ms >= 1000 {
                SnapshotDuration::OneSecond
            } else {
                SnapshotDuration::OneFrame
            },
            None => SnapshotDuration::OneFrame,
        }),
{
    reveal_strlit("1s");
    reveal_strlit("one-second");
    reveal_strlit("one_second");
    reveal_strlit("3s");
    reveal_strlit("three-seconds");
    reveal_strlit("three_seconds");
    reveal_strlit("1m");
    reveal_strlit("one-minute");
    reveal_strlit("one_minute");
    reveal_strlit("1f");
    reveal_strlit("one-frame");
    reveal_strlit("one_frame");
    assert("1s"@[0] != "3s"@[0] && "1s"@[1] != "1m"@[1] && "1f"@[0] != "3s"@[0] && "1f"@[1] != "1m"@[1]
        && "1f"@[1] != "1s"@[1]);
    assert("one-second"@[4] != "one-minute"@[4] && "one_second"@[4] != "one_minute"@[4]);
    assert("one-second"@[3] != "one_minute"@[3] && "one_second"@[3] != "one-minute"@[3]);
    assert("one-frame"@.len() != "one-second"@.len() && "one_frame"@.len() != "one_second"@.len());
    assert("one-frame"@.len() != "one-minute"@.len() && "one_frame"@.len() != "one_minute"@.len());
    assert("one-frame"@.len() != "one_second"@.len() && "one_frame"@.len() != "one-second"@.len());
    assert("one-frame"@.len() != "one_minute"@.len() && "one_frame"@.len() != "one-minute"@.len());
}

} // verus!

