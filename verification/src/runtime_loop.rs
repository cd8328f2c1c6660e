//! The decisions of the runtime loop, apart from the workers it drives:
//! what each control message asks, what a sent frame does to the counters
//! and the health text, when the loop may sleep, and how streams that
//! failed to open are marked.
use vstd::prelude::*;

use crate::text::{chars_of, seq_eq, string_of};

verus! {

/// Valid samples a calibration or a face model collects at most.
pub const MAX_CALIBRATION_SAMPLES: usize = 240;

/// A requested sample count within `1..=240`.
pub open spec fn sample_target_of(requested: usize) -> usize {
    if requested < 1 {
        1
    } else if requested > MAX_CALIBRATION_SAMPLES {
        MAX_CALIBRATION_SAMPLES
    } else {
        requested
    }
}

/// A requested sample count within `1..=240`.
pub fn calibration_sample_target(requested: usize) -> (r: usize)
    ensures
        r == sample_target_of(requested),
{
    if requested < 1 {
        1
    } else if requested > MAX_CALIBRATION_SAMPLES {
        MAX_CALIBRATION_SAMPLES
    } else {
        requested
    }
}

/// A message on the runtime's control channel, without its reply channel.
#[derive(Clone, Copy, Debug, PartialEq, Eq, Structural)]
pub enum RuntimeControlKind {
    Stop,
    CalibrateNeutral { valid_sample_count: usize },
    BuildFacePoseModel { valid_sample_count: usize },
    CaptureUnmotionFrame,
    BeginAnalysisCapture,
    FinishAnalysisCapture,
}

/// What one poll of the control channel gave.
#[derive(Clone, Copy, Debug, PartialEq, Eq, Structural)]
pub enum ControlPoll {
    Message(RuntimeControlKind),
    /// Nothing is waiting.
    Empty,
    /// Every sender is gone.
    Disconnected,
}

/// What the loop has learnt from the control channel in one pass.
#[derive(Clone, Copy, Debug, PartialEq, Eq, Structural)]
pub struct ControlDrainResult {
    pub stop: bool,
    pub received: bool,
}

/// What the loop does for one poll of the control channel.
#[derive(Clone, Copy, Debug, PartialEq, Eq, Structural)]
pub enum ControlAction {
    /// Stop the runtime; the pass ends.
    Stop,
    /// Start collecting this many valid samples for a neutral calibration.
    StartNeutralCalibration { target_samples: usize },
    /// Start collecting this many valid samples for a face pose model.
    StartFacePoseModel { target_samples: usize },
    /// Reply with the latest frame seen through the modifier.
    ReplyCapturedFrame,
    BeginAnalysisCapture,
    FinishAnalysisCapture,
    /// Nothing is waiting; the pass ends.
    Done,
}

/// The result and action of one poll: a stop, or the end of the senders,
/// stops; any other message is received and acted on; an empty channel ends
/// the pass.
pub open spec fn drain_step_of(result: ControlDrainResult, poll: ControlPoll) -> (ControlDrainResult, ControlAction) {
    match poll {
        ControlPoll::Disconnected => (ControlDrainResult { stop: true, ..result }, ControlAction::Stop),
        ControlPoll::Empty => (result, ControlAction::Done),
        ControlPoll::Message(kind) => match kind {
            RuntimeControlKind::Stop => (ControlDrainResult { stop: true, ..result }, ControlAction::Stop),
            RuntimeControlKind::CalibrateNeutral { valid_sample_count } => (
                ControlDrainResult { received: true, ..result },
                ControlAction::StartNeutralCalibration { target_samples: sample_target_of(valid_sample_count) },
            ),
            RuntimeControlKind::BuildFacePoseModel { valid_sample_count } => (
                ControlDrainResult { received: true, ..result },
                ControlAction::StartFacePoseModel { target_samples: sample_target_of(valid_sample_count) },
            ),
            RuntimeControlKind::CaptureUnmotionFrame => (ControlDrainResult { received: true, ..result }, ControlAction::ReplyCapturedFrame),
            RuntimeControlKind::BeginAnalysisCapture => (ControlDrainResult { received: true, ..result }, ControlAction::BeginAnalysisCapture),
            RuntimeControlKind::FinishAnalysisCapture => (ControlDrainResult { received: true, ..result }, ControlAction::FinishAnalysisCapture),
        },
    }
}

/// One poll of the control channel: the updated result and what to do.
pub fn drain_control_step(result: ControlDrainResult, poll: ControlPoll) -> (r: (ControlDrainResult, ControlAction))
    ensures
        r == drain_step_of(result, poll),
{
    match poll {
        ControlPoll::Disconnected => (ControlDrainResult { stop: true, ..result }, ControlAction::Stop),
        ControlPoll::Empty => (result, ControlAction::Done),
        ControlPoll::Message(kind) => match kind {
            RuntimeControlKind::Stop => (ControlDrainResult { stop: true, ..result }, ControlAction::Stop),
            RuntimeControlKind::CalibrateNeutral { valid_sample_count } => (
                ControlDrainResult { received: true, ..result },
                ControlAction::StartNeutralCalibration { target_samples: calibration_sample_target(valid_sample_count) },
            ),
            RuntimeControlKind::BuildFacePoseModel { valid_sample_count } => (
                ControlDrainResult { received: true, ..result },
                ControlAction::StartFacePoseModel { target_samples: calibration_sample_target(valid_sample_count) },
            ),
            RuntimeControlKind::CaptureUnmotionFrame => (
                ControlDrainResult { received: true, ..result },
                ControlAction::ReplyCapturedFrame,
            ),
            RuntimeControlKind::BeginAnalysisCapture => (
                ControlDrainResult { received: true, ..result },
                ControlAction::BeginAnalysisCapture,
            ),
            RuntimeControlKind::FinishAnalysisCapture => (
                ControlDrainResult { received: true, ..result },
                ControlAction::FinishAnalysisCapture,
            ),
        },
    }
}

/// Whether the pass over the control channel ends after an action.
pub open spec fn ends_pass(action: ControlAction) -> bool {
    action == ControlAction::Stop || action == ControlAction::Done
}

/// How sending a frame to each configured output went: `None` where the
/// output is not configured, else whether the send succeeded.
#[derive(Clone, Copy, Debug, PartialEq, Eq, Structural)]
pub struct OutputSendOutcome {
    pub vmc: Option<bool>,
    pub vrc_osc: Option<bool>,
    pub zenoh: Option<bool>,
}

/// The counters and health text the runtime reports.
#[derive(Clone, Debug, PartialEq, Eq)]
pub struct RuntimeCounters {
    pub frame_count: u64,
    pub packet_count: u64,
    pub health: String,
}

/// The health text after a frame was sent: the message of the last output
/// that failed, in the order VMC, VRChat OSC, Zenoh; unchanged where none did.
pub open spec fn health_after_send(health: Seq<char>, o: OutputSendOutcome) -> Seq<char> {
    if o.zenoh == Some(false) {
        "zenoh output disconnected"@
    } else if o.vrc_osc == Some(false) {
        "vrc osc output disconnected"@
    } else if o.vmc == Some(false) {
        "output disconnected"@
    } else {
        health
    }
}

/// Counts a sent frame, saturating, and notes a failed output in the health text.
pub fn record_frame_sent(counters: &mut RuntimeCounters, outcome: OutputSendOutcome)
    ensures
        final(counters).frame_count == (if old(counters).frame_count == u64::MAX {
            u64::MAX
        } else {
            (old(counters).frame_count + 1) as u64
        }),
        final(counters).packet_count == old(counters).packet_count,
        final(counters).health@ == health_after_send(old(counters).health@, outcome),
{
    counters.frame_count = counters.frame_count.saturating_add(1);
    if outcome.vmc == Some(false) {
        counters.health = crate::text::owned("output disconnected");
    }
    if outcome.vrc_osc == Some(false) {
        counters.health = crate::text::owned("vrc osc output disconnected");
    }
    if outcome.zenoh == Some(false) {
        counters.health = crate::text::owned("zenoh output disconnected");
    }
}

/// Whether the loop may sleep until the next frame is due: only when the
/// pass brought no control message, no new frame and sent nothing.
pub fn loop_may_sleep(control_received: bool, received_frame: bool, sent: bool) -> (r: bool)
    ensures
        r == (!control_received && !received_frame && !sent),
{
    !control_received && !received_frame && !sent
}

/// The interval between frames a Zenoh output expects at `fps`, in
/// nanoseconds; none at zero frames per second.
pub fn zenoh_expected_dt_ns(fps: u32) -> (r: Option<u64>)
    ensures
        fps == 0 ==> r is None,
        fps > 0 ==> r == Some((1_000_000_000u64 / (fps as u64)) as u64),
{
    if fps == 0 {
        None
    } else {
        Some(1_000_000_000u64 / (fps as u64))
    }
}

/// A stream's decode-error count, by stream id.
#[derive(Clone, Debug, PartialEq, Eq)]
pub struct StreamErrorCount {
    pub stream_id: String,
    pub decode_error_count: u64,
}

/// The health text a stream that failed to open sets.
pub open spec fn stream_failed_health(stream_id: Seq<char>, message: Seq<char>) -> Seq<char> {
    stream_id + " Motion frame stream failed: "@ + message
}

/// The index of the stream `id` in `states`, if it is there.
pub open spec fn stream_index(states: Seq<StreamErrorCount>, id: Seq<char>) -> int
    decreases states.len(),
{
    if states.len() == 0 {
        -1
    } else if states.last().stream_id@ == id {
        states.len() - 1
    } else {
        stream_index(states.drop_last(), id)
    }
}

/// Whether a stream has no decode error recorded in `states`.
pub open spec fn clean_stream(states: Seq<StreamErrorCount>, id: Seq<char>) -> bool {
    forall|i: int| 0 <= i < states.len() && #[trigger] states[i].stream_id@ == id ==> states[i].decode_error_count == 0
}

/// The stream ids and counts of `states`, in order.
pub open spec fn counts_view(states: Seq<StreamErrorCount>) -> Seq<(Seq<char>, u64)> {
    states.map_values(|e: StreamErrorCount| (e.stream_id@, e.decode_error_count))
}

/// `v` after the stream `id` failed to open: each of its entries with no
/// decode error gets one, the others stay; where `v` has no entry for it,
/// one with a single error is added at the end.
pub open spec fn mark_failed(v: Seq<(Seq<char>, u64)>, id: Seq<char>) -> Seq<(Seq<char>, u64)> {
    let bumped = Seq::new(
        v.len(),
        |j: int|
            if v[j].0 == id && v[j].1 == 0 {
                (id, 1u64)
            } else {
                v[j]
            },
    );
    if exists|j: int| 0 <= j < v.len() && #[trigger] v[j].0 == id {
        bumped
    } else {
        bumped.push((id, 1u64))
    }
}

/// `v` after each stream of `ids` failed, in order.
pub open spec fn mark_all_failed(v: Seq<(Seq<char>, u64)>, ids: Seq<Seq<char>>) -> Seq<(Seq<char>, u64)>
    decreases ids.len(),
{
    if ids.len() == 0 {
        v
    } else {
        mark_failed(mark_all_failed(v, ids.drop_last()), ids.last())
    }
}

/// The stream ids of startup errors, in order.
pub open spec fn error_stream_ids(errors: Seq<(String, String)>) -> Seq<Seq<char>> {
    errors.map_values(|e: (String, String)| e.0@)
}

fn concat_three(a: &str, b: &str, c: &str) -> (r: String)
    ensures
        r@ == a@ + b@ + c@,
{
    let mut v = chars_of(a);
    let w = chars_of(b);
    let x = chars_of(c);
    let ghost va = v@;
    let mut i: usize = 0;
    while i < w.len()
        invariant
            i <= w.len(),
            v@ == va + w@.take(i as int),
        decreases w.len() - i,
    {
        v.push(w[i]);
        assert(w@.take(i as int + 1) =~= w@.take(i as int).push(w@[i as int]));
        i = i + 1;
    }
    assert(w@.take(w.len() as int) =~= w@);
    let ghost vb = v@;
    let mut j: usize = 0;
    while j < x.len()
        invariant
            j <= x.len(),
            v@ == vb + x@.take(j as int),
        decreases x.len() - j,
    {
        v.push(x[j]);
        assert(x@.take(j as int + 1) =~= x@.take(j as int).push(x@[j as int]));
        j = j + 1;
    }
    assert(x@.take(x.len() as int) =~= x@);
    string_of(&v)
}

/// Marks streams that failed to open: each gets one decode error where it
/// had none (an unknown stream is added with one), and the health text
/// names the last failure. Returns whether any count changed.
pub fn apply_frame_stream_startup_errors(
    errors: &Vec<(String, String)>,
    states: &mut Vec<StreamErrorCount>,
    health: &mut String,
) -> (changed: bool)
    ensures
        errors@.len() == 0 ==> final(health)@ == old(health)@,
        errors@.len() > 0 ==> final(health)@ == stream_failed_health(errors@.last().0@, errors@.last().1@),
        changed == exists|i: int| 0 <= i < errors@.len() && clean_stream(old(states)@, #[trigger] errors@[i].0@),
        forall|i: int| 0 <= i < errors@.len() ==> !clean_stream(final(states)@, #[trigger] errors@[i].0@),
        forall|id: Seq<char>|
            (forall|i: int| 0 <= i < errors@.len() ==> errors@[i].0@ != id) ==> (clean_stream(final(states)@, id)
                <==> clean_stream(old(states)@, id)),
        counts_view(final(states)@) == mark_all_failed(counts_view(old(states)@), error_stream_ids(errors@)),
{
    let ghost s0 = states@;
    let mut changed = false;
    let mut e: usize = 0;
    while e < errors.len()
        invariant
            e <= errors.len(),
            e == 0 ==> health@ == old(health)@,
            e > 0 ==> health@ == stream_failed_health(errors@[e - 1].0@, errors@[e - 1].1@),
            changed == exists|i: int| 0 <= i < e && clean_stream(s0, #[trigger] errors@[i].0@),
            forall|i: int| 0 <= i < e ==> !clean_stream(states@, #[trigger] errors@[i].0@),
            forall|id: Seq<char>|
                (forall|i: int| 0 <= i < e ==> errors@[i].0@ != id) ==> (clean_stream(states@, id) <==> clean_stream(s0, id)),
            counts_view(states@) == mark_all_failed(counts_view(s0), error_stream_ids(errors@).take(e as int)),
        decreases errors.len() - e,
    {
        let id = chars_of(errors[e].0.as_str());
        let ghost before = states@;
        let mut k: usize = 0;
        let mut found = false;
        let mut was_clean = true;
        while k < states.len()
            invariant
                k <= states.len(),
                states@ == before,
                id@ == errors@[e as int].0@,
                was_clean == (forall|j: int| 0 <= j < k && #[trigger] states@[j].stream_id@ == id@ ==> states@[j].decode_error_count == 0),
                found == exists|j: int| 0 <= j < k && #[trigger] states@[j].stream_id@ == id@,
            decreases states.len() - k,
        {
            let sid = chars_of(states[k].stream_id.as_str());
            if seq_eq(&sid, &id) {
                found = true;
                if states[k].decode_error_count != 0 {
                    was_clean = false;
                }
            }
            k = k + 1;
        }
        assert(was_clean == clean_stream(before, id@));
        // Every entry of this stream gets one error where it had none.
        let mut m: usize = 0;
        let ghost mid = states@;
        while m < states.len()
            invariant
                m <= states.len(),
                states@.len() == before.len(),
                id@ == errors@[e as int].0@,
                forall|j: int| 0 <= j < m ==> #[trigger] states@[j].stream_id@ == before[j].stream_id@,
                forall|j: int| 0 <= j < m && before[j].stream_id@ == id@ ==> #[trigger] states@[j].decode_error_count == (if before[j].decode_error_count == 0 {
                    1
                } else {
                    before[j].decode_error_count
                }),
                forall|j: int| 0 <= j < m && before[j].stream_id@ != id@ ==> #[trigger] states@[j] == before[j],
                forall|j: int| m <= j < states@.len() ==> #[trigger] states@[j] == before[j],
            decreases states.len() - m,
        {
            let sid = chars_of(states[m].stream_id.as_str());
            if seq_eq(&sid, &id) && states[m].decode_error_count == 0 {
                let entry = StreamErrorCount { stream_id: crate::text::owned(states[m].stream_id.as_str()), decode_error_count: 1 };
                states.set(m, entry);
            }
            m = m + 1;
        }
        proof {
            let v = counts_view(before);
            let bumped = Seq::new(
                v.len(),
                |j: int|
                    if v[j].0 == id@ && v[j].1 == 0 {
                        (id@, 1u64)
                    } else {
                        v[j]
                    },
            );
            assert(counts_view(states@) =~= bumped);
            if found {
                let j = choose|j: int| 0 <= j < before.len() && #[trigger] before[j].stream_id@ == id@;
                assert(v[j].0 == id@);
            } else {
                assert forall|j: int| 0 <= j < v.len() implies #[trigger] v[j].0 != id@ by {
                    assert(before[j].stream_id@ == v[j].0);
                }
            }
        }
        let ghost bumped_view = counts_view(states@);
        if !found {
            states.push(StreamErrorCount { stream_id: string_of(&id), decode_error_count: 1 });
            assert(counts_view(states@) =~= bumped_view.push((id@, 1u64)));
        }
        proof {
            let ids = error_stream_ids(errors@);
            assert(ids.take(e as int + 1).drop_last() =~= ids.take(e as int));
            assert(ids.take(e as int + 1).last() == id@);
            assert(counts_view(states@) == mark_failed(counts_view(before), id@));
        }
        proof {
            assert forall|j: int| 0 <= j < states@.len() && #[trigger] states@[j].stream_id@ == id@ implies states@[j].decode_error_count != 0 by {
                if j < before.len() {
                } else {
                    assert(!found);
                }
            }
            assert(!clean_stream(states@, id@)) by {
                if found {
                    let j = choose|j: int| 0 <= j < before.len() && #[trigger] before[j].stream_id@ == id@;
                    assert(states@[j].stream_id@ == id@);
                } else {
                    assert(states@[states@.len() - 1].stream_id@ == id@);
                }
            }
            assert forall|other: Seq<char>| other != id@ implies (clean_stream(states@, other) <==> clean_stream(before, other)) by {
                if clean_stream(before, other) {
                    assert forall|j: int| 0 <= j < states@.len() && #[trigger] states@[j].stream_id@ == other implies states@[j].decode_error_count == 0 by {
                        if j < before.len() {
                            assert(states@[j] == before[j]);
                        }
                    }
                }
                if clean_stream(states@, other) {
                    assert forall|j: int| 0 <= j < before.len() && #[trigger] before[j].stream_id@ == other implies before[j].decode_error_count == 0 by {
                        assert(states@[j].stream_id@ == other);
                    }
                }
            }
        }
        let health_text = concat_three(errors[e].0.as_str(), " Motion frame stream failed: ", errors[e].1.as_str());
        *health = health_text;
        proof {
            if exists|i: int| 0 <= i < e && errors@[i].0@ == id@ {
                let i = choose|i: int| 0 <= i < e && errors@[i].0@ == id@;
                assert(!clean_stream(before, errors@[i].0@));
                assert(!was_clean);
                if clean_stream(s0, id@) {
                    assert(clean_stream(s0, errors@[i].0@));
                }
            } else {
                assert(clean_stream(before, id@) == clean_stream(s0, id@));
            }
        }
        if was_clean {
            changed = true;
        }
        e = e + 1;
    }
    assert(error_stream_ids(errors@).take(errors.len() as int) =~= error_stream_ids(errors@));
    changed
}

/// The latest frame of a stream as the output selection sees it.
#[derive(Clone, Debug, PartialEq, Eq)]
pub struct LatestFrameKey {
    pub stream_id: String,
    pub sequence: u64,
    pub capture_timestamp_ns: u64,
}

/// The value a list of stream entries holds for a stream: that of its last
/// entry, none where it has no entry.
pub open spec fn last_value<V>(entries: Seq<(String, V)>, id: Seq<char>) -> Option<V>
    decreases entries.len(),
{
    if entries.len() == 0 {
        None
    } else if entries.last().0@ == id {
        Some(entries.last().1)
    } else {
        last_value(entries.drop_last(), id)
    }
}

/// The sequence last sent for a stream.
pub open spec fn sent_seq(entries: Seq<(String, u64)>, id: Seq<char>) -> Option<u64> {
    last_value(entries, id)
}

/// Whether a stream's latest frame was not sent yet.
pub open spec fn is_unsent(f: LatestFrameKey, entries: Seq<(String, u64)>) -> bool {
    sent_seq(entries, f.stream_id@) != Some(f.sequence)
}

/// The entry at `j` is the last one for `id`.
pub open spec fn last_entry_for<V>(entries: Seq<(String, V)>, id: Seq<char>, j: int) -> bool {
    &&& 0 <= j < entries.len()
    &&& entries[j].0@ == id
    &&& forall|k: int| j < k < entries.len() ==> (#[trigger] entries[k]).0@ != id
}

proof fn lemma_last_value_entry<V>(entries: Seq<(String, V)>, id: Seq<char>, j: int)
    requires
        last_entry_for(entries, id, j),
    ensures
        last_value(entries, id) == Some(entries[j].1),
    decreases entries.len(),
{
    if j < entries.len() - 1 {
        assert(entries[entries.len() - 1].0@ != id);
        lemma_last_value_entry(entries.drop_last(), id, j);
    }
}

proof fn lemma_last_value_absent<V>(entries: Seq<(String, V)>, id: Seq<char>)
    requires
        forall|k: int| 0 <= k < entries.len() ==> (#[trigger] entries[k]).0@ != id,
    ensures
        last_value(entries, id) is None,
    decreases entries.len(),
{
    if entries.len() > 0 {
        assert(entries[entries.len() - 1].0@ != id);
        lemma_last_value_absent(entries.drop_last(), id);
    }
}

proof fn lemma_last_value_update<V>(entries: Seq<(String, V)>, j: int, e: (String, V), x: Seq<char>)
    requires
        last_entry_for(entries, e.0@, j),
    ensures
        last_value(entries.update(j, e), x) == (if x == e.0@ {
            Some(e.1)
        } else {
            last_value(entries, x)
        }),
    decreases entries.len(),
{
    let u = entries.update(j, e);
    if j == entries.len() - 1 {
        assert(u.drop_last() =~= entries.drop_last());
    } else {
        assert(u.drop_last() =~= entries.drop_last().update(j, e));
        assert(entries[entries.len() - 1].0@ != e.0@);
        lemma_last_value_update(entries.drop_last(), j, e, x);
    }
}

proof fn lemma_last_value_push<V>(entries: Seq<(String, V)>, e: (String, V), x: Seq<char>)
    ensures
        last_value(entries.push(e), x) == (if x == e.0@ {
            Some(e.1)
        } else {
            last_value(entries, x)
        }),
{
    assert(entries.push(e).drop_last() =~= entries);
}

/// The index of the last entry for `id`, if there is one.
fn find_last_entry<V>(entries: &Vec<(String, V)>, id: &str) -> (r: Option<usize>)
    ensures
        match r {
            Some(j) => last_entry_for(entries@, id@, j as int),
            None => forall|k: int| 0 <= k < entries@.len() ==> (#[trigger] entries@[k]).0@ != id@,
        },
{
    let want = chars_of(id);
    let mut i: usize = entries.len();
    while i > 0
        invariant
            i <= entries.len(),
            want@ == id@,
            forall|k: int| i <= k < entries@.len() ==> (#[trigger] entries@[k]).0@ != id@,
        decreases i,
    {
        let have = chars_of(entries[i - 1].0.as_str());
        if seq_eq(&have, &want) {
            return Some(i - 1);
        }
        i = i - 1;
    }
    None
}

/// Sets the value of a stream's entry, adding one where it has none.
fn set_last_value<V>(entries: &mut Vec<(String, V)>, id: String, value: V)
    ensures
        forall|x: Seq<char>| #[trigger] last_value(final(entries)@, x) == (if x == id@ {
            Some(value)
        } else {
            last_value(old(entries)@, x)
        }),
{
    let ghost before = entries@;
    match find_last_entry(entries, id.as_str()) {
        Some(j) => {
            let ghost e = (id, value);
            proof {
                assert forall|x: Seq<char>| #[trigger] last_value(before.update(j as int, e), x) == (if x
                    == id@ {
                    Some(value)
                } else {
                    last_value(before, x)
                }) by {
                    lemma_last_value_update(before, j as int, e, x);
                }
            }
            entries.set(j, (id, value));
        },
        None => {
            let ghost e = (id, value);
            proof {
                assert forall|x: Seq<char>| #[trigger] last_value(before.push(e), x) == (if x == id@ {
                    Some(value)
                } else {
                    last_value(before, x)
                }) by {
                    lemma_last_value_push(before, e, x);
                }
            }
            entries.push((id, value));
        },
    }
}

/// Picks the newest frame, by capture time, among those not sent yet (the
/// later one on a tie) and records its sequence as sent for its stream.
pub fn select_latest_unsent_frame(frames: &Vec<LatestFrameKey>, last_output_sequences: &mut Vec<(String, u64)>) -> (r:
    Option<usize>)
    ensures
        match r {
            Some(k) => {
                &&& k < frames@.len()
                &&& is_unsent(frames@[k as int], old(last_output_sequences)@)
                &&& forall|i: int|
                    0 <= i < frames@.len() && is_unsent(#[trigger] frames@[i], old(last_output_sequences)@)
                        ==> frames@[i].capture_timestamp_ns <= frames@[k as int].capture_timestamp_ns
                &&& forall|i: int|
                    k < i < frames@.len() && is_unsent(#[trigger] frames@[i], old(last_output_sequences)@)
                        ==> frames@[i].capture_timestamp_ns < frames@[k as int].capture_timestamp_ns
                &&& forall|x: Seq<char>|
                    #[trigger] sent_seq(final(last_output_sequences)@, x) == (if x == frames@[k as int].stream_id@ {
                        Some(frames@[k as int].sequence)
                    } else {
                        sent_seq(old(last_output_sequences)@, x)
                    })
            },
            None => {
                &&& forall|i: int| 0 <= i < frames@.len() ==> !is_unsent(#[trigger] frames@[i], old(last_output_sequences)@)
                &&& final(last_output_sequences)@ == old(last_output_sequences)@
            },
        },
{
    let ghost sent = last_output_sequences@;
    let mut best: Option<usize> = None;
    let mut i: usize = 0;
    while i < frames.len()
        invariant
            i <= frames.len(),
            last_output_sequences@ == sent,
            match best {
                Some(k) => {
                    &&& k < i
                    &&& is_unsent(frames@[k as int], sent)
                    &&& forall|j: int| 0 <= j < i && is_unsent(#[trigger] frames@[j], sent)
                        ==> frames@[j].capture_timestamp_ns <= frames@[k as int].capture_timestamp_ns
                    &&& forall|j: int| k < j < i && is_unsent(#[trigger] frames@[j], sent)
                        ==> frames@[j].capture_timestamp_ns < frames@[k as int].capture_timestamp_ns
                },
                None => forall|j: int| 0 <= j < i ==> !is_unsent(#[trigger] frames@[j], sent),
            },
        decreases frames.len() - i,
    {
        let f = &frames[i];
        let found = find_last_entry(last_output_sequences, f.stream_id.as_str());
        let unsent = match found {
            Some(j) => {
                proof {
                    lemma_last_value_entry(sent, f.stream_id@, j as int);
                }
                last_output_sequences[j].1 != f.sequence
            },
            None => {
                proof {
                    lemma_last_value_absent(sent, f.stream_id@);
                }
                true
            },
        };
        assert(unsent == is_unsent(frames@[i as int], sent));
        if unsent {
            best = match best {
                Some(k) => if f.capture_timestamp_ns >= frames[k].capture_timestamp_ns {
                    Some(i)
                } else {
                    Some(k)
                },
                None => Some(i),
            };
        }
        i = i + 1;
    }
    let k = match best {
        Some(k) => k,
        None => {
            return None;
        },
    };
    let chosen = &frames[k];
    set_last_value(last_output_sequences, chosen.stream_id.clone(), chosen.sequence);
    Some(k)
}

/// When a stream's latest frame was observed, as its slot reports it.
#[derive(Clone, Debug, PartialEq, Eq)]
pub struct StreamEventStamp {
    pub stream_id: String,
    /// None where the stream has seen nothing yet.
    pub last_event_at_ns: Option<u64>,
}

/// `o` without its outer option.
pub open spec fn flat(o: Option<Option<u64>>) -> Option<u64> {
    match o {
        Some(v) => v,
        None => None,
    }
}

/// The observation time known for `id` once the first `i` slots were read.
pub open spec fn known_stamp(
    latest: Seq<StreamEventStamp>,
    known: Seq<(String, Option<u64>)>,
    i: int,
    id: Seq<char>,
) -> Option<u64>
    decreases i,
{
    if i <= 0 {
        flat(last_value(known, id))
    } else if latest[i - 1].stream_id@ == id {
        latest[i - 1].last_event_at_ns
    } else {
        known_stamp(latest, known, i - 1, id)
    }
}

/// Whether slot `i` holds a frame the loop has not seen.
pub open spec fn slot_is_new(latest: Seq<StreamEventStamp>, known: Seq<(String, Option<u64>)>, i: int) -> bool {
    known_stamp(latest, known, i, latest[i].stream_id@) != latest[i].last_event_at_ns
}

/// The slots among the first `i` that hold a new frame, in order.
pub open spec fn new_slots(latest: Seq<StreamEventStamp>, known: Seq<(String, Option<u64>)>, i: int) -> Seq<usize>
    decreases i,
{
    if i <= 0 {
        Seq::empty()
    } else if slot_is_new(latest, known, i - 1) {
        new_slots(latest, known, i - 1).push((i - 1) as usize)
    } else {
        new_slots(latest, known, i - 1)
    }
}

/// The packet count after the first `i` slots: one more for each new frame.
pub open spec fn packets_after(
    latest: Seq<StreamEventStamp>,
    known: Seq<(String, Option<u64>)>,
    packets: u64,
    i: int,
) -> u64
    decreases i,
{
    if i <= 0 {
        packets
    } else if slot_is_new(latest, known, i - 1) {
        let p = packets_after(latest, known, packets, i - 1);
        if p == u64::MAX {
            p
        } else {
            (p + 1) as u64
        }
    } else {
        packets_after(latest, known, packets, i - 1)
    }
}

/// Reads the latest frame slot of each stream: a slot whose observation
/// time differs from the one known for its stream holds a new frame, which
/// counts as a packet, makes the health `streaming` and becomes the known
/// time. Gives the slots with new frames, in order; the last of them is the
/// newest frame.
pub fn refresh_stream_events(
    latest: &Vec<StreamEventStamp>,
    known: &mut Vec<(String, Option<u64>)>,
    packet_count: &mut u64,
    health: &mut String,
) -> (received: Vec<usize>)
    ensures
        received@ == new_slots(latest@, old(known)@, latest@.len() as int),
        *final(packet_count) == packets_after(latest@, old(known)@, *old(packet_count), latest@.len() as int),
        final(health)@ == (if received@.len() > 0 {
            "streaming"@
        } else {
            old(health)@
        }),
        forall|id: Seq<char>| #[trigger] flat(last_value(final(known)@, id)) == known_stamp(
            latest@,
            old(known)@,
            latest@.len() as int,
            id,
        ),
{
    let ghost k0 = known@;
    let ghost h0 = health@;
    let ghost p0 = *packet_count;
    let mut received: Vec<usize> = Vec::new();
    let mut i: usize = 0;
    while i < latest.len()
        invariant
            i <= latest.len(),
            received@ == new_slots(latest@, k0, i as int),
            *packet_count == packets_after(latest@, k0, p0, i as int),
            health@ == (if received@.len() > 0 {
                "streaming"@
            } else {
                h0
            }),
            forall|id: Seq<char>| #[trigger] flat(last_value(known@, id)) == known_stamp(latest@, k0, i as int, id),
        decreases latest.len() - i,
    {
        let slot = &latest[i];
        let previous: Option<u64> = match find_last_entry(known, slot.stream_id.as_str()) {
            Some(j) => {
                proof {
                    lemma_last_value_entry(known@, slot.stream_id@, j as int);
                }
                known[j].1
            },
            None => {
                proof {
                    lemma_last_value_absent(known@, slot.stream_id@);
                }
                None
            },
        };
        assert(flat(last_value(known@, slot.stream_id@)) == known_stamp(latest@, k0, i as int, slot.stream_id@));
        assert(previous == known_stamp(latest@, k0, i as int, slot.stream_id@));
        if previous != slot.last_event_at_ns {
            received.push(i);
            *packet_count = if *packet_count == u64::MAX {
                u64::MAX
            } else {
                *packet_count + 1
            };
            *health = crate::text::owned("streaming");
            let ghost before = known@;
            set_last_value(known, slot.stream_id.clone(), slot.last_event_at_ns);
            assert forall|id: Seq<char>| #[trigger] flat(last_value(known@, id)) == known_stamp(latest@, k0, i + 1, id) by {
                assert(last_value(known@, id) == (if id == slot.stream_id@ {
                    Some(slot.last_event_at_ns)
                } else {
                    last_value(before, id)
                }));
            }
        } else {
            assert forall|id: Seq<char>| #[trigger] flat(last_value(known@, id)) == known_stamp(latest@, k0, i + 1, id) by {
                assert(flat(last_value(known@, id)) == known_stamp(latest@, k0, i as int, id));
            }
        }
        i = i + 1;
    }
    received
}

} // verus!
