//! Counters of what the network outputs sent, skipped and failed, built
//! from the events their workers report.
use vstd::prelude::*;

use crate::text::concat;

verus! {

/// What the VMC output reported so far.
#[derive(Clone, Debug, PartialEq, Eq, Default)]
pub struct VmcOutputTelemetry {
    pub target_addr: Option<String>,
    pub sent_datagrams: u64,
    pub sent_packets: u64,
    pub error_count: u64,
    pub last_error: Option<String>,
}

/// What the Zenoh output reported so far.
#[derive(Clone, Debug, PartialEq, Eq, Default)]
pub struct ZenohOutputTelemetry {
    pub base_key_expr: Option<String>,
    pub sent_frames: u64,
    pub error_count: u64,
    pub last_error: Option<String>,
}

/// What the VRChat OSC output reported so far.
#[derive(Clone, Debug, PartialEq, Eq, Default)]
pub struct VrcOscOutputTelemetry {
    pub target_addr: Option<String>,
    /// Whether VRChat ran when the output last looked.
    pub vrchat_detected: bool,
    pub sent_datagrams: u64,
    pub sent_packets: u64,
    pub skipped_frames: u64,
    /// Frames held back because VRChat did not run.
    pub process_gate_blocked_frames: u64,
    pub error_count: u64,
    pub last_error: Option<String>,
}

/// The counters of each output that is configured.
#[derive(Clone, Debug, PartialEq, Eq, Default)]
pub struct OutputTelemetry {
    pub vmc: Option<VmcOutputTelemetry>,
    pub zenoh: Option<ZenohOutputTelemetry>,
    pub vrc_osc: Option<VrcOscOutputTelemetry>,
}

/// An event of the VMC output worker.
#[derive(Clone, Debug, PartialEq, Eq)]
pub enum VmcOutputEvent {
    Sent { datagrams: u64, packets: u64 },
    Error { message: String },
    Stopped,
}

/// An event of the Zenoh output worker.
#[derive(Clone, Debug, PartialEq, Eq)]
pub enum ZenohOutputEvent {
    Sent { frames: u64 },
    Error { message: String },
    Stopped,
}

/// An event of the VRChat OSC output worker.
#[derive(Clone, Debug, PartialEq, Eq)]
pub enum VrcOscOutputEvent {
    Sent { datagrams: u64, packets: u64, vrchat_detected: bool },
    Skipped { process_gate_blocked: bool, vrchat_detected: bool },
    Error { message: String },
    Stopped,
}

/// `a + b`, or `u64::MAX` where that does not fit.
pub open spec fn sat_add(a: u64, b: u64) -> u64 {
    if a + b > u64::MAX {
        u64::MAX
    } else {
        (a + b) as u64
    }
}

fn saturating_add(a: u64, b: u64) -> (r: u64)
    ensures
        r == sat_add(a, b),
{
    if a > u64::MAX - b {
        u64::MAX
    } else {
        a + b
    }
}

/// The health text and VMC counters after one event: sends add up, an
/// error counts, is kept and becomes the health text.
pub open spec fn vmc_step(
    health: Seq<char>,
    t: Option<VmcOutputTelemetry>,
    e: VmcOutputEvent,
) -> (Seq<char>, Option<VmcOutputTelemetry>) {
    match e {
        VmcOutputEvent::Sent { datagrams, packets } => (
            health,
            match t {
                Some(v) => Some(
                    VmcOutputTelemetry {
                        sent_datagrams: sat_add(v.sent_datagrams, datagrams),
                        sent_packets: sat_add(v.sent_packets, packets),
                        ..v
                    },
                ),
                None => None,
            },
        ),
        VmcOutputEvent::Error { message } => (
            "VMC output failed: "@ + message@,
            match t {
                Some(v) => Some(
                    VmcOutputTelemetry { error_count: sat_add(v.error_count, 1), last_error: Some(message), ..v },
                ),
                None => None,
            },
        ),
        VmcOutputEvent::Stopped => (health, t),
    }
}

/// The health text and VMC counters after the events, in order.
pub open spec fn vmc_drained(
    health: Seq<char>,
    t: Option<VmcOutputTelemetry>,
    events: Seq<VmcOutputEvent>,
) -> (Seq<char>, Option<VmcOutputTelemetry>)
    decreases events.len(),
{
    if events.len() == 0 {
        (health, t)
    } else {
        let (h, u) = vmc_drained(health, t, events.drop_last());
        vmc_step(h, u, events.last())
    }
}

/// The health text and Zenoh counters after one event.
pub open spec fn zenoh_step(
    health: Seq<char>,
    t: Option<ZenohOutputTelemetry>,
    e: ZenohOutputEvent,
) -> (Seq<char>, Option<ZenohOutputTelemetry>) {
    match e {
        ZenohOutputEvent::Sent { frames } => (
            health,
            match t {
                Some(z) => Some(ZenohOutputTelemetry { sent_frames: sat_add(z.sent_frames, frames), ..z }),
                None => None,
            },
        ),
        ZenohOutputEvent::Error { message } => (
            "Zenoh output failed: "@ + message@,
            match t {
                Some(z) => Some(
                    ZenohOutputTelemetry { error_count: sat_add(z.error_count, 1), last_error: Some(message), ..z },
                ),
                None => None,
            },
        ),
        ZenohOutputEvent::Stopped => (health, t),
    }
}

/// The health text and Zenoh counters after the events, in order.
pub open spec fn zenoh_drained(
    health: Seq<char>,
    t: Option<ZenohOutputTelemetry>,
    events: Seq<ZenohOutputEvent>,
) -> (Seq<char>, Option<ZenohOutputTelemetry>)
    decreases events.len(),
{
    if events.len() == 0 {
        (health, t)
    } else {
        let (h, u) = zenoh_drained(health, t, events.drop_last());
        zenoh_step(h, u, events.last())
    }
}

/// The health text and VRChat OSC counters after one event: sends add up
/// and skips count, both recording whether VRChat ran; an error counts, is
/// kept and becomes the health text.
pub open spec fn vrc_osc_step(
    health: Seq<char>,
    t: Option<VrcOscOutputTelemetry>,
    e: VrcOscOutputEvent,
) -> (Seq<char>, Option<VrcOscOutputTelemetry>) {
    match e {
        VrcOscOutputEvent::Sent { datagrams, packets, vrchat_detected } => (
            health,
            match t {
                Some(o) => Some(
                    VrcOscOutputTelemetry {
                        vrchat_detected,
                        sent_datagrams: sat_add(o.sent_datagrams, datagrams),
                        sent_packets: sat_add(o.sent_packets, packets),
                        ..o
                    },
                ),
                None => None,
            },
        ),
        VrcOscOutputEvent::Skipped { process_gate_blocked, vrchat_detected } => (
            health,
            match t {
                Some(o) => Some(
                    VrcOscOutputTelemetry {
                        vrchat_detected,
                        skipped_frames: sat_add(o.skipped_frames, 1),
                        process_gate_blocked_frames: if process_gate_blocked {
                            sat_add(o.process_gate_blocked_frames, 1)
                        } else {
                            o.process_gate_blocked_frames
                        },
                        ..o
                    },
                ),
                None => None,
            },
        ),
        VrcOscOutputEvent::Error { message } => (
            "VRC OSC output failed: "@ + message@,
            match t {
                Some(o) => Some(
                    VrcOscOutputTelemetry { error_count: sat_add(o.error_count, 1), last_error: Some(message), ..o },
                ),
                None => None,
            },
        ),
        VrcOscOutputEvent::Stopped => (health, t),
    }
}

/// The health text and VRChat OSC counters after the events, in order.
pub open spec fn vrc_osc_drained(
    health: Seq<char>,
    t: Option<VrcOscOutputTelemetry>,
    events: Seq<VrcOscOutputEvent>,
) -> (Seq<char>, Option<VrcOscOutputTelemetry>)
    decreases events.len(),
{
    if events.len() == 0 {
        (health, t)
    } else {
        let (h, u) = vrc_osc_drained(health, t, events.drop_last());
        vrc_osc_step(h, u, events.last())
    }
}

/// Takes the VMC output events that arrived, in order.
pub fn drain_output_messages(events: &Vec<VmcOutputEvent>, health: &mut String, output_telemetry: &mut OutputTelemetry)
    ensures
        (final(health)@, final(output_telemetry).vmc) == vmc_drained(old(health)@, old(output_telemetry).vmc, events@),
        final(output_telemetry).zenoh == old(output_telemetry).zenoh,
        final(output_telemetry).vrc_osc == old(output_telemetry).vrc_osc,
{
    let mut vmc = output_telemetry.vmc.take();
    let mut i: usize = 0;
    while i < events.len()
        invariant
            i <= events.len(),
            (health@, vmc) == vmc_drained(old(health)@, old(output_telemetry).vmc, events@.take(i as int)),
            output_telemetry.zenoh == old(output_telemetry).zenoh,
            output_telemetry.vrc_osc == old(output_telemetry).vrc_osc,
        decreases events.len() - i,
    {
        assert(events@.take(i as int + 1).drop_last() =~= events@.take(i as int));
        match &events[i] {
            VmcOutputEvent::Sent { datagrams, packets } => {
                vmc = match vmc {
                    Some(v) => Some(
                        VmcOutputTelemetry {
                            sent_datagrams: saturating_add(v.sent_datagrams, *datagrams),
                            sent_packets: saturating_add(v.sent_packets, *packets),
                            ..v
                        },
                    ),
                    None => None,
                };
            },
            VmcOutputEvent::Error { message } => {
                *health = concat("VMC output failed: ", message.as_str());
                vmc = match vmc {
                    Some(v) => Some(
                        VmcOutputTelemetry {
                            error_count: saturating_add(v.error_count, 1),
                            last_error: Some(message.clone()),
                            ..v
                        },
                    ),
                    None => None,
                };
            },
            VmcOutputEvent::Stopped => {},
        }
        i = i + 1;
    }
    assert(events@.take(events.len() as int) =~= events@);
    output_telemetry.vmc = vmc;
}

/// Takes the Zenoh output events that arrived, in order.
pub fn drain_zenoh_output_messages(events: &Vec<ZenohOutputEvent>, health: &mut String, output_telemetry: &mut OutputTelemetry)
    ensures
        (final(health)@, final(output_telemetry).zenoh) == zenoh_drained(old(health)@, old(output_telemetry).zenoh, events@),
        final(output_telemetry).vmc == old(output_telemetry).vmc,
        final(output_telemetry).vrc_osc == old(output_telemetry).vrc_osc,
{
    let mut zenoh = output_telemetry.zenoh.take();
    let mut i: usize = 0;
    while i < events.len()
        invariant
            i <= events.len(),
            (health@, zenoh) == zenoh_drained(old(health)@, old(output_telemetry).zenoh, events@.take(i as int)),
            output_telemetry.vmc == old(output_telemetry).vmc,
            output_telemetry.vrc_osc == old(output_telemetry).vrc_osc,
        decreases events.len() - i,
    {
        assert(events@.take(i as int + 1).drop_last() =~= events@.take(i as int));
        match &events[i] {
            ZenohOutputEvent::Sent { frames } => {
                zenoh = match zenoh {
                    Some(z) => Some(ZenohOutputTelemetry { sent_frames: saturating_add(z.sent_frames, *frames), ..z }),
                    None => None,
                };
            },
            ZenohOutputEvent::Error { message } => {
                *health = concat("Zenoh output failed: ", message.as_str());
                zenoh = match zenoh {
                    Some(z) => Some(
                        ZenohOutputTelemetry {
                            error_count: saturating_add(z.error_count, 1),
                            last_error: Some(message.clone()),
                            ..z
                        },
                    ),
                    None => None,
                };
            },
            ZenohOutputEvent::Stopped => {},
        }
        i = i + 1;
    }
    assert(events@.take(events.len() as int) =~= events@);
    output_telemetry.zenoh = zenoh;
}

/// Takes the VRChat OSC output events that arrived, in order.
pub fn drain_vrc_osc_output_messages(
    events: &Vec<VrcOscOutputEvent>,
    health: &mut String,
    output_telemetry: &mut OutputTelemetry,
)
    ensures
        (final(health)@, final(output_telemetry).vrc_osc) == vrc_osc_drained(
            old(health)@,
            old(output_telemetry).vrc_osc,
            events@,
        ),
        final(output_telemetry).vmc == old(output_telemetry).vmc,
        final(output_telemetry).zenoh == old(output_telemetry).zenoh,
{
    let mut vrc = output_telemetry.vrc_osc.take();
    let mut i: usize = 0;
    while i < events.len()
        invariant
            i <= events.len(),
            (health@, vrc) == vrc_osc_drained(old(health)@, old(output_telemetry).vrc_osc, events@.take(i as int)),
            output_telemetry.vmc == old(output_telemetry).vmc,
            output_telemetry.zenoh == old(output_telemetry).zenoh,
        decreases events.len() - i,
    {
        assert(events@.take(i as int + 1).drop_last() =~= events@.take(i as int));
        match &events[i] {
            VrcOscOutputEvent::Sent { datagrams, packets, vrchat_detected } => {
                vrc = match vrc {
                    Some(o) => Some(
                        VrcOscOutputTelemetry {
                            vrchat_detected: *vrchat_detected,
                            sent_datagrams: saturating_add(o.sent_datagrams, *datagrams),
                            sent_packets: saturating_add(o.sent_packets, *packets),
                            ..o
                        },
                    ),
                    None => None,
                };
            },
            VrcOscOutputEvent::Skipped { process_gate_blocked, vrchat_detected } => {
                vrc = match vrc {
                    Some(o) => {
                        let blocked = if *process_gate_blocked {
                            saturating_add(o.process_gate_blocked_frames, 1)
                        } else {
                            o.process_gate_blocked_frames
                        };
                        Some(
                            VrcOscOutputTelemetry {
                                vrchat_detected: *vrchat_detected,
                                skipped_frames: saturating_add(o.skipped_frames, 1),
                                process_gate_blocked_frames: blocked,
                                ..o
                            },
                        )
                    },
                    None => None,
                };
            },
            VrcOscOutputEvent::Error { message } => {
                *health = concat("VRC OSC output failed: ", message.as_str());
                vrc = match vrc {
                    Some(o) => Some(
                        VrcOscOutputTelemetry {
                            error_count: saturating_add(o.error_count, 1),
                            last_error: Some(message.clone()),
                            ..o
                        },
                    ),
                    None => None,
                };
            },
            VrcOscOutputEvent::Stopped => {},
        }
        i = i + 1;
    }
    assert(events@.take(events.len() as int) =~= events@);
    output_telemetry.vrc_osc = vrc;
}

/// Counters at zero for the outputs that run: VMC and VRChat OSC with their
/// target addresses, Zenoh with its base key expression.
pub fn initial_output_telemetry(
    vmc_target_addr: Option<String>,
    zenoh_base_key_expr: Option<String>,
    vrc_osc_target_addr: Option<String>,
) -> (r: OutputTelemetry)
    ensures
        r.vmc == (match vmc_target_addr {
            Some(a) => Some(
                VmcOutputTelemetry {
                    target_addr: Some(a),
                    sent_datagrams: 0,
                    sent_packets: 0,
                    error_count: 0,
                    last_error: None,
                },
            ),
            None => None,
        }),
        r.zenoh == (match zenoh_base_key_expr {
            Some(k) => Some(
                ZenohOutputTelemetry { base_key_expr: Some(k), sent_frames: 0, error_count: 0, last_error: None },
            ),
            None => None,
        }),
        r.vrc_osc == (match vrc_osc_target_addr {
            Some(a) => Some(
                VrcOscOutputTelemetry {
                    target_addr: Some(a),
                    vrchat_detected: false,
                    sent_datagrams: 0,
                    sent_packets: 0,
                    skipped_frames: 0,
                    process_gate_blocked_frames: 0,
                    error_count: 0,
                    last_error: None,
                },
            ),
            None => None,
        }),
{
    OutputTelemetry {
        vmc: match vmc_target_addr {
            Some(a) => Some(
                VmcOutputTelemetry {
                    target_addr: Some(a),
                    sent_datagrams: 0,
                    sent_packets: 0,
                    error_count: 0,
                    last_error: None,
                },
            ),
            None => None,
        },
        zenoh: match zenoh_base_key_expr {
            Some(k) => Some(
                ZenohOutputTelemetry { base_key_expr: Some(k), sent_frames: 0, error_count: 0, last_error: None },
            ),
            None => None,
        },
        vrc_osc: match vrc_osc_target_addr {
            Some(a) => Some(
                VrcOscOutputTelemetry {
                    target_addr: Some(a),
                    vrchat_detected: false,
                    sent_datagrams: 0,
                    sent_packets: 0,
                    skipped_frames: 0,
                    process_gate_blocked_frames: 0,
                    error_count: 0,
                    last_error: None,
                },
            ),
            None => None,
        },
    }
}

} // verus!
