//! The control state of a core process: its runtime status, its profiles,
//! and the decisions that starting, stopping and switching profiles take.
//!
//! The runtime itself (worker threads, devices, network outputs) lives
//! outside this module; each operation here says what the status becomes and
//! what the caller must do with the runtime.
use vstd::prelude::*;

use crate::text::{owned, str_eq};

verus! {

/// The runtime status the API reports.
#[derive(Clone, Debug, PartialEq, Eq)]
pub struct RuntimeStatus {
    pub running: bool,
    pub health: String,
    pub active_profile_id: String,
    pub frame_count: u64,
    pub packet_count: u64,
    pub updated_at_ms: u64,
}

impl RuntimeStatus {
    /// A stopped runtime on `active_profile_id`, stamped `now_ms`.
    pub fn stopped(active_profile_id: String, now_ms: u64) -> (r: Self)
        ensures
            !r.running,
            r.health@ == "stopped"@,
            r.active_profile_id == active_profile_id,
            r.frame_count == 0,
            r.packet_count == 0,
            r.updated_at_ms == now_ms,
    {
        RuntimeStatus {
            running: false,
            health: owned("stopped"),
            active_profile_id,
            frame_count: 0,
            packet_count: 0,
            updated_at_ms: now_ms,
        }
    }
}

/// The events the API streams.
#[derive(Clone, Copy, Debug, PartialEq, Eq, Structural)]
pub enum CoreEventKind {
    RuntimeStarted,
    RuntimeStopped,
    ActiveProfileChanged,
    Snapshot,
}

impl CoreEventKind {
    pub open spec fn spec_sse_name(self) -> Seq<char> {
        match self {
            CoreEventKind::RuntimeStarted => "runtime-started"@,
            CoreEventKind::RuntimeStopped => "runtime-stopped"@,
            CoreEventKind::ActiveProfileChanged => "active-profile-changed"@,
            CoreEventKind::Snapshot => "snapshot"@,
        }
    }

    /// The event name a server-sent event of this kind carries.
    pub fn sse_name(&self) -> (r: &'static str)
        ensures
            r@ == self.spec_sse_name(),
    {
        match self {
            CoreEventKind::RuntimeStarted => "runtime-started",
            CoreEventKind::RuntimeStopped => "runtime-stopped",
            CoreEventKind::ActiveProfileChanged => "active-profile-changed",
            CoreEventKind::Snapshot => "snapshot",
        }
    }
}

/// A profile as the API lists it.
#[derive(Clone, Debug, PartialEq, Eq)]
pub struct CoreProfile {
    pub id: String,
    pub name: String,
    pub note: String,
    pub icon_path: Option<String>,
    pub group: String,
    pub engine: Option<String>,
}

/// A request to make a profile the active one.
#[derive(Clone, Debug, PartialEq, Eq)]
pub struct ActiveProfileRequest {
    pub profile_id: String,
}

/// What the runtime reports about itself while it runs.
#[derive(Clone, Debug, PartialEq, Eq)]
pub struct RuntimeStatusUpdate {
    pub active_profile_id: String,
    pub running: bool,
    pub health: String,
    pub frame_count: u64,
    pub packet_count: u64,
    pub has_snapshot: bool,
}

/// What a request to start the runtime asks of the caller.
#[derive(Clone, Copy, Debug, PartialEq, Eq, Structural)]
pub enum StartDecision {
    /// A runtime already runs: report the current status.
    AlreadyRunning,
    /// Build the runtime for the current document and report the outcome.
    Spawn,
}

/// What a request for an active profile asks of the caller.
#[derive(Clone, Copy, Debug, PartialEq, Eq, Structural)]
pub enum ActiveProfileDecision {
    /// The profile is active and running already: report the current status.
    Unchanged,
    /// No listed profile has the id.
    NotFound,
    /// Select the profile in the document, save it, then apply it.
    Switch,
}

/// The control state of a core process.
pub struct CoreControlCore {
    pub status: RuntimeStatus,
    pub profiles: Vec<CoreProfile>,
    /// Whether a runtime is up.
    pub host_running: bool,
    /// Whether the last runtime status carried a snapshot.
    pub has_snapshot: bool,
    /// The sequence number the next event gets.
    pub next_event_sequence: u64,
}

/// Whether some listed profile has the id.
pub open spec fn lists_profile(profiles: Seq<CoreProfile>, id: Seq<char>) -> bool {
    exists|i: int| 0 <= i < profiles.len() && profiles[i].id@ == id
}

/// The decision for a request to make `id` the active profile.
pub open spec fn active_profile_decision(c: CoreControlCore, id: Seq<char>) -> ActiveProfileDecision {
    if c.status.active_profile_id@ == id && c.status.running && c.host_running {
        ActiveProfileDecision::Unchanged
    } else if !lists_profile(c.profiles@, id) {
        ActiveProfileDecision::NotFound
    } else {
        ActiveProfileDecision::Switch
    }
}

impl CoreControlCore {
    /// A stopped core listing `profiles` with `selected_profile_id` active.
    pub fn new(profiles: Vec<CoreProfile>, selected_profile_id: String, now_ms: u64) -> (r: Self)
        ensures
            r.profiles == profiles,
            r.status.active_profile_id == selected_profile_id,
            !r.status.running,
            r.status.health@ == "stopped"@,
            r.status.frame_count == 0,
            r.status.packet_count == 0,
            r.status.updated_at_ms == now_ms,
            !r.host_running,
            !r.has_snapshot,
            r.next_event_sequence == 1,
    {
        CoreControlCore {
            status: RuntimeStatus::stopped(selected_profile_id, now_ms),
            profiles,
            host_running: false,
            has_snapshot: false,
            next_event_sequence: 1,
        }
    }

    /// The sequence number for the next event; later events get larger ones.
    pub fn take_event_sequence(&mut self) -> (r: u64)
        requires
            old(self).next_event_sequence < u64::MAX,
        ensures
            r == old(self).next_event_sequence,
            final(self).next_event_sequence == r + 1,
            final(self).status == old(self).status,
            final(self).profiles == old(self).profiles,
            final(self).host_running == old(self).host_running,
            final(self).has_snapshot == old(self).has_snapshot,
    {
        let r = self.next_event_sequence;
        self.next_event_sequence = r + 1;
        r
    }

    /// Whether a start request builds a runtime.
    pub fn begin_start(&self) -> (r: StartDecision)
        ensures
            r == (if self.host_running {
                StartDecision::AlreadyRunning
            } else {
                StartDecision::Spawn
            }),
    {
        if self.host_running {
            StartDecision::AlreadyRunning
        } else {
            StartDecision::Spawn
        }
    }

    /// Records how building the runtime went: running with zeroed counters, or
    /// stopped with `failed: <reason>`. Gives the event to emit.
    pub fn finish_start(&mut self, outcome: Result<(), String>, now_ms: u64) -> (r: CoreEventKind)
        ensures
            final(self).profiles == old(self).profiles,
            final(self).status.active_profile_id == old(self).status.active_profile_id,
            final(self).status.updated_at_ms == now_ms,
            final(self).next_event_sequence == old(self).next_event_sequence,
            match outcome {
                Ok(()) => {
                    &&& final(self).host_running
                    &&& final(self).status.running
                    &&& final(self).status.health@ == "running"@
                    &&& final(self).status.frame_count == 0
                    &&& final(self).status.packet_count == 0
                    &&& final(self).has_snapshot == old(self).has_snapshot
                    &&& r == CoreEventKind::RuntimeStarted
                },
                Err(reason) => {
                    &&& final(self).host_running == old(self).host_running
                    &&& !final(self).status.running
                    &&& final(self).status.health@ == "failed: "@ + reason@
                    &&& final(self).status.frame_count == old(self).status.frame_count
                    &&& final(self).status.packet_count == old(self).status.packet_count
                    &&& !final(self).has_snapshot
                    &&& r == CoreEventKind::RuntimeStopped
                },
            },
    {
        match outcome {
            Ok(()) => {
                self.host_running = true;
                self.status.running = true;
                self.status.health = owned("running");
                self.status.frame_count = 0;
                self.status.packet_count = 0;
                self.status.updated_at_ms = now_ms;
                CoreEventKind::RuntimeStarted
            },
            Err(reason) => {
                let mut health = owned("failed: ");
                health.append(reason.as_str());
                self.status.running = false;
                self.status.health = health;
                self.has_snapshot = false;
                self.status.updated_at_ms = now_ms;
                CoreEventKind::RuntimeStopped
            },
        }
    }

    /// Stops the runtime, if one runs. Gives whether one ran, and the event
    /// to emit.
    pub fn stop(&mut self, now_ms: u64) -> (r: (bool, CoreEventKind))
        ensures
            r.0 == old(self).host_running,
            r.1 == CoreEventKind::RuntimeStopped,
            !final(self).host_running,
            !final(self).status.running,
            final(self).status.health@ == "stopped"@,
            !final(self).has_snapshot,
            final(self).status.updated_at_ms == now_ms,
            final(self).status.active_profile_id == old(self).status.active_profile_id,
            final(self).status.frame_count == old(self).status.frame_count,
            final(self).status.packet_count == old(self).status.packet_count,
            final(self).profiles == old(self).profiles,
            final(self).next_event_sequence == old(self).next_event_sequence,
    {
        let was_running = self.host_running;
        self.host_running = false;
        self.status.running = false;
        self.status.health = owned("stopped");
        self.has_snapshot = false;
        self.status.updated_at_ms = now_ms;
        (was_running, CoreEventKind::RuntimeStopped)
    }

    /// Whether a request to make `profile_id` active changes anything.
    pub fn request_active_profile(&self, profile_id: &str) -> (r: ActiveProfileDecision)
        ensures
            r == active_profile_decision(*self, profile_id@),
    {
        if str_eq(self.status.active_profile_id.as_str(), profile_id) && self.status.running
            && self.host_running {
            return ActiveProfileDecision::Unchanged;
        }
        let mut i: usize = 0;
        while i < self.profiles.len()
            invariant
                i <= self.profiles.len(),
                !(self.status.active_profile_id@ == profile_id@ && self.status.running
                    && self.host_running),
                forall|j: int| 0 <= j < i ==> self.profiles@[j].id@ != profile_id@,
            decreases self.profiles.len() - i,
        {
            if str_eq(self.profiles[i].id.as_str(), profile_id) {
                assert(self.profiles@[i as int].id@ == profile_id@);
                return ActiveProfileDecision::Switch;
            }
            i = i + 1;
        }
        ActiveProfileDecision::NotFound
    }

    /// Takes a saved document's profiles and selection. A running runtime is
    /// stopped and the status reads `restarting` with zeroed counters; the
    /// result says whether the caller must start the runtime again.
    fn apply_selection(&mut self, profiles: Vec<CoreProfile>, selected_profile_id: String, now_ms: u64) -> (restart: bool)
        ensures
            restart == old(self).host_running,
            !final(self).host_running,
            final(self).profiles == profiles,
            final(self).status.active_profile_id == selected_profile_id,
            final(self).status.updated_at_ms == now_ms,
            final(self).next_event_sequence == old(self).next_event_sequence,
            restart ==> {
                &&& !final(self).status.running
                &&& final(self).status.health@ == "restarting"@
                &&& final(self).status.frame_count == 0
                &&& final(self).status.packet_count == 0
                &&& !final(self).has_snapshot
            },
            !restart ==> {
                &&& final(self).status.running == old(self).status.running
                &&& final(self).status.health == old(self).status.health
                &&& final(self).status.frame_count == old(self).status.frame_count
                &&& final(self).status.packet_count == old(self).status.packet_count
                &&& final(self).has_snapshot == old(self).has_snapshot
            },
    {
        let was_running = self.host_running;
        self.host_running = false;
        self.profiles = profiles;
        self.status.active_profile_id = selected_profile_id;
        if was_running {
            self.status.running = false;
            self.status.health = owned("restarting");
            self.status.frame_count = 0;
            self.status.packet_count = 0;
            self.has_snapshot = false;
        }
        self.status.updated_at_ms = now_ms;
        was_running
    }

    /// Applies a switch of the active profile after the document was saved
    /// with `selected_profile_id` selected. Gives whether the runtime must be
    /// started again, and the event to emit.
    pub fn switch_active_profile(
        &mut self,
        profiles: Vec<CoreProfile>,
        selected_profile_id: String,
        now_ms: u64,
    ) -> (r: (bool, CoreEventKind))
        ensures
            r.0 == old(self).host_running,
            r.1 == CoreEventKind::ActiveProfileChanged,
            !final(self).host_running,
            final(self).profiles == profiles,
            final(self).status.active_profile_id == selected_profile_id,
            final(self).status.updated_at_ms == now_ms,
            r.0 ==> !final(self).status.running && final(self).status.health@ == "restarting"@
                && final(self).status.frame_count == 0 && final(self).status.packet_count == 0,
            !r.0 ==> final(self).status.running == old(self).status.running
                && final(self).status.health == old(self).status.health,
    {
        let restart = self.apply_selection(profiles, selected_profile_id, now_ms);
        (restart, CoreEventKind::ActiveProfileChanged)
    }

    /// Applies a new profile document after it was saved. Gives whether the
    /// runtime must be started again, and the event to emit.
    pub fn replace_document(
        &mut self,
        profiles: Vec<CoreProfile>,
        selected_profile_id: String,
        now_ms: u64,
    ) -> (r: (bool, CoreEventKind))
        ensures
            r.0 == old(self).host_running,
            r.1 == CoreEventKind::Snapshot,
            !final(self).host_running,
            final(self).profiles == profiles,
            final(self).status.active_profile_id == selected_profile_id,
            final(self).status.updated_at_ms == now_ms,
            r.0 ==> !final(self).status.running && final(self).status.health@ == "restarting"@
                && final(self).status.frame_count == 0 && final(self).status.packet_count == 0,
            !r.0 ==> final(self).status.running == old(self).status.running
                && final(self).status.health == old(self).status.health,
    {
        let restart = self.apply_selection(profiles, selected_profile_id, now_ms);
        (restart, CoreEventKind::Snapshot)
    }

    /// Takes a status report of the runtime, unless it speaks of another profile.
    pub fn apply_runtime_update(&mut self, update: RuntimeStatusUpdate, now_ms: u64)
        ensures
            final(self).profiles == old(self).profiles,
            final(self).host_running == old(self).host_running,
            final(self).next_event_sequence == old(self).next_event_sequence,
            update.active_profile_id@ != old(self).status.active_profile_id@ ==> final(self).status
                == old(self).status && final(self).has_snapshot == old(self).has_snapshot,
            update.active_profile_id@ == old(self).status.active_profile_id@ ==> {
                &&& final(self).status.running == update.running
                &&& final(self).status.health == update.health
                &&& final(self).status.frame_count == update.frame_count
                &&& final(self).status.packet_count == update.packet_count
                &&& final(self).has_snapshot == update.has_snapshot
                &&& final(self).status.updated_at_ms == now_ms
                &&& final(self).status.active_profile_id == old(self).status.active_profile_id
            },
    {
        if !str_eq(self.status.active_profile_id.as_str(), update.active_profile_id.as_str()) {
            return ;
        }
        self.status.running = update.running;
        self.status.health = update.health;
        self.status.frame_count = update.frame_count;
        self.status.packet_count = update.packet_count;
        self.has_snapshot = update.has_snapshot;
        self.status.updated_at_ms = now_ms;
    }
}

/// Law: asking for the profile that is active while its runtime runs
/// changes nothing, whatever the profile list holds.
pub proof fn law_active_profile_request_is_idempotent(c: CoreControlCore)
    requires
        c.status.running,
        c.host_running,
    ensures
        active_profile_decision(c, c.status.active_profile_id@) == ActiveProfileDecision::Unchanged,
{
}

/// Law: a profile that is neither listed nor the running active one is refused.
pub proof fn law_unknown_profile_is_refused(c: CoreControlCore, id: Seq<char>)
    requires
        !lists_profile(c.profiles@, id),
        !(c.status.active_profile_id@ == id && c.status.running && c.host_running),
    ensures
        active_profile_decision(c, id) == ActiveProfileDecision::NotFound,
{
}

/// How many steps of `steps` took an event sequence number.
pub open spec fn events_taken(steps: Seq<Option<u64>>) -> nat
    decreases steps.len(),
{
    if steps.len() == 0 {
        0
    } else {
        events_taken(steps.drop_last()) + if steps.last() is Some {
            1nat
        } else {
            0nat
        }
    }
}

/// Whether `counters` are the next event numbers of a core before and after
/// each of `steps`: a step that took a number (`take_event_sequence`) took
/// the counter and advanced it by one; any other step of the core left it.
pub open spec fn event_counter_trace(counters: Seq<u64>, steps: Seq<Option<u64>>) -> bool {
    &&& counters.len() == steps.len() + 1
    &&& forall|i: int|
        0 <= i < steps.len() ==> match #[trigger] steps[i] {
            Some(q) => q == counters[i] && counters[i + 1] == q + 1,
            None => counters[i + 1] == counters[i],
        }
}

/// Law: the events a core builds are numbered in the order they are built,
/// one apart with no event built between them, and no number is used twice;
/// on a new core (whose counter is 1) the first event is number 1.
pub proof fn law_event_sequences_are_consecutive(counters: Seq<u64>, steps: Seq<Option<u64>>)
    requires
        event_counter_trace(counters, steps),
    ensures
        forall|j: int| 0 <= j < counters.len() ==> #[trigger] counters[j] == counters[0] + events_taken(steps.take(j)),
        forall|j: int|
            0 <= j < steps.len() && #[trigger] steps[j] is Some ==> steps[j]->0 == counters[0] + events_taken(
                steps.take(j),
            ),
        forall|i: int, j: int|
            0 <= i < j < steps.len() && #[trigger] steps[i] is Some && #[trigger] steps[j] is Some ==> steps[i]->0
                < steps[j]->0,
{
    assert forall|j: int| 0 <= j < counters.len() implies #[trigger] counters[j] == counters[0] + events_taken(
        steps.take(j),
    ) by {
        lemma_counter_at(counters, steps, j);
    }
    assert forall|i: int, j: int|
        0 <= i < j < steps.len() && #[trigger] steps[i] is Some && #[trigger] steps[j] is Some implies steps[i]->0
            < steps[j]->0 by {
        lemma_counter_at(counters, steps, i + 1);
        lemma_counter_at(counters, steps, j);
        lemma_counter_monotone(counters, steps, i + 1, j);
    }
}

proof fn lemma_counter_at(counters: Seq<u64>, steps: Seq<Option<u64>>, j: int)
    requires
        event_counter_trace(counters, steps),
        0 <= j < counters.len(),
    ensures
        counters[j] == counters[0] + events_taken(steps.take(j)),
    decreases j,
{
    if j == 0 {
        assert(steps.take(0) =~= Seq::<Option<u64>>::empty());
    } else {
        lemma_counter_at(counters, steps, j - 1);
        assert(steps.take(j).drop_last() =~= steps.take(j - 1));
        assert(steps.take(j).last() == steps[j - 1]);
        match steps[j - 1] {
            Some(q) => {},
            None => {},
        }
    }
}

proof fn lemma_counter_monotone(counters: Seq<u64>, steps: Seq<Option<u64>>, a: int, b: int)
    requires
        event_counter_trace(counters, steps),
        0 <= a <= b < counters.len(),
    ensures
        counters[a] <= counters[b],
    decreases b - a,
{
    if a < b {
        lemma_counter_monotone(counters, steps, a, b - 1);
        match steps[b - 1] {
            Some(q) => {},
            None => {},
        }
    }
}

} // verus!

