//! The supervisor's book of capturer processes, kept in id order: which
//! capturer a launch request reuses, the command line a new one gets, how
//! an exit changes a record, and how much stopped history is kept.
use vstd::prelude::*;

use crate::server_rules::{decimal_chars, decimal_digits};
use crate::supervisor::{CapturerInstance, CapturerState};
use crate::supervisor::exe_suffix_of;
use crate::text::{chars_of, ends_with, has_prefix, has_suffix, owned, starts_with, string_of, trim, trim_chars};

verus! {

/// Stopped capturers whose records are kept.
pub const MAX_STOPPED_CAPTURER_HISTORY: usize = 20;

/// The profile a launch request names: trimmed, none where blank.
pub open spec fn profile_key_of(profile_id: Option<Seq<char>>) -> Option<Seq<char>> {
    match profile_id {
        Some(p) => if trim(p).len() == 0 {
            None
        } else {
            Some(trim(p))
        },
        None => None,
    }
}

/// The profile a launch request names.
pub fn resolve_profile_key(profile_id: Option<&str>) -> (r: Option<String>)
    ensures
        match r {
            Some(s) => profile_key_of(match profile_id {
                Some(p) => Some(p@),
                None => None,
            }) == Some(s@),
            None => profile_key_of(match profile_id {
                Some(p) => Some(p@),
                None => None,
            }) is None,
        },
{
    match profile_id {
        Some(p) => {
            let v = chars_of(p);
            let t = trim_chars(&v);
            if t.len() == 0 {
                None
            } else {
                Some(string_of(&t))
            }
        },
        None => None,
    }
}

/// Whether a capturer is starting, running or stopping.
pub open spec fn is_live(state: CapturerState) -> bool {
    state == CapturerState::Starting || state == CapturerState::Running || state == CapturerState::Stopping
}

/// Whether a record is a live capturer for the profile `key` (for no
/// profile where `key` is none).
pub open spec fn serves(c: CapturerInstance, key: Option<Seq<char>>) -> bool {
    is_live(c.state) && match (c.profile_id, key) {
        (Some(p), Some(k)) => p@ == k,
        (None, None) => true,
        _ => false,
    }
}

/// The first live capturer, in id order, that serves the profile `key`.
pub fn find_live_capturer(capturers: &Vec<CapturerInstance>, key: &Option<String>) -> (r: Option<usize>)
    ensures
        match r {
            Some(i) => i < capturers.len() && serves(capturers@[i as int], text_view(*key))
                && forall|j: int| 0 <= j < i ==> !serves(#[trigger] capturers@[j], text_view(*key)),
            None => forall|j: int| 0 <= j < capturers.len() ==> !serves(#[trigger] capturers@[j], text_view(*key)),
        },
{
    let mut i: usize = 0;
    while i < capturers.len()
        invariant
            i <= capturers.len(),
            forall|j: int| 0 <= j < i ==> !serves(#[trigger] capturers@[j], text_view(*key)),
        decreases capturers.len() - i,
    {
        let c = &capturers[i];
        let live = match c.state {
            CapturerState::Starting | CapturerState::Running | CapturerState::Stopping => true,
            _ => false,
        };
        if live {
            let same = match (&c.profile_id, key) {
                (Some(p), Some(k)) => crate::text::str_eq(p.as_str(), k.as_str()),
                (None, None) => true,
                _ => false,
            };
            if same {
                return Some(i);
            }
        }
        i = i + 1;
    }
    None
}

/// What a launch request does with the capturer book.
#[derive(Clone, Debug, PartialEq, Eq)]
pub enum LaunchAction {
    /// Answer with the live capturer at this index, which already serves
    /// the profile.
    Reuse(usize),
    /// Start a new capturer for the profile key (none for no profile).
    Spawn { profile_key: Option<String> },
}

/// The profile key a launch request for `profile_id` resolves to.
pub open spec fn launch_key_of(profile_id: Option<&str>) -> Option<Seq<char>> {
    profile_key_of(match profile_id {
        Some(p) => Some(p@),
        None => None,
    })
}

/// The decision a launch request for `profile_id` takes: reuse the first
/// live capturer, in id order, that serves its profile key, else start a
/// new one for that key.
pub fn launch_step(capturers: &Vec<CapturerInstance>, profile_id: Option<&str>) -> (r: LaunchAction)
    ensures
        match r {
            LaunchAction::Reuse(i) => {
                &&& i < capturers.len()
                &&& serves(capturers@[i as int], launch_key_of(profile_id))
                &&& forall|j: int| 0 <= j < i ==> !serves(#[trigger] capturers@[j], launch_key_of(profile_id))
            },
            LaunchAction::Spawn { profile_key } => {
                &&& text_view(profile_key) == launch_key_of(profile_id)
                &&& forall|j: int|
                    0 <= j < capturers.len() ==> !serves(#[trigger] capturers@[j], launch_key_of(profile_id))
            },
        },
{
    let key = resolve_profile_key(profile_id);
    assert(text_view(key) == launch_key_of(profile_id));
    match find_live_capturer(capturers, &key) {
        Some(i) => LaunchAction::Reuse(i),
        None => LaunchAction::Spawn { profile_key: key },
    }
}

/// The view of an optional text.
pub open spec fn text_view(o: Option<String>) -> Option<Seq<char>> {
    match o {
        Some(s) => Some(s@),
        None => None,
    }
}

/// The arguments a new capturer starts with: its API address and worker
/// count, the non-loopback override where asked, its profile where one is
/// named, and its tray.
pub open spec fn capturer_args_of(
    bind_addr: Seq<char>,
    allow_non_loopback: bool,
    active_profile: Option<Seq<char>>,
    api_worker_threads: u64,
) -> Seq<Seq<char>> {
    let base = seq!["--bind"@, bind_addr, "--api-workers"@, decimal_digits(api_worker_threads)];
    let with_override = if allow_non_loopback {
        base.push("--allow-non-loopback"@)
    } else {
        base
    };
    let with_profile = match active_profile {
        Some(p) => if trim(p).len() == 0 {
            with_override
        } else {
            with_override.push("--active-profile"@).push(p)
        },
        None => with_override,
    };
    with_profile.push("--with-tray=true"@)
}

/// The views of a list of texts.
pub open spec fn texts_view(v: Seq<String>) -> Seq<Seq<char>> {
    v.map_values(|s: String| s@)
}

/// The arguments a new capturer starts with.
pub fn capturer_args(
    bind_addr: &str,
    allow_non_loopback: bool,
    active_profile: Option<&str>,
    api_worker_threads: u64,
) -> (r: Vec<String>)
    ensures
        texts_view(r@) == capturer_args_of(
            bind_addr@,
            allow_non_loopback,
            match active_profile {
                Some(p) => Some(p@),
                None => None,
            },
            api_worker_threads,
        ),
{
    let mut args: Vec<String> = Vec::new();
    args.push(owned("--bind"));
    args.push(owned(bind_addr));
    args.push(owned("--api-workers"));
    args.push(string_of(&decimal_chars(api_worker_threads)));
    if allow_non_loopback {
        args.push(owned("--allow-non-loopback"));
    }
    match active_profile {
        Some(p) => {
            let v = chars_of(p);
            let t = trim_chars(&v);
            if t.len() > 0 {
                args.push(owned("--active-profile"));
                args.push(owned(p));
            }
        },
        None => {},
    }
    args.push(owned("--with-tray=true"));
    assert(texts_view(args@) =~= capturer_args_of(
        bind_addr@,
        allow_non_loopback,
        match active_profile {
            Some(p) => Some(p@),
            None => None,
        },
        api_worker_threads,
    ));
    args
}

/// The arguments `cargo` gets to build and run a capturer from the
/// workspace, where no capturer executable is found: `run -q -p
/// un-motion-capturer --bin un-motion-capturer --`, then the capturer's own.
pub open spec fn cargo_run_args_of(
    bind_addr: Seq<char>,
    allow_non_loopback: bool,
    active_profile: Option<Seq<char>>,
    api_worker_threads: u64,
) -> Seq<Seq<char>> {
    seq!["run"@, "-q"@, "-p"@, "un-motion-capturer"@, "--bin"@, "un-motion-capturer"@, "--"@]
        + capturer_args_of(bind_addr, allow_non_loopback, active_profile, api_worker_threads)
}

/// The arguments `cargo` gets to run a capturer from the workspace.
pub fn cargo_run_capturer_args(
    bind_addr: &str,
    allow_non_loopback: bool,
    active_profile: Option<&str>,
    api_worker_threads: u64,
) -> (r: Vec<String>)
    ensures
        texts_view(r@) == cargo_run_args_of(
            bind_addr@,
            allow_non_loopback,
            match active_profile {
                Some(p) => Some(p@),
                None => None,
            },
            api_worker_threads,
        ),
{
    let mut args: Vec<String> = Vec::new();
    args.push(owned("run"));
    args.push(owned("-q"));
    args.push(owned("-p"));
    args.push(owned("un-motion-capturer"));
    args.push(owned("--bin"));
    args.push(owned("un-motion-capturer"));
    args.push(owned("--"));
    let ghost prefix = texts_view(args@);
    let tail = capturer_args(bind_addr, allow_non_loopback, active_profile, api_worker_threads);
    let mut i: usize = 0;
    while i < tail.len()
        invariant
            i <= tail.len(),
            texts_view(args@) == prefix + texts_view(tail@).take(i as int),
        decreases tail.len() - i,
    {
        let ghost before = args@;
        args.push(owned(tail[i].as_str()));
        assert(texts_view(args@) =~= texts_view(before).push(tail@[i as int]@));
        assert(texts_view(tail@).take(i as int + 1) =~= texts_view(tail@).take(i as int).push(tail@[i as int]@));
        i = i + 1;
    }
    assert(texts_view(tail@).take(tail.len() as int) =~= texts_view(tail@));
    args
}

/// The id the next capturer gets: one past the last, saturating.
pub fn next_capturer_id(last_id: u32) -> (r: u32)
    ensures
        r == (if last_id == u32::MAX {
            u32::MAX
        } else {
            (last_id + 1) as u32
        }),
{
    if last_id == 0xffff_ffff {
        0xffff_ffff
    } else {
        last_id + 1
    }
}

/// The display name of capturer `id`: `Capturer #` and its id.
pub open spec fn capturer_name_of(id: u32) -> Seq<char> {
    "Capturer #"@ + decimal_digits(id as u64)
}

fn capturer_name(id: u32) -> (r: String)
    ensures
        r@ == capturer_name_of(id),
{
    let mut v = chars_of("Capturer #");
    let digits = decimal_chars(id as u64);
    let ghost head = v@;
    let mut i: usize = 0;
    while i < digits.len()
        invariant
            i <= digits.len(),
            v@ == head + digits@.take(i as int),
        decreases digits.len() - i,
    {
        v.push(digits[i]);
        assert(digits@.take(i as int + 1) =~= digits@.take(i as int).push(digits@[i as int]));
        i = i + 1;
    }
    assert(digits@.take(digits.len() as int) =~= digits@);
    string_of(&v)
}

/// The record of a capturer that answered its health check.
pub fn launched_capturer(id: u32, pid: u32, bind_addr: String, profile_id: Option<String>) -> (r: CapturerInstance)
    ensures
        r.id == id,
        r.name@ == capturer_name_of(id),
        r.state == CapturerState::Running,
        r.pid == Some(pid),
        text_view(r.bind_addr) == Some(bind_addr@),
        r.profile_id == profile_id,
        r.uptime_secs == 0,
        r.last_stderr is None,
        r.stderr_tail@.len() == 0,
        r.exit_code is None,
{
    CapturerInstance {
        id,
        name: capturer_name(id),
        state: CapturerState::Running,
        pid: Some(pid),
        bind_addr: Some(bind_addr),
        profile_id,
        uptime_secs: 0,
        last_stderr: None,
        stderr_tail: Vec::new(),
        exit_code: None,
    }
}

/// The record of a capturer that never answered its health check: crashed,
/// with the last line of what it wrote to stderr.
pub fn crashed_capturer(
    id: u32,
    bind_addr: String,
    profile_id: Option<String>,
    uptime_secs: u64,
    stderr_tail: Vec<String>,
    exit_code: Option<i32>,
) -> (r: CapturerInstance)
    ensures
        r.id == id,
        r.name@ == capturer_name_of(id),
        r.state == CapturerState::Crashed,
        r.pid is None,
        text_view(r.bind_addr) == Some(bind_addr@),
        r.profile_id == profile_id,
        r.uptime_secs == uptime_secs,
        r.last_stderr == (if stderr_tail@.len() == 0 {
            None
        } else {
            Some(stderr_tail@.last())
        }),
        r.stderr_tail@ == stderr_tail@,
        r.exit_code == exit_code,
{
    let last = if stderr_tail.len() == 0 {
        None
    } else {
        Some(stderr_tail[stderr_tail.len() - 1].clone())
    };
    CapturerInstance {
        id,
        name: capturer_name(id),
        state: CapturerState::Crashed,
        pid: None,
        bind_addr: Some(bind_addr),
        profile_id,
        uptime_secs,
        last_stderr: last,
        stderr_tail,
        exit_code,
    }
}

/// How a capturer process was found on a check: still running, or exited
/// with a success flag and maybe a code.
#[derive(Clone, Copy, Debug, PartialEq, Eq, Structural)]
pub enum ProcessCheck {
    StillRunning,
    Exited { success: bool, code: Option<i32> },
}

/// The state a record moves to on a check: a capturer asked to stop, or one
/// that exited cleanly, has exited; one that exited otherwise crashed; a
/// starting one that still runs is running. Stopped records stay as they are.
pub open spec fn refreshed_state_of(state: CapturerState, check: ProcessCheck) -> CapturerState {
    if state == CapturerState::Exited || state == CapturerState::Crashed {
        state
    } else {
        match check {
            ProcessCheck::Exited { success, .. } => if state == CapturerState::Stopping || success {
                CapturerState::Exited
            } else {
                CapturerState::Crashed
            },
            ProcessCheck::StillRunning => if state == CapturerState::Starting {
                CapturerState::Running
            } else {
                state
            },
        }
    }
}

/// Updates a record after checking its process: the new state, and on an
/// exit no pid and the exit code.
pub fn refresh_capturer_state(info: &mut CapturerInstance, check: ProcessCheck)
    ensures
        final(info).state == refreshed_state_of(old(info).state, check),
        (old(info).state != CapturerState::Exited && old(info).state != CapturerState::Crashed && check is Exited)
            ==> final(info).pid is None && final(info).exit_code == check->code,
        !(old(info).state != CapturerState::Exited && old(info).state != CapturerState::Crashed
            && check is Exited) ==> final(info).pid == old(info).pid && final(info).exit_code == old(info).exit_code,
        *final(info) == (CapturerInstance {
            state: final(info).state,
            pid: final(info).pid,
            exit_code: final(info).exit_code,
            ..*old(info)
        }),
{
    match info.state {
        CapturerState::Exited | CapturerState::Crashed => {},
        _ => match check {
            ProcessCheck::Exited { success, code } => {
                let stopping = match info.state {
                    CapturerState::Stopping => true,
                    _ => false,
                };
                info.state = if stopping || success {
                    CapturerState::Exited
                } else {
                    CapturerState::Crashed
                };
                info.pid = None;
                info.exit_code = code;
            },
            ProcessCheck::StillRunning => {
                match info.state {
                    CapturerState::Starting => {
                        info.state = CapturerState::Running;
                    },
                    _ => {},
                }
            },
        },
    }
}

/// Whether a record is of a stopped capturer.
pub open spec fn is_stopped(c: CapturerInstance) -> bool {
    c.state == CapturerState::Exited || c.state == CapturerState::Crashed
}

/// How many stopped records come before index `i`.
pub open spec fn stopped_before(s: Seq<CapturerInstance>, i: int) -> nat
    decreases i,
{
    if i <= 0 {
        0
    } else {
        stopped_before(s, i - 1) + if is_stopped(s[i - 1]) {
            1nat
        } else {
            0nat
        }
    }
}

/// The records kept when the oldest stopped ones beyond `max` are dropped:
/// a record stays unless it is stopped and among the first
/// `stopped - max` stopped ones.
pub open spec fn pruned(s: Seq<CapturerInstance>, max: nat) -> Seq<CapturerInstance> {
    prune_from(s, stopped_before(s, s.len() as int) - max, 0)
}

/// The records from index `i` on, dropping stopped ones while `drop` of
/// them are still to go.
pub open spec fn prune_from(s: Seq<CapturerInstance>, drop: int, i: int) -> Seq<CapturerInstance>
    decreases s.len() - i,
{
    if i >= s.len() || i < 0 {
        Seq::empty()
    } else if is_stopped(s[i]) && drop > 0 {
        prune_from(s, drop - 1, i + 1)
    } else {
        seq![s[i]] + prune_from(s, drop, i + 1)
    }
}

/// The records kept of a book in id order: the oldest stopped ones beyond
/// `max` dropped.
pub fn prune_stopped_capturer_history(capturers: Vec<CapturerInstance>, max: usize) -> (r: Vec<CapturerInstance>)
    ensures
        r@ == pruned(capturers@, max as nat),
{
    let ghost s = capturers@;
    let mut stopped: usize = 0;
    let mut i: usize = 0;
    while i < capturers.len()
        invariant
            i <= capturers.len(),
            s == capturers@,
            stopped == stopped_before(s, i as int),
            stopped <= i,
        decreases capturers.len() - i,
    {
        let is_stop = match capturers[i].state {
            CapturerState::Exited | CapturerState::Crashed => true,
            _ => false,
        };
        if is_stop {
            stopped = stopped + 1;
        }
        i = i + 1;
    }
    let mut drop: usize = if stopped > max {
        stopped - max
    } else {
        0
    };
    assert(prune_from(s, stopped_before(s, s.len() as int) - max, 0) == prune_from(s, drop as int, 0)) by {
        if stopped <= max {
            lemma_prune_no_drop(s, stopped_before(s, s.len() as int) - max, 0);
            lemma_prune_no_drop(s, 0, 0);
        }
    }
    let mut rest = capturers;
    let mut kept: Vec<CapturerInstance> = Vec::new();
    let mut k: usize = 0;
    let total: usize = rest.len();
    while rest.len() > 0
        invariant
            k + rest@.len() == s.len(),
            total == s.len(),
            rest@ == s.subrange(k as int, s.len() as int),
            kept@ + prune_from(s, drop as int, k as int) == pruned(s, max as nat),
        decreases rest.len(),
    {
        let c = rest.remove(0);
        assert(c == s[k as int]);
        let is_stop = match c.state {
            CapturerState::Exited | CapturerState::Crashed => true,
            _ => false,
        };
        if is_stop && drop > 0 {
            drop = drop - 1;
        } else {
            let ghost before = kept@;
            kept.push(c);
            assert(kept@ + prune_from(s, drop as int, k + 1) =~= before + (seq![s[k as int]] + prune_from(s, drop as int, k + 1)));
        }
        assert(rest@ =~= s.subrange(k + 1, s.len() as int));
        k = k + 1;
    }
    assert(prune_from(s, drop as int, k as int) =~= Seq::<CapturerInstance>::empty());
    assert(kept@ =~= kept@ + Seq::<CapturerInstance>::empty());
    kept
}

pub proof fn lemma_prune_no_drop(s: Seq<CapturerInstance>, drop: int, i: int)
    requires
        drop <= 0,
        0 <= i,
    ensures
        prune_from(s, drop, i) == prune_from(s, 0, i),
    decreases s.len() - i,
{
    if i < s.len() {
        lemma_prune_no_drop(s, drop, i + 1);
    }
}

/// Lines of a capturer's stderr that are kept.
pub const MAX_CAPTURER_LOG_LINES: usize = 800;

/// `tail` with `line` added and only the newest `MAX_CAPTURER_LOG_LINES`
/// lines kept.
pub open spec fn tail_after_push(tail: Seq<String>, line: String) -> Seq<String> {
    if tail.len() + 1 > MAX_CAPTURER_LOG_LINES {
        tail.push(line).skip(tail.len() + 1 - MAX_CAPTURER_LOG_LINES)
    } else {
        tail.push(line)
    }
}

/// Adds a line a capturer wrote to stderr, keeping the newest
/// `MAX_CAPTURER_LOG_LINES` lines.
pub fn push_stderr_line(tail: &mut Vec<String>, line: String)
    ensures
        final(tail)@ == tail_after_push(old(tail)@, line),
{
    tail.push(line);
    if tail.len() <= MAX_CAPTURER_LOG_LINES {
        return;
    }
    let overflow: usize = tail.len() - MAX_CAPTURER_LOG_LINES;
    let kept = tail.split_off(overflow);
    *tail = kept;
}

/// Milliseconds the supervisor waits for a new capturer's health check.
pub const HEALTHZ_WAIT_TIMEOUT_MS: u64 = 8000;

/// Milliseconds between two health checks of a starting capturer.
pub const HEALTHZ_POLL_INTERVAL_MS: u64 = 120;

/// What one round of waiting for a new capturer saw.
#[derive(Clone, Copy, Debug, PartialEq, Eq, Structural)]
pub enum HealthzProcess {
    /// The process still runs.
    Running,
    /// The process exited, with this code where it has one.
    Exited { code: Option<i32> },
    /// The process could not be asked.
    Unknown,
}

/// What the wait for a new capturer does next.
#[derive(Clone, Copy, Debug, PartialEq, Eq, Structural)]
pub enum HealthzDecision {
    /// The capturer answers: it is up.
    Ready,
    /// The capturer died first: report its exit and stderr.
    ExitedEarly { code: Option<i32> },
    /// Its process could not be asked: report that.
    WaitFailed,
    /// It did not answer in time: report the timeout and stderr.
    TimedOut,
    /// Ask again after the poll interval.
    Retry,
}

/// The decision of one round: a dead or unaskable process ends the wait
/// first, then a healthy answer, then the timeout.
pub open spec fn healthz_decision_of(process: HealthzProcess, healthy: bool, elapsed_ms: u64) -> HealthzDecision {
    match process {
        HealthzProcess::Exited { code } => HealthzDecision::ExitedEarly { code },
        HealthzProcess::Unknown => HealthzDecision::WaitFailed,
        HealthzProcess::Running => if healthy {
            HealthzDecision::Ready
        } else if elapsed_ms >= HEALTHZ_WAIT_TIMEOUT_MS {
            HealthzDecision::TimedOut
        } else {
            HealthzDecision::Retry
        },
    }
}

/// What the wait for a new capturer does after one round; `healthy` is
/// whether `/healthz` answered with success, `elapsed_ms` the time since
/// the launch.
pub fn healthz_step(process: HealthzProcess, healthy: bool, elapsed_ms: u64) -> (r: HealthzDecision)
    ensures
        r == healthz_decision_of(process, healthy, elapsed_ms),
{
    match process {
        HealthzProcess::Exited { code } => HealthzDecision::ExitedEarly { code },
        HealthzProcess::Unknown => HealthzDecision::WaitFailed,
        HealthzProcess::Running => if healthy {
            HealthzDecision::Ready
        } else if elapsed_ms >= HEALTHZ_WAIT_TIMEOUT_MS {
            HealthzDecision::TimedOut
        } else {
            HealthzDecision::Retry
        },
    }
}

/// Lines joined with a newline between each two.
pub open spec fn joined_lines(lines: Seq<Seq<char>>) -> Seq<char>
    decreases lines.len(),
{
    if lines.len() == 0 {
        Seq::empty()
    } else if lines.len() == 1 {
        lines[0]
    } else {
        joined_lines(lines.drop_last()) + seq!['\n'] + lines.last()
    }
}

/// A stderr tail as one text, a line per entry.
pub fn join_lines(lines: &Vec<String>) -> (r: String)
    ensures
        r@ == joined_lines(texts_view(lines@)),
{
    let ghost views = texts_view(lines@);
    let mut out: Vec<char> = Vec::new();
    let mut i: usize = 0;
    while i < lines.len()
        invariant
            i <= lines.len(),
            views == texts_view(lines@),
            out@ == joined_lines(views.take(i as int)),
        decreases lines.len() - i,
    {
        let line = chars_of(lines[i].as_str());
        let ghost before = out@;
        if i > 0 {
            out.push('\n');
        }
        let mut k: usize = 0;
        let ghost head = out@;
        while k < line.len()
            invariant
                k <= line.len(),
                out@ == head + line@.take(k as int),
            decreases line.len() - k,
        {
            out.push(line[k]);
            assert(line@.take(k as int + 1) =~= line@.take(k as int).push(line@[k as int]));
            k = k + 1;
        }
        assert(line@.take(line.len() as int) =~= line@);
        proof {
            let t = views.take(i as int + 1);
            assert(t.drop_last() =~= views.take(i as int));
            assert(t.last() == lines@[i as int]@);
            if i == 0 {
                assert(out@ =~= t[0]);
            } else {
                assert(out@ =~= before + seq!['\n'] + t.last());
            }
        }
        i = i + 1;
    }
    assert(views.take(lines.len() as int) =~= views);
    string_of(&out)
}

/// Which capturers an action of the console is for.
#[derive(Clone, Debug, PartialEq, Eq)]
pub enum CapturerSelection {
    /// Those that run: a snapshot of all capturers.
    Running,
    /// Those that run the profile: a saved profile document is pushed to them.
    RunningProfile { profile_id: String },
    /// Those not stopped yet: closing the console stops them.
    NotStopped,
}

/// Whether a capturer is one a selection picks.
pub open spec fn selects(selection: CapturerSelection, c: CapturerInstance) -> bool {
    match selection {
        CapturerSelection::Running => c.state == CapturerState::Running,
        CapturerSelection::RunningProfile { profile_id } => c.state == CapturerState::Running && match c.profile_id {
            Some(p) => p@ == profile_id@,
            None => false,
        },
        CapturerSelection::NotStopped => !is_stopped(c),
    }
}

fn picks(selection: &CapturerSelection, c: &CapturerInstance) -> (r: bool)
    ensures
        r == selects(*selection, *c),
{
    match selection {
        CapturerSelection::Running => c.state == CapturerState::Running,
        CapturerSelection::RunningProfile { profile_id } => c.state == CapturerState::Running && match &c.profile_id {
            Some(p) => crate::text::str_eq(p.as_str(), profile_id.as_str()),
            None => false,
        },
        CapturerSelection::NotStopped => !(c.state == CapturerState::Exited || c.state == CapturerState::Crashed),
    }
}

/// The indices of the capturers a selection picks, in id order.
pub fn select_capturers(capturers: &Vec<CapturerInstance>, selection: &CapturerSelection) -> (r: Vec<usize>)
    ensures
        forall|a: int, b: int| 0 <= a < b < r@.len() ==> r@[a] < r@[b],
        forall|a: int| 0 <= a < r@.len() ==> r@[a] < capturers@.len() && selects(*selection, capturers@[#[trigger] r@[a] as int]),
        forall|i: int| 0 <= i < capturers@.len() && selects(*selection, #[trigger] capturers@[i]) ==> r@.contains(i as usize),
{
    let mut out: Vec<usize> = Vec::new();
    let mut i: usize = 0;
    while i < capturers.len()
        invariant
            i <= capturers.len(),
            forall|a: int, b: int| 0 <= a < b < out@.len() ==> out@[a] < out@[b],
            forall|a: int| 0 <= a < out@.len() ==> out@[a] < i && selects(*selection, capturers@[#[trigger] out@[a] as int]),
            forall|j: int| 0 <= j < i && selects(*selection, #[trigger] capturers@[j]) ==> out@.contains(j as usize),
        decreases capturers.len() - i,
    {
        if picks(selection, &capturers[i]) {
            let ghost before = out@;
            out.push(i);
            assert forall|j: int| 0 <= j < i + 1 && selects(*selection, #[trigger] capturers@[j]) implies out@.contains(j as usize) by {
                if j < i {
                    assert(before.contains(j as usize));
                    let w = choose|w: int| 0 <= w < before.len() && before[w] == j as usize;
                    assert(out@[w] == j as usize);
                } else {
                    assert(out@[before.len() as int] == i);
                }
            }
        }
        i = i + 1;
    }
    out
}

/// A capturer executable the supervisor may start: its path, and when it
/// was last modified, in nanoseconds since the epoch, where it exists.
#[derive(Clone, Debug, PartialEq, Eq)]
pub struct CapturerCandidate {
    pub path: String,
    pub modified_ns: Option<u64>,
}

/// The rank candidates are ordered by: the newer the higher, a missing one
/// below every existing one.
pub open spec fn candidate_rank(c: CapturerCandidate) -> int {
    match c.modified_ns {
        Some(t) => t as int,
        None => -1,
    }
}

/// The candidates of `s` of rank `k`, in their order in `s`.
pub open spec fn with_rank(s: Seq<CapturerCandidate>, k: int) -> Seq<CapturerCandidate>
    decreases s.len(),
{
    if s.len() == 0 {
        Seq::empty()
    } else {
        let rest = with_rank(s.drop_last(), k);
        if candidate_rank(s.last()) == k {
            rest.push(s.last())
        } else {
            rest
        }
    }
}

/// Whether `s` runs from the newest candidate to the oldest, missing ones
/// last.
pub open spec fn newest_first_ordered(s: Seq<CapturerCandidate>) -> bool {
    forall|i: int, j: int| 0 <= i <= j < s.len() ==> candidate_rank(#[trigger] s[i]) >= candidate_rank(#[trigger] s[j])
}

/// Whether `out` is `input` ordered newest first, where candidates of one
/// rank keep the order they had in `input`.
pub open spec fn is_newest_first_of(out: Seq<CapturerCandidate>, input: Seq<CapturerCandidate>) -> bool {
    &&& out.len() == input.len()
    &&& newest_first_ordered(out)
    &&& forall|k: int| #[trigger] with_rank(out, k) == with_rank(input, k)
}

proof fn lemma_with_rank_add(a: Seq<CapturerCandidate>, b: Seq<CapturerCandidate>, k: int)
    ensures
        with_rank(a + b, k) == with_rank(a, k) + with_rank(b, k),
    decreases b.len(),
{
    if b.len() == 0 {
        assert(a + b =~= a);
        assert(with_rank(a, k) + with_rank(b, k) =~= with_rank(a, k));
    } else {
        lemma_with_rank_add(a, b.drop_last(), k);
        assert((a + b).drop_last() =~= a + b.drop_last());
        assert((a + b).last() == b.last());
        if candidate_rank(b.last()) == k {
            assert(with_rank(a, k) + with_rank(b.drop_last(), k).push(b.last())
                =~= (with_rank(a, k) + with_rank(b.drop_last(), k)).push(b.last()));
        }
    }
}

proof fn lemma_with_rank_absent(s: Seq<CapturerCandidate>, k: int)
    requires
        forall|i: int| 0 <= i < s.len() ==> candidate_rank(#[trigger] s[i]) != k,
    ensures
        with_rank(s, k) == Seq::<CapturerCandidate>::empty(),
    decreases s.len(),
{
    if s.len() > 0 {
        assert(candidate_rank(s[s.len() - 1]) != k);
        lemma_with_rank_absent(s.drop_last(), k);
    }
}

/// Inserting `x` after every candidate ranked at least as high and before
/// every one ranked lower keeps the order newest first and appends `x` to
/// its rank.
proof fn lemma_insert_in_rank(old_out: Seq<CapturerCandidate>, p: int, x: CapturerCandidate, prev: Seq<CapturerCandidate>)
    requires
        0 <= p <= old_out.len(),
        newest_first_ordered(old_out),
        forall|j: int| 0 <= j < p ==> candidate_rank(#[trigger] old_out[j]) >= candidate_rank(x),
        forall|j: int| p <= j < old_out.len() ==> candidate_rank(#[trigger] old_out[j]) < candidate_rank(x),
        forall|k: int| #[trigger] with_rank(old_out, k) == with_rank(prev, k),
    ensures
        newest_first_ordered(old_out.insert(p, x)),
        forall|k: int| #[trigger] with_rank(old_out.insert(p, x), k) == with_rank(prev.push(x), k),
{
    let out = old_out.insert(p, x);
    let front = old_out.take(p);
    let back = old_out.skip(p);
    assert(old_out =~= front + back);
    assert(out =~= front + seq![x] + back);
    assert(prev.push(x).drop_last() =~= prev);
    assert forall|k: int| #[trigger] with_rank(out, k) == with_rank(prev.push(x), k) by {
        lemma_with_rank_add(front, back, k);
        lemma_with_rank_add(front + seq![x], back, k);
        lemma_with_rank_add(front, seq![x], k);
        assert(seq![x].drop_last() =~= Seq::<CapturerCandidate>::empty());
        assert(seq![x].last() == x);
        assert(with_rank(Seq::<CapturerCandidate>::empty(), k) =~= Seq::<CapturerCandidate>::empty());
        assert(with_rank(seq![x].drop_last(), k) =~= Seq::<CapturerCandidate>::empty());
        assert(with_rank(old_out, k) == with_rank(prev, k));
        if candidate_rank(x) == k {
            assert forall|j: int| 0 <= j < back.len() implies candidate_rank(#[trigger] back[j]) != k by {
                assert(back[j] == old_out[p + j]);
            }
            lemma_with_rank_absent(back, k);
            assert(with_rank(seq![x], k) =~= seq![x]);
            assert(with_rank(front, k) + seq![x] + Seq::<CapturerCandidate>::empty() =~= with_rank(front, k).push(x));
            assert(with_rank(front, k) + Seq::<CapturerCandidate>::empty() =~= with_rank(front, k));
        } else {
            assert(with_rank(seq![x], k) =~= Seq::<CapturerCandidate>::empty());
            assert(with_rank(front, k) + Seq::<CapturerCandidate>::empty() =~= with_rank(front, k));
        }
    }
    assert forall|a: int, b: int| 0 <= a <= b < out.len() implies candidate_rank(#[trigger] out[a]) >= candidate_rank(
        #[trigger] out[b],
    ) by {
        if a < p && b < p {
            assert(out[a] == old_out[a] && out[b] == old_out[b]);
        } else if a < p && b == p {
            assert(out[a] == old_out[a]);
        } else if a < p {
            assert(out[a] == old_out[a] && out[b] == old_out[b - 1]);
        } else if a == p && b > p {
            assert(out[b] == old_out[b - 1]);
        } else if a > p {
            assert(out[a] == old_out[a - 1] && out[b] == old_out[b - 1]);
        }
    }
}

/// Whether `a` ranks at least as high as `b`.
fn ranks_at_least(a: &Option<u64>, b: &Option<u64>) -> (r: bool)
    ensures
        r == ((match *a {
            Some(t) => t as int,
            None => -1,
        }) >= (match *b {
            Some(t) => t as int,
            None => -1,
        })),
{
    match (a, b) {
        (Some(x), Some(y)) => *x >= *y,
        (Some(_), None) => true,
        (None, Some(_)) => false,
        (None, None) => true,
    }
}

/// The candidates newest first and the missing ones last, candidates
/// modified at one time, and the missing ones, keeping their order.
pub fn newest_first(candidates: Vec<CapturerCandidate>) -> (r: Vec<CapturerCandidate>)
    ensures
        is_newest_first_of(r@, candidates@),
{
    let ghost input = candidates@;
    let mut rest = candidates;
    let mut out: Vec<CapturerCandidate> = Vec::new();
    let n = rest.len();
    let mut i: usize = 0;
    while i < n
        invariant
            n == input.len(),
            i <= n,
            rest@ == input.subrange(i as int, n as int),
            out.len() == i,
            newest_first_ordered(out@),
            forall|k: int| #[trigger] with_rank(out@, k) == with_rank(input.take(i as int), k),
        decreases n - i,
    {
        let x = rest.remove(0);
        assert(x == input[i as int]);
        let mut p: usize = 0;
        while p < out.len() && ranks_at_least(&out[p].modified_ns, &x.modified_ns)
            invariant
                p <= out.len(),
                forall|j: int| 0 <= j < p ==> candidate_rank(#[trigger] out@[j]) >= candidate_rank(x),
            decreases out.len() - p,
        {
            p = p + 1;
        }
        let ghost old_out = out@;
        assert forall|j: int| p <= j < old_out.len() implies candidate_rank(#[trigger] old_out[j]) < candidate_rank(x) by {
            assert(candidate_rank(old_out[p as int]) < candidate_rank(x));
            assert(candidate_rank(old_out[p as int]) >= candidate_rank(old_out[j]));
        }
        out.insert(p, x);
        proof {
            lemma_insert_in_rank(old_out, p as int, x, input.take(i as int));
            assert(input.take(i as int + 1) =~= input.take(i as int).push(x));
        }
        i = i + 1;
    }
    assert(input.take(n as int) =~= input);
    out
}

/// Whether a file in a capturer's `runtimes` directory is a versioned
/// capturer: `un-motion-capturer-`, anything, and the platform's executable
/// suffix.
pub open spec fn is_versioned_capturer_sidecar_of(file_name: Seq<char>, windows: bool) -> bool {
    has_prefix(file_name, "un-motion-capturer-"@) && has_suffix(file_name, exe_suffix_of(windows))
}

/// Whether the file `file_name` is a versioned capturer on a platform.
pub fn is_versioned_capturer_sidecar(file_name: &str, windows: bool) -> (r: bool)
    ensures
        r == is_versioned_capturer_sidecar_of(file_name@, windows),
{
    let v = chars_of(file_name);
    let suffix = if windows {
        ".exe"
    } else {
        ""
    };
    proof {
        reveal_strlit(".exe");
        reveal_strlit("");
    }
    starts_with(&v, "un-motion-capturer-") && ends_with(&v, suffix)
}

} // verus!

