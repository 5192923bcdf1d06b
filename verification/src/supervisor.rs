//! Process supervisor of the player control client.
//!
//! The supervisor guarantees that, after a successful `ensure_running`
//! sequence, a live player process is listening on the configured socket
//! path.  The operating-system work — probing the socket, removing a stale
//! socket file, killing and reaping the child, spawning the player, sleeping
//! between readiness polls — cannot be performed here, so the embedding
//! application executes each step and feeds its outcome back into the
//! decision functions of this module.  Every decision, and the shape of a
//! whole `ensure_running` run, is specified by the model functions below and
//! proved about them.

use vstd::prelude::*;
use crate::errors::MpvError;

verus! {

/// How many times the readiness poll probes the socket before giving up.
pub const POLL_ATTEMPTS: u32 = 40;

/// How long the application sleeps between two readiness probes, in
/// milliseconds.
pub const POLL_INTERVAL_MS: u64 = 50;

/// The client handle: the configured socket path and whether a spawned
/// child process is currently owned.  The operating-system handles
/// themselves (the child process, the open sockets) live with the embedding
/// application; this value is the state every decision is based on.
pub struct MpvClient {
    /// Filesystem path of the control socket.
    pub socket_path: String,
    /// Whether a previously spawned player process is owned and must be
    /// reaped before a respawn or on shutdown.
    pub child_owned: bool,
}

/// The mathematical value of an [`MpvClient`].
pub struct ClientV {
    pub socket_path: Seq<char>,
    pub child_owned: bool,
}

impl View for MpvClient {
    type V = ClientV;

    open spec fn view(&self) -> ClientV {
        ClientV { socket_path: self.socket_path@, child_owned: self.child_owned }
    }
}

/// Outcome of probing the socket path: a connection succeeded, the path
/// exists but the connection was refused or failed, or the path is missing.
#[derive(Clone, Copy, PartialEq, Eq, Structural, Debug)]
pub enum Probe {
    Connectable,
    Refused,
    Missing,
}

/// First decision of `ensure_running`, taken on the outcome of probing the
/// configured socket path.
#[derive(Clone, Copy, PartialEq, Eq, Structural, Debug)]
pub enum EnsureDecision {
    /// A live player is already listening: reuse it, spawn nothing.
    UseExisting,
    /// Clean up and spawn a new player.  The application performs, in this
    /// order: if `remove_stale`, remove the stale socket file; if
    /// `reap_child`, kill the owned child and wait for its exit; remove the
    /// socket path again (defensive); spawn the player.
    Respawn { remove_stale: bool, reap_child: bool },
}

/// Remaining budget of the readiness poll.
#[derive(Clone, Copy, PartialEq, Eq, Structural, Debug)]
pub struct PollBudget {
    /// How many probes may still be made, including the next one.
    pub left: u32,
}

/// Decision after one readiness probe.
#[derive(Clone, Copy, PartialEq, Eq, Structural, Debug)]
pub enum PollStep {
    /// The probe connected: the player is ready and `ensure_running`
    /// succeeds.
    Ready,
    /// Not connectable yet: sleep one interval and probe again with the
    /// remaining budget.
    SleepAndRetry(PollBudget),
    /// The budget is exhausted: give up with a timeout.  The spawned
    /// process is left running; it may still become ready later.
    GiveUp,
}

/// What `shutdown` asks the application to do: if `reap_child`, kill the
/// owned child and wait for its exit; then remove the socket path.  The
/// path removal happens unconditionally, and shutdown always succeeds.
#[derive(Clone, Copy, PartialEq, Eq, Structural, Debug)]
pub struct ShutdownPlan {
    pub reap_child: bool,
}

// ---------------------------------------------------------------------------
// Specification of the individual decisions.
// ---------------------------------------------------------------------------

/// The decision taken on the initial probe.
pub open spec fn spec_initial_decision(c: ClientV, probe: Probe) -> EnsureDecision {
    if probe is Connectable {
        EnsureDecision::UseExisting
    } else {
        EnsureDecision::Respawn { remove_stale: probe is Refused, reap_child: c.child_owned }
    }
}

/// The client state after the initial probe decision: on the respawn path
/// the child handle has been taken for reaping.
pub open spec fn spec_after_initial(c: ClientV, probe: Probe) -> ClientV {
    if probe is Connectable {
        c
    } else {
        ClientV { child_owned: false, ..c }
    }
}

/// The decision after one readiness probe with `budget.left >= 1`.
pub open spec fn spec_poll_step(budget: PollBudget, connectable: bool) -> PollStep {
    if connectable {
        PollStep::Ready
    } else if budget.left > 1 {
        PollStep::SleepAndRetry(PollBudget { left: (budget.left - 1) as u32 })
    } else {
        PollStep::GiveUp
    }
}

// ---------------------------------------------------------------------------
// Executable decisions.
// ---------------------------------------------------------------------------

impl MpvClient {
    /// A fresh client for the given socket path; no process is owned yet.
    pub fn new(socket_path: String) -> (c: MpvClient)
        ensures
            c@.socket_path == socket_path@,
            !c@.child_owned,
    {
        MpvClient { socket_path, child_owned: false }
    }

    /// First decision of `ensure_running`: reuse a connectable player, or
    /// clean up and respawn.  Taking the respawn path hands the child (if
    /// any) over for reaping, so the client owns none afterwards.
    pub fn on_initial_probe(&mut self, probe: Probe) -> (d: EnsureDecision)
        ensures
            d == spec_initial_decision(old(self)@, probe),
            final(self)@ == spec_after_initial(old(self)@, probe),
    {
        match probe {
            Probe::Connectable => EnsureDecision::UseExisting,
            Probe::Refused => {
                let reap = self.child_owned;
                self.child_owned = false;
                EnsureDecision::Respawn { remove_stale: true, reap_child: reap }
            },
            Probe::Missing => {
                let reap = self.child_owned;
                self.child_owned = false;
                EnsureDecision::Respawn { remove_stale: false, reap_child: reap }
            },
        }
    }

    /// Decision after the spawn attempt.  A successful spawn hands the new
    /// child to the client and opens the readiness poll with the full
    /// budget; a failed spawn ends the run with a spawn failure carrying
    /// the operating-system error text.
    pub fn on_spawn_result(&mut self, spawned: bool, os_error: String) -> (r: Result<
        PollBudget,
        MpvError,
    >)
        requires
            !old(self)@.child_owned,
        ensures
            final(self)@.socket_path == old(self)@.socket_path,
            final(self)@.child_owned == spawned,
            spawned ==> r == Ok::<PollBudget, MpvError>(PollBudget { left: POLL_ATTEMPTS }),
            !spawned ==> r == Err::<PollBudget, MpvError>(MpvError::SpawnFailure(os_error)),
    {
        if spawned {
            self.child_owned = true;
            Ok(PollBudget { left: POLL_ATTEMPTS })
        } else {
            Err(MpvError::SpawnFailure(os_error))
        }
    }

    /// Decision after one readiness probe: succeed, sleep and retry, or
    /// give up once the bounded budget is exhausted.
    pub fn on_poll_probe(budget: PollBudget, connectable: bool) -> (s: PollStep)
        requires
            budget.left >= 1,
        ensures
            s == spec_poll_step(budget, connectable),
    {
        if connectable {
            PollStep::Ready
        } else if budget.left > 1 {
            PollStep::SleepAndRetry(PollBudget { left: budget.left - 1 })
        } else {
            PollStep::GiveUp
        }
    }

    /// Tears the client down: the owned child (if any) is handed over for
    /// reaping and the socket path is removed.  Safe to call when no
    /// process was ever spawned, and safe to call repeatedly; it always
    /// succeeds.
    pub fn shutdown(&mut self) -> (p: ShutdownPlan)
        ensures
            final(self)@ == spec_shutdown_state(old(self)@),
            p.reap_child == old(self)@.child_owned,
    {
        let reap = self.child_owned;
        self.child_owned = false;
        ShutdownPlan { reap_child: reap }
    }
}

// ---------------------------------------------------------------------------
// Model of whole runs.
//
// A run of `ensure_running` is the exec decisions above, driven by the
// embedding application; the model below gives the same decisions as one
// spec function over the environment's answers, together with the ordered
// trace of operating-system steps the decisions ask for.  The laws of the
// supervisor are proved about this model.
// ---------------------------------------------------------------------------

/// One primitive operating-system step of a run, in the order the
/// application performs them.
#[derive(Clone, Copy, PartialEq, Eq, Structural, Debug)]
pub enum SysOp {
    /// Probe the existing socket path (existence and connectability).
    ProbeOp,
    /// Remove the socket path from the filesystem.
    RemovePath,
    /// Kill the owned child process and wait for its exit.
    Reap,
    /// Spawn a new player process.
    Spawn,
    /// Probe the socket during the readiness poll.
    PollProbe,
    /// Sleep one poll interval.
    Sleep,
}

/// The environment's answers during one `ensure_running` run: the outcome
/// of the initial probe, whether the spawn succeeded, and the
/// connectability seen by each successive readiness probe.
pub struct EnsureScript {
    pub initial_probe: Probe,
    pub spawn_ok: bool,
    pub polls: Seq<bool>,
}

/// How a run ended.
#[derive(Clone, Copy, PartialEq, Eq, Structural, Debug)]
pub enum EnsureResult {
    Succeeded,
    SpawnFailed,
    TimedOut,
}

/// A whole run: the client state it leaves behind, how it ended, and the
/// ordered trace of operating-system steps it asked for.
pub struct EnsureOutcome {
    pub client: ClientV,
    pub result: EnsureResult,
    pub ops: Seq<SysOp>,
}

/// Whether the readiness poll connects within `left` probes.
pub open spec fn spec_poll_ready(left: nat, polls: Seq<bool>) -> bool
    decreases left,
{
    if left == 0 || polls.len() == 0 {
        false
    } else if polls[0] {
        true
    } else if left == 1 {
        false
    } else {
        spec_poll_ready((left - 1) as nat, polls.drop_first())
    }
}

/// The trace of the readiness poll: each failed probe is followed by one
/// sleep; a successful probe ends the poll at once.
pub open spec fn spec_poll_ops(left: nat, polls: Seq<bool>) -> Seq<SysOp>
    decreases left,
{
    if left == 0 || polls.len() == 0 {
        Seq::empty()
    } else if polls[0] {
        seq![SysOp::PollProbe]
    } else if left == 1 {
        seq![SysOp::PollProbe, SysOp::Sleep]
    } else {
        seq![SysOp::PollProbe, SysOp::Sleep] + spec_poll_ops((left - 1) as nat, polls.drop_first())
    }
}

/// The cleanup steps between a failed initial probe and the spawn: the
/// stale socket file is removed, the owned child is reaped, and the path is
/// removed once more, defensively.
pub open spec fn spec_cleanup_ops(c: ClientV, probe: Probe) -> Seq<SysOp> {
    (if probe is Refused {
        seq![SysOp::RemovePath]
    } else {
        Seq::empty()
    }) + (if c.child_owned {
        seq![SysOp::Reap]
    } else {
        Seq::empty()
    }) + seq![SysOp::RemovePath]
}

/// The whole `ensure_running` run over the environment's answers.
pub open spec fn spec_ensure_run(c: ClientV, s: EnsureScript) -> EnsureOutcome {
    if spec_initial_decision(c, s.initial_probe) is UseExisting {
        EnsureOutcome { client: c, result: EnsureResult::Succeeded, ops: seq![SysOp::ProbeOp] }
    } else {
        let c1 = spec_after_initial(c, s.initial_probe);
        let pre = seq![SysOp::ProbeOp] + spec_cleanup_ops(c, s.initial_probe) + seq![SysOp::Spawn];
        if !s.spawn_ok {
            EnsureOutcome { client: c1, result: EnsureResult::SpawnFailed, ops: pre }
        } else {
            let c2 = ClientV { child_owned: true, ..c1 };
            EnsureOutcome {
                client: c2,
                result: if spec_poll_ready(POLL_ATTEMPTS as nat, s.polls) {
                    EnsureResult::Succeeded
                } else {
                    EnsureResult::TimedOut
                },
                ops: pre + spec_poll_ops(POLL_ATTEMPTS as nat, s.polls),
            }
        }
    }
}

/// The client state `shutdown` leaves behind.
pub open spec fn spec_shutdown_state(c: ClientV) -> ClientV {
    ClientV { child_owned: false, ..c }
}

/// The trace of one `shutdown` call: reap the owned child, if any, then
/// remove the socket path unconditionally.
pub open spec fn spec_shutdown_ops(c: ClientV) -> Seq<SysOp> {
    (if c.child_owned {
        seq![SysOp::Reap]
    } else {
        Seq::empty()
    }) + seq![SysOp::RemovePath]
}

/// How many times `target` occurs in a trace.
pub open spec fn count_op(ops: Seq<SysOp>, target: SysOp) -> nat
    decreases ops.len(),
{
    if ops.len() == 0 {
        0
    } else {
        (if ops[0] == target {
            1nat
        } else {
            0nat
        }) + count_op(ops.drop_first(), target)
    }
}

/// Counting occurrences distributes over concatenation of traces.
pub proof fn lemma_count_op_add(a: Seq<SysOp>, b: Seq<SysOp>, t: SysOp)
    ensures
        count_op(a + b, t) == count_op(a, t) + count_op(b, t),
    decreases a.len(),
{
    if a.len() == 0 {
        assert(a + b =~= b);
    } else {
        assert((a + b).drop_first() =~= a.drop_first() + b);
        lemma_count_op_add(a.drop_first(), b, t);
    }
}

/// Count in a one-step trace.
proof fn lemma_count_op_single(op: SysOp, t: SysOp)
    ensures
        count_op(seq![op], t) == (if op == t {
            1nat
        } else {
            0nat
        }),
{
    reveal_with_fuel(count_op, 2);
    assert(seq![op].drop_first() =~= Seq::<SysOp>::empty());
}

/// The readiness poll never spawns, reaps, or touches the path: its trace
/// holds probes and sleeps only.
pub proof fn lemma_poll_ops_probe_sleep_only(left: nat, polls: Seq<bool>, t: SysOp)
    requires
        t != SysOp::PollProbe,
        t != SysOp::Sleep,
    ensures
        count_op(spec_poll_ops(left, polls), t) == 0,
    decreases left,
{
    if left == 0 || polls.len() == 0 {
    } else if polls[0] {
        lemma_count_op_single(SysOp::PollProbe, t);
    } else if left == 1 {
        assert(seq![SysOp::PollProbe, SysOp::Sleep] =~= seq![SysOp::PollProbe] + seq![SysOp::Sleep]);
        lemma_count_op_add(seq![SysOp::PollProbe], seq![SysOp::Sleep], t);
        lemma_count_op_single(SysOp::PollProbe, t);
        lemma_count_op_single(SysOp::Sleep, t);
    } else {
        lemma_poll_ops_probe_sleep_only((left - 1) as nat, polls.drop_first(), t);
        assert(seq![SysOp::PollProbe, SysOp::Sleep] =~= seq![SysOp::PollProbe] + seq![SysOp::Sleep]);
        lemma_count_op_add(seq![SysOp::PollProbe], seq![SysOp::Sleep], t);
        lemma_count_op_single(SysOp::PollProbe, t);
        lemma_count_op_single(SysOp::Sleep, t);
        lemma_count_op_add(
            seq![SysOp::PollProbe, SysOp::Sleep],
            spec_poll_ops((left - 1) as nat, polls.drop_first()),
            t,
        );
    }
}

/// If no probe within the budget connects, the poll does not become ready,
/// and its trace holds exactly one probe and one sleep per unit of budget.
pub proof fn lemma_poll_all_fail(left: nat, polls: Seq<bool>)
    requires
        polls.len() >= left,
        forall|i: int| 0 <= i < left ==> !polls[i],
    ensures
        !spec_poll_ready(left, polls),
        count_op(spec_poll_ops(left, polls), SysOp::PollProbe) == left,
        count_op(spec_poll_ops(left, polls), SysOp::Sleep) == left,
    decreases left,
{
    if left == 0 {
    } else {
        assert(!polls[0]);
        assert(seq![SysOp::PollProbe, SysOp::Sleep] =~= seq![SysOp::PollProbe] + seq![SysOp::Sleep]);
        lemma_count_op_add(seq![SysOp::PollProbe], seq![SysOp::Sleep], SysOp::PollProbe);
        lemma_count_op_add(seq![SysOp::PollProbe], seq![SysOp::Sleep], SysOp::Sleep);
        lemma_count_op_single(SysOp::PollProbe, SysOp::PollProbe);
        lemma_count_op_single(SysOp::PollProbe, SysOp::Sleep);
        lemma_count_op_single(SysOp::Sleep, SysOp::PollProbe);
        lemma_count_op_single(SysOp::Sleep, SysOp::Sleep);
        if left == 1 {
        } else {
            assert(forall|i: int|
                0 <= i < left - 1 ==> !polls.drop_first()[i]) by {
                assert(forall|i: int| 0 <= i < left - 1 ==> polls.drop_first()[i] == polls[i + 1]);
            }
            lemma_poll_all_fail((left - 1) as nat, polls.drop_first());
            lemma_count_op_add(
                seq![SysOp::PollProbe, SysOp::Sleep],
                spec_poll_ops((left - 1) as nat, polls.drop_first()),
                SysOp::PollProbe,
            );
            lemma_count_op_add(
                seq![SysOp::PollProbe, SysOp::Sleep],
                spec_poll_ops((left - 1) as nat, polls.drop_first()),
                SysOp::Sleep,
            );
        }
    }
}

/// If the probe at position `k` connects, and `k` lies within the budget,
/// the poll becomes ready.
pub proof fn lemma_poll_first_ready(left: nat, polls: Seq<bool>, k: int)
    requires
        0 <= k < left,
        k < polls.len(),
        polls[k],
    ensures
        spec_poll_ready(left, polls),
    decreases left,
{
    if k == 0 {
    } else {
        if polls[0] {
        } else {
            lemma_poll_first_ready((left - 1) as nat, polls.drop_first(), k - 1);
        }
    }
}

/// The cleanup trace between a failed probe and the spawn holds path
/// removals and at most one reap, nothing else.
proof fn lemma_cleanup_counts(c: ClientV, probe: Probe, t: SysOp)
    ensures
        count_op(spec_cleanup_ops(c, probe), SysOp::RemovePath) == (if probe is Refused {
            2nat
        } else {
            1nat
        }),
        count_op(spec_cleanup_ops(c, probe), SysOp::Reap) == (if c.child_owned {
            1nat
        } else {
            0nat
        }),
        t != SysOp::RemovePath && t != SysOp::Reap ==> count_op(spec_cleanup_ops(c, probe), t)
            == 0,
{
    let stale: Seq<SysOp> = if probe is Refused {
        seq![SysOp::RemovePath]
    } else {
        Seq::empty()
    };
    let reap: Seq<SysOp> = if c.child_owned {
        seq![SysOp::Reap]
    } else {
        Seq::empty()
    };
    lemma_count_op_add(stale + reap, seq![SysOp::RemovePath], SysOp::RemovePath);
    lemma_count_op_add(stale, reap, SysOp::RemovePath);
    lemma_count_op_add(stale + reap, seq![SysOp::RemovePath], SysOp::Reap);
    lemma_count_op_add(stale, reap, SysOp::Reap);
    lemma_count_op_add(stale + reap, seq![SysOp::RemovePath], t);
    lemma_count_op_add(stale, reap, t);
    lemma_count_op_single(SysOp::RemovePath, SysOp::RemovePath);
    lemma_count_op_single(SysOp::RemovePath, SysOp::Reap);
    lemma_count_op_single(SysOp::RemovePath, t);
    lemma_count_op_single(SysOp::Reap, SysOp::RemovePath);
    lemma_count_op_single(SysOp::Reap, SysOp::Reap);
    lemma_count_op_single(SysOp::Reap, t);
    reveal_with_fuel(count_op, 2);
}

/// Counts over the steps before the readiness poll: one initial probe, the
/// cleanup, and exactly one spawn.
proof fn lemma_pre_spawn_counts(c: ClientV, probe: Probe, t: SysOp)
    ensures
        count_op(seq![SysOp::ProbeOp] + spec_cleanup_ops(c, probe) + seq![SysOp::Spawn], t)
            == count_op(spec_cleanup_ops(c, probe), t) + (if t == SysOp::ProbeOp {
            1nat
        } else {
            0nat
        }) + (if t == SysOp::Spawn {
            1nat
        } else {
            0nat
        }),
{
    lemma_count_op_add(seq![SysOp::ProbeOp] + spec_cleanup_ops(c, probe), seq![SysOp::Spawn], t);
    lemma_count_op_add(seq![SysOp::ProbeOp], spec_cleanup_ops(c, probe), t);
    lemma_count_op_single(SysOp::ProbeOp, t);
    lemma_count_op_single(SysOp::Spawn, t);
}

// ---------------------------------------------------------------------------
// Laws of the supervisor.
// ---------------------------------------------------------------------------

/// `ensure_running` is idempotent: with a healthy player already listening
/// on the socket, a run only probes — it succeeds at once, leaves the
/// client untouched, and two such runs in succession perform zero spawns.
pub proof fn lemma_ensure_idempotent(c: ClientV, s1: EnsureScript, s2: EnsureScript)
    requires
        s1.initial_probe is Connectable,
        s2.initial_probe is Connectable,
    ensures
        ({
            let o1 = spec_ensure_run(c, s1);
            let o2 = spec_ensure_run(o1.client, s2);
            &&& o1.client == c
            &&& o2.client == c
            &&& o1.result is Succeeded
            &&& o2.result is Succeeded
            &&& count_op(o1.ops + o2.ops, SysOp::Spawn) == 0
        }),
{
    let o1 = spec_ensure_run(c, s1);
    let o2 = spec_ensure_run(o1.client, s2);
    lemma_count_op_add(o1.ops, o2.ops, SysOp::Spawn);
    lemma_count_op_single(SysOp::ProbeOp, SysOp::Spawn);
}

/// A stale socket path (the file exists but the connection is refused)
/// triggers exactly one respawn cycle: the stale path is deleted right
/// after the probe, exactly one process is spawned, and as soon as a
/// readiness probe within the budget connects the run succeeds with the
/// new child owned.
pub proof fn lemma_stale_respawn_cycle(c: ClientV, s: EnsureScript, k: int)
    requires
        s.initial_probe is Refused,
        s.spawn_ok,
        0 <= k < POLL_ATTEMPTS,
        k < s.polls.len(),
        s.polls[k],
    ensures
        ({
            let o = spec_ensure_run(c, s);
            &&& o.result is Succeeded
            &&& o.client.child_owned
            &&& o.client.socket_path == c.socket_path
            &&& count_op(o.ops, SysOp::Spawn) == 1
            &&& o.ops[0] == SysOp::ProbeOp
            &&& o.ops[1] == SysOp::RemovePath
        }),
{
    let o = spec_ensure_run(c, s);
    let cleanup = spec_cleanup_ops(c, s.initial_probe);
    let pre = seq![SysOp::ProbeOp] + cleanup + seq![SysOp::Spawn];
    lemma_poll_first_ready(POLL_ATTEMPTS as nat, s.polls, k);
    lemma_count_op_add(pre, spec_poll_ops(POLL_ATTEMPTS as nat, s.polls), SysOp::Spawn);
    lemma_pre_spawn_counts(c, s.initial_probe, SysOp::Spawn);
    lemma_cleanup_counts(c, s.initial_probe, SysOp::Spawn);
    lemma_poll_ops_probe_sleep_only(POLL_ATTEMPTS as nat, s.polls, SysOp::Spawn);
    assert(o.ops[0] == SysOp::ProbeOp);
    assert(cleanup[0] == SysOp::RemovePath);
    assert(o.ops[1] == SysOp::RemovePath);
}

/// `shutdown` is safe when no process was ever spawned — it only removes
/// the socket path — and is idempotent: a second shutdown reaps nothing
/// and leaves the state unchanged.  No shutdown outcome is a failure.
pub proof fn lemma_shutdown_safe_and_idempotent(c: ClientV)
    ensures
        ({
            let c1 = spec_shutdown_state(c);
            let c2 = spec_shutdown_state(c1);
            &&& !c1.child_owned
            &&& c2 == c1
            &&& c1.socket_path == c.socket_path
            &&& (!c.child_owned ==> spec_shutdown_ops(c) =~= seq![SysOp::RemovePath])
            &&& spec_shutdown_ops(c1) =~= seq![SysOp::RemovePath]
        }),
{
    if !c.child_owned {
        assert(spec_shutdown_ops(c) =~= seq![SysOp::RemovePath]);
    }
    assert(spec_shutdown_ops(spec_shutdown_state(c)) =~= seq![SysOp::RemovePath]);
}

/// Readiness polling gives up after the fixed bound: if the socket never
/// becomes connectable, the run ends in a timeout after exactly
/// `POLL_ATTEMPTS` probes and `POLL_ATTEMPTS` sleeps of `POLL_INTERVAL_MS`
/// each — it cannot poll longer than that window.
pub proof fn lemma_poll_bounded_give_up(c: ClientV, s: EnsureScript)
    requires
        !(s.initial_probe is Connectable),
        s.spawn_ok,
        s.polls.len() >= POLL_ATTEMPTS,
        forall|i: int| 0 <= i < s.polls.len() ==> !s.polls[i],
    ensures
        ({
            let o = spec_ensure_run(c, s);
            &&& o.result is TimedOut
            &&& count_op(o.ops, SysOp::PollProbe) == POLL_ATTEMPTS
            &&& count_op(o.ops, SysOp::Sleep) == POLL_ATTEMPTS
        }),
{
    let o = spec_ensure_run(c, s);
    let cleanup = spec_cleanup_ops(c, s.initial_probe);
    let pre = seq![SysOp::ProbeOp] + cleanup + seq![SysOp::Spawn];
    lemma_poll_all_fail(POLL_ATTEMPTS as nat, s.polls);
    lemma_count_op_add(pre, spec_poll_ops(POLL_ATTEMPTS as nat, s.polls), SysOp::PollProbe);
    lemma_count_op_add(pre, spec_poll_ops(POLL_ATTEMPTS as nat, s.polls), SysOp::Sleep);
    lemma_pre_spawn_counts(c, s.initial_probe, SysOp::PollProbe);
    lemma_pre_spawn_counts(c, s.initial_probe, SysOp::Sleep);
    lemma_cleanup_counts(c, s.initial_probe, SysOp::PollProbe);
    lemma_cleanup_counts(c, s.initial_probe, SysOp::Sleep);
}

/// Each single poll decision agrees with the poll model: `Ready` means the
/// model is ready, a retry preserves the model's verdict with one unit of
/// budget spent, and `GiveUp` happens only when the model cannot become
/// ready.
pub proof fn lemma_poll_step_model(left: u32, polls: Seq<bool>)
    requires
        left >= 1,
        polls.len() >= 1,
    ensures
        ({
            let s = spec_poll_step(PollBudget { left }, polls[0]);
            match s {
                PollStep::Ready => spec_poll_ready(left as nat, polls),
                PollStep::SleepAndRetry(b) => b.left == left - 1 && spec_poll_ready(
                    left as nat,
                    polls,
                ) == spec_poll_ready(b.left as nat, polls.drop_first()),
                PollStep::GiveUp => !spec_poll_ready(left as nat, polls),
            }
        }),
{
}

} // verus!
