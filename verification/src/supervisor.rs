use vstd::prelude::*;
use vstd::string::*;
use vstd::arithmetic::power2::{pow2, lemma_pow2_unfold};
use vstd::arithmetic::power::lemma_pow0;
use vstd::bits::{lemma_u64_shl_is_mul, lemma_u64_pow2_no_overflow};
use crate::numfmt::{spec_dec, u64_to_string};

verus! {

/// How long, in milliseconds, the shutdown protocol waits in all for the
/// child to exit after the terminate signal, before it kills forcefully.
pub const SHUTDOWN_GRACE_MS: u64 = 5000;

/// How long, in milliseconds, the shutdown protocol sleeps between two
/// non-blocking looks at the child's exit status.
pub const SHUTDOWN_POLL_INTERVAL_MS: u64 = 100;

/// How many spawn attempts the retry policy makes before it gives up.
pub const DEFAULT_MAX_RETRIES: u32 = 3;

/// The seconds slept after the `attempts`-th failed spawn attempt, before
/// the next one: 1, 2, 4, ... — the base doubles with every failure.
pub open spec fn spec_backoff_secs(attempts: int) -> int {
    pow2((attempts - 1) as nat) as int
}

/// The error returned once every spawn attempt has failed: it names the
/// number of attempts made and the last underlying cause.
pub open spec fn spec_retry_exhausted_msg(max_retries: int, last_error: Seq<char>) -> Seq<char> {
    "Backend failed to start after "@ + spec_dec(max_retries) + " attempts: "@ + last_error
}

/// Owns the lifecycle of the single supervised child process: at most one
/// generation is tracked at a time, and starting a new one presumes the
/// previous one was shut down. The embedder performs the process and file
/// operations themselves and reports their outcomes back.
pub struct SidecarManager {
    child: Option<u64>,
    max_retries: u32,
}

/// The running count of failed spawn attempts of one retry run.
pub struct RetryState {
    attempts: u32,
}

/// What the retry policy decides after one spawn attempt.
pub enum RetryStep {
    /// The attempt succeeded; the new generation is now tracked.
    Succeeded,
    /// Every attempt failed; the run is over with this error.
    GiveUp(String),
    /// Sleep this many seconds, then attempt again.
    Backoff(u64),
}

/// What the shutdown protocol does next while waiting for the child to exit.
pub enum ShutdownPoll {
    /// The child has exited; shutdown is complete.
    Exited,
    /// Keep waiting: sleep one poll interval and look again.
    KeepWaiting,
    /// The grace period is over: kill forcefully and block until the exit
    /// is confirmed.
    ForceKill,
}

/// The fixed process surface of the helper: the program, its script
/// argument, and the environment pairs fixing the listening port and the
/// production-mode flag. The embedder launches exactly this, in its
/// configured working directory.
pub fn spawn_command() -> (r: (String, String, Vec<(String, String)>))
    ensures
        r.0@ == "node"@,
        r.1@ == "server.js"@,
        r.2@.len() == 2,
        r.2@[0].0@ == "NODE_ENV"@ && r.2@[0].1@ == "production"@,
        r.2@[1].0@ == "PORT"@ && r.2@[1].1@ == "3001"@,
{
    let mut env: Vec<(String, String)> = Vec::new();
    env.push((String::from_str("NODE_ENV"), String::from_str("production")));
    env.push((String::from_str("PORT"), String::from_str("3001")));
    (String::from_str("node"), String::from_str("server.js"), env)
}

/// The relation between one retry decision's inputs and outputs: what
/// `retry_step` promises of the supervisor, the attempt count and the
/// decision.
pub open spec fn spec_retry_step_post(
    pre: SidecarManager,
    pre_st: RetryState,
    outcome: Result<u64, String>,
    post: SidecarManager,
    post_st: RetryState,
    r: RetryStep,
) -> bool {
    &&& post.spec_max_retries() == pre.spec_max_retries()
    &&& match outcome {
        Ok(pid) => {
            &&& r is Succeeded
            &&& post.spec_child() == Some(pid)
            &&& post_st == pre_st
        },
        Err(e) => {
            &&& post == pre
            &&& post_st.spec_attempts() == pre_st.spec_attempts() + 1
            &&& (if pre_st.spec_attempts() + 1 == pre.spec_max_retries() {
                r matches RetryStep::GiveUp(m) && m@ == spec_retry_exhausted_msg(
                    pre.spec_max_retries() as int,
                    e@,
                )
            } else {
                r matches RetryStep::Backoff(d) && d == spec_backoff_secs(
                    pre_st.spec_attempts() + 1,
                )
            })
        },
    }
}

/// The relation between a supervisor before and after `shutdown`, and the
/// returned handle.
pub open spec fn spec_shutdown_post(
    pre: SidecarManager,
    post: SidecarManager,
    r: Option<u64>,
) -> bool {
    &&& post.spec_child() is None
    &&& post.spec_max_retries() == pre.spec_max_retries()
    &&& r == pre.spec_child()
    &&& (pre.spec_child() is None ==> post == pre)
}

impl RetryState {
    /// How many spawn attempts have failed so far in this run.
    pub closed spec fn spec_attempts(&self) -> u32 {
        self.attempts
    }

    /// A fresh run: no attempt has been made yet.
    pub fn new() -> (r: RetryState)
        ensures
            r.spec_attempts() == 0,
    {
        RetryState { attempts: 0 }
    }
}

impl SidecarManager {
    /// The tracked child generation, as the identifier the embedder's spawn
    /// reported, or `None` when no process is tracked.
    pub closed spec fn spec_child(&self) -> Option<u64> {
        self.child
    }

    /// The bound on spawn attempts per retry run.
    pub closed spec fn spec_max_retries(&self) -> u32 {
        self.max_retries
    }

    /// The retry bound stays in a range where every backoff delay fits.
    pub open spec fn wf(&self) -> bool {
        1 <= self.spec_max_retries() <= 32
    }

    /// A supervisor with no process tracked and the default retry bound.
    pub fn new() -> (r: SidecarManager)
        ensures
            r.spec_child() is None,
            r.spec_max_retries() == DEFAULT_MAX_RETRIES,
            r.wf(),
    {
        SidecarManager { child: None, max_retries: DEFAULT_MAX_RETRIES }
    }

    /// Whether a child generation is currently tracked. Whether that process
    /// is still alive is the embedder's non-blocking wait to answer.
    pub fn is_running(&self) -> (r: bool)
        ensures
            r == (self.spec_child() is Some),
    {
        self.child.is_some()
    }

    /// Begins tracking the generation a successful spawn produced. The
    /// previous generation must already have been shut down, or its process
    /// would leak.
    pub fn note_spawned(&mut self, pid: u64)
        requires
            old(self).spec_child() is None,
        ensures
            final(self).spec_child() == Some(pid),
            final(self).spec_max_retries() == old(self).spec_max_retries(),
    {
        self.child = Some(pid);
    }

    /// Stops tracking the current generation and hands its identifier to the
    /// embedder, which must now terminate that process and confirm its exit,
    /// polling as `shutdown_poll_step` directs. With no process tracked this
    /// is a no-op. Idempotent: afterwards the supervisor is always in the
    /// "no process" state.
    pub fn shutdown(&mut self) -> (r: Option<u64>)
        ensures
            spec_shutdown_post(*old(self), *final(self), r),
    {
        self.child.take()
    }

    /// One decision of the spawn retry policy, after the embedder made one
    /// spawn attempt and reports its outcome: on success the new generation
    /// is tracked; on failure, either every attempt is used up and the run
    /// ends with the error naming the attempt count and the last cause, or
    /// the embedder must sleep the exponentially grown backoff delay and
    /// attempt again.
    pub fn retry_step(&mut self, st: &mut RetryState, outcome: Result<u64, String>) -> (r:
        RetryStep)
        requires
            old(self).wf(),
            old(self).spec_child() is None,
            old(st).spec_attempts() < old(self).spec_max_retries(),
        ensures
            final(self).wf(),
            spec_retry_step_post(*old(self), *old(st), outcome, *final(self), *final(st), r),
    {
        match outcome {
            Ok(pid) => {
                self.child = Some(pid);
                RetryStep::Succeeded
            },
            Err(e) => {
                st.attempts = st.attempts + 1;
                if st.attempts == self.max_retries {
                    let mut m = String::from_str("Backend failed to start after ");
                    m.append(u64_to_string(self.max_retries as u64).as_str());
                    m.append(" attempts: ");
                    m.append(e.as_str());
                    RetryStep::GiveUp(m)
                } else {
                    let exp: u64 = (st.attempts - 1) as u64;
                    proof {
                        lemma_u64_pow2_no_overflow(exp as nat);
                        lemma_u64_shl_is_mul(1u64, exp);
                    }
                    let d: u64 = 1u64 << exp;
                    RetryStep::Backoff(d)
                }
            },
        }
    }

    /// The whole retry run: calls `spawn` — the embedder's one attempt at
    /// creating the process — up to `max_retries` times, sleeping the
    /// doubling backoff delay through `sleep_secs` between failed attempts.
    /// Ends tracking the spawned generation, or with the error naming the
    /// attempt count and the last underlying cause.
    pub fn spawn_with_retry<F: Fn() -> Result<u64, String>, S: Fn(u64)>(
        &mut self,
        spawn: &F,
        sleep_secs: &S,
    ) -> (r: Result<(), String>)
        requires
            old(self).wf(),
            old(self).spec_child() is None,
            call_requires(*spawn, ()),
            forall|d: u64| call_requires(*sleep_secs, (d,)),
        ensures
            final(self).spec_max_retries() == old(self).spec_max_retries(),
            r is Ok ==> exists|pid: u64|
                {
                    &&& #[trigger] call_ensures(*spawn, (), Ok::<u64, String>(pid))
                    &&& final(self).spec_child() == Some(pid)
                },
            r matches Err(m) ==> final(self).spec_child() is None && exists|e: String|
                {
                    &&& #[trigger] call_ensures(*spawn, (), Err::<u64, String>(e))
                    &&& m@ == spec_retry_exhausted_msg(old(self).spec_max_retries() as int, e@)
                },
    {
        let mut st = RetryState::new();
        loop
            invariant
                self.wf(),
                self.spec_child() is None,
                self.spec_max_retries() == old(self).spec_max_retries(),
                st.spec_attempts() < self.spec_max_retries(),
                call_requires(*spawn, ()),
                forall|d: u64| call_requires(*sleep_secs, (d,)),
            decreases self.spec_max_retries() - st.spec_attempts(),
        {
            let outcome = spawn();
            let ghost outcome_spec = outcome;
            match self.retry_step(&mut st, outcome) {
                RetryStep::Succeeded => {
                    proof {
                        let pid = outcome_spec->Ok_0;
                        assert(call_ensures(*spawn, (), Ok::<u64, String>(pid)));
                    }
                    return Ok(());
                },
                RetryStep::GiveUp(m) => {
                    proof {
                        let e = outcome_spec->Err_0;
                        assert(call_ensures(*spawn, (), Err::<u64, String>(e)));
                    }
                    return Err(m);
                },
                RetryStep::Backoff(d) => {
                    sleep_secs(d);
                },
            }
        }
    }

    /// One decision of the shutdown protocol, `elapsed_ms` after the
    /// terminate signal, where `child_exited` is what the embedder's
    /// non-blocking wait just reported: done on exit, a forceful kill once
    /// the grace period is over, one more poll interval otherwise.
    pub fn shutdown_poll_step(elapsed_ms: u64, child_exited: bool) -> (r: ShutdownPoll)
        ensures
            child_exited ==> r is Exited,
            !child_exited && elapsed_ms > SHUTDOWN_GRACE_MS ==> r is ForceKill,
            !child_exited && elapsed_ms <= SHUTDOWN_GRACE_MS ==> r is KeepWaiting,
    {
        if child_exited {
            ShutdownPoll::Exited
        } else if elapsed_ms > SHUTDOWN_GRACE_MS {
            ShutdownPoll::ForceKill
        } else {
            ShutdownPoll::KeepWaiting
        }
    }
}

/// Shutting down twice in a row, with nothing spawned in between, is a no-op
/// both times as soon as no process is tracked: neither call changes the
/// supervisor, and neither returns a process to kill a second time.
pub proof fn lemma_shutdown_idempotent(
    m0: SidecarManager,
    m1: SidecarManager,
    r1: Option<u64>,
    m2: SidecarManager,
    r2: Option<u64>,
)
    requires
        m0.spec_child() is None,
        spec_shutdown_post(m0, m1, r1),
        spec_shutdown_post(m1, m2, r2),
    ensures
        m1 == m0,
        m2 == m1,
        r1 is None,
        r2 is None,
{
}

/// With the default bound of three attempts and a spawn that fails every
/// time, the retry run makes exactly three attempts: the first two failures
/// back off — one second, then two — and only the third ends the run, with
/// the error naming the count of three attempts and the last cause.
pub proof fn lemma_always_failing_spawn_exhausts_three(
    m0: SidecarManager,
    st0: RetryState,
    e1: String,
    m1: SidecarManager,
    st1: RetryState,
    r1: RetryStep,
    e2: String,
    m2: SidecarManager,
    st2: RetryState,
    r2: RetryStep,
    e3: String,
    m3: SidecarManager,
    st3: RetryState,
    r3: RetryStep,
)
    requires
        m0.spec_max_retries() == DEFAULT_MAX_RETRIES,
        st0.spec_attempts() == 0,
        spec_retry_step_post(m0, st0, Err(e1), m1, st1, r1),
        spec_retry_step_post(m1, st1, Err(e2), m2, st2, r2),
        spec_retry_step_post(m2, st2, Err(e3), m3, st3, r3),
    ensures
        r1 matches RetryStep::Backoff(d1) && d1 == 1,
        r2 matches RetryStep::Backoff(d2) && d2 == 2,
        r3 matches RetryStep::GiveUp(m) && m@ == spec_retry_exhausted_msg(
            DEFAULT_MAX_RETRIES as int,
            e3@,
        ),
        st3.spec_attempts() == DEFAULT_MAX_RETRIES,
        m3 == m0,
{
    lemma_pow0(2);
    lemma_pow2_unfold(1);
}

/// The backoff delays of successive failed spawn attempts double: the first
/// is one second, and each later one is twice the one before it.
pub proof fn lemma_backoff_doubles(attempts: int)
    requires
        attempts >= 1,
    ensures
        spec_backoff_secs(1) == 1,
        spec_backoff_secs(attempts + 1) == 2 * spec_backoff_secs(attempts),
{
    lemma_pow0(2);
    assert(spec_backoff_secs(1) == pow2(0));
    lemma_pow2_unfold(attempts as nat);
}

} // verus!
