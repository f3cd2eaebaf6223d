use vstd::prelude::*;
use vstd::string::*;
use crate::error_page::{generate_error_html, spec_error_html};
use crate::supervisor::{SidecarManager, spec_shutdown_post};

verus! {

/// Whether the product spawns its own backend or relies on one the developer
/// runs out-of-band. Bound once, at construction, never read ambiently.
#[derive(Clone, Copy)]
pub enum BootMode {
    Dev,
    Prod,
}

/// Whether the mode is the development one, in which no child is spawned
/// and only health polling runs.
pub fn is_dev(mode: BootMode) -> (r: bool)
    ensures
        r == (mode is Dev),
{
    match mode {
        BootMode::Dev => true,
        BootMode::Prod => false,
    }
}

/// Where the boot workflow stands.
pub enum BootPhase {
    NotStarted,
    AwaitingSpawn,
    AwaitingHealth,
    ReadyShown,
    ErrorShown,
}

/// What the embedder reports into the boot workflow.
pub enum BootEvent {
    /// The application has launched; begin the workflow.
    Begin,
    /// The spawn (with retry) succeeded with this process identifier.
    SpawnOk(u64),
    /// Every spawn attempt failed; this is the retry policy's error.
    SpawnFailed(String),
    /// The health poll saw a success status.
    HealthOk,
    /// The health poll's overall budget ran out; this is its error.
    HealthTimeout(String),
}

/// What the boot workflow asks the shell to do next.
pub enum UiAction {
    /// Nothing to show yet: the embedder performs the current phase's work
    /// (spawning or polling) and reports the outcome back.
    Proceed,
    /// Show and focus the main surface.
    Reveal,
    /// Point the surface at this address, then show and focus it.
    NavigateAndReveal(String),
    /// Replace the displayed content with this diagnostic document.
    RenderDiagnostic(String),
}

/// The fixed local address the backend serves.
pub open spec fn spec_backend_url() -> Seq<char> {
    "http://127.0.0.1:3001"@
}

/// The fixed readiness endpoint of the backend.
pub open spec fn spec_health_url() -> Seq<char> {
    "http://127.0.0.1:3001/health"@
}

/// See `spec_backend_url`.
pub fn backend_url() -> (r: String)
    ensures
        r@ == spec_backend_url(),
{
    String::from_str("http://127.0.0.1:3001")
}

/// See `spec_health_url`.
pub fn health_url() -> (r: String)
    ensures
        r@ == spec_health_url(),
{
    String::from_str("http://127.0.0.1:3001/health")
}

/// The informational lines shown instead of log content when a
/// development-mode backend never answered.
pub open spec fn spec_dev_hint_lines() -> Seq<Seq<char>> {
    seq!["Dev mode: backend not responding."@, "Start it with: npm run dev:backend"@]
}

/// Which reports fit which phase.
pub open spec fn spec_event_fits(phase: BootPhase, ev: BootEvent) -> bool {
    match (phase, ev) {
        (BootPhase::NotStarted, BootEvent::Begin) => true,
        (BootPhase::AwaitingSpawn, BootEvent::SpawnOk(_)) => true,
        (BootPhase::AwaitingSpawn, BootEvent::SpawnFailed(_)) => true,
        (BootPhase::AwaitingHealth, BootEvent::HealthOk) => true,
        (BootPhase::AwaitingHealth, BootEvent::HealthTimeout(_)) => true,
        _ => false,
    }
}

/// The transition relation of the boot workflow: for each report, the next
/// phase and exactly what the shell is asked to do, where `tail` is the log
/// tail the embedder read for diagnostics.
pub open spec fn spec_boot_post(
    mode: BootMode,
    ev: BootEvent,
    tail: Seq<Seq<char>>,
    post: BootPhase,
    action: UiAction,
) -> bool {
    match ev {
        BootEvent::Begin => {
            &&& (if mode is Prod {
                post is AwaitingSpawn
            } else {
                post is AwaitingHealth
            })
            &&& action is Proceed
        },
        BootEvent::SpawnOk(_) => post is AwaitingHealth && action is Proceed,
        BootEvent::SpawnFailed(e) => {
            &&& post is ErrorShown
            &&& action matches UiAction::RenderDiagnostic(h) && h@ == spec_error_html(e@, tail)
        },
        BootEvent::HealthOk => {
            &&& post is ReadyShown
            &&& (if mode is Prod {
                action matches UiAction::NavigateAndReveal(u) && u@ == spec_backend_url()
            } else {
                action is Reveal
            })
        },
        BootEvent::HealthTimeout(e) => {
            &&& post is ErrorShown
            &&& (if mode is Dev {
                action matches UiAction::RenderDiagnostic(h) && h@ == spec_error_html(
                    e@,
                    spec_dev_hint_lines(),
                )
            } else {
                action matches UiAction::RenderDiagnostic(h) && h@ == spec_error_html(e@, tail)
            })
        },
    }
}

/// Sequences supervisor and poller into the externally visible workflows
/// and decides every user-visible outcome; the embedder performs the
/// process, network and shell work and reports back.
pub struct Orchestrator {
    mode: BootMode,
    phase: BootPhase,
}

impl Orchestrator {
    /// The boot mode this orchestrator was constructed with.
    pub closed spec fn spec_mode(&self) -> BootMode {
        self.mode
    }

    /// Where the boot workflow stands.
    pub closed spec fn spec_phase(&self) -> BootPhase {
        self.phase
    }

    /// A workflow that has not begun.
    pub fn new(mode: BootMode) -> (r: Orchestrator)
        ensures
            r.spec_mode() == mode,
            r.spec_phase() is NotStarted,
    {
        Orchestrator { mode, phase: BootPhase::NotStarted }
    }

    /// One transition of the boot workflow. `log_tail` is the bounded tail
    /// of log lines the embedder read fresh for diagnostics; it is shown
    /// only when the report is a failure.
    pub fn boot_step(&mut self, ev: BootEvent, log_tail: &Vec<String>) -> (r: UiAction)
        requires
            spec_event_fits(old(self).spec_phase(), ev),
        ensures
            final(self).spec_mode() == old(self).spec_mode(),
            spec_boot_post(
                old(self).spec_mode(),
                ev,
                log_tail@.map_values(|l: String| l@),
                final(self).spec_phase(),
                r,
            ),
    {
        match ev {
            BootEvent::Begin => {
                self.phase = match self.mode {
                    BootMode::Prod => BootPhase::AwaitingSpawn,
                    BootMode::Dev => BootPhase::AwaitingHealth,
                };
                UiAction::Proceed
            },
            BootEvent::SpawnOk(_pid) => {
                self.phase = BootPhase::AwaitingHealth;
                UiAction::Proceed
            },
            BootEvent::SpawnFailed(e) => {
                self.phase = BootPhase::ErrorShown;
                UiAction::RenderDiagnostic(generate_error_html(e.as_str(), log_tail.as_slice()))
            },
            BootEvent::HealthOk => {
                self.phase = BootPhase::ReadyShown;
                match self.mode {
                    BootMode::Prod => UiAction::NavigateAndReveal(backend_url()),
                    BootMode::Dev => UiAction::Reveal,
                }
            },
            BootEvent::HealthTimeout(e) => {
                self.phase = BootPhase::ErrorShown;
                match self.mode {
                    BootMode::Dev => {
                        let mut hints: Vec<String> = Vec::new();
                        hints.push(String::from_str("Dev mode: backend not responding."));
                        hints.push(String::from_str("Start it with: npm run dev:backend"));
                        proof {
                            assert(hints@.map_values(|l: String| l@) =~= spec_dev_hint_lines());
                        }
                        UiAction::RenderDiagnostic(
                            generate_error_html(e.as_str(), hints.as_slice()),
                        )
                    },
                    BootMode::Prod => {
                        UiAction::RenderDiagnostic(
                            generate_error_html(e.as_str(), log_tail.as_slice()),
                        )
                    },
                }
            },
        }
    }
}

/// The failure returned when a restart is requested before any supervisor
/// exists.
pub open spec fn spec_no_manager_msg() -> Seq<char> {
    "No sidecar manager available"@
}

/// Begins the user-triggered restart. With no supervisor in the slot it
/// fails immediately with the error naming that, the slot untouched and no
/// spawn attempted. Otherwise the current supervisor stops tracking its
/// process, which the embedder must now terminate (then respawn with retry
/// and poll health).
pub fn restart_begin(slot: &mut Option<SidecarManager>) -> (r: Result<Option<u64>, String>)
    ensures
        match *old(slot) {
            None => {
                &&& *final(slot) is None
                &&& r matches Err(m) && m@ == spec_no_manager_msg()
            },
            Some(m0) => {
                &&& (*final(slot)) matches Some(m1) && (r matches Ok(p) && spec_shutdown_post(
                    m0,
                    m1,
                    p,
                ))
            },
        },
{
    let cur = slot.take();
    match cur {
        None => Err(String::from_str("No sidecar manager available")),
        Some(mut m) => {
            let pid = m.shutdown();
            *slot = Some(m);
            Ok(pid)
        },
    }
}

/// The outcome string of a restart whose respawn and health poll both
/// succeeded.
pub fn restart_success() -> (r: String)
    ensures
        r@ == "Backend restarted"@,
{
    String::from_str("Backend restarted")
}

/// What `serde_json::to_string` renders a string value as: one JSON string
/// literal. The rendering depends on the characters alone.
pub uninterp spec fn json_string_of(s: Seq<char>) -> Seq<char>;

/// Relies on `serde_json::to_string` for a `str` value: its serializer only
/// writes into memory and cannot fail for a string, and its output is a
/// function of the characters alone.
#[verifier::external_body]
fn json_encode_str(s: &str) -> (r: String)
    ensures
        r@ == json_string_of(s@),
{
    serde_json::to_string(s).unwrap_or_default()
}

/// The script the shell evaluates to replace the displayed document with a
/// diagnostic: it rewrites the page with the document, passed as one JSON
/// string literal.
pub fn show_error_script(html: &str) -> (r: String)
    ensures
        r@ == "document.open(); document.write("@ + json_string_of(html@)
            + "); document.close();"@,
{
    let mut s = String::from_str("document.open(); document.write(");
    s.append(json_encode_str(html).as_str());
    s.append("); document.close();");
    s
}

/// The terminal outcomes accept no further report: once Ready-Shown or
/// Error-Shown is reached, the boot workflow is over.
pub proof fn lemma_terminal_phases_absorb(ev: BootEvent)
    ensures
        !spec_event_fits(BootPhase::ReadyShown, ev),
        !spec_event_fits(BootPhase::ErrorShown, ev),
{
}

/// A boot whose spawn succeeds and whose health check then times out ends
/// with the diagnostic rendered from the supplied log tail — and at no step
/// along that way is the shell asked to reveal or navigate.
pub proof fn lemma_unreachable_backend_never_reveals(
    mode: BootMode,
    t1: Seq<Seq<char>>,
    p1: BootPhase,
    a1: UiAction,
    pid: u64,
    t2: Seq<Seq<char>>,
    p2: BootPhase,
    a2: UiAction,
    e: String,
    t3: Seq<Seq<char>>,
    p3: BootPhase,
    a3: UiAction,
)
    requires
        mode is Prod,
        spec_boot_post(mode, BootEvent::Begin, t1, p1, a1),
        spec_boot_post(mode, BootEvent::SpawnOk(pid), t2, p2, a2),
        spec_boot_post(mode, BootEvent::HealthTimeout(e), t3, p3, a3),
    ensures
        p3 is ErrorShown,
        a3 matches UiAction::RenderDiagnostic(h) && h@ == spec_error_html(e@, t3),
        !(a1 is Reveal) && !(a1 matches UiAction::NavigateAndReveal(_)),
        !(a2 is Reveal) && !(a2 matches UiAction::NavigateAndReveal(_)),
        !(a3 is Reveal) && !(a3 matches UiAction::NavigateAndReveal(_)),
{
}

} // verus!
