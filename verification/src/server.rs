//! The server instance and its two-phase lifecycle.
//!
//! `connect` turns a configuration plus the outcome of the external key
//! rotator's connect operation into a ready server: shared rotator handle
//! behind its lock, immutable TLS configuration behind a reference count,
//! nothing bound and nothing spawned. `start` yields a state machine that
//! pins the whole startup sequence: rotation worker first, then the optional
//! telemetry worker, then one listener worker per configured address in
//! order, then the counted join on the completion coordinator. The I/O layer
//! drives the machine by performing each demanded action and reporting the
//! outcome back as an event.

use std::rc::Rc;
use std::sync::Arc;
use vstd::prelude::*;

use crate::config::KeServerConfig;
use crate::coordinator::CompletionCoordinator;
use crate::errors::{ConnectError, RotateError, SetupError};
use crate::rotator::{KeyRotator, SharedRotator};
use crate::tls::{key_der_accepted, TlsServerConfig};

verus! {

/// State shared among the listener workers: the configuration, the shared
/// key-rotator handle and the shared TLS configuration.
pub struct KeServerState {
    config: KeServerConfig,
    rotator: SharedRotator,
    tls_server_config: Arc<TlsServerConfig>,
}

impl KeServerState {
    /// The configuration the state was assembled from.
    pub closed spec fn spec_config(&self) -> KeServerConfig {
        self.config
    }

    /// The shared key-rotator handle.
    pub closed spec fn spec_rotator(&self) -> SharedRotator {
        self.rotator
    }

    /// The shared TLS configuration.
    pub closed spec fn spec_tls_config(&self) -> TlsServerConfig {
        *self.tls_server_config
    }

    /// Validity of the shared state: the rotator lock guards exactly the
    /// coherence invariant, and the TLS configuration carries the fixed
    /// policy.
    pub open spec fn wf(&self) -> bool {
        &&& self.spec_rotator().wf_handle()
        &&& self.spec_tls_config().wf()
    }

    /// Read access to the configuration.
    pub fn config(&self) -> (r: &KeServerConfig)
        ensures
            *r == self.spec_config(),
    {
        &self.config
    }

    /// A fresh handle to the shared rotator, as handed to each worker at
    /// spawn time. It stands for the same lock: every snapshot a worker
    /// takes through it is a coherent stored state.
    pub fn share_rotator(&self) -> (r: SharedRotator)
        requires
            self.wf(),
        ensures
            r == self.spec_rotator(),
            r.wf_handle(),
    {
        self.rotator.clone_handle()
    }

    /// A fresh reference-counted handle to the TLS configuration, as handed
    /// to each listener worker at spawn time. Every handle observes the one
    /// value built at connect time: the configuration is never mutated.
    pub fn share_tls_config(&self) -> (h: Arc<TlsServerConfig>)
        ensures
            *h == self.spec_tls_config(),
    {
        self.tls_server_config.clone()
    }
}

/// Record of one listener worker, informational: which configured address it
/// serves.
pub struct KeListener {
    /// The configured address this listener is bound to.
    pub addr: String,
}

/// The NTS-KE server instance: the shared state, owned by the orchestrating
/// thread, and the informational collection of listener records.
pub struct KeServer {
    state: Rc<KeServerState>,
    listeners: Vec<KeListener>,
}

impl KeServer {
    /// The shared state.
    pub closed spec fn spec_state(&self) -> KeServerState {
        *self.state
    }

    /// The listener records.
    pub closed spec fn spec_listeners(&self) -> Seq<KeListener> {
        self.listeners@
    }

    /// Validity of the instance: its shared state is valid.
    pub open spec fn wf(&self) -> bool {
        self.spec_state().wf()
    }

    /// The shared state, behind its reference count.
    pub fn state(&self) -> (r: &Rc<KeServerState>)
        ensures
            **r == self.spec_state(),
    {
        &self.state
    }

    /// Assemble a server from the configuration and the outcome of the
    /// external key rotator's connect operation, which the I/O layer has
    /// performed first (it is the only fallible side effect of this phase).
    ///
    /// A rotator failure is propagated unchanged and nothing is built.
    /// Otherwise the TLS identity is built exactly once: a configuration
    /// without a private key is rejected, and so is one whose first key the
    /// identity cannot be installed from — success there is the outside
    /// call's decision, so it is not promised, but an unparseable key is
    /// certainly rejected. On success the instance holds exactly the given
    /// configuration, a valid shared state and no listeners: no socket is
    /// bound and no worker exists yet.
    pub fn connect(config: KeServerConfig, rotator: Result<KeyRotator, RotateError>) -> (r: Result<
        KeServer,
        ConnectError,
    >)
        requires
            rotator is Ok ==> rotator->Ok_0.wf(),
        ensures
            rotator is Err ==> r == Err::<KeServer, ConnectError>(
                ConnectError::Rotate(rotator->Err_0),
            ),
            rotator is Ok && config.tls_secret_keys@.len() == 0 ==> r == Err::<
                KeServer,
                ConnectError,
            >(ConnectError::NoPrivateKey),
            rotator is Ok && config.tls_secret_keys@.len() > 0 && !key_der_accepted(
                config.tls_secret_keys@[0]@,
            ) ==> r == Err::<KeServer, ConnectError>(ConnectError::InvalidPrivateKey),
            rotator is Ok && config.tls_secret_keys@.len() > 0 ==> (r is Ok || r == Err::<
                KeServer,
                ConnectError,
            >(ConnectError::InvalidPrivateKey)),
            r is Ok ==> rotator is Ok && config.tls_secret_keys@.len() > 0 && key_der_accepted(
                config.tls_secret_keys@[0]@,
            ),
            r is Ok ==> connect_establishes(config, r->Ok_0),
    {
        let initial = match rotator {
            Err(e) => {
                return Err(ConnectError::Rotate(e));
            },
            Ok(initial) => initial,
        };
        if config.tls_secret_keys.len() == 0 {
            return Err(ConnectError::NoPrivateKey);
        }
        let tls = match TlsServerConfig::build(&config.tls_certs, &config.tls_secret_keys[0]) {
            Ok(t) => t,
            Err(_) => {
                return Err(ConnectError::InvalidPrivateKey);
            },
        };
        let state = KeServerState {
            config,
            rotator: SharedRotator::new(initial),
            tls_server_config: Arc::new(tls),
        };
        Ok(KeServer { state: Rc::new(state), listeners: Vec::new() })
    }

    /// Begin the start phase: the machine that pins the startup sequence,
    /// initialized from the configuration. The server itself is unchanged;
    /// the I/O layer drives the machine and shares the state's handles out
    /// to the workers it spawns.
    pub fn start(&mut self) -> (m: StartMachine)
        ensures
            *final(self) == *old(self),
            m.wf(),
            m.spec_phase() is RotationPending,
            m.spec_addrs() == old(self).spec_state().spec_config().addrs@,
            m.spec_telemetry() == old(self).spec_state().spec_config().metrics_config is Some,
            m.spec_spawned() == 0,
            m.spec_exited() == 0,
            m.spec_outstanding() == 0,
            !m.spec_telemetry_failed(),
    {
        let telemetry = self.state.config().metrics_config.is_some();
        let addrs = clone_addrs(self.state.config().addrs());
        StartMachine::new(addrs, telemetry)
    }
}

/// What a successful connect establishes: the instance holds exactly the
/// given configuration; its shared TLS configuration carries the fixed
/// policy and exactly the configured certificate chain and first private
/// key; the rotator lock guards the coherence invariant; and no listener
/// exists — no socket bound, no worker spawned.
pub open spec fn connect_establishes(config: KeServerConfig, server: KeServer) -> bool {
    &&& server.wf()
    &&& server.spec_state().spec_config() == config
    &&& server.spec_state().spec_tls_config().spec_cert_chain() == config.tls_certs@.map_values(
        |c: Vec<u8>| c@,
    )
    &&& server.spec_state().spec_tls_config().spec_private_key() == config.tls_secret_keys@[0]@
    &&& server.spec_listeners().len() == 0
}

/// Phase of the start sequence.
#[derive(Clone, Copy, Debug, PartialEq, Eq, Structural)]
pub enum StartPhase {
    /// The rotation worker has not been handed its handle yet.
    RotationPending,
    /// The telemetry worker is configured and not spawned yet.
    TelemetryPending,
    /// The next configured address awaits its listener.
    AddressPending,
    /// All listeners are spawned; the orchestrating thread joins on the
    /// completion coordinator.
    Waiting,
    /// Every listener worker has exited; the start call returns.
    Stopped,
    /// A listener setup step failed; the whole startup aborts.
    Aborted,
}

/// Action the machine demands from the I/O layer.
#[derive(Clone, Debug, PartialEq, Eq)]
pub enum StartAction {
    /// Hand a rotator handle to the rotation subsystem's run-forever entry.
    StartRotation,
    /// Spawn the telemetry worker; its failure stays its own.
    SpawnTelemetry,
    /// Resolve, bind and construct the handler for this address, then spawn
    /// its listener worker.
    SetupListener(String),
    /// Block until every completion token is released.
    WaitForListeners,
    /// Terminate the process with a diagnostic: configuration defect.
    AbortProcess(SetupError),
    /// The start sequence is over.
    Finished,
}

/// Outcome the I/O layer reports back to the machine.
#[derive(Clone, Copy, Debug, PartialEq, Eq, Structural)]
pub enum StartEvent {
    /// The rotation subsystem took its handle and runs in the background.
    RotationStarted,
    /// The telemetry worker is running.
    TelemetrySpawned,
    /// The telemetry worker failed. Isolated to that worker: it changes
    /// nothing in the rest of the sequence.
    TelemetryFailed,
    /// The current address's listener worker is spawned, with its token.
    ListenerReady,
    /// A setup step of the current address failed.
    ListenerSetupFailed(SetupError),
    /// One listener worker exited and released its token.
    ListenerExited,
}

/// The start sequence as a state machine: rotation worker, optional
/// telemetry worker, one listener per address in configuration order, then
/// the counted join.
pub struct StartMachine {
    addrs: Vec<String>,
    telemetry: bool,
    phase: StartPhase,
    next_index: usize,
    spawned: usize,
    exited: usize,
    telemetry_failed: bool,
    abort_reason: Option<SetupError>,
    coordinator: CompletionCoordinator,
}

impl StartMachine {
    /// The configured addresses, in order.
    pub closed spec fn spec_addrs(&self) -> Seq<String> {
        self.addrs@
    }

    /// Whether a telemetry worker is configured.
    pub closed spec fn spec_telemetry(&self) -> bool {
        self.telemetry
    }

    /// The current phase.
    pub closed spec fn spec_phase(&self) -> StartPhase {
        self.phase
    }

    /// How many addresses have been processed.
    pub closed spec fn spec_next_index(&self) -> int {
        self.next_index as int
    }

    /// How many listener workers have been spawned.
    pub closed spec fn spec_spawned(&self) -> int {
        self.spawned as int
    }

    /// How many listener workers have exited.
    pub closed spec fn spec_exited(&self) -> int {
        self.exited as int
    }

    /// Whether the telemetry worker has failed. Nothing else reads it.
    pub closed spec fn spec_telemetry_failed(&self) -> bool {
        self.telemetry_failed
    }

    /// The setup error that aborted the startup, if one did.
    pub closed spec fn spec_abort_reason(&self) -> Option<SetupError> {
        self.abort_reason
    }

    /// Completion tokens still outstanding.
    pub closed spec fn spec_outstanding(&self) -> int {
        self.coordinator.outstanding()
    }

    /// Invariant of the sequence. In particular: a worker is spawned for an
    /// address exactly when that address was processed successfully; tokens
    /// outstanding are exactly the spawned workers that have not exited; the
    /// sequence only stops once every address got its worker and every
    /// worker exited; an abort freezes the sequence before any later
    /// address.
    pub open spec fn wf(&self) -> bool {
        &&& 0 <= self.spec_next_index() <= self.spec_addrs().len()
        &&& self.spec_spawned() == self.spec_next_index()
        &&& 0 <= self.spec_exited() <= self.spec_spawned()
        &&& self.spec_outstanding() == self.spec_spawned() - self.spec_exited()
        &&& match self.spec_phase() {
            StartPhase::RotationPending => self.spec_next_index() == 0 && self.spec_exited() == 0,
            StartPhase::TelemetryPending => self.spec_next_index() == 0 && self.spec_exited() == 0
                && self.spec_telemetry(),
            StartPhase::AddressPending => self.spec_next_index() < self.spec_addrs().len()
                && self.spec_exited() == 0,
            StartPhase::Waiting => self.spec_next_index() == self.spec_addrs().len()
                && self.spec_exited() < self.spec_spawned(),
            StartPhase::Stopped => self.spec_next_index() == self.spec_addrs().len()
                && self.spec_exited() == self.spec_spawned(),
            StartPhase::Aborted => self.spec_next_index() < self.spec_addrs().len()
                && self.spec_exited() == 0 && self.spec_abort_reason() is Some,
        }
    }

    /// Which events the machine accepts in its current state.
    pub open spec fn allows(&self, ev: StartEvent) -> bool {
        match ev {
            StartEvent::RotationStarted => self.spec_phase() is RotationPending,
            StartEvent::TelemetrySpawned => self.spec_phase() is TelemetryPending,
            StartEvent::TelemetryFailed => self.spec_telemetry(),
            StartEvent::ListenerReady => self.spec_phase() is AddressPending,
            StartEvent::ListenerSetupFailed(_) => self.spec_phase() is AddressPending,
            StartEvent::ListenerExited => self.spec_phase() is Waiting,
        }
    }

    /// A fresh machine for the given addresses and telemetry choice.
    pub fn new(addrs: Vec<String>, telemetry: bool) -> (m: StartMachine)
        ensures
            m.wf(),
            m.spec_phase() is RotationPending,
            m.spec_addrs() == addrs@,
            m.spec_telemetry() == telemetry,
            m.spec_spawned() == 0,
            m.spec_exited() == 0,
            m.spec_outstanding() == 0,
            !m.spec_telemetry_failed(),
            m.spec_abort_reason() is None,
    {
        StartMachine {
            addrs,
            telemetry,
            phase: StartPhase::RotationPending,
            next_index: 0,
            spawned: 0,
            exited: 0,
            telemetry_failed: false,
            abort_reason: None,
            coordinator: CompletionCoordinator::new(),
        }
    }

    /// The action the I/O layer must perform next.
    pub fn next_action(&self) -> (a: StartAction)
        requires
            self.wf(),
        ensures
            self.spec_phase() is RotationPending ==> a == StartAction::StartRotation,
            self.spec_phase() is TelemetryPending ==> a == StartAction::SpawnTelemetry,
            self.spec_phase() is AddressPending ==> (a matches StartAction::SetupListener(addr)
                && addr == self.spec_addrs()[self.spec_next_index()]),
            self.spec_phase() is Waiting ==> a == StartAction::WaitForListeners,
            self.spec_phase() is Stopped ==> a == StartAction::Finished,
            self.spec_phase() is Aborted ==> (a matches StartAction::AbortProcess(e)
                && self.spec_abort_reason() == Some(e)),
    {
        match self.phase {
            StartPhase::RotationPending => StartAction::StartRotation,
            StartPhase::TelemetryPending => StartAction::SpawnTelemetry,
            StartPhase::AddressPending => StartAction::SetupListener(
                self.addrs[self.next_index].clone(),
            ),
            StartPhase::Waiting => StartAction::WaitForListeners,
            StartPhase::Stopped => StartAction::Finished,
            StartPhase::Aborted => StartAction::AbortProcess(self.abort_reason.unwrap()),
        }
    }

    /// Runtime check of [`Self::allows`], for the I/O layer.
    pub fn can_apply(&self, ev: &StartEvent) -> (r: bool)
        ensures
            r == self.allows(*ev),
    {
        match ev {
            StartEvent::RotationStarted => self.phase == StartPhase::RotationPending,
            StartEvent::TelemetrySpawned => self.phase == StartPhase::TelemetryPending,
            StartEvent::TelemetryFailed => self.telemetry,
            StartEvent::ListenerReady => self.phase == StartPhase::AddressPending,
            StartEvent::ListenerSetupFailed(_) => self.phase == StartPhase::AddressPending,
            StartEvent::ListenerExited => self.phase == StartPhase::Waiting,
        }
    }

    /// Feed one event into the machine.
    pub fn apply(&mut self, ev: StartEvent)
        requires
            old(self).wf(),
            old(self).allows(ev),
        ensures
            final(self).wf(),
            steps_to(*old(self), *final(self), ev),
    {
        match ev {
            StartEvent::RotationStarted => {
                if self.telemetry {
                    self.phase = StartPhase::TelemetryPending;
                } else {
                    self.enter_listeners();
                }
            },
            StartEvent::TelemetrySpawned => {
                self.enter_listeners();
            },
            StartEvent::TelemetryFailed => {
                self.telemetry_failed = true;
            },
            StartEvent::ListenerReady => {
                let n = self.addrs.len();
                proof {
                    assert(self.spec_spawned() < n as int);
                }
                self.coordinator.issue_token();
                self.spawned = self.spawned + 1;
                self.next_index = self.next_index + 1;
                if self.next_index == self.addrs.len() {
                    self.phase = StartPhase::Waiting;
                } else {
                    self.phase = StartPhase::AddressPending;
                }
            },
            StartEvent::ListenerSetupFailed(e) => {
                self.abort_reason = Some(e);
                self.phase = StartPhase::Aborted;
            },
            StartEvent::ListenerExited => {
                self.coordinator.release_token();
                self.exited = self.exited + 1;
                if self.exited == self.spawned {
                    self.phase = StartPhase::Stopped;
                } else {
                    self.phase = StartPhase::Waiting;
                }
            },
        }
    }

    fn enter_listeners(&mut self)
        requires
            old(self).spec_next_index() == 0,
            old(self).spec_spawned() == 0,
            old(self).spec_exited() == 0,
            old(self).spec_outstanding() == 0,
        ensures
            final(self).spec_phase() == listeners_entry(*old(self)),
            final(self).spec_addrs() == old(self).spec_addrs(),
            final(self).spec_telemetry() == old(self).spec_telemetry(),
            final(self).spec_next_index() == 0,
            final(self).spec_spawned() == 0,
            final(self).spec_exited() == 0,
            final(self).spec_outstanding() == 0,
            final(self).spec_telemetry_failed() == old(self).spec_telemetry_failed(),
            final(self).spec_abort_reason() == old(self).spec_abort_reason(),
    {
        if self.addrs.len() == 0 {
            self.phase = StartPhase::Stopped;
        } else {
            self.phase = StartPhase::AddressPending;
        }
    }

    /// The current phase.
    pub fn current_phase(&self) -> (p: StartPhase)
        ensures
            p == self.spec_phase(),
    {
        self.phase
    }

    /// Listener workers spawned so far.
    pub fn spawned_count(&self) -> (n: usize)
        ensures
            n == self.spec_spawned(),
    {
        self.spawned
    }

    /// Listener workers that have exited so far.
    pub fn exited_count(&self) -> (n: usize)
        ensures
            n == self.spec_exited(),
    {
        self.exited
    }

    /// Completion tokens still outstanding.
    pub fn outstanding_tokens(&self) -> (n: usize)
        ensures
            n == self.spec_outstanding(),
    {
        self.coordinator.outstanding_tokens()
    }

    /// Whether the telemetry worker has failed.
    pub fn telemetry_has_failed(&self) -> (r: bool)
        ensures
            r == self.spec_telemetry_failed(),
    {
        self.telemetry_failed
    }
}

/// The phase entered once the background workers are up: straight to the
/// join when no address is configured (the wait must not hang), else to the
/// first address.
pub open spec fn listeners_entry(pre: StartMachine) -> StartPhase {
    if pre.spec_addrs().len() == 0 {
        StartPhase::Stopped
    } else {
        StartPhase::AddressPending
    }
}

/// The counters the machine keeps, unchanged.
pub open spec fn counts_unchanged(pre: StartMachine, post: StartMachine) -> bool {
    &&& post.spec_next_index() == pre.spec_next_index()
    &&& post.spec_spawned() == pre.spec_spawned()
    &&& post.spec_exited() == pre.spec_exited()
    &&& post.spec_outstanding() == pre.spec_outstanding()
}

/// The transition relation of the start sequence: exactly how one event
/// moves the machine.
pub open spec fn steps_to(pre: StartMachine, post: StartMachine, ev: StartEvent) -> bool {
    &&& post.spec_addrs() == pre.spec_addrs()
    &&& post.spec_telemetry() == pre.spec_telemetry()
    &&& match ev {
        StartEvent::RotationStarted => {
            &&& post.spec_phase() == (if pre.spec_telemetry() {
                StartPhase::TelemetryPending
            } else {
                listeners_entry(pre)
            })
            &&& counts_unchanged(pre, post)
            &&& post.spec_telemetry_failed() == pre.spec_telemetry_failed()
            &&& post.spec_abort_reason() == pre.spec_abort_reason()
        },
        StartEvent::TelemetrySpawned => {
            &&& post.spec_phase() == listeners_entry(pre)
            &&& counts_unchanged(pre, post)
            &&& post.spec_telemetry_failed() == pre.spec_telemetry_failed()
            &&& post.spec_abort_reason() == pre.spec_abort_reason()
        },
        StartEvent::TelemetryFailed => {
            &&& post.spec_phase() == pre.spec_phase()
            &&& counts_unchanged(pre, post)
            &&& post.spec_telemetry_failed()
            &&& post.spec_abort_reason() == pre.spec_abort_reason()
        },
        StartEvent::ListenerReady => {
            &&& post.spec_next_index() == pre.spec_next_index() + 1
            &&& post.spec_spawned() == pre.spec_spawned() + 1
            &&& post.spec_exited() == pre.spec_exited()
            &&& post.spec_outstanding() == pre.spec_outstanding() + 1
            &&& post.spec_phase() == (if pre.spec_next_index() + 1 == pre.spec_addrs().len() {
                StartPhase::Waiting
            } else {
                StartPhase::AddressPending
            })
            &&& post.spec_telemetry_failed() == pre.spec_telemetry_failed()
            &&& post.spec_abort_reason() == pre.spec_abort_reason()
        },
        StartEvent::ListenerSetupFailed(e) => {
            &&& post.spec_phase() is Aborted
            &&& counts_unchanged(pre, post)
            &&& post.spec_telemetry_failed() == pre.spec_telemetry_failed()
            &&& post.spec_abort_reason() == Some(e)
        },
        StartEvent::ListenerExited => {
            &&& post.spec_next_index() == pre.spec_next_index()
            &&& post.spec_spawned() == pre.spec_spawned()
            &&& post.spec_exited() == pre.spec_exited() + 1
            &&& post.spec_outstanding() == pre.spec_outstanding() - 1
            &&& post.spec_phase() == (if pre.spec_exited() + 1 == pre.spec_spawned() {
                StartPhase::Stopped
            } else {
                StartPhase::Waiting
            })
            &&& post.spec_telemetry_failed() == pre.spec_telemetry_failed()
            &&& post.spec_abort_reason() == pre.spec_abort_reason()
        },
    }
}

/// Law, invariant preservation: every event the machine accepts carries a
/// valid state to a valid state, so the invariant holds along any run.
pub proof fn lemma_step_preserves_wf(pre: StartMachine, post: StartMachine, ev: StartEvent)
    requires
        pre.wf(),
        pre.allows(ev),
        steps_to(pre, post, ev),
    ensures
        post.wf(),
{
}

/// Law, fan-out completeness: once the machine waits or has stopped, every
/// configured address got exactly one listener worker — K addresses, K
/// workers — and after an abort, workers exist exactly for the addresses
/// before the failed one, none for any later address.
pub proof fn lemma_fanout_complete(m: StartMachine)
    requires
        m.wf(),
    ensures
        m.spec_phase() is Waiting || m.spec_phase() is Stopped ==> m.spec_spawned()
            == m.spec_addrs().len(),
        m.spec_phase() is Aborted ==> m.spec_spawned() == m.spec_next_index()
            && m.spec_next_index() < m.spec_addrs().len(),
        m.spec_spawned() <= m.spec_addrs().len(),
{
}

/// Law, abort finality: a failed listener setup freezes the sequence — no
/// event the machine accepts leaves the aborted state or spawns another
/// worker.
pub proof fn lemma_abort_final(pre: StartMachine, post: StartMachine, ev: StartEvent)
    requires
        pre.wf(),
        pre.spec_phase() is Aborted,
        pre.allows(ev),
        steps_to(pre, post, ev),
    ensures
        post.spec_phase() is Aborted,
        post.spec_spawned() == pre.spec_spawned(),
{
}

/// Law, telemetry isolation: a telemetry failure changes nothing the rest of
/// the sequence can observe — phase, counters, tokens and addresses are
/// untouched, so listener workers and the rotation worker are unaffected.
pub proof fn lemma_telemetry_isolated(pre: StartMachine, post: StartMachine)
    requires
        pre.wf(),
        steps_to(pre, post, StartEvent::TelemetryFailed),
    ensures
        post.wf(),
        post.spec_phase() == pre.spec_phase(),
        post.spec_addrs() == pre.spec_addrs(),
        counts_unchanged(pre, post),
        forall|ev: StartEvent| post.allows(ev) == pre.allows(ev),
{
}

/// Law, join correctness: while the machine waits, an exit moves it to
/// stopped exactly when it was the last outstanding worker; and the stopped
/// state is exactly the state with no outstanding token, so the join returns
/// neither early nor late. A sequence with no address stops without waiting.
pub proof fn lemma_join_correct(pre: StartMachine, post: StartMachine)
    requires
        pre.wf(),
        pre.spec_phase() is Waiting,
        steps_to(pre, post, StartEvent::ListenerExited),
    ensures
        post.spec_phase() is Stopped <==> post.spec_outstanding() == 0,
        post.spec_phase() is Stopped <==> pre.spec_exited() + 1 == pre.spec_spawned(),
{
}

/// Law, stopped means joined: whenever the machine has stopped, every
/// spawned worker has exited and no completion token is outstanding.
pub proof fn lemma_stopped_joined(m: StartMachine)
    requires
        m.wf(),
        m.spec_phase() is Stopped,
    ensures
        m.spec_exited() == m.spec_spawned(),
        m.spec_outstanding() == 0,
        m.spec_spawned() == m.spec_addrs().len(),
{
}

/// Copy the configured addresses.
fn clone_addrs(addrs: &Vec<String>) -> (r: Vec<String>)
    ensures
        r@ == addrs@,
{
    let mut r: Vec<String> = Vec::new();
    let mut i: usize = 0;
    while i < addrs.len()
        invariant
            i <= addrs@.len(),
            r@.len() == i as int,
            forall|j: int| #![trigger r@[j]] 0 <= j < i as int ==> r@[j] == addrs@[j],
        decreases addrs@.len() - i,
    {
        r.push(addrs[i].clone());
        i = i + 1;
    }
    proof {
        assert(r@ =~= addrs@);
    }
    r
}

} // verus!
