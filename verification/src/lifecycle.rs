//! The lifecycle of the embedded host process: one start attempt per
//! manager, driven as a state machine.  The surrounding process performs the
//! outside work — building the process, opening the administrative
//! connection — and reports each outcome back as an event; every decision
//! between those steps is made here.

use vstd::prelude::*;
use crate::config::NodeConfig;
use crate::config::load_or_init;
use crate::config::spec_parse_config;
use crate::config::spec_fresh_config;
use crate::config::spec_render_config;
use crate::config::spec_line_free;
use crate::errors::Error;
use crate::errors::ErrorKind;
use crate::ports::PortRange;

verus! {

/// The phases of one start attempt, in their strict order.
#[derive(Clone, Copy, Debug, PartialEq, Eq, Structural)]
pub enum LifecyclePhase {
    /// No start attempted yet.
    Unconfigured,
    /// The host process is being built from the configuration.
    Building,
    /// The process is built; its administrative connection is being opened.
    AwaitingAdminReady,
    /// The administrative channel is open; the node serves callers.
    Ready,
    /// The attempt failed; terminal until a caller starts over afresh.
    Failed,
}

/// What the surrounding process reports back after performing one step of
/// outside work.
pub enum LifecycleEvent {
    /// The host process was built, and bound this administrative port —
    /// which may differ from the configured hint if the host remapped it.
    Built(u16),
    /// The host process could not be built; the builder's reason.
    BuildFailed(String),
    /// The administrative connection is open.
    AdminConnected,
    /// The administrative connection could not be opened; the reason.
    AdminConnectFailed(String),
}

/// What the surrounding process must do next.
#[derive(Clone, Copy, Debug, PartialEq, Eq, Structural)]
pub enum LifecycleAction {
    /// Build the host process from the configuration.
    BuildProcess,
    /// Open the administrative connection on this port.
    ConnectAdmin(u16),
    /// Nothing: wait for the next caller, or give the attempt up.
    Idle,
}

/// The lifecycle manager of one start attempt.
#[derive(Debug)]
pub struct NodeLifecycle {
    pub phase: LifecyclePhase,
    pub admin_port: Option<u16>,
    pub failure: Option<ErrorKind>,
}

impl NodeLifecycle {
    /// Internal consistency: past the build the bound port is known, and
    /// exactly the failed phase records what failed.
    pub open spec fn wf(self) -> bool {
        &&& (self.phase == LifecyclePhase::AwaitingAdminReady ==> self.admin_port is Some)
        &&& (self.phase == LifecyclePhase::Ready ==> self.admin_port is Some)
        &&& ((self.phase == LifecyclePhase::Failed) <==> (self.failure is Some))
    }

    /// A node with no start attempted.
    pub fn new() -> (r: NodeLifecycle)
        ensures
            r.wf(),
            r.phase == LifecyclePhase::Unconfigured,
            r.admin_port is None,
            r.failure is None,
    {
        NodeLifecycle { phase: LifecyclePhase::Unconfigured, admin_port: None, failure: None }
    }

    /// Begin one start attempt from the persisted state of a storage root.
    ///
    /// The configuration is loaded, or initialized with a free admin port
    /// from `admin_range`, exactly as `load_or_init` states; on success the
    /// node is `Building` and the caller receives the configuration to
    /// build the host process from, together with the document to persist
    /// (byte-identical to `existing` where one was given).  On a corrupt
    /// document or an exhausted port range the attempt is terminally
    /// `Failed` with that error, and nothing is handed out to persist or to
    /// build: no partial state remains registered.
    pub fn start(
        &mut self,
        existing: Option<Vec<u8>>,
        storage_root: Vec<u8>,
        admin_range: PortRange,
    ) -> (r: Result<(NodeConfig, Vec<u8>), Error>)
        requires
            old(self).wf(),
            old(self).phase == LifecyclePhase::Unconfigured,
            spec_line_free(storage_root@),
        ensures
            final(self).wf(),
            match r {
                Ok(p) => {
                    &&& final(self).phase == LifecyclePhase::Building
                    &&& final(self).failure is None
                    &&& match existing {
                        Some(doc) => spec_parse_config(doc@) == Some(p.0@) && p.1@ == doc@,
                        None => {
                            &&& p.0@ == spec_fresh_config(storage_root@, p.0.admin_port)
                            &&& admin_range.spec_contains(p.0.admin_port)
                            &&& p.1@ == spec_render_config(p.0@)
                        },
                    }
                },
                Err(e) => {
                    &&& final(self).phase == LifecyclePhase::Failed
                    &&& final(self).failure == Some(e.kind)
                    &&& match existing {
                        Some(doc) => e.kind == ErrorKind::ConfigCorrupt && spec_parse_config(
                            doc@,
                        ) is None,
                        None => e.kind == ErrorKind::ResourceExhausted,
                    }
                },
            },
            existing is None && admin_range.spec_is_empty() ==> r is Err,
    {
        match load_or_init(existing, storage_root, admin_range) {
            Ok(p) => {
                self.phase = LifecyclePhase::Building;
                self.failure = None;
                Ok(p)
            },
            Err(e) => {
                self.phase = LifecyclePhase::Failed;
                self.failure = Some(e.kind);
                Err(e)
            },
        }
    }

    /// Advance on one reported outcome.
    ///
    /// Building: a built process moves the node to `AwaitingAdminReady`,
    /// remembering the port the process actually bound, and asks for the
    /// administrative connection; a build failure is terminal and recorded
    /// as `ProcessBuildFailed`.  Awaiting: an open connection makes the
    /// node `Ready`; a connection failure is terminal and recorded
    /// distinctly as `ConnectFailed`, so callers can tell "failed to build"
    /// from "built but unreachable".  A failed node ignores every further
    /// event: recovery is only a fresh start by the caller.  Events that do
    /// not belong to the current phase change nothing.
    pub fn on_event(&mut self, event: LifecycleEvent) -> (a: LifecycleAction)
        requires
            old(self).wf(),
        ensures
            final(self).wf(),
            old(self).phase == LifecyclePhase::Building ==> match event {
                LifecycleEvent::Built(p) => {
                    &&& final(self).phase == LifecyclePhase::AwaitingAdminReady
                    &&& final(self).admin_port == Some(p)
                    &&& final(self).failure is None
                    &&& a == LifecycleAction::ConnectAdmin(p)
                },
                LifecycleEvent::BuildFailed(_) => {
                    &&& final(self).phase == LifecyclePhase::Failed
                    &&& final(self).failure == Some(ErrorKind::ProcessBuildFailed)
                    &&& a == LifecycleAction::Idle
                },
                _ => *final(self) == *old(self) && a == LifecycleAction::Idle,
            },
            old(self).phase == LifecyclePhase::AwaitingAdminReady ==> match event {
                LifecycleEvent::AdminConnected => {
                    &&& final(self).phase == LifecyclePhase::Ready
                    &&& final(self).admin_port == old(self).admin_port
                    &&& final(self).failure is None
                    &&& a == LifecycleAction::Idle
                },
                LifecycleEvent::AdminConnectFailed(_) => {
                    &&& final(self).phase == LifecyclePhase::Failed
                    &&& final(self).failure == Some(ErrorKind::ConnectFailed)
                    &&& a == LifecycleAction::Idle
                },
                _ => *final(self) == *old(self) && a == LifecycleAction::Idle,
            },
            old(self).phase == LifecyclePhase::Unconfigured ==> *final(self) == *old(self) && a
                == LifecycleAction::Idle,
            old(self).phase == LifecyclePhase::Ready ==> *final(self) == *old(self) && a
                == LifecycleAction::Idle,
            old(self).phase == LifecyclePhase::Failed ==> *final(self) == *old(self) && a
                == LifecycleAction::Idle,
    {
        match self.phase {
            LifecyclePhase::Building => match event {
                LifecycleEvent::Built(p) => {
                    self.phase = LifecyclePhase::AwaitingAdminReady;
                    self.admin_port = Some(p);
                    LifecycleAction::ConnectAdmin(p)
                },
                LifecycleEvent::BuildFailed(_) => {
                    self.phase = LifecyclePhase::Failed;
                    self.failure = Some(ErrorKind::ProcessBuildFailed);
                    LifecycleAction::Idle
                },
                _ => LifecycleAction::Idle,
            },
            LifecyclePhase::AwaitingAdminReady => match event {
                LifecycleEvent::AdminConnected => {
                    self.phase = LifecyclePhase::Ready;
                    LifecycleAction::Idle
                },
                LifecycleEvent::AdminConnectFailed(_) => {
                    self.phase = LifecyclePhase::Failed;
                    self.failure = Some(ErrorKind::ConnectFailed);
                    LifecycleAction::Idle
                },
                _ => LifecycleAction::Idle,
            },
            _ => LifecycleAction::Idle,
        }
    }
}

/// Zero every byte of a buffer.
fn wipe(buf: &mut Vec<u8>)
    ensures
        final(buf)@.len() == old(buf)@.len(),
        forall|i: int| 0 <= i < final(buf)@.len() ==> final(buf)@[i] == 0,
{
    let mut i: usize = 0;
    while i < buf.len()
        invariant
            i <= buf@.len(),
            buf@.len() == old(buf)@.len(),
            forall|t: int| 0 <= t < i ==> buf@[t] == 0,
        decreases buf@.len() - i,
    {
        buf.set(i, 0);
        i = i + 1;
    }
}

/// Sodoken's read-only buffer handle; it may point at memory-locked
/// storage.  Opaque here: it is only carried through to the host process as
/// its keystore passphrase.
#[verifier::external_type_specification]
#[verifier::external_body]
pub struct ExBufRead(sodoken::BufRead);

/// Relies on sodoken's `BufWrite::new_mem_locked`, `write_lock` and
/// `to_read`: the passphrase bytes are copied into a freshly allocated
/// memory-locked buffer whose read half is returned.  Locked memory is a
/// finite resource, so the allocation can fail; the buffer itself is opaque,
/// so nothing is stated of it.
#[verifier::external_body]
fn mem_locked_copy(pass: &[u8]) -> (r: Option<sodoken::BufRead>) {
    match sodoken::BufWrite::new_mem_locked(pass.len()) {
        Ok(buf) => {
            buf.write_lock().copy_from_slice(pass);
            Some(buf.to_read())
        },
        Err(_) => None,
    }
}

/// Copy the keystore passphrase into a memory-locked buffer for the host
/// process, and zero the caller's buffer before returning — on every exit
/// path, success or failure.  A failed locked allocation surfaces as
/// `ProcessBuildFailed`: the host process cannot be built without its
/// keystore.
pub fn lock_passphrase(pass: &mut Vec<u8>) -> (r: Result<sodoken::BufRead, Error>)
    ensures
        final(pass)@.len() == old(pass)@.len(),
        forall|i: int| 0 <= i < final(pass)@.len() ==> final(pass)@[i] == 0,
        r matches Err(e) ==> e.kind == ErrorKind::ProcessBuildFailed && e.detail is None,
{
    let locked = mem_locked_copy(pass.as_slice());
    wipe(pass);
    match locked {
        Some(b) => Ok(b),
        None => Err(Error::new(ErrorKind::ProcessBuildFailed)),
    }
}

} // verus!
