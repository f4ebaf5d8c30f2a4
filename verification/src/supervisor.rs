//! Process supervision state: the single slot holding at most one live
//! backend handle, and the transitions the supervisor performs. The OS-level
//! spawn, kill and wait calls are made by the surrounding application; this
//! module owns the slot and guarantees it never refers to more than one
//! process at a time.

use vstd::prelude::*;

verus! {

/// Grace delay between the best-effort shutdown request and the forced kill
/// during a restart, in milliseconds.
pub const RESTART_GRACE_MS: u64 = 1000;

/// Identity of one spawned backend process.
#[derive(Clone, Copy, Debug, PartialEq, Eq, Structural)]
pub struct ProcessHandle {
    pub pid: u32,
}

/// Why a spawn attempt yielded no process.
#[derive(Debug)]
pub enum SpawnError {
    /// The sidecar executable was not found next to the application binary.
    BinaryNotFound,
    /// The OS refused to spawn the located executable, with its reason.
    SpawnFailed(String),
}

/// Outcome of one spawn attempt, as the surrounding application reports it.
pub enum SpawnEvent {
    /// The sidecar executable was absent.
    Missing,
    /// The spawn call itself failed, with the OS error rendered as text.
    Failed(String),
    /// A process started, identified by its OS process id.
    Started(u32),
}

/// The sidecar executable's file name; the platform whose process model
/// shows a console window also names executables with a suffix.
pub open spec fn sidecar_file_spec(on_windows: bool) -> Seq<char> {
    if on_windows {
        "scooter.exe"@
    } else {
        "scooter"@
    }
}

/// Names the sidecar executable for the given platform.
pub fn sidecar_file_name(on_windows: bool) -> (r: &'static str)
    ensures
        r@ == sidecar_file_spec(on_windows),
{
    if on_windows {
        "scooter.exe"
    } else {
        "scooter"
    }
}

/// Owner of the single backend-process slot. At most one handle is held at
/// any instant; every mutation of the slot goes through this type.
pub struct ProcessSupervisor {
    handle: Option<ProcessHandle>,
}

impl ProcessSupervisor {
    /// The slot's current content.
    pub closed spec fn slot(self) -> Option<ProcessHandle> {
        self.handle
    }

    /// The state after a kill: the slot is empty.
    pub closed spec fn after_kill(self) -> ProcessSupervisor {
        ProcessSupervisor { handle: None }
    }

    /// What a kill hands back to be terminated: the slot's old content.
    pub closed spec fn kill_victim(self) -> Option<ProcessHandle> {
        self.handle
    }

    /// The state after a successful spawn is recorded.
    pub closed spec fn after_store(self, h: ProcessHandle) -> ProcessSupervisor {
        ProcessSupervisor { handle: Some(h) }
    }

    /// A fresh supervisor holds no process.
    pub fn new() -> (s: Self)
        ensures
            s.slot() is None,
    {
        ProcessSupervisor { handle: None }
    }

    /// Whether a handle is currently held.
    pub fn is_alive(&self) -> (r: bool)
        ensures
            r == (self.slot() is Some),
    {
        self.handle.is_some()
    }

    /// Empties the slot and hands back the handle to terminate, if one was
    /// held. Idempotent: with an empty slot it does nothing and returns
    /// nothing, and it never fails. The caller performs the best-effort OS
    /// kill and wait on the returned handle; their errors are swallowed.
    pub fn kill_backend(&mut self) -> (victim: Option<ProcessHandle>)
        ensures
            *final(self) == old(self).after_kill(),
            victim == old(self).kill_victim(),
    {
        self.handle.take()
    }

    /// Records a freshly spawned process in the slot.
    pub fn store_spawned(&mut self, h: ProcessHandle)
        ensures
            *final(self) == old(self).after_store(h),
    {
        self.handle = Some(h);
    }

    /// Absorbs the outcome of one spawn attempt: a started process fills the
    /// slot; a missing binary or a failed spawn leaves the slot untouched and
    /// reports the corresponding error.
    pub fn handle_spawn_event(&mut self, e: SpawnEvent) -> (r: Result<(), SpawnError>)
        ensures
            match e {
                SpawnEvent::Missing => {
                    &&& *final(self) == *old(self)
                    &&& r matches Err(SpawnError::BinaryNotFound)
                },
                SpawnEvent::Failed(msg) => {
                    &&& *final(self) == *old(self)
                    &&& r matches Err(SpawnError::SpawnFailed(m)) && m == msg
                },
                SpawnEvent::Started(pid) => {
                    &&& *final(self) == old(self).after_store(ProcessHandle { pid })
                    &&& r is Ok
                },
            },
    {
        match e {
            SpawnEvent::Missing => Err(SpawnError::BinaryNotFound),
            SpawnEvent::Failed(msg) => Err(SpawnError::SpawnFailed(msg)),
            SpawnEvent::Started(pid) => {
                self.handle = Some(ProcessHandle { pid });
                Ok(())
            },
        }
    }
}

/// Recording a spawn fills the slot with exactly the new handle, whatever
/// it held before.
pub proof fn lemma_store_fills_slot(s: ProcessSupervisor, h: ProcessHandle)
    ensures
        s.after_store(h).slot() == Some(h),
{
}

/// A kill hands back exactly what the slot held, and leaves it empty.
pub proof fn lemma_kill_victim_is_slot(s: ProcessSupervisor)
    ensures
        s.kill_victim() == s.slot(),
        s.after_kill().slot() is None,
{
}

/// A second kill right after a first one finds no process, changes nothing,
/// and reports no error: killing is idempotent.
pub proof fn lemma_kill_idempotent(s: ProcessSupervisor)
    ensures
        s.after_kill().after_kill() == s.after_kill(),
        s.after_kill().kill_victim() is None,
{
}

/// The restart sequence ends in exactly one live process whatever the slot
/// held before: the unconditional kill empties it and the final successful
/// spawn fills it with the one new handle. This holds in particular when no
/// process was running at the start.
pub proof fn lemma_restart_leaves_one_process(s: ProcessSupervisor, h: ProcessHandle)
    ensures
        s.after_kill().after_store(h).slot() == Some(h),
        s.after_kill().slot() is None,
{
}

} // verus!
