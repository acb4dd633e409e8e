//! The prepare step of a source, as an explicit state machine.
//!
//! Preparing a source may take several external actions (create a mount
//! point, start a proxy, poll a port, run a dump, write a file).  The
//! machine hands one action out at a time and is fed the action's
//! outcome; the caller never decides anything itself.  The machine also
//! records which resources were acquired, so that cleanup tears down
//! exactly those.

use vstd::prelude::*;
use vstd::string::*;

use crate::sources::BackupType;
use crate::text;

verus! {

/// The port-forward command for a deployment.
pub fn proxy_cmd(namespace: &str, name: &str, k8s_port: u16, local_port: u16) -> (r: String)
    ensures
        r@ == "kubectl -n "@ + namespace@ + " port-forward "@ + name@ + " "@ + text::spec_dec(
            k8s_port as nat,
        ) + ":"@ + text::spec_dec(local_port as nat),
{
    String::from_str("kubectl -n ")
        .concat(namespace)
        .concat(" port-forward ")
        .concat(name)
        .concat(" ")
        .concat(text::u64_to_string(k8s_port as u64).as_str())
        .concat(":")
        .concat(text::u64_to_string(local_port as u64).as_str())
}

/// What a preparation has acquired so far.
#[derive(Debug)]
pub struct PrepareHandle {
    /// A port-forward process is running and must be terminated.
    pub proxy_live: bool,
    /// A dump file (or dump directory) exists at this path and must be
    /// removed.
    pub dump_file: Option<String>,
    /// The remote filesystem is mounted and must be unmounted.
    pub mounted: bool,
}

impl PrepareHandle {
    /// Nothing acquired.
    pub open spec fn spec_empty() -> PrepareHandle {
        PrepareHandle { proxy_live: false, dump_file: None, mounted: false }
    }

    pub fn new_empty() -> (r: PrepareHandle)
        ensures
            r == PrepareHandle::spec_empty(),
    {
        PrepareHandle { proxy_live: false, dump_file: None, mounted: false }
    }

    pub fn duplicate(&self) -> (r: PrepareHandle)
        ensures
            r == *self,
    {
        let dump_file = match &self.dump_file {
            Some(p) => Some(p.clone()),
            None => None,
        };
        PrepareHandle { proxy_live: self.proxy_live, dump_file, mounted: self.mounted }
    }
}

/// One teardown action of a cleanup.
#[derive(Debug)]
pub enum CleanupStep {
    /// Terminate the port-forward process started during preparation.
    KillProxy,
    /// Remove the dump file written during preparation.
    RemoveFile { path: String },
    /// Run a teardown command (the unmount of a mounted source).
    RunCommand { cmd: String },
}

/// The fixed data of one preparation.
#[derive(Debug)]
pub enum PrepPlan {
    /// Nothing to do: preparation succeeds at once.
    Immediate,
    /// Create a mount directory, then run a mount command.
    Mount { dir: String, cmd: String },
    /// Optionally start a proxy and wait for its port, then run a dump
    /// command; `write_file` asks the caller to write the dump output to
    /// that path, and `remove_path` is what cleanup removes.
    Dump {
        proxy: Option<ProxyPlan>,
        dump_cmd: String,
        write_file: Option<String>,
        remove_path: String,
    },
}

/// How a proxy is started and awaited: its command, the local port to
/// observe, and how many polls the wait may spend before giving up.
#[derive(Debug)]
pub struct ProxyPlan {
    pub cmd: String,
    pub port: u16,
    pub budget: u32,
}

/// Where a preparation stands.
#[derive(Clone, Copy, Debug, PartialEq, Eq, Structural)]
pub enum PrepState {
    AwaitDir,
    AwaitMount,
    AwaitProxy,
    Polling { left: u32 },
    AwaitDump,
    AwaitWrite,
    Finished { ok: bool },
}

/// The next external action a preparation asks for.
#[derive(Debug)]
pub enum PrepAction {
    /// Create this directory (failure is ignored, as the mount itself
    /// will report it).
    CreateMountDir { path: String },
    /// Run the mount command; report its success.
    RunMount { cmd: String },
    /// Spawn the proxy command in the background; report whether the
    /// spawn succeeded.
    StartProxy { cmd: String },
    /// Ask the system whether this local port is listening, and whether
    /// the spawned proxy has already exited.
    PollPort { port: u16 },
    /// Run the dump command; report its success (its standard output is
    /// the dump itself, kept by the caller for the write step).
    RunDump { cmd: String },
    /// Write the dump output to this file; report whether the write
    /// succeeded.
    WriteDumpFile { path: String },
    /// Preparation is over with this outcome; no further action.
    Done { ok: bool },
}

/// The outcome of one requested action, fed back to the machine.
#[derive(Debug)]
pub enum PrepEvent {
    DirCreated,
    MountFinished { success: bool },
    ProxySpawned { success: bool },
    PortStatus { listening: bool, proxy_exited: bool },
    DumpFinished { success: bool },
    FileWritten { success: bool },
}

/// The prepare state machine of one source.
#[derive(Debug)]
pub struct PrepareMachine {
    pub plan: PrepPlan,
    pub state: PrepState,
    pub handle: PrepareHandle,
}

impl PrepareMachine {
    /// Which states belong to which plan.
    pub open spec fn wf(self) -> bool {
        match self.plan {
            PrepPlan::Immediate => self.state matches PrepState::Finished { .. }
                && self.handle == PrepareHandle::spec_empty(),
            PrepPlan::Mount { .. } => {
                &&& (self.state is AwaitDir || self.state is AwaitMount || self.state matches
                    PrepState::Finished { .. })
                &&& !self.handle.proxy_live
                &&& self.handle.dump_file is None
                &&& (self.handle.mounted ==> self.state == PrepState::Finished { ok: true })
            },
            PrepPlan::Dump { proxy, write_file, .. } => {
                &&& !(self.state is AwaitDir || self.state is AwaitMount)
                &&& !self.handle.mounted
                &&& (proxy is None ==> !(self.state is AwaitProxy || self.state matches
                    PrepState::Polling { .. }) && !self.handle.proxy_live)
                &&& (self.state is AwaitWrite ==> write_file is Some)
            },
        }
    }

    /// The event kinds a state accepts.
    pub open spec fn spec_expects(self, ev: PrepEvent) -> bool {
        match self.state {
            PrepState::AwaitDir => ev is DirCreated,
            PrepState::AwaitMount => ev matches PrepEvent::MountFinished { .. },
            PrepState::AwaitProxy => ev matches PrepEvent::ProxySpawned { .. },
            PrepState::Polling { .. } => ev matches PrepEvent::PortStatus { .. },
            PrepState::AwaitDump => ev matches PrepEvent::DumpFinished { .. },
            PrepState::AwaitWrite => ev matches PrepEvent::FileWritten { .. },
            PrepState::Finished { .. } => false,
        }
    }

    /// The exact transition relation: the state and handle after `ev`.
    pub open spec fn spec_step(self, ev: PrepEvent) -> (PrepState, PrepareHandle) {
        match (self.state, ev) {
            (PrepState::AwaitDir, PrepEvent::DirCreated) => (PrepState::AwaitMount, self.handle),
            (PrepState::AwaitMount, PrepEvent::MountFinished { success }) => (
                PrepState::Finished { ok: success },
                PrepareHandle {
                    proxy_live: self.handle.proxy_live,
                    dump_file: self.handle.dump_file,
                    mounted: success,
                },
            ),
            (PrepState::AwaitProxy, PrepEvent::ProxySpawned { success }) => {
                if success {
                    (
                        PrepState::Polling { left: self.spec_proxy_budget() },
                        PrepareHandle {
                            proxy_live: true,
                            dump_file: self.handle.dump_file,
                            mounted: self.handle.mounted,
                        },
                    )
                } else {
                    (PrepState::Finished { ok: false }, self.handle)
                }
            },
            (PrepState::Polling { left }, PrepEvent::PortStatus { listening, proxy_exited }) => {
                if listening {
                    (PrepState::AwaitDump, self.handle)
                } else if proxy_exited {
                    (
                        PrepState::Finished { ok: false },
                        PrepareHandle {
                            proxy_live: false,
                            dump_file: self.handle.dump_file,
                            mounted: self.handle.mounted,
                        },
                    )
                } else if left > 0 {
                    (PrepState::Polling { left: (left - 1) as u32 }, self.handle)
                } else {
                    (PrepState::Finished { ok: false }, self.handle)
                }
            },
            (PrepState::AwaitDump, PrepEvent::DumpFinished { success }) => {
                if success {
                    if self.spec_write_file() is Some {
                        (PrepState::AwaitWrite, self.handle)
                    } else {
                        (
                            PrepState::Finished { ok: true },
                            PrepareHandle {
                                proxy_live: self.handle.proxy_live,
                                dump_file: Some(self.spec_remove_path()),
                                mounted: self.handle.mounted,
                            },
                        )
                    }
                } else {
                    (PrepState::Finished { ok: false }, self.handle)
                }
            },
            (PrepState::AwaitWrite, PrepEvent::FileWritten { success }) => {
                if success {
                    (
                        PrepState::Finished { ok: true },
                        PrepareHandle {
                            proxy_live: self.handle.proxy_live,
                            dump_file: self.spec_write_file(),
                            mounted: self.handle.mounted,
                        },
                    )
                } else {
                    (PrepState::Finished { ok: false }, self.handle)
                }
            },
            _ => (self.state, self.handle),
        }
    }

    pub open spec fn spec_proxy_budget(self) -> u32 {
        match self.plan {
            PrepPlan::Dump { proxy: Some(p), .. } => p.budget,
            _ => 0,
        }
    }

    pub open spec fn spec_write_file(self) -> Option<String> {
        match self.plan {
            PrepPlan::Dump { write_file, .. } => write_file,
            _ => None,
        }
    }

    pub open spec fn spec_remove_path(self) -> String {
        match self.plan {
            PrepPlan::Dump { remove_path, .. } => remove_path,
            _ => arbitrary(),
        }
    }

    /// The machine for one source's preparation.  `poll_budget` bounds
    /// the proxy-readiness wait: at most that many unsuccessful polls
    /// before the preparation gives up.
    pub fn new(source: &BackupType, poll_budget: u32) -> (m: PrepareMachine)
        ensures
            m.wf(),
            m.handle == PrepareHandle::spec_empty(),
            match *source {
                BackupType::Local(_) | BackupType::Saves(_) => m.plan is Immediate && m.state
                    == (PrepState::Finished { ok: true }),
                BackupType::Ssh(b) => {
                    &&& m.plan matches PrepPlan::Mount { dir, cmd } && dir@ == b.spec_mount_path()
                        && cmd@ == "sshfs "@ + b.target@ + ":/ "@ + b.spec_mount_path()
                    &&& m.state is AwaitDir
                },
                BackupType::Psql(p) => {
                    &&& m.plan matches PrepPlan::Dump { proxy, dump_cmd, write_file, remove_path }
                        && (match p.k8s_deployment {
                        Some(d) => proxy matches Some(pp) && pp.cmd@ == "kubectl -n "@ + "default"@
                            + " port-forward "@ + d@ + " "@ + text::spec_dec(p.port as nat) + ":"@
                            + text::spec_dec(p.port as nat) && pp.port == p.port && pp.budget
                            == poll_budget,
                        None => proxy is None,
                    }) && dump_cmd@ == "pg_dumpall --dbname=postgresql://"@ + p.user@ + ":"@
                        + p.password@ + "@"@ + p.spec_connect_host() + ":"@ + text::spec_dec(
                        p.port as nat,
                    ) && (write_file matches Some(f) && f@ == p.spec_mount_path()) && remove_path@
                        == p.spec_mount_path()
                    &&& m.state == if p.k8s_deployment is Some {
                        PrepState::AwaitProxy
                    } else {
                        PrepState::AwaitDump
                    }
                },
                BackupType::Influxdb(i) => {
                    &&& m.plan matches PrepPlan::Dump { proxy, dump_cmd, write_file, remove_path }
                        && (match i.k8s_deployment {
                        Some(d) => proxy matches Some(pp) && pp.cmd@ == "kubectl -n "@ + (
                        match i.k8s_namespace {
                            Some(ns) => ns@,
                            None => "default"@,
                        }) + " port-forward "@ + d@ + " "@ + text::spec_dec(
                            i.spec_connect_port() as nat,
                        ) + ":"@ + text::spec_dec(i.spec_connect_port() as nat) && pp.port
                            == i.spec_connect_port() && pp.budget == poll_budget,
                        None => proxy is None,
                    }) && dump_cmd@ == "influx backup --host "@ + i.spec_connect_host() + ":"@
                        + text::spec_dec(i.spec_connect_port() as nat) + " --token "@ + i.token@
                        + " "@ + i.spec_mount_path() && write_file is None && remove_path@
                        == i.spec_mount_path()
                    &&& m.state == if i.k8s_deployment is Some {
                        PrepState::AwaitProxy
                    } else {
                        PrepState::AwaitDump
                    }
                },
            },
    {
        match source {
            BackupType::Local(_) | BackupType::Saves(_) => PrepareMachine {
                plan: PrepPlan::Immediate,
                state: PrepState::Finished { ok: true },
                handle: PrepareHandle::new_empty(),
            },
            BackupType::Ssh(b) => PrepareMachine {
                plan: PrepPlan::Mount { dir: b.get_mount_path(), cmd: b.mount_cmd() },
                state: PrepState::AwaitDir,
                handle: PrepareHandle::new_empty(),
            },
            BackupType::Psql(p) => {
                let proxy = match &p.k8s_deployment {
                    Some(d) => Some(
                        ProxyPlan {
                            cmd: proxy_cmd("default", d.as_str(), p.port, p.port),
                            port: p.port,
                            budget: poll_budget,
                        },
                    ),
                    None => None,
                };
                let state = if proxy.is_some() {
                    PrepState::AwaitProxy
                } else {
                    PrepState::AwaitDump
                };
                PrepareMachine {
                    plan: PrepPlan::Dump {
                        proxy,
                        dump_cmd: p.dump_cmd(),
                        write_file: Some(p.get_mount_path()),
                        remove_path: p.get_mount_path(),
                    },
                    state,
                    handle: PrepareHandle::new_empty(),
                }
            },
            BackupType::Influxdb(i) => {
                let proxy = match &i.k8s_deployment {
                    Some(d) => {
                        let ns = match &i.k8s_namespace {
                            Some(n) => n.clone(),
                            None => String::from_str("default"),
                        };
                        let port: u16 = match i.port {
                            Some(p) => p,
                            None => 8086,
                        };
                        Some(
                            ProxyPlan {
                                cmd: proxy_cmd(ns.as_str(), d.as_str(), port, port),
                                port,
                                budget: poll_budget,
                            },
                        )
                    },
                    None => None,
                };
                let state = if proxy.is_some() {
                    PrepState::AwaitProxy
                } else {
                    PrepState::AwaitDump
                };
                PrepareMachine {
                    plan: PrepPlan::Dump {
                        proxy,
                        dump_cmd: i.dump_cmd(),
                        write_file: None,
                        remove_path: i.get_mount_path(),
                    },
                    state,
                    handle: PrepareHandle::new_empty(),
                }
            },
        }
    }

    /// The action the machine asks for in its current state.
    pub fn action(&self) -> (a: PrepAction)
        requires
            self.wf(),
        ensures
            match self.state {
                PrepState::AwaitDir => a matches PrepAction::CreateMountDir { path } && (
                self.plan matches PrepPlan::Mount { dir, .. } && path == dir),
                PrepState::AwaitMount => a matches PrepAction::RunMount { cmd } && (
                self.plan matches PrepPlan::Mount { cmd: c, .. } && cmd == c),
                PrepState::AwaitProxy => a matches PrepAction::StartProxy { cmd } && (
                self.plan matches PrepPlan::Dump { proxy: Some(pp), .. } && cmd == pp.cmd),
                PrepState::Polling { .. } => a matches PrepAction::PollPort { port } && (
                self.plan matches PrepPlan::Dump { proxy: Some(pp), .. } && port == pp.port),
                PrepState::AwaitDump => a matches PrepAction::RunDump { cmd } && (
                self.plan matches PrepPlan::Dump { dump_cmd, .. } && cmd == dump_cmd),
                PrepState::AwaitWrite => a matches PrepAction::WriteDumpFile { path } && Some(path)
                    == self.spec_write_file(),
                PrepState::Finished { ok } => a == (PrepAction::Done { ok }),
            },
    {
        match self.state {
            PrepState::AwaitDir => match &self.plan {
                PrepPlan::Mount { dir, .. } => PrepAction::CreateMountDir { path: dir.clone() },
                _ => PrepAction::Done { ok: false },
            },
            PrepState::AwaitMount => match &self.plan {
                PrepPlan::Mount { cmd, .. } => PrepAction::RunMount { cmd: cmd.clone() },
                _ => PrepAction::Done { ok: false },
            },
            PrepState::AwaitProxy => match &self.plan {
                PrepPlan::Dump { proxy: Some(pp), .. } => PrepAction::StartProxy {
                    cmd: pp.cmd.clone(),
                },
                _ => PrepAction::Done { ok: false },
            },
            PrepState::Polling { .. } => match &self.plan {
                PrepPlan::Dump { proxy: Some(pp), .. } => PrepAction::PollPort { port: pp.port },
                _ => PrepAction::Done { ok: false },
            },
            PrepState::AwaitDump => match &self.plan {
                PrepPlan::Dump { dump_cmd, .. } => PrepAction::RunDump { cmd: dump_cmd.clone() },
                _ => PrepAction::Done { ok: false },
            },
            PrepState::AwaitWrite => match &self.plan {
                PrepPlan::Dump { write_file: Some(f), .. } => PrepAction::WriteDumpFile {
                    path: f.clone(),
                },
                _ => PrepAction::Done { ok: false },
            },
            PrepState::Finished { ok } => PrepAction::Done { ok },
        }
    }

    /// Feed the outcome of the requested action; the machine moves as
    /// [`Self::spec_step`] says.
    pub fn feed(&mut self, ev: &PrepEvent)
        requires
            old(self).wf(),
            old(self).spec_expects(*ev),
        ensures
            final(self).wf(),
            final(self).plan == old(self).plan,
            (final(self).state, final(self).handle) == old(self).spec_step(*ev),
    {
        let budget = match &self.plan {
            PrepPlan::Dump { proxy: Some(pp), .. } => pp.budget,
            _ => 0,
        };
        let write_file = match &self.plan {
            PrepPlan::Dump { write_file: Some(f), .. } => Some(f.clone()),
            _ => None,
        };
        let remove_path = match &self.plan {
            PrepPlan::Dump { remove_path, .. } => Some(remove_path.clone()),
            _ => None,
        };
        match (&self.state, ev) {
            (PrepState::AwaitDir, PrepEvent::DirCreated) => {
                self.state = PrepState::AwaitMount;
            },
            (PrepState::AwaitMount, PrepEvent::MountFinished { success }) => {
                self.state = PrepState::Finished { ok: *success };
                self.handle.mounted = *success;
            },
            (PrepState::AwaitProxy, PrepEvent::ProxySpawned { success }) => {
                if *success {
                    self.state = PrepState::Polling { left: budget };
                    self.handle.proxy_live = true;
                } else {
                    self.state = PrepState::Finished { ok: false };
                }
            },
            (PrepState::Polling { left }, PrepEvent::PortStatus { listening, proxy_exited }) => {
                let l = *left;
                if *listening {
                    self.state = PrepState::AwaitDump;
                } else if *proxy_exited {
                    self.state = PrepState::Finished { ok: false };
                    self.handle.proxy_live = false;
                } else if l > 0 {
                    self.state = PrepState::Polling { left: l - 1 };
                } else {
                    self.state = PrepState::Finished { ok: false };
                }
            },
            (PrepState::AwaitDump, PrepEvent::DumpFinished { success }) => {
                if *success {
                    if write_file.is_some() {
                        self.state = PrepState::AwaitWrite;
                    } else {
                        self.state = PrepState::Finished { ok: true };
                        self.handle.dump_file = remove_path;
                    }
                } else {
                    self.state = PrepState::Finished { ok: false };
                }
            },
            (PrepState::AwaitWrite, PrepEvent::FileWritten { success }) => {
                if *success {
                    self.state = PrepState::Finished { ok: true };
                    self.handle.dump_file = write_file;
                } else {
                    self.state = PrepState::Finished { ok: false };
                }
            },
            _ => {
            },
        }
    }

    /// The outcome, once the machine has finished.
    pub fn outcome(&self) -> (r: Option<bool>)
        ensures
            match self.state {
                PrepState::Finished { ok } => r == Some(ok),
                _ => r is None,
            },
    {
        match self.state {
            PrepState::Finished { ok } => Some(ok),
            _ => None,
        }
    }

    /// A copy of what has been acquired so far.
    pub fn handle_copy(&self) -> (r: PrepareHandle)
        ensures
            r == self.handle,
    {
        self.handle.duplicate()
    }
}

/// The proxy-readiness wait is bounded: a poll that finds the port
/// silent either spends one unit of the remaining budget or ends the
/// preparation as a failure, so the wait cannot go on forever.
pub proof fn lemma_port_wait_bounded(m: PrepareMachine, exited: bool)
    requires
        m.state matches PrepState::Polling { .. },
    ensures
        ({
            let (s2, _) = m.spec_step(
                PrepEvent::PortStatus { listening: false, proxy_exited: exited },
            );
            match (m.state, s2) {
                (PrepState::Polling { left }, PrepState::Polling { left: l2 }) => l2 < left,
                (_, s) => s == (PrepState::Finished { ok: false }),
            }
        }),
{
}

} // verus!
