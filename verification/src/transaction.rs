//! The backup transaction for one source, as a state machine: acquire a
//! snapshot, run the backup tool against it, and release the snapshot
//! unconditionally once the backup invocation has returned. The machine
//! decides every transition; the caller only performs the requested actions
//! (probe a path, make a directory, run a command) and reports what happened.

use vstd::prelude::*;

use crate::command::BackupError;
use crate::command::CommandSpec;
use crate::command::ProcessOutcome;
use crate::command::classified_error;
use crate::command::outcome_succeeded;
use crate::command::run_success;
use crate::config::ResticConfig;
use crate::config::SourceConfig;
use crate::snapshot::Snapshot;
use crate::snapshot::get_lv_path;
use crate::snapshot::join_path;
use crate::snapshot::joined_path;
use crate::snapshot::lv_path;
use crate::snapshot::lvcreate_argv;
use crate::snapshot::lvcreate_cmd;
use crate::snapshot::lvremove_argv;
use crate::snapshot::lvremove_cmd;
use crate::snapshot::mount_argv;
use crate::snapshot::mount_cmd;
use crate::snapshot::restic_argv;
use crate::snapshot::restic_cmd;
use crate::snapshot::umount_argv;
use crate::snapshot::umount_cmd;

verus! {

/// Everything the transaction needs, computed up front from the source, the
/// backup-tool settings and the snapshot name: the paths involved and the
/// exact command lines to run.
pub struct Plan {
    pub vol_group: String,
    pub snapshot_name: String,
    pub mount_dir: String,
    pub src_path: String,
    pub snap_path: String,
    pub lvcreate: CommandSpec,
    pub mount: CommandSpec,
    pub restic: CommandSpec,
    pub umount: CommandSpec,
    pub lvremove: CommandSpec,
}

/// Where the transaction stands. The order is the order of execution; the
/// release phases run whether or not the backup phase succeeded.
#[derive(PartialEq, Eq, Structural, Clone, Copy, Debug)]
pub enum Phase {
    ProbeDir,
    CreateDir,
    CreateVolume,
    Mount,
    Backup,
    Unmount,
    RemoveDir,
    RemoveVolume,
    Done,
}

/// What a probe of the mount-point path found.
#[derive(PartialEq, Eq, Structural, Clone, Copy, Debug)]
pub enum PathKind {
    Directory,
    OtherFile,
    Missing,
}

/// What the caller is asked to do next.
pub enum Action<'a> {
    /// Report what exists at this path.
    Probe(&'a String),
    /// Create this directory and its missing parents.
    MakeDir(&'a String),
    /// Run this command and report the outcome.
    Run(&'a CommandSpec),
    /// Remove this directory; it must be empty, and the removal must fail
    /// loudly rather than delete anything recursively.
    RemoveDirectory(&'a String),
}

/// What the caller reports back: the result of the action it was asked to
/// perform. Directory operations carry the OS error text on failure.
pub enum Event {
    PathProbed(PathKind),
    DirMade(Option<String>),
    Ran(ProcessOutcome),
    DirRemoved(Option<String>),
}

/// A position of each phase in execution order, for stating that phases only
/// advance.
pub open spec fn phase_index(p: Phase) -> int {
    match p {
        Phase::ProbeDir => 0,
        Phase::CreateDir => 1,
        Phase::CreateVolume => 2,
        Phase::Mount => 3,
        Phase::Backup => 4,
        Phase::Unmount => 5,
        Phase::RemoveDir => 6,
        Phase::RemoveVolume => 7,
        Phase::Done => 8,
    }
}

/// One source's backup transaction. `acquired` records that the mount step
/// succeeded and a [`Snapshot`] value came to exist; `released` records that
/// the release sequence ran to completion. The error slots keep the first
/// error of each stage so that a release failure never masks a backup
/// failure.
pub struct Transaction {
    pub plan: Plan,
    pub phase: Phase,
    pub acquired: bool,
    pub released: bool,
    pub snapshot: Option<Snapshot>,
    pub acquire_error: Option<BackupError>,
    pub backup_error: Option<BackupError>,
    pub release_error: Option<BackupError>,
}

impl Transaction {
    /// The state invariant: the snapshot value exists exactly while the
    /// transaction holds an unreleased acquisition, release never happens
    /// without acquisition, and a finished transaction has released whatever
    /// it acquired.
    pub open spec fn inv(self) -> bool {
        &&& (self.released ==> self.acquired)
        &&& (self.snapshot is Some <==> self.acquired && !self.released)
        &&& (self.snapshot matches Some(s) ==> s.vol_path@ == self.plan.snap_path@
            && s.mount_path@ == self.plan.mount_dir@)
        &&& (self.acquire_error is Some ==> self.phase == Phase::Done && !self.acquired
            && self.backup_error is None && self.release_error is None)
        &&& match self.phase {
            Phase::ProbeDir | Phase::CreateDir | Phase::CreateVolume | Phase::Mount => !self.acquired
                && !self.released && self.acquire_error is None && self.backup_error is None
                && self.release_error is None,
            Phase::Backup => self.acquired && !self.released && self.backup_error is None
                && self.release_error is None,
            Phase::Unmount => self.acquired && !self.released && self.release_error is None,
            Phase::RemoveDir | Phase::RemoveVolume => self.acquired && !self.released,
            Phase::Done => self.acquired ==> self.released,
        }
    }

    /// The error this transaction reports: the acquisition error if there
    /// was one, else the backup error, else the first release error.
    pub open spec fn spec_first_error(self) -> Option<BackupError> {
        if self.acquire_error is Some {
            self.acquire_error
        } else if self.backup_error is Some {
            self.backup_error
        } else {
            self.release_error
        }
    }
}

/// The complete transition relation of the transaction machine: from state
/// `pre`, event `ev` leads exactly to state `post`. An event that does not
/// answer the pending action changes nothing.
pub open spec fn step_rel(pre: Transaction, ev: Event, post: Transaction) -> bool {
    match (pre.phase, ev) {
        (Phase::ProbeDir, Event::PathProbed(k)) => match k {
            PathKind::Directory => post == (Transaction { phase: Phase::CreateVolume, ..pre }),
            PathKind::OtherFile => post.acquire_error matches Some(BackupError::PathConflict(p))
                && p@ == pre.plan.mount_dir@ && post == (Transaction {
                phase: Phase::Done,
                acquire_error: post.acquire_error,
                ..pre
            }),
            PathKind::Missing => post == (Transaction { phase: Phase::CreateDir, ..pre }),
        },
        (Phase::CreateDir, Event::DirMade(r)) => match r {
            None => post == (Transaction { phase: Phase::CreateVolume, ..pre }),
            Some(m) => post.acquire_error matches Some(BackupError::DirectoryError(p, msg))
                && p@ == pre.plan.mount_dir@ && msg == m && post == (Transaction {
                phase: Phase::Done,
                acquire_error: post.acquire_error,
                ..pre
            }),
        },
        (Phase::CreateVolume, Event::Ran(o)) => if outcome_succeeded(o) {
            post == (Transaction { phase: Phase::Mount, ..pre })
        } else {
            post.acquire_error matches Some(e) && classified_error(e, o) && post == (Transaction {
                phase: Phase::Done,
                acquire_error: post.acquire_error,
                ..pre
            })
        },
        (Phase::Mount, Event::Ran(o)) => if outcome_succeeded(o) {
            post.snapshot matches Some(s) && s.vol_path@ == pre.plan.snap_path@ && s.mount_path@
                == pre.plan.mount_dir@ && post == (Transaction {
                phase: Phase::Backup,
                acquired: true,
                snapshot: post.snapshot,
                ..pre
            })
        } else {
            post.acquire_error matches Some(BackupError::PartialMountFailure {
                vol_group,
                snapshot_name,
                device,
                cause,
            }) && vol_group@ == pre.plan.vol_group@ && snapshot_name@ == pre.plan.snapshot_name@
                && device@ == pre.plan.snap_path@ && classified_error(*cause, o) && post == (
            Transaction { phase: Phase::Done, acquire_error: post.acquire_error, ..pre })
        },
        (Phase::Backup, Event::Ran(o)) => if outcome_succeeded(o) {
            post == (Transaction { phase: Phase::Unmount, ..pre })
        } else {
            post.backup_error matches Some(e) && classified_error(e, o) && post == (Transaction {
                phase: Phase::Unmount,
                backup_error: post.backup_error,
                ..pre
            })
        },
        (Phase::Unmount, Event::Ran(o)) => if outcome_succeeded(o) || pre.release_error is Some {
            post == (Transaction { phase: Phase::RemoveDir, ..pre })
        } else {
            post.release_error matches Some(e) && classified_error(e, o) && post == (Transaction {
                phase: Phase::RemoveDir,
                release_error: post.release_error,
                ..pre
            })
        },
        (Phase::RemoveDir, Event::DirRemoved(r)) => match r {
            None => post == (Transaction { phase: Phase::RemoveVolume, ..pre }),
            Some(m) => if pre.release_error is Some {
                post == (Transaction { phase: Phase::RemoveVolume, ..pre })
            } else {
                post.release_error matches Some(BackupError::DirectoryError(p, msg)) && p@
                    == pre.plan.mount_dir@ && msg == m && post == (Transaction {
                    phase: Phase::RemoveVolume,
                    release_error: post.release_error,
                    ..pre
                })
            },
        },
        (Phase::RemoveVolume, Event::Ran(o)) => if outcome_succeeded(o) || pre.release_error
            is Some {
            post == (Transaction {
                phase: Phase::Done,
                released: true,
                snapshot: None,
                ..pre
            })
        } else {
            post.release_error matches Some(e) && classified_error(e, o) && post == (Transaction {
                phase: Phase::Done,
                released: true,
                snapshot: None,
                release_error: post.release_error,
                ..pre
            })
        },
        _ => post == pre,
    }
}

impl Transaction {
    /// Start a transaction: compute every path and command line up front.
    /// The snapshot name doubles as the snapshot volume's name and as the
    /// mount directory's name under `mount_parent`; the caller supplies a
    /// collision-free name per invocation.
    pub fn new(
        source: &SourceConfig,
        restic: &ResticConfig,
        snapshot_name: &str,
        mount_parent: &str,
    ) -> (t: Transaction)
        ensures
            t.inv(),
            t.phase == Phase::ProbeDir,
            !t.acquired,
            !t.released,
            t.snapshot is None,
            t.acquire_error is None,
            t.backup_error is None,
            t.release_error is None,
            t.plan.vol_group@ == source.vg@,
            t.plan.snapshot_name@ == snapshot_name@,
            t.plan.mount_dir@ == joined_path(mount_parent@, snapshot_name@),
            t.plan.src_path@ == lv_path(source.vg@, source.lv@),
            t.plan.snap_path@ == lv_path(source.vg@, snapshot_name@),
            t.plan.lvcreate.argv() == lvcreate_argv(
                source.snapshot_size@,
                snapshot_name@,
                lv_path(source.vg@, source.lv@),
            ),
            t.plan.mount.argv() == mount_argv(
                lv_path(source.vg@, snapshot_name@),
                joined_path(mount_parent@, snapshot_name@),
            ),
            t.plan.restic.argv() == restic_argv(
                restic.exe_path@,
                restic.repo_dir@,
                restic.cache_dir@,
                restic.password_file@,
                joined_path(mount_parent@, snapshot_name@),
            ),
            t.plan.umount.argv() == umount_argv(joined_path(mount_parent@, snapshot_name@)),
            t.plan.lvremove.argv() == lvremove_argv(lv_path(source.vg@, snapshot_name@)),
    {
        let mount_dir = join_path(mount_parent, snapshot_name);
        let src_path = get_lv_path(source.vg.as_str(), source.lv.as_str());
        let snap_path = get_lv_path(source.vg.as_str(), snapshot_name);
        let lvcreate = lvcreate_cmd(source.snapshot_size.as_str(), snapshot_name, src_path.as_str());
        let mount = mount_cmd(snap_path.as_str(), mount_dir.as_str());
        let restic_c = restic_cmd(restic, mount_dir.as_str());
        let umount = umount_cmd(mount_dir.as_str());
        let lvremove = lvremove_cmd(snap_path.as_str());
        let plan = Plan {
            vol_group: source.vg.clone(),
            snapshot_name: String::from_str(snapshot_name),
            mount_dir,
            src_path,
            snap_path,
            lvcreate,
            mount,
            restic: restic_c,
            umount,
            lvremove,
        };
        Transaction {
            plan,
            phase: Phase::ProbeDir,
            acquired: false,
            released: false,
            snapshot: None,
            acquire_error: None,
            backup_error: None,
            release_error: None,
        }
    }

    /// What the caller must do next; `None` exactly when the transaction is
    /// done.
    pub fn next_action(&self) -> (a: Option<Action>)
        ensures
            a is Some <==> self.phase != Phase::Done,
            self.phase == Phase::ProbeDir ==> (a matches Some(Action::Probe(p)) && p@
                == self.plan.mount_dir@),
            self.phase == Phase::CreateDir ==> (a matches Some(Action::MakeDir(p)) && p@
                == self.plan.mount_dir@),
            self.phase == Phase::CreateVolume ==> (a matches Some(Action::Run(c)) && c.argv()
                == self.plan.lvcreate.argv()),
            self.phase == Phase::Mount ==> (a matches Some(Action::Run(c)) && c.argv()
                == self.plan.mount.argv()),
            self.phase == Phase::Backup ==> (a matches Some(Action::Run(c)) && c.argv()
                == self.plan.restic.argv()),
            self.phase == Phase::Unmount ==> (a matches Some(Action::Run(c)) && c.argv()
                == self.plan.umount.argv()),
            self.phase == Phase::RemoveDir ==> (a matches Some(Action::RemoveDirectory(p)) && p@
                == self.plan.mount_dir@),
            self.phase == Phase::RemoveVolume ==> (a matches Some(Action::Run(c)) && c.argv()
                == self.plan.lvremove.argv()),
    {
        match self.phase {
            Phase::ProbeDir => Some(Action::Probe(&self.plan.mount_dir)),
            Phase::CreateDir => Some(Action::MakeDir(&self.plan.mount_dir)),
            Phase::CreateVolume => Some(Action::Run(&self.plan.lvcreate)),
            Phase::Mount => Some(Action::Run(&self.plan.mount)),
            Phase::Backup => Some(Action::Run(&self.plan.restic)),
            Phase::Unmount => Some(Action::Run(&self.plan.umount)),
            Phase::RemoveDir => Some(Action::RemoveDirectory(&self.plan.mount_dir)),
            Phase::RemoveVolume => Some(Action::Run(&self.plan.lvremove)),
            Phase::Done => None,
        }
    }

    /// Advance by one reported event, exactly as [`step_rel`] prescribes.
    pub fn step(&mut self, ev: Event)
        requires
            old(self).inv(),
        ensures
            final(self).inv(),
            step_rel(*old(self), ev, *final(self)),
    {
        match ev {
            Event::PathProbed(k) => {
                if let Phase::ProbeDir = self.phase {
                    match k {
                        PathKind::Directory => {
                            self.phase = Phase::CreateVolume;
                        },
                        PathKind::OtherFile => {
                            self.acquire_error = Some(
                                BackupError::PathConflict(self.plan.mount_dir.clone()),
                            );
                            self.phase = Phase::Done;
                        },
                        PathKind::Missing => {
                            self.phase = Phase::CreateDir;
                        },
                    }
                }
            },
            Event::DirMade(r) => {
                if let Phase::CreateDir = self.phase {
                    match r {
                        None => {
                            self.phase = Phase::CreateVolume;
                        },
                        Some(m) => {
                            self.acquire_error = Some(
                                BackupError::DirectoryError(self.plan.mount_dir.clone(), m),
                            );
                            self.phase = Phase::Done;
                        },
                    }
                }
            },
            Event::DirRemoved(r) => {
                if let Phase::RemoveDir = self.phase {
                    match r {
                        None => {
                            self.phase = Phase::RemoveVolume;
                        },
                        Some(m) => {
                            if self.release_error.is_none() {
                                self.release_error = Some(
                                    BackupError::DirectoryError(self.plan.mount_dir.clone(), m),
                                );
                            }
                            self.phase = Phase::RemoveVolume;
                        },
                    }
                }
            },
            Event::Ran(o) => {
                match self.phase {
                    Phase::CreateVolume => {
                        match run_success(o) {
                            Ok(_) => {
                                self.phase = Phase::Mount;
                            },
                            Err(e) => {
                                self.acquire_error = Some(e);
                                self.phase = Phase::Done;
                            },
                        }
                    },
                    Phase::Mount => {
                        match run_success(o) {
                            Ok(_) => {
                                self.snapshot = Some(
                                    Snapshot {
                                        vol_path: self.plan.snap_path.clone(),
                                        mount_path: self.plan.mount_dir.clone(),
                                    },
                                );
                                self.acquired = true;
                                self.phase = Phase::Backup;
                            },
                            Err(e) => {
                                self.acquire_error = Some(
                                    BackupError::PartialMountFailure {
                                        vol_group: self.plan.vol_group.clone(),
                                        snapshot_name: self.plan.snapshot_name.clone(),
                                        device: self.plan.snap_path.clone(),
                                        cause: Box::new(e),
                                    },
                                );
                                self.phase = Phase::Done;
                            },
                        }
                    },
                    Phase::Backup => {
                        match run_success(o) {
                            Ok(_) => {},
                            Err(e) => {
                                self.backup_error = Some(e);
                            },
                        }
                        self.phase = Phase::Unmount;
                    },
                    Phase::Unmount => {
                        match run_success(o) {
                            Ok(_) => {},
                            Err(e) => {
                                if self.release_error.is_none() {
                                    self.release_error = Some(e);
                                }
                            },
                        }
                        self.phase = Phase::RemoveDir;
                    },
                    Phase::RemoveVolume => {
                        match run_success(o) {
                            Ok(_) => {},
                            Err(e) => {
                                if self.release_error.is_none() {
                                    self.release_error = Some(e);
                                }
                            },
                        }
                        self.snapshot = None;
                        self.released = true;
                        self.phase = Phase::Done;
                    },
                    _ => {},
                }
            },
        }
    }

    /// Consume the transaction into its reported result, by the documented
    /// precedence: the acquisition error if there was one, else the backup
    /// error, else the first release error.
    pub fn into_result(self) -> (r: Result<(), BackupError>)
        ensures
            r is Ok <==> self.spec_first_error() is None,
            r matches Err(e) ==> Some(e) == self.spec_first_error(),
    {
        match self.acquire_error {
            Some(e) => Err(e),
            None => match self.backup_error {
                Some(e) => Err(e),
                None => match self.release_error {
                    Some(e) => Err(e),
                    None => Ok(()),
                },
            },
        }
    }

    /// The error the transaction reports, by the documented precedence.
    pub fn first_error(&self) -> (r: Option<&BackupError>)
        ensures
            r is Some <==> self.spec_first_error() is Some,
            r matches Some(e) ==> Some(*e) == self.spec_first_error(),
    {
        if self.acquire_error.is_some() {
            self.acquire_error.as_ref()
        } else if self.backup_error.is_some() {
            self.backup_error.as_ref()
        } else {
            self.release_error.as_ref()
        }
    }
}

/// `t1` is where the machine stands after answering the events of `evs`, in
/// order, from `t0`.
pub open spec fn runs_to(t0: Transaction, evs: Seq<Event>, t1: Transaction) -> bool
    decreases evs.len(),
{
    if evs.len() == 0 {
        t1 == t0
    } else {
        exists|mid: Transaction|
            #[trigger] step_rel(t0, evs[0], mid) && runs_to(mid, evs.drop_first(), t1)
    }
}

/// A single step keeps the state invariant.
pub proof fn lemma_step_preserves_inv(pre: Transaction, ev: Event, post: Transaction)
    requires
        pre.inv(),
        step_rel(pre, ev, post),
    ensures
        post.inv(),
{
}

/// Phases only advance, and a step that moves at all moves the phase: no
/// phase is ever re-entered, so a driver that performs one action per phase
/// performs each acquire and release step at most once.
pub proof fn lemma_phase_advances(pre: Transaction, ev: Event, post: Transaction)
    requires
        step_rel(pre, ev, post),
    ensures
        phase_index(post.phase) >= phase_index(pre.phase),
        post.phase == pre.phase ==> post == pre,
{
}

/// A finished transaction never moves again.
pub proof fn lemma_done_is_terminal(pre: Transaction, ev: Event, post: Transaction)
    requires
        step_rel(pre, ev, post),
        pre.phase == Phase::Done,
    ensures
        post == pre,
{
}

/// Every state reachable from a state with the invariant keeps it.
pub proof fn lemma_runs_to_inv(t0: Transaction, evs: Seq<Event>, t1: Transaction)
    requires
        t0.inv(),
        runs_to(t0, evs, t1),
    ensures
        t1.inv(),
    decreases evs.len(),
{
    if evs.len() > 0 {
        let mid = choose|mid: Transaction|
            #[trigger] step_rel(t0, evs[0], mid) && runs_to(mid, evs.drop_first(), t1);
        lemma_step_preserves_inv(t0, evs[0], mid);
        lemma_runs_to_inv(mid, evs.drop_first(), t1);
    }
}

/// Cleanup totality: in any run of the machine, a transaction that completes
/// after its acquire step succeeded has run the release sequence before
/// finishing, whether or not the backup step succeeded, and holds no live
/// snapshot value afterwards.
pub proof fn lemma_cleanup_totality(t0: Transaction, evs: Seq<Event>, t1: Transaction)
    requires
        t0.inv(),
        runs_to(t0, evs, t1),
        t1.phase == Phase::Done,
        t1.acquired,
    ensures
        t1.released,
        t1.snapshot is None,
{
    lemma_runs_to_inv(t0, evs, t1);
}

/// No cleanup without acquisition: in any run of the machine, a transaction
/// whose acquisition failed before a snapshot value was produced has never
/// invoked release — nothing was released, no release step recorded an
/// error, and no snapshot value exists.
pub proof fn lemma_no_release_without_acquisition(t0: Transaction, evs: Seq<Event>, t1: Transaction)
    requires
        t0.inv(),
        runs_to(t0, evs, t1),
        t1.acquire_error is Some,
    ensures
        !t1.acquired,
        !t1.released,
        t1.release_error is None,
        t1.snapshot is None,
{
    lemma_runs_to_inv(t0, evs, t1);
}

} // verus!
