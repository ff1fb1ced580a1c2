//! The backup pipeline as a step machine.
//!
//! The caller performs each [`Action`] and hands back its [`Event`]; the
//! pipeline decides what comes next. Phases run in a fixed order, and a
//! failure of any phase but the branch probe and the direct archival ends
//! the run before any later phase.

use vstd::prelude::*;
use crate::config::Config;
use crate::naming::{
    archive_name, archive_spec, base_spec, copy_command, copy_spec, direct_tar, direct_tar_spec, endpoint_of,
    folder_name, folder_spec, holding_dir, holding_spec, holding_tar, holding_tar_spec, join, mib_spec,
    mib_text, missing_of, staging_dir, staging_spec, Endpoint, Missing, Target,
};
use crate::plan::{
    archive_lines, archive_list, branch_for, branch_spec, ignore_policy, path_lines, path_list,
    probe_command, probe_spec, publish_command, publish_spec, message_spec, setup_commands, setup_spec,
    sync_command, sync_spec, ignore_spec,
};
use crate::text::{dec, decimal};
use crate::time::{minute_stamp, minute_text, second_stamp, second_text, Moment};

verus! {

/// Attempts given to each command of the run.
pub const COMMAND_ATTEMPTS: u32 = 3;

/// Attempts given to the branch probe.
pub const PROBE_ATTEMPTS: u32 = 2;

/// Why a run stopped.
pub enum PipelineError {
    /// A setting the run needs is absent; nothing was run.
    Precondition(Missing),
    /// A command failed on every attempt; carries its last error.
    Execution(String),
    /// A file operation failed; carries its error.
    Io(String),
}

/// What the caller does next.
pub enum Action {
    /// Create a directory and its parents.
    CreateDir(String),
    /// Run a command through the executor with this many attempts.
    Run { command: String, attempts: u32 },
    /// Write a file only if none stands at the path.
    WriteIfAbsent { path: String, content: String },
    /// Write a file.
    WriteFile { path: String, content: String },
    /// Remove a directory and all it holds.
    RemoveDir(String),
    /// Report the byte size of a file.
    MeasureSize(String),
    /// The run succeeded; record this as the last run.
    Finish { last_backup: String },
    /// The run stopped.
    Abort(PipelineError),
}

/// How the last action went.
pub enum Event {
    /// It succeeded.
    Done,
    /// It failed, with this error text.
    Failed(String),
    /// The size that was asked for, if it could be read.
    Measured(Option<u64>),
}

/// Where a run stands. Each phase waits for the event of its own action.
#[derive(Clone, Copy, Debug, PartialEq, Eq, Structural)]
pub enum Phase {
    Stage,
    Setup(usize),
    Probe,
    Sync(usize),
    Ignore,
    RunDir,
    Direct(usize),
    MeasureDirect(usize),
    HoldDir(usize),
    Copy(usize),
    HoldTar(usize),
    HoldRemove(usize),
    MeasureHold(usize),
    Manifest,
    Publish(usize),
    Cleanup,
    Finished,
    Failed,
}

/// How many archives are recorded when a run stands at `p`.
pub open spec fn recorded_at(p: Phase, n: nat) -> nat {
    match p {
        Phase::Direct(i) => i as nat,
        Phase::MeasureDirect(i) => i as nat,
        Phase::HoldDir(i) => i as nat,
        Phase::Copy(i) => i as nat,
        Phase::HoldTar(i) => i as nat,
        Phase::HoldRemove(i) => i as nat,
        Phase::MeasureHold(i) => i as nat,
        Phase::Manifest => n,
        Phase::Publish(_) => n,
        Phase::Cleanup => n,
        Phase::Finished => n,
        _ => 0,
    }
}

/// The target a phase works on, if any.
pub open spec fn target_of(p: Phase) -> Option<usize> {
    match p {
        Phase::Direct(i) => Some(i),
        Phase::MeasureDirect(i) => Some(i),
        Phase::HoldDir(i) => Some(i),
        Phase::Copy(i) => Some(i),
        Phase::HoldTar(i) => Some(i),
        Phase::HoldRemove(i) => Some(i),
        Phase::MeasureHold(i) => Some(i),
        _ => None,
    }
}

/// Whether a failure event in phase `p` ends the run.
pub open spec fn fatal_in(p: Phase) -> bool {
    !(p is Probe || p is Direct || p is MeasureDirect || p is MeasureHold || p is Finished || p is Failed)
}

/// Whether phase `p` waits on a command.
pub open spec fn runs_command(p: Phase) -> bool {
    p is Setup || p is Sync || p is Copy || p is HoldTar || p is Publish
}

/// The manifest of a run.
pub open spec fn manifest_spec(
    started: Moment,
    folder: Seq<char>,
    total: u64,
    archives: Seq<(String, Option<u64>)>,
    targets: Seq<Target>,
    branch: Seq<char>,
    e: Endpoint,
) -> Seq<char> {
    "OfficialVPN Backup Tool - backup record\n\nDate and time: "@ + second_stamp(started) + " MSK\nBackup name: "@
        + folder + "\nTotal archive size: "@ + mib_spec(total) + " MB\nArchive count: "@ + dec(archives.len())
        + "\n\nArchives:\n"@ + archive_lines(archives) + "\nSource paths:\n"@ + path_lines(targets)
        + "\nDetails:\n- Format: tar.gz (gzip)\n- Time zone: Moscow (MSK)\n- Branch: "@ + branch
        + "\n- Encoding: UTF-8\n\nServer: "@ + e.host@ + "\nUser: "@ + e.username@ + "\n"@
}

/// The size of an archive added to a running total, saturating.
pub open spec fn add_size(total: u64, size: Option<u64>) -> u64 {
    match size {
        Some(n) => if total as int + n as int > u64::MAX as int { u64::MAX } else { (total + n) as u64 },
        None => total,
    }
}

/// One run of the backup pipeline.
pub struct Pipeline {
    pub phase: Phase,
    pub endpoint: Endpoint,
    pub started: Moment,
    /// The per-run folder name.
    pub folder: String,
    /// The staging directory.
    pub staging: String,
    /// The per-run folder inside the staging directory.
    pub run_dir: String,
    /// The branch in use; empty until the probe has answered.
    pub branch: String,
    pub targets: Vec<Target>,
    /// The archives made so far, with their sizes where known.
    pub archives: Vec<(String, Option<u64>)>,
    /// The sum of the known sizes.
    pub total: u64,
    pub setup: Vec<String>,
}

impl Pipeline {
    /// Whether `other` is the same run as `self`, whatever the progress.
    pub open spec fn same_run(&self, other: Pipeline) -> bool {
        &&& other.endpoint == self.endpoint
        &&& other.started == self.started
        &&& other.folder == self.folder
        &&& other.staging == self.staging
        &&& other.run_dir == self.run_dir
        &&& other.targets@ == self.targets@
        &&& other.setup@ == self.setup@
    }

    pub open spec fn wf(&self) -> bool {
        &&& self.shape_wf()
        &&& (!(self.phase is Failed) ==> self.archives@.len() == recorded_at(self.phase, self.targets@.len()))
    }

    /// All of [`Pipeline::wf`] but the count of recorded archives.
    pub open spec fn shape_wf(&self) -> bool {
        &&& self.started.wf()
        &&& self.targets@.len() >= 1
        &&& self.targets@.len() < usize::MAX
        &&& self.staging@ == staging_spec(self.started)
        &&& self.run_dir@ == self.staging@ + "/"@ + self.folder@
        &&& self.setup@.len() == 9
        &&& (forall|k: int| 0 <= k < 9 ==> #[trigger] self.setup@[k]@ == setup_spec(self.staging@, self.endpoint)[k])
        &&& (self.phase matches Phase::Setup(k) ==> k < 9)
        &&& (self.phase matches Phase::Sync(k) ==> k < 3)
        &&& (self.phase matches Phase::Publish(k) ==> k < 4)
        &&& (target_of(self.phase) matches Some(i) ==> i < self.targets@.len())
        &&& self.archives@.len() <= self.targets@.len()
        &&& (forall|j: int| 0 <= j < self.archives@.len() ==> #[trigger] self.archives@[j].0@ == archive_spec(j as nat, self.targets@[j]))
    }

    /// Starts a run of `config` at `now`; `targets` are its configured
    /// paths, in order, as probed on disk. Fails, with nothing to run, when
    /// a setting is missing.
    pub fn start(config: &Config, targets: Vec<Target>, now: Moment) -> (r: Result<(Pipeline, Action), PipelineError>)
        requires
            now.wf(),
            targets@.len() == config.backup_paths@.len(),
            targets@.len() < usize::MAX,
        ensures
            missing_of(*config) matches Some(m) ==> (r matches Err(PipelineError::Precondition(x)) && x == m),
            missing_of(*config) is None ==> (r matches Ok((p, a)) && p.wf() && p.phase == Phase::Stage
                && p.started == now && p.targets@ == targets@ && p.archives@.len() == 0 && p.total == 0
                && p.folder@ == folder_spec(config.backup_name, now)
                && (a matches Action::CreateDir(d) && d@ == staging_spec(now))),
    {
        let endpoint = match endpoint_of(config) {
            Ok(e) => e,
            Err(m) => return Err(PipelineError::Precondition(m)),
        };
        let staging = staging_dir(&now);
        let folder = folder_name(&config.backup_name, &now);
        let run_dir = join(staging.as_str(), folder.as_str());
        let setup = setup_commands(staging.as_str(), &endpoint);
        let first = staging.clone();
        let p = Pipeline {
            phase: Phase::Stage,
            endpoint,
            started: now,
            folder,
            staging,
            run_dir,
            branch: String::new(),
            targets,
            archives: Vec::new(),
            total: 0,
            setup,
        };
        Ok((p, Action::CreateDir(first)))
    }

    /// Whether the run has ended, in success or failure.
    pub fn is_done(&self) -> (r: bool)
        ensures
            r == (self.phase is Finished || self.phase is Failed),
    {
        match self.phase {
            Phase::Finished | Phase::Failed => true,
            _ => false,
        }
    }

    /// The path of the archive of target `i`.
    pub open spec fn archive_path_spec(&self, i: nat) -> Seq<char> {
        self.run_dir@ + "/"@ + archive_spec(i, self.targets@[i as int])
    }

    fn archive_path(&self, i: usize) -> (r: String)
        requires
            self.shape_wf(),
            i < self.targets@.len(),
        ensures
            r@ == self.archive_path_spec(i as nat),
    {
        join(self.run_dir.as_str(), archive_name(i as u64, &self.targets[i]).as_str())
    }

    fn fail(&mut self, e: PipelineError) -> (a: Action)
        requires
            old(self).wf(),
        ensures
            final(self).wf(),
            old(self).same_run(*final(self)),
            final(self).phase == Phase::Failed,
            final(self).branch == old(self).branch,
            final(self).total == old(self).total,
            final(self).archives@ == old(self).archives@,
            final(self).targets@ == old(self).targets@,
            a == Action::Abort(e),
    {
        self.phase = Phase::Failed;
        Action::Abort(e)
    }

    /// The first action for target `i`, or the manifest once all are done.
    fn begin_target(&mut self, i: usize) -> (a: Action)
        requires
            old(self).shape_wf(),
            i <= old(self).targets@.len(),
            old(self).archives@.len() == i,
            !(old(self).phase is Failed),
        ensures
            final(self).wf(),
            old(self).same_run(*final(self)),
            final(self).archives@ == old(self).archives@,
            final(self).targets@ == old(self).targets@,
            final(self).total == old(self).total,
            final(self).branch == old(self).branch,
            i < old(self).targets@.len() ==> (final(self).phase == Phase::Direct(i)
                && (a matches Action::Run { command, attempts } && attempts == COMMAND_ATTEMPTS
                && command@ == direct_tar_spec(old(self).archive_path_spec(i as nat), old(self).targets@[i as int]))),
            i == old(self).targets@.len() ==> (final(self).phase == Phase::Manifest
                && (a matches Action::WriteFile { path, content }
                && path@ == old(self).run_dir@ + "/"@ + "backup_info.txt"@
                && content@ == manifest_spec(old(self).started, old(self).folder@, old(self).total,
                    old(self).archives@, old(self).targets@, old(self).branch@, old(self).endpoint))),
    {
        if i < self.targets.len() {
            let path = self.archive_path(i);
            let command = direct_tar(path.as_str(), &self.targets[i]);
            self.phase = Phase::Direct(i);
            Action::Run { command, attempts: COMMAND_ATTEMPTS }
        } else {
            let content = self.manifest();
            let path = join(self.run_dir.as_str(), "backup_info.txt");
            self.phase = Phase::Manifest;
            Action::WriteFile { path, content }
        }
    }

    /// The manifest of the run as it stands.
    pub fn manifest(&self) -> (r: String)
        ensures
            r@ == manifest_spec(self.started, self.folder@, self.total, self.archives@, self.targets@,
                self.branch@, self.endpoint),
    {
        let mut s = String::from_str("OfficialVPN Backup Tool - backup record\n\nDate and time: ");
        s.append(second_text(&self.started).as_str());
        s.append(" MSK\nBackup name: ");
        s.append(self.folder.as_str());
        s.append("\nTotal archive size: ");
        s.append(mib_text(self.total).as_str());
        s.append(" MB\nArchive count: ");
        s.append(decimal(self.archives.len() as u64).as_str());
        s.append("\n\nArchives:\n");
        s.append(archive_list(&self.archives).as_str());
        s.append("\nSource paths:\n");
        s.append(path_list(&self.targets).as_str());
        s.append("\nDetails:\n- Format: tar.gz (gzip)\n- Time zone: Moscow (MSK)\n- Branch: ");
        s.append(self.branch.as_str());
        s.append("\n- Encoding: UTF-8\n\nServer: ");
        s.append(self.endpoint.host.as_str());
        s.append("\nUser: ");
        s.append(self.endpoint.username.as_str());
        s.append("\n");
        s
    }

    /// Records the archive of target `i` with its size and moves on.
    fn record(&mut self, i: usize, size: Option<u64>) -> (a: Action)
        requires
            old(self).wf(),
            i < old(self).targets@.len(),
            old(self).archives@.len() == i,
            !(old(self).phase is Failed),
        ensures
            final(self).wf(),
            old(self).same_run(*final(self)),
            final(self).targets@ == old(self).targets@,
            final(self).archives@.len() == i + 1,
            final(self).archives@.last().1 == size,
            final(self).archives@.drop_last() == old(self).archives@,
            final(self).total == add_size(old(self).total, size),
            final(self).phase == (if i + 1 < old(self).targets@.len() { Phase::Direct((i + 1) as usize) } else { Phase::Manifest }),
            !(a matches Action::Finish { .. }),
            final(self).branch == old(self).branch,
            i + 1 < old(self).targets@.len() ==> (a matches Action::Run { command, attempts } && attempts == COMMAND_ATTEMPTS
                && command@ == direct_tar_spec(old(self).archive_path_spec((i + 1) as nat), old(self).targets@[i + 1])),
            i + 1 == old(self).targets@.len() ==> (a matches Action::WriteFile { path, content }
                && path@ == old(self).run_dir@ + "/"@ + "backup_info.txt"@
                && content@ == manifest_spec(final(self).started, final(self).folder@, final(self).total,
                    final(self).archives@, final(self).targets@, final(self).branch@, final(self).endpoint)),
    {
        let name = archive_name(i as u64, &self.targets[i]);
        self.archives.push((name, size));
        match size {
            Some(n) => {
                if self.total > u64::MAX - n {
                    self.total = u64::MAX;
                } else {
                    self.total = self.total + n;
                }
            },
            None => {},
        }
        assert(self.archives@.drop_last() =~= old(self).archives@);
        self.begin_target(i + 1)
    }

    /// Takes the event of the last action and says what to do next.
    pub fn next(&mut self, ev: Event) -> (a: Action)
        requires
            old(self).wf(),
            !(old(self).phase is Finished || old(self).phase is Failed),
        ensures
            final(self).wf(),
            old(self).same_run(*final(self)),
            final(self).targets@ == old(self).targets@,
            final(self).started == old(self).started,
            // Any failure of a fatal phase ends the run with its error.
            fatal_in(old(self).phase) && runs_command(old(self).phase) ==> (ev matches Event::Failed(e) ==> (
                final(self).phase == Phase::Failed && (a matches Action::Abort(PipelineError::Execution(x)) && x == e))),
            fatal_in(old(self).phase) && !runs_command(old(self).phase) ==> (ev matches Event::Failed(e) ==> (
                final(self).phase == Phase::Failed && (a matches Action::Abort(PipelineError::Io(x)) && x == e))),
            // Only a completed cleanup finishes the run.
            (a matches Action::Finish { .. }) ==> old(self).phase == Phase::Cleanup,
            old(self).phase == Phase::Cleanup && !(ev is Failed) ==> (final(self).phase == Phase::Finished
                && (a matches Action::Finish { last_backup } && last_backup@ == second_stamp(old(self).started) + " MSK"@)),
            final(self).phase == Phase::Finished ==> old(self).phase == Phase::Cleanup,
            // Each successful step leads to the next one, in order.
            old(self).phase == Phase::Stage && !(ev is Failed) ==> (final(self).phase == Phase::Setup(0)
                && (a matches Action::Run { command, attempts } && attempts == COMMAND_ATTEMPTS
                && command@ == setup_spec(old(self).staging@, old(self).endpoint)[0])),
            old(self).phase matches Phase::Setup(k) ==> (!(ev is Failed) && k + 1 < 9 ==> (final(self).phase == Phase::Setup((k + 1) as usize)
                && (a matches Action::Run { command, attempts } && attempts == COMMAND_ATTEMPTS
                && command@ == setup_spec(old(self).staging@, old(self).endpoint)[k + 1]))),
            old(self).phase == Phase::Setup(8) && !(ev is Failed) ==> (final(self).phase == Phase::Probe
                && (a matches Action::Run { command, attempts } && attempts == PROBE_ATTEMPTS
                && command@ == probe_spec(old(self).staging@))),
            old(self).phase matches Phase::Sync(k) ==> (!(ev is Failed) && k + 1 < 3 ==> (final(self).phase == Phase::Sync((k + 1) as usize)
                && (a matches Action::Run { command, attempts } && attempts == COMMAND_ATTEMPTS
                && command@ == sync_spec(old(self).staging@, old(self).branch@)[k + 1]))),
            old(self).phase == Phase::Sync(2) && !(ev is Failed) ==> (final(self).phase == Phase::Ignore
                && (a matches Action::WriteIfAbsent { path, content }
                && path@ == old(self).staging@ + "/"@ + ".gitignore"@ && content@ == ignore_spec())),
            old(self).phase == Phase::Ignore && !(ev is Failed) ==> (final(self).phase == Phase::RunDir
                && (a matches Action::CreateDir(d) && d@ == old(self).run_dir@)),
            old(self).phase == Phase::RunDir && !(ev is Failed) ==> (final(self).phase == Phase::Direct(0)
                && (a matches Action::Run { command, attempts } && attempts == COMMAND_ATTEMPTS
                && command@ == direct_tar_spec(old(self).archive_path_spec(0), old(self).targets@[0]))),
            (old(self).phase is MeasureDirect || old(self).phase is MeasureHold) ==> (
                target_of(old(self).phase).unwrap() + 1 < old(self).targets@.len() ==> (final(self).phase == Phase::Direct((target_of(old(self).phase).unwrap() + 1) as usize)
                && (a matches Action::Run { command, attempts } && attempts == COMMAND_ATTEMPTS
                && command@ == direct_tar_spec(old(self).archive_path_spec((target_of(old(self).phase).unwrap() + 1) as nat), old(self).targets@[target_of(old(self).phase).unwrap() + 1])))),
            (old(self).phase is MeasureDirect || old(self).phase is MeasureHold) ==> (
                target_of(old(self).phase).unwrap() + 1 == old(self).targets@.len() ==> (final(self).phase == Phase::Manifest
                && (a matches Action::WriteFile { path, content }
                && path@ == old(self).run_dir@ + "/"@ + "backup_info.txt"@
                && content@ == manifest_spec(final(self).started, final(self).folder@, final(self).total,
                    final(self).archives@, final(self).targets@, final(self).branch@, final(self).endpoint)))),
            old(self).phase == Phase::Manifest && !(ev is Failed) ==> (final(self).phase == Phase::Publish(0)
                && (a matches Action::Run { command, attempts } && attempts == COMMAND_ATTEMPTS
                && command@ == old(self).publish_spec_at(0))),
            old(self).phase matches Phase::Publish(k) ==> (!(ev is Failed) && k + 1 < 4 ==> (final(self).phase == Phase::Publish((k + 1) as usize)
                && (a matches Action::Run { command, attempts } && attempts == COMMAND_ATTEMPTS
                && command@ == old(self).publish_spec_at(k + 1)))),
            old(self).phase == Phase::Publish(3) && !(ev is Failed) ==> (final(self).phase == Phase::Cleanup
                && (a matches Action::RemoveDir(d) && d@ == old(self).staging@)),
            !(old(self).phase is Probe) ==> final(self).branch == old(self).branch,
            // The probe decides the branch; its failure is no error.
            old(self).phase == Phase::Probe ==> (final(self).phase == Phase::Sync(0)
                && final(self).branch@ == branch_spec(!(ev is Failed))
                && (a matches Action::Run { command, attempts } && attempts == COMMAND_ATTEMPTS
                && command@ == sync_spec(old(self).staging@, final(self).branch@)[0])),
            // A failed direct archival falls back to a copy in a holding area.
            old(self).phase matches Phase::Direct(i) ==> (ev is Failed ==> (final(self).phase == Phase::HoldDir(i)
                && (a matches Action::CreateDir(d) && d@ == holding_spec(i as nat)))),
            old(self).phase matches Phase::Direct(i) ==> (!(ev is Failed) ==> (final(self).phase == Phase::MeasureDirect(i)
                && (a matches Action::MeasureSize(f) && f@ == old(self).archive_path_spec(i as nat)))),
            old(self).phase matches Phase::HoldDir(i) ==> (!(ev is Failed) ==> (final(self).phase == Phase::Copy(i)
                && (a matches Action::Run { command, attempts } && attempts == COMMAND_ATTEMPTS
                && command@ == copy_spec(old(self).targets@[i as int], holding_spec(i as nat))))),
            old(self).phase matches Phase::Copy(i) ==> (!(ev is Failed) ==> (final(self).phase == Phase::HoldTar(i)
                && (a matches Action::Run { command, attempts } && attempts == COMMAND_ATTEMPTS
                && command@ == holding_tar_spec(old(self).archive_path_spec(i as nat), holding_spec(i as nat))))),
            old(self).phase matches Phase::HoldTar(i) ==> (!(ev is Failed) ==> (final(self).phase == Phase::HoldRemove(i)
                && (a matches Action::RemoveDir(d) && d@ == holding_spec(i as nat)))),
            old(self).phase matches Phase::HoldRemove(i) ==> (!(ev is Failed) ==> (final(self).phase == Phase::MeasureHold(i)
                && (a matches Action::MeasureSize(f) && f@ == old(self).archive_path_spec(i as nat)))),
            // A measured archive is recorded with its size.
            (old(self).phase is MeasureDirect || old(self).phase is MeasureHold) ==> (
                final(self).archives@.len() == old(self).archives@.len() + 1
                && final(self).archives@.drop_last() == old(self).archives@
                && final(self).archives@.last().1 == (match ev { Event::Measured(s) => s, _ => None })
                && final(self).total == add_size(old(self).total, match ev { Event::Measured(s) => s, _ => None })),
            !(old(self).phase is MeasureDirect || old(self).phase is MeasureHold) ==> final(self).archives@ == old(self).archives@,
    {
        let failed = match &ev {
            Event::Failed(_) => true,
            _ => false,
        };
        match self.phase {
            Phase::Stage => {
                if let Event::Failed(e) = ev {
                    return self.fail(PipelineError::Io(e));
                }
                self.phase = Phase::Setup(0);
                Action::Run { command: self.setup[0].clone(), attempts: COMMAND_ATTEMPTS }
            },
            Phase::Setup(k) => {
                if let Event::Failed(e) = ev {
                    return self.fail(PipelineError::Execution(e));
                }
                if k + 1 < 9 {
                    self.phase = Phase::Setup(k + 1);
                    Action::Run { command: self.setup[k + 1].clone(), attempts: COMMAND_ATTEMPTS }
                } else {
                    self.phase = Phase::Probe;
                    Action::Run { command: probe_command(self.staging.as_str()), attempts: PROBE_ATTEMPTS }
                }
            },
            Phase::Probe => {
                self.branch = branch_for(!failed);
                self.phase = Phase::Sync(0);
                Action::Run {
                    command: sync_command(0, self.staging.as_str(), self.branch.as_str()),
                    attempts: COMMAND_ATTEMPTS,
                }
            },
            Phase::Sync(k) => {
                if let Event::Failed(e) = ev {
                    return self.fail(PipelineError::Execution(e));
                }
                if k + 1 < 3 {
                    self.phase = Phase::Sync(k + 1);
                    Action::Run {
                        command: sync_command(k + 1, self.staging.as_str(), self.branch.as_str()),
                        attempts: COMMAND_ATTEMPTS,
                    }
                } else {
                    self.phase = Phase::Ignore;
                    let content = ignore_policy();
                    Action::WriteIfAbsent { path: join(self.staging.as_str(), ".gitignore"), content }
                }
            },
            Phase::Ignore => {
                if let Event::Failed(e) = ev {
                    return self.fail(PipelineError::Io(e));
                }
                self.phase = Phase::RunDir;
                Action::CreateDir(self.run_dir.clone())
            },
            Phase::RunDir => {
                if let Event::Failed(e) = ev {
                    return self.fail(PipelineError::Io(e));
                }
                self.begin_target(0)
            },
            Phase::Direct(i) => {
                if failed {
                    self.phase = Phase::HoldDir(i);
                    Action::CreateDir(holding_dir(i as u64))
                } else {
                    self.phase = Phase::MeasureDirect(i);
                    Action::MeasureSize(self.archive_path(i))
                }
            },
            Phase::MeasureDirect(i) | Phase::MeasureHold(i) => {
                let size = match ev {
                    Event::Measured(s) => s,
                    _ => None,
                };
                self.record(i, size)
            },
            Phase::HoldDir(i) => {
                if let Event::Failed(e) = ev {
                    return self.fail(PipelineError::Io(e));
                }
                self.phase = Phase::Copy(i);
                let hold = holding_dir(i as u64);
                Action::Run { command: copy_command(&self.targets[i], hold.as_str()), attempts: COMMAND_ATTEMPTS }
            },
            Phase::Copy(i) => {
                if let Event::Failed(e) = ev {
                    return self.fail(PipelineError::Execution(e));
                }
                self.phase = Phase::HoldTar(i);
                let hold = holding_dir(i as u64);
                let path = self.archive_path(i);
                Action::Run { command: holding_tar(path.as_str(), hold.as_str()), attempts: COMMAND_ATTEMPTS }
            },
            Phase::HoldTar(i) => {
                if let Event::Failed(e) = ev {
                    return self.fail(PipelineError::Execution(e));
                }
                self.phase = Phase::HoldRemove(i);
                Action::RemoveDir(holding_dir(i as u64))
            },
            Phase::HoldRemove(i) => {
                if let Event::Failed(e) = ev {
                    return self.fail(PipelineError::Io(e));
                }
                self.phase = Phase::MeasureHold(i);
                Action::MeasureSize(self.archive_path(i))
            },
            Phase::Manifest => {
                if let Event::Failed(e) = ev {
                    return self.fail(PipelineError::Io(e));
                }
                self.phase = Phase::Publish(0);
                Action::Run { command: self.publish(0), attempts: COMMAND_ATTEMPTS }
            },
            Phase::Publish(k) => {
                if let Event::Failed(e) = ev {
                    return self.fail(PipelineError::Execution(e));
                }
                if k + 1 < 4 {
                    self.phase = Phase::Publish(k + 1);
                    Action::Run { command: self.publish(k + 1), attempts: COMMAND_ATTEMPTS }
                } else {
                    self.phase = Phase::Cleanup;
                    Action::RemoveDir(self.staging.clone())
                }
            },
            Phase::Cleanup => {
                if let Event::Failed(e) = ev {
                    return self.fail(PipelineError::Io(e));
                }
                self.phase = Phase::Finished;
                let mut stamp = second_text(&self.started);
                stamp.append(" MSK");
                Action::Finish { last_backup: stamp }
            },
            Phase::Finished | Phase::Failed => {
                Action::Abort(PipelineError::Io(String::new()))
            },
        }
    }

    /// The publishing command at position `k` for this run.
    pub open spec fn publish_spec_at(&self, k: int) -> Seq<char> {
        publish_spec(self.staging@, self.branch@,
            message_spec(self.folder@, self.archives@.len(), self.total, minute_stamp(self.started)))[k]
    }

    /// The publishing command at position `k` for this run.
    pub fn publish(&self, k: usize) -> (r: String)
        requires
            k < 4,
        ensures
            r@ == self.publish_spec_at(k as int),
    {
        publish_command(k, self.staging.as_str(), self.branch.as_str(), self.folder.as_str(),
            self.archives.len() as u64, self.total, minute_text(&self.started).as_str())
    }
}

/// Once every target of a run with one file and then one directory is
/// archived, exactly two archives are recorded: `file_1_...` and `dir_2_...`.
pub proof fn lemma_file_and_dir_archives(p: Pipeline)
    requires
        p.wf(),
        p.phase is Manifest || p.phase is Publish || p.phase is Cleanup || p.phase is Finished,
        p.targets@.len() == 2,
        p.targets@[0].is_file,
        !p.targets@[1].is_file,
    ensures
        p.archives@.len() == 2,
        p.archives@[0].0@ == "file_"@ + seq!['1'] + "_"@ + base_spec(p.targets@[0]) + ".tar.gz"@,
        p.archives@[1].0@ == "dir_"@ + seq!['2'] + "_"@ + base_spec(p.targets@[1]) + ".tar.gz"@,
{
    assert(dec(1) == seq!['1']);
    assert(dec(2) == seq!['2']);
    assert(p.archives@[0].0@ == archive_spec(0, p.targets@[0]));
    assert(p.archives@[1].0@ == archive_spec(1, p.targets@[1]));
}


} // verus!
