//! The configuration that the core reads, and the service descriptors that
//! are generated from it.

use vstd::prelude::*;

verus! {

/// How often the scheduled backup runs.
#[derive(Clone, Copy, Debug, PartialEq, Eq, Structural)]
pub enum BackupFrequency {
    Daily,
    Weekly,
    Monthly,
}

/// The persisted settings of the backup agent.
#[derive(Clone, Debug)]
pub struct Config {
    pub gitea_url: Option<String>,
    pub gitea_repo: Option<String>,
    pub gitea_username: Option<String>,
    pub gitea_password: Option<String>,
    pub backup_paths: Vec<String>,
    pub last_backup: Option<String>,
    pub backup_name: Option<String>,
    pub backup_frequency: Option<BackupFrequency>,
    pub backup_time: Option<String>,
}

impl Config {
    /// The settings before anything is configured.
    pub fn empty() -> (r: Config)
        ensures
            r.gitea_url is None,
            r.gitea_repo is None,
            r.gitea_username is None,
            r.gitea_password is None,
            r.backup_paths@.len() == 0,
            r.last_backup is None,
            r.backup_name is None,
            r.backup_frequency is None,
            r.backup_time is None,
    {
        Config {
            gitea_url: None,
            gitea_repo: None,
            gitea_username: None,
            gitea_password: None,
            backup_paths: Vec::new(),
            last_backup: None,
            backup_name: None,
            backup_frequency: None,
            backup_time: None,
        }
    }
}

/// The calendar expression of a frequency; daily when none is set.
pub open spec fn calendar_of(f: Option<BackupFrequency>) -> Seq<char> {
    match f {
        Some(BackupFrequency::Weekly) => "Mon *-*-*"@,
        Some(BackupFrequency::Monthly) => "*-*-1"@,
        _ => "*-*-*"@,
    }
}

/// The time of day of the timer; 02:00 when none is set.
pub open spec fn timer_time(t: Option<String>) -> Seq<char> {
    match t {
        Some(s) => s@,
        None => "02:00"@,
    }
}

/// The service-manager unit that runs the agent as a daemon.
pub open spec fn service_spec(exe: Seq<char>, user: Seq<char>) -> Seq<char> {
    "[Unit]\nDescription=OfficialVPN Backup Tool\nAfter=network.target\n\n[Service]\nType=simple\nExecStart="@
        + exe + " --daemon\nRestart=always\nUser="@ + user
        + "\n\n[Install]\nWantedBy=multi-user.target\n"@
}

/// The timer unit for the configured schedule.
pub open spec fn timer_spec(f: Option<BackupFrequency>, t: Option<String>) -> Seq<char> {
    "[Unit]\nDescription=OfficialVPN Backup Tool Timer\n\n[Timer]\nOnCalendar="@ + calendar_of(f) + " "@
        + timer_time(t) + ":00\nPersistent=true\n\n[Install]\nWantedBy=timers.target\n"@
}

/// Generates the service-manager descriptors of the daemon.
pub struct SystemdService;

impl SystemdService {
    /// The calendar expression for `f`.
    pub fn calendar(f: Option<BackupFrequency>) -> (r: &'static str)
        ensures
            r@ == calendar_of(f),
    {
        match f {
            Some(BackupFrequency::Weekly) => "Mon *-*-*",
            Some(BackupFrequency::Monthly) => "*-*-1",
            _ => "*-*-*",
        }
    }

    /// The service unit for the executable `exe`, run as `user`.
    pub fn service_unit(exe: &str, user: &str) -> (r: String)
        ensures
            r@ == service_spec(exe@, user@),
    {
        let mut s = String::from_str(
            "[Unit]\nDescription=OfficialVPN Backup Tool\nAfter=network.target\n\n[Service]\nType=simple\nExecStart=",
        );
        s.append(exe);
        s.append(" --daemon\nRestart=always\nUser=");
        s.append(user);
        s.append("\n\n[Install]\nWantedBy=multi-user.target\n");
        s
    }

    /// The timer unit for the schedule in `config`.
    pub fn timer_unit(config: &Config) -> (r: String)
        ensures
            r@ == timer_spec(config.backup_frequency, config.backup_time),
    {
        let mut s = String::from_str("[Unit]\nDescription=OfficialVPN Backup Tool Timer\n\n[Timer]\nOnCalendar=");
        s.append(Self::calendar(config.backup_frequency));
        s.append(" ");
        match &config.backup_time {
            Some(t) => s.append(t.as_str()),
            None => s.append("02:00"),
        }
        s.append(":00\nPersistent=true\n\n[Install]\nWantedBy=timers.target\n");
        s
    }
}

} // verus!
