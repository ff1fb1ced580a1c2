use obt::input::split_repo_url;
use obt::config::{BackupFrequency, Config, SystemdService};

#[test]
fn calendar_follows_frequency() {
    assert_eq!(SystemdService::calendar(None), "*-*-*");
    assert_eq!(SystemdService::calendar(Some(BackupFrequency::Daily)), "*-*-*");
    assert_eq!(SystemdService::calendar(Some(BackupFrequency::Weekly)), "Mon *-*-*");
    assert_eq!(SystemdService::calendar(Some(BackupFrequency::Monthly)), "*-*-1");
}

#[test]
fn timer_unit_holds_schedule() {
    let mut c = Config::empty();
    c.backup_frequency = Some(BackupFrequency::Weekly);
    c.backup_time = Some("03:15".to_string());
    let t = SystemdService::timer_unit(&c);
    assert!(t.contains("OnCalendar=Mon *-*-* 03:15:00\n"));
    let d = SystemdService::timer_unit(&Config::empty());
    assert!(d.contains("OnCalendar=*-*-* 02:00:00\n"));
}

#[test]
fn service_unit_runs_daemon() {
    let s = SystemdService::service_unit("/usr/bin/obt", "alex");
    assert!(s.contains("ExecStart=/usr/bin/obt --daemon\n"));
    assert!(s.contains("User=alex\n"));
}

#[test]
fn repo_url_splits_at_last_slash() {
    assert_eq!(
        split_repo_url("https://git.example.com/alex/backup"),
        Some(("git.example.com/alex".to_string(), "backup".to_string()))
    );
    assert_eq!(split_repo_url("host//repo"), Some(("host/".to_string(), "repo".to_string())));
    assert_eq!(split_repo_url("https://nohost"), None);
}

#[test]
fn add_path_skips_duplicates() {
    let mut c = Config::empty();
    assert!(c.add_path("/etc".to_string()));
    assert!(!c.add_path("/etc".to_string()));
    assert!(c.add_path("/var".to_string()));
    assert_eq!(c.backup_paths, vec!["/etc".to_string(), "/var".to_string()]);
}
