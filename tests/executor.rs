use obt::executor::{run_recorded, Outcome, Retry, Step, RETRY_DELAY_SECS};

fn failed(err: &str) -> Outcome {
    Outcome::Exited { success: false, stdout: String::new(), stderr: err.to_string() }
}

fn succeeded(out: &str) -> Outcome {
    Outcome::Exited { success: true, stdout: out.to_string(), stderr: String::new() }
}

#[test]
fn persistent_failure_uses_every_attempt() {
    let outs = vec![failed("e1"), failed("e2"), failed("e3")];
    let r = run_recorded("tar -czf a.tar.gz -C /x .", 3, &outs);
    assert_eq!(r.invocations, 3);
    assert_eq!(r.delays, 2);
    assert_eq!(r.result, Err("e3".to_string()));
    assert_eq!(RETRY_DELAY_SECS, 5);
}

#[test]
fn spawn_failures_count_as_failed_attempts() {
    let outs = vec![
        Outcome::SpawnFailed { message: "no shell".to_string() },
        Outcome::SpawnFailed { message: "still no shell".to_string() },
    ];
    let r = run_recorded("git push origin main", 2, &outs);
    assert_eq!(r.invocations, 2);
    assert_eq!(r.delays, 1);
    assert_eq!(r.result, Err("still no shell".to_string()));
}

#[test]
fn pull_succeeds_after_one_attempt_whatever_its_status() {
    let outs = vec![failed("nothing to pull"), failed("x"), failed("y")];
    let r = run_recorded("cd /tmp/b && git pull origin main --no-edit", 3, &outs);
    assert_eq!(r.invocations, 1);
    assert_eq!(r.delays, 0);
    assert_eq!(r.result, Ok(String::new()));
}

#[test]
fn success_on_second_attempt_stops_retrying() {
    let outs = vec![failed("busy"), succeeded("done"), failed("never")];
    let r = run_recorded("git push origin main", 3, &outs);
    assert_eq!(r.invocations, 2);
    assert_eq!(r.delays, 1);
    assert_eq!(r.result, Ok("done".to_string()));
}

#[test]
fn single_attempt_gives_up_without_delay() {
    let mut retry = Retry::new("git init", 1);
    match retry.record(&failed("boom")) {
        Step::GaveUp(e) => assert_eq!(e, "boom"),
        _ => panic!("expected to give up"),
    }
}

#[test]
fn retry_counts_attempts() {
    let mut retry = Retry::new("git init", 2);
    assert!(!retry.tolerant);
    assert!(matches!(retry.record(&failed("a")), Step::RetryAfterDelay));
    assert_eq!(retry.attempt, 2);
    assert!(matches!(retry.record(&succeeded("ok")), Step::Succeeded(_)));
}
